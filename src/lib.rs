//! Selects fonts for the CJK generic families (serif, sans-serif, monospace).
//!
//! The library holds the decisions: where alias files and the generated
//! configuration live, how a font family name is read out of an alias file,
//! in which order the three lookups run and when they stop, and the fontconfig
//! document itself. Reading and writing files is left to the caller.
pub mod args;
pub mod error;
pub mod lookup;
pub mod path;
pub mod template;
pub mod text;
