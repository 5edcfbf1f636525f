//! The failure to read a font family name out of an alias file.
use vstd::prelude::*;

verus! {

/// Why an alias file could not be read: a description, the path that was
/// tried, and the underlying cause as reported by the operating system.
#[derive(Debug)]
pub struct ReadFontNameError {
    pub description: String,
    pub path: String,
    pub cause: String,
}

/// Opening line of an error's message; the path follows it.
pub const READ_ERROR_PREFIX: &'static str = "error while reading ";

impl ReadFontNameError {
    /// An error with the given description, path and cause.
    pub fn new(description: String, path: String, cause: String) -> (e: ReadFontNameError)
        ensures
            e.description@ == description@,
            e.path@ == path@,
            e.cause@ == cause@,
    {
        ReadFontNameError { description, path, cause }
    }

    /// The message shown for this error: it names the path that was tried.
    pub open spec fn message_of(&self) -> Seq<char> {
        READ_ERROR_PREFIX@ + self.path@
    }

    /// The message shown for this error.
    pub fn message(&self) -> (r: String)
        ensures
            r@ == self.message_of(),
    {
        String::from_str(READ_ERROR_PREFIX).concat(self.path.as_str())
    }
}

} // verus!
