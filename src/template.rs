//! The fontconfig document that binds the three generic families.
use vstd::prelude::*;

use crate::lookup::{FileRead, FontLookup, lemma_reads_in_order};
use crate::path::config_file_of;
use crate::text::trimmed;

verus! {

/// XML declaration, document type and the opening `<fontconfig>` tag.
pub const PROLOG: &'static str = "<?xml version=\"1.0\"?>\n<!DOCTYPE fontconfig SYSTEM \"fonts.dtd\">\n<fontconfig>\n";

/// Start of a rule, up to the generic family that it matches.
pub const RULE_MATCH: &'static str = "    <match target=\"pattern\">\n        <test qual=\"any\" name=\"family\">\n            <string>";

/// End of a rule's test.
pub const RULE_TEST_END: &'static str = "</string>\n        </test>\n";

/// Start of a rule's edit, up to the family that it puts first, with strong
/// binding.
pub const EDIT_PREPEND_STRONG: &'static str = "        <edit name=\"family\" mode=\"prepend\" binding=\"strong\">\n            <string>";

/// End of a rule.
pub const RULE_END: &'static str = "</string>\n        </edit>\n    </match>\n";

/// The closing `</fontconfig>` tag.
pub const EPILOG: &'static str = "</fontconfig>\n";

/// Generic family names, as fontconfig spells them.
pub const GENERIC_SERIF: &'static str = "serif";

pub const GENERIC_SANS: &'static str = "sans-serif";

pub const GENERIC_MONOSPACE: &'static str = "monospace";

/// A rule that puts `family` first, with strong binding, wherever the
/// generic family `generic` is asked for. Names go in as they are, with no
/// XML escaping.
pub open spec fn rule(generic: Seq<char>, family: Seq<char>) -> Seq<char> {
    RULE_MATCH@ + generic + RULE_TEST_END@ + EDIT_PREPEND_STRONG@ + family + RULE_END@
}

/// The document: the serif rule, then the sans-serif rule, then the
/// monospace rule.
pub open spec fn document(sans: Seq<char>, serif: Seq<char>, monospace: Seq<char>) -> Seq<char> {
    PROLOG@ + rule(GENERIC_SERIF@, serif) + rule(GENERIC_SANS@, sans) + rule(
        GENERIC_MONOSPACE@,
        monospace,
    ) + EPILOG@
}

/// Appends to `doc` the rule that binds `generic` to `family`.
fn push_rule(doc: &mut String, generic: &str, family: &str)
    ensures
        final(doc)@ == old(doc)@ + rule(generic@, family@),
{
    doc.append(RULE_MATCH);
    doc.append(generic);
    doc.append(RULE_TEST_END);
    doc.append(EDIT_PREPEND_STRONG);
    doc.append(family);
    doc.append(RULE_END);
    assert(doc@ =~= old(doc)@ + rule(generic@, family@));
}

/// Renders the configuration document for the three font family names.
pub fn generate_xml(sans: &str, serif: &str, monospace: &str) -> (r: String)
    ensures
        r@ == document(sans@, serif@, monospace@),
{
    let mut doc = String::from_str(PROLOG);
    push_rule(&mut doc, GENERIC_SERIF, serif);
    push_rule(&mut doc, GENERIC_SANS, sans);
    push_rule(&mut doc, GENERIC_MONOSPACE, monospace);
    doc.append(EPILOG);
    doc
}

/// Rendering depends on the three names alone: the same names give the same
/// document, character for character.
pub proof fn lemma_render_deterministic(
    sans: Seq<char>,
    serif: Seq<char>,
    monospace: Seq<char>,
    sans_again: Seq<char>,
    serif_again: Seq<char>,
    monospace_again: Seq<char>,
)
    requires
        sans == sans_again,
        serif == serif_again,
        monospace == monospace_again,
    ensures
        document(sans, serif, monospace) == document(sans_again, serif_again, monospace_again),
{
}

/// When the lookups of a run find the sans, serif and monospace alias files
/// with the contents `sans`, `serif` and `monospace`, the document rendered
/// from what they found holds three rules: serif bound to the trimmed serif
/// contents, sans-serif to the trimmed sans contents, monospace to the
/// trimmed monospace contents, each put first with strong binding.
pub proof fn lemma_document_binds_alias_contents(
    l0: FontLookup,
    l1: FontLookup,
    l2: FontLookup,
    l3: FontLookup,
    sans: String,
    serif: String,
    monospace: String,
)
    requires
        l0.found().len() == 0,
        l0.failed_with() is None,
        FontLookup::step(l0, FileRead::Contents(sans), l1),
        FontLookup::step(l1, FileRead::Contents(serif), l2),
        FontLookup::step(l2, FileRead::Contents(monospace), l3),
    ensures
        l3.pending() is None,
        document(l3.found()[0], l3.found()[1], l3.found()[2]) == PROLOG@ + (RULE_MATCH@
            + GENERIC_SERIF@ + RULE_TEST_END@ + EDIT_PREPEND_STRONG@ + trimmed(serif@)
            + RULE_END@) + (RULE_MATCH@ + GENERIC_SANS@ + RULE_TEST_END@ + EDIT_PREPEND_STRONG@
            + trimmed(sans@) + RULE_END@) + (RULE_MATCH@ + GENERIC_MONOSPACE@ + RULE_TEST_END@
            + EDIT_PREPEND_STRONG@ + trimmed(monospace@) + RULE_END@) + EPILOG@,
{
    lemma_reads_in_order(l0, l1, l2, l3, sans, serif, monospace);
}

/// A second run with the same flag, the same environment and the same alias
/// contents as a first writes the same document to the same file: what a
/// run writes depends on nothing that an earlier run left behind, so the file
/// is replaced by identical content, with its three rules and no more.
pub proof fn lemma_rerun_writes_same_file(
    is_system_wide: bool,
    xdg_config_home: Option<Seq<char>>,
    home: Option<Seq<char>>,
    contents: (Seq<char>, Seq<char>, Seq<char>),
    is_system_wide_again: bool,
    xdg_config_home_again: Option<Seq<char>>,
    home_again: Option<Seq<char>>,
    contents_again: (Seq<char>, Seq<char>, Seq<char>),
)
    requires
        is_system_wide == is_system_wide_again,
        xdg_config_home == xdg_config_home_again,
        home == home_again,
        contents == contents_again,
    ensures
        config_file_of(is_system_wide, xdg_config_home, home) == config_file_of(
            is_system_wide_again,
            xdg_config_home_again,
            home_again,
        ),
        document(trimmed(contents.0), trimmed(contents.1), trimmed(contents.2)) == document(
            trimmed(contents_again.0),
            trimmed(contents_again.1),
            trimmed(contents_again.2),
        ),
        document(trimmed(contents.0), trimmed(contents.1), trimmed(contents.2)) == PROLOG@
            + rule(GENERIC_SERIF@, trimmed(contents.1)) + rule(GENERIC_SANS@, trimmed(contents.0))
            + rule(GENERIC_MONOSPACE@, trimmed(contents.2)) + EPILOG@,
{
}

} // verus!
