//! Looking up the three font family names: where each alias file lies, what
//! a read of it yields, and the order in which the reads run.
use vstd::prelude::*;

use crate::error::ReadFontNameError;
use crate::path::{join_path, joined};
use crate::text::{trim, trimmed};

verus! {

/// The three categories of aliases, each a subdirectory of the alias root.
#[derive(Clone, Copy, Debug, PartialEq, Eq)]
pub enum Category {
    Sans,
    Serif,
    Monospace,
}

pub const SANS_DIR: &'static str = "sans";

pub const SERIF_DIR: &'static str = "serif";

pub const MONOSPACE_DIR: &'static str = "monospace";

/// Description of an alias file that could not be opened.
pub const OPEN_FAILED: &'static str = "failed to open file";

/// Description of an alias file that was opened but could not be read as text.
pub const READ_FAILED: &'static str = "failed to read contents";

impl Category {
    /// Name of the category's subdirectory of the alias root.
    pub open spec fn dir_name(self) -> Seq<char> {
        match self {
            Category::Sans => SANS_DIR@,
            Category::Serif => SERIF_DIR@,
            Category::Monospace => MONOSPACE_DIR@,
        }
    }

    /// Name of the category, which is also its subdirectory of the alias root.
    pub fn name(&self) -> (r: &'static str)
        ensures
            r@ == self.dir_name(),
    {
        match self {
            Category::Sans => SANS_DIR,
            Category::Serif => SERIF_DIR,
            Category::Monospace => MONOSPACE_DIR,
        }
    }
}

/// The categories in lookup order: sans, then serif, then monospace.
pub open spec fn category_at(i: int) -> Category {
    if i == 0 {
        Category::Sans
    } else if i == 1 {
        Category::Serif
    } else {
        Category::Monospace
    }
}

/// Path of the alias file `alias` of `category` under `root`.
pub open spec fn alias_file(root: Seq<char>, category: Category, alias: Seq<char>) -> Seq<char> {
    joined(joined(root, category.dir_name()), alias)
}

/// The path of the alias file `alias` of `category` under `alias_root`.
/// The alias is used as it is, path separators and `..` included.
pub fn alias_file_path(alias_root: &str, category: Category, alias: &str) -> (r: String)
    ensures
        r@ == alias_file(alias_root@, category, alias@),
{
    let dir = join_path(alias_root, category.name());
    join_path(dir.as_str(), alias)
}

/// What came of reading an alias file: its text, or the cause of a failure
/// to open it or to read it as text.
#[derive(Debug)]
pub enum FileRead {
    Contents(String),
    OpenFailed(String),
    ReadFailed(String),
}

/// Description and cause of the error that a failed read reports.
pub open spec fn read_failure(read: FileRead) -> Option<(Seq<char>, Seq<char>)> {
    match read {
        FileRead::Contents(_) => None,
        FileRead::OpenFailed(cause) => Some((OPEN_FAILED@, cause@)),
        FileRead::ReadFailed(cause) => Some((READ_FAILED@, cause@)),
    }
}

/// `e` reports the failed read `read` of the file at `path`.
pub open spec fn reports(e: ReadFontNameError, path: Seq<char>, read: FileRead) -> bool {
    &&& read_failure(read) == Some((e.description@, e.cause@))
    &&& e.path@ == path
}

/// The font family name that the read `read` of the alias file at `path`
/// yields: its trimmed text, or an error that names the path.
pub fn read_font_name(path: &str, read: FileRead) -> (r: Result<String, ReadFontNameError>)
    ensures
        match read {
            FileRead::Contents(contents) => r matches Ok(name) && name@ == trimmed(contents@),
            _ => r matches Err(e) && reports(e, path@, read),
        },
{
    match read {
        FileRead::Contents(contents) => Ok(trim(contents.as_str())),
        FileRead::OpenFailed(cause) => Err(
            ReadFontNameError::new(String::from_str(OPEN_FAILED), String::from_str(path), cause),
        ),
        FileRead::ReadFailed(cause) => Err(
            ReadFontNameError::new(String::from_str(READ_FAILED), String::from_str(path), cause),
        ),
    }
}

/// The three font family names, one per category.
#[derive(Debug)]
pub struct FontNames {
    pub sans: String,
    pub serif: String,
    pub monospace: String,
}

/// The lookup that failed, and why.
#[derive(Debug)]
pub struct LookupFailure {
    pub category: Category,
    pub error: ReadFontNameError,
}

/// The lookups of one run. They go in a fixed order, sans, then serif, then
/// monospace, one read each, and the first failure ends them.
pub struct FontLookup {
    alias_root: String,
    aliases: Vec<String>,
    names: Vec<String>,
    failure: Option<LookupFailure>,
}

impl FontLookup {
    #[verifier::type_invariant]
    spec fn well_formed(self) -> bool {
        &&& self.aliases.len() == 3
        &&& self.names.len() <= 3
    }

    /// Directory that holds the three categories' subdirectories.
    pub closed spec fn root(&self) -> Seq<char> {
        self.alias_root@
    }

    /// The alias identifiers, in lookup order.
    pub closed spec fn aliases(&self) -> Seq<Seq<char>> {
        self.aliases@.map_values(|a: String| a@)
    }

    /// The font family names found so far, in lookup order.
    pub closed spec fn found(&self) -> Seq<Seq<char>> {
        self.names@.map_values(|n: String| n@)
    }

    /// The failure that ended the lookups, if one did.
    pub closed spec fn failed_with(&self) -> Option<LookupFailure> {
        self.failure
    }

    /// The read to make next, as its category and the path of its file:
    /// none once all three names are found or a read has failed.
    pub open spec fn pending(&self) -> Option<(Category, Seq<char>)> {
        let i = self.found().len() as int;
        if self.failed_with() is None && i < 3 {
            Some((category_at(i), alias_file(self.root(), category_at(i), self.aliases()[i])))
        } else {
            None
        }
    }

    /// `after` is `before` once the pending read has come back as `read`: a
    /// name is added, or the lookups end with the error that reports it.
    pub open spec fn step(before: FontLookup, read: FileRead, after: FontLookup) -> bool {
        let (category, path) = before.pending()->0;
        &&& after.root() == before.root()
        &&& after.aliases() == before.aliases()
        &&& match read {
            FileRead::Contents(contents) => {
                &&& after.found() == before.found().push(trimmed(contents@))
                &&& after.failed_with() is None
            },
            _ => {
                &&& after.found() == before.found()
                &&& after.failed_with() matches Some(f) && f.category == category && reports(
                    f.error,
                    path,
                    read,
                )
            },
        }
    }

    /// Lookups of the aliases `sans`, `serif` and `monospace` under `alias_root`.
    pub fn new(alias_root: &str, sans: &str, serif: &str, monospace: &str) -> (l: FontLookup)
        ensures
            l.root() == alias_root@,
            l.aliases() == seq![sans@, serif@, monospace@],
            l.found() == Seq::<Seq<char>>::empty(),
            l.failed_with() is None,
    {
        let l = FontLookup {
            alias_root: String::from_str(alias_root),
            aliases: vec![String::from_str(sans), String::from_str(serif), String::from_str(monospace)],
            names: Vec::new(),
            failure: None,
        };
        assert(l.aliases() =~= seq![sans@, serif@, monospace@]);
        assert(l.found() =~= Seq::<Seq<char>>::empty());
        l
    }

    /// The read to make next, if any.
    pub fn next_read(&self) -> (r: Option<(Category, String)>)
        ensures
            match r {
                Some((category, path)) => self.pending() == Some((category, path@)),
                None => self.pending() is None,
            },
    {
        proof {
            use_type_invariant(self);
        }
        let i = self.names.len();
        if self.failure.is_some() || i >= 3 {
            return None;
        }
        let category = if i == 0 {
            Category::Sans
        } else if i == 1 {
            Category::Serif
        } else {
            Category::Monospace
        };
        let path = alias_file_path(self.alias_root.as_str(), category, self.aliases[i].as_str());
        Some((category, path))
    }

    /// Takes in what the pending read came back with, and returns the font
    /// family name that it yielded, if it succeeded.
    pub fn record(&mut self, read: FileRead) -> (r: Option<String>)
        requires
            old(self).pending() is Some,
        ensures
            Self::step(*old(self), read, *final(self)),
            match read {
                FileRead::Contents(contents) => r matches Some(name) && name@ == trimmed(
                    contents@,
                ),
                _ => r is None,
            },
    {
        proof {
            use_type_invariant(&*self);
        }
        let ghost before = *self;
        let i = self.names.len();
        let category = if i == 0 {
            Category::Sans
        } else if i == 1 {
            Category::Serif
        } else {
            Category::Monospace
        };
        let path = alias_file_path(self.alias_root.as_str(), category, self.aliases[i].as_str());
        match read_font_name(path.as_str(), read) {
            Ok(name) => {
                let mut names = self.names.clone();
                names.push(name.clone());
                self.names = names;
                assert(self.found() =~= before.found().push(name@));
                Some(name)
            },
            Err(error) => {
                self.failure = Some(LookupFailure { category, error });
                None
            },
        }
    }

    /// The three names, or the failure that ended the lookups.
    pub fn finish(self) -> (r: Result<FontNames, LookupFailure>)
        requires
            self.pending() is None,
        ensures
            match self.failed_with() {
                Some(f) => r == Err::<FontNames, LookupFailure>(f),
                None => r matches Ok(names) && {
                    &&& names.sans@ == self.found()[0]
                    &&& names.serif@ == self.found()[1]
                    &&& names.monospace@ == self.found()[2]
                },
            },
    {
        proof {
            use_type_invariant(&self);
        }
        let FontLookup { alias_root: _, aliases: _, names, failure } = self;
        match failure {
            Some(f) => Err(f),
            None => {
                let mut names = names;
                let monospace = names.pop().unwrap();
                let serif = names.pop().unwrap();
                let sans = names.pop().unwrap();
                Ok(FontNames { sans, serif, monospace })
            },
        }
    }
}

/// A failed read ends the lookups: nothing further is read, and the failure
/// names the category and the path of the file that could not be read.
pub proof fn lemma_first_failure_halts(before: FontLookup, read: FileRead, after: FontLookup)
    requires
        before.pending() is Some,
        FontLookup::step(before, read, after),
        !(read is Contents),
    ensures
        after.pending() is None,
        before.pending() matches Some((category, path)) ==> after.failed_with() matches Some(f)
            && f.category == category && f.error.path@ == path,
{
}

/// Three successful reads go to the sans, serif and monospace files of the
/// three aliases, in that order, and find the trimmed contents of each;
/// then the lookups are done.
pub proof fn lemma_reads_in_order(
    l0: FontLookup,
    l1: FontLookup,
    l2: FontLookup,
    l3: FontLookup,
    sans: String,
    serif: String,
    monospace: String,
)
    requires
        l0.found().len() == 0,
        l0.failed_with() is None,
        FontLookup::step(l0, FileRead::Contents(sans), l1),
        FontLookup::step(l1, FileRead::Contents(serif), l2),
        FontLookup::step(l2, FileRead::Contents(monospace), l3),
    ensures
        l0.pending() == Some((Category::Sans, alias_file(l0.root(), Category::Sans, l0.aliases()[0]))),
        l1.pending() == Some(
            (Category::Serif, alias_file(l0.root(), Category::Serif, l0.aliases()[1])),
        ),
        l2.pending() == Some(
            (Category::Monospace, alias_file(l0.root(), Category::Monospace, l0.aliases()[2])),
        ),
        l3.pending() is None,
        l3.failed_with() is None,
        l3.found() == seq![trimmed(sans@), trimmed(serif@), trimmed(monospace@)],
{
    assert(l3.found() =~= seq![trimmed(sans@), trimmed(serif@), trimmed(monospace@)]);
}

} // verus!
