//! Single-object sheet persistence: one typed value maps to exactly one file
//! on disk, keyed by a fixed per-kind file extension.
//!
//! The sheet kinds form a closed tagged union; a path is routed to a kind by
//! one lookup on its extension. The file I/O itself is done by the caller;
//! this module owns the path and extension rules.

use vstd::prelude::*;
use crate::text::{rsplit_once, split_last, str_eq};

verus! {

/// The kinds of player-authored sheet the manager persists.
#[derive(Clone, Copy, Debug, PartialEq, Eq, Structural)]
pub enum SheetKind {
    Character,
    Race,
    Class,
}

impl SheetKind {
    /// The type tag of this kind: the name of its table in the sheet store.
    pub open spec fn spec_table_name(self) -> Seq<char> {
        match self {
            SheetKind::Character => "Character"@,
            SheetKind::Race => "Race"@,
            SheetKind::Class => "Class"@,
        }
    }

    /// The fixed file extension of this kind for single-file persistence.
    pub open spec fn spec_extension(self) -> Seq<char> {
        match self {
            SheetKind::Character => "character-sheet"@,
            SheetKind::Race => "race-sheet"@,
            SheetKind::Class => "class-sheet"@,
        }
    }

    pub fn table_name(self) -> (r: &'static str)
        ensures
            r@ == self.spec_table_name(),
    {
        match self {
            SheetKind::Character => "Character",
            SheetKind::Race => "Race",
            SheetKind::Class => "Class",
        }
    }

    pub fn extension(self) -> (r: &'static str)
        ensures
            r@ == self.spec_extension(),
    {
        match self {
            SheetKind::Character => "character-sheet",
            SheetKind::Race => "race-sheet",
            SheetKind::Class => "class-sheet",
        }
    }

    /// The kind whose fixed extension is `ext`, if any.
    pub open spec fn spec_of_extension(ext: Seq<char>) -> Option<SheetKind> {
        if ext == SheetKind::Character.spec_extension() {
            Some(SheetKind::Character)
        } else if ext == SheetKind::Race.spec_extension() {
            Some(SheetKind::Race)
        } else if ext == SheetKind::Class.spec_extension() {
            Some(SheetKind::Class)
        } else {
            None
        }
    }

    pub fn of_extension(ext: &str) -> (r: Option<SheetKind>)
        ensures
            r == SheetKind::spec_of_extension(ext@),
    {
        if str_eq(ext, SheetKind::Character.extension()) {
            Some(SheetKind::Character)
        } else if str_eq(ext, SheetKind::Race.extension()) {
            Some(SheetKind::Race)
        } else if str_eq(ext, SheetKind::Class.extension()) {
            Some(SheetKind::Class)
        } else {
            None
        }
    }
}

/// The path with its trailing separators dropped: `a/b/` names the same file
/// as `a/b`.
pub open spec fn spec_trim_separators(path: Seq<char>) -> Seq<char>
    decreases path.len(),
{
    if path.len() > 0 && path.last() == '/' {
        spec_trim_separators(path.drop_last())
    } else {
        path
    }
}

/// Drops trailing separators, as [`spec_trim_separators`] describes.
pub fn trim_separators(path: &str) -> (r: String)
    ensures
        r@ == spec_trim_separators(path@),
{
    let n = path.unicode_len();
    let mut i = n;
    proof {
        assert(path@.subrange(0, n as int) =~= path@);
    }
    while i > 0 && path.get_char(i - 1) == '/'
        invariant
            i <= n,
            n == path@.len(),
            spec_trim_separators(path@) == spec_trim_separators(path@.subrange(0, i as int)),
        decreases i,
    {
        proof {
            assert(path@.subrange(0, i as int).drop_last() =~= path@.subrange(0, i - 1));
        }
        i = i - 1;
    }
    path.substring_char(0, i).to_owned()
}

/// The prefix of a path up to and including the last path separator, and the
/// file name after it, trailing separators ignored.
pub open spec fn spec_file_split(path: Seq<char>) -> (Seq<char>, Seq<char>) {
    let trimmed = spec_trim_separators(path);
    match split_last(trimmed, '/') {
        Some(p) => (p.0.push('/'), p.1),
        None => (Seq::<char>::empty(), trimmed),
    }
}

/// Whether a file name can carry an extension at all: the empty name and the
/// dot names cannot.
pub open spec fn spec_plain_file_name(file: Seq<char>) -> bool {
    file.len() != 0 && file != seq!['.'] && file != seq!['.', '.']
}

/// The path with its file name's extension replaced by `ext` (or `ext`
/// appended when the file name has none). `None` when the path has no file
/// name that could take an extension.
pub open spec fn spec_with_extension(path: Seq<char>, ext: Seq<char>) -> Option<Seq<char>> {
    let (prefix, file) = spec_file_split(path);
    if !spec_plain_file_name(file) {
        None
    } else {
        let stem = match split_last(file, '.') {
            Some(p) => if p.0.len() > 0 {
                p.0
            } else {
                file
            },
            None => file,
        };
        Some(prefix + stem + seq!['.'] + ext)
    }
}

/// The extension of the path's file name: what follows the last dot, when a
/// non-empty stem precedes it.
pub open spec fn spec_extension_of(path: Seq<char>) -> Option<Seq<char>> {
    let file = spec_file_split(path).1;
    match split_last(file, '.') {
        Some(p) => if p.0.len() > 0 {
            Some(p.1)
        } else {
            None
        },
        None => None,
    }
}

/// Replaces the extension of the path's file name by `ext`, as
/// [`spec_with_extension`] describes.
pub fn with_extension(path: &str, ext: &str) -> (r: Option<String>)
    ensures
        match r {
            Some(s) => spec_with_extension(path@, ext@) == Some(s@),
            None => spec_with_extension(path@, ext@) is None,
        },
{
    let trimmed = trim_separators(path);
    let (prefix, file) = match rsplit_once(trimmed.as_str(), '/') {
        Some(p) => {
            let mut pre = p.0;
            pre.append("/");
            proof {
                reveal_strlit("/");
                assert("/"@ =~= seq!['/']);
            }
            (pre, p.1)
        },
        None => (String::new(), trimmed),
    };
    proof {
        reveal_strlit(".");
        reveal_strlit("..");
        assert("."@ =~= seq!['.']);
        assert(".."@ =~= seq!['.', '.']);
    }
    if file.as_str().is_empty() || str_eq(file.as_str(), ".") || str_eq(file.as_str(), "..") {
        return None;
    }
    let stem = match rsplit_once(file.as_str(), '.') {
        Some(p) => if !p.0.as_str().is_empty() {
            p.0
        } else {
            file
        },
        None => file,
    };
    let mut out = prefix;
    out.append(stem.as_str());
    out.append(".");
    out.append(ext);
    proof {
        assert(out@ =~= spec_with_extension(path@, ext@)->Some_0);
    }
    Some(out)
}

/// The extension of the path's file name, as [`spec_extension_of`] describes.
pub fn extension_of(path: &str) -> (r: Option<String>)
    ensures
        match r {
            Some(s) => spec_extension_of(path@) == Some(s@),
            None => spec_extension_of(path@) is None,
        },
{
    let trimmed = trim_separators(path);
    let file = match rsplit_once(trimmed.as_str(), '/') {
        Some(p) => p.1,
        None => trimmed,
    };
    match rsplit_once(file.as_str(), '.') {
        Some(p) => if !p.0.as_str().is_empty() {
            Some(p.1)
        } else {
            None
        },
        None => None,
    }
}

/// Handle for file operations on one sheet of a fixed kind: the path it was
/// created from, with the extension forced to the kind's own.
#[derive(Clone, Debug)]
pub struct Archive {
    index: String,
    kind: SheetKind,
}

impl Archive {
    pub closed spec fn spec_index(&self) -> Seq<char> {
        self.index@
    }

    pub closed spec fn spec_kind(&self) -> SheetKind {
        self.kind
    }

    /// Creates a new `Archive` instance with the correct file extension.
    /// Returns `None` if setting the extension fails.
    pub fn new(path: &str, kind: SheetKind) -> (r: Option<Archive>)
        ensures
            match r {
                Some(a) => spec_with_extension(path@, kind.spec_extension()) == Some(a.spec_index())
                    && a.spec_kind() == kind,
                None => spec_with_extension(path@, kind.spec_extension()) is None,
            },
    {
        match with_extension(path, kind.extension()) {
            Some(index) => Some(Archive { index, kind }),
            None => None,
        }
    }

    /// The path this archive reads and writes.
    pub fn index(&self) -> (r: &String)
        ensures
            r@ == self.spec_index(),
    {
        &self.index
    }

    pub fn kind(&self) -> (r: SheetKind)
        ensures
            r == self.spec_kind(),
    {
        self.kind
    }
}

/// `Catalog` wraps an [`Archive`] of each sheet kind, so one extension lookup
/// can route a path to the matching kind.
#[derive(Clone, Debug)]
pub enum Catalog {
    Character(Archive),
    Race(Archive),
    Class(Archive),
}

impl Catalog {
    pub open spec fn spec_archive(self) -> Archive {
        match self {
            Catalog::Character(a) => a,
            Catalog::Race(a) => a,
            Catalog::Class(a) => a,
        }
    }

    pub open spec fn spec_kind(self) -> SheetKind {
        match self {
            Catalog::Character(_) => SheetKind::Character,
            Catalog::Race(_) => SheetKind::Race,
            Catalog::Class(_) => SheetKind::Class,
        }
    }

    /// Attempts to look up a path and return the appropriate `Catalog`
    /// based on the file extension. Returns `None` if the extension does not
    /// match any sheet kind.
    pub fn lookup(path: &str) -> (r: Option<Catalog>)
        ensures
            match r {
                Some(c) => {
                    &&& spec_extension_of(path@) matches Some(e) && SheetKind::spec_of_extension(e)
                        == Some(c.spec_kind())
                    &&& c.spec_archive().spec_kind() == c.spec_kind()
                    &&& spec_with_extension(path@, c.spec_kind().spec_extension()) == Some(
                        c.spec_archive().spec_index(),
                    )
                },
                None => match spec_extension_of(path@) {
                    Some(e) => SheetKind::spec_of_extension(e) is None || spec_with_extension(
                        path@,
                        SheetKind::spec_of_extension(e)->Some_0.spec_extension(),
                    ) is None,
                    None => true,
                },
            },
    {
        let ext = match extension_of(path) {
            Some(e) => e,
            None => {
                return None;
            },
        };
        let kind = match SheetKind::of_extension(ext.as_str()) {
            Some(k) => k,
            None => {
                return None;
            },
        };
        let archive = match Archive::new(path, kind) {
            Some(a) => a,
            None => {
                return None;
            },
        };
        match kind {
            SheetKind::Character => Some(Catalog::Character(archive)),
            SheetKind::Race => Some(Catalog::Race(archive)),
            SheetKind::Class => Some(Catalog::Class(archive)),
        }
    }
}

} // verus!
