//! The content pack (book): every rule entity loaded from one archive, plus
//! the diagnostics of the entries that failed.
//!
//! An archive entry is named `<name>.<content-type>.<format>`; the
//! content-type selects the collection the entity joins and the format
//! selects the script interpreter. A load never fails as a whole: each entry
//! either becomes exactly one entity in exactly one collection, or appends
//! exactly one diagnostic, and no entry's outcome depends on another's.

use vstd::prelude::*;
use crate::archive::spec_file_split;
use crate::script::{Balance, Class, Cybernetic, LuaObject, Race};
use crate::text::{rsplit_once, split_last, str_eq};

verus! {

#[verifier::external_type_specification]
#[verifier::external_body]
#[verifier::reject_recursive_types(T)]
pub struct ExCursor<T>(std::io::Cursor<T>);

#[verifier::external_type_specification]
#[verifier::external_body]
#[verifier::reject_recursive_types(R)]
pub struct ExZipArchive<R>(zip::ZipArchive<R>);

/// What one archive entry carries, reduced to plain values: whether it is a
/// regular file, its sanitized path (none when the stored path is not
/// valid), and its contents read as text.
pub struct RawEntry {
    pub is_file: bool,
    pub path: Option<String>,
    pub body: Result<String, String>,
}

/// Whether the bytes parse as a zip-like container at all; parsing an
/// in-memory buffer reads the bytes alone.
pub uninterp spec fn zip_parses(bytes: Seq<u8>) -> bool;

/// What reading each entry of the container's bytes yields, in
/// archive-iteration order: the entry reduced to plain values, or the error
/// the reader gives for it. Reading an in-memory buffer is a function of the
/// bytes alone.
pub uninterp spec fn zip_entries(bytes: Seq<u8>) -> Seq<Result<RawEntry, String>>;

/// The entries of an opened archive: what [`zip_entries`] gives of the bytes
/// it was opened from.
pub uninterp spec fn archive_entries(archive: zip::ZipArchive<std::io::Cursor<Vec<u8>>>) -> Seq<
    Result<RawEntry, String>,
>;

/// Relies on zip::ZipArchive::new: parses the container's central directory
/// out of an in-memory buffer. The parse reads the bytes alone, so it
/// succeeds exactly when the bytes form a container, and the opened archive
/// holds exactly the entries the bytes declare.
#[verifier::external_body]
fn zip_open(bytes: Vec<u8>) -> (r: Result<zip::ZipArchive<std::io::Cursor<Vec<u8>>>, String>)
    ensures
        r is Ok <==> zip_parses(bytes@),
        r matches Ok(a) ==> archive_entries(a) == zip_entries(bytes@),
{
    zip::ZipArchive::new(std::io::Cursor::new(bytes)).map_err(|e| e.to_string())
}

/// Relies on zip::ZipArchive::len: the number of entries in the container.
#[verifier::external_body]
fn zip_len(archive: &zip::ZipArchive<std::io::Cursor<Vec<u8>>>) -> (r: usize)
    ensures
        r == archive_entries(*archive).len(),
{
    archive.len()
}

/// Relies on zip::ZipArchive::by_index and the entry accessors of
/// zip::read::ZipFile (is_file, enclosed_name, the std::io::Read impl):
/// reduces the entry at the given index to plain values, deterministically in
/// the in-memory bytes and the index. Reading neither adds nor removes
/// entries, and an index past the end is an error.
#[verifier::external_body]
fn zip_entry_at(archive: &mut zip::ZipArchive<std::io::Cursor<Vec<u8>>>, index: usize) -> (r:
    Result<RawEntry, String>)
    ensures
        archive_entries(*final(archive)) == archive_entries(*old(archive)),
        index < archive_entries(*old(archive)).len() ==> r == archive_entries(*old(archive))[
            index as int
        ],
        index >= archive_entries(*old(archive)).len() ==> r is Err,
{
    let mut file = archive.by_index(index).map_err(|e| e.to_string())?;
    let is_file = file.is_file();
    let path = file.enclosed_name().map(|p| p.to_string_lossy().into_owned());
    let mut text = String::new();
    let body = match std::io::Read::read_to_string(&mut file, &mut text) {
        Ok(_) => Ok(text),
        Err(e) => Err(e.to_string()),
    };
    Ok(RawEntry { is_file, path, body })
}

/// The collections a content pack keeps, one per supported content-type.
#[derive(Clone, Copy, Debug, PartialEq, Eq, Structural)]
pub enum ContentType {
    Class,
    Balance,
    Race,
    Cybernetic,
}

/// The content-type a name selects, if any. Validation is never relaxed:
/// anything but the four known names is rejected.
pub open spec fn spec_content_type_of(s: Seq<char>) -> Option<ContentType> {
    if s == "class"@ {
        Some(ContentType::Class)
    } else if s == "balance"@ {
        Some(ContentType::Balance)
    } else if s == "race"@ {
        Some(ContentType::Race)
    } else if s == "cybernetic"@ {
        Some(ContentType::Cybernetic)
    } else {
        None
    }
}

pub fn content_type_of(s: &str) -> (r: Option<ContentType>)
    ensures
        r == spec_content_type_of(s@),
{
    if str_eq(s, "class") {
        Some(ContentType::Class)
    } else if str_eq(s, "balance") {
        Some(ContentType::Balance)
    } else if str_eq(s, "race") {
        Some(ContentType::Race)
    } else if str_eq(s, "cybernetic") {
        Some(ContentType::Cybernetic)
    } else {
        None
    }
}

/// An entry path split along the two-suffix convention.
pub struct EntryMeta {
    pub name: String,
    pub content_type: String,
    pub format: String,
}

/// The `(name, content-type, format)` of an entry path: its file name split
/// at its last two dots, each part non-empty. `None` when the path does not
/// parse into exactly this three-part shape.
pub open spec fn spec_parse_entry(path: Seq<char>) -> Option<(Seq<char>, Seq<char>, Seq<char>)> {
    let file = spec_file_split(path).1;
    match split_last(file, '.') {
        None => None,
        Some(p1) => match split_last(p1.0, '.') {
            None => None,
            Some(p2) => if p2.0.len() > 0 && p2.1.len() > 0 && p1.1.len() > 0 {
                Some((p2.0, p2.1, p1.1))
            } else {
                None
            },
        },
    }
}

/// Law: an entry path that parses decomposes into exactly the three-part
/// shape of the naming convention. Its file name is the parsed name, the
/// content-type and the format joined by dots; every part is non-empty; and
/// neither the content-type nor the format holds a dot, so the decomposition
/// is the one at the last two dots.
pub proof fn lemma_parse_entry_shape(path: Seq<char>)
    requires
        spec_parse_entry(path) is Some,
    ensures
        ({
            let t = spec_parse_entry(path)->Some_0;
            &&& spec_file_split(path).1 == t.0 + seq!['.'] + t.1 + seq!['.'] + t.2
            &&& t.0.len() > 0 && t.1.len() > 0 && t.2.len() > 0
            &&& !t.1.contains('.') && !t.2.contains('.')
        }),
{
    let file = spec_file_split(path).1;
    crate::text::lemma_split_last_decomposition(file, '.');
    let p1 = split_last(file, '.')->Some_0;
    crate::text::lemma_split_last_decomposition(p1.0, '.');
    let p2 = split_last(p1.0, '.')->Some_0;
    assert(file =~= p2.0 + seq!['.'] + p2.1 + seq!['.'] + p1.1);
}

/// Splits an entry path along the two-suffix convention, as
/// [`spec_parse_entry`] describes.
pub fn parse_entry(path: &str) -> (r: Option<EntryMeta>)
    ensures
        match r {
            Some(m) => spec_parse_entry(path@) == Some((m.name@, m.content_type@, m.format@))
                && m.name@.len() > 0,
            None => spec_parse_entry(path@) is None,
        },
{
    let trimmed = crate::archive::trim_separators(path);
    let file = match rsplit_once(trimmed.as_str(), '/') {
        Some(p) => p.1,
        None => trimmed,
    };
    let (rest, format) = match rsplit_once(file.as_str(), '.') {
        Some(p) => p,
        None => {
            return None;
        },
    };
    let (name, content_type) = match rsplit_once(rest.as_str(), '.') {
        Some(p) => p,
        None => {
            return None;
        },
    };
    if name.as_str().is_empty() || content_type.as_str().is_empty() || format.as_str().is_empty() {
        return None;
    }
    Some(EntryMeta { name, content_type, format })
}

/// A content pack: one collection per entity kind, in archive-iteration
/// order, plus the diagnostics of the entries that failed to load.
pub struct Book {
    pub errors: Vec<String>,
    pub class: Vec<Class>,
    pub balance: Vec<Balance>,
    pub race: Vec<Race>,
    pub cybernetic: Vec<Cybernetic>,
}

broadcast proof fn lemma_push_drop_last<A>(s: Seq<A>, x: A)
    ensures
        #[trigger] s.push(x).drop_last() == s,
{
    assert(s.push(x).drop_last() =~= s);
}

/// The entities of `post` are exactly those of `pre`.
pub open spec fn spec_unchanged_entities(pre: Book, post: Book) -> bool {
    &&& post.class@ == pre.class@
    &&& post.balance@ == pre.balance@
    &&& post.race@ == pre.race@
    &&& post.cybernetic@ == pre.cybernetic@
}

/// `post` holds the diagnostics of `pre` plus exactly one more.
pub open spec fn spec_one_diagnostic(pre: Book, post: Book) -> bool {
    &&& post.errors@.len() == pre.errors@.len() + 1
    &&& post.errors@.drop_last() == pre.errors@
}

/// `post` is `pre` with exactly one entity named `name` appended to the
/// collection `ct` selects, and nothing else changed — no diagnostic, no
/// other collection touched.
pub open spec fn spec_added_entity(pre: Book, post: Book, ct: ContentType, name: Seq<char>) -> bool {
    &&& post.errors@ == pre.errors@
    &&& match ct {
        ContentType::Class => {
            &&& post.class@.len() == pre.class@.len() + 1
            &&& post.class@.drop_last() == pre.class@
            &&& post.class@.last().spec_name() == name
            &&& post.balance@ == pre.balance@
            &&& post.race@ == pre.race@
            &&& post.cybernetic@ == pre.cybernetic@
        },
        ContentType::Balance => {
            &&& post.balance@.len() == pre.balance@.len() + 1
            &&& post.balance@.drop_last() == pre.balance@
            &&& post.balance@.last().spec_name() == name
            &&& post.class@ == pre.class@
            &&& post.race@ == pre.race@
            &&& post.cybernetic@ == pre.cybernetic@
        },
        ContentType::Race => {
            &&& post.race@.len() == pre.race@.len() + 1
            &&& post.race@.drop_last() == pre.race@
            &&& post.race@.last().spec_name() == name
            &&& post.class@ == pre.class@
            &&& post.balance@ == pre.balance@
            &&& post.cybernetic@ == pre.cybernetic@
        },
        ContentType::Cybernetic => {
            &&& post.cybernetic@.len() == pre.cybernetic@.len() + 1
            &&& post.cybernetic@.drop_last() == pre.cybernetic@
            &&& post.cybernetic@.last().spec_name() == name
            &&& post.class@ == pre.class@
            &&& post.balance@ == pre.balance@
            &&& post.race@ == pre.race@
        },
    }
}

/// The name and content-type of an entry the reader accepts: a regular file
/// whose path parses into the three-part shape, whose format is the one
/// supported scripting format, whose content-type is recognized, and whose
/// body was read and is not empty. Everything else is rejected with one
/// diagnostic.
pub open spec fn spec_entry_class(entry: RawEntry) -> Option<(Seq<char>, ContentType)> {
    match entry.path {
        None => None,
        Some(p) => match spec_parse_entry(p@) {
            None => None,
            Some(t) => if t.2 != "lua"@ {
                None
            } else {
                match spec_content_type_of(t.1) {
                    None => None,
                    Some(ct) => match entry.body {
                        Err(_) => None,
                        Ok(b) => if b@.len() == 0 {
                            None
                        } else {
                            Some((t.0, ct))
                        },
                    },
                }
            },
        },
    }
}

/// The diagnostic a rejected entry appends, by the first check it fails:
/// the stored path is invalid, the path does not fit the naming convention,
/// the format or the content-type is unsupported, the body could not be read
/// (its own error stands), or the body is empty.
pub open spec fn spec_diagnostic_of(entry: RawEntry) -> Seq<char>
    recommends
        spec_entry_class(entry) is None,
{
    match entry.path {
        None => "File name not valid."@,
        Some(p) => match spec_parse_entry(p@) {
            None => "File name does not follow name.type.format."@,
            Some(t) => if t.2 != "lua"@ {
                "Not supported format."@
            } else {
                match spec_content_type_of(t.1) {
                    None => "Not supported type."@,
                    Some(_) => match entry.body {
                        Err(e) => e@,
                        Ok(_) => "File is empty"@,
                    },
                }
            },
        },
    }
}

/// A pack with no entities and no diagnostics.
pub open spec fn spec_book_empty(b: Book) -> bool {
    &&& b.errors@.len() == 0
    &&& b.class@.len() == 0
    &&& b.balance@.len() == 0
    &&& b.race@.len() == 0
    &&& b.cybernetic@.len() == 0
}

/// How a pack changes for one archive entry: an entry the archive reader
/// could not read yields its error as the one new diagnostic; a non-file
/// changes nothing; a rejected entry appends its one diagnostic; an accepted
/// entry appends one entity under its parsed name to its collection, or one
/// diagnostic when its script fails to run.
pub open spec fn spec_load_step(pre: Book, post: Book, entry: Result<RawEntry, String>) -> bool {
    match entry {
        Err(e) => spec_one_diagnostic(pre, post) && spec_unchanged_entities(pre, post)
            && post.errors@.last() == e,
        Ok(en) => if !en.is_file {
            post == pre
        } else {
            match spec_entry_class(en) {
                None => spec_one_diagnostic(pre, post) && spec_unchanged_entities(pre, post)
                    && post.errors@.last()@ == spec_diagnostic_of(en),
                Some(t) => spec_added_entity(pre, post, t.1, t.0) || (spec_one_diagnostic(pre, post)
                    && spec_unchanged_entities(pre, post)),
            }
        },
    }
}

/// The pack is the empty pack after the entries were read in order, each
/// contributing exactly its one outcome as [`spec_load_step`] describes —
/// nothing is ever removed, and no entry's outcome depends on another's.
pub open spec fn spec_pack_loaded(book: Book, entries: Seq<Result<RawEntry, String>>) -> bool
    decreases entries.len(),
{
    if entries.len() == 0 {
        spec_book_empty(book)
    } else {
        exists|mid: Book|
            #[trigger] spec_load_step(mid, book, entries.last()) && spec_pack_loaded(
                mid,
                entries.drop_last(),
            )
    }
}

impl Book {
    /// Every entity in every collection carries a non-empty name.
    pub open spec fn wf(&self) -> bool {
        &&& forall|i: int|
            0 <= i < self.class@.len() ==> (#[trigger] self.class@[i]).spec_name().len() != 0
        &&& forall|i: int|
            0 <= i < self.balance@.len() ==> (#[trigger] self.balance@[i]).spec_name().len() != 0
        &&& forall|i: int|
            0 <= i < self.race@.len() ==> (#[trigger] self.race@[i]).spec_name().len() != 0
        &&& forall|i: int|
            0 <= i < self.cybernetic@.len() ==> (#[trigger] self.cybernetic@[i]).spec_name().len()
                != 0
    }

    /// How many entities the pack holds, over all collections.
    pub open spec fn spec_entity_count(&self) -> int {
        (self.class@.len() + self.balance@.len() + self.race@.len()
            + self.cybernetic@.len()) as int
    }

    /// The terminal state: no entities, no diagnostics.
    pub fn new_empty() -> (r: Self)
        ensures
            spec_book_empty(r),
            r.wf(),
    {
        Self {
            errors: Vec::new(),
            class: Vec::new(),
            balance: Vec::new(),
            race: Vec::new(),
            cybernetic: Vec::new(),
        }
    }

    /// Takes the outcome of one sandbox construction: a loaded script joins
    /// the collection its content-type selects, under its entry name; a
    /// failed one becomes exactly one diagnostic.
    pub fn attach(&mut self, ct: ContentType, loaded: Result<LuaObject, String>)
        ensures
            match loaded {
                Ok(obj) => spec_added_entity(*old(self), *final(self), ct, obj.spec_name()),
                Err(e) => spec_one_diagnostic(*old(self), *final(self)) && spec_unchanged_entities(
                    *old(self),
                    *final(self),
                ) && final(self).errors@.last() == e,
            },
            old(self).wf() ==> final(self).wf(),
    {
        broadcast use lemma_push_drop_last;

        match loaded {
            Ok(obj) => {
                proof {
                    use_type_invariant(&obj);
                }
                match ct {
                    ContentType::Class => self.class.push(Class::from_object(obj)),
                    ContentType::Balance => self.balance.push(Balance::from_object(obj)),
                    ContentType::Race => self.race.push(Race::from_object(obj)),
                    ContentType::Cybernetic => self.cybernetic.push(Cybernetic::from_object(obj)),
                }
            },
            Err(e) => self.errors.push(e),
        }
    }

    /// Reads one archive entry into the pack. A non-file changes nothing; a
    /// rejected entry appends exactly one diagnostic and no entity; an
    /// accepted entry either joins its collection under its entry name or,
    /// when its script fails to run, appends exactly one diagnostic.
    pub fn read_entry(&mut self, entry: RawEntry)
        ensures
            !entry.is_file ==> *final(self) == *old(self),
            entry.is_file ==> match spec_entry_class(entry) {
                None => spec_one_diagnostic(*old(self), *final(self)) && spec_unchanged_entities(
                    *old(self),
                    *final(self),
                ) && final(self).errors@.last()@ == spec_diagnostic_of(entry),
                Some(t) => spec_added_entity(*old(self), *final(self), t.1, t.0) || (
                spec_one_diagnostic(*old(self), *final(self)) && spec_unchanged_entities(
                    *old(self),
                    *final(self),
                )),
            },
            old(self).wf() ==> final(self).wf(),
    {
        broadcast use lemma_push_drop_last;

        if !entry.is_file {
            return ;
        }
        let path = match entry.path {
            Some(p) => p,
            None => {
                self.errors.push("File name not valid.".to_owned());
                return ;
            },
        };
        let meta = match parse_entry(path.as_str()) {
            Some(m) => m,
            None => {
                self.errors.push("File name does not follow name.type.format.".to_owned());
                return ;
            },
        };
        if !str_eq(meta.format.as_str(), "lua") {
            self.errors.push("Not supported format.".to_owned());
            return ;
        }
        let ct = match content_type_of(meta.content_type.as_str()) {
            Some(ct) => ct,
            None => {
                self.errors.push("Not supported type.".to_owned());
                return ;
            },
        };
        let body = match entry.body {
            Ok(b) => b,
            Err(e) => {
                self.errors.push(e);
                return ;
            },
        };
        if body.as_str().is_empty() {
            self.errors.push("File is empty".to_owned());
            return ;
        }
        let loaded = LuaObject::from_lua_chunk(meta.name, body.as_str());
        self.attach(ct, loaded);
    }

    /// Loads a content pack out of the bytes of a zip-like container. Fails
    /// only when the container itself cannot be opened; every per-entry
    /// failure is a diagnostic inside the returned pack, so the diagnostics
    /// and the entities together never outnumber the container's entries.
    pub fn from_zip_bytes(bytes: Vec<u8>) -> (r: Result<Book, String>)
        ensures
            r is Ok <==> zip_parses(bytes@),
            r matches Ok(book) ==> {
                &&& book.wf()
                &&& spec_pack_loaded(book, zip_entries(bytes@))
                &&& book.errors@.len() + book.spec_entity_count() <= zip_entries(bytes@).len()
            },
    {
        let ghost given = bytes@;
        let mut archive = match zip_open(bytes) {
            Ok(a) => a,
            Err(e) => {
                return Err(e);
            },
        };
        let mut book = Book::new_empty();
        proof {
            assert(zip_entries(given).take(0) =~= Seq::<Result<RawEntry, String>>::empty());
        }
        let n = zip_len(&archive);
        let mut i: usize = 0;
        while i < n
            invariant
                i <= n,
                book.wf(),
                archive_entries(archive) == zip_entries(given),
                n == zip_entries(given).len(),
                book.errors@.len() + book.spec_entity_count() <= i,
                spec_pack_loaded(book, zip_entries(given).take(i as int)),
            decreases n - i,
        {
            let ghost prev = book;
            match zip_entry_at(&mut archive, i) {
                Ok(entry) => {
                    let ghost gentry = entry;
                    book.read_entry(entry);
                    proof {
                        assert(zip_entries(given)[i as int] == Ok::<RawEntry, String>(gentry));
                    }
                },
                Err(e) => {
                    let ghost gerr = e;
                    book.errors.push(e);
                    proof {
                        broadcast use lemma_push_drop_last;

                        assert(zip_entries(given)[i as int] == Err::<RawEntry, String>(gerr));
                    }
                },
            }
            proof {
                assert(zip_entries(given).take(i + 1).drop_last() =~= zip_entries(given).take(
                    i as int,
                ));
                assert(zip_entries(given).take(i + 1).last() == zip_entries(given)[i as int]);
                assert(spec_load_step(prev, book, zip_entries(given).take(i + 1).last()));
            }
            i = i + 1;
        }
        proof {
            assert(zip_entries(given).take(n as int) =~= zip_entries(given));
        }
        Ok(book)
    }

    /// Bootstraps a pack from the bytes of a default archive asset: the pack
    /// those bytes load to when they form a container, the empty pack when
    /// they do not. Never fails.
    pub fn from_bytes_or_empty(bytes: Vec<u8>) -> (r: Book)
        ensures
            r.wf(),
            zip_parses(bytes@) ==> spec_pack_loaded(r, zip_entries(bytes@)),
            !zip_parses(bytes@) ==> spec_book_empty(r),
    {
        match Book::from_zip_bytes(bytes) {
            Ok(book) => book,
            Err(_) => Book::new_empty(),
        }
    }
}

} // verus!
