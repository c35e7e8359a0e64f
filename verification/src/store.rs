//! The sheet store: an embedded, transactional, file-backed key-value store
//! holding player-authored sheets. One logical table per sheet kind, named by
//! the kind's type tag; the key is the sheet name, the value its document.
//!
//! Every operation runs inside its own transaction, which applies fully or
//! not at all. Reading an absent name is a distinct error from a storage
//! fault, so a caller can tell "create new" from "corrupted store".

use vstd::prelude::*;
use crate::archive::{spec_file_split, SheetKind};
use crate::text::{rsplit_once, split_last};
use redb::{ReadableDatabase, ReadableTable, TableDefinition, TableError};

verus! {

#[verifier::external_type_specification]
#[verifier::external_body]
pub struct ExDatabase(redb::Database);

/// The contents of one table of the database, keys and values as text. A
/// table that was never created holds nothing.
pub uninterp spec fn db_table(db: redb::Database, table: Seq<char>) -> Map<Seq<char>, Seq<char>>;

/// A failure of the storage engine, by the transaction step that reported it.
#[derive(Debug)]
pub enum StoreFault {
    Transaction(String),
    Table(String),
    Storage(String),
    Commit(String),
}

/// What one keyed lookup came back with.
#[derive(Debug)]
pub enum GetOutcome {
    /// The key is present, with this value.
    Found(String),
    /// The table exists and does not hold the key.
    Missing,
    /// The table was never created.
    NoTable,
    /// The engine failed before it could answer.
    Fault(StoreFault),
}

/// Relies on redb::Database::create: opens the database file, creating it
/// when it does not exist.
#[verifier::external_body]
fn db_create(path: &str) -> (r: Result<redb::Database, String>) {
    redb::Database::create(path).map_err(|e| e.to_string())
}

/// Relies on redb::Database::begin_write, WriteTransaction::open_table,
/// Table::insert and WriteTransaction::commit: one committed write
/// transaction that creates the table when missing and maps `key` to
/// `value`. redb transactions apply fully or not at all: a failure before
/// commit aborts the transaction and leaves every table unchanged, while a
/// failure at commit may already have applied it, so on an error the insert
/// is either absent or fully applied — never partial, and never elsewhere.
#[verifier::external_body]
fn db_put(db: &mut redb::Database, table: &str, key: &str, value: &str) -> (r: Result<
    (),
    StoreFault,
>)
    ensures
        r is Ok ==> forall|t: Seq<char>|
            #[trigger] db_table(*final(db), t) == if t == table@ {
                db_table(*old(db), t).insert(key@, value@)
            } else {
                db_table(*old(db), t)
            },
        r is Err ==> (forall|t: Seq<char>|
            #[trigger] db_table(*final(db), t) == db_table(*old(db), t)) || (forall|t: Seq<char>|
            #[trigger] db_table(*final(db), t) == if t == table@ {
                db_table(*old(db), t).insert(key@, value@)
            } else {
                db_table(*old(db), t)
            }),
{
    let def: TableDefinition<String, String> = TableDefinition::new(table);
    let wt = db.begin_write().map_err(|e| StoreFault::Transaction(e.to_string()))?;
    match wt.open_table(def) {
        Ok(mut t) => {
            if let Err(e) = t.insert(key.to_owned(), value.to_owned()) {
                return Err(StoreFault::Storage(e.to_string()));
            }
        },
        Err(e) => return Err(StoreFault::Table(e.to_string())),
    }
    wt.commit().map_err(|e| StoreFault::Commit(e.to_string()))
}

/// Relies on redb::Database::begin_read, ReadTransaction::open_table and
/// ReadOnlyTable::get: one read transaction looking `key` up in `table`.
/// redb answers faithfully — a missing table or key is reported as such,
/// never as a value — and a found value is the one the table holds.
#[verifier::external_body]
fn db_get(db: &redb::Database, table: &str, key: &str) -> (r: GetOutcome)
    ensures
        match r {
            GetOutcome::Found(v) => db_table(*db, table@).contains_key(key@) && v@ == db_table(
                *db,
                table@,
            )[key@],
            GetOutcome::Missing => !db_table(*db, table@).contains_key(key@),
            GetOutcome::NoTable => db_table(*db, table@) == Map::<Seq<char>, Seq<char>>::empty(),
            GetOutcome::Fault(f) => !(f is Commit),
        },
{
    let def: TableDefinition<String, String> = TableDefinition::new(table);
    let rt = match db.begin_read() {
        Ok(t) => t,
        Err(e) => return GetOutcome::Fault(StoreFault::Transaction(e.to_string())),
    };
    let tbl = match rt.open_table(def) {
        Ok(t) => t,
        Err(TableError::TableDoesNotExist(_)) => return GetOutcome::NoTable,
        Err(e) => return GetOutcome::Fault(StoreFault::Table(e.to_string())),
    };
    match tbl.get(key.to_owned()) {
        Ok(Some(v)) => GetOutcome::Found(v.value()),
        Ok(None) => GetOutcome::Missing,
        Err(e) => GetOutcome::Fault(StoreFault::Storage(e.to_string())),
    }
}

/// A snapshot of one table inside its own read transaction (the engine's
/// read-only table handle, which keeps that transaction registered for as
/// long as the snapshot lives).
#[verifier::external_body]
pub struct TableSnapshot {
    table: redb::ReadOnlyTable<String, String>,
}

/// The rows of one table snapshot, keys and values as text.
pub uninterp spec fn table_rows(snapshot: TableSnapshot) -> Map<Seq<char>, Seq<char>>;

/// What opening a table for reading came back with.
pub enum TableOutcome {
    /// A snapshot of the table inside one read transaction.
    Opened(TableSnapshot),
    /// The table was never created.
    NoTable,
    /// The engine failed before the table was open.
    Fault(StoreFault),
}

/// Relies on redb::Database::begin_read and ReadTransaction::open_table: a
/// snapshot of the named table, whose rows are the table's committed
/// contents; the snapshot keeps its read transaction registered for as long
/// as it lives. A missing table is reported apart, never as a fault.
#[verifier::external_body]
fn db_read_table(db: &redb::Database, table: &str) -> (r: TableOutcome)
    ensures
        match r {
            TableOutcome::Opened(t) => table_rows(t) == db_table(*db, table@),
            TableOutcome::NoTable => db_table(*db, table@) == Map::<Seq<char>, Seq<char>>::empty(),
            TableOutcome::Fault(f) => !(f is Commit),
        },
{
    let rt = match db.begin_read() {
        Ok(t) => t,
        Err(e) => return TableOutcome::Fault(StoreFault::Transaction(e.to_string())),
    };
    match rt.open_table(TableDefinition::<String, String>::new(table)) {
        Ok(t) => TableOutcome::Opened(TableSnapshot { table: t }),
        Err(TableError::TableDoesNotExist(_)) => TableOutcome::NoTable,
        Err(e) => TableOutcome::Fault(StoreFault::Table(e.to_string())),
    }
}

/// Relies on the range iteration of redb::ReadOnlyTable (iter, then next):
/// each step yields one distinct committed row, and after a storage failure
/// the iterator repeats only that failure — so the listing holds keys up to
/// possibly one final error, and is complete exactly when no entry fails.
#[verifier::external_body]
fn table_keys(tbl: &TableSnapshot) -> (r: Result<
    Vec<Result<String, String>>,
    StoreFault,
>)
    ensures
        match r {
            Ok(v) => {
                &&& forall|i: int|
                    0 <= i < v@.len() ==> ((#[trigger] v@[i]) matches Ok(k) ==> table_rows(
                        *tbl,
                    ).contains_key(k@))
                &&& forall|i: int| 0 <= i < v@.len() - 1 ==> (#[trigger] v@[i]) is Ok
                &&& v@.len() <= table_rows(*tbl).dom().len() + 1
                &&& (forall|i: int| 0 <= i < v@.len() ==> (#[trigger] v@[i]) is Ok) ==> {
                    &&& v@.len() == table_rows(*tbl).dom().len()
                    &&& forall|k: Seq<char>|
                        #[trigger] table_rows(*tbl).contains_key(k) ==> exists|i: int|
                            0 <= i < v@.len() && ((#[trigger] v@[i]) matches Ok(kk) && kk@ == k)
                }
            },
            Err(f) => f is Storage,
        },
{
    let range = match tbl.table.iter() {
        Ok(r) => r,
        Err(e) => return Err(StoreFault::Storage(e.to_string())),
    };
    let mut items: Vec<Result<String, String>> = Vec::new();
    for x in range {
        match x {
            Ok(kv) => items.push(Ok(kv.0.value())),
            Err(e) => {
                items.push(Err(e.to_string()));
                return Ok(items);
            },
        }
    }
    Ok(items)
}

/// Relies on the same range iteration, handing out each row's value instead:
/// keys of distinct committed rows back the Ok elements, the listing may end
/// in one error, and it is complete exactly when no entry fails.
#[verifier::external_body]
fn table_values(tbl: &TableSnapshot) -> (r: Result<
    Vec<Result<String, String>>,
    StoreFault,
>)
    ensures
        match r {
            Ok(v) => {
                &&& forall|i: int|
                    0 <= i < v@.len() ==> ((#[trigger] v@[i]) matches Ok(doc) ==> exists|
                        k: Seq<char>,
                    |
                        #[trigger] table_rows(*tbl).contains_key(k) && table_rows(*tbl)[k] == doc@)
                &&& forall|i: int| 0 <= i < v@.len() - 1 ==> (#[trigger] v@[i]) is Ok
                &&& v@.len() <= table_rows(*tbl).dom().len() + 1
                &&& (forall|i: int| 0 <= i < v@.len() ==> (#[trigger] v@[i]) is Ok) ==> v@.len()
                    == table_rows(*tbl).dom().len()
            },
            Err(f) => f is Storage,
        },
{
    let range = match tbl.table.iter() {
        Ok(r) => r,
        Err(e) => return Err(StoreFault::Storage(e.to_string())),
    };
    let mut items: Vec<Result<String, String>> = Vec::new();
    for x in range {
        match x {
            Ok(kv) => items.push(Ok(kv.1.value())),
            Err(e) => {
                items.push(Err(e.to_string()));
                return Ok(items);
            },
        }
    }
    Ok(items)
}

/// A typed error of the sheet store. An absent name is its own kind, apart
/// from every engine fault, so callers can tell "create new" from
/// "corrupted store".
#[derive(Debug)]
pub enum BookError {
    Database(String),
    Transaction(String),
    Table(String),
    Storage(String),
    NotFound(String),
    Parse(String),
    Commit(String),
}

/// The human-readable text of a store error.
pub open spec fn spec_message(e: BookError) -> Seq<char> {
    match e {
        BookError::Database(s) => "Database error: "@ + s@,
        BookError::Transaction(s) => "Transaction error: "@ + s@,
        BookError::Table(s) => "Table error: "@ + s@,
        BookError::Storage(s) => "Storage error: "@ + s@,
        BookError::NotFound(s) => "Not Found error: "@ + s@,
        BookError::Parse(s) => "Parse error: "@ + s@,
        BookError::Commit(s) => "Commit error: "@ + s@,
    }
}

impl BookError {
    /// The human-readable text of this error, as [`spec_message`] describes.
    pub fn message(&self) -> (r: String)
        ensures
            r@ == spec_message(*self),
    {
        let (prefix, detail): (&str, &String) = match self {
            BookError::Database(s) => ("Database error: ", s),
            BookError::Transaction(s) => ("Transaction error: ", s),
            BookError::Table(s) => ("Table error: ", s),
            BookError::Storage(s) => ("Storage error: ", s),
            BookError::NotFound(s) => ("Not Found error: ", s),
            BookError::Parse(s) => ("Parse error: ", s),
            BookError::Commit(s) => ("Commit error: ", s),
        };
        let mut out = prefix.to_owned();
        out.append(detail.as_str());
        out
    }
}

/// The store error an engine fault surfaces as.
pub fn error_of_fault(f: StoreFault) -> (r: BookError)
    ensures
        match f {
            StoreFault::Transaction(s) => r == BookError::Transaction(s),
            StoreFault::Table(s) => r == BookError::Table(s),
            StoreFault::Storage(s) => r == BookError::Storage(s),
            StoreFault::Commit(s) => r == BookError::Commit(s),
        },
{
    match f {
        StoreFault::Transaction(s) => BookError::Transaction(s),
        StoreFault::Table(s) => BookError::Table(s),
        StoreFault::Storage(s) => BookError::Storage(s),
        StoreFault::Commit(s) => BookError::Commit(s),
    }
}

/// What a read returns for each outcome of the engine's lookup: the found
/// document as it stands; the absent name (no table, or no key in it) as the
/// not-found error carrying that name; an engine fault as its typed error.
pub fn document_of_lookup(outcome: GetOutcome, name: &str) -> (r: Result<String, BookError>)
    ensures
        match outcome {
            GetOutcome::Found(v) => r == Ok::<String, BookError>(v),
            GetOutcome::Missing => r matches Err(e) && e matches BookError::NotFound(n) && n@
                == name@,
            GetOutcome::NoTable => r matches Err(e) && e matches BookError::NotFound(n) && n@
                == name@,
            GetOutcome::Fault(f) => r matches Err(e) && e == error_of_fault_spec(f),
        },
{
    match outcome {
        GetOutcome::Found(v) => Ok(v),
        GetOutcome::Missing => Err(BookError::NotFound(name.to_owned())),
        GetOutcome::NoTable => Err(BookError::NotFound(name.to_owned())),
        GetOutcome::Fault(f) => Err(error_of_fault(f)),
    }
}

/// The store error an engine fault surfaces as.
pub open spec fn error_of_fault_spec(f: StoreFault) -> BookError {
    match f {
        StoreFault::Transaction(s) => BookError::Transaction(s),
        StoreFault::Table(s) => BookError::Table(s),
        StoreFault::Storage(s) => BookError::Storage(s),
        StoreFault::Commit(s) => BookError::Commit(s),
    }
}

/// Distinct sheet kinds keep their sheets in distinct tables.
proof fn lemma_table_names_injective(k1: SheetKind, k2: SheetKind)
    requires
        k1 != k2,
    ensures
        k1.spec_table_name() != k2.spec_table_name(),
{
    reveal_strlit("Character");
    reveal_strlit("Race");
    reveal_strlit("Class");
    assert("Character"@.len() == 9);
    assert("Race"@.len() == 4);
    assert("Class"@.len() == 5);
}

/// The file stem of a path: its file name up to the last dot, when a
/// non-empty stem precedes one.
pub open spec fn spec_file_stem(path: Seq<char>) -> Seq<char> {
    let file = spec_file_split(path).1;
    match split_last(file, '.') {
        Some(p) => if p.0.len() > 0 {
            p.0
        } else {
            file
        },
        None => file,
    }
}

/// The file stem of a path, as [`spec_file_stem`] describes.
pub fn file_stem_of(path: &str) -> (r: String)
    ensures
        r@ == spec_file_stem(path@),
{
    let trimmed = crate::archive::trim_separators(path);
    let file = match rsplit_once(trimmed.as_str(), '/') {
        Some(p) => p.1,
        None => trimmed,
    };
    match rsplit_once(file.as_str(), '.') {
        Some(p) => if !p.0.as_str().is_empty() {
            p.0
        } else {
            file
        },
        None => file,
    }
}

/// The sheet store of one opened book file.
pub struct Book {
    name: String,
    content: redb::Database,
}

impl Book {
    /// The display name of the store: the stem of its file.
    pub closed spec fn spec_name(&self) -> Seq<char> {
        self.name@
    }

    /// The contents of the table of one sheet kind: sheet name to document.
    pub closed spec fn table(&self, kind: SheetKind) -> Map<Seq<char>, Seq<char>> {
        db_table(self.content, kind.spec_table_name())
    }

    /// Opens the store at a path, creating the file when it does not exist.
    /// The store's name is the path's file stem.
    pub fn open(path: &str) -> (r: Result<Book, BookError>)
        ensures
            r matches Ok(b) ==> b.spec_name() == spec_file_stem(path@),
    {
        let name = file_stem_of(path);
        match db_create(path) {
            Ok(content) => Ok(Book { name, content }),
            Err(e) => Err(BookError::Database(e)),
        }
    }

    pub fn name(&self) -> (r: String)
        ensures
            r@ == self.spec_name(),
    {
        self.name.clone()
    }

    /// Reads the document stored for `(kind, name)`, inside one read
    /// transaction. An absent name fails with the not-found error and with
    /// nothing else; a returned document is exactly the one the table holds.
    pub fn read(&self, kind: SheetKind, name: &str) -> (r: Result<String, BookError>)
        ensures
            r matches Ok(doc) ==> self.table(kind).contains_key(name@) && doc@ == self.table(
                kind,
            )[name@],
            r matches Err(e) ==> (e matches BookError::NotFound(n) ==> n@ == name@ && !self.table(
                kind,
            ).contains_key(name@)),
            !self.table(kind).contains_key(name@) ==> !(r is Ok),
            r matches Err(e) ==> e is NotFound || e is Transaction || e is Table || e is Storage,
    {
        document_of_lookup(db_get(&self.content, kind.table_name(), name), name)
    }

    /// Writes `document` under `name` into the table of `kind`, inside one
    /// committed write transaction: an existing entry under that name is
    /// replaced and every other entry and every other table is untouched. A
    /// failed transaction changes nothing — unless the failure strikes at
    /// commit itself, in which case this one insert may already be applied,
    /// fully or not at all, still touching nothing else.
    pub fn write(&mut self, kind: SheetKind, name: &str, document: &str) -> (r: Result<
        (),
        BookError,
    >)
        requires
            name@.len() != 0,
        ensures
            r is Ok ==> final(self).table(kind) == old(self).table(kind).insert(name@, document@),
            r is Err ==> final(self).table(kind) == old(self).table(kind) || final(self).table(
                kind,
            ) == old(self).table(kind).insert(name@, document@),
            forall|k: SheetKind| k != kind ==> #[trigger] final(self).table(k) == old(self).table(k),
            final(self).spec_name() == old(self).spec_name(),
    {
        let r = db_put(&mut self.content, kind.table_name(), name, document);
        proof {
            assert forall|k: SheetKind| k != kind implies #[trigger] self.table(k) == old(
                self,
            ).table(k) by {
                lemma_table_names_injective(k, kind);
            };
        }
        match r {
            Ok(u) => Ok(u),
            Err(f) => Err(error_of_fault(f)),
        }
    }

    /// Lists the names of every sheet of one kind, inside one read
    /// transaction. Every listed name is a stored name, and at most the last
    /// element is an error — where the engine failed and the listing
    /// stopped. When no entry fails, the listing holds each stored name
    /// exactly once. A table never written to lists as empty.
    pub fn table_of_contents(&self, kind: SheetKind) -> (r: Result<
        Vec<Result<String, BookError>>,
        BookError,
    >)
        ensures
            r matches Ok(v) ==> {
                &&& forall|i: int|
                    0 <= i < v@.len() ==> ((#[trigger] v@[i]) matches Ok(k) ==> self.table(
                        kind,
                    ).contains_key(k@))
                &&& forall|i: int| 0 <= i < v@.len() - 1 ==> (#[trigger] v@[i]) is Ok
                &&& v@.len() <= self.table(kind).dom().len() + 1
                &&& (forall|i: int| 0 <= i < v@.len() ==> (#[trigger] v@[i]) is Ok) ==> {
                    &&& v@.len() == self.table(kind).dom().len()
                    &&& forall|k: Seq<char>|
                        #[trigger] self.table(kind).contains_key(k) ==> exists|i: int|
                            0 <= i < v@.len() && ((#[trigger] v@[i]) matches Ok(kk) && kk@ == k)
                }
            },
    {
        let tbl = match db_read_table(&self.content, kind.table_name()) {
            TableOutcome::Opened(t) => t,
            TableOutcome::NoTable => {
                return Ok(Vec::new());
            },
            TableOutcome::Fault(f) => {
                return Err(error_of_fault(f));
            },
        };
        let v = match table_keys(&tbl) {
            Ok(v) => v,
            Err(f) => {
                return Err(error_of_fault(f));
            },
        };
        let ghost gv = v@;
        let out = wrap_entries(v);
        proof {
            assert(table_rows(tbl) == self.table(kind));
            assert forall|i: int| 0 <= i < out@.len() - 1 implies (#[trigger] out@[i]) is Ok by {
                assert(spec_entry_matches(gv[i], out@[i]));
            };
            if forall|i: int| 0 <= i < out@.len() ==> (#[trigger] out@[i]) is Ok {
                assert forall|i: int| 0 <= i < gv.len() implies (#[trigger] gv[i]) is Ok by {
                    assert(spec_entry_matches(gv[i], out@[i]));
                    assert(out@[i] is Ok);
                };
                assert forall|k: Seq<char>|
                    #[trigger] self.table(kind).contains_key(k) implies exists|i: int|
                    0 <= i < out@.len() && ((#[trigger] out@[i]) matches Ok(kk) && kk@ == k) by {
                    let i = choose|i: int|
                        0 <= i < gv.len() && ((#[trigger] gv[i]) matches Ok(kk) && kk@ == k);
                    assert(spec_entry_matches(gv[i], out@[i]));
                    assert(0 <= i < out@.len() && (out@[i] matches Ok(kk) && kk@ == k));
                };
            }
        }
        Ok(out)
    }

    /// Lists the document of every sheet of one kind, inside one read
    /// transaction. Every listed document is a stored document, and at most
    /// the last element is an error — where the engine failed and the
    /// listing stopped. When no entry fails, the listing holds exactly the
    /// stored documents. A table never written to lists as empty.
    pub fn section(&self, kind: SheetKind) -> (r: Result<
        Vec<Result<String, BookError>>,
        BookError,
    >)
        ensures
            r matches Ok(v) ==> {
                &&& forall|i: int|
                    0 <= i < v@.len() ==> ((#[trigger] v@[i]) matches Ok(doc) ==> exists|
                        k: Seq<char>,
                    |
                        #[trigger] self.table(kind).contains_key(k) && self.table(kind)[k] == doc@)
                &&& forall|i: int| 0 <= i < v@.len() - 1 ==> (#[trigger] v@[i]) is Ok
                &&& v@.len() <= self.table(kind).dom().len() + 1
                &&& (forall|i: int| 0 <= i < v@.len() ==> (#[trigger] v@[i]) is Ok) ==> v@.len()
                    == self.table(kind).dom().len()
            },
    {
        let tbl = match db_read_table(&self.content, kind.table_name()) {
            TableOutcome::Opened(t) => t,
            TableOutcome::NoTable => {
                return Ok(Vec::new());
            },
            TableOutcome::Fault(f) => {
                return Err(error_of_fault(f));
            },
        };
        let v = match table_values(&tbl) {
            Ok(v) => v,
            Err(f) => {
                return Err(error_of_fault(f));
            },
        };
        let ghost gv = v@;
        let out = wrap_entries(v);
        proof {
            assert(table_rows(tbl) == self.table(kind));
            assert forall|i: int| 0 <= i < out@.len() - 1 implies (#[trigger] out@[i]) is Ok by {
                assert(spec_entry_matches(gv[i], out@[i]));
            };
            assert forall|i: int|
                0 <= i < out@.len() && (#[trigger] out@[i]) is Ok implies exists|k: Seq<char>|
                #[trigger] self.table(kind).contains_key(k) && self.table(kind)[k]
                    == out@[i]->Ok_0@ by {
                assert(spec_entry_matches(gv[i], out@[i]));
                assert(gv[i] is Ok && gv[i]->Ok_0 == out@[i]->Ok_0);
            };
            if forall|i: int| 0 <= i < out@.len() ==> (#[trigger] out@[i]) is Ok {
                assert forall|i: int| 0 <= i < gv.len() implies (#[trigger] gv[i]) is Ok by {
                    assert(spec_entry_matches(gv[i], out@[i]));
                    assert(out@[i] is Ok);
                };
            }
        }
        Ok(out)
    }
}

/// Law: a write followed by a read of the same name round-trips. [`Book::write`]
/// leaves the kind's table with the written document inserted under the sheet
/// name; on such a table, [`Book::read`] of that name can return nothing but
/// that document, for it returns exactly what the table holds there.
pub proof fn lemma_write_read_round_trip(
    table: Map<Seq<char>, Seq<char>>,
    name: Seq<char>,
    document: Seq<char>,
)
    ensures
        table.insert(name, document).contains_key(name),
        table.insert(name, document)[name] == document,
{
}

/// Law: writing the same document twice under one name leaves the table
/// exactly as one write leaves it — one entry under that name, no
/// duplication.
pub proof fn lemma_write_idempotent(
    table: Map<Seq<char>, Seq<char>>,
    name: Seq<char>,
    document: Seq<char>,
)
    ensures
        table.insert(name, document).insert(name, document) == table.insert(name, document),
{
    assert(table.insert(name, document).insert(name, document) =~= table.insert(name, document));
}

/// Law: one write into an empty table leaves exactly one entry, keyed by the
/// written name.
pub proof fn lemma_single_write_single_key(name: Seq<char>, document: Seq<char>)
    ensures
        Map::<Seq<char>, Seq<char>>::empty().insert(name, document).dom() == set![name],
        Map::<Seq<char>, Seq<char>>::empty().insert(name, document).dom().len() == 1,
{
    assert(Map::<Seq<char>, Seq<char>>::empty().insert(name, document).dom() =~= set![name]);
}

/// An engine entry and a store entry carrying the same content: the same
/// value, or the engine's error wrapped as a storage error.
pub open spec fn spec_entry_matches(src: Result<String, String>, dst: Result<
    String,
    BookError,
>) -> bool {
    match src {
        Ok(k) => dst == Ok::<String, BookError>(k),
        Err(e) => dst == Err::<String, BookError>(BookError::Storage(e)),
    }
}

/// Wraps each per-entry engine error as a storage error, entry for entry.
fn wrap_entries(v: Vec<Result<String, String>>) -> (r: Vec<Result<String, BookError>>)
    ensures
        r@.len() == v@.len(),
        forall|i: int| 0 <= i < v@.len() ==> spec_entry_matches(v@[i], #[trigger] r@[i]),
        forall|i: int| 0 <= i < v@.len() ==> ((#[trigger] r@[i]) is Ok <==> v@[i] is Ok),
        forall|i: int|
            0 <= i < v@.len() ==> ((#[trigger] r@[i]) matches Ok(k) ==> v@[i] matches Ok(k2) && k
                == k2),
{
    let mut r: Vec<Result<String, BookError>> = Vec::new();
    let mut i: usize = 0;
    while i < v.len()
        invariant
            i <= v@.len(),
            r@.len() == i as int,
            forall|j: int| 0 <= j < i ==> spec_entry_matches(v@[j], #[trigger] r@[j]),
        decreases v@.len() - i,
    {
        let entry: Result<String, BookError> = match &v[i] {
            Ok(k) => Ok(k.clone()),
            Err(e) => Err(BookError::Storage(e.clone())),
        };
        r.push(entry);
        i = i + 1;
    }
    r
}

} // verus!
