use cybernetic_trpg::archive::SheetKind;
use cybernetic_trpg::store::{error_of_fault, Book, BookError, StoreFault};

#[test]
fn write_then_read_round_trips() {
    let mut store = Book::open("/tmp/cybernetic_trpg_round_trip.redb").unwrap();
    let document = "{\"name\":\"Ada\",\"speed\":30}";
    store.write(SheetKind::Character, "Ada", document).unwrap();
    let read_back = store.read(SheetKind::Character, "Ada").unwrap();
    assert_eq!(read_back, document);
}

#[test]
fn second_write_replaces_the_first() {
    let mut store = Book::open("/tmp/cybernetic_trpg_replace.redb").unwrap();
    store.write(SheetKind::Race, "Elf", "{\"age\":\"old\"}").unwrap();
    store.write(SheetKind::Race, "Elf", "{\"age\":\"older\"}").unwrap();
    assert_eq!(store.read(SheetKind::Race, "Elf").unwrap(), "{\"age\":\"older\"}");
    let names = store.table_of_contents(SheetKind::Race).unwrap();
    assert_eq!(names.len(), 1);
}

#[test]
fn writing_twice_keeps_one_entry() {
    let mut store = Book::open("/tmp/cybernetic_trpg_idempotent.redb").unwrap();
    let document = "{\"name\":\"Ada\"}";
    store.write(SheetKind::Character, "Ada", document).unwrap();
    store.write(SheetKind::Character, "Ada", document).unwrap();
    let names = store.table_of_contents(SheetKind::Character).unwrap();
    assert_eq!(names.len(), 1);
    assert_eq!(names[0].as_ref().unwrap().as_str(), "Ada");
}

#[test]
fn ada_appears_in_the_table_of_contents() {
    let mut store = Book::open("/tmp/cybernetic_trpg_ada_keys.redb").unwrap();
    store.write(SheetKind::Character, "Ada", "{\"name\":\"Ada\"}").unwrap();
    let names = store.table_of_contents(SheetKind::Character).unwrap();
    assert_eq!(names.len(), 1);
    assert_eq!(names[0].as_ref().unwrap().as_str(), "Ada");
}

#[test]
fn reading_a_name_never_written_is_not_found() {
    let store = Book::open("/tmp/cybernetic_trpg_not_found.redb").unwrap();
    let missing = store.read(SheetKind::Class, "Nobody");
    match missing {
        Err(BookError::NotFound(name)) => assert_eq!(name, "Nobody"),
        other => panic!("expected the not-found kind, got {:?}", other),
    }
}

#[test]
fn absent_name_in_an_existing_table_is_not_found() {
    let mut store = Book::open("/tmp/cybernetic_trpg_absent.redb").unwrap();
    store.write(SheetKind::Character, "Ada", "{}").unwrap();
    match store.read(SheetKind::Character, "Bob") {
        Err(BookError::NotFound(name)) => assert_eq!(name, "Bob"),
        other => panic!("expected the not-found kind, got {:?}", other),
    }
}

#[test]
fn kinds_keep_separate_tables() {
    let mut store = Book::open("/tmp/cybernetic_trpg_kinds.redb").unwrap();
    store.write(SheetKind::Character, "Ada", "{\"kind\":\"character\"}").unwrap();
    assert!(matches!(
        store.read(SheetKind::Race, "Ada"),
        Err(BookError::NotFound(_))
    ));
    assert!(matches!(
        store.read(SheetKind::Class, "Ada"),
        Err(BookError::NotFound(_))
    ));
    assert_eq!(
        store.read(SheetKind::Character, "Ada").unwrap(),
        "{\"kind\":\"character\"}"
    );
}

#[test]
fn section_lists_every_document() {
    let mut store = Book::open("/tmp/cybernetic_trpg_section.redb").unwrap();
    store.write(SheetKind::Class, "Mage", "{\"level\":1}").unwrap();
    store.write(SheetKind::Class, "Rogue", "{\"level\":2}").unwrap();
    let documents = store.section(SheetKind::Class).unwrap();
    assert_eq!(documents.len(), 2);
    let mut values: Vec<String> = documents
        .iter()
        .map(|d| d.as_ref().unwrap().clone())
        .collect();
    values.sort();
    assert_eq!(
        values,
        vec!["{\"level\":1}".to_string(), "{\"level\":2}".to_string()]
    );
}

#[test]
fn listing_an_unwritten_kind_is_empty() {
    let store = Book::open("/tmp/cybernetic_trpg_unwritten.redb").unwrap();
    assert_eq!(store.table_of_contents(SheetKind::Race).unwrap().len(), 0);
    assert_eq!(store.section(SheetKind::Race).unwrap().len(), 0);
}

#[test]
fn store_name_is_the_file_stem() {
    let store = Book::open("/tmp/cybernetic_trpg_named.redb").unwrap();
    assert_eq!(store.name(), "cybernetic_trpg_named");
}

#[test]
fn error_messages_carry_their_kind() {
    assert_eq!(
        BookError::NotFound("Ada".to_string()).message(),
        "Not Found error: Ada"
    );
    assert_eq!(BookError::Database("d".to_string()).message(), "Database error: d");
    assert_eq!(
        BookError::Transaction("t".to_string()).message(),
        "Transaction error: t"
    );
    assert_eq!(BookError::Table("t".to_string()).message(), "Table error: t");
    assert_eq!(BookError::Storage("s".to_string()).message(), "Storage error: s");
    assert_eq!(BookError::Parse("p".to_string()).message(), "Parse error: p");
    assert_eq!(BookError::Commit("c".to_string()).message(), "Commit error: c");
}

#[test]
fn faults_surface_as_their_own_error_kinds() {
    assert!(matches!(
        error_of_fault(StoreFault::Transaction("t".to_string())),
        BookError::Transaction(_)
    ));
    assert!(matches!(
        error_of_fault(StoreFault::Table("t".to_string())),
        BookError::Table(_)
    ));
    assert!(matches!(
        error_of_fault(StoreFault::Storage("s".to_string())),
        BookError::Storage(_)
    ));
    assert!(matches!(
        error_of_fault(StoreFault::Commit("c".to_string())),
        BookError::Commit(_)
    ));
}

#[test]
fn opening_an_impossible_path_fails_with_the_database_kind() {
    let result = Book::open("/tmp/no_such_dir_cybernetic_trpg/store.redb");
    assert!(matches!(result, Err(BookError::Database(_))));
}
