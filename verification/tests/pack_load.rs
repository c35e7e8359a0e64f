use cybernetic_trpg::pack::{Book, RawEntry};

fn zip_bytes(entries: &[(&str, &str)]) -> Vec<u8> {
    let mut writer = zip::ZipWriter::new(std::io::Cursor::new(Vec::new()));
    for (name, body) in entries {
        writer
            .start_file(*name, zip::write::SimpleFileOptions::default())
            .unwrap();
        std::io::Write::write_all(&mut writer, body.as_bytes()).unwrap();
    }
    writer.finish().unwrap().into_inner()
}

#[test]
fn valid_class_entry_loads_one_class_and_no_diagnostic() {
    let bytes = zip_bytes(&[("goblin.class.lua", "Description = \"Small and green\"")]);
    let book = Book::from_zip_bytes(bytes).unwrap();
    assert_eq!(book.errors.len(), 0);
    assert_eq!(book.class.len(), 1);
    assert_eq!(book.balance.len(), 0);
    assert_eq!(book.race.len(), 0);
    assert_eq!(book.cybernetic.len(), 0);
    assert_eq!(book.class[0].name().as_str(), "goblin");
    assert_eq!(book.class[0].description(), "Small and green");
}

#[test]
fn unsupported_content_type_is_one_diagnostic() {
    let bytes = zip_bytes(&[("n.spell.lua", "Description = \"x\"")]);
    let book = Book::from_zip_bytes(bytes).unwrap();
    assert_eq!(book.errors.len(), 1);
    assert_eq!(book.errors[0], "Not supported type.");
    assert_eq!(book.class.len(), 0);
    assert_eq!(book.balance.len(), 0);
    assert_eq!(book.race.len(), 0);
    assert_eq!(book.cybernetic.len(), 0);
}

#[test]
fn unsupported_format_is_one_diagnostic() {
    let bytes = zip_bytes(&[("n.class.txt", "not a script")]);
    let book = Book::from_zip_bytes(bytes).unwrap();
    assert_eq!(book.errors.len(), 1);
    assert_eq!(book.errors[0], "Not supported format.");
    assert_eq!(book.class.len(), 0);
}

#[test]
fn empty_body_is_one_diagnostic_and_no_entity() {
    let bytes = zip_bytes(&[("empty.class.lua", "")]);
    let book = Book::from_zip_bytes(bytes).unwrap();
    assert_eq!(book.errors.len(), 1);
    assert_eq!(book.errors[0], "File is empty");
    assert_eq!(book.class.len(), 0);
    assert_eq!(book.balance.len(), 0);
    assert_eq!(book.race.len(), 0);
    assert_eq!(book.cybernetic.len(), 0);
}

#[test]
fn malformed_entry_name_is_one_diagnostic() {
    let bytes = zip_bytes(&[("noformat", "x = 1")]);
    let book = Book::from_zip_bytes(bytes).unwrap();
    assert_eq!(book.errors.len(), 1);
    assert_eq!(book.class.len(), 0);
}

#[test]
fn goblin_and_broken_scenario() {
    let bytes = zip_bytes(&[
        (
            "goblin.class.lua",
            "Description = \"A goblin\"\nSavingThrows = {\"Fortitude\"}",
        ),
        ("broken.class.lua", "local x = ("),
    ]);
    let book = Book::from_zip_bytes(bytes).unwrap();
    assert_eq!(book.class.len(), 1);
    assert_eq!(book.class[0].name().as_str(), "goblin");
    assert_eq!(book.class[0].saving_throws(), vec!["Fortitude".to_string()]);
    assert_eq!(book.errors.len(), 1);
    assert!(book.errors[0].contains("broken"), "diagnostic was: {}", book.errors[0]);
}

#[test]
fn every_content_type_reaches_its_collection() {
    let bytes = zip_bytes(&[
        ("warrior.class.lua", "Description = \"w\""),
        ("standard.balance.lua", "Description = \"b\""),
        ("elf.race.lua", "Description = \"r\""),
        ("optics.cybernetic.lua", "Description = \"c\""),
    ]);
    let book = Book::from_zip_bytes(bytes).unwrap();
    assert_eq!(book.errors.len(), 0);
    assert_eq!(book.class.len(), 1);
    assert_eq!(book.balance.len(), 1);
    assert_eq!(book.race.len(), 1);
    assert_eq!(book.cybernetic.len(), 1);
    assert_eq!(book.balance[0].name().as_str(), "standard");
    assert_eq!(book.race[0].name().as_str(), "elf");
    assert_eq!(book.cybernetic[0].name().as_str(), "optics");
}

#[test]
fn entry_in_directory_keeps_its_own_name() {
    let bytes = zip_bytes(&[("rules/deep/orc.class.lua", "Description = \"o\"")]);
    let book = Book::from_zip_bytes(bytes).unwrap();
    assert_eq!(book.errors.len(), 0);
    assert_eq!(book.class.len(), 1);
    assert_eq!(book.class[0].name().as_str(), "orc");
}

#[test]
fn dotted_base_name_is_kept_whole() {
    let bytes = zip_bytes(&[("dark.elf.race.lua", "Description = \"d\"")]);
    let book = Book::from_zip_bytes(bytes).unwrap();
    assert_eq!(book.errors.len(), 0);
    assert_eq!(book.race.len(), 1);
    assert_eq!(book.race[0].name().as_str(), "dark.elf");
}

#[test]
fn balance_functions_answer_per_level() {
    let script = "Description = \"Standard\"\n\
                  function Health(level) return 10 + level end\n\
                  function ArmorRating(level) return level * 2 end\n\
                  function SpellLevel(level) return 0 end\n\
                  function Skills(level) return {\"Stealth\", \"\", \"Archery\"} end";
    let bytes = zip_bytes(&[("standard.balance.lua", script)]);
    let book = Book::from_zip_bytes(bytes).unwrap();
    assert_eq!(book.errors.len(), 0);
    let balance = &book.balance[0];
    assert_eq!(balance.health(3), 13);
    assert_eq!(balance.health(7), 17);
    assert_eq!(balance.armor_rating(4), 8);
    assert_eq!(balance.spell_level(9), 0);
    assert_eq!(
        balance.skills(1),
        vec!["Stealth".to_string(), "Archery".to_string()]
    );
}

#[test]
fn empty_archive_loads_empty_pack() {
    let bytes = zip_bytes(&[]);
    let book = Book::from_zip_bytes(bytes).unwrap();
    assert_eq!(book.errors.len(), 0);
    assert_eq!(book.class.len(), 0);
}

#[test]
fn garbage_container_fails_to_open() {
    assert!(Book::from_zip_bytes(vec![1, 2, 3, 4]).is_err());
}

#[test]
fn new_empty_holds_nothing() {
    let book = Book::new_empty();
    assert_eq!(book.errors.len(), 0);
    assert_eq!(book.class.len(), 0);
    assert_eq!(book.balance.len(), 0);
    assert_eq!(book.race.len(), 0);
    assert_eq!(book.cybernetic.len(), 0);
}

#[test]
fn non_file_entry_changes_nothing() {
    let mut book = Book::new_empty();
    book.read_entry(RawEntry {
        is_file: false,
        path: Some("dir.class.lua".to_string()),
        body: Ok("x = 1".to_string()),
    });
    assert_eq!(book.errors.len(), 0);
    assert_eq!(book.class.len(), 0);
}

#[test]
fn invalid_stored_path_is_one_diagnostic() {
    let mut book = Book::new_empty();
    book.read_entry(RawEntry {
        is_file: true,
        path: None,
        body: Ok("x = 1".to_string()),
    });
    assert_eq!(book.errors.len(), 1);
    assert_eq!(book.errors[0], "File name not valid.");
}

#[test]
fn unreadable_body_yields_its_error() {
    let mut book = Book::new_empty();
    book.read_entry(RawEntry {
        is_file: true,
        path: Some("orc.class.lua".to_string()),
        body: Err("stream did not contain valid UTF-8".to_string()),
    });
    assert_eq!(book.errors.len(), 1);
    assert_eq!(book.errors[0], "stream did not contain valid UTF-8");
    assert_eq!(book.class.len(), 0);
}
