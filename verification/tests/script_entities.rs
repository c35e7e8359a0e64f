use cybernetic_trpg::script::{Balance, Class, Cybernetic, LuaObject, Race};

fn object(name: &str, script: &str) -> LuaObject {
    LuaObject::from_lua_chunk(name.to_string(), script).unwrap()
}

#[test]
fn object_reads_globals_the_script_defined() {
    let obj = object("goblin", "Description = \"A goblin\"");
    assert_eq!(obj.name().as_str(), "goblin");
    assert_eq!(obj.get_string("Description").unwrap(), "A goblin");
    assert!(obj.get_string("Absent").is_err());
}

#[test]
fn object_calls_functions_the_script_defined() {
    let obj = object("maths", "function Double(n) return n * 2 end");
    assert_eq!(obj.call_usize("Double", 21).unwrap(), 42);
    assert!(obj.call_usize("Absent", 1).is_err());
}

#[test]
fn broken_script_fails_construction() {
    assert!(LuaObject::from_lua_chunk("broken".to_string(), "local x = (").is_err());
}

#[test]
fn failing_script_body_fails_construction() {
    assert!(LuaObject::from_lua_chunk("angry".to_string(), "error(\"no\")").is_err());
}

#[test]
fn empty_strings_are_dropped_from_lists() {
    let obj = object(
        "list",
        "Names = {\"a\", \"\", \"b\", \"\"}\nfunction Give(n) return {\"\", \"x\"} end",
    );
    assert_eq!(
        obj.get_non_empty_strings("Names").unwrap(),
        vec!["a".to_string(), "b".to_string()]
    );
    assert_eq!(
        obj.call_non_empty_strings("Give", 1).unwrap(),
        vec!["x".to_string()]
    );
}

#[test]
fn sandboxes_are_isolated_from_each_other() {
    let first = object("first", "Shared = \"secret\"");
    let second = object("second", "x = 1");
    assert_eq!(first.get_string("Shared").unwrap(), "secret");
    assert!(second.get_string("Shared").is_err());
}

#[test]
fn sandbox_exposes_no_filesystem_capability() {
    let escape = LuaObject::from_lua_chunk("escape".to_string(), "io.open(\"out.txt\", \"w\")");
    assert!(escape.is_err());
}

#[test]
fn class_accessors_are_total_on_an_empty_script() {
    let class = Class::from_object(object("bare", "x = 1"));
    assert_eq!(class.name().as_str(), "bare");
    assert_eq!(class.description(), "");
    assert_eq!(class.astralic_types(), Vec::<String>::new());
    assert_eq!(class.saving_throws(), Vec::<String>::new());
    assert_eq!(class.skills(1), Vec::<String>::new());
    assert_eq!(class.cybernetics(1), Vec::<String>::new());
}

#[test]
fn balance_accessors_are_total_on_an_empty_script() {
    let balance = Balance::from_object(object("bare", "x = 1"));
    assert_eq!(balance.name().as_str(), "bare");
    assert_eq!(balance.description(), "");
    assert_eq!(balance.health(5), 0);
    assert_eq!(balance.armor_rating(5), 0);
    assert_eq!(balance.spell_level(5), 0);
    assert_eq!(balance.skills(5), Vec::<String>::new());
}

#[test]
fn race_and_cybernetic_accessors_are_total_on_an_empty_script() {
    let race = Race::from_object(object("bare", "x = 1"));
    assert_eq!(race.name().as_str(), "bare");
    assert_eq!(race.description(), "");
    assert_eq!(race.languages(), Vec::<String>::new());
    let cybernetic = Cybernetic::from_object(object("bare", "x = 1"));
    assert_eq!(cybernetic.name().as_str(), "bare");
    assert_eq!(cybernetic.description(), "");
}

#[test]
fn accessors_are_total_when_fields_hold_wrong_shapes() {
    let class = Class::from_object(object(
        "odd",
        "Description = {}\nSavingThrows = 7\nfunction Skills(n) return 3 end",
    ));
    assert_eq!(class.description(), "");
    assert_eq!(class.saving_throws(), Vec::<String>::new());
    assert_eq!(class.skills(2), Vec::<String>::new());
}

#[test]
fn class_accessors_read_their_own_fields() {
    let class = Class::from_object(object(
        "warrior",
        "Description = \"Strong\"\n\
         AstralicTypes = {\"Solar\"}\n\
         SavingThrows = {\"Fortitude\", \"Will\"}\n\
         function Skills(level) if level > 1 then return {\"Parry\"} else return {} end end\n\
         function Cybernetics(level) return {\"Arm\"} end",
    ));
    assert_eq!(class.description(), "Strong");
    assert_eq!(class.astralic_types(), vec!["Solar".to_string()]);
    assert_eq!(
        class.saving_throws(),
        vec!["Fortitude".to_string(), "Will".to_string()]
    );
    assert_eq!(class.skills(1), Vec::<String>::new());
    assert_eq!(class.skills(2), vec!["Parry".to_string()]);
    assert_eq!(class.cybernetics(3), vec!["Arm".to_string()]);
}

#[test]
fn accessors_recompute_on_every_call() {
    let balance = Balance::from_object(object(
        "counter",
        "calls = 0\nfunction Health(level) calls = calls + 1 return calls end",
    ));
    assert_eq!(balance.health(1), 1);
    assert_eq!(balance.health(1), 2);
    assert_eq!(balance.health(1), 3);
}
