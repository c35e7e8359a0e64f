//! The sandbox runtime and the scripted entity wrappers.
//!
//! Each rule entity of a content pack is defined by one small script, run in
//! an isolated interpreter with a restricted standard library. The wrapper
//! types (class, balance, race, cybernetic) read values out of the script's
//! global table; on any script-side failure an accessor substitutes a
//! type-appropriate default rather than propagating the error, so every
//! accessor is total over a successfully constructed wrapper.

use vstd::prelude::*;
use crate::text::{non_empty_of, retain_non_empty};

verus! {

#[verifier::external_type_specification]
#[verifier::external_body]
pub struct ExLua(mlua::Lua);

/// Relies on mlua::Lua::new_with: a fresh interpreter loaded with only the
/// safe subset of the standard library (no filesystem, process or network
/// capability).
#[verifier::external_body]
fn lua_new() -> (r: Result<mlua::Lua, String>) {
    mlua::Lua::new_with(mlua::StdLib::ALL_SAFE, mlua::LuaOptions::new()).map_err(|e| e.to_string())
}

/// Relies on mlua::Lua::sandbox: confines scripts to the interpreter's own
/// global table, so no instance can observe or mutate another's state.
#[verifier::external_body]
fn lua_enable_sandbox(lua: &mlua::Lua) -> (r: Result<(), String>) {
    lua.sandbox(true).map_err(|e| e.to_string())
}

/// Relies on mlua::Lua::load, mlua::Chunk::set_name and mlua::Chunk::exec:
/// runs the script body at top level under the entity's name, so a failure
/// names the entry it came from; an error means the body did not parse or
/// execute cleanly.
#[verifier::external_body]
fn lua_exec(lua: &mlua::Lua, name: &str, body: &str) -> (r: Result<(), String>) {
    lua.load(body).set_name(name).exec().map_err(|e| e.to_string())
}

/// Relies on mlua::Table::get over the interpreter's globals: reads one
/// global binding by name, decoded as a string.
#[verifier::external_body]
fn lua_get_string(lua: &mlua::Lua, key: &str) -> (r: Result<String, String>) {
    lua.globals().get::<String>(key).map_err(|e| e.to_string())
}

/// Relies on mlua::Table::get over the interpreter's globals: reads one
/// global binding by name, decoded as a list of strings.
#[verifier::external_body]
fn lua_get_strings(lua: &mlua::Lua, key: &str) -> (r: Result<Vec<String>, String>) {
    lua.globals().get::<Vec<String>>(key).map_err(|e| e.to_string())
}

/// Relies on mlua::Table::get and mlua::Function::call: looks up a global
/// function binding and invokes it with one integer argument, decoding the
/// returned value as an integer.
#[verifier::external_body]
fn lua_call_usize(lua: &mlua::Lua, key: &str, arg: usize) -> (r: Result<usize, String>) {
    match lua.globals().get::<mlua::Function>(key) {
        Ok(f) => f.call::<usize>(arg).map_err(|e| e.to_string()),
        Err(e) => Err(e.to_string()),
    }
}

/// Relies on mlua::Table::get and mlua::Function::call: looks up a global
/// function binding and invokes it with one integer argument, decoding the
/// returned value as a list of strings.
#[verifier::external_body]
fn lua_call_strings(lua: &mlua::Lua, key: &str, arg: usize) -> (r: Result<Vec<String>, String>) {
    match lua.globals().get::<mlua::Function>(key) {
        Ok(f) => f.call::<Vec<String>>(arg).map_err(|e| e.to_string()),
        Err(e) => Err(e.to_string()),
    }
}

/// The decoded string of a successful read, or the empty string for a failed
/// one.
pub fn string_or_default(r: Result<String, String>) -> (out: String)
    ensures
        match r {
            Ok(s) => out == s,
            Err(_) => out@.len() == 0,
        },
{
    match r {
        Ok(s) => s,
        Err(_) => String::new(),
    }
}

/// The decoded integer of a successful call, or zero for a failed one.
pub fn usize_or_default(r: Result<usize, String>) -> (out: usize)
    ensures
        match r {
            Ok(n) => out == n,
            Err(_) => out == 0,
        },
{
    match r {
        Ok(n) => n,
        Err(_) => 0,
    }
}

/// The decoded list of a successful read with its empty strings dropped (they
/// do not constitute valid item names), or the empty list for a failed read.
pub fn strings_or_default(r: Result<Vec<String>, String>) -> (out: Vec<String>)
    ensures
        match r {
            Ok(v) => out@ == non_empty_of(v@),
            Err(_) => out@.len() == 0,
        },
        forall|i: int| 0 <= i < out@.len() ==> out@[i]@.len() != 0,
{
    match r {
        Ok(v) => retain_non_empty(v),
        Err(_) => Vec::new(),
    }
}

/// One sandboxed script with the entity name it was loaded under. The name
/// comes from the archive entry, never from the script's own content, and is
/// never empty.
pub struct LuaObject {
    name: String,
    lua: mlua::Lua,
}

impl LuaObject {
    pub closed spec fn spec_name(&self) -> Seq<char> {
        self.name@
    }

    /// The type invariant: a wrapper's name is never empty.
    #[verifier::type_invariant]
    pub open spec fn named(self) -> bool {
        self.spec_name().len() != 0
    }

    /// Builds one isolated interpreter, runs the script body in it, and wraps
    /// the interpreter under the given entity name. Fails when the body does
    /// not parse or execute cleanly; such a failure is confined to this one
    /// entity.
    pub fn from_lua_chunk(name: String, chunk: &str) -> (r: Result<LuaObject, String>)
        requires
            name@.len() != 0,
        ensures
            r matches Ok(o) ==> o.spec_name() == name@,
    {
        let lua = match lua_new() {
            Ok(lua) => lua,
            Err(e) => {
                return Err(e);
            },
        };
        if let Err(e) = lua_enable_sandbox(&lua) {
            return Err(e);
        }
        if let Err(e) = lua_exec(&lua, name.as_str(), chunk) {
            return Err(e);
        }
        Ok(LuaObject { name, lua })
    }

    /// The entity name this script was loaded under.
    pub fn name(&self) -> (r: &String)
        ensures
            r@ == self.spec_name(),
            r@.len() != 0,
    {
        proof {
            use_type_invariant(self);
        }
        &self.name
    }

    /// Reads a global binding as a string.
    pub fn get_string(&self, key: &str) -> Result<String, String> {
        lua_get_string(&self.lua, key)
    }

    /// Reads a global binding as a list of strings, its empty entries
    /// dropped.
    pub fn get_non_empty_strings(&self, key: &str) -> (r: Result<Vec<String>, String>)
        ensures
            r matches Ok(v) ==> forall|i: int| 0 <= i < v@.len() ==> #[trigger] v@[i]@.len() != 0,
    {
        match lua_get_strings(&self.lua, key) {
            Ok(v) => Ok(retain_non_empty(v)),
            Err(e) => Err(e),
        }
    }

    /// Calls a global function binding with one integer argument, decoding
    /// the result as an integer.
    pub fn call_usize(&self, key: &str, arg: usize) -> Result<usize, String> {
        lua_call_usize(&self.lua, key, arg)
    }

    /// Calls a global function binding with one integer argument, decoding
    /// the result as a list of strings, its empty entries dropped.
    pub fn call_non_empty_strings(&self, key: &str, arg: usize) -> (r: Result<
        Vec<String>,
        String,
    >)
        ensures
            r matches Ok(v) ==> forall|i: int| 0 <= i < v@.len() ==> #[trigger] v@[i]@.len() != 0,
    {
        match lua_call_strings(&self.lua, key, arg) {
            Ok(v) => Ok(retain_non_empty(v)),
            Err(e) => Err(e),
        }
    }
}

/// A class entity of a content pack.
pub struct Class {
    obj: LuaObject,
}

impl Class {
    pub closed spec fn spec_name(&self) -> Seq<char> {
        self.obj.spec_name()
    }

    pub fn from_object(obj: LuaObject) -> (r: Self)
        ensures
            r.spec_name() == obj.spec_name(),
    {
        Class { obj }
    }

    pub fn name(&self) -> (r: &String)
        ensures
            r@ == self.spec_name(),
            r@.len() != 0,
    {
        self.obj.name()
    }

    /// The class description, or the empty string when the script omits it.
    pub fn description(&self) -> String {
        string_or_default(self.obj.get_string("Description"))
    }

    /// The astralic types this class can take; every entry is non-empty.
    pub fn astralic_types(&self) -> (r: Vec<String>)
        ensures
            forall|i: int| 0 <= i < r@.len() ==> r@[i]@.len() != 0,
    {
        strings_or_default(self.obj.get_non_empty_strings("AstralicTypes"))
    }

    /// The saving throws of this class; every entry is non-empty.
    pub fn saving_throws(&self) -> (r: Vec<String>)
        ensures
            forall|i: int| 0 <= i < r@.len() ==> r@[i]@.len() != 0,
    {
        strings_or_default(self.obj.get_non_empty_strings("SavingThrows"))
    }

    /// The skills granted at the given class level, re-computed by the script
    /// on every call; every entry is non-empty.
    pub fn skills(&self, class_level: usize) -> (r: Vec<String>)
        ensures
            forall|i: int| 0 <= i < r@.len() ==> r@[i]@.len() != 0,
    {
        strings_or_default(self.obj.call_non_empty_strings("Skills", class_level))
    }

    /// The cybernetics available at the given class level; every entry is
    /// non-empty.
    pub fn cybernetics(&self, class_level: usize) -> (r: Vec<String>)
        ensures
            forall|i: int| 0 <= i < r@.len() ==> r@[i]@.len() != 0,
    {
        strings_or_default(self.obj.call_non_empty_strings("Cybernetics", class_level))
    }
}

/// A balance entity of a content pack: the numeric progression of a class.
pub struct Balance {
    obj: LuaObject,
}

impl Balance {
    pub closed spec fn spec_name(&self) -> Seq<char> {
        self.obj.spec_name()
    }

    pub fn from_object(obj: LuaObject) -> (r: Self)
        ensures
            r.spec_name() == obj.spec_name(),
    {
        Balance { obj }
    }

    pub fn name(&self) -> (r: &String)
        ensures
            r@ == self.spec_name(),
            r@.len() != 0,
    {
        self.obj.name()
    }

    /// The balance description, or the empty string when the script omits it.
    pub fn description(&self) -> String {
        string_or_default(self.obj.get_string("Description"))
    }

    /// The health granted at the given class level, or zero on failure.
    pub fn health(&self, class_level: usize) -> usize {
        usize_or_default(self.obj.call_usize("Health", class_level))
    }

    /// The armor rating at the given class level, or zero on failure.
    pub fn armor_rating(&self, class_level: usize) -> usize {
        usize_or_default(self.obj.call_usize("ArmorRating", class_level))
    }

    /// The spell level at the given class level, or zero on failure.
    pub fn spell_level(&self, class_level: usize) -> usize {
        usize_or_default(self.obj.call_usize("SpellLevel", class_level))
    }

    /// The skills granted at the given class level; every entry is non-empty.
    pub fn skills(&self, class_level: usize) -> (r: Vec<String>)
        ensures
            forall|i: int| 0 <= i < r@.len() ==> r@[i]@.len() != 0,
    {
        strings_or_default(self.obj.call_non_empty_strings("Skills", class_level))
    }
}

/// A race entity of a content pack.
pub struct Race {
    obj: LuaObject,
}

impl Race {
    pub closed spec fn spec_name(&self) -> Seq<char> {
        self.obj.spec_name()
    }

    pub fn from_object(obj: LuaObject) -> (r: Self)
        ensures
            r.spec_name() == obj.spec_name(),
    {
        Race { obj }
    }

    pub fn name(&self) -> (r: &String)
        ensures
            r@ == self.spec_name(),
            r@.len() != 0,
    {
        self.obj.name()
    }

    /// The race description, or the empty string when the script omits it.
    pub fn description(&self) -> String {
        string_or_default(self.obj.get_string("Description"))
    }

    /// The languages of this race; every entry is non-empty.
    pub fn languages(&self) -> (r: Vec<String>)
        ensures
            forall|i: int| 0 <= i < r@.len() ==> r@[i]@.len() != 0,
    {
        strings_or_default(self.obj.get_non_empty_strings("Languages"))
    }
}

/// A cybernetic entity of a content pack.
pub struct Cybernetic {
    obj: LuaObject,
}

impl Cybernetic {
    pub closed spec fn spec_name(&self) -> Seq<char> {
        self.obj.spec_name()
    }

    pub fn from_object(obj: LuaObject) -> (r: Self)
        ensures
            r.spec_name() == obj.spec_name(),
    {
        Cybernetic { obj }
    }

    pub fn name(&self) -> (r: &String)
        ensures
            r@ == self.spec_name(),
            r@.len() != 0,
    {
        self.obj.name()
    }

    /// The cybernetic description, or the empty string when the script omits
    /// it.
    pub fn description(&self) -> String {
        string_or_default(self.obj.get_string("Description"))
    }
}

} // verus!
