//! The trusted surface over the embedded Lua interpreter (the `mlua` crate).
//!
//! Every call the script sandbox makes into the interpreter goes through one
//! of the small wrappers here; everything around them — which globals are
//! bound, what the capability prelude defines, how results flow back into a
//! transform cell — is ordinary verified code in `script`.

use vstd::prelude::*;

verus! {

#[verifier::external_type_specification]
#[verifier::external_body]
pub struct ExLua(mlua::Lua);

#[verifier::external_type_specification]
#[verifier::external_body]
pub struct ExTable(mlua::Table);

#[verifier::external_type_specification]
#[verifier::external_body]
pub struct ExFunction(mlua::Function);

/// Whether Lua's parser accepts a chunk. Parsing is a function of the source
/// text alone, so the verdict can be named even though stating it would take
/// the whole Lua grammar.
pub uninterp spec fn lua_syntax_ok(src: Seq<char>) -> bool;

/// Relies on mlua::Lua::new: builds a fresh interpreter with the default
/// (safe) standard libraries.
#[verifier::external_body]
pub(crate) fn lua_new() -> mlua::Lua {
    mlua::Lua::new()
}

/// Relies on mlua::Lua::load / mlua::Chunk::exec: loads a chunk and runs it.
/// A syntactically invalid chunk never parses, so it always comes back as an
/// error; a valid chunk may still fail at run time.
#[verifier::external_body]
pub(crate) fn lua_exec_chunk(lua: &mlua::Lua, src: &str) -> (r: Result<(), String>)
    ensures
        !lua_syntax_ok(src@) ==> r is Err,
{
    match lua.load(src).exec() {
        Ok(()) => Ok(()),
        Err(e) => Err(e.to_string()),
    }
}

/// Relies on mlua::Lua::globals: hands out the interpreter's global table.
#[verifier::external_body]
pub(crate) fn lua_globals(lua: &mlua::Lua) -> mlua::Table {
    lua.globals()
}

/// Relies on mlua::Table::set with a string key and an integer value.
#[verifier::external_body]
pub(crate) fn table_set_i64(t: &mlua::Table, key: &str, v: i64) -> (r: Result<(), String>) {
    match t.set(key, v) {
        Ok(()) => Ok(()),
        Err(e) => Err(e.to_string()),
    }
}

/// Relies on mlua::Table::set with a string key and a boolean value.
#[verifier::external_body]
pub(crate) fn table_set_bool(t: &mlua::Table, key: &str, v: bool) -> (r: Result<(), String>) {
    match t.set(key, v) {
        Ok(()) => Ok(()),
        Err(e) => Err(e.to_string()),
    }
}

/// Relies on mlua::Table::get with an integer result: fails when the value is
/// absent or does not convert to an integer.
#[verifier::external_body]
pub(crate) fn table_get_i64(t: &mlua::Table, key: &str) -> (r: Result<i64, String>) {
    match t.get::<i64>(key) {
        Ok(v) => Ok(v),
        Err(e) => Err(e.to_string()),
    }
}

/// Relies on mlua::Table::get with a function result: fails when the value is
/// absent or not a function.
#[verifier::external_body]
pub(crate) fn table_get_function(t: &mlua::Table, key: &str) -> (r: Result<mlua::Function, String>) {
    match t.get::<mlua::Function>(key) {
        Ok(f) => Ok(f),
        Err(e) => Err(e.to_string()),
    }
}

/// Relies on mlua::Function::call with one integer argument and no results:
/// fails on any runtime error inside the called function.
#[verifier::external_body]
pub(crate) fn function_call_i64(f: &mlua::Function, arg: i64) -> (r: Result<(), String>) {
    match f.call::<()>(arg) {
        Ok(()) => Ok(()),
        Err(e) => Err(e.to_string()),
    }
}

} // verus!
