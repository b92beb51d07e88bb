//! The script sandbox: one Lua interpreter per script component, a two-state
//! machine (ready / error), and a per-call capability surface of exactly
//! `gameObject.getPosition()` and `gameObject.setPosition(x, y)`.
//!
//! The capability object is rebuilt on every update call, so it is never
//! stale: the bound position globals are seeded from the entity's transform
//! cell right before the call, and the new position is committed back to the
//! cell — as a whole record — only when the call succeeds. Positions cross
//! the sandbox boundary as fixed-point integers, and `dt` is handed to the
//! script's `update` entry point in milliseconds.

use vstd::prelude::*;

use crate::lua_api::{
    function_call_i64, lua_exec_chunk, lua_globals, lua_new, lua_syntax_ok, table_get_function,
    table_get_i64, table_set_bool, table_set_i64,
};
use crate::transform::{COORD_LIMIT, TransformCell};

verus! {

/// A script is either ready to run or carries the message of its last
/// compile or runtime failure.
pub enum ScriptState {
    Ready,
    Error(String),
}

/// A script component: the source text, the embedded interpreter loaded with
/// it, and the state of the last load or update.
pub struct Script {
    script: String,
    pub state: ScriptState,
    lua: mlua::Lua,
}

/// The Lua prelude that rebuilds the `gameObject` capability before every
/// update call. When the entity has a transform, the two position operations
/// are bound to the seeded globals; otherwise `gameObject` exists but offers
/// no operations, so calling one fails as an ordinary runtime error.
fn game_object_prelude() -> &'static str {
    "gameObject = {}\nif __go_bound then\n  function gameObject.getPosition()\n    return __go_x, __go_y\n  end\n  function gameObject.setPosition(x, y)\n    __go_x = x\n    __go_y = y\n  end\nend\n"
}

impl Script {
    /// The source text currently loaded.
    pub closed spec fn source(self) -> Seq<char> {
        self.script@
    }

    /// The state of the last load or update, for contracts.
    pub closed spec fn status(self) -> ScriptState {
        self.state
    }

    /// Loads the source eagerly into a fresh interpreter. A failure to load
    /// leaves the script in the error state but keeps the source, so a later
    /// `set_script` can retry.
    pub fn new(source: String) -> (s: Script)
        ensures
            s.source() == source@,
            !lua_syntax_ok(source@) ==> s.status() is Error,
    {
        let lua = lua_new();
        let state = match lua_exec_chunk(&lua, source.as_str()) {
            Ok(()) => ScriptState::Ready,
            Err(m) => ScriptState::Error(m),
        };
        Script { script: source, state, lua }
    }

    /// Replaces the source, reloads it, and hands back the exact text the
    /// embedding store must persist: what is persisted is what was set.
    pub fn set_script(&mut self, script: String) -> (persist: String)
        ensures
            final(self).source() == script@,
            persist@ == script@,
            !lua_syntax_ok(script@) ==> final(self).status() is Error,
    {
        let persist = script.clone();
        self.script = script;
        match lua_exec_chunk(&self.lua, self.script.as_str()) {
            Ok(()) => {
                self.state = ScriptState::Ready;
            },
            Err(m) => {
                self.state = ScriptState::Error(m);
            },
        }
        persist
    }

    /// Reloads the script from text the embedding store read back; same
    /// state transition as `set_script`, without asking to persist again.
    pub fn reload(&mut self, script: String)
        ensures
            final(self).source() == script@,
            !lua_syntax_ok(script@) ==> final(self).status() is Error,
    {
        self.script = script;
        match lua_exec_chunk(&self.lua, self.script.as_str()) {
            Ok(()) => {
                self.state = ScriptState::Ready;
            },
            Err(m) => {
                self.state = ScriptState::Error(m);
            },
        }
    }

    /// The source text, for display and editing.
    pub fn get_script(&self) -> (r: String)
        ensures
            r@ == self.source(),
    {
        self.script.clone()
    }

    /// Whether the last load or update succeeded.
    pub fn status_ok(&self) -> (b: bool)
        ensures
            b == (self.status() is Ready),
    {
        match &self.state {
            ScriptState::Ready => true,
            ScriptState::Error(_) => false,
        }
    }

    /// The stored message of the last failure, if any.
    pub fn last_error(&self) -> (r: Option<String>)
        ensures
            self.status() is Ready ==> r is None,
            self.status() is Error ==> r == Some(self.status()->Error_0),
    {
        match &self.state {
            ScriptState::Ready => None,
            ScriptState::Error(m) => Some(m.clone()),
        }
    }

    /// One sandboxed update call against the entity's transform cell.
    ///
    /// A script in the error state stays frozen: nothing runs and the cell is
    /// untouched. Otherwise the capability is rebuilt, the script's `update`
    /// entry point is called with `dt_ms`, and the position the script left
    /// behind is committed to the cell as a whole record — only on success.
    /// Any failure (no entry point, runtime error, non-integer or
    /// out-of-range position) is caught, stored as the error state, and
    /// leaves the cell exactly as it was.
    pub fn update(&mut self, dt_ms: i64, cell: &mut TransformCell)
        ensures
            final(self).source() == old(self).source(),
            old(self).status() is Error ==> *final(self) == *old(self),
            final(self).status() is Error ==> final(cell)@ == old(cell)@,
            final(self).status() is Ready ==> final(cell)@.rotation == old(cell)@.rotation,
    {
        match &self.state {
            ScriptState::Error(_) => {
                return;
            },
            ScriptState::Ready => {},
        }
        let g = lua_globals(&self.lua);
        let t = cell.lock_read();
        if let Err(m) = table_set_bool(&g, "__go_bound", true) {
            self.state = ScriptState::Error(m);
            return;
        }
        if let Err(m) = table_set_i64(&g, "__go_x", t.position.x) {
            self.state = ScriptState::Error(m);
            return;
        }
        if let Err(m) = table_set_i64(&g, "__go_y", t.position.y) {
            self.state = ScriptState::Error(m);
            return;
        }
        if let Err(m) = lua_exec_chunk(&self.lua, game_object_prelude()) {
            self.state = ScriptState::Error(m);
            return;
        }
        let f = match table_get_function(&g, "update") {
            Ok(f) => f,
            Err(m) => {
                self.state = ScriptState::Error(m);
                return;
            },
        };
        if let Err(m) = function_call_i64(&f, dt_ms) {
            self.state = ScriptState::Error(m);
            return;
        }
        let nx = match table_get_i64(&g, "__go_x") {
            Ok(v) => v,
            Err(m) => {
                self.state = ScriptState::Error(m);
                return;
            },
        };
        let ny = match table_get_i64(&g, "__go_y") {
            Ok(v) => v,
            Err(m) => {
                self.state = ScriptState::Error(m);
                return;
            },
        };
        if nx < -COORD_LIMIT || nx > COORD_LIMIT || ny < -COORD_LIMIT || ny > COORD_LIMIT {
            self.state = ScriptState::Error("setPosition: coordinates out of range".to_string());
            return;
        }
        cell.set_position(nx, ny);
        self.state = ScriptState::Ready;
    }

    /// One sandboxed update call for an entity without a transform: the
    /// capability object exists but binds no position operations, so a script
    /// that calls them fails gracefully into the error state.
    pub fn update_detached(&mut self, dt_ms: i64)
        ensures
            final(self).source() == old(self).source(),
            old(self).status() is Error ==> *final(self) == *old(self),
    {
        match &self.state {
            ScriptState::Error(_) => {
                return;
            },
            ScriptState::Ready => {},
        }
        let g = lua_globals(&self.lua);
        if let Err(m) = table_set_bool(&g, "__go_bound", false) {
            self.state = ScriptState::Error(m);
            return;
        }
        if let Err(m) = lua_exec_chunk(&self.lua, game_object_prelude()) {
            self.state = ScriptState::Error(m);
            return;
        }
        let f = match table_get_function(&g, "update") {
            Ok(f) => f,
            Err(m) => {
                self.state = ScriptState::Error(m);
                return;
            },
        };
        match function_call_i64(&f, dt_ms) {
            Ok(()) => {
                self.state = ScriptState::Ready;
            },
            Err(m) => {
                self.state = ScriptState::Error(m);
            },
        }
    }
}

} // verus!
