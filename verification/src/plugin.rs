//! The session registry: one process-wide map from handle identifiers to
//! live engine instances, with create, lookup, idempotent destroy, and
//! evaluation against a looked-up session.

use std::collections::HashMap;

use vstd::prelude::*;

use crate::convert::{
    conversion_fails, converts, lua_to_nushell, to_engine_value, EngineValue, MAX_TABLE_DEPTH,
};
use crate::custom::lua::LuaHandle;
use crate::custom::plugin_value::PluginValue;
use crate::engine::{engine_eval, engine_new, fresh_uuid};
use crate::error::Error;
use crate::value::NuValue;

verus! {

broadcast use vstd::std_specs::hash::group_hash_axioms;

/// The session registry. Its abstract state is the map from handle
/// identifier to engine instance; at most one session exists per identifier,
/// which the map shape gives by construction.
///
/// Lookup and evaluation take `&self`, creation and destruction `&mut self`:
/// behind the reader/writer lock the host layer wraps the registry in,
/// evaluations against different sessions proceed in parallel, while map
/// changes are exclusive. One session's evaluations are serialized by the
/// engine instance's own lock.
pub struct Plugin {
    states: HashMap<u128, mlua::Lua>,
}

impl View for Plugin {
    type V = Map<u128, mlua::Lua>;

    closed spec fn view(&self) -> Map<u128, mlua::Lua> {
        self.states@
    }
}

impl Plugin {
    /// An empty registry: no handle resolves.
    pub fn new() -> (p: Plugin)
        ensures
            p@ == Map::<u128, mlua::Lua>::empty(),
    {
        Plugin { states: HashMap::new() }
    }

    /// Whether a handle identifier currently owns a session.
    pub fn contains(&self, id: u128) -> (b: bool)
        ensures
            b == self@.contains_key(id),
    {
        self.states.contains_key(&id)
    }

    /// Picks an identifier no live session uses: one random draw and, in the
    /// astronomically unlikely case of a collision, a forward probe. The
    /// probe examines at most one more identifier than there are live
    /// sessions, and one of those must be free.
    fn pick_fresh_id(&self) -> (id: u128)
        ensures
            !self@.contains_key(id),
    {
        let n = self.states.len();
        let base = fresh_uuid();
        let mut k: u128 = 0;
        while k <= n as u128
            invariant
                k <= n as u128 + 1,
                n as nat == self@.len(),
                self@.dom().finite(),
                forall|j: u128| j < k ==> self@.contains_key(#[trigger] base.wrapping_add(j)),
            decreases n as u128 + 1 - k,
        {
            let id = base.wrapping_add(k);
            if !self.contains(id) {
                return id;
            }
            k += 1;
        }
        proof {
            lemma_some_probe_is_free(self@, base, n as nat);
            assert(false);
        }
        base
    }

    /// Mints a fresh identifier, constructs a new engine instance, inserts
    /// it, and returns the handle together with a shared reference to the
    /// engine for immediate use. The handle never displaces a live session.
    pub fn create_lua(&mut self) -> (r: (LuaHandle, mlua::Lua))
        ensures
            !old(self)@.contains_key(r.0.uuid()),
            final(self)@ == old(self)@.insert(r.0.uuid(), final(self)@[r.0.uuid()]),
    {
        let id = self.pick_fresh_id();
        let engine = engine_new();
        let shared = engine.clone();
        let ghost inserted = engine;
        self.states.insert(id, engine);
        let handle = LuaHandle::new(id);
        proof {
            assert(self@ == old(self)@.insert(id, inserted));
            assert(self@[id] == inserted);
        }
        (handle, shared)
    }

    /// Removes the handle's session if it is present; destroying an absent
    /// or already-destroyed handle is a no-op, never an error.
    pub fn destroy_lua(&mut self, lua: &LuaHandle)
        ensures
            final(self)@ == old(self)@.remove(lua.uuid()),
    {
        let id = lua.uuid();
        self.states.remove(&id);
    }

    /// Looks the handle up and clones the shared engine reference if the
    /// session is alive; `None` otherwise — the caller decides whether that
    /// is fatal.
    pub fn get_lua(&self, lua: &LuaHandle) -> (r: Option<mlua::Lua>)
        ensures
            r is Some <==> self@.contains_key(lua.uuid()),
    {
        let id = lua.uuid();
        match self.states.get(&id) {
            Some(engine) => Some(engine.clone()),
            None => None,
        }
    }

    /// Evaluates code against the handle's session. An unknown handle is the
    /// only source of `InvalidHandle`; for a live session the engine decides
    /// between a result and its own error, and every successful result is a
    /// faithful rendering of some engine value tree.
    pub fn eval_lua(&self, lua: &LuaHandle, code: &str) -> (r: Result<NuValue, Error>)
        ensures
            !self@.contains_key(lua.uuid()) <==> r == Err::<NuValue, Error>(Error::InvalidHandle),
            self@.contains_key(lua.uuid()) ==> (r matches Err(e) ==> e is EngineEvaluation
                || e is Bug),
            r matches Ok(v) ==> exists|ev: EngineValue| !conversion_fails(ev) && converts(ev, v),
    {
        let engine = match self.get_lua(lua) {
            Some(engine) => engine,
            None => {
                return Err(Error::InvalidHandle);
            },
        };
        let raw = match engine_eval(&engine, code) {
            Ok(raw) => raw,
            Err(message) => {
                return Err(Error::EngineEvaluation { message });
            },
        };
        let ev = match to_engine_value(&raw, MAX_TABLE_DEPTH) {
            Ok(ev) => ev,
            Err(e) => {
                return Err(e);
            },
        };
        let r = lua_to_nushell(&ev);
        proof {
            if r is Ok {
                assert(!conversion_fails(ev) && converts(ev, r->Ok_0));
            }
        }
        r
    }

    /// Handles the host's reclamation notification: when the dropped custom
    /// value is a session handle, the session is destroyed; the notification
    /// never fails, even for a handle destroyed long ago.
    pub fn custom_value_dropped(&mut self, value: &PluginValue)
        ensures
            final(self)@ == old(self)@.remove(value->Lua_0.uuid()),
    {
        match value {
            PluginValue::Lua(lua) => {
                let handle = *lua;
                self.destroy_lua(&handle);
            },
        }
    }
}

/// A registry with `n` live sessions cannot hold all of the `n + 1` distinct
/// identifiers a probe examines, so some probed identifier is free.
proof fn lemma_some_probe_is_free(m: Map<u128, mlua::Lua>, base: u128, n: nat)
    requires
        n <= u64::MAX,
        m.dom().finite(),
        m.len() == n,
    ensures
        exists|j: u128| j <= n && !m.contains_key(#[trigger] base.wrapping_add(j)),
{
    if forall|j: u128| j <= n ==> m.contains_key(#[trigger] base.wrapping_add(j)) {
        lemma_all_probes_taken_impossible(m, base, n);
    }
}

/// Helper for the pigeonhole step: if every probed identifier were taken,
/// `n + 1` distinct identifiers would sit in a domain of size `n`.
proof fn lemma_all_probes_taken_impossible(m: Map<u128, mlua::Lua>, base: u128, n: nat)
    requires
        n <= u64::MAX,
        m.dom().finite(),
        m.len() == n,
        forall|j: u128| j <= n ==> m.contains_key(#[trigger] base.wrapping_add(j)),
    ensures
        exists|j: u128| j <= n && !m.contains_key(#[trigger] base.wrapping_add(j)),
{
    let cands = Seq::new(n + 1, |j: int| base.wrapping_add(j as u128));
    assert forall|a: int, b: int|
        0 <= a < cands.len() && 0 <= b < cands.len() && a != b implies cands[a] != cands[b] by {
        assert(cands[a] == base.wrapping_add(a as u128));
        assert(cands[b] == base.wrapping_add(b as u128));
    }
    assert(cands.no_duplicates());
    cands.unique_seq_to_set();
    assert(cands.to_set().subset_of(m.dom())) by {
        assert forall|x: u128| cands.to_set().contains(x) implies m.dom().contains(x) by {
            let j = choose|j: int| 0 <= j < cands.len() && cands[j] == x;
            assert(m.contains_key(base.wrapping_add(j as u128)));
        }
    }
    vstd::set_lib::lemma_len_subset(cands.to_set(), m.dom());
    assert(false);
}

/// The registry lifecycle laws: a freshly created session's handle resolves;
/// after a destroy the same handle no longer resolves; destroying twice is
/// the same as destroying once; and destroying a handle that was never
/// created leaves the registry as it was.
pub proof fn lemma_registry_lifecycle(m: Map<u128, mlua::Lua>, id: u128, engine: mlua::Lua)
    ensures
        m.insert(id, engine).contains_key(id),
        !m.insert(id, engine).remove(id).contains_key(id),
        m.remove(id).remove(id) == m.remove(id),
        !m.contains_key(id) ==> m.remove(id) == m,
{
    assert(m.remove(id).remove(id) =~= m.remove(id));
    if !m.contains_key(id) {
        assert(m.remove(id) =~= m);
    }
}

} // verus!
