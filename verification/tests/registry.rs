//! The session registry's lifecycle and the handle's wire representation.

use nu_plugin_lua::{Error, LuaHandle, NuValue, Plugin, PluginValue, ValueData};

fn int_result(r: Result<NuValue, Error>) -> i64 {
    match r.expect("evaluation should succeed").data {
        ValueData::Int { val } => val,
        other => panic!("expected an integer result, got {:?}", other),
    }
}

#[test]
fn lookup_succeeds_after_create() {
    let mut plugin = Plugin::new();
    let (handle, _engine) = plugin.create_lua();
    assert!(plugin.get_lua(&handle).is_some());
}

#[test]
fn lookup_fails_after_destroy() {
    let mut plugin = Plugin::new();
    let (handle, _engine) = plugin.create_lua();
    plugin.destroy_lua(&handle);
    assert!(plugin.get_lua(&handle).is_none());
}

#[test]
fn destroy_is_idempotent() {
    let mut plugin = Plugin::new();
    let (handle, _engine) = plugin.create_lua();
    plugin.destroy_lua(&handle);
    plugin.destroy_lua(&handle);
    assert!(plugin.get_lua(&handle).is_none());
    // a handle that never existed is a no-op too
    plugin.destroy_lua(&LuaHandle::new(424242));
}

#[test]
fn destroy_leaves_other_sessions_alone() {
    let mut plugin = Plugin::new();
    let (a, _ea) = plugin.create_lua();
    let (b, _eb) = plugin.create_lua();
    assert_ne!(a.uuid(), b.uuid());
    plugin.destroy_lua(&a);
    assert!(plugin.get_lua(&a).is_none());
    assert!(plugin.get_lua(&b).is_some());
}

#[test]
fn reclamation_notification_destroys_the_session() {
    let mut plugin = Plugin::new();
    let (handle, _engine) = plugin.create_lua();
    plugin.custom_value_dropped(&PluginValue::Lua(handle));
    assert!(plugin.get_lua(&handle).is_none());
    // a late notification for the same value is harmless
    plugin.custom_value_dropped(&PluginValue::Lua(handle));
}

#[test]
fn unknown_handle_is_invalid_not_a_crash() {
    let plugin = Plugin::new();
    let r = plugin.eval_lua(&LuaHandle::new(98765), "1 + 1");
    assert!(matches!(r, Err(Error::InvalidHandle)));
}

#[test]
fn destroyed_handle_is_invalid() {
    let mut plugin = Plugin::new();
    let (handle, _engine) = plugin.create_lua();
    plugin.destroy_lua(&handle);
    let r = plugin.eval_lua(&handle, "1 + 1");
    assert!(matches!(r, Err(Error::InvalidHandle)));
}

#[test]
fn wire_bytes_are_sixteen_and_parse_back() {
    let handle = LuaHandle::new(0x0123_4567_89ab_cdef_0011_2233_4455_6677);
    let bytes = handle.to_wire_bytes();
    assert_eq!(bytes.len(), 16);
    assert_eq!(bytes[0], 0x01);
    assert_eq!(bytes[15], 0x77);
    let parsed = LuaHandle::from_wire_bytes(&bytes).expect("sixteen bytes parse");
    assert_eq!(parsed.uuid(), handle.uuid());
    assert_eq!(parsed, handle);
}

#[test]
fn wire_parse_rejects_other_lengths() {
    let handle = LuaHandle::new(5);
    let bytes = handle.to_wire_bytes();
    assert!(LuaHandle::from_wire_bytes(&bytes[..15]).is_none());
    assert!(LuaHandle::from_wire_bytes(&[]).is_none());
}

#[test]
fn round_tripped_handle_resolves_to_the_same_session() {
    let mut plugin = Plugin::new();
    let (handle, _engine) = plugin.create_lua();
    let bytes = handle.to_wire_bytes();
    let copy = LuaHandle::from_wire_bytes(&bytes).expect("the wire token parses");
    assert!(plugin.get_lua(&copy).is_some());
    assert_eq!(int_result(plugin.eval_lua(&handle, "1+1")), 2);
    assert_eq!(int_result(plugin.eval_lua(&copy, "1+1")), 2);
    // the copy names the same session: state set through one is seen by the
    // other
    plugin.eval_lua(&handle, "shared = 41").expect("assignment succeeds");
    assert_eq!(int_result(plugin.eval_lua(&copy, "shared + 1")), 42);
}
