//! End-to-end evaluation scenarios: the engine's values rendered as host
//! values, and sessions kept independent of one another.

use nu_plugin_lua::command::eval::eval;
use nu_plugin_lua::command::new::new;
use nu_plugin_lua::{Error, NuValue, Plugin, PluginValue, Span, ValueData};

fn eval_in(plugin: &Plugin, handle: &nu_plugin_lua::LuaHandle, code: &str) -> NuValue {
    plugin.eval_lua(handle, code).expect("evaluation should succeed")
}

fn int_of(v: &NuValue) -> i64 {
    match &v.data {
        ValueData::Int { val } => *val,
        other => panic!("expected an integer, got {:?}", other),
    }
}

#[test]
fn arithmetic_evaluates_to_an_integer() {
    let mut plugin = Plugin::new();
    let (handle, _engine) = plugin.create_lua();
    assert_eq!(int_of(&eval_in(&plugin, &handle, "1+1")), 2);
}

#[test]
fn nil_renders_as_nothing() {
    let mut plugin = Plugin::new();
    let (handle, _engine) = plugin.create_lua();
    assert!(matches!(eval_in(&plugin, &handle, "nil").data, ValueData::Nothing));
}

#[test]
fn scalars_render_as_their_host_counterparts() {
    let mut plugin = Plugin::new();
    let (handle, _engine) = plugin.create_lua();
    assert!(matches!(eval_in(&plugin, &handle, "true").data, ValueData::Bool { val: true }));
    match eval_in(&plugin, &handle, "1.5").data {
        ValueData::Float { bits } => assert_eq!(bits, (1.5f64).to_bits()),
        other => panic!("expected a float, got {:?}", other),
    }
    match eval_in(&plugin, &handle, "'hello'").data {
        ValueData::Str { val } => assert_eq!(val, "hello"),
        other => panic!("expected a string, got {:?}", other),
    }
}

#[test]
fn non_utf8_strings_render_as_binary() {
    let mut plugin = Plugin::new();
    let (handle, _engine) = plugin.create_lua();
    match eval_in(&plugin, &handle, "'\\255'").data {
        ValueData::Binary { val } => assert_eq!(val, vec![255u8]),
        other => panic!("expected binary data, got {:?}", other),
    }
}

#[test]
fn functions_render_as_address_placeholders() {
    let mut plugin = Plugin::new();
    let (handle, _engine) = plugin.create_lua();
    match eval_in(&plugin, &handle, "function() end").data {
        ValueData::Str { val } => assert!(val.starts_with("function: ")),
        other => panic!("expected a placeholder string, got {:?}", other),
    }
}

#[test]
fn structured_table_renders_as_named_entries() {
    let mut plugin = Plugin::new();
    let (handle, _engine) = plugin.create_lua();
    let result = eval_in(&plugin, &handle, "{a = 1, b = 2}");
    let rows = match result.data {
        ValueData::List { vals } => vals,
        other => panic!("expected a list of records, got {:?}", other),
    };
    assert_eq!(rows.len(), 2);
    // the engine's table iteration order is unspecified, so collect the
    // entries and compare them as a set
    let mut seen: Vec<(String, i64)> = Vec::new();
    for row in &rows {
        let entries = match &row.data {
            ValueData::Record { entries } => entries,
            other => panic!("expected a record, got {:?}", other),
        };
        assert_eq!(entries.len(), 2);
        assert_eq!(entries[0].0, "index");
        assert_eq!(entries[1].0, "item");
        let key = match &entries[0].1.data {
            ValueData::Str { val } => val.clone(),
            other => panic!("expected a string key, got {:?}", other),
        };
        seen.push((key, int_of(&entries[1].1)));
    }
    seen.sort();
    assert_eq!(seen, vec![("a".to_string(), 1), ("b".to_string(), 2)]);
}

#[test]
fn engine_errors_are_forwarded_not_fatal() {
    let mut plugin = Plugin::new();
    let (handle, _engine) = plugin.create_lua();
    let r = plugin.eval_lua(&handle, "this is not lua ((");
    match r {
        Err(Error::EngineEvaluation { message }) => assert!(!message.is_empty()),
        other => panic!("expected an engine error, got {:?}", other),
    }
}

#[test]
fn sessions_keep_independent_state() {
    let mut plugin = Plugin::new();
    let (a, _ea) = plugin.create_lua();
    let (b, _eb) = plugin.create_lua();
    plugin.eval_lua(&a, "x = 41").expect("assignment succeeds");
    plugin.eval_lua(&b, "x = 1").expect("assignment succeeds");
    assert_eq!(int_of(&eval_in(&plugin, &a, "x + 1")), 42);
    assert_eq!(int_of(&eval_in(&plugin, &b, "x + 1")), 2);
}

#[test]
fn state_persists_across_evaluations() {
    let mut plugin = Plugin::new();
    let (handle, _engine) = plugin.create_lua();
    plugin.eval_lua(&handle, "acc = 0").expect("assignment succeeds");
    plugin.eval_lua(&handle, "acc = acc + 20").expect("assignment succeeds");
    plugin.eval_lua(&handle, "acc = acc + 22").expect("assignment succeeds");
    assert_eq!(int_of(&eval_in(&plugin, &handle, "acc")), 42);
}

#[test]
fn end_to_end_through_the_commands() {
    // registration-time data
    let new_cmd = new();
    assert_eq!(new_cmd.name(), "lua new");
    let eval_cmd = eval();
    assert_eq!(eval_cmd.name(), "lua eval");

    // `lua new` mints a session handle inside a custom value
    let plugin = Plugin::new();
    let (plugin, created) = new_cmd.run(plugin, &[]);
    let created = created.expect("lua new succeeds");
    let handle_value = match &created.data {
        ValueData::Custom { val: PluginValue::Lua(h) } => {
            assert!(plugin.get_lua(h).is_some());
            created
        },
        other => panic!("expected a session handle, got {:?}", other),
    };

    // `lua eval` takes the handle and the code positionally, and only reads
    // the registry
    let code = NuValue::string("(3 * 4) + 2".to_string(), Span::unknown());
    let result = eval_cmd.run(&plugin, &[handle_value, code]);
    assert_eq!(int_of(&result.expect("lua eval succeeds")), 14);

    // an unknown handle value is a user error, not a crash
    let stale = NuValue::custom(
        PluginValue::Lua(nu_plugin_lua::LuaHandle::new(31337)),
        Span::unknown(),
    );
    let code = NuValue::string("1".to_string(), Span::unknown());
    let result = eval_cmd.run(&plugin, &[stale, code]);
    assert!(matches!(result, Err(Error::InvalidHandle)));

    // extraction checks shape, not liveness: a stale but well-shaped handle
    // in slot 0 does not preempt the shape error at slot 1
    let stale = NuValue::custom(
        PluginValue::Lua(nu_plugin_lua::LuaHandle::new(31337)),
        Span::unknown(),
    );
    let not_code = NuValue::integer(5, Span::new(2, 3));
    let result = eval_cmd.run(&plugin, &[stale, not_code]);
    assert!(matches!(result, Err(Error::TypeMismatch { span: Span { start: 2, end: 3 }, .. })));
}
