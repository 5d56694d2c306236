//! The typed argument-binding framework, exercised slot by slot.

use nu_plugin_lua::command::builder;
use nu_plugin_lua::command::eval::{eval, EvalArgs};
use nu_plugin_lua::command::new::new;
use nu_plugin_lua::extensions::arg;
use nu_plugin_lua::{
    Error, ExpectedType, FromValues, LuaHandle, NuValue, Plugin, PluginValue, Span, SyntaxShape,
    ValueData,
};

fn text(val: &str, start: usize, end: usize) -> NuValue {
    NuValue::string(val.to_string(), Span::new(start, end))
}

fn handle_value(id: u128) -> NuValue {
    NuValue::custom(PluginValue::Lua(LuaHandle::new(id)), Span::unknown())
}

#[test]
fn missing_argument_at_first_missing_index() {
    let positional: Vec<NuValue> = vec![];
    match <EvalArgs as FromValues>::from_values(&positional) {
        Err(Error::MissingArgument { index }) => assert_eq!(index, 0),
        _ => panic!("expected a missing argument at slot 0"),
    }
    let positional = vec![handle_value(7)];
    match <EvalArgs as FromValues>::from_values(&positional) {
        Err(Error::MissingArgument { index }) => assert_eq!(index, 1),
        _ => panic!("expected a missing argument at slot 1"),
    }
}

#[test]
fn type_mismatch_before_missing_argument() {
    // Slot 0 is present but wrong: the mismatch is reported even though
    // slot 1 is missing, because slots are checked strictly left to right.
    let positional = vec![text("not a handle", 3, 15)];
    match <EvalArgs as FromValues>::from_values(&positional) {
        Err(Error::TypeMismatch { expected, span }) => {
            assert!(matches!(expected, ExpectedType::LuaInstance));
            assert_eq!(span, Span::new(3, 15));
        },
        _ => panic!("expected a type mismatch at slot 0"),
    }
}

#[test]
fn type_mismatch_at_first_bad_slot() {
    let positional = vec![handle_value(7), handle_value(8)];
    match <EvalArgs as FromValues>::from_values(&positional) {
        Err(Error::TypeMismatch { expected, span }) => {
            assert!(matches!(expected, ExpectedType::Str));
            assert_eq!(span, Span::unknown());
        },
        _ => panic!("expected a type mismatch at slot 1"),
    }
}

#[test]
fn extraction_in_declared_order() {
    let positional = vec![handle_value(9), text("x = 1", 0, 5)];
    match <EvalArgs as FromValues>::from_values(&positional) {
        Ok(((unit, handle), code)) => {
            let () = unit;
            assert_eq!(handle.uuid(), 9);
            assert_eq!(code, "x = 1");
        },
        _ => panic!("expected extraction to succeed"),
    }
}

#[test]
fn empty_tuple_consumes_no_slots() {
    let positional = vec![text("ignored", 0, 7)];
    assert!(matches!(<() as FromValues>::from_values(&positional), Ok(())));
}

#[test]
fn extra_positional_values_do_not_matter() {
    let positional = vec![handle_value(9), text("1 + 1", 0, 5), text("extra", 9, 14)];
    assert!(<EvalArgs as FromValues>::from_values(&positional).is_ok());
}

#[test]
fn eval_signature_matches_declared_arguments() {
    let c = eval();
    assert_eq!(c.name(), "lua eval");
    assert_eq!(c.description(), "evaluate lua to a nushell value");
    let sigs = c.signature();
    assert_eq!(sigs.len(), 2);
    assert_eq!(sigs[0].name, "lua");
    assert_eq!(sigs[0].description, "the lua state");
    assert!(matches!(sigs[0].syntax_shape, SyntaxShape::Any));
    assert_eq!(sigs[1].name, "code");
    assert_eq!(sigs[1].description, "the lua code to evaluate");
    assert!(matches!(sigs[1].syntax_shape, SyntaxShape::Str));
}

#[test]
fn new_signature_declares_no_arguments() {
    let c = new();
    assert_eq!(c.name(), "lua new");
    assert_eq!(c.description(), "create a new lua instance");
    assert_eq!(c.signature().len(), 0);
}

#[test]
fn builder_accumulates_shapes_in_order() {
    let c = builder("greet", "say hello").arg::<String>("who", "whom to greet").build(
        |plugin: Plugin, ((), who): ((), String)| {
            (plugin, Ok(NuValue::string(who, Span::unknown())))
        },
    );
    let sigs = c.signature();
    assert_eq!(sigs.len(), 1);
    assert_eq!(sigs[0].name, "who");
    assert!(matches!(sigs[0].syntax_shape, SyntaxShape::Str));
    let (_plugin, r) = c.run(Plugin::new(), &[text("world", 0, 5)]);
    match r {
        Ok(v) => match v.data {
            ValueData::Str { val } => assert_eq!(val, "world"),
            _ => panic!("expected a string back"),
        },
        _ => panic!("expected the handler to run"),
    }
}

#[test]
fn run_propagates_extraction_errors_unchanged() {
    let c = eval();
    let r = c.run(&Plugin::new(), &[]);
    assert!(matches!(r, Err(Error::MissingArgument { index: 0 })));
}

#[test]
fn arg_reads_one_declared_slot() {
    let positional = vec![handle_value(4), text("print(1)", 2, 10)];
    let code = arg::<String>(&positional, 1).expect("slot 1 holds a string");
    assert_eq!(code, "print(1)");
    match arg::<LuaHandle>(&positional, 1) {
        Err(Error::TypeMismatch { expected, span }) => {
            assert!(matches!(expected, ExpectedType::LuaInstance));
            assert_eq!(span, Span::new(2, 10));
        },
        _ => panic!("expected a type mismatch"),
    }
    assert!(matches!(arg::<String>(&positional, 2), Err(Error::Bug { .. })));
}

#[test]
fn ok_or_type_error_names_the_expectation() {
    assert_eq!(nu_plugin_lua::extensions::Option::from_std(Some(7)).into_std(), Some(7));
    let some = nu_plugin_lua::extensions::Option::from_std(Some(5));
    assert_eq!(some.ok_or_type_error(ExpectedType::Str, Span::unknown()).unwrap(), 5);
    let none = nu_plugin_lua::extensions::Option::from_std(None::<i64>);
    match none.ok_or_type_error(ExpectedType::Str, Span::new(1, 2)) {
        Err(Error::TypeMismatch { expected, span }) => {
            assert!(matches!(expected, ExpectedType::Str));
            assert_eq!(span, Span::new(1, 2));
        },
        _ => panic!("expected a type mismatch"),
    }
    assert_eq!(ExpectedType::Str.name(), "string");
    assert_eq!(ExpectedType::LuaInstance.name(), "lua instance");
    assert_eq!(ExpectedType::PluginCustom.name(), "lua plugin value");
}

#[test]
fn ok_or_else_bug_prefixes_the_message() {
    let some = nu_plugin_lua::extensions::Option::from_std(Some(3));
    assert_eq!(some.ok_or_else_bug(|| "unused".to_string()).unwrap(), 3);
    let none = nu_plugin_lua::extensions::Option::from_std(None::<i64>);
    match none.ok_or_else_bug(|| "expected arg 1".to_string()) {
        Err(Error::Bug { message }) => assert_eq!(message, "BUG: expected arg 1"),
        _ => panic!("expected a bug report"),
    }
}

#[test]
fn value_accessors_narrow_or_report() {
    let v = text("abc", 0, 3);
    assert_eq!(v.as_str().unwrap(), "abc");
    assert!(matches!(
        v.as_lua(),
        Err(Error::TypeMismatch { expected: ExpectedType::LuaInstance, .. })
    ));
    let h = handle_value(11);
    assert_eq!(h.as_lua().unwrap().uuid(), 11);
    assert!(matches!(h.as_plugin_value().unwrap(), PluginValue::Lua(_)));
    assert!(matches!(
        h.as_str(),
        Err(Error::TypeMismatch { expected: ExpectedType::Str, .. })
    ));
}

#[test]
fn plugin_value_envelope() {
    let p = PluginValue::Lua(LuaHandle::new(21));
    assert_eq!(p.as_lua(Span::unknown()).unwrap().uuid(), 21);
    assert_eq!(p.type_label(), "Lua");
    assert!(p.notify_plugin_on_drop());
    let base = p.to_base_value(Span::unknown());
    match base.data {
        ValueData::Str { val } => assert_eq!(val, "<Lua>"),
        _ => panic!("expected the placeholder string"),
    }
}
