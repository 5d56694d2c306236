//! The `lua new` command: create a fresh interpreter session.

use vstd::prelude::*;

use crate::command::{builder, Command};
use crate::custom::plugin_value::PluginValue;
use crate::error::Error;
use crate::from_value::SyntaxShape;
use crate::plugin::Plugin;
use crate::span::Span;
use crate::value::{NuValue, ValueData};

verus! {

/// The handler behind `lua new`: creates a session and hands the host a
/// custom value carrying the fresh handle. The handle was unknown to the
/// registry before the call, and afterwards it is the only addition.
pub fn run_new(plugin: Plugin, args: ()) -> (r: (Plugin, Result<NuValue, Error>))
    ensures
        r.1 is Ok,
        r.1 matches Ok(v) ==> {
            &&& v.span == Span::unknown()
            &&& v.data matches ValueData::Custom { val: PluginValue::Lua(h) }
            &&& !plugin@.contains_key(v.data->Custom_val->Lua_0.uuid())
            &&& r.0@ == plugin@.insert(
                v.data->Custom_val->Lua_0.uuid(),
                r.0@[v.data->Custom_val->Lua_0.uuid()],
            )
        },
{
    let mut p = plugin;
    let created = p.create_lua();
    let value = NuValue::custom(PluginValue::Lua(created.0), Span::unknown());
    (p, Ok(value))
}

/// Builds the `lua new` command: it declares no arguments, and the built
/// command's handler promises exactly what [`run_new`] promises — a fresh
/// session whose handle is the one returned.
pub fn new() -> (c: Command<(), impl Fn(Plugin, ()) -> (Plugin, Result<NuValue, Error>)>)
    ensures
        c.wf(),
        c.spec_name() == "lua new"@,
        c.spec_description() == "create a new lua instance"@,
        c.spec_args() == Seq::<(Seq<char>, Seq<char>, SyntaxShape)>::empty(),
        forall|p: Plugin, args: (), out: (Plugin, Result<NuValue, Error>)|
            #[trigger] c.handler_ensures(p, args, out) <==> call_ensures(run_new, (p, args), out),
{
    builder("lua new", "create a new lua instance").build(run_new)
}

} // verus!
