//! The `lua eval` command: evaluate code against an existing session.

use vstd::prelude::*;

use crate::command::{builder, SharedCommand};
use crate::convert::{conversion_fails, converts, EngineValue};
use crate::custom::lua::LuaHandle;
use crate::error::Error;
use crate::from_value::SyntaxShape;
use crate::plugin::Plugin;
use crate::value::NuValue;

verus! {

/// The parsed argument tuple of `lua eval`: a session handle, then the code
/// to evaluate.
pub type EvalArgs = (((), LuaHandle), String);

/// The handler behind `lua eval`: resolves the handle and evaluates the
/// code. The registry is only read; a stale handle is reported as
/// `InvalidHandle` and nothing else is, and every successful result is a
/// faithful rendering of some engine value tree.
pub fn run_eval(plugin: &Plugin, args: EvalArgs) -> (r: Result<NuValue, Error>)
    ensures
        !plugin@.contains_key(args.0.1.uuid()) <==> r == Err::<NuValue, Error>(
            Error::InvalidHandle,
        ),
        plugin@.contains_key(args.0.1.uuid()) ==> (r matches Err(e) ==> e is EngineEvaluation
            || e is Bug),
        r matches Ok(v) ==> exists|ev: EngineValue| !conversion_fails(ev) && converts(ev, v),
{
    let ((_unit, lua), code) = args;
    plugin.eval_lua(&lua, code.as_str())
}

/// Builds the `lua eval` command: a session handle and a code string, in
/// that order, matching slot for slot what the handler consumes; and the
/// built command's handler promises exactly what [`run_eval`] promises.
pub fn eval() -> (c: SharedCommand<
    EvalArgs,
    impl Fn(&Plugin, EvalArgs) -> Result<NuValue, Error>,
>)
    ensures
        c.wf(),
        c.spec_name() == "lua eval"@,
        c.spec_description() == "evaluate lua to a nushell value"@,
        c.spec_args() == seq![
            ("lua"@, "the lua state"@, SyntaxShape::Any),
            ("code"@, "the lua code to evaluate"@, SyntaxShape::Str),
        ],
        forall|p: &Plugin, args: EvalArgs, out: Result<NuValue, Error>|
            #[trigger] c.handler_ensures(p, args, out) <==> call_ensures(
                run_eval,
                (p, args),
                out,
            ),
{
    let c = builder("lua eval", "evaluate lua to a nushell value").arg::<LuaHandle>(
        "lua",
        "the lua state",
    ).arg::<String>("code", "the lua code to evaluate").build_shared(run_eval);
    proof {
        assert(c.spec_args() =~= seq![
            ("lua"@, "the lua state"@, SyntaxShape::Any),
            ("code"@, "the lua code to evaluate"@, SyntaxShape::Str),
        ]);
    }
    c
}

} // verus!
