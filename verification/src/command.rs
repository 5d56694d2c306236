//! The command builder and the built, runtime-dispatchable commands.
//!
//! A command is declared fluently: a name and description first, then one
//! argument at a time, each step appending the argument's type to the
//! builder's type-level tuple. The finalize step takes a handler whose input
//! is exactly that tuple's parsed form, so declaration order and extraction
//! order coincide at compile time, and the declared signature is built from
//! the same type information the handler consumes.
//!
//! A handler that changes the registry takes it by value ([`Command`]); one
//! that only reads it takes it by shared reference ([`SharedCommand`]), so
//! the host layer can dispatch it under a read lock and evaluations against
//! different sessions proceed in parallel.

pub mod eval;
pub mod new;

use core::marker::PhantomData;

use vstd::prelude::*;

use crate::error::Error;
use crate::from_value::{FromValue, SyntaxShape};
use crate::from_values::{ArgSignature, FromValues};
use crate::plugin::Plugin;
use crate::value::NuValue;

verus! {

/// The view of a declared argument list: one (name, description, shape)
/// triple per slot, in declaration order.
pub open spec fn spec_triples(sigs: Seq<ArgSignature>) -> Seq<(Seq<char>, Seq<char>, SyntaxShape)> {
    sigs.map_values(|a: ArgSignature| a.spec_triple())
}

/// A command in construction: its name, description, and the signatures of
/// the arguments declared so far, whose types `Args` accumulates.
pub struct CommandBuilder<Args: FromValues> {
    name: String,
    description: String,
    arg_signatures: Vec<ArgSignature>,
    args: PhantomData<Args>,
}

impl<Args: FromValues> CommandBuilder<Args> {
    /// The builder's signatures declare one shape per slot of `Args`, in
    /// declared order.
    pub closed spec fn wf(&self) -> bool {
        &&& self.arg_signatures@.len() == Args::spec_arity()
        &&& forall|i: int|
            0 <= i < Args::spec_arity() ==> self.arg_signatures@[i].syntax_shape
                == Args::spec_shapes()[i]
    }

    pub closed spec fn spec_name(&self) -> Seq<char> {
        self.name@
    }

    pub closed spec fn spec_description(&self) -> Seq<char> {
        self.description@
    }

    /// The declared argument triples so far.
    pub closed spec fn spec_args(&self) -> Seq<(Seq<char>, Seq<char>, SyntaxShape)> {
        spec_triples(self.arg_signatures@)
    }

    /// Declares the next positional argument: its name, its description, and
    /// — through `T` — its type. The result is a builder for the previous
    /// tuple with `T` appended, so this argument is extracted after all
    /// previously declared ones, and its triple is appended to the declared
    /// list.
    pub fn arg<T: FromValue>(self, name: &str, description: &str) -> (b: CommandBuilder<
        (Args, T),
    >)
        requires
            self.wf(),
        ensures
            b.wf(),
            b.spec_name() == self.spec_name(),
            b.spec_description() == self.spec_description(),
            b.spec_args() == self.spec_args().push((name@, description@, T::spec_shape())),
    {
        let ghost before = self.arg_signatures@;
        let mut arg_signatures = self.arg_signatures;
        arg_signatures.push(ArgSignature::new(name, description, T::syntax_shape()));
        proof {
            Args::lemma_shapes_arity();
            assert(spec_triples(arg_signatures@) =~= spec_triples(before).push(
                (name@, description@, T::spec_shape()),
            ));
        }
        CommandBuilder {
            name: self.name,
            description: self.description,
            arg_signatures,
            args: PhantomData,
        }
    }

    /// Finalizes the command with a registry-mutating handler. The handler's
    /// input type must be exactly the accumulated tuple's parsed form; a
    /// mismatch is a compile-time type error. The handler must accept every
    /// parsed tuple, and the built command promises exactly the handler's
    /// own contract of each invocation.
    pub fn build<F: Fn(Plugin, Args::Output) -> (Plugin, Result<NuValue, Error>)>(
        self,
        run_fn: F,
    ) -> (c: Command<Args, F>)
        requires
            self.wf(),
            forall|p: Plugin, args: Args::Output| run_fn.requires((p, args)),
        ensures
            c.wf(),
            c.spec_name() == self.spec_name(),
            c.spec_description() == self.spec_description(),
            c.spec_args() == self.spec_args(),
            forall|p: Plugin, args: Args::Output, out: (Plugin, Result<NuValue, Error>)|
                #[trigger] c.handler_ensures(p, args, out) <==> run_fn.ensures((p, args), out),
    {
        Command {
            name: self.name,
            description: self.description,
            arg_signatures: self.arg_signatures,
            run_fn,
            args: PhantomData,
        }
    }

    /// Finalizes the command with a read-only handler: one that looks the
    /// registry up but never changes it, so the host layer may run it under
    /// a shared lock.
    pub fn build_shared<G: Fn(&Plugin, Args::Output) -> Result<NuValue, Error>>(
        self,
        run_fn: G,
    ) -> (c: SharedCommand<Args, G>)
        requires
            self.wf(),
            forall|p: &Plugin, args: Args::Output| run_fn.requires((p, args)),
        ensures
            c.wf(),
            c.spec_name() == self.spec_name(),
            c.spec_description() == self.spec_description(),
            c.spec_args() == self.spec_args(),
            forall|p: &Plugin, args: Args::Output, out: Result<NuValue, Error>|
                #[trigger] c.handler_ensures(p, args, out) <==> run_fn.ensures((p, args), out),
    {
        SharedCommand {
            name: self.name,
            description: self.description,
            arg_signatures: self.arg_signatures,
            run_fn,
            args: PhantomData,
        }
    }
}

/// Starts declaring a command: just its name and description, with no
/// arguments yet.
pub fn builder(name: &str, description: &str) -> (b: CommandBuilder<()>)
    ensures
        b.wf(),
        b.spec_name() == name@,
        b.spec_description() == description@,
        b.spec_args() == Seq::<(Seq<char>, Seq<char>, SyntaxShape)>::empty(),
{
    let b = CommandBuilder {
        name: name.to_owned(),
        description: description.to_owned(),
        arg_signatures: Vec::new(),
        args: PhantomData,
    };
    proof {
        assert(b.spec_args() =~= Seq::<(Seq<char>, Seq<char>, SyntaxShape)>::empty());
    }
    b
}

/// A built command whose handler takes the registry by value and may change
/// it: its immutable construction-time data and the closure that extracts
/// typed arguments and invokes the handler.
pub struct Command<Args: FromValues, F> {
    name: String,
    description: String,
    arg_signatures: Vec<ArgSignature>,
    run_fn: F,
    args: PhantomData<Args>,
}

impl<
    Args: FromValues,
    F: Fn(Plugin, Args::Output) -> (Plugin, Result<NuValue, Error>),
> Command<Args, F> {
    /// Well-formed: one declared shape per slot the handler's input consumes,
    /// in declared order, and a handler callable on every parsed tuple.
    pub closed spec fn wf(&self) -> bool {
        &&& self.arg_signatures@.len() == Args::spec_arity()
        &&& forall|i: int|
            0 <= i < Args::spec_arity() ==> self.arg_signatures@[i].syntax_shape
                == Args::spec_shapes()[i]
        &&& forall|p: Plugin, args: Args::Output| self.run_fn.requires((p, args))
    }

    pub closed spec fn spec_name(&self) -> Seq<char> {
        self.name@
    }

    pub closed spec fn spec_description(&self) -> Seq<char> {
        self.description@
    }

    /// The declared argument triples, in declaration order.
    pub closed spec fn spec_args(&self) -> Seq<(Seq<char>, Seq<char>, SyntaxShape)> {
        spec_triples(self.arg_signatures@)
    }

    /// The declared shapes, in declared order.
    pub closed spec fn spec_arg_shapes(&self) -> Seq<SyntaxShape> {
        self.arg_signatures@.map_values(|a: ArgSignature| a.syntax_shape)
    }

    /// What the stored handler promises of one invocation.
    pub closed spec fn handler_ensures(
        &self,
        plugin: Plugin,
        args: Args::Output,
        out: (Plugin, Result<NuValue, Error>),
    ) -> bool {
        self.run_fn.ensures((plugin, args), out)
    }

    pub fn name(&self) -> (s: &str)
        ensures
            s@ == self.spec_name(),
    {
        self.name.as_str()
    }

    pub fn description(&self) -> (s: &str)
        ensures
            s@ == self.spec_description(),
    {
        self.description.as_str()
    }

    /// The declared argument triples, exactly one per positional slot the
    /// handler's input consumes, in declaration order.
    pub fn signature(&self) -> (sigs: &Vec<ArgSignature>)
        requires
            self.wf(),
        ensures
            sigs@.len() == Args::spec_arity(),
            forall|i: int|
                0 <= i < Args::spec_arity() ==> sigs@[i].syntax_shape == Args::spec_shapes()[i],
            sigs@.len() == self.spec_args().len(),
            forall|i: int|
                0 <= i < sigs@.len() ==> (#[trigger] sigs@[i]).spec_triple()
                    == self.spec_args()[i],
    {
        &self.arg_signatures
    }

    /// Extracts the declared arguments from the positional slice and invokes
    /// the handler: extraction errors propagate unchanged with the registry
    /// untouched; on success the result is whatever the handler promises of
    /// the parsed tuple.
    pub fn run(&self, plugin: Plugin, positional: &[NuValue]) -> (r: (
        Plugin,
        Result<NuValue, Error>,
    ))
        requires
            self.wf(),
        ensures
            match Args::spec_from_values(positional@) {
                Err(e) => r == (plugin, Err::<NuValue, Error>(e)),
                Ok(args) => self.handler_ensures(plugin, args, r),
            },
    {
        let args = match Args::from_values(positional) {
            Ok(args) => args,
            Err(e) => {
                return (plugin, Err(e));
            },
        };
        (self.run_fn)(plugin, args)
    }
}

/// A built command whose handler only reads the registry: dispatch borrows
/// the registry, so the host layer can serve such commands concurrently
/// under a shared lock.
pub struct SharedCommand<Args: FromValues, G> {
    name: String,
    description: String,
    arg_signatures: Vec<ArgSignature>,
    run_fn: G,
    args: PhantomData<Args>,
}

impl<
    Args: FromValues,
    G: Fn(&Plugin, Args::Output) -> Result<NuValue, Error>,
> SharedCommand<Args, G> {
    /// Well-formed: one declared shape per slot the handler's input consumes,
    /// in declared order, and a handler callable on every parsed tuple.
    pub closed spec fn wf(&self) -> bool {
        &&& self.arg_signatures@.len() == Args::spec_arity()
        &&& forall|i: int|
            0 <= i < Args::spec_arity() ==> self.arg_signatures@[i].syntax_shape
                == Args::spec_shapes()[i]
        &&& forall|p: &Plugin, args: Args::Output| self.run_fn.requires((p, args))
    }

    pub closed spec fn spec_name(&self) -> Seq<char> {
        self.name@
    }

    pub closed spec fn spec_description(&self) -> Seq<char> {
        self.description@
    }

    /// The declared argument triples, in declaration order.
    pub closed spec fn spec_args(&self) -> Seq<(Seq<char>, Seq<char>, SyntaxShape)> {
        spec_triples(self.arg_signatures@)
    }

    /// The declared shapes, in declared order.
    pub closed spec fn spec_arg_shapes(&self) -> Seq<SyntaxShape> {
        self.arg_signatures@.map_values(|a: ArgSignature| a.syntax_shape)
    }

    /// What the stored handler promises of one invocation.
    pub closed spec fn handler_ensures(
        &self,
        plugin: &Plugin,
        args: Args::Output,
        out: Result<NuValue, Error>,
    ) -> bool {
        self.run_fn.ensures((plugin, args), out)
    }

    pub fn name(&self) -> (s: &str)
        ensures
            s@ == self.spec_name(),
    {
        self.name.as_str()
    }

    pub fn description(&self) -> (s: &str)
        ensures
            s@ == self.spec_description(),
    {
        self.description.as_str()
    }

    /// The declared argument triples, exactly one per positional slot the
    /// handler's input consumes, in declaration order.
    pub fn signature(&self) -> (sigs: &Vec<ArgSignature>)
        requires
            self.wf(),
        ensures
            sigs@.len() == Args::spec_arity(),
            forall|i: int|
                0 <= i < Args::spec_arity() ==> sigs@[i].syntax_shape == Args::spec_shapes()[i],
            sigs@.len() == self.spec_args().len(),
            forall|i: int|
                0 <= i < sigs@.len() ==> (#[trigger] sigs@[i]).spec_triple()
                    == self.spec_args()[i],
    {
        &self.arg_signatures
    }

    /// Extracts the declared arguments from the positional slice and invokes
    /// the handler against the borrowed registry: extraction errors propagate
    /// unchanged; on success the result is whatever the handler promises of
    /// the parsed tuple.
    pub fn run(&self, plugin: &Plugin, positional: &[NuValue]) -> (r: Result<NuValue, Error>)
        requires
            self.wf(),
        ensures
            match Args::spec_from_values(positional@) {
                Err(e) => r == Err::<NuValue, Error>(e),
                Ok(args) => self.handler_ensures(plugin, args, r),
            },
    {
        let args = match Args::from_values(positional) {
            Ok(args) => args,
            Err(e) => {
                return Err(e);
            },
        };
        (self.run_fn)(plugin, args)
    }
}

/// The signature law: for every well-formed command, the number of declared
/// argument shapes equals the number of positional slots the handler's input
/// consumes, they are in declaration order, and extraction reads exactly
/// those slots — values at or beyond the declared arity cannot influence it.
pub proof fn lemma_signature_matches_handler<
    Args: FromValues,
    F: Fn(Plugin, Args::Output) -> (Plugin, Result<NuValue, Error>),
>(c: &Command<Args, F>)
    requires
        c.wf(),
    ensures
        c.spec_arg_shapes().len() == Args::spec_arity(),
        c.spec_arg_shapes() == Args::spec_shapes(),
        forall|p1: Seq<NuValue>, p2: Seq<NuValue>|
            p1.len() >= Args::spec_arity() && p2.len() >= Args::spec_arity() && p1.take(
                Args::spec_arity() as int,
            ) == p2.take(Args::spec_arity() as int) ==> #[trigger] Args::spec_from_values(p1)
                == #[trigger] Args::spec_from_values(p2),
{
    Args::lemma_shapes_arity();
    assert(c.spec_arg_shapes() =~= Args::spec_shapes());
    lemma_extraction_reads_declared_prefix::<Args>();
}

/// The same signature law for commands with a read-only handler.
pub proof fn lemma_shared_signature_matches_handler<
    Args: FromValues,
    G: Fn(&Plugin, Args::Output) -> Result<NuValue, Error>,
>(c: &SharedCommand<Args, G>)
    requires
        c.wf(),
    ensures
        c.spec_arg_shapes().len() == Args::spec_arity(),
        c.spec_arg_shapes() == Args::spec_shapes(),
        forall|p1: Seq<NuValue>, p2: Seq<NuValue>|
            p1.len() >= Args::spec_arity() && p2.len() >= Args::spec_arity() && p1.take(
                Args::spec_arity() as int,
            ) == p2.take(Args::spec_arity() as int) ==> #[trigger] Args::spec_from_values(p1)
                == #[trigger] Args::spec_from_values(p2),
{
    Args::lemma_shapes_arity();
    assert(c.spec_arg_shapes() =~= Args::spec_shapes());
    lemma_extraction_reads_declared_prefix::<Args>();
}

/// Extraction consumes exactly the declared slots, whatever the argument
/// tuple: two positional lists that agree on the declared prefix extract to
/// the same result.
pub proof fn lemma_extraction_reads_declared_prefix<Args: FromValues>()
    ensures
        forall|p1: Seq<NuValue>, p2: Seq<NuValue>|
            p1.len() >= Args::spec_arity() && p2.len() >= Args::spec_arity() && p1.take(
                Args::spec_arity() as int,
            ) == p2.take(Args::spec_arity() as int) ==> #[trigger] Args::spec_from_values(p1)
                == #[trigger] Args::spec_from_values(p2),
{
    assert forall|p1: Seq<NuValue>, p2: Seq<NuValue>|
        p1.len() >= Args::spec_arity() && p2.len() >= Args::spec_arity() && p1.take(
            Args::spec_arity() as int,
        ) == p2.take(Args::spec_arity() as int) implies #[trigger] Args::spec_from_values(p1)
        == #[trigger] Args::spec_from_values(p2) by {
        Args::lemma_consumes_declared_prefix(p1, p2);
    }
}

} // verus!
