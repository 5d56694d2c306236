//! Variadic argument aggregation: turning the full positional slice into one
//! typed tuple, slot by slot, left to right, failing fast.
//!
//! Tuples are built by structural induction: the empty tuple `()` consumes
//! no slots, and `(Init, T)` consumes whatever `Init` consumes followed by
//! one slot of type `T`. The command builder appends one type per declared
//! argument, so declaration order and extraction order coincide by
//! construction.

use vstd::prelude::*;

use crate::error::{Error, ExpectedType};
use crate::from_value::{FromValue, SyntaxShape};
use crate::value::NuValue;

verus! {

/// One declared argument: its name, its human description, and its shape,
/// exactly as the host's command registration interface wants them.
#[derive(Debug)]
pub struct ArgSignature {
    pub name: String,
    pub description: String,
    pub syntax_shape: SyntaxShape,
}

impl ArgSignature {
    /// The declared triple — name, description, shape — as its mathematical
    /// view.
    pub open spec fn spec_triple(&self) -> (Seq<char>, Seq<char>, SyntaxShape) {
        (self.name@, self.description@, self.syntax_shape)
    }

    pub fn new(name: &str, description: &str, syntax_shape: SyntaxShape) -> (a: ArgSignature)
        ensures
            a.spec_triple() == (name@, description@, syntax_shape),
    {
        ArgSignature { name: name.to_owned(), description: description.to_owned(), syntax_shape }
    }
}

/// An ordered tuple of argument types, extracted together from the full
/// positional slice.
///
/// `spec_from_values` is the complete semantics: slots are visited in
/// declared order, a missing slot is reported before anything at a later
/// index, and the first failing slot short-circuits the rest. The exec
/// `from_values` must return exactly that. The proof functions are laws
/// every implementation must establish, so they hold of every argument
/// tuple a command can declare.
pub trait FromValues: Sized {
    /// The parsed form handed to the handler.
    type Output;

    /// How many positional slots this tuple consumes.
    spec fn spec_arity() -> nat;

    /// The declared shapes, one per slot, in declared order.
    spec fn spec_shapes() -> Seq<SyntaxShape>;

    /// Whether slot `i`'s extraction accepts `v`.
    spec fn spec_slot_matches(i: int, v: NuValue) -> bool
        recommends
            0 <= i < Self::spec_arity(),
    ;

    /// The category slot `i` names when it rejects a value.
    spec fn spec_slot_expected(i: int) -> ExpectedType
        recommends
            0 <= i < Self::spec_arity(),
    ;

    /// The full extraction semantics over the positional slice.
    spec fn spec_from_values(positional: Seq<NuValue>) -> Result<Self::Output, Error>;

    /// The declared shapes as a vector, for building the public signature.
    fn shapes() -> (v: Vec<SyntaxShape>)
        ensures
            v@ == Self::spec_shapes(),
    ;

    /// Extracts each slot in declared order from the positional slice.
    fn from_values(positional: &[NuValue]) -> (r: Result<Self::Output, Error>)
        ensures
            r == Self::spec_from_values(positional@),
    ;

    /// There is one declared shape per consumed slot.
    proof fn lemma_shapes_arity()
        ensures
            Self::spec_shapes().len() == Self::spec_arity(),
    ;

    /// Extraction consumes exactly the declared slots: values at or beyond
    /// the arity cannot influence the result.
    proof fn lemma_consumes_declared_prefix(p1: Seq<NuValue>, p2: Seq<NuValue>)
        requires
            p1.len() >= Self::spec_arity(),
            p2.len() >= Self::spec_arity(),
            p1.take(Self::spec_arity() as int) == p2.take(Self::spec_arity() as int),
        ensures
            Self::spec_from_values(p1) == Self::spec_from_values(p2),
    ;

    /// Extraction succeeds exactly when every declared slot is present and
    /// holds a matching value.
    proof fn lemma_ok_iff_all_match(positional: Seq<NuValue>)
        ensures
            Self::spec_from_values(positional) is Ok <==> (positional.len() >= Self::spec_arity()
                && forall|j: int|
                    0 <= j < Self::spec_arity() ==> Self::spec_slot_matches(
                        j,
                        #[trigger] positional[j],
                    )),
    ;

    /// A failed extraction reports a missing argument or a type mismatch —
    /// never any other error kind.
    proof fn lemma_error_kinds(positional: Seq<NuValue>)
        ensures
            match Self::spec_from_values(positional) {
                Ok(_) => true,
                Err(e) => e is MissingArgument || e is TypeMismatch,
            },
    ;

    /// A positional list shorter than the declared arity, whose present
    /// slots all match, fails with `MissingArgument` at the first missing
    /// index — the list's own length.
    proof fn lemma_missing_argument(positional: Seq<NuValue>)
        requires
            positional.len() < Self::spec_arity(),
            forall|j: int|
                0 <= j < positional.len() ==> Self::spec_slot_matches(j, #[trigger] positional[j]),
        ensures
            Self::spec_from_values(positional) == Err::<Self::Output, Error>(
                Error::MissingArgument { index: positional.len() as usize },
            ),
    ;

    /// A missing argument is never reported at an index later than the first
    /// missing one: whatever the list holds, the reported index is its
    /// length.
    proof fn lemma_missing_is_first(positional: Seq<NuValue>, i: usize)
        requires
            positional.len() <= usize::MAX,
        ensures
            Self::spec_from_values(positional) == Err::<Self::Output, Error>(
                Error::MissingArgument { index: i },
            ) ==> i as nat == positional.len(),
    ;

    /// When every slot before `i` matches and slot `i` does not, extraction
    /// fails at slot `i` with a `TypeMismatch` naming slot `i`'s expectation
    /// and span; nothing after `i` is consulted.
    proof fn lemma_type_mismatch_fail_fast(positional: Seq<NuValue>, i: int)
        requires
            0 <= i < Self::spec_arity(),
            i < positional.len(),
            forall|j: int| 0 <= j < i ==> Self::spec_slot_matches(j, #[trigger] positional[j]),
            !Self::spec_slot_matches(i, positional[i]),
        ensures
            Self::spec_from_values(positional) == Err::<Self::Output, Error>(
                Error::TypeMismatch {
                    expected: Self::spec_slot_expected(i),
                    span: positional[i].span,
                },
            ),
    ;
}

/// The base case: a command with zero declared arguments. Extraction always
/// succeeds and contributes no slots.
impl FromValues for () {
    type Output = ();

    open spec fn spec_arity() -> nat {
        0
    }

    open spec fn spec_shapes() -> Seq<SyntaxShape> {
        Seq::empty()
    }

    open spec fn spec_slot_matches(i: int, v: NuValue) -> bool {
        false
    }

    open spec fn spec_slot_expected(i: int) -> ExpectedType {
        ExpectedType::Str
    }

    open spec fn spec_from_values(positional: Seq<NuValue>) -> Result<(), Error> {
        Ok(())
    }

    fn shapes() -> (v: Vec<SyntaxShape>) {
        Vec::new()
    }

    fn from_values(positional: &[NuValue]) -> (r: Result<(), Error>) {
        Ok(())
    }

    proof fn lemma_shapes_arity() {
    }

    proof fn lemma_consumes_declared_prefix(p1: Seq<NuValue>, p2: Seq<NuValue>) {
    }

    proof fn lemma_ok_iff_all_match(positional: Seq<NuValue>) {
    }

    proof fn lemma_error_kinds(positional: Seq<NuValue>) {
    }

    proof fn lemma_missing_argument(positional: Seq<NuValue>) {
    }

    proof fn lemma_missing_is_first(positional: Seq<NuValue>, i: usize) {
    }

    proof fn lemma_type_mismatch_fail_fast(positional: Seq<NuValue>, i: int) {
    }
}

/// The inductive case: everything `Init` declares, followed by one slot of
/// type `T` at index `Init::spec_arity()`.
impl<Init: FromValues, T: FromValue> FromValues for (Init, T) {
    type Output = (Init::Output, T::Output);

    open spec fn spec_arity() -> nat {
        Init::spec_arity() + 1
    }

    open spec fn spec_shapes() -> Seq<SyntaxShape> {
        Init::spec_shapes().push(T::spec_shape())
    }

    open spec fn spec_slot_matches(i: int, v: NuValue) -> bool {
        if i < Init::spec_arity() {
            Init::spec_slot_matches(i, v)
        } else {
            T::spec_matches(v)
        }
    }

    open spec fn spec_slot_expected(i: int) -> ExpectedType {
        if i < Init::spec_arity() {
            Init::spec_slot_expected(i)
        } else {
            T::spec_expected()
        }
    }

    open spec fn spec_from_values(positional: Seq<NuValue>) -> Result<
        (Init::Output, T::Output),
        Error,
    > {
        let k = Init::spec_arity() as int;
        match Init::spec_from_values(positional) {
            Err(e) => Err(e),
            Ok(init) => if positional.len() <= k {
                Err(Error::MissingArgument { index: Init::spec_arity() as usize })
            } else if !T::spec_matches(positional[k]) {
                Err(
                    Error::TypeMismatch {
                        expected: T::spec_expected(),
                        span: positional[k].span,
                    },
                )
            } else {
                Ok((init, T::spec_extract(positional[k])))
            },
        }
    }

    fn shapes() -> (v: Vec<SyntaxShape>) {
        let mut v = Init::shapes();
        v.push(T::syntax_shape());
        v
    }

    fn from_values(positional: &[NuValue]) -> (r: Result<(Init::Output, T::Output), Error>) {
        proof {
            Init::lemma_shapes_arity();
            Init::lemma_ok_iff_all_match(positional@);
        }
        let init = match Init::from_values(positional) {
            Ok(init) => init,
            Err(e) => {
                return Err(e);
            },
        };
        let k = Init::shapes().len();
        if k >= positional.len() {
            return Err(Error::MissingArgument { index: k });
        }
        match T::from_value(&positional[k]) {
            Ok(t) => Ok((init, t)),
            Err(e) => Err(e),
        }
    }

    proof fn lemma_shapes_arity() {
        Init::lemma_shapes_arity();
    }

    proof fn lemma_consumes_declared_prefix(p1: Seq<NuValue>, p2: Seq<NuValue>) {
        let k = Init::spec_arity() as int;
        assert(p1.take(k) =~= p2.take(k)) by {
            assert forall|j: int| 0 <= j < k implies p1.take(k)[j] == p2.take(k)[j] by {
                assert(p1.take(k + 1)[j] == p2.take(k + 1)[j]);
            }
        }
        Init::lemma_consumes_declared_prefix(p1, p2);
        assert(p1[k] == p1.take(k + 1)[k]);
        assert(p2[k] == p2.take(k + 1)[k]);
    }

    proof fn lemma_ok_iff_all_match(positional: Seq<NuValue>) {
        let k = Init::spec_arity() as int;
        Init::lemma_ok_iff_all_match(positional);
        if Self::spec_from_values(positional) is Ok {
            assert forall|j: int|
                0 <= j < Self::spec_arity() implies Self::spec_slot_matches(
                j,
                #[trigger] positional[j],
            ) by {
                if j < k {
                    assert(Init::spec_slot_matches(j, positional[j]));
                }
            }
        } else {
            if positional.len() >= Self::spec_arity() && (forall|j: int|
                0 <= j < Self::spec_arity() ==> Self::spec_slot_matches(
                    j,
                    #[trigger] positional[j],
                )) {
                assert forall|j: int|
                    0 <= j < Init::spec_arity() implies Init::spec_slot_matches(
                    j,
                    #[trigger] positional[j],
                ) by {
                    assert(Self::spec_slot_matches(j, positional[j]));
                }
                assert(Init::spec_from_values(positional) is Ok);
                assert(Self::spec_slot_matches(k, positional[k]));
                assert(T::spec_matches(positional[k]));
                assert(false);
            }
        }
    }

    proof fn lemma_error_kinds(positional: Seq<NuValue>) {
        Init::lemma_error_kinds(positional);
    }

    proof fn lemma_missing_argument(positional: Seq<NuValue>) {
        let k = Init::spec_arity() as int;
        if positional.len() < Init::spec_arity() {
            assert forall|j: int|
                0 <= j < positional.len() implies Init::spec_slot_matches(
                j,
                #[trigger] positional[j],
            ) by {
                assert(Self::spec_slot_matches(j, positional[j]));
            }
            Init::lemma_missing_argument(positional);
        } else {
            assert(positional.len() == k);
            assert forall|j: int|
                0 <= j < Init::spec_arity() implies Init::spec_slot_matches(
                j,
                #[trigger] positional[j],
            ) by {
                assert(Self::spec_slot_matches(j, positional[j]));
            }
            Init::lemma_ok_iff_all_match(positional);
            assert(Init::spec_from_values(positional) is Ok);
        }
    }

    proof fn lemma_missing_is_first(positional: Seq<NuValue>, i: usize) {
        let k = Init::spec_arity() as int;
        if Self::spec_from_values(positional) == Err::<Self::Output, Error>(
            Error::MissingArgument { index: i },
        ) {
            match Init::spec_from_values(positional) {
                Err(e) => {
                    assert(e == (Error::MissingArgument { index: i }));
                    Init::lemma_missing_is_first(positional, i);
                },
                Ok(_) => {
                    Init::lemma_ok_iff_all_match(positional);
                    assert(positional.len() >= k);
                    assert(positional.len() <= k);
                },
            }
        }
    }

    proof fn lemma_type_mismatch_fail_fast(positional: Seq<NuValue>, i: int) {
        let k = Init::spec_arity() as int;
        if i < k {
            assert forall|j: int| 0 <= j < i implies Init::spec_slot_matches(
                j,
                #[trigger] positional[j],
            ) by {
                assert(Self::spec_slot_matches(j, positional[j]));
            }
            Init::lemma_type_mismatch_fail_fast(positional, i);
        } else {
            assert(i == k);
            assert forall|j: int|
                0 <= j < Init::spec_arity() implies Init::spec_slot_matches(
                j,
                #[trigger] positional[j],
            ) by {
                assert(Self::spec_slot_matches(j, positional[j]));
            }
            Init::lemma_ok_iff_all_match(positional);
            assert(Init::spec_from_values(positional) is Ok);
            assert(!T::spec_matches(positional[k]));
        }
    }
}

} // verus!
