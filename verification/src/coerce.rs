//! Coercion of the positional arguments of a call into typed parameters.

use crate::decode::{conforms, decode, decode_spec, DecodeError, TargetShape, Typed, TypedView};
use crate::value::{Value, ValueTag, ValueView};
use vstd::prelude::*;

verus! {

/// What a parameter of a method expects of its argument.
#[derive(Debug, PartialEq, Eq)]
pub enum ArgumentKind {
    /// A string with valid text.
    String,
    Boolean,
    UnsignedInt,
    SignedInt,
    /// A value of the given shape.
    Shaped(TargetShape),
}

/// Why an argument cannot be taken for a parameter.
#[derive(Clone, Copy, Debug, PartialEq, Eq)]
pub enum CoercionError {
    /// No string, or a string whose payload is not valid text.
    InvalidText,
    /// The argument has another tag than the parameter expects.
    TypeMismatch { expected: ValueTag, actual: ValueTag },
    /// The argument does not have the shape of the parameter.
    Shape(DecodeError),
}

/// Why a call cannot be dispatched.
#[derive(Clone, Copy, Debug, PartialEq, Eq)]
pub enum DispatchError {
    /// The call has fewer arguments than the method has parameters; `index` is that of
    /// the first parameter without an argument.
    MissingArgument { index: usize, method: &'static str },
    /// The argument at `index` cannot be taken for its parameter.
    Coercion { index: usize, error: CoercionError },
    /// The method is none of the commands or requests.
    UnsupportedEvent,
    /// The option of a request is not known.
    UnknownOption,
    /// An option of the editor is to be set, and no session with the editor stands.
    NoSession,
}

/// The typed parameter that an argument gives for a kind.
pub open spec fn coerce_spec(value: ValueView, kind: ArgumentKind) -> Result<
    TypedView,
    CoercionError,
> {
    match kind {
        ArgumentKind::String => match value.as_text() {
            Some(s) => Ok(TypedView::Text(s)),
            None => Err(CoercionError::InvalidText),
        },
        ArgumentKind::Boolean => match value.as_bool() {
            Some(b) => Ok(TypedView::Bool(b)),
            None => Err(
                CoercionError::TypeMismatch { expected: ValueTag::Bool, actual: value.tag() },
            ),
        },
        ArgumentKind::UnsignedInt => match value.as_u64() {
            Some(n) => Ok(TypedView::UInt(n)),
            None => Err(
                CoercionError::TypeMismatch { expected: ValueTag::UInt64, actual: value.tag() },
            ),
        },
        ArgumentKind::SignedInt => match value.as_i64() {
            Some(n) => Ok(TypedView::Int(n)),
            None => Err(
                CoercionError::TypeMismatch { expected: ValueTag::Int64, actual: value.tag() },
            ),
        },
        ArgumentKind::Shaped(shape) => match decode_spec(value, shape) {
            Ok(typed) => Ok(typed),
            Err(e) => Err(CoercionError::Shape(e)),
        },
    }
}

/// Whether a typed parameter is of a kind.
pub open spec fn fits(typed: TypedView, kind: ArgumentKind) -> bool {
    match kind {
        ArgumentKind::String => typed is Text,
        ArgumentKind::Boolean => typed is Bool,
        ArgumentKind::UnsignedInt => typed is UInt,
        ArgumentKind::SignedInt => typed is Int,
        ArgumentKind::Shaped(shape) => conforms(typed, shape),
    }
}

/// The arguments from position `at` on, each coerced to the kind at its position; the
/// first argument that cannot be coerced gives its position and the error.
pub open spec fn coerce_from(args: Seq<ValueView>, kinds: Seq<ArgumentKind>, at: int) -> Result<
    Seq<TypedView>,
    (int, CoercionError),
>
    decreases kinds.len() - at,
{
    if at < 0 || at >= kinds.len() {
        Ok(Seq::empty())
    } else {
        match coerce_spec(args[at], kinds[at]) {
            Err(e) => Err((at, e)),
            Ok(first) => match coerce_from(args, kinds, at + 1) {
                Err(failure) => Err(failure),
                Ok(rest) => Ok(seq![first] + rest),
            },
        }
    }
}

/// The typed parameters of a call: all of them, or the error of the call. A call with
/// too few arguments has a missing argument, whatever its arguments are.
pub open spec fn coerce_args_spec(
    method: &'static str,
    args: Seq<ValueView>,
    kinds: Seq<ArgumentKind>,
) -> Result<Seq<TypedView>, DispatchError> {
    if args.len() < kinds.len() {
        Err(DispatchError::MissingArgument { index: args.len() as usize, method })
    } else {
        match coerce_from(args, kinds, 0) {
            Err((index, error)) => Err(DispatchError::Coercion { index: index as usize, error }),
            Ok(typed) => Ok(typed),
        }
    }
}

/// What a successful coercion gives: one parameter for each kind, of that kind, from
/// the argument at its position.
pub proof fn lemma_coerce_from(args: Seq<ValueView>, kinds: Seq<ArgumentKind>, at: int)
    requires
        0 <= at <= kinds.len(),
    ensures
        match coerce_from(args, kinds, at) {
            Ok(typed) => {
                &&& typed.len() == kinds.len() - at
                &&& forall|i: int|
                    0 <= i < typed.len() ==> coerce_spec(args[at + i], kinds[at + i]) == Ok::<
                        TypedView,
                        CoercionError,
                    >(#[trigger] typed[i]) && fits(typed[i], kinds[at + i])
            },
            Err((index, error)) => {
                &&& at <= index < kinds.len()
                &&& coerce_spec(args[index], kinds[index]) == Err::<TypedView, CoercionError>(error)
                &&& forall|i: int| at <= i < index ==> (#[trigger] coerce_spec(args[i], kinds[i])) is Ok
            },
        },
    decreases kinds.len() - at,
{
    if at < kinds.len() {
        lemma_coerce_from(args, kinds, at + 1);
        lemma_coerce_fits(args[at], kinds[at]);
        match coerce_from(args, kinds, at) {
            Ok(typed) => {
                let rest = coerce_from(args, kinds, at + 1)->Ok_0;
                assert forall|i: int| 0 <= i < typed.len() implies coerce_spec(
                    args[at + i],
                    kinds[at + i],
                ) == Ok::<TypedView, CoercionError>(#[trigger] typed[i]) && fits(
                    typed[i],
                    kinds[at + i],
                ) by {
                    if i > 0 {
                        assert(typed[i] == rest[i - 1]);
                    }
                }
            },
            Err(_) => {},
        }
    }
}

/// A coerced parameter is of the kind it was coerced to.
pub proof fn lemma_coerce_fits(value: ValueView, kind: ArgumentKind)
    ensures
        coerce_spec(value, kind) matches Ok(typed) ==> fits(typed, kind),
{
    if let ArgumentKind::Shaped(shape) = kind {
        crate::decode::lemma_decode_conforms(value, shape);
    }
}

/// The model of the outcome of a coercion.
pub open spec fn coerced(outcome: Result<Typed, CoercionError>) -> Result<
    TypedView,
    CoercionError,
> {
    match outcome {
        Ok(typed) => Ok(typed@),
        Err(e) => Err(e),
    }
}

/// Coerces one argument to the kind of its parameter.
pub fn coerce(value: &Value, kind: &ArgumentKind) -> (outcome: Result<Typed, CoercionError>)
    ensures
        coerced(outcome) == coerce_spec(value@, *kind),
        outcome matches Ok(typed) ==> fits(typed@, *kind),
{
    match kind {
        ArgumentKind::String => match value.as_str() {
            Some(s) => Ok(Typed::Text(s.to_owned())),
            None => Err(CoercionError::InvalidText),
        },
        ArgumentKind::Boolean => match value.as_bool() {
            Some(b) => Ok(Typed::Bool(b)),
            None => Err(
                CoercionError::TypeMismatch { expected: ValueTag::Bool, actual: value.tag() },
            ),
        },
        ArgumentKind::UnsignedInt => match value.as_u64() {
            Some(n) => Ok(Typed::UInt(n)),
            None => Err(
                CoercionError::TypeMismatch { expected: ValueTag::UInt64, actual: value.tag() },
            ),
        },
        ArgumentKind::SignedInt => match value.as_i64() {
            Some(n) => Ok(Typed::Int(n)),
            None => Err(
                CoercionError::TypeMismatch { expected: ValueTag::Int64, actual: value.tag() },
            ),
        },
        ArgumentKind::Shaped(shape) => match decode(value, shape) {
            Ok(typed) => Ok(typed),
            Err(e) => Err(CoercionError::Shape(e)),
        },
    }
}

/// Coerces the arguments of a call to the kinds of the method's parameters: all of
/// them, or none.
pub fn coerce_args(method: &'static str, args: &Vec<Value>, kinds: &Vec<ArgumentKind>) -> (outcome:
    Result<Vec<Typed>, DispatchError>)
    ensures
        match outcome {
            Ok(typed) => {
                &&& coerce_args_spec(method, args.deep_view(), kinds@) == Ok::<
                    Seq<TypedView>,
                    DispatchError,
                >(typed.deep_view())
                &&& typed@.len() == kinds@.len()
                &&& forall|i: int|
                    0 <= i < kinds@.len() ==> fits((#[trigger] typed@[i])@, kinds@[i])
            },
            Err(e) => coerce_args_spec(method, args.deep_view(), kinds@) == Err::<
                Seq<TypedView>,
                DispatchError,
            >(e),
        },
{
    if args.len() < kinds.len() {
        return Err(DispatchError::MissingArgument { index: args.len(), method });
    }
    let ghost all = args.deep_view();
    let mut typed: Vec<Typed> = Vec::new();
    let mut i: usize = 0;
    proof {
        assert forall|rest: Seq<TypedView>| #[trigger] (typed.deep_view() + rest) == rest by {
            assert(typed.deep_view() + rest =~= rest);
        }
    }
    while i < kinds.len()
        invariant
            i <= kinds.len(),
            kinds.len() <= args.len(),
            all == args.deep_view(),
            typed@.len() == i,
            forall|k: int| 0 <= k < i ==> fits((#[trigger] typed@[k])@, kinds@[k]),
            coerce_from(all, kinds@, 0) == match coerce_from(all, kinds@, i as int) {
                Ok(rest) => Ok::<Seq<TypedView>, (int, CoercionError)>(typed.deep_view() + rest),
                Err(failure) => Err(failure),
            },
        decreases kinds.len() - i,
    {
        let ghost before = typed.deep_view();
        match coerce(&args[i], &kinds[i]) {
            Err(e) => {
                return Err(DispatchError::Coercion { index: i, error: e });
            },
            Ok(one) => {
                typed.push(one);
                proof {
                    assert(typed.deep_view() =~= before.push(one@));
                    assert forall|rest: Seq<TypedView>|
                        before + (seq![one@] + rest) == #[trigger] (typed.deep_view() + rest) by {
                        assert(before + (seq![one@] + rest) =~= typed.deep_view() + rest);
                    }
                }
            },
        }
        i += 1;
    }
    proof {
        assert(typed.deep_view() + Seq::<TypedView>::empty() =~= typed.deep_view());
    }
    Ok(typed)
}

} // verus!
