//! The structural decoder: from a dynamically typed value to a typed value of a
//! requested shape.

use crate::attrs::{distinct_keys, lemma_put, lookup, put, AttrMap, Entries};
use crate::value::{
    clone_bytes, lemma_array_view, lemma_dict_view, Text, TextView, Value, ValueTag, ValueView,
};
use vstd::prelude::*;

verus! {

/// The kinds of values without parts.
#[derive(Clone, Copy, Debug, PartialEq, Eq, Structural)]
pub enum ScalarKind {
    /// Any value, kept as it is.
    Any,
    Bool,
    /// A signed integer.
    Int,
    /// An unsigned integer.
    UInt,
    Float,
    Text,
    Binary,
}

/// The keys that a record must hold.
#[derive(Debug, PartialEq, Eq)]
pub enum Keys {
    End,
    Key(&'static str, Box<Keys>),
}

/// The shape that a value is decoded against.
#[derive(Debug, PartialEq, Eq)]
pub enum TargetShape {
    /// A value without parts.
    Scalar(ScalarKind),
    /// An array whose items all have one shape, with a least number of items.
    Sequence { of: Box<TargetShape>, min_len: usize },
    /// An array of exactly two items, each with its shape.
    Pair(Box<TargetShape>, Box<TargetShape>),
    /// A map with text keys, which holds at least the given keys.
    Record(Keys),
}

/// Why a value does not have the requested shape.
#[allow(inconsistent_fields)]
#[derive(Clone, Copy, Debug, PartialEq, Eq)]
pub enum DecodeError {
    /// The value has another tag than the shape asks for.
    TypeMismatch { expected: ValueTag, actual: ValueTag },
    /// A string whose payload is not valid text.
    InvalidText,
    /// A record lacks a key that the shape requires.
    MissingField { field: &'static str },
    /// An array has the wrong number of items.
    ShapeMismatch { expected: usize, actual: usize },
}

/// A decoded value.
#[derive(Debug, PartialEq, Eq)]
pub enum Typed {
    Any(Value),
    Bool(bool),
    Int(i64),
    UInt(u64),
    Float(u64),
    Text(String),
    Binary(Vec<u8>),
    Sequence(Vec<Typed>),
    Pair(Box<Typed>, Box<Typed>),
    Record(AttrMap),
}

/// Mathematical model of a decoded value.
pub enum TypedView {
    Any(ValueView),
    Bool(bool),
    Int(i64),
    UInt(u64),
    Float(u64),
    Text(Seq<char>),
    Binary(Seq<u8>),
    Sequence(Seq<TypedView>),
    Pair(Box<TypedView>, Box<TypedView>),
    Record(Entries),
}

/// The model of a decoded value: the same tree, with sequences in place of vectors.
pub open spec fn typed_model_of(typed: Typed) -> TypedView
    decreases typed,
{
    match typed {
        Typed::Any(value) => TypedView::Any(value@),
        Typed::Bool(b) => TypedView::Bool(b),
        Typed::Int(n) => TypedView::Int(n),
        Typed::UInt(n) => TypedView::UInt(n),
        Typed::Float(bits) => TypedView::Float(bits),
        Typed::Text(s) => TypedView::Text(s@),
        Typed::Binary(bytes) => TypedView::Binary(bytes@),
        Typed::Sequence(items) => TypedView::Sequence(
            Seq::new(
                items@.len(),
                |i: int|
                    if 0 <= i < items@.len() {
                        typed_model_of(items@[i])
                    } else {
                        TypedView::Bool(false)
                    },
            ),
        ),
        Typed::Pair(first, second) => TypedView::Pair(
            Box::new(typed_model_of(*first)),
            Box::new(typed_model_of(*second)),
        ),
        Typed::Record(map) => TypedView::Record(map@),
    }
}

impl DeepView for Typed {
    type V = TypedView;

    open spec fn deep_view(&self) -> TypedView {
        typed_model_of(*self)
    }
}

impl View for Typed {
    type V = TypedView;

    open spec fn view(&self) -> TypedView {
        self.deep_view()
    }
}

/// The model of a sequence is the models of its items.
pub broadcast proof fn lemma_sequence_view(items: Vec<Typed>)
    ensures
        #[trigger] Typed::Sequence(items).deep_view() == TypedView::Sequence(items.deep_view()),
{
    assert(Typed::Sequence(items).deep_view()->Sequence_0 =~= items.deep_view());
}

impl Typed {
    /// The value of a typed value of kind `Any`.
    pub fn as_any(&self) -> (found: Option<&Value>)
        ensures
            match found {
                Some(value) => self@ == TypedView::Any(value@),
                None => !(self@ is Any),
            },
    {
        match self {
            Typed::Any(value) => Some(value),
            _ => None,
        }
    }

    pub fn as_bool(&self) -> (found: Option<bool>)
        ensures
            match found {
                Some(b) => self@ == TypedView::Bool(b),
                None => !(self@ is Bool),
            },
    {
        match self {
            Typed::Bool(b) => Some(*b),
            _ => None,
        }
    }

    pub fn as_int(&self) -> (found: Option<i64>)
        ensures
            match found {
                Some(n) => self@ == TypedView::Int(n),
                None => !(self@ is Int),
            },
    {
        match self {
            Typed::Int(n) => Some(*n),
            _ => None,
        }
    }

    pub fn as_uint(&self) -> (found: Option<u64>)
        ensures
            match found {
                Some(n) => self@ == TypedView::UInt(n),
                None => !(self@ is UInt),
            },
    {
        match self {
            Typed::UInt(n) => Some(*n),
            _ => None,
        }
    }

    pub fn as_text(&self) -> (found: Option<&str>)
        ensures
            match found {
                Some(s) => self@ == TypedView::Text(s@),
                None => !(self@ is Text),
            },
    {
        match self {
            Typed::Text(s) => Some(s.as_str()),
            _ => None,
        }
    }

    /// The items of a sequence.
    pub fn as_items(&self) -> (found: Option<&Vec<Typed>>)
        ensures
            match found {
                Some(items) => self@ == TypedView::Sequence(items.deep_view()),
                None => !(self@ is Sequence),
            },
    {
        match self {
            Typed::Sequence(items) => {
                proof {
                    lemma_sequence_view(*items);
                }
                Some(items)
            },
            _ => None,
        }
    }

    /// The two parts of a pair.
    pub fn as_pair(&self) -> (found: Option<(&Typed, &Typed)>)
        ensures
            match found {
                Some((first, second)) => self@ == TypedView::Pair(
                    Box::new(first@),
                    Box::new(second@),
                ),
                None => !(self@ is Pair),
            },
    {
        match self {
            Typed::Pair(first, second) => Some((&**first, &**second)),
            _ => None,
        }
    }

    /// The entries of a record.
    pub fn as_record(&self) -> (found: Option<&AttrMap>)
        ensures
            match found {
                Some(map) => self@ == TypedView::Record(map@),
                None => !(self@ is Record),
            },
    {
        match self {
            Typed::Record(map) => Some(map),
            _ => None,
        }
    }
}

/// The text of a string value.
pub open spec fn text_of(value: ValueView) -> Result<Seq<char>, DecodeError> {
    match value {
        ValueView::String(TextView::Utf8(s)) => Ok(s),
        ValueView::String(TextView::Raw(_)) => Err(DecodeError::InvalidText),
        _ => Err(DecodeError::TypeMismatch { expected: ValueTag::String, actual: value.tag() }),
    }
}

/// The error for a value with another tag than the expected one.
pub open spec fn mismatch<T>(expected: ValueTag, value: ValueView) -> Result<T, DecodeError> {
    Err(DecodeError::TypeMismatch { expected, actual: value.tag() })
}

/// A value decoded as a scalar: the tag must match, but that an integer of either
/// sign is taken for the other where its number fits.
pub open spec fn decode_scalar(value: ValueView, kind: ScalarKind) -> Result<
    TypedView,
    DecodeError,
> {
    match kind {
        ScalarKind::Any => Ok(TypedView::Any(value)),
        ScalarKind::Bool => match value {
            ValueView::Bool(b) => Ok(TypedView::Bool(b)),
            _ => mismatch(ValueTag::Bool, value),
        },
        ScalarKind::Int => match value.as_i64() {
            Some(n) => Ok(TypedView::Int(n)),
            None => mismatch(ValueTag::Int64, value),
        },
        ScalarKind::UInt => match value.as_u64() {
            Some(n) => Ok(TypedView::UInt(n)),
            None => mismatch(ValueTag::UInt64, value),
        },
        ScalarKind::Float => match value {
            ValueView::Float64(bits) => Ok(TypedView::Float(bits)),
            _ => mismatch(ValueTag::Float64, value),
        },
        ScalarKind::Text => match text_of(value) {
            Ok(s) => Ok(TypedView::Text(s)),
            Err(e) => Err(e),
        },
        ScalarKind::Binary => match value {
            ValueView::Binary(bytes) => Ok(TypedView::Binary(bytes)),
            _ => mismatch(ValueTag::Binary, value),
        },
    }
}

/// The pairs of a map stored one after the other into `entries`, each under the text of
/// its key; the first key that is no text gives the error.
pub open spec fn collect_from(entries: Entries, pairs: Seq<(ValueView, ValueView)>) -> Result<
    Entries,
    DecodeError,
>
    decreases pairs.len(),
{
    if pairs.len() == 0 {
        Ok(entries)
    } else {
        match text_of(pairs[0].0) {
            Err(e) => Err(e),
            Ok(key) => collect_from(put(entries, key, pairs[0].1), pairs.drop_first()),
        }
    }
}

/// The first required key that the entries lack.
pub open spec fn first_missing(keys: Keys, entries: Entries) -> Option<&'static str>
    decreases keys,
{
    match keys {
        Keys::End => None,
        Keys::Key(name, rest) => if lookup(entries, name@) is None {
            Some(name)
        } else {
            first_missing(*rest, entries)
        },
    }
}

/// A map decoded as a record: the lookup of its pairs, where the last value of a key
/// stays, with every required key present.
pub open spec fn decode_record(pairs: Seq<(ValueView, ValueView)>, keys: Keys) -> Result<
    TypedView,
    DecodeError,
> {
    match collect_from(Seq::empty(), pairs) {
        Err(e) => Err(e),
        Ok(entries) => match first_missing(keys, entries) {
            Some(field) => Err(DecodeError::MissingField { field }),
            None => Ok(TypedView::Record(entries)),
        },
    }
}

/// What decoding a value against a shape gives.
pub open spec fn decode_spec(value: ValueView, shape: TargetShape) -> Result<
    TypedView,
    DecodeError,
>
    decreases shape, 0nat,
{
    match shape {
        TargetShape::Scalar(kind) => decode_scalar(value, kind),
        TargetShape::Sequence { of, min_len } => match value {
            ValueView::Array(items) => if items.len() < min_len {
                Err(DecodeError::ShapeMismatch { expected: min_len, actual: items.len() as usize })
            } else {
                match decode_all(items, *of) {
                    Ok(typed) => Ok(TypedView::Sequence(typed)),
                    Err(e) => Err(e),
                }
            },
            _ => mismatch(ValueTag::Array, value),
        },
        TargetShape::Pair(first, second) => match value {
            ValueView::Array(items) => if items.len() != 2 {
                Err(DecodeError::ShapeMismatch { expected: 2, actual: items.len() as usize })
            } else {
                match decode_spec(items[0], *first) {
                    Err(e) => Err(e),
                    Ok(a) => match decode_spec(items[1], *second) {
                        Err(e) => Err(e),
                        Ok(b) => Ok(TypedView::Pair(Box::new(a), Box::new(b))),
                    },
                }
            },
            _ => mismatch(ValueTag::Array, value),
        },
        TargetShape::Record(keys) => match value {
            ValueView::Dict(pairs) => decode_record(pairs, keys),
            _ => mismatch(ValueTag::Dict, value),
        },
    }
}

/// The items decoded one after the other against one shape; the first item that does
/// not have the shape gives the error.
pub open spec fn decode_all(items: Seq<ValueView>, shape: TargetShape) -> Result<
    Seq<TypedView>,
    DecodeError,
>
    decreases shape, items.len() + 1,
{
    if items.len() == 0 {
        Ok(Seq::empty())
    } else {
        match decode_spec(items[0], shape) {
            Err(e) => Err(e),
            Ok(first) => match decode_all(items.drop_first(), shape) {
                Err(e) => Err(e),
                Ok(rest) => Ok(seq![first] + rest),
            },
        }
    }
}

/// Whether a decoded value has a shape.
pub open spec fn conforms(typed: TypedView, shape: TargetShape) -> bool
    decreases shape,
{
    match shape {
        TargetShape::Scalar(kind) => match kind {
            ScalarKind::Any => typed is Any,
            ScalarKind::Bool => typed is Bool,
            ScalarKind::Int => typed is Int,
            ScalarKind::UInt => typed is UInt,
            ScalarKind::Float => typed is Float,
            ScalarKind::Text => typed is Text,
            ScalarKind::Binary => typed is Binary,
        },
        TargetShape::Sequence { of, min_len } => {
            &&& typed matches TypedView::Sequence(items)
            &&& items.len() >= min_len
            &&& forall|i: int| 0 <= i < items.len() ==> conforms(#[trigger] items[i], *of)
        },
        TargetShape::Pair(first, second) => {
            &&& typed matches TypedView::Pair(a, b)
            &&& conforms(*a, *first)
            &&& conforms(*b, *second)
        },
        TargetShape::Record(keys) => {
            &&& typed matches TypedView::Record(entries)
            &&& distinct_keys(entries)
            &&& first_missing(keys, entries) is None
        },
    }
}

/// Storing pairs one after the other keeps the keys distinct.
pub proof fn lemma_collect_distinct(entries: Entries, pairs: Seq<(ValueView, ValueView)>)
    requires
        distinct_keys(entries),
    ensures
        collect_from(entries, pairs) matches Ok(all) ==> distinct_keys(all),
    decreases pairs.len(),
{
    if pairs.len() > 0 {
        if let Ok(key) = text_of(pairs[0].0) {
            lemma_put(entries, key, pairs[0].1);
            lemma_collect_distinct(put(entries, key, pairs[0].1), pairs.drop_first());
        }
    }
}

/// What decoding gives has the shape that was asked for.
pub proof fn lemma_decode_conforms(value: ValueView, shape: TargetShape)
    ensures
        decode_spec(value, shape) matches Ok(typed) ==> conforms(typed, shape),
    decreases shape, 0nat,
{
    match shape {
        TargetShape::Scalar(_) => {},
        TargetShape::Sequence { of, min_len } => {
            if let ValueView::Array(items) = value {
                lemma_decode_all_conforms(items, *of);
            }
        },
        TargetShape::Pair(first, second) => {
            if let ValueView::Array(items) = value {
                if items.len() == 2 {
                    lemma_decode_conforms(items[0], *first);
                    lemma_decode_conforms(items[1], *second);
                }
            }
        },
        TargetShape::Record(_) => {
            if let ValueView::Dict(pairs) = value {
                lemma_collect_distinct(Seq::empty(), pairs);
            }
        },
    }
}

/// Decoding items one after the other gives as many values, each of the shape.
pub proof fn lemma_decode_all_conforms(items: Seq<ValueView>, shape: TargetShape)
    ensures
        decode_all(items, shape) matches Ok(typed) ==> typed.len() == items.len() && forall|
            i: int,
        | 0 <= i < typed.len() ==> conforms(#[trigger] typed[i], shape),
    decreases shape, items.len() + 1,
{
    if items.len() > 0 {
        lemma_decode_conforms(items[0], shape);
        lemma_decode_all_conforms(items.drop_first(), shape);
    }
}

/// The model of the outcome of decoding.
pub open spec fn decoded(outcome: Result<Typed, DecodeError>) -> Result<TypedView, DecodeError> {
    match outcome {
        Ok(typed) => Ok(typed@),
        Err(e) => Err(e),
    }
}

fn decode_text(value: &Value) -> (outcome: Result<String, DecodeError>)
    ensures
        match outcome {
            Ok(s) => text_of(value@) == Ok::<Seq<char>, DecodeError>(s@),
            Err(e) => text_of(value@) == Err::<Seq<char>, DecodeError>(e),
        },
{
    match value {
        Value::String(Text::Utf8(s)) => Ok(s.clone()),
        Value::String(Text::Raw(_)) => Err(DecodeError::InvalidText),
        _ => Err(DecodeError::TypeMismatch { expected: ValueTag::String, actual: value.tag() }),
    }
}

fn decode_scalar_value(value: &Value, kind: ScalarKind) -> (outcome: Result<Typed, DecodeError>)
    ensures
        decoded(outcome) == decode_scalar(value@, kind),
{
    match kind {
        ScalarKind::Any => Ok(Typed::Any(value.clone())),
        ScalarKind::Bool => match value {
            Value::Bool(b) => Ok(Typed::Bool(*b)),
            _ => Err(DecodeError::TypeMismatch { expected: ValueTag::Bool, actual: value.tag() }),
        },
        ScalarKind::Int => match value.as_i64() {
            Some(n) => Ok(Typed::Int(n)),
            None => Err(
                DecodeError::TypeMismatch { expected: ValueTag::Int64, actual: value.tag() },
            ),
        },
        ScalarKind::UInt => match value.as_u64() {
            Some(n) => Ok(Typed::UInt(n)),
            None => Err(
                DecodeError::TypeMismatch { expected: ValueTag::UInt64, actual: value.tag() },
            ),
        },
        ScalarKind::Float => match value {
            Value::Float64(bits) => Ok(Typed::Float(*bits)),
            _ => Err(
                DecodeError::TypeMismatch { expected: ValueTag::Float64, actual: value.tag() },
            ),
        },
        ScalarKind::Text => match decode_text(value) {
            Ok(s) => Ok(Typed::Text(s)),
            Err(e) => Err(e),
        },
        ScalarKind::Binary => match value {
            Value::Binary(bytes) => Ok(Typed::Binary(clone_bytes(bytes))),
            _ => Err(
                DecodeError::TypeMismatch { expected: ValueTag::Binary, actual: value.tag() },
            ),
        },
    }
}

fn collect(pairs: &Vec<(Value, Value)>) -> (outcome: Result<AttrMap, DecodeError>)
    ensures
        match outcome {
            Ok(map) => collect_from(Seq::empty(), pairs.deep_view()) == Ok::<Entries, DecodeError>(
                map@,
            ) && map.wf(),
            Err(e) => collect_from(Seq::empty(), pairs.deep_view()) == Err::<Entries, DecodeError>(
                e,
            ),
        },
{
    let mut map = AttrMap::new();
    let mut i: usize = 0;
    let ghost all = pairs.deep_view();
    assert(all.skip(0) =~= all);
    while i < pairs.len()
        invariant
            i <= pairs.len(),
            all == pairs.deep_view(),
            map.wf(),
            collect_from(map@, all.skip(i as int)) == collect_from(Seq::empty(), all),
        decreases pairs.len() - i,
    {
        proof {
            assert(all.skip(i as int).drop_first() =~= all.skip(i + 1));
            assert(all.skip(i as int)[0] == all[i as int]);
        }
        match decode_text(&pairs[i].0) {
            Err(e) => {
                return Err(e);
            },
            Ok(key) => {
                map.insert(key, pairs[i].1.clone());
            },
        }
        i += 1;
    }
    Ok(map)
}

fn missing_key(keys: &Keys, map: &AttrMap) -> (missing: Option<&'static str>)
    ensures
        missing == first_missing(*keys, map@),
    decreases keys,
{
    match keys {
        Keys::End => None,
        Keys::Key(name, rest) => {
            if map.contains_key(name) {
                missing_key(rest, map)
            } else {
                Some(*name)
            }
        },
    }
}

/// Decodes a value against a shape.
#[verifier::loop_isolation(false)]
pub fn decode(value: &Value, shape: &TargetShape) -> (outcome: Result<Typed, DecodeError>)
    ensures
        decoded(outcome) == decode_spec(value@, *shape),
        outcome matches Ok(typed) ==> conforms(typed@, *shape),
    decreases shape,
{
    proof {
        lemma_decode_conforms(value@, *shape);
    }
    match shape {
        TargetShape::Scalar(kind) => decode_scalar_value(value, *kind),
        TargetShape::Sequence { of, min_len } => match value {
            Value::Array(items) => {
                proof {
                    lemma_array_view(*items);
                }
                if items.len() < *min_len {
                    return Err(
                        DecodeError::ShapeMismatch { expected: *min_len, actual: items.len() },
                    );
                }
                let ghost all = items.deep_view();
                let mut out: Vec<Typed> = Vec::new();
                let mut i: usize = 0;
                proof {
                    assert(all.skip(0) =~= all);
                    assert forall|rest: Seq<TypedView>| #[trigger] (out.deep_view() + rest)
                        == rest by {
                        assert(out.deep_view() + rest =~= rest);
                    }
                }
                while i < items.len()
                    invariant
                        i <= items.len(),
                        all == items.deep_view(),
                        decode_all(all, **of) == match decode_all(all.skip(i as int), **of) {
                            Ok(rest) => Ok::<Seq<TypedView>, DecodeError>(out.deep_view() + rest),
                            Err(e) => Err(e),
                        },
                    decreases items.len() - i,
                {
                    proof {
                        assert(all.skip(i as int).drop_first() =~= all.skip(i + 1));
                        assert(all.skip(i as int)[0] == all[i as int]);
                    }
                    let ghost before = out.deep_view();
                    match decode(&items[i], of) {
                        Err(e) => {
                            return Err(e);
                        },
                        Ok(typed) => {
                            out.push(typed);
                            proof {
                                assert(out.deep_view() =~= before.push(typed@));
                                assert forall|rest: Seq<TypedView>|
                                    before + (seq![typed@] + rest) == #[trigger] (out.deep_view()
                                        + rest) by {
                                    assert(before + (seq![typed@] + rest) =~= out.deep_view()
                                        + rest);
                                }
                            }
                        },
                    }
                    i += 1;
                }
                proof {
                    assert(out.deep_view() + Seq::<TypedView>::empty() =~= out.deep_view());
                    lemma_sequence_view(out);
                }
                Ok(Typed::Sequence(out))
            },
            _ => Err(DecodeError::TypeMismatch { expected: ValueTag::Array, actual: value.tag() }),
        },
        TargetShape::Pair(first, second) => match value {
            Value::Array(items) => {
                proof {
                    lemma_array_view(*items);
                }
                if items.len() != 2 {
                    return Err(DecodeError::ShapeMismatch { expected: 2, actual: items.len() });
                }
                let a = match decode(&items[0], first) {
                    Ok(a) => a,
                    Err(e) => {
                        return Err(e);
                    },
                };
                let b = match decode(&items[1], second) {
                    Ok(b) => b,
                    Err(e) => {
                        return Err(e);
                    },
                };
                Ok(Typed::Pair(Box::new(a), Box::new(b)))
            },
            _ => Err(DecodeError::TypeMismatch { expected: ValueTag::Array, actual: value.tag() }),
        },
        TargetShape::Record(keys) => match value {
            Value::Dict(pairs) => {
                proof {
                    lemma_dict_view(*pairs);
                }
                match collect(pairs) {
                    Err(e) => Err(e),
                    Ok(map) => match missing_key(keys, &map) {
                        Some(field) => Err(DecodeError::MissingField { field }),
                        None => Ok(Typed::Record(map)),
                    },
                }
            },
            _ => Err(DecodeError::TypeMismatch { expected: ValueTag::Dict, actual: value.tag() }),
        },
    }
}

} // verus!
