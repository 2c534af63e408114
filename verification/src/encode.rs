//! The inverse of decoding: from a typed value back to a dynamically typed value.

use crate::attrs::{distinct_keys, lemma_position_is, put, Entries};
use crate::decode::{
    collect_from, conforms, decode_all, decode_spec, first_missing, lemma_sequence_view,
    DecodeError, Keys, ScalarKind, TargetShape, Typed, TypedView,
};
use crate::value::{clone_bytes, lemma_array_view, lemma_dict_view, TextView, Value, ValueView};
use vstd::prelude::*;

verus! {

/// The pairs that stand for the entries of a record: each key as a string value.
pub open spec fn encode_entries(entries: Entries) -> Seq<(ValueView, ValueView)> {
    Seq::new(
        entries.len(),
        |i: int| (ValueView::String(TextView::Utf8(entries[i].0)), entries[i].1),
    )
}

/// The value that stands for a typed value.
pub open spec fn encode_spec(typed: TypedView) -> ValueView
    decreases typed,
{
    match typed {
        TypedView::Any(value) => value,
        TypedView::Bool(b) => ValueView::Bool(b),
        TypedView::Int(n) => ValueView::Int64(n),
        TypedView::UInt(n) => ValueView::UInt64(n),
        TypedView::Float(bits) => ValueView::Float64(bits),
        TypedView::Text(s) => ValueView::String(TextView::Utf8(s)),
        TypedView::Binary(bytes) => ValueView::Binary(bytes),
        TypedView::Sequence(items) => ValueView::Array(
            Seq::new(
                items.len(),
                |i: int|
                    if 0 <= i < items.len() {
                        encode_spec(items[i])
                    } else {
                        ValueView::Nil
                    },
            ),
        ),
        TypedView::Pair(first, second) => ValueView::Array(
            seq![encode_spec(*first), encode_spec(*second)],
        ),
        TypedView::Record(entries) => ValueView::Dict(encode_entries(entries)),
    }
}

/// The values that stand for the items of a sequence.
pub open spec fn encode_all(items: Seq<TypedView>) -> Seq<ValueView> {
    Seq::new(items.len(), |i: int| encode_spec(items[i]))
}

/// A sequence is encoded item by item.
pub proof fn lemma_encode_sequence(items: Seq<TypedView>)
    ensures
        encode_spec(TypedView::Sequence(items)) == ValueView::Array(encode_all(items)),
{
    assert(encode_spec(TypedView::Sequence(items))->Array_0 =~= encode_all(items));
}

/// The pairs of an encoded record collect to the record again.
proof fn lemma_collect_encoded(entries: Entries, done: int)
    requires
        distinct_keys(entries),
        0 <= done <= entries.len(),
    ensures
        collect_from(entries.take(done), encode_entries(entries).skip(done)) == Ok::<
            Entries,
            DecodeError,
        >(entries),
    decreases entries.len() - done,
{
    let pairs = encode_entries(entries).skip(done);
    if done == entries.len() {
        assert(entries.take(done) =~= entries);
    } else {
        let key = entries[done].0;
        assert(pairs[0] == (ValueView::String(TextView::Utf8(key)), entries[done].1));
        assert forall|k: int| 0 <= k < done implies (#[trigger] entries.take(done)[k]).0
            != key by {
            assert(entries.take(done)[k] == entries[k]);
        }
        lemma_position_is(entries.take(done), key, done);
        assert(put(entries.take(done), key, entries[done].1) =~= entries.take(done + 1));
        assert(pairs.drop_first() =~= encode_entries(entries).skip(done + 1));
        lemma_collect_encoded(entries, done + 1);
    }
}

/// Decoding what was encoded gives the typed value again, for every typed value that
/// has the shape.
pub proof fn lemma_decode_encode(typed: TypedView, shape: TargetShape)
    requires
        conforms(typed, shape),
    ensures
        decode_spec(encode_spec(typed), shape) == Ok::<TypedView, DecodeError>(
            typed,
        ),
    decreases shape, 0nat,
{
    match shape {
        TargetShape::Scalar(_) => {},
        TargetShape::Sequence { of, min_len } => {
            let items = typed->Sequence_0;
            lemma_encode_sequence(items);
            lemma_decode_encode_all(items, *of);
        },
        TargetShape::Pair(first, second) => {
            let a = *typed->Pair_0;
            let b = *typed->Pair_1;
            lemma_decode_encode(a, *first);
            lemma_decode_encode(b, *second);
        },
        TargetShape::Record(_) => {
            let entries = typed->Record_0;
            lemma_collect_encoded(entries, 0);
            assert(entries.take(0) =~= Seq::<(Seq<char>, ValueView)>::empty());
            assert(encode_entries(entries).skip(0) =~= encode_entries(entries));
        },
    }
}

/// Decoding the encoded items of a sequence gives the items again.
pub proof fn lemma_decode_encode_all(items: Seq<TypedView>, shape: TargetShape)
    requires
        forall|i: int| 0 <= i < items.len() ==> conforms(#[trigger] items[i], shape),
    ensures
        decode_all(encode_all(items), shape) == Ok::<Seq<TypedView>, DecodeError>(
            items,
        ),
    decreases shape, items.len() + 1,
{
    if items.len() == 0 {
        assert(items =~= Seq::<TypedView>::empty());
    } else {
        let rest = items.drop_first();
        assert(encode_all(items).drop_first() =~= encode_all(rest));
        assert(conforms(items[0], shape));
        assert forall|i: int| 0 <= i < rest.len() implies conforms(#[trigger] rest[i], shape) by {
            assert(rest[i] == items[i + 1]);
        }
        lemma_decode_encode(items[0], shape);
        lemma_decode_encode_all(rest, shape);
        assert(seq![items[0]] + rest =~= items);
    }
}

/// The shape of a record without required keys, paired with a text.
pub open spec fn attributed_text_shape() -> TargetShape {
    TargetShape::Pair(
        Box::new(TargetShape::Record(Keys::End)),
        Box::new(TargetShape::Scalar(ScalarKind::Text)),
    )
}

/// A pair of attributes and text, encoded and then decoded as such a pair, comes back
/// with the same keys, the same values and the same text.
pub proof fn lemma_attributed_text_round_trip(attrs: Entries, text: Seq<char>)
    requires
        distinct_keys(attrs),
    ensures
        decode_spec(
            encode_spec(
                TypedView::Pair(Box::new(TypedView::Record(attrs)), Box::new(TypedView::Text(text))),
            ),
            attributed_text_shape(),
        ) == Ok::<TypedView, DecodeError>(
            TypedView::Pair(Box::new(TypedView::Record(attrs)), Box::new(TypedView::Text(text))),
        ),
{
    let pair = TypedView::Pair(
        Box::new(TypedView::Record(attrs)),
        Box::new(TypedView::Text(text)),
    );
    assert(first_missing(Keys::End, attrs) is None);
    assert(conforms(TypedView::Record(attrs), TargetShape::Record(Keys::End)));
    assert(conforms(TypedView::Text(text), TargetShape::Scalar(ScalarKind::Text)));
    lemma_decode_encode(pair, attributed_text_shape());
}

/// Encodes a typed value.
#[verifier::loop_isolation(false)]
pub fn encode(typed: &Typed) -> (value: Value)
    ensures
        value@ == encode_spec(typed@),
    decreases typed,
{
    match typed {
        Typed::Any(value) => value.clone(),
        Typed::Bool(b) => Value::Bool(*b),
        Typed::Int(n) => Value::Int64(*n),
        Typed::UInt(n) => Value::UInt64(*n),
        Typed::Float(bits) => Value::Float64(*bits),
        Typed::Text(s) => Value::text(s.as_str()),
        Typed::Binary(bytes) => Value::Binary(clone_bytes(bytes)),
        Typed::Sequence(items) => {
            let mut out: Vec<Value> = Vec::new();
            let mut i: usize = 0;
            while i < items.len()
                invariant
                    i <= items.len(),
                    out@.len() == i,
                    forall|k: int| 0 <= k < i ==> out@[k]@ == encode_spec(items@[k]@),
                decreases items.len() - i,
            {
                let item = encode(&items[i]);
                out.push(item);
                i += 1;
            }
            proof {
                lemma_sequence_view(*items);
                lemma_array_view(out);
                lemma_encode_sequence(items.deep_view());
                assert(out.deep_view() =~= encode_all(items.deep_view()));
            }
            Value::Array(out)
        },
        Typed::Pair(first, second) => {
            let a = encode(first);
            let b = encode(second);
            let mut out: Vec<Value> = Vec::new();
            out.push(a);
            out.push(b);
            proof {
                lemma_array_view(out);
                assert(out.deep_view() =~= seq![encode_spec(first@), encode_spec(second@)]);
            }
            Value::Array(out)
        },
        Typed::Record(map) => {
            let mut out: Vec<(Value, Value)> = Vec::new();
            let mut i: usize = 0;
            while i < map.len()
                invariant
                    i <= map@.len(),
                    out@.len() == i,
                    forall|k: int|
                        0 <= k < i ==> out@[k].deep_view() == (
                            ValueView::String(TextView::Utf8(map@[k].0)),
                            map@[k].1,
                        ),
                decreases map@.len() - i,
            {
                match map.entry(i) {
                    Some((key, value)) => {
                        out.push((Value::text(key), value.clone()));
                    },
                    None => {},
                }
                i += 1;
            }
            proof {
                lemma_dict_view(out);
                assert(out.deep_view() =~= encode_entries(map@));
            }
            Value::Dict(out)
        },
    }
}

} // verus!
