use nvim_dispatch::attrs::AttrMap;
use nvim_dispatch::coerce::{coerce, coerce_args, ArgumentKind, CoercionError, DispatchError};
use nvim_dispatch::decode::{decode, DecodeError, Keys, ScalarKind, TargetShape, Typed};
use nvim_dispatch::encode::encode;
use nvim_dispatch::value::{Text, Value, ValueTag};

fn scalar(kind: ScalarKind) -> TargetShape {
    TargetShape::Scalar(kind)
}

fn seq_of(of: TargetShape, min_len: usize) -> TargetShape {
    TargetShape::Sequence { of: Box::new(of), min_len }
}

fn record(keys: &[&'static str]) -> TargetShape {
    let mut list = Keys::End;
    for k in keys.iter().rev() {
        list = Keys::Key(k, Box::new(list));
    }
    TargetShape::Record(list)
}

fn pair_shape() -> TargetShape {
    TargetShape::Pair(Box::new(record(&[])), Box::new(scalar(ScalarKind::Text)))
}

fn attrs(entries: Vec<(&str, Value)>) -> AttrMap {
    let mut m = AttrMap::new();
    for (k, v) in entries {
        m.insert(k.to_string(), v);
    }
    m
}

#[test]
fn scalars_need_the_matching_tag() {
    assert_eq!(decode(&Value::Bool(true), &scalar(ScalarKind::Bool)), Ok(Typed::Bool(true)));
    assert_eq!(
        decode(&Value::Int64(1), &scalar(ScalarKind::Bool)),
        Err(DecodeError::TypeMismatch { expected: ValueTag::Bool, actual: ValueTag::Int64 })
    );
    assert_eq!(decode(&Value::UInt64(5), &scalar(ScalarKind::Int)), Ok(Typed::Int(5)));
    assert_eq!(decode(&Value::Int64(-5), &scalar(ScalarKind::Int)), Ok(Typed::Int(-5)));
    assert_eq!(decode(&Value::Int64(5), &scalar(ScalarKind::UInt)), Ok(Typed::UInt(5)));
    assert_eq!(
        decode(&Value::Int64(-5), &scalar(ScalarKind::UInt)),
        Err(DecodeError::TypeMismatch { expected: ValueTag::UInt64, actual: ValueTag::Int64 })
    );
    assert_eq!(
        decode(&Value::UInt64(u64::MAX), &scalar(ScalarKind::Int)),
        Err(DecodeError::TypeMismatch { expected: ValueTag::Int64, actual: ValueTag::UInt64 })
    );
    assert_eq!(
        decode(&Value::Float64(1), &scalar(ScalarKind::Int)),
        Err(DecodeError::TypeMismatch { expected: ValueTag::Int64, actual: ValueTag::Float64 })
    );
    assert_eq!(decode(&Value::Float64(42), &scalar(ScalarKind::Float)), Ok(Typed::Float(42)));
    assert_eq!(
        decode(&Value::UInt64(42), &scalar(ScalarKind::Float)),
        Err(DecodeError::TypeMismatch { expected: ValueTag::Float64, actual: ValueTag::UInt64 })
    );
    assert_eq!(
        decode(&Value::Binary(vec![1, 2]), &scalar(ScalarKind::Binary)),
        Ok(Typed::Binary(vec![1, 2]))
    );
    assert_eq!(
        decode(&Value::text("x"), &scalar(ScalarKind::Binary)),
        Err(DecodeError::TypeMismatch { expected: ValueTag::Binary, actual: ValueTag::String })
    );
    assert_eq!(decode(&Value::Nil, &scalar(ScalarKind::Any)), Ok(Typed::Any(Value::Nil)));
    assert_eq!(
        decode(&Value::Extension(2, vec![7]), &scalar(ScalarKind::Any)),
        Ok(Typed::Any(Value::Extension(2, vec![7])))
    );
}

#[test]
fn text_needs_a_valid_payload() {
    assert_eq!(decode(&Value::text("hi"), &scalar(ScalarKind::Text)), Ok(Typed::Text("hi".to_string())));
    assert_eq!(
        decode(&Value::String(Text::Raw(vec![0xff, 0xfe])), &scalar(ScalarKind::Text)),
        Err(DecodeError::InvalidText)
    );
    assert_eq!(
        decode(&Value::Nil, &scalar(ScalarKind::Text)),
        Err(DecodeError::TypeMismatch { expected: ValueTag::String, actual: ValueTag::Nil })
    );
}

#[test]
fn sequences_decode_each_item_and_report_the_first_error() {
    let shape = seq_of(scalar(ScalarKind::UInt), 0);
    assert_eq!(decode(&Value::Array(vec![]), &shape), Ok(Typed::Sequence(vec![])));
    assert_eq!(
        decode(&Value::Array(vec![Value::UInt64(1), Value::Int64(2)]), &shape),
        Ok(Typed::Sequence(vec![Typed::UInt(1), Typed::UInt(2)]))
    );
    assert_eq!(
        decode(&Value::Array(vec![Value::UInt64(1), Value::Nil, Value::Bool(true)]), &shape),
        Err(DecodeError::TypeMismatch { expected: ValueTag::UInt64, actual: ValueTag::Nil })
    );
    assert_eq!(
        decode(&Value::UInt64(1), &shape),
        Err(DecodeError::TypeMismatch { expected: ValueTag::Array, actual: ValueTag::UInt64 })
    );
}

#[test]
fn sequences_with_too_few_items_are_a_shape_mismatch() {
    let shape = seq_of(scalar(ScalarKind::Text), 4);
    let three = Value::Array(vec![Value::text("a"), Value::text("b"), Value::text("c")]);
    assert_eq!(decode(&three, &shape), Err(DecodeError::ShapeMismatch { expected: 4, actual: 3 }));
    let short_and_bad = Value::Array(vec![Value::Nil]);
    assert_eq!(
        decode(&short_and_bad, &shape),
        Err(DecodeError::ShapeMismatch { expected: 4, actual: 1 })
    );
}

#[test]
fn pairs_need_exactly_two_items() {
    let shape = TargetShape::Pair(Box::new(scalar(ScalarKind::UInt)), Box::new(scalar(ScalarKind::Text)));
    assert_eq!(
        decode(&Value::Array(vec![Value::UInt64(1), Value::text("x")]), &shape),
        Ok(Typed::Pair(Box::new(Typed::UInt(1)), Box::new(Typed::Text("x".to_string()))))
    );
    assert_eq!(
        decode(&Value::Array(vec![Value::UInt64(1)]), &shape),
        Err(DecodeError::ShapeMismatch { expected: 2, actual: 1 })
    );
    assert_eq!(
        decode(&Value::Array(vec![Value::UInt64(1), Value::text("x"), Value::Nil]), &shape),
        Err(DecodeError::ShapeMismatch { expected: 2, actual: 3 })
    );
    assert_eq!(
        decode(&Value::Array(vec![Value::Nil, Value::Nil]), &shape),
        Err(DecodeError::TypeMismatch { expected: ValueTag::UInt64, actual: ValueTag::Nil })
    );
    assert_eq!(
        decode(&Value::Array(vec![Value::UInt64(1), Value::Nil]), &shape),
        Err(DecodeError::TypeMismatch { expected: ValueTag::String, actual: ValueTag::Nil })
    );
    assert_eq!(
        decode(&Value::Dict(vec![]), &shape),
        Err(DecodeError::TypeMismatch { expected: ValueTag::Array, actual: ValueTag::Dict })
    );
}

#[test]
fn records_keep_the_last_value_of_a_key() {
    let value = Value::Dict(vec![
        (Value::text("fg"), Value::UInt64(1)),
        (Value::text("bold"), Value::Bool(true)),
        (Value::text("fg"), Value::UInt64(2)),
    ]);
    assert_eq!(
        decode(&value, &record(&[])),
        Ok(Typed::Record(attrs(vec![("fg", Value::UInt64(2)), ("bold", Value::Bool(true))])))
    );
}

#[test]
fn records_need_their_required_keys() {
    let shape = record(&["tab", "name"]);
    let both = Value::Dict(vec![
        (Value::text("name"), Value::text("n")),
        (Value::text("tab"), Value::UInt64(3)),
    ]);
    assert_eq!(
        decode(&both, &shape),
        Ok(Typed::Record(attrs(vec![("name", Value::text("n")), ("tab", Value::UInt64(3))])))
    );
    let no_tab = Value::Dict(vec![(Value::text("name"), Value::text("n"))]);
    assert_eq!(decode(&no_tab, &shape), Err(DecodeError::MissingField { field: "tab" }));
    let no_name = Value::Dict(vec![(Value::text("tab"), Value::UInt64(3))]);
    assert_eq!(decode(&no_name, &shape), Err(DecodeError::MissingField { field: "name" }));
    assert_eq!(decode(&Value::Dict(vec![]), &shape), Err(DecodeError::MissingField { field: "tab" }));
}

#[test]
fn records_need_text_keys() {
    let bad_key = Value::Dict(vec![(Value::UInt64(1), Value::Nil)]);
    assert_eq!(
        decode(&bad_key, &record(&[])),
        Err(DecodeError::TypeMismatch { expected: ValueTag::String, actual: ValueTag::UInt64 })
    );
    let raw_key = Value::Dict(vec![(Value::String(Text::Raw(vec![0x80])), Value::Nil)]);
    assert_eq!(decode(&raw_key, &record(&[])), Err(DecodeError::InvalidText));
    assert_eq!(
        decode(&Value::Array(vec![]), &record(&[])),
        Err(DecodeError::TypeMismatch { expected: ValueTag::Dict, actual: ValueTag::Array })
    );
}

#[test]
fn nested_shapes_decode_through() {
    let block = seq_of(seq_of(pair_shape(), 0), 0);
    let cell = |k: &str, t: &str| {
        Value::Array(vec![Value::Dict(vec![(Value::text(k), Value::UInt64(1))]), Value::text(t)])
    };
    let value = Value::Array(vec![
        Value::Array(vec![cell("a", "one"), cell("b", "two")]),
        Value::Array(vec![]),
    ]);
    let typed_cell = |k: &str, t: &str| {
        Typed::Pair(
            Box::new(Typed::Record(attrs(vec![(k, Value::UInt64(1))]))),
            Box::new(Typed::Text(t.to_string())),
        )
    };
    assert_eq!(
        decode(&value, &block),
        Ok(Typed::Sequence(vec![
            Typed::Sequence(vec![typed_cell("a", "one"), typed_cell("b", "two")]),
            Typed::Sequence(vec![]),
        ]))
    );
}

#[test]
fn attributes_and_text_round_trip() {
    let sent = Typed::Pair(
        Box::new(Typed::Record(attrs(vec![
            ("foreground", Value::UInt64(0xff00ff)),
            ("bold", Value::Bool(true)),
            ("special", Value::Array(vec![Value::Nil, Value::Int64(-2)])),
        ]))),
        Box::new(Typed::Text("héllo\n".to_string())),
    );
    let wire = encode(&sent);
    assert_eq!(
        wire,
        Value::Array(vec![
            Value::Dict(vec![
                (Value::text("foreground"), Value::UInt64(0xff00ff)),
                (Value::text("bold"), Value::Bool(true)),
                (Value::text("special"), Value::Array(vec![Value::Nil, Value::Int64(-2)])),
            ]),
            Value::text("héllo\n"),
        ])
    );
    assert_eq!(decode(&wire, &pair_shape()), Ok(sent));
}

#[test]
fn encode_is_undone_by_decode_for_every_kind() {
    let shape = seq_of(
        TargetShape::Pair(
            Box::new(seq_of(scalar(ScalarKind::Int), 1)),
            Box::new(TargetShape::Pair(
                Box::new(scalar(ScalarKind::Any)),
                Box::new(scalar(ScalarKind::Binary)),
            )),
        ),
        0,
    );
    let typed = Typed::Sequence(vec![Typed::Pair(
        Box::new(Typed::Sequence(vec![Typed::Int(-1), Typed::Int(i64::MAX)])),
        Box::new(Typed::Pair(
            Box::new(Typed::Any(Value::Float64(7))),
            Box::new(Typed::Binary(vec![0, 255])),
        )),
    )]);
    assert_eq!(decode(&encode(&typed), &shape), Ok(typed));
    assert_eq!(encode(&Typed::Bool(true)), Value::Bool(true));
    assert_eq!(encode(&Typed::UInt(3)), Value::UInt64(3));
    assert_eq!(encode(&Typed::Int(-3)), Value::Int64(-3));
    assert_eq!(encode(&Typed::Float(9)), Value::Float64(9));
}

#[test]
fn typed_accessors_tell_the_variants_apart() {
    assert_eq!(Typed::UInt(1).as_uint(), Some(1));
    assert_eq!(Typed::UInt(1).as_int(), None);
    assert_eq!(Typed::Int(-1).as_int(), Some(-1));
    assert_eq!(Typed::Bool(true).as_bool(), Some(true));
    assert_eq!(Typed::Text("t".to_string()).as_text(), Some("t"));
    assert_eq!(Typed::Any(Value::Nil).as_any(), Some(&Value::Nil));
    assert_eq!(Typed::Sequence(vec![Typed::Bool(true)]).as_items(), Some(&vec![Typed::Bool(true)]));
    let pair = Typed::Pair(Box::new(Typed::Int(1)), Box::new(Typed::Int(2)));
    assert_eq!(pair.as_pair(), Some((&Typed::Int(1), &Typed::Int(2))));
    assert_eq!(pair.as_record(), None);
    let m = attrs(vec![("k", Value::Nil)]);
    assert_eq!(Typed::Record(m.clone()).as_record(), Some(&m));
}

#[test]
fn coerce_follows_the_kind() {
    assert_eq!(coerce(&Value::text("s"), &ArgumentKind::String), Ok(Typed::Text("s".to_string())));
    assert_eq!(coerce(&Value::UInt64(1), &ArgumentKind::String), Err(CoercionError::InvalidText));
    assert_eq!(
        coerce(&Value::String(Text::Raw(vec![0xff])), &ArgumentKind::String),
        Err(CoercionError::InvalidText)
    );
    assert_eq!(coerce(&Value::Bool(false), &ArgumentKind::Boolean), Ok(Typed::Bool(false)));
    assert_eq!(
        coerce(&Value::UInt64(1), &ArgumentKind::Boolean),
        Err(CoercionError::TypeMismatch { expected: ValueTag::Bool, actual: ValueTag::UInt64 })
    );
    assert_eq!(coerce(&Value::Int64(4), &ArgumentKind::UnsignedInt), Ok(Typed::UInt(4)));
    assert_eq!(
        coerce(&Value::Int64(-4), &ArgumentKind::UnsignedInt),
        Err(CoercionError::TypeMismatch { expected: ValueTag::UInt64, actual: ValueTag::Int64 })
    );
    assert_eq!(coerce(&Value::UInt64(4), &ArgumentKind::SignedInt), Ok(Typed::Int(4)));
    assert_eq!(
        coerce(&Value::text("4"), &ArgumentKind::SignedInt),
        Err(CoercionError::TypeMismatch { expected: ValueTag::Int64, actual: ValueTag::String })
    );
    assert_eq!(
        coerce(&Value::Dict(vec![]), &ArgumentKind::Shaped(record(&["tab"]))),
        Err(CoercionError::Shape(DecodeError::MissingField { field: "tab" }))
    );
    assert_eq!(
        coerce(&Value::Dict(vec![]), &ArgumentKind::Shaped(record(&[]))),
        Ok(Typed::Record(AttrMap::new()))
    );
}

#[test]
fn coerce_args_is_all_or_nothing() {
    let kinds = vec![ArgumentKind::UnsignedInt, ArgumentKind::String];
    assert_eq!(
        coerce_args("m", &vec![Value::UInt64(1), Value::text("x")], &kinds),
        Ok(vec![Typed::UInt(1), Typed::Text("x".to_string())])
    );
    assert_eq!(
        coerce_args("m", &vec![Value::UInt64(1), Value::text("x"), Value::Nil], &kinds),
        Ok(vec![Typed::UInt(1), Typed::Text("x".to_string())])
    );
    assert_eq!(
        coerce_args("m", &vec![Value::UInt64(1)], &kinds),
        Err(DispatchError::MissingArgument { index: 1, method: "m" })
    );
    assert_eq!(
        coerce_args("m", &vec![Value::Nil], &kinds),
        Err(DispatchError::MissingArgument { index: 1, method: "m" })
    );
    assert_eq!(
        coerce_args("m", &vec![], &kinds),
        Err(DispatchError::MissingArgument { index: 0, method: "m" })
    );
    assert_eq!(
        coerce_args("m", &vec![Value::Nil, Value::Nil], &kinds),
        Err(DispatchError::Coercion {
            index: 0,
            error: CoercionError::TypeMismatch { expected: ValueTag::UInt64, actual: ValueTag::Nil },
        })
    );
    assert_eq!(
        coerce_args("m", &vec![Value::UInt64(1), Value::Nil], &kinds),
        Err(DispatchError::Coercion { index: 1, error: CoercionError::InvalidText })
    );
    assert_eq!(coerce_args("m", &vec![Value::Nil], &vec![]), Ok(vec![]));
}
