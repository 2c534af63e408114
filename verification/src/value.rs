//! The dynamically typed values that arrive from the editor.

use vstd::prelude::*;

verus! {

/// The payload of a string value: text, or the raw bytes of a payload that is not
/// valid UTF-8.
#[derive(Debug, PartialEq, Eq)]
pub enum Text {
    Utf8(String),
    Raw(Vec<u8>),
}

/// A self-describing value as the transport delivers it.
///
/// A floating-point number is held by the bits of its 64-bit representation.
#[derive(Debug, PartialEq, Eq)]
pub enum Value {
    Nil,
    Bool(bool),
    Int64(i64),
    UInt64(u64),
    Float64(u64),
    String(Text),
    Binary(Vec<u8>),
    Array(Vec<Value>),
    /// A map: its key and value pairs, in the order they were sent.
    Dict(Vec<(Value, Value)>),
    Extension(i8, Vec<u8>),
}

/// The tag of a value, without its payload.
#[derive(Clone, Copy, Debug, PartialEq, Eq, Structural)]
pub enum ValueTag {
    Nil,
    Bool,
    Int64,
    UInt64,
    Float64,
    String,
    Binary,
    Array,
    Dict,
    Extension,
}

/// Mathematical model of a `Text`.
pub enum TextView {
    Utf8(Seq<char>),
    Raw(Seq<u8>),
}

/// Mathematical model of a `Value`.
pub enum ValueView {
    Nil,
    Bool(bool),
    Int64(i64),
    UInt64(u64),
    Float64(u64),
    String(TextView),
    Binary(Seq<u8>),
    Array(Seq<ValueView>),
    Dict(Seq<(ValueView, ValueView)>),
    Extension(i8, Seq<u8>),
}

impl ValueView {
    pub open spec fn tag(self) -> ValueTag {
        match self {
            ValueView::Nil => ValueTag::Nil,
            ValueView::Bool(_) => ValueTag::Bool,
            ValueView::Int64(_) => ValueTag::Int64,
            ValueView::UInt64(_) => ValueTag::UInt64,
            ValueView::Float64(_) => ValueTag::Float64,
            ValueView::String(_) => ValueTag::String,
            ValueView::Binary(_) => ValueTag::Binary,
            ValueView::Array(_) => ValueTag::Array,
            ValueView::Dict(_) => ValueTag::Dict,
            ValueView::Extension(_, _) => ValueTag::Extension,
        }
    }

    pub open spec fn as_bool(self) -> Option<bool> {
        match self {
            ValueView::Bool(b) => Some(b),
            _ => None,
        }
    }

    /// The value as an unsigned integer: an unsigned integer itself, or a signed
    /// integer that is not negative.
    pub open spec fn as_u64(self) -> Option<u64> {
        match self {
            ValueView::UInt64(n) => Some(n),
            ValueView::Int64(n) if n >= 0 => Some(n as u64),
            _ => None,
        }
    }

    /// The value as a signed integer: a signed integer itself, or an unsigned integer
    /// that fits.
    pub open spec fn as_i64(self) -> Option<i64> {
        match self {
            ValueView::Int64(n) => Some(n),
            ValueView::UInt64(n) if n <= i64::MAX => Some(n as i64),
            _ => None,
        }
    }

    /// The text of a string value whose payload is valid.
    pub open spec fn as_text(self) -> Option<Seq<char>> {
        match self {
            ValueView::String(TextView::Utf8(s)) => Some(s),
            _ => None,
        }
    }

    pub open spec fn as_array(self) -> Option<Seq<ValueView>> {
        match self {
            ValueView::Array(items) => Some(items),
            _ => None,
        }
    }

    pub open spec fn as_dict(self) -> Option<Seq<(ValueView, ValueView)>> {
        match self {
            ValueView::Dict(entries) => Some(entries),
            _ => None,
        }
    }
}

impl DeepView for Text {
    type V = TextView;

    open spec fn deep_view(&self) -> TextView {
        match self {
            Text::Utf8(s) => TextView::Utf8(s@),
            Text::Raw(bytes) => TextView::Raw(bytes@),
        }
    }
}

impl View for Text {
    type V = TextView;

    open spec fn view(&self) -> TextView {
        self.deep_view()
    }
}

/// The model of a value: the same tree, with sequences in place of vectors.
pub open spec fn model_of(value: Value) -> ValueView
    decreases value,
{
    match value {
        Value::Nil => ValueView::Nil,
        Value::Bool(b) => ValueView::Bool(b),
        Value::Int64(n) => ValueView::Int64(n),
        Value::UInt64(n) => ValueView::UInt64(n),
        Value::Float64(bits) => ValueView::Float64(bits),
        Value::String(text) => ValueView::String(text.deep_view()),
        Value::Binary(bytes) => ValueView::Binary(bytes@),
        Value::Array(items) => ValueView::Array(
            Seq::new(
                items@.len(),
                |i: int|
                    if 0 <= i < items@.len() {
                        model_of(items@[i])
                    } else {
                        ValueView::Nil
                    },
            ),
        ),
        Value::Dict(entries) => ValueView::Dict(
            Seq::new(
                entries@.len(),
                |i: int|
                    if 0 <= i < entries@.len() {
                        (model_of(entries@[i].0), model_of(entries@[i].1))
                    } else {
                        (ValueView::Nil, ValueView::Nil)
                    },
            ),
        ),
        Value::Extension(kind, bytes) => ValueView::Extension(kind, bytes@),
    }
}

impl DeepView for Value {
    type V = ValueView;

    open spec fn deep_view(&self) -> ValueView {
        model_of(*self)
    }
}

impl View for Value {
    type V = ValueView;

    open spec fn view(&self) -> ValueView {
        self.deep_view()
    }
}

/// The model of an array is the models of its items.
pub broadcast proof fn lemma_array_view(items: Vec<Value>)
    ensures
        #[trigger] Value::Array(items).deep_view() == ValueView::Array(items.deep_view()),
{
    assert(Value::Array(items).deep_view()->Array_0 =~= items.deep_view());
}

/// The model of a map is the models of its pairs.
pub broadcast proof fn lemma_dict_view(entries: Vec<(Value, Value)>)
    ensures
        #[trigger] Value::Dict(entries).deep_view() == ValueView::Dict(entries.deep_view()),
{
    assert(Value::Dict(entries).deep_view()->Dict_0 =~= entries.deep_view());
}

/// A copy of a vector of bytes.
pub(crate) fn clone_bytes(bytes: &Vec<u8>) -> (copy: Vec<u8>)
    ensures
        copy@ == bytes@,
{
    let mut copy: Vec<u8> = Vec::new();
    let mut i: usize = 0;
    while i < bytes.len()
        invariant
            i <= bytes.len(),
            copy@ == bytes@.take(i as int),
        decreases bytes.len() - i,
    {
        copy.push(bytes[i]);
        assert(bytes@.take(i + 1) =~= bytes@.take(i as int).push(bytes@[i as int]));
        i += 1;
    }
    assert(bytes@.take(i as int) =~= bytes@);
    copy
}

impl Clone for Text {
    fn clone(&self) -> (copy: Text)
        ensures
            copy@ == self@,
    {
        match self {
            Text::Utf8(s) => Text::Utf8(s.clone()),
            Text::Raw(bytes) => Text::Raw(clone_bytes(bytes)),
        }
    }
}

fn clone_items(items: &Vec<Value>) -> (copy: Vec<Value>)
    ensures
        copy.deep_view() == items.deep_view(),
    decreases items,
{
    let mut copy: Vec<Value> = Vec::new();
    let mut i: usize = 0;
    while i < items.len()
        invariant
            i <= items.len(),
            copy@.len() == i,
            forall|k: int| 0 <= k < i ==> copy@[k].deep_view() == items@[k].deep_view(),
        decreases items.len() - i,
    {
        let item = items[i].clone();
        copy.push(item);
        i += 1;
    }
    assert(copy.deep_view() =~= items.deep_view());
    copy
}

fn clone_entries(entries: &Vec<(Value, Value)>) -> (copy: Vec<(Value, Value)>)
    ensures
        copy.deep_view() == entries.deep_view(),
    decreases entries,
{
    let mut copy: Vec<(Value, Value)> = Vec::new();
    let mut i: usize = 0;
    while i < entries.len()
        invariant
            i <= entries.len(),
            copy@.len() == i,
            forall|k: int| 0 <= k < i ==> copy@[k].deep_view() == entries@[k].deep_view(),
        decreases entries.len() - i,
    {
        let key = entries[i].0.clone();
        let value = entries[i].1.clone();
        copy.push((key, value));
        i += 1;
    }
    assert(copy.deep_view() =~= entries.deep_view());
    copy
}

impl Clone for Value {
    fn clone(&self) -> (copy: Value)
        ensures
            copy@ == self@,
        decreases self,
    {
        match self {
            Value::Nil => Value::Nil,
            Value::Bool(b) => Value::Bool(*b),
            Value::Int64(n) => Value::Int64(*n),
            Value::UInt64(n) => Value::UInt64(*n),
            Value::Float64(bits) => Value::Float64(*bits),
            Value::String(text) => Value::String(text.clone()),
            Value::Binary(bytes) => Value::Binary(clone_bytes(bytes)),
            Value::Array(items) => {
                let copy = clone_items(items);
                proof {
                    lemma_array_view(copy);
                    lemma_array_view(*items);
                }
                Value::Array(copy)
            },
            Value::Dict(entries) => {
                let copy = clone_entries(entries);
                proof {
                    lemma_dict_view(copy);
                    lemma_dict_view(*entries);
                }
                Value::Dict(copy)
            },
            Value::Extension(kind, bytes) => Value::Extension(*kind, clone_bytes(bytes)),
        }
    }
}

impl Value {
    /// A string value that holds the given text.
    pub fn text(s: &str) -> (value: Value)
        ensures
            value@ == ValueView::String(TextView::Utf8(s@)),
    {
        Value::String(Text::Utf8(s.to_owned()))
    }

    /// The tag of this value.
    pub fn tag(&self) -> (tag: ValueTag)
        ensures
            tag == self@.tag(),
    {
        match self {
            Value::Nil => ValueTag::Nil,
            Value::Bool(_) => ValueTag::Bool,
            Value::Int64(_) => ValueTag::Int64,
            Value::UInt64(_) => ValueTag::UInt64,
            Value::Float64(_) => ValueTag::Float64,
            Value::String(_) => ValueTag::String,
            Value::Binary(_) => ValueTag::Binary,
            Value::Array(_) => ValueTag::Array,
            Value::Dict(_) => ValueTag::Dict,
            Value::Extension(_, _) => ValueTag::Extension,
        }
    }

    pub fn as_bool(&self) -> (found: Option<bool>)
        ensures
            found == self@.as_bool(),
    {
        match self {
            Value::Bool(b) => Some(*b),
            _ => None,
        }
    }

    pub fn as_u64(&self) -> (found: Option<u64>)
        ensures
            found == self@.as_u64(),
    {
        match self {
            Value::UInt64(n) => Some(*n),
            Value::Int64(n) => if *n >= 0 {
                Some(*n as u64)
            } else {
                None
            },
            _ => None,
        }
    }

    pub fn as_i64(&self) -> (found: Option<i64>)
        ensures
            found == self@.as_i64(),
    {
        match self {
            Value::Int64(n) => Some(*n),
            Value::UInt64(n) => if *n <= 0x7fff_ffff_ffff_ffff {
                Some(*n as i64)
            } else {
                None
            },
            _ => None,
        }
    }

    /// The text of a string value, if its payload is valid.
    pub fn as_str(&self) -> (found: Option<&str>)
        ensures
            match found {
                Some(s) => self@.as_text() == Some(s@),
                None => self@.as_text() is None,
            },
    {
        match self {
            Value::String(Text::Utf8(s)) => Some(s.as_str()),
            _ => None,
        }
    }

    pub fn as_array(&self) -> (found: Option<&Vec<Value>>)
        ensures
            match found {
                Some(items) => self@.as_array() == Some(items.deep_view()),
                None => self@.as_array() is None,
            },
    {
        match self {
            Value::Array(items) => {
                proof {
                    lemma_array_view(*items);
                }
                Some(items)
            },
            _ => None,
        }
    }

    /// The pairs of a map value.
    pub fn as_map(&self) -> (found: Option<&Vec<(Value, Value)>>)
        ensures
            match found {
                Some(entries) => self@.as_dict() == Some(entries.deep_view()),
                None => self@.as_dict() is None,
            },
    {
        match self {
            Value::Dict(entries) => {
                proof {
                    lemma_dict_view(*entries);
                }
                Some(entries)
            },
            _ => None,
        }
    }
}

} // verus!
