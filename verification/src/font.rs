//! The font features that the user asks for.

use vstd::prelude::*;
use vstd::std_specs::iter::IteratorSpec;

verus! {

/// Whether a character is white space: a character with the Unicode property
/// `White_Space`.
pub open spec fn is_white_space(c: char) -> bool {
    let n = c as u32;
    ||| 0x09 <= n <= 0x0D
    ||| n == 0x20
    ||| n == 0x85
    ||| n == 0xA0
    ||| n == 0x1680
    ||| 0x2000 <= n <= 0x200A
    ||| n == 0x2028
    ||| n == 0x2029
    ||| n == 0x202F
    ||| n == 0x205F
    ||| n == 0x3000
}

/// Whether a text holds nothing but white space.
pub open spec fn is_blank(text: Seq<char>) -> bool {
    forall|i: int| 0 <= i < text.len() ==> is_white_space(#[trigger] text[i])
}

fn white_space(c: char) -> (white: bool)
    ensures
        white == is_white_space(c),
{
    let n = c as u32;
    (0x09 <= n && n <= 0x0D) || n == 0x20 || n == 0x85 || n == 0xA0 || n == 0x1680 || (0x2000 <= n
        && n <= 0x200A) || n == 0x2028 || n == 0x2029 || n == 0x202F || n == 0x205F || n
        == 0x3000
}

fn blank(text: &str) -> (all_white: bool)
    ensures
        all_white == is_blank(text@),
{
    broadcast use vstd::string::group_string_axioms;

    let mut chars = text.chars();
    let ghost mut done: int = 0;
    proof {
        assert(text@.skip(0) =~= text@);
    }
    loop
        invariant
            0 <= done <= text@.len(),
            chars.remaining() == text@.skip(done),
            forall|i: int| 0 <= i < done ==> is_white_space(#[trigger] text@[i]),
        decreases text@.len() - done,
    {
        match chars.next() {
            None => {
                return true;
            },
            Some(c) => {
                proof {
                    assert(text@.skip(done).drop_first() =~= text@.skip(done + 1));
                    assert(c == text@[done]);
                }
                if !white_space(c) {
                    return false;
                }
                proof {
                    done = done + 1;
                }
            },
        }
    }
}

/// The font features to shape text with, if the user asks for any.
#[derive(Debug, PartialEq, Eq)]
pub struct FontFeatures {
    features: Option<String>,
}

impl FontFeatures {
    /// The features that are asked for.
    pub closed spec fn asked(&self) -> Option<Seq<char>> {
        match self.features {
            Some(s) => Some(s@),
            None => None,
        }
    }

    /// No features.
    pub fn new() -> (none: FontFeatures)
        ensures
            none.asked() is None,
    {
        FontFeatures { features: None }
    }

    /// The features that a text names: none for a text that is blank, and else the
    /// text as it is.
    pub fn from(font_features: String) -> (features: FontFeatures)
        ensures
            features.asked() == if is_blank(font_features@) {
                None
            } else {
                Some(font_features@)
            },
    {
        if blank(font_features.as_str()) {
            return FontFeatures::new();
        }
        FontFeatures { features: Some(font_features) }
    }

    /// The features that are asked for.
    pub fn features(&self) -> (asked: Option<&str>)
        ensures
            asked.deep_view() == self.asked(),
    {
        match &self.features {
            Some(s) => Some(s.as_str()),
            None => None,
        }
    }
}

} // verus!
