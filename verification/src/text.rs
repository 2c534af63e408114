//! Helpers on text.

use vstd::prelude::*;
use vstd::std_specs::iter::IteratorSpec;
use vstd::string::*;
use vstd::utf8::*;

verus! {

/// Whether two strings hold the same characters.
pub fn str_eq(a: &str, b: &str) -> (same: bool)
    ensures
        same == (a@ == b@),
{
    let x = a.as_bytes();
    let y = b.as_bytes();
    proof {
        encode_utf8_decode_utf8(a@);
        encode_utf8_decode_utf8(b@);
    }
    if x.len() != y.len() {
        return false;
    }
    let mut i: usize = 0;
    while i < x.len()
        invariant
            i <= x.len(),
            x.len() == y.len(),
            x@ == encode_utf8(a@),
            y@ == encode_utf8(b@),
            forall|k: int| 0 <= k < i ==> x@[k] == y@[k],
        decreases x.len() - i,
    {
        if x[i] != y[i] {
            return false;
        }
        i += 1;
    }
    assert(x@ =~= y@);
    true
}

/// The lines of a text: its parts between line feeds. A text without a line feed is
/// one line, and so is the empty text.
pub open spec fn lines_of(text: Seq<char>) -> Seq<Seq<char>>
    decreases text.len(),
{
    if text.len() == 0 {
        seq![Seq::empty()]
    } else {
        let before = lines_of(text.drop_last());
        if text.last() == '\n' {
            before.push(Seq::empty())
        } else {
            before.drop_last().push(before.last().push(text.last()))
        }
    }
}

/// Calls `String::push` of the standard library. Taken on trust, not proved: after the
/// call the string holds the characters that it held before, followed by `c`.
#[verifier::external_body]
fn push_char(s: &mut String, c: char)
    ensures
        final(s)@ == old(s)@.push(c),
{
    s.push(c);
}

/// Splits a text into its lines at the line feeds.
pub fn split_lines(text: &str) -> (lines: Vec<String>)
    ensures
        lines.deep_view() == lines_of(text@),
{
    broadcast use vstd::string::group_string_axioms;

    let mut lines: Vec<String> = Vec::new();
    let mut current = String::new();
    let mut chars = text.chars();
    let ghost mut done: int = 0;
    proof {
        assert(text@.take(0) =~= Seq::<char>::empty());
        assert(lines.deep_view().push(current@) =~= seq![Seq::<char>::empty()]);
        assert(text@.skip(0) =~= text@);
    }
    loop
        invariant
            0 <= done <= text@.len(),
            chars.remaining() == text@.skip(done),
            lines_of(text@.take(done)) == lines.deep_view().push(current@),
        ensures
            lines_of(text@) == lines.deep_view().push(current@),
        decreases text@.len() - done,
    {
        let ghost before = lines.deep_view();
        let ghost line = current@;
        match chars.next() {
            None => {
                proof {
                    assert(text@.take(done) =~= text@);
                }
                break ;
            },
            Some(c) => {
                proof {
                    assert(text@.skip(done).drop_first() =~= text@.skip(done + 1));
                    assert(c == text@[done]);
                    assert(text@.take(done + 1).drop_last() =~= text@.take(done));
                    assert(text@.take(done + 1).last() == c);
                    assert(before.push(line).drop_last() =~= before);
                }
                if c == '\n' {
                    lines.push(current);
                    current = String::new();
                    proof {
                        assert(lines.deep_view() =~= before.push(line));
                    }
                } else {
                    push_char(&mut current, c);
                }
                proof {
                    done = done + 1;
                }
            },
        }
    }
    let ghost before = lines.deep_view();
    let ghost line = current@;
    lines.push(current);
    assert(lines.deep_view() =~= before.push(line));
    lines
}

} // verus!
