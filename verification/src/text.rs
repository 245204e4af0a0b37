//! Character-level helpers on string slices.

use vstd::prelude::*;
use vstd::std_specs::iter::IteratorSpec;

verus! {

/// The characters of `text`, in order.
pub fn characters(text: &str) -> (r: Vec<char>)
    ensures
        r@ == text@,
{
    let mut out: Vec<char> = Vec::new();
    let mut chars = text.chars();
    proof {
        vstd::string::axiom_spec_iter(text);
    }
    loop
        invariant
            out@.len() <= text@.len(),
            out@ == text@.take(out@.len() as int),
            chars.remaining() == text@.skip(out@.len() as int),
        decreases text@.len() - out@.len(),
    {
        let ghost before = chars;
        let next = chars.next();
        proof {
            vstd::string::next_postcondition(&before, &chars, next);
        }
        match next {
            None => {
                assert(text@.take(text@.len() as int) == text@);
                return out;
            },
            Some(c) => {
                let ghost n = out@.len() as int;
                assert(text@.skip(n).drop_first() == text@.skip(n + 1));
                out.push(c);
                assert(out@ == text@.take(n + 1));
            },
        }
    }
}

/// Whether two texts are the same, character by character.
pub fn same_text(a: &str, b: &str) -> (r: bool)
    ensures
        r == (a@ == b@),
{
    let mut left = a.chars();
    let mut right = b.chars();
    proof {
        vstd::string::axiom_spec_iter(a);
        vstd::string::axiom_spec_iter(b);
    }
    let ghost mut n: int = 0;
    loop
        invariant
            0 <= n <= a@.len(),
            n <= b@.len(),
            a@.take(n) == b@.take(n),
            left.remaining() == a@.skip(n),
            right.remaining() == b@.skip(n),
        decreases a@.len() - n,
    {
        let ghost left_before = left;
        let ghost right_before = right;
        let x = left.next();
        let y = right.next();
        proof {
            vstd::string::next_postcondition(&left_before, &left, x);
            vstd::string::next_postcondition(&right_before, &right, y);
        }
        match (x, y) {
            (None, None) => {
                assert(a@.take(n) == a@);
                assert(b@.take(n) == b@);
                return true;
            },
            (Some(c), Some(d)) => {
                if c != d {
                    assert(a@[n] != b@[n]);
                    return false;
                }
                assert(a@.skip(n).drop_first() == a@.skip(n + 1));
                assert(b@.skip(n).drop_first() == b@.skip(n + 1));
                assert(a@.take(n + 1) == a@.take(n).push(c));
                assert(b@.take(n + 1) == b@.take(n).push(d));
                proof {
                    n = n + 1;
                }
            },
            _ => {
                assert(a@.len() != b@.len());
                return false;
            },
        }
    }
}

} // verus!
