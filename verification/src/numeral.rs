//! Numerals: real numbers as the document writes them.
//!
//! The library checks that a text spells a real number and keeps the text;
//! it does not compute with the number.

use vstd::prelude::*;
use crate::number::{Fault, is_digit};
use crate::scalar::Scalar;
use crate::text::characters;

verus! {

/// Whether `c` is a plus or a minus sign.
pub open spec fn is_sign(c: char) -> bool {
    c == '+' || c == '-'
}

/// Whether `c` is the letter written `low` in lower case and `up` in upper
/// case.
pub open spec fn is_letter(c: char, low: char, up: char) -> bool {
    c == low || c == up
}

/// The end of the run of digits that starts at `from`.
pub open spec fn digits_end(s: Seq<char>, from: int) -> int
    decreases s.len() - from,
{
    if 0 <= from < s.len() && is_digit(s[from]) {
        digits_end(s, from + 1)
    } else {
        from
    }
}

/// Whether `s` from `at` on is an exponent: `e` or `E`, an optional sign,
/// and at least one digit.
pub open spec fn is_exponent_at(s: Seq<char>, at: int) -> bool {
    &&& 0 <= at < s.len()
    &&& is_letter(s[at], 'e', 'E')
    &&& {
        let start = if at + 1 < s.len() && is_sign(s[at + 1]) {
            at + 2
        } else {
            at + 1
        };
        start < digits_end(s, start) == s.len()
    }
}

/// Whether `s` from `start` on is a number: digits with at most one point
/// among them, at least one digit in all, and then nothing or an exponent.
pub open spec fn is_number_at(s: Seq<char>, start: int) -> bool {
    let whole = digits_end(s, start);
    let point = whole < s.len() && s[whole] == '.';
    let end = if point {
        digits_end(s, whole + 1)
    } else {
        whole
    };
    let count = if point {
        end - start - 1
    } else {
        end - start
    };
    count > 0 && (end == s.len() || is_exponent_at(s, end))
}

/// Whether `s` from `start` on is `inf`, `infinity` or `nan`, in upper or
/// lower case.
pub open spec fn is_special_at(s: Seq<char>, start: int) -> bool {
    ||| {
        &&& s.len() == start + 3
        &&& is_letter(s[start], 'n', 'N')
        &&& is_letter(s[start + 1], 'a', 'A')
        &&& is_letter(s[start + 2], 'n', 'N')
    }
    ||| {
        &&& s.len() == start + 3 || s.len() == start + 8
        &&& is_letter(s[start], 'i', 'I')
        &&& is_letter(s[start + 1], 'n', 'N')
        &&& is_letter(s[start + 2], 'f', 'F')
        &&& s.len() == start + 8 ==> {
            &&& is_letter(s[start + 3], 'i', 'I')
            &&& is_letter(s[start + 4], 'n', 'N')
            &&& is_letter(s[start + 5], 'i', 'I')
            &&& is_letter(s[start + 6], 't', 'T')
            &&& is_letter(s[start + 7], 'y', 'Y')
        }
    }
}

/// Whether `s` spells a real number: an optional sign, then a number or one
/// of the words `inf`, `infinity` and `nan`.
pub open spec fn is_numeral(s: Seq<char>) -> bool {
    s.len() > 0 && {
        let start: int = if is_sign(s[0]) {
            1
        } else {
            0
        };
        is_special_at(s, start) || is_number_at(s, start)
    }
}

/// Why `s` is not a real number.
pub open spec fn numeral_fault(s: Seq<char>) -> Option<Fault> {
    if s.len() == 0 {
        Some(Fault::Empty)
    } else if is_numeral(s) {
        None
    } else {
        Some(Fault::InvalidNumeral)
    }
}

/// Whether every character of `s` is a digit.
pub open spec fn all_digits(s: Seq<char>) -> bool {
    forall|i: int| 0 <= i < s.len() ==> is_digit(#[trigger] s[i])
}

/// The grammar's mantissa: digits, or digits with one point before, among
/// or after them; at least one digit in all.
pub open spec fn is_mantissa(s: Seq<char>) -> bool {
    ||| s.len() > 0 && all_digits(s)
    ||| exists|k: int|
        0 <= k < s.len() && #[trigger] s[k] == '.' && s.len() > 1 && all_digits(s.take(k))
            && all_digits(s.skip(k + 1))
}

/// The grammar's exponent: `e` or `E`, an optional sign, and digits, at
/// least one.
pub open spec fn is_exponent(s: Seq<char>) -> bool {
    &&& s.len() > 0
    &&& is_letter(s[0], 'e', 'E')
    &&& {
        let digits = if s.len() > 1 && is_sign(s[1]) {
            s.skip(2)
        } else {
            s.skip(1)
        };
        digits.len() > 0 && all_digits(digits)
    }
}

/// The grammar's number: a mantissa, and then nothing or an exponent.
pub open spec fn is_number(s: Seq<char>) -> bool {
    exists|k: int|
        0 <= k <= s.len() && is_mantissa(#[trigger] s.take(k)) && (k == s.len() || is_exponent(
            s.skip(k),
        ))
}

/// The grammar of real numbers: an optional sign, then a number or one of
/// the words `inf`, `infinity` and `nan` in upper or lower case.
pub open spec fn follows_grammar(s: Seq<char>) -> bool {
    s.len() > 0 && {
        let body = if is_sign(s[0]) {
            s.skip(1)
        } else {
            s
        };
        is_special_at(body, 0) || is_number(body)
    }
}

/// A run of digits ends where the digits end.
proof fn lemma_digits_end(s: Seq<char>, from: int)
    requires
        0 <= from <= s.len(),
    ensures
        from <= digits_end(s, from) <= s.len(),
        forall|i: int| from <= i < digits_end(s, from) ==> is_digit(#[trigger] s[i]),
        digits_end(s, from) < s.len() ==> !is_digit(s[digits_end(s, from)]),
    decreases s.len() - from,
{
    if from < s.len() && is_digit(s[from]) {
        lemma_digits_end(s, from + 1);
    }
}

/// A stretch of digits that ends at the end of the text, or before a
/// character that is no digit, is the run of digits from its start.
proof fn lemma_digits_end_is(s: Seq<char>, from: int, end: int)
    requires
        0 <= from <= end <= s.len(),
        forall|i: int| from <= i < end ==> is_digit(#[trigger] s[i]),
        end < s.len() ==> !is_digit(s[end]),
    ensures
        digits_end(s, from) == end,
    decreases end - from,
{
    if from < end {
        assert(is_digit(s[from]));
        lemma_digits_end_is(s, from + 1, end);
    }
}

/// The exponent as it is looked for at a place is the grammar's exponent.
proof fn lemma_exponent(s: Seq<char>, at: int)
    requires
        0 <= at <= s.len(),
    ensures
        is_exponent_at(s, at) <==> is_exponent(s.skip(at)),
{
    let t = s.skip(at);
    if at < s.len() && is_letter(s[at], 'e', 'E') {
        assert(t[0] == s[at]);
        let start = if at + 1 < s.len() && is_sign(s[at + 1]) {
            at + 2
        } else {
            at + 1
        };
        if at + 1 < s.len() {
            assert(t[1] == s[at + 1]);
        }
        let digits = if t.len() > 1 && is_sign(t[1]) {
            t.skip(2)
        } else {
            t.skip(1)
        };
        assert(digits == s.skip(start));
        lemma_digits_end(s, start);
        if is_exponent_at(s, at) {
            assert forall|i: int| 0 <= i < digits.len() implies is_digit(#[trigger] digits[i]) by {
                assert(digits[i] == s[start + i]);
            }
        }
        if is_exponent(t) {
            assert forall|i: int| start <= i < s.len() implies is_digit(#[trigger] s[i]) by {
                assert(digits[i - start] == s[i]);
            }
            lemma_digits_end_is(s, start, s.len() as int);
        }
    }
}

/// The number as it is looked for from a place is the grammar's number.
proof fn lemma_number(s: Seq<char>, start: int)
    requires
        0 <= start <= s.len(),
    ensures
        is_number_at(s, start) <==> is_number(s.skip(start)),
{
    let t = s.skip(start);
    lemma_digits_end(s, start);
    let whole = digits_end(s, start);
    let point = whole < s.len() && s[whole] == '.';
    if point {
        lemma_digits_end(s, whole + 1);
    }
    let end = if point {
        digits_end(s, whole + 1)
    } else {
        whole
    };
    if is_number_at(s, start) {
        let k = end - start;
        let m = t.take(k);
        assert forall|i: int| 0 <= i < m.len() implies m[i] == s[start + i] by {}
        if point {
            let d = whole - start;
            assert(m[d] == '.');
            assert forall|i: int| 0 <= i < m.take(d).len() implies is_digit(
                #[trigger] m.take(d)[i],
            ) by {
                assert(m.take(d)[i] == s[start + i]);
            }
            assert forall|i: int| 0 <= i < m.skip(d + 1).len() implies is_digit(
                #[trigger] m.skip(d + 1)[i],
            ) by {
                assert(m.skip(d + 1)[i] == s[whole + 1 + i]);
            }
            assert(is_mantissa(m));
        } else {
            assert forall|i: int| 0 <= i < m.len() implies is_digit(#[trigger] m[i]) by {
                assert(m[i] == s[start + i]);
            }
            assert(is_mantissa(m));
        }
        if end < s.len() {
            lemma_exponent(s, end);
            assert(t.skip(k) == s.skip(end));
        }
        assert(is_mantissa(t.take(k)) && (k == t.len() || is_exponent(t.skip(k))));
    }
    if is_number(t) {
        let k = choose|k: int|
            0 <= k <= t.len() && is_mantissa(#[trigger] t.take(k)) && (k == t.len() || is_exponent(
                t.skip(k),
            ));
        let m = t.take(k);
        let e = start + k;
        assert forall|i: int| 0 <= i < m.len() implies m[i] == s[start + i] by {}
        if e < s.len() {
            assert(t.skip(k) == s.skip(e));
            assert(s.skip(e)[0] == s[e]);
            assert(!is_digit(s[e]));
            assert(s[e] != '.');
            lemma_exponent(s, e);
        }
        if m.len() > 0 && all_digits(m) {
            assert forall|i: int| start <= i < e implies is_digit(#[trigger] s[i]) by {
                assert(m[i - start] == s[i]);
            }
            lemma_digits_end_is(s, start, e);
        } else {
            let d = choose|d: int|
                0 <= d < m.len() && #[trigger] m[d] == '.' && m.len() > 1 && all_digits(m.take(d))
                    && all_digits(m.skip(d + 1));
            assert(s[start + d] == '.');
            assert forall|i: int| start <= i < start + d implies is_digit(#[trigger] s[i]) by {
                assert(m.take(d)[i - start] == s[i]);
            }
            lemma_digits_end_is(s, start, start + d);
            assert forall|i: int| start + d + 1 <= i < e implies is_digit(#[trigger] s[i]) by {
                assert(m.skip(d + 1)[i - start - d - 1] == s[i]);
            }
            lemma_digits_end_is(s, start + d + 1, e);
        }
    }
}

/// The real numbers that are recognised are those of the grammar
///
/// ```text
/// Numeral  ::= Sign? ( 'inf' | 'infinity' | 'nan' | Number )
/// Number   ::= ( Digit+ | Digit+ '.' Digit* | Digit* '.' Digit+ ) Exponent?
/// Exponent ::= 'e' Sign? Digit+
/// ```
///
/// with letters in upper or lower case.
pub proof fn law_numerals_follow_the_grammar(s: Seq<char>)
    ensures
        is_numeral(s) <==> follows_grammar(s),
{
    if s.len() > 0 {
        if is_sign(s[0]) {
            let body = s.skip(1);
            lemma_number(s, 1);
            assert forall|i: int| 0 <= i < body.len() implies body[i] == s[1 + i] by {}
            assert(is_special_at(s, 1) <==> is_special_at(body, 0));
        } else {
            lemma_number(s, 0);
            assert(s.skip(0) == s);
        }
    }
}

/// The end of the run of digits that starts at `from`.
fn run_end(v: &Vec<char>, from: usize) -> (end: usize)
    requires
        from <= v@.len(),
    ensures
        end == digits_end(v@, from as int),
        from <= end <= v@.len(),
{
    let mut at = from;
    while at < v.len() && v[at] >= '0' && v[at] <= '9'
        invariant
            from <= at <= v@.len(),
            digits_end(v@, from as int) == digits_end(v@, at as int),
        decreases v@.len() - at,
    {
        at = at + 1;
    }
    at
}

/// Whether `c` is the letter written `low` or `up`.
fn letter(c: char, low: char, up: char) -> (b: bool)
    ensures
        b == is_letter(c, low, up),
{
    c == low || c == up
}

/// Whether the text from `at` on is an exponent.
fn exponent_at(v: &Vec<char>, at: usize) -> (b: bool)
    requires
        at < v@.len(),
    ensures
        b == is_exponent_at(v@, at as int),
{
    if !letter(v[at], 'e', 'E') {
        return false;
    }
    let n = v.len();
    let start = if at + 1 < n && (v[at + 1] == '+' || v[at + 1] == '-') {
        at + 2
    } else {
        at + 1
    };
    let end = run_end(v, start);
    start < end && end == v.len()
}

/// Whether the text from `start` on is a number.
fn number_at(v: &Vec<char>, start: usize) -> (b: bool)
    requires
        start <= v@.len(),
    ensures
        b == is_number_at(v@, start as int),
{
    let whole = run_end(v, start);
    let point = whole < v.len() && v[whole] == '.';
    let end = if point {
        run_end(v, whole + 1)
    } else {
        whole
    };
    let count = if point {
        end - start - 1
    } else {
        end - start
    };
    if count == 0 {
        false
    } else if end == v.len() {
        true
    } else {
        exponent_at(v, end)
    }
}

/// Whether the text from `start` on is `inf`, `infinity` or `nan`.
fn special_at(v: &Vec<char>, start: usize) -> (b: bool)
    requires
        start <= v@.len(),
    ensures
        b == is_special_at(v@, start as int),
{
    let n = v.len() - start;
    if n == 3 && letter(v[start], 'n', 'N') && letter(v[start + 1], 'a', 'A') && letter(
        v[start + 2],
        'n',
        'N',
    ) {
        return true;
    }
    if n != 3 && n != 8 {
        return false;
    }
    if !(letter(v[start], 'i', 'I') && letter(v[start + 1], 'n', 'N') && letter(
        v[start + 2],
        'f',
        'F',
    )) {
        return false;
    }
    n == 3 || (letter(v[start + 3], 'i', 'I') && letter(v[start + 4], 'n', 'N') && letter(
        v[start + 5],
        'i',
        'I',
    ) && letter(v[start + 6], 't', 'T') && letter(v[start + 7], 'y', 'Y'))
}

/// Whether `text` spells a real number.
pub fn spells_numeral(text: &str) -> (b: bool)
    ensures
        b == is_numeral(text@),
{
    let v = characters(text);
    if v.len() == 0 {
        return false;
    }
    let start: usize = if v[0] == '+' || v[0] == '-' {
        1
    } else {
        0
    };
    special_at(&v, start) || number_at(&v, start)
}

/// A real number, kept as the text that spells it.
#[derive(Debug, PartialEq, Eq)]
pub struct Numeral {
    text: String,
}

impl View for Numeral {
    type V = Seq<char>;

    closed spec fn view(&self) -> Seq<char> {
        self.text@
    }
}

impl Numeral {
    /// A numeral spells a real number.
    #[verifier::type_invariant]
    spec fn well_formed(self) -> bool {
        is_numeral(self.text@)
    }

    /// The numeral `0`.
    pub fn zero() -> (r: Numeral)
        ensures
            r@ == "0"@,
    {
        proof {
            reveal_strlit("0");
            reveal_with_fuel(digits_end, 2);
        }
        Numeral { text: "0".to_owned() }
    }

    /// The text that spells the number.
    pub fn as_str(&self) -> (text: &str)
        ensures
            text@ == self@,
            is_numeral(text@),
    {
        proof {
            use_type_invariant(self);
        }
        self.text.as_str()
    }
}

impl Default for Numeral {
    fn default() -> (r: Numeral)
        ensures
            r@ == "0"@,
    {
        Numeral::zero()
    }
}

impl Clone for Numeral {
    fn clone(&self) -> (r: Numeral)
        ensures
            r@ == self@,
    {
        proof {
            use_type_invariant(self);
        }
        Numeral { text: self.text.clone() }
    }
}

impl Scalar for Numeral {
    open spec fn fault(text: Seq<char>) -> Option<Fault> {
        numeral_fault(text)
    }

    open spec fn spelled(&self, text: Seq<char>) -> bool {
        self@ == text
    }

    fn read(text: &str) -> (r: Result<Numeral, Fault>) {
        if text.is_empty() {
            Err(Fault::Empty)
        } else if spells_numeral(text) {
            Ok(Numeral { text: text.to_owned() })
        } else {
            Err(Fault::InvalidNumeral)
        }
    }
}

} // verus!
