//! Reading decimal integers from text.

use vstd::prelude::*;
use vstd::std_specs::iter::IteratorSpec;

verus! {

broadcast use vstd::string::group_string_axioms;

/// Why a text is not a value of the scalar kind asked for.
#[derive(Debug, Clone, Copy, PartialEq, Eq, Structural)]
pub enum Fault {
    /// The text is empty.
    Empty,
    /// A character is not a decimal digit, or a sign stands alone.
    InvalidDigit,
    /// The number is above the largest value of the kind.
    PosOverflow,
    /// The number is below the smallest value of the kind.
    NegOverflow,
    /// The text does not spell a real number.
    InvalidNumeral,
    /// The text names no season.
    UnknownSeason,
}

impl Fault {
    /// The fault in words.
    pub open spec fn text(self) -> Seq<char> {
        match self {
            Fault::Empty => "the text is empty"@,
            Fault::InvalidDigit => "invalid digit found in the text"@,
            Fault::PosOverflow => "the number is too large for the field"@,
            Fault::NegOverflow => "the number is too small for the field"@,
            Fault::InvalidNumeral => "the text is not a real number"@,
            Fault::UnknownSeason => "the text names no season"@,
        }
    }

    /// The fault in words.
    pub fn describe(self) -> (words: &'static str)
        ensures
            words@ == self.text(),
    {
        match self {
            Fault::Empty => "the text is empty",
            Fault::InvalidDigit => "invalid digit found in the text",
            Fault::PosOverflow => "the number is too large for the field",
            Fault::NegOverflow => "the number is too small for the field",
            Fault::InvalidNumeral => "the text is not a real number",
            Fault::UnknownSeason => "the text names no season",
        }
    }
}

/// Whether `c` is one of the ten decimal digits.
pub open spec fn is_digit(c: char) -> bool {
    '0' <= c <= '9'
}

/// The number that the digit `c` stands for.
pub open spec fn digit_value(c: char) -> int {
    c as int - '0' as int
}

/// The magnitude `v` with the digit `c` appended, while it stays within
/// `limit`; `over` is the fault for leaving it.
pub open spec fn append_digit(v: int, c: char, limit: int, over: Fault) -> Result<int, Fault> {
    if !is_digit(c) {
        Err(Fault::InvalidDigit)
    } else if 10 * v + digit_value(c) > limit {
        Err(over)
    } else {
        Ok(10 * v + digit_value(c))
    }
}

/// The magnitude that the digits of `s` spell, read from the left. The first
/// character that cannot be appended decides the fault.
pub open spec fn magnitude(s: Seq<char>, limit: int, over: Fault) -> Result<int, Fault>
    decreases s.len(),
{
    if s.len() == 0 {
        Ok(0)
    } else {
        match magnitude(s.drop_last(), limit, over) {
            Err(f) => Err(f),
            Ok(v) => append_digit(v, s.last(), limit, over),
        }
    }
}

/// The integer between `lo` and `hi` that `s` spells in decimal: digits
/// after an optional `+`, or after `-` where negative values exist
/// (`lo < 0`).
pub open spec fn integer(s: Seq<char>, lo: int, hi: int) -> Result<int, Fault> {
    if s.len() == 0 {
        Err(Fault::Empty)
    } else if s.len() == 1 && (s[0] == '+' || s[0] == '-') {
        Err(Fault::InvalidDigit)
    } else if s[0] == '+' {
        magnitude(s.skip(1), hi, Fault::PosOverflow)
    } else if s[0] == '-' && lo < 0 {
        match magnitude(s.skip(1), -lo, Fault::NegOverflow) {
            Ok(m) => Ok(-m),
            Err(f) => Err(f),
        }
    } else {
        magnitude(s, hi, Fault::PosOverflow)
    }
}

/// A fault met in a prefix is the fault of the whole.
pub proof fn lemma_fault_stays(s: Seq<char>, n: int, limit: int, over: Fault)
    requires
        0 <= n <= s.len(),
        magnitude(s.take(n), limit, over) is Err,
    ensures
        magnitude(s, limit, over) == magnitude(s.take(n), limit, over),
    decreases s.len() - n,
{
    if n < s.len() {
        assert(s.drop_last().take(n) == s.take(n));
        lemma_fault_stays(s.drop_last(), n, limit, over);
    } else {
        assert(s.take(n) == s);
    }
}

/// A magnitude lies between zero and the limit.
proof fn lemma_magnitude_bounds(s: Seq<char>, limit: int, over: Fault)
    requires
        0 <= limit,
    ensures
        magnitude(s, limit, over) matches Ok(v) ==> 0 <= v <= limit,
    decreases s.len(),
{
    if s.len() > 0 {
        lemma_magnitude_bounds(s.drop_last(), limit, over);
    }
}

/// An integer that is read lies within the bounds that it was read for, and
/// a text that starts with `-` reads as no positive number.
pub proof fn law_integer_is_in_range(s: Seq<char>, lo: int, hi: int)
    requires
        lo <= 0 <= hi,
    ensures
        integer(s, lo, hi) matches Ok(v) ==> lo <= v <= hi && (s[0] == '-' ==> v <= 0),
{
    lemma_magnitude_bounds(s, hi, Fault::PosOverflow);
    lemma_magnitude_bounds(s.skip(1), hi, Fault::PosOverflow);
    lemma_magnitude_bounds(s.skip(1), -lo, Fault::NegOverflow);
    if s.len() > 0 && s[0] == '-' && lo >= 0 {
        lemma_sign_is_no_digit(s, hi);
    }
}

/// Where no negative numbers are read, a text that starts with `-` reads
/// as nothing.
proof fn lemma_sign_is_no_digit(s: Seq<char>, hi: int)
    requires
        s.len() > 0,
        s[0] == '-',
    ensures
        magnitude(s, hi, Fault::PosOverflow) is Err,
    decreases s.len(),
{
    if s.len() > 1 {
        lemma_sign_is_no_digit(s.drop_last(), hi);
    } else {
        assert(magnitude(s.drop_last(), hi, Fault::PosOverflow) == Ok::<int, Fault>(0));
    }
}

/// Appends the digit `c` to the magnitude `acc`.
fn push_digit(acc: u64, c: char, limit: u64, over: Fault) -> (r: Result<u64, Fault>)
    requires
        acc <= limit,
    ensures
        match r {
            Ok(v) => append_digit(acc as int, c, limit as int, over) == Ok::<int, Fault>(v as int),
            Err(f) => append_digit(acc as int, c, limit as int, over) == Err::<int, Fault>(f),
        },
        r matches Ok(v) ==> v <= limit,
{
    if !(c >= '0' && c <= '9') {
        return Err(Fault::InvalidDigit);
    }
    let d: u64 = (c as u32 - '0' as u32) as u64;
    if d > limit || acc > (limit - d) / 10 {
        return Err(over);
    }
    Ok(acc * 10 + d)
}

/// Reads a decimal integer between `-below` and `hi`. The result is the
/// sign (`true` for a text that starts with `-`, where `below > 0`) and the
/// magnitude.
#[verifier::loop_isolation(false)]
pub fn read_integer(text: &str, below: u64, hi: u64) -> (r: Result<(bool, u64), Fault>)
    ensures
        match r {
            Ok((negative, m)) => integer(text@, -(below as int), hi as int) == Ok::<int, Fault>(
                if negative { -(m as int) } else { m as int },
            ) && m <= (if negative { below } else { hi }) && (negative ==> below > 0),
            Err(f) => integer(text@, -(below as int), hi as int) == Err::<int, Fault>(f),
        },
{
    let mut chars = text.chars();
    let ghost all = chars;
    let first = chars.next();
    proof {
        vstd::string::next_postcondition(&all, &chars, first);
    }
    let c = match first {
        None => { return Err(Fault::Empty); },
        Some(c) => c,
    };
    let negative = c == '-' && below > 0;
    let signed = c == '+' || negative;
    let limit = if negative { below } else { hi };
    let over = if negative { Fault::NegOverflow } else { Fault::PosOverflow };
    let ghost body = if signed { text@.skip(1) } else { text@ };
    let ghost mut k: int = if signed { 0 } else { 1 };
    let mut acc: u64 = 0;
    assert(magnitude(Seq::<char>::empty(), limit as int, over) == Ok::<int, Fault>(0));
    if !signed {
        assert(body.take(1).drop_last() == Seq::<char>::empty());
        assert(body.take(1).last() == c);
        match push_digit(0, c, limit, over) {
            Ok(v) => { acc = v; },
            Err(f) => {
                proof {
                    lemma_fault_stays(body, 1, limit as int, over);
                }
                return Err(f);
            },
        }
    } else {
        assert(body.take(0) == Seq::<char>::empty());
    }
    let mut any = !signed;
    loop
        invariant
            0 <= k <= body.len(),
            chars.remaining() == body.skip(k),
            magnitude(body.take(k), limit as int, over) == Ok::<int, Fault>(acc as int),
            acc <= limit,
            any == (k > 0),
        decreases body.len() - k,
    {
        let ghost before = chars;
        let next = chars.next();
        proof {
            vstd::string::next_postcondition(&before, &chars, next);
        }
        match next {
            None => { break; },
            Some(c) => {
                assert(body.take(k + 1).drop_last() == body.take(k));
                assert(body.take(k + 1).last() == c);
                assert(body.skip(k).drop_first() == body.skip(k + 1));
                match push_digit(acc, c, limit, over) {
                    Ok(v) => { acc = v; },
                    Err(f) => {
                        proof {
                            lemma_fault_stays(body, k + 1, limit as int, over);
                        }
                        return Err(f);
                    },
                }
                any = true;
                proof {
                    k = k + 1;
                }
            },
        }
    }
    assert(body.take(body.len() as int) == body);
    if !any {
        return Err(Fault::InvalidDigit);
    }
    Ok((negative, acc))
}

} // verus!
