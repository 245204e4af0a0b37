//! The kinds of scalar that the text of a field can be read as.

use vstd::prelude::*;
use crate::number::{Fault, integer, read_integer};

verus! {

/// A kind of value that is read from the text of one element.
pub trait Scalar: Sized {
    /// Why `text` is not a value of this kind; `None` where it is one.
    spec fn fault(text: Seq<char>) -> Option<Fault>;

    /// Whether `self` is the value that `text` spells.
    spec fn spelled(&self, text: Seq<char>) -> bool;

    /// Reads `text` as a value of this kind.
    fn read(text: &str) -> (r: Result<Self, Fault>)
        ensures
            match r {
                Ok(v) => Self::fault(text@) is None && v.spelled(text@),
                Err(f) => Self::fault(text@) == Some(f),
            },
    ;
}

/// The fault of an outcome, if it is one.
pub open spec fn fault_of(outcome: Result<int, Fault>) -> Option<Fault> {
    match outcome {
        Ok(_) => None,
        Err(f) => Some(f),
    }
}

impl Scalar for u8 {
    open spec fn fault(text: Seq<char>) -> Option<Fault> {
        fault_of(integer(text, 0, u8::MAX as int))
    }

    open spec fn spelled(&self, text: Seq<char>) -> bool {
        integer(text, 0, u8::MAX as int) == Ok::<int, Fault>(*self as int)
    }

    fn read(text: &str) -> (r: Result<u8, Fault>) {
        match read_integer(text, 0, 0xff) {
            Ok((_, m)) => Ok(m as u8),
            Err(f) => Err(f),
        }
    }
}

impl Scalar for u16 {
    open spec fn fault(text: Seq<char>) -> Option<Fault> {
        fault_of(integer(text, 0, u16::MAX as int))
    }

    open spec fn spelled(&self, text: Seq<char>) -> bool {
        integer(text, 0, u16::MAX as int) == Ok::<int, Fault>(*self as int)
    }

    fn read(text: &str) -> (r: Result<u16, Fault>) {
        match read_integer(text, 0, 0xffff) {
            Ok((_, m)) => Ok(m as u16),
            Err(f) => Err(f),
        }
    }
}

impl Scalar for u32 {
    open spec fn fault(text: Seq<char>) -> Option<Fault> {
        fault_of(integer(text, 0, u32::MAX as int))
    }

    open spec fn spelled(&self, text: Seq<char>) -> bool {
        integer(text, 0, u32::MAX as int) == Ok::<int, Fault>(*self as int)
    }

    fn read(text: &str) -> (r: Result<u32, Fault>) {
        match read_integer(text, 0, 0xffff_ffff) {
            Ok((_, m)) => Ok(m as u32),
            Err(f) => Err(f),
        }
    }
}

impl Scalar for u64 {
    open spec fn fault(text: Seq<char>) -> Option<Fault> {
        fault_of(integer(text, 0, u64::MAX as int))
    }

    open spec fn spelled(&self, text: Seq<char>) -> bool {
        integer(text, 0, u64::MAX as int) == Ok::<int, Fault>(*self as int)
    }

    fn read(text: &str) -> (r: Result<u64, Fault>) {
        match read_integer(text, 0, 0xffff_ffff_ffff_ffff) {
            Ok((_, m)) => Ok(m),
            Err(f) => Err(f),
        }
    }
}

/// The signed value with the given sign and magnitude.
fn signed_value(negative: bool, m: u64) -> (v: i64)
    requires
        m <= (if negative { 0x8000_0000_0000_0000u64 } else { 0x7fff_ffff_ffff_ffffu64 }),
    ensures
        v as int == (if negative { -(m as int) } else { m as int }),
{
    if !negative {
        m as i64
    } else if m == 0x8000_0000_0000_0000u64 {
        i64::MIN
    } else {
        -(m as i64)
    }
}

impl Scalar for i8 {
    open spec fn fault(text: Seq<char>) -> Option<Fault> {
        fault_of(integer(text, i8::MIN as int, i8::MAX as int))
    }

    open spec fn spelled(&self, text: Seq<char>) -> bool {
        integer(text, i8::MIN as int, i8::MAX as int) == Ok::<int, Fault>(*self as int)
    }

    fn read(text: &str) -> (r: Result<i8, Fault>) {
        match read_integer(text, 0x80, 0x7f) {
            Ok((negative, m)) => Ok(signed_value(negative, m) as i8),
            Err(f) => Err(f),
        }
    }
}

impl Scalar for i32 {
    open spec fn fault(text: Seq<char>) -> Option<Fault> {
        fault_of(integer(text, i32::MIN as int, i32::MAX as int))
    }

    open spec fn spelled(&self, text: Seq<char>) -> bool {
        integer(text, i32::MIN as int, i32::MAX as int) == Ok::<int, Fault>(*self as int)
    }

    fn read(text: &str) -> (r: Result<i32, Fault>) {
        match read_integer(text, 0x8000_0000, 0x7fff_ffff) {
            Ok((negative, m)) => Ok(signed_value(negative, m) as i32),
            Err(f) => Err(f),
        }
    }
}

impl Scalar for i64 {
    open spec fn fault(text: Seq<char>) -> Option<Fault> {
        fault_of(integer(text, i64::MIN as int, i64::MAX as int))
    }

    open spec fn spelled(&self, text: Seq<char>) -> bool {
        integer(text, i64::MIN as int, i64::MAX as int) == Ok::<int, Fault>(*self as int)
    }

    fn read(text: &str) -> (r: Result<i64, Fault>) {
        match read_integer(text, 0x8000_0000_0000_0000, 0x7fff_ffff_ffff_ffff) {
            Ok((negative, m)) => Ok(signed_value(negative, m)),
            Err(f) => Err(f),
        }
    }
}

impl Scalar for String {
    open spec fn fault(text: Seq<char>) -> Option<Fault> {
        None
    }

    open spec fn spelled(&self, text: Seq<char>) -> bool {
        self@ == text
    }

    fn read(text: &str) -> (r: Result<String, Fault>) {
        Ok(text.to_owned())
    }
}

} // verus!
