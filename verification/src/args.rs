//! Parsing and validation of the one CLI argument: the requested child-stack
//! size in bytes, written as an unsigned decimal number.
//!
//! There is no recovery path: a rejected argument aborts the probe before any
//! process is created, so the result here says exactly on which inputs that
//! happens.

use vstd::prelude::*;

verus! {

/// Why a stack-size argument was rejected.
#[derive(Clone, Copy, Debug, PartialEq, Eq, Structural)]
pub enum ArgError {
    /// The argument is empty or holds a byte that is not an ASCII digit.
    NotNumeric,
    /// The digits denote a value that does not fit in `usize`.
    TooLarge,
    /// The digits denote zero, which cannot hold any child stack.
    ZeroSize,
}

/// Whether `b` is an ASCII decimal digit.
pub open spec fn is_digit(b: u8) -> bool {
    0x30 <= b <= 0x39
}

/// The numeric value of the ASCII digit `b`.
pub open spec fn digit_value(b: u8) -> nat {
    (b - 0x30) as nat
}

/// Whether every byte of `s` is an ASCII decimal digit.
pub open spec fn all_digits(s: Seq<u8>) -> bool {
    forall|i: int| 0 <= i < s.len() ==> is_digit(s[i])
}

/// The value of `s` read as a base-10 numeral, most significant digit first.
pub open spec fn decimal_value(s: Seq<u8>) -> nat
    decreases s.len(),
{
    if s.len() == 0 {
        0
    } else {
        decimal_value(s.drop_last()) * 10 + digit_value(s.last())
    }
}

/// Extending a numeral on the right never decreases its value.
pub proof fn lemma_decimal_value_prefix_le(s: Seq<u8>, n: int)
    requires
        0 <= n <= s.len(),
    ensures
        decimal_value(s.subrange(0, n)) <= decimal_value(s),
    decreases s.len() - n,
{
    if n == s.len() {
        assert(s.subrange(0, n) =~= s);
    } else {
        assert(s.subrange(0, n + 1).drop_last() =~= s.subrange(0, n));
        assert(s.subrange(0, n + 1).last() == s[n]);
        assert(decimal_value(s.subrange(0, n + 1))
            == decimal_value(s.subrange(0, n)) * 10 + digit_value(s[n]));
        lemma_decimal_value_prefix_le(s, n + 1);
    }
}

/// What `parse_stack_size` promises of its result on a given argument: the
/// four outcomes partition the inputs, so each one holds if and only if its
/// condition does.
pub open spec fn parse_outcome(s: Seq<u8>, r: Result<usize, ArgError>) -> bool {
    match r {
        Ok(n) => s.len() > 0 && all_digits(s) && n == decimal_value(s) && n > 0,
        Err(ArgError::NotNumeric) => s.len() == 0 || !all_digits(s),
        Err(ArgError::TooLarge) => s.len() > 0 && all_digits(s) && decimal_value(s) > usize::MAX,
        Err(ArgError::ZeroSize) => s.len() > 0 && all_digits(s) && decimal_value(s) == 0,
    }
}

/// Parses the stack-size argument as an unsigned decimal number and rejects
/// a value of zero, which could not hold any child stack. Succeeds exactly on
/// the non-empty all-digit arguments whose value is positive and fits in
/// `usize`, and returns that value.
pub fn parse_stack_size(arg: &Vec<u8>) -> (r: Result<usize, ArgError>)
    ensures
        parse_outcome(arg@, r),
{
    if arg.len() == 0 {
        return Err(ArgError::NotNumeric);
    }
    let n = arg.len();
    let mut i: usize = 0;
    while i < n
        invariant
            n == arg@.len(),
            0 <= i <= n,
            forall|j: int| 0 <= j < i ==> is_digit(arg@[j]),
        decreases n - i,
    {
        let b = arg[i];
        if b < 0x30 || b > 0x39 {
            return Err(ArgError::NotNumeric);
        }
        i = i + 1;
    }
    let mut value: usize = 0;
    let mut i: usize = 0;
    while i < n
        invariant
            n == arg@.len(),
            0 <= i <= n,
            all_digits(arg@),
            value == decimal_value(arg@.subrange(0, i as int)),
        decreases n - i,
    {
        let b = arg[i];
        let d = (b - 0x30) as usize;
        proof {
            assert(arg@.subrange(0, i + 1).drop_last() =~= arg@.subrange(0, i as int));
            assert(arg@.subrange(0, i + 1).last() == arg@[i as int]);
        }
        let scaled = match value.checked_mul(10) {
            Some(m) => m,
            None => {
                proof {
                    lemma_decimal_value_prefix_le(arg@, i + 1);
                }
                return Err(ArgError::TooLarge);
            },
        };
        value = match scaled.checked_add(d) {
            Some(v) => v,
            None => {
                proof {
                    lemma_decimal_value_prefix_le(arg@, i + 1);
                }
                return Err(ArgError::TooLarge);
            },
        };
        i = i + 1;
    }
    proof {
        assert(arg@.subrange(0, n as int) =~= arg@);
    }
    if value == 0 {
        return Err(ArgError::ZeroSize);
    }
    Ok(value)
}

} // verus!
