//! Parsing of the process identifier read at the input boundary.
//!
//! The identifier must be a sequence of decimal digits ending at the end of
//! the input or at a line terminator; any non-digit before the terminator
//! makes the input malformed, and a digit string too large for a process
//! identifier is rejected the same way. A run touches no kernel primitive
//! unless parsing succeeded.

use vstd::prelude::*;

use crate::errors::InputError;

verus! {

/// The line terminator: parsing stops at the first one.
pub const NEWLINE: u8 = 10;

/// True when the byte is an ASCII decimal digit.
pub open spec fn is_digit(b: u8) -> bool {
    48 <= b <= 57
}

/// The numeric value of an ASCII decimal digit byte.
pub open spec fn digit_val(b: u8) -> int {
    b - 48
}

/// How many bytes stand before the first line terminator (the whole
/// sequence when it has none).
pub open spec fn line_len(s: Seq<u8>) -> nat
    decreases s.len(),
{
    if s.len() == 0 {
        0
    } else if s[0] == NEWLINE {
        0
    } else {
        1 + line_len(s.drop_first())
    }
}

/// The bytes before the first line terminator.
pub open spec fn line_prefix(s: Seq<u8>) -> Seq<u8> {
    s.take(line_len(s) as int)
}

/// True when every byte of the sequence is a decimal digit.
pub open spec fn all_digits(s: Seq<u8>) -> bool {
    forall|i: int| 0 <= i < s.len() ==> is_digit(#[trigger] s[i])
}

/// The value of a digit sequence read as a decimal numeral.
pub open spec fn digits_value(s: Seq<u8>) -> int
    decreases s.len(),
{
    if s.len() == 0 {
        0
    } else {
        digits_value(s.drop_last()) * 10 + digit_val(s.last())
    }
}

/// `line_len` names the index of the first line terminator: everything
/// before it is no terminator, and the byte at it (when the sequence goes
/// on) is one.
pub proof fn lemma_line_len(s: Seq<u8>)
    ensures
        line_len(s) <= s.len(),
        forall|i: int| 0 <= i < line_len(s) ==> #[trigger] s[i] != NEWLINE,
        line_len(s) < s.len() ==> s[line_len(s) as int] == NEWLINE,
    decreases s.len(),
{
    if s.len() == 0 {
    } else if s[0] == NEWLINE {
    } else {
        lemma_line_len(s.drop_first());
        assert forall|i: int| 0 <= i < line_len(s) implies #[trigger] s[i] != NEWLINE by {
            if i > 0 {
                assert(s.drop_first()[i - 1] == s[i]);
            }
        }
        if line_len(s) < s.len() {
            assert(s.drop_first()[line_len(s) - 1] == s[line_len(s) as int]);
        }
    }
}

/// A decimal numeral of digits is never negative.
pub proof fn lemma_digits_value_nonneg(s: Seq<u8>)
    requires
        all_digits(s),
    ensures
        digits_value(s) >= 0,
    decreases s.len(),
{
    if s.len() > 0 {
        lemma_digits_value_nonneg(s.drop_last());
    }
}

/// Reading more digits never shrinks the numeral: the value of a prefix is
/// at most the value of the whole digit sequence.
pub proof fn lemma_digits_value_prefix_le(s: Seq<u8>, i: int)
    requires
        all_digits(s),
        0 <= i <= s.len(),
    ensures
        digits_value(s.take(i)) <= digits_value(s),
    decreases s.len() - i,
{
    if i == s.len() {
        assert(s.take(i) =~= s);
    } else {
        assert(s.take(i + 1).drop_last() =~= s.take(i));
        assert(s.take(i + 1).last() == s[i]);
        lemma_digits_value_nonneg(s.take(i));
        lemma_digits_value_prefix_le(s, i + 1);
    }
}

/// Parses a process identifier: the decimal value of the digits standing
/// before the first line terminator. Malformed input (a non-digit before
/// the terminator, or a value too large for a process identifier) is
/// rejected, and nothing downstream of parsing runs on it.
pub fn parse_pid(input: &[u8]) -> (r: Result<i32, InputError>)
    ensures
        r is Ok <==> all_digits(line_prefix(input@)) && digits_value(line_prefix(input@))
            <= i32::MAX,
        r matches Ok(v) ==> v as int == digits_value(line_prefix(input@)),
{
    let mut i: usize = 0;
    let mut value: i32 = 0;
    proof {
        lemma_line_len(input@);
        assert(input@.take(0) =~= Seq::<u8>::empty());
    }
    while i < input.len() && input[i] != NEWLINE
        invariant
            0 <= i <= input@.len(),
            forall|j: int| 0 <= j < i ==> #[trigger] input@[j] != NEWLINE && is_digit(input@[j]),
            i <= line_len(input@),
            0 <= value,
            value as int == digits_value(input@.take(i as int)),
        decreases input@.len() - i,
    {
        proof {
            lemma_line_len(input@);
        }
        let b = input[i];
        if !(48 <= b && b <= 57) {
            proof {
                assert(line_prefix(input@)[i as int] == input@[i as int]);
            }
            return Err(InputError);
        }
        let d = (b - 48) as i32;
        proof {
            assert(input@.take(i + 1).drop_last() =~= input@.take(i as int));
            assert(input@.take(i + 1).last() == input@[i as int]);
        }
        if value > (0x7fff_ffff - d) / 10 {
            proof {
                let q = (0x7fff_ffff - d) / 10;
                assert(q * 10 + 10 > 0x7fff_ffff - d >= q * 10) by (nonlinear_arith)
                    requires
                        q == (0x7fff_ffff - d) / 10,
                        0 <= d <= 9,
                ;
                assert(value * 10 >= (q + 1) * 10 == q * 10 + 10) by (nonlinear_arith)
                    requires
                        value >= q + 1,
                ;
                assert(digits_value(input@.take(i + 1)) > i32::MAX);
                let lp = line_prefix(input@);
                if all_digits(lp) {
                    lemma_digits_value_prefix_le(lp, i + 1);
                    assert(lp.take(i + 1) =~= input@.take(i + 1));
                }
            }
            return Err(InputError);
        }
        value = value * 10 + d;
        i += 1;
    }
    proof {
        lemma_line_len(input@);
        assert(line_len(input@) == i);
        assert(line_prefix(input@) =~= input@.take(i as int));
    }
    Ok(value)
}

} // verus!
