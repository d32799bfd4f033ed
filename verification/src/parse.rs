//! Parsing of a breakpoint address given by the user as hexadecimal text.
//!
//! The address may carry a `0x` or `0X` prefix and, after it, a single
//! leading `+`; what remains must be one or more hexadecimal digits in
//! either case, and the value must fit a `usize`.  Anything else is not an
//! address.

use vstd::prelude::*;

verus! {

use vstd::string::StringSliceAdditionalSpecFns;

/// Whether `b` is the ASCII code of a hexadecimal digit, in either case.
pub open spec fn is_hex_digit(b: u8) -> bool {
    (0x30 <= b && b <= 0x39) || (0x61 <= b && b <= 0x66) || (0x41 <= b && b <= 0x46)
}

/// The value of the hexadecimal digit with ASCII code `b`.
pub open spec fn hex_digit_value(b: u8) -> nat
    recommends
        is_hex_digit(b),
{
    if 0x30 <= b && b <= 0x39 {
        (b - 0x30) as nat
    } else if 0x61 <= b && b <= 0x66 {
        (b - 0x61 + 10) as nat
    } else {
        (b - 0x41 + 10) as nat
    }
}

/// Whether every byte of `s` is a hexadecimal digit.
pub open spec fn all_hex_digits(s: Seq<u8>) -> bool {
    forall|i: int| 0 <= i < s.len() ==> is_hex_digit(#[trigger] s[i])
}

/// The number that `s` spells in hexadecimal, most significant digit
/// first.
pub open spec fn hex_value(s: Seq<u8>) -> nat
    recommends
        all_hex_digits(s),
    decreases s.len(),
{
    if s.len() == 0 {
        0
    } else {
        hex_value(s.drop_last()) * 16 + hex_digit_value(s.last())
    }
}

/// `s` without its `0x` or `0X` prefix, if it carries one.
pub open spec fn strip_hex_prefix(s: Seq<u8>) -> Seq<u8> {
    if s.len() >= 2 && s[0] == 0x30 && (s[1] == 0x78 || s[1] == 0x58) {
        s.skip(2)
    } else {
        s
    }
}

/// `s` without a single leading `+`, if it carries one.
pub open spec fn strip_sign(s: Seq<u8>) -> Seq<u8> {
    if s.len() >= 1 && s[0] == 0x2b {
        s.skip(1)
    } else {
        s
    }
}

/// The address that the byte text `s` denotes: strip an optional `0x`/`0X`
/// prefix, then an optional `+`; what remains must be one or more
/// hexadecimal digits whose value fits a `usize`.
pub open spec fn parse_address_spec(s: Seq<u8>) -> Option<usize> {
    let digits = strip_sign(strip_hex_prefix(s));
    if digits.len() >= 1 && all_hex_digits(digits) && hex_value(digits) <= usize::MAX {
        Some(hex_value(digits) as usize)
    } else {
        None
    }
}

/// The value of a prefix of a digit string never exceeds the value of the
/// whole string.
proof fn lemma_hex_value_take_le(s: Seq<u8>, k: int)
    requires
        0 <= k <= s.len(),
    ensures
        hex_value(s.take(k)) <= hex_value(s),
    decreases s.len(),
{
    if k == s.len() {
        assert(s.take(k) =~= s);
    } else {
        assert(s.take(k) =~= s.drop_last().take(k));
        lemma_hex_value_take_le(s.drop_last(), k);
        assert(hex_value(s.drop_last()) * 16 >= hex_value(s.drop_last())) by (nonlinear_arith);
    }
}

/// Parses a breakpoint address from hexadecimal text, with an optional
/// `0x`/`0X` prefix and an optional `+` after it; returns the address
/// exactly when the remaining text is one or more hexadecimal digits whose
/// value fits a `usize`.
pub fn parse_address(addr: &str) -> (r: Option<usize>)
    ensures
        r == parse_address_spec(addr.spec_bytes()),
{
    let bytes: &[u8] = addr.as_bytes();
    let ghost full: Seq<u8> = addr.spec_bytes();
    let n: usize = bytes.len();
    let mut start: usize = 0;
    if n >= 2 && bytes[0] == 0x30 && (bytes[1] == 0x78 || bytes[1] == 0x58) {
        start = 2;
    }
    proof {
        assert(strip_hex_prefix(full) =~= full.skip(start as int));
    }
    if start < n && bytes[start] == 0x2b {
        start = start + 1;
        proof {
            assert(strip_sign(full.skip(start - 1)) =~= full.skip(start - 1).skip(1));
            assert(full.skip(start - 1).skip(1) =~= full.skip(start as int));
        }
    }
    let ghost digits: Seq<u8> = strip_sign(strip_hex_prefix(full));
    proof {
        assert(digits =~= full.skip(start as int));
    }
    if start == n {
        proof {
            assert(digits.len() == 0);
        }
        return None;
    }
    let mut value: usize = 0;
    let mut i: usize = start;
    proof {
        assert(digits.take(0) =~= Seq::<u8>::empty());
    }
    while i < n
        invariant
            start <= i <= n,
            n == full.len(),
            bytes@ == full,
            full == addr.spec_bytes(),
            digits == strip_sign(strip_hex_prefix(full)),
            digits == full.skip(start as int),
            start < n,
            all_hex_digits(digits.take(i - start)),
            value == hex_value(digits.take(i - start)),
        decreases n - i,
    {
        let b = bytes[i];
        proof {
            assert(digits[i - start] == full[i as int]);
        }
        let dv: usize;
        if b >= 0x30 && b <= 0x39 {
            dv = (b - 0x30) as usize;
        } else if b >= 0x61 && b <= 0x66 {
            dv = (b - 0x61) as usize + 10;
        } else if b >= 0x41 && b <= 0x46 {
            dv = (b - 0x41) as usize + 10;
        } else {
            proof {
                assert(!is_hex_digit(digits[i - start]));
                assert(!all_hex_digits(digits));
            }
            return None;
        }
        proof {
            assert(dv == hex_digit_value(digits[i - start]));
            assert(digits.take(i - start + 1).drop_last() =~= digits.take(i - start));
            assert(digits.take(i - start + 1).last() == digits[i - start]);
            assert(hex_value(digits.take(i - start + 1)) == hex_value(digits.take(i - start)) * 16
                + dv);
        }
        let wide: u128 = (value as u128) * 16 + (dv as u128);
        if wide > (usize::MAX as u128) {
            proof {
                assert(hex_value(digits.take(i - start + 1)) > usize::MAX);
                if all_hex_digits(digits) && hex_value(digits) <= usize::MAX {
                    lemma_hex_value_take_le(digits, i - start + 1);
                    assert(false);
                }
            }
            return None;
        }
        value = wide as usize;
        i = i + 1;
    }
    proof {
        assert(digits.take(n - start) =~= digits);
    }
    Some(value)
}

} // verus!
