//! Verified text building.
//!
//! The line-protocol output is assembled character by character on top of
//! two small trusted wrappers around `String` appends; everything above
//! them — decimal, signed and fixed-point rendering — is verified against
//! the spec functions below.

use vstd::prelude::*;
use vstd::string::StrSliceExecFns;

verus! {

/// Relies on `String::push_str`: appends exactly the given characters.
#[verifier::external_body]
pub(crate) fn push_str(out: &mut String, s: &str)
    ensures
        final(out)@ == old(out)@ + s@,
{
    out.push_str(s);
}

/// Relies on `String::push`: appends exactly the given character.
#[verifier::external_body]
pub(crate) fn push_char(out: &mut String, c: char)
    ensures
        final(out)@ == old(out)@.push(c),
{
    out.push(c);
}

/// Whether two strings hold the same characters.
pub fn str_eq(a: &str, b: &str) -> (r: bool)
    ensures
        r == (a@ == b@),
{
    let len = a.unicode_len();
    if len != b.unicode_len() {
        return false;
    }
    let mut i: usize = 0;
    while i < len
        invariant
            i <= len,
            len == a@.len(),
            len == b@.len(),
            forall|j: int| 0 <= j < i ==> a@[j] == b@[j],
        decreases len - i,
    {
        if a.get_char(i) != b.get_char(i) {
            return false;
        }
        i = i + 1;
    }
    proof {
        assert(a@ =~= b@);
    }
    true
}

/// The character of one decimal digit.
pub open spec fn digit_char(d: int) -> char {
    if d == 0 {
        '0'
    } else if d == 1 {
        '1'
    } else if d == 2 {
        '2'
    } else if d == 3 {
        '3'
    } else if d == 4 {
        '4'
    } else if d == 5 {
        '5'
    } else if d == 6 {
        '6'
    } else if d == 7 {
        '7'
    } else if d == 8 {
        '8'
    } else {
        '9'
    }
}

/// The decimal digits of `n`, most significant first, no leading zeros
/// (a single zero for 0).
pub open spec fn dec_str(n: nat) -> Seq<char>
    decreases n,
{
    if n < 10 {
        seq![digit_char(n as int)]
    } else {
        dec_str(n / 10) + seq![digit_char((n % 10) as int)]
    }
}

/// The decimal form of a signed value: a minus sign before the digits of
/// the magnitude.
pub open spec fn int_dec_str(v: int) -> Seq<char> {
    if v < 0 {
        seq!['-'] + dec_str((-v) as nat)
    } else {
        dec_str(v as nat)
    }
}

/// The last `width` decimal digits of `n`, zero-padded on the left: the
/// fractional part of a fixed-point rendering.
pub open spec fn dec_pad(n: nat, width: nat) -> Seq<char>
    decreases width,
{
    if width == 0 {
        Seq::empty()
    } else {
        dec_pad(n / 10, (width - 1) as nat) + seq![digit_char((n % 10) as int)]
    }
}

/// Ten to the `e`.
pub open spec fn pow10(e: nat) -> nat
    decreases e,
{
    if e == 0 {
        1
    } else {
        10 * pow10((e - 1) as nat)
    }
}

/// The fixed-point decimal form of `v / 10^width` with exactly `width`
/// fractional digits: sign, integer part, point, zero-padded fraction.
/// With no fractional digits it is the plain signed decimal.
pub open spec fn scaled_str(v: int, width: nat) -> Seq<char> {
    if width == 0 {
        int_dec_str(v)
    } else {
        let mag = (if v < 0 {
            -v
        } else {
            v
        }) as nat;
        let sign: Seq<char> = if v < 0 {
            seq!['-']
        } else {
            Seq::empty()
        };
        sign + dec_str(mag / pow10(width)) + seq!['.'] + dec_pad(mag, width)
    }
}

proof fn lemma_pow10_pos(e: nat)
    ensures
        pow10(e) >= 1,
    decreases e,
{
    if e > 0 {
        lemma_pow10_pos((e - 1) as nat);
    }
}

/// The digit character of a value below ten.
fn digit_of(d: u64) -> (c: char)
    requires
        d < 10,
    ensures
        c == digit_char(d as int),
{
    if d == 0 {
        '0'
    } else if d == 1 {
        '1'
    } else if d == 2 {
        '2'
    } else if d == 3 {
        '3'
    } else if d == 4 {
        '4'
    } else if d == 5 {
        '5'
    } else if d == 6 {
        '6'
    } else if d == 7 {
        '7'
    } else if d == 8 {
        '8'
    } else {
        '9'
    }
}

/// Appends the decimal digits of `n`.
pub fn push_decimal(out: &mut String, n: u64)
    ensures
        final(out)@ == old(out)@ + dec_str(n as nat),
    decreases n,
{
    if n < 10 {
        let d = digit_of(n);
        push_char(out, d);
        proof {
            assert(old(out)@.push(digit_char(n as int)) =~= old(out)@ + dec_str(n as nat));
        }
    } else {
        push_decimal(out, n / 10);
        let d = digit_of(n % 10);
        push_char(out, d);
        proof {
            assert((old(out)@ + dec_str((n / 10) as nat)).push(digit_char((n % 10) as int)) =~= old(
                out,
            )@ + dec_str(n as nat));
        }
    }
}

/// Appends the last `width` decimal digits of `n`, zero-padded.
pub fn push_decimal_padded(out: &mut String, n: u64, width: u32)
    ensures
        final(out)@ == old(out)@ + dec_pad(n as nat, width as nat),
    decreases width,
{
    if width == 0 {
        proof {
            assert(old(out)@ + dec_pad(n as nat, 0) =~= old(out)@);
        }
        return ;
    }
    push_decimal_padded(out, n / 10, width - 1);
    let d = digit_of(n % 10);
    push_char(out, d);
    proof {
        assert((old(out)@ + dec_pad((n / 10) as nat, (width - 1) as nat)).push(
            digit_char((n % 10) as int),
        ) =~= old(out)@ + dec_pad(n as nat, width as nat));
    }
}

/// Appends the decimal form of a signed value.
pub fn push_signed_decimal(out: &mut String, v: i64)
    ensures
        final(out)@ == old(out)@ + int_dec_str(v as int),
{
    let mag: u64 = if v >= 0 {
        v as u64
    } else {
        (-(v as i128)) as u64
    };
    if v < 0 {
        push_char(out, '-');
        let ghost with_sign = old(out)@.push('-');
        push_decimal(out, mag);
        proof {
            assert(with_sign =~= old(out)@ + seq!['-']);
            assert((old(out)@ + seq!['-']) + dec_str(mag as nat) =~= old(out)@ + int_dec_str(
                v as int,
            ));
        }
    } else {
        push_decimal(out, mag);
    }
}

/// Appends the fixed-point decimal form of `v / 10^width` with exactly
/// `width` fractional digits.
pub fn push_scaled_decimal(out: &mut String, v: i64, width: u32)
    ensures
        final(out)@ == old(out)@ + scaled_str(v as int, width as nat),
{
    if width == 0 {
        push_signed_decimal(out, v);
        return ;
    }
    let mag: u64 = if v >= 0 {
        v as u64
    } else {
        (-(v as i128)) as u64
    };
    let ghost base = out@;
    if v < 0 {
        push_char(out, '-');
        proof {
            assert(base.push('-') =~= base + seq!['-']);
        }
    }
    // The integer part is the magnitude shifted right by `width` decimal
    // digits.
    let mut q: u64 = mag;
    let mut i: u32 = 0;
    proof {
        assert(pow10(0) == 1);
        assert(mag as nat / 1 == mag as nat);
    }
    while i < width
        invariant
            i <= width,
            q == mag as nat / pow10(i as nat),
        decreases width - i,
    {
        proof {
            lemma_pow10_pos(i as nat);
            assert(pow10((i + 1) as nat) == 10 * pow10(i as nat));
            vstd::arithmetic::div_mod::lemma_div_denominator(mag as int, pow10(i as nat) as int, 10);
        }
        q = q / 10;
        i = i + 1;
    }
    push_decimal(out, q);
    push_char(out, '.');
    push_decimal_padded(out, mag, width);
    proof {
        assert(out@ =~= base + scaled_str(v as int, width as nat));
    }
}

} // verus!
