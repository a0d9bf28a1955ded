use vstd::prelude::*;
use crate::error::Efw2Error;

verus! {

/// The ASCII byte of a decimal digit.
pub open spec fn digit_byte(d: int) -> u8 {
    (48 + d) as u8
}

/// The decimal digit bytes of `n`, most significant first; `0` is `"0"`.
pub open spec fn dec_digits(n: nat) -> Seq<u8>
    decreases n,
{
    if n < 10 {
        seq![digit_byte(n as int)]
    } else {
        dec_digits(n / 10).push(digit_byte((n % 10) as int))
    }
}

/// `n` zero bytes.
pub open spec fn zeros(n: int) -> Seq<u8> {
    if n <= 0 {
        Seq::empty()
    } else {
        Seq::new(n as nat, |i: int| 48u8)
    }
}

/// The full wire form of a monetary field: the cent amount in decimal,
/// zero-padded on the left to exactly `width` bytes.
pub open spec fn num_field(n: nat, width: int) -> Seq<u8> {
    zeros(width - dec_digits(n).len()) + dec_digits(n)
}

/// The decimal digit characters of a digit value.
pub open spec fn digit_char(d: int) -> char {
    if d == 0 {
        '0'
    } else if d == 1 {
        '1'
    } else if d == 2 {
        '2'
    } else if d == 3 {
        '3'
    } else if d == 4 {
        '4'
    } else if d == 5 {
        '5'
    } else if d == 6 {
        '6'
    } else if d == 7 {
        '7'
    } else if d == 8 {
        '8'
    } else {
        '9'
    }
}

/// The decimal digit characters of `n`, most significant first.
pub open spec fn dec_chars(n: nat) -> Seq<char>
    decreases n,
{
    if n < 10 {
        seq![digit_char(n as int)]
    } else {
        dec_chars(n / 10).push(digit_char((n % 10) as int))
    }
}

/// A one-character string slice for a decimal digit.
fn digit_str(d: u8) -> (r: &'static str)
    requires
        d < 10,
    ensures
        r@ == seq![digit_char(d as int)],
{
    proof {
        reveal_strlit("0");
        reveal_strlit("1");
        reveal_strlit("2");
        reveal_strlit("3");
        reveal_strlit("4");
        reveal_strlit("5");
        reveal_strlit("6");
        reveal_strlit("7");
        reveal_strlit("8");
        reveal_strlit("9");
    }
    let r = if d == 0 {
        "0"
    } else if d == 1 {
        "1"
    } else if d == 2 {
        "2"
    } else if d == 3 {
        "3"
    } else if d == 4 {
        "4"
    } else if d == 5 {
        "5"
    } else if d == 6 {
        "6"
    } else if d == 7 {
        "7"
    } else if d == 8 {
        "8"
    } else {
        "9"
    };
    proof {
        assert(r@ =~= seq![digit_char(d as int)]);
    }
    r
}

/// Appends the decimal digit characters of `n` to `out`.
fn push_dec_chars(n: u128, out: &mut String)
    ensures
        final(out)@ == old(out)@ + dec_chars(n as nat),
    decreases n,
{
    if n < 10 {
        out.append(digit_str(n as u8));
    } else {
        push_dec_chars(n / 10, out);
        out.append(digit_str((n % 10) as u8));
    }
}

/// The decimal representation of `n` as a `String`.
pub fn cents_string(n: u128) -> (r: String)
    ensures
        r@ == dec_chars(n as nat),
{
    let mut s = String::new();
    push_dec_chars(n, &mut s);
    proof {
        assert(s@ =~= dec_chars(n as nat));
    }
    s
}

/// Appends the decimal digit bytes of `n` to `out`.
fn push_dec_digits(n: u128, out: &mut Vec<u8>)
    ensures
        final(out)@ == old(out)@ + dec_digits(n as nat),
    decreases n,
{
    if n < 10 {
        out.push(48 + n as u8);
        proof {
            assert(final(out)@ =~= old(out)@ + dec_digits(n as nat));
        }
    } else {
        push_dec_digits(n / 10, out);
        out.push(48 + (n % 10) as u8);
        proof {
            assert(final(out)@ =~= old(out)@ + dec_digits(n as nat));
        }
    }
}

/// Pushes `n` zero bytes onto `out`.
fn push_zeros(out: &mut Vec<u8>, n: usize)
    ensures
        final(out)@ == old(out)@ + zeros(n as int),
{
    let mut i: usize = 0;
    while i < n
        invariant
            i <= n,
            out@ == old(out)@ + zeros(i as int),
        decreases n - i,
    {
        out.push(48u8);
        proof {
            assert(out@ =~= old(out)@ + zeros(i as int + 1));
        }
        i = i + 1;
    }
}

/// Formats a non-negative cent amount into a fixed-width numeric slot of
/// `length` bytes.
///
/// The amount is written in decimal and zero-padded on the left; if its
/// decimal form needs more than `length` digits the call fails with
/// `FieldTooLongError` carrying the decimal value and the allowed width.
pub fn format_number_field(value: u128, length: usize) -> (r: Result<Vec<u8>, Efw2Error>)
    ensures
        r is Ok <==> dec_digits(value as nat).len() <= length,
        (r matches Ok(v) ==> v@ == num_field(value as nat, length as int) && v@.len() == length),
        (r matches Err(e) ==> (e matches Efw2Error::FieldTooLongError { value: v, width: w }
            && v@ == dec_chars(value as nat) && w == length)),
{
    let mut digits: Vec<u8> = Vec::new();
    push_dec_digits(value, &mut digits);
    if digits.len() > length {
        Err(Efw2Error::FieldTooLongError { value: cents_string(value), width: length })
    } else {
        let mut out: Vec<u8> = Vec::new();
        push_zeros(&mut out, length - digits.len());
        let mut i: usize = 0;
        while i < digits.len()
            invariant
                i <= digits.len(),
                digits@ == dec_digits(value as nat),
                digits@.len() <= length,
                out@ == zeros(length - digits@.len()) + digits@.take(i as int),
            decreases digits.len() - i,
        {
            let b: u8 = digits[i];
            out.push(b);
            proof {
                assert(out@ =~= zeros(length as int - digits@.len()) + digits@.take(
                    i as int + 1,
                ));
            }
            i = i + 1;
        }
        proof {
            assert(out@ =~= num_field(value as nat, length as int));
        }
        Ok(out)
    }
}

} // verus!
