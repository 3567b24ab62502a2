//! Building text: numbers in decimal, padded to two digits, and strings
//! put together piece by piece.
use vstd::prelude::*;

verus! {

/// The decimal digit for `d` in `0..10`.
pub open spec fn digit_char(d: int) -> char {
    if d == 0 {
        '0'
    } else if d == 1 {
        '1'
    } else if d == 2 {
        '2'
    } else if d == 3 {
        '3'
    } else if d == 4 {
        '4'
    } else if d == 5 {
        '5'
    } else if d == 6 {
        '6'
    } else if d == 7 {
        '7'
    } else if d == 8 {
        '8'
    } else {
        '9'
    }
}

/// The decimal digits of `n`, without leading zeros ("0" for zero).
pub open spec fn digits(n: nat) -> Seq<char>
    decreases n,
{
    if n < 10 {
        seq![digit_char(n as int)]
    } else {
        digits(n / 10).push(digit_char((n % 10) as int))
    }
}

/// `n` written in decimal, with a minus sign when it is negative, as
/// Rust's `{}` writes an integer.
pub open spec fn decimal(n: int) -> Seq<char> {
    if n < 0 {
        seq!['-'] + digits((-n) as nat)
    } else {
        digits(n as nat)
    }
}

/// `n` in decimal, padded with zeros on the left to at least two
/// characters, as Rust's `{:0>2}` writes it.
pub open spec fn padded2(n: int) -> Seq<char> {
    if decimal(n).len() < 2 {
        seq!['0'] + decimal(n)
    } else {
        decimal(n)
    }
}

pub proof fn lemma_digits_len(n: nat)
    ensures
        digits(n).len() >= 1,
        n < 10 <==> digits(n).len() == 1,
    decreases n,
{
    if n >= 10 {
        lemma_digits_len(n / 10);
    }
}

/// Appends `c` to `s` (`String::push`).
#[verifier::external_body]
fn push_char(s: &mut String, c: char)
    ensures
        final(s)@ == old(s)@.push(c),
{
    s.push(c);
}

fn digit(d: u128) -> (c: char)
    requires
        d < 10,
    ensures
        c == digit_char(d as int),
{
    if d == 0 {
        '0'
    } else if d == 1 {
        '1'
    } else if d == 2 {
        '2'
    } else if d == 3 {
        '3'
    } else if d == 4 {
        '4'
    } else if d == 5 {
        '5'
    } else if d == 6 {
        '6'
    } else if d == 7 {
        '7'
    } else if d == 8 {
        '8'
    } else {
        '9'
    }
}

fn push_digits(s: &mut String, n: u128)
    ensures
        final(s)@ == old(s)@ + digits(n as nat),
    decreases n,
{
    if n >= 10 {
        push_digits(s, n / 10);
    }
    push_char(s, digit(n % 10));
    proof {
        assert(old(s)@ + digits(n as nat) =~= final(s)@) by {
            if n >= 10 {
                assert(digits(n as nat) == digits((n / 10) as nat).push(digit_char((n % 10) as int)));
            }
        }
    }
}

/// Appends `n` in decimal to `s`.
pub fn push_decimal(s: &mut String, n: i128)
    ensures
        final(s)@ == old(s)@ + decimal(n as int),
{
    if n < 0 {
        push_char(s, '-');
        let m: u128 = if n == i128::MIN {
            170141183460469231731687303715884105728u128
        } else {
            (-n) as u128
        };
        push_digits(s, m);
        assert(final(s)@ =~= old(s)@ + decimal(n as int));
    } else {
        push_digits(s, n as u128);
    }
}

/// Appends `n` in decimal, padded with zeros to two characters, to `s`.
pub fn push_padded2(s: &mut String, n: i64)
    ensures
        final(s)@ == old(s)@ + padded2(n as int),
{
    proof {
        if n >= 0 {
            lemma_digits_len(n as nat);
        }
    }
    if 0 <= n && n < 10 {
        push_char(s, '0');
    } else {
        proof {
            if n < 0 {
                lemma_digits_len((-n) as nat);
            }
        }
    }
    push_decimal(s, n as i128);
    assert(final(s)@ =~= old(s)@ + padded2(n as int));
}

/// Appends `piece` to `s`.
pub fn push_str(s: &mut String, piece: &str)
    ensures
        final(s)@ == old(s)@ + piece@,
{
    s.append(piece);
}

/// `n` in decimal.
pub fn decimal_text(n: i64) -> (r: String)
    ensures
        r@ == decimal(n as int),
{
    let mut s = String::new();
    push_decimal(&mut s, n as i128);
    assert(s@ =~= decimal(n as int));
    s
}

} // verus!
