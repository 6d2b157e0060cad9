//! Decimal rendering of unsigned integers, with zero padding to a minimum
//! width, as the timestamp formatter needs it.

use vstd::prelude::*;
use vstd::string::StringExecFns;

verus! {

/// The character for one decimal digit.
pub open spec fn digit_char(d: nat) -> char {
    if d == 0 {
        '0'
    } else if d == 1 {
        '1'
    } else if d == 2 {
        '2'
    } else if d == 3 {
        '3'
    } else if d == 4 {
        '4'
    } else if d == 5 {
        '5'
    } else if d == 6 {
        '6'
    } else if d == 7 {
        '7'
    } else if d == 8 {
        '8'
    } else {
        '9'
    }
}

/// True of the ten decimal digit characters.
pub open spec fn is_digit(c: char) -> bool {
    48 <= c as u32 <= 57
}

/// The decimal rendering of `n`, most significant digit first, no padding.
pub open spec fn spec_decimal(n: nat) -> Seq<char>
    decreases n,
{
    if n < 10 {
        seq![digit_char(n)]
    } else {
        spec_decimal(n / 10).push(digit_char(n % 10))
    }
}

/// The decimal rendering of `n`, left-padded with zeros to at least
/// `width` characters.
pub open spec fn spec_padded(n: nat, width: nat) -> Seq<char>
    decreases width,
{
    if spec_decimal(n).len() >= width {
        spec_decimal(n)
    } else {
        seq!['0'] + spec_padded(n, (width - 1) as nat)
    }
}

/// How many characters the unpadded decimal rendering has, by the size of
/// the value.
pub proof fn lemma_decimal_len(n: nat)
    ensures
        1 <= spec_decimal(n).len(),
        n < 10 ==> spec_decimal(n).len() == 1,
        10 <= n < 100 ==> spec_decimal(n).len() == 2,
        100 <= n < 1000 ==> spec_decimal(n).len() == 3,
        1000 <= n < 10000 ==> spec_decimal(n).len() == 4,
        1000 <= n ==> spec_decimal(n).len() >= 4,
    decreases n,
{
    if n >= 10 {
        lemma_decimal_len(n / 10);
    }
}

/// The character for a digit value is one of the ten digit characters.
pub proof fn lemma_digit_char_is_digit(d: nat)
    requires
        d < 10,
    ensures
        is_digit(digit_char(d)),
{
    assert('0' as u32 == 48);
    assert('1' as u32 == 49);
    assert('2' as u32 == 50);
    assert('3' as u32 == 51);
    assert('4' as u32 == 52);
    assert('5' as u32 == 53);
    assert('6' as u32 == 54);
    assert('7' as u32 == 55);
    assert('8' as u32 == 56);
    assert('9' as u32 == 57);
}

/// Every character of the unpadded decimal rendering is a digit.
pub proof fn lemma_decimal_digits(n: nat)
    ensures
        forall|i: int|
            0 <= i < spec_decimal(n).len() ==> is_digit(#[trigger] spec_decimal(n)[i]),
    decreases n,
{
    if n < 10 {
        lemma_digit_char_is_digit(n);
    } else {
        lemma_decimal_digits(n / 10);
        lemma_digit_char_is_digit(n % 10);
        assert forall|i: int| 0 <= i < spec_decimal(n).len() implies is_digit(
            #[trigger] spec_decimal(n)[i],
        ) by {
            if i < spec_decimal(n / 10).len() {
                assert(spec_decimal(n)[i] == spec_decimal(n / 10)[i]);
            } else {
                assert(spec_decimal(n)[i] == digit_char(n % 10));
            }
        }
    }
}

/// The padded rendering has exactly the asked-for width once the value is
/// small enough, and is made of digits throughout.
pub proof fn lemma_padded(n: nat, width: nat)
    ensures
        spec_padded(n, width).len() == if spec_decimal(n).len() >= width {
            spec_decimal(n).len()
        } else {
            width
        },
        forall|i: int|
            0 <= i < spec_padded(n, width).len() ==> is_digit(#[trigger] spec_padded(n, width)[i]),
    decreases width,
{
    lemma_decimal_digits(n);
    if spec_decimal(n).len() < width {
        lemma_padded(n, (width - 1) as nat);
    }
}

/// The one-character string for a decimal digit.
fn digit_str(d: u64) -> (r: &'static str)
    requires
        d < 10,
    ensures
        r@ == seq![digit_char(d as nat)],
{
    let r: &'static str = if d == 0 {
        "0"
    } else if d == 1 {
        "1"
    } else if d == 2 {
        "2"
    } else if d == 3 {
        "3"
    } else if d == 4 {
        "4"
    } else if d == 5 {
        "5"
    } else if d == 6 {
        "6"
    } else if d == 7 {
        "7"
    } else if d == 8 {
        "8"
    } else {
        "9"
    };
    proof {
        reveal_strlit("0");
        reveal_strlit("1");
        reveal_strlit("2");
        reveal_strlit("3");
        reveal_strlit("4");
        reveal_strlit("5");
        reveal_strlit("6");
        reveal_strlit("7");
        reveal_strlit("8");
        reveal_strlit("9");
        assert(r@ =~= seq![digit_char(d as nat)]);
    }
    r
}

/// Append the decimal rendering of `n` to `s`, without padding.
pub fn push_decimal(s: &mut String, n: u64)
    ensures
        final(s)@ == old(s)@ + spec_decimal(n as nat),
    decreases n,
{
    if n >= 10 {
        push_decimal(s, n / 10);
    }
    s.append(digit_str(n % 10));
    proof {
        assert(s@ =~= old(s)@ + spec_decimal(n as nat));
    }
}

/// Append the decimal rendering of `n`, zero-padded to at least two
/// characters.
pub fn push_padded2(s: &mut String, n: u64)
    ensures
        final(s)@ == old(s)@ + spec_padded(n as nat, 2),
{
    proof {
        lemma_decimal_len(n as nat);
    }
    if n < 10 {
        s.append("0");
        push_decimal(s, n);
        proof {
            reveal_strlit("0");
            assert(spec_padded(n as nat, 1) == spec_decimal(n as nat));
            assert(s@ =~= old(s)@ + spec_padded(n as nat, 2));
        }
    } else {
        push_decimal(s, n);
        proof {
            assert(s@ =~= old(s)@ + spec_padded(n as nat, 2));
        }
    }
}

/// Append the decimal rendering of `n`, zero-padded to at least three
/// characters.
pub fn push_padded3(s: &mut String, n: u64)
    ensures
        final(s)@ == old(s)@ + spec_padded(n as nat, 3),
{
    proof {
        lemma_decimal_len(n as nat);
    }
    if n < 100 {
        s.append("0");
        push_padded2(s, n);
        proof {
            reveal_strlit("0");
            assert(s@ =~= old(s)@ + spec_padded(n as nat, 3));
        }
    } else {
        push_padded2(s, n);
        proof {
            assert(spec_padded(n as nat, 2) == spec_decimal(n as nat));
            assert(s@ =~= old(s)@ + spec_padded(n as nat, 3));
        }
    }
}

/// Append the decimal rendering of `n`, zero-padded to at least four
/// characters.
pub fn push_padded4(s: &mut String, n: u64)
    ensures
        final(s)@ == old(s)@ + spec_padded(n as nat, 4),
{
    proof {
        lemma_decimal_len(n as nat);
    }
    if n < 1000 {
        s.append("0");
        push_padded3(s, n);
        proof {
            reveal_strlit("0");
            assert(s@ =~= old(s)@ + spec_padded(n as nat, 4));
        }
    } else {
        push_padded3(s, n);
        proof {
            assert(spec_padded(n as nat, 3) == spec_decimal(n as nat));
            assert(s@ =~= old(s)@ + spec_padded(n as nat, 4));
        }
    }
}

} // verus!
