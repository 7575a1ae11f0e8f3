//! Rendering of battery levels as decimal text.

use vstd::prelude::*;
use vstd::string::*;
use crate::cli::{digits_value, is_digit, unsigned_decimal};

verus! {

/// The character of a decimal digit `d < 10`.
pub open spec fn digit_char(d: nat) -> char {
    (48 + d) as char
}

/// The decimal representation of `n`, without leading zeros.
pub open spec fn decimal(n: nat) -> Seq<char>
    decreases n,
{
    if n < 10 {
        seq![digit_char(n)]
    } else {
        decimal(n / 10) + seq![digit_char(n % 10)]
    }
}

/// The one-character string of the digit `d`.
fn digit_str(d: u8) -> (s: &'static str)
    requires
        d < 10,
    ensures
        s@ == seq![digit_char(d as nat)],
{
    proof {
        reveal_strlit("0");
        reveal_strlit("1");
        reveal_strlit("2");
        reveal_strlit("3");
        reveal_strlit("4");
        reveal_strlit("5");
        reveal_strlit("6");
        reveal_strlit("7");
        reveal_strlit("8");
        reveal_strlit("9");
    }
    match d {
        0 => "0",
        1 => "1",
        2 => "2",
        3 => "3",
        4 => "4",
        5 => "5",
        6 => "6",
        7 => "7",
        8 => "8",
        _ => "9",
    }
}

/// Appends the decimal representation of `n` to `s`.
pub fn push_decimal(s: &mut String, n: u8)
    ensures
        final(s)@ == old(s)@ + decimal(n as nat),
{
    proof {
        reveal_with_fuel(decimal, 3);
    }
    if n >= 100 {
        s.append(digit_str(n / 100));
        s.append(digit_str((n / 10) % 10));
        s.append(digit_str(n % 10));
        assert(decimal(n as nat) =~= seq![digit_char((n / 100) as nat), digit_char(((n / 10) % 10) as nat), digit_char((n % 10) as nat)]);
    } else if n >= 10 {
        s.append(digit_str(n / 10));
        s.append(digit_str(n % 10));
        assert(decimal(n as nat) =~= seq![digit_char((n / 10) as nat), digit_char((n % 10) as nat)]);
    } else {
        s.append(digit_str(n));
    }
}

/// Each digit character is the ASCII digit of its value, `'0'` to `'9'`.
pub proof fn lemma_digit_char_is_ascii_digit(d: nat)
    requires
        d < 10,
    ensures
        digit_char(d) as nat == 48 + d,
        is_digit(digit_char(d)),
{
}

/// The decimal text of `n` is made of digits, has no leading zero, and
/// reads back to `n`.
pub proof fn lemma_decimal_reads_back(n: nat)
    ensures
        decimal(n).len() > 0,
        forall|i: int| 0 <= i < decimal(n).len() ==> #[trigger] is_digit(decimal(n)[i]),
        digits_value(decimal(n)) == n,
        unsigned_decimal(decimal(n)) == Some(n),
        decimal(n).len() == 1 || decimal(n)[0] != '0',
    decreases n,
{
    lemma_digit_char_is_ascii_digit(n % 10);
    if n >= 10 {
        lemma_decimal_reads_back(n / 10);
        let t = decimal(n);
        assert(t.drop_last() =~= decimal(n / 10));
        assert(t.last() == digit_char(n % 10));
        assert((n / 10) * 10 + n % 10 == n) by (nonlinear_arith);
        assert(digits_value(t) == digits_value(decimal(n / 10)) * 10 + ((t.last() as nat) - 48) as nat);
        assert forall|i: int| 0 <= i < t.len() implies #[trigger] is_digit(t[i]) by {
            if i < t.len() - 1 {
                assert(t[i] == decimal(n / 10)[i]);
            }
        }
        assert(t[0] == decimal(n / 10)[0]);
        if decimal(n / 10).len() == 1 {
            assert(n / 10 < 10) by {
                if n / 10 >= 10 {
                    lemma_decimal_reads_back(n / 100);
                    assert(decimal(n / 10).len() == decimal(n / 10 / 10).len() + 1);
                }
            }
            assert(decimal(n / 10)[0] == digit_char(n / 10));
            lemma_digit_char_is_ascii_digit(n / 10);
        }
    } else {
        let t = decimal(n);
        assert(t.drop_last() =~= Seq::<char>::empty());
        assert(digits_value(t) == digits_value(t.drop_last()) * 10 + ((t.last() as nat) - 48) as nat);
        assert(digits_value(t.drop_last()) == 0);
    }
}

} // verus!
