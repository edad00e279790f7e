//! Numbers written out as text.

use vstd::prelude::*;
use vstd::string::*;

verus! {

/// The character that stands for a digit: `0` to `9`, then lower-case `a`
/// to `f`, which also stands for whatever is above fifteen.
pub open spec fn digit_char(d: nat) -> char {
    if d == 0 {
        '0'
    } else if d == 1 {
        '1'
    } else if d == 2 {
        '2'
    } else if d == 3 {
        '3'
    } else if d == 4 {
        '4'
    } else if d == 5 {
        '5'
    } else if d == 6 {
        '6'
    } else if d == 7 {
        '7'
    } else if d == 8 {
        '8'
    } else if d == 9 {
        '9'
    } else if d == 10 {
        'a'
    } else if d == 11 {
        'b'
    } else if d == 12 {
        'c'
    } else if d == 13 {
        'd'
    } else if d == 14 {
        'e'
    } else {
        'f'
    }
}

/// A number in lower-case hexadecimal, most significant digit first, with
/// no prefix and no leading zero (zero itself is `0`).
pub open spec fn hex_text(n: nat) -> Seq<char>
    decreases n,
{
    if n < 16 {
        seq![digit_char(n)]
    } else {
        hex_text(n / 16).push(digit_char(n % 16))
    }
}

/// A number in decimal, most significant digit first, with no leading zero
/// (zero itself is `0`).
pub open spec fn decimal_text(n: nat) -> Seq<char>
    decreases n,
{
    if n < 10 {
        seq![digit_char(n)]
    } else {
        decimal_text(n / 10).push(digit_char(n % 10))
    }
}

/// Two digits below sixteen with the same character are the same digit.
pub proof fn lemma_digit_char_injective(a: nat, b: nat)
    requires
        a < 16,
        b < 16,
        digit_char(a) == digit_char(b),
    ensures
        a == b,
{
}

pub proof fn lemma_hex_text_nonempty(n: nat)
    ensures
        hex_text(n).len() >= 1,
    decreases n,
{
    if n >= 16 {
        lemma_hex_text_nonempty(n / 16);
    }
}

pub proof fn lemma_decimal_text_nonempty(n: nat)
    ensures
        decimal_text(n).len() >= 1,
    decreases n,
{
    if n >= 10 {
        lemma_decimal_text_nonempty(n / 10);
    }
}

/// Different numbers have different hexadecimal texts.
pub proof fn lemma_hex_text_injective(a: nat, b: nat)
    requires
        hex_text(a) == hex_text(b),
    ensures
        a == b,
    decreases a,
{
    lemma_hex_text_nonempty(a / 16);
    lemma_hex_text_nonempty(b / 16);
    if a < 16 && b < 16 {
        assert(hex_text(a)[0] == digit_char(a));
        assert(hex_text(b)[0] == digit_char(b));
        lemma_digit_char_injective(a, b);
    } else if a >= 16 && b >= 16 {
        let ha = hex_text(a / 16);
        let hb = hex_text(b / 16);
        assert(hex_text(a).len() == hex_text(b).len());
        assert(hex_text(a).last() == hex_text(b).last());
        assert(ha =~= hex_text(a).drop_last());
        assert(hb =~= hex_text(b).drop_last());
        lemma_hex_text_injective(a / 16, b / 16);
        assert(hex_text(a).last() == digit_char(a % 16));
        assert(hex_text(b).last() == digit_char(b % 16));
        lemma_digit_char_injective(a % 16, b % 16);
    } else {
        if a < 16 {
            assert(hex_text(a).len() == 1);
            assert(hex_text(b).len() == hex_text(b / 16).len() + 1);
        } else {
            assert(hex_text(b).len() == 1);
            assert(hex_text(a).len() == hex_text(a / 16).len() + 1);
        }
    }
}

/// Different numbers have different decimal texts.
pub proof fn lemma_decimal_text_injective(a: nat, b: nat)
    requires
        decimal_text(a) == decimal_text(b),
    ensures
        a == b,
    decreases a,
{
    lemma_decimal_text_nonempty(a / 10);
    lemma_decimal_text_nonempty(b / 10);
    if a < 10 && b < 10 {
        assert(decimal_text(a)[0] == digit_char(a));
        assert(decimal_text(b)[0] == digit_char(b));
        lemma_digit_char_injective(a, b);
    } else if a >= 10 && b >= 10 {
        let da = decimal_text(a / 10);
        let db = decimal_text(b / 10);
        assert(decimal_text(a).len() == decimal_text(b).len());
        assert(decimal_text(a).last() == decimal_text(b).last());
        assert(da =~= decimal_text(a).drop_last());
        assert(db =~= decimal_text(b).drop_last());
        lemma_decimal_text_injective(a / 10, b / 10);
        assert(decimal_text(a).last() == digit_char(a % 10));
        assert(decimal_text(b).last() == digit_char(b % 10));
        lemma_digit_char_injective(a % 10, b % 10);
    } else {
        if a < 10 {
            assert(decimal_text(a).len() == 1);
            assert(decimal_text(b).len() == decimal_text(b / 10).len() + 1);
        } else {
            assert(decimal_text(b).len() == 1);
            assert(decimal_text(a).len() == decimal_text(a / 10).len() + 1);
        }
    }
}

/// Whether two texts hold the same characters.
pub fn same_text(a: &str, b: &str) -> (same: bool)
    ensures
        same == (a@ == b@),
{
    String::from_str(a) == String::from_str(b)
}

/// The one-character text of a digit.
pub fn digit_str(d: u8) -> (s: &'static str)
    ensures
        s@ == seq![digit_char(d as nat)],
{
    proof {
        reveal_strlit("0");
        reveal_strlit("1");
        reveal_strlit("2");
        reveal_strlit("3");
        reveal_strlit("4");
        reveal_strlit("5");
        reveal_strlit("6");
        reveal_strlit("7");
        reveal_strlit("8");
        reveal_strlit("9");
        reveal_strlit("a");
        reveal_strlit("b");
        reveal_strlit("c");
        reveal_strlit("d");
        reveal_strlit("e");
        reveal_strlit("f");
    }
    let s = if d == 0 {
        "0"
    } else if d == 1 {
        "1"
    } else if d == 2 {
        "2"
    } else if d == 3 {
        "3"
    } else if d == 4 {
        "4"
    } else if d == 5 {
        "5"
    } else if d == 6 {
        "6"
    } else if d == 7 {
        "7"
    } else if d == 8 {
        "8"
    } else if d == 9 {
        "9"
    } else if d == 10 {
        "a"
    } else if d == 11 {
        "b"
    } else if d == 12 {
        "c"
    } else if d == 13 {
        "d"
    } else if d == 14 {
        "e"
    } else {
        "f"
    };
    assert(s@ =~= seq![digit_char(d as nat)]);
    s
}

/// Writes `n` in lower-case hexadecimal.
pub fn to_hex(n: u64) -> (s: String)
    ensures
        s@ == hex_text(n as nat),
    decreases n,
{
    if n < 16 {
        String::from_str(digit_str(n as u8))
    } else {
        let mut s = to_hex(n / 16);
        s.append(digit_str((n % 16) as u8));
        assert(s@ =~= hex_text(n as nat));
        s
    }
}

/// Writes `n` in decimal.
pub fn to_decimal(n: u64) -> (s: String)
    ensures
        s@ == decimal_text(n as nat),
    decreases n,
{
    if n < 10 {
        String::from_str(digit_str(n as u8))
    } else {
        let mut s = to_decimal(n / 10);
        s.append(digit_str((n % 10) as u8));
        assert(s@ =~= decimal_text(n as nat));
        s
    }
}

} // verus!
