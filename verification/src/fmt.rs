//! Decimal rendering of the integers that appear in the countdown output:
//! plain decimal, two-digit zero-padded fields, and four-digit zero-padded
//! years. Each executable function is proved to produce exactly the
//! character sequence that its spec function describes.

use vstd::prelude::*;

verus! {

/// The decimal digit character for a value in 0..=9.
pub open spec fn digit_char(d: int) -> char {
    if d == 0 {
        '0'
    } else if d == 1 {
        '1'
    } else if d == 2 {
        '2'
    } else if d == 3 {
        '3'
    } else if d == 4 {
        '4'
    } else if d == 5 {
        '5'
    } else if d == 6 {
        '6'
    } else if d == 7 {
        '7'
    } else if d == 8 {
        '8'
    } else {
        '9'
    }
}

/// The decimal rendering of a natural number, most significant digit first,
/// with no leading zeros (except for the number 0 itself).
pub open spec fn dec_seq(n: nat) -> Seq<char>
    decreases n,
{
    if n < 10 {
        seq![digit_char(n as int)]
    } else {
        dec_seq(n / 10) + seq![digit_char((n % 10) as int)]
    }
}

/// The decimal rendering of a value in 0..=99, zero-padded to two digits.
pub open spec fn pad2_seq(n: nat) -> Seq<char> {
    if n < 10 {
        seq!['0'] + dec_seq(n)
    } else {
        dec_seq(n)
    }
}

/// The decimal rendering of a natural number, zero-padded to at least four
/// digits, as the year field of a timestamp is rendered.
pub open spec fn pad4_seq(n: nat) -> Seq<char> {
    if n < 10 {
        seq!['0', '0', '0'] + dec_seq(n)
    } else if n < 100 {
        seq!['0', '0'] + dec_seq(n)
    } else if n < 1000 {
        seq!['0'] + dec_seq(n)
    } else {
        dec_seq(n)
    }
}

/// The rendering of a (possibly negative) year: a minus sign followed by
/// the zero-padded magnitude when negative.
pub open spec fn year_seq(y: int) -> Seq<char> {
    if y < 0 {
        seq!['-'] + pad4_seq((-y) as nat)
    } else {
        pad4_seq(y as nat)
    }
}

/// A piece of text that stays on one line: it contains no newline.
pub open spec fn single_line(s: Seq<char>) -> bool {
    forall|i: int| 0 <= i < s.len() ==> s[i] != '\n'
}

/// A decimal digit character.
pub open spec fn is_digit_char(c: char) -> bool {
    c == '0' || c == '1' || c == '2' || c == '3' || c == '4' || c == '5' || c == '6' || c == '7'
        || c == '8' || c == '9'
}

/// A decimal rendering is never empty, and every character of it is a
/// digit.
pub proof fn lemma_dec_seq_digits(n: nat)
    ensures
        dec_seq(n).len() >= 1,
        forall|i: int| 0 <= i < dec_seq(n).len() ==> #[trigger] is_digit_char(dec_seq(n)[i]),
    decreases n,
{
    if n < 10 {
    } else {
        lemma_dec_seq_digits(n / 10);
        assert forall|i: int| 0 <= i < dec_seq(n).len() implies #[trigger] is_digit_char(
            dec_seq(n)[i],
        ) by {
            if i < dec_seq(n / 10).len() {
                assert(dec_seq(n)[i] == dec_seq(n / 10)[i]);
            } else {
                assert(dec_seq(n)[i] == digit_char((n % 10) as int));
            }
        }
    }
}

/// Every character of a decimal rendering is a digit, so in particular
/// no newline appears in it.
pub proof fn lemma_dec_seq_single_line(n: nat)
    ensures
        single_line(dec_seq(n)),
    decreases n,
{
    if n < 10 {
    } else {
        lemma_dec_seq_single_line(n / 10);
        assert forall|i: int| 0 <= i < dec_seq(n).len() implies #[trigger] dec_seq(n)[i]
            != '\n' by {
            if i < dec_seq(n / 10).len() {
                assert(dec_seq(n)[i] == dec_seq(n / 10)[i]);
            } else {
                assert(dec_seq(n)[i] == digit_char((n % 10) as int));
            }
        }
    }
}

/// A zero-padded two-digit rendering contains no newline either.
pub proof fn lemma_pad2_seq_single_line(n: nat)
    ensures
        single_line(pad2_seq(n)),
{
    lemma_dec_seq_single_line(n);
    if n < 10 {
        assert forall|i: int| 0 <= i < pad2_seq(n).len() implies #[trigger] pad2_seq(n)[i]
            != '\n' by {
            if i == 0 {
                assert(pad2_seq(n)[i] == '0');
            } else {
                assert(pad2_seq(n)[i] == dec_seq(n)[i - 1]);
            }
        }
    }
}

/// A zero-padded four-digit rendering contains no newline.
pub proof fn lemma_pad4_seq_single_line(n: nat)
    ensures
        single_line(pad4_seq(n)),
{
    lemma_dec_seq_single_line(n);
    assert forall|i: int| 0 <= i < pad4_seq(n).len() implies pad4_seq(n)[i] != '\n' by {
        let zeros: int = if n < 10 {
            3
        } else if n < 100 {
            2
        } else if n < 1000 {
            1
        } else {
            0
        };
        if i >= zeros {
            assert(pad4_seq(n)[i] == dec_seq(n)[i - zeros]);
        }
    }
}

/// A year rendering contains no newline.
pub proof fn lemma_year_seq_single_line(y: int)
    ensures
        single_line(year_seq(y)),
{
    if y < 0 {
        lemma_pad4_seq_single_line((-y) as nat);
        assert forall|i: int| 0 <= i < year_seq(y).len() implies year_seq(y)[i] != '\n' by {
            if i >= 1 {
                assert(year_seq(y)[i] == pad4_seq((-y) as nat)[i - 1]);
            }
        }
    } else {
        lemma_pad4_seq_single_line(y as nat);
    }
}

/// The one-character string for a decimal digit.
fn digit_str(d: u64) -> (s: &'static str)
    requires
        d < 10,
    ensures
        s@ == seq![digit_char(d as int)],
{
    let s: &'static str = if d == 0 {
        "0"
    } else if d == 1 {
        "1"
    } else if d == 2 {
        "2"
    } else if d == 3 {
        "3"
    } else if d == 4 {
        "4"
    } else if d == 5 {
        "5"
    } else if d == 6 {
        "6"
    } else if d == 7 {
        "7"
    } else if d == 8 {
        "8"
    } else {
        "9"
    };
    proof {
        reveal_strlit("0");
        reveal_strlit("1");
        reveal_strlit("2");
        reveal_strlit("3");
        reveal_strlit("4");
        reveal_strlit("5");
        reveal_strlit("6");
        reveal_strlit("7");
        reveal_strlit("8");
        reveal_strlit("9");
        assert(s@ =~= seq![digit_char(d as int)]);
    }
    s
}

/// Render a natural number in decimal.
pub fn dec_string(n: u64) -> (s: String)
    ensures
        s@ == dec_seq(n as nat),
    decreases n,
{
    if n < 10 {
        String::from_str(digit_str(n))
    } else {
        proof {
            vstd::arithmetic::div_mod::lemma_div_decreases(n as int, 10);
        }
        let mut s = dec_string(n / 10);
        s.append(digit_str(n % 10));
        s
    }
}

/// Render a value below 100 in decimal, zero-padded to two digits.
pub fn pad2_string(n: u64) -> (s: String)
    requires
        n < 100,
    ensures
        s@ == pad2_seq(n as nat),
{
    if n < 10 {
        let mut s = String::from_str("0");
        proof {
            reveal_strlit("0");
            assert(s@ =~= seq!['0']);
        }
        s.append(digit_str(n));
        s
    } else {
        dec_string(n)
    }
}

/// Render a natural number in decimal, zero-padded to at least four digits.
pub fn pad4_string(n: u64) -> (s: String)
    ensures
        s@ == pad4_seq(n as nat),
{
    if n < 10 {
        let mut s = String::from_str("000");
        proof {
            reveal_strlit("000");
            assert(s@ =~= seq!['0', '0', '0']);
        }
        s.append(dec_string(n).as_str());
        s
    } else if n < 100 {
        let mut s = String::from_str("00");
        proof {
            reveal_strlit("00");
            assert(s@ =~= seq!['0', '0']);
        }
        s.append(dec_string(n).as_str());
        s
    } else if n < 1000 {
        let mut s = String::from_str("0");
        proof {
            reveal_strlit("0");
            assert(s@ =~= seq!['0']);
        }
        s.append(dec_string(n).as_str());
        s
    } else {
        dec_string(n)
    }
}

/// Render a year, with a leading minus sign when it is negative.
pub fn year_string(y: i64) -> (s: String)
    requires
        i64::MIN < y,
    ensures
        s@ == year_seq(y as int),
{
    if y < 0 {
        let mut s = String::from_str("-");
        proof {
            reveal_strlit("-");
            assert(s@ =~= seq!['-']);
        }
        s.append(pad4_string((-y) as u64).as_str());
        s
    } else {
        pad4_string(y as u64)
    }
}

} // verus!
