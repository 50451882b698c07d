//! Verified decimal rendering: unsigned integers, and fixed-point values
//! carried as ten-thousandths, printed with exactly four fractional digits.

use vstd::prelude::*;

verus! {

/// The decimal digit character for `d` (digits outside 0..=9 collapse to '9';
/// every use keeps `d` in range).
pub open spec fn digit_char(d: int) -> char {
    if d == 0 {
        '0'
    } else if d == 1 {
        '1'
    } else if d == 2 {
        '2'
    } else if d == 3 {
        '3'
    } else if d == 4 {
        '4'
    } else if d == 5 {
        '5'
    } else if d == 6 {
        '6'
    } else if d == 7 {
        '7'
    } else if d == 8 {
        '8'
    } else {
        '9'
    }
}

/// The decimal digit sequence of `n`, most significant first, without leading
/// zeros (zero itself is the single digit '0').
pub open spec fn dec_seq(n: nat) -> Seq<char>
    decreases n,
{
    if n < 10 {
        seq![digit_char(n as int)]
    } else {
        dec_seq(n / 10) + seq![digit_char((n % 10) as int)]
    }
}

/// The four fractional digits of `f` ten-thousandths, zero-padded.
pub open spec fn pad4_seq(f: int) -> Seq<char> {
    seq![
        digit_char(f / 1000 % 10),
        digit_char(f / 100 % 10),
        digit_char(f / 10 % 10),
        digit_char(f % 10),
    ]
}

/// The rendering of a non-negative count of ten-thousandths: integer part,
/// '.', then exactly four fractional digits.
pub open spec fn fixed4_mag_seq(m: int) -> Seq<char> {
    dec_seq((m / 10000) as nat) + seq!['.'] + pad4_seq(m % 10000)
}

/// The rendering of `v` ten-thousandths, with a leading '-' when negative.
pub open spec fn fixed4_seq(v: int) -> Seq<char> {
    if v < 0 {
        seq!['-'] + fixed4_mag_seq(-v)
    } else {
        fixed4_mag_seq(v)
    }
}

/// The one-character string for digit `d`.
fn digit_str(d: u64) -> (r: &'static str)
    requires
        d < 10,
    ensures
        r@ == seq![digit_char(d as int)],
{
    if d == 0 {
        proof {
            reveal_strlit("0");
            assert(("0")@ =~= seq![digit_char(0)]);
        }
        "0"
    } else if d == 1 {
        proof {
            reveal_strlit("1");
            assert(("1")@ =~= seq![digit_char(1)]);
        }
        "1"
    } else if d == 2 {
        proof {
            reveal_strlit("2");
            assert(("2")@ =~= seq![digit_char(2)]);
        }
        "2"
    } else if d == 3 {
        proof {
            reveal_strlit("3");
            assert(("3")@ =~= seq![digit_char(3)]);
        }
        "3"
    } else if d == 4 {
        proof {
            reveal_strlit("4");
            assert(("4")@ =~= seq![digit_char(4)]);
        }
        "4"
    } else if d == 5 {
        proof {
            reveal_strlit("5");
            assert(("5")@ =~= seq![digit_char(5)]);
        }
        "5"
    } else if d == 6 {
        proof {
            reveal_strlit("6");
            assert(("6")@ =~= seq![digit_char(6)]);
        }
        "6"
    } else if d == 7 {
        proof {
            reveal_strlit("7");
            assert(("7")@ =~= seq![digit_char(7)]);
        }
        "7"
    } else if d == 8 {
        proof {
            reveal_strlit("8");
            assert(("8")@ =~= seq![digit_char(8)]);
        }
        "8"
    } else {
        proof {
            reveal_strlit("9");
            assert(("9")@ =~= seq![digit_char(9)]);
        }
        "9"
    }
}

/// The decimal string of `n`, without leading zeros.
pub fn u64_string(n: u64) -> (r: String)
    ensures
        r@ == dec_seq(n as nat),
    decreases n,
{
    if n < 10 {
        String::from_str(digit_str(n))
    } else {
        let mut s = u64_string(n / 10);
        s.append(digit_str(n % 10));
        proof {
            assert(s@ =~= dec_seq(n as nat));
        }
        s
    }
}

/// The fixed-point string of a non-negative count of ten-thousandths.
fn fixed4_mag_string(m: u64) -> (r: String)
    ensures
        r@ == fixed4_mag_seq(m as int),
{
    let mut s = u64_string(m / 10000);
    proof {
        reveal_strlit(".");
        assert((".")@ =~= seq!['.']);
    }
    s.append(".");
    let f = m % 10000;
    s.append(digit_str(f / 1000 % 10));
    s.append(digit_str(f / 100 % 10));
    s.append(digit_str(f / 10 % 10));
    s.append(digit_str(f % 10));
    proof {
        assert(s@ =~= fixed4_mag_seq(m as int));
    }
    s
}

/// The fixed-point string of `v` ten-thousandths: four fractional digits,
/// a leading '-' when `v` is negative.
pub fn fixed4_string(v: i64) -> (r: String)
    ensures
        r@ == fixed4_seq(v as int),
{
    if v >= 0 {
        fixed4_mag_string(v as u64)
    } else {
        let m: u64 = ((-(v + 1)) as u64) + 1;
        proof {
            assert(m as int == -(v as int));
        }
        proof {
            reveal_strlit("-");
            assert(("-")@ =~= seq!['-']);
        }
        let mut s = String::from_str("-");
        let mag = fixed4_mag_string(m);
        s.append(mag.as_str());
        proof {
            assert(s@ =~= fixed4_seq(v as int));
        }
        s
    }
}

} // verus!
