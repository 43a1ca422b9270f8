//! Rendering numbers as text, verified character by character.
//!
//! The engine reports lengths and weights inside identifiers and error
//! messages; these helpers turn fixed-point integers into their decimal
//! spelling, with the spelling itself defined at the spec level.

use vstd::prelude::*;

verus! {

/// The decimal digit character for a value below ten.
pub open spec fn digit_char(d: int) -> char {
    if d == 0 {
        '0'
    } else if d == 1 {
        '1'
    } else if d == 2 {
        '2'
    } else if d == 3 {
        '3'
    } else if d == 4 {
        '4'
    } else if d == 5 {
        '5'
    } else if d == 6 {
        '6'
    } else if d == 7 {
        '7'
    } else if d == 8 {
        '8'
    } else {
        '9'
    }
}

/// The decimal spelling of a natural number, most significant digit first.
pub open spec fn spec_udec(n: int) -> Seq<char>
    decreases n,
{
    if n < 10 {
        seq![digit_char(n)]
    } else {
        spec_udec(n / 10) + seq![digit_char(n % 10)]
    }
}

/// A one-character string holding the digit `d`.
fn digit_str(d: u64) -> (s: &'static str)
    requires
        d < 10,
    ensures
        s@ == seq![digit_char(d as int)],
{
    if d == 0 {
        proof {
            reveal_strlit("0");
            assert("0"@ =~= seq!['0']);
        }
        "0"
    } else if d == 1 {
        proof {
            reveal_strlit("1");
            assert("1"@ =~= seq!['1']);
        }
        "1"
    } else if d == 2 {
        proof {
            reveal_strlit("2");
            assert("2"@ =~= seq!['2']);
        }
        "2"
    } else if d == 3 {
        proof {
            reveal_strlit("3");
            assert("3"@ =~= seq!['3']);
        }
        "3"
    } else if d == 4 {
        proof {
            reveal_strlit("4");
            assert("4"@ =~= seq!['4']);
        }
        "4"
    } else if d == 5 {
        proof {
            reveal_strlit("5");
            assert("5"@ =~= seq!['5']);
        }
        "5"
    } else if d == 6 {
        proof {
            reveal_strlit("6");
            assert("6"@ =~= seq!['6']);
        }
        "6"
    } else if d == 7 {
        proof {
            reveal_strlit("7");
            assert("7"@ =~= seq!['7']);
        }
        "7"
    } else if d == 8 {
        proof {
            reveal_strlit("8");
            assert("8"@ =~= seq!['8']);
        }
        "8"
    } else {
        proof {
            reveal_strlit("9");
            assert("9"@ =~= seq!['9']);
        }
        "9"
    }
}

/// The decimal spelling of `n`; the view equals [`spec_udec`].
pub fn udec_string(n: u64) -> (s: String)
    ensures
        s@ == spec_udec(n as int),
    decreases n,
{
    if n < 10 {
        let s = String::from_str(digit_str(n));
        s
    } else {
        let mut s = udec_string(n / 10);
        s.append(digit_str(n % 10));
        proof {
            assert(s@ =~= spec_udec(n as int));
        }
        s
    }
}

/// The spelling of a fixed-point value scaled by one thousand, with one
/// decimal place: the whole part, a point, and the tenths.  Millimetres
/// become metres, millidegrees become degrees.  Negative values carry a
/// leading minus sign.
pub open spec fn spec_milli_1dp(mm: int) -> Seq<char> {
    if mm < 0 {
        seq!['-'] + spec_milli_1dp_nonneg(-mm)
    } else {
        spec_milli_1dp_nonneg(mm)
    }
}

/// The one-decimal spelling of a nonnegative value scaled by one thousand.
pub open spec fn spec_milli_1dp_nonneg(mm: int) -> Seq<char> {
    spec_udec(mm / 1000) + seq!['.'] + seq![digit_char(mm % 1000 / 100)]
}

/// Spell a value scaled by one thousand with one decimal place.
pub fn milli_1dp_string(mm: i64) -> (s: String)
    requires
        mm != i64::MIN,
    ensures
        s@ == spec_milli_1dp(mm as int),
{
    if mm < 0 {
        proof {
            reveal_strlit("-");
            assert("-"@ =~= seq!['-']);
        }
        let mut s = String::from_str("-");
        let rest = milli_1dp_string_nonneg((-mm) as u64);
        s.append(rest.as_str());
        proof {
            assert(s@ =~= spec_milli_1dp(mm as int));
        }
        s
    } else {
        milli_1dp_string_nonneg(mm as u64)
    }
}

/// Spell a nonnegative value scaled by one thousand with one decimal place.
fn milli_1dp_string_nonneg(mm: u64) -> (s: String)
    ensures
        s@ == spec_milli_1dp_nonneg(mm as int),
{
    let mut s = udec_string(mm / 1000);
    proof {
        reveal_strlit(".");
        assert("."@ =~= seq!['.']);
    }
    s.append(".");
    s.append(digit_str(mm % 1000 / 100));
    proof {
        assert(s@ =~= spec_milli_1dp_nonneg(mm as int));
    }
    s
}

} // verus!
