//! Formatting of a remaining span as the clock string handed to the render
//! sink: `M:SS` under an hour, `H:MM:SS` from an hour up, with whole seconds
//! rounded down and the leading field unpadded.

use vstd::prelude::*;
use vstd::string::StringExecFns;

verus! {

/// The decimal digit character for `d` in 0..10.
pub open spec fn digit_char(d: int) -> char {
    if d == 0 {
        '0'
    } else if d == 1 {
        '1'
    } else if d == 2 {
        '2'
    } else if d == 3 {
        '3'
    } else if d == 4 {
        '4'
    } else if d == 5 {
        '5'
    } else if d == 6 {
        '6'
    } else if d == 7 {
        '7'
    } else if d == 8 {
        '8'
    } else {
        '9'
    }
}

/// The decimal numeral of `n`, most significant digit first, no padding.
pub open spec fn spec_decimal(n: nat) -> Seq<char>
    decreases n,
{
    if n < 10 {
        seq![digit_char(n as int)]
    } else {
        spec_decimal(n / 10) + seq![digit_char((n % 10) as int)]
    }
}

/// The two-digit, zero-padded numeral of `n` in 0..100.
pub open spec fn spec_two_digits(n: int) -> Seq<char> {
    seq![digit_char(n / 10), digit_char(n % 10)]
}

/// The clock string for a non-negative span of `ms` milliseconds: whole
/// seconds rounded down, shown as `M:SS` under an hour and `H:MM:SS` from an
/// hour up.
pub open spec fn spec_clock_string(ms: int) -> Seq<char> {
    let total = ms / 1000;
    let h = total / 3600;
    let m = (total % 3600) / 60;
    let s = total % 60;
    if h > 0 {
        spec_decimal(h as nat) + seq![':'] + spec_two_digits(m) + seq![':'] + spec_two_digits(s)
    } else {
        spec_decimal(m as nat) + seq![':'] + spec_two_digits(s)
    }
}

/// The one-character string for digit `d`.
fn digit_str(d: u64) -> (s: &'static str)
    requires
        d < 10,
    ensures
        s@ =~= seq![digit_char(d as int)],
{
    proof {
        reveal_strlit("0");
        reveal_strlit("1");
        reveal_strlit("2");
        reveal_strlit("3");
        reveal_strlit("4");
        reveal_strlit("5");
        reveal_strlit("6");
        reveal_strlit("7");
        reveal_strlit("8");
        reveal_strlit("9");
    }
    if d == 0 {
        "0"
    } else if d == 1 {
        "1"
    } else if d == 2 {
        "2"
    } else if d == 3 {
        "3"
    } else if d == 4 {
        "4"
    } else if d == 5 {
        "5"
    } else if d == 6 {
        "6"
    } else if d == 7 {
        "7"
    } else if d == 8 {
        "8"
    } else {
        "9"
    }
}

/// The unpadded decimal numeral of `n`.
pub fn decimal_string(n: u64) -> (s: String)
    ensures
        s@ == spec_decimal(n as nat),
    decreases n,
{
    if n < 10 {
        String::from_str(digit_str(n))
    } else {
        let mut s = decimal_string(n / 10);
        s.append(digit_str(n % 10));
        s
    }
}

/// The two-digit, zero-padded numeral of `n` in 0..100.
pub fn two_digit_string(n: u64) -> (s: String)
    requires
        n < 100,
    ensures
        s@ == spec_two_digits(n as int),
{
    let mut s = String::from_str(digit_str(n / 10));
    s.append(digit_str(n % 10));
    proof {
        assert(s@ =~= spec_two_digits(n as int));
    }
    s
}

/// The clock string for a non-negative span of `ms` milliseconds.
pub fn clock_string(ms: i64) -> (s: String)
    requires
        ms >= 0,
    ensures
        s@ == spec_clock_string(ms as int),
{
    let total: u64 = (ms as u64) / 1000;
    let h: u64 = total / 3600;
    let m: u64 = (total % 3600) / 60;
    let sec: u64 = total % 60;
    proof {
        reveal_strlit(":");
        assert(m < 60) by (nonlinear_arith)
            requires
                m == (total % 3600) / 60,
        ;
        assert(sec < 60);
    }
    if h > 0 {
        let mut s = decimal_string(h);
        s.append(":");
        s.append(two_digit_string(m).as_str());
        s.append(":");
        s.append(two_digit_string(sec).as_str());
        proof {
            assert(s@ =~= spec_clock_string(ms as int));
        }
        s
    } else {
        let mut s = decimal_string(m);
        s.append(":");
        s.append(two_digit_string(sec).as_str());
        proof {
            assert(s@ =~= spec_clock_string(ms as int));
        }
        s
    }
}

} // verus!
