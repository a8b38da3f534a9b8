use vstd::prelude::*;
use vstd::arithmetic::div_mod::lemma_fundamental_div_mod;
use vstd::arithmetic::div_mod::lemma_fundamental_div_mod_converse;

verus! {

/// A bound on every temperature the library works in, in tenths of a
/// degree: wide enough for any reading, narrow enough that the
/// conversion arithmetic stays inside `i64`.
pub open spec fn tenths_in_range(t: int) -> bool {
    -10000000000000000 < t < 10000000000000000
}

/// A Celsius reading in tenths of a degree, converted to Fahrenheit in
/// tenths of a degree: nine fifths of it, rounded toward zero, plus
/// 320 tenths.
pub open spec fn spec_c_to_f(c: int) -> int {
    if c >= 0 {
        9 * c / 5 + 320
    } else {
        320 - 9 * (-c) / 5
    }
}

/// Converts a Celsius reading in tenths of a degree to Fahrenheit in
/// tenths of a degree.
pub fn celsius_to_fahrenheit_tenths(c: i64) -> (r: i64)
    requires
        tenths_in_range(c as int),
    ensures
        r == spec_c_to_f(c as int),
        -20000000000000000 <= r <= 20000000000000000,
{
    if c >= 0 {
        let m: u64 = c as u64;
        let f: u64 = m * 9 / 5;
        proof {
            assert(m * 9 == 9 * (c as int));
        }
        (f as i64) + 320
    } else {
        let m: u64 = (-c) as u64;
        let f: u64 = m * 9 / 5;
        proof {
            assert(m * 9 == 9 * (m as int));
        }
        320 - (f as i64)
    }
}

/// On a reading in whole half-degrees (tenths divisible by five) the
/// conversion is exact: five times the Fahrenheit offset from 320
/// tenths is nine times the Celsius reading, with nothing rounded away.
pub proof fn lemma_fahrenheit_exact(c: int)
    requires
        c % 5 == 0,
    ensures
        5 * (spec_c_to_f(c) - 320) == 9 * c,
{
    if c >= 0 {
        lemma_fundamental_div_mod(c, 5);
        let k = c / 5;
        assert(9 * c == (9 * k) * 5 + 0) by (nonlinear_arith)
            requires
                c == 5 * k,
        ;
        lemma_fundamental_div_mod_converse(9 * c, 5, 9 * k, 0);
        assert(5 * (spec_c_to_f(c) - 320) == 5 * (9 * k)) by (nonlinear_arith)
            requires
                spec_c_to_f(c) - 320 == 9 * k,
        ;
        assert(5 * (9 * k) == 9 * c) by (nonlinear_arith)
            requires
                c == 5 * k,
        ;
    } else {
        let m = -c;
        lemma_fundamental_div_mod(c, 5);
        let k = c / 5;
        assert(9 * m == (-(9 * k)) * 5 + 0) by (nonlinear_arith)
            requires
                c == 5 * k && m == -c,
        ;
        lemma_fundamental_div_mod_converse(9 * m, 5, -(9 * k), 0);
        assert(5 * (spec_c_to_f(c) - 320) == 5 * (9 * k)) by (nonlinear_arith)
            requires
                spec_c_to_f(c) - 320 == -(9 * m / 5) && 9 * m / 5 == -(9 * k),
        ;
        assert(5 * (9 * k) == 9 * c) by (nonlinear_arith)
            requires
                c == 5 * k,
        ;
    }
}

} // verus!
