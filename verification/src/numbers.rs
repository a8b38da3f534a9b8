use vstd::prelude::*;
use vstd::string::StrSliceExecFns;
use vstd::string::StringExecFns;
use crate::text::find_char;
use crate::text::find_char_at;
use crate::text::lemma_find_char;

verus! {

/// A decimal digit character.
pub open spec fn is_digit(c: char) -> bool {
    48 <= c as u32 <= 57
}

/// The numeric value of a decimal digit character.
pub open spec fn digit_val(c: char) -> int {
    c as u32 - 48
}

/// Every character of `s` is a decimal digit.
pub open spec fn all_digits(s: Seq<char>) -> bool {
    forall|i: int| 0 <= i < s.len() ==> is_digit(#[trigger] s[i])
}

/// The value of a digit string, most significant digit first.
pub open spec fn digits_val(s: Seq<char>) -> int
    decreases s.len(),
{
    if s.len() == 0 {
        0
    } else {
        digits_val(s.drop_last()) * 10 + digit_val(s.last())
    }
}

/// Ten to the `n`th power.
pub open spec fn pow10(n: nat) -> int
    decreases n,
{
    if n == 0 {
        1
    } else {
        10 * pow10((n - 1) as nat)
    }
}

/// A digit string of at most `n` digits is a value below ten to the `n`th.
pub proof fn lemma_digits_val_bound(s: Seq<char>, n: nat)
    requires
        all_digits(s),
        s.len() <= n,
    ensures
        0 <= digits_val(s) < pow10(n),
    decreases n,
{
    if s.len() == 0 {
        lemma_pow10_pos(n);
    } else {
        assert(all_digits(s.drop_last()));
        lemma_digits_val_bound(s.drop_last(), (n - 1) as nat);
    }
}

/// Ten to any power is positive.
pub proof fn lemma_pow10_pos(n: nat)
    ensures
        pow10(n) >= 1,
    decreases n,
{
    if n > 0 {
        lemma_pow10_pos((n - 1) as nat);
    }
}

/// The digit character for a value below ten.
pub open spec fn digit_char(d: int) -> char {
    if d == 0 {
        '0'
    } else if d == 1 {
        '1'
    } else if d == 2 {
        '2'
    } else if d == 3 {
        '3'
    } else if d == 4 {
        '4'
    } else if d == 5 {
        '5'
    } else if d == 6 {
        '6'
    } else if d == 7 {
        '7'
    } else if d == 8 {
        '8'
    } else {
        '9'
    }
}

/// The decimal digit string of a nonnegative value, no sign, no leading
/// zero except for the value zero itself.
pub open spec fn spec_digits(n: int) -> Seq<char>
    decreases n,
{
    if n < 10 {
        seq![digit_char(n)]
    } else {
        spec_digits(n / 10).push(digit_char(n % 10))
    }
}

/// The decimal string of an integer: a minus sign for a negative value,
/// then its digits.
pub open spec fn spec_int_str(n: int) -> Seq<char> {
    if n < 0 {
        seq!['-'] + spec_digits(-n)
    } else {
        spec_digits(n)
    }
}

fn digit_str(d: u64) -> (r: &'static str)
    requires
        d < 10,
    ensures
        r@ == seq![digit_char(d as int)],
{
    let r: &'static str = if d == 0 {
        "0"
    } else if d == 1 {
        "1"
    } else if d == 2 {
        "2"
    } else if d == 3 {
        "3"
    } else if d == 4 {
        "4"
    } else if d == 5 {
        "5"
    } else if d == 6 {
        "6"
    } else if d == 7 {
        "7"
    } else if d == 8 {
        "8"
    } else {
        "9"
    };
    proof {
        reveal_strlit("0");
        reveal_strlit("1");
        reveal_strlit("2");
        reveal_strlit("3");
        reveal_strlit("4");
        reveal_strlit("5");
        reveal_strlit("6");
        reveal_strlit("7");
        reveal_strlit("8");
        reveal_strlit("9");
        assert(r@ =~= seq![digit_char(d as int)]);
    }
    r
}

/// Writes a nonnegative value in decimal.
pub fn fmt_u64(n: u64) -> (r: String)
    ensures
        r@ == spec_digits(n as int),
    decreases n,
{
    if n < 10 {
        digit_str(n).to_owned()
    } else {
        let hi = fmt_u64(n / 10);
        let lo = digit_str(n % 10);
        let r = hi.concat(lo);
        proof {
            assert(r@ =~= spec_digits(n as int));
        }
        r
    }
}

/// Writes an integer in decimal, with a minus sign when it is negative.
pub fn fmt_i64(n: i64) -> (r: String)
    requires
        n > i64::MIN,
    ensures
        r@ == spec_int_str(n as int),
{
    if n < 0 {
        let mag = fmt_u64((-n) as u64);
        let r = String::from_str("-").concat(mag.as_str());
        proof {
            reveal_strlit("-");
            assert(r@ =~= spec_int_str(n as int));
        }
        r
    } else {
        fmt_u64(n as u64)
    }
}

/// The fixed-point decimal text of a count of tenths: a sign when it is
/// negative, the whole units, a dot, and exactly one fractional digit.
pub open spec fn spec_tenths_str(t: int) -> Seq<char> {
    if t < 0 {
        seq!['-'] + spec_digits((-t) / 10) + seq!['.', digit_char((-t) % 10)]
    } else {
        spec_digits(t / 10) + seq!['.', digit_char(t % 10)]
    }
}

/// Writes a count of tenths as a fixed-point decimal with one
/// fractional digit.
pub fn fmt_tenths(t: i64) -> (r: String)
    requires
        t > i64::MIN,
    ensures
        r@ == spec_tenths_str(t as int),
{
    let neg = t < 0;
    let m: u64 = if neg {
        (-t) as u64
    } else {
        t as u64
    };
    let units = fmt_u64(m / 10);
    let frac = digit_str(m % 10);
    let mut r = if neg {
        String::from_str("-")
    } else {
        String::new()
    };
    r.append(units.as_str());
    r.append(".");
    r.append(frac);
    proof {
        reveal_strlit("-");
        reveal_strlit(".");
        assert(r@ =~= spec_tenths_str(t as int));
    }
    r
}

/// Reads the digits of `s` between `from` and `to` as a value, or
/// nothing when a character there is no digit.
fn scan_digits(s: &str, from: usize, to: usize) -> (r: Option<u64>)
    requires
        from <= to <= s@.len(),
        to - from <= 15,
    ensures
        r is Some <==> all_digits(s@.subrange(from as int, to as int)),
        r matches Some(v) ==> v == digits_val(s@.subrange(from as int, to as int)) && v
            < 1000000000000000,
{
    let ghost whole = s@.subrange(from as int, to as int);
    let mut acc: u64 = 0;
    let mut i = from;
    while i < to
        invariant
            from <= i <= to <= s@.len(),
            to - from <= 15,
            whole == s@.subrange(from as int, to as int),
            all_digits(s@.subrange(from as int, i as int)),
            acc == digits_val(s@.subrange(from as int, i as int)),
            acc < pow10((i - from) as nat),
        decreases to - i,
    {
        let c = s.get_char(i);
        let u = c as u32;
        if u < 48 || u > 57 {
            proof {
                assert(whole[i - from] == c);
            }
            return None;
        }
        let d = (u - 48) as u64;
        proof {
            let pre = s@.subrange(from as int, i as int);
            let ext = s@.subrange(from as int, i + 1);
            assert(ext.drop_last() =~= pre);
            assert(ext.last() == c);
            lemma_digits_val_bound(pre, 14);
            assert(pow10(14) == 100000000000000) by {
                reveal_with_fuel(pow10, 16);
            }
        }
        acc = acc * 10 + d;
        i = i + 1;
    }
    proof {
        lemma_digits_val_bound(whole, 15);
        assert(pow10(15) == 1000000000000000) by {
            reveal_with_fuel(pow10, 16);
        }
    }
    Some(acc)
}

/// The unsigned part of a fixed-point decimal, read in tenths: the value
/// of the digits before the first dot, times ten, plus the first digit
/// after the dot. A fraction beyond the first digit must be made of
/// digits but is cut off. Missing digits, a stray character, or more
/// than fifteen integer digits give nothing.
pub open spec fn spec_parse_mag_tenths(s: Seq<char>) -> Option<int> {
    let j = find_char(s, '.', 0);
    if j == s.len() {
        if 1 <= s.len() <= 15 && all_digits(s) {
            Some(10 * digits_val(s))
        } else {
            None
        }
    } else {
        let ip = s.subrange(0, j);
        let fp = s.subrange(j + 1, s.len() as int);
        if 1 <= ip.len() <= 15 && all_digits(ip) && 1 <= fp.len() && all_digits(fp) {
            Some(10 * digits_val(ip) + digit_val(fp[0]))
        } else {
            None
        }
    }
}

/// A fixed-point decimal read in tenths: an optional minus sign, then
/// digits with an optional fraction as `spec_parse_mag_tenths` reads it.
pub open spec fn spec_parse_tenths(s: Seq<char>) -> Option<int> {
    if s.len() > 0 && s[0] == '-' {
        match spec_parse_mag_tenths(s.skip(1)) {
            Some(v) => Some(-v),
            None => None,
        }
    } else {
        spec_parse_mag_tenths(s)
    }
}

fn parse_mag_tenths(s: &str) -> (r: Option<i64>)
    ensures
        r is Some <==> spec_parse_mag_tenths(s@) is Some,
        r matches Some(v) ==> spec_parse_mag_tenths(s@) == Some(v as int) && 0 <= v
            < 10000000000000000,
{
    let n = s.unicode_len();
    let j = find_char_at(s, '.', 0);
    proof {
        lemma_find_char(s@, '.', 0);
    }
    if j == n {
        if n == 0 || n > 15 {
            return None;
        }
        match scan_digits(s, 0, n) {
            Some(v) => {
                proof {
                    assert(s@.subrange(0, n as int) =~= s@);
                }
                Some((10 * v) as i64)
            },
            None => {
                proof {
                    assert(s@.subrange(0, n as int) =~= s@);
                }
                None
            },
        }
    } else {
        if j == 0 || j > 15 || j + 1 == n {
            return None;
        }
        let ip_val = match scan_digits(s, 0, j) {
            Some(v) => v,
            None => {
                return None;
            },
        };
        let fp_ok = check_digits(s, j + 1, n);
        if !fp_ok {
            return None;
        }
        let c = s.get_char(j + 1);
        let d = (c as u32 - 48) as u64;
        proof {
            let fp = s@.subrange(j + 1, n as int);
            assert(fp[0] == s@[j + 1]);
        }
        Some((10 * ip_val + d) as i64)
    }
}

/// True when every character of `s` between `from` and `to` is a digit.
fn check_digits(s: &str, from: usize, to: usize) -> (r: bool)
    requires
        from <= to <= s@.len(),
    ensures
        r == all_digits(s@.subrange(from as int, to as int)),
{
    let ghost whole = s@.subrange(from as int, to as int);
    let mut i = from;
    while i < to
        invariant
            from <= i <= to <= s@.len(),
            whole == s@.subrange(from as int, to as int),
            all_digits(s@.subrange(from as int, i as int)),
        decreases to - i,
    {
        let c = s.get_char(i);
        let u = c as u32;
        if u < 48 || u > 57 {
            proof {
                assert(whole[i - from] == c);
            }
            return false;
        }
        proof {
            let pre = s@.subrange(from as int, i as int);
            let ext = s@.subrange(from as int, i + 1);
            assert(ext.drop_last() =~= pre);
            assert(ext.last() == c);
        }
        i = i + 1;
    }
    proof {
        assert(s@.subrange(from as int, i as int) =~= whole);
    }
    true
}

/// Reads a fixed-point decimal as a signed count of tenths, as
/// `spec_parse_tenths` says, or nothing when the text is no such number.
pub fn parse_tenths(s: &str) -> (r: Option<i64>)
    ensures
        r is Some <==> spec_parse_tenths(s@) is Some,
        r matches Some(v) ==> spec_parse_tenths(s@) == Some(v as int) && -10000000000000000 < v
            < 10000000000000000,
{
    let n = s.unicode_len();
    if n > 0 && s.get_char(0) == '-' {
        let mag = s.substring_char(1, n);
        proof {
            assert(mag@ =~= s@.skip(1));
        }
        match parse_mag_tenths(mag) {
            Some(v) => Some(-v),
            None => None,
        }
    } else {
        parse_mag_tenths(s)
    }
}

/// A plain signed integer: an optional minus sign, then one to fifteen
/// digits and nothing else.
pub open spec fn spec_parse_int(s: Seq<char>) -> Option<int> {
    if s.len() > 0 && s[0] == '-' {
        let mag = s.skip(1);
        if 1 <= mag.len() <= 15 && all_digits(mag) {
            Some(-digits_val(mag))
        } else {
            None
        }
    } else {
        if 1 <= s.len() <= 15 && all_digits(s) {
            Some(digits_val(s))
        } else {
            None
        }
    }
}

/// Reads a plain signed integer, as `spec_parse_int` says, or nothing
/// when the text is no such number.
pub fn parse_int(s: &str) -> (r: Option<i64>)
    ensures
        r is Some <==> spec_parse_int(s@) is Some,
        r matches Some(v) ==> spec_parse_int(s@) == Some(v as int) && -1000000000000000 <= v
            <= 1000000000000000,
{
    let n = s.unicode_len();
    let (neg, start) = if n > 0 && s.get_char(0) == '-' {
        (true, 1usize)
    } else {
        (false, 0usize)
    };
    let ghost mag = if neg {
        s@.skip(1)
    } else {
        s@
    };
    if n - start == 0 || n - start > 15 {
        return None;
    }
    match scan_digits(s, start, n) {
        Some(v) => {
            proof {
                assert(s@.subrange(start as int, n as int) =~= mag);
            }
            if neg {
                Some(-(v as i64))
            } else {
                Some(v as i64)
            }
        },
        None => {
            proof {
                assert(s@.subrange(start as int, n as int) =~= mag);
            }
            None
        },
    }
}

} // verus!
