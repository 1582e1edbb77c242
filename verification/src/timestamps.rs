//! UTC timestamps as a build record writes them, `YYYY-MM-DDTHH:MM:SSZ`, read as seconds since
//! the Unix epoch.
use vstd::prelude::*;

verus! {

/// Whether `c` is an ASCII digit.
pub open spec fn is_digit(c: char) -> bool {
    '0' <= c <= '9'
}

/// The value of an ASCII digit.
pub open spec fn digit_value(c: char) -> int {
    c as int - '0' as int
}

/// The two-digit number at `i`.
pub open spec fn two_digits(s: Seq<char>, i: int) -> int {
    digit_value(s[i]) * 10 + digit_value(s[i + 1])
}

/// The four-digit number at `i`.
pub open spec fn four_digits(s: Seq<char>, i: int) -> int {
    two_digits(s, i) * 100 + two_digits(s, i + 2)
}

/// Whether `s` has the shape `DDDD-DD-DDTDD:DD:DDZ`.
pub open spec fn shaped(s: Seq<char>) -> bool {
    &&& s.len() == 20
    &&& forall|i: int| 0 <= i < 20 && i != 4 && i != 7 && i != 10 && i != 13 && i != 16 && i != 19 ==> #[trigger] is_digit(s[i])
    &&& s[4] == '-' && s[7] == '-' && s[10] == 'T' && s[13] == ':' && s[16] == ':' && s[19] == 'Z'
}

/// Whether `y` is a Gregorian leap year.
pub open spec fn leap(y: int) -> bool {
    (y % 4 == 0 && y % 100 != 0) || y % 400 == 0
}

/// The days in month `m` of year `y`.
pub open spec fn month_days(y: int, m: int) -> int {
    if m == 2 {
        if leap(y) {
            29
        } else {
            28
        }
    } else if m == 4 || m == 6 || m == 9 || m == 11 {
        30
    } else {
        31
    }
}

/// The days from 1970-01-01 to the first day of year `y`.
pub open spec fn days_before_year(y: int) -> int
    decreases y - 1970,
{
    if y <= 1970 {
        0
    } else {
        days_before_year(y - 1) + if leap(y - 1) {
            366int
        } else {
            365int
        }
    }
}

/// The days from the first of year `y` to the first of month `m`.
pub open spec fn days_before_month(y: int, m: int) -> int
    decreases m,
{
    if m <= 1 {
        0
    } else {
        days_before_month(y, m - 1) + month_days(y, m - 1)
    }
}

/// Seconds since the epoch of a well-formed UTC timestamp from 1970 on; `None` for anything else.
pub open spec fn utc_seconds(s: Seq<char>) -> Option<int> {
    if !shaped(s) {
        None
    } else {
        let (y, mo, d) = (four_digits(s, 0), two_digits(s, 5), two_digits(s, 8));
        let (h, mi, se) = (two_digits(s, 11), two_digits(s, 14), two_digits(s, 17));
        if y < 1970 || mo < 1 || mo > 12 || d < 1 || d > month_days(y, mo) || h > 23 || mi > 59 || se > 59 {
            None
        } else {
            Some((((days_before_year(y) + days_before_month(y, mo) + d - 1) * 24 + h) * 60 + mi) * 60 + se)
        }
    }
}

proof fn lemma_days_before_year_bound(y: int)
    ensures
        0 <= days_before_year(y),
        y >= 1970 ==> days_before_year(y) <= 366 * (y - 1970),
    decreases y - 1970,
{
    if y > 1970 {
        lemma_days_before_year_bound(y - 1);
    }
}

proof fn lemma_days_before_month_bound(y: int, m: int)
    ensures
        0 <= days_before_month(y, m),
        m >= 1 ==> days_before_month(y, m) <= 31 * (m - 1),
    decreases m,
{
    if m > 1 {
        lemma_days_before_month_bound(y, m - 1);
    }
}

/// A timestamp that reads is never before the epoch.
pub proof fn lemma_utc_seconds_nonnegative(s: Seq<char>)
    ensures
        utc_seconds(s) matches Some(v) ==> v >= 0,
{
    if shaped(s) {
        let y = four_digits(s, 0);
        let mo = two_digits(s, 5);
        lemma_days_before_year_bound(y);
        lemma_days_before_month_bound(y, mo);
        assert(is_digit(s[11]) && is_digit(s[12]) && is_digit(s[14]) && is_digit(s[15]) && is_digit(s[17]) && is_digit(s[18]));
        if let Some(v) = utc_seconds(s) {
            let days = days_before_year(y) + days_before_month(y, mo) + two_digits(s, 8) - 1;
            assert(days >= 0);
            assert(v == ((days * 24 + two_digits(s, 11)) * 60 + two_digits(s, 14)) * 60 + two_digits(s, 17));
            assert(v >= 0) by (nonlinear_arith)
                requires
                    days >= 0,
                    two_digits(s, 11) >= 0,
                    two_digits(s, 14) >= 0,
                    two_digits(s, 17) >= 0,
                    v == ((days * 24 + two_digits(s, 11)) * 60 + two_digits(s, 14)) * 60 + two_digits(s, 17),
            ;
        }
    }
}

fn digit_at(s: &str, i: usize) -> (d: u64)
    requires
        i < s@.len(),
        is_digit(s@[i as int]),
    ensures
        d == digit_value(s@[i as int]),
        d <= 9,
{
    let c = s.get_char(i);
    (c as u32 - '0' as u32) as u64
}

fn two_at(s: &str, i: usize) -> (n: u64)
    requires
        i < 20,
        i + 1 < s@.len(),
        is_digit(s@[i as int]),
        is_digit(s@[i + 1]),
    ensures
        n == two_digits(s@, i as int),
        n <= 99,
{
    digit_at(s, i) * 10 + digit_at(s, i + 1)
}

fn is_leap(y: u64) -> (r: bool)
    ensures
        r == leap(y as int),
{
    (y % 4 == 0 && y % 100 != 0) || y % 400 == 0
}

fn days_in(y: u64, m: u64) -> (d: u64)
    ensures
        d == month_days(y as int, m as int),
        28 <= d <= 31,
{
    if m == 2 {
        if is_leap(y) {
            29
        } else {
            28
        }
    } else if m == 4 || m == 6 || m == 9 || m == 11 {
        30
    } else {
        31
    }
}

fn shape_of(s: &str) -> (ok: bool)
    ensures
        ok == shaped(s@),
{
    if s.unicode_len() != 20 {
        return false;
    }
    let mut i: usize = 0;
    while i < 20
        invariant
            i <= 20,
            s@.len() == 20,
            forall|k: int| 0 <= k < i && k != 4 && k != 7 && k != 10 && k != 13 && k != 16 && k != 19 ==> #[trigger] is_digit(s@[k]),
        decreases 20 - i,
    {
        if i != 4 && i != 7 && i != 10 && i != 13 && i != 16 && i != 19 {
            let c = s.get_char(i);
            if !('0' <= c && c <= '9') {
                assert(!is_digit(s@[i as int]));
                return false;
            }
        }
        i = i + 1;
    }
    s.get_char(4) == '-' && s.get_char(7) == '-' && s.get_char(10) == 'T' && s.get_char(13) == ':'
        && s.get_char(16) == ':' && s.get_char(19) == 'Z'
}

/// Reads a UTC timestamp `YYYY-MM-DDTHH:MM:SSZ` as seconds since the Unix epoch; anything else,
/// including a time before 1970, is `None`.
pub fn parse_rfc3339_utc(text: &str) -> (seconds: Option<u64>)
    ensures
        match seconds {
            Some(v) => utc_seconds(text@) == Some(v as int),
            None => utc_seconds(text@) is None,
        },
{
    if !shape_of(text) {
        return None;
    }
    let y = two_at(text, 0) * 100 + two_at(text, 2);
    let mo = two_at(text, 5);
    let d = two_at(text, 8);
    let h = two_at(text, 11);
    let mi = two_at(text, 14);
    let se = two_at(text, 17);
    assert(y == four_digits(text@, 0));
    if y < 1970 || mo < 1 || mo > 12 || d < 1 || d > days_in(y, mo) || h > 23 || mi > 59 || se > 59 {
        return None;
    }
    let mut days: u64 = 0;
    let mut k: u64 = 1970;
    while k < y
        invariant
            1970 <= k <= y,
            y <= 9999,
            days == days_before_year(k as int),
        decreases y - k,
    {
        proof {
            lemma_days_before_year_bound(k as int);
            lemma_days_before_year_bound(k + 1);
        }
        days = days + if is_leap(k) {
            366
        } else {
            365
        };
        k = k + 1;
    }
    let mut m: u64 = 1;
    let mut within: u64 = 0;
    while m < mo
        invariant
            1 <= m <= mo,
            mo <= 12,
            within == days_before_month(y as int, m as int),
        decreases mo - m,
    {
        proof {
            lemma_days_before_month_bound(y as int, m as int);
        }
        within = within + days_in(y, m);
        m = m + 1;
    }
    proof {
        lemma_days_before_year_bound(y as int);
        lemma_days_before_month_bound(y as int, mo as int);
        assert(days <= 366 * 8029);
        assert(within <= 31 * 11);
    }
    let total_days = days + within + d - 1;
    assert(total_days <= 3000000);
    assert(total_days * 86400 <= 3000000 * 86400) by (nonlinear_arith)
        requires
            total_days <= 3000000,
    ;
    let seconds = ((total_days * 24 + h) * 60 + mi) * 60 + se;
    Some(seconds)
}

} // verus!
