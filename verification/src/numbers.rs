//! Decimal integers the way `str::parse` reads them, and the `--older-than` duration form.
use vstd::prelude::*;

verus! {

/// Whether `b` is an ASCII decimal digit.
pub open spec fn is_digit(b: u8) -> bool {
    48 <= b <= 57
}

/// Whether every byte is an ASCII decimal digit.
pub open spec fn all_digits(d: Seq<u8>) -> bool {
    forall|i: int| 0 <= i < d.len() ==> is_digit(#[trigger] d[i])
}

/// The number a run of decimal digits spells, most significant first.
pub open spec fn digits_value(d: Seq<u8>) -> nat
    decreases d.len(),
{
    if d.len() == 0 {
        0
    } else {
        digits_value(d.drop_last()) * 10 + ((d.last() - 48) as nat)
    }
}

/// What `str::parse::<u64>` accepts: an optional `+`, then at least one digit, within range.
pub open spec fn std_parse_u64(s: Seq<u8>) -> Option<u64> {
    let d = if s.len() > 0 && s[0] == 43 {
        s.drop_first()
    } else {
        s
    };
    if d.len() == 0 || !all_digits(d) || digits_value(d) > u64::MAX {
        None
    } else {
        Some(digits_value(d) as u64)
    }
}

/// What `str::parse::<i64>` accepts: an optional `+` or `-`, then at least one digit, within
/// the range of `i64`.
pub open spec fn std_parse_i64(s: Seq<u8>) -> Option<i64> {
    if s.len() > 0 && s[0] == 45 {
        let d = s.drop_first();
        if d.len() == 0 || !all_digits(d) || digits_value(d) > 0x8000_0000_0000_0000 {
            None
        } else {
            Some((0 - digits_value(d)) as i64)
        }
    } else {
        let d = if s.len() > 0 && s[0] == 43 {
            s.drop_first()
        } else {
            s
        };
        if d.len() == 0 || !all_digits(d) || digits_value(d) > i64::MAX {
            None
        } else {
            Some(digits_value(d) as i64)
        }
    }
}

proof fn lemma_prefix_value_grows(d: Seq<u8>, i: int, j: int)
    requires
        0 <= i <= j <= d.len(),
        all_digits(d),
    ensures
        digits_value(d.subrange(0, i)) <= digits_value(d.subrange(0, j)),
    decreases j - i,
{
    if i < j {
        lemma_prefix_value_grows(d, i, j - 1);
        assert(d.subrange(0, j).drop_last() =~= d.subrange(0, j - 1));
    }
}

/// The value of a run of digits, when it fits in `u64`.
pub fn digits_u64(d: &[u8], start: usize) -> (value: Option<u64>)
    requires
        start <= d@.len(),
    ensures
        value == (if all_digits(d@.subrange(start as int, d@.len() as int)) && digits_value(
            d@.subrange(start as int, d@.len() as int),
        ) <= u64::MAX {
            Some(digits_value(d@.subrange(start as int, d@.len() as int)) as u64)
        } else {
            None
        }),
{
    let ghost whole = d@.subrange(start as int, d@.len() as int);
    let mut acc: u64 = 0;
    let mut i: usize = start;
    while i < d.len()
        invariant
            start <= i <= d@.len(),
            whole == d@.subrange(start as int, d@.len() as int),
            all_digits(whole.subrange(0, i - start)),
            acc as nat == digits_value(whole.subrange(0, i - start)),
        decreases d.len() - i,
    {
        let b = d[i];
        assert(whole[i - start] == b);
        if b < 48 || b > 57 {
            return None;
        }
        assert(whole.subrange(0, i - start + 1).drop_last() =~= whole.subrange(0, i - start));
        let next = acc.checked_mul(10);
        match next {
            None => {
                proof {
                    if all_digits(whole) {
                        lemma_prefix_value_grows(whole, i - start + 1, whole.len() as int);
                        assert(whole.subrange(0, whole.len() as int) =~= whole);
                    }
                }
                return None;
            },
            Some(m) => {
                match m.checked_add((b - 48) as u64) {
                    None => {
                        proof {
                            if all_digits(whole) {
                                lemma_prefix_value_grows(whole, i - start + 1, whole.len() as int);
                                assert(whole.subrange(0, whole.len() as int) =~= whole);
                            }
                        }
                        return None;
                    },
                    Some(v) => {
                        acc = v;
                    },
                }
            },
        }
        i = i + 1;
        assert(all_digits(whole.subrange(0, i - start)));
    }
    assert(whole.subrange(0, i - start) =~= whole);
    Some(acc)
}

/// `str::parse::<u64>`, on the bytes of the text.
pub fn parse_u64(s: &[u8]) -> (value: Option<u64>)
    ensures
        value == std_parse_u64(s@),
{
    let start: usize = if s.len() > 0 && s[0] == 43 {
        1
    } else {
        0
    };
    assert(s@.subrange(start as int, s@.len() as int) =~= (if s@.len() > 0 && s@[0] == 43 {
        s@.drop_first()
    } else {
        s@
    }));
    if start == s.len() {
        return None;
    }
    digits_u64(s, start)
}

/// `str::parse::<i64>`, on the bytes of the text.
pub fn parse_i64(s: &[u8]) -> (value: Option<i64>)
    ensures
        value == std_parse_i64(s@),
{
    if s.len() > 0 && s[0] == 45 {
        assert(s@.subrange(1, s@.len() as int) =~= s@.drop_first());
        if s.len() == 1 {
            return None;
        }
        match digits_u64(s, 1) {
            None => {
                return None;
            },
            Some(magnitude) => {
                if magnitude > 0x8000_0000_0000_0000 {
                    return None;
                }
                if magnitude == 0x8000_0000_0000_0000 {
                    return Some(i64::MIN);
                }
                let m = magnitude as i64;
                return Some(-m);
            },
        }
    }
    let start: usize = if s.len() > 0 && s[0] == 43 {
        1
    } else {
        0
    };
    assert(s@.subrange(start as int, s@.len() as int) =~= (if s@.len() > 0 && s@[0] == 43 {
        s@.drop_first()
    } else {
        s@
    }));
    if start == s.len() {
        return None;
    }
    match digits_u64(s, start) {
        None => None,
        Some(v) => {
            if v > 0x7fff_ffff_ffff_ffff {
                None
            } else {
                Some(v as i64)
            }
        },
    }
}

} // verus!
