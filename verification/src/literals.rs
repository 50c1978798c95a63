//! Literal text: checked conversion of integer and decimal literal text
//! into 32-bit-width values, and exact string comparison.
//!
//! A literal that is malformed or does not fit the committed width yields
//! `None`; the reducer turns that into a typed diagnostic rather than
//! aborting.

use vstd::prelude::*;

use crate::ast::Decimal;

verus! {

/// Clamp bound for digit accumulation: strictly above every magnitude
/// that fits 32-bit signed width, so clamping never hides a fitting value.
pub const CLAMP: u64 = 10_000_000_000;

/// Numeric value of a decimal digit, or -1 for any other character.
pub open spec fn digit_of(c: char) -> int {
    match c {
        '0' => 0,
        '1' => 1,
        '2' => 2,
        '3' => 3,
        '4' => 4,
        '5' => 5,
        '6' => 6,
        '7' => 7,
        '8' => 8,
        '9' => 9,
        _ => -1,
    }
}

/// Every character of `s` is a decimal digit.
pub open spec fn all_digits(s: Seq<char>) -> bool {
    forall|i: int| 0 <= i < s.len() ==> digit_of(#[trigger] s[i]) >= 0
}

/// The integer a digit string denotes, most significant digit first.
pub open spec fn digits_val(s: Seq<char>) -> int
    decreases s.len(),
{
    if s.len() == 0 {
        0
    } else {
        digits_val(s.drop_last()) * 10 + digit_of(s.last())
    }
}

pub proof fn lemma_digits_val_nonneg(s: Seq<char>)
    requires
        all_digits(s),
    ensures
        digits_val(s) >= 0,
    decreases s.len(),
{
    if s.len() > 0 {
        assert(all_digits(s.drop_last()));
        lemma_digits_val_nonneg(s.drop_last());
    }
}

/// Index of the first `.` in `s`, or -1 if there is none.
pub open spec fn dot_pos(s: Seq<char>) -> int
    decreases s.len(),
{
    if s.len() == 0 {
        -1
    } else if s[0] == '.' {
        0
    } else {
        let r = dot_pos(s.skip(1));
        if r < 0 {
            -1
        } else {
            r + 1
        }
    }
}

/// `dot_pos` finds exactly the first dot: a characterization usable from
/// loops that scan for it.
pub proof fn lemma_dot_pos(s: Seq<char>)
    ensures
        dot_pos(s) == -1 ==> forall|i: int| 0 <= i < s.len() ==> s[i] != '.',
        dot_pos(s) >= 0 ==> dot_pos(s) < s.len() && s[dot_pos(s)] == '.' && forall|i: int|
            0 <= i < dot_pos(s) ==> s[i] != '.',
    decreases s.len(),
{
    if s.len() > 0 && s[0] != '.' {
        let t = s.skip(1);
        lemma_dot_pos(t);
        if dot_pos(t) < 0 {
            assert forall|i: int| 0 <= i < s.len() implies s[i] != '.' by {
                if i > 0 {
                    assert(t[i - 1] == s[i]);
                }
            }
        } else {
            let dp = dot_pos(t) + 1;
            assert(t[dp - 1] == s[dp]);
            assert forall|i: int| 0 <= i < dp implies s[i] != '.' by {
                if i > 0 {
                    assert(t[i - 1] == s[i]);
                }
            }
        }
    }
}

/// If `p` is a dot preceded by no dot, it is `dot_pos`.
pub proof fn lemma_dot_pos_unique(s: Seq<char>, p: int)
    requires
        0 <= p < s.len(),
        s[p] == '.',
        forall|i: int| 0 <= i < p ==> s[i] != '.',
    ensures
        dot_pos(s) == p,
    decreases s.len(),
{
    if p > 0 {
        assert(forall|i: int| 0 <= i < p - 1 ==> s.skip(1)[i] != '.');
        assert(s.skip(1)[p - 1] == '.');
        lemma_dot_pos_unique(s.skip(1), p - 1);
    }
}

/// The signed value of an optional sign followed by one or more digits,
/// if that text is such a literal and its value fits 32-bit signed width.
pub open spec fn spec_str_to_i32(s: Seq<char>) -> Option<i32> {
    let neg = s.len() > 0 && s[0] == '-';
    let ds = if s.len() > 0 && (s[0] == '-' || s[0] == '+') {
        s.skip(1)
    } else {
        s
    };
    if ds.len() > 0 && all_digits(ds) {
        let v: int = if neg {
            -digits_val(ds)
        } else {
            digits_val(ds)
        };
        if i32::MIN <= v <= i32::MAX {
            Some(v as i32)
        } else {
            None
        }
    } else {
        None
    }
}

/// The digit characters of a decimal literal (sign already stripped):
/// everything around the first dot, or the whole text if it has no dot.
pub open spec fn spec_decimal_digits(ds: Seq<char>) -> Seq<char> {
    let dp = dot_pos(ds);
    if dp < 0 {
        ds
    } else {
        ds.take(dp) + ds.skip(dp + 1)
    }
}

/// How many digits of a decimal literal stand after its dot.
pub open spec fn spec_decimal_scale(ds: Seq<char>) -> int {
    let dp = dot_pos(ds);
    if dp < 0 {
        0
    } else {
        ds.len() - dp - 1
    }
}

/// The fixed-point value of an optional sign, digits, at most one dot:
/// mantissa (all digits, signed) and scale (digits after the dot), if the
/// text is such a literal, holds at least one digit, and the mantissa
/// fits 32-bit signed width.
pub open spec fn spec_str_to_decimal(s: Seq<char>) -> Option<Decimal> {
    let neg = s.len() > 0 && s[0] == '-';
    let ds = if s.len() > 0 && (s[0] == '-' || s[0] == '+') {
        s.skip(1)
    } else {
        s
    };
    let digits = spec_decimal_digits(ds);
    if digits.len() > 0 && all_digits(digits) {
        let v: int = if neg {
            -digits_val(digits)
        } else {
            digits_val(digits)
        };
        if i32::MIN <= v <= i32::MAX {
            Some(Decimal { mantissa: v as i32, scale: spec_decimal_scale(ds) as usize })
        } else {
            None
        }
    } else {
        None
    }
}

/// Numeric value of a digit character, -1 for any other character.
pub fn digit_of_char(c: char) -> (d: i32)
    ensures
        d as int == digit_of(c),
{
    match c {
        '0' => 0,
        '1' => 1,
        '2' => 2,
        '3' => 3,
        '4' => 4,
        '5' => 5,
        '6' => 6,
        '7' => 7,
        '8' => 8,
        '9' => 9,
        _ => -1,
    }
}

/// Exact string equality, stated over the views.
pub fn str_eq(a: &str, b: &str) -> (r: bool)
    ensures
        r == (a@ == b@),
{
    let x = a.to_owned();
    let y = b.to_owned();
    x == y
}

/// Accumulates the digits of `s@` from `from` (inclusive) to `to`
/// (exclusive) onto `acc`, clamping at `CLAMP`; fails on a non-digit.
///
/// `pre` is the digit text already accumulated: the clamping invariant is
/// stated against `pre + the digits scanned so far`.
fn accum_digits(s: &str, from: usize, to: usize, acc0: u64, Ghost(pre): Ghost<Seq<char>>) -> (r:
    Option<u64>)
    requires
        from <= to <= s@.len(),
        all_digits(pre),
        acc0 <= CLAMP,
        digits_val(pre) <= CLAMP ==> acc0 == digits_val(pre),
        digits_val(pre) > CLAMP ==> acc0 == CLAMP,
    ensures
        ({
            let whole = pre + s@.subrange(from as int, to as int);
            match r {
                Some(acc) => all_digits(whole) && acc <= CLAMP && (digits_val(whole) <= CLAMP
                    ==> acc == digits_val(whole)) && (digits_val(whole) > CLAMP ==> acc == CLAMP),
                None => !all_digits(whole),
            }
        }),
{
    proof {
        lemma_digits_val_nonneg(pre);
    }
    let mut acc: u64 = acc0;
    let mut j: usize = from;
    while j < to
        invariant
            from <= j <= to <= s@.len(),
            all_digits(pre + s@.subrange(from as int, j as int)),
            acc <= CLAMP,
            digits_val(pre + s@.subrange(from as int, j as int)) <= CLAMP ==> acc == digits_val(
                pre + s@.subrange(from as int, j as int),
            ),
            digits_val(pre + s@.subrange(from as int, j as int)) > CLAMP ==> acc == CLAMP,
        decreases to - j,
    {
        let ghost seen = pre + s@.subrange(from as int, j as int);
        let c = s.get_char(j);
        let d = digit_of_char(c);
        if d < 0 {
            proof {
                let whole = pre + s@.subrange(from as int, to as int);
                assert(whole[pre.len() + (j - from)] == c);
            }
            return None;
        }
        proof {
            lemma_digits_val_nonneg(seen);
            let seen1 = pre + s@.subrange(from as int, j as int + 1);
            assert(seen1.drop_last() =~= seen);
            assert(seen1.last() == c);
            assert forall|m: int| 0 <= m < seen1.len() implies digit_of(#[trigger] seen1[m])
                >= 0 by {
                if m < seen.len() {
                    assert(seen1[m] == seen[m]);
                }
            }
            assert(all_digits(seen1));
        }
        let raw: u64 = acc * 10 + (d as u64);
        if raw > CLAMP {
            acc = CLAMP;
        } else {
            acc = raw;
        }
        j = j + 1;
    }
    Some(acc)
}

/// Checked conversion of integer literal text to a 32-bit signed value:
/// `Some` exactly on an optional sign followed by one or more digits whose
/// signed value fits, `None` otherwise.
pub fn str_to_i32(s: &str) -> (r: Option<i32>)
    ensures
        r == spec_str_to_i32(s@),
{
    let n = s.unicode_len();
    let mut start: usize = 0;
    let mut neg = false;
    if n > 0 {
        let c0 = s.get_char(0);
        if c0 == '-' {
            neg = true;
            start = 1;
        } else if c0 == '+' {
            start = 1;
        }
    }
    let ghost ds: Seq<char> = s@.skip(start as int);
    proof {
        if start == 0 {
            assert(ds =~= s@);
        }
    }
    if start >= n {
        return None;
    }
    let acc = match accum_digits(s, start, n, 0, Ghost(Seq::empty())) {
        Some(a) => a,
        None => {
            proof {
                assert(Seq::<char>::empty() + s@.subrange(start as int, n as int) =~= ds);
            }
            return None;
        },
    };
    proof {
        assert(Seq::<char>::empty() + s@.subrange(start as int, n as int) =~= ds);
        lemma_digits_val_nonneg(ds);
    }
    if neg {
        if acc <= 2147483648 {
            Some((-(acc as i64)) as i32)
        } else {
            None
        }
    } else {
        if acc <= 2147483647 {
            Some(acc as i32)
        } else {
            None
        }
    }
}

/// Checked conversion of decimal literal text to a fixed-point value:
/// `Some` exactly on an optional sign, digits with at most one dot and at
/// least one digit, whose mantissa fits 32-bit signed width; `None`
/// otherwise.
#[verifier::rlimit(80)]
pub fn str_to_decimal(s: &str) -> (r: Option<Decimal>)
    ensures
        r == spec_str_to_decimal(s@),
{
    let n = s.unicode_len();
    let mut start: usize = 0;
    let mut neg = false;
    if n > 0 {
        let c0 = s.get_char(0);
        if c0 == '-' {
            neg = true;
            start = 1;
        } else if c0 == '+' {
            start = 1;
        }
    }
    let ghost ds: Seq<char> = s@.skip(start as int);
    proof {
        if start == 0 {
            assert(ds =~= s@);
        }
    }

    // Find the first dot, if any.
    let mut dot: usize = n;
    let mut has_dot = false;
    let mut j: usize = start;
    while j < n
        invariant
            start <= j <= n,
            n == s@.len(),
            ds == s@.skip(start as int),
            !has_dot ==> forall|m: int| start <= m < j ==> s@[m] != '.',
            !has_dot ==> dot == n,
            has_dot ==> start <= dot < j && s@[dot as int] == '.' && forall|m: int|
                start <= m < dot ==> s@[m] != '.',
        decreases n - j,
    {
        let c = s.get_char(j);
        if c == '.' && !has_dot {
            has_dot = true;
            dot = j;
        }
        j = j + 1;
    }
    proof {
        if has_dot {
            lemma_dot_pos_unique(ds, dot - start);
        } else {
            lemma_dot_pos(ds);
            if dot_pos(ds) >= 0 {
                assert(s@[dot_pos(ds) + start] == '.');
            }
        }
    }

    // Accumulate the digits before and after the dot.
    let ghost ints: Seq<char> = if has_dot {
        ds.take(dot - start)
    } else {
        ds
    };
    let ghost frac: Seq<char> = if has_dot {
        ds.skip(dot - start + 1)
    } else {
        Seq::empty()
    };
    proof {
        assert(spec_decimal_digits(ds) =~= ints + frac);
        if !has_dot {
            assert(Seq::<char>::empty() + s@.subrange(start as int, n as int) =~= ints + frac);
        } else {
            assert(Seq::<char>::empty() + s@.subrange(start as int, dot as int) =~= ints);
        }
    }
    let acc: u64;
    if has_dot {
        let a1 = match accum_digits(s, start, dot, 0, Ghost(Seq::empty())) {
            Some(a) => a,
            None => {
                proof {
                    let whole = Seq::<char>::empty() + s@.subrange(start as int, dot as int);
                    assert(!all_digits(whole));
                    let k = choose|k: int| 0 <= k < whole.len() && digit_of(#[trigger] whole[k])
                        < 0;
                    assert((ints + frac)[k] == whole[k]);
                    assert(digit_of((ints + frac)[k]) < 0);
                    assert(!all_digits(ints + frac));
                }
                return None;
            },
        };
        acc = match accum_digits(s, dot + 1, n, a1, Ghost(ints)) {
            Some(a) => a,
            None => {
                proof {
                    assert(ints + s@.subrange(dot as int + 1, n as int) =~= ints + frac);
                }
                return None;
            },
        };
        proof {
            assert(ints + s@.subrange(dot as int + 1, n as int) =~= ints + frac);
        }
    } else {
        acc = match accum_digits(s, start, n, 0, Ghost(Seq::empty())) {
            Some(a) => a,
            None => {
                return None;
            },
        };
    }
    let digit_count: usize = if has_dot {
        n - start - 1
    } else {
        n - start
    };
    if digit_count == 0 {
        return None;
    }
    let ghost digits = spec_decimal_digits(ds);
    proof {
        assert(digits =~= ints + frac);
        lemma_digits_val_nonneg(digits);
    }
    let scale: usize = if has_dot {
        n - dot - 1
    } else {
        0
    };
    if neg {
        if acc <= 2147483648 {
            Some(Decimal { mantissa: (-(acc as i64)) as i32, scale })
        } else {
            None
        }
    } else {
        if acc <= 2147483647 {
            Some(Decimal { mantissa: acc as i32, scale })
        } else {
            None
        }
    }
}

} // verus!
