//! Parser for the counters tool's fixed-column report: a header line and
//! one data row, from which the cumulative young and full collection counts
//! and times are read.

use vstd::prelude::*;
use crate::text::{digits_end, digit_val, is_digit, lines_of, num_of, tokens_of, parse_u64, scan_digits, split_lines, split_tokens, to_chars};
use crate::types::GcStats;

verus! {

/// A token that is one unsigned figure: digits only, at least one.
pub open spec fn is_u64_token(t: Seq<char>) -> bool {
    t.len() > 0 && digits_end(t, 0) == t.len()
}

/// A token of the form `digits` or `digits.digits*`.
pub open spec fn is_plain_decimal(t: Seq<char>) -> bool {
    let d = digits_end(t, 0);
    &&& d > 0
    &&& (d == t.len() || (d < t.len() && t[d] == '.' && digits_end(t, d + 1) == t.len()))
}

/// Milliseconds contributed by a fraction column: its first three digits,
/// padded with zeros on the right, further digits truncated.
pub open spec fn frac_ms(f: Seq<char>) -> nat {
    if f.len() == 0 {
        0
    } else if f.len() == 1 {
        digit_val(f[0]) * 100
    } else if f.len() == 2 {
        num_of(f) * 10
    } else {
        num_of(f.subrange(0, 3))
    }
}

/// A seconds figure scaled to whole milliseconds, truncated.
pub open spec fn decimal_ms(t: Seq<char>) -> nat {
    let d = digits_end(t, 0);
    if d == t.len() {
        num_of(t.subrange(0, d)) * 1000
    } else {
        num_of(t.subrange(0, d)) * 1000 + frac_ms(t.subrange(d + 1, t.len() as int))
    }
}

/// The data row carries enough columns, in the expected shapes, with
/// figures that fit the result type.
pub open spec fn gc_row_ok(ts: Seq<Seq<char>>) -> bool {
    &&& ts.len() >= 13
    &&& is_u64_token(ts[6])
    &&& num_of(ts[6]) <= u64::MAX
    &&& is_plain_decimal(ts[7])
    &&& decimal_ms(ts[7]) <= u64::MAX
    &&& is_u64_token(ts[8])
    &&& num_of(ts[8]) <= u64::MAX
    &&& is_plain_decimal(ts[9])
    &&& decimal_ms(ts[9]) <= u64::MAX
}

/// Relies on chrono's `Local::now`: the capture instant as milliseconds
/// since the epoch.  The value depends on the clock, so nothing is assumed
/// of it.
#[verifier::external_body]
pub(crate) fn now_millis() -> i64 {
    chrono::Local::now().timestamp_millis()
}

/// Reads a digits-only column as a figure.
fn read_u64_token(t: &Vec<char>) -> (r: Option<u64>)
    ensures
        match r {
            Some(v) => is_u64_token(t@) && num_of(t@) <= u64::MAX && v == num_of(t@),
            None => !(is_u64_token(t@) && num_of(t@) <= u64::MAX),
        },
{
    let d = scan_digits(t, 0);
    if !(t.len() > 0 && d == t.len()) {
        return None;
    }
    proof {
        crate::text::lemma_digits_end(t@, 0);
        assert(t@.subrange(0, t@.len() as int) =~= t@);
    }
    parse_u64(t, 0, d)
}

/// Reads a seconds column as whole milliseconds, truncated.
fn read_decimal_ms(t: &Vec<char>) -> (r: Option<u64>)
    ensures
        match r {
            Some(v) => is_plain_decimal(t@) && decimal_ms(t@) <= u64::MAX && v == decimal_ms(t@),
            None => !(is_plain_decimal(t@) && decimal_ms(t@) <= u64::MAX),
        },
{
    let d = scan_digits(t, 0);
    proof {
        crate::text::lemma_digits_end(t@, 0);
    }
    if d == 0 {
        return None;
    }
    let frac_start: usize;
    if d == t.len() {
        frac_start = d;
    } else {
        if !(t[d] == '.') {
            return None;
        }
        let d2 = scan_digits(t, d + 1);
        if d2 != t.len() {
            return None;
        }
        proof {
            crate::text::lemma_digits_end(t@, d + 1);
        }
        frac_start = d + 1;
    }
    let whole = match parse_u64(t, 0, d) {
        Some(v) => v,
        None => {
            proof {
                let iv = num_of(t@.subrange(0, d as int));
                assert(iv * 1000 >= iv) by (nonlinear_arith)
                    requires
                        iv >= 0,
                ;
            }
            return None;
        },
    };
    let fl = t.len() - frac_start;
    let frac: u64;
    if fl == 0 {
        frac = 0;
    } else if fl == 1 {
        proof {
            assert(t@.subrange(frac_start as int, t@.len() as int).len() == 1);
            assert(t@.subrange(frac_start as int, t@.len() as int)[0] == t@[frac_start as int]);
            assert(is_digit(t@[frac_start as int]));
        }
        frac = ((t[frac_start] as u32 - 48) as u64) * 100;
        proof {
            assert(frac == digit_val(t@[frac_start as int]) * 100);
        }
    } else if fl == 2 {
        let v2 = match parse_u64(t, frac_start, frac_start + 2) {
            Some(v) => v,
            None => 0,
        };
        proof {
            assert(t@.subrange(frac_start as int, t@.len() as int) =~= t@.subrange(
                frac_start as int,
                frac_start + 2,
            ));
            let f = t@.subrange(frac_start as int, t@.len() as int);
            assert(num_of(f) <= 99) by {
                lemma_two_digits(f);
            }
        }
        frac = v2 * 10;
    } else {
        let v3 = match parse_u64(t, frac_start, frac_start + 3) {
            Some(v) => v,
            None => 0,
        };
        proof {
            assert(t@.subrange(frac_start as int, t@.len() as int).subrange(0, 3) =~= t@.subrange(
                frac_start as int,
                frac_start + 3,
            ));
            let f3 = t@.subrange(frac_start as int, frac_start + 3);
            assert(num_of(f3) <= 999) by {
                lemma_three_digits(f3);
            }
        }
        frac = v3;
    }
    proof {
        assert(frac <= 999);
    }
    match whole.checked_mul(1000) {
        Some(w) => match w.checked_add(frac) {
            Some(v) => Some(v),
            None => None,
        },
        None => {
            proof {
                let iv = num_of(t@.subrange(0, d as int));
                assert(iv * 1000 + frac_ms(t@.subrange(d + 1, t@.len() as int)) >= iv * 1000);
            }
            None
        },
    }
}

/// A two-digit string's figure stays under one hundred.
proof fn lemma_two_digits(f: Seq<char>)
    requires
        f.len() == 2,
    ensures
        num_of(f) <= 99,
{
    assert(num_of(f) == num_of(f.drop_last()) * 10 + digit_val(f.last()));
    assert(num_of(f.drop_last()) == num_of(f.drop_last().drop_last()) * 10 + digit_val(
        f.drop_last().last(),
    ));
    assert(f.drop_last().drop_last().len() == 0);
}

/// A three-digit string's figure stays under one thousand.
proof fn lemma_three_digits(f: Seq<char>)
    requires
        f.len() == 3,
    ensures
        num_of(f) <= 999,
{
    lemma_two_digits(f.drop_last());
    assert(num_of(f) == num_of(f.drop_last()) * 10 + digit_val(f.last()));
}

/// Collection counters from the two-line report: young count and time from
/// the seventh and eighth columns of the data row, full count and time from
/// the ninth and tenth, times scaled from seconds to truncated
/// milliseconds.  The capture timestamp comes from the clock.  Fails when
/// the report has fewer than two lines, too few columns, or a column of the
/// wrong shape.
pub fn parse_gc_stats(output: &str) -> (r: Result<GcStats, String>)
    ensures
        ({
            let ls = lines_of(output@);
            match r {
                Ok(g) => {
                    &&& ls.len() >= 2
                    &&& gc_row_ok(tokens_of(ls[1]))
                    &&& g.young_gc_count == num_of(tokens_of(ls[1])[6])
                    &&& g.young_gc_time_ms == decimal_ms(tokens_of(ls[1])[7])
                    &&& g.old_gc_count == num_of(tokens_of(ls[1])[8])
                    &&& g.old_gc_time_ms == decimal_ms(tokens_of(ls[1])[9])
                },
                Err(_) => ls.len() < 2 || !gc_row_ok(tokens_of(ls[1])),
            }
        }),
{
    let chars = to_chars(output);
    let lines = split_lines(&chars);
    let ghost ls = lines_of(output@);
    if lines.len() < 2 {
        return Err(String::from_str("Invalid jstat output format"));
    }
    let toks = split_tokens(&lines[1]);
    let ghost ts = tokens_of(ls[1]);
    if toks.len() < 13 {
        return Err(String::from_str("Too few values in jstat output"));
    }
    let ygc = match read_u64_token(&toks[6]) {
        Some(v) => v,
        None => {
            return Err(String::from_str("Failed to parse YGC"));
        },
    };
    let ygct = match read_decimal_ms(&toks[7]) {
        Some(v) => v,
        None => {
            return Err(String::from_str("Failed to parse YGCT"));
        },
    };
    let fgc = match read_u64_token(&toks[8]) {
        Some(v) => v,
        None => {
            return Err(String::from_str("Failed to parse FGC"));
        },
    };
    let fgct = match read_decimal_ms(&toks[9]) {
        Some(v) => v,
        None => {
            return Err(String::from_str("Failed to parse FGCT"));
        },
    };
    Ok(
        GcStats {
            young_gc_count: ygc,
            young_gc_time_ms: ygct,
            old_gc_count: fgc,
            old_gc_time_ms: fgct,
            timestamp_ms: now_millis(),
        },
    )
}

} // verus!
