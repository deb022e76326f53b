//! Parsers for the reports of the rich local diagnostic tool: version,
//! uptime, flags, heap, thread dump and class histogram.  All are pure
//! text-to-struct functions; their grammars are stated over `Seq<char>`.

use vstd::prelude::*;
use crate::text::{
    chars_eq, digits_end, find_lit_from, is_digit, is_ws, lit_at, lines_of, num_of, tokens_of,
    trim_bounds_of, ws_end, check_lit_at, digit_char, parse_u64, scan_digits, scan_ws,
    split_lines, split_tokens, string_of_chars, to_chars, trim_range, ws_char,
};

verus! {

// ---------------------------------------------------------------------------
// Version report
// ---------------------------------------------------------------------------

/// The version a line reports: on a line whose trimmed form starts with
/// `"JDK "` and that has a second token, that token.
pub open spec fn version_line_opt(l: Seq<char>) -> Option<Seq<char>> {
    let a = trim_bounds_of(l).0;
    let b = trim_bounds_of(l).1;
    if b - a >= 4 && lit_at(l, a, "JDK "@) && tokens_of(l).len() >= 2 {
        Some(tokens_of(l)[1])
    } else {
        None
    }
}

/// The version of the first line that reports one.
pub open spec fn first_version(ls: Seq<Seq<char>>, i: int) -> Option<Seq<char>>
    decreases ls.len() - i,
{
    if i < 0 || i >= ls.len() {
        None
    } else if version_line_opt(ls[i]) is Some {
        version_line_opt(ls[i])
    } else {
        first_version(ls, i + 1)
    }
}

/// Runtime version from the version report: the second token of the first
/// line that, trimmed, starts with `"JDK "`.  Fails when no line does.
pub fn parse_jvm_version(output: &str) -> (r: Result<String, String>)
    ensures
        match r {
            Ok(v) => first_version(lines_of(output@), 0) == Some(v@),
            Err(_) => first_version(lines_of(output@), 0) is None,
        },
{
    let chars = to_chars(output);
    let lines = split_lines(&chars);
    let ghost ls = lines_of(output@);
    let jdk_pat = to_chars("JDK ");
    let mut i: usize = 0;
    loop
        invariant
            i <= lines@.len(),
            ls == lines_of(output@),
            lines@.len() == ls.len(),
            forall|k: int| 0 <= k < ls.len() ==> lines@[k]@ == ls[k],
            jdk_pat@ == "JDK "@,
            first_version(ls, 0) == first_version(ls, i as int),
        decreases lines@.len() - i,
    {
        if i >= lines.len() {
            return Err(String::from_str("Failed to parse JVM version"));
        }
        let line = &lines[i];
        let (a, b) = trim_range(line);
        if b - a >= 4 && check_lit_at(line, a, &jdk_pat) {
            let toks = split_tokens(line);
            if toks.len() >= 2 {
                let v = string_of_chars(&toks[1]);
                proof {
                    assert(version_line_opt(ls[i as int]) == Some(v@));
                }
                return Ok(v);
            }
        }
        proof {
            assert(version_line_opt(ls[i as int]) is None);
        }
        i = i + 1;
    }
}

// ---------------------------------------------------------------------------
// Uptime report
// ---------------------------------------------------------------------------

/// A decimal of the form `digits '.' digits`, then whitespace, then `s`,
/// starts at position `i`.
pub open spec fn uptime_match_at(l: Seq<char>, i: int) -> bool {
    &&& 0 <= i < l.len()
    &&& is_digit(l[i])
    &&& {
        let d1 = digits_end(l, i);
        &&& d1 < l.len()
        &&& l[d1] == '.'
        &&& {
            let d2 = digits_end(l, d1 + 1);
            &&& d2 > d1 + 1
            &&& {
                let w = ws_end(l, d2);
                &&& w > d2
                &&& w < l.len()
                &&& l[w] == 's'
            }
        }
    }
}

/// Least position at which the uptime pattern matches, or -1.
pub open spec fn uptime_find(l: Seq<char>, i: int) -> int
    decreases l.len() - i,
{
    if i < 0 || i >= l.len() {
        -1
    } else if uptime_match_at(l, i) {
        i
    } else {
        uptime_find(l, i + 1)
    }
}

/// Whole seconds a line reports: the integer part of the first
/// seconds-with-fraction figure on it.
pub open spec fn uptime_secs_of_line(l: Seq<char>) -> Option<nat> {
    let j = uptime_find(l, 0);
    if j >= 0 {
        Some(num_of(l.subrange(j, digits_end(l, j))))
    } else {
        None
    }
}

/// The seconds figure of the first line that carries one.
pub open spec fn first_uptime(ls: Seq<Seq<char>>, i: int) -> Option<nat>
    decreases ls.len() - i,
{
    if i < 0 || i >= ls.len() {
        None
    } else if uptime_secs_of_line(ls[i]) is Some {
        uptime_secs_of_line(ls[i])
    } else {
        first_uptime(ls, i + 1)
    }
}

/// Does the uptime pattern match at `i`?
fn uptime_check_at(l: &Vec<char>, i: usize) -> (b: bool)
    requires
        i < l@.len(),
    ensures
        b == uptime_match_at(l@, i as int),
{
    if !digit_char(l[i]) {
        return false;
    }
    let d1 = scan_digits(l, i);
    if !(d1 < l.len() && l[d1] == '.') {
        return false;
    }
    let d2 = scan_digits(l, d1 + 1);
    if !(d2 > d1 + 1) {
        return false;
    }
    let w = scan_ws(l, d2);
    w > d2 && w < l.len() && l[w] == 's'
}

/// Uptime in whole seconds from the uptime report: the integer part of the
/// first `seconds.fraction s` figure found, scanning lines first to last.
/// A figure too large for the result type saturates.  Fails when no line
/// carries the pattern.
pub fn parse_vm_uptime(output: &str) -> (r: Result<u64, String>)
    ensures
        match r {
            Ok(v) => {
                &&& first_uptime(lines_of(output@), 0) is Some
                &&& {
                    let n = first_uptime(lines_of(output@), 0)->Some_0;
                    v == if n <= u64::MAX {
                        n as u64
                    } else {
                        u64::MAX
                    }
                }
            },
            Err(_) => first_uptime(lines_of(output@), 0) is None,
        },
{
    let chars = to_chars(output);
    let lines = split_lines(&chars);
    let ghost ls = lines_of(output@);
    let mut i: usize = 0;
    loop
        invariant
            i <= lines@.len(),
            ls == lines_of(output@),
            lines@.len() == ls.len(),
            forall|k: int| 0 <= k < ls.len() ==> lines@[k]@ == ls[k],
            first_uptime(ls, 0) == first_uptime(ls, i as int),
        decreases lines@.len() - i,
    {
        if i >= lines.len() {
            return Err(String::from_str("Failed to parse VM uptime"));
        }
        let line = &lines[i];
        let mut j: usize = 0;
        loop
            invariant
                j <= line@.len(),
                uptime_find(line@, 0) == uptime_find(line@, j as int),
            ensures
                uptime_find(line@, 0) == uptime_find(line@, j as int),
                j as int == uptime_find(line@, 0) || (j == line@.len() && uptime_find(line@, 0)
                    == -1),
            decreases line@.len() - j,
        {
            if j >= line.len() {
                break;
            }
            if uptime_check_at(line, j) {
                break;
            }
            j = j + 1;
        }
        if j < line.len() {
            let d1 = scan_digits(line, j);
            proof {
                crate::text::lemma_digits_end(line@, j as int);
                assert(uptime_secs_of_line(ls[i as int]) == Some(
                    num_of(line@.subrange(j as int, d1 as int)),
                ));
            }
            let v = match parse_u64(line, j, d1) {
                Some(v) => v,
                None => u64::MAX,
            };
            return Ok(v);
        }
        proof {
            assert(uptime_secs_of_line(ls[i as int]) is None);
        }
        i = i + 1;
    }
}

// ---------------------------------------------------------------------------
// Flags report
// ---------------------------------------------------------------------------

/// A line that bears a VM-flag marker.
pub open spec fn flag_line(l: Seq<char>) -> bool {
    find_lit_from(l, 0, "-XX:"@) >= 0 || find_lit_from(l, 0, "-Xms"@) >= 0 || find_lit_from(
        l,
        0,
        "-Xmx"@,
    ) >= 0
}

/// The tokens among `ts[i..]` that start with a dash.
pub open spec fn dash_tokens(ts: Seq<Seq<char>>, i: int) -> Seq<Seq<char>>
    decreases ts.len() - i,
{
    if i < 0 || i >= ts.len() {
        Seq::empty()
    } else if ts[i].len() > 0 && ts[i][0] == '-' {
        seq![ts[i]] + dash_tokens(ts, i + 1)
    } else {
        dash_tokens(ts, i + 1)
    }
}

/// The flags a line contributes: every dash-prefixed token, but only on
/// lines bearing a flag marker.
pub open spec fn line_flags(l: Seq<char>) -> Seq<Seq<char>> {
    if flag_line(l) {
        dash_tokens(tokens_of(l), 0)
    } else {
        Seq::empty()
    }
}

/// All flags of the report, in line order then token order.
pub open spec fn flags_from(ls: Seq<Seq<char>>, i: int) -> Seq<Seq<char>>
    decreases ls.len() - i,
{
    if i < 0 || i >= ls.len() {
        Seq::empty()
    } else {
        line_flags(ls[i]) + flags_from(ls, i + 1)
    }
}

/// Active VM flags from the flags report: every dash-prefixed token on lines
/// bearing a flag marker.  Fails when that yields no flags at all, so an
/// unrecognized report is never a silent empty success.
pub fn parse_vm_flags(output: &str) -> (r: Result<Vec<String>, String>)
    ensures
        match r {
            Ok(v) => {
                &&& v@.len() == flags_from(lines_of(output@), 0).len()
                &&& v@.len() > 0
                &&& forall|k: int|
                    0 <= k < v@.len() ==> v@[k]@ == flags_from(lines_of(output@), 0)[k]
            },
            Err(_) => flags_from(lines_of(output@), 0).len() == 0,
        },
{
    let chars = to_chars(output);
    let lines = split_lines(&chars);
    let ghost ls = lines_of(output@);
    let xx_pat = to_chars("-XX:");
    let xms_pat = to_chars("-Xms");
    let xmx_pat = to_chars("-Xmx");
    let mut out: Vec<String> = Vec::new();
    let mut i: usize = 0;
    loop
        invariant
            i <= lines@.len(),
            ls == lines_of(output@),
            lines@.len() == ls.len(),
            forall|k: int| 0 <= k < ls.len() ==> lines@[k]@ == ls[k],
            xx_pat@ == "-XX:"@,
            xms_pat@ == "-Xms"@,
            xmx_pat@ == "-Xmx"@,
            flags_from(ls, 0).len() == out@.len() + flags_from(ls, i as int).len(),
            forall|k: int| 0 <= k < out@.len() ==> out@[k]@ == flags_from(ls, 0)[k],
            forall|k: int|
                0 <= k < flags_from(ls, i as int).len() ==> flags_from(ls, i as int)[k]
                    == flags_from(ls, 0)[out@.len() + k],
        ensures
            ls == lines_of(output@),
            out@.len() == flags_from(ls, 0).len(),
            forall|k: int| 0 <= k < out@.len() ==> out@[k]@ == flags_from(ls, 0)[k],
        decreases lines@.len() - i,
    {
        if i >= lines.len() {
            proof {
                assert(flags_from(ls, i as int) =~= Seq::<Seq<char>>::empty());
            }
            break;
        }
        let line = &lines[i];
        let marked = match crate::text::find_lit(line, 0, &xx_pat) {
            Some(_) => true,
            None => match crate::text::find_lit(line, 0, &xms_pat) {
                Some(_) => true,
                None => match crate::text::find_lit(line, 0, &xmx_pat) {
                    Some(_) => true,
                    None => false,
                },
            },
        };
        proof {
            assert(marked == flag_line(ls[i as int]));
        }
        if marked {
            let toks = split_tokens(line);
            let ghost ts = tokens_of(line@);
            let ghost base = out@.len() as int;
            let mut t: usize = 0;
            loop
                invariant
                    t <= toks@.len(),
                    toks@.len() == ts.len(),
                    forall|k: int| 0 <= k < ts.len() ==> toks@[k]@ == ts[k],
                    0 <= base <= out@.len(),
                    line_flags(ls[i as int]) == dash_tokens(ts, 0),
                    dash_tokens(ts, 0).len() == (out@.len() - base) + dash_tokens(
                        ts,
                        t as int,
                    ).len(),
                    forall|k: int| 0 <= k < base ==> out@[k]@ == flags_from(ls, 0)[k],
                    forall|k: int|
                        base <= k < out@.len() ==> out@[k]@ == dash_tokens(ts, 0)[k - base],
                    forall|k: int|
                        0 <= k < dash_tokens(ts, t as int).len() ==> dash_tokens(ts, t as int)[k]
                            == dash_tokens(ts, 0)[(out@.len() - base) + k],
                ensures
                    0 <= base <= out@.len(),
                    line_flags(ls[i as int]) == dash_tokens(ts, 0),
                    dash_tokens(ts, 0).len() == out@.len() - base,
                    forall|k: int| 0 <= k < base ==> out@[k]@ == flags_from(ls, 0)[k],
                    forall|k: int|
                        base <= k < out@.len() ==> out@[k]@ == dash_tokens(ts, 0)[k - base],
                decreases toks@.len() - t,
            {
                if t >= toks.len() {
                    proof {
                        assert(dash_tokens(ts, t as int) =~= Seq::<Seq<char>>::empty());
                    }
                    break;
                }
                let tok = &toks[t];
                if tok.len() > 0 && tok[0] == '-' {
                    let ghost pre = dash_tokens(ts, t as int);
                    proof {
                        assert(pre =~= seq![ts[t as int]] + dash_tokens(ts, t + 1));
                        assert(pre[0] == ts[t as int]);
                        assert(dash_tokens(ts, t as int)[0] == dash_tokens(ts, 0)[(out@.len()
                            - base) + 0]);
                        assert forall|k: int|
                            0 <= k < dash_tokens(ts, t + 1).len() implies #[trigger] dash_tokens(
                            ts,
                            t + 1,
                        )[k] == dash_tokens(ts, 0)[(out@.len() - base) + 1 + k] by {
                            assert(dash_tokens(ts, t + 1)[k] == pre[1 + k]);
                        }
                    }
                    let flag = string_of_chars(tok);
                    let ghost prev_out = out@;
                    out.push(flag);
                    proof {
                        assert forall|k: int| base <= k < out@.len() implies out@[k]@
                            == dash_tokens(ts, 0)[k - base] by {
                            if k < prev_out.len() {
                                assert(out@[k] == prev_out[k]);
                                assert(prev_out[k]@ == dash_tokens(ts, 0)[k - base]);
                            } else {
                                assert(out@[k] == flag);
                                assert(dash_tokens(ts, t as int)[0] == dash_tokens(ts, 0)[(
                                prev_out.len() - base) + 0]);
                            }
                        }
                    }
                } else {
                    proof {
                        assert(dash_tokens(ts, t as int) =~= dash_tokens(ts, t + 1));
                    }
                }
                t = t + 1;
            }
            proof {
                assert(flags_from(ls, i as int) =~= line_flags(ls[i as int]) + flags_from(
                    ls,
                    i + 1,
                ));
                assert forall|k: int| base <= k < out@.len() implies out@[k]@ == flags_from(
                    ls,
                    0,
                )[k] by {
                    assert(out@[k]@ == dash_tokens(ts, 0)[k - base]);
                    assert(flags_from(ls, i as int)[k - base] == line_flags(ls[i as int])[k
                        - base]);
                    assert(flags_from(ls, i as int)[k - base] == flags_from(ls, 0)[base + (k
                        - base)]);
                }
                assert forall|k: int|
                    0 <= k < flags_from(ls, i + 1).len() implies #[trigger] flags_from(ls, i + 1)[k]
                    == flags_from(ls, 0)[out@.len() + k] by {
                    assert(flags_from(ls, i as int)[line_flags(ls[i as int]).len() + k]
                        == flags_from(ls, i + 1)[k]);
                    assert(flags_from(ls, i as int)[line_flags(ls[i as int]).len() + k]
                        == flags_from(ls, 0)[base + line_flags(ls[i as int]).len() + k]);
                }
            }
        } else {
            proof {
                assert(flags_from(ls, i as int) =~= line_flags(ls[i as int]) + flags_from(
                    ls,
                    i + 1,
                ));
                assert(line_flags(ls[i as int]).len() == 0);
                assert forall|k: int|
                    0 <= k < flags_from(ls, i + 1).len() implies #[trigger] flags_from(ls, i + 1)[k]
                    == flags_from(ls, 0)[out@.len() + k] by {
                    assert(flags_from(ls, i as int)[line_flags(ls[i as int]).len() + k]
                        == flags_from(ls, i + 1)[k]);
                }
            }
        }
        i = i + 1;
    }
    if out.len() == 0 {
        return Err(String::from_str("No VM flags found"));
    }
    Ok(out)
}

// ---------------------------------------------------------------------------
// Heap report
// ---------------------------------------------------------------------------

/// `total`, whitespace, digits, `K,`, whitespace, `used`, whitespace,
/// digits, `K`, starting at `i`.
pub open spec fn heap_pair_at(l: Seq<char>, i: int) -> bool {
    &&& lit_at(l, i, "total"@)
    &&& {
        let w1 = ws_end(l, i + 5);
        &&& w1 > i + 5
        &&& {
            let d1 = digits_end(l, w1);
            &&& d1 > w1
            &&& lit_at(l, d1, "K,"@)
            &&& {
                let w2 = ws_end(l, d1 + 2);
                &&& w2 > d1 + 2
                &&& lit_at(l, w2, "used"@)
                &&& {
                    let w3 = ws_end(l, w2 + 4);
                    &&& w3 > w2 + 4
                    &&& {
                        let d2 = digits_end(l, w3);
                        &&& d2 > w3
                        &&& d2 < l.len()
                        &&& l[d2] == 'K'
                    }
                }
            }
        }
    }
}

/// The total figure (kibibytes) of the pair at `i`.
pub open spec fn heap_pair_max_kb(l: Seq<char>, i: int) -> nat {
    let w1 = ws_end(l, i + 5);
    num_of(l.subrange(w1, digits_end(l, w1)))
}

/// The used figure (kibibytes) of the pair at `i`.
pub open spec fn heap_pair_used_kb(l: Seq<char>, i: int) -> nat {
    let w1 = ws_end(l, i + 5);
    let d1 = digits_end(l, w1);
    let w2 = ws_end(l, d1 + 2);
    let w3 = ws_end(l, w2 + 4);
    num_of(l.subrange(w3, digits_end(l, w3)))
}

/// Least position at which the total/used pair matches, or -1.
pub open spec fn heap_pair_find(l: Seq<char>, i: int) -> int
    decreases l.len() - i,
{
    if i < 0 || i >= l.len() {
        -1
    } else if heap_pair_at(l, i) {
        i
    } else {
        heap_pair_find(l, i + 1)
    }
}

/// The total/used pair a line reports, in kibibytes.
pub open spec fn heap_pair_of(l: Seq<char>) -> Option<(nat, nat)> {
    let j = heap_pair_find(l, 0);
    if j >= 0 {
        Some((heap_pair_max_kb(l, j), heap_pair_used_kb(l, j)))
    } else {
        None
    }
}

/// The pair of the last line that reports one: a later report supersedes an
/// earlier one.
pub open spec fn last_heap_pair(ls: Seq<Seq<char>>) -> Option<(nat, nat)>
    decreases ls.len(),
{
    if ls.len() == 0 {
        None
    } else if heap_pair_of(ls.last()) is Some {
        heap_pair_of(ls.last())
    } else {
        last_heap_pair(ls.drop_last())
    }
}

/// `used`, ws, digits, `K,`, ws, `committed`, ws, digits, `K,`, ws,
/// `reserved`, ws, digits, `K`, starting at `i`.
pub open spec fn triple_at(l: Seq<char>, i: int) -> bool {
    &&& lit_at(l, i, "used"@)
    &&& {
        let w1 = ws_end(l, i + 4);
        &&& w1 > i + 4
        &&& {
            let d1 = digits_end(l, w1);
            &&& d1 > w1
            &&& lit_at(l, d1, "K,"@)
            &&& {
                let w2 = ws_end(l, d1 + 2);
                &&& w2 > d1 + 2
                &&& lit_at(l, w2, "committed"@)
                &&& {
                    let w3 = ws_end(l, w2 + 9);
                    &&& w3 > w2 + 9
                    &&& {
                        let d2 = digits_end(l, w3);
                        &&& d2 > w3
                        &&& lit_at(l, d2, "K,"@)
                        &&& {
                            let w4 = ws_end(l, d2 + 2);
                            &&& w4 > d2 + 2
                            &&& lit_at(l, w4, "reserved"@)
                            &&& {
                                let w5 = ws_end(l, w4 + 8);
                                &&& w5 > w4 + 8
                                &&& {
                                    let d3 = digits_end(l, w5);
                                    &&& d3 > w5
                                    &&& d3 < l.len()
                                    &&& l[d3] == 'K'
                                }
                            }
                        }
                    }
                }
            }
        }
    }
}

/// The used figure (kibibytes) of the triple at `i`.
pub open spec fn triple_used_kb(l: Seq<char>, i: int) -> nat {
    let w1 = ws_end(l, i + 4);
    num_of(l.subrange(w1, digits_end(l, w1)))
}

/// The committed figure (kibibytes) of the triple at `i`.
pub open spec fn triple_committed_kb(l: Seq<char>, i: int) -> nat {
    let w1 = ws_end(l, i + 4);
    let d1 = digits_end(l, w1);
    let w2 = ws_end(l, d1 + 2);
    let w3 = ws_end(l, w2 + 9);
    num_of(l.subrange(w3, digits_end(l, w3)))
}

/// The reserved figure (kibibytes) of the triple at `i`.
pub open spec fn triple_reserved_kb(l: Seq<char>, i: int) -> nat {
    let w1 = ws_end(l, i + 4);
    let d1 = digits_end(l, w1);
    let w2 = ws_end(l, d1 + 2);
    let w3 = ws_end(l, w2 + 9);
    let d2 = digits_end(l, w3);
    let w4 = ws_end(l, d2 + 2);
    let w5 = ws_end(l, w4 + 8);
    num_of(l.subrange(w5, digits_end(l, w5)))
}

/// The pool heading `head`, whitespace, and a used/committed/reserved
/// triple, starting at `i`.
pub open spec fn pool_at(l: Seq<char>, i: int, head: Seq<char>) -> bool {
    &&& lit_at(l, i, head)
    &&& {
        let w = ws_end(l, i + head.len());
        &&& w > i + head.len()
        &&& triple_at(l, w)
    }
}

/// Least position at which `head` opens a pool report, or -1.
pub open spec fn pool_find(l: Seq<char>, i: int, head: Seq<char>) -> int
    decreases l.len() - i,
{
    if i < 0 || i >= l.len() {
        -1
    } else if pool_at(l, i, head) {
        i
    } else {
        pool_find(l, i + 1, head)
    }
}

/// A pool as reported, still in kibibytes.
pub struct PoolKb {
    pub name: Seq<char>,
    pub used_kb: nat,
    pub committed_kb: nat,
    pub reserved_kb: nat,
}

/// The triple of the first pool report headed by `head`, if any.
pub open spec fn pool_triple_of(l: Seq<char>, head: Seq<char>, name: Seq<char>) -> Option<PoolKb> {
    let j = pool_find(l, 0, head);
    if j >= 0 {
        let w = ws_end(l, j + head.len());
        Some(
            PoolKb {
                name: name,
                used_kb: triple_used_kb(l, w),
                committed_kb: triple_committed_kb(l, w),
                reserved_kb: triple_reserved_kb(l, w),
            },
        )
    } else {
        None
    }
}

/// The pools a line contributes: a metaspace report, then a class-space
/// report.
pub open spec fn line_pools(l: Seq<char>) -> Seq<PoolKb> {
    (match pool_triple_of(l, "Metaspace"@, "Metaspace"@) {
        Some(p) => seq![p],
        None => Seq::empty(),
    }) + (match pool_triple_of(l, "class space"@, "Class Space"@) {
        Some(p) => seq![p],
        None => Seq::empty(),
    })
}

/// All pools of the report, in line order.
pub open spec fn pools_from(ls: Seq<Seq<char>>, i: int) -> Seq<PoolKb>
    decreases ls.len() - i,
{
    if i < 0 || i >= ls.len() {
        Seq::empty()
    } else {
        line_pools(ls[i]) + pools_from(ls, i + 1)
    }
}

/// A kibibyte figure whose byte value fits the result type.
pub open spec fn kb_fits(kb: nat) -> bool {
    kb * 1024 <= u64::MAX
}

/// Every figure the line reports fits the result type once scaled to bytes.
pub open spec fn heap_line_fits(l: Seq<char>) -> bool {
    &&& match heap_pair_of(l) {
        Some(p) => kb_fits(p.0) && kb_fits(p.1),
        None => true,
    }
    &&& match pool_triple_of(l, "Metaspace"@, "Metaspace"@) {
        Some(p) => kb_fits(p.used_kb) && kb_fits(p.committed_kb) && kb_fits(p.reserved_kb),
        None => true,
    }
    &&& match pool_triple_of(l, "class space"@, "Class Space"@) {
        Some(p) => kb_fits(p.used_kb) && kb_fits(p.committed_kb) && kb_fits(p.reserved_kb),
        None => true,
    }
}

/// Every figure of the report fits once scaled to bytes.
pub open spec fn heap_fits_from(ls: Seq<Seq<char>>, i: int) -> bool
    decreases ls.len() - i,
{
    if i < 0 || i >= ls.len() {
        true
    } else {
        heap_line_fits(ls[i]) && heap_fits_from(ls, i + 1)
    }
}

/// The pool an executable `MemoryPool` must equal for a reported `PoolKb`:
/// kibibytes scaled by 1024, the reserved figure as the maximum.
pub open spec fn pool_matches(m: crate::types::MemoryPoolModel, q: PoolKb) -> bool {
    &&& m.name == q.name
    &&& m.pool_type == crate::types::PoolType::Metaspace
    &&& m.used_bytes == q.used_kb * 1024
    &&& m.max_bytes == q.reserved_kb * 1024
    &&& m.committed_bytes == q.committed_kb * 1024
}

/// Does the total/used pair match at `i`?
fn heap_check_at(l: &Vec<char>, i: usize, total_pat: &Vec<char>, kc_pat: &Vec<char>, used_pat: &Vec<
    char,
>) -> (b: bool)
    requires
        i <= l@.len(),
        total_pat@ == "total"@,
        kc_pat@ == "K,"@,
        used_pat@ == "used"@,
    ensures
        b == heap_pair_at(l@, i as int),
{
    proof {
        reveal_strlit("total");
        reveal_strlit("K,");
        reveal_strlit("used");
    }
    let n = l.len();
    proof {
        assert(n == l@.len());
    }
    if !check_lit_at(l, i, total_pat) {
        return false;
    }
    let w1 = scan_ws(l, i + 5);
    if !(w1 > i + 5) {
        return false;
    }
    let d1 = scan_digits(l, w1);
    if !(d1 > w1) {
        return false;
    }
    if !check_lit_at(l, d1, kc_pat) {
        return false;
    }
    let w2 = scan_ws(l, d1 + 2);
    if !(w2 > d1 + 2) {
        return false;
    }
    if !check_lit_at(l, w2, used_pat) {
        return false;
    }
    let w3 = scan_ws(l, w2 + 4);
    if !(w3 > w2 + 4) {
        return false;
    }
    let d2 = scan_digits(l, w3);
    d2 > w3 && d2 < l.len() && l[d2] == 'K'
}

/// Does a used/committed/reserved triple match at `i`?
fn triple_check_at(
    l: &Vec<char>,
    i: usize,
    used_pat: &Vec<char>,
    kc_pat: &Vec<char>,
    comm_pat: &Vec<char>,
    res_pat: &Vec<char>,
) -> (b: bool)
    requires
        i <= l@.len(),
        used_pat@ == "used"@,
        kc_pat@ == "K,"@,
        comm_pat@ == "committed"@,
        res_pat@ == "reserved"@,
    ensures
        b == triple_at(l@, i as int),
{
    proof {
        reveal_strlit("used");
        reveal_strlit("K,");
        reveal_strlit("committed");
        reveal_strlit("reserved");
    }
    let n = l.len();
    proof {
        assert(n == l@.len());
    }
    if !check_lit_at(l, i, used_pat) {
        return false;
    }
    let w1 = scan_ws(l, i + 4);
    if !(w1 > i + 4) {
        return false;
    }
    let d1 = scan_digits(l, w1);
    if !(d1 > w1) {
        return false;
    }
    if !check_lit_at(l, d1, kc_pat) {
        return false;
    }
    let w2 = scan_ws(l, d1 + 2);
    if !(w2 > d1 + 2) {
        return false;
    }
    if !check_lit_at(l, w2, comm_pat) {
        return false;
    }
    let w3 = scan_ws(l, w2 + 9);
    if !(w3 > w2 + 9) {
        return false;
    }
    let d2 = scan_digits(l, w3);
    if !(d2 > w3) {
        return false;
    }
    if !check_lit_at(l, d2, kc_pat) {
        return false;
    }
    let w4 = scan_ws(l, d2 + 2);
    if !(w4 > d2 + 2) {
        return false;
    }
    if !check_lit_at(l, w4, res_pat) {
        return false;
    }
    let w5 = scan_ws(l, w4 + 8);
    if !(w5 > w4 + 8) {
        return false;
    }
    let d3 = scan_digits(l, w5);
    d3 > w5 && d3 < l.len() && l[d3] == 'K'
}

/// Reads the digit run starting at `w` as a byte figure: kibibytes times
/// 1024.  `None` when the figure cannot be scaled into the result type.
fn read_kb_bytes(l: &Vec<char>, w: usize) -> (r: Option<u64>)
    requires
        w <= l@.len(),
    ensures
        match r {
            Some(v) => v == num_of(l@.subrange(w as int, digits_end(l@, w as int))) * 1024
                && kb_fits(num_of(l@.subrange(w as int, digits_end(l@, w as int)))),
            None => !kb_fits(num_of(l@.subrange(w as int, digits_end(l@, w as int)))),
        },
{
    let d = scan_digits(l, w);
    proof {
        crate::text::lemma_digits_end(l@, w as int);
    }
    match parse_u64(l, w, d) {
        Some(kb) => match kb.checked_mul(1024) {
            Some(b) => Some(b),
            None => None,
        },
        None => {
            proof {
                let kb = num_of(l@.subrange(w as int, digits_end(l@, w as int)));
                assert(kb * 1024 >= kb) by (nonlinear_arith)
                    requires
                        kb >= 0,
                ;
            }
            None
        },
    }
}

/// Least position where the total/used pair matches, if any.
fn heap_pair_find_exec(
    l: &Vec<char>,
    total_pat: &Vec<char>,
    kc_pat: &Vec<char>,
    used_pat: &Vec<char>,
) -> (r: Option<usize>)
    requires
        total_pat@ == "total"@,
        kc_pat@ == "K,"@,
        used_pat@ == "used"@,
    ensures
        match r {
            Some(j) => j as int == heap_pair_find(l@, 0) && heap_pair_at(l@, j as int) && j
                < l@.len(),
            None => heap_pair_find(l@, 0) == -1,
        },
{
    let mut j: usize = 0;
    loop
        invariant
            j <= l@.len(),
            total_pat@ == "total"@,
            kc_pat@ == "K,"@,
            used_pat@ == "used"@,
            heap_pair_find(l@, 0) == heap_pair_find(l@, j as int),
        decreases l@.len() - j,
    {
        if j >= l.len() {
            return None;
        }
        if heap_check_at(l, j, total_pat, kc_pat, used_pat) {
            return Some(j);
        }
        j = j + 1;
    }
}

/// Least position where `head` opens a pool report, if any.
fn pool_find_exec(
    l: &Vec<char>,
    head_pat: &Vec<char>,
    used_pat: &Vec<char>,
    kc_pat: &Vec<char>,
    comm_pat: &Vec<char>,
    res_pat: &Vec<char>,
) -> (r: Option<usize>)
    requires
        used_pat@ == "used"@,
        kc_pat@ == "K,"@,
        comm_pat@ == "committed"@,
        res_pat@ == "reserved"@,
    ensures
        match r {
            Some(j) => j as int == pool_find(l@, 0, head_pat@) && pool_at(l@, j as int, head_pat@)
                && j < l@.len(),
            None => pool_find(l@, 0, head_pat@) == -1,
        },
{
    let mut j: usize = 0;
    loop
        invariant
            j <= l@.len(),
            used_pat@ == "used"@,
            kc_pat@ == "K,"@,
            comm_pat@ == "committed"@,
            res_pat@ == "reserved"@,
            pool_find(l@, 0, head_pat@) == pool_find(l@, j as int, head_pat@),
        decreases l@.len() - j,
    {
        if j >= l.len() {
            return None;
        }
        let ok = if check_lit_at(l, j, head_pat) {
            let hl = head_pat.len();
            let w = scan_ws(l, j + hl);
            if w > j + hl {
                triple_check_at(l, w, used_pat, kc_pat, comm_pat, res_pat)
            } else {
                false
            }
        } else {
            false
        };
        proof {
            assert(ok == pool_at(l@, j as int, head_pat@));
        }
        if ok {
            return Some(j);
        }
        j = j + 1;
    }
}

/// Reads the pool report headed by `head_pat`, scaled to bytes and under
/// `name`.  `Ok(None)`: the line has no such report.  `Err`: it has one
/// whose figures cannot be scaled into the result type.
fn read_pool(
    l: &Vec<char>,
    head_pat: &Vec<char>,
    name: &str,
    used_pat: &Vec<char>,
    kc_pat: &Vec<char>,
    comm_pat: &Vec<char>,
    res_pat: &Vec<char>,
) -> (r: Result<Option<crate::types::MemoryPool>, String>)
    requires
        used_pat@ == "used"@,
        kc_pat@ == "K,"@,
        comm_pat@ == "committed"@,
        res_pat@ == "reserved"@,
    ensures
        match r {
            Ok(Some(p)) => match pool_triple_of(l@, head_pat@, name@) {
                Some(q) => pool_matches(p@, q) && kb_fits(q.used_kb) && kb_fits(q.committed_kb)
                    && kb_fits(q.reserved_kb),
                None => false,
            },
            Ok(None) => pool_triple_of(l@, head_pat@, name@) is None,
            Err(_) => match pool_triple_of(l@, head_pat@, name@) {
                Some(q) => !(kb_fits(q.used_kb) && kb_fits(q.committed_kb) && kb_fits(
                    q.reserved_kb,
                )),
                None => false,
            },
        },
{
    let j = match pool_find_exec(l, head_pat, used_pat, kc_pat, comm_pat, res_pat) {
        Some(j) => j,
        None => {
            return Ok(None);
        },
    };
    proof {
        reveal_strlit("used");
        reveal_strlit("K,");
        reveal_strlit("committed");
        reveal_strlit("reserved");
    }
    let n = l.len();
    proof {
        assert(n == l@.len());
    }
    let hl = head_pat.len();
    let w = scan_ws(l, j + hl);
    // positions of the three digit runs inside the triple
    let w1 = scan_ws(l, w + 4);
    let d1 = scan_digits(l, w1);
    let w2 = scan_ws(l, d1 + 2);
    let w3 = scan_ws(l, w2 + 9);
    let d2 = scan_digits(l, w3);
    let w4 = scan_ws(l, d2 + 2);
    let w5 = scan_ws(l, w4 + 8);
    let used_b = read_kb_bytes(l, w1);
    let comm_b = read_kb_bytes(l, w3);
    let res_b = read_kb_bytes(l, w5);
    match (used_b, comm_b, res_b) {
        (Some(u), Some(c), Some(v)) => {
            let p = crate::types::MemoryPool {
                name: String::from_str(name),
                pool_type: crate::types::PoolType::Metaspace,
                used_bytes: u,
                max_bytes: v,
                committed_bytes: c,
            };
            Ok(Some(p))
        },
        _ => Err(String::from_str("Failed to parse heap info")),
    }
}


/// Heap totals and pools from the heap report.  The total/used pair of the
/// last line carrying one gives the heap figures, with the committed figure
/// reported equal to the total; each metaspace and class-space line
/// contributes a pool.  Figures are kibibytes in the report and bytes in
/// the result.  Fails when no pair and no pool matched, or when a matched
/// figure cannot be scaled to bytes in the result type.
#[verifier::rlimit(100)]
pub fn parse_heap_info(output: &str) -> (r: Result<crate::types::HeapInfo, String>)
    ensures
        ({
            let ls = lines_of(output@);
            match r {
                Ok(h) => {
                    &&& heap_fits_from(ls, 0)
                    &&& (last_heap_pair(ls) is Some || pools_from(ls, 0).len() > 0)
                    &&& (match last_heap_pair(ls) {
                        Some(p) => h@.max_bytes == p.0 * 1024 && h@.used_bytes == p.1 * 1024
                            && h@.committed_bytes == p.0 * 1024,
                        None => h@.max_bytes == 0 && h@.used_bytes == 0 && h@.committed_bytes
                            == 0,
                    })
                    &&& h@.pools.len() == pools_from(ls, 0).len()
                    &&& forall|k: int|
                        0 <= k < h@.pools.len() ==> pool_matches(
                            h@.pools[k],
                            pools_from(ls, 0)[k],
                        )
                },
                Err(_) => !(heap_fits_from(ls, 0) && (last_heap_pair(ls) is Some || pools_from(
                    ls,
                    0,
                ).len() > 0)),
            }
        }),
{
    let chars = to_chars(output);
    let lines = split_lines(&chars);
    let ghost ls = lines_of(output@);
    let total_pat = to_chars("total");
    let kc_pat = to_chars("K,");
    let used_pat = to_chars("used");
    let comm_pat = to_chars("committed");
    let res_pat = to_chars("reserved");
    let meta_pat = to_chars("Metaspace");
    let cls_pat = to_chars("class space");
    let mut cur: Option<(u64, u64)> = None;
    let mut pools: Vec<crate::types::MemoryPool> = Vec::new();
    let mut i: usize = 0;
    loop
        invariant
            i <= lines@.len(),
            ls == lines_of(output@),
            lines@.len() == ls.len(),
            forall|k: int| 0 <= k < ls.len() ==> lines@[k]@ == ls[k],
            total_pat@ == "total"@,
            kc_pat@ == "K,"@,
            used_pat@ == "used"@,
            comm_pat@ == "committed"@,
            res_pat@ == "reserved"@,
            meta_pat@ == "Metaspace"@,
            cls_pat@ == "class space"@,
            heap_fits_from(ls, 0) == heap_fits_from(ls, i as int),
            (match cur {
                Some(p) => match last_heap_pair(ls.subrange(0, i as int)) {
                    Some(q) => p.0 == q.0 * 1024 && p.1 == q.1 * 1024 && kb_fits(q.0) && kb_fits(
                        q.1,
                    ),
                    None => false,
                },
                None => last_heap_pair(ls.subrange(0, i as int)) is None,
            }),
            pools_from(ls, 0).len() == pools@.len() + pools_from(ls, i as int).len(),
            forall|k: int|
                0 <= k < pools@.len() ==> pool_matches(pools@[k]@, pools_from(ls, 0)[k]),
            forall|k: int|
                0 <= k < pools_from(ls, i as int).len() ==> pools_from(ls, i as int)[k]
                    == pools_from(ls, 0)[pools@.len() + k],
        ensures
            ls == lines_of(output@),
            heap_fits_from(ls, 0),
            (match cur {
                Some(p) => match last_heap_pair(ls) {
                    Some(q) => p.0 == q.0 * 1024 && p.1 == q.1 * 1024,
                    None => false,
                },
                None => last_heap_pair(ls) is None,
            }),
            pools@.len() == pools_from(ls, 0).len(),
            forall|k: int|
                0 <= k < pools@.len() ==> pool_matches(pools@[k]@, pools_from(ls, 0)[k]),
        decreases lines@.len() - i,
    {
        if i >= lines.len() {
            proof {
                assert(ls.subrange(0, i as int) =~= ls);
                assert(pools_from(ls, i as int) =~= Seq::<PoolKb>::empty());
            }
            break;
        }
        let line = &lines[i];
        let ghost base = pools@.len() as int;
        let ghost lp = line_pools(ls[i as int]);
        let ghost mo = pool_triple_of(ls[i as int], "Metaspace"@, "Metaspace"@);
        let ghost co = pool_triple_of(ls[i as int], "class space"@, "Class Space"@);
        proof {
            assert(ls.subrange(0, i + 1).drop_last() =~= ls.subrange(0, i as int));
            assert(ls.subrange(0, i + 1).last() == ls[i as int]);
            assert(pools_from(ls, i as int) =~= lp + pools_from(ls, i + 1));
        }
        // total/used pair of this line; a later line's pair supersedes it
        match heap_pair_find_exec(line, &total_pat, &kc_pat, &used_pat) {
            Some(j) => {
                proof {
                    reveal_strlit("total");
                    reveal_strlit("K,");
                    reveal_strlit("used");
                }
                let ln = line.len();
                proof {
                    assert(ln == line@.len());
                }
                let w1 = scan_ws(line, j + 5);
                let d1 = scan_digits(line, w1);
                let w2 = scan_ws(line, d1 + 2);
                let w3 = scan_ws(line, w2 + 4);
                let maxb = read_kb_bytes(line, w1);
                let usedb = read_kb_bytes(line, w3);
                proof {
                    assert(heap_pair_of(ls[i as int]) == Some(
                        (heap_pair_max_kb(line@, j as int), heap_pair_used_kb(line@, j as int)),
                    ));
                }
                match (maxb, usedb) {
                    (Some(m), Some(u)) => {
                        cur = Some((m, u));
                    },
                    _ => {
                        proof {
                            assert(!heap_line_fits(ls[i as int]));
                        }
                        return Err(String::from_str("Failed to parse heap info"));
                    },
                }
            },
            None => {
                proof {
                    assert(heap_pair_of(ls[i as int]) is None);
                }
            },
        }
        // metaspace pool
        match read_pool(line, &meta_pat, "Metaspace", &used_pat, &kc_pat, &comm_pat, &res_pat) {
            Ok(Some(p)) => {
                let ghost prev = pools@;
                pools.push(p);
                proof {
                    assert(lp[0] == mo->Some_0);
                    assert forall|k: int| 0 <= k < pools@.len() implies pool_matches(
                        pools@[k]@,
                        pools_from(ls, 0)[k],
                    ) by {
                        if k < prev.len() {
                            assert(pools@[k] == prev[k]);
                            assert(pool_matches(prev[k]@, pools_from(ls, 0)[k]));
                        } else {
                            assert(pools@[k] == p);
                            assert(pools_from(ls, i as int)[0] == pools_from(ls, 0)[base + 0]);
                            assert(pools_from(ls, i as int)[0] == lp[0]);
                        }
                    }
                }
            },
            Ok(None) => {
                proof {
                    assert(mo is None);
                }
            },
            Err(e) => {
                proof {
                    assert(!heap_line_fits(ls[i as int]));
                }
                return Err(e);
            },
        }
        // class-space pool
        match read_pool(line, &cls_pat, "Class Space", &used_pat, &kc_pat, &comm_pat, &res_pat) {
            Ok(Some(p)) => {
                let ghost prev = pools@;
                let ghost off = prev.len() - base;
                proof {
                    assert(lp[off] == co->Some_0);
                }
                pools.push(p);
                proof {
                    assert forall|k: int| 0 <= k < pools@.len() implies pool_matches(
                        pools@[k]@,
                        pools_from(ls, 0)[k],
                    ) by {
                        if k < prev.len() {
                            assert(pools@[k] == prev[k]);
                            assert(pool_matches(prev[k]@, pools_from(ls, 0)[k]));
                        } else {
                            assert(pools@[k] == p);
                            assert(pools_from(ls, i as int)[k - base] == pools_from(ls, 0)[base + (
                            k - base)]);
                            assert(pools_from(ls, i as int)[k - base] == lp[k - base]);
                        }
                    }
                }
            },
            Ok(None) => {
                proof {
                    assert(co is None);
                }
            },
            Err(e) => {
                proof {
                    assert(!heap_line_fits(ls[i as int]));
                }
                return Err(e);
            },
        }
        proof {
            assert(pools@.len() == base + lp.len());
            assert(heap_line_fits(ls[i as int]));
            assert forall|k: int|
                0 <= k < pools_from(ls, i + 1).len() implies #[trigger] pools_from(ls, i + 1)[k]
                == pools_from(ls, 0)[pools@.len() + k] by {
                assert(pools_from(ls, i as int)[lp.len() + k] == pools_from(ls, i + 1)[k]);
                assert(pools_from(ls, i as int)[lp.len() + k] == pools_from(ls, 0)[base + lp.len()
                    + k]);
            }
        }
        i = i + 1;
    }
    if pools.len() == 0 {
        match cur {
            Some(p) => {
                let h = crate::types::HeapInfo {
                    used_bytes: p.1,
                    max_bytes: p.0,
                    committed_bytes: p.0,
                    pools,
                };
                Ok(h)
            },
            None => Err(String::from_str("Failed to parse heap info")),
        }
    } else {
        let (used_bytes, max_bytes, committed_bytes) = match cur {
            Some(p) => (p.1, p.0, p.0),
            None => (0, 0, 0),
        };
        let h = crate::types::HeapInfo { used_bytes, max_bytes, committed_bytes, pools };
        Ok(h)
    }
}


// ---------------------------------------------------------------------------
// Class histogram report
// ---------------------------------------------------------------------------

/// From `m` on, the line may close a histogram row: only whitespace to the
/// end, or whitespace and then a parenthesized trailer reaching the end.
pub open spec fn histo_tail_ok(l: Seq<char>, m: int) -> bool {
    let w = ws_end(l, m);
    w == l.len() || (l[w] == '(' && l[l.len() - 1] == ')' && l.len() - 1 >= w + 1)
}

/// Least `m' >= m` at which the row may close; the class name runs to it.
pub open spec fn histo_name_end(l: Seq<char>, m: int) -> int
    decreases l.len() - m,
{
    if m >= l.len() {
        l.len() as int
    } else if histo_tail_ok(l, m) {
        m
    } else {
        histo_name_end(l, m + 1)
    }
}

/// A histogram row: optional leading whitespace, a rank and a colon, then
/// instance and byte counts, then a nonempty class name.
pub open spec fn histo_row_at(l: Seq<char>) -> bool {
    let r0 = ws_end(l, 0);
    let r1 = digits_end(l, r0);
    &&& r1 > r0
    &&& r1 < l.len()
    &&& l[r1] == ':'
    &&& {
        let w1 = ws_end(l, r1 + 1);
        &&& w1 > r1 + 1
        &&& {
            let i1 = digits_end(l, w1);
            &&& i1 > w1
            &&& {
                let w2 = ws_end(l, i1);
                &&& w2 > i1
                &&& {
                    let b1 = digits_end(l, w2);
                    &&& b1 > w2
                    &&& {
                        let w3 = ws_end(l, b1);
                        &&& w3 > b1
                        &&& w3 < l.len()
                    }
                }
            }
        }
    }
}

/// One row of the histogram, as reported.
pub struct HistoRow {
    pub rank: nat,
    pub instances: nat,
    pub bytes: nat,
    pub name: Seq<char>,
}

/// The row a line carries, if it is a histogram row.
pub open spec fn histo_row_of(l: Seq<char>) -> Option<HistoRow> {
    if histo_row_at(l) {
        let r0 = ws_end(l, 0);
        let r1 = digits_end(l, r0);
        let w1 = ws_end(l, r1 + 1);
        let i1 = digits_end(l, w1);
        let w2 = ws_end(l, i1);
        let b1 = digits_end(l, w2);
        let w3 = ws_end(l, b1);
        Some(
            HistoRow {
                rank: num_of(l.subrange(r0, r1)),
                instances: num_of(l.subrange(w1, i1)),
                bytes: num_of(l.subrange(w2, b1)),
                name: l.subrange(w3, histo_name_end(l, w3 + 1)),
            },
        )
    } else {
        None
    }
}

/// All rows of the report, in line order; lines that are no rows are
/// skipped and never reduce the count.
pub open spec fn histo_rows_from(ls: Seq<Seq<char>>, i: int) -> Seq<HistoRow>
    decreases ls.len() - i,
{
    if i < 0 || i >= ls.len() {
        Seq::empty()
    } else {
        (match histo_row_of(ls[i]) {
            Some(q) => seq![q],
            None => Seq::empty(),
        }) + histo_rows_from(ls, i + 1)
    }
}

/// A row whose counts fit the result types.
pub open spec fn histo_row_fits(q: HistoRow) -> bool {
    q.rank <= u32::MAX && q.instances <= u64::MAX && q.bytes <= u64::MAX
}

/// Every row of the report fits the result types.
pub open spec fn histo_fits_from(ls: Seq<Seq<char>>, i: int) -> bool
    decreases ls.len() - i,
{
    if i < 0 || i >= ls.len() {
        true
    } else {
        (match histo_row_of(ls[i]) {
            Some(q) => histo_row_fits(q),
            None => true,
        }) && histo_fits_from(ls, i + 1)
    }
}

/// The entry an executable `ClassInfo` must equal for a reported row.
pub open spec fn row_matches(c: crate::types::ClassInfoModel, q: HistoRow) -> bool {
    &&& c.rank == q.rank
    &&& c.instances == q.instances
    &&& c.bytes == q.bytes
    &&& c.name == q.name
}

/// Where the class name of a row ends.
fn histo_name_end_exec(l: &Vec<char>, m: usize) -> (r: usize)
    requires
        m <= l@.len(),
    ensures
        r as int == histo_name_end(l@, m as int),
        m <= r <= l@.len(),
{
    let mut j: usize = m;
    loop
        invariant
            m <= j <= l@.len(),
            histo_name_end(l@, m as int) == histo_name_end(l@, j as int),
        decreases l@.len() - j,
    {
        if j >= l.len() {
            return j;
        }
        let w = scan_ws(l, j);
        let tail_ok = if w == l.len() {
            true
        } else {
            l[w] == '(' && l[l.len() - 1] == ')' && l.len() - 1 >= w + 1
        };
        proof {
            assert(tail_ok == histo_tail_ok(l@, j as int));
        }
        if tail_ok {
            return j;
        }
        j = j + 1;
    }
}

/// Is the line a histogram row?
fn histo_check(l: &Vec<char>) -> (b: bool)
    ensures
        b == histo_row_at(l@),
{
    let r0 = scan_ws(l, 0);
    let r1 = scan_digits(l, r0);
    if !(r1 > r0 && r1 < l.len() && l[r1] == ':') {
        return false;
    }
    let w1 = scan_ws(l, r1 + 1);
    if !(w1 > r1 + 1) {
        return false;
    }
    let i1 = scan_digits(l, w1);
    if !(i1 > w1) {
        return false;
    }
    let w2 = scan_ws(l, i1);
    if !(w2 > i1) {
        return false;
    }
    let b1 = scan_digits(l, w2);
    if !(b1 > w2) {
        return false;
    }
    let w3 = scan_ws(l, b1);
    w3 > b1 && w3 < l.len()
}

/// Class histogram rows from the histogram report: one entry per row line,
/// in order; header and footer lines are skipped.  Fails when no line is a
/// row, or when a row's counts do not fit the result types.
#[verifier::rlimit(100)]
pub fn parse_class_histogram(output: &str) -> (r: Result<Vec<crate::types::ClassInfo>, String>)
    ensures
        ({
            let ls = lines_of(output@);
            match r {
                Ok(v) => {
                    &&& histo_fits_from(ls, 0)
                    &&& histo_rows_from(ls, 0).len() > 0
                    &&& v@.len() == histo_rows_from(ls, 0).len()
                    &&& forall|k: int|
                        0 <= k < v@.len() ==> row_matches(v@[k]@, histo_rows_from(ls, 0)[k])
                },
                Err(_) => !(histo_fits_from(ls, 0) && histo_rows_from(ls, 0).len() > 0),
            }
        }),
{
    let chars = to_chars(output);
    let lines = split_lines(&chars);
    let ghost ls = lines_of(output@);
    let mut out: Vec<crate::types::ClassInfo> = Vec::new();
    let mut i: usize = 0;
    loop
        invariant
            i <= lines@.len(),
            ls == lines_of(output@),
            lines@.len() == ls.len(),
            forall|k: int| 0 <= k < ls.len() ==> lines@[k]@ == ls[k],
            histo_fits_from(ls, 0) == histo_fits_from(ls, i as int),
            histo_rows_from(ls, 0).len() == out@.len() + histo_rows_from(ls, i as int).len(),
            forall|k: int|
                0 <= k < out@.len() ==> row_matches(out@[k]@, histo_rows_from(ls, 0)[k]),
            forall|k: int|
                0 <= k < histo_rows_from(ls, i as int).len() ==> histo_rows_from(ls, i as int)[k]
                    == histo_rows_from(ls, 0)[out@.len() + k],
        ensures
            ls == lines_of(output@),
            histo_fits_from(ls, 0),
            out@.len() == histo_rows_from(ls, 0).len(),
            forall|k: int|
                0 <= k < out@.len() ==> row_matches(out@[k]@, histo_rows_from(ls, 0)[k]),
        decreases lines@.len() - i,
    {
        if i >= lines.len() {
            proof {
                assert(histo_rows_from(ls, i as int) =~= Seq::<HistoRow>::empty());
            }
            break;
        }
        let line = &lines[i];
        let ghost row = histo_row_of(ls[i as int]);
        proof {
            assert(histo_rows_from(ls, i as int) =~= (match row {
                Some(q) => seq![q],
                None => Seq::<HistoRow>::empty(),
            }) + histo_rows_from(ls, i + 1));
        }
        if histo_check(line) {
            let ln = line.len();
            proof {
                assert(ln == line@.len());
            }
            let r0 = scan_ws(line, 0);
            let r1 = scan_digits(line, r0);
            let w1 = scan_ws(line, r1 + 1);
            let i1 = scan_digits(line, w1);
            let w2 = scan_ws(line, i1);
            let b1 = scan_digits(line, w2);
            let w3 = scan_ws(line, b1);
            let m = histo_name_end_exec(line, w3 + 1);
            proof {
                crate::text::lemma_digits_end(line@, r0 as int);
                crate::text::lemma_digits_end(line@, w1 as int);
                crate::text::lemma_digits_end(line@, w2 as int);
            }
            let rank64 = parse_u64(line, r0, r1);
            let instances = parse_u64(line, w1, i1);
            let bytes = parse_u64(line, w2, b1);
            let rank_ok: Option<u32> = match rank64 {
                Some(v) => if v <= 0xffff_ffff {
                    Some(v as u32)
                } else {
                    None
                },
                None => None,
            };
            match (rank_ok, instances, bytes) {
                (Some(rk), Some(ins), Some(by)) => {
                    let name_chars = crate::text::copy_range(line, w3, m);
                    let entry = crate::types::ClassInfo {
                        rank: rk,
                        instances: ins,
                        bytes: by,
                        name: string_of_chars(&name_chars),
                    };
                    let ghost prev = out@;
                    proof {
                        assert(row matches Some(q) && row_matches(entry@, q));
                    }
                    out.push(entry);
                    proof {
                        assert forall|k: int| 0 <= k < out@.len() implies row_matches(
                            out@[k]@,
                            histo_rows_from(ls, 0)[k],
                        ) by {
                            if k < prev.len() {
                                assert(out@[k] == prev[k]);
                                assert(row_matches(prev[k]@, histo_rows_from(ls, 0)[k]));
                            } else {
                                assert(out@[k] == entry);
                                assert(histo_rows_from(ls, i as int)[0] == histo_rows_from(ls, 0)[
                                prev.len() as int]);
                                assert(histo_rows_from(ls, i as int)[0] == row->Some_0);
                            }
                        }
                        assert forall|k: int|
                            0 <= k < histo_rows_from(ls, i + 1).len() implies #[trigger]
                        histo_rows_from(ls, i + 1)[k] == histo_rows_from(ls, 0)[out@.len()
                            + k] by {
                            assert(histo_rows_from(ls, i as int)[1 + k] == histo_rows_from(
                                ls,
                                i + 1,
                            )[k]);
                            assert(histo_rows_from(ls, i as int)[1 + k] == histo_rows_from(ls, 0)[
                            prev.len() + 1 + k]);
                        }
                    }
                },
                _ => {
                    proof {
                        assert(row matches Some(q) && !histo_row_fits(q));
                    }
                    return Err(String::from_str("Failed to parse class histogram row"));
                },
            }
        } else {
            proof {
                assert(row is None);
                assert forall|k: int|
                    0 <= k < histo_rows_from(ls, i + 1).len() implies #[trigger] histo_rows_from(
                    ls,
                    i + 1,
                )[k] == histo_rows_from(ls, 0)[out@.len() + k] by {
                    assert(histo_rows_from(ls, i as int)[k] == histo_rows_from(ls, i + 1)[k]);
                }
            }
        }
        i = i + 1;
    }
    if out.len() == 0 {
        return Err(String::from_str("No classes found in histogram"));
    }
    Ok(out)
}


// ---------------------------------------------------------------------------
// Thread dump report: character classes and runs
// ---------------------------------------------------------------------------

pub open spec fn is_hexl(c: char) -> bool {
    is_digit(c) || (97 <= c as int <= 102)
}

pub open spec fn is_word(c: char) -> bool {
    is_digit(c) || (97 <= c as int <= 122) || (65 <= c as int <= 90) || c == '_'
}

pub open spec fn is_mchar(c: char) -> bool {
    is_word(c) || c == '<' || c == '>'
}

pub open spec fn is_cls_char(c: char) -> bool {
    is_mchar(c) || c == '.' || c == '$'
}

fn hexl_char(c: char) -> (b: bool)
    ensures
        b == is_hexl(c),
{
    let x = c as u32;
    (48 <= x && x <= 57) || (97 <= x && x <= 102)
}

fn word_char(c: char) -> (b: bool)
    ensures
        b == is_word(c),
{
    let x = c as u32;
    (48 <= x && x <= 57) || (97 <= x && x <= 122) || (65 <= x && x <= 90) || c == '_'
}

fn mchar_char(c: char) -> (b: bool)
    ensures
        b == is_mchar(c),
{
    word_char(c) || c == '<' || c == '>'
}

fn cls_char(c: char) -> (b: bool)
    ensures
        b == is_cls_char(c),
{
    mchar_char(c) || c == '.' || c == '$'
}

pub open spec fn nonquote_end(s: Seq<char>, i: int) -> int
    decreases s.len() - i,
{
    if 0 <= i < s.len() && s[i] != '"' {
        nonquote_end(s, i + 1)
    } else {
        i
    }
}

pub open spec fn hexl_end(s: Seq<char>, i: int) -> int
    decreases s.len() - i,
{
    if 0 <= i < s.len() && is_hexl(s[i]) {
        hexl_end(s, i + 1)
    } else {
        i
    }
}

pub open spec fn word_end(s: Seq<char>, i: int) -> int
    decreases s.len() - i,
{
    if 0 <= i < s.len() && is_word(s[i]) {
        word_end(s, i + 1)
    } else {
        i
    }
}

pub open spec fn cls_end(s: Seq<char>, i: int) -> int
    decreases s.len() - i,
{
    if 0 <= i < s.len() && is_cls_char(s[i]) {
        cls_end(s, i + 1)
    } else {
        i
    }
}

pub open spec fn mchar_end(s: Seq<char>, i: int) -> int
    decreases s.len() - i,
{
    if 0 <= i < s.len() && is_mchar(s[i]) {
        mchar_end(s, i + 1)
    } else {
        i
    }
}

pub proof fn lemma_mchar_end(s: Seq<char>, i: int)
    requires
        0 <= i <= s.len(),
    ensures
        i <= mchar_end(s, i) <= s.len(),
        forall|k: int| i <= k < mchar_end(s, i) ==> is_mchar(s[k]),
        mchar_end(s, i) < s.len() ==> !is_mchar(s[mchar_end(s, i)]),
    decreases s.len() - i,
{
    if 0 <= i < s.len() && is_mchar(s[i]) {
        lemma_mchar_end(s, i + 1);
    }
}

fn scan_mchar(s: &Vec<char>, i: usize) -> (j: usize)
    requires
        i <= s@.len(),
    ensures
        j == mchar_end(s@, i as int),
        i <= j <= s@.len(),
{
    let mut j: usize = i;
    loop
        invariant
            i <= j <= s@.len(),
            mchar_end(s@, i as int) == mchar_end(s@, j as int),
        decreases s@.len() - j,
    {
        if j < s.len() && mchar_char(s[j]) {
            j = j + 1;
        } else {
            return j;
        }
    }
}

pub open spec fn ncp_end(s: Seq<char>, i: int) -> int
    decreases s.len() - i,
{
    if 0 <= i < s.len() && s[i] != ':' && s[i] != ')' {
        ncp_end(s, i + 1)
    } else {
        i
    }
}

pub open spec fn np_end(s: Seq<char>, i: int) -> int
    decreases s.len() - i,
{
    if 0 <= i < s.len() && s[i] != ')' {
        np_end(s, i + 1)
    } else {
        i
    }
}

fn scan_nonquote(s: &Vec<char>, i: usize) -> (j: usize)
    requires
        i <= s@.len(),
    ensures
        j == nonquote_end(s@, i as int),
        i <= j <= s@.len(),
{
    let mut j: usize = i;
    loop
        invariant
            i <= j <= s@.len(),
            nonquote_end(s@, i as int) == nonquote_end(s@, j as int),
        decreases s@.len() - j,
    {
        if j < s.len() && s[j] != '"' {
            j = j + 1;
        } else {
            return j;
        }
    }
}

fn scan_hexl(s: &Vec<char>, i: usize) -> (j: usize)
    requires
        i <= s@.len(),
    ensures
        j == hexl_end(s@, i as int),
        i <= j <= s@.len(),
{
    let mut j: usize = i;
    loop
        invariant
            i <= j <= s@.len(),
            hexl_end(s@, i as int) == hexl_end(s@, j as int),
        decreases s@.len() - j,
    {
        if j < s.len() && hexl_char(s[j]) {
            j = j + 1;
        } else {
            return j;
        }
    }
}

fn scan_word(s: &Vec<char>, i: usize) -> (j: usize)
    requires
        i <= s@.len(),
    ensures
        j == word_end(s@, i as int),
        i <= j <= s@.len(),
{
    let mut j: usize = i;
    loop
        invariant
            i <= j <= s@.len(),
            word_end(s@, i as int) == word_end(s@, j as int),
        decreases s@.len() - j,
    {
        if j < s.len() && word_char(s[j]) {
            j = j + 1;
        } else {
            return j;
        }
    }
}

fn scan_cls(s: &Vec<char>, i: usize) -> (j: usize)
    requires
        i <= s@.len(),
    ensures
        j == cls_end(s@, i as int),
        i <= j <= s@.len(),
{
    let mut j: usize = i;
    loop
        invariant
            i <= j <= s@.len(),
            cls_end(s@, i as int) == cls_end(s@, j as int),
        decreases s@.len() - j,
    {
        if j < s.len() && cls_char(s[j]) {
            j = j + 1;
        } else {
            return j;
        }
    }
}

fn scan_ncp(s: &Vec<char>, i: usize) -> (j: usize)
    requires
        i <= s@.len(),
    ensures
        j == ncp_end(s@, i as int),
        i <= j <= s@.len(),
{
    let mut j: usize = i;
    loop
        invariant
            i <= j <= s@.len(),
            ncp_end(s@, i as int) == ncp_end(s@, j as int),
        decreases s@.len() - j,
    {
        if j < s.len() && s[j] != ':' && s[j] != ')' {
            j = j + 1;
        } else {
            return j;
        }
    }
}

fn scan_np(s: &Vec<char>, i: usize) -> (j: usize)
    requires
        i <= s@.len(),
    ensures
        j == np_end(s@, i as int),
        i <= j <= s@.len(),
{
    let mut j: usize = i;
    loop
        invariant
            i <= j <= s@.len(),
            np_end(s@, i as int) == np_end(s@, j as int),
        decreases s@.len() - j,
    {
        if j < s.len() && s[j] != ')' {
            j = j + 1;
        } else {
            return j;
        }
    }
}

/// Position of the last dot in `s[w..e)`, or -1.
pub open spec fn last_dot(s: Seq<char>, w: int, e: int) -> int
    decreases e - w,
{
    if e <= w {
        -1
    } else if s[e - 1] == '.' {
        e - 1
    } else {
        last_dot(s, w, e - 1)
    }
}

fn find_last_dot(s: &Vec<char>, w: usize, e: usize) -> (r: Option<usize>)
    requires
        w <= e <= s@.len(),
    ensures
        match r {
            Some(d) => d as int == last_dot(s@, w as int, e as int) && w <= d < e,
            None => last_dot(s@, w as int, e as int) == -1,
        },
{
    let mut j: usize = e;
    loop
        invariant
            w <= j <= e <= s@.len(),
            last_dot(s@, w as int, e as int) == last_dot(s@, w as int, j as int),
        decreases j,
    {
        if j <= w {
            return None;
        }
        if s[j - 1] == '.' {
            return Some(j - 1);
        }
        j = j - 1;
    }
}


// ---------------------------------------------------------------------------
// Thread dump report: header, state and frame lines
// ---------------------------------------------------------------------------

/// After the `nid` digits at `p`: at least one whitespace character, and a
/// later `[` preceded by whitespace, with room for the free-form middle.
pub open spec fn nid_tail(l: Seq<char>, p: int) -> bool {
    &&& p < l.len()
    &&& is_ws(l[p])
    &&& exists|q: int| p + 2 <= q < l.len() && #[trigger] l[q] == '[' && is_ws(l[q - 1])
}

/// `tid=0x`, lowercase hex digits, whitespace, `nid=`, digits, and the
/// bracketed tail, starting at `k`.
pub open spec fn tid_at(l: Seq<char>, k: int) -> bool {
    &&& lit_at(l, k, "tid=0x"@)
    &&& {
        let h = hexl_end(l, k + 6);
        &&& h > k + 6
        &&& {
            let w = ws_end(l, h);
            &&& w > h
            &&& lit_at(l, w, "nid="@)
            &&& {
                let d = digits_end(l, w + 4);
                &&& d > w + 4
                &&& nid_tail(l, d)
            }
        }
    }
}

/// A thread header starting at `i`: a quoted nonempty name, whitespace, a
/// `#`-prefixed id, and somewhere after it the native `tid`/`nid` metadata.
pub open spec fn hdr_at(l: Seq<char>, i: int) -> bool {
    &&& 0 <= i < l.len()
    &&& l[i] == '"'
    &&& {
        let ne = nonquote_end(l, i + 1);
        &&& ne > i + 1
        &&& ne < l.len()
        &&& l[ne] == '"'
        &&& {
            let w = ws_end(l, ne + 1);
            &&& w > ne + 1
            &&& w < l.len()
            &&& l[w] == '#'
            &&& {
                let d = digits_end(l, w + 1);
                &&& d > w + 1
                &&& exists|k: int| d <= k && #[trigger] tid_at(l, k)
            }
        }
    }
}

/// Least position at which a thread header starts, or -1.
pub open spec fn hdr_find(l: Seq<char>, i: int) -> int
    decreases l.len() - i,
{
    if i < 0 || i >= l.len() {
        -1
    } else if hdr_at(l, i) {
        i
    } else {
        hdr_find(l, i + 1)
    }
}

/// The quoted name of the header at `i`.
pub open spec fn hdr_name(l: Seq<char>, i: int) -> Seq<char> {
    l.subrange(i + 1, nonquote_end(l, i + 1))
}

/// The id figure of the header at `i`.
pub open spec fn hdr_id(l: Seq<char>, i: int) -> nat {
    let ne = nonquote_end(l, i + 1);
    let w = ws_end(l, ne + 1);
    num_of(l.subrange(w + 1, digits_end(l, w + 1)))
}

/// The header a line carries, as name and id figure.
pub open spec fn hdr_of(l: Seq<char>) -> Option<(Seq<char>, nat)> {
    let j = hdr_find(l, 0);
    if j >= 0 {
        Some((hdr_name(l, j), hdr_id(l, j)))
    } else {
        None
    }
}

/// The state marker: its literal, whitespace, and a word, starting at `i`.
pub open spec fn state_at(l: Seq<char>, i: int) -> bool {
    &&& lit_at(l, i, "java.lang.Thread.State:"@)
    &&& {
        let w = ws_end(l, i + 23);
        &&& w > i + 23
        &&& w < l.len()
        &&& is_word(l[w])
    }
}

/// Least position at which the state marker matches, or -1.
pub open spec fn state_find(l: Seq<char>, i: int) -> int
    decreases l.len() - i,
{
    if i < 0 || i >= l.len() {
        -1
    } else if state_at(l, i) {
        i
    } else {
        state_find(l, i + 1)
    }
}

/// The state word a line carries, if it bears the marker.
pub open spec fn state_word_of(l: Seq<char>) -> Option<Seq<char>> {
    let j = state_find(l, 0);
    if j >= 0 {
        let w = ws_end(l, j + 23);
        Some(l.subrange(w, word_end(l, w)))
    } else {
        None
    }
}

/// The state a reported word stands for; an unknown word reads as runnable.
pub open spec fn state_of_word(w: Seq<char>) -> crate::types::ThreadState {
    if w == "RUNNABLE"@ {
        crate::types::ThreadState::Runnable
    } else if w == "BLOCKED"@ {
        crate::types::ThreadState::Blocked
    } else if w == "WAITING"@ {
        crate::types::ThreadState::Waiting
    } else if w == "TIMED_WAITING"@ {
        crate::types::ThreadState::TimedWaiting
    } else if w == "TERMINATED"@ {
        crate::types::ThreadState::Terminated
    } else if w == "NEW"@ {
        crate::types::ThreadState::New
    } else {
        crate::types::ThreadState::Runnable
    }
}

/// A stack-frame line: leading whitespace, `at`, whitespace, a dotted class
/// path, a method name, and a parenthesized source location.
pub open spec fn frame_shape_at(l: Seq<char>) -> bool {
    let a0 = ws_end(l, 0);
    &&& a0 >= 1
    &&& lit_at(l, a0, "at"@)
    &&& {
        let w = ws_end(l, a0 + 2);
        &&& w > a0 + 2
        &&& {
            let e = cls_end(l, w);
            &&& e < l.len()
            &&& l[e] == '('
            &&& {
                let d = last_dot(l, w, e);
                &&& d > w
                &&& d + 1 < e
                &&& (forall|k: int| d < k < e ==> is_mchar(l[k]))
            }
        }
    }
}

/// Inside the parentheses opened at `e`: `file:line` closed by `)`.
pub open spec fn frame_alt1_at(l: Seq<char>, e: int) -> bool {
    let c = ncp_end(l, e + 1);
    &&& c > e + 1
    &&& c < l.len()
    &&& l[c] == ':'
    &&& {
        let dd = digits_end(l, c + 1);
        &&& dd > c + 1
        &&& dd < l.len()
        &&& l[dd] == ')'
    }
}

/// Inside the parentheses opened at `e`: a bare source tag closed by `)`.
pub open spec fn frame_alt2_at(l: Seq<char>, e: int) -> bool {
    let rp = np_end(l, e + 1);
    &&& rp > e + 1
    &&& rp < l.len()
    &&& l[rp] == ')'
}

/// The frame a line carries, if any.
pub open spec fn frame_of(l: Seq<char>) -> Option<crate::types::StackFrameModel> {
    if frame_shape_at(l) {
        let a0 = ws_end(l, 0);
        let w = ws_end(l, a0 + 2);
        let e = cls_end(l, w);
        let d = last_dot(l, w, e);
        if frame_alt1_at(l, e) {
            let c = ncp_end(l, e + 1);
            let dd = digits_end(l, c + 1);
            let n = num_of(l.subrange(c + 1, dd));
            Some(
                (crate::types::StackFrameModel {
                    class_name: l.subrange(w, d),
                    method_name: l.subrange(d + 1, e),
                    file_name: Some(l.subrange(e + 1, c)),
                    line_number: if n <= u32::MAX {
                        Some(n as u32)
                    } else {
                        None
                    },
                }),
            )
        } else if frame_alt2_at(l, e) {
            let rp = np_end(l, e + 1);
            Some(
                (crate::types::StackFrameModel {
                    class_name: l.subrange(w, d),
                    method_name: l.subrange(d + 1, e),
                    file_name: Some(l.subrange(e + 1, rp)),
                    line_number: None,
                }),
            )
        } else {
            None
        }
    } else {
        None
    }
}


/// Executable test for `nid_tail`.
fn nid_tail_check(l: &Vec<char>, p: usize) -> (b: bool)
    requires
        p <= l@.len(),
    ensures
        b == nid_tail(l@, p as int),
{
    if !(p < l.len() && ws_char(l[p])) {
        return false;
    }
    if l.len() - p < 2 {
        proof {
            assert forall|q: int|
                !(p + 2 <= q < l@.len() && #[trigger] l@[q] == '[' && is_ws(l@[q - 1])) by {}
        }
        return false;
    }
    let mut q: usize = p + 2;
    loop
        invariant
            p + 2 <= q <= l@.len(),
            p < l@.len(),
            is_ws(l@[p as int]),
            forall|m: int| p + 2 <= m < q ==> !(#[trigger] l@[m] == '[' && is_ws(l@[m - 1])),
        decreases l@.len() - q,
    {
        if q >= l.len() {
            proof {
                assert forall|m: int|
                    !(p + 2 <= m < l@.len() && #[trigger] l@[m] == '[' && is_ws(l@[m - 1])) by {}
            }
            return false;
        }
        if l[q] == '[' && ws_char(l[q - 1]) {
            return true;
        }
        q = q + 1;
    }
}

/// Executable test for `tid_at`.
fn tid_check_at(l: &Vec<char>, k: usize, tid_pat: &Vec<char>, nid_pat: &Vec<char>) -> (b: bool)
    requires
        k <= l@.len(),
        tid_pat@ == "tid=0x"@,
        nid_pat@ == "nid="@,
    ensures
        b == tid_at(l@, k as int),
{
    proof {
        reveal_strlit("tid=0x");
        reveal_strlit("nid=");
    }
    let n = l.len();
    proof {
        assert(n == l@.len());
    }
    if !check_lit_at(l, k, tid_pat) {
        return false;
    }
    let h = scan_hexl(l, k + 6);
    if !(h > k + 6) {
        return false;
    }
    let w = scan_ws(l, h);
    if !(w > h) {
        return false;
    }
    if !check_lit_at(l, w, nid_pat) {
        return false;
    }
    let d = scan_digits(l, w + 4);
    if !(d > w + 4) {
        return false;
    }
    nid_tail_check(l, d)
}

/// Executable test for `hdr_at`.
fn hdr_check_at(l: &Vec<char>, i: usize, tid_pat: &Vec<char>, nid_pat: &Vec<char>) -> (b: bool)
    requires
        i <= l@.len(),
        tid_pat@ == "tid=0x"@,
        nid_pat@ == "nid="@,
    ensures
        b == hdr_at(l@, i as int),
{
    let n = l.len();
    proof {
        assert(n == l@.len());
    }
    if !(i < n && l[i] == '"') {
        return false;
    }
    let ne = scan_nonquote(l, i + 1);
    if !(ne > i + 1 && ne < n && l[ne] == '"') {
        return false;
    }
    let w = scan_ws(l, ne + 1);
    if !(w > ne + 1 && w < n && l[w] == '#') {
        return false;
    }
    let d = scan_digits(l, w + 1);
    if !(d > w + 1) {
        return false;
    }
    let mut k: usize = d;
    loop
        invariant
            d <= k <= l@.len(),
            tid_pat@ == "tid=0x"@,
            nid_pat@ == "nid="@,
            i < l@.len() && l@[i as int] == '"',
            ne as int == nonquote_end(l@, i + 1) && ne > i + 1 && ne < l@.len() && l@[ne as int]
                == '"',
            w as int == ws_end(l@, ne + 1) && w > ne + 1 && w < l@.len() && l@[w as int] == '#',
            d as int == digits_end(l@, w + 1) && d > w + 1,
            forall|m: int| d <= m < k ==> !(#[trigger] tid_at(l@, m)),
        decreases l@.len() - k,
    {
        if k >= l.len() {
            proof {
                assert forall|m: int| d <= m implies !(#[trigger] tid_at(l@, m)) by {
                    if m < l@.len() {
                    } else {
                        reveal_strlit("tid=0x");
                        assert(!lit_at(l@, m, "tid=0x"@));
                    }
                }
            }
            return false;
        }
        if tid_check_at(l, k, tid_pat, nid_pat) {
            return true;
        }
        k = k + 1;
    }
}

/// Least header position on the line, if any.
fn hdr_find_exec(l: &Vec<char>, tid_pat: &Vec<char>, nid_pat: &Vec<char>) -> (r: Option<usize>)
    requires
        tid_pat@ == "tid=0x"@,
        nid_pat@ == "nid="@,
    ensures
        match r {
            Some(j) => j as int == hdr_find(l@, 0) && hdr_at(l@, j as int) && j < l@.len(),
            None => hdr_find(l@, 0) == -1,
        },
{
    let mut j: usize = 0;
    loop
        invariant
            j <= l@.len(),
            tid_pat@ == "tid=0x"@,
            nid_pat@ == "nid="@,
            hdr_find(l@, 0) == hdr_find(l@, j as int),
        decreases l@.len() - j,
    {
        if j >= l.len() {
            return None;
        }
        if hdr_check_at(l, j, tid_pat, nid_pat) {
            return Some(j);
        }
        j = j + 1;
    }
}

/// Executable test for `state_at`.
fn state_check_at(l: &Vec<char>, i: usize, state_pat: &Vec<char>) -> (b: bool)
    requires
        i <= l@.len(),
        state_pat@ == "java.lang.Thread.State:"@,
    ensures
        b == state_at(l@, i as int),
{
    proof {
        reveal_strlit("java.lang.Thread.State:");
    }
    let n = l.len();
    proof {
        assert(n == l@.len());
    }
    if !check_lit_at(l, i, state_pat) {
        return false;
    }
    let w = scan_ws(l, i + 23);
    w > i + 23 && w < n && word_char(l[w])
}

/// The state word of the line, if it bears the marker.
fn state_word_exec(l: &Vec<char>, state_pat: &Vec<char>) -> (r: Option<Vec<char>>)
    requires
        state_pat@ == "java.lang.Thread.State:"@,
    ensures
        match r {
            Some(wd) => state_word_of(l@) == Some(wd@),
            None => state_word_of(l@) is None,
        },
{
    proof {
        reveal_strlit("java.lang.Thread.State:");
    }
    let mut j: usize = 0;
    loop
        invariant
            j <= l@.len(),
            state_pat@ == "java.lang.Thread.State:"@,
            state_find(l@, 0) == state_find(l@, j as int),
        decreases l@.len() - j,
    {
        if j >= l.len() {
            return None;
        }
        if state_check_at(l, j, state_pat) {
            let w = scan_ws(l, j + 23);
            let we = scan_word(l, w);
            let wd = crate::text::copy_range(l, w, we);
            return Some(wd);
        }
        j = j + 1;
    }
}

/// The state a reported word stands for.
fn map_state_word(wd: &Vec<char>) -> (s: crate::types::ThreadState)
    ensures
        s == state_of_word(wd@),
{
    let runnable = to_chars("RUNNABLE");
    let blocked = to_chars("BLOCKED");
    let waiting = to_chars("WAITING");
    let timed = to_chars("TIMED_WAITING");
    let term = to_chars("TERMINATED");
    let new_w = to_chars("NEW");
    if chars_eq(wd, &runnable) {
        crate::types::ThreadState::Runnable
    } else if chars_eq(wd, &blocked) {
        crate::types::ThreadState::Blocked
    } else if chars_eq(wd, &waiting) {
        crate::types::ThreadState::Waiting
    } else if chars_eq(wd, &timed) {
        crate::types::ThreadState::TimedWaiting
    } else if chars_eq(wd, &term) {
        crate::types::ThreadState::Terminated
    } else if chars_eq(wd, &new_w) {
        crate::types::ThreadState::New
    } else {
        crate::types::ThreadState::Runnable
    }
}

/// The frame of a stack-frame line, if it is one.
fn frame_read(l: &Vec<char>, at_pat: &Vec<char>) -> (r: Option<crate::types::StackFrame>)
    requires
        at_pat@ == "at"@,
    ensures
        match r {
            Some(f) => match frame_of(l@) {
                Some(m) => f@ == m,
                None => false,
            },
            None => frame_of(l@) is None,
        },
{
    proof {
        reveal_strlit("at");
    }
    let n = l.len();
    proof {
        assert(n == l@.len());
    }
    let a0 = scan_ws(l, 0);
    if !(a0 >= 1 && check_lit_at(l, a0, at_pat)) {
        return None;
    }
    let w = scan_ws(l, a0 + 2);
    if !(w > a0 + 2) {
        return None;
    }
    let e = scan_cls(l, w);
    if !(e < n && l[e] == '(') {
        return None;
    }
    let d = match find_last_dot(l, w, e) {
        Some(d) => d,
        None => {
            return None;
        },
    };
    if !(d > w && d + 1 < e) {
        return None;
    }
    // the characters after the last dot must all be method characters
    let me = scan_mchar(l, d + 1);
    proof {
        lemma_mchar_end(l@, d + 1);
    }
    let m_ok = me >= e;
    proof {
        if m_ok {
            assert forall|k: int| d < k < e implies is_mchar(l@[k]) by {}
        } else {
            assert(!is_mchar(l@[me as int]));
        }
    }
    if !m_ok {
        return None;
    }
    proof {
        assert(frame_shape_at(l@));
    }
    let class_name = string_of_chars(&crate::text::copy_range(l, w, d));
    let method_name = string_of_chars(&crate::text::copy_range(l, d + 1, e));
    let c = scan_ncp(l, e + 1);
    let alt1 = if c > e + 1 && c < n && l[c] == ':' {
        let dd = scan_digits(l, c + 1);
        if dd > c + 1 && dd < n && l[dd] == ')' {
            Some((c, dd))
        } else {
            None
        }
    } else {
        None
    };
    match alt1 {
        Some((c, dd)) => {
            proof {
                assert(frame_alt1_at(l@, e as int));
                crate::text::lemma_digits_end(l@, (c + 1) as int);
            }
            let file = string_of_chars(&crate::text::copy_range(l, e + 1, c));
            let line_no: Option<u32> = match parse_u64(l, c + 1, dd) {
                Some(v) => if v <= 0xffff_ffff {
                    Some(v as u32)
                } else {
                    None
                },
                None => None,
            };
            Some(
                crate::types::StackFrame {
                    class_name,
                    method_name,
                    file_name: Some(file),
                    line_number: line_no,
                },
            )
        },
        None => {
            proof {
                assert(!frame_alt1_at(l@, e as int));
            }
            let rp = scan_np(l, e + 1);
            if rp > e + 1 && rp < n && l[rp] == ')' {
                proof {
                    assert(frame_alt2_at(l@, e as int));
                }
                let file = string_of_chars(&crate::text::copy_range(l, e + 1, rp));
                Some(
                    crate::types::StackFrame {
                        class_name,
                        method_name,
                        file_name: Some(file),
                        line_number: None,
                    },
                )
            } else {
                proof {
                    assert(!frame_alt2_at(l@, e as int));
                }
                None
            }
        },
    }
}


// ---------------------------------------------------------------------------
// Thread dump report: whole-dump grammar
// ---------------------------------------------------------------------------

/// First stop line at or after `j` for a record opened at `i`: the end of
/// the input, the hundred-line lookahead bound, or the next header line.
pub open spec fn wend(ls: Seq<Seq<char>>, i: int, j: int) -> int
    decreases i + 100 - j,
{
    if j >= ls.len() || j >= i + 100 || hdr_find(ls[j], 0) >= 0 {
        j
    } else {
        wend(ls, i, j + 1)
    }
}

/// Where the lookahead window of the record opened at `i` ends.
pub open spec fn window_end(ls: Seq<Seq<char>>, i: int) -> int {
    let j = wend(ls, i, i + 1);
    if j < i + 1 {
        i + 1
    } else if j > ls.len() {
        ls.len() as int
    } else {
        j
    }
}

/// The state word reported in `ls[a..b)`; a later marker supersedes an
/// earlier one.
pub open spec fn wstate(ls: Seq<Seq<char>>, a: int, b: int) -> Option<Seq<char>>
    decreases b - a,
{
    if b <= a {
        None
    } else if state_word_of(ls[b - 1]) is Some {
        state_word_of(ls[b - 1])
    } else {
        wstate(ls, a, b - 1)
    }
}

/// The stack frames reported in `ls[a..b)`, in line order.
pub open spec fn window_frames(ls: Seq<Seq<char>>, a: int, b: int) -> Seq<
    crate::types::StackFrameModel,
>
    decreases b - a,
{
    if b <= a {
        Seq::empty()
    } else {
        window_frames(ls, a, b - 1) + (match frame_of(ls[b - 1]) {
            Some(f) => seq![f],
            None => Seq::empty(),
        })
    }
}

/// One thread record of the dump.
pub struct ThreadRec {
    pub name: Seq<char>,
    pub id: nat,
    pub state: crate::types::ThreadState,
    pub frames: Seq<crate::types::StackFrameModel>,
}

/// The record an executable `ThreadInfo` must equal.
pub open spec fn thread_matches(m: crate::types::ThreadInfoModel, t: ThreadRec) -> bool {
    &&& m.name == t.name
    &&& m.id == t.id
    &&& m.state == t.state
    &&& m.stack_trace == t.frames
}

/// All thread records of the dump.  A header line opens a record; its state
/// and frames come from the lookahead window; scanning resumes at the
/// window's end.  An id figure beyond the result type fails the whole
/// parse.
pub open spec fn threads_result(ls: Seq<Seq<char>>, i: int) -> Result<Seq<ThreadRec>, ()>
    decreases ls.len() - i,
{
    if i < 0 || i >= ls.len() {
        Ok(Seq::empty())
    } else {
        match hdr_of(ls[i]) {
            Some(h) => if h.1 > u64::MAX {
                Err(())
            } else {
                let j = window_end(ls, i);
                match threads_result(ls, j) {
                    Ok(rest) => Ok(
                        seq![
                            (ThreadRec {
                                name: h.0,
                                id: h.1,
                                state: match wstate(ls, i + 1, j) {
                                    Some(w) => state_of_word(w),
                                    None => crate::types::ThreadState::Runnable,
                                },
                                frames: window_frames(ls, i + 1, j),
                            }),
                        ] + rest,
                    ),
                    Err(e) => Err(e),
                }
            },
            None => threads_result(ls, i + 1),
        }
    }
}

/// Threads from the thread-dump report: one per header line, each with the
/// state and stack frames found in its bounded lookahead window.  Fails
/// when no header is recognized, or when a thread id does not fit the
/// result type.
#[verifier::rlimit(100)]
pub fn parse_thread_dump(output: &str) -> (r: Result<Vec<crate::types::ThreadInfo>, String>)
    ensures
        ({
            let ls = lines_of(output@);
            match r {
                Ok(v) => match threads_result(ls, 0) {
                    Ok(ts) => ts.len() > 0 && v@.len() == ts.len() && (forall|k: int|
                        0 <= k < v@.len() ==> thread_matches(v@[k]@, ts[k])),
                    Err(_) => false,
                },
                Err(_) => match threads_result(ls, 0) {
                    Ok(ts) => ts.len() == 0,
                    Err(_) => true,
                },
            }
        }),
{
    let chars = to_chars(output);
    let lines = split_lines(&chars);
    let ghost ls = lines_of(output@);
    let tid_pat = to_chars("tid=0x");
    let nid_pat = to_chars("nid=");
    let state_pat = to_chars("java.lang.Thread.State:");
    let at_pat = to_chars("at");
    let n = lines.len();
    let mut out: Vec<crate::types::ThreadInfo> = Vec::new();
    let mut i: usize = 0;
    loop
        invariant
            i <= n,
            n == ls.len(),
            ls == lines_of(output@),
            lines@.len() == ls.len(),
            forall|k: int| 0 <= k < ls.len() ==> lines@[k]@ == ls[k],
            tid_pat@ == "tid=0x"@,
            nid_pat@ == "nid="@,
            state_pat@ == "java.lang.Thread.State:"@,
            at_pat@ == "at"@,
            (threads_result(ls, 0) is Err) == (threads_result(ls, i as int) is Err),
            (match threads_result(ls, i as int) {
                Ok(rest) => match threads_result(ls, 0) {
                    Ok(all) => all.len() == out@.len() + rest.len() && (forall|k: int|
                        0 <= k < out@.len() ==> thread_matches(out@[k]@, all[k])) && (forall|k: int|
                        0 <= k < rest.len() ==> rest[k] == all[out@.len() + k]),
                    Err(_) => false,
                },
                Err(_) => true,
            }),
        ensures
            ls == lines_of(output@),
            (match threads_result(ls, 0) {
                Ok(all) => all.len() == out@.len() && (forall|k: int|
                    0 <= k < out@.len() ==> thread_matches(out@[k]@, all[k])),
                Err(_) => false,
            }),
        decreases n - i,
    {
        if i >= n {
            proof {
                assert(threads_result(ls, i as int) == Ok::<Seq<ThreadRec>, ()>(
                    Seq::<ThreadRec>::empty(),
                ));
            }
            break;
        }
        let line = &lines[i];
        let h0 = match hdr_find_exec(line, &tid_pat, &nid_pat) {
            None => {
                proof {
                    assert(hdr_of(ls[i as int]) is None);
                    assert(threads_result(ls, i as int) == threads_result(ls, i + 1));
                }
                i = i + 1;
                continue;
            },
            Some(h0) => h0,
        };
        let ln = line.len();
        proof {
            assert(ln == line@.len());
            assert(hdr_of(ls[i as int]) == Some(
                (hdr_name(line@, h0 as int), hdr_id(line@, h0 as int)),
            ));
        }
        let ne = scan_nonquote(line, h0 + 1);
        let name_chars = crate::text::copy_range(line, h0 + 1, ne);
        let w = scan_ws(line, ne + 1);
        let d = scan_digits(line, w + 1);
        proof {
            crate::text::lemma_digits_end(line@, (w + 1) as int);
        }
        let id = match parse_u64(line, w + 1, d) {
            Some(v) => v,
            None => {
                proof {
                    assert(threads_result(ls, i as int) is Err);
                }
                return Err(String::from_str("Failed to parse thread id"));
            },
        };
        // scan the lookahead window for the state marker and stack frames
        let mut cur_state = crate::types::ThreadState::Runnable;
        let mut frames: Vec<crate::types::StackFrame> = Vec::new();
        let mut jj = i + 1;
        loop
            invariant
                i + 1 <= jj <= n,
                i < n,
                n == ls.len(),
                lines@.len() == ls.len(),
                forall|k: int| 0 <= k < ls.len() ==> lines@[k]@ == ls[k],
                tid_pat@ == "tid=0x"@,
                nid_pat@ == "nid="@,
                state_pat@ == "java.lang.Thread.State:"@,
                at_pat@ == "at"@,
                jj <= i + 100,
                wend(ls, i as int, i + 1) == wend(ls, i as int, jj as int),
                cur_state == (match wstate(ls, i + 1, jj as int) {
                    Some(wd) => state_of_word(wd),
                    None => crate::types::ThreadState::Runnable,
                }),
                frames@.len() == window_frames(ls, i + 1, jj as int).len(),
                forall|k: int|
                    0 <= k < frames@.len() ==> frames@[k]@ == window_frames(ls, i + 1, jj as int)[k],
            ensures
                i + 1 <= jj <= n,
                jj as int == window_end(ls, i as int),
                cur_state == (match wstate(ls, i + 1, jj as int) {
                    Some(wd) => state_of_word(wd),
                    None => crate::types::ThreadState::Runnable,
                }),
                frames@.len() == window_frames(ls, i + 1, jj as int).len(),
                forall|k: int|
                    0 <= k < frames@.len() ==> frames@[k]@ == window_frames(ls, i + 1, jj as int)[k],
            decreases i + 100 - jj,
        {
            if jj >= n || jj - i >= 100 {
                proof {
                    assert(wend(ls, i as int, jj as int) == jj);
                }
                break;
            }
            let l2 = &lines[jj];
            match hdr_find_exec(l2, &tid_pat, &nid_pat) {
                Some(_) => {
                    proof {
                        assert(hdr_find(ls[jj as int], 0) >= 0);
                        assert(wend(ls, i as int, jj as int) == jj);
                    }
                    break;
                },
                None => {
                    proof {
                        assert(hdr_find(ls[jj as int], 0) == -1);
                    }
                },
            }
            match state_word_exec(l2, &state_pat) {
                Some(wd) => {
                    cur_state = map_state_word(&wd);
                    proof {
                        assert(wstate(ls, i + 1, jj + 1) == Some(wd@));
                    }
                },
                None => {
                    proof {
                        assert(wstate(ls, i + 1, jj + 1) == wstate(ls, i + 1, jj as int));
                    }
                },
            }
            let ghost pre_frames = window_frames(ls, i + 1, jj as int);
            match frame_read(l2, &at_pat) {
                Some(f) => {
                    let ghost prev = frames@;
                    proof {
                        assert(window_frames(ls, i + 1, jj + 1) =~= pre_frames + seq![f@]);
                    }
                    frames.push(f);
                    proof {
                        assert forall|k: int| 0 <= k < frames@.len() implies frames@[k]@
                            == window_frames(ls, i + 1, jj + 1)[k] by {
                            if k < prev.len() {
                                assert(frames@[k] == prev[k]);
                                assert(prev[k]@ == pre_frames[k]);
                            } else {
                                assert(frames@[k] == f);
                            }
                        }
                    }
                },
                None => {
                    proof {
                        assert(window_frames(ls, i + 1, jj + 1) =~= pre_frames);
                    }
                },
            }
            jj = jj + 1;
        }
        let t = crate::types::ThreadInfo {
            id,
            name: string_of_chars(&name_chars),
            state: cur_state,
            stack_trace: frames,
        };
        let ghost rest_i = threads_result(ls, i as int);
        let ghost rest_j = threads_result(ls, jj as int);
        proof {
            assert(t@.stack_trace =~= window_frames(ls, i + 1, jj as int));
            assert(rest_i == (match rest_j {
                Ok(rest) => Ok::<Seq<ThreadRec>, ()>(
                    seq![
                        (ThreadRec {
                            name: hdr_name(line@, h0 as int),
                            id: hdr_id(line@, h0 as int),
                            state: match wstate(ls, i + 1, jj as int) {
                                Some(wd) => state_of_word(wd),
                                None => crate::types::ThreadState::Runnable,
                            },
                            frames: window_frames(ls, i + 1, jj as int),
                        }),
                    ] + rest,
                ),
                Err(e) => Err::<Seq<ThreadRec>, ()>(e),
            }));
        }
        let ghost prev_out = out@;
        out.push(t);
        proof {
            match rest_j {
                Ok(rest2) => {
                    let head = rest_i->Ok_0[0];
                    assert(thread_matches(t@, head));
                    match threads_result(ls, 0) {
                        Ok(all) => {
                            assert(rest_i->Ok_0.len() == 1 + rest2.len());
                            assert(all[prev_out.len() as int] == rest_i->Ok_0[0]);
                            assert forall|k: int| 0 <= k < out@.len() implies thread_matches(
                                out@[k]@,
                                all[k],
                            ) by {
                                if k < prev_out.len() {
                                    assert(out@[k] == prev_out[k]);
                                    assert(thread_matches(prev_out[k]@, all[k]));
                                } else {
                                    assert(out@[k] == t);
                                }
                            }
                            assert forall|k: int| 0 <= k < rest2.len() implies rest2[k] == all[
                            out@.len() + k] by {
                                assert(rest_i->Ok_0[1 + k] == rest2[k]);
                                assert(rest_i->Ok_0[1 + k] == all[prev_out.len() + 1 + k]);
                            }
                        },
                        Err(_) => {
                            assert(false);
                        },
                    }
                },
                Err(_) => {},
            }
        }
        i = jj;
    }
    if out.len() == 0 {
        return Err(String::from_str("No threads found in dump"));
    }
    Ok(out)
}

} // verus!
