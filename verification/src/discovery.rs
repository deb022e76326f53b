//! Parsing of the process lists the discovery tools print: one line per
//! candidate process, its id and reported main class, with the diagnostic
//! tools themselves filtered out.

use vstd::prelude::*;
use crate::text::{
    chars_eq, copy_range, find_lit, find_lit_from, is_digit, lines_of, num_of, parse_u64,
    scan_digits, split_lines, string_of_chars, to_chars, trim_bounds_of, trim_range,
};

verus! {

/// A candidate process reported by a discovery tool.
#[derive(Debug, Clone)]
pub struct DiscoveredJvm {
    pub pid: u32,
    pub main_class: String,
}

/// A reported main class that is itself one of the diagnostic tools.
pub open spec fn spec_should_filter(mc: Seq<char>) -> bool {
    ||| find_lit_from(mc, 0, "jdk.jcmd"@) >= 0
    ||| find_lit_from(mc, 0, "sun.tools.jcmd.JCmd"@) >= 0
    ||| find_lit_from(mc, 0, "sun.tools.jps.Jps"@) >= 0
    ||| find_lit_from(mc, 0, "sun.tools.jstat.Jstat"@) >= 0
    ||| mc == "Jps"@
    ||| mc == "JCmd"@
    ||| mc == "Jstat"@
}

/// The process a line reports: its trimmed form split at the first space
/// into a numeric id and the main class, kept only when the id fits and the
/// class is not filtered out.
pub open spec fn jvm_line_opt(l: Seq<char>) -> Option<(u32, Seq<char>)> {
    let a = trim_bounds_of(l).0;
    let b = trim_bounds_of(l).1;
    let t = l.subrange(a, b);
    if t.len() == 0 {
        None
    } else {
        let sp = find_lit_from(t, 0, " "@);
        if sp >= 0 {
            let mc = t.subrange(sp + 1, t.len() as int);
            if sp > 0 && (forall|k: int| 0 <= k < sp ==> is_digit(t[k])) && num_of(
                t.subrange(0, sp),
            ) <= u32::MAX && !spec_should_filter(mc) {
                Some((num_of(t.subrange(0, sp)) as u32, mc))
            } else {
                None
            }
        } else {
            None
        }
    }
}

/// All processes of the listing, in line order.
pub open spec fn jvms_from(ls: Seq<Seq<char>>, i: int) -> Seq<(u32, Seq<char>)>
    decreases ls.len() - i,
{
    if i < 0 || i >= ls.len() {
        Seq::empty()
    } else {
        (match jvm_line_opt(ls[i]) {
            Some(p) => seq![p],
            None => Seq::empty(),
        }) + jvms_from(ls, i + 1)
    }
}

/// Executable filter test over a character buffer.
fn filter_chars(mc: &Vec<char>) -> (b: bool)
    ensures
        b == spec_should_filter(mc@),
{
    let p1 = to_chars("jdk.jcmd");
    let p2 = to_chars("sun.tools.jcmd.JCmd");
    let p3 = to_chars("sun.tools.jps.Jps");
    let p4 = to_chars("sun.tools.jstat.Jstat");
    let e1 = to_chars("Jps");
    let e2 = to_chars("JCmd");
    let e3 = to_chars("Jstat");
    if find_lit(mc, 0, &p1).is_some() {
        return true;
    }
    if find_lit(mc, 0, &p2).is_some() {
        return true;
    }
    if find_lit(mc, 0, &p3).is_some() {
        return true;
    }
    if find_lit(mc, 0, &p4).is_some() {
        return true;
    }
    chars_eq(mc, &e1) || chars_eq(mc, &e2) || chars_eq(mc, &e3)
}

/// Is the reported main class one of the diagnostic tools themselves?
/// Such processes are kept out of the candidate list.
pub fn should_filter(main_class: &str) -> (b: bool)
    ensures
        b == spec_should_filter(main_class@),
{
    let mc = to_chars(main_class);
    filter_chars(&mc)
}

/// The shared listing parser: one candidate per line that carries a numeric
/// id, a space and an unfiltered main class; all other lines are skipped.
fn parse_jvm_list(output: &str) -> (r: Vec<DiscoveredJvm>)
    ensures
        r@.len() == jvms_from(lines_of(output@), 0).len(),
        forall|k: int|
            0 <= k < r@.len() ==> {
                &&& r@[k].pid == jvms_from(lines_of(output@), 0)[k].0
                &&& r@[k].main_class@ == jvms_from(lines_of(output@), 0)[k].1
            },
{
    let chars = to_chars(output);
    let lines = split_lines(&chars);
    let ghost ls = lines_of(output@);
    let space_pat = to_chars(" ");
    let mut out: Vec<DiscoveredJvm> = Vec::new();
    let mut i: usize = 0;
    loop
        invariant
            i <= lines@.len(),
            ls == lines_of(output@),
            lines@.len() == ls.len(),
            forall|k: int| 0 <= k < ls.len() ==> lines@[k]@ == ls[k],
            space_pat@ == " "@,
            jvms_from(ls, 0).len() == out@.len() + jvms_from(ls, i as int).len(),
            forall|k: int|
                0 <= k < out@.len() ==> {
                    &&& out@[k].pid == jvms_from(ls, 0)[k].0
                    &&& out@[k].main_class@ == jvms_from(ls, 0)[k].1
                },
            forall|k: int|
                0 <= k < jvms_from(ls, i as int).len() ==> jvms_from(ls, i as int)[k] == jvms_from(
                    ls,
                    0,
                )[out@.len() + k],
        ensures
            ls == lines_of(output@),
            out@.len() == jvms_from(ls, 0).len(),
            forall|k: int|
                0 <= k < out@.len() ==> {
                    &&& out@[k].pid == jvms_from(ls, 0)[k].0
                    &&& out@[k].main_class@ == jvms_from(ls, 0)[k].1
                },
        decreases lines@.len() - i,
    {
        if i >= lines.len() {
            proof {
                assert(jvms_from(ls, i as int) =~= Seq::<(u32, Seq<char>)>::empty());
            }
            break;
        }
        let line = &lines[i];
        let ghost entry = jvm_line_opt(ls[i as int]);
        proof {
            assert(jvms_from(ls, i as int) =~= (match entry {
                Some(p) => seq![p],
                None => Seq::<(u32, Seq<char>)>::empty(),
            }) + jvms_from(ls, i + 1));
        }
        let (a, b) = trim_range(line);
        let t = copy_range(line, a, b);
        let parsed: Option<DiscoveredJvm>;
        if t.len() == 0 {
            parsed = None;
        } else {
            match find_lit(&t, 0, &space_pat) {
                Some(sp) => {
                    proof {
                        reveal_strlit(" ");
                        crate::text::lemma_find_lit_from(t@, 0, " "@);
                    }
                    let d = scan_digits(&t, 0);
                    proof {
                        crate::text::lemma_digits_end(t@, 0);
                    }
                    if sp > 0 && d >= sp {
                        let pid64 = match parse_u64(&t, 0, sp) {
                            Some(v) => v,
                            None => u64::MAX,
                        };
                        let mc = copy_range(&t, sp + 1, t.len());
                        if pid64 <= 0xffff_ffff && !filter_chars(&mc) {
                            parsed = Some(
                                DiscoveredJvm {
                                    pid: pid64 as u32,
                                    main_class: string_of_chars(&mc),
                                },
                            );
                        } else {
                            parsed = None;
                        }
                    } else {
                        proof {
                            if d < sp {
                                assert(!is_digit(t@[d as int]));
                            }
                        }
                        parsed = None;
                    }
                },
                None => {
                    parsed = None;
                },
            }
        }
        match parsed {
            Some(j) => {
                proof {
                    assert(entry matches Some(p) && j.pid == p.0 && j.main_class@ == p.1);
                }
                let ghost prev = out@;
                out.push(j);
                proof {
                    assert forall|k: int|
                        0 <= k < out@.len() implies {
                        &&& out@[k].pid == jvms_from(ls, 0)[k].0
                        &&& out@[k].main_class@ == jvms_from(ls, 0)[k].1
                    } by {
                        if k < prev.len() {
                            assert(out@[k] == prev[k]);
                            assert(prev[k].pid == jvms_from(ls, 0)[k].0);
                        } else {
                            assert(jvms_from(ls, i as int)[0] == jvms_from(ls, 0)[prev.len()
                                as int]);
                            assert(jvms_from(ls, i as int)[0] == entry->Some_0);
                        }
                    }
                    assert forall|k: int|
                        0 <= k < jvms_from(ls, i + 1).len() implies #[trigger] jvms_from(ls, i + 1)[
                    k] == jvms_from(ls, 0)[out@.len() + k] by {
                        assert(jvms_from(ls, i as int)[1 + k] == jvms_from(ls, i + 1)[k]);
                        assert(jvms_from(ls, i as int)[1 + k] == jvms_from(ls, 0)[prev.len() + 1
                            + k]);
                    }
                }
            },
            None => {
                proof {
                    assert(entry is None);
                    assert forall|k: int|
                        0 <= k < jvms_from(ls, i + 1).len() implies #[trigger] jvms_from(ls, i + 1)[
                    k] == jvms_from(ls, 0)[out@.len() + k] by {
                        assert(jvms_from(ls, i as int)[k] == jvms_from(ls, i + 1)[k]);
                    }
                }
            },
        }
        i = i + 1;
    }
    out
}

/// Candidate processes from the rich tool's listing.
pub fn parse_jcmd_list(output: &str) -> (r: Vec<DiscoveredJvm>)
    ensures
        r@.len() == jvms_from(lines_of(output@), 0).len(),
        forall|k: int|
            0 <= k < r@.len() ==> {
                &&& r@[k].pid == jvms_from(lines_of(output@), 0)[k].0
                &&& r@[k].main_class@ == jvms_from(lines_of(output@), 0)[k].1
            },
{
    parse_jvm_list(output)
}

/// Candidate processes from the lighter discovery tool's listing; the
/// format is the same.
pub fn parse_jps_list(output: &str) -> (r: Vec<DiscoveredJvm>)
    ensures
        r@.len() == jvms_from(lines_of(output@), 0).len(),
        forall|k: int|
            0 <= k < r@.len() ==> {
                &&& r@[k].pid == jvms_from(lines_of(output@), 0)[k].0
                &&& r@[k].main_class@ == jvms_from(lines_of(output@), 0)[k].1
            },
{
    parse_jvm_list(output)
}

} // verus!
