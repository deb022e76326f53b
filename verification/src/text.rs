//! Character-level scanning primitives shared by the tool-output parsers.
//!
//! All specifications are stated over `Seq<char>`, the view of `&str` and of
//! the `Vec<char>` buffers the executable scanners work on.

use vstd::prelude::*;
use vstd::string::StrSliceExecFns;

verus! {

// ---------------------------------------------------------------------------
// Character classes
// ---------------------------------------------------------------------------

/// Whitespace as the tool reports use it (no line feed: scanning is per line).
pub open spec fn is_ws(c: char) -> bool {
    c == ' ' || c == '\t' || c == '\r' || c == '\u{b}' || c == '\u{c}'
}

pub open spec fn is_digit(c: char) -> bool {
    48 <= c as int <= 57
}

/// Value of a decimal digit character; zero for anything else.
pub open spec fn digit_val(c: char) -> nat {
    if is_digit(c) {
        (c as int - 48) as nat
    } else {
        0
    }
}

pub fn ws_char(c: char) -> (b: bool)
    ensures
        b == is_ws(c),
{
    c == ' ' || c == '\t' || c == '\r' || c == '\u{b}' || c == '\u{c}'
}

pub fn digit_char(c: char) -> (b: bool)
    ensures
        b == is_digit(c),
{
    let x = c as u32;
    48 <= x && x <= 57
}

// ---------------------------------------------------------------------------
// Runs of characters from a class
// ---------------------------------------------------------------------------

/// End of the whitespace run that starts at `i`.
pub open spec fn ws_end(s: Seq<char>, i: int) -> int
    decreases s.len() - i,
{
    if 0 <= i < s.len() && is_ws(s[i]) {
        ws_end(s, i + 1)
    } else {
        i
    }
}

/// End of the digit run that starts at `i`.
pub open spec fn digits_end(s: Seq<char>, i: int) -> int
    decreases s.len() - i,
{
    if 0 <= i < s.len() && is_digit(s[i]) {
        digits_end(s, i + 1)
    } else {
        i
    }
}

pub proof fn lemma_ws_end(s: Seq<char>, i: int)
    requires
        0 <= i <= s.len(),
    ensures
        i <= ws_end(s, i) <= s.len(),
        forall|k: int| i <= k < ws_end(s, i) ==> is_ws(s[k]),
        ws_end(s, i) < s.len() ==> !is_ws(s[ws_end(s, i)]),
    decreases s.len() - i,
{
    if 0 <= i < s.len() && is_ws(s[i]) {
        lemma_ws_end(s, i + 1);
    }
}

pub proof fn lemma_digits_end(s: Seq<char>, i: int)
    requires
        0 <= i <= s.len(),
    ensures
        i <= digits_end(s, i) <= s.len(),
        forall|k: int| i <= k < digits_end(s, i) ==> is_digit(s[k]),
        digits_end(s, i) < s.len() ==> !is_digit(s[digits_end(s, i)]),
    decreases s.len() - i,
{
    if 0 <= i < s.len() && is_digit(s[i]) {
        lemma_digits_end(s, i + 1);
    }
}

pub fn scan_ws(s: &Vec<char>, i: usize) -> (j: usize)
    requires
        i <= s@.len(),
    ensures
        j == ws_end(s@, i as int),
        i <= j <= s@.len(),
{
    let mut j: usize = i;
    loop
        invariant
            i <= j <= s@.len(),
            ws_end(s@, i as int) == ws_end(s@, j as int),
        decreases s@.len() - j,
    {
        if j < s.len() && ws_char(s[j]) {
            j = j + 1;
        } else {
            return j;
        }
    }
}

pub fn scan_digits(s: &Vec<char>, i: usize) -> (j: usize)
    requires
        i <= s@.len(),
    ensures
        j == digits_end(s@, i as int),
        i <= j <= s@.len(),
{
    let mut j: usize = i;
    loop
        invariant
            i <= j <= s@.len(),
            digits_end(s@, i as int) == digits_end(s@, j as int),
        decreases s@.len() - j,
    {
        if j < s.len() && digit_char(s[j]) {
            j = j + 1;
        } else {
            return j;
        }
    }
}

// ---------------------------------------------------------------------------
// Literal matching and searching
// ---------------------------------------------------------------------------

/// The literal `pat` occurs in `s` starting at `i`.
pub open spec fn lit_at(s: Seq<char>, i: int, pat: Seq<char>) -> bool {
    0 <= i && i + pat.len() <= s.len() && s.subrange(i, i + pat.len()) =~= pat
}

/// Least position `>= i` at which `pat` occurs, or -1 if there is none.
pub open spec fn find_lit_from(s: Seq<char>, i: int, pat: Seq<char>) -> int
    decreases s.len() - i,
{
    if i < 0 || i + pat.len() > s.len() {
        -1
    } else if lit_at(s, i, pat) {
        i
    } else {
        find_lit_from(s, i + 1, pat)
    }
}

pub proof fn lemma_find_lit_from(s: Seq<char>, i: int, pat: Seq<char>)
    requires
        0 <= i,
    ensures
        find_lit_from(s, i, pat) == -1 ==> forall|k: int| i <= k ==> !lit_at(s, k, pat),
        find_lit_from(s, i, pat) >= 0 ==> {
            &&& i <= find_lit_from(s, i, pat)
            &&& lit_at(s, find_lit_from(s, i, pat), pat)
            &&& forall|k: int| i <= k < find_lit_from(s, i, pat) ==> !lit_at(s, k, pat)
        },
    decreases s.len() - i,
{
    if i + pat.len() > s.len() {
        assert forall|k: int| i <= k implies !lit_at(s, k, pat) by {}
    } else if lit_at(s, i, pat) {
    } else {
        lemma_find_lit_from(s, i + 1, pat);
    }
}

/// Does the literal occur at `i`? Executable counterpart of `lit_at`.
pub fn check_lit_at(s: &Vec<char>, i: usize, pat: &Vec<char>) -> (b: bool)
    requires
        i <= s@.len(),
    ensures
        b == lit_at(s@, i as int, pat@),
{
    if pat.len() > s.len() - i {
        proof {
            assert(!lit_at(s@, i as int, pat@));
        }
        return false;
    }
    let mut k: usize = 0;
    loop
        invariant
            k <= pat@.len(),
            i + pat@.len() <= s@.len(),
            s@.len() <= usize::MAX,
            forall|m: int| 0 <= m < k ==> s@[i + m] == pat@[m],
        decreases pat@.len() - k,
    {
        if k < pat.len() {
            if s[i + k] != pat[k] {
                proof {
                    assert(s@.subrange(i as int, i + pat@.len())[k as int] == s@[i + k]);
                    assert(!lit_at(s@, i as int, pat@));
                }
                return false;
            }
            k = k + 1;
        } else {
            proof {
                assert forall|m: int| 0 <= m < pat@.len() implies s@.subrange(
                    i as int,
                    i + pat@.len(),
                )[m] == pat@[m] by {}
                assert(s@.subrange(i as int, i + pat@.len()) =~= pat@);
            }
            return true;
        }
    }
}

/// First occurrence of `pat` at or after `i`; `None` when there is none.
pub fn find_lit(s: &Vec<char>, i: usize, pat: &Vec<char>) -> (r: Option<usize>)
    requires
        i <= s@.len(),
    ensures
        match r {
            Some(j) => i <= j && j == find_lit_from(s@, i as int, pat@),
            None => find_lit_from(s@, i as int, pat@) == -1,
        },
{
    let mut j: usize = i;
    loop
        invariant
            i <= j <= s@.len() + 1,
            find_lit_from(s@, i as int, pat@) == find_lit_from(s@, j as int, pat@),
        decreases s@.len() + 1 - j,
    {
        if j > s.len() || pat.len() > s.len() - j {
            return None;
        }
        if check_lit_at(s, j, pat) {
            return Some(j);
        }
        j = j + 1;
    }
}

// ---------------------------------------------------------------------------
// Decimal numbers
// ---------------------------------------------------------------------------

/// Value of a digit string read left to right.
pub open spec fn num_of(s: Seq<char>) -> nat
    decreases s.len(),
{
    if s.len() == 0 {
        0
    } else {
        num_of(s.drop_last()) * 10 + digit_val(s.last())
    }
}

/// A longer digit string never has a smaller value.
pub proof fn lemma_num_of_prefix(s: Seq<char>, k: int, j: int)
    requires
        0 <= k <= j <= s.len(),
    ensures
        num_of(s.subrange(k, j)) >= num_of(s.subrange(k, k)),
        forall|m: int| k <= m <= j ==> num_of(s.subrange(k, j)) >= num_of(s.subrange(k, m)),
    decreases j - k,
{
    assert forall|m: int| k <= m <= j implies num_of(s.subrange(k, j)) >= num_of(
        s.subrange(k, m),
    ) by {
        lemma_num_of_extend(s, k, m, j);
    }
}

proof fn lemma_num_of_extend(s: Seq<char>, k: int, m: int, j: int)
    requires
        0 <= k <= m <= j <= s.len(),
    ensures
        num_of(s.subrange(k, j)) >= num_of(s.subrange(k, m)),
    decreases j - m,
{
    if m < j {
        lemma_num_of_extend(s, k, m, j - 1);
        assert(s.subrange(k, j).drop_last() =~= s.subrange(k, j - 1));
        assert(num_of(s.subrange(k, j)) == num_of(s.subrange(k, j - 1)) * 10 + digit_val(
            s.subrange(k, j).last(),
        ));
        assert(num_of(s.subrange(k, j - 1)) * 10 >= num_of(s.subrange(k, j - 1))) by (nonlinear_arith)
            requires
                num_of(s.subrange(k, j - 1)) >= 0,
        ;
    }
}

/// Reads the digit run `s[i..j)` as a `u64`; `None` when the value overflows.
pub fn parse_u64(s: &Vec<char>, i: usize, j: usize) -> (r: Option<u64>)
    requires
        i <= j <= s@.len(),
        forall|k: int| i <= k < j ==> is_digit(s@[k]),
    ensures
        match r {
            Some(v) => v == num_of(s@.subrange(i as int, j as int)) && num_of(
                s@.subrange(i as int, j as int),
            ) <= u64::MAX,
            None => num_of(s@.subrange(i as int, j as int)) > u64::MAX,
        },
{
    let mut acc: u64 = 0;
    let mut k: usize = i;
    proof {
        assert(s@.subrange(i as int, i as int) =~= Seq::<char>::empty());
    }
    loop
        invariant
            i <= k <= j <= s@.len(),
            forall|m: int| i <= m < j ==> is_digit(s@[m]),
            acc == num_of(s@.subrange(i as int, k as int)),
        decreases j - k,
    {
        if k == j {
            return Some(acc);
        }
        let d: u64 = (s[k] as u32 - 48) as u64;
        proof {
            assert(s@.subrange(i as int, k + 1).drop_last() =~= s@.subrange(i as int, k as int));
            assert(s@.subrange(i as int, k + 1).last() == s@[k as int]);
            assert(d == digit_val(s@[k as int]));
        }
        let step = match acc.checked_mul(10) {
            Some(t) => t.checked_add(d),
            None => None,
        };
        match step {
            Some(v) => {
                acc = v;
                k = k + 1;
            },
            None => {
                proof {
                    assert(num_of(s@.subrange(i as int, k + 1)) == acc * 10 + digit_val(
                        s@[k as int],
                    ));
                    lemma_num_of_prefix(s@, i as int, j as int);
                }
                return None;
            },
        }
    }
}

// ---------------------------------------------------------------------------
// Splitting into lines and whitespace-separated tokens
// ---------------------------------------------------------------------------

/// End of the run without a line feed that starts at `i`.
pub open spec fn nonnl_end(s: Seq<char>, i: int) -> int
    decreases s.len() - i,
{
    if 0 <= i < s.len() && s[i] != '\n' {
        nonnl_end(s, i + 1)
    } else {
        i
    }
}

/// End of the non-whitespace run that starts at `i`.
pub open spec fn nonws_end(s: Seq<char>, i: int) -> int
    decreases s.len() - i,
{
    if 0 <= i < s.len() && !is_ws(s[i]) && s[i] != '\n' {
        nonws_end(s, i + 1)
    } else {
        i
    }
}

pub proof fn lemma_nonnl_end(s: Seq<char>, i: int)
    requires
        0 <= i <= s.len(),
    ensures
        i <= nonnl_end(s, i) <= s.len(),
        forall|k: int| i <= k < nonnl_end(s, i) ==> s[k] != '\n',
        nonnl_end(s, i) < s.len() ==> s[nonnl_end(s, i)] == '\n',
    decreases s.len() - i,
{
    if 0 <= i < s.len() && s[i] != '\n' {
        lemma_nonnl_end(s, i + 1);
    }
}

pub proof fn lemma_nonws_end(s: Seq<char>, i: int)
    requires
        0 <= i <= s.len(),
    ensures
        i <= nonws_end(s, i) <= s.len(),
        forall|k: int| i <= k < nonws_end(s, i) ==> !is_ws(s[k]) && s[k] != '\n',
        nonws_end(s, i) < s.len() ==> is_ws(s[nonws_end(s, i)]) || s[nonws_end(s, i)] == '\n',
    decreases s.len() - i,
{
    if 0 <= i < s.len() && !is_ws(s[i]) && s[i] != '\n' {
        lemma_nonws_end(s, i + 1);
    }
}

pub fn scan_nonnl(s: &Vec<char>, i: usize) -> (j: usize)
    requires
        i <= s@.len(),
    ensures
        j == nonnl_end(s@, i as int),
        i <= j <= s@.len(),
{
    let mut j: usize = i;
    loop
        invariant
            i <= j <= s@.len(),
            nonnl_end(s@, i as int) == nonnl_end(s@, j as int),
        decreases s@.len() - j,
    {
        if j < s.len() && s[j] != '\n' {
            j = j + 1;
        } else {
            return j;
        }
    }
}

pub fn scan_nonws(s: &Vec<char>, i: usize) -> (j: usize)
    requires
        i <= s@.len(),
    ensures
        j == nonws_end(s@, i as int),
        i <= j <= s@.len(),
{
    let mut j: usize = i;
    loop
        invariant
            i <= j <= s@.len(),
            nonws_end(s@, i as int) == nonws_end(s@, j as int),
        decreases s@.len() - j,
    {
        if j < s.len() && !ws_char(s[j]) && s[j] != '\n' {
            j = j + 1;
        } else {
            return j;
        }
    }
}

/// A line's content: the chunk before a line feed, with one carriage return
/// stripped from its end.
pub open spec fn strip_cr(l: Seq<char>) -> Seq<char> {
    if l.len() > 0 && l.last() == '\r' {
        l.drop_last()
    } else {
        l
    }
}

/// The lines of `s[i..]`, split as `str::lines` splits: at `\n`, with a
/// preceding `\r` dropped, and without a final empty line.
pub open spec fn lines_from(s: Seq<char>, i: int) -> Seq<Seq<char>>
    decreases s.len() - i,
{
    if i < 0 || i >= s.len() {
        Seq::empty()
    } else {
        let e = nonnl_end(s, i);
        let e2 = if e < i {
            i
        } else {
            e
        };
        if e2 >= s.len() {
            seq![s.subrange(i, s.len() as int)]
        } else {
            seq![strip_cr(s.subrange(i, e2))] + lines_from(s, e2 + 1)
        }
    }
}

pub open spec fn lines_of(s: Seq<char>) -> Seq<Seq<char>> {
    lines_from(s, 0)
}

/// Copy of `s[i..j)`.
pub fn copy_range(s: &Vec<char>, i: usize, j: usize) -> (r: Vec<char>)
    requires
        i <= j <= s@.len(),
    ensures
        r@ == s@.subrange(i as int, j as int),
{
    let mut r: Vec<char> = Vec::new();
    let mut k: usize = i;
    loop
        invariant
            i <= k <= j <= s@.len(),
            r@ =~= s@.subrange(i as int, k as int),
        decreases j - k,
    {
        if k < j {
            r.push(s[k]);
            proof {
                assert(r@ =~= s@.subrange(i as int, k + 1));
            }
            k = k + 1;
        } else {
            proof {
                assert(r@ =~= s@.subrange(i as int, j as int));
            }
            return r;
        }
    }
}

/// Splits into lines exactly as `lines_of` describes.
pub fn split_lines(s: &Vec<char>) -> (r: Vec<Vec<char>>)
    ensures
        r@.len() == lines_of(s@).len(),
        forall|k: int| 0 <= k < r@.len() ==> r@[k]@ == lines_of(s@)[k],
{
    let mut out: Vec<Vec<char>> = Vec::new();
    let mut i: usize = 0;
    loop
        invariant
            i <= s@.len(),
            lines_of(s@).len() == out@.len() + lines_from(s@, i as int).len(),
            forall|k: int| 0 <= k < out@.len() ==> out@[k]@ == lines_of(s@)[k],
            forall|k: int|
                0 <= k < lines_from(s@, i as int).len() ==> lines_from(s@, i as int)[k]
                    == lines_of(s@)[out@.len() + k],
        decreases s@.len() - i,
    {
        if i >= s.len() {
            return out;
        }
        let e = scan_nonnl(s, i);
        proof {
            lemma_nonnl_end(s@, i as int);
        }
        let ghost pre = lines_from(s@, i as int);
        let line: Vec<char>;
        let next: usize;
        if e >= s.len() {
            line = copy_range(s, i, e);
            next = e;
            proof {
                assert(pre =~= seq![s@.subrange(i as int, s@.len() as int)]);
                assert(line@ == pre[0]);
                assert(lines_from(s@, next as int) =~= Seq::<Seq<char>>::empty());
            }
        } else {
            if e > i && s[e - 1] == '\r' {
                line = copy_range(s, i, e - 1);
                proof {
                    assert(s@.subrange(i as int, e as int).last() == s@[e - 1]);
                    assert(s@.subrange(i as int, e as int).drop_last() =~= s@.subrange(
                        i as int,
                        e - 1,
                    ));
                    assert(line@ == strip_cr(s@.subrange(i as int, e as int)));
                }
            } else {
                line = copy_range(s, i, e);
                proof {
                    if s@.subrange(i as int, e as int).len() > 0 {
                        assert(s@.subrange(i as int, e as int).last() == s@[e - 1]);
                    }
                    assert(line@ == strip_cr(s@.subrange(i as int, e as int)));
                }
            }
            next = e + 1;
            proof {
                assert(pre =~= seq![strip_cr(s@.subrange(i as int, e as int))] + lines_from(
                    s@,
                    e + 1,
                ));
            }
        }
        proof {
            assert(pre.len() == 1 + lines_from(s@, next as int).len());
            assert(pre[0] == line@);
            assert forall|k: int| 0 <= k < lines_from(s@, next as int).len() implies lines_from(
                s@,
                next as int,
            )[k] == lines_of(s@)[out@.len() + 1 + k] by {
                assert(lines_from(s@, next as int)[k] == pre[1 + k]);
            }
        }
        out.push(line);
        i = next;
    }
}

/// The whitespace-separated tokens of `s[i..]`.
pub open spec fn tokens_from(s: Seq<char>, i: int) -> Seq<Seq<char>>
    decreases s.len() - i,
{
    if i < 0 || i >= s.len() {
        Seq::empty()
    } else if is_ws(s[i]) || s[i] == '\n' {
        tokens_from(s, i + 1)
    } else {
        let e = nonws_end(s, i);
        let e2 = if i < e <= s.len() {
            e
        } else {
            i + 1
        };
        seq![s.subrange(i, e2)] + tokens_from(s, e2)
    }
}

pub open spec fn tokens_of(s: Seq<char>) -> Seq<Seq<char>> {
    tokens_from(s, 0)
}

/// Splits into whitespace-separated tokens exactly as `tokens_of` describes.
pub fn split_tokens(s: &Vec<char>) -> (r: Vec<Vec<char>>)
    ensures
        r@.len() == tokens_of(s@).len(),
        forall|k: int| 0 <= k < r@.len() ==> r@[k]@ == tokens_of(s@)[k],
{
    let mut out: Vec<Vec<char>> = Vec::new();
    let mut i: usize = 0;
    loop
        invariant
            i <= s@.len(),
            tokens_of(s@).len() == out@.len() + tokens_from(s@, i as int).len(),
            forall|k: int| 0 <= k < out@.len() ==> out@[k]@ == tokens_of(s@)[k],
            forall|k: int|
                0 <= k < tokens_from(s@, i as int).len() ==> tokens_from(s@, i as int)[k]
                    == tokens_of(s@)[out@.len() + k],
        decreases s@.len() - i,
    {
        if i >= s.len() {
            return out;
        }
        if ws_char(s[i]) || s[i] == '\n' {
            i = i + 1;
            continue;
        }
        let e = scan_nonws(s, i);
        proof {
            lemma_nonws_end(s@, i as int);
        }
        let ghost pre = tokens_from(s@, i as int);
        let tok = copy_range(s, i, e);
        proof {
            assert(pre =~= seq![s@.subrange(i as int, e as int)] + tokens_from(s@, e as int));
            assert(pre[0] == tok@);
            assert forall|k: int| 0 <= k < tokens_from(s@, e as int).len() implies tokens_from(
                s@,
                e as int,
            )[k] == tokens_of(s@)[out@.len() + 1 + k] by {
                assert(tokens_from(s@, e as int)[k] == pre[1 + k]);
            }
        }
        out.push(tok);
        i = e;
    }
}

// ---------------------------------------------------------------------------
// Trimming
// ---------------------------------------------------------------------------

/// Index one past the last non-whitespace character.
pub open spec fn trim_end_idx(s: Seq<char>) -> int
    decreases s.len(),
{
    if s.len() > 0 && (is_ws(s.last()) || s.last() == '\n') {
        trim_end_idx(s.drop_last())
    } else {
        s.len() as int
    }
}

/// Bounds `(a, b)` such that `s[a..b)` is `s` with surrounding whitespace
/// removed.
pub open spec fn trim_bounds_of(s: Seq<char>) -> (int, int) {
    let a = ws_end_nl(s, 0);
    let b = trim_end_idx(s);
    (a, if b < a {
        a
    } else {
        b
    })
}

/// End of the run of whitespace or line feeds that starts at `i`.
pub open spec fn ws_end_nl(s: Seq<char>, i: int) -> int
    decreases s.len() - i,
{
    if 0 <= i < s.len() && (is_ws(s[i]) || s[i] == '\n') {
        ws_end_nl(s, i + 1)
    } else {
        i
    }
}

pub proof fn lemma_ws_end_nl(s: Seq<char>, i: int)
    requires
        0 <= i <= s.len(),
    ensures
        i <= ws_end_nl(s, i) <= s.len(),
        forall|k: int| i <= k < ws_end_nl(s, i) ==> is_ws(s[k]) || s[k] == '\n',
        ws_end_nl(s, i) < s.len() ==> !is_ws(s[ws_end_nl(s, i)]) && s[ws_end_nl(s, i)] != '\n',
    decreases s.len() - i,
{
    if 0 <= i < s.len() && (is_ws(s[i]) || s[i] == '\n') {
        lemma_ws_end_nl(s, i + 1);
    }
}

pub proof fn lemma_trim_end_idx(s: Seq<char>)
    ensures
        0 <= trim_end_idx(s) <= s.len(),
        forall|k: int| trim_end_idx(s) <= k < s.len() ==> is_ws(s[k]) || s[k] == '\n',
        trim_end_idx(s) > 0 ==> !is_ws(s[trim_end_idx(s) - 1]) && s[trim_end_idx(s) - 1] != '\n',
    decreases s.len(),
{
    if s.len() > 0 && (is_ws(s.last()) || s.last() == '\n') {
        lemma_trim_end_idx(s.drop_last());
        assert forall|k: int| trim_end_idx(s) <= k < s.len() implies is_ws(s[k]) || s[k]
            == '\n' by {
            if k < s.len() - 1 {
                assert(s.drop_last()[k] == s[k]);
            }
        }
    }
}

/// Executable trim: returns the bounds of the trimmed middle of `s`.
pub fn trim_range(s: &Vec<char>) -> (r: (usize, usize))
    ensures
        (r.0 as int, r.1 as int) == trim_bounds_of(s@),
        r.0 <= r.1 <= s@.len(),
{
    let mut a: usize = 0;
    loop
        invariant
            a <= s@.len(),
            ws_end_nl(s@, 0) == ws_end_nl(s@, a as int),
        ensures
            a <= s@.len(),
            a == ws_end_nl(s@, 0),
        decreases s@.len() - a,
    {
        if a < s.len() && (ws_char(s[a]) || s[a] == '\n') {
            a = a + 1;
        } else {
            break;
        }
    }
    let mut b: usize = s.len();
    proof {
        assert(s@.subrange(0, b as int) =~= s@);
    }
    loop
        invariant
            b <= s@.len(),
            trim_end_idx(s@) == trim_end_idx(s@.subrange(0, b as int)),
        ensures
            b <= s@.len(),
            b == trim_end_idx(s@),
        decreases b,
    {
        if b > 0 && (ws_char(s[b - 1]) || s[b - 1] == '\n') {
            proof {
                assert(s@.subrange(0, b as int).last() == s@[b - 1]);
                assert(s@.subrange(0, b as int).drop_last() =~= s@.subrange(0, b - 1));
            }
            b = b - 1;
        } else {
            proof {
                if b > 0 {
                    assert(s@.subrange(0, b as int).last() == s@[b - 1]);
                }
                assert(s@.subrange(0, b as int).len() == b);
            }
            break;
        }
    }
    proof {
        lemma_ws_end_nl(s@, 0);
        lemma_trim_end_idx(s@);
    }
    if b < a {
        (a, a)
    } else {
        (a, b)
    }
}

// ---------------------------------------------------------------------------
// Building strings from characters
// ---------------------------------------------------------------------------

/// Relies on `String::push`: appends the given character at the end.
#[verifier::external_body]
pub fn push_char(s: &mut String, c: char)
    ensures
        final(s)@ == old(s)@.push(c),
{
    s.push(c);
}

/// A `String` holding exactly the characters of `v`.
pub fn string_of_chars(v: &Vec<char>) -> (s: String)
    ensures
        s@ == v@,
{
    let mut s = String::new();
    let mut k: usize = 0;
    loop
        invariant
            k <= v@.len(),
            s@ =~= v@.subrange(0, k as int),
        decreases v@.len() - k,
    {
        if k < v.len() {
            push_char(&mut s, v[k]);
            proof {
                assert(s@ =~= v@.subrange(0, k + 1));
            }
            k = k + 1;
        } else {
            proof {
                assert(s@ =~= v@);
            }
            return s;
        }
    }
}

/// The characters of `s`.
pub fn to_chars(s: &str) -> (v: Vec<char>)
    ensures
        v@ == s@,
{
    let n = s.unicode_len();
    let mut v: Vec<char> = Vec::new();
    let mut i: usize = 0;
    loop
        invariant
            i <= n,
            n == s@.len(),
            v@ =~= s@.subrange(0, i as int),
        decreases n - i,
    {
        if i < n {
            v.push(s.get_char(i));
            proof {
                assert(v@ =~= s@.subrange(0, i + 1));
            }
            i = i + 1;
        } else {
            proof {
                assert(v@ =~= s@);
            }
            return v;
        }
    }
}

// ---------------------------------------------------------------------------
// Decimal rendering
// ---------------------------------------------------------------------------

/// Character for one decimal digit.
pub open spec fn digit_char_of(d: int) -> char {
    ((48 + d) as u8) as char
}

/// Decimal representation of `n`, most significant digit first.
pub open spec fn dec_of(n: nat) -> Seq<char>
    decreases n,
{
    if n < 10 {
        seq![digit_char_of(n as int)]
    } else {
        dec_of(n / 10).push(digit_char_of((n % 10) as int))
    }
}

/// The decimal representation of `n` as a string.
pub fn u64_to_string(n: u64) -> (s: String)
    ensures
        s@ == dec_of(n as nat),
    decreases n,
{
    if n < 10 {
        let mut s = String::new();
        let c = (48 + n as u8) as char;
        push_char(&mut s, c);
        proof {
            assert(s@ =~= dec_of(n as nat));
        }
        s
    } else {
        let mut s = u64_to_string(n / 10);
        let c = (48 + (n % 10) as u8) as char;
        push_char(&mut s, c);
        proof {
            assert(s@ =~= dec_of(n as nat));
        }
        s
    }
}


/// Are two character buffers equal?
pub fn chars_eq(a: &Vec<char>, b: &Vec<char>) -> (r: bool)
    ensures
        r == (a@ == b@),
{
    if a.len() != b.len() {
        proof {
            if a@ == b@ {
                assert(a@.len() == b@.len());
            }
        }
        return false;
    }
    let r = check_lit_at(a, 0, b);
    proof {
        assert(a@.subrange(0, a@.len() as int) =~= a@);
        if r {
            assert(a@ == b@);
        } else {
            if a@ == b@ {
                assert(lit_at(a@, 0, b@));
            }
        }
    }
    r
}

} // verus!
