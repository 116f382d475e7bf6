//! Splitting text into lines and trimming white space, as `str::lines` and
//! `str::trim` do, and the line-by-line comparison of two texts.
use vstd::prelude::*;
use crate::manifest_text::{nat_string, nat_text};
use crate::text::{chars_of, push_char, push_str, string_of};

verus! {

/// What `char::is_whitespace` answers (Unicode White_Space).
pub uninterp spec fn whitespace_char(c: char) -> bool;

/// Calls `char::is_whitespace`; the answer is named `whitespace_char`.
#[verifier::external_body]
pub fn is_whitespace(c: char) -> (r: bool)
    ensures
        r == whitespace_char(c),
{
    c.is_whitespace()
}

// ---------------------------------------------------------------------------
// Lines
// ---------------------------------------------------------------------------

/// `s` without one trailing carriage return.
pub open spec fn strip_cr(s: Seq<char>) -> Seq<char> {
    if s.len() > 0 && s.last() == '\r' {
        s.drop_last()
    } else {
        s
    }
}

/// Reading `s` from the left: the lines ended by a line feed so far (each
/// without its `\r\n` or `\n`), and the text after the last line feed.
pub open spec fn scan_lines(s: Seq<char>) -> (Seq<Seq<char>>, Seq<char>)
    decreases s.len(),
{
    if s.len() == 0 {
        (Seq::empty(), Seq::empty())
    } else {
        let (done, cur) = scan_lines(s.drop_last());
        if s.last() == '\n' {
            (done.push(strip_cr(cur)), Seq::empty())
        } else {
            (done, cur.push(s.last()))
        }
    }
}

/// The lines of `s` as `str::lines` gives them: split at line feeds, a
/// `\r` before a line feed dropped, and no empty last line after a final
/// line feed.
pub open spec fn lines_of(s: Seq<char>) -> Seq<Seq<char>> {
    let (done, cur) = scan_lines(s);
    if cur.len() == 0 {
        done
    } else {
        done.push(cur)
    }
}

/// `v` without one trailing carriage return.
fn without_cr(v: &Vec<char>) -> (r: Vec<char>)
    ensures
        r@ == strip_cr(v@),
{
    if v.len() > 0 && v[v.len() - 1] == '\r' {
        let mut out: Vec<char> = Vec::new();
        let mut i: usize = 0;
        while i < v.len() - 1
            invariant
                0 < v.len(),
                i <= v.len() - 1,
                out@ == v@.subrange(0, i as int),
            decreases v.len() - 1 - i,
        {
            out.push(v[i]);
            assert(v@.subrange(0, i + 1) =~= v@.subrange(0, i as int).push(v@[i as int]));
            i = i + 1;
        }
        assert(out@ =~= v@.drop_last());
        out
    } else {
        v.clone()
    }
}

/// The lines of `s`; see [`lines_of`].
pub fn text_lines(s: &str) -> (r: Vec<String>)
    ensures
        r.deep_view() == lines_of(s@),
{
    let cs = chars_of(s);
    let mut done: Vec<String> = Vec::new();
    let mut cur: Vec<char> = Vec::new();
    let mut i: usize = 0;
    while i < cs.len()
        invariant
            i <= cs@.len(),
            cs@ == s@,
            (done.deep_view(), cur@) == scan_lines(cs@.subrange(0, i as int)),
        decreases cs.len() - i,
    {
        assert(cs@.subrange(0, i + 1).drop_last() =~= cs@.subrange(0, i as int));
        let c = cs[i];
        if c == '\n' {
            let line = without_cr(&cur);
            let ghost before = done.deep_view();
            done.push(string_of(line.as_slice()));
            assert(done.deep_view() =~= before.push(strip_cr(cur@)));
            cur = Vec::new();
            assert(cur@ =~= Seq::<char>::empty());
        } else {
            cur.push(c);
        }
        i = i + 1;
    }
    assert(cs@.subrange(0, cs@.len() as int) =~= cs@);
    if cur.len() > 0 {
        let ghost before = done.deep_view();
        done.push(string_of(cur.as_slice()));
        assert(done.deep_view() =~= before.push(cur@));
    }
    done
}

// ---------------------------------------------------------------------------
// Trimming
// ---------------------------------------------------------------------------

/// `s` without leading white space.
pub open spec fn trim_start(s: Seq<char>) -> Seq<char>
    decreases s.len(),
{
    if s.len() > 0 && whitespace_char(s[0]) {
        trim_start(s.drop_first())
    } else {
        s
    }
}

/// `s` without trailing white space.
pub open spec fn trim_end(s: Seq<char>) -> Seq<char>
    decreases s.len(),
{
    if s.len() > 0 && whitespace_char(s.last()) {
        trim_end(s.drop_last())
    } else {
        s
    }
}

/// `s` without leading and trailing white space (`str::trim`).
pub open spec fn trimmed(s: Seq<char>) -> Seq<char> {
    trim_end(trim_start(s))
}

/// `s` without leading and trailing white space; see [`trimmed`].
pub fn trim_text(s: &str) -> (r: String)
    ensures
        r@ == trimmed(s@),
{
    let cs = chars_of(s);
    let n = cs.len();
    let mut a: usize = 0;
    assert(cs@.subrange(0, n as int) =~= cs@);
    while a < n && is_whitespace(cs[a])
        invariant
            a <= n == cs@.len(),
            cs@ == s@,
            trim_start(s@) == trim_start(cs@.subrange(a as int, n as int)),
        decreases n - a,
    {
        assert(cs@.subrange(a as int, n as int).drop_first() =~= cs@.subrange(a + 1, n as int));
        a = a + 1;
    }
    let ghost start = cs@.subrange(a as int, n as int);
    assert(trim_start(s@) == start);
    let mut b: usize = n;
    assert(start.subrange(0, (b - a) as int) =~= start);
    while b > a && is_whitespace(cs[b - 1])
        invariant
            a <= b <= n == cs@.len(),
            start == cs@.subrange(a as int, n as int),
            trim_end(start) == trim_end(cs@.subrange(a as int, b as int)),
        decreases b,
    {
        assert(cs@.subrange(a as int, b as int).drop_last() =~= cs@.subrange(a as int, b - 1));
        b = b - 1;
    }
    let kept = crate::text::sub_chars(cs.as_slice(), a, b);
    string_of(kept.as_slice())
}

/// The non-empty trimmed lines of `s`, in order.
pub open spec fn listed_items(ls: Seq<Seq<char>>) -> Seq<Seq<char>>
    decreases ls.len(),
{
    if ls.len() == 0 {
        Seq::empty()
    } else {
        let rest = listed_items(ls.drop_last());
        if trimmed(ls.last()).len() > 0 {
            rest.push(trimmed(ls.last()))
        } else {
            rest
        }
    }
}

/// The items of a listing printed one per line: each line trimmed, blank
/// lines skipped.
pub fn listing_items(s: &str) -> (r: Vec<String>)
    ensures
        r.deep_view() == listed_items(lines_of(s@)),
{
    let ls = text_lines(s);
    let ghost lv = ls.deep_view();
    let mut out: Vec<String> = Vec::new();
    let mut i: usize = 0;
    while i < ls.len()
        invariant
            i <= ls@.len(),
            lv == ls.deep_view(),
            out.deep_view() == listed_items(lv.subrange(0, i as int)),
        decreases ls.len() - i,
    {
        assert(lv.subrange(0, i + 1).drop_last() =~= lv.subrange(0, i as int));
        let t = trim_text(ls[i].as_str());
        if !t.as_str().is_empty() {
            let ghost before = out.deep_view();
            out.push(t);
            assert(out.deep_view() =~= before.push(trimmed(lv[i as int])));
        }
        i = i + 1;
    }
    assert(lv.subrange(0, lv.len() as int) =~= lv);
    out
}

// ---------------------------------------------------------------------------
// Line comparison
// ---------------------------------------------------------------------------

/// A difference between two texts, line by line.
#[derive(Debug, Clone, PartialEq, Eq)]
pub enum LineChange {
    /// Line `index` (from 0) differs
    Changed {
        /// Index of the line
        index: usize,
        /// The current line
        old: String,
        /// The new line
        new: String,
    },
    /// A line only the new text has, past the end of the current one
    Added(String),
    /// A line only the current text has, past the end of the new one
    Removed(String),
}

/// Model of [`LineChange`].
pub enum LineChangeModel {
    Changed(nat, Seq<char>, Seq<char>),
    Added(Seq<char>),
    Removed(Seq<char>),
}

impl View for LineChange {
    type V = LineChangeModel;

    open spec fn view(&self) -> LineChangeModel {
        match self {
            LineChange::Changed { index, old, new } => LineChangeModel::Changed(
                *index as nat,
                old@,
                new@,
            ),
            LineChange::Added(l) => LineChangeModel::Added(l@),
            LineChange::Removed(l) => LineChangeModel::Removed(l@),
        }
    }
}

/// The differing lines among the first `k` of both texts.
pub open spec fn changed_lines(a: Seq<Seq<char>>, b: Seq<Seq<char>>, k: int) -> Seq<LineChangeModel>
    decreases k,
{
    if k <= 0 {
        Seq::empty()
    } else {
        let rest = changed_lines(a, b, k - 1);
        if a[k - 1] != b[k - 1] {
            rest.push(LineChangeModel::Changed((k - 1) as nat, a[k - 1], b[k - 1]))
        } else {
            rest
        }
    }
}

/// The changes from lines `a` to lines `b`: the differing lines they share
/// positions for, then the lines past the end of the shorter one.
pub open spec fn line_changes_of(a: Seq<Seq<char>>, b: Seq<Seq<char>>) -> Seq<LineChangeModel> {
    if a.len() <= b.len() {
        changed_lines(a, b, a.len() as int) + Seq::new(
            (b.len() - a.len()) as nat,
            |j: int| LineChangeModel::Added(b[a.len() + j]),
        )
    } else {
        changed_lines(a, b, b.len() as int) + Seq::new(
            (a.len() - b.len()) as nat,
            |j: int| LineChangeModel::Removed(a[b.len() + j]),
        )
    }
}

/// The line-by-line changes from `current` to `new`; see [`line_changes_of`].
pub fn line_changes(current: &str, new: &str) -> (r: Vec<LineChange>)
    ensures
        crate::spin_config::views(r@) == line_changes_of(lines_of(current@), lines_of(new@)),
{
    let a = text_lines(current);
    let b = text_lines(new);
    let ghost av = a.deep_view();
    let ghost bv = b.deep_view();
    let n = if a.len() <= b.len() {
        a.len()
    } else {
        b.len()
    };
    let mut out: Vec<LineChange> = Vec::new();
    let mut i: usize = 0;
    while i < n
        invariant
            i <= n,
            n <= a@.len(),
            n <= b@.len(),
            av == a.deep_view(),
            bv == b.deep_view(),
            crate::spin_config::views(out@) == changed_lines(av, bv, i as int),
        decreases n - i,
    {
        assert(a[i as int]@ == av[i as int]);
        assert(b[i as int]@ == bv[i as int]);
        if !crate::text::str_eq(a[i].as_str(), b[i].as_str()) {
            let ghost before = crate::spin_config::views(out@);
            let ch = LineChange::Changed { index: i, old: a[i].clone(), new: b[i].clone() };
            out.push(ch);
            assert(crate::spin_config::views(out@) =~= before.push(ch@));
        }
        i = i + 1;
    }
    let ghost head = crate::spin_config::views(out@);
    if a.len() <= b.len() {
        let mut j: usize = a.len();
        while j < b.len()
            invariant
                a@.len() <= j <= b@.len(),
                n == a@.len(),
                av == a.deep_view(),
                bv == b.deep_view(),
                crate::spin_config::views(out@) == head + Seq::new(
                    (j - a@.len()) as nat,
                    |k: int| LineChangeModel::Added(bv[a@.len() + k]),
                ),
            decreases b.len() - j,
        {
            assert(b[j as int]@ == bv[j as int]);
            let ghost before = crate::spin_config::views(out@);
            let ch = LineChange::Added(b[j].clone());
            out.push(ch);
            assert(crate::spin_config::views(out@) =~= before.push(ch@));
            assert(crate::spin_config::views(out@) =~= head + Seq::new(
                (j + 1 - a@.len()) as nat,
                |k: int| LineChangeModel::Added(bv[a@.len() + k]),
            ));
            j = j + 1;
        }
    } else {
        let mut j: usize = b.len();
        while j < a.len()
            invariant
                b@.len() <= j <= a@.len(),
                n == b@.len(),
                av == a.deep_view(),
                bv == b.deep_view(),
                crate::spin_config::views(out@) == head + Seq::new(
                    (j - b@.len()) as nat,
                    |k: int| LineChangeModel::Removed(av[b@.len() + k]),
                ),
            decreases a.len() - j,
        {
            assert(a[j as int]@ == av[j as int]);
            let ghost before = crate::spin_config::views(out@);
            let ch = LineChange::Removed(a[j].clone());
            out.push(ch);
            assert(crate::spin_config::views(out@) =~= before.push(ch@));
            assert(crate::spin_config::views(out@) =~= head + Seq::new(
                (j + 1 - b@.len()) as nat,
                |k: int| LineChangeModel::Removed(av[b@.len() + k]),
            ));
            j = j + 1;
        }
    }
    out
}

// ---------------------------------------------------------------------------
// The diff report
// ---------------------------------------------------------------------------

/// `n` spaces.
pub open spec fn spaces(n: nat) -> Seq<char> {
    Seq::new(n, |_i: int| ' ')
}

/// The lines that show one change: a changed line as its number (from 1)
/// with the current text, then, under it, the new text; a line past the
/// end of one text with `+` or `-`.
pub open spec fn change_texts_of(c: LineChangeModel) -> Seq<Seq<char>> {
    match c {
        LineChangeModel::Changed(i, old, new) => seq![
            "Line "@ + nat_text(i + 1) + ": - "@ + old,
            "     "@ + spaces(nat_text(i).len()) + ": + "@ + new,
        ],
        LineChangeModel::Added(l) => seq!["+ "@ + l],
        LineChangeModel::Removed(l) => seq!["- "@ + l],
    }
}

/// The lines that show the changes, in order.
pub open spec fn changes_texts(cs: Seq<LineChangeModel>) -> Seq<Seq<char>>
    decreases cs.len(),
{
    if cs.len() == 0 {
        Seq::empty()
    } else {
        changes_texts(cs.drop_last()) + change_texts_of(cs.last())
    }
}

/// The report of how `new` differs from `current`: that nothing changed,
/// or the changes line by line.
pub open spec fn diff_report_of(current: Seq<char>, new: Seq<char>) -> Seq<Seq<char>> {
    if current == new {
        seq!["No changes detected"@]
    } else {
        seq!["Changes detected:"@, ""@] + changes_texts(line_changes_of(lines_of(current), lines_of(new)))
    }
}

/// Decimal text of `i + 1`.
fn successor_text(i: usize) -> (r: String)
    ensures
        r@ == nat_text(i as nat + 1),
{
    if (i as u64) < 18446744073709551615u64 {
        nat_string(i as u64 + 1)
    } else {
        proof {
            reveal_strlit("18446744073709551616");
            reveal_with_fuel(nat_text, 21);
            assert(nat_text(18446744073709551616nat) =~= "18446744073709551616"@);
        }
        "18446744073709551616".to_owned()
    }
}

fn space_string(n: usize) -> (r: String)
    ensures
        r@ == spaces(n as nat),
{
    let mut out = String::new();
    let mut i: usize = 0;
    while i < n
        invariant
            i <= n,
            out@ == spaces(i as nat),
        decreases n - i,
    {
        push_char(&mut out, ' ');
        assert(out@ =~= spaces((i + 1) as nat));
        i = i + 1;
    }
    out
}

/// The lines that show one change; see [`change_texts_of`].
pub fn change_texts(c: &LineChange) -> (r: Vec<String>)
    ensures
        r.deep_view() == change_texts_of(c@),
{
    let mut out: Vec<String> = Vec::new();
    match c {
        LineChange::Changed { index, old, new } => {
            let mut first = "Line ".to_owned();
            push_str(&mut first, successor_text(*index).as_str());
            push_str(&mut first, ": - ");
            push_str(&mut first, old.as_str());
            let width = nat_string(*index as u64);
            let mut second = "     ".to_owned();
            push_str(&mut second, space_string(chars_of(width.as_str()).len()).as_str());
            push_str(&mut second, ": + ");
            push_str(&mut second, new.as_str());
            out.push(first);
            out.push(second);
        },
        LineChange::Added(l) => {
            let mut t = "+ ".to_owned();
            push_str(&mut t, l.as_str());
            out.push(t);
        },
        LineChange::Removed(l) => {
            let mut t = "- ".to_owned();
            push_str(&mut t, l.as_str());
            out.push(t);
        },
    }
    assert(out.deep_view() =~= change_texts_of(c@));
    out
}

/// The report of how `new` differs from `current`; see [`diff_report_of`].
pub fn diff_report(current: &str, new: &str) -> (r: Vec<String>)
    ensures
        r.deep_view() == diff_report_of(current@, new@),
{
    let mut out: Vec<String> = Vec::new();
    if crate::text::str_eq(current, new) {
        out.push("No changes detected".to_owned());
        assert(out.deep_view() =~= diff_report_of(current@, new@));
        return out;
    }
    out.push("Changes detected:".to_owned());
    out.push("".to_owned());
    let changes = line_changes(current, new);
    let ghost cv = crate::spin_config::views(changes@);
    let mut i: usize = 0;
    while i < changes.len()
        invariant
            i <= changes@.len(),
            cv == crate::spin_config::views(changes@),
            cv == line_changes_of(lines_of(current@), lines_of(new@)),
            out.deep_view() == seq!["Changes detected:"@, ""@] + changes_texts(cv.subrange(0, i as int)),
        decreases changes@.len() - i,
    {
        assert(cv.subrange(0, i + 1).drop_last() =~= cv.subrange(0, i as int));
        assert(cv.subrange(0, i + 1).last() == changes@[i as int]@);
        let ts = change_texts(&changes[i]);
        let mut k: usize = 0;
        let ghost before = out.deep_view();
        while k < ts.len()
            invariant
                k <= ts@.len(),
                out.deep_view() == before + ts.deep_view().subrange(0, k as int),
            decreases ts@.len() - k,
        {
            let ghost prev = out.deep_view();
            out.push(ts[k].clone());
            assert(ts.deep_view()[k as int] == ts@[k as int]@);
            assert(out.deep_view() =~= prev.push(ts@[k as int]@));
            assert(out.deep_view() =~= before + ts.deep_view().subrange(0, k + 1));
            k = k + 1;
        }
        assert(ts.deep_view().subrange(0, ts@.len() as int) =~= ts.deep_view());
        assert(out.deep_view() =~= seq!["Changes detected:"@, ""@] + changes_texts(cv.subrange(0, i + 1)));
        i = i + 1;
    }
    assert(cv.subrange(0, changes@.len() as int) =~= cv);
    out
}

} // verus!
