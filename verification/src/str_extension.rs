//! Margin trimming for multi-line strings.
//!
//! [`MultilineStr::trim_margin_with`] splits a string into lines, trims
//! leading whitespace from each, drops a leading empty line, keeps only
//! the lines that start with the margin prefix (with the prefix removed),
//! and joins them back with newlines. A single-line string is handled on
//! its own: the prefix is removed when present and the line is kept
//! either way. The whole transformation is pinned down by
//! [`spec_trim_margin_with`], a specification-level pipeline mirroring
//! those steps over character sequences.

use vstd::prelude::*;
use vstd::string::StrSliceExecFns;
use crate::strutil::{is_unicode_whitespace, char_is_whitespace, chars_to_string};

verus! {

/// The index of the first newline in `s`, or `-1` when there is none.
pub open spec fn spec_find_newline(s: Seq<char>) -> int
    decreases s.len(),
{
    if s.len() == 0 {
        -1
    } else if s[0] == '\n' {
        0
    } else {
        let r = spec_find_newline(s.drop_first());
        if r < 0 {
            -1
        } else {
            r + 1
        }
    }
}

/// Removes a trailing carriage return, as line splitting does for a
/// `\r\n` line ending.
pub open spec fn spec_drop_cr(l: Seq<char>) -> Seq<char> {
    if l.len() > 0 && l.last() == '\r' {
        l.drop_last()
    } else {
        l
    }
}

/// Where the first newline of `s` sits: a valid index holding `'\n'`
/// with none before it, or `-1` when `s` has no newline at all.
pub proof fn lemma_find_newline(s: Seq<char>)
    ensures
        spec_find_newline(s) == -1 || (0 <= spec_find_newline(s) < s.len()),
        spec_find_newline(s) == -1 ==> forall|k: int| 0 <= k < s.len() ==> s[k] != '\n',
        spec_find_newline(s) >= 0 ==> s[spec_find_newline(s)] == '\n',
        spec_find_newline(s) >= 0 ==> forall|k: int|
            0 <= k < spec_find_newline(s) ==> s[k] != '\n',
    decreases s.len(),
{
    if s.len() > 0 && s[0] != '\n' {
        let d = s.drop_first();
        lemma_find_newline(d);
        if spec_find_newline(d) == -1 {
            assert forall|k: int| 0 <= k < s.len() implies s[k] != '\n' by {
                if k > 0 {
                    assert(s[k] == d[k - 1]);
                }
            }
        } else {
            assert forall|k: int| 0 <= k < spec_find_newline(s) implies s[k] != '\n' by {
                if k > 0 {
                    assert(s[k] == d[k - 1]);
                }
            }
        }
    }
}

/// The first newline of `s` is at `i` if `s[i]` is a newline and no
/// earlier character is.
pub proof fn lemma_find_newline_at(s: Seq<char>, i: int)
    requires
        0 <= i < s.len(),
        s[i] == '\n',
        forall|k: int| 0 <= k < i ==> s[k] != '\n',
    ensures
        spec_find_newline(s) == i,
    decreases i,
{
    if i > 0 {
        lemma_find_newline_at(s.drop_first(), i - 1);
    }
}

/// The lines of `s`: split at each newline, with a carriage return
/// directly before a newline removed, and the final line ending
/// optional — a trailing newline does not open one more empty line.
pub open spec fn spec_lines(s: Seq<char>) -> Seq<Seq<char>>
    decreases s.len(),
    via spec_lines_decreases
{
    if s.len() == 0 {
        seq![]
    } else {
        let i = spec_find_newline(s);
        if i < 0 {
            seq![s]
        } else {
            seq![spec_drop_cr(s.take(i))] + spec_lines(s.skip(i + 1))
        }
    }
}

#[via_fn]
proof fn spec_lines_decreases(s: Seq<char>) {
    lemma_find_newline(s);
}

/// Splitting a buffer without newlines, followed by a newline and a
/// remainder, opens exactly one line holding the buffer.
proof fn lemma_lines_step(buf: Seq<char>, rest: Seq<char>)
    requires
        forall|k: int| 0 <= k < buf.len() ==> buf[k] != '\n',
        rest.len() > 0,
        rest[0] == '\n',
    ensures
        spec_lines(buf + rest) == seq![spec_drop_cr(buf)] + spec_lines(rest.skip(1)),
{
    let s = buf + rest;
    lemma_find_newline_at(s, buf.len() as int);
    assert(s.take(buf.len() as int) =~= buf);
    assert(s.skip(buf.len() as int + 1) =~= rest.skip(1));
}

/// A buffer without newlines is a single line of itself, or no line at
/// all when it is empty.
proof fn lemma_lines_flat(buf: Seq<char>)
    requires
        forall|k: int| 0 <= k < buf.len() ==> buf[k] != '\n',
    ensures
        buf.len() == 0 ==> spec_lines(buf) == Seq::<Seq<char>>::empty(),
        buf.len() > 0 ==> spec_lines(buf) == seq![buf],
{
    lemma_find_newline(buf);
}

/// Leading whitespace removed.
pub open spec fn spec_trim_start(l: Seq<char>) -> Seq<char>
    decreases l.len(),
{
    if l.len() > 0 && is_unicode_whitespace(l[0]) {
        spec_trim_start(l.drop_first())
    } else {
        l
    }
}

/// Trimming removes exactly the maximal whitespace prefix: if the first
/// `i` characters are whitespace and the one after them (if any) is not,
/// what remains is the suffix from `i` on.
pub proof fn lemma_trim_start_at(l: Seq<char>, i: int)
    requires
        0 <= i <= l.len(),
        forall|k: int| 0 <= k < i ==> is_unicode_whitespace(l[k]),
        i < l.len() ==> !is_unicode_whitespace(l[i]),
    ensures
        spec_trim_start(l) == l.skip(i),
    decreases i,
{
    if i == 0 {
        assert(l.skip(0) =~= l);
    } else {
        lemma_trim_start_at(l.drop_first(), i - 1);
        assert(l.drop_first().skip(i - 1) =~= l.skip(i));
    }
}

/// The prefix-stripped line, when the line starts with the prefix.
pub open spec fn spec_strip_prefix(l: Seq<char>, p: Seq<char>) -> Option<Seq<char>> {
    if p.is_prefix_of(l) {
        Some(l.skip(p.len() as int))
    } else {
        None
    }
}

/// A leading empty line removed; the rest is kept as it is.
pub open spec fn spec_remove_empty_lines(ls: Seq<Seq<char>>) -> Seq<Seq<char>> {
    if ls.len() > 0 && ls[0].len() == 0 {
        ls.drop_first()
    } else {
        ls
    }
}

/// The lines that carry the margin prefix, each with the prefix removed;
/// lines without the prefix are dropped.
pub open spec fn spec_strip_lines(ls: Seq<Seq<char>>, p: Seq<char>) -> Seq<Seq<char>>
    decreases ls.len(),
{
    if ls.len() == 0 {
        seq![]
    } else {
        let rest = spec_strip_lines(ls.drop_first(), p);
        match spec_strip_prefix(ls[0], p) {
            Some(st) => seq![st] + rest,
            None => rest,
        }
    }
}

/// The lines joined with single newlines, with no trailing newline.
pub open spec fn spec_join_lines(ls: Seq<Seq<char>>) -> Seq<char>
    decreases ls.len(),
{
    if ls.len() == 0 {
        Seq::empty()
    } else if ls.len() == 1 {
        ls[0]
    } else {
        spec_join_lines(ls.drop_last()) + seq!['\n'] + ls.last()
    }
}

/// The views of a sequence of character vectors.
pub open spec fn views_of(ls: Seq<Vec<char>>) -> Seq<Seq<char>> {
    ls.map_values(|l: Vec<char>| l@)
}

/// The lines of `s`, each with leading whitespace removed.
pub open spec fn spec_trimmed_lines(s: Seq<char>) -> Seq<Seq<char>> {
    spec_lines(s).map_values(|l: Seq<char>| spec_trim_start(l))
}

/// The whole margin-trimming pipeline over character sequences.
pub open spec fn spec_trim_margin_with(s: Seq<char>, p: Seq<char>) -> Seq<char> {
    let ls = spec_trimmed_lines(s);
    if ls.len() == 0 {
        Seq::empty()
    } else if ls.len() == 1 {
        match spec_strip_prefix(ls[0], p) {
            Some(st) => st,
            None => ls[0],
        }
    } else {
        spec_join_lines(spec_strip_lines(spec_remove_empty_lines(ls), p))
    }
}

fn str_to_char_vec(s: &str) -> (v: Vec<char>)
    ensures
        v@ == s@,
{
    let n = s.unicode_len();
    let mut v: Vec<char> = Vec::new();
    let mut i: usize = 0;
    while i < n
        invariant
            n == s@.len(),
            i <= n,
            v@ =~= s@.take(i as int),
        decreases n - i,
    {
        let c = s.get_char(i);
        v.push(c);
        i += 1;
    }
    proof {
        assert(v@ =~= s@);
    }
    v
}

fn split_lines(chars: &Vec<char>) -> (lines: Vec<Vec<char>>)
    ensures
        views_of(lines@) == spec_lines(chars@),
{
    let n = chars.len();
    let mut lines: Vec<Vec<char>> = Vec::new();
    let mut buf: Vec<char> = Vec::new();
    let mut i: usize = 0;
    proof {
        assert(buf@ + chars@.skip(0) =~= chars@);
        assert(views_of(lines@) =~= Seq::<Seq<char>>::empty());
        assert(spec_lines(chars@) =~= views_of(lines@) + spec_lines(buf@ + chars@.skip(0)));
    }
    while i < n
        invariant
            n == chars@.len(),
            i <= n,
            forall|k: int| 0 <= k < buf@.len() ==> buf@[k] != '\n',
            spec_lines(chars@) =~= views_of(lines@) + spec_lines(buf@ + chars@.skip(i as int)),
        decreases n - i,
    {
        let c = chars[i];
        if c == '\n' {
            let ghost rest = chars@.skip(i as int);
            proof {
                lemma_lines_step(buf@, rest);
                assert(rest.skip(1) =~= chars@.skip(i as int + 1));
            }
            let ghost prev_buf = buf@;
            if buf.len() > 0 && buf[buf.len() - 1] == '\r' {
                buf.pop();
            }
            let ghost prev_lines = lines@;
            proof {
                assert(buf@ =~= spec_drop_cr(prev_buf));
            }
            lines.push(buf);
            buf = Vec::new();
            proof {
                assert(views_of(lines@) =~= views_of(prev_lines).push(spec_drop_cr(prev_buf)));
                assert(buf@ + chars@.skip(i as int + 1) =~= chars@.skip(i as int + 1));
                assert(spec_lines(chars@) =~= views_of(lines@) + spec_lines(
                    buf@ + chars@.skip(i as int + 1),
                ));
            }
        } else {
            let ghost prev_buf = buf@;
            buf.push(c);
            proof {
                assert(buf@ + chars@.skip(i as int + 1) =~= prev_buf + chars@.skip(i as int));
            }
        }
        i += 1;
    }
    proof {
        assert(buf@ + chars@.skip(n as int) =~= buf@);
        lemma_lines_flat(buf@);
    }
    if buf.len() > 0 {
        let ghost prev_lines = lines@;
        let ghost fb = buf@;
        lines.push(buf);
        proof {
            assert(views_of(lines@) =~= views_of(prev_lines).push(fb));
        }
    }
    proof {
        assert(views_of(lines@) =~= spec_lines(chars@));
    }
    lines
}

fn trim_start_chars(line: &Vec<char>) -> (r: Vec<char>)
    ensures
        r@ == spec_trim_start(line@),
{
    let n = line.len();
    let mut i: usize = 0;
    while i < n
        invariant
            n == line@.len(),
            i <= n,
            forall|k: int| 0 <= k < i ==> is_unicode_whitespace(line@[k]),
        ensures
            i <= n,
            forall|k: int| 0 <= k < i ==> is_unicode_whitespace(line@[k]),
            i < n ==> !is_unicode_whitespace(line@[i as int]),
        decreases n - i,
    {
        if !char_is_whitespace(line[i]) {
            break;
        }
        i += 1;
    }
    let mut r: Vec<char> = Vec::new();
    let mut j: usize = i;
    while j < n
        invariant
            n == line@.len(),
            i <= j <= n,
            r@ =~= line@.subrange(i as int, j as int),
        decreases n - j,
    {
        r.push(line[j]);
        j += 1;
    }
    proof {
        lemma_trim_start_at(line@, i as int);
        assert(r@ =~= line@.skip(i as int));
    }
    r
}

fn trim_lines(lines: Vec<Vec<char>>) -> (r: Vec<Vec<char>>)
    ensures
        views_of(r@) == views_of(lines@).map_values(|l: Seq<char>| spec_trim_start(l)),
{
    let n = lines.len();
    let mut r: Vec<Vec<char>> = Vec::new();
    let mut i: usize = 0;
    while i < n
        invariant
            n == lines@.len(),
            i <= n,
            r@.len() == i,
            forall|k: int| 0 <= k < i ==> #[trigger] r@[k]@ == spec_trim_start(lines@[k]@),
        decreases n - i,
    {
        let t = trim_start_chars(&lines[i]);
        r.push(t);
        i += 1;
    }
    proof {
        assert(views_of(r@) =~= views_of(lines@).map_values(|l: Seq<char>| spec_trim_start(l)));
    }
    r
}

/// Removes a leading empty line; everything after it is kept exactly as
/// given.
fn remove_empty_lines(lines: Vec<Vec<char>>) -> (r: Vec<Vec<char>>)
    ensures
        views_of(r@) == spec_remove_empty_lines(views_of(lines@)),
{
    let mut lines = lines;
    let ghost orig = lines@;
    if lines.len() > 0 && lines[0].len() == 0 {
        lines.remove(0);
        proof {
            assert(lines@ =~= orig.drop_first());
            assert(views_of(orig)[0].len() == 0);
            assert(views_of(lines@) =~= views_of(orig).drop_first());
            assert(views_of(lines@) =~= spec_remove_empty_lines(views_of(orig)));
        }
    } else {
        proof {
            assert(views_of(lines@) =~= spec_remove_empty_lines(views_of(orig)));
        }
    }
    lines
}

fn strip_prefix_chars(line: &Vec<char>, prefix: &Vec<char>) -> (r: Option<Vec<char>>)
    ensures
        match r {
            Some(st) => spec_strip_prefix(line@, prefix@) == Some(st@),
            None => spec_strip_prefix(line@, prefix@) is None,
        },
{
    let pn = prefix.len();
    let n = line.len();
    if pn > n {
        proof {
            assert(!prefix@.is_prefix_of(line@));
        }
        return None;
    }
    let mut i: usize = 0;
    while i < pn
        invariant
            pn == prefix@.len(),
            n == line@.len(),
            pn <= n,
            i <= pn,
            forall|k: int| 0 <= k < i ==> prefix@[k] == line@[k],
        decreases pn - i,
    {
        if prefix[i] != line[i] {
            proof {
                assert(!prefix@.is_prefix_of(line@)) by {
                    if prefix@.is_prefix_of(line@) {
                        assert(prefix@ =~= line@.subrange(0, pn as int));
                    }
                }
            }
            return None;
        }
        i += 1;
    }
    proof {
        assert(prefix@ =~= line@.subrange(0, pn as int));
        assert(prefix@.is_prefix_of(line@));
    }
    let mut st: Vec<char> = Vec::new();
    let mut j: usize = pn;
    while j < n
        invariant
            n == line@.len(),
            pn <= j <= n,
            st@ =~= line@.subrange(pn as int, j as int),
        decreases n - j,
    {
        st.push(line[j]);
        j += 1;
    }
    proof {
        assert(st@ =~= line@.skip(pn as int));
    }
    Some(st)
}

fn strip_lines(lines: &Vec<Vec<char>>, prefix: &Vec<char>) -> (r: Vec<Vec<char>>)
    ensures
        views_of(r@) == spec_strip_lines(views_of(lines@), prefix@),
{
    let n = lines.len();
    let mut r: Vec<Vec<char>> = Vec::new();
    let mut i: usize = 0;
    proof {
        assert(views_of(lines@).skip(0) =~= views_of(lines@));
        assert(views_of(r@) =~= Seq::<Seq<char>>::empty());
    }
    while i < n
        invariant
            n == lines@.len(),
            i <= n,
            spec_strip_lines(views_of(lines@), prefix@) =~= views_of(r@) + spec_strip_lines(
                views_of(lines@).skip(i as int),
                prefix@,
            ),
        decreases n - i,
    {
        proof {
            let vs = views_of(lines@);
            assert(vs[i as int] == lines@[i as int]@);
            assert(vs.skip(i as int).drop_first() =~= vs.skip(i as int + 1));
            assert(vs.skip(i as int)[0] == vs[i as int]);
        }
        match strip_prefix_chars(&lines[i], prefix) {
            Some(st) => {
                let ghost stv = st@;
                let ghost prev = r@;
                r.push(st);
                proof {
                    let vs = views_of(lines@);
                    assert(spec_strip_lines(vs.skip(i as int), prefix@) == seq![stv]
                        + spec_strip_lines(vs.skip(i as int + 1), prefix@));
                    assert(views_of(r@) =~= views_of(prev).push(stv));
                    assert(spec_strip_lines(vs, prefix@) =~= views_of(r@) + spec_strip_lines(
                        vs.skip(i as int + 1),
                        prefix@,
                    ));
                }
            },
            None => {
                proof {
                    let vs = views_of(lines@);
                    assert(spec_strip_lines(vs.skip(i as int), prefix@) == spec_strip_lines(
                        vs.skip(i as int + 1),
                        prefix@,
                    ));
                }
            },
        }
        i += 1;
    }
    proof {
        assert(views_of(lines@).skip(n as int) =~= Seq::<Seq<char>>::empty());
        assert(views_of(r@) =~= spec_strip_lines(views_of(lines@), prefix@));
    }
    r
}

fn join_lines(lines: &Vec<Vec<char>>) -> (r: Vec<char>)
    ensures
        r@ == spec_join_lines(views_of(lines@)),
{
    let n = lines.len();
    let mut out: Vec<char> = Vec::new();
    let mut i: usize = 0;
    while i < n
        invariant
            n == lines@.len(),
            i <= n,
            out@ =~= spec_join_lines(views_of(lines@).take(i as int)),
        decreases n - i,
    {
        if i > 0 {
            out.push('\n');
        }
        let ghost base = out@;
        let line = &lines[i];
        let m = line.len();
        let mut j: usize = 0;
        while j < m
            invariant
                m == line@.len(),
                j <= m,
                out@ =~= base + line@.take(j as int),
            decreases m - j,
        {
            out.push(line[j]);
            j += 1;
        }
        proof {
            assert(line@.take(m as int) =~= line@);
            let vs = views_of(lines@);
            assert(vs[i as int] == lines@[i as int]@);
            assert(vs.take(i as int + 1).drop_last() =~= vs.take(i as int));
            assert(vs.take(i as int + 1).last() == vs[i as int]);
            assert(out@ =~= spec_join_lines(vs.take(i as int + 1)));
        }
        i += 1;
    }
    proof {
        assert(views_of(lines@).take(n as int) =~= views_of(lines@));
    }
    out
}

/// Removing the margin of a multi-line string.
pub trait MultilineStr {
    /// The text this value stands for.
    spec fn text(&self) -> Seq<char>;

    /// Removes the margin from each line of the string, where the margin
    /// is marked by `margin_prefix`.
    fn trim_margin_with(&self, margin_prefix: &str) -> (r: String)
        ensures
            r@ == spec_trim_margin_with(self.text(), margin_prefix@),
    ;

    /// Removes the margin from each line of the string, using `"|"` as
    /// the margin prefix.
    fn trim_margin(&self) -> (r: String)
        ensures
            r@ == spec_trim_margin_with(self.text(), "|"@),
    ;
}

impl MultilineStr for str {
    open spec fn text(&self) -> Seq<char> {
        self@
    }

    fn trim_margin_with(&self, margin_prefix: &str) -> (r: String) {
        let chars = str_to_char_vec(self);
        let prefix = str_to_char_vec(margin_prefix);
        let raw_lines = split_lines(&chars);
        let lines = trim_lines(raw_lines);
        if lines.len() == 0 {
            String::new()
        } else if lines.len() == 1 {
            match strip_prefix_chars(&lines[0], &prefix) {
                Some(st) => chars_to_string(&st),
                None => chars_to_string(&lines[0]),
            }
        } else {
            let cleaned = remove_empty_lines(lines);
            let stripped = strip_lines(&cleaned, &prefix);
            let joined = join_lines(&stripped);
            chars_to_string(&joined)
        }
    }

    fn trim_margin(&self) -> (r: String) {
        self.trim_margin_with("|")
    }
}

} // verus!
