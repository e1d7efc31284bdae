//! Verified text utilities: suffix and substring tests over character
//! sequences, splitting output into lines, joining lines back, and trimming
//! surrounding whitespace.

use vstd::prelude::*;
use vstd::string::*;

verus! {

/// `l` ends with `suf`.
pub open spec fn ends_with_seq(l: Seq<char>, suf: Seq<char>) -> bool {
    suf.len() <= l.len() && l.subrange(l.len() - suf.len(), l.len() as int) == suf
}

/// `sub` occurs in `l` starting at position `i`.
pub open spec fn occurs_at(l: Seq<char>, sub: Seq<char>, i: int) -> bool {
    0 <= i && i + sub.len() <= l.len() && l.subrange(i, i + sub.len()) == sub
}

/// `l` contains `sub` somewhere.
pub open spec fn contains_seq(l: Seq<char>, sub: Seq<char>) -> bool {
    exists|i: int| occurs_at(l, sub, i)
}

/// Whether `s` ends with `suffix`, decided by comparing characters.
pub fn str_ends_with(s: &str, suffix: &str) -> (b: bool)
    ensures
        b == ends_with_seq(s@, suffix@),
{
    let n: usize = s.unicode_len();
    let m: usize = suffix.unicode_len();
    if m > n {
        return false;
    }
    let start: usize = n - m;
    let mut k: usize = 0;
    while k < m
        invariant
            m <= n,
            n == s@.len(),
            m == suffix@.len(),
            start == n - m,
            k <= m,
            forall|j: int| 0 <= j < k ==> s@[start + j] == suffix@[j],
        decreases m - k,
    {
        if s.get_char(start + k) != suffix.get_char(k) {
            assert(s@.subrange(start as int, n as int)[k as int] != suffix@[k as int]);
            return false;
        }
        k = k + 1;
    }
    assert(s@.subrange(start as int, n as int) =~= suffix@);
    true
}

/// Whether `sub` occurs in `s` starting at position `i`.
fn match_at(s: &str, sub: &str, i: usize) -> (b: bool)
    requires
        i + sub@.len() <= s@.len(),
    ensures
        b == occurs_at(s@, sub@, i as int),
{
    let n: usize = s.unicode_len();
    let m: usize = sub.unicode_len();
    let mut k: usize = 0;
    while k < m
        invariant
            n == s@.len(),
            m == sub@.len(),
            i + m <= n,
            k <= m,
            forall|j: int| 0 <= j < k ==> s@[i + j] == sub@[j],
        decreases m - k,
    {
        if s.get_char(i + k) != sub.get_char(k) {
            assert(s@.subrange(i as int, i + m)[k as int] != sub@[k as int]);
            return false;
        }
        k = k + 1;
    }
    assert(s@.subrange(i as int, i + m) =~= sub@);
    true
}

/// Whether `s` contains `sub`, decided by scanning every start position.
pub fn str_contains(s: &str, sub: &str) -> (b: bool)
    ensures
        b == contains_seq(s@, sub@),
{
    let n: usize = s.unicode_len();
    let m: usize = sub.unicode_len();
    if m > n {
        assert(forall|i: int| !occurs_at(s@, sub@, i));
        return false;
    }
    if m == 0 {
        assert(occurs_at(s@, sub@, 0)) by {
            assert(s@.subrange(0, 0) =~= sub@);
        }
        return true;
    }
    let last: usize = n - m;
    let mut i: usize = 0;
    while i <= last
        invariant
            0 < m <= n,
            n == s@.len(),
            m == sub@.len(),
            last == n - m,
            i <= last + 1,
            forall|j: int| 0 <= j < i ==> !occurs_at(s@, sub@, j),
        decreases last + 1 - i,
    {
        if match_at(s, sub, i) {
            return true;
        }
        i = i + 1;
    }
    assert forall|j: int| !occurs_at(s@, sub@, j) by {
        if occurs_at(s@, sub@, j) {
            assert(0 <= j <= last);
        }
    }
    false
}

/// The lines of `s`, split on every newline character. A terminal newline
/// leaves an empty trailing entry; the empty text is one empty line.
pub open spec fn split_lines_spec(s: Seq<char>) -> Seq<Seq<char>>
    decreases s.len(),
{
    if s.len() == 0 {
        seq![Seq::<char>::empty()]
    } else if s[0] == '\n' {
        seq![Seq::<char>::empty()] + split_lines_spec(s.drop_first())
    } else {
        let rest = split_lines_spec(s.drop_first());
        seq![seq![s[0]] + rest[0]] + rest.drop_first()
    }
}

proof fn lemma_split_lines_len(s: Seq<char>)
    ensures
        split_lines_spec(s).len() >= 1,
    decreases s.len(),
{
    if s.len() > 0 {
        lemma_split_lines_len(s.drop_first());
    }
}

/// Splitting a text whose first newline stands at `i` yields the prefix
/// before `i` followed by the split of what comes after it.
proof fn lemma_split_lines_at(s: Seq<char>, i: int)
    requires
        0 <= i < s.len(),
        forall|k: int| 0 <= k < i ==> s[k] != '\n',
        s[i] == '\n',
    ensures
        split_lines_spec(s) == seq![s.take(i)] + split_lines_spec(s.skip(i + 1)),
    decreases i,
{
    lemma_split_lines_len(s.skip(i + 1));
    if i == 0 {
        assert(s.take(0) =~= Seq::<char>::empty());
        assert(s.skip(1) =~= s.drop_first());
        assert(split_lines_spec(s) =~= seq![s.take(0)] + split_lines_spec(s.skip(1)));
    } else {
        let t = s.drop_first();
        assert(t[i - 1] == '\n');
        assert(forall|k: int| 0 <= k < i - 1 ==> t[k] == s[k + 1] && t[k] != '\n');
        lemma_split_lines_at(t, i - 1);
        lemma_split_lines_len(t.skip(i));
        assert(t.skip(i) =~= s.skip(i + 1));
        assert(seq![s[0]] + t.take(i - 1) =~= s.take(i));
        assert((seq![t.take(i - 1)] + split_lines_spec(t.skip(i))).drop_first() =~= split_lines_spec(
            t.skip(i),
        ));
        assert(split_lines_spec(s) =~= seq![s.take(i)] + split_lines_spec(s.skip(i + 1)));
    }
}

/// A text without any newline is one single line.
proof fn lemma_split_lines_none(s: Seq<char>)
    requires
        forall|k: int| 0 <= k < s.len() ==> s[k] != '\n',
    ensures
        split_lines_spec(s) == seq![s],
    decreases s.len(),
{
    if s.len() > 0 {
        lemma_split_lines_none(s.drop_first());
        assert(seq![s[0]] + s.drop_first() =~= s);
        assert(split_lines_spec(s) =~= seq![s]);
    } else {
        assert(s =~= Seq::<char>::empty());
        assert(split_lines_spec(s) =~= seq![s]);
    }
}

/// Splits `s` into its lines on newline characters, keeping a trailing empty
/// entry where `s` ends in a newline.
pub fn split_lines(s: &str) -> (lines: Vec<String>)
    ensures
        lines.deep_view() == split_lines_spec(s@),
{
    let n: usize = s.unicode_len();
    let mut lines: Vec<String> = Vec::new();
    let mut start: usize = 0;
    let mut i: usize = 0;
    proof {
        assert(s@.skip(0) =~= s@);
        assert(lines.deep_view() =~= Seq::<Seq<char>>::empty());
        assert(lines.deep_view() + split_lines_spec(s@) =~= split_lines_spec(s@));
    }
    while i < n
        invariant
            n == s@.len(),
            start <= i <= n,
            forall|k: int| start <= k < i ==> s@[k] != '\n',
            split_lines_spec(s@) == lines.deep_view() + split_lines_spec(s@.skip(start as int)),
        decreases n - i,
    {
        if s.get_char(i) == '\n' {
            let line = String::from_str(s.substring_char(start, i));
            let ghost old_lines = lines.deep_view();
            lines.push(line);
            proof {
                let tail = s@.skip(start as int);
                assert(forall|k: int|
                    0 <= k < i - start ==> tail[k] == s@[start + k] && tail[k] != '\n');
                assert(tail[i - start] == '\n');
                lemma_split_lines_at(tail, i - start);
                assert(tail.take(i - start) =~= s@.subrange(start as int, i as int));
                assert(tail.skip(i - start + 1) =~= s@.skip(i + 1));
                assert(lines.deep_view() =~= old_lines.push(line@));
                assert(lines.deep_view() + split_lines_spec(s@.skip(i + 1))
                    =~= old_lines + (seq![tail.take(i - start)] + split_lines_spec(
                    tail.skip(i - start + 1),
                )));
            }
            start = i + 1;
        }
        i = i + 1;
    }
    let line = String::from_str(s.substring_char(start, n));
    let ghost old_lines = lines.deep_view();
    lines.push(line);
    proof {
        let tail = s@.skip(start as int);
        assert(forall|k: int| 0 <= k < tail.len() ==> tail[k] == s@[start + k] && tail[k] != '\n');
        lemma_split_lines_none(tail);
        assert(tail =~= s@.subrange(start as int, n as int));
        assert(lines.deep_view() =~= old_lines.push(line@));
        assert(lines.deep_view() =~= old_lines + seq![tail]);
    }
    lines
}

/// The lines of `lines` joined with single newline separators; no terminal
/// newline is added.
pub open spec fn join_lines_spec(lines: Seq<Seq<char>>) -> Seq<char>
    decreases lines.len(),
{
    if lines.len() == 0 {
        Seq::<char>::empty()
    } else if lines.len() == 1 {
        lines[0]
    } else {
        lines[0] + seq!['\n'] + join_lines_spec(lines.drop_first())
    }
}

/// Joining one more line appends a newline separator and that line.
proof fn lemma_join_lines_push(lines: Seq<Seq<char>>, x: Seq<char>)
    requires
        lines.len() >= 1,
    ensures
        join_lines_spec(lines.push(x)) == join_lines_spec(lines) + seq!['\n'] + x,
    decreases lines.len(),
{
    if lines.len() == 1 {
        assert(lines.push(x)[0] == lines[0]);
        assert(lines.push(x).drop_first() =~= seq![x]);
        assert(join_lines_spec(seq![x]) == x);
        assert(join_lines_spec(lines.push(x)) =~= lines[0] + seq!['\n'] + x);
    } else {
        lemma_join_lines_push(lines.drop_first(), x);
        assert(lines.push(x).drop_first() =~= lines.drop_first().push(x));
        assert(join_lines_spec(lines.drop_first().push(x)) == join_lines_spec(lines.drop_first())
            + seq!['\n'] + x);
        assert(join_lines_spec(lines.push(x)) =~= join_lines_spec(lines) + seq!['\n'] + x);
    }
}

/// Joins the lines with newline separators.
pub fn join_lines(lines: &Vec<String>) -> (r: String)
    ensures
        r@ == join_lines_spec(lines.deep_view()),
{
    let mut r = String::new();
    let n: usize = lines.len();
    let mut i: usize = 0;
    while i < n
        invariant
            n == lines.len(),
            i <= n,
            r@ == join_lines_spec(lines.deep_view().take(i as int)),
        decreases n - i,
    {
        if i > 0 {
            r.append("\n");
            proof {
                reveal_strlit("\n");
            }
        }
        r.append(lines[i].as_str());
        proof {
            let dv = lines.deep_view();
            assert(dv.take(i + 1) =~= dv.take(i as int).push(dv[i as int]));
            if i > 0 {
                lemma_join_lines_push(dv.take(i as int), dv[i as int]);
            } else {
                assert(dv.take(1) =~= seq![dv[0]]);
            }
        }
        i = i + 1;
    }
    proof {
        assert(lines.deep_view().take(n as int) =~= lines.deep_view());
    }
    r
}

/// The whitespace characters trimmed from reported output.
pub open spec fn is_space_char(c: char) -> bool {
    c == ' ' || c == '\n' || c == '\t' || c == '\r'
}

/// `s` without leading whitespace characters.
pub open spec fn trim_start_spec(s: Seq<char>) -> Seq<char>
    decreases s.len(),
{
    if s.len() > 0 && is_space_char(s[0]) {
        trim_start_spec(s.drop_first())
    } else {
        s
    }
}

/// `s` without trailing whitespace characters.
pub open spec fn trim_end_spec(s: Seq<char>) -> Seq<char>
    decreases s.len(),
{
    if s.len() > 0 && is_space_char(s.last()) {
        trim_end_spec(s.drop_last())
    } else {
        s
    }
}

/// `s` without leading and trailing whitespace characters.
pub open spec fn trim_spec(s: Seq<char>) -> Seq<char> {
    trim_end_spec(trim_start_spec(s))
}

proof fn lemma_trim_start_at(s: Seq<char>, i: int)
    requires
        0 <= i <= s.len(),
        forall|k: int| 0 <= k < i ==> is_space_char(s[k]),
        i < s.len() ==> !is_space_char(s[i]),
    ensures
        trim_start_spec(s) == s.skip(i),
    decreases i,
{
    if i == 0 {
        assert(s.skip(0) =~= s);
    } else {
        let t = s.drop_first();
        assert(forall|k: int| 0 <= k < i - 1 ==> t[k] == s[k + 1] && is_space_char(t[k]));
        lemma_trim_start_at(t, i - 1);
        assert(t.skip(i - 1) =~= s.skip(i));
    }
}

proof fn lemma_trim_end_at(s: Seq<char>, j: int)
    requires
        0 <= j <= s.len(),
        forall|k: int| j <= k < s.len() ==> is_space_char(s[k]),
        j > 0 ==> !is_space_char(s[j - 1]),
    ensures
        trim_end_spec(s) == s.take(j),
    decreases s.len() - j,
{
    if j == s.len() {
        assert(s.take(j) =~= s);
    } else {
        let t = s.drop_last();
        assert(forall|k: int| j <= k < t.len() ==> t[k] == s[k] && is_space_char(t[k]));
        lemma_trim_end_at(t, j);
        assert(t.take(j) =~= s.take(j));
    }
}

/// `s` with surrounding whitespace removed, as reported output is tidied
/// before display.
pub fn trim_chars(s: &str) -> (r: String)
    ensures
        r@ == trim_spec(s@),
{
    let n: usize = s.unicode_len();
    let mut a: usize = 0;
    while a < n && is_space(s.get_char(a))
        invariant
            n == s@.len(),
            a <= n,
            forall|k: int| 0 <= k < a ==> is_space_char(s@[k]),
        decreases n - a,
    {
        a = a + 1;
    }
    proof {
        lemma_trim_start_at(s@, a as int);
    }
    let mut b: usize = n;
    while b > a && is_space(s.get_char(b - 1))
        invariant
            n == s@.len(),
            a <= b <= n,
            forall|k: int| b <= k < n ==> is_space_char(s@[k]),
        decreases b,
    {
        b = b - 1;
    }
    let r = String::from_str(s.substring_char(a, b));
    proof {
        let t = s@.skip(a as int);
        assert(forall|k: int|
            b - a <= k < t.len() ==> t[k] == s@[k + a] && is_space_char(t[k]));
        if b > a {
            assert(t[b - a - 1] == s@[b - 1]);
        }
        lemma_trim_end_at(t, b - a);
        assert(t.take(b - a) =~= s@.subrange(a as int, b as int));
    }
    r
}

/// Whether `c` counts as trimmable whitespace.
fn is_space(c: char) -> (b: bool)
    ensures
        b == is_space_char(c),
{
    c == ' ' || c == '\n' || c == '\t' || c == '\r'
}

} // verus!
