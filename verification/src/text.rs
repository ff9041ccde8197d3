//! Searching and splitting text, stated over sequences of characters.

use vstd::prelude::*;

verus! {

/// `pat` stands in `text` at offset `at`.
pub open spec fn occurs_at(text: Seq<char>, pat: Seq<char>, at: int) -> bool {
    &&& 0 <= at
    &&& at + pat.len() <= text.len()
    &&& text.subrange(at, at + pat.len()) == pat
}

/// `pat` stands somewhere in `text`.
pub open spec fn occurs_in(text: Seq<char>, pat: Seq<char>) -> bool {
    exists|at: int| occurs_at(text, pat, at)
}

/// `text` begins with `pat`.
pub open spec fn has_prefix(text: Seq<char>, pat: Seq<char>) -> bool {
    occurs_at(text, pat, 0)
}

/// The offset of the first `c` in `s`, or the length of `s` where it holds none.
pub open spec fn first_index_of(s: Seq<char>, c: char) -> int
    decreases s.len(),
{
    if s.len() == 0 || s[0] == c {
        0
    } else {
        1 + first_index_of(s.drop_first(), c)
    }
}

/// `first_index_of` is the one offset before which no `c` stands and at
/// which either a `c` stands or the sequence ends.
pub proof fn lemma_first_index_of(s: Seq<char>, c: char, k: int)
    requires
        0 <= k <= s.len(),
        forall|j: int| 0 <= j < k ==> s[j] != c,
        k < s.len() ==> s[k] == c,
    ensures
        first_index_of(s, c) == k,
    decreases s.len(),
{
    if s.len() == 0 || s[0] == c {
    } else {
        let t = s.drop_first();
        assert forall|j: int| 0 <= j < k - 1 implies t[j] != c by {
            assert(t[j] == s[j + 1]);
        }
        lemma_first_index_of(t, c, k - 1);
    }
}

/// Whether a character is white space: a character with the Unicode property
/// `White_Space`.
pub open spec fn is_whitespace(c: char) -> bool {
    let u = c as u32;
    ||| 0x09 <= u <= 0x0D
    ||| u == 0x20
    ||| u == 0x85
    ||| u == 0xA0
    ||| u == 0x1680
    ||| 0x2000 <= u <= 0x200A
    ||| u == 0x2028
    ||| u == 0x2029
    ||| u == 0x202F
    ||| u == 0x205F
    ||| u == 0x3000
}

/// The number of characters at the start of `s` that are all white space
/// (`white`) or all not (`!white`): the length of its first run of that kind.
pub open spec fn run_length(s: Seq<char>, white: bool) -> int
    decreases s.len(),
{
    if s.len() == 0 || is_whitespace(s[0]) != white {
        0
    } else {
        1 + run_length(s.drop_first(), white)
    }
}

/// `run_length` is the one offset before which every character is of the
/// kind asked for and at which one of the other kind stands, or the sequence
/// ends.
pub proof fn lemma_run_length(s: Seq<char>, white: bool, k: int)
    requires
        0 <= k <= s.len(),
        forall|j: int| 0 <= j < k ==> is_whitespace(s[j]) == white,
        k < s.len() ==> is_whitespace(s[k]) != white,
    ensures
        run_length(s, white) == k,
    decreases s.len(),
{
    if s.len() == 0 || is_whitespace(s[0]) != white {
    } else {
        let t = s.drop_first();
        assert forall|j: int| 0 <= j < k - 1 implies is_whitespace(t[j]) == white by {
            assert(t[j] == s[j + 1]);
        }
        lemma_run_length(t, white, k - 1);
    }
}

/// Where the run that begins at offset `from` of `text` ends: every
/// character from `from` up to there is of the kind asked for, and the one
/// that stands there, if any, is of the other kind.
pub proof fn lemma_run_from(text: Seq<char>, from: int, white: bool)
    requires
        0 <= from <= text.len(),
    ensures
        from <= from + run_length(text.subrange(from, text.len() as int), white) <= text.len(),
        forall|i: int|
            from <= i < from + run_length(text.subrange(from, text.len() as int), white)
                ==> is_whitespace(#[trigger] text[i]) == white,
        from + run_length(text.subrange(from, text.len() as int), white) < text.len()
            ==> is_whitespace(
            text[from + run_length(text.subrange(from, text.len() as int), white)],
        ) != white,
    decreases text.len() - from,
{
    let s = text.subrange(from, text.len() as int);
    if s.len() == 0 || is_whitespace(s[0]) != white {
    } else {
        assert(s[0] == text[from]);
        assert(s.drop_first() =~= text.subrange(from + 1, text.len() as int));
        lemma_run_from(text, from + 1, white);
    }
}

/// A token begins at offset `i` of `s`: a character that is no white space
/// stands there, at the very start or behind white space.
pub open spec fn token_starts_at(s: Seq<char>, i: int) -> bool {
    &&& 0 <= i < s.len()
    &&& !is_whitespace(s[i])
    &&& (i == 0 || is_whitespace(s[i - 1]))
}

/// The number of tokens of `s` that begin before offset `n`.
pub open spec fn tokens_before(s: Seq<char>, n: int) -> nat
    decreases n,
{
    if n <= 0 {
        0
    } else {
        tokens_before(s, n - 1) + if token_starts_at(s, n - 1) {
            1nat
        } else {
            0nat
        }
    }
}

/// The number of tokens of `s`: of its maximal runs of characters that are no
/// white space.
pub open spec fn token_count(s: Seq<char>) -> nat {
    tokens_before(s, s.len() as int)
}

/// Between two offsets the number of tokens begun grows by the number of
/// token starts between them: not at all where there is none, by one where
/// there is one at `m` and none behind it, and never downwards.
pub proof fn lemma_tokens_between(s: Seq<char>, m: int, n: int)
    requires
        0 <= m <= n,
    ensures
        tokens_before(s, m) <= tokens_before(s, n),
        (forall|i: int| m <= i < n ==> !token_starts_at(s, i)) ==> tokens_before(s, n)
            == tokens_before(s, m),
        (m < n && token_starts_at(s, m) && forall|i: int| m < i < n ==> !token_starts_at(s, i))
            ==> tokens_before(s, n) == tokens_before(s, m) + 1,
        (m < n && token_starts_at(s, m)) ==> tokens_before(s, n) >= tokens_before(s, m) + 1,
    decreases n - m,
{
    if m < n {
        lemma_tokens_between(s, m, n - 1);
    }
}

/// A line without the carriage return that stood before its line feed.
pub open spec fn strip_cr(line: Seq<char>) -> Seq<char> {
    if line.len() > 0 && line.last() == '\r' {
        line.drop_last()
    } else {
        line
    }
}

/// The lines of a text. A line ends at a line feed, or at a carriage return
/// directly followed by one; the terminator is no part of the line. The last
/// line needs no terminator, and where it has none it is kept as it stands.
pub open spec fn lines_of(text: Seq<char>) -> Seq<Seq<char>>
    decreases text.len(),
{
    if text.len() == 0 {
        Seq::empty()
    } else {
        let k = first_index_of(text, '\n');
        if 0 <= k < text.len() {
            seq![strip_cr(text.subrange(0, k))] + lines_of(text.subrange(k + 1, text.len() as int))
        } else {
            seq![text]
        }
    }
}

/// The characters of a string slice, as a vector.
pub fn chars_of(s: &str) -> (v: Vec<char>)
    ensures
        v@ == s@,
{
    let mut v: Vec<char> = Vec::new();
    for c in it: s.chars()
        invariant
            it.seq() == s@,
            v@ == it.seq().take(it.index()),
    {
        v.push(c);
    }
    v
}

/// The views of a vector of strings, in order.
pub open spec fn views_of(strings: Seq<String>) -> Seq<Seq<char>> {
    strings.map_values(|s: String| s@)
}

/// Whether `pat` stands in `text` at offset `at`.
pub fn matches_at(text: &Vec<char>, pat: &Vec<char>, at: usize) -> (b: bool)
    ensures
        b == occurs_at(text@, pat@, at as int),
{
    let m = pat.len();
    if m > text.len() || at > text.len() - m {
        return false;
    }
    let mut j: usize = 0;
    while j < m
        invariant
            j <= m,
            m == pat.len(),
            at + m <= text.len(),
            forall|i: int| 0 <= i < j ==> text[at + i] == pat[i],
        decreases m - j,
    {
        if text[at + j] != pat[j] {
            proof {
                let window = text@.subrange(at as int, at + m);
                assert(window[j as int] == text[at + j]);
            }
            return false;
        }
        j += 1;
    }
    proof {
        assert(text@.subrange(at as int, at + m) =~= pat@);
    }
    true
}

/// Whether `text` begins with `pat`.
pub fn starts_with(text: &Vec<char>, pat: &Vec<char>) -> (b: bool)
    ensures
        b == has_prefix(text@, pat@),
{
    matches_at(text, pat, 0)
}

/// Whether `pat` stands somewhere in `text`. The empty pattern stands in
/// every text.
pub fn contains_chars(text: &Vec<char>, pat: &Vec<char>) -> (b: bool)
    ensures
        b == occurs_in(text@, pat@),
{
    if pat.len() > text.len() {
        return false;
    }
    let last: usize = text.len() - pat.len();
    let mut at: usize = 0;
    loop
        invariant
            at <= last,
            last == text.len() - pat.len(),
            forall|i: int| 0 <= i < at ==> !occurs_at(text@, pat@, i),
        decreases last - at,
    {
        if matches_at(text, pat, at) {
            return true;
        }
        if at == last {
            return false;
        }
        at += 1;
    }
}

/// Whether `pat` stands somewhere in `text`.
pub fn contains(text: &str, pat: &str) -> (b: bool)
    ensures
        b == occurs_in(text@, pat@),
{
    let t = chars_of(text);
    let p = chars_of(pat);
    contains_chars(&t, &p)
}

/// The offset of the first `c` at or after `from`, or the length of `text`
/// where none follows.
pub fn find_from(text: &Vec<char>, from: usize, c: char) -> (k: usize)
    requires
        from <= text.len(),
    ensures
        from <= k <= text.len(),
        k - from == first_index_of(text@.subrange(from as int, text.len() as int), c),
        k < text.len() ==> text[k as int] == c,
{
    let n = text.len();
    let mut k: usize = from;
    while k < n && text[k] != c
        invariant
            from <= k <= n,
            n == text.len(),
            forall|i: int| from <= i < k ==> text[i] != c,
        decreases n - k,
    {
        k += 1;
    }
    proof {
        lemma_first_index_of(text@.subrange(from as int, n as int), c, k - from);
    }
    k
}

/// Whether a character is white space.
pub fn is_space(c: char) -> (b: bool)
    ensures
        b == is_whitespace(c),
{
    let u: u32 = c as u32;
    (0x09 <= u && u <= 0x0D) || u == 0x20 || u == 0x85 || u == 0xA0 || u == 0x1680 || (0x2000 <= u
        && u <= 0x200A) || u == 0x2028 || u == 0x2029 || u == 0x202F || u == 0x205F || u
        == 0x3000
}

/// The end of the run that begins at `from`: the first offset at or after
/// `from` whose character is white space where `white` is false, or is none
/// where it is true; the length of `text` where the run reaches its end.
pub fn skip_run(text: &Vec<char>, from: usize, white: bool) -> (k: usize)
    requires
        from <= text.len(),
    ensures
        from <= k <= text.len(),
        k - from == run_length(text@.subrange(from as int, text.len() as int), white),
        forall|i: int| from <= i < k ==> is_whitespace(text[i]) == white,
        k < text.len() ==> is_whitespace(text[k as int]) != white,
{
    let n = text.len();
    let mut k: usize = from;
    while k < n && is_space(text[k]) == white
        invariant
            from <= k <= n,
            n == text.len(),
            forall|i: int| from <= i < k ==> is_whitespace(text[i]) == white,
        decreases n - k,
    {
        k += 1;
    }
    proof {
        lemma_run_length(text@.subrange(from as int, n as int), white, k - from);
    }
    k
}

/// The lines of a text, each as a string of its own.
pub fn lines(text: &str) -> (out: Vec<String>)
    ensures
        views_of(out@) == lines_of(text@),
{
    let chars = chars_of(text);
    let n = chars.len();
    let mut out: Vec<String> = Vec::new();
    let mut pos: usize = 0;
    assert(chars@.subrange(0, n as int) =~= chars@);
    assert(views_of(out@) =~= Seq::<Seq<char>>::empty());
    while pos < n
        invariant
            pos <= n,
            n == chars.len(),
            chars@ == text@,
            views_of(out@) + lines_of(chars@.subrange(pos as int, n as int)) == lines_of(chars@),
        decreases n - pos,
    {
        let ghost rest = chars@.subrange(pos as int, n as int);
        let ghost before = views_of(out@);
        let k = find_from(&chars, pos, '\n');
        if k < n {
            let end: usize = if k > pos && chars[k - 1] == '\r' {
                k - 1
            } else {
                k
            };
            let line = text.substring_char(pos, end).to_owned();
            proof {
                let raw = rest.subrange(0, k - pos);
                assert(raw =~= chars@.subrange(pos as int, k as int));
                assert(strip_cr(raw) =~= line@);
                assert(rest.subrange(k - pos + 1, rest.len() as int) =~= chars@.subrange(
                    k + 1,
                    n as int,
                ));
                assert(lines_of(rest) == seq![line@] + lines_of(
                    chars@.subrange(k + 1, n as int),
                ));
            }
            out.push(line);
            proof {
                assert(views_of(out@) =~= before.push(line@));
                assert(before.push(line@) + lines_of(chars@.subrange(k + 1, n as int)) =~= before
                    + lines_of(rest));
            }
            pos = k + 1;
        } else {
            let line = text.substring_char(pos, n).to_owned();
            proof {
                assert(line@ =~= rest);
                assert(lines_of(rest) == seq![rest]);
                assert(lines_of(chars@.subrange(n as int, n as int)) =~= Seq::<Seq<char>>::empty());
            }
            out.push(line);
            proof {
                assert(views_of(out@) =~= before.push(line@));
                assert(before.push(line@) + Seq::<Seq<char>>::empty() =~= before + lines_of(rest));
            }
            pos = n;
        }
    }
    proof {
        assert(lines_of(chars@.subrange(n as int, n as int)) =~= Seq::<Seq<char>>::empty());
        assert(views_of(out@) + Seq::<Seq<char>>::empty() =~= views_of(out@));
    }
    out
}

} // verus!
