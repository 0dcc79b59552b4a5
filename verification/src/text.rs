//! Character-level text utilities with mathematical specifications.
use vstd::prelude::*;

verus! {

/// The characters of a string slice, in order.
pub fn to_chars(s: &str) -> (r: Vec<char>)
    ensures
        r@ == s@,
{
    let n = s.unicode_len();
    let mut r: Vec<char> = Vec::new();
    let mut i: usize = 0;
    while i < n
        invariant
            n == s@.len(),
            i <= n,
            r@ == s@.take(i as int),
        decreases n - i,
    {
        let c = s.get_char(i);
        r.push(c);
        i = i + 1;
        assert(r@ =~= s@.take(i as int));
    }
    assert(r@ =~= s@);
    r
}

/// `needle` occurs in `hay` as a contiguous run of characters.
pub open spec fn seq_contains(hay: Seq<char>, needle: Seq<char>) -> bool {
    exists|i: int| 0 <= i <= hay.len() - needle.len() && #[trigger] hay.subrange(i, i + needle.len()) == needle
}

/// A text that contains `big` contains every part of `big`.
pub proof fn lemma_contains_within(hay: Seq<char>, big: Seq<char>, small: Seq<char>, k: int)
    requires
        seq_contains(hay, big),
        0 <= k,
        k + small.len() <= big.len(),
        big.subrange(k, k + small.len()) == small,
    ensures
        seq_contains(hay, small),
{
    let i = choose|i: int| 0 <= i <= hay.len() - big.len() && #[trigger] hay.subrange(i, i + big.len()) == big;
    assert(hay.subrange(i + k, i + k + small.len()) =~= big.subrange(k, k + small.len()));
}

/// Whether `needle` occurs at position `at` of `hay`.
fn matches_at(hay: &Vec<char>, needle: &Vec<char>, at: usize) -> (b: bool)
    requires
        at + needle@.len() <= hay@.len(),
    ensures
        b == (hay@.subrange(at as int, at + needle@.len()) == needle@),
{
    let hn = hay.len();
    let mut j: usize = 0;
    while j < needle.len()
        invariant
            hn == hay@.len(),
            at + needle@.len() <= hay@.len(),
            j <= needle@.len(),
            forall|k: int| 0 <= k < j ==> hay@[at + k] == needle@[k],
        decreases needle@.len() - j,
    {
        if hay[at + j] != needle[j] {
            assert(hay@.subrange(at as int, at + needle@.len())[j as int] != needle@[j as int]);
            return false;
        }
        j = j + 1;
    }
    assert(hay@.subrange(at as int, at + needle@.len()) =~= needle@);
    true
}

/// Whether `needle` occurs in `hay`.
pub fn contains(hay: &Vec<char>, needle: &str) -> (b: bool)
    ensures
        b == seq_contains(hay@, needle@),
{
    let nd = to_chars(needle);
    let m = nd.len();
    let n = hay.len();
    if m > n {
        return false;
    }
    let mut i: usize = 0;
    while i <= n - m
        invariant
            m == nd@.len(),
            n == hay@.len(),
            m <= n,
            nd@ == needle@,
            i <= n - m,
            forall|k: int| 0 <= k < i ==> #[trigger] hay@.subrange(k, k + m) != needle@,
        ensures
            forall|k: int| 0 <= k <= n - m ==> #[trigger] hay@.subrange(k, k + m) != needle@,
        decreases n - m - i,
    {
        if matches_at(hay, &nd, i) {
            return true;
        }
        if i == n - m {
            break;
        }
        i = i + 1;
    }
    false
}

/// Whether the characters in `v` spell exactly `s`.
pub fn equals(v: &Vec<char>, s: &str) -> (b: bool)
    ensures
        b == (v@ == s@),
{
    let w = to_chars(s);
    if v.len() != w.len() {
        return false;
    }
    if v.len() == 0 {
        assert(v@ =~= s@);
        return true;
    }
    let b = matches_at(v, &w, 0);
    assert(v@.subrange(0, w@.len() as int) =~= v@);
    b
}


/// What `str::to_lowercase` returns for a string with the given characters.
pub uninterp spec fn lowercase(s: Seq<char>) -> Seq<char>;

/// Calls `str::to_lowercase`; the result is the Unicode lowercase mapping of
/// `s`, a function of `s` alone, named `lowercase` here and otherwise unstated.
#[verifier::external_body]
pub fn to_lowercase(s: &str) -> (r: String)
    ensures
        r@ == lowercase(s@),
{
    s.to_lowercase()
}

/// The part of `s` after its last occurrence of `sep`, or all of `s` when
/// `sep` does not occur (the first item of `s.rsplit(sep)`).
pub open spec fn after_last(s: Seq<char>, sep: char) -> Seq<char>
    decreases s.len(),
{
    if s.len() == 0 {
        s
    } else if s.last() == sep {
        Seq::empty()
    } else {
        after_last(s.drop_last(), sep).push(s.last())
    }
}

/// `after_last` never contains the separator and is a suffix of its input.
pub proof fn lemma_after_last_shape(s: Seq<char>, sep: char)
    ensures
        !after_last(s, sep).contains(sep),
        after_last(s, sep).len() <= s.len(),
        after_last(s, sep) == s.subrange(s.len() - after_last(s, sep).len(), s.len() as int),
    decreases s.len(),
{
    if s.len() > 0 && s.last() != sep {
        lemma_after_last_shape(s.drop_last(), sep);
        let p = after_last(s.drop_last(), sep);
        assert(after_last(s, sep) =~= s.subrange(s.len() - p.len() - 1, s.len() as int));
    } else if s.len() > 0 {
        assert(after_last(s, sep) =~= s.subrange(s.len() as int, s.len() as int));
    }
}

/// A string without `sep` is its own last segment.
pub proof fn lemma_after_last_without_sep(s: Seq<char>, sep: char)
    requires
        !s.contains(sep),
    ensures
        after_last(s, sep) == s,
    decreases s.len(),
{
    if s.len() > 0 {
        assert(!s.drop_last().contains(sep)) by {
            if s.drop_last().contains(sep) {
                let k = choose|k: int| 0 <= k < s.drop_last().len() && s.drop_last()[k] == sep;
                assert(s[k] == sep);
            }
        }
        lemma_after_last_without_sep(s.drop_last(), sep);
        assert(s.drop_last().push(s.last()) =~= s);
    }
}

/// Appending a segment without `sep` after `sep` makes that segment the result.
pub proof fn lemma_after_last_append(prefix: Seq<char>, sep: char, tail: Seq<char>)
    requires
        !tail.contains(sep),
    ensures
        after_last(prefix.push(sep) + tail, sep) == tail,
    decreases tail.len(),
{
    if tail.len() == 0 {
        assert(prefix.push(sep) + tail =~= prefix.push(sep));
    } else {
        let s = prefix.push(sep) + tail;
        assert(s.drop_last() =~= prefix.push(sep) + tail.drop_last());
        assert(!tail.drop_last().contains(sep)) by {
            if tail.drop_last().contains(sep) {
                let k = choose|k: int| 0 <= k < tail.drop_last().len() && tail.drop_last()[k] == sep;
                assert(tail[k] == sep);
            }
        }
        lemma_after_last_append(prefix, sep, tail.drop_last());
        assert(s.last() == tail.last());
        assert(tail.last() != sep) by {
            assert(tail[tail.len() - 1] == tail.last());
        }
        assert(tail.drop_last().push(tail.last()) =~= tail);
    }
}

/// The last segment of `s` starts right after its last `sep`.
pub proof fn lemma_after_last_at(s: Seq<char>, sep: char, k: int)
    requires
        0 <= k < s.len(),
        s[k] == sep,
        forall|j: int| k < j < s.len() ==> s[j] != sep,
    ensures
        after_last(s, sep) == s.subrange(k + 1, s.len() as int),
{
    let tail = s.subrange(k + 1, s.len() as int);
    assert(!tail.contains(sep)) by {
        if tail.contains(sep) {
            let j = choose|j: int| 0 <= j < tail.len() && tail[j] == sep;
            assert(s[k + 1 + j] == sep);
        }
    }
    assert(s =~= s.subrange(0, k).push(sep) + tail);
    lemma_after_last_append(s.subrange(0, k), sep, tail);
}

/// The last `sep`-separated segment of `s`: `s.rsplit(sep).next()`.
pub fn last_segment<'a>(s: &'a str, sep: char) -> (r: &'a str)
    ensures
        r@ == after_last(s@, sep),
{
    let cs = to_chars(s);
    let n = cs.len();
    let mut i: usize = n;
    assert(s@.take(n as int) =~= s@);
    assert(after_last(s@, sep) + s@.subrange(n as int, n as int) =~= after_last(s@, sep));
    while i > 0 && cs[i - 1] != sep
        invariant
            n == s@.len(),
            cs@ == s@,
            i <= n,
            after_last(s@, sep) == after_last(s@.take(i as int), sep) + s@.subrange(i as int, n as int),
        decreases i,
    {
        let ghost t = s@.take(i as int);
        assert(t.drop_last() =~= s@.take(i - 1));
        assert(t.last() == s@[i - 1]);
        assert(s@.subrange(i - 1, n as int) =~= seq![s@[i - 1]] + s@.subrange(i as int, n as int));
        assert(after_last(t, sep) =~= after_last(s@.take(i - 1), sep).push(s@[i - 1]));
        assert(after_last(s@.take(i - 1), sep).push(s@[i - 1]) + s@.subrange(i as int, n as int)
            =~= after_last(s@.take(i - 1), sep) + s@.subrange(i - 1, n as int));
        i = i - 1;
    }
    if i > 0 {
        assert(s@.take(i as int).last() == sep);
    }
    assert(after_last(s@.take(i as int), sep) =~= Seq::<char>::empty());
    assert(Seq::<char>::empty() + s@.subrange(i as int, n as int) =~= s@.subrange(i as int, n as int));
    s.substring_char(i, n)
}

/// Unicode `White_Space`, the characters that `char::is_whitespace` accepts.
pub open spec fn is_white_space(c: char) -> bool {
    let u = c as u32;
    ||| 0x09 <= u <= 0x0d
    ||| u == 0x20
    ||| u == 0x85
    ||| u == 0xa0
    ||| u == 0x1680
    ||| 0x2000 <= u <= 0x200a
    ||| u == 0x2028
    ||| u == 0x2029
    ||| u == 0x202f
    ||| u == 0x205f
    ||| u == 0x3000
}

/// Whether `c` is Unicode white space.
pub fn is_whitespace(c: char) -> (b: bool)
    ensures
        b == is_white_space(c),
{
    let u = c as u32;
    (0x09 <= u && u <= 0x0d) || u == 0x20 || u == 0x85 || u == 0xa0 || u == 0x1680 || (0x2000 <= u
        && u <= 0x200a) || u == 0x2028 || u == 0x2029 || u == 0x202f || u == 0x205f || u == 0x3000
}

/// `s` without its leading white space.
pub open spec fn trim_start(s: Seq<char>) -> Seq<char>
    decreases s.len(),
{
    if s.len() > 0 && is_white_space(s[0]) {
        trim_start(s.drop_first())
    } else {
        s
    }
}

/// `s` without its trailing white space.
pub open spec fn trim_end(s: Seq<char>) -> Seq<char>
    decreases s.len(),
{
    if s.len() > 0 && is_white_space(s.last()) {
        trim_end(s.drop_last())
    } else {
        s
    }
}

/// `s` without leading and trailing white space, as `str::trim` gives it.
pub open spec fn trim_spec(s: Seq<char>) -> Seq<char> {
    trim_end(trim_start(s))
}

/// What `trim_start` leaves does not begin with white space.
proof fn lemma_trim_start_clean(s: Seq<char>)
    ensures
        trim_start(s).len() > 0 ==> !is_white_space(trim_start(s)[0]),
        trim_start(trim_start(s)) == trim_start(s),
    decreases s.len(),
{
    if s.len() > 0 && is_white_space(s[0]) {
        lemma_trim_start_clean(s.drop_first());
    }
}

/// What `trim_end` leaves does not end with white space, and is a prefix of
/// its input.
proof fn lemma_trim_end_clean(s: Seq<char>)
    ensures
        trim_end(s).len() > 0 ==> !is_white_space(trim_end(s).last()),
        trim_end(s).len() <= s.len(),
        trim_end(s) == s.take(trim_end(s).len() as int),
    decreases s.len(),
{
    if s.len() > 0 && is_white_space(s.last()) {
        lemma_trim_end_clean(s.drop_last());
        assert(s.drop_last().take(trim_end(s).len() as int) =~= s.take(trim_end(s).len() as int));
    } else {
        assert(s.take(s.len() as int) =~= s);
    }
}

/// `trim_start` drops a run of leading white space and keeps the rest.
proof fn lemma_trim_start_cut(s: Seq<char>) -> (i: int)
    ensures
        0 <= i <= s.len(),
        trim_start(s) == s.subrange(i, s.len() as int),
        forall|k: int| 0 <= k < i ==> is_white_space(#[trigger] s[k]),
    decreases s.len(),
{
    if s.len() > 0 && is_white_space(s[0]) {
        let i0 = lemma_trim_start_cut(s.drop_first());
        assert(s.drop_first().subrange(i0, s.drop_first().len() as int) =~= s.subrange(i0 + 1, s.len() as int));
        assert forall|k: int| 0 <= k < i0 + 1 implies is_white_space(#[trigger] s[k]) by {
            if k > 0 {
                assert(s[k] == s.drop_first()[k - 1]);
            }
        }
        i0 + 1
    } else {
        assert(s.subrange(0, s.len() as int) =~= s);
        0
    }
}

/// `trim_end` drops a run of trailing white space and keeps the rest.
proof fn lemma_trim_end_cut(s: Seq<char>) -> (j: int)
    ensures
        0 <= j <= s.len(),
        trim_end(s) == s.subrange(0, j),
        forall|k: int| j <= k < s.len() ==> is_white_space(#[trigger] s[k]),
    decreases s.len(),
{
    if s.len() > 0 && is_white_space(s.last()) {
        let j0 = lemma_trim_end_cut(s.drop_last());
        assert(s.drop_last().subrange(0, j0) =~= s.subrange(0, j0));
        assert forall|k: int| j0 <= k < s.len() implies is_white_space(#[trigger] s[k]) by {
            if k < s.len() - 1 {
                assert(s[k] == s.drop_last()[k]);
            }
        }
        j0
    } else {
        assert(s.subrange(0, s.len() as int) =~= s);
        s.len() as int
    }
}

/// Trimming cuts `s` to the stretch between a leading and a trailing run of
/// white space: what is cut is all white space, and what remains neither
/// begins nor ends with white space. The bounds of the stretch are returned.
pub proof fn lemma_trim_shape(s: Seq<char>) -> (r: (int, int))
    ensures
        0 <= r.0 <= r.1 <= s.len(),
        trim_spec(s) == s.subrange(r.0, r.1),
        forall|k: int| 0 <= k < r.0 ==> is_white_space(#[trigger] s[k]),
        forall|k: int| r.1 <= k < s.len() ==> is_white_space(#[trigger] s[k]),
        trim_spec(s).len() > 0 ==> !is_white_space(trim_spec(s)[0]) && !is_white_space(
            trim_spec(s).last(),
        ),
{
    let i = lemma_trim_start_cut(s);
    let t = trim_start(s);
    let j = lemma_trim_end_cut(t);
    lemma_trim_start_clean(s);
    lemma_trim_end_clean(t);
    assert(t.subrange(0, j) =~= s.subrange(i, i + j));
    assert forall|k: int| i + j <= k < s.len() implies is_white_space(#[trigger] s[k]) by {
        assert(s[k] == t[k - i]);
    }
    if trim_spec(s).len() > 0 {
        assert(trim_spec(s)[0] == t[0]);
    }
    (i, i + j)
}

/// For ASCII text, white space is exactly space, tab, line feed, vertical
/// tab, form feed and carriage return.
pub proof fn lemma_ascii_white_space(c: char)
    ensures
        (c as u32) < 0x80 ==> (is_white_space(c) <==> (c == ' ' || c == '\t' || c == '\n' || c
            == '\x0B' || c == '\x0C' || c == '\r')),
{
}

/// Trimming twice is trimming once.
pub proof fn lemma_trim_idempotent(s: Seq<char>)
    ensures
        trim_spec(trim_spec(s)) == trim_spec(s),
{
    let a = trim_start(s);
    let t = trim_end(a);
    lemma_trim_start_clean(s);
    lemma_trim_end_clean(a);
    if t.len() > 0 {
        assert(t[0] == a[0]);
    }
    assert(trim_start(t) == t);
    lemma_trim_end_clean(t);
    if t.len() > 0 {
        assert(trim_end(t) == t);
    }
}

/// `s` with leading and trailing Unicode white space removed.
pub fn trim<'a>(s: &'a str) -> (r: &'a str)
    ensures
        r@ == trim_spec(s@),
{
    let cs = to_chars(s);
    let n = cs.len();
    let mut i: usize = 0;
    assert(s@.subrange(0, n as int) =~= s@);
    while i < n && is_whitespace(cs[i])
        invariant
            n == s@.len(),
            cs@ == s@,
            i <= n,
            trim_start(s@) == trim_start(s@.subrange(i as int, n as int)),
        decreases n - i,
    {
        assert(s@.subrange(i as int, n as int).drop_first() =~= s@.subrange(i + 1, n as int));
        i = i + 1;
    }
    assert(trim_start(s@.subrange(i as int, n as int)) == s@.subrange(i as int, n as int));
    let mut j: usize = n;
    while j > i && is_whitespace(cs[j - 1])
        invariant
            n == s@.len(),
            cs@ == s@,
            i <= j <= n,
            trim_start(s@) == s@.subrange(i as int, n as int),
            trim_spec(s@) == trim_end(s@.subrange(i as int, j as int)),
        decreases j,
    {
        assert(s@.subrange(i as int, j as int).drop_last() =~= s@.subrange(i as int, j - 1));
        j = j - 1;
    }
    s.substring_char(i, j)
}

/// `s` with the ASCII capitals `A`..`Z` turned into small letters.
pub open spec fn ascii_lowercase(s: Seq<char>) -> Seq<char> {
    Seq::new(
        s.len(),
        |i: int|
            if 'A' <= s[i] && s[i] <= 'Z' {
                ((s[i] as u32) + 32) as char
            } else {
                s[i]
            },
    )
}

/// `s` with every trailing repetition of `suffix` removed, as
/// `str::trim_end_matches` does for a string pattern.
pub open spec fn strip_suffixes(s: Seq<char>, suffix: Seq<char>) -> Seq<char>
    decreases s.len(),
{
    if suffix.len() > 0 && suffix.len() <= s.len() && s.subrange(
        s.len() - suffix.len(),
        s.len() as int,
    ) == suffix {
        strip_suffixes(s.subrange(0, s.len() - suffix.len()), suffix)
    } else {
        s
    }
}

/// How many leading characters of `s` remain once every trailing repetition
/// of `suffix` is removed.
fn stripped_len(s: &Vec<char>, suffix: &str) -> (end: usize)
    ensures
        end <= s@.len(),
        strip_suffixes(s@, suffix@) == s@.take(end as int),
{
    let suf = to_chars(suffix);
    let m = suf.len();
    let mut end: usize = s.len();
    assert(s@.take(end as int) =~= s@);
    if m == 0 {
        return end;
    }
    while m <= end && matches_at(s, &suf, end - m)
        invariant
            m == suf@.len(),
            m > 0,
            suf@ == suffix@,
            end <= s@.len(),
            strip_suffixes(s@, suffix@) == strip_suffixes(s@.take(end as int), suffix@),
        decreases end,
    {
        assert(s@.take(end as int).subrange(end - m, end as int) =~= s@.subrange(end - m, end - m + m));
        assert(s@.take(end as int).subrange(0, end - m) =~= s@.take(end - m));
        end = end - m;
    }
    if m <= end {
        assert(s@.take(end as int).subrange(end - m, end as int) =~= s@.subrange(end - m, end - m + m));
    }
    end
}

/// `k` copies of `p` in a row.
pub open spec fn repeat_seq(p: Seq<char>, k: nat) -> Seq<char>
    decreases k,
{
    if k == 0 {
        Seq::empty()
    } else {
        repeat_seq(p, (k - 1) as nat) + p
    }
}

/// Removing trailing repetitions of a nonempty `suffix` removes copies of
/// it and nothing else, and all of them: `s` is the result followed by some
/// number of copies, and the result no longer ends with `suffix`.
pub proof fn lemma_strip_suffixes_shape(s: Seq<char>, suffix: Seq<char>) -> (k: nat)
    requires
        suffix.len() > 0,
    ensures
        s == strip_suffixes(s, suffix) + repeat_seq(suffix, k),
        !(suffix.len() <= strip_suffixes(s, suffix).len() && strip_suffixes(s, suffix).subrange(
            strip_suffixes(s, suffix).len() - suffix.len(),
            strip_suffixes(s, suffix).len() as int,
        ) == suffix),
    decreases s.len(),
{
    if suffix.len() <= s.len() && s.subrange(s.len() - suffix.len(), s.len() as int) == suffix {
        let t = s.subrange(0, s.len() - suffix.len());
        let k0 = lemma_strip_suffixes_shape(t, suffix);
        let r = strip_suffixes(t, suffix);
        assert(r + repeat_seq(suffix, k0 + 1) =~= (r + repeat_seq(suffix, k0)) + suffix);
        assert(s =~= t + suffix);
        k0 + 1
    } else {
        assert(s + repeat_seq(suffix, 0) =~= s);
        0
    }
}

/// Removes every trailing repetition of `suffix` from `s`.
pub fn strip_suffixes_of(s: &Vec<char>, suffix: &str) -> (r: Vec<char>)
    ensures
        r@ == strip_suffixes(s@, suffix@),
{
    let end = stripped_len(s, suffix);
    let mut r: Vec<char> = Vec::new();
    let mut k: usize = 0;
    while k < end
        invariant
            end <= s@.len(),
            k <= end,
            r@ == s@.take(k as int),
        decreases end - k,
    {
        r.push(s[k]);
        k = k + 1;
        assert(r@ =~= s@.take(k as int));
    }
    r
}

/// `s` with every trailing repetition of `suffix` removed, as
/// `s.trim_end_matches(suffix)` gives it.
pub fn trim_end_matches<'a>(s: &'a str, suffix: &str) -> (r: &'a str)
    ensures
        r@ == strip_suffixes(s@, suffix@),
{
    let cs = to_chars(s);
    let end = stripped_len(&cs, suffix);
    s.substring_char(0, end)
}

/// Whether two string slices hold the same characters.
pub fn same_text(a: &str, b: &str) -> (r: bool)
    ensures
        r == (a@ == b@),
{
    let ac = to_chars(a);
    equals(&ac, b)
}


/// `s` begins with `prefix`.
pub open spec fn seq_starts_with(s: Seq<char>, prefix: Seq<char>) -> bool {
    prefix.len() <= s.len() && s.subrange(0, prefix.len() as int) == prefix
}

/// Whether the characters in `v` begin with `prefix`.
pub fn starts_with(v: &Vec<char>, prefix: &str) -> (b: bool)
    ensures
        b == seq_starts_with(v@, prefix@),
{
    let p = to_chars(prefix);
    if p.len() > v.len() {
        return false;
    }
    matches_at(v, &p, 0)
}

/// The pieces of `s` between occurrences of `sep`, as `str::split` yields
/// them: one more piece than there are separators, empty pieces included.
pub open spec fn split_spec(s: Seq<char>, sep: char) -> Seq<Seq<char>>
    decreases s.len(),
{
    if s.len() == 0 {
        seq![Seq::empty()]
    } else {
        let pieces = split_spec(s.drop_last(), sep);
        if s.last() == sep {
            pieces.push(Seq::empty())
        } else {
            pieces.update(pieces.len() - 1, pieces.last().push(s.last()))
        }
    }
}

/// The pieces put back together with `sep` between them.
pub open spec fn join_spec(pieces: Seq<Seq<char>>, sep: char) -> Seq<char>
    decreases pieces.len(),
{
    if pieces.len() == 0 {
        Seq::empty()
    } else if pieces.len() == 1 {
        pieces[0]
    } else {
        join_spec(pieces.drop_last(), sep).push(sep) + pieces.last()
    }
}

/// Splitting loses nothing and finds every separator: the pieces hold no
/// `sep`, and joining them with `sep` gives `s` back.
pub proof fn lemma_split_join(s: Seq<char>, sep: char)
    ensures
        join_spec(split_spec(s, sep), sep) == s,
        forall|i: int| 0 <= i < split_spec(s, sep).len() ==> !(#[trigger] split_spec(s, sep)[i]).contains(sep),
    decreases s.len(),
{
    lemma_split_nonempty(s, sep);
    if s.len() == 0 {
        assert(split_spec(s, sep)[0] =~= Seq::<char>::empty());
        assert(join_spec(split_spec(s, sep), sep) =~= s);
    } else {
        let p = split_spec(s.drop_last(), sep);
        lemma_split_join(s.drop_last(), sep);
        lemma_split_nonempty(s.drop_last(), sep);
        let q = split_spec(s, sep);
        if s.last() == sep {
            assert(q.drop_last() =~= p);
            assert(join_spec(q, sep) =~= s.drop_last().push(sep));
            assert(s.drop_last().push(sep) =~= s);
            assert forall|i: int| 0 <= i < q.len() implies !(#[trigger] q[i]).contains(sep) by {
                if i < p.len() {
                    assert(q[i] == p[i]);
                } else {
                    assert(q[i] =~= Seq::<char>::empty());
                }
            }
        } else {
            let c = s.last();
            if p.len() == 1 {
                assert(join_spec(q, sep) == q[0]);
                assert(q[0] =~= p[0].push(c));
            } else {
                assert(q.drop_last() =~= p.drop_last());
                assert(join_spec(q, sep) =~= join_spec(p.drop_last(), sep).push(sep) + p.last().push(c));
                assert(join_spec(p.drop_last(), sep).push(sep) + p.last().push(c) =~= (join_spec(
                    p.drop_last(),
                    sep,
                ).push(sep) + p.last()).push(c));
            }
            assert(s.drop_last().push(c) =~= s);
            assert forall|i: int| 0 <= i < q.len() implies !(#[trigger] q[i]).contains(sep) by {
                if i < p.len() - 1 {
                    assert(q[i] == p[i]);
                } else {
                    assert(q[i] =~= p[i].push(c));
                    if q[i].contains(sep) {
                        let k = choose|k: int| 0 <= k < q[i].len() && q[i][k] == sep;
                        if k < p[i].len() {
                            assert(p[i][k] == sep);
                        }
                    }
                }
            }
        }
    }
}

/// Splitting always yields at least one piece.
pub proof fn lemma_split_nonempty(s: Seq<char>, sep: char)
    ensures
        split_spec(s, sep).len() >= 1,
    decreases s.len(),
{
    if s.len() > 0 {
        lemma_split_nonempty(s.drop_last(), sep);
    }
}

/// The pieces of `s` between occurrences of `sep`.
pub fn split<'a>(s: &'a str, sep: char) -> (r: Vec<&'a str>)
    ensures
        r@.map_values(|p: &str| p@) == split_spec(s@, sep),
{
    let cs = to_chars(s);
    let n = cs.len();
    let mut r: Vec<&'a str> = Vec::new();
    let mut start: usize = 0;
    let mut i: usize = 0;
    assert(s@.take(0) =~= Seq::<char>::empty());
    assert(r@.map_values(|p: &str| p@).push(s@.subrange(0, 0)) =~= seq![Seq::<char>::empty()]);
    while i < n
        invariant
            n == s@.len(),
            cs@ == s@,
            start <= i <= n,
            split_spec(s@.take(i as int), sep) == r@.map_values(|p: &str| p@).push(
                s@.subrange(start as int, i as int),
            ),
        decreases n - i,
    {
        let ghost before = r@.map_values(|p: &str| p@);
        let ghost t = s@.take(i + 1);
        assert(t.drop_last() =~= s@.take(i as int));
        assert(t.last() == s@[i as int]);
        if cs[i] == sep {
            let piece = s.substring_char(start, i);
            r.push(piece);
            assert(r@.map_values(|p: &str| p@) =~= before.push(s@.subrange(start as int, i as int)));
            start = i + 1;
            i = i + 1;
            assert(s@.subrange(start as int, i as int) =~= Seq::<char>::empty());
        } else {
            assert(s@.subrange(start as int, i + 1) =~= s@.subrange(start as int, i as int).push(s@[i as int]));
            let ghost bp = before.push(s@.subrange(start as int, i as int));
            assert(bp.update(bp.len() - 1, bp.last().push(s@[i as int])) =~= before.push(
                s@.subrange(start as int, i + 1),
            ));
            i = i + 1;
        }
    }
    let piece = s.substring_char(start, n);
    let ghost before = r@.map_values(|p: &str| p@);
    r.push(piece);
    assert(r@.map_values(|p: &str| p@) =~= before.push(s@.subrange(start as int, n as int)));
    assert(s@.take(n as int) =~= s@);
    r
}

} // verus!
