//! The string operations that the shop scrapers apply to the text they pull
//! out of a page: `str::trim`, `str::strip_suffix`, the first piece of
//! `str::split('\n')` and `str::replace(",", ".")`, each stated over the
//! sequence of chars and computed by a verified loop.
use vstd::prelude::*;

verus! {

/// The Unicode `White_Space` property, which `char::is_whitespace` and
/// `str::trim` go by.
pub open spec fn is_white_space(c: char) -> bool {
    ||| ('\u{9}' <= c && c <= '\u{d}')
    ||| c == ' '
    ||| c == '\u{85}'
    ||| c == '\u{a0}'
    ||| c == '\u{1680}'
    ||| ('\u{2000}' <= c && c <= '\u{200a}')
    ||| c == '\u{2028}'
    ||| c == '\u{2029}'
    ||| c == '\u{202f}'
    ||| c == '\u{205f}'
    ||| c == '\u{3000}'
}

/// The text with its leading white space removed.
pub open spec fn trim_start(s: Seq<char>) -> Seq<char>
    decreases s.len(),
{
    if s.len() > 0 && is_white_space(s[0]) {
        trim_start(s.drop_first())
    } else {
        s
    }
}

/// The text with its trailing white space removed.
pub open spec fn trim_end(s: Seq<char>) -> Seq<char>
    decreases s.len(),
{
    if s.len() > 0 && is_white_space(s.last()) {
        trim_end(s.drop_last())
    } else {
        s
    }
}

/// `str::trim`: white space removed at both ends.
pub open spec fn trim(s: Seq<char>) -> Seq<char> {
    trim_end(trim_start(s))
}

/// Index of the first `c` in `s`, or `s.len()` when there is none.
pub open spec fn first_index_of(s: Seq<char>, c: char) -> int
    decreases s.len(),
{
    if s.len() == 0 || s[0] == c {
        0
    } else {
        1 + first_index_of(s.drop_first(), c)
    }
}

/// The first piece of `s.split(c)`: everything before the first `c`.
pub open spec fn before_first(s: Seq<char>, c: char) -> Seq<char> {
    s.take(first_index_of(s, c))
}

/// `s.replace(from, to)` for one-char patterns: every `from` becomes `to`.
pub open spec fn replace_char(s: Seq<char>, from: char, to: char) -> Seq<char> {
    Seq::new(s.len(), |i: int| if s[i] == from { to } else { s[i] })
}

/// `s.strip_suffix(suffix)`.
pub open spec fn strip_suffix(s: Seq<char>, suffix: Seq<char>) -> Option<Seq<char>> {
    if suffix.len() <= s.len() && s.subrange(s.len() - suffix.len(), s.len() as int) == suffix {
        Some(s.take(s.len() - suffix.len()))
    } else {
        None
    }
}

pub proof fn lemma_first_index_of_bounds(s: Seq<char>, c: char)
    ensures
        0 <= first_index_of(s, c) <= s.len(),
        forall|k: int| 0 <= k < first_index_of(s, c) ==> s[k] != c,
        first_index_of(s, c) < s.len() ==> s[first_index_of(s, c)] == c,
    decreases s.len(),
{
    if s.len() > 0 && s[0] != c {
        lemma_first_index_of_bounds(s.drop_first(), c);
        assert forall|k: int| 0 <= k < first_index_of(s, c) implies s[k] != c by {
            if k > 0 {
                assert(s[k] == s.drop_first()[k - 1]);
            }
        }
    }
}

pub proof fn lemma_trim_start_suffix(s: Seq<char>)
    ensures
        exists|i: int|
            0 <= i <= s.len() && trim_start(s) == s.subrange(i, s.len() as int)
            && (forall|k: int| 0 <= k < i ==> is_white_space(#[trigger] s[k])),
        trim_start(s).len() > 0 ==> !is_white_space(trim_start(s)[0]),
    decreases s.len(),
{
    if s.len() > 0 && is_white_space(s[0]) {
        lemma_trim_start_suffix(s.drop_first());
        let j = choose|j: int|
            0 <= j <= s.drop_first().len() && trim_start(s.drop_first()) == s.drop_first().subrange(
                j,
                s.drop_first().len() as int,
            ) && (forall|k: int| 0 <= k < j ==> is_white_space(#[trigger] s.drop_first()[k]));
        assert(s.drop_first().subrange(j, s.drop_first().len() as int) =~= s.subrange(
            j + 1,
            s.len() as int,
        ));
        assert forall|k: int| 0 <= k < j + 1 implies is_white_space(#[trigger] s[k]) by {
            if k > 0 {
                assert(s[k] == s.drop_first()[k - 1]);
            }
        }
    } else {
        assert(s.subrange(0, s.len() as int) =~= s);
    }
}

pub proof fn lemma_trim_end_prefix(s: Seq<char>)
    ensures
        exists|j: int|
            0 <= j <= s.len() && trim_end(s) == s.subrange(0, j) && (forall|k: int|
                j <= k < s.len() ==> is_white_space(#[trigger] s[k])),
        trim_end(s).len() > 0 ==> !is_white_space(trim_end(s).last()),
    decreases s.len(),
{
    if s.len() > 0 && is_white_space(s.last()) {
        lemma_trim_end_prefix(s.drop_last());
        let j = choose|j: int|
            0 <= j <= s.drop_last().len() && trim_end(s.drop_last()) == s.drop_last().subrange(0, j)
                && (forall|k: int|
                j <= k < s.drop_last().len() ==> is_white_space(#[trigger] s.drop_last()[k]));
        assert(s.drop_last().subrange(0, j) =~= s.subrange(0, j));
        assert forall|k: int| j <= k < s.len() implies is_white_space(#[trigger] s[k]) by {
            if k < s.len() - 1 {
                assert(s[k] == s.drop_last()[k]);
            }
        }
    } else {
        assert(s.subrange(0, s.len() as int) =~= s);
    }
}

/// What a trimmed text looks like: it has no white space at either end.
pub proof fn lemma_trim_has_no_white_space_at_ends(s: Seq<char>)
    ensures
        trim(s).len() > 0 ==> !is_white_space(trim(s)[0]) && !is_white_space(trim(s).last()),
{
    lemma_trim_start_suffix(s);
    lemma_trim_end_prefix(trim_start(s));
    let t = trim_start(s);
    if trim(s).len() > 0 {
        let j = choose|j: int|
            0 <= j <= t.len() && trim_end(t) == t.subrange(0, j) && (forall|k: int|
                j <= k < t.len() ==> is_white_space(#[trigger] t[k]));
        assert(trim(s)[0] == t[0]);
    }
}

/// Trimming twice is trimming once.
pub proof fn law_trim_idempotent(s: Seq<char>)
    ensures
        trim(trim(s)) == trim(s),
{
    lemma_trim_has_no_white_space_at_ends(s);
    let t = trim(s);
    if t.len() > 0 {
        assert(trim_start(t) == t);
        assert(trim_end(t) == t);
    } else {
        assert(trim_start(t) == t);
        assert(trim_end(t) == t);
    }
}

/// After `replace_char(s, from, to)` with `from != to` no `from` is left.
pub proof fn law_replace_char_removes(s: Seq<char>, from: char, to: char)
    requires
        from != to,
    ensures
        !replace_char(s, from, to).contains(from),
        replace_char(s, from, to).len() == s.len(),
{
    let r = replace_char(s, from, to);
    assert forall|i: int| 0 <= i < r.len() implies r[i] != from by {}
}

/// `s.trim_start_matches(c)`: every leading `c` removed.
pub open spec fn trim_start_matches(s: Seq<char>, c: char) -> Seq<char>
    decreases s.len(),
{
    if s.len() > 0 && s[0] == c {
        trim_start_matches(s.drop_first(), c)
    } else {
        s
    }
}

/// `s.trim_end_matches(c)`: every trailing `c` removed.
pub open spec fn trim_end_matches(s: Seq<char>, c: char) -> Seq<char>
    decreases s.len(),
{
    if s.len() > 0 && s.last() == c {
        trim_end_matches(s.drop_last(), c)
    } else {
        s
    }
}

/// `s.trim_matches(c)`: every leading and trailing `c` removed.
pub open spec fn trim_matches(s: Seq<char>, c: char) -> Seq<char> {
    trim_end_matches(trim_start_matches(s, c), c)
}

proof fn lemma_trim_start_absorbs(s: Seq<char>, c: char)
    requires
        is_white_space(c),
    ensures
        trim_start(trim_start_matches(s, c)) == trim_start(s),
    decreases s.len(),
{
    if s.len() > 0 && s[0] == c {
        lemma_trim_start_absorbs(s.drop_first(), c);
    }
}

proof fn lemma_trim_start_drop_last(x: Seq<char>)
    requires
        x.len() > 0,
        is_white_space(x.last()),
    ensures
        trim_start(x.drop_last()) == if trim_start(x).len() == 0 {
            Seq::<char>::empty()
        } else {
            trim_start(x).drop_last()
        },
    decreases x.len(),
{
    if is_white_space(x[0]) {
        if x.len() == 1 {
            assert(x.drop_first() =~= Seq::<char>::empty());
            assert(x.drop_last() =~= Seq::<char>::empty());
        } else {
            let y = x.drop_first();
            assert(y.last() == x.last());
            lemma_trim_start_drop_last(y);
            assert(x.drop_last().drop_first() =~= y.drop_last());
            assert(x.drop_last()[0] == x[0]);
        }
    } else {
        assert(x.drop_last()[0] == x[0]);
    }
}

proof fn lemma_trim_drops_white_space_at_end(x: Seq<char>)
    requires
        x.len() > 0,
        is_white_space(x.last()),
    ensures
        trim_end(trim_start(x)) == trim_end(trim_start(x.drop_last())),
{
    lemma_trim_start_drop_last(x);
    lemma_trim_start_suffix(x);
    let t = trim_start(x);
    if t.len() > 0 {
        assert(t.last() == x.last());
    }
}

proof fn lemma_trim_absorbs_end_matches(x: Seq<char>, c: char)
    requires
        is_white_space(c),
    ensures
        trim_end(trim_start(trim_end_matches(x, c))) == trim_end(trim_start(x)),
    decreases x.len(),
{
    if x.len() > 0 && x.last() == c {
        lemma_trim_absorbs_end_matches(x.drop_last(), c);
        lemma_trim_drops_white_space_at_end(x);
    }
}

/// Removing the line breaks at both ends before trimming changes nothing:
/// `s.trim_matches('\n').trim() == s.trim()`.
pub proof fn law_newlines_then_trim(s: Seq<char>)
    ensures
        trim(trim_matches(s, '\n')) == trim(s),
{
    lemma_trim_absorbs_end_matches(trim_start_matches(s, '\n'), '\n');
    lemma_trim_start_absorbs(s, '\n');
}

proof fn lemma_trim_start_step(s: Seq<char>, i: int)
    requires
        0 <= i < s.len(),
        is_white_space(s[i]),
    ensures
        trim_start(s.subrange(i, s.len() as int)) == trim_start(s.subrange(i + 1, s.len() as int)),
{
    let t = s.subrange(i, s.len() as int);
    assert(t.drop_first() =~= s.subrange(i + 1, s.len() as int));
}

proof fn lemma_trim_end_step(s: Seq<char>, i: int, j: int)
    requires
        0 <= i < j <= s.len(),
        is_white_space(s[j - 1]),
    ensures
        trim_end(s.subrange(i, j)) == trim_end(s.subrange(i, j - 1)),
{
    let t = s.subrange(i, j);
    assert(t.drop_last() =~= s.subrange(i, j - 1));
}

/// `char::is_whitespace`.
pub fn is_white_space_char(c: char) -> (b: bool)
    ensures
        b == is_white_space(c),
{
    ('\u{9}' <= c && c <= '\u{d}') || c == ' ' || c == '\u{85}' || c == '\u{a0}' || c == '\u{1680}'
        || ('\u{2000}' <= c && c <= '\u{200a}') || c == '\u{2028}' || c == '\u{2029}' || c
        == '\u{202f}' || c == '\u{205f}' || c == '\u{3000}'
}

/// The chars of `s[from..to]`.
pub fn copy_range(s: &Vec<char>, from: usize, to: usize) -> (r: Vec<char>)
    requires
        from <= to <= s.len(),
    ensures
        r@ == s@.subrange(from as int, to as int),
{
    let mut r: Vec<char> = Vec::new();
    let mut k: usize = from;
    while k < to
        invariant
            from <= k <= to <= s.len(),
            r@ == s@.subrange(from as int, k as int),
        decreases to - k,
    {
        r.push(s[k]);
        assert(r@ =~= s@.subrange(from as int, k + 1));
        k += 1;
    }
    r
}

/// `str::trim` on a sequence of chars.
pub fn trim_chars(s: &Vec<char>) -> (r: Vec<char>)
    ensures
        r@ == trim(s@),
{
    let n = s.len();
    let mut i: usize = 0;
    assert(s@.subrange(0, n as int) =~= s@);
    while i < n && is_white_space_char(s[i])
        invariant
            0 <= i <= n,
            n == s.len(),
            trim_start(s@) == trim_start(s@.subrange(i as int, n as int)),
        decreases n - i,
    {
        proof {
            lemma_trim_start_step(s@, i as int);
        }
        i += 1;
    }
    assert(trim_start(s@) == s@.subrange(i as int, n as int)) by {
        let t = s@.subrange(i as int, n as int);
        if i < n {
            assert(t[0] == s@[i as int]);
        }
    }
    let mut j: usize = n;
    while j > i && is_white_space_char(s[j - 1])
        invariant
            i <= j <= n,
            n == s.len(),
            trim_end(s@.subrange(i as int, n as int)) == trim_end(s@.subrange(i as int, j as int)),
        decreases j,
    {
        proof {
            lemma_trim_end_step(s@, i as int, j as int);
        }
        j -= 1;
    }
    assert(trim_end(s@.subrange(i as int, j as int)) == s@.subrange(i as int, j as int)) by {
        let t = s@.subrange(i as int, j as int);
        if i < j {
            assert(t.last() == s@[j - 1]);
        }
    }
    copy_range(s, i, j)
}

/// The first piece of `split(c)`: the chars before the first `c`.
pub fn before_first_chars(s: &Vec<char>, c: char) -> (r: Vec<char>)
    ensures
        r@ == before_first(s@, c),
{
    let n = s.len();
    let mut k: usize = 0;
    proof {
        lemma_first_index_of_bounds(s@, c);
    }
    while k < n && s[k] != c
        invariant
            0 <= k <= n,
            n == s.len(),
            k <= first_index_of(s@, c),
            forall|m: int| 0 <= m < first_index_of(s@, c) ==> s@[m] != c,
            first_index_of(s@, c) <= s@.len(),
            first_index_of(s@, c) < s@.len() ==> s@[first_index_of(s@, c)] == c,
        decreases n - k,
    {
        k += 1;
    }
    assert(k == first_index_of(s@, c));
    copy_range(s, 0, k)
}

/// `replace` of one char by another.
pub fn replace_char_chars(s: &Vec<char>, from: char, to: char) -> (r: Vec<char>)
    ensures
        r@ == replace_char(s@, from, to),
{
    let mut r: Vec<char> = Vec::new();
    let mut k: usize = 0;
    while k < s.len()
        invariant
            0 <= k <= s.len(),
            r@ == replace_char(s@, from, to).take(k as int),
        decreases s.len() - k,
    {
        let ch = s[k];
        if ch == from {
            r.push(to);
        } else {
            r.push(ch);
        }
        assert(r@ =~= replace_char(s@, from, to).take(k + 1));
        k += 1;
    }
    assert(r@ =~= replace_char(s@, from, to));
    r
}

/// `strip_suffix` with a suffix given as chars.
pub fn strip_suffix_chars(s: &Vec<char>, suffix: &Vec<char>) -> (r: Option<Vec<char>>)
    ensures
        match r {
            Some(v) => strip_suffix(s@, suffix@) == Some(v@),
            None => strip_suffix(s@, suffix@) is None,
        },
{
    let n = s.len();
    let m = suffix.len();
    if m > n {
        return None;
    }
    let start = n - m;
    let mut k: usize = 0;
    while k < m
        invariant
            0 <= k <= m,
            m == suffix.len(),
            n == s.len(),
            start == n - m,
            forall|q: int| 0 <= q < k ==> s@[start + q] == suffix@[q],
        decreases m - k,
    {
        if s[start + k] != suffix[k] {
            assert(s@.subrange(start as int, n as int)[k as int] != suffix@[k as int]);
            return None;
        }
        k += 1;
    }
    assert(s@.subrange(start as int, n as int) =~= suffix@);
    Some(copy_range(s, 0, start))
}

/// The chars of a string.
pub fn chars_of(s: &str) -> (r: Vec<char>)
    ensures
        r@ == s@,
{
    let n = s.unicode_len();
    let mut r: Vec<char> = Vec::new();
    let mut k: usize = 0;
    while k < n
        invariant
            0 <= k <= n,
            n == s@.len(),
            r@ == s@.take(k as int),
        decreases n - k,
    {
        let ch = s.get_char(k);
        r.push(ch);
        assert(r@ =~= s@.take(k + 1));
        k += 1;
    }
    assert(r@ =~= s@);
    r
}

/// `String::push`: appends one char.
#[verifier::external_body]
fn push_char(s: &mut String, c: char)
    ensures
        final(s)@ == old(s)@.push(c),
{
    s.push(c);
}

/// A string made of the given chars.
pub fn string_of(v: &Vec<char>) -> (r: String)
    ensures
        r@ == v@,
{
    let mut r = String::new();
    let mut k: usize = 0;
    while k < v.len()
        invariant
            0 <= k <= v.len(),
            r@ == v@.take(k as int),
        decreases v.len() - k,
    {
        push_char(&mut r, v[k]);
        assert(r@ =~= v@.take(k + 1));
        k += 1;
    }
    assert(r@ =~= v@);
    r
}

/// `str::trim`, returning an owned string.
pub fn trim_str(s: &str) -> (r: String)
    ensures
        r@ == trim(s@),
{
    let v = chars_of(s);
    let t = trim_chars(&v);
    string_of(&t)
}

} // verus!
