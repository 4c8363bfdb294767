//! Character-sequence utilities: substring search, first occurrence of a
//! character, whitespace trimming, and splitting on a separator.

use vstd::prelude::*;

verus! {

/// True when `pat` stands somewhere in `s` as a contiguous run.
pub open spec fn contains_seq(s: Seq<char>, pat: Seq<char>) -> bool {
    exists|i: int| 0 <= i && i + pat.len() <= s.len() && #[trigger] s.subrange(i, i + pat.len())
        == pat
}

/// Compare `pat` against `s` at position `i`.
fn matches_at(s: &str, pat: &str, i: usize) -> (r: bool)
    requires
        i + pat@.len() <= s@.len(),
        s@.len() <= usize::MAX,
    ensures
        r == (s@.subrange(i as int, i + pat@.len()) == pat@),
{
    let n = pat.unicode_len();
    let mut j: usize = 0;
    while j < n
        invariant
            n == pat@.len(),
            i + n <= s@.len() <= usize::MAX,
            j <= n,
            forall|k: int| 0 <= k < j ==> s@[i + k] == pat@[k],
        decreases n - j,
    {
        if s.get_char(i + j) != pat.get_char(j) {
            proof {
                assert(s@.subrange(i as int, i + pat@.len())[j as int] != pat@[j as int]);
            }
            return false;
        }
        j += 1;
    }
    proof {
        assert(s@.subrange(i as int, i + pat@.len()) =~= pat@);
    }
    true
}

/// Substring search: whether `pat` occurs anywhere in `s`.
pub fn str_contains(s: &str, pat: &str) -> (r: bool)
    ensures
        r == contains_seq(s@, pat@),
{
    let n = s.unicode_len();
    let m = pat.unicode_len();
    if m > n {
        return false;
    }
    if m == 0 {
        proof {
            assert(s@.subrange(0, 0 + pat@.len() as int) =~= pat@);
        }
        return true;
    }
    let mut i: usize = 0;
    loop
        invariant
            n == s@.len(),
            m == pat@.len(),
            1 <= m <= n,
            i <= n - m + 1,
            forall|k: int| 0 <= k < i ==> #[trigger] s@.subrange(k, k + pat@.len()) != pat@,
        decreases n - m + 1 - i,
    {
        if i > n - m {
            proof {
                assert(forall|k: int|
                    0 <= k && k + pat@.len() <= s@.len() ==> #[trigger] s@.subrange(
                        k,
                        k + pat@.len(),
                    ) != pat@);
            }
            return false;
        }
        if matches_at(s, pat, i) {
            proof {
                assert(0 <= i as int && i + pat@.len() <= s@.len() && s@.subrange(
                    i as int,
                    i + pat@.len(),
                ) == pat@);
            }
            return true;
        }
        i += 1;
    }
}

/// First occurrence of `c` in `s` at or after `from`, characterised exactly:
/// the returned index holds `c` and nothing before it (from `from` on) does.
pub fn find_char(s: &str, c: char, from: usize) -> (r: Option<usize>)
    requires
        from <= s@.len(),
    ensures
        match r {
            Some(i) => from <= i < s@.len() && s@[i as int] == c && forall|k: int|
                from <= k < i ==> s@[k] != c,
            None => forall|k: int| from <= k < s@.len() ==> s@[k] != c,
        },
{
    let n = s.unicode_len();
    let mut i: usize = from;
    while i < n
        invariant
            n == s@.len(),
            from <= i <= n,
            forall|k: int| from <= k < i ==> s@[k] != c,
        decreases n - i,
    {
        if s.get_char(i) == c {
            return Some(i);
        }
        i += 1;
    }
    None
}

/// The whitespace that trimming removes: the Unicode `White_Space` set, as
/// `str::trim` removes it.
pub open spec fn is_space_char(c: char) -> bool {
    c == '\t' || c == '\n' || c == '\u{B}' || c == '\u{C}' || c == '\r' || c == ' ' || c
        == '\u{85}' || c == '\u{A0}' || c == '\u{1680}' || c == '\u{2000}' || c == '\u{2001}' || c
        == '\u{2002}' || c == '\u{2003}' || c == '\u{2004}' || c == '\u{2005}' || c == '\u{2006}'
        || c == '\u{2007}' || c == '\u{2008}' || c == '\u{2009}' || c == '\u{200A}' || c
        == '\u{2028}' || c == '\u{2029}' || c == '\u{202F}' || c == '\u{205F}' || c == '\u{3000}'
}

/// `s` without its leading whitespace.
pub open spec fn trim_front(s: Seq<char>) -> Seq<char>
    decreases s.len(),
{
    if s.len() > 0 && is_space_char(s[0]) {
        trim_front(s.drop_first())
    } else {
        s
    }
}

/// `s` without its trailing whitespace.
pub open spec fn trim_back(s: Seq<char>) -> Seq<char>
    decreases s.len(),
{
    if s.len() > 0 && is_space_char(s.last()) {
        trim_back(s.drop_last())
    } else {
        s
    }
}

/// `s` with whitespace removed on both sides.
pub open spec fn trim_spec(s: Seq<char>) -> Seq<char> {
    trim_back(trim_front(s))
}

/// Trim whitespace from both ends of `s`.
pub fn trim_str<'a>(s: &'a str) -> (r: &'a str)
    ensures
        r@ == trim_spec(s@),
{
    let n = s.unicode_len();
    proof {
        assert(s@.subrange(0, n as int) =~= s@);
    }
    let mut a: usize = 0;
    while a < n && is_space(s.get_char(a))
        invariant
            n == s@.len(),
            a <= n,
            trim_front(s@) == trim_front(s@.subrange(a as int, n as int)),
        decreases n - a,
    {
        proof {
            assert(s@.subrange(a as int, n as int).drop_first() =~= s@.subrange(
                a + 1,
                n as int,
            ));
        }
        a += 1;
    }
    proof {
        assert(trim_front(s@) == s@.subrange(a as int, n as int));
    }
    let mut b: usize = n;
    while b > a && is_space(s.get_char(b - 1))
        invariant
            n == s@.len(),
            a <= b <= n,
            trim_front(s@) == s@.subrange(a as int, n as int),
            trim_back(s@.subrange(a as int, n as int)) == trim_back(
                s@.subrange(a as int, b as int),
            ),
        decreases b,
    {
        proof {
            assert(s@.subrange(a as int, b as int).drop_last() =~= s@.subrange(
                a as int,
                b - 1,
            ));
        }
        b -= 1;
    }
    proof {
        assert(trim_back(s@.subrange(a as int, b as int)) == s@.subrange(a as int, b as int));
    }
    s.substring_char(a, b)
}

/// Executable test matching `is_space_char`.
fn is_space(c: char) -> (r: bool)
    ensures
        r == is_space_char(c),
{
    c == '\t' || c == '\n' || c == '\u{B}' || c == '\u{C}' || c == '\r' || c == ' ' || c
        == '\u{85}' || c == '\u{A0}' || c == '\u{1680}' || c == '\u{2000}' || c == '\u{2001}' || c
        == '\u{2002}' || c == '\u{2003}' || c == '\u{2004}' || c == '\u{2005}' || c == '\u{2006}'
        || c == '\u{2007}' || c == '\u{2008}' || c == '\u{2009}' || c == '\u{200A}' || c
        == '\u{2028}' || c == '\u{2029}' || c == '\u{202F}' || c == '\u{205F}' || c == '\u{3000}'
}

/// `s` split on the separator `sep`: always one more piece than there are
/// separators, so an empty `s` gives one empty piece.
pub open spec fn split_on(s: Seq<char>, sep: char) -> Seq<Seq<char>>
    decreases s.len(),
{
    if s.len() == 0 {
        seq![Seq::<char>::empty()]
    } else if s[0] == sep {
        seq![Seq::<char>::empty()] + split_on(s.drop_first(), sep)
    } else {
        let rest = split_on(s.drop_first(), sep);
        seq![seq![s[0]] + rest[0]] + rest.drop_first()
    }
}

/// Splitting yields at least one piece.
pub proof fn lemma_split_on_len(s: Seq<char>, sep: char)
    ensures
        split_on(s, sep).len() >= 1,
    decreases s.len(),
{
    if s.len() > 0 {
        lemma_split_on_len(s.drop_first(), sep);
    }
}

/// When `sep` first occurs at `i`, the split is the prefix before `i`
/// followed by the split of what stands after `i`.
pub proof fn lemma_split_on_found(s: Seq<char>, sep: char, i: int)
    requires
        0 <= i < s.len(),
        s[i] == sep,
        forall|k: int| 0 <= k < i ==> s[k] != sep,
    ensures
        split_on(s, sep) == seq![s.subrange(0, i)] + split_on(
            s.subrange(i + 1, s.len() as int),
            sep,
        ),
    decreases s.len(),
{
    if i == 0 {
        assert(s.drop_first() =~= s.subrange(1, s.len() as int));
        assert(s.subrange(0, 0) =~= Seq::<char>::empty());
        assert(split_on(s, sep) =~= seq![s.subrange(0, 0)] + split_on(
            s.subrange(1, s.len() as int),
            sep,
        ));
    } else {
        let t = s.drop_first();
        assert(forall|k: int| 0 <= k < i - 1 ==> t[k] != sep);
        lemma_split_on_found(t, sep, i - 1);
        lemma_split_on_len(t.subrange(i, t.len() as int), sep);
        assert(t.subrange(0, i - 1) =~= s.subrange(1, i));
        assert(t.subrange(i, t.len() as int) =~= s.subrange(i + 1, s.len() as int));
        let rest = split_on(t, sep);
        assert(rest[0] == s.subrange(1, i));
        assert(seq![s[0]] + rest[0] =~= s.subrange(0, i));
        assert(rest.drop_first() =~= split_on(s.subrange(i + 1, s.len() as int), sep));
        assert(split_on(s, sep) =~= seq![s.subrange(0, i)] + split_on(
            s.subrange(i + 1, s.len() as int),
            sep,
        ));
    }
}

/// When `sep` does not occur in `s`, the split is `s` alone.
pub proof fn lemma_split_on_absent(s: Seq<char>, sep: char)
    requires
        forall|k: int| 0 <= k < s.len() ==> s[k] != sep,
    ensures
        split_on(s, sep) == seq![s],
    decreases s.len(),
{
    if s.len() == 0 {
        assert(s =~= Seq::<char>::empty());
        assert(split_on(s, sep) =~= seq![s]);
    } else {
        lemma_split_on_absent(s.drop_first(), sep);
        let rest = split_on(s.drop_first(), sep);
        assert(rest[0] == s.drop_first());
        assert(rest.drop_first().len() == 0);
        assert(seq![s[0]] + s.drop_first() =~= s);
        assert(split_on(s, sep) =~= seq![s]);
    }
}

/// The views of a vector of owned strings.
pub open spec fn strs_view(v: Seq<String>) -> Seq<Seq<char>> {
    v.map_values(|s: String| s@)
}

/// Split `s` on the separator `sep`, as owned pieces.
pub fn split_str(s: &str, sep: char) -> (r: Vec<String>)
    ensures
        strs_view(r@) == split_on(s@, sep),
{
    let n = s.unicode_len();
    let mut r: Vec<String> = Vec::new();
    let mut start: usize = 0;
    proof {
        assert(s@.subrange(0, n as int) =~= s@);
        assert(strs_view(r@) + split_on(s@, sep) =~= split_on(s@, sep));
    }
    loop
        invariant
            n == s@.len(),
            start <= n,
            split_on(s@, sep) =~= strs_view(r@) + split_on(
                s@.subrange(start as int, n as int),
                sep,
            ),
        decreases n - start + 1,
    {
        let tail = s.substring_char(start, n);
        match find_char(tail, sep, 0) {
            None => {
                proof {
                    lemma_split_on_absent(tail@, sep);
                }
                r.push(tail.to_owned());
                proof {
                    assert(strs_view(r@) =~= split_on(s@, sep));
                }
                return r;
            },
            Some(j) => {
                proof {
                    lemma_split_on_found(tail@, sep, j as int);
                }
                let piece = tail.substring_char(0, j);
                r.push(piece.to_owned());
                proof {
                    assert(tail@.subrange(j + 1, tail@.len() as int) =~= s@.subrange(
                        start + j + 1,
                        n as int,
                    ));
                    assert(strs_view(r@) =~= strs_view(r@.drop_last()) + seq![piece@]);
                }
                start = start + j + 1;
            },
        }
    }
}

} // verus!
