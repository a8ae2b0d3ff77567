//! Verified string operations the dispatch layer is built on: substring
//! matching, splitting on a separator, and path normalization.
#![allow(unused_imports)]

use vstd::prelude::*;
use vstd::string::*;

verus! {

/// The separator occurs in `s` at position `i`.
pub open spec fn match_at(s: Seq<char>, sep: Seq<char>, i: int) -> bool {
    &&& 0 <= i
    &&& i + sep.len() <= s.len()
    &&& s.subrange(i, i + sep.len() as int) == sep
}

/// The separator occurs somewhere in `s`.
pub open spec fn has_match(s: Seq<char>, sep: Seq<char>) -> bool {
    exists|i: int| match_at(s, sep, i)
}

/// How Rust's `str::split` divides `s` at each leftmost, non-overlapping
/// occurrence of a non-empty separator: the list of segments between
/// occurrences, in order.
pub open spec fn spec_split(s: Seq<char>, sep: Seq<char>) -> Seq<Seq<char>>
    decreases s.len(),
{
    if sep.len() == 0 || s.len() < sep.len() {
        seq![s]
    } else if s.subrange(0, sep.len() as int) == sep {
        seq![Seq::<char>::empty()] + spec_split(s.subrange(sep.len() as int, s.len() as int), sep)
    } else {
        let rest = spec_split(s.subrange(1, s.len() as int), sep);
        seq![seq![s[0]] + rest[0]] + rest.subrange(1, rest.len() as int)
    }
}

/// A split has at least one segment.
pub proof fn lemma_split_len(s: Seq<char>, sep: Seq<char>)
    ensures
        spec_split(s, sep).len() >= 1,
    decreases s.len(),
{
    if sep.len() == 0 || s.len() < sep.len() {
    } else if s.subrange(0, sep.len() as int) == sep {
        lemma_split_len(s.subrange(sep.len() as int, s.len() as int), sep);
    } else {
        lemma_split_len(s.subrange(1, s.len() as int), sep);
    }
}

/// Occurrences in a suffix of `s` are occurrences in `s`, shifted.
proof fn lemma_match_skip(s: Seq<char>, sep: Seq<char>, d: int)
    requires
        0 <= d <= s.len(),
    ensures
        forall|i: int| d <= i ==> (match_at(s, sep, i) <==> match_at(
            s.subrange(d, s.len() as int),
            sep,
            i - d,
        )),
{
    let t = s.subrange(d, s.len() as int);
    assert forall|i: int| d <= i implies (match_at(s, sep, i) <==> match_at(t, sep, i - d)) by {
        if match_at(s, sep, i) {
            assert(t.subrange(i - d, i - d + sep.len() as int) =~= s.subrange(
                i,
                i + sep.len() as int,
            ));
        }
        if match_at(t, sep, i - d) {
            assert(s.subrange(i, i + sep.len() as int) =~= t.subrange(
                i - d,
                i - d + sep.len() as int,
            ));
        }
    }
}

/// A string without the separator is one whole segment.
pub proof fn lemma_split_no_match(s: Seq<char>, sep: Seq<char>)
    requires
        sep.len() >= 1,
        !has_match(s, sep),
    ensures
        spec_split(s, sep) == seq![s],
    decreases s.len(),
{
    if s.len() < sep.len() {
    } else if s.subrange(0, sep.len() as int) == sep {
        assert(match_at(s, sep, 0));
    } else {
        let t = s.subrange(1, s.len() as int);
        lemma_match_skip(s, sep, 1);
        assert(!has_match(t, sep)) by {
            if has_match(t, sep) {
                let j = choose|j: int| match_at(t, sep, j);
                assert(match_at(s, sep, j + 1));
            }
        }
        lemma_split_no_match(t, sep);
        assert(seq![s[0]] + t =~= s);
        assert(spec_split(s, sep) =~~= seq![s]);
    }
}

/// The last segment of a split is the part of `s` after the last
/// occurrence of the separator, or all of `s` when it never occurs.
pub proof fn lemma_split_last(s: Seq<char>, sep: Seq<char>)
    requires
        sep.len() >= 1,
    ensures
        !has_match(s, sep) ==> spec_split(s, sep).last() == s,
        has_match(s, sep) ==> exists|i: int|
            match_at(s, sep, i) && spec_split(s, sep).last() == s.subrange(
                i + sep.len() as int,
                s.len() as int,
            ) && !has_match(s.subrange(i + sep.len() as int, s.len() as int), sep),
    decreases s.len(),
{
    lemma_split_len(s, sep);
    if !has_match(s, sep) {
        lemma_split_no_match(s, sep);
    } else if s.len() < sep.len() {
        let i = choose|i: int| match_at(s, sep, i);
        assert(false);
    } else if s.subrange(0, sep.len() as int) == sep {
        let m = sep.len() as int;
        let t = s.subrange(m, s.len() as int);
        lemma_split_len(t, sep);
        lemma_split_last(t, sep);
        lemma_match_skip(s, sep, m);
        assert(spec_split(s, sep).last() == spec_split(t, sep).last());
        if !has_match(t, sep) {
            assert(match_at(s, sep, 0));
            assert(spec_split(s, sep).last() == s.subrange(0 + m, s.len() as int));
        } else {
            let j = choose|j: int|
                match_at(t, sep, j) && spec_split(t, sep).last() == t.subrange(
                    j + sep.len() as int,
                    t.len() as int,
                ) && !has_match(t.subrange(j + sep.len() as int, t.len() as int), sep);
            assert(match_at(s, sep, m + j));
            assert(t.subrange(j + m, t.len() as int) =~= s.subrange(m + j + m, s.len() as int));
        }
    } else {
        let t = s.subrange(1, s.len() as int);
        let rest = spec_split(t, sep);
        lemma_split_len(t, sep);
        lemma_split_last(t, sep);
        lemma_match_skip(s, sep, 1);
        if rest.len() == 1 {
            // the whole result is one segment; s has a match, so rest must not
            assert(!has_match(t, sep)) by {
                if has_match(t, sep) {
                    let j = choose|j: int|
                        match_at(t, sep, j) && spec_split(t, sep).last() == t.subrange(
                            j + sep.len() as int,
                            t.len() as int,
                        ) && !has_match(t.subrange(j + sep.len() as int, t.len() as int), sep);
                    lemma_split_no_match(t.subrange(j + sep.len() as int, t.len() as int), sep);
                    lemma_split_has_match_len(t, sep, j);
                }
            }
            let i = choose|i: int| match_at(s, sep, i);
            if i == 0 {
                assert(s.subrange(0, sep.len() as int) =~= sep);
                assert(false);
            } else {
                assert(match_at(t, sep, i - 1));
                assert(false);
            }
        } else {
            assert(spec_split(s, sep).last() == rest.last());
            assert(has_match(t, sep)) by {
                if !has_match(t, sep) {
                    lemma_split_no_match(t, sep);
                }
            }
            let j = choose|j: int|
                match_at(t, sep, j) && rest.last() == t.subrange(
                    j + sep.len() as int,
                    t.len() as int,
                ) && !has_match(t.subrange(j + sep.len() as int, t.len() as int), sep);
            assert(match_at(s, sep, 1 + j));
            assert(t.subrange(j + sep.len() as int, t.len() as int) =~= s.subrange(
                1 + j + sep.len() as int,
                s.len() as int,
            ));
        }
    }
}

/// A string with an occurrence splits into at least two segments.
proof fn lemma_split_has_match_len(s: Seq<char>, sep: Seq<char>, i: int)
    requires
        sep.len() >= 1,
        match_at(s, sep, i),
    ensures
        spec_split(s, sep).len() >= 2,
    decreases s.len(),
{
    if s.len() < sep.len() {
        assert(false);
    } else if s.subrange(0, sep.len() as int) == sep {
        lemma_split_len(s.subrange(sep.len() as int, s.len() as int), sep);
    } else {
        let t = s.subrange(1, s.len() as int);
        lemma_match_skip(s, sep, 1);
        if i == 0 {
            assert(s.subrange(0, sep.len() as int) =~= sep);
            assert(false);
        } else {
            lemma_split_has_match_len(t, sep, i - 1);
        }
    }
}

/// Splitting a string that starts with a separator-free prefix `a`,
/// then the separator, yields `a` followed by the split of the rest.
pub proof fn lemma_split_concat(a: Seq<char>, b: Seq<char>, sep: Seq<char>)
    requires
        sep.len() >= 1,
        forall|i: int| 0 <= i < a.len() ==> !match_at(a + sep + b, sep, i),
    ensures
        spec_split(a + sep + b, sep) == seq![a] + spec_split(b, sep),
    decreases a.len(),
{
    let s = a + sep + b;
    if a.len() == 0 {
        assert(s.subrange(0, sep.len() as int) =~= sep);
        assert(s.subrange(sep.len() as int, s.len() as int) =~= b);
        assert(seq![Seq::<char>::empty()] =~~= seq![a]);
        assert(spec_split(s, sep) =~~= seq![a] + spec_split(b, sep));
    } else {
        assert(!(s.len() < sep.len()));
        assert(s.subrange(0, sep.len() as int) != sep) by {
            if s.subrange(0, sep.len() as int) == sep {
                assert(match_at(s, sep, 0));
            }
        }
        let t = s.subrange(1, s.len() as int);
        let a1 = a.subrange(1, a.len() as int);
        assert(t =~= a1 + sep + b);
        lemma_match_skip(s, sep, 1);
        assert forall|i: int| 0 <= i < a1.len() implies !match_at(a1 + sep + b, sep, i) by {
            assert(!match_at(s, sep, i + 1));
        }
        lemma_split_concat(a1, b, sep);
        let rest = spec_split(t, sep);
        lemma_split_len(b, sep);
        assert(rest[0] == a1);
        assert(seq![s[0]] + rest[0] =~= a);
        assert(rest.subrange(1, rest.len() as int) =~= spec_split(b, sep));
        assert(spec_split(s, sep) =~~= seq![a] + spec_split(b, sep));
    }
}

/// A concatenation contains its middle part as a substring.
pub proof fn lemma_has_match_concat(a: Seq<char>, b: Seq<char>, c: Seq<char>)
    ensures
        has_match(a + b + c, b),
{
    let s = a + b + c;
    assert(s.subrange(a.len() as int, a.len() as int + b.len() as int) =~= b);
    assert(match_at(s, b, a.len() as int));
}

/// A path is normalized by prepending `/` unless it already starts with one.
pub open spec fn normalized(p: Seq<char>) -> Seq<char> {
    if p.len() > 0 && p[0] == '/' {
        p
    } else {
        seq!['/'] + p
    }
}

/// Normalization settles after one application.
pub proof fn lemma_normalized_idempotent(p: Seq<char>)
    ensures
        normalized(normalized(p)) == normalized(p),
{
    assert(normalized(p)[0] == '/');
}

/// Prepend `/` to a path unless it already starts with one.
pub fn normalize_path(p: &str) -> (r: String)
    ensures
        r@ == normalized(p@),
{
    let n = p.unicode_len();
    if n > 0 && p.get_char(0) == '/' {
        p.to_owned()
    } else {
        proof {
            reveal_strlit("/");
        }
        let mut s = String::from_str("/");
        s.append(p);
        proof {
            assert(s@ =~= seq!['/'] + p@);
        }
        s
    }
}

/// Do `needle`'s characters all stand in `hay` starting at position `i`?
fn match_at_exec(hay: &str, needle: &str, i: usize) -> (b: bool)
    requires
        i + needle@.len() <= hay@.len(),
        hay@.len() <= usize::MAX,
    ensures
        b == match_at(hay@, needle@, i as int),
{
    let m = needle.unicode_len();
    let mut j: usize = 0;
    while j < m
        invariant
            j <= m,
            m == needle@.len(),
            i + m <= hay@.len() <= usize::MAX,
            forall|k: int| 0 <= k < j ==> hay@[i + k] == needle@[k],
        decreases m - j,
    {
        if hay.get_char(i + j) != needle.get_char(j) {
            proof {
                let sub = hay@.subrange(i as int, i + m as int);
                assert(sub[j as int] == hay@[i + j]);
            }
            return false;
        }
        j += 1;
    }
    proof {
        assert(hay@.subrange(i as int, i + m as int) =~= needle@);
    }
    true
}

/// Whether `needle` occurs in `hay`, as Rust's `str::contains` decides it
/// (case-sensitive, plain substring, true for an empty needle).
pub fn str_contains(hay: &str, needle: &str) -> (b: bool)
    ensures
        b == has_match(hay@, needle@),
{
    let n = hay.unicode_len();
    let m = needle.unicode_len();
    if m > n {
        proof {
            assert forall|i: int| !match_at(hay@, needle@, i) by {}
        }
        return false;
    }
    if m == 0 {
        proof {
            assert(hay@.subrange(0, 0) =~= needle@);
            assert(match_at(hay@, needle@, 0));
        }
        return true;
    }
    let mut i: usize = 0;
    while i <= n - m
        invariant
            1 <= m <= n,
            n == hay@.len(),
            m == needle@.len(),
            i <= n - m + 1,
            forall|k: int| 0 <= k < i ==> !match_at(hay@, needle@, k),
        decreases n - m - i + 1,
    {
        if match_at_exec(hay, needle, i) {
            return true;
        }
        i += 1;
    }
    proof {
        assert forall|k: int| !match_at(hay@, needle@, k) by {
            if k < i {
            } else {
                assert(k + m > n);
            }
        }
    }
    false
}

/// Character-for-character equality of two strings.
pub fn str_eq(a: &str, b: &str) -> (r: bool)
    ensures
        r == (a@ == b@),
{
    let n = a.unicode_len();
    let m = b.unicode_len();
    if n != m {
        return false;
    }
    let mut i: usize = 0;
    while i < n
        invariant
            i <= n,
            n == a@.len(),
            n == b@.len(),
            forall|k: int| 0 <= k < i ==> a@[k] == b@[k],
        decreases n - i,
    {
        if a.get_char(i) != b.get_char(i) {
            return false;
        }
        i += 1;
    }
    proof {
        assert(a@ =~= b@);
    }
    true
}

/// Divide `s` at each leftmost occurrence of `sep`, as `str::split` does.
pub fn split_str(s: &str, sep: &str) -> (r: Vec<String>)
    requires
        sep@.len() >= 1,
    ensures
        r@.len() == spec_split(s@, sep@).len(),
        forall|i: int| 0 <= i < r@.len() ==> r@[i]@ == spec_split(s@, sep@)[i],
    decreases s@.len(),
{
    let n = s.unicode_len();
    let m = sep.unicode_len();
    if n < m {
        let mut v: Vec<String> = Vec::new();
        v.push(s.to_owned());
        v
    } else if match_at_exec(s, sep, 0) {
        let tail = s.substring_char(m, n);
        let mut rest = split_str(tail, sep);
        rest.insert(0, String::new());
        proof {
            assert(spec_split(s@, sep@) == seq![Seq::<char>::empty()] + spec_split(tail@, sep@));
        }
        rest
    } else {
        proof {
            assert(s@.subrange(0, m as int) != sep@);
        }
        let tail = s.substring_char(1, n);
        let rest = split_str(tail, sep);
        proof {
            lemma_split_len(tail@, sep@);
        }
        let mut first = s.substring_char(0, 1).to_owned();
        first.append(rest[0].as_str());
        let mut v: Vec<String> = Vec::new();
        v.push(first);
        let mut i: usize = 1;
        while i < rest.len()
            invariant
                1 <= i <= rest@.len(),
                v@.len() == i,
                v@[0]@ == seq![s@[0]] + spec_split(tail@, sep@)[0],
                rest@.len() == spec_split(tail@, sep@).len(),
                forall|k: int| 0 <= k < rest@.len() ==> rest@[k]@ == spec_split(tail@, sep@)[k],
                forall|k: int| 1 <= k < i ==> v@[k]@ == spec_split(tail@, sep@)[k],
            decreases rest@.len() - i,
        {
            v.push(rest[i].clone());
            i += 1;
        }
        proof {
            assert(s@.subrange(0, 1) =~= seq![s@[0]]);
            let parts = spec_split(s@, sep@);
            let restspec = spec_split(tail@, sep@);
            assert(parts == seq![seq![s@[0]] + restspec[0]] + restspec.subrange(
                1,
                restspec.len() as int,
            ));
            assert(v@.len() == parts.len());
            assert forall|k: int| 0 <= k < v@.len() implies v@[k]@ == parts[k] by {
                if k == 0 {
                    assert(parts[0] == seq![s@[0]] + restspec[0]);
                } else {
                    assert(parts[k] == restspec.subrange(1, restspec.len() as int)[k - 1]);
                }
            }
        }
        v
    }
}

} // verus!
