//! Character-level utilities shared by the scanners and serializers: exact
//! substring search over character vectors and the conversions between
//! `String` and `Vec<char>` at the library's boundaries.

use vstd::prelude::*;

verus! {

/// True when `needle` occurs in `hay` starting at index `i`.
pub open spec fn occurs_at(hay: Seq<char>, needle: Seq<char>, i: int) -> bool {
    &&& 0 <= i
    &&& i + needle.len() <= hay.len()
    &&& hay.subrange(i, i + needle.len() as int) == needle
}

/// Index of the first occurrence of `needle` in `hay` at or after `from`,
/// if any.
pub open spec fn find_occ(hay: Seq<char>, needle: Seq<char>, from: int) -> Option<int>
    decreases hay.len() + 1 - from,
{
    if from < 0 || from + needle.len() > hay.len() {
        None
    } else if occurs_at(hay, needle, from) {
        Some(from)
    } else {
        find_occ(hay, needle, from + 1)
    }
}

/// What `find_occ` returns is an occurrence, and the earliest one.
pub proof fn lemma_find_occ_props(hay: Seq<char>, needle: Seq<char>, from: int)
    requires
        0 <= from,
    ensures
        match find_occ(hay, needle, from) {
            Some(k) => occurs_at(hay, needle, k) && from <= k && forall|j: int|
                from <= j < k ==> !occurs_at(hay, needle, j),
            None => forall|j: int| from <= j ==> !occurs_at(hay, needle, j),
        },
    decreases hay.len() + 1 - from,
{
    if from + needle.len() > hay.len() {
        assert forall|j: int| from <= j implies !occurs_at(hay, needle, j) by {}
    } else if occurs_at(hay, needle, from) {
    } else {
        lemma_find_occ_props(hay, needle, from + 1);
    }
}

/// Converts a string slice into the vector of its characters.
///
/// Relies on `str::chars`: the characters of the string, in order, which is
/// exactly the string's view.
#[verifier::external_body]
pub fn chars_of(s: &str) -> (r: Vec<char>)
    ensures
        r@ == s@,
{
    s.chars().collect()
}

/// Builds a `String` from a vector of characters.
///
/// Relies on `String::from_iter` over characters: the resulting string holds
/// exactly the given characters, in order.
#[verifier::external_body]
pub fn string_of(v: &Vec<char>) -> (r: String)
    ensures
        r@ == v@,
{
    v.iter().collect()
}

/// Equality of two string slices, by their character sequences.
pub fn str_eq(a: &str, b: &str) -> (r: bool)
    ensures
        r == (a@ == b@),
{
    let x: String = a.to_owned();
    let y: String = b.to_owned();
    x == y
}

/// Appends every character of `src` to `out`.
pub fn push_all(out: &mut Vec<char>, src: &Vec<char>)
    ensures
        final(out)@ == old(out)@ + src@,
{
    let mut i: usize = 0;
    while i < src.len()
        invariant
            i <= src.len(),
            out@ == old(out)@ + src@.subrange(0, i as int),
        decreases src.len() - i,
    {
        out.push(src[i]);
        i += 1;
        assert(out@ =~= old(out)@ + src@.subrange(0, i as int));
    }
    assert(out@ =~= old(out)@ + src@);
}

/// Appends every character of the string slice `src` to `out`.
pub fn push_str_chars(out: &mut Vec<char>, src: &str)
    ensures
        final(out)@ == old(out)@ + src@,
{
    let cs = chars_of(src);
    push_all(out, &cs);
}

/// The character sequences of a sequence of strings.
pub open spec fn strs_view(v: Seq<String>) -> Seq<Seq<char>> {
    v.map_values(|s: String| s@)
}

/// The character-sequence pairs of a sequence of string pairs.
pub open spec fn pairs_view(v: Seq<(String, String)>) -> Seq<(Seq<char>, Seq<char>)> {
    v.map_values(|p: (String, String)| (p.0@, p.1@))
}

/// Whether `needle` occurs anywhere in `hay`.
pub open spec fn contains_seq(hay: Seq<char>, needle: Seq<char>) -> bool {
    find_occ(hay, needle, 0) is Some
}

/// Finds the first occurrence of `needle` in `hay` at or after `from`.
pub fn find_sub(hay: &Vec<char>, needle: &Vec<char>, from: usize) -> (r: Option<usize>)
    requires
        needle@.len() > 0,
    ensures
        match r {
            Some(k) => from <= k && Some(k as int) == find_occ(hay@, needle@, from as int),
            None => find_occ(hay@, needle@, from as int) is None,
        },
{
    if needle.len() > hay.len() {
        proof {
            lemma_find_none_when_short(hay@, needle@, from as int);
        }
        return None;
    }
    let limit = hay.len() - needle.len();
    if from > limit {
        proof {
            lemma_find_none_when_short(hay@, needle@, from as int);
        }
        return None;
    }
    let mut i: usize = from;
    while i <= limit
        invariant
            from <= i,
            i <= limit + 1,
            needle@.len() > 0,
            hay@.len() <= usize::MAX,
            needle@.len() + limit == hay@.len(),
            find_occ(hay@, needle@, from as int) == find_occ(hay@, needle@, i as int),
        decreases limit + 1 - i,
    {
        if match_at(hay, needle, i) {
            proof {
                assert(occurs_at(hay@, needle@, i as int));
            }
            return Some(i);
        }
        proof {
            assert(!occurs_at(hay@, needle@, i as int));
            assert(find_occ(hay@, needle@, i as int) == find_occ(hay@, needle@, i + 1));
        }
        i += 1;
    }
    proof {
        lemma_find_none_when_short(hay@, needle@, i as int);
    }
    None
}

/// One-position comparison: whether `needle` occurs in `hay` at `i`.
pub fn match_at(hay: &Vec<char>, needle: &Vec<char>, i: usize) -> (r: bool)
    requires
        i + needle@.len() <= hay@.len(),
    ensures
        r == occurs_at(hay@, needle@, i as int),
{
    let hlen = hay.len();
    let mut j: usize = 0;
    while j < needle.len()
        invariant
            hlen == hay@.len(),
            i + needle@.len() <= hay@.len(),
            j <= needle@.len(),
            forall|k: int| 0 <= k < j ==> hay@[i + k] == needle@[k],
        decreases needle.len() - j,
    {
        if hay[i + j] != needle[j] {
            assert(hay@.subrange(i as int, i + needle@.len() as int)[j as int] != needle@[j as int]);
            return false;
        }
        j += 1;
    }
    assert(hay@.subrange(i as int, i + needle@.len() as int) =~= needle@);
    true
}

proof fn lemma_find_none_when_short(hay: Seq<char>, needle: Seq<char>, from: int)
    requires
        from + needle.len() > hay.len(),
        0 <= from,
    ensures
        find_occ(hay, needle, from) is None,
    decreases hay.len() - from,
{
}

/// Copies the characters of `v` between `from` and `to` into a new vector.
pub fn subvec(v: &Vec<char>, from: usize, to: usize) -> (r: Vec<char>)
    requires
        from <= to,
        to <= v@.len(),
    ensures
        r@ == v@.subrange(from as int, to as int),
{
    let mut r: Vec<char> = Vec::new();
    let mut k: usize = from;
    while k < to
        invariant
            from <= k,
            k <= to,
            to <= v@.len(),
            r@ == v@.subrange(from as int, k as int),
        decreases to - k,
    {
        r.push(v[k]);
        k += 1;
        proof {
            assert(r@ =~= v@.subrange(from as int, k as int));
        }
    }
    r
}

} // verus!
