//! Case-insensitive name matching, as used to pick an adapter by name.

use vstd::prelude::*;
use cow_utils::CowUtils;

verus! {

/// The Unicode lower-case form of a string, as `str::to_lowercase` computes it.
pub uninterp spec fn lowercase(s: Seq<char>) -> Seq<char>;

/// The ASCII lower-case form of one character.
pub open spec fn ascii_lower(c: char) -> char {
    if 'A' <= c && c <= 'Z' {
        ((c as u32) + 32) as char
    } else {
        c
    }
}

/// Every character of `s` is in the ASCII range.
pub open spec fn all_ascii(s: Seq<char>) -> bool {
    forall|i: int| 0 <= i < s.len() ==> (s[i] as u32) < 128
}

/// Lower-cases `s` with `CowUtils::cow_to_lowercase` from the `cow_utils` crate.
///
/// Trusted: the result is `lowercase(s@)`, the same string that
/// `str::to_lowercase` gives; on an all-ASCII string that is the character-wise
/// ASCII lower case (A to Z become a to z, every other character stays).
#[verifier::external_body]
pub(crate) fn to_lowercase(s: &str) -> (res: String)
    ensures
        res@ == lowercase(s@),
        all_ascii(s@) ==> res@ == s@.map_values(|c: char| ascii_lower(c)),
{
    s.cow_to_lowercase().into_owned()
}

/// The characters of a string, in order.
pub fn chars_of(s: &str) -> (res: Vec<char>)
    ensures
        res@ == s@,
{
    broadcast use vstd::string::group_string_axioms;
    let mut res: Vec<char> = Vec::new();
    for c in it: s.chars()
        invariant
            it.seq() == s@,
            res@ == it.seq().take(it.index() as int),
    {
        res.push(c);
    }
    res
}


/// `needle` occurs in `hay` starting at position `i`.
pub open spec fn occurs_at(hay: Seq<char>, needle: Seq<char>, i: int) -> bool {
    &&& 0 <= i
    &&& i + needle.len() <= hay.len()
    &&& hay.subrange(i, i + needle.len()) == needle
}

/// `needle` is a contiguous part of `hay`, as `str::contains` tests it.
pub open spec fn contains_seq(hay: Seq<char>, needle: Seq<char>) -> bool {
    exists|i: int| occurs_at(hay, needle, i)
}

/// Containment is what `str::contains` tests: the empty sequence is in every
/// sequence, every sequence is in itself and in anything built around it, and
/// nothing is in a shorter sequence.
pub proof fn law_contains(a: Seq<char>, b: Seq<char>, c: Seq<char>)
    ensures
        contains_seq(a, Seq::<char>::empty()),
        contains_seq(a, a),
        contains_seq(a + b + c, b),
        b.len() > a.len() ==> !contains_seq(a, b),
{
    assert(a.subrange(0, 0) =~= Seq::<char>::empty());
    assert(occurs_at(a, Seq::<char>::empty(), 0));
    assert(a.subrange(0, a.len() as int) =~= a);
    assert(occurs_at(a, a, 0));
    assert((a + b + c).subrange(a.len() as int, (a.len() + b.len()) as int) =~= b);
    assert(occurs_at(a + b + c, b, a.len() as int));
}

/// Whether `needle` occurs in `hay` at position `i`.
fn occurs_at_exec(hay: &Vec<char>, needle: &Vec<char>, i: usize) -> (res: bool)
    requires
        i + needle@.len() <= hay@.len(),
    ensures
        res == occurs_at(hay@, needle@, i as int),
{
    let n = needle.len();
    let hlen = hay.len();
    let mut j: usize = 0;
    while j < n
        invariant
            n == needle@.len(),
            i + n <= hay@.len(),
            hlen == hay@.len(),
            j <= n,
            forall|k: int| 0 <= k < j ==> hay@[i + k] == needle@[k],
        decreases n - j,
    {
        if hay[i + j] != needle[j] {
            assert(hay@.subrange(i as int, i + n)[j as int] != needle@[j as int]);
            return false;
        }
        j = j + 1;
    }
    assert(hay@.subrange(i as int, i + n) =~= needle@);
    true
}

/// Whether `needle` is a contiguous part of `hay`.
pub fn contains_chars(hay: &Vec<char>, needle: &Vec<char>) -> (res: bool)
    ensures
        res == contains_seq(hay@, needle@),
{
    if needle.len() > hay.len() {
        return false;
    }
    if needle.len() == 0 {
        assert(hay@.subrange(0, 0) =~= needle@);
        assert(occurs_at(hay@, needle@, 0));
        return true;
    }
    let hlen = hay.len();
    let last = hlen - needle.len();
    let mut i: usize = 0;
    while i <= last
        invariant
            hlen == hay@.len(),
            last + needle@.len() == hay@.len(),
            needle@.len() > 0,
            i <= last + 1,
            forall|k: int| 0 <= k < i ==> !occurs_at(hay@, needle@, k),
        decreases last + 1 - i,
    {
        if occurs_at_exec(hay, needle, i) {
            return true;
        }
        i = i + 1;
    }
    false
}

/// `name`, lower-cased, contains the already lower-cased `lowered_wanted`.
pub open spec fn name_matches(name: Seq<char>, lowered_wanted: Seq<char>) -> bool {
    contains_seq(lowercase(name), lowered_wanted)
}

/// The lower-cased characters of `s`.
pub fn lowercase_chars(s: &str) -> (res: Vec<char>)
    ensures
        res@ == lowercase(s@),
        all_ascii(s@) ==> res@ == s@.map_values(|c: char| ascii_lower(c)),
{
    let lowered = to_lowercase(s);
    chars_of(lowered.as_str())
}

} // verus!
