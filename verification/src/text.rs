//! Text primitives: substring containment and lower-casing.

use vstd::prelude::*;

verus! {

/// `needle` occurs in `haystack` starting at position `at`.
pub open spec fn occurs_at(haystack: Seq<char>, needle: Seq<char>, at: int) -> bool {
    &&& 0 <= at
    &&& at + needle.len() <= haystack.len()
    &&& haystack.subrange(at, at + needle.len()) == needle
}

/// `needle` occurs somewhere in `haystack` as a contiguous run of characters.
/// The empty sequence occurs in every sequence.
pub open spec fn is_substring(haystack: Seq<char>, needle: Seq<char>) -> bool {
    exists|at: int| occurs_at(haystack, needle, at)
}

/// Containment is transitive: what occurs in a part occurs in the whole.
pub proof fn lemma_substring_transitive(whole: Seq<char>, part: Seq<char>, piece: Seq<char>)
    requires
        is_substring(whole, part),
        is_substring(part, piece),
    ensures
        is_substring(whole, piece),
{
    let outer = choose|at: int| occurs_at(whole, part, at);
    let inner = choose|at: int| occurs_at(part, piece, at);
    assert(whole.subrange(outer + inner, outer + inner + piece.len()) =~= whole.subrange(
        outer,
        outer + part.len(),
    ).subrange(inner, inner + piece.len()));
    assert(occurs_at(whole, piece, outer + inner));
}

/// The characters of a string slice, in order.
pub fn chars_of(s: &str) -> (chars: Vec<char>)
    ensures
        chars@ == s@,
{
    let mut chars: Vec<char> = Vec::new();
    for c in it: s.chars()
        invariant
            chars@ == it.seq().take(it.index() as int),
            it.seq() == s@,
    {
        chars.push(c);
    }
    chars
}

/// Whether `chars` spells exactly `text`.
pub fn spells(chars: &Vec<char>, text: &str) -> (same: bool)
    ensures
        same == (chars@ == text@),
{
    let mut i: usize = 0;
    for c in it: text.chars()
        invariant
            it.seq() == text@,
            i == it.index(),
            i <= chars.len(),
            forall|j: int| 0 <= j < i ==> chars@[j] == text@[j],
    {
        if i >= chars.len() || chars[i] != c {
            return false;
        }
        i += 1;
    }
    assert(i == chars.len() ==> chars@ =~= text@);
    i == chars.len()
}

/// Whether `needle` stands in `haystack` at position `at`, compared character
/// by character.
fn matches_at(haystack: &Vec<char>, needle: &Vec<char>, at: usize) -> (found: bool)
    requires
        at + needle.len() <= haystack.len(),
    ensures
        found == occurs_at(haystack@, needle@, at as int),
{
    let mut k: usize = 0;
    while k < needle.len()
        invariant
            k <= needle.len(),
            at + needle.len() <= haystack.len(),
            forall|j: int| 0 <= j < k ==> haystack@[at + j] == needle@[j],
        decreases needle.len() - k,
    {
        if haystack[at + k] != needle[k] {
            proof {
                let window = haystack@.subrange(at as int, at + needle.len());
                assert(window[k as int] != needle@[k as int]);
            }
            return false;
        }
        k += 1;
    }
    assert(haystack@.subrange(at as int, at + needle.len()) =~= needle@);
    true
}

/// Whether `needle` occurs in `haystack` as a contiguous run of characters.
pub fn contains(haystack: &str, needle: &str) -> (found: bool)
    ensures
        found == is_substring(haystack@, needle@),
{
    let hay = chars_of(haystack);
    let pin = chars_of(needle);
    if pin.len() > hay.len() {
        return false;
    }
    let last: usize = hay.len() - pin.len();
    let mut at: usize = 0;
    loop
        invariant
            hay@ == haystack@,
            pin@ == needle@,
            last + pin.len() == hay.len(),
            at <= last,
            forall|i: int| 0 <= i < at ==> !occurs_at(hay@, pin@, i),
        decreases last - at,
    {
        if matches_at(&hay, &pin, at) {
            return true;
        }
        if at == last {
            return false;
        }
        at += 1;
    }
}

/// The lower-case form that the standard library gives a string. It follows
/// Unicode's case mappings, so the result may differ in length from the input.
pub uninterp spec fn lowercase_of(s: Seq<char>) -> Seq<char>;

/// `str::to_lowercase`: the result is the standard library's lower-case form
/// of `s`, which this library names and does not define.
#[verifier::external_body]
pub(crate) fn to_lowercase(s: &str) -> (lowered: String)
    ensures
        lowered@ == lowercase_of(s@),
{
    s.to_lowercase()
}

} // verus!
