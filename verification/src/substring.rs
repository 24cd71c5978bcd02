//! Substring containment over character sequences.

use vstd::prelude::*;

verus! {

/// `needle` stands in `hay` as a contiguous run of characters that starts at
/// position `at`.
pub open spec fn occurs_at(needle: Seq<char>, hay: Seq<char>, at: int) -> bool {
    &&& 0 <= at
    &&& at + needle.len() <= hay.len()
    &&& hay.subrange(at, at + needle.len()) == needle
}

/// `needle` stands somewhere in `hay`.
pub open spec fn occurs_in(needle: Seq<char>, hay: Seq<char>) -> bool {
    exists|at: int| occurs_at(needle, hay, at)
}

/// Trusted: `str::contains` of the standard library, called with a string
/// slice as the pattern. It returns `true` exactly when the pattern matches
/// a sub-slice of the string. Both are valid UTF-8, so a match of the bytes
/// is a match of whole characters, which is what the contract says.
#[verifier::external_body]
pub(crate) fn contains(hay: &str, needle: &str) -> (found: bool)
    ensures
        found == occurs_in(needle@, hay@),
{
    hay.contains(needle)
}

/// Every sequence stands in itself.
pub proof fn occurs_in_itself(text: Seq<char>)
    ensures
        occurs_in(text, text),
{
    assert(text.subrange(0, text.len() as int) =~= text);
    assert(occurs_at(text, text, 0));
}

/// What is embedded between two other texts stands in the whole.
pub proof fn occurs_in_embedding(before: Seq<char>, needle: Seq<char>, after: Seq<char>)
    ensures
        occurs_in(needle, before + needle + after),
{
    let hay = before + needle + after;
    let at = before.len() as int;
    assert(hay.subrange(at, at + needle.len()) =~= needle);
    assert(occurs_at(needle, hay, at));
}

/// A longer sequence stands nowhere in a shorter one.
pub proof fn longer_does_not_occur(needle: Seq<char>, hay: Seq<char>)
    requires
        needle.len() > hay.len(),
    ensures
        !occurs_in(needle, hay),
{
}

/// A sequence with a character that `hay` lacks stands nowhere in `hay`.
pub proof fn stranger_does_not_occur(needle: Seq<char>, hay: Seq<char>, k: int)
    requires
        0 <= k < needle.len(),
        forall|i: int| 0 <= i < hay.len() ==> hay[i] != needle[k],
    ensures
        !occurs_in(needle, hay),
{
    assert forall|at: int| !occurs_at(needle, hay, at) by {
        if occurs_at(needle, hay, at) {
            assert(hay.subrange(at, at + needle.len())[k] == hay[at + k]);
        }
    }
}

} // verus!
