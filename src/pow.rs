use vstd::prelude::*;

verus! {

/// A hash meets the proof-of-work target when it starts with `prefix`,
/// compared character by character.
pub open spec fn meets_prefix(hash: Seq<char>, prefix: Seq<char>) -> bool {
    prefix.len() <= hash.len() && hash.subrange(0, prefix.len() as int) == prefix
}

/// The empty prefix is met by every hash, and no hash shorter than the
/// prefix meets it.
pub proof fn lemma_prefix_bounds(hash: Seq<char>, prefix: Seq<char>)
    ensures
        meets_prefix(hash, Seq::<char>::empty()),
        prefix.len() > hash.len() ==> !meets_prefix(hash, prefix),
{
    assert(hash.subrange(0, 0) =~= Seq::<char>::empty());
}

} // verus!
