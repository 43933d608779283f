//! The change-detection policy: when a freshly read identity is published.
use vstd::prelude::*;

verus! {

/// A candidate identity is emitted iff it is non-empty and differs from the
/// last published one.
pub open spec fn emits(candidate: Seq<char>, last: Seq<char>) -> bool {
    candidate != last && candidate.len() > 0
}

/// Decides whether `candidate` should be published, given the last published
/// identity `last`. The empty identity means "no track known" and is never
/// published.
pub fn should_emit(candidate: &String, last: &String) -> (r: bool)
    ensures
        r == emits(candidate@, last@),
{
    let differs = !(*candidate == *last);
    differs && !candidate.as_str().is_empty()
}

/// An identity equal to the last published one is never published again.
pub proof fn lemma_unchanged_never_emits(x: Seq<char>)
    requires
        x.len() > 0,
    ensures
        !emits(x, x),
{
}

/// The empty identity is never published, whatever was published before.
pub proof fn lemma_empty_never_emits(last: Seq<char>)
    ensures
        !emits(Seq::empty(), last),
{
}

/// A non-empty identity that differs from the last published one is always
/// published.
pub proof fn lemma_new_identity_emits(x: Seq<char>, y: Seq<char>)
    requires
        x != y,
        x.len() > 0,
    ensures
        emits(x, y),
{
}

} // verus!
