use vstd::prelude::*;

use crate::apply::LiveState;
use crate::Error;

verus! {

/// Where an AppInstance stands in its deletion lifecycle.
#[derive(PartialEq, Eq, Structural, Clone, Copy, Debug)]
pub enum Phase {
    /// Not being deleted: the normal reconcile path runs.
    Active,
    /// Deletion requested while the finalizer holds the object: cleanup runs.
    Deleting,
    /// Deletion requested and the finalizer gone: the cluster may collect it.
    Released,
}

pub open spec fn spec_phase(has_finalizer: bool, deletion_requested: bool) -> Phase {
    if !deletion_requested {
        Phase::Active
    } else if has_finalizer {
        Phase::Deleting
    } else {
        Phase::Released
    }
}

/// The lifecycle phase of an object with or without the finalizer, and
/// with or without a deletion timestamp.
pub fn phase(has_finalizer: bool, deletion_requested: bool) -> (r: Phase)
    ensures
        r == spec_phase(has_finalizer, deletion_requested),
{
    if !deletion_requested {
        Phase::Active
    } else if has_finalizer {
        Phase::Deleting
    } else {
        Phase::Released
    }
}

/// What the deletion engine asks of the finalizer machinery.
#[derive(PartialEq, Eq, Structural, Clone, Copy, Debug)]
pub enum CleanupVerdict {
    /// Every object is gone: remove the finalizer.
    ReleaseFinalizer,
    /// Objects remain and time is left: keep waiting for them.
    Continue,
}

pub open spec fn spec_cleanup_verdict(remaining: nat, elapsed_ms: nat, window_ms: nat) -> Result<
    CleanupVerdict,
    Error,
> {
    if remaining == 0 {
        Ok(CleanupVerdict::ReleaseFinalizer)
    } else if elapsed_ms >= window_ms {
        Err(Error::ResourceDeletionTimeout)
    } else {
        Ok(CleanupVerdict::Continue)
    }
}

/// Decides a cleanup attempt from the number of objects still present and
/// the time spent against the window.
pub fn cleanup_verdict(remaining: usize, elapsed_ms: u64, window_ms: u64) -> (r: Result<
    CleanupVerdict,
    Error,
>)
    ensures
        r == spec_cleanup_verdict(remaining as nat, elapsed_ms as nat, window_ms as nat),
{
    if remaining == 0 {
        Ok(CleanupVerdict::ReleaseFinalizer)
    } else if elapsed_ms >= window_ms {
        Err(Error::ResourceDeletionTimeout)
    } else {
        Ok(CleanupVerdict::Continue)
    }
}

/// A deletion that has not finished inside its window fails with the
/// timeout and does not release the finalizer: the object stays in the
/// deleting phase and is not collected.
pub proof fn lemma_timeout_keeps_finalizer(remaining: nat, elapsed_ms: nat, window_ms: nat)
    requires
        remaining > 0,
        elapsed_ms >= window_ms,
    ensures
        spec_cleanup_verdict(remaining, elapsed_ms, window_ms) matches Err(
            Error::ResourceDeletionTimeout,
        ),
        !(spec_cleanup_verdict(remaining, elapsed_ms, window_ms) matches Ok(
            CleanupVerdict::ReleaseFinalizer,
        )),
        spec_phase(true, true) == Phase::Deleting,
{
}

/// `live` with the objects `ids` removed.
pub open spec fn removed_all(live: Map<Seq<char>, Seq<char>>, ids: Seq<String>) -> Map<
    Seq<char>,
    Seq<char>,
>
    decreases ids.len(),
{
    if ids.len() == 0 {
        live
    } else {
        removed_all(live, ids.drop_last()).remove(ids.last()@)
    }
}

/// Removes every object that the last apply created. Objects that are
/// already gone count as removed, so a retried cleanup is safe.
pub fn clean_up(live: &mut LiveState, applied: &Vec<String>)
    ensures
        final(live)@ == removed_all(old(live)@, applied@),
        forall|i: int| 0 <= i < applied.len() ==> !final(live)@.contains_key(#[trigger] applied[i]@),
{
    let ghost start = live@;
    let mut i: usize = 0;
    while i < applied.len()
        invariant
            i <= applied.len(),
            live@ == removed_all(start, applied@.take(i as int)),
            forall|t: int| 0 <= t < i ==> !live@.contains_key(#[trigger] applied[t]@),
        decreases applied.len() - i,
    {
        assert(applied@.take(i + 1).drop_last() =~= applied@.take(i as int));
        live.remove(&applied[i]);
        i += 1;
    }
    assert(applied@.take(applied.len() as int) =~= applied@);
}

} // verus!
