//! When an index is brought up to date without being asked.

use crate::index::Index;
use crate::storage::feed_after_refresh;
use vstd::prelude::*;

verus! {

/// Defines when an [`Index`] should be automatically refreshed.
///
/// Refreshing an index is required for it to reflect attributes as they are
/// added, changed and removed. A policy is a fixed combination of three
/// switches, read by [`refresh_when_used`](Self::refresh_when_used),
/// [`refresh_on_every_access`](Self::refresh_on_every_access) and
/// [`refresh_once_per_frame`](Self::refresh_once_per_frame).
#[derive(Copy, Clone, PartialEq, Eq, Debug)]
pub enum IndexRefreshPolicy {
    /// Refresh the first time a lookup is made in each step.
    OnAccess,
    /// Refresh the first time a lookup is made in each step, and once per
    /// frame whether or not any lookup is made, so that no removal is missed.
    Conservative,
    /// Refresh the first time a lookup is made in each step, on the
    /// assumption that indexed records are never removed.
    ///
    /// Nothing checks that assumption: where records are removed and no
    /// lookup follows before the host forgets the removal, the index keeps
    /// the removed entity. See
    /// [`assumes_no_removals`](Self::assumes_no_removals).
    NoDespawnOptimized,
    /// Refresh once per frame and never on lookup: every lookup within a
    /// frame sees the same state.
    Snapshot,
    /// Never refresh automatically. The caller refreshes, or reads stale
    /// data.
    Manual,
}

impl IndexRefreshPolicy {
    /// Whether the first lookup within a step refreshes the index.
    pub open spec fn spec_refresh_when_used(self) -> bool {
        self is OnAccess || self is Conservative || self is NoDespawnOptimized
    }

    /// Whether the index refreshes whenever an operation binds it, lookup or
    /// not. None of the named policies does.
    pub open spec fn spec_refresh_on_every_access(self) -> bool {
        false
    }

    /// Whether the host is to refresh the index at a fixed point of every
    /// frame.
    pub open spec fn spec_refresh_once_per_frame(self) -> bool {
        self is Conservative || self is Snapshot
    }

    /// Whether the policy is only safe where indexed records are never
    /// removed.
    pub open spec fn spec_assumes_no_removals(self) -> bool {
        self is NoDespawnOptimized
    }

    /// Whether the first lookup within a step refreshes the index.
    #[verifier::when_used_as_spec(spec_refresh_when_used)]
    pub fn refresh_when_used(self) -> (yes: bool)
        ensures
            yes == self.spec_refresh_when_used(),
    {
        match self {
            IndexRefreshPolicy::OnAccess => true,
            IndexRefreshPolicy::Conservative => true,
            IndexRefreshPolicy::NoDespawnOptimized => true,
            IndexRefreshPolicy::Snapshot => false,
            IndexRefreshPolicy::Manual => false,
        }
    }

    /// Whether the index refreshes whenever an operation binds it, lookup or
    /// not.
    #[verifier::when_used_as_spec(spec_refresh_on_every_access)]
    pub fn refresh_on_every_access(self) -> (yes: bool)
        ensures
            yes == self.spec_refresh_on_every_access(),
    {
        match self {
            IndexRefreshPolicy::OnAccess => false,
            IndexRefreshPolicy::Conservative => false,
            IndexRefreshPolicy::NoDespawnOptimized => false,
            IndexRefreshPolicy::Snapshot => false,
            IndexRefreshPolicy::Manual => false,
        }
    }

    /// Whether the host is to refresh the index at a fixed point of every
    /// frame, by running [`refresh_index_system`] there.
    #[verifier::when_used_as_spec(spec_refresh_once_per_frame)]
    pub fn refresh_once_per_frame(self) -> (yes: bool)
        ensures
            yes == self.spec_refresh_once_per_frame(),
    {
        match self {
            IndexRefreshPolicy::OnAccess => false,
            IndexRefreshPolicy::Conservative => true,
            IndexRefreshPolicy::NoDespawnOptimized => false,
            IndexRefreshPolicy::Snapshot => true,
            IndexRefreshPolicy::Manual => false,
        }
    }

    /// Whether the policy is only safe where indexed records are never
    /// removed. The index does not enforce this; the caller has to.
    #[verifier::when_used_as_spec(spec_assumes_no_removals)]
    pub fn assumes_no_removals(self) -> (yes: bool)
        ensures
            yes == self.spec_assumes_no_removals(),
    {
        match self {
            IndexRefreshPolicy::NoDespawnOptimized => true,
            _ => false,
        }
    }
}

/// The operation that refreshes an index once per frame.
///
/// The host runs this at a fixed point of every frame for each index whose
/// policy [refreshes once per frame](IndexRefreshPolicy::refresh_once_per_frame),
/// whether or not anything looks the index up. This ensures that no removal
/// is missed. To refresh at some other point, use
/// [`IndexRefreshPolicy::Manual`] and run this there.
pub fn refresh_index_system(mut idx: Index<'_>)
    requires
        idx.wf(),
    ensures
        final(idx.storage).wf(),
        final(idx.storage)@ == old(idx.storage)@.refresh(old(idx.refresh_data)@),
        final(idx.refresh_data)@ == feed_after_refresh(old(idx.storage)@, old(idx.refresh_data)@),
{
    idx.refresh();
}

} // verus!
