//! The per-operation entry point to an index.
//!
//! An [`Index`] binds a storage to the feed and the tick of the step that is
//! running now, for as long as one operation lasts. It is handed everything it
//! works on: nothing is fetched behind the caller's back.

use crate::refresh_policy::IndexRefreshPolicy;
use crate::storage::{
    feed_after_lookup, feed_after_refresh, HashmapStorage, HashmapStorageRefreshData,
};
use vstd::prelude::*;

verus! {

/// Error returned by [`Index::lookup_single`] if there is not exactly one
/// entity with the requested value.
#[derive(Copy, Clone, PartialEq, Eq, Debug)]
pub enum UniquenessError {
    /// There were no entities with the requested value.
    NoEntities,
    /// There was more than one entity with the requested value.
    MultipleEntities,
}

/// The one member of `entities`, or the reason why there is no such thing.
pub open spec fn sole_member(entities: Set<u64>) -> Result<u64, UniquenessError> {
    if entities.len() == 0 {
        Err(UniquenessError::NoEntities)
    } else if entities.len() == 1 {
        Ok(entities.choose())
    } else {
        Err(UniquenessError::MultipleEntities)
    }
}

/// The one entity of `entities`, or the reason why there is no such thing.
pub fn single_of(entities: &Vec<u64>) -> (one: Result<u64, UniquenessError>)
    ensures
        one == if entities.len() == 0 {
            Err::<u64, UniquenessError>(UniquenessError::NoEntities)
        } else if entities.len() == 1 {
            Ok(entities[0])
        } else {
            Err(UniquenessError::MultipleEntities)
        },
{
    if entities.len() == 0 {
        Err(UniquenessError::NoEntities)
    } else if entities.len() == 1 {
        Ok(entities[0])
    } else {
        Err(UniquenessError::MultipleEntities)
    }
}

/// A storage bound to the current feed and tick, through which entities are
/// looked up by the value of their attribute.
pub struct Index<'a> {
    pub storage: &'a mut HashmapStorage,
    pub refresh_data: &'a mut HashmapStorageRefreshData,
    pub policy: IndexRefreshPolicy,
}

impl<'a> Index<'a> {
    /// The bound storage is consistent.
    pub open spec fn wf(&self) -> bool {
        self.storage.wf()
    }

    /// Binds `storage` to the feed in `refresh_data` for one operation.
    ///
    /// Refreshes at once where `policy` refreshes on every access.
    pub fn new(
        storage: &'a mut HashmapStorage,
        refresh_data: &'a mut HashmapStorageRefreshData,
        policy: IndexRefreshPolicy,
    ) -> (index: Self)
        requires
            old(storage).wf(),
        ensures
            index.wf(),
            index.policy == policy,
            index.storage@ == if policy.refresh_on_every_access() {
                old(storage)@.refresh(old(refresh_data)@)
            } else {
                old(storage)@
            },
            index.refresh_data@ == if policy.refresh_on_every_access() {
                feed_after_refresh(old(storage)@, old(refresh_data)@)
            } else {
                old(refresh_data)@
            },
            *final(storage) == *final(index.storage),
            *final(refresh_data) == *final(index.refresh_data),
    {
        let mut index = Index { storage, refresh_data, policy };
        if policy.refresh_on_every_access() {
            index.refresh();
        }
        index
    }

    /// Get all of the entities whose attribute evaluates to `val`, each once.
    ///
    /// Refreshes the index first if it has not yet been refreshed at this tick
    /// and the policy refreshes on use.
    pub fn lookup(&mut self, val: &u64) -> (found: Vec<u64>)
        requires
            old(self).wf(),
        ensures
            final(self).wf(),
            final(self).policy == old(self).policy,
            *final(final(self).storage) == *final(old(self).storage),
            *final(final(self).refresh_data) == *final(old(self).refresh_data),
            final(self).storage@ == old(self).storage@.lookup(
                old(self).refresh_data@,
                old(self).policy,
            ),
            final(self).refresh_data@ == feed_after_lookup(
                old(self).storage@,
                old(self).refresh_data@,
                old(self).policy,
            ),
            found@.no_duplicates(),
            found@.to_set() == final(self).storage@.entities_with(*val),
    {
        self.storage.lookup(val, self.refresh_data, self.policy)
    }

    /// Get the single entity whose attribute evaluates to `val`.
    ///
    /// Refreshes as [`lookup`](Self::lookup) does. Returns an error if there
    /// is not exactly one such entity. See [`single`](Self::single) for the
    /// version that takes exactly one for granted.
    pub fn lookup_single(&mut self, val: &u64) -> (one: Result<u64, UniquenessError>)
        requires
            old(self).wf(),
        ensures
            final(self).wf(),
            final(self).policy == old(self).policy,
            *final(final(self).storage) == *final(old(self).storage),
            *final(final(self).refresh_data) == *final(old(self).refresh_data),
            final(self).storage@ == old(self).storage@.lookup(
                old(self).refresh_data@,
                old(self).policy,
            ),
            final(self).refresh_data@ == feed_after_lookup(
                old(self).storage@,
                old(self).refresh_data@,
                old(self).policy,
            ),
            one == sole_member(final(self).storage@.entities_with(*val)),
            one matches Ok(entity) ==> final(self).storage@.entities_with(*val) == set![entity],
    {
        let found = self.lookup(val);
        proof {
            found@.unique_seq_to_set();
            if found@.len() == 1 {
                assert(found@.to_set().contains(found@[0]));
                assert(found@.to_set() =~= set![found@[0]]);
                assert(found@.to_set().choose() == found@[0]);
            }
        }
        single_of(&found)
    }

    /// Get the single entity whose attribute evaluates to `val`, where the
    /// caller knows that there is exactly one.
    ///
    /// Refreshes as [`lookup`](Self::lookup) does. See
    /// [`lookup_single`](Self::lookup_single) for the version that returns a
    /// result instead.
    pub fn single(&mut self, val: &u64) -> (entity: u64)
        requires
            old(self).wf(),
            old(self).storage@.lookup(old(self).refresh_data@, old(self).policy).entities_with(
                *val,
            ).len() == 1,
        ensures
            final(self).wf(),
            final(self).policy == old(self).policy,
            *final(final(self).storage) == *final(old(self).storage),
            *final(final(self).refresh_data) == *final(old(self).refresh_data),
            final(self).storage@ == old(self).storage@.lookup(
                old(self).refresh_data@,
                old(self).policy,
            ),
            final(self).refresh_data@ == feed_after_lookup(
                old(self).storage@,
                old(self).refresh_data@,
                old(self).policy,
            ),
            final(self).storage@.entities_with(*val) == set![entity],
    {
        match self.lookup_single(val) {
            Ok(entity) => entity,
            Err(_) => vstd::pervasive::unreached(),
        }
    }

    /// Refresh the underlying storage if it hasn't already been refreshed at
    /// this tick.
    ///
    /// Note: one tick is one scheduling step, not one frame. Whether this has
    /// to be called by hand depends on the policy in use.
    pub fn refresh(&mut self)
        requires
            old(self).wf(),
        ensures
            final(self).wf(),
            final(self).policy == old(self).policy,
            *final(final(self).storage) == *final(old(self).storage),
            *final(final(self).refresh_data) == *final(old(self).refresh_data),
            final(self).storage@ == old(self).storage@.refresh(old(self).refresh_data@),
            final(self).refresh_data@ == feed_after_refresh(
                old(self).storage@,
                old(self).refresh_data@,
            ),
    {
        self.storage.refresh(self.refresh_data)
    }

    /// Unconditionally refresh the underlying storage.
    ///
    /// This must be called before the index will reflect changes made earlier
    /// in the same step, once a refresh has run in that step.
    pub fn force_refresh(&mut self)
        requires
            old(self).wf(),
        ensures
            final(self).wf(),
            final(self).policy == old(self).policy,
            *final(final(self).storage) == *final(old(self).storage),
            *final(final(self).refresh_data) == *final(old(self).refresh_data),
            final(self).storage@ == old(self).storage@.force_refresh(old(self).refresh_data@),
            final(self).refresh_data@ == old(self).refresh_data@.consumed(),
    {
        self.storage.force_refresh(self.refresh_data)
    }
}

} // verus!
