//! Storage for an index and the protocol that reconciles it with the store.
//!
//! The host hands the index plain values: entities by their 64-bit
//! representation, attribute values already extracted to a `u64` key, ticks
//! as `u32` counters. A refresh consumes what the host reports as removed,
//! re-reads every live record that changed since the previous refresh, and
//! stamps the storage with the tick it ran at.

use crate::refresh_policy::IndexRefreshPolicy;
use crate::tick::{changed_since, changed_since_refresh, lemma_same_tick_write_is_seen};
use crate::unique_multimap::{values_under, UniqueMultiMap};
use vstd::prelude::*;

verus! {

/// One live record as the change feed reports it: the entity that carries the
/// attribute, the attribute's extracted value, and the tick of its last write.
#[derive(Copy, Clone, PartialEq, Eq, Debug)]
pub struct ComponentRecord {
    pub entity: u64,
    pub value: u64,
    pub last_changed: u32,
}

/// What a refresh reads from the host, gathered for one operation.
pub struct HashmapStorageRefreshData {
    /// Every live record that carries the indexed attribute.
    pub components: Vec<ComponentRecord>,
    /// The entities that lost the attribute and that no refresh has been told
    /// of yet. A refresh empties this list: each removal is reported once.
    pub removed: Vec<u64>,
    /// The tick of the step that is running now.
    pub this_run: u32,
}

/// The mathematical content of a [`HashmapStorageRefreshData`].
#[verifier::ext_equal]
pub struct FeedView {
    pub components: Seq<ComponentRecord>,
    pub removed: Seq<u64>,
    pub this_run: u32,
}

impl FeedView {
    /// The feed once a refresh has read it: the removals are used up.
    pub open spec fn consumed(self) -> FeedView {
        FeedView { components: self.components, removed: Seq::empty(), this_run: self.this_run }
    }
}

impl View for HashmapStorageRefreshData {
    type V = FeedView;

    open spec fn view(&self) -> FeedView {
        FeedView { components: self.components@, removed: self.removed@, this_run: self.this_run }
    }
}

impl HashmapStorageRefreshData {
    /// Gathers the feed for one operation.
    pub fn new(components: Vec<ComponentRecord>, removed: Vec<u64>, this_run: u32) -> (data: Self)
        ensures
            data@ == (FeedView { components: components@, removed: removed@, this_run }),
    {
        HashmapStorageRefreshData { components, removed, this_run }
    }
}

/// The entity-to-value relation `entries` without the entities in `removed`.
pub open spec fn remove_all(entries: Map<u64, u64>, removed: Seq<u64>) -> Map<u64, u64> {
    entries.remove_keys(removed.to_set())
}

/// The entity-to-value relation after the changed records among `records`
/// have been written into `entries`, in feed order: a record counts as changed
/// by [`changed_since_refresh`], and a later record for an entity overrides an
/// earlier one.
pub open spec fn apply_changes(
    entries: Map<u64, u64>,
    records: Seq<ComponentRecord>,
    last_refresh: u32,
    this_run: u32,
) -> Map<u64, u64>
    decreases records.len(),
{
    if records.len() == 0 {
        entries
    } else {
        let earlier = apply_changes(entries, records.drop_last(), last_refresh, this_run);
        let record = records.last();
        if changed_since_refresh(record.last_changed, last_refresh, this_run) {
            earlier.insert(record.entity, record.value)
        } else {
            earlier
        }
    }
}

/// The mathematical content of a [`HashmapStorage`].
#[verifier::ext_equal]
pub struct StorageView {
    /// The value that each indexed entity is filed under.
    pub entries: Map<u64, u64>,
    /// The tick of the most recent refresh; zero before the first.
    pub last_refresh_tick: u32,
    /// Removals that were observed and that no refresh has processed yet.
    pub removed_entities: Seq<u64>,
}

impl StorageView {
    /// The entities filed under `val`.
    pub open spec fn entities_with(self, val: u64) -> Set<u64> {
        values_under(self.entries, val)
    }

    /// Whether no refresh has run at `this_run` yet.
    pub open spec fn needs_refresh(self, this_run: u32) -> bool {
        self.last_refresh_tick != this_run
    }

    /// The storage after an unconditional refresh: buffered and reported
    /// removals are taken out, then the changed records are written in, and
    /// the storage is stamped with the current tick.
    pub open spec fn force_refresh(self, feed: FeedView) -> StorageView {
        StorageView {
            entries: apply_changes(
                remove_all(remove_all(self.entries, self.removed_entities), feed.removed),
                feed.components,
                self.last_refresh_tick,
                feed.this_run,
            ),
            last_refresh_tick: feed.this_run,
            removed_entities: Seq::empty(),
        }
    }

    /// The storage after a refresh that runs at most once per tick.
    pub open spec fn refresh(self, feed: FeedView) -> StorageView {
        if self.needs_refresh(feed.this_run) {
            self.force_refresh(feed)
        } else {
            self
        }
    }

    /// The storage as a lookup under `policy` leaves it, and reads it.
    pub open spec fn lookup(self, feed: FeedView, policy: IndexRefreshPolicy) -> StorageView {
        if policy.refresh_when_used() {
            self.refresh(feed)
        } else {
            self
        }
    }

    /// The storage after a removal of `entity` was observed: processed at
    /// once where `eager`, buffered for the next refresh otherwise.
    pub open spec fn removal_observed(self, entity: u64, eager: bool) -> StorageView {
        if eager {
            StorageView {
                entries: self.entries.remove(entity),
                last_refresh_tick: self.last_refresh_tick,
                removed_entities: self.removed_entities,
            }
        } else {
            StorageView {
                entries: self.entries,
                last_refresh_tick: self.last_refresh_tick,
                removed_entities: self.removed_entities.push(entity),
            }
        }
    }

    /// The storage after a write of `value` to `entity` was observed.
    pub open spec fn insertion_observed(self, value: u64, entity: u64) -> StorageView {
        StorageView {
            entries: self.entries.insert(entity, value),
            last_refresh_tick: self.last_refresh_tick,
            removed_entities: self.removed_entities,
        }
    }
}

/// The feed as a refresh gated by the tick leaves it: used up where the
/// refresh ran, untouched where it did not.
pub open spec fn feed_after_refresh(storage: StorageView, feed: FeedView) -> FeedView {
    if storage.needs_refresh(feed.this_run) {
        feed.consumed()
    } else {
        feed
    }
}

/// The feed as a lookup under `policy` leaves it.
pub open spec fn feed_after_lookup(
    storage: StorageView,
    feed: FeedView,
    policy: IndexRefreshPolicy,
) -> FeedView {
    if policy.refresh_when_used() {
        feed_after_refresh(storage, feed)
    } else {
        feed
    }
}

/// Writing changed records leaves alone every entity that has no changed
/// record in the feed.
pub proof fn lemma_apply_changes_untouched(
    entries: Map<u64, u64>,
    records: Seq<ComponentRecord>,
    last_refresh: u32,
    this_run: u32,
    entity: u64,
)
    requires
        forall|i: int|
            0 <= i < records.len() && #[trigger] records[i].entity == entity
                ==> !changed_since_refresh(records[i].last_changed, last_refresh, this_run),
    ensures
        apply_changes(entries, records, last_refresh, this_run).contains_key(entity)
            == entries.contains_key(entity),
        entries.contains_key(entity) ==> apply_changes(
            entries,
            records,
            last_refresh,
            this_run,
        )[entity] == entries[entity],
    decreases records.len(),
{
    if records.len() > 0 {
        let earlier = records.drop_last();
        assert forall|i: int| 0 <= i < earlier.len() && #[trigger] earlier[i].entity
            == entity implies !changed_since_refresh(
            earlier[i].last_changed,
            last_refresh,
            this_run,
        ) by {
            assert(earlier[i] == records[i]);
        }
        lemma_apply_changes_untouched(entries, earlier, last_refresh, this_run, entity);
        assert(records.last() == records[records.len() - 1]);
    }
}

/// Writing changed records files an entity under the value of its last
/// changed record in the feed.
pub proof fn lemma_apply_changes_last_wins(
    entries: Map<u64, u64>,
    records: Seq<ComponentRecord>,
    last_refresh: u32,
    this_run: u32,
    i: int,
)
    requires
        0 <= i < records.len(),
        changed_since_refresh(records[i].last_changed, last_refresh, this_run),
        forall|j: int|
            i < j < records.len() && #[trigger] records[j].entity == records[i].entity
                ==> !changed_since_refresh(records[j].last_changed, last_refresh, this_run),
    ensures
        apply_changes(entries, records, last_refresh, this_run).contains_key(records[i].entity),
        apply_changes(entries, records, last_refresh, this_run)[records[i].entity]
            == records[i].value,
    decreases records.len(),
{
    let earlier = records.drop_last();
    assert(records.last() == records[records.len() - 1]);
    if i < records.len() - 1 {
        assert(earlier[i] == records[i]);
        assert forall|j: int| i < j < earlier.len() && #[trigger] earlier[j].entity
            == earlier[i].entity implies !changed_since_refresh(
            earlier[j].last_changed,
            last_refresh,
            this_run,
        ) by {
            assert(earlier[j] == records[j]);
        }
        lemma_apply_changes_last_wins(entries, earlier, last_refresh, this_run, i);
    }
}

/// A second refresh at the same tick changes nothing and reads nothing,
/// whatever the feed holds by then: lookups give what they gave after the
/// first.
pub proof fn lemma_refresh_idempotent_within_tick(
    storage: StorageView,
    first: FeedView,
    second: FeedView,
)
    requires
        first.this_run == second.this_run,
    ensures
        storage.refresh(first).refresh(second) == storage.refresh(first),
        feed_after_refresh(storage.refresh(first), second) == second,
        forall|val: u64|
            storage.refresh(first).refresh(second).entities_with(val) == storage.refresh(
                first,
            ).entities_with(val),
{
}

/// An unconditional refresh reads the feed again even right after a refresh
/// at the same tick: an entity written in the running step, by the last of
/// its records in the feed that was, is then filed under that record's value,
/// while a gated refresh leaves the storage as it was.
pub proof fn lemma_force_refresh_reevaluates(storage: StorageView, feed: FeedView, i: int)
    requires
        storage.last_refresh_tick == feed.this_run,
        0 <= i < feed.components.len(),
        feed.components[i].last_changed == feed.this_run,
        forall|j: int|
            i < j < feed.components.len() && #[trigger] feed.components[j].entity
                == feed.components[i].entity ==> feed.components[j].last_changed
                != feed.this_run,
    ensures
        storage.refresh(feed) == storage,
        storage.force_refresh(feed).entries.contains_key(feed.components[i].entity),
        storage.force_refresh(feed).entries[feed.components[i].entity] == feed.components[i].value,
        storage.force_refresh(feed).entities_with(feed.components[i].value).contains(
            feed.components[i].entity,
        ),
{
    lemma_same_tick_write_visible(storage, feed, i);
}

/// A write made earlier in the running step is reflected by a refresh in
/// that step: the entity is found under the value written.
///
/// The feed holds no later changed record for the same entity, which would
/// override this one, and the previous refresh did not run exactly one step
/// ahead of now.
pub proof fn lemma_same_tick_write_visible(storage: StorageView, feed: FeedView, i: int)
    requires
        0 <= i < feed.components.len(),
        feed.components[i].last_changed == feed.this_run,
        storage.last_refresh_tick.wrapping_sub(1) != feed.this_run,
        forall|j: int|
            i < j < feed.components.len() && #[trigger] feed.components[j].entity
                == feed.components[i].entity ==> !changed_since_refresh(
                feed.components[j].last_changed,
                storage.last_refresh_tick,
                feed.this_run,
            ),
    ensures
        storage.force_refresh(feed).entries.contains_key(feed.components[i].entity),
        storage.force_refresh(feed).entries[feed.components[i].entity] == feed.components[i].value,
        storage.force_refresh(feed).entities_with(feed.components[i].value).contains(
            feed.components[i].entity,
        ),
{
    lemma_same_tick_write_is_seen(storage.last_refresh_tick, feed.this_run);
    lemma_apply_changes_last_wins(
        remove_all(remove_all(storage.entries, storage.removed_entities), feed.removed),
        feed.components,
        storage.last_refresh_tick,
        feed.this_run,
        i,
    );
}

/// Under the manual policy a removal that was observed but not yet refreshed
/// does not show: lookups leave the storage alone, so the removed entity is
/// still found under its value, whatever the feed reports.
pub proof fn lemma_manual_lookup_returns_removed_entity(
    storage: StorageView,
    entity: u64,
    feed: FeedView,
)
    requires
        storage.entries.contains_key(entity),
    ensures
        storage.removal_observed(entity, false).lookup(feed, IndexRefreshPolicy::Manual)
            == storage.removal_observed(entity, false),
        storage.lookup(feed, IndexRefreshPolicy::Manual) == storage,
        storage.removal_observed(entity, false).lookup(
            feed,
            IndexRefreshPolicy::Manual,
        ).entities_with(storage.entries[entity]).contains(entity),
{
}

/// A refresh takes out every entity whose removal was buffered or is
/// reported by the feed, unless the feed holds a changed record for it.
pub proof fn lemma_refresh_drops_removed_entity(storage: StorageView, feed: FeedView, entity: u64)
    requires
        storage.removed_entities.contains(entity) || feed.removed.contains(entity),
        forall|i: int|
            0 <= i < feed.components.len() && #[trigger] feed.components[i].entity == entity
                ==> !changed_since_refresh(
                feed.components[i].last_changed,
                storage.last_refresh_tick,
                feed.this_run,
            ),
    ensures
        !storage.force_refresh(feed).entries.contains_key(entity),
        forall|val: u64| !storage.force_refresh(feed).entities_with(val).contains(entity),
{
    lemma_apply_changes_untouched(
        remove_all(remove_all(storage.entries, storage.removed_entities), feed.removed),
        feed.components,
        storage.last_refresh_tick,
        feed.this_run,
        entity,
    );
}

/// Index storage that maintains a hash map from values to the entities whose
/// attribute has that value.
pub struct HashmapStorage {
    map: UniqueMultiMap,
    last_refresh_tick: u32,
    removed_entities: Vec<u64>,
}

impl View for HashmapStorage {
    type V = StorageView;

    closed spec fn view(&self) -> StorageView {
        StorageView {
            entries: self.map@,
            last_refresh_tick: self.last_refresh_tick,
            removed_entities: self.removed_entities@,
        }
    }
}

/// Takes every entity of `entities` out of `map`.
fn remove_each(map: &mut UniqueMultiMap, entities: &Vec<u64>)
    requires
        old(map).wf(),
    ensures
        final(map).wf(),
        final(map)@ == remove_all(old(map)@, entities@),
{
    let mut i: usize = 0;
    assert(map@ =~= remove_all(old(map)@, entities@.take(0)));
    while i < entities.len()
        invariant
            i <= entities.len(),
            map.wf(),
            map@ == remove_all(old(map)@, entities@.take(i as int)),
        decreases entities.len() - i,
    {
        let entity: u64 = entities[i];
        map.remove(&entity);
        proof {
            let done = entities@.take(i as int);
            assert(entities@.take(i + 1) =~= done.push(entity));
            done.lemma_push_to_set_commute(entity);
            assert(map@ =~= remove_all(old(map)@, entities@.take(i + 1)));
        }
        i += 1;
    }
    assert(entities@.take(entities.len() as int) =~= entities@);
}

impl HashmapStorage {
    /// Whether the internal multimap is consistent. Every storage that this
    /// module hands out is.
    pub closed spec fn wf(&self) -> bool {
        self.map.wf()
    }

    /// An empty storage that has never been refreshed.
    pub fn new() -> (storage: Self)
        ensures
            storage.wf(),
            storage@ == (StorageView {
                entries: Map::empty(),
                last_refresh_tick: 0,
                removed_entities: Seq::empty(),
            }),
    {
        HashmapStorage {
            map: UniqueMultiMap::new(),
            last_refresh_tick: 0,
            removed_entities: Vec::with_capacity(16),
        }
    }

    /// Whether no refresh has run at `this_run` yet, so that
    /// [`refresh`](Self::refresh) would do work.
    pub fn needs_refresh(&self, this_run: u32) -> (due: bool)
        ensures
            due == self@.needs_refresh(this_run),
    {
        self.last_refresh_tick != this_run
    }

    /// Get all of the entities whose attribute evaluates to `val`, each once.
    ///
    /// Refreshes first where `policy` refreshes on use and no refresh has run
    /// at this tick yet.
    pub fn lookup(
        &mut self,
        val: &u64,
        data: &mut HashmapStorageRefreshData,
        policy: IndexRefreshPolicy,
    ) -> (found: Vec<u64>)
        requires
            old(self).wf(),
        ensures
            final(self).wf(),
            final(self)@ == old(self)@.lookup(old(data)@, policy),
            final(data)@ == feed_after_lookup(old(self)@, old(data)@, policy),
            found@.no_duplicates(),
            found@.to_set() == final(self)@.entities_with(*val),
    {
        if policy.refresh_when_used() {
            self.refresh(data);
        }
        self.map.get(val)
    }

    /// Refresh this storage with the latest state from the store if it hasn't
    /// already been refreshed at this tick.
    ///
    /// Note: one tick is one scheduling step, not one frame.
    pub fn refresh(&mut self, data: &mut HashmapStorageRefreshData)
        requires
            old(self).wf(),
        ensures
            final(self).wf(),
            final(self)@ == old(self)@.refresh(old(data)@),
            final(data)@ == feed_after_refresh(old(self)@, old(data)@),
    {
        if self.last_refresh_tick != data.this_run {
            self.force_refresh(data);
        }
    }

    /// Unconditionally refresh this storage with the latest state from the
    /// store.
    pub fn force_refresh(&mut self, data: &mut HashmapStorageRefreshData)
        requires
            old(self).wf(),
        ensures
            final(self).wf(),
            final(self)@ == old(self)@.force_refresh(old(data)@),
            final(data)@ == old(data)@.consumed(),
    {
        remove_each(&mut self.map, &self.removed_entities);
        self.removed_entities.clear();
        remove_each(&mut self.map, &data.removed);
        data.removed.clear();
        let ghost base = self.map@;
        let mut i: usize = 0;
        while i < data.components.len()
            invariant
                i <= data.components.len(),
                self.map.wf(),
                self.last_refresh_tick == old(self).last_refresh_tick,
                self.removed_entities@ == Seq::<u64>::empty(),
                data@ == old(data)@.consumed(),
                self.map@ == apply_changes(
                    base,
                    data.components@.take(i as int),
                    self.last_refresh_tick,
                    data.this_run,
                ),
            decreases data.components.len() - i,
        {
            let record: ComponentRecord = data.components[i];
            assert(data.components@.take(i + 1).drop_last() =~= data.components@.take(i as int));
            if changed_since(record.last_changed, self.last_refresh_tick, data.this_run) {
                self.map.insert(&record.value, record.entity);
            }
            i += 1;
        }
        assert(data.components@.take(data.components.len() as int) =~= data.components@);
        self.last_refresh_tick = data.this_run;
    }

    /// Files `entity` under `value` at once, without waiting for a refresh.
    ///
    /// This is the push path: a host that is told of every write as it
    /// happens calls this for each.
    pub fn insertion_observer(&mut self, value: &u64, entity: u64)
        requires
            old(self).wf(),
        ensures
            final(self).wf(),
            final(self)@ == old(self)@.insertion_observed(*value, entity),
    {
        self.map.insert(value, entity);
    }

    /// Takes note that `entity` lost the attribute.
    ///
    /// Where `eager`, the entity leaves the index at once. Otherwise it is
    /// buffered, and leaves with the next refresh: until then lookups still
    /// return it.
    pub fn removal_observer(&mut self, entity: u64, eager: bool)
        requires
            old(self).wf(),
        ensures
            final(self).wf(),
            final(self)@ == old(self)@.removal_observed(entity, eager),
    {
        if eager {
            self.map.remove(&entity);
        } else {
            self.removed_entities.push(entity);
        }
    }
}

impl Default for HashmapStorage {
    fn default() -> (storage: Self)
        ensures
            storage.wf(),
            storage@ == (StorageView {
                entries: Map::empty(),
                last_refresh_tick: 0,
                removed_entities: Seq::empty(),
            }),
    {
        HashmapStorage::new()
    }
}

/// The entities of the records among `records` whose value is `val`, in feed
/// order.
pub open spec fn matching_entities(records: Seq<ComponentRecord>, val: u64) -> Seq<u64> {
    records.filter(|r: ComponentRecord| r.value == val).map_values(|r: ComponentRecord| r.entity)
}

/// Index storage that doesn't actually store anything.
///
/// Whenever it is queried, it walks all records as one would without an index.
/// This gives the lookup interface without any extra memory. It never needs to
/// be refreshed, so [`IndexRefreshPolicy::Manual`] is usually the best policy
/// to go with it.
pub struct NoStorage {}

impl NoStorage {
    /// A storage that holds nothing.
    pub fn new() -> Self {
        NoStorage {  }
    }

    /// Get all of the entities whose attribute evaluates to `val`, by
    /// scanning the live records in `data`.
    pub fn lookup(&mut self, val: &u64, data: &Vec<ComponentRecord>) -> (found: Vec<u64>)
        ensures
            *final(self) == *old(self),
            found@ == matching_entities(data@, *val),
    {
        let mut found: Vec<u64> = Vec::new();
        let mut i: usize = 0;
        proof {
            reveal(Seq::filter);
            assert(data@.take(0).len() == 0);
            assert(found@ =~= matching_entities(data@.take(0), *val));
        }
        while i < data.len()
            invariant
                i <= data.len(),
                found@ == matching_entities(data@.take(i as int), *val),
            decreases data.len() - i,
        {
            let record: ComponentRecord = data[i];
            proof {
                reveal(Seq::filter);
                assert(data@.take(i + 1).drop_last() =~= data@.take(i as int));
                assert(data@.take(i + 1).last() == record);
            }
            if record.value == *val {
                found.push(record.entity);
            }
            assert(found@ =~= matching_entities(data@.take(i + 1), *val));
            i += 1;
        }
        assert(data@.take(data.len() as int) =~= data@);
        found
    }

    /// Does nothing: there is no state to bring up to date.
    pub fn refresh(&mut self, _data: &Vec<ComponentRecord>)
        ensures
            *final(self) == *old(self),
    {
    }

    /// Does nothing: there is no state to bring up to date.
    pub fn force_refresh(&mut self, _data: &Vec<ComponentRecord>)
        ensures
            *final(self) == *old(self),
    {
    }
}

impl Default for NoStorage {
    fn default() -> Self {
        NoStorage::new()
    }
}

} // verus!
