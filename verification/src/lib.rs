//! Secondary indexes over a mutable entity/component store: look up every
//! entity whose indexed attribute equals a given value, kept consistent by
//! tick-gated incremental refreshes.
//!
//! The library works on plain values that the host hands it. An entity is
//! its 64-bit representation, an attribute value is the `u64` key it was
//! extracted to, a tick is a `u32` counter. [`index::Index`] is the entry
//! point; [`storage`] holds the refresh protocol, [`unique_multimap`] the map
//! underneath, [`refresh_policy`] the choice of when to refresh.

/// The hash collections underneath, and what is taken on trust about them.
pub mod collections;

/// Main index logic.
pub mod index;

/// Commonly used types.
pub mod prelude;

/// Policy definitions and utilities for automatically refreshing indexes.
pub mod refresh_policy;

/// Various types of storage for maintaining indexes.
pub mod storage;

/// Wraparound-safe comparison of logical ticks.
pub mod tick;

/// The map from values to entities that a storage keeps.
pub mod unique_multimap;
