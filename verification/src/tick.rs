//! Wraparound-safe comparison of logical ticks.
//!
//! A tick is a `u32` counter that the host advances once per scheduling step
//! and that wraps. Ticks are never compared by their raw values: each is
//! measured by its age relative to the step that is running now, clamped to
//! [`MAX_CHANGE_AGE`].

use bevy::ecs::component::Tick;
use vstd::prelude::*;

verus! {

/// The greatest age that is still told apart; the value of
/// `bevy::ecs::change_detection::MAX_CHANGE_AGE`.
pub const MAX_CHANGE_AGE: u32 = 3_258_167_296;

/// How many steps before `this_run` the tick `tick` lies, counting around the
/// wrap and clamping at [`MAX_CHANGE_AGE`].
pub open spec fn age(tick: u32, this_run: u32) -> int {
    let steps: int = if this_run >= tick {
        this_run - tick
    } else {
        this_run - tick + 0x1_0000_0000
    };
    if steps < MAX_CHANGE_AGE {
        steps
    } else {
        MAX_CHANGE_AGE as int
    }
}

/// Whether `tick` is newer than `last_run`, both seen from `this_run`: its
/// age is strictly the smaller one.
pub open spec fn is_newer_than(tick: u32, last_run: u32, this_run: u32) -> bool {
    age(last_run, this_run) > age(tick, this_run)
}

/// Whether a record last written at `last_changed` has to be read again by a
/// refresh running at `this_run`, when the previous refresh ran at
/// `last_refresh`.
///
/// The bound is the tick before `last_refresh`, not `last_refresh` itself, so
/// that a write made in the very step of the previous refresh still counts.
pub open spec fn changed_since_refresh(last_changed: u32, last_refresh: u32, this_run: u32) -> bool {
    is_newer_than(last_changed, last_refresh.wrapping_sub(1), this_run)
}

/// `Tick::is_newer_than`, on raw tick values: compares the clamped wrapping
/// distances of `tick` and of `last_run` from `this_run`.
#[verifier::external_body]
fn tick_is_newer_than(tick: u32, last_run: u32, this_run: u32) -> (newer: bool)
    ensures
        newer == is_newer_than(tick, last_run, this_run),
{
    Tick::new(tick).is_newer_than(Tick::new(last_run), Tick::new(this_run))
}

/// Decides whether a record last written at `last_changed` has to be read
/// again by a refresh running at `this_run`, the previous one having run at
/// `last_refresh`.
pub fn changed_since(last_changed: u32, last_refresh: u32, this_run: u32) -> (changed: bool)
    ensures
        changed == changed_since_refresh(last_changed, last_refresh, this_run),
{
    // Subtract 1 so that changes from the step in which the index was last
    // refreshed are seen.
    tick_is_newer_than(last_changed, last_refresh.wrapping_sub(1), this_run)
}

/// A write made in the step that is running now is seen by a refresh in that
/// same step, whenever the previous refresh did not run exactly one step
/// ahead of now.
pub proof fn lemma_same_tick_write_is_seen(last_refresh: u32, this_run: u32)
    requires
        last_refresh.wrapping_sub(1) != this_run,
    ensures
        changed_since_refresh(this_run, last_refresh, this_run),
{
}

} // verus!
