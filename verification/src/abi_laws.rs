//! What holds of the memory tier over any run of the resolver: a description
//! that is in memory stays there, unchanged, until the cache is cleared or it
//! is registered anew.

use vstd::prelude::*;
use crate::abi::{admissible, apply, CacheEvent};
use crate::interface::InterfaceView;

verus! {

/// The memory tier after the changes `events`, in order.
pub open spec fn after(cache: Map<Seq<char>, InterfaceView>, events: Seq<CacheEvent>) -> Map<
    Seq<char>,
    InterfaceView,
>
    decreases events.len(),
{
    if events.len() == 0 {
        cache
    } else {
        apply(after(cache, events.drop_last()), events.last())
    }
}

/// Each of the changes `events` can happen when its turn comes.
pub open spec fn run(cache: Map<Seq<char>, InterfaceView>, events: Seq<CacheEvent>) -> bool
    decreases events.len(),
{
    events.len() == 0 || (run(cache, events.drop_last()) && admissible(
        after(cache, events.drop_last()),
        events.last(),
    ))
}

/// None of `events` clears the cache or registers a description under `key`.
pub open spec fn undisturbed(events: Seq<CacheEvent>, key: Seq<char>) -> bool {
    forall|i: int|
        0 <= i < events.len() ==> match #[trigger] events[i] {
            CacheEvent::Cleared => false,
            CacheEvent::Registered(k, _) => k != key,
            CacheEvent::Resolved(_, _) => true,
        }
}

/// How many of `events` read or fetch a description for `key`.
pub open spec fn resolutions(events: Seq<CacheEvent>, key: Seq<char>) -> nat
    decreases events.len(),
{
    if events.len() == 0 {
        0
    } else {
        resolutions(events.drop_last(), key) + (match events.last() {
            CacheEvent::Resolved(k, _) => if k == key {
                1nat
            } else {
                0nat
            },
            _ => 0nat,
        })
    }
}

/// A description that the memory tier holds under `key` is still there, and
/// the same, after any run that neither clears the cache nor registers another
/// description under `key`; and nothing was read or fetched for `key` in it.
///
/// So a description that was resolved once, or registered by hand, is what
/// every later resolution of its key gives, from memory alone.
pub proof fn entry_is_stable(
    cache: Map<Seq<char>, InterfaceView>,
    events: Seq<CacheEvent>,
    key: Seq<char>,
)
    requires
        cache.contains_key(key),
        run(cache, events),
        undisturbed(events, key),
    ensures
        after(cache, events).contains_key(key),
        after(cache, events)[key] == cache[key],
        resolutions(events, key) == 0,
    decreases events.len(),
{
    if events.len() > 0 {
        let before = events.drop_last();
        assert forall|i: int| 0 <= i < before.len() implies match #[trigger] before[i] {
            CacheEvent::Cleared => false,
            CacheEvent::Registered(k, _) => k != key,
            CacheEvent::Resolved(_, _) => true,
        } by {
            assert(before[i] == events[i]);
        }
        entry_is_stable(cache, before, key);
        assert(events.last() == events[events.len() - 1]);
    }
}

/// In a run that does not clear the cache and registers nothing under `key`,
/// a description for `key` is read or fetched at most once.
pub proof fn at_most_one_resolution(
    cache: Map<Seq<char>, InterfaceView>,
    events: Seq<CacheEvent>,
    key: Seq<char>,
)
    requires
        run(cache, events),
        undisturbed(events, key),
    ensures
        resolutions(events, key) <= 1,
        resolutions(events, key) == 1 ==> after(cache, events).contains_key(key),
    decreases events.len(),
{
    if events.len() > 0 {
        let before = events.drop_last();
        assert forall|i: int| 0 <= i < before.len() implies match #[trigger] before[i] {
            CacheEvent::Cleared => false,
            CacheEvent::Registered(k, _) => k != key,
            CacheEvent::Resolved(_, _) => true,
        } by {
            assert(before[i] == events[i]);
        }
        at_most_one_resolution(cache, before, key);
        assert(events.last() == events[events.len() - 1]);
        if resolutions(before, key) == 1 {
            // The key is in memory from then on, so no later change resolves it.
            assert(after(cache, before).contains_key(key));
        }
    }
}

} // verus!
