//! The teleport cooldown: permitted teleports of one player are always at
//! least `MIN_INTERVAL_MS` apart.
use vstd::prelude::*;
use std::collections::HashMap;
use crate::player::PlayerId;

verus! {

broadcast use vstd::std_specs::hash::group_hash_axioms;

/// Least gap, in milliseconds, between two permitted teleports of a player.
pub const MIN_INTERVAL_MS: u64 = 500;

/// Whether a player whose last permitted teleport is recorded in `last`
/// may teleport at time `now` (milliseconds on a monotonic clock). A clock
/// reading earlier than the record counts as no time elapsed.
pub open spec fn permits(last: Map<u128, u64>, player: u128, now: u64) -> bool {
    !last.contains_key(player) || now >= last[player] + MIN_INTERVAL_MS
}

/// The record after a teleport attempt at `now`: the time is written only
/// when the attempt is permitted.
pub open spec fn consumed(last: Map<u128, u64>, player: u128, now: u64) -> Map<u128, u64> {
    if permits(last, player, now) {
        last.insert(player, now)
    } else {
        last
    }
}

/// Last permitted teleport time of each player.
pub struct CooldownTracker {
    last: HashMap<u128, u64>,
}

impl View for CooldownTracker {
    type V = Map<u128, u64>;

    closed spec fn view(&self) -> Map<u128, u64> {
        self.last@
    }
}

impl CooldownTracker {
    /// A tracker with no record.
    pub fn new() -> (r: CooldownTracker)
        ensures
            r@ == Map::<u128, u64>::empty(),
    {
        CooldownTracker { last: HashMap::new() }
    }

    /// Checks and records in one step: returns whether `player` may
    /// teleport at `now`, and if so records `now` as the last teleport.
    /// A refused attempt changes nothing.
    pub fn try_consume(&mut self, player: PlayerId, now: u64) -> (r: bool)
        ensures
            r == permits(old(self)@, player.0, now),
            final(self)@ == consumed(old(self)@, player.0, now),
    {
        let permitted = match self.last.get(&player.0) {
            Some(last) => *last <= now && now - *last >= MIN_INTERVAL_MS,
            None => true,
        };
        if permitted {
            self.last.insert(player.0, now);
        }
        permitted
    }

    /// The last permitted teleport time of `player`, if any.
    pub fn last_teleport(&self, player: PlayerId) -> (r: Option<u64>)
        ensures
            r == (if self@.contains_key(player.0) {
                Some(self@[player.0])
            } else {
                None
            }),
    {
        match self.last.get(&player.0) {
            Some(t) => Some(*t),
            None => None,
        }
    }
}

/// Once a teleport is permitted at `t`, another attempt at any `later >= t`
/// is refused while `later < t + MIN_INTERVAL_MS`, and permitted from
/// `t + MIN_INTERVAL_MS` on; a refused attempt leaves the record as it was.
pub proof fn lemma_cooldown_window(last: Map<u128, u64>, player: u128, t: u64, later: u64)
    requires
        permits(last, player, t),
        t <= later,
    ensures
        ({
            let after = consumed(last, player, t);
            &&& after[player] == t
            &&& permits(after, player, later) <==> later >= t + MIN_INTERVAL_MS
            &&& !permits(after, player, later) ==> consumed(after, player, later) == after
        }),
{
}

} // verus!
