//! Per-player feature flags such as flight, kept apart from whatever the
//! host holds; unknown players read as `false`.
use vstd::prelude::*;
use std::collections::HashMap;
use crate::player::PlayerId;

verus! {

broadcast use vstd::std_specs::hash::group_hash_axioms;

/// The flag of `player` in a cache whose state is `flags`.
pub open spec fn flag_of(flags: Map<u128, bool>, player: u128) -> bool {
    flags.contains_key(player) && flags[player]
}

/// One boolean flag per player.
pub struct ToggleStateCache {
    flags: HashMap<u128, bool>,
}

impl View for ToggleStateCache {
    type V = Map<u128, bool>;

    closed spec fn view(&self) -> Map<u128, bool> {
        self.flags@
    }
}

impl ToggleStateCache {
    /// A cache where every flag is off.
    pub fn new() -> (r: ToggleStateCache)
        ensures
            r@ == Map::<u128, bool>::empty(),
    {
        ToggleStateCache { flags: HashMap::new() }
    }

    /// The flag of `player`, `false` if never set.
    pub fn get(&self, player: PlayerId) -> (r: bool)
        ensures
            r == flag_of(self@, player.0),
    {
        match self.flags.get(&player.0) {
            Some(v) => *v,
            None => false,
        }
    }

    /// Sets the flag of `player`.
    pub fn set(&mut self, player: PlayerId, value: bool)
        ensures
            final(self)@ == old(self)@.insert(player.0, value),
    {
        self.flags.insert(player.0, value);
    }

    /// Flips the flag of `player` in one step and returns the new value.
    pub fn toggle(&mut self, player: PlayerId) -> (r: bool)
        ensures
            r == !flag_of(old(self)@, player.0),
            final(self)@ == old(self)@.insert(player.0, r),
    {
        let value = !self.get(player);
        self.set(player, value);
        value
    }
}

/// Whether flight is enabled for `player`.
pub fn get_fly_state(states: &ToggleStateCache, player: PlayerId) -> (r: bool)
    ensures
        r == flag_of(states@, player.0),
{
    states.get(player)
}

/// Enables or disables flight for `player`.
pub fn set_fly_state(states: &mut ToggleStateCache, player: PlayerId, state: bool)
    ensures
        final(states)@ == old(states)@.insert(player.0, state),
{
    states.set(player, state)
}

} // verus!
