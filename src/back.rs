//! The back location: for each player, the single most recent place the
//! player left by a teleport.
use vstd::prelude::*;
use std::collections::HashMap;
use crate::location::{BackLocation, Location};
use crate::player::PlayerId;

verus! {

broadcast use vstd::std_specs::hash::group_hash_axioms;

/// Each player's most recent pre-teleport location.
pub struct BackLocationCache {
    spots: HashMap<u128, Location>,
}

impl View for BackLocationCache {
    type V = Map<u128, Location>;

    closed spec fn view(&self) -> Map<u128, Location> {
        self.spots@
    }
}

impl BackLocationCache {
    /// A cache with no history.
    pub fn new() -> (r: BackLocationCache)
        ensures
            r@ == Map::<u128, Location>::empty(),
    {
        BackLocationCache { spots: HashMap::new() }
    }

    /// Saves `from`, the place `player` occupied before a move, replacing
    /// any earlier one. A location that is not valid is not stored; returns
    /// whether it was.
    pub fn record(&mut self, player: PlayerId, from: Location) -> (r: bool)
        ensures
            r == from.valid(),
            r ==> final(self)@ == old(self)@.insert(player.0, from),
            !r ==> final(self)@ == old(self)@,
    {
        if !from.is_valid() {
            return false;
        }
        self.spots.insert(player.0, from);
        true
    }

    /// The saved location of `player`, left in place so that it can be
    /// recalled again.
    pub fn recall(&self, player: PlayerId) -> (r: Option<Location>)
        ensures
            r == (if self@.contains_key(player.0) {
                Some(self@[player.0])
            } else {
                None
            }),
    {
        match self.spots.get(&player.0) {
            Some(spot) => Some(spot.duplicate()),
            None => None,
        }
    }

    /// Forgets the saved location of `player`.
    pub fn clear(&mut self, player: PlayerId)
        ensures
            final(self)@ == old(self)@.remove(player.0),
    {
        self.spots.remove(&player.0);
    }
}

/// Receives the host's notification that a player was teleported, and saves
/// the place the player left.
pub struct BackLocationHandler;

impl BackLocationHandler {
    /// Records `from`, where `player` stood before the teleport, as the
    /// player's back location; returns whether it was stored.
    pub fn handle_teleport(&self, cache: &mut BackLocationCache, player: PlayerId, from: Location) -> (r: bool)
        ensures
            r == from.valid(),
            r ==> final(cache)@ == old(cache)@.insert(player.0, from),
            !r ==> final(cache)@ == old(cache)@,
    {
        cache.record(player, from)
    }
}

/// The back location of `player`, if one was saved.
pub fn get_back_location_for_player(cache: &BackLocationCache, player: PlayerId) -> (r: Option<BackLocation>)
    ensures
        r == (if cache@.contains_key(player.0) {
            Some(cache@[player.0])
        } else {
            None
        }),
{
    cache.recall(player)
}

/// Forgets the back location of `player`.
pub fn clear_back_location_for_player(cache: &mut BackLocationCache, player: PlayerId)
    ensures
        final(cache)@ == old(cache)@.remove(player.0),
{
    cache.clear(player)
}

} // verus!
