//! Per-player state behind a set of player-administration commands:
//! saved homes, the "back" location, teleport requests between players,
//! a teleport cooldown and per-player toggles such as flight.
//!
//! Every store is a plain value whose operations take `&mut self`; a host
//! that shares a store between tasks guards each one with its own lock, so
//! that each operation below is one atomic step.
use vstd::prelude::*;

pub mod back;
pub mod commands;
pub mod cooldown;
pub mod error;
pub mod homes;
pub mod location;
pub mod player;
pub mod requests;
pub mod toggles;

use crate::back::BackLocationCache;
use crate::cooldown::CooldownTracker;
use crate::homes::{HomeRegistry, Homes};
use crate::location::Location;
use crate::requests::{RequestBroker, TeleportRequest};
use crate::toggles::ToggleStateCache;

verus! {

/// The five stores, created empty once at startup. A host moves each field
/// behind a lock of its own and hands it to the commands that use it.
pub struct Plugin {
    pub cooldowns: CooldownTracker,
    pub homes: HomeRegistry,
    pub back: BackLocationCache,
    pub requests: RequestBroker,
    pub fly: ToggleStateCache,
}

impl Plugin {
    /// Every store empty.
    pub open spec fn is_empty(&self) -> bool {
        &&& self.cooldowns@ == Map::<u128, u64>::empty()
        &&& self.homes.wf()
        &&& self.homes@ == Map::<u128, Homes>::empty()
        &&& self.back@ == Map::<u128, Location>::empty()
        &&& self.requests@ == Map::<u128, TeleportRequest>::empty()
        &&& self.fly@ == Map::<u128, bool>::empty()
    }

    /// The stores as they are at startup: all empty.
    pub fn new() -> (r: Plugin)
        ensures
            r.is_empty(),
    {
        Plugin {
            cooldowns: CooldownTracker::new(),
            homes: HomeRegistry::new(),
            back: BackLocationCache::new(),
            requests: RequestBroker::new(),
            fly: ToggleStateCache::new(),
        }
    }
}

impl Default for Plugin {
    fn default() -> (r: Plugin)
        ensures
            r.is_empty(),
    {
        Plugin::new()
    }
}

} // verus!
