//! The decisions of the teleport commands, apart from the host calls that
//! surround them. A command reads the stores one at a time (each under its
//! own lock) and asks the host for positions; what to do then is decided
//! here.
use vstd::prelude::*;
use crate::error::ErrorKind;
use crate::location::Location;
use crate::player::PlayerId;
use crate::requests::{RequestKind, TeleportRequest};

verus! {

/// The outcome of a teleport attempt, checked in this order: the cooldown
/// must permit it, the destination must exist (else `missing`), lie within
/// the world, and have finite coordinates.
pub open spec fn verdict(
    permitted: bool,
    destination: Option<Location>,
    missing: ErrorKind,
    in_bounds: bool,
) -> Result<Location, ErrorKind> {
    if !permitted {
        Err(ErrorKind::CooldownActive)
    } else {
        match destination {
            None => Err(missing),
            Some(loc) => if !in_bounds {
                Err(ErrorKind::OutOfBounds)
            } else if !loc.valid() {
                Err(ErrorKind::InvalidLocation)
            } else {
                Ok(loc)
            },
        }
    }
}

/// Decides a teleport once the cooldown gate has answered (`permitted`),
/// the destination has been looked up (`destination`, with `missing` the
/// outcome when there is none) and the host has checked the destination
/// against the world's bounds (`in_bounds`). Returns where to teleport.
pub fn teleport_verdict(
    permitted: bool,
    destination: Option<Location>,
    missing: ErrorKind,
    in_bounds: bool,
) -> (r: Result<Location, ErrorKind>)
    ensures
        r == verdict(permitted, destination, missing, in_bounds),
{
    if !permitted {
        return Err(ErrorKind::CooldownActive);
    }
    match destination {
        None => Err(missing),
        Some(loc) => {
            if !in_bounds {
                Err(ErrorKind::OutOfBounds)
            } else if !loc.is_valid() {
                Err(ErrorKind::InvalidLocation)
            } else {
                Ok(loc)
            }
        },
    }
}

/// Who moves when an accepted request is carried out, and to whom.
#[derive(Clone, Copy, Debug, PartialEq, Eq, Structural)]
pub struct Move {
    /// The player who is teleported.
    pub mover: PlayerId,
    /// The player whose current location is the destination.
    pub anchor: PlayerId,
}

/// The move that `recipient` accepting `request` calls for: a pull brings
/// the requester to the recipient, a push brings the recipient to the
/// requester. The mover's cooldown gates the teleport.
pub fn plan_move(recipient: PlayerId, request: TeleportRequest) -> (r: Move)
    ensures
        request.kind == RequestKind::Pull ==> r == (Move { mover: request.requester, anchor: recipient }),
        request.kind == RequestKind::Push ==> r == (Move { mover: recipient, anchor: request.requester }),
{
    match request.kind {
        RequestKind::Pull => Move { mover: request.requester, anchor: recipient },
        RequestKind::Push => Move { mover: recipient, anchor: request.requester },
    }
}

/// Name of the home that `/home`, `/sethome` and `/delhome` use when none
/// is given.
pub const DEFAULT_HOME_NAME: &'static str = "home";

/// The home name given as an argument, or the default one.
pub fn home_name_or_default(arg: Option<String>) -> (r: String)
    ensures
        match arg {
            Some(name) => r == name,
            None => r@ == DEFAULT_HOME_NAME@,
        },
{
    match arg {
        Some(name) => name,
        None => DEFAULT_HOME_NAME.to_owned(),
    }
}

/// Ping shown when nothing better is known, in milliseconds.
pub const DEFAULT_PING_MS: u64 = 100;

/// Largest ping that the estimate from connection age reports.
pub const MAX_ESTIMATED_PING_MS: u64 = 500;

/// The ping estimate, in milliseconds, shown for a player. While a
/// keep-alive is unanswered it is the time since it was sent
/// (`since_keep_alive_ms`); otherwise it is derived from the connection's
/// tick counter: `100 + ticks % 50`, at most 500, or 100 before the first
/// tick.
pub fn estimate_ping(waiting: bool, since_keep_alive_ms: u64, ticks: i32) -> (r: u64)
    ensures
        waiting ==> r == since_keep_alive_ms,
        !waiting && ticks > 0 ==> r == DEFAULT_PING_MS + (ticks as u64) % 50,
        !waiting && ticks <= 0 ==> r == DEFAULT_PING_MS,
{
    if waiting {
        since_keep_alive_ms
    } else if ticks > 0 {
        let estimate: u64 = DEFAULT_PING_MS + (ticks as u64) % 50;
        if estimate < MAX_ESTIMATED_PING_MS {
            estimate
        } else {
            MAX_ESTIMATED_PING_MS
        }
    } else {
        DEFAULT_PING_MS
    }
}

} // verus!
