//! Outcomes that a command reports to the player instead of acting.
use vstd::prelude::*;

verus! {

/// Why an operation or a command did not take effect. None of these is
/// fatal: the caller turns each into a message.
#[derive(Clone, Copy, Debug, PartialEq, Eq, Structural)]
pub enum ErrorKind {
    /// A named home that does not exist.
    NotFound,
    /// A rename onto a name that is already taken.
    AlreadyExists,
    /// A rename whose old and new names are the same.
    SameName,
    /// The player has no home at all.
    NoHomes,
    /// The player has no back location yet.
    NoBackLocation,
    /// A teleport request addressed to its own sender.
    SelfTarget,
    /// Coordinates that are not all finite.
    InvalidLocation,
    /// A destination outside the world's bounds.
    OutOfBounds,
    /// A teleport asked for too soon after the previous one.
    CooldownActive,
    /// Accept or deny with no request pending.
    NoPendingRequest,
    /// The player who sent an accepted request has left.
    RequesterOffline,
}

} // verus!
