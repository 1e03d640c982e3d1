//! Teleport requests between players: at most one pending request per
//! recipient, replaced (never queued) by a newer one, and consumed exactly
//! once by either accept or deny.
use vstd::prelude::*;
use std::collections::HashMap;
use crate::error::ErrorKind;
use crate::player::PlayerId;

verus! {

broadcast use vstd::std_specs::hash::group_hash_axioms;

/// Which of the two players a request moves.
#[derive(Clone, Copy, Debug, PartialEq, Eq, Structural)]
pub enum RequestKind {
    /// The requester asks to move to the recipient.
    Pull,
    /// The requester asks the recipient to come to the requester.
    Push,
}

/// A pending request, stored under its recipient.
#[derive(Clone, Copy, Debug, PartialEq, Eq, Structural)]
pub struct TeleportRequest {
    pub requester: PlayerId,
    pub kind: RequestKind,
}

/// Pending requests by recipient, after `requester` asks `recipient` for a
/// teleport of `kind`: refused when the two are the same player, otherwise
/// the recipient's entry is replaced.
pub open spec fn requested(
    pending: Map<u128, TeleportRequest>,
    requester: PlayerId,
    recipient: PlayerId,
    kind: RequestKind,
) -> Map<u128, TeleportRequest> {
    if requester == recipient {
        pending
    } else {
        pending.insert(recipient.0, TeleportRequest { requester, kind })
    }
}

/// What accept or deny by `recipient` observes: the pending entry, if any.
pub open spec fn pending_for(pending: Map<u128, TeleportRequest>, recipient: PlayerId) -> Option<
    TeleportRequest,
> {
    if pending.contains_key(recipient.0) {
        Some(pending[recipient.0])
    } else {
        None
    }
}

/// Pending requests after accept or deny by `recipient`: its entry is gone.
pub open spec fn resolved(pending: Map<u128, TeleportRequest>, recipient: PlayerId) -> Map<
    u128,
    TeleportRequest,
> {
    pending.remove(recipient.0)
}

/// The pending teleport requests, keyed by recipient.
pub struct RequestBroker {
    pending: HashMap<u128, TeleportRequest>,
}

impl View for RequestBroker {
    type V = Map<u128, TeleportRequest>;

    closed spec fn view(&self) -> Map<u128, TeleportRequest> {
        self.pending@
    }
}

impl RequestBroker {
    /// A broker with nothing pending.
    pub fn new() -> (r: RequestBroker)
        ensures
            r@ == Map::<u128, TeleportRequest>::empty(),
    {
        RequestBroker { pending: HashMap::new() }
    }

    /// `requester` asks `recipient` for a teleport of `kind`. Any request
    /// already pending for `recipient` is silently replaced. Refused with
    /// `SelfTarget`, and no change, when the two are the same player.
    pub fn request(&mut self, requester: PlayerId, recipient: PlayerId, kind: RequestKind) -> (r: Result<
        (),
        ErrorKind,
    >)
        ensures
            r == (if requester == recipient {
                Err::<(), ErrorKind>(ErrorKind::SelfTarget)
            } else {
                Ok::<(), ErrorKind>(())
            }),
            final(self)@ == requested(old(self)@, requester, recipient, kind),
    {
        if requester == recipient {
            return Err(ErrorKind::SelfTarget);
        }
        self.pending.insert(recipient.0, TeleportRequest { requester, kind });
        Ok(())
    }

    /// Removes and returns the request pending for `recipient`, in one
    /// step, so that a racing deny cannot also observe it.
    pub fn accept(&mut self, recipient: PlayerId) -> (r: Option<TeleportRequest>)
        ensures
            r == pending_for(old(self)@, recipient),
            final(self)@ == resolved(old(self)@, recipient),
    {
        self.pending.remove(&recipient.0)
    }

    /// Removes the request pending for `recipient`, in one step, and returns
    /// who sent it.
    pub fn deny(&mut self, recipient: PlayerId) -> (r: Option<PlayerId>)
        ensures
            r == (match pending_for(old(self)@, recipient) {
                Some(req) => Some(req.requester),
                None => None,
            }),
            final(self)@ == resolved(old(self)@, recipient),
    {
        match self.pending.remove(&recipient.0) {
            Some(req) => Some(req.requester),
            None => None,
        }
    }

    /// The request pending for `recipient`, left in place.
    pub fn pending(&self, recipient: PlayerId) -> (r: Option<TeleportRequest>)
        ensures
            r == pending_for(self@, recipient),
    {
        match self.pending.get(&recipient.0) {
            Some(req) => Some(*req),
            None => None,
        }
    }
}

/// A newer request replaces an older one for the same recipient: after `x`
/// pulls and then `y` pushes toward `recipient`, accepting yields `y`'s push,
/// and a second accept or a deny then finds nothing.
pub proof fn lemma_request_replaces(
    pending: Map<u128, TeleportRequest>,
    x: PlayerId,
    y: PlayerId,
    recipient: PlayerId,
)
    requires
        x != recipient,
        y != recipient,
    ensures
        ({
            let both = requested(
                requested(pending, x, recipient, RequestKind::Pull),
                y,
                recipient,
                RequestKind::Push,
            );
            &&& pending_for(both, recipient) == Some(
                TeleportRequest { requester: y, kind: RequestKind::Push },
            )
            &&& pending_for(resolved(both, recipient), recipient) is None
        }),
{
}

/// Accept and deny on one pending request: whichever comes first gets it,
/// and the other finds nothing, so the request is never delivered twice.
pub proof fn lemma_accept_deny_exclusive(pending: Map<u128, TeleportRequest>, recipient: PlayerId)
    requires
        pending.contains_key(recipient.0),
    ensures
        pending_for(pending, recipient) is Some,
        pending_for(resolved(pending, recipient), recipient) is None,
{
}

/// Requests to different recipients are separate entries: a request to one
/// leaves the entry of any other recipient as it was.
pub proof fn lemma_requests_independent(
    pending: Map<u128, TeleportRequest>,
    requester: PlayerId,
    recipient: PlayerId,
    other: PlayerId,
    kind: RequestKind,
)
    requires
        other != recipient,
    ensures
        pending_for(requested(pending, requester, recipient, kind), other) == pending_for(
            pending,
            other,
        ),
{
}

} // verus!
