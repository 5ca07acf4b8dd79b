//! The lease keep-alive session: what it sends, and how it reacts to what its
//! duplex stream delivers. The stream itself is driven by the caller, who
//! reports each event to the session and carries out what it answers.

use vstd::prelude::*;
use crate::error::Error;
use crate::wire::{LeaseKeepAliveRequest, LeaseRevokeRequest};

verus! {

/// Where a keep-alive session stands.
#[derive(Debug, Clone, Copy, PartialEq, Eq, Structural)]
pub enum KeepAliveState {
    /// No acknowledgement has arrived yet.
    Unopened,
    /// The first acknowledgement confirmed the lease.
    Bound,
    /// The stream failed or ended, or the session was given up.
    Closed,
}

/// What a `KeepAliveSession` holds.
pub struct KeepAliveSessionView {
    pub lease_id: i64,
    pub state: KeepAliveState,
}

impl KeepAliveSessionView {
    /// How far the session has come: 0 before it is opened, 1 while bound, 2
    /// once closed.
    pub open spec fn rank(self) -> int {
        match self.state {
            KeepAliveState::Unopened => 0,
            KeepAliveState::Bound => 1,
            KeepAliveState::Closed => 2,
        }
    }

    /// The session after the stream delivered `first_ack` first, the lease id
    /// of an acknowledgement or `None` for the end of the stream: bound where
    /// the session was waiting and the id is that of its lease, closed where
    /// it was waiting and got anything else, unchanged where it was not
    /// waiting.
    pub open spec fn after_bind(self, first_ack: Option<i64>) -> KeepAliveSessionView {
        if self.state != KeepAliveState::Unopened {
            self
        } else if first_ack == Some(self.lease_id) {
            KeepAliveSessionView { state: KeepAliveState::Bound, ..self }
        } else {
            KeepAliveSessionView { state: KeepAliveState::Closed, ..self }
        }
    }

    /// The session after a failure of its stream, or after it was given up.
    pub open spec fn after_close(self) -> KeepAliveSessionView {
        KeepAliveSessionView { state: KeepAliveState::Closed, ..self }
    }
}

/// A keep-alive session for one lease.
#[derive(Debug)]
pub struct KeepAliveSession {
    lease_id: i64,
    state: KeepAliveState,
}

impl View for KeepAliveSession {
    type V = KeepAliveSessionView;

    closed spec fn view(&self) -> KeepAliveSessionView {
        KeepAliveSessionView { lease_id: self.lease_id, state: self.state }
    }
}

/// The request that ends the lease `lease_id`.
pub fn revoke_request(lease_id: i64) -> (r: LeaseRevokeRequest)
    ensures
        r == (LeaseRevokeRequest { id: lease_id }),
{
    LeaseRevokeRequest { id: lease_id }
}

impl KeepAliveSession {
    /// A session for the lease `lease_id`, not yet opened.
    pub fn new(lease_id: i64) -> (r: Self)
        ensures
            r@ == (KeepAliveSessionView { lease_id, state: KeepAliveState::Unopened }),
    {
        KeepAliveSession { lease_id, state: KeepAliveState::Unopened }
    }

    /// The lease the session is for.
    pub fn lease_id(&self) -> (r: i64)
        ensures
            r == self@.lease_id,
    {
        self.lease_id
    }

    /// Where the session stands.
    pub fn state(&self) -> (r: KeepAliveState)
        ensures
            r == self@.state,
    {
        self.state
    }

    /// The next ping to put on the stream: the first one of a session that is
    /// not opened yet, a renewal of one that is bound. A closed session sends
    /// nothing more.
    pub fn keep_alive(&self) -> (r: Result<LeaseKeepAliveRequest, Error>)
        ensures
            self@.state != KeepAliveState::Closed ==> (r matches Ok(ping) && ping == (
            LeaseKeepAliveRequest { id: self@.lease_id })),
            self@.state == KeepAliveState::Closed ==> (r matches Err(
                Error::KeepAliveError(reason),
            ) && reason@ == "Keep-alive stream is closed"@),
    {
        match self.state {
            KeepAliveState::Closed => Err(
                Error::KeepAliveError("Keep-alive stream is closed".to_owned()),
            ),
            _ => Ok(LeaseKeepAliveRequest { id: self.lease_id }),
        }
    }

    /// Takes what the stream delivered first: the lease id of the first
    /// acknowledgement, or `None` where the stream ended before any. The
    /// session is bound when that id is the id of its lease; it is closed,
    /// with a keep-alive error, when the stream ended or the id is another.
    /// On a session that is not waiting for its first acknowledgement this is
    /// an error that changes nothing.
    pub fn bind(&mut self, first_ack: Option<i64>) -> (r: Result<i64, Error>)
        ensures
            final(self)@ == old(self)@.after_bind(first_ack),
            r is Ok <==> old(self)@.state == KeepAliveState::Unopened && first_ack == Some(
                old(self)@.lease_id,
            ),
            r matches Ok(id) ==> id == old(self)@.lease_id,
            r matches Err(e) ==> (e matches Error::KeepAliveError(reason) && reason@ == (
            if old(self)@.state != KeepAliveState::Unopened {
                "Keep-alive stream is already established"@
            } else if first_ack is None {
                "Failed to create keep-alive stream: no response received"@
            } else {
                "Failed to create keep-alive stream: lease ID mismatch"@
            })),
    {
        match self.state {
            KeepAliveState::Unopened => {},
            _ => {
                return Err(
                    Error::KeepAliveError("Keep-alive stream is already established".to_owned()),
                );
            },
        }
        match first_ack {
            None => {
                self.state = KeepAliveState::Closed;
                Err(
                    Error::KeepAliveError(
                        "Failed to create keep-alive stream: no response received".to_owned(),
                    ),
                )
            },
            Some(id) => {
                if id != self.lease_id {
                    self.state = KeepAliveState::Closed;
                    Err(
                        Error::KeepAliveError(
                            "Failed to create keep-alive stream: lease ID mismatch".to_owned(),
                        ),
                    )
                } else {
                    self.state = KeepAliveState::Bound;
                    Ok(id)
                }
            },
        }
    }

    /// Takes a failure to send on or to receive from the stream: the session
    /// is closed, and the failure comes back as a keep-alive error with the
    /// reason given. Nothing is retried.
    pub fn fail(&mut self, reason: String) -> (r: Error)
        ensures
            final(self)@ == old(self)@.after_close(),
            r == Error::KeepAliveError(reason),
    {
        self.state = KeepAliveState::Closed;
        Error::KeepAliveError(reason)
    }

    /// Gives the session up: no more pings are sent, and the lease lapses at
    /// the service once its time to live has run out.
    pub fn close(&mut self)
        ensures
            final(self)@ == old(self)@.after_close(),
    {
        self.state = KeepAliveState::Closed;
    }
}

/// A keep-alive session only moves forward, from unopened to bound to closed,
/// and stays with its lease: no step takes it back, a closed session stays
/// closed, and it is bound only by an acknowledgement that names its lease.
pub proof fn lemma_keep_alive_only_advances(s: KeepAliveSessionView, first_ack: Option<i64>)
    ensures
        s.after_bind(first_ack).rank() >= s.rank(),
        s.after_close().rank() >= s.rank(),
        s.after_bind(first_ack).lease_id == s.lease_id,
        s.after_close().lease_id == s.lease_id,
        s.state == KeepAliveState::Closed ==> s.after_bind(first_ack) == s && s.after_close() == s,
        s.state != KeepAliveState::Bound && s.after_bind(first_ack).state == KeepAliveState::Bound
            ==> first_ack == Some(s.lease_id),
{
}

} // verus!
