//! The watch session: the control frames it sends, and how it reacts to what
//! its duplex stream delivers. The stream itself is driven by the caller, who
//! reports each event to the session and carries out what it answers.

use vstd::prelude::*;
use crate::error::Error;
use crate::options::watch::{WatchRequestType, WatchRequestTypeView};
use crate::wire::WatchRequest;

verus! {

/// Where a watch session stands.
#[derive(Debug, Clone, Copy, PartialEq, Eq, Structural)]
pub enum WatchState {
    /// The service has not acknowledged the watch yet.
    Unopened,
    /// The service acknowledged the watch and assigned its id; events flow.
    Created,
    /// A cancel frame was issued. Events already in flight may still arrive,
    /// and control frames may still be sent.
    Cancelled,
    /// The stream failed or ended.
    Closed,
}

/// What the session reads of the first frame the service sends.
#[derive(Debug, Clone, Copy, PartialEq, Eq, Structural)]
pub struct WatchAck {
    /// The id the service assigned to the watch.
    pub watch_id: i64,
    /// Whether the frame acknowledges the creation of the watch.
    pub created: bool,
}

/// What a `WatchSession` holds.
pub struct WatchSessionView {
    pub id: i64,
    pub request: WatchRequestTypeView,
    pub state: WatchState,
}

impl WatchSessionView {
    /// Until the service has assigned an id the id is 0.
    pub open spec fn well_formed(self) -> bool {
        self.state == WatchState::Unopened ==> self.id == 0
    }

    /// How far the session has come: 0 before it is opened, 1 while created,
    /// 2 once cancelled, 3 once closed.
    pub open spec fn rank(self) -> int {
        match self.state {
            WatchState::Unopened => 0,
            WatchState::Created => 1,
            WatchState::Cancelled => 2,
            WatchState::Closed => 3,
        }
    }

    /// The session after the stream delivered `first` first, a frame or
    /// `None` for the end of the stream: created, under the id of the frame,
    /// where the session was waiting and the frame acknowledges the creation;
    /// closed where it was waiting and got anything else; unchanged where it
    /// was not waiting.
    pub open spec fn after_establish(self, first: Option<WatchAck>) -> WatchSessionView {
        if self.state != WatchState::Unopened {
            self
        } else {
            match first {
                Some(ack) => if ack.created {
                    WatchSessionView { id: ack.watch_id, state: WatchState::Created, ..self }
                } else {
                    WatchSessionView { state: WatchState::Closed, ..self }
                },
                None => WatchSessionView { state: WatchState::Closed, ..self },
            }
        }
    }

    /// Whether control frames may be sent: the service has assigned the
    /// watch its id, and the stream has neither failed nor ended. A cancel
    /// does not end this: frames may follow it.
    pub open spec fn can_send(self) -> bool {
        self.state == WatchState::Created || self.state == WatchState::Cancelled
    }

    /// The session after a cancel was asked for: cancelled where frames may
    /// be sent, else unchanged.
    pub open spec fn after_cancel(self) -> WatchSessionView {
        if self.can_send() {
            WatchSessionView { state: WatchState::Cancelled, ..self }
        } else {
            self
        }
    }

    /// The session after a failure or the end of its stream.
    pub open spec fn after_close(self) -> WatchSessionView {
        WatchSessionView { state: WatchState::Closed, ..self }
    }
}

/// A watch session.
#[derive(Debug)]
pub struct WatchSession {
    id: i64,
    request: WatchRequestType,
    state: WatchState,
}

impl View for WatchSession {
    type V = WatchSessionView;

    closed spec fn view(&self) -> WatchSessionView {
        WatchSessionView { id: self.id, request: self.request@, state: self.state }
    }
}

impl WatchSession {
    /// A session for the watch that `request` asks for, not yet opened; its
    /// id is 0 until the service assigns one.
    pub fn new(request: WatchRequestType) -> (r: Self)
        ensures
            r@ == (WatchSessionView { id: 0, request: request@, state: WatchState::Unopened }),
            r@.well_formed(),
    {
        WatchSession { id: 0, request, state: WatchState::Unopened }
    }

    /// The id of the watch: 0 until the service has assigned one.
    pub fn id(&self) -> (r: i64)
        ensures
            r == self@.id,
    {
        self.id
    }

    /// The request the session was made for.
    pub fn request(&self) -> (r: &WatchRequestType)
        ensures
            r@ == self@.request,
    {
        &self.request
    }

    /// Where the session stands.
    pub fn state(&self) -> (r: WatchState)
        ensures
            r == self@.state,
    {
        self.state
    }

    /// The frame of the request the session was made for: the frame that
    /// opens the stream, and the one to send again to re-issue the request.
    pub fn watch(&self) -> (r: WatchRequest)
        ensures
            r@ == self@.request.to_request(),
    {
        self.request.to_request()
    }

    /// Takes what the stream delivered first, or `None` where it ended before
    /// any frame. The session is created, under the id the frame carries,
    /// when the frame acknowledges the creation; it is closed, with a watch
    /// error, when the stream ended or the frame is no such acknowledgement.
    /// On a session that is not waiting for its acknowledgement this is an
    /// error that changes nothing.
    pub fn establish(&mut self, first: Option<WatchAck>) -> (r: Result<i64, Error>)
        ensures
            final(self)@ == old(self)@.after_establish(first),
            r is Ok <==> old(self)@.state == WatchState::Unopened && (first matches Some(ack)
                && ack.created),
            r matches Ok(id) ==> first matches Some(ack) && id == ack.watch_id,
            r matches Err(e) ==> (e matches Error::WatchError(reason) && reason@ == (if old(
                self,
            )@.state != WatchState::Unopened {
                "Watch is already established"@
            } else if first is None {
                "Failed to receive watch ID from server"@
            } else {
                "Failed to create watch: creation was not acknowledged"@
            })),
    {
        match self.state {
            WatchState::Unopened => {},
            _ => {
                return Err(Error::WatchError("Watch is already established".to_owned()));
            },
        }
        match first {
            None => {
                self.state = WatchState::Closed;
                Err(Error::WatchError("Failed to receive watch ID from server".to_owned()))
            },
            Some(ack) => {
                if ack.created {
                    self.id = ack.watch_id;
                    self.state = WatchState::Created;
                    Ok(ack.watch_id)
                } else {
                    self.state = WatchState::Closed;
                    Err(
                        Error::WatchError(
                            "Failed to create watch: creation was not acknowledged".to_owned(),
                        ),
                    )
                }
            },
        }
    }

    /// The frame that asks for a checkpoint event. It may be sent at any time
    /// once the watch is created, after a cancel too; before the creation is
    /// acknowledged, and once the stream has failed or ended, this is a watch
    /// error.
    pub fn progress(&self) -> (r: Result<WatchRequest, Error>)
        ensures
            self@.can_send() ==> (r matches Ok(frame) && frame@
                == WatchRequestTypeView::Progress.to_request()),
            !self@.can_send() ==> (r matches Err(Error::WatchError(reason)) && reason@
                == "Watch is not active"@),
    {
        match self.state {
            WatchState::Created | WatchState::Cancelled => Ok(
                WatchRequestType::Progress.to_request(),
            ),
            _ => Err(Error::WatchError("Watch is not active".to_owned())),
        }
    }

    /// The frame that ends server-side delivery for this watch; the session
    /// is cancelled with it. It may be sent at any time once the watch is
    /// created, and again after a cancel; before the creation is
    /// acknowledged, and once the stream has failed or ended, this is a watch
    /// error that changes nothing.
    pub fn cancel(&mut self) -> (r: Result<WatchRequest, Error>)
        ensures
            final(self)@ == old(self)@.after_cancel(),
            old(self)@.can_send() ==> (r matches Ok(frame) && frame@
                == WatchRequestTypeView::Cancel(old(self)@.id).to_request()),
            !old(self)@.can_send() ==> (r matches Err(Error::WatchError(reason)) && reason@
                == "Watch is not active"@),
    {
        match self.state {
            WatchState::Created | WatchState::Cancelled => {
                self.state = WatchState::Cancelled;
                Ok(WatchRequestType::Cancel(self.id).to_request())
            },
            _ => Err(Error::WatchError("Watch is not active".to_owned())),
        }
    }

    /// Takes a failure to send on or to receive from the stream: the session
    /// is closed, and the failure comes back as a watch error with the reason
    /// given. Nothing is retried.
    pub fn fail(&mut self, reason: String) -> (r: Error)
        ensures
            final(self)@ == old(self)@.after_close(),
            r == Error::WatchError(reason),
    {
        self.state = WatchState::Closed;
        Error::WatchError(reason)
    }

    /// Takes the end of the stream: the session is closed.
    pub fn close(&mut self)
        ensures
            final(self)@ == old(self)@.after_close(),
    {
        self.state = WatchState::Closed;
    }
}

/// A watch session only moves forward, from unopened to created to cancelled
/// or closed: no step takes it back, a closed session stays closed, its
/// request never changes, and its id changes only when the creation is
/// acknowledged, to the id that the acknowledgement carries.
pub proof fn lemma_watch_only_advances(s: WatchSessionView, first: Option<WatchAck>)
    ensures
        s.after_establish(first).rank() >= s.rank(),
        s.after_cancel().rank() >= s.rank(),
        s.after_close().rank() >= s.rank(),
        s.after_establish(first).request == s.request,
        s.after_cancel().request == s.request,
        s.after_close().request == s.request,
        s.state == WatchState::Closed ==> s.after_establish(first) == s && s.after_cancel() == s
            && s.after_close() == s,
        s.after_cancel().id == s.id,
        s.after_close().id == s.id,
        s.after_establish(first).id != s.id ==> s.state == WatchState::Unopened
            && s.after_establish(first).state == WatchState::Created && (first matches Some(ack)
            && ack.created && s.after_establish(first).id == ack.watch_id),
        s.state != WatchState::Created && s.after_establish(first).state == WatchState::Created
            ==> s.state == WatchState::Unopened,
        s.well_formed() ==> s.after_establish(first).well_formed() && s.after_cancel().well_formed()
            && s.after_close().well_formed(),
        s.can_send() ==> s.after_cancel().can_send() && s.after_establish(first).can_send(),
        !s.after_close().can_send(),
        s.after_establish(first).can_send() && !s.can_send() ==> (first matches Some(ack)
            && ack.created),
{
}

} // verus!
