//! Decides what a capture does with an error: hand its event to the
//! processing context, or send nothing.
//!
//! The context itself, with its clients and its transport, lives outside this
//! library. A [`Hub`] holds what one capture reads of it, and a [`Dispatch`]
//! says what the caller has to do with it next.

use crate::assemble::{event_from_error, event_of};
use crate::chain::{ErrorInfo, Link};
use crate::protocol::{Event, EventView};
use vstd::prelude::*;

verus! {

/// Identifier of an event, as a 128-bit number. Zero is the nil identifier:
/// it says that nothing was sent.
#[derive(Clone, Copy, Debug, PartialEq, Eq, Structural)]
pub struct EventId(pub u128);

/// What is taken for granted of `sentry_types::Uuid::nil`: the identifier
/// that it returns has all of its 128 bits zero, so `Uuid::as_u128` reads it
/// as the number zero.
#[verifier::external_body]
fn nil_uuid_bits() -> (bits: u128)
    ensures
        bits == 0,
{
    sentry_types::Uuid::nil().as_u128()
}

impl EventId {
    /// Whether this is the nil identifier.
    pub open spec fn is_nil(&self) -> bool {
        self.0 == 0
    }

    /// The nil identifier.
    pub fn nil() -> (id: EventId)
        ensures
            id.is_nil(),
    {
        EventId(nil_uuid_bits())
    }
}

/// What a capture asks of its caller.
#[derive(Clone, Debug, PartialEq, Eq)]
pub enum Dispatch {
    /// Hand this event to the capture entry point of the processing context.
    /// The identifier that the context returns is the result of the capture.
    Forward(Event),
    /// Send nothing. This identifier, the nil one, is the result of the
    /// capture.
    Skipped(EventId),
}

/// What a [`Dispatch`] holds, as mathematical values.
pub enum DispatchView {
    Forward(EventView),
    Skipped(EventId),
}

impl View for Dispatch {
    type V = DispatchView;

    open spec fn view(&self) -> DispatchView {
        match self {
            Dispatch::Forward(event) => DispatchView::Forward(event@),
            Dispatch::Skipped(id) => DispatchView::Skipped(*id),
        }
    }
}

/// What the context does with an event: with a client installed the event is
/// forwarded as it is; without one nothing is sent and the nil identifier is
/// the answer.
pub open spec fn dispatch_of(client_installed: bool, event: EventView) -> DispatchView {
    if client_installed {
        DispatchView::Forward(event)
    } else {
        DispatchView::Skipped(EventId(0))
    }
}

/// What the capture of an error does: the event of the error is what the
/// context gets to dispatch.
pub open spec fn capture_of(client_installed: bool, chain: Seq<Link>) -> DispatchView {
    dispatch_of(client_installed, event_of(chain))
}

/// The processing context as one capture sees it: a snapshot, taken once for
/// the whole call.
#[derive(Clone, Copy, Debug, PartialEq, Eq, Structural)]
pub struct Hub {
    /// Whether the top of the context's stack holds an active client.
    pub client_installed: bool,
}

impl Hub {
    /// Captures an event in this context.
    ///
    /// With a client installed the event is handed out, unchanged, to be
    /// forwarded. Without one the event is dropped, nothing is sent, and the
    /// nil identifier is the answer: that is no failure.
    pub fn capture_event(&self, event: Event) -> (action: Dispatch)
        ensures
            action@ == dispatch_of(self.client_installed, event@),
            self.client_installed ==> action == Dispatch::Forward(event),
            !self.client_installed ==> action == Dispatch::Skipped(EventId(0)),
    {
        if self.client_installed {
            Dispatch::Forward(event)
        } else {
            Dispatch::Skipped(EventId::nil())
        }
    }

    /// Captures an error in this context.
    ///
    /// With a client installed the event of the error is built and handed
    /// out to be forwarded. Without one no event is built, nothing is sent,
    /// and the nil identifier is the answer.
    pub fn capture_error(&self, error: &ErrorInfo) -> (action: Dispatch)
        ensures
            action@ == capture_of(self.client_installed, error@),
            self.client_installed ==> action is Forward,
            !self.client_installed ==> action == Dispatch::Skipped(EventId(0)),
    {
        if self.client_installed {
            let event = event_from_error(error);
            self.capture_event(event)
        } else {
            Dispatch::Skipped(EventId::nil())
        }
    }
}

/// Captures an error in the context that is active for the caller.
///
/// Creates an event from the given error and hands it out for that context.
/// The chain of the error's causes is resolved as well, and sorted from the
/// oldest to the newest.
pub fn capture_error(active: &Hub, error: &ErrorInfo) -> (action: Dispatch)
    ensures
        action@ == capture_of(active.client_installed, error@),
        active.client_installed ==> action is Forward,
        !active.client_installed ==> action == Dispatch::Skipped(EventId(0)),
{
    active.capture_error(error)
}

} // verus!
