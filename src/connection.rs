use vstd::prelude::*;
use crate::messages::{ClientMessage, ServerEvent};
use crate::processor::{handle_client_message, next_state, published};
use crate::quiz_state::QuizState;

verus! {

/// What the inbound side of a connection read from the transport.
pub enum Inbound {
    /// A text frame that parsed as a client message.
    Message(ClientMessage),
    /// A text frame that did not parse (bad JSON, unknown or missing `type`,
    /// missing or mistyped field).
    Malformed,
    /// A frame that is not text.
    NonText,
    /// The transport closed or failed.
    Ended,
}

/// Whether the inbound reader goes on.
#[derive(PartialEq, Eq, Structural, Clone, Copy, Debug)]
pub enum ReaderAction {
    Continue,
    Stop,
}

/// One step of the inbound reader: a parsed message is applied to the
/// session; every other frame is dropped; the end of the transport stops it.
pub fn on_inbound(frame: Inbound, state: &mut QuizState) -> (r: (ReaderAction, Vec<ServerEvent>))
    requires
        old(state).wf(),
    ensures
        final(state).wf(),
        forall|i: int| 0 <= i < r.1@.len() ==> (#[trigger] r.1@[i]).wf(),
        match frame {
            Inbound::Message(msg) => {
                &&& r.0 == ReaderAction::Continue
                &&& final(state)@ == next_state(old(state)@, msg)
                &&& r.1@.map_values(|e: ServerEvent| e@) == published(old(state)@, msg)
            },
            Inbound::Malformed | Inbound::NonText => {
                &&& r.0 == ReaderAction::Continue
                &&& final(state)@ == old(state)@
                &&& r.1@.len() == 0
            },
            Inbound::Ended => {
                &&& r.0 == ReaderAction::Stop
                &&& final(state)@ == old(state)@
                &&& r.1@.len() == 0
            },
        },
{
    match frame {
        Inbound::Message(msg) => (ReaderAction::Continue, handle_client_message(msg, state)),
        Inbound::Malformed | Inbound::NonText => (ReaderAction::Continue, Vec::new()),
        Inbound::Ended => (ReaderAction::Stop, Vec::new()),
    }
}

/// What the outbound relay received from its subscription.
#[derive(PartialEq, Eq, Structural, Clone, Copy, Debug)]
pub enum Received {
    /// The next event.
    Event,
    /// The subscriber fell behind and this many events were dropped for it.
    Lagged(u64),
    /// The channel is closed for good.
    Closed,
}

/// What the outbound relay does next.
#[derive(PartialEq, Eq, Structural, Clone, Copy, Debug)]
pub enum RelayAction {
    /// Write the received event to the transport.
    Send,
    /// Nothing to write; receive again.
    Skip,
    /// End the relay.
    Stop,
}

/// One step of the outbound relay: an event is sent, a lag is not fatal, a
/// closed channel ends the relay.
pub fn on_received(received: Received) -> (r: RelayAction)
    ensures
        r == match received {
            Received::Event => RelayAction::Send,
            Received::Lagged(_) => RelayAction::Skip,
            Received::Closed => RelayAction::Stop,
        },
{
    match received {
        Received::Event => RelayAction::Send,
        Received::Lagged(_) => RelayAction::Skip,
        Received::Closed => RelayAction::Stop,
    }
}

/// What the relay does after writing a frame: it receives again after a
/// successful write and ends after a failed one.
pub fn on_written(ok: bool) -> (r: RelayAction)
    ensures
        r == (if ok { RelayAction::Skip } else { RelayAction::Stop }),
{
    if ok {
        RelayAction::Skip
    } else {
        RelayAction::Stop
    }
}

} // verus!
