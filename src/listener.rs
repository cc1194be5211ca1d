use vstd::prelude::*;
use vstd::utf8::{valid_utf8, decode_utf8};

verus! {

/// Where the datagram listener stands.
#[derive(Clone, Copy, PartialEq, Eq, Structural, Debug)]
pub enum ListenerPhase {
    /// Trying to take its local address.
    Binding,
    /// Waiting for datagrams.
    Listening,
    /// Ended for good: no address, or a failed receive.
    Stopped,
}

/// The failures of the synchronisation core.
#[derive(Clone, Copy, PartialEq, Eq, Structural, Debug)]
pub enum OverlayError {
    /// The listener could not take its local address.
    BindFailure,
    /// The lock round the stored record is unusable.
    LockUnavailable,
    /// A payload that is not text, or fits neither message shape.
    MalformedPayload,
    /// A receive failed other than by timing out.
    TransportFailure,
}

/// The description of each failure.
pub open spec fn describe_spec(e: OverlayError) -> Seq<char> {
    match e {
        OverlayError::BindFailure => "could not bind the listener address"@,
        OverlayError::LockUnavailable => "overlay state lock poisoned"@,
        OverlayError::MalformedPayload => "malformed payload"@,
        OverlayError::TransportFailure => "receive failed"@,
    }
}

impl OverlayError {
    /// A short description of the failure.
    pub fn describe(&self) -> (r: String)
        ensures
            r@ == describe_spec(*self),
    {
        proof {
            reveal_strlit("could not bind the listener address");
            reveal_strlit("overlay state lock poisoned");
            reveal_strlit("malformed payload");
            reveal_strlit("receive failed");
        }
        match self {
            OverlayError::BindFailure => "could not bind the listener address".to_owned(),
            OverlayError::LockUnavailable => "overlay state lock poisoned".to_owned(),
            OverlayError::MalformedPayload => "malformed payload".to_owned(),
            OverlayError::TransportFailure => "receive failed".to_owned(),
        }
    }
}

/// What happened to the listener.
pub enum ListenerEvent {
    /// The local address was taken.
    Bound,
    /// The local address could not be taken.
    BindFailed,
    /// A datagram arrived with these bytes.
    Datagram(Vec<u8>),
    /// A receive waited its full time and got nothing.
    TimedOut,
    /// A receive failed other than by timing out.
    ReceiveFailed,
}

/// What the listener is to do next.
pub enum ListenerAction {
    /// Wait for the next datagram.
    Receive,
    /// Decode this text as a message and hand it to the store.
    Decode(String),
    /// Drop the datagram, note why, and wait for the next one.
    Discard(OverlayError),
    /// Note why and end the loop.
    Stop(OverlayError),
    /// Nothing: the event does not belong to this phase.
    Ignore,
}

/// Relies on `std::str::from_utf8`: the bytes as text when they are valid
/// UTF-8, and nothing otherwise.
#[verifier::external_body]
fn utf8_text(b: &[u8]) -> (r: Option<&str>)
    ensures
        r matches Some(t) ==> valid_utf8(b@) && t@ == decode_utf8(b@),
        r is None ==> !valid_utf8(b@),
{
    std::str::from_utf8(b).ok()
}

/// The datagram listener's state machine. The loop that binds, receives and
/// decodes runs outside; each of its outcomes is an event, and each event
/// gives the next phase and what to do.
pub struct Listener {
    pub phase: ListenerPhase,
}

impl Listener {
    /// A listener that has yet to take its address.
    pub fn new() -> (r: Listener)
        ensures
            r.phase == ListenerPhase::Binding,
    {
        Listener { phase: ListenerPhase::Binding }
    }

    /// Moves the listener on by one event.
    pub fn step(&mut self, event: ListenerEvent) -> (r: ListenerAction)
        ensures
            match (old(self).phase, event) {
                (ListenerPhase::Binding, ListenerEvent::Bound) => final(self).phase
                    == ListenerPhase::Listening && r is Receive,
                (ListenerPhase::Binding, ListenerEvent::BindFailed) => final(self).phase
                    == ListenerPhase::Stopped && r == ListenerAction::Stop(
                    OverlayError::BindFailure,
                ),
                (ListenerPhase::Listening, ListenerEvent::Datagram(b)) => final(self).phase
                    == ListenerPhase::Listening && (if valid_utf8(b@) {
                    r matches ListenerAction::Decode(t) && t@ == decode_utf8(b@)
                } else {
                    r == ListenerAction::Discard(OverlayError::MalformedPayload)
                }),
                (ListenerPhase::Listening, ListenerEvent::TimedOut) => final(self).phase
                    == ListenerPhase::Listening && r is Receive,
                (ListenerPhase::Listening, ListenerEvent::ReceiveFailed) => final(self).phase
                    == ListenerPhase::Stopped && r == ListenerAction::Stop(
                    OverlayError::TransportFailure,
                ),
                _ => final(self).phase == old(self).phase && r is Ignore,
            },
    {
        match (self.phase, event) {
            (ListenerPhase::Binding, ListenerEvent::Bound) => {
                self.phase = ListenerPhase::Listening;
                ListenerAction::Receive
            },
            (ListenerPhase::Binding, ListenerEvent::BindFailed) => {
                self.phase = ListenerPhase::Stopped;
                ListenerAction::Stop(OverlayError::BindFailure)
            },
            (ListenerPhase::Listening, ListenerEvent::Datagram(b)) => {
                match utf8_text(b.as_slice()) {
                    Some(t) => ListenerAction::Decode(t.to_owned()),
                    None => ListenerAction::Discard(OverlayError::MalformedPayload),
                }
            },
            (ListenerPhase::Listening, ListenerEvent::TimedOut) => ListenerAction::Receive,
            (ListenerPhase::Listening, ListenerEvent::ReceiveFailed) => {
                self.phase = ListenerPhase::Stopped;
                ListenerAction::Stop(OverlayError::TransportFailure)
            },
            _ => ListenerAction::Ignore,
        }
    }

    /// Whether the listener has ended.
    pub fn is_stopped(&self) -> (r: bool)
        ensures
            r == (self.phase == ListenerPhase::Stopped),
    {
        self.phase == ListenerPhase::Stopped
    }
}

} // verus!
