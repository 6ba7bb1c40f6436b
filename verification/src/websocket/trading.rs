use vstd::prelude::*;

verus! {

/// Event kinds of the private `trade_updates` stream.
#[derive(Clone, Copy, Debug, PartialEq, Eq, Structural)]
pub enum AlpacaTradeEvent {
    New,
    Fill,
    PartialFill,
    Canceled,
    Expired,
    DoneForDay,
    Replaced,
    Accepted,
    Rejected,
    PendingNew,
    Stopped,
    PendingCancel,
    PendingReplace,
    Calculated,
    Suspended,
    OrderReplaceRejected,
    OrderCancelRejected,
    Unknown,
}

/// Reply of the private stream to an `auth` request.
#[derive(Clone, Debug)]
pub struct AlpacaAuthorization {
    pub status: String,
    pub action: String,
}

/// Reply of the private stream to a `listen` request.
#[derive(Clone, Debug)]
pub struct AlpacaListening {
    pub streams: Vec<String>,
}

/// A decoded frame of the private stream, as far as the handshake reads it.
pub enum HandshakeFrame {
    /// The transport reconnected underneath the handshake.
    Reconnected,
    Authorization(AlpacaAuthorization),
    Listening(AlpacaListening),
    /// A trade update or a message of an unknown stream.
    Other,
}

/// Where the private-stream handshake stands.
#[derive(Clone, Copy, Debug, PartialEq, Eq, Structural)]
pub enum HandshakePhase {
    /// `auth` was sent; waiting for the authorization reply.
    Authorizing,
    /// `listen` was sent; waiting for the stream list.
    Listening,
}

/// What the stream client does next.
#[derive(Clone, Copy, Debug, PartialEq, Eq, Structural)]
pub enum HandshakeStep {
    /// Keep reading frames in the given phase.
    Wait(HandshakePhase),
    /// Authorization succeeded: send `listen` and wait for the stream list.
    SendListen,
    /// The account's trade updates are flowing.
    Ready,
    /// The venue refused the credentials.
    AuthorizationFailed,
    /// The venue revoked the authorization while listening.
    ListenAuthorizationFailed,
}

pub open spec fn is_authorized(status: Seq<char>) -> bool {
    status == "authorized"@
}

pub open spec fn listens_to_trade_updates(streams: Seq<Seq<char>>) -> bool {
    exists|i: int| 0 <= i < streams.len() && streams[i] == "trade_updates"@
}

pub open spec fn string_seq(v: Seq<String>) -> Seq<Seq<char>> {
    v.map_values(|s: String| s@)
}

/// The handshake's transition on one frame.
pub open spec fn spec_handshake_step(phase: HandshakePhase, frame: HandshakeFrame) -> HandshakeStep {
    match phase {
        HandshakePhase::Authorizing => match frame {
            HandshakeFrame::Authorization(auth) => if is_authorized(auth.status@) {
                HandshakeStep::SendListen
            } else {
                HandshakeStep::AuthorizationFailed
            },
            _ => HandshakeStep::Wait(HandshakePhase::Authorizing),
        },
        HandshakePhase::Listening => match frame {
            HandshakeFrame::Listening(l) => if listens_to_trade_updates(string_seq(l.streams@)) {
                HandshakeStep::Ready
            } else {
                HandshakeStep::Wait(HandshakePhase::Listening)
            },
            HandshakeFrame::Authorization(auth) => if !is_authorized(auth.status@) {
                HandshakeStep::ListenAuthorizationFailed
            } else {
                HandshakeStep::Wait(HandshakePhase::Listening)
            },
            _ => HandshakeStep::Wait(HandshakePhase::Listening),
        },
    }
}

fn status_is_authorized(status: &String) -> (r: bool)
    ensures
        r == is_authorized(status@),
{
    crate::common::text::str_eq(status.as_str(), "authorized")
}

fn contains_trade_updates(streams: &Vec<String>) -> (r: bool)
    ensures
        r == listens_to_trade_updates(string_seq(streams@)),
{
    let mut i: usize = 0;
    while i < streams.len()
        invariant
            i <= streams.len(),
            forall|j: int| 0 <= j < i ==> streams@[j]@ != "trade_updates"@,
        decreases streams.len() - i,
    {
        if crate::common::text::str_eq(streams[i].as_str(), "trade_updates") {
            assert(string_seq(streams@)[i as int] == "trade_updates"@);
            return true;
        }
        i = i + 1;
    }
    assert forall|j: int| 0 <= j < string_seq(streams@).len() implies string_seq(streams@)[j]
        != "trade_updates"@ by {
        assert(string_seq(streams@)[j] == streams@[j]@);
    }
    false
}

/// Advances the private-stream handshake by one frame: authorize, then listen to
/// `trade_updates`; a reconnect while authorizing and unrelated frames are skipped.
pub fn handshake_step(phase: HandshakePhase, frame: &HandshakeFrame) -> (r: HandshakeStep)
    ensures
        r == spec_handshake_step(phase, *frame),
{
    match phase {
        HandshakePhase::Authorizing => match frame {
            HandshakeFrame::Authorization(auth) => if status_is_authorized(&auth.status) {
                HandshakeStep::SendListen
            } else {
                HandshakeStep::AuthorizationFailed
            },
            _ => HandshakeStep::Wait(HandshakePhase::Authorizing),
        },
        HandshakePhase::Listening => match frame {
            HandshakeFrame::Listening(l) => if contains_trade_updates(&l.streams) {
                HandshakeStep::Ready
            } else {
                HandshakeStep::Wait(HandshakePhase::Listening)
            },
            HandshakeFrame::Authorization(auth) => if !status_is_authorized(&auth.status) {
                HandshakeStep::ListenAuthorizationFailed
            } else {
                HandshakeStep::Wait(HandshakePhase::Listening)
            },
            _ => HandshakeStep::Wait(HandshakePhase::Listening),
        },
    }
}

} // verus!
