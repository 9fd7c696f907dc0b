//! One connection from first byte to close: the auth frame, the reply it
//! earns, and the event stream that follows successful authentication.

use vstd::prelude::*;
use vstd::slice::slice_subrange;

use crate::auth::{auth_decision, auth_reply, spec_auth_outcome, spec_auth_reply, AuthOutcome};
use crate::decoder::{
    decode_stream, spec_decode_actions, spec_decode_end, DeviceAction, StreamEnd,
};

verus! {

/// The candidate password framed at the head of a connection's input: one
/// length byte, then exactly that many password bytes. Nothing when the
/// stream closes before the frame is complete.
pub open spec fn spec_auth_candidate(input: Seq<u8>) -> Option<Seq<u8>> {
    if input.len() < 1 {
        None
    } else if input.len() < 1 + input[0] {
        None
    } else {
        Some(input.subrange(1, 1 + input[0]))
    }
}

/// The event stream that follows a complete auth frame.
pub open spec fn spec_event_stream(input: Seq<u8>) -> Seq<u8>
    recommends
        spec_auth_candidate(input) is Some,
{
    input.skip(1 + input[0])
}

/// Why a session ended.
#[derive(Clone, Copy, Debug, PartialEq, Eq, Structural)]
pub enum SessionEnd {
    /// The stream closed before a complete auth frame arrived.
    AuthTruncated,
    /// The candidate password was not UTF-8: a corrupted stream.
    AuthCorrupted,
    /// The candidate password differed from the secret.
    AuthRejected,
    /// Authentication succeeded; the event stream then ended this way.
    Streamed(StreamEnd),
}

/// How a session ends for a given input: an incomplete auth frame, a refused
/// candidate, or — after acceptance — however decoding of the event stream
/// ends.
pub open spec fn spec_session_end(input: Seq<u8>, secret: Seq<u8>) -> SessionEnd {
    match spec_auth_candidate(input) {
        Option::None => SessionEnd::AuthTruncated,
        Option::Some(c) => match spec_auth_outcome(c, secret) {
            AuthOutcome::Corrupted => SessionEnd::AuthCorrupted,
            AuthOutcome::Rejected => SessionEnd::AuthRejected,
            AuthOutcome::Accepted => SessionEnd::Streamed(
                spec_decode_end(spec_event_stream(input)),
            ),
        },
    }
}

/// Every byte the server writes on a session: the single confirmation byte
/// on acceptance, nothing in every other case.
pub open spec fn spec_session_reply(input: Seq<u8>, secret: Seq<u8>) -> Seq<u8> {
    match spec_auth_candidate(input) {
        Option::None => Seq::<u8>::empty(),
        Option::Some(c) => spec_auth_reply(spec_auth_outcome(c, secret)),
    }
}

/// Every device action a session performs: what the event stream decodes to
/// after acceptance, and none at all before authentication succeeded.
pub open spec fn spec_session_actions(input: Seq<u8>, secret: Seq<u8>) -> Seq<DeviceAction> {
    match spec_auth_candidate(input) {
        Option::None => Seq::<DeviceAction>::empty(),
        Option::Some(c) => if spec_auth_outcome(c, secret) == AuthOutcome::Accepted {
            spec_decode_actions(spec_event_stream(input))
        } else {
            Seq::<DeviceAction>::empty()
        },
    }
}

/// Everything one session amounts to, given the bytes the client sent.
pub struct SessionOutcome {
    pub reply: Vec<u8>,
    pub actions: Vec<DeviceAction>,
    pub end: SessionEnd,
}

/// Runs one session over the bytes a client sent on its connection: reads
/// the auth frame, judges it, and — only on acceptance — replies with the
/// confirmation byte and decodes the rest as the event stream.
pub fn run_session(input: &[u8], secret: &[u8]) -> (r: SessionOutcome)
    ensures
        r.reply@ == spec_session_reply(input@, secret@),
        r.actions@ == spec_session_actions(input@, secret@),
        r.end == spec_session_end(input@, secret@),
{
    if input.len() == 0 {
        return SessionOutcome {
            reply: Vec::new(),
            actions: Vec::new(),
            end: SessionEnd::AuthTruncated,
        };
    }
    let l = input[0] as usize;
    if input.len() - 1 < l {
        return SessionOutcome {
            reply: Vec::new(),
            actions: Vec::new(),
            end: SessionEnd::AuthTruncated,
        };
    }
    let candidate = slice_subrange(input, 1, 1 + l);
    let o = auth_decision(candidate, secret);
    match o {
        AuthOutcome::Corrupted => SessionOutcome {
            reply: Vec::new(),
            actions: Vec::new(),
            end: SessionEnd::AuthCorrupted,
        },
        AuthOutcome::Rejected => SessionOutcome {
            reply: Vec::new(),
            actions: Vec::new(),
            end: SessionEnd::AuthRejected,
        },
        AuthOutcome::Accepted => {
            let reply = auth_reply(o);
            let rest = slice_subrange(input, 1 + l, input.len());
            proof {
                assert(rest@ =~= spec_event_stream(input@));
            }
            let d = decode_stream(rest);
            SessionOutcome { reply, actions: d.actions, end: SessionEnd::Streamed(d.end) }
        },
    }
}

} // verus!
