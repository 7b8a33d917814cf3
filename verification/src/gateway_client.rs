//! The decisions of a gateway client: its request ids, how it waits for
//! the welcome after its hello, and how it waits for the acknowledgement of
//! a command. The client that reads and writes the socket performs them.

use vstd::prelude::*;
use crate::json::json_null;
use crate::protocol::{Frame, GatewayEvent, PongFrame, ServerCapabilities, ServerWelcome, PROTOCOL_VERSION};
use crate::text::{concat2, decimal_u64, owned, spec_decimal, str_equal};

verus! {

/// The client's request counter: the number of its next request.
pub struct RequestCounter {
    pub next: u64,
}

impl RequestCounter {
    /// A counter that starts at request 1.
    pub fn new() -> (res: Self)
        ensures
            res.next == 1,
    {
        RequestCounter { next: 1 }
    }

    /// The id of the next request, `req-` and its number.
    pub fn next_request_id(&mut self) -> (res: String)
        requires
            old(self).next < u64::MAX,
        ensures
            res@ == "req-"@ + spec_decimal(old(self).next as nat),
            final(self).next == old(self).next + 1,
    {
        let id = concat2("req-", decimal_u64(self.next).as_str());
        self.next = self.next + 1;
        id
    }
}

/// The welcome a client assumes until the server's arrives.
pub fn default_welcome() -> (res: ServerWelcome)
    ensures
        res.protocol_version == PROTOCOL_VERSION,
        res.connection_id@.len() == 0 && res.server_name@.len() == 0 && res.server_version@.len() == 0,
        res.host_id is None && res.heartbeat_interval_ms is None && res.resync_reason is None,
        !res.resync_required,
{
    ServerWelcome {
        protocol_version: PROTOCOL_VERSION,
        connection_id: String::new(),
        server_name: String::new(),
        server_version: String::new(),
        host_id: None,
        capabilities: ServerCapabilities::default(),
        heartbeat_interval_ms: None,
        resync_required: false,
        resync_reason: None,
    }
}

/// What a frame that arrives after the hello leads to.
#[derive(Debug)]
pub enum ConnectStep {
    Welcomed(ServerWelcome),
    /// The server refused the hello.
    Refused { code: String, message: String },
    Skip,
}

/// A welcome ends the handshake; an error frame refuses it; anything else
/// is skipped.
pub fn connect_step(frame: Frame) -> (res: ConnectStep)
    ensures
        match frame {
            Frame::Welcome(w) => res matches ConnectStep::Welcomed(x) && x == w,
            Frame::Error(e) => res matches ConnectStep::Refused { code, message } && code@ == e.code@ && message@
                == e.message@,
            _ => res is Skip,
        },
{
    match frame {
        Frame::Welcome(w) => ConnectStep::Welcomed(w),
        Frame::Error(e) => ConnectStep::Refused { code: e.code, message: e.message },
        _ => ConnectStep::Skip,
    }
}

/// What a frame that arrives while a command awaits its acknowledgement
/// leads to.
#[derive(Debug)]
pub enum CallStep {
    /// The command succeeded with this result.
    Answered(serde_json::Value),
    /// The command, or the connection, failed.
    Failed { code: String, message: String },
    /// An event to keep for the caller.
    Event(GatewayEvent),
    /// A frame to send back.
    Reply(Frame),
    Skip,
}

/// Sorts a frame that arrived while command `request_id` awaits its
/// acknowledgement: its acknowledgement answers it (a missing result reads
/// as `null`; a failure without a body is `unknown` / `request failed`);
/// events are kept; a ping is answered with a pong carrying its nonce; an
/// error frame fails the call; anything else is skipped.
pub fn call_step(frame: Frame, request_id: &str) -> (res: CallStep)
    ensures
        match frame {
            Frame::Ack(ack) => if ack.request_id@ == request_id@ {
                if ack.ok {
                    res is Answered && (ack.result matches Some(v) ==> res == CallStep::Answered(v))
                } else {
                    res matches CallStep::Failed { code, message } && match ack.error {
                        Some(e) => code@ == e.code@ && message@ == e.message@,
                        None => code@ == "unknown"@ && message@ == "request failed"@,
                    }
                }
            } else {
                res is Skip
            },
            Frame::Event(e) => res == CallStep::Event(e),
            Frame::Ping(p) => res matches CallStep::Reply(Frame::Pong(pong)) && pong.protocol_version == PROTOCOL_VERSION
                && pong.nonce == p.nonce,
            Frame::Error(e) => res matches CallStep::Failed { code, message } && code@ == e.code@ && message@
                == e.message@,
            _ => res is Skip,
        },
{
    match frame {
        Frame::Ack(ack) => {
            if !str_equal(ack.request_id.as_str(), request_id) {
                return CallStep::Skip;
            }
            if ack.ok {
                match ack.result {
                    Some(v) => CallStep::Answered(v),
                    None => CallStep::Answered(json_null()),
                }
            } else {
                match ack.error {
                    Some(e) => CallStep::Failed { code: e.code, message: e.message },
                    None => CallStep::Failed { code: owned("unknown"), message: owned("request failed") },
                }
            }
        },
        Frame::Event(e) => CallStep::Event(e),
        Frame::Ping(p) => CallStep::Reply(Frame::Pong(PongFrame { protocol_version: PROTOCOL_VERSION, nonce: p.nonce })),
        Frame::Error(e) => CallStep::Failed { code: e.code, message: e.message },
        _ => CallStep::Skip,
    }
}

} // verus!
