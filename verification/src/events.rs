//! Session events as the gateway streams them to clients.

use vstd::prelude::*;
use crate::json::json_unsigned_member;
use crate::protocol::{GatewayEvent, PROTOCOL_VERSION};
use crate::session_types::{event_name, SequencedEvent};
use crate::text::owned;
use crate::time::{rfc3339_from_ms, timestamp_text};

verus! {

/// The event that ends a replay.
pub const REPLAY_COMPLETE: &'static str = "replay.complete";
/// The event that reports a change of the host's status.
pub const HOST_STATUS_CHANGED: &'static str = "host.status_changed";

/// The gateway event of journal entry `sequenced` of session `session_id`:
/// its sequence, its event's name, its time, and `payload`, the event as
/// JSON.
pub fn gateway_event(session_id: &str, sequenced: &SequencedEvent, payload: serde_json::Value) -> (res: GatewayEvent)
    ensures
        res.protocol_version == PROTOCOL_VERSION,
        res.session_id@ == session_id@,
        res.sequence == sequenced.sequence,
        res.event@ == event_name(*sequenced.event),
        res.at matches Some(at) && at@ == timestamp_text(sequenced.timestamp_ms as int),
        res.payload == Some(payload),
{
    GatewayEvent {
        protocol_version: PROTOCOL_VERSION,
        session_id: owned(session_id),
        sequence: sequenced.sequence,
        event: owned(sequenced.event.name()),
        at: Some(rfc3339_from_ms(sequenced.timestamp_ms)),
        payload: Some(payload),
    }
}

/// The event that ends the replay of session `session_id` at
/// `latest_sequence`; its payload is `{"latest_sequence": ...}`.
pub fn replay_complete(session_id: &str, latest_sequence: u64) -> (res: GatewayEvent)
    ensures
        res.protocol_version == PROTOCOL_VERSION,
        res.session_id@ == session_id@,
        res.sequence == latest_sequence,
        res.event@ == "replay.complete"@,
        res.at is None,
        res.payload is Some,
{
    GatewayEvent {
        protocol_version: PROTOCOL_VERSION,
        session_id: owned(session_id),
        sequence: latest_sequence,
        event: owned(REPLAY_COMPLETE),
        at: None,
        payload: Some(json_unsigned_member("latest_sequence", latest_sequence)),
    }
}

} // verus!
