//! JSON-RPC 2.0 envelopes as ACP frames them: telling a request, a
//! notification and a response apart, reading their ids, and routing what
//! the agent sends to the host by method.

use vstd::prelude::*;
use crate::acp_client::RequestId;
use crate::json::json_null;
use crate::text::{concat2, owned, str_equal};
use crate::transport::WireError;

verus! {

/// A JSON-RPC error object.
#[derive(Debug)]
pub struct RpcError {
    pub code: i32,
    pub message: String,
    pub data: Option<serde_json::Value>,
}

/// What a frame holds under a member that should be text.
#[derive(Debug)]
pub enum TextMember {
    Absent,
    Text(String),
    /// Present, but not a string.
    Other,
}

/// What a frame holds under `id`.
#[derive(Debug)]
pub enum IdMember {
    Absent,
    Null,
    /// A number that fits a signed 64-bit integer.
    Integer(i64),
    /// Any other number.
    OtherNumber,
    Text(String),
    /// A boolean, array or object.
    Other,
}

/// The members of a frame that tell what it is.
#[derive(Debug)]
pub struct Envelope {
    pub jsonrpc: TextMember,
    pub method: TextMember,
    pub id: IdMember,
    pub params: Option<serde_json::Value>,
    pub error: Option<serde_json::Value>,
    pub result: Option<serde_json::Value>,
}

/// A frame, told apart by its members.
#[derive(Debug)]
pub enum RpcFrame {
    Request { id: RequestId, method: String, params: Option<serde_json::Value> },
    Notification { method: String, params: Option<serde_json::Value> },
    /// A successful response; a missing result reads as `null`.
    Success { id: RequestId, result: Option<serde_json::Value> },
    /// An error response, with its error object still to decode.
    Failure { id: RequestId, error: serde_json::Value },
}

/// A frame with its error object decoded.
#[derive(Debug)]
pub enum RawMessage {
    Request { id: RequestId, method: String, params: Option<serde_json::Value> },
    Notification { method: String, params: Option<serde_json::Value> },
    Response { id: RequestId, outcome: Result<serde_json::Value, RpcError> },
}

/// `e` is a malformed-frame error with message `m`.
pub open spec fn malformed(e: WireError, m: Seq<char>) -> bool {
    e matches WireError::Malformed(s) && s@ == m
}

/// The request id `id` reads as, where it is a valid one.
pub open spec fn id_of(id: IdMember, res: RequestId) -> bool {
    match id {
        IdMember::Null => res is Null,
        IdMember::Integer(n) => res matches RequestId::Number(k) && k == n,
        IdMember::Text(s) => res matches RequestId::Str(t) && t@ == s@,
        _ => false,
    }
}

/// Reads a request id: a string, an integer or `null`.
pub fn parse_request_id(id: &IdMember) -> (res: Result<RequestId, WireError>)
    ensures
        match *id {
            IdMember::OtherNumber => res matches Err(e) && malformed(e, "request id is not an integer"@),
            IdMember::Other | IdMember::Absent => res matches Err(e) && malformed(
                e,
                "request id must be a string, integer, or null"@,
            ),
            _ => res matches Ok(r) && id_of(*id, r),
        },
{
    match id {
        IdMember::Null => Ok(RequestId::Null),
        IdMember::Integer(n) => Ok(RequestId::Number(*n)),
        IdMember::Text(s) => Ok(RequestId::Str(s.clone())),
        IdMember::OtherNumber => Err(WireError::Malformed(owned("request id is not an integer"))),
        IdMember::Other | IdMember::Absent => Err(
            WireError::Malformed(owned("request id must be a string, integer, or null")),
        ),
    }
}

/// Tells what an envelope is. The `jsonrpc` member must be the string
/// `2.0`. A frame with a string `method` is a request when it carries an id
/// that is not `null`, else a notification. Otherwise a frame with an `id`
/// is a response: an error response when it has an `error` member.
pub fn classify_envelope(envelope: Envelope) -> (res: Result<RpcFrame, WireError>)
    ensures
        match envelope.jsonrpc {
            TextMember::Text(v) => if v@ != "2.0"@ {
                res matches Err(e) && malformed(e, "unsupported jsonrpc version: "@ + v@)
            } else {
                match envelope.method {
                    TextMember::Text(m) => match envelope.id {
                        IdMember::Absent | IdMember::Null => res matches Ok(RpcFrame::Notification { method, params })
                            && method@ == m@ && params == envelope.params,
                        IdMember::OtherNumber => res matches Err(e) && malformed(e, "request id is not an integer"@),
                        IdMember::Other => res matches Err(e) && malformed(
                            e,
                            "request id must be a string, integer, or null"@,
                        ),
                        _ => res matches Ok(RpcFrame::Request { id, method, params }) && id_of(envelope.id, id)
                            && method@ == m@ && params == envelope.params,
                    },
                    _ => match envelope.id {
                        IdMember::Absent => res matches Err(e) && malformed(
                            e,
                            "frame is neither a request, response, nor notification"@,
                        ),
                        IdMember::OtherNumber => res matches Err(e) && malformed(e, "request id is not an integer"@),
                        IdMember::Other => res matches Err(e) && malformed(
                            e,
                            "request id must be a string, integer, or null"@,
                        ),
                        _ => match envelope.error {
                            Some(error) => res matches Ok(RpcFrame::Failure { id, error: x }) && id_of(envelope.id, id)
                                && x == error,
                            None => res matches Ok(RpcFrame::Success { id, result }) && id_of(envelope.id, id)
                                && result == envelope.result,
                        },
                    },
                }
            },
            _ => res matches Err(e) && malformed(e, "missing required jsonrpc field"@),
        },
{
    proof {
        reveal_strlit("2.0");
    }
    match &envelope.jsonrpc {
        TextMember::Text(v) => {
            if !str_equal(v.as_str(), "2.0") {
                return Err(WireError::Malformed(concat2("unsupported jsonrpc version: ", v.as_str())));
            }
        },
        _ => return Err(WireError::Malformed(owned("missing required jsonrpc field"))),
    }
    let Envelope { jsonrpc: _, method, id, params, error, result } = envelope;
    match method {
        TextMember::Text(m) => {
            match id {
                IdMember::Absent | IdMember::Null => Ok(RpcFrame::Notification { method: m, params }),
                _ => {
                    let request_id = parse_request_id(&id)?;
                    Ok(RpcFrame::Request { id: request_id, method: m, params })
                },
            }
        },
        _ => {
            match id {
                IdMember::Absent => Err(
                    WireError::Malformed(owned("frame is neither a request, response, nor notification")),
                ),
                _ => {
                    let request_id = parse_request_id(&id)?;
                    match error {
                        Some(e) => Ok(RpcFrame::Failure { id: request_id, error: e }),
                        None => Ok(RpcFrame::Success { id: request_id, result }),
                    }
                },
            }
        },
    }
}

/// Whether `line` is JSON text.
pub uninterp spec fn json_parses(line: Seq<char>) -> bool;

/// Whether `line` is JSON text holding an object.
pub uninterp spec fn json_object_text(line: Seq<char>) -> bool;

/// What the JSON object in `line` holds under `key` where text is expected.
pub uninterp spec fn json_text_member(line: Seq<char>, key: Seq<char>) -> TextMember;

/// What the JSON object in `line` holds under `key` where a request id is
/// expected.
pub uninterp spec fn json_id_member(line: Seq<char>, key: Seq<char>) -> IdMember;

/// Whether the JSON object in `line` has a member `key`.
pub uninterp spec fn json_has_member(line: Seq<char>, key: Seq<char>) -> bool;

/// Parses `line` as JSON and tells whether it holds an object.
///
/// Calls `serde_json::from_str` into a `serde_json::Value`, then
/// `Value::is_object`. The contract claims that the parse succeeds exactly
/// when the text is JSON, and that the answer depends on the text alone.
#[verifier::external_body]
fn parse_json(line: &str) -> (res: Result<bool, String>)
    ensures
        res is Ok <==> json_parses(line@),
        res matches Ok(b) ==> b == json_object_text(line@),
{
    serde_json::from_str::<serde_json::Value>(line).map(|value| value.is_object()).map_err(|error| error.to_string())
}

/// What the JSON object in `line` holds under `key` where text is expected:
/// nothing, a string, or something else.
///
/// Calls `serde_json::from_str` and `Value::get`, and tells the variants of
/// `serde_json::Value` apart, one arm each; the answer depends on the text
/// and the key alone.
#[verifier::external_body]
fn text_member(line: &str, key: &str) -> (res: TextMember)
    ensures
        res == json_text_member(line@, key@),
{
    match serde_json::from_str::<serde_json::Value>(line).ok().and_then(|v| v.get(key).cloned()) {
        None => TextMember::Absent,
        Some(serde_json::Value::String(s)) => TextMember::Text(s),
        Some(_) => TextMember::Other,
    }
}

/// What the JSON object in `line` holds under `key` where a request id is
/// expected.
///
/// Calls `serde_json::from_str` and `Value::get`, tells the variants of
/// `serde_json::Value` apart, one arm each, a number by
/// `serde_json::Number::as_i64`; the answer depends on the text and the key
/// alone.
#[verifier::external_body]
fn id_member(line: &str, key: &str) -> (res: IdMember)
    ensures
        res == json_id_member(line@, key@),
{
    match serde_json::from_str::<serde_json::Value>(line).ok().and_then(|v| v.get(key).cloned()) {
        None => IdMember::Absent,
        Some(serde_json::Value::Null) => IdMember::Null,
        Some(serde_json::Value::Number(n)) => match n.as_i64() {
            Some(i) => IdMember::Integer(i),
            None => IdMember::OtherNumber,
        },
        Some(serde_json::Value::String(s)) => IdMember::Text(s),
        Some(_) => IdMember::Other,
    }
}

/// The members `key` of the JSON object in `line`, copied; `None` where it
/// has none.
///
/// Calls `serde_json::from_str` and `Value::get`, and clones what it finds.
/// Whether a member is there depends on the text and the key alone; the
/// value is opaque here.
#[verifier::external_body]
fn json_member(line: &str, key: &str) -> (res: Option<serde_json::Value>)
    ensures
        res is Some == json_has_member(line@, key@),
{
    serde_json::from_str::<serde_json::Value>(line).ok().and_then(|v| v.get(key).cloned())
}

/// Decodes a JSON-RPC error object.
///
/// Calls `serde_json::from_value` into the schema's `Error`; the value is
/// opaque here, so nothing is stated of the outcome.
#[verifier::external_body]
fn decode_rpc_error(value: serde_json::Value) -> (res: Result<RpcError, String>) {
    match serde_json::from_value::<agent_client_protocol_schema::v1::Error>(value) {
        Ok(error) => Ok(RpcError { code: i32::from(error.code), message: error.message, data: error.data }),
        Err(error) => Err(error.to_string()),
    }
}

/// A JSON value as pretty text.
///
/// Calls `serde_json::to_string_pretty`, and `to_string` should that fail;
/// the value is opaque here, so nothing is stated of the text.
#[verifier::external_body]
fn json_pretty(value: &serde_json::Value) -> (res: String) {
    serde_json::to_string_pretty(value).unwrap_or_else(|_| value.to_string())
}

/// The text a JSON-RPC error opens with: its message, or its code when
/// the message is empty.
pub open spec fn rpc_error_head(error: RpcError) -> Seq<char> {
    if error.message@.len() == 0 {
        crate::acp_client::signed_decimal(error.code as int)
    } else {
        error.message@
    }
}

/// The text of a JSON-RPC error: [`rpc_error_head`], followed by `: ` and
/// its data as pretty JSON when it has any.
pub fn rpc_error_text(error: &RpcError) -> (res: String)
    ensures
        error.data is None ==> res@ == rpc_error_head(*error),
        error.data is Some ==> res@.len() >= rpc_error_head(*error).len() + 2 && res@.subrange(
            0,
            rpc_error_head(*error).len() + 2int,
        ) == rpc_error_head(*error) + ": "@,
{
    proof {
        reveal_strlit(": ");
    }
    let mut text = if error.message.as_str().unicode_len() == 0 {
        crate::acp_client::decimal_i64(error.code as i64)
    } else {
        error.message.clone()
    };
    match &error.data {
        Some(data) => {
            let ghost head = text@;
            let pretty = json_pretty(data);
            text.append(": ");
            text.append(pretty.as_str());
            assert(text@ == head + ": "@ + pretty@);
            assert(text@.subrange(0, head.len() + 2int) =~= head + ": "@);
        },
        None => {},
    }
    text
}

/// What classifying a JSON object gives, from the members that tell it
/// apart: its `jsonrpc`, `method` and `id` members, and whether it has
/// `params` and `error` members. The outcome is that of
/// [`classify_envelope`]; an error response whose error object does not
/// decode is a JSON error.
pub open spec fn envelope_classified(
    jsonrpc: TextMember,
    method: TextMember,
    id: IdMember,
    has_params: bool,
    has_error: bool,
    res: Result<RawMessage, WireError>,
) -> bool {
    match jsonrpc {
        TextMember::Text(v) => if v@ != "2.0"@ {
            res matches Err(e) && malformed(e, "unsupported jsonrpc version: "@ + v@)
        } else {
            match id {
                IdMember::OtherNumber => res matches Err(e) && malformed(e, "request id is not an integer"@),
                IdMember::Other => res matches Err(e) && malformed(e, "request id must be a string, integer, or null"@),
                _ => match method {
                    TextMember::Text(m) => match id {
                        IdMember::Absent | IdMember::Null => res matches Ok(
                            RawMessage::Notification { method: n, params },
                        ) && n@ == m@ && (params is Some == has_params),
                        _ => res matches Ok(RawMessage::Request { id: r, method: n, params }) && id_of(id, r) && n@
                            == m@ && (params is Some == has_params),
                    },
                    _ => match id {
                        IdMember::Absent => res matches Err(e) && malformed(
                            e,
                            "frame is neither a request, response, nor notification"@,
                        ),
                        _ => if has_error {
                            (res matches Ok(RawMessage::Response { id: r, outcome }) && id_of(id, r) && outcome is Err)
                                || res matches Err(WireError::Json(_))
                        } else {
                            res matches Ok(RawMessage::Response { id: r, outcome }) && id_of(id, r) && outcome is Ok
                        },
                    },
                },
            }
        },
        _ => res matches Err(e) && malformed(e, "missing required jsonrpc field"@),
    }
}

/// What classifying the frame `line` gives: text that is not JSON is a
/// JSON error, a value that is not an object is malformed, and an object
/// is told apart by its members.
pub open spec fn classified(line: Seq<char>, res: Result<RawMessage, WireError>) -> bool {
    if !json_parses(line) {
        res matches Err(WireError::Json(_))
    } else if !json_object_text(line) {
        res matches Err(e) && malformed(e, "frame is not a JSON object"@)
    } else {
        envelope_classified(
            json_text_member(line, "jsonrpc"@),
            json_text_member(line, "method"@),
            json_id_member(line, "id"@),
            json_has_member(line, "params"@),
            json_has_member(line, "error"@),
            res,
        )
    }
}

/// Classifies one newline-delimited JSON-RPC 2.0 frame: text that is not
/// JSON is a JSON error, a value that is not an object is malformed, and an
/// object is told apart by [`classify_envelope`]; an error response's error
/// object is decoded.
pub fn classify(line: &str) -> (res: Result<RawMessage, WireError>)
    ensures
        classified(line@, res),
{
    let is_object = match parse_json(line) {
        Ok(b) => b,
        Err(message) => return Err(WireError::Json(message)),
    };
    if !is_object {
        return Err(WireError::Malformed(owned("frame is not a JSON object")));
    }
    let envelope = Envelope {
        jsonrpc: text_member(line, "jsonrpc"),
        method: text_member(line, "method"),
        id: id_member(line, "id"),
        params: json_member(line, "params"),
        error: json_member(line, "error"),
        result: json_member(line, "result"),
    };
    match classify_envelope(envelope)? {
        RpcFrame::Request { id, method, params } => Ok(RawMessage::Request { id, method, params }),
        RpcFrame::Notification { method, params } => Ok(RawMessage::Notification { method, params }),
        RpcFrame::Success { id, result } => {
            let value = match result {
                Some(v) => v,
                None => json_null(),
            };
            Ok(RawMessage::Response { id, outcome: Ok(value) })
        },
        RpcFrame::Failure { id, error } => match decode_rpc_error(error) {
            Ok(e) => Ok(RawMessage::Response { id, outcome: Err(e) }),
            Err(message) => Err(WireError::Json(message)),
        },
    }
}

/// What the agent sends the host, routed by method; the parameters of the
/// routed kinds are still to decode.
#[derive(Debug)]
pub enum Inbound {
    /// `session/request_permission`, identified by its envelope id.
    PermissionRequest { id: RequestId, params: Option<serde_json::Value> },
    /// Another request, which the host answers rather than drops.
    OtherRequest { id: RequestId, method: String, params: Option<serde_json::Value> },
    /// `session/update`.
    SessionUpdate { params: Option<serde_json::Value> },
    /// `$/cancel_request`.
    CancelRequest { params: Option<serde_json::Value> },
    OtherNotification { method: String, params: Option<serde_json::Value> },
    Response { id: RequestId, outcome: Result<serde_json::Value, RpcError> },
}

/// `res` is `message` routed by its method.
pub open spec fn routed(message: RawMessage, res: Inbound) -> bool {
    match message {
        RawMessage::Request { id, method, params } => if method@ == "session/request_permission"@ {
            res matches Inbound::PermissionRequest { id: i, params: p } && i == id && p == params
        } else {
            res matches Inbound::OtherRequest { id: i, method: m, params: p } && i == id && m@ == method@
                && p == params
        },
        RawMessage::Notification { method, params } => if method@ == "session/update"@ {
            res matches Inbound::SessionUpdate { params: p } && p == params
        } else if method@ == "$/cancel_request"@ {
            res matches Inbound::CancelRequest { params: p } && p == params
        } else {
            res matches Inbound::OtherNotification { method: m, params: p } && m@ == method@ && p == params
        },
        RawMessage::Response { id, outcome } => res matches Inbound::Response { id: i, outcome: o } && i == id
            && o == outcome,
    }
}

/// Routes a classified frame by its method.
pub fn route_inbound(message: RawMessage) -> (res: Inbound)
    ensures
        routed(message, res),
{
    match message {
        RawMessage::Request { id, method, params } => {
            if str_equal(method.as_str(), "session/request_permission") {
                Inbound::PermissionRequest { id, params }
            } else {
                Inbound::OtherRequest { id, method, params }
            }
        },
        RawMessage::Notification { method, params } => {
            if str_equal(method.as_str(), "session/update") {
                Inbound::SessionUpdate { params }
            } else if str_equal(method.as_str(), "$/cancel_request") {
                Inbound::CancelRequest { params }
            } else {
                Inbound::OtherNotification { method, params }
            }
        },
        RawMessage::Response { id, outcome } => Inbound::Response { id, outcome },
    }
}

/// Classifies and routes one frame the agent sent the host.
pub fn classify_inbound(line: &str) -> (res: Result<Inbound, WireError>)
    ensures
        match res {
            Ok(inbound) => exists|message: RawMessage| classified(line@, Ok(message)) && routed(message, inbound),
            Err(e) => classified(line@, Err(e)),
        },
{
    let message = match classify(line) {
        Ok(m) => m,
        Err(e) => return Err(e),
    };
    let ghost m = message;
    let inbound = route_inbound(message);
    assert(classified(line@, Ok(m)) && routed(m, inbound));
    Ok(inbound)
}

} // verus!
