//! The `gateway-v1` wire contract between the host and native clients:
//! protocol errors and their stable codes, and the frames exchanged on a
//! connection.

use vstd::prelude::*;
use crate::text::{concat2, owned};

verus! {

/// The gateway protocol version this host speaks.
pub const PROTOCOL_VERSION: u32 = 1;

/// An error the gateway reports to a client.
#[derive(Debug, Clone, PartialEq, Eq)]
pub enum ProtocolError {
    MalformedFrame(String),
    InvalidVersion { requested: u32, supported: u32 },
    Unauthenticated(String),
    Unauthorized(String),
    UnknownSession(String),
    UnsupportedCapability(String),
    ResyncRequired(String),
    UnsupportedCommand(String),
    InvalidParams(String),
    InvalidFrame(String),
    Internal(String),
}

/// The stable code of an error.
pub open spec fn spec_code(e: ProtocolError) -> Seq<char> {
    match e {
        ProtocolError::MalformedFrame(_) => "malformed_frame"@,
        ProtocolError::InvalidVersion { .. } => "invalid_version"@,
        ProtocolError::Unauthenticated(_) => "unauthenticated"@,
        ProtocolError::Unauthorized(_) => "unauthorized"@,
        ProtocolError::UnknownSession(_) => "unknown_session"@,
        ProtocolError::UnsupportedCapability(_) => "unsupported_capability"@,
        ProtocolError::ResyncRequired(_) => "resync_required"@,
        ProtocolError::UnsupportedCommand(_) => "unsupported"@,
        ProtocolError::InvalidParams(_) => "invalid_params"@,
        ProtocolError::InvalidFrame(_) => "invalid_command"@,
        ProtocolError::Internal(_) => "internal"@,
    }
}

/// The human-readable message of an error.
pub open spec fn spec_message(e: ProtocolError) -> Seq<char> {
    match e {
        ProtocolError::MalformedFrame(s) => "malformed frame: "@ + s@,
        ProtocolError::InvalidVersion { requested, supported } =>
            "unsupported protocol version "@ + crate::text::spec_decimal(requested as nat)
                + "; supported version is "@ + crate::text::spec_decimal(supported as nat),
        ProtocolError::Unauthenticated(s) => "authentication failed: "@ + s@,
        ProtocolError::Unauthorized(s) => "not authorized: "@ + s@,
        ProtocolError::UnknownSession(s) => "unknown session: "@ + s@,
        ProtocolError::UnsupportedCapability(s) => "agent does not support "@ + s@,
        ProtocolError::ResyncRequired(s) => "resync required: "@ + s@,
        ProtocolError::UnsupportedCommand(s) => "unsupported command: "@ + s@,
        ProtocolError::InvalidParams(s) => "invalid params: "@ + s@,
        ProtocolError::InvalidFrame(s) => "invalid frame: "@ + s@,
        ProtocolError::Internal(s) => "internal error: "@ + s@,
    }
}

/// Only internal errors are worth retrying.
pub open spec fn spec_retryable(e: ProtocolError) -> bool {
    e is Internal
}

impl ProtocolError {
    pub fn code(&self) -> (res: &'static str)
        ensures
            res@ == spec_code(*self),
    {
        match self {
            ProtocolError::MalformedFrame(_) => crate::error_code::MALFORMED_FRAME,
            ProtocolError::InvalidVersion { .. } => crate::error_code::INVALID_VERSION,
            ProtocolError::Unauthenticated(_) => crate::error_code::UNAUTHENTICATED,
            ProtocolError::Unauthorized(_) => crate::error_code::UNAUTHORIZED,
            ProtocolError::UnknownSession(_) => crate::error_code::UNKNOWN_SESSION,
            ProtocolError::UnsupportedCapability(_) => crate::error_code::UNSUPPORTED_CAPABILITY,
            ProtocolError::ResyncRequired(_) => crate::error_code::RESYNC_REQUIRED,
            ProtocolError::UnsupportedCommand(_) => crate::error_code::UNSUPPORTED,
            ProtocolError::InvalidParams(_) => crate::error_code::INVALID_PARAMS,
            ProtocolError::InvalidFrame(_) => crate::error_code::INVALID_COMMAND,
            ProtocolError::Internal(_) => crate::error_code::INTERNAL,
        }
    }

    pub fn retryable(&self) -> (res: bool)
        ensures
            res == spec_retryable(*self),
    {
        matches!(self, ProtocolError::Internal(_))
    }

    /// The error's message, as its `Display` form renders it.
    pub fn message(&self) -> (res: String)
        ensures
            res@ == spec_message(*self),
    {
        match self {
            ProtocolError::MalformedFrame(s) => concat2("malformed frame: ", s.as_str()),
            ProtocolError::InvalidVersion { requested, supported } => {
                let mut res = owned("unsupported protocol version ");
                res.append(crate::text::decimal_u64(*requested as u64).as_str());
                res.append("; supported version is ");
                res.append(crate::text::decimal_u64(*supported as u64).as_str());
                res
            },
            ProtocolError::Unauthenticated(s) => concat2("authentication failed: ", s.as_str()),
            ProtocolError::Unauthorized(s) => concat2("not authorized: ", s.as_str()),
            ProtocolError::UnknownSession(s) => concat2("unknown session: ", s.as_str()),
            ProtocolError::UnsupportedCapability(s) => concat2("agent does not support ", s.as_str()),
            ProtocolError::ResyncRequired(s) => concat2("resync required: ", s.as_str()),
            ProtocolError::UnsupportedCommand(s) => concat2("unsupported command: ", s.as_str()),
            ProtocolError::InvalidParams(s) => concat2("invalid params: ", s.as_str()),
            ProtocolError::InvalidFrame(s) => concat2("invalid frame: ", s.as_str()),
            ProtocolError::Internal(s) => concat2("internal error: ", s.as_str()),
        }
    }

    /// The error body carried by a failed acknowledgement.
    pub fn body(&self) -> (res: GatewayErrorBody)
        ensures
            res.code@ == spec_code(*self),
            res.message@ == spec_message(*self),
            res.retryable == spec_retryable(*self),
    {
        GatewayErrorBody { code: owned(self.code()), message: self.message(), retryable: self.retryable() }
    }

    /// The error frame sent for a failure outside any command.
    pub fn to_wire(&self, request_id: Option<String>) -> (res: GatewayProtocolError)
        ensures
            res.protocol_version == PROTOCOL_VERSION,
            res.code@ == spec_code(*self),
            res.message@ == spec_message(*self),
            res.request_id == request_id,
            res.retryable == spec_retryable(*self),
    {
        GatewayProtocolError {
            protocol_version: PROTOCOL_VERSION,
            code: owned(self.code()),
            message: self.message(),
            request_id,
            retryable: self.retryable(),
        }
    }
}

/// The error carried by a failed acknowledgement.
#[derive(Debug, Clone, PartialEq, Eq)]
pub struct GatewayErrorBody {
    pub code: String,
    pub message: String,
    pub retryable: bool,
}

#[derive(Debug, Clone, PartialEq, Eq)]
pub struct ResumeRequest {
    pub session_id: Option<String>,
    pub last_event_sequence: Option<u64>,
}

/// The first frame a client sends.
#[derive(Debug, Clone, PartialEq, Eq)]
pub struct ClientHello {
    pub protocol_version: u32,
    pub client_id: String,
    pub client_name: String,
    pub client_version: String,
    pub device_id: Option<String>,
    pub credential: Option<String>,
    pub resume: Option<ResumeRequest>,
}

/// The protocol version a hello that omits it declares.
pub fn default_protocol_version() -> (res: u32)
    ensures
        res == PROTOCOL_VERSION,
{
    PROTOCOL_VERSION
}

/// The client name a hello that omits it declares.
pub fn default_client_name() -> (res: String)
    ensures
        res@ == "unknown"@,
{
    owned("unknown")
}

/// The client version a hello that omits it declares.
pub fn default_client_version() -> (res: String)
    ensures
        res@ == "0"@,
{
    owned("0")
}

/// What the server offers on a connection.
#[derive(Debug, Clone, PartialEq, Eq)]
pub struct ServerCapabilities {
    pub supports_replay: bool,
    pub max_replay_events: Option<usize>,
    pub max_event_journal: Option<usize>,
    pub supports_raw_acp: bool,
    pub permission_options: bool,
    pub host_admin: bool,
}

impl Default for ServerCapabilities {
    fn default() -> (res: Self)
        ensures
            res.supports_replay,
            res.max_replay_events is None,
            res.max_event_journal is None,
            !res.supports_raw_acp,
            res.permission_options,
            res.host_admin,
    {
        ServerCapabilities {
            supports_replay: true,
            max_replay_events: None,
            max_event_journal: None,
            supports_raw_acp: false,
            permission_options: true,
            host_admin: true,
        }
    }
}

/// The server's answer to an accepted hello.
#[derive(Debug, Clone, PartialEq, Eq)]
pub struct ServerWelcome {
    pub protocol_version: u32,
    pub connection_id: String,
    pub server_name: String,
    pub server_version: String,
    pub host_id: Option<String>,
    pub capabilities: ServerCapabilities,
    pub heartbeat_interval_ms: Option<u64>,
    pub resync_required: bool,
    pub resync_reason: Option<String>,
}

/// A command a client sends.
#[derive(Debug)]
pub struct GatewayCommand {
    pub protocol_version: u32,
    pub request_id: String,
    pub command: String,
    pub session_id: Option<String>,
    pub params: Option<serde_json::Value>,
}

impl GatewayCommand {
    pub fn new(request_id: &str, command: &str) -> (res: Self)
        ensures
            res.protocol_version == PROTOCOL_VERSION,
            res.request_id@ == request_id@,
            res.command@ == command@,
            res.session_id is None,
            res.params is None,
    {
        GatewayCommand {
            protocol_version: PROTOCOL_VERSION,
            request_id: owned(request_id),
            command: owned(command),
            session_id: None,
            params: None,
        }
    }

    pub fn for_session(self, session_id: &str) -> (res: Self)
        ensures
            res.session_id matches Some(s) && s@ == session_id@,
            res.protocol_version == self.protocol_version,
            res.request_id == self.request_id,
            res.command == self.command,
            res.params == self.params,
    {
        let mut command = self;
        command.session_id = Some(owned(session_id));
        command
    }
}

/// The acknowledgement of a command: a result or an error.
#[derive(Debug)]
pub struct GatewayAck {
    pub protocol_version: u32,
    pub request_id: String,
    pub ok: bool,
    pub result: Option<serde_json::Value>,
    pub error: Option<GatewayErrorBody>,
}

impl GatewayAck {
    /// A successful acknowledgement carrying `result`.
    pub fn with_result(request_id: &str, result: Option<serde_json::Value>) -> (res: Self)
        ensures
            res.protocol_version == PROTOCOL_VERSION,
            res.request_id@ == request_id@,
            res.ok,
            res.result == result,
            res.error is None,
    {
        GatewayAck { protocol_version: PROTOCOL_VERSION, request_id: owned(request_id), ok: true, result, error: None }
    }

    /// A failed acknowledgement carrying `body`.
    pub fn error(request_id: &str, body: GatewayErrorBody) -> (res: Self)
        ensures
            res.protocol_version == PROTOCOL_VERSION,
            res.request_id@ == request_id@,
            !res.ok,
            res.result is None,
            res.error == Some(body),
    {
        GatewayAck { protocol_version: PROTOCOL_VERSION, request_id: owned(request_id), ok: false, result: None, error: Some(body) }
    }
}

/// A session event delivered to a client.
#[derive(Debug)]
pub struct GatewayEvent {
    pub protocol_version: u32,
    pub session_id: String,
    pub sequence: u64,
    pub event: String,
    pub at: Option<String>,
    pub payload: Option<serde_json::Value>,
}

#[derive(Debug, Clone, PartialEq, Eq)]
pub struct PingFrame {
    pub protocol_version: u32,
    pub nonce: String,
}

#[derive(Debug, Clone, PartialEq, Eq)]
pub struct PongFrame {
    pub protocol_version: u32,
    pub nonce: String,
}

#[derive(Debug, Clone, PartialEq, Eq)]
pub struct ResyncRequired {
    pub protocol_version: u32,
    pub reason: String,
    pub session_id: Option<String>,
    pub oldest_available_sequence: Option<u64>,
}

/// An error frame sent outside any command.
#[derive(Debug, Clone, PartialEq, Eq)]
pub struct GatewayProtocolError {
    pub protocol_version: u32,
    pub code: String,
    pub message: String,
    pub request_id: Option<String>,
    pub retryable: bool,
}

/// Any frame of the gateway protocol.
#[derive(Debug)]
pub enum Frame {
    Hello(ClientHello),
    Welcome(ServerWelcome),
    Command(GatewayCommand),
    Ack(GatewayAck),
    Event(GatewayEvent),
    Ping(PingFrame),
    Pong(PongFrame),
    ResyncRequired(ResyncRequired),
    Error(GatewayProtocolError),
}

/// The `type` tag of a frame.
pub open spec fn spec_frame_type(f: Frame) -> Seq<char> {
    match f {
        Frame::Hello(_) => "hello"@,
        Frame::Welcome(_) => "welcome"@,
        Frame::Command(_) => "command"@,
        Frame::Ack(_) => "ack"@,
        Frame::Event(_) => "event"@,
        Frame::Ping(_) => "ping"@,
        Frame::Pong(_) => "pong"@,
        Frame::ResyncRequired(_) => "resync_required"@,
        Frame::Error(_) => "error"@,
    }
}

impl Frame {
    pub fn frame_type(&self) -> (res: &'static str)
        ensures
            res@ == spec_frame_type(*self),
    {
        match self {
            Frame::Hello(_) => "hello",
            Frame::Welcome(_) => "welcome",
            Frame::Command(_) => "command",
            Frame::Ack(_) => "ack",
            Frame::Event(_) => "event",
            Frame::Ping(_) => "ping",
            Frame::Pong(_) => "pong",
            Frame::ResyncRequired(_) => "resync_required",
            Frame::Error(_) => "error",
        }
    }
}

} // verus!
