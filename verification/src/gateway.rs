//! The gateway connection's decisions: which scope a command needs, how a
//! device's scopes authorize it, how a connection answers each frame, and
//! how it remembers completed commands so a retried request id is answered
//! with the same acknowledgement instead of running twice.

use vstd::prelude::*;
use std::sync::Arc;
use crate::protocol::{
    spec_code, spec_message, spec_retryable, ClientHello, Frame, GatewayAck, GatewayCommand, PongFrame,
    ProtocolError, ServerCapabilities, ServerWelcome, PROTOCOL_VERSION,
};
use crate::text::{concat2, owned, str_equal};
use crate::session_types::SessionError;

verus! {

/// A permission a device can hold.
#[derive(Debug, Clone, Copy, PartialEq, Eq, Structural, PartialOrd, Ord, Hash)]
pub enum Scope {
    ReadSessions,
    SendInput,
    RespondPermission,
    CreateSession,
    ManageHost,
}

/// The name of a scope as its `Debug` form prints it.
pub open spec fn scope_debug(s: Scope) -> Seq<char> {
    match s {
        Scope::ReadSessions => "ReadSessions"@,
        Scope::SendInput => "SendInput"@,
        Scope::RespondPermission => "RespondPermission"@,
        Scope::CreateSession => "CreateSession"@,
        Scope::ManageHost => "ManageHost"@,
    }
}

impl Scope {
    pub fn debug_name(self) -> (res: &'static str)
        ensures
            res@ == scope_debug(self),
    {
        match self {
            Scope::ReadSessions => "ReadSessions",
            Scope::SendInput => "SendInput",
            Scope::RespondPermission => "RespondPermission",
            Scope::CreateSession => "CreateSession",
            Scope::ManageHost => "ManageHost",
        }
    }
}

/// An authenticated device and the scopes it holds.
#[derive(Debug, Clone)]
pub struct AuthContext {
    pub device_id: String,
    pub device_label: String,
    pub scopes: Vec<Scope>,
}

impl AuthContext {
    /// A device holding every scope.
    pub fn all(device_id: &str, device_label: &str) -> (res: Self)
        ensures
            res.device_id@ == device_id@,
            res.device_label@ == device_label@,
            forall|s: Scope| res.scopes@.contains(s),
    {
        let mut scopes: Vec<Scope> = Vec::new();
        scopes.push(Scope::ReadSessions);
        scopes.push(Scope::SendInput);
        scopes.push(Scope::RespondPermission);
        scopes.push(Scope::CreateSession);
        scopes.push(Scope::ManageHost);
        proof {
            assert forall|s: Scope| scopes@.contains(s) by {
                match s {
                    Scope::ReadSessions => assert(scopes@[0] == s),
                    Scope::SendInput => assert(scopes@[1] == s),
                    Scope::RespondPermission => assert(scopes@[2] == s),
                    Scope::CreateSession => assert(scopes@[3] == s),
                    Scope::ManageHost => assert(scopes@[4] == s),
                }
            }
        }
        AuthContext { device_id: owned(device_id), device_label: owned(device_label), scopes }
    }

    pub fn has(&self, scope: Scope) -> (res: bool)
        ensures
            res == self.scopes@.contains(scope),
    {
        let mut i: usize = 0;
        while i < self.scopes.len()
            invariant
                i <= self.scopes.len(),
                forall|j: int| 0 <= j < i ==> self.scopes@[j] != scope,
            decreases self.scopes.len() - i,
        {
            if self.scopes[i] == scope {
                return true;
            }
            i = i + 1;
        }
        false
    }
}

/// The scope a command requires; commands outside the contract need none
/// here (they are refused as unsupported when dispatched).
pub open spec fn required_scope(command: Seq<char>) -> Option<Scope> {
    if command == "session.list"@ || command == "session.working_directories"@
        || command == "session.attach"@ || command == "session.detach"@
        || command == "session.inspect"@ || command == "session.history"@
        || command == "session.resume"@ || command == "events.replay"@
        || command == "agent.sessions.list"@ {
        Some(Scope::ReadSessions)
    } else if command == "session.create"@ || command == "agent.sessions.import"@ {
        Some(Scope::CreateSession)
    } else if command == "session.input"@ || command == "session.cancel"@
        || command == "session.rename"@ || command == "session.archive"@
        || command == "session.set_mode"@ {
        Some(Scope::SendInput)
    } else if command == "session.permission.respond"@ {
        Some(Scope::RespondPermission)
    } else if command == "host.status"@ || command == "host.start"@ || command == "host.stop"@
        || command == "host.restart"@ || command == "host.configuration"@
        || command == "host.diagnostics"@ || command == "host.shutdown"@
        || command == "device.list"@ || command == "device.revoke"@
        || command == "pairing.create"@ || command == "pairing.list"@ {
        Some(Scope::ManageHost)
    } else {
        None
    }
}

fn any_of(command: &str, names: &[&str]) -> (res: bool)
    ensures
        res == exists|i: int| 0 <= i < names@.len() && #[trigger] names@[i]@ == command@,
{
    let mut i: usize = 0;
    while i < names.len()
        invariant
            i <= names@.len(),
            forall|j: int| 0 <= j < i ==> #[trigger] names@[j]@ != command@,
        decreases names.len() - i,
    {
        if str_equal(names[i], command) {
            return true;
        }
        i = i + 1;
    }
    false
}

/// The scope `command` requires.
pub fn scope_for(command: &str) -> (res: Option<Scope>)
    ensures
        res == required_scope(command@),
{
    let read = [
        crate::command_name::SESSION_LIST, crate::command_name::SESSION_WORKING_DIRECTORIES,
        crate::command_name::SESSION_ATTACH, crate::command_name::SESSION_DETACH,
        crate::command_name::SESSION_INSPECT, crate::command_name::SESSION_HISTORY,
        crate::command_name::SESSION_RESUME, crate::command_name::EVENTS_REPLAY,
        crate::command_name::AGENT_SESSIONS_LIST,
    ];
    let create = [crate::command_name::SESSION_CREATE, crate::command_name::AGENT_SESSION_IMPORT];
    let input = [
        crate::command_name::SESSION_INPUT, crate::command_name::SESSION_CANCEL,
        crate::command_name::SESSION_RENAME, crate::command_name::SESSION_ARCHIVE,
        crate::command_name::SESSION_SET_MODE,
    ];
    let manage = [
        crate::command_name::HOST_STATUS, crate::command_name::HOST_START,
        crate::command_name::HOST_STOP, crate::command_name::HOST_RESTART,
        crate::command_name::HOST_CONFIGURATION, crate::command_name::HOST_DIAGNOSTICS,
        crate::command_name::HOST_SHUTDOWN, crate::command_name::DEVICE_LIST,
        crate::command_name::DEVICE_REVOKE, crate::command_name::PAIRING_CREATE,
        crate::command_name::PAIRING_LIST,
    ];
    let r = any_of(command, &read);
    proof {
        if !r {
            assert(read@[0]@ != command@);
            assert(read@[1]@ != command@);
            assert(read@[2]@ != command@);
            assert(read@[3]@ != command@);
            assert(read@[4]@ != command@);
            assert(read@[5]@ != command@);
            assert(read@[6]@ != command@);
            assert(read@[7]@ != command@);
            assert(read@[8]@ != command@);
        }
    }
    if r {
        return Some(Scope::ReadSessions);
    }
    let c = any_of(command, &create);
    proof {
        if !c {
            assert(create@[0]@ != command@);
            assert(create@[1]@ != command@);
        }
    }
    if c {
        return Some(Scope::CreateSession);
    }
    let s = any_of(command, &input);
    proof {
        if !s {
            assert(input@[0]@ != command@);
            assert(input@[1]@ != command@);
            assert(input@[2]@ != command@);
            assert(input@[3]@ != command@);
            assert(input@[4]@ != command@);
        }
    }
    if s {
        return Some(Scope::SendInput);
    }
    if str_equal(command, crate::command_name::SESSION_PERMISSION_RESPOND) {
        return Some(Scope::RespondPermission);
    }
    let m = any_of(command, &manage);
    proof {
        if !m {
            assert(manage@[0]@ != command@);
            assert(manage@[1]@ != command@);
            assert(manage@[2]@ != command@);
            assert(manage@[3]@ != command@);
            assert(manage@[4]@ != command@);
            assert(manage@[5]@ != command@);
            assert(manage@[6]@ != command@);
            assert(manage@[7]@ != command@);
            assert(manage@[8]@ != command@);
            assert(manage@[9]@ != command@);
            assert(manage@[10]@ != command@);
        }
    }
    if m {
        return Some(Scope::ManageHost);
    }
    None
}

/// Whether `context` may run `command`: it holds the scope the command
/// requires, or the command requires none. A refusal names the command and
/// the missing scope.
pub fn authorize(context: &AuthContext, command: &str) -> (res: Result<(), ProtocolError>)
    ensures
        res is Ok <==> (match required_scope(command@) {
            Some(s) => context.scopes@.contains(s),
            None => true,
        }),
        res matches Err(e) ==> (e matches ProtocolError::Unauthorized(m)
            && m@ == command@ + " requires "@ + scope_debug(required_scope(command@).unwrap())),
{
    match scope_for(command) {
        Some(scope) => {
            if context.has(scope) {
                Ok(())
            } else {
                let mut message = concat2(command, " requires ");
                message.append(scope.debug_name());
                Err(ProtocolError::Unauthorized(message))
            }
        },
        None => Ok(()),
    }
}


/// How many completed commands a connection remembers.
pub const COMPLETED_COMMAND_LIMIT: usize = 256;

/// A completed command and the frame that answered it.
pub struct CompletedCommand {
    pub request_id: String,
    pub response: Arc<Frame>,
}

/// The completed commands of a connection, oldest first, each request id at
/// most once and never more than [`COMPLETED_COMMAND_LIMIT`] of them.
pub struct CommandCache {
    pub entries: Vec<CompletedCommand>,
}

/// The request ids in `entries` are pairwise distinct.
pub open spec fn distinct_ids(entries: Seq<CompletedCommand>) -> bool {
    forall|a: int, b: int| 0 <= a < b < entries.len() ==> #[trigger] entries[a].request_id@ != #[trigger] entries[b].request_id@
}

/// Whether `id` names a remembered command.
pub open spec fn remembers(entries: Seq<CompletedCommand>, id: Seq<char>) -> bool {
    exists|a: int| 0 <= a < entries.len() && #[trigger] entries[a].request_id@ == id
}

/// The remembered commands after the answer `response` to `request_id` is
/// remembered: unchanged where the id is already remembered, else the pair
/// appended, the oldest forgotten past the limit.
pub open spec fn remembered_after(entries: Seq<CompletedCommand>, request_id: String, response: Arc<Frame>) -> Seq<CompletedCommand> {
    if remembers(entries, request_id@) {
        entries
    } else {
        let pushed = entries.push((CompletedCommand { request_id, response }));
        if pushed.len() > COMPLETED_COMMAND_LIMIT { pushed.drop_first() } else { pushed }
    }
}

impl CommandCache {
    pub open spec fn wf(self) -> bool {
        distinct_ids(self.entries@) && self.entries@.len() <= COMPLETED_COMMAND_LIMIT
    }

    pub fn new() -> (res: Self)
        ensures
            res.wf(),
            res.entries@.len() == 0,
    {
        CommandCache { entries: Vec::new() }
    }

    /// The frame that answered `request_id`, if it is remembered.
    pub fn lookup(&self, request_id: &str) -> (res: Option<Arc<Frame>>)
        requires
            self.wf(),
        ensures
            res is Some <==> remembers(self.entries@, request_id@),
            res matches Some(f) ==> exists|a: int| 0 <= a < self.entries@.len()
                && #[trigger] self.entries@[a].request_id@ == request_id@ && self.entries@[a].response == f,
    {
        let mut i: usize = 0;
        while i < self.entries.len()
            invariant
                i <= self.entries@.len(),
                forall|j: int| 0 <= j < i ==> #[trigger] self.entries@[j].request_id@ != request_id@,
            decreases self.entries.len() - i,
        {
            if str_equal(self.entries[i].request_id.as_str(), request_id) {
                return Some(share_frame(&self.entries[i].response));
            }
            i = i + 1;
        }
        None
    }

    /// Remembers the answer to `request_id`, unless one is already
    /// remembered; past the limit the oldest command is forgotten.
    pub fn remember(&mut self, request_id: String, response: Arc<Frame>)
        requires
            old(self).wf(),
        ensures
            final(self).wf(),
            final(self).entries@ == remembered_after(old(self).entries@, request_id, response),
    {
        let ghost id = request_id;
        let ghost resp = response;
        if self.lookup(request_id.as_str()).is_some() {
            return;
        }
        let ghost old_entries = self.entries@;
        self.entries.push(CompletedCommand { request_id, response });
        proof {
            assert forall|a: int, b: int| 0 <= a < b < self.entries@.len() implies
                #[trigger] self.entries@[a].request_id@ != #[trigger] self.entries@[b].request_id@ by {
                if b == old_entries.len() {
                    assert(self.entries@[a] == old_entries[a]);
                } else {
                    assert(self.entries@[a] == old_entries[a]);
                    assert(self.entries@[b] == old_entries[b]);
                }
            }
        }
        if self.entries.len() > COMPLETED_COMMAND_LIMIT {
            let ghost before = self.entries@;
            self.entries.remove(0);
            proof {
                assert(self.entries@ =~= before.drop_first());
                assert forall|a: int, b: int| 0 <= a < b < self.entries@.len() implies
                    #[trigger] self.entries@[a].request_id@ != #[trigger] self.entries@[b].request_id@ by {
                    assert(self.entries@[a] == before[a + 1]);
                    assert(self.entries@[b] == before[b + 1]);
                }
            }
        }
    }
}

/// Another handle on a shared frame.
///
/// Calls `std::sync::Arc::clone`; the contract states that the new handle
/// denotes the same frame, which is what `Arc::clone` documents.
#[verifier::external_body]
fn share_frame(frame: &Arc<Frame>) -> (res: Arc<Frame>)
    ensures
        res == *frame,
{
    Arc::clone(frame)
}

/// A command answered and remembered is answered with the same frame when
/// its request id comes again: the id is remembered, and every remembered
/// entry with that id holds that frame.
pub proof fn law_remembered_command_replays(old: CommandCache, request_id: String, response: Arc<Frame>)
    requires
        old.wf(),
    ensures
        !remembers(old.entries@, request_id@) ==> {
            let new = remembered_after(old.entries@, request_id, response);
            &&& remembers(new, request_id@)
            &&& forall|a: int| 0 <= a < new.len() && #[trigger] new[a].request_id@ == request_id@ ==> new[a].response
                == response
        },
{
    if !remembers(old.entries@, request_id@) {
        let new = remembered_after(old.entries@, request_id, response);
        let last = new.len() - 1;
        assert(new[last].request_id@ == request_id@);
        let pushed = old.entries@.push((CompletedCommand { request_id, response }));
        assert forall|a: int| 0 <= a < new.len() && #[trigger] new[a].request_id@ == request_id@ implies new[a].response
            == response by {
            if a < last {
                let k = if pushed.len() > COMPLETED_COMMAND_LIMIT { a + 1 } else { a };
                assert(new[a] == pushed[k]);
                assert(pushed[k] == old.entries@[k]);
            }
        }
    }
}

/// The parts of the server configuration the connection logic reads.
#[derive(Debug, Clone)]
pub struct GatewayConfig {
    pub server_name: String,
    pub server_version: String,
    pub host_id: String,
    pub capabilities: ServerCapabilities,
    pub heartbeat_interval_ms: Option<u64>,
}

impl GatewayConfig {
    /// The configuration of a local development host.
    pub fn local_default() -> (res: Self)
        ensures
            res.server_name@ == "slight-host"@,
            res.server_version@ == "0.1.0"@,
            res.host_id@ == "local"@,
            res.capabilities == (ServerCapabilities {
                supports_replay: true,
                max_replay_events: None,
                max_event_journal: None,
                supports_raw_acp: false,
                permission_options: true,
                host_admin: true,
            }),
            res.heartbeat_interval_ms == Some(15_000u64),
    {
        GatewayConfig {
            server_name: owned("slight-host"),
            server_version: owned("0.1.0"),
            host_id: owned("local"),
            capabilities: ServerCapabilities::default(),
            heartbeat_interval_ms: Some(15_000),
        }
    }
}

/// `w` is the welcome a server configured by `config` sends on accepting
/// `hello` on connection `connection_id`: a hello that asked to resume is
/// told to resync by attaching again.
pub open spec fn welcome_for(w: ServerWelcome, config: GatewayConfig, hello: ClientHello, connection_id: String) -> bool {
    &&& w.protocol_version == PROTOCOL_VERSION
    &&& w.connection_id == connection_id
    &&& w.server_name == config.server_name
    &&& w.server_version == config.server_version
    &&& w.host_id == Some(config.host_id)
    &&& w.capabilities == config.capabilities
    &&& w.heartbeat_interval_ms == config.heartbeat_interval_ms
    &&& w.resync_required == hello.resume is Some
    &&& hello.resume is Some ==> (w.resync_reason is Some && w.resync_reason.unwrap()@ == "attach_required"@)
    &&& hello.resume is None ==> w.resync_reason is None
}

/// The welcome a server sends on an accepted hello.
pub fn build_welcome(config: &GatewayConfig, hello: &ClientHello, connection_id: String) -> (res: ServerWelcome)
    ensures
        welcome_for(res, *config, *hello, connection_id),
{
    ServerWelcome {
        protocol_version: PROTOCOL_VERSION,
        connection_id,
        server_name: config.server_name.clone(),
        server_version: config.server_version.clone(),
        host_id: Some(config.host_id.clone()),
        capabilities: ServerCapabilities {
            supports_replay: config.capabilities.supports_replay,
            max_replay_events: config.capabilities.max_replay_events,
            max_event_journal: config.capabilities.max_event_journal,
            supports_raw_acp: config.capabilities.supports_raw_acp,
            permission_options: config.capabilities.permission_options,
            host_admin: config.capabilities.host_admin,
        },
        heartbeat_interval_ms: config.heartbeat_interval_ms,
        resync_required: hello.resume.is_some(),
        resync_reason: if hello.resume.is_some() { Some(owned("attach_required")) } else { None },
    }
}

/// The state of one client connection.
pub struct ConnState {
    pub authed: Option<AuthContext>,
    pub welcome_sent: bool,
    pub completed: CommandCache,
}

/// What a connection does with an incoming frame.
pub enum FrameDecision {
    /// Send this frame back.
    Reply(Arc<Frame>),
    /// Authenticate this hello, then report the outcome with
    /// [`ConnState::accept_hello`].
    Authenticate(ClientHello),
    /// Run this authorized command, then report its answer with
    /// [`ConnState::complete_command`].
    Dispatch(GatewayCommand),
    /// Nothing to do.
    Ignore,
}

/// `f` is a failed acknowledgement of `request_id` with this error code and
/// message.
pub open spec fn is_error_ack(f: Frame, request_id: Seq<char>, code: Seq<char>, message: Seq<char>) -> bool {
    match f {
        Frame::Ack(a) => {
            &&& a.request_id@ == request_id
            &&& !a.ok
            &&& a.protocol_version == PROTOCOL_VERSION
            &&& a.error matches Some(b)
            &&& a.error.unwrap().code@ == code
            &&& a.error.unwrap().message@ == message
        },
        _ => false,
    }
}

impl ConnState {
    pub open spec fn wf(self) -> bool {
        self.completed.wf()
    }

    /// A fresh connection: not yet welcomed, nothing remembered.
    pub fn new() -> (res: Self)
        ensures
            res.wf(),
            res.authed is None,
            !res.welcome_sent,
            res.completed.entries@.len() == 0,
    {
        ConnState { authed: None, welcome_sent: false, completed: CommandCache::new() }
    }

    /// Decides what to do with an incoming frame.
    ///
    /// A hello of another protocol version is refused; any other hello goes
    /// to the authenticator. A command before a welcome is refused as
    /// unauthenticated; a command whose request id was already answered gets
    /// the same answer again; an unauthorized command is refused (and the
    /// refusal remembered); any other command is dispatched. A ping is
    /// answered with a pong carrying its nonce, a pong is ignored, and any
    /// other frame is refused as unexpected.
    pub fn process_frame(&mut self, frame: Frame) -> (res: FrameDecision)
        requires
            old(self).wf(),
        ensures
            final(self).wf(),
            final(self).authed == old(self).authed,
            final(self).welcome_sent == old(self).welcome_sent,
            match frame {
                Frame::Hello(hello) => if hello.protocol_version != PROTOCOL_VERSION {
                    res matches FrameDecision::Reply(f) && *f matches Frame::Error(e)
                        && e.code@ == "invalid_version"@ && e.request_id is None && !e.retryable
                        && e.message@ == spec_message(ProtocolError::InvalidVersion { requested: hello.protocol_version, supported: PROTOCOL_VERSION })
                        && final(self).completed == old(self).completed
                } else {
                    res == FrameDecision::Authenticate(hello) && final(self).completed == old(self).completed
                },
                Frame::Command(command) => if !old(self).welcome_sent {
                    res matches FrameDecision::Reply(f) && is_error_ack(*f, command.request_id@,
                        "unauthenticated"@, "authentication failed: hello required"@)
                        && final(self).completed == old(self).completed
                } else if remembers(old(self).completed.entries@, command.request_id@) {
                    res matches FrameDecision::Reply(f) && (exists|a: int| 0 <= a < old(self).completed.entries@.len()
                        && #[trigger] old(self).completed.entries@[a].request_id@ == command.request_id@
                        && old(self).completed.entries@[a].response == f)
                        && final(self).completed == old(self).completed
                } else {
                    let scope_ok = match required_scope(command.command@) {
                        Some(s) => match old(self).authed {
                            Some(ctx) => ctx.scopes@.contains(s),
                            None => true,
                        },
                        None => true,
                    };
                    if scope_ok {
                        res == FrameDecision::Dispatch(command) && final(self).completed == old(self).completed
                    } else {
                        res matches FrameDecision::Reply(f) && is_error_ack(*f, command.request_id@, "unauthorized"@,
                            "not authorized: "@ + command.command@ + " requires "@ + scope_debug(required_scope(command.command@).unwrap()))
                            && final(self).completed.entries@ == remembered_after(old(self).completed.entries@,
                            command.request_id, f)
                    }
                },
                Frame::Ping(ping) => res matches FrameDecision::Reply(f) && *f == Frame::Pong((PongFrame {
                    protocol_version: PROTOCOL_VERSION, nonce: ping.nonce }))
                    && final(self).completed == old(self).completed,
                Frame::Pong(_) => res is Ignore && final(self).completed == old(self).completed,
                _ => res matches FrameDecision::Reply(f) && *f matches Frame::Error(e)
                    && e.code@ == "invalid_command"@
                    && e.message@ == "invalid frame: unexpected frame: "@ + crate::protocol::spec_frame_type(frame)
                    && final(self).completed == old(self).completed,
            },
    {
        let ghost fr = frame;
        match frame {
            Frame::Hello(hello) => {
                if hello.protocol_version != PROTOCOL_VERSION {
                    let e = ProtocolError::InvalidVersion { requested: hello.protocol_version, supported: PROTOCOL_VERSION };
                    FrameDecision::Reply(Arc::new(Frame::Error(e.to_wire(None))))
                } else {
                    FrameDecision::Authenticate(hello)
                }
            },
            Frame::Command(command) => {
                if !self.welcome_sent {
                    let e = ProtocolError::Unauthenticated(owned("hello required"));
                    proof {
                        reveal_strlit("hello required");
                        reveal_strlit("authentication failed: ");
                        reveal_strlit("authentication failed: hello required");
                        assert(spec_message(e) =~= "authentication failed: hello required"@);
                    }
                    return FrameDecision::Reply(Arc::new(Frame::Ack(GatewayAck::error(command.request_id.as_str(), e.body()))));
                }
                if let Some(ack) = self.completed.lookup(command.request_id.as_str()) {
                    return FrameDecision::Reply(ack);
                }
                let allowed = match &self.authed {
                    Some(context) => authorize(context, command.command.as_str()),
                    None => Ok(()),
                };
                match allowed {
                    Ok(()) => FrameDecision::Dispatch(command),
                    Err(error) => {
                        proof {
                            assert(spec_message(error) =~= "not authorized: "@ + command.command@ + " requires "@
                                + scope_debug(required_scope(command.command@).unwrap()));
                        }
                        let ack = Arc::new(Frame::Ack(GatewayAck::error(command.request_id.as_str(), error.body())));
                        let ghost a = ack;
                        self.completed.remember(command.request_id, share_frame(&ack));
                        proof {
                            let n = self.completed.entries@.len() - 1;
                            assert(self.completed.entries@[n].request_id@ == command.request_id@);
                        }
                        FrameDecision::Reply(ack)
                    },
                }
            },
            Frame::Ping(ping) => FrameDecision::Reply(Arc::new(Frame::Pong(PongFrame {
                protocol_version: PROTOCOL_VERSION,
                nonce: ping.nonce,
            }))),
            Frame::Pong(_) => FrameDecision::Ignore,
            other => {
                let message = concat2("unexpected frame: ", other.frame_type());
                proof {
                    reveal_strlit("unexpected frame: ");
                    reveal_strlit("invalid frame: ");
                    reveal_strlit("invalid frame: unexpected frame: ");
                    assert(spec_message(ProtocolError::InvalidFrame(message)) =~= "invalid frame: unexpected frame: "@ + crate::protocol::spec_frame_type(fr));
                }
                FrameDecision::Reply(Arc::new(Frame::Error(ProtocolError::InvalidFrame(message).to_wire(None))))
            },
        }
    }

    /// Records the authenticator's verdict on a hello and gives the frame to
    /// send: a welcome (and the connection is authenticated) or the error.
    pub fn accept_hello(&mut self, hello: &ClientHello, outcome: Result<AuthContext, ProtocolError>, config: &GatewayConfig, connection_id: String) -> (res: Arc<Frame>)
        requires
            old(self).wf(),
        ensures
            final(self).wf(),
            final(self).completed == old(self).completed,
            match outcome {
                Ok(ctx) => {
                    &&& final(self).welcome_sent
                    &&& final(self).authed == Some(ctx)
                    &&& *res matches Frame::Welcome(w)
                    &&& welcome_for(res->Welcome_0, *config, *hello, connection_id)
                },
                Err(e) => {
                    &&& final(self).welcome_sent == old(self).welcome_sent
                    &&& final(self).authed == old(self).authed
                    &&& *res matches Frame::Error(w)
                    &&& res->Error_0.code@ == spec_code(e)
                    &&& res->Error_0.message@ == spec_message(e)
                    &&& res->Error_0.request_id is None
                },
            },
    {
        match outcome {
            Ok(context) => {
                self.welcome_sent = true;
                self.authed = Some(context);
                Arc::new(Frame::Welcome(build_welcome(config, hello, connection_id)))
            },
            Err(error) => Arc::new(Frame::Error(error.to_wire(None))),
        }
    }

    /// Answers a dispatched command with request id `request_id`: an ack
    /// with that id carrying the command's result, or the body of its
    /// error; the ack is remembered for a retry and is the frame to send.
    pub fn answer_command(&mut self, request_id: String, answer: Result<serde_json::Value, ProtocolError>) -> (res: Arc<Frame>)
        requires
            old(self).wf(),
        ensures
            final(self).wf(),
            command_acked(*res, request_id@, answer),
            final(self).completed.entries@ == remembered_after(old(self).completed.entries@, request_id, res),
            final(self).authed == old(self).authed,
            final(self).welcome_sent == old(self).welcome_sent,
    {
        let response = command_ack(request_id.as_str(), answer);
        self.complete_command(request_id, response)
    }

    /// Remembers the answer to a dispatched command and gives the frame to
    /// send.
    pub fn complete_command(&mut self, request_id: String, response: Frame) -> (res: Arc<Frame>)
        requires
            old(self).wf(),
        ensures
            final(self).wf(),
            *res == response,
            final(self).completed.entries@ == remembered_after(old(self).completed.entries@, request_id, res),
            remembers(final(self).completed.entries@, request_id@),
            final(self).authed == old(self).authed,
            final(self).welcome_sent == old(self).welcome_sent,
    {
        let frame = Arc::new(response);
        let ghost id = request_id;
        let already = self.completed.lookup(request_id.as_str()).is_some();
        self.completed.remember(request_id, share_frame(&frame));
        proof {
            if !already {
                let n = self.completed.entries@.len() - 1;
                assert(self.completed.entries@[n].request_id@ == id@);
            }
        }
        frame
    }
}

/// The protocol error a session failure is reported as.
pub open spec fn session_error_reported(e: SessionError, p: ProtocolError) -> bool {
    match e {
        SessionError::UnknownSession(id) => p == ProtocolError::UnknownSession(id),
        SessionError::UnknownAgent(agent) => p matches ProtocolError::InvalidParams(m) && m@ == "unknown agent: "@ + agent@,
        SessionError::NotRunning(id) => p matches ProtocolError::InvalidFrame(m) && m@ == "session is not running: "@ + id@,
        SessionError::EmptyTitle => p matches ProtocolError::InvalidParams(m) && m@ == "session title must not be empty"@,
        SessionError::UnsupportedCapability(c) => p matches ProtocolError::UnsupportedCapability(m) && m@ == c@,
        SessionError::NoPendingPermission(id) => p matches ProtocolError::InvalidFrame(m)
            && m@ == "no pending permission for session: "@ + id@,
        SessionError::PermissionMismatch { session_id, .. } => p matches ProtocolError::InvalidFrame(m)
            && m@ == "permission mismatch for session: "@ + session_id@,
        SessionError::Agent(a) => p matches ProtocolError::Internal(m) && m@ == a.0@,
        SessionError::Store(s) => p matches ProtocolError::Internal(m) && m@ == crate::store_error::store_error_text(s),
    }
}

/// Reports a session failure in the protocol's terms: unknown sessions and
/// unsupported capabilities keep their kind, bad requests are invalid
/// parameters or frames, and agent or store failures are internal.
pub fn session_error(error: SessionError) -> (res: ProtocolError)
    ensures
        session_error_reported(error, res),
{
    match error {
        SessionError::UnknownSession(id) => ProtocolError::UnknownSession(id),
        SessionError::UnknownAgent(agent) => ProtocolError::InvalidParams(concat2("unknown agent: ", agent.as_str())),
        SessionError::NotRunning(id) => ProtocolError::InvalidFrame(concat2("session is not running: ", id.as_str())),
        SessionError::EmptyTitle => ProtocolError::InvalidParams(owned("session title must not be empty")),
        SessionError::UnsupportedCapability(capability) => ProtocolError::UnsupportedCapability(capability),
        SessionError::NoPendingPermission(id) =>
            ProtocolError::InvalidFrame(concat2("no pending permission for session: ", id.as_str())),
        SessionError::PermissionMismatch { session_id, .. } =>
            ProtocolError::InvalidFrame(concat2("permission mismatch for session: ", session_id.as_str())),
        SessionError::Agent(error) => ProtocolError::Internal(error.message()),
        SessionError::Store(error) => ProtocolError::Internal(error.message()),
    }
}

/// `frame` acknowledges the command `request_id` answered with `answer`:
/// an ack of this protocol version with that request id, which is `ok`
/// exactly when it carries no error; a result is carried as it came, an
/// error as its body, and a failed ack carries no result.
pub open spec fn command_acked(frame: Frame, request_id: Seq<char>, answer: Result<serde_json::Value, ProtocolError>) -> bool {
    &&& frame matches Frame::Ack(ack)
    &&& frame->Ack_0.protocol_version == PROTOCOL_VERSION
    &&& frame->Ack_0.request_id@ == request_id
    &&& (frame->Ack_0.ok <==> frame->Ack_0.error is None)
    &&& (!frame->Ack_0.ok ==> frame->Ack_0.result is None)
    &&& match answer {
        Ok(v) => frame->Ack_0.ok && frame->Ack_0.result == Some(v),
        Err(e) => !frame->Ack_0.ok && (frame->Ack_0.error matches Some(b) && b.code@ == spec_code(e) && b.message@
            == spec_message(e) && b.retryable == spec_retryable(e)),
    }
}

/// The ack for a command `request_id` answered with `answer`.
pub fn command_ack(request_id: &str, answer: Result<serde_json::Value, ProtocolError>) -> (res: Frame)
    ensures
        command_acked(res, request_id@, answer),
{
    match answer {
        Ok(result) => Frame::Ack(GatewayAck::with_result(request_id, Some(result))),
        Err(error) => Frame::Ack(GatewayAck::error(request_id, error.body())),
    }
}

} // verus!
