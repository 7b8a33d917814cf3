//! The bookkeeping of an ACP client connection: request ids, whether the
//! connection was initialized and with which agent capabilities, the agent
//! sessions it may prompt, and the agent requests whose answer is deferred.
//! The client that moves frames asks it before each request and tells it
//! what came back.

use vstd::prelude::*;
use crate::metadata::WireAgentCapabilities;
use crate::text::{concat2, decimal_u64, owned, spec_decimal, str_equal};

verus! {

/// A JSON-RPC request id.
#[derive(Debug, Clone)]
pub enum RequestId {
    Null,
    Number(i64),
    Str(String),
}

/// Whether two request ids are the same id.
pub open spec fn same_id(a: RequestId, b: RequestId) -> bool {
    match (a, b) {
        (RequestId::Null, RequestId::Null) => true,
        (RequestId::Number(x), RequestId::Number(y)) => x == y,
        (RequestId::Str(x), RequestId::Str(y)) => x@ == y@,
        _ => false,
    }
}

/// Whether two request ids are the same id.
pub fn ids_equal(a: &RequestId, b: &RequestId) -> (res: bool)
    ensures
        res == same_id(*a, *b),
{
    match (a, b) {
        (RequestId::Null, RequestId::Null) => true,
        (RequestId::Number(x), RequestId::Number(y)) => *x == *y,
        (RequestId::Str(x), RequestId::Str(y)) => str_equal(x.as_str(), y.as_str()),
        _ => false,
    }
}

/// The decimal text of a signed number.
pub open spec fn signed_decimal(n: int) -> Seq<char> {
    if n < 0 { "-"@ + spec_decimal((-n) as nat) } else { spec_decimal(n as nat) }
}

/// The decimal text of a signed number.
pub fn decimal_i64(n: i64) -> (res: String)
    ensures
        res@ == signed_decimal(n as int),
{
    if n < 0 {
        let magnitude: u64 = if n == i64::MIN { 9_223_372_036_854_775_808u64 } else { (-n) as u64 };
        concat2("-", decimal_u64(magnitude).as_str())
    } else {
        decimal_u64(n as u64)
    }
}

/// The text of a request id, as `Display` prints it.
pub open spec fn id_text(id: RequestId) -> Seq<char> {
    match id {
        RequestId::Null => "null"@,
        RequestId::Number(n) => signed_decimal(n as int),
        RequestId::Str(s) => s@,
    }
}

/// The text of a request id.
pub fn request_id_text(id: &RequestId) -> (res: String)
    ensures
        res@ == id_text(*id),
{
    match id {
        RequestId::Null => owned("null"),
        RequestId::Number(n) => decimal_i64(*n),
        RequestId::Str(s) => s.clone(),
    }
}

/// Why the client refused or failed a request.
#[derive(Debug, Clone)]
pub enum ClientError {
    /// The frame could not be read or written.
    Wire(String),
    /// The agent answered with a JSON-RPC error.
    Protocol { code: i32, message: String },
    /// The agent closed the connection.
    Closed,
    NotInitialized,
    /// The session was never opened on this connection.
    UnknownSession(String),
    /// The agent does not advertise the capability the request needs.
    UnsupportedCapability(&'static str),
    /// The agent answered `initialize` with another protocol version.
    UnsupportedProtocol(u16),
    /// No agent request with this id awaits an answer.
    UnknownDeferredRequest(String),
    /// A response did not decode.
    Decode(String),
}

impl ClientError {
    /// The error's message, as it is displayed.
    pub open spec fn spec_message(self) -> Seq<char> {
        match self {
            ClientError::Wire(m) => m@,
            ClientError::Protocol { code, message } => "agent returned JSON-RPC error "@ + signed_decimal(code as int)
                + ": "@ + message@,
            ClientError::Closed => "agent closed the connection"@,
            ClientError::NotInitialized => "client is not initialized"@,
            ClientError::UnknownSession(s) => "unknown session: "@ + s@,
            ClientError::UnsupportedCapability(c) => "agent does not advertise the "@ + c@ + " capability"@,
            ClientError::UnsupportedProtocol(v) => "unsupported protocol version: "@ + spec_decimal(v as nat),
            ClientError::UnknownDeferredRequest(id) => "no deferred request with id "@ + id@,
            ClientError::Decode(m) => "failed to decode response: "@ + m@,
        }
    }

    /// The error's message, as it is displayed.
    pub fn message(&self) -> (res: String)
        ensures
            res@ == self.spec_message(),
    {
        match self {
            ClientError::Wire(m) => m.clone(),
            ClientError::Protocol { code, message } => {
                let mut s = owned("agent returned JSON-RPC error ");
                s.append(decimal_i64(*code as i64).as_str());
                s.append(": ");
                s.append(message.as_str());
                s
            },
            ClientError::Closed => owned("agent closed the connection"),
            ClientError::NotInitialized => owned("client is not initialized"),
            ClientError::UnknownSession(s) => concat2("unknown session: ", s.as_str()),
            ClientError::UnsupportedCapability(c) => {
                let mut s = owned("agent does not advertise the ");
                s.append(c);
                s.append(" capability");
                s
            },
            ClientError::UnsupportedProtocol(v) => concat2(
                "unsupported protocol version: ",
                decimal_u64(*v as u64).as_str(),
            ),
            ClientError::UnknownDeferredRequest(id) => concat2("no deferred request with id ", id.as_str()),
            ClientError::Decode(m) => concat2("failed to decode response: ", m.as_str()),
        }
    }
}

/// The ACP protocol version this client speaks.
pub const ACP_PROTOCOL_VERSION: u16 = 1;

/// What a client connection knows.
pub struct ClientState {
    /// The last request id handed out.
    pub next_id: i64,
    pub initialized: bool,
    /// What the agent advertised on `initialize`.
    pub capabilities: Option<WireAgentCapabilities>,
    /// The agent sessions opened on this connection, each once.
    pub sessions: Vec<String>,
    /// The agent requests whose answer is deferred, each once.
    pub deferred: Vec<RequestId>,
}

/// Whether `id` is among `sessions`.
pub open spec fn has_session(sessions: Seq<String>, id: Seq<char>) -> bool {
    exists|i: int| 0 <= i < sessions.len() && #[trigger] sessions[i]@ == id
}

/// Whether a request with id `id` is among `deferred`.
pub open spec fn is_deferred(deferred: Seq<RequestId>, id: RequestId) -> bool {
    exists|i: int| 0 <= i < deferred.len() && same_id(#[trigger] deferred[i], id)
}

impl ClientState {
    /// Nothing in either list occurs twice, and request ids are not
    /// negative.
    pub open spec fn wf(self) -> bool {
        &&& self.next_id >= 0
        &&& forall|a: int, b: int| 0 <= a < b < self.sessions@.len() ==> #[trigger] self.sessions@[a]@
            != #[trigger] self.sessions@[b]@
        &&& forall|a: int, b: int| 0 <= a < b < self.deferred@.len() ==> !same_id(
            #[trigger] self.deferred@[a],
            #[trigger] self.deferred@[b],
        )
    }

    /// A fresh connection: nothing sent, not initialized.
    pub fn new() -> (res: Self)
        ensures
            res.wf(),
            res.next_id == 0,
            !res.initialized,
            res.capabilities is None,
            res.sessions@.len() == 0,
            res.deferred@.len() == 0,
    {
        ClientState { next_id: 0, initialized: false, capabilities: None, sessions: Vec::new(), deferred: Vec::new() }
    }

    /// The next request id: one above the last.
    pub fn next_request_id(&mut self) -> (res: RequestId)
        requires
            old(self).wf(),
            old(self).next_id < i64::MAX,
        ensures
            final(self).wf(),
            final(self).next_id == old(self).next_id + 1,
            res matches RequestId::Number(n) && n == final(self).next_id,
            final(self).initialized == old(self).initialized,
            final(self).capabilities == old(self).capabilities,
            final(self).sessions@ == old(self).sessions@,
            final(self).deferred@ == old(self).deferred@,
    {
        self.next_id = self.next_id + 1;
        RequestId::Number(self.next_id)
    }

    /// Refuses a session request before `initialize` completed.
    pub fn ensure_initialized(&self) -> (res: Result<(), ClientError>)
        ensures
            self.initialized ==> res is Ok,
            !self.initialized ==> res matches Err(ClientError::NotInitialized),
    {
        if self.initialized { Ok(()) } else { Err(ClientError::NotInitialized) }
    }

    /// Whether the agent advertised `session/load`.
    pub fn load_supported(&self) -> (res: bool)
        ensures
            res == (self.capabilities matches Some(c) && c.load_session),
    {
        match &self.capabilities {
            Some(c) => c.load_session,
            None => false,
        }
    }

    /// Whether the agent advertised `session/resume`.
    pub fn resume_supported(&self) -> (res: bool)
        ensures
            res == (self.capabilities matches Some(c) && c.session_resume),
    {
        match &self.capabilities {
            Some(c) => c.session_resume,
            None => false,
        }
    }

    /// Refuses `session/list` unless the agent advertised it.
    pub fn ensure_list_supported(&self) -> (res: Result<(), ClientError>)
        ensures
            (self.capabilities matches Some(c) && c.session_list) ==> res is Ok,
            !(self.capabilities matches Some(c) && c.session_list) ==> (res matches Err(
                ClientError::UnsupportedCapability(name),
            ) && name@ == "session/list"@),
    {
        let supported = match &self.capabilities {
            Some(c) => c.session_list,
            None => false,
        };
        if supported { Ok(()) } else { Err(ClientError::UnsupportedCapability("session/list")) }
    }

    /// Checks a request that opens session state: initialized first, then
    /// the capability it needs.
    pub fn check_open(&self, load: bool) -> (res: Result<(), ClientError>)
        ensures
            !self.initialized ==> res matches Err(ClientError::NotInitialized),
            self.initialized && load ==> if self.capabilities matches Some(c) && c.load_session {
                res is Ok
            } else {
                res matches Err(ClientError::UnsupportedCapability(name)) && name@ == "session/load"@
            },
            self.initialized && !load ==> if self.capabilities matches Some(c) && c.session_resume {
                res is Ok
            } else {
                res matches Err(ClientError::UnsupportedCapability(name)) && name@ == "session/resume"@
            },
    {
        if !self.initialized {
            return Err(ClientError::NotInitialized);
        }
        if load {
            if self.load_supported() { Ok(()) } else { Err(ClientError::UnsupportedCapability("session/load")) }
        } else {
            if self.resume_supported() { Ok(()) } else { Err(ClientError::UnsupportedCapability("session/resume")) }
        }
    }

    /// Whether `session_id` was opened on this connection.
    pub fn knows_session(&self, session_id: &str) -> (res: bool)
        ensures
            res == has_session(self.sessions@, session_id@),
    {
        let mut i: usize = 0;
        while i < self.sessions.len()
            invariant
                i <= self.sessions@.len(),
                forall|j: int| 0 <= j < i ==> #[trigger] self.sessions@[j]@ != session_id@,
            decreases self.sessions.len() - i,
        {
            if str_equal(self.sessions[i].as_str(), session_id) {
                return true;
            }
            i = i + 1;
        }
        false
    }

    /// Checks a prompt: the connection is initialized and the session was
    /// opened on it.
    pub fn check_prompt(&self, session_id: &str) -> (res: Result<(), ClientError>)
        ensures
            !self.initialized ==> res matches Err(ClientError::NotInitialized),
            self.initialized && has_session(self.sessions@, session_id@) ==> res is Ok,
            self.initialized && !has_session(self.sessions@, session_id@) ==> (res matches Err(
                ClientError::UnknownSession(s),
            ) && s@ == session_id@),
    {
        if !self.initialized {
            return Err(ClientError::NotInitialized);
        }
        if self.knows_session(session_id) { Ok(()) } else { Err(ClientError::UnknownSession(owned(session_id))) }
    }

    /// Records the agent's answer to `initialize`: another protocol version
    /// is refused and leaves the connection uninitialized; otherwise the
    /// connection is ready with the advertised capabilities.
    pub fn on_initialized(&mut self, protocol_version: u16, capabilities: WireAgentCapabilities) -> (res: Result<
        (),
        ClientError,
    >)
        requires
            old(self).wf(),
        ensures
            final(self).wf(),
            final(self).sessions@ == old(self).sessions@,
            final(self).deferred@ == old(self).deferred@,
            final(self).next_id == old(self).next_id,
            protocol_version != ACP_PROTOCOL_VERSION ==> (res matches Err(ClientError::UnsupportedProtocol(v))
                && v == protocol_version) && final(self).initialized == old(self).initialized
                && final(self).capabilities == old(self).capabilities,
            protocol_version == ACP_PROTOCOL_VERSION ==> res is Ok && final(self).initialized
                && final(self).capabilities == Some(capabilities),
    {
        if protocol_version != ACP_PROTOCOL_VERSION {
            return Err(ClientError::UnsupportedProtocol(protocol_version));
        }
        self.initialized = true;
        self.capabilities = Some(capabilities);
        Ok(())
    }

    /// Remembers that `session_id` is open, so prompts may follow.
    pub fn remember_session(&mut self, session_id: &str)
        requires
            old(self).wf(),
        ensures
            final(self).wf(),
            forall|id: Seq<char>| has_session(final(self).sessions@, id) <==> (has_session(old(self).sessions@, id)
                || id == session_id@),
            final(self).initialized == old(self).initialized,
            final(self).capabilities == old(self).capabilities,
            final(self).deferred@ == old(self).deferred@,
            final(self).next_id == old(self).next_id,
    {
        if !self.knows_session(session_id) {
            let ghost before = self.sessions@;
            self.sessions.push(owned(session_id));
            proof {
                assert forall|id: Seq<char>| has_session(self.sessions@, id) <==> (has_session(before, id)
                    || id == session_id@) by {
                    if has_session(self.sessions@, id) {
                        let i = choose|i: int| 0 <= i < self.sessions@.len() && #[trigger] self.sessions@[i]@ == id;
                        if i < before.len() {
                            assert(before[i] == self.sessions@[i]);
                        }
                    }
                    if has_session(before, id) {
                        let i = choose|i: int| 0 <= i < before.len() && #[trigger] before[i]@ == id;
                        assert(self.sessions@[i] == before[i]);
                    }
                    if id == session_id@ {
                        assert(self.sessions@[before.len() as int]@ == id);
                    }
                }
            }
        }
    }

    /// Whether the agent request `id` awaits a deferred answer.
    fn deferred_index(&self, id: &RequestId) -> (res: Option<usize>)
        ensures
            match res {
                Some(i) => i < self.deferred@.len() && same_id(self.deferred@[i as int], *id),
                None => !is_deferred(self.deferred@, *id),
            },
    {
        let mut i: usize = 0;
        while i < self.deferred.len()
            invariant
                i <= self.deferred@.len(),
                forall|j: int| 0 <= j < i ==> !same_id(#[trigger] self.deferred@[j], *id),
            decreases self.deferred.len() - i,
        {
            if ids_equal(&self.deferred[i], id) {
                return Some(i);
            }
            i = i + 1;
        }
        None
    }

    /// Defers the answer to agent request `id`: the client answers it later.
    pub fn defer(&mut self, id: RequestId)
        requires
            old(self).wf(),
        ensures
            final(self).wf(),
            forall|other: RequestId| is_deferred(final(self).deferred@, other) <==> (is_deferred(
                old(self).deferred@,
                other,
            ) || same_id(id, other)),
            final(self).sessions@ == old(self).sessions@,
            final(self).initialized == old(self).initialized,
            final(self).capabilities == old(self).capabilities,
            final(self).next_id == old(self).next_id,
    {
        let ghost before = self.deferred@;
        match self.deferred_index(&id) {
            Some(i) => {
                proof {
                    assert forall|other: RequestId| is_deferred(before, other) <==> (is_deferred(before, other)
                        || same_id(id, other)) by {
                        if same_id(id, other) {
                            assert(same_id(before[i as int], other));
                        }
                    }
                }
            },
            None => {
                let ghost idv = id;
                self.deferred.push(id);
                proof {
                    assert forall|a: int, b: int| 0 <= a < b < self.deferred@.len() implies !same_id(
                        #[trigger] self.deferred@[a],
                        #[trigger] self.deferred@[b],
                    ) by {
                        if b == before.len() {
                            assert(self.deferred@[b] == idv);
                            assert(self.deferred@[a] == before[a]);
                            if same_id(before[a], idv) {
                                assert(is_deferred(before, idv));
                            }
                        } else {
                            assert(self.deferred@[a] == before[a]);
                            assert(self.deferred@[b] == before[b]);
                        }
                    }
                    assert forall|other: RequestId| is_deferred(self.deferred@, other) <==> (is_deferred(
                        before,
                        other,
                    ) || same_id(idv, other)) by {
                        if is_deferred(self.deferred@, other) {
                            let k = choose|k: int| 0 <= k < self.deferred@.len() && same_id(
                                #[trigger] self.deferred@[k],
                                other,
                            );
                            if k < before.len() {
                                assert(self.deferred@[k] == before[k]);
                            }
                        }
                        if is_deferred(before, other) {
                            let k = choose|k: int| 0 <= k < before.len() && same_id(#[trigger] before[k], other);
                            assert(self.deferred@[k] == before[k]);
                        }
                        if same_id(idv, other) {
                            assert(self.deferred@[before.len() as int] == idv);
                        }
                    }
                }
            },
        }
    }

    /// Takes agent request `id` off the deferred list before it is answered;
    /// a request that awaits no answer is refused.
    pub fn take_deferred(&mut self, id: &RequestId) -> (res: Result<(), ClientError>)
        requires
            old(self).wf(),
        ensures
            final(self).wf(),
            is_deferred(old(self).deferred@, *id) ==> res is Ok && !is_deferred(final(self).deferred@, *id)
                && forall|other: RequestId| !same_id(*id, other) ==> (is_deferred(final(self).deferred@, other)
                <==> is_deferred(old(self).deferred@, other)),
            !is_deferred(old(self).deferred@, *id) ==> (res matches Err(ClientError::UnknownDeferredRequest(s))
                && s@ == id_text(*id)) && final(self).deferred@ == old(self).deferred@,
            final(self).sessions@ == old(self).sessions@,
            final(self).initialized == old(self).initialized,
            final(self).capabilities == old(self).capabilities,
            final(self).next_id == old(self).next_id,
    {
        let ghost before = self.deferred@;
        match self.deferred_index(id) {
            Some(i) => {
                self.deferred.remove(i);
                proof {
                    assert(self.deferred@ =~= before.remove(i as int));
                    assert forall|a: int, b: int| 0 <= a < b < self.deferred@.len() implies !same_id(
                        #[trigger] self.deferred@[a],
                        #[trigger] self.deferred@[b],
                    ) by {
                        let a2 = if a < i { a } else { a + 1 };
                        let b2 = if b < i { b } else { b + 1 };
                        assert(self.deferred@[a] == before[a2]);
                        assert(self.deferred@[b] == before[b2]);
                    }
                    assert forall|other: RequestId| !same_id(*id, other) implies (is_deferred(self.deferred@, other)
                        <==> is_deferred(before, other)) by {
                        if is_deferred(self.deferred@, other) {
                            let k = choose|k: int| 0 <= k < self.deferred@.len() && same_id(
                                #[trigger] self.deferred@[k],
                                other,
                            );
                            let k2 = if k < i { k } else { k + 1 };
                            assert(self.deferred@[k] == before[k2]);
                        }
                        if is_deferred(before, other) {
                            let k = choose|k: int| 0 <= k < before.len() && same_id(#[trigger] before[k], other);
                            if k == i {
                                lemma_same_id_transitive(before[k], other, *id);
                            }
                            if k < i {
                                assert(self.deferred@[k] == before[k]);
                            } else if k > i {
                                assert(self.deferred@[k - 1] == before[k]);
                            }
                        }
                    }
                    if is_deferred(self.deferred@, *id) {
                        let k = choose|k: int| 0 <= k < self.deferred@.len() && same_id(#[trigger] self.deferred@[k], *id);
                        let k2 = if k < i { k } else { k + 1 };
                        assert(self.deferred@[k] == before[k2]);
                        lemma_same_id_transitive(before[k2], *id, before[i as int]);
                        if k2 < i {
                            assert(!same_id(before[k2], before[i as int]));
                        } else {
                            assert(!same_id(before[i as int], before[k2]));
                            lemma_same_id_symmetric(before[i as int], before[k2]);
                        }
                    }
                }
                Ok(())
            },
            None => Err(ClientError::UnknownDeferredRequest(request_id_text(id))),
        }
    }
}

/// `same_id` is symmetric.
pub proof fn lemma_same_id_symmetric(a: RequestId, b: RequestId)
    ensures
        same_id(a, b) == same_id(b, a),
{
}

/// `same_id` is transitive.
pub proof fn lemma_same_id_transitive(a: RequestId, b: RequestId, c: RequestId)
    ensures
        same_id(a, b) && same_id(b, c) ==> same_id(a, c),
        same_id(a, b) && same_id(a, c) ==> same_id(b, c),
{
}

/// The ACP client capabilities the host advertises on `initialize`.
#[derive(Debug, Clone, Copy, PartialEq, Eq)]
pub struct HostClientCapabilities {
    /// `fs/read_text_file`.
    pub read_text_file: bool,
    /// `fs/write_text_file`.
    pub write_text_file: bool,
    /// The `terminal/*` methods.
    pub terminal: bool,
    /// Session configuration options of the boolean kind.
    pub boolean_config_options: bool,
}

/// The complete set of client capabilities the host advertises: boolean
/// session configuration options, which it surfaces to clients as
/// normalized config-option updates, and no file system or terminal
/// methods, which the host does not answer.
pub fn host_client_capabilities() -> (res: HostClientCapabilities)
    ensures
        res.boolean_config_options,
        !res.read_text_file,
        !res.write_text_file,
        !res.terminal,
{
    HostClientCapabilities {
        read_text_file: false,
        write_text_file: false,
        terminal: false,
        boolean_config_options: true,
    }
}

} // verus!
