//! Which operation a gateway command names, what it needs before it can run,
//! and the defaults its parameters take.

use vstd::prelude::*;
use crate::dto::AgentSessionSummaryDto;
use crate::metadata::ListedSessionSummary;
use crate::agent_events::ListedSessionPage;
use crate::commands::AgentSessionsListResult;
use crate::protocol::ProtocolError;
use crate::text::{owned, str_equal};

verus! {

/// The operation a command runs.
#[derive(Debug, Clone, Copy, PartialEq, Eq, Structural)]
pub enum Route {
    ListSessions,
    WorkingDirectories,
    CreateSession,
    ListAgentSessions,
    ImportAgentSession,
    /// Attaching and resuming both attach without replaying events.
    Attach,
    Replay,
    History,
    Detach,
    Input,
    Cancel,
    Rename,
    Archive,
    SetMode,
    SetConfigOption,
    RespondPermission,
    Inspect,
    /// Host status, also answered for the host configuration.
    HostStatus,
    HostStart,
    /// Stopping, also run for a host shutdown.
    HostStop,
    HostRestart,
    HostDiagnostics,
    PairingCreate,
    PairingList,
    DeviceList,
    DeviceRevoke,
    Unsupported,
}

/// The operation `command` names.
pub open spec fn route_of(command: Seq<char>) -> Route {
    if command == "session.list"@ {
        Route::ListSessions
    } else if command == "session.working_directories"@ {
        Route::WorkingDirectories
    } else if command == "session.create"@ {
        Route::CreateSession
    } else if command == "agent.sessions.list"@ {
        Route::ListAgentSessions
    } else if command == "agent.sessions.import"@ {
        Route::ImportAgentSession
    } else if command == "session.attach"@ || command == "session.resume"@ {
        Route::Attach
    } else if command == "events.replay"@ {
        Route::Replay
    } else if command == "session.history"@ {
        Route::History
    } else if command == "session.detach"@ {
        Route::Detach
    } else if command == "session.input"@ {
        Route::Input
    } else if command == "session.cancel"@ {
        Route::Cancel
    } else if command == "session.rename"@ {
        Route::Rename
    } else if command == "session.archive"@ {
        Route::Archive
    } else if command == "session.set_mode"@ {
        Route::SetMode
    } else if command == "session.set_config_option"@ {
        Route::SetConfigOption
    } else if command == "session.permission.respond"@ {
        Route::RespondPermission
    } else if command == "session.inspect"@ {
        Route::Inspect
    } else if command == "host.status"@ || command == "host.configuration"@ {
        Route::HostStatus
    } else if command == "host.start"@ {
        Route::HostStart
    } else if command == "host.stop"@ || command == "host.shutdown"@ {
        Route::HostStop
    } else if command == "host.restart"@ {
        Route::HostRestart
    } else if command == "host.diagnostics"@ {
        Route::HostDiagnostics
    } else if command == "pairing.create"@ {
        Route::PairingCreate
    } else if command == "pairing.list"@ {
        Route::PairingList
    } else if command == "device.list"@ {
        Route::DeviceList
    } else if command == "device.revoke"@ {
        Route::DeviceRevoke
    } else {
        Route::Unsupported
    }
}

/// Each command name routes to its own operation: an operation is reached
/// by its command name alone, or by one of the two names of an alias pair
/// (attach and resume, host status and configuration, host stop and
/// shutdown); any other name is unsupported. So distinct names that are
/// not aliases reach distinct operations.
pub proof fn law_each_command_names_its_operation(c: Seq<char>)
    ensures
        route_of(c) == Route::ListSessions <==> (c == "session.list"@),
        route_of(c) == Route::WorkingDirectories <==> (c == "session.working_directories"@),
        route_of(c) == Route::CreateSession <==> (c == "session.create"@),
        route_of(c) == Route::ListAgentSessions <==> (c == "agent.sessions.list"@),
        route_of(c) == Route::ImportAgentSession <==> (c == "agent.sessions.import"@),
        route_of(c) == Route::Attach <==> (c == "session.attach"@ || c == "session.resume"@),
        route_of(c) == Route::Replay <==> (c == "events.replay"@),
        route_of(c) == Route::History <==> (c == "session.history"@),
        route_of(c) == Route::Detach <==> (c == "session.detach"@),
        route_of(c) == Route::Input <==> (c == "session.input"@),
        route_of(c) == Route::Cancel <==> (c == "session.cancel"@),
        route_of(c) == Route::Rename <==> (c == "session.rename"@),
        route_of(c) == Route::Archive <==> (c == "session.archive"@),
        route_of(c) == Route::SetMode <==> (c == "session.set_mode"@),
        route_of(c) == Route::SetConfigOption <==> (c == "session.set_config_option"@),
        route_of(c) == Route::RespondPermission <==> (c == "session.permission.respond"@),
        route_of(c) == Route::Inspect <==> (c == "session.inspect"@),
        route_of(c) == Route::HostStatus <==> (c == "host.status"@ || c == "host.configuration"@),
        route_of(c) == Route::HostStart <==> (c == "host.start"@),
        route_of(c) == Route::HostStop <==> (c == "host.stop"@ || c == "host.shutdown"@),
        route_of(c) == Route::HostRestart <==> (c == "host.restart"@),
        route_of(c) == Route::HostDiagnostics <==> (c == "host.diagnostics"@),
        route_of(c) == Route::PairingCreate <==> (c == "pairing.create"@),
        route_of(c) == Route::PairingList <==> (c == "pairing.list"@),
        route_of(c) == Route::DeviceList <==> (c == "device.list"@),
        route_of(c) == Route::DeviceRevoke <==> (c == "device.revoke"@),
{
    reveal_strlit("session.list");
    reveal_strlit("session.working_directories");
    reveal_strlit("session.create");
    reveal_strlit("agent.sessions.list");
    reveal_strlit("agent.sessions.import");
    reveal_strlit("session.attach");
    reveal_strlit("session.resume");
    reveal_strlit("events.replay");
    reveal_strlit("session.history");
    reveal_strlit("session.detach");
    reveal_strlit("session.input");
    reveal_strlit("session.cancel");
    reveal_strlit("session.rename");
    reveal_strlit("session.archive");
    reveal_strlit("session.set_mode");
    reveal_strlit("session.set_config_option");
    reveal_strlit("session.permission.respond");
    reveal_strlit("session.inspect");
    reveal_strlit("host.status");
    reveal_strlit("host.configuration");
    reveal_strlit("host.start");
    reveal_strlit("host.stop");
    reveal_strlit("host.shutdown");
    reveal_strlit("host.restart");
    reveal_strlit("host.diagnostics");
    reveal_strlit("pairing.create");
    reveal_strlit("pairing.list");
    reveal_strlit("device.list");
    reveal_strlit("device.revoke");
    assert("session.list"@.len() == 12);
    assert("session.working_directories"@.len() == 27);
    assert("session.create"@.len() == 14);
    assert("agent.sessions.list"@.len() == 19);
    assert("agent.sessions.import"@.len() == 21);
    assert("session.attach"@.len() == 14);
    assert("session.resume"@.len() == 14);
    assert("events.replay"@.len() == 13);
    assert("session.history"@.len() == 15);
    assert("session.detach"@.len() == 14);
    assert("session.input"@.len() == 13);
    assert("session.cancel"@.len() == 14);
    assert("session.rename"@.len() == 14);
    assert("session.archive"@.len() == 15);
    assert("session.set_mode"@.len() == 16);
    assert("session.set_config_option"@.len() == 25);
    assert("session.permission.respond"@.len() == 26);
    assert("session.inspect"@.len() == 15);
    assert("host.status"@.len() == 11);
    assert("host.configuration"@.len() == 18);
    assert("host.start"@.len() == 10);
    assert("host.stop"@.len() == 9);
    assert("host.shutdown"@.len() == 13);
    assert("host.restart"@.len() == 12);
    assert("host.diagnostics"@.len() == 16);
    assert("pairing.create"@.len() == 14);
    assert("pairing.list"@.len() == 12);
    assert("device.list"@.len() == 11);
    assert("device.revoke"@.len() == 13);
    assert("session.list"@[0] != "host.restart"@[0]);
    assert("session.list"@[0] != "pairing.list"@[0]);
    assert("session.create"@[8] != "session.attach"@[8]);
    assert("session.create"@[8] != "session.resume"@[8]);
    assert("session.create"@[8] != "session.detach"@[8]);
    assert("session.create"@[9] != "session.cancel"@[9]);
    assert("session.create"@[8] != "session.rename"@[8]);
    assert("session.create"@[0] != "pairing.create"@[0]);
    assert("session.attach"@[8] != "session.resume"@[8]);
    assert("session.attach"@[8] != "session.detach"@[8]);
    assert("session.attach"@[8] != "session.cancel"@[8]);
    assert("session.attach"@[8] != "session.rename"@[8]);
    assert("session.attach"@[0] != "pairing.create"@[0]);
    assert("session.resume"@[8] != "session.detach"@[8]);
    assert("session.resume"@[8] != "session.cancel"@[8]);
    assert("session.resume"@[10] != "session.rename"@[10]);
    assert("session.resume"@[0] != "pairing.create"@[0]);
    assert("events.replay"@[0] != "session.input"@[0]);
    assert("events.replay"@[0] != "host.shutdown"@[0]);
    assert("events.replay"@[0] != "device.revoke"@[0]);
    assert("session.history"@[8] != "session.archive"@[8]);
    assert("session.history"@[8] != "session.inspect"@[8]);
    assert("session.detach"@[8] != "session.cancel"@[8]);
    assert("session.detach"@[8] != "session.rename"@[8]);
    assert("session.detach"@[0] != "pairing.create"@[0]);
    assert("session.input"@[0] != "host.shutdown"@[0]);
    assert("session.input"@[0] != "device.revoke"@[0]);
    assert("session.cancel"@[8] != "session.rename"@[8]);
    assert("session.cancel"@[0] != "pairing.create"@[0]);
    assert("session.rename"@[0] != "pairing.create"@[0]);
    assert("session.archive"@[8] != "session.inspect"@[8]);
    assert("session.set_mode"@[0] != "host.diagnostics"@[0]);
    assert("host.status"@[0] != "device.list"@[0]);
    assert("host.shutdown"@[0] != "device.revoke"@[0]);
    assert("host.restart"@[0] != "pairing.list"@[0]);
}

/// Whether the operation acts on one session and so needs its id.
pub open spec fn needs_session(route: Route) -> bool {
    match route {
        Route::Attach | Route::Replay | Route::History | Route::Input | Route::Cancel | Route::Rename
        | Route::Archive | Route::SetMode | Route::SetConfigOption | Route::RespondPermission
        | Route::Inspect => true,
        _ => false,
    }
}

/// The operation `command` names.
pub fn route_command(command: &str) -> (res: Route)
    ensures
        res == route_of(command@),
{
    proof {
        reveal_strlit("session.list");
        reveal_strlit("session.working_directories");
        reveal_strlit("session.create");
        reveal_strlit("agent.sessions.list");
        reveal_strlit("agent.sessions.import");
        reveal_strlit("session.attach");
        reveal_strlit("session.resume");
        reveal_strlit("events.replay");
        reveal_strlit("session.history");
        reveal_strlit("session.detach");
        reveal_strlit("session.input");
        reveal_strlit("session.cancel");
        reveal_strlit("session.rename");
        reveal_strlit("session.archive");
        reveal_strlit("session.set_mode");
        reveal_strlit("session.set_config_option");
        reveal_strlit("session.permission.respond");
        reveal_strlit("session.inspect");
        reveal_strlit("host.status");
        reveal_strlit("host.configuration");
        reveal_strlit("host.start");
        reveal_strlit("host.stop");
        reveal_strlit("host.shutdown");
        reveal_strlit("host.restart");
        reveal_strlit("host.diagnostics");
        reveal_strlit("pairing.create");
        reveal_strlit("pairing.list");
        reveal_strlit("device.list");
        reveal_strlit("device.revoke");
    }
    if str_equal(command, crate::command_name::SESSION_LIST) {
        Route::ListSessions
    } else if str_equal(command, crate::command_name::SESSION_WORKING_DIRECTORIES) {
        Route::WorkingDirectories
    } else if str_equal(command, crate::command_name::SESSION_CREATE) {
        Route::CreateSession
    } else if str_equal(command, crate::command_name::AGENT_SESSIONS_LIST) {
        Route::ListAgentSessions
    } else if str_equal(command, crate::command_name::AGENT_SESSION_IMPORT) {
        Route::ImportAgentSession
    } else if str_equal(command, crate::command_name::SESSION_ATTACH) || str_equal(
        command,
        crate::command_name::SESSION_RESUME,
    ) {
        Route::Attach
    } else if str_equal(command, crate::command_name::EVENTS_REPLAY) {
        Route::Replay
    } else if str_equal(command, crate::command_name::SESSION_HISTORY) {
        Route::History
    } else if str_equal(command, crate::command_name::SESSION_DETACH) {
        Route::Detach
    } else if str_equal(command, crate::command_name::SESSION_INPUT) {
        Route::Input
    } else if str_equal(command, crate::command_name::SESSION_CANCEL) {
        Route::Cancel
    } else if str_equal(command, crate::command_name::SESSION_RENAME) {
        Route::Rename
    } else if str_equal(command, crate::command_name::SESSION_ARCHIVE) {
        Route::Archive
    } else if str_equal(command, crate::command_name::SESSION_SET_MODE) {
        Route::SetMode
    } else if str_equal(command, crate::command_name::SESSION_SET_CONFIG_OPTION) {
        Route::SetConfigOption
    } else if str_equal(command, crate::command_name::SESSION_PERMISSION_RESPOND) {
        Route::RespondPermission
    } else if str_equal(command, crate::command_name::SESSION_INSPECT) {
        Route::Inspect
    } else if str_equal(command, crate::command_name::HOST_STATUS) || str_equal(
        command,
        crate::command_name::HOST_CONFIGURATION,
    ) {
        Route::HostStatus
    } else if str_equal(command, crate::command_name::HOST_START) {
        Route::HostStart
    } else if str_equal(command, crate::command_name::HOST_STOP) || str_equal(
        command,
        crate::command_name::HOST_SHUTDOWN,
    ) {
        Route::HostStop
    } else if str_equal(command, crate::command_name::HOST_RESTART) {
        Route::HostRestart
    } else if str_equal(command, crate::command_name::HOST_DIAGNOSTICS) {
        Route::HostDiagnostics
    } else if str_equal(command, crate::command_name::PAIRING_CREATE) {
        Route::PairingCreate
    } else if str_equal(command, crate::command_name::PAIRING_LIST) {
        Route::PairingList
    } else if str_equal(command, crate::command_name::DEVICE_LIST) {
        Route::DeviceList
    } else if str_equal(command, crate::command_name::DEVICE_REVOKE) {
        Route::DeviceRevoke
    } else {
        Route::Unsupported
    }
}

/// Decides what runs for `command` on session `session_id`: the operation
/// it names, or the refusal that answers it. An unknown command is
/// unsupported; an operation on one session without a session id is
/// refused as invalid parameters.
pub fn plan_command(command: &str, session_id: &Option<String>) -> (res: Result<Route, ProtocolError>)
    ensures
        ({
            let route = route_of(command@);
            if route == Route::Unsupported {
                res matches Err(ProtocolError::UnsupportedCommand(m)) && m@ == command@
            } else if needs_session(route) && session_id is None {
                res matches Err(ProtocolError::InvalidParams(m)) && m@ == "session_id required"@
            } else {
                res == Ok::<Route, ProtocolError>(route)
            }
        }),
{
    let route = route_command(command);
    let needs = match route {
        Route::Attach | Route::Replay | Route::History | Route::Input | Route::Cancel | Route::Rename
        | Route::Archive | Route::SetMode | Route::SetConfigOption | Route::RespondPermission
        | Route::Inspect => true,
        _ => false,
    };
    if route == Route::Unsupported {
        Err(ProtocolError::UnsupportedCommand(owned(command)))
    } else if needs && session_id.is_none() {
        Err(ProtocolError::InvalidParams(owned("session_id required")))
    } else {
        Ok(route)
    }
}

/// How many working directories the working-directory listing reports.
pub const WORKING_DIRECTORY_LIMIT: usize = 20;

/// The page size of a history request: the one asked for, else 200.
pub fn history_limit(limit: Option<usize>) -> (res: usize)
    ensures
        res == match limit {
            Some(n) => n,
            None => 200,
        },
{
    match limit {
        Some(n) => n,
        None => 200,
    }
}

/// How many events a replay sends: the server's replay cap, 256 when it has
/// none, and at least one.
pub fn replay_limit(max_replay_events: Option<usize>) -> (res: usize)
    ensures
        res == ({
            let cap = match max_replay_events {
                Some(n) => n,
                None => 256,
            };
            if cap < 1 { 1 } else { cap }
        }),
{
    let cap = match max_replay_events {
        Some(n) => n,
        None => 256,
    };
    if cap < 1 { 1 } else { cap }
}

/// The label of a pairing request: the one given, else `paired device`
/// (also when the parameters do not parse).
pub fn pairing_label(label: Option<String>) -> (res: String)
    ensures
        res@ == match label {
            Some(l) => l@,
            None => "paired device"@,
        },
{
    match label {
        Some(l) => l,
        None => owned("paired device"),
    }
}

/// Whether `id` is among `ids`.
pub open spec fn listed_in(ids: Seq<String>, id: Seq<char>) -> bool {
    exists|i: int| 0 <= i < ids.len() && #[trigger] ids[i]@ == id
}

fn contains_id(ids: &Vec<String>, id: &str) -> (res: bool)
    ensures
        res == listed_in(ids@, id@),
{
    let mut i: usize = 0;
    while i < ids.len()
        invariant
            i <= ids@.len(),
            forall|j: int| 0 <= j < i ==> #[trigger] ids@[j]@ != id@,
        decreases ids.len() - i,
    {
        if str_equal(ids[i].as_str(), id) {
            return true;
        }
        i = i + 1;
    }
    false
}

/// The entries of `listed` whose native id is not among `imported`, in order.
pub open spec fn unimported(listed: Seq<ListedSessionSummary>, imported: Seq<String>) -> Seq<ListedSessionSummary>
    decreases listed.len(),
{
    if listed.len() == 0 {
        Seq::empty()
    } else {
        let rest = unimported(listed.drop_last(), imported);
        if listed_in(imported, listed.last().agent_session_id@) {
            rest
        } else {
            rest.push(listed.last())
        }
    }
}

/// `d` is the summary of agent `agent`'s listed session `l`.
pub open spec fn offered_as(agent: Seq<char>, l: ListedSessionSummary, d: AgentSessionSummaryDto) -> bool {
    &&& d.agent@ == agent
    &&& d.agent_session_id == l.agent_session_id
    &&& d.cwd == l.cwd
    &&& d.additional_directories@ == l.additional_directories@
    &&& d.title == l.title
    &&& d.updated_at == l.updated_at
}

/// The listed native sessions of agent `agent` that were not imported yet,
/// as summaries, in the order the agent listed them.
pub fn unimported_sessions(agent: &str, listed: &Vec<ListedSessionSummary>, imported: &Vec<String>) -> (res: Vec<
    AgentSessionSummaryDto,
>)
    ensures
        res@.len() == unimported(listed@, imported@).len(),
        forall|i: int| 0 <= i < res@.len() ==> offered_as(agent@, unimported(listed@, imported@)[i], #[trigger] res@[i]),
        res@.len() <= listed@.len(),
        forall|i: int| 0 <= i < res@.len() ==> !listed_in(imported@, (#[trigger] res@[i]).agent_session_id@),
        forall|i: int| 0 <= i < res@.len() ==> (#[trigger] res@[i]).agent@ == agent@,
        forall|j: int| 0 <= j < listed@.len() && !listed_in(imported@, (#[trigger] listed@[j]).agent_session_id@)
            ==> exists|i: int| 0 <= i < res@.len() && res@[i].agent_session_id == listed@[j].agent_session_id,
{
    let mut res: Vec<AgentSessionSummaryDto> = Vec::new();
    let mut j: usize = 0;
    while j < listed.len()
        invariant
            j <= listed@.len(),
            res@.len() == unimported(listed@.take(j as int), imported@).len(),
            forall|i: int| 0 <= i < res@.len() ==> offered_as(agent@, unimported(listed@.take(j as int), imported@)[i],
                #[trigger] res@[i]),
            res@.len() <= j,
            forall|i: int| 0 <= i < res@.len() ==> !listed_in(imported@, (#[trigger] res@[i]).agent_session_id@),
            forall|i: int| 0 <= i < res@.len() ==> (#[trigger] res@[i]).agent@ == agent@,
            forall|k: int| 0 <= k < j && !listed_in(imported@, (#[trigger] listed@[k]).agent_session_id@)
                ==> exists|i: int| 0 <= i < res@.len() && res@[i].agent_session_id == listed@[k].agent_session_id,
        decreases listed.len() - j,
    {
        let entry = &listed[j];
        let ghost before = res@;
        proof {
            assert(listed@.take(j + 1).drop_last() =~= listed@.take(j as int));
            assert(listed@.take(j + 1).last() == listed@[j as int]);
        }
        if !contains_id(imported, entry.agent_session_id.as_str()) {
            let dto = AgentSessionSummaryDto::from_listed(agent, entry);
            res.push(dto);
            proof {
                assert forall|k: int| 0 <= k <= j && !listed_in(imported@, (#[trigger] listed@[k]).agent_session_id@)
                    implies exists|i: int| 0 <= i < res@.len() && res@[i].agent_session_id == listed@[k].agent_session_id by {
                    if k < j {
                        let i = choose|i: int| 0 <= i < before.len() && before[i].agent_session_id == listed@[k].agent_session_id;
                        assert(res@[i] == before[i]);
                    } else {
                        assert(res@[res@.len() - 1].agent_session_id == listed@[k].agent_session_id);
                    }
                }
            }
        }
        j = j + 1;
    }
    proof {
        assert(listed@.take(listed@.len() as int) =~= listed@);
    }
    res
}

/// The answer to `agent.sessions.list`: the page's sessions that are not
/// imported yet, offered in page order, and the page's cursor unchanged.
pub fn sessions_list_result(agent: &str, page: ListedSessionPage, imported: &Vec<String>) -> (res: AgentSessionsListResult)
    ensures
        res.sessions@.len() == unimported(page.sessions@, imported@).len(),
        forall|i: int| 0 <= i < res.sessions@.len() ==> offered_as(agent@, unimported(page.sessions@, imported@)[i],
            #[trigger] res.sessions@[i]),
        res.next_cursor == page.next_cursor,
{
    let sessions = unimported_sessions(agent, &page.sessions, imported);
    AgentSessionsListResult { sessions, next_cursor: page.next_cursor }
}

} // verus!
