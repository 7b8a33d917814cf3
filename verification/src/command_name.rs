//! The command names of the gateway contract.

use vstd::prelude::*;

verus! {

pub const SESSION_RESUME: &'static str = "session.resume";
pub const SESSION_LIST: &'static str = "session.list";
pub const SESSION_WORKING_DIRECTORIES: &'static str = "session.working_directories";
pub const SESSION_CREATE: &'static str = "session.create";
pub const SESSION_ATTACH: &'static str = "session.attach";
pub const SESSION_DETACH: &'static str = "session.detach";
pub const SESSION_INPUT: &'static str = "session.input";
pub const SESSION_CANCEL: &'static str = "session.cancel";
pub const SESSION_RENAME: &'static str = "session.rename";
pub const SESSION_ARCHIVE: &'static str = "session.archive";
pub const SESSION_SET_MODE: &'static str = "session.set_mode";
pub const SESSION_SET_CONFIG_OPTION: &'static str = "session.set_config_option";
pub const SESSION_PERMISSION_RESPOND: &'static str = "session.permission.respond";
pub const SESSION_INSPECT: &'static str = "session.inspect";
pub const SESSION_HISTORY: &'static str = "session.history";
pub const EVENTS_REPLAY: &'static str = "events.replay";
/// Lists native sessions the connected agent already owns.
pub const AGENT_SESSIONS_LIST: &'static str = "agent.sessions.list";
/// Imports one native agent session as a product session.
pub const AGENT_SESSION_IMPORT: &'static str = "agent.sessions.import";
pub const HOST_STATUS: &'static str = "host.status";
pub const HOST_START: &'static str = "host.start";
pub const HOST_STOP: &'static str = "host.stop";
pub const HOST_RESTART: &'static str = "host.restart";
pub const HOST_CONFIGURATION: &'static str = "host.configuration";
pub const HOST_DIAGNOSTICS: &'static str = "host.diagnostics";
pub const HOST_SHUTDOWN: &'static str = "host.shutdown";
pub const DEVICE_LIST: &'static str = "device.list";
pub const DEVICE_REVOKE: &'static str = "device.revoke";
pub const PAIRING_CREATE: &'static str = "pairing.create";
pub const PAIRING_LIST: &'static str = "pairing.list";

} // verus!
