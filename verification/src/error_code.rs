//! The stable error codes of the gateway contract.

use vstd::prelude::*;

verus! {

pub const MALFORMED_FRAME: &'static str = "malformed_frame";
pub const INVALID_VERSION: &'static str = "invalid_version";
pub const UNAUTHENTICATED: &'static str = "unauthenticated";
pub const UNAUTHORIZED: &'static str = "unauthorized";
pub const UNKNOWN_SESSION: &'static str = "unknown_session";
pub const UNSUPPORTED_CAPABILITY: &'static str = "unsupported_capability";
pub const RESYNC_REQUIRED: &'static str = "resync_required";
pub const INVALID_COMMAND: &'static str = "invalid_command";
pub const UNSUPPORTED: &'static str = "unsupported";
pub const INVALID_PARAMS: &'static str = "invalid_params";
pub const INTERNAL: &'static str = "internal";

} // verus!
