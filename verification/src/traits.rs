//! The services the gateway asks of its host: authenticating a client's
//! hello and administering the host. The host implements them.

use vstd::prelude::*;
use crate::admin::{
    DeviceListResult, DeviceRevokeResult, HostDiagnosticsResult, HostLifecycleResult, HostStatusResult,
    PairingCreateResult, PairingListResult,
};
use crate::gateway::AuthContext;
use crate::protocol::{ClientHello, ProtocolError};

verus! {

/// Decides who a client's hello speaks for.
pub trait Authenticator {
    fn authenticate(&self, hello: &ClientHello) -> Result<AuthContext, ProtocolError>;
}

/// The host administration the gateway's `host.*`, `pairing.*` and
/// `device.*` commands reach.
pub trait HostAdmin {
    fn status(&self) -> HostStatusResult;
    fn diagnostics(&self) -> HostDiagnosticsResult;
    fn request_start(&self) -> Result<HostLifecycleResult, ProtocolError>;
    fn request_stop(&self) -> Result<HostLifecycleResult, ProtocolError>;
    fn request_restart(&self) -> Result<HostLifecycleResult, ProtocolError>;
    fn begin_pairing(&self, label: &str) -> Result<PairingCreateResult, ProtocolError>;
    fn list_pairings(&self) -> Result<PairingListResult, ProtocolError>;
    fn list_devices(&self) -> Result<DeviceListResult, ProtocolError>;
    fn revoke_device(&self, device_id: &str) -> Result<DeviceRevokeResult, ProtocolError>;
}

} // verus!
