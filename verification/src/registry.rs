//! Who may talk to the host: devices paired with it and the one-time
//! pairing codes that pair them. A client's credential is a pairing code,
//! consumed by its first use, or a device token; a development host may
//! also accept a fixed token or any credential.

use vstd::prelude::*;
use crate::admin::{DeviceListResult, DeviceRevokeResult, DeviceSummaryDto, PairingCreateResult, PairingListResult, PairingSummaryDto};
use crate::gateway::{AuthContext, Scope};
use crate::ids::{fresh_id, now_ms, random_u32};
use crate::protocol::{ClientHello, ProtocolError};
use crate::text::{concat2, decimal_u64, owned, spec_decimal, str_equal};
use crate::time::{rfc3339_from_ms, timestamp_text};

verus! {

/// A paired device and the token it authenticates with.
#[derive(Debug, Clone)]
pub struct DeviceRecord {
    pub device_id: String,
    pub label: String,
    pub token: String,
    pub created_at_ms: i64,
    pub last_seen_at_ms: i64,
    pub revoked: bool,
}

/// A one-time pairing code and the label the paired device will get.
#[derive(Debug, Clone)]
pub struct PairingRecord {
    pub pairing_id: String,
    pub code: String,
    pub label: String,
    pub expires_at_ms: i64,
    pub consumed: bool,
}

/// The credentials a development host accepts besides real ones: none
/// outside development mode; in it, the configured token, or any credential
/// when none is configured.
#[derive(Debug, Clone)]
pub struct DevAccess {
    pub dev_mode: bool,
    pub dev_token: Option<String>,
}

/// The devices and pairings of a host.
#[derive(Debug, Clone)]
pub struct CredentialRegistry {
    pub devices: Vec<DeviceRecord>,
    pub pairings: Vec<PairingRecord>,
}

/// Whether pairing `p` accepts `credential` at time `now`: its code,
/// unused and not expired.
pub open spec fn pairing_accepts(p: PairingRecord, credential: Seq<char>, now: i64) -> bool {
    p.code@ == credential && !p.consumed && p.expires_at_ms >= now
}

/// Whether device `d` accepts `credential`: its token, not revoked.
pub open spec fn device_accepts(d: DeviceRecord, credential: Seq<char>) -> bool {
    d.token@ == credential && !d.revoked
}

/// The index of the first pairing that accepts `credential` at `now`, or -1.
pub open spec fn accepting_pairing(pairings: Seq<PairingRecord>, credential: Seq<char>, now: i64) -> int
    decreases pairings.len(),
{
    if pairings.len() == 0 {
        -1
    } else if pairing_accepts(pairings[0], credential, now) {
        0
    } else {
        let rest = accepting_pairing(pairings.drop_first(), credential, now);
        if rest < 0 { -1 } else { rest + 1 }
    }
}

/// The index of the first device that accepts `credential`, or -1.
pub open spec fn accepting_device(devices: Seq<DeviceRecord>, credential: Seq<char>) -> int
    decreases devices.len(),
{
    if devices.len() == 0 {
        -1
    } else if device_accepts(devices[0], credential) {
        0
    } else {
        let rest = accepting_device(devices.drop_first(), credential);
        if rest < 0 { -1 } else { rest + 1 }
    }
}

proof fn lemma_accepting_pairing(pairings: Seq<PairingRecord>, credential: Seq<char>, now: i64, i: int)
    requires
        0 <= i <= pairings.len(),
        forall|j: int| 0 <= j < i ==> !pairing_accepts(#[trigger] pairings[j], credential, now),
        i < pairings.len() ==> pairing_accepts(pairings[i], credential, now),
    ensures
        accepting_pairing(pairings, credential, now) == if i < pairings.len() { i } else { -1 },
    decreases i,
{
    if i > 0 {
        assert forall|j: int| 0 <= j < i - 1 implies !pairing_accepts(#[trigger] pairings.drop_first()[j], credential, now) by {
            assert(pairings.drop_first()[j] == pairings[j + 1]);
        }
        if i < pairings.len() {
            assert(pairings.drop_first()[i - 1] == pairings[i]);
        }
        lemma_accepting_pairing(pairings.drop_first(), credential, now, i - 1);
        assert(!pairing_accepts(pairings[0], credential, now));
    }
}

proof fn lemma_accepting_device(devices: Seq<DeviceRecord>, credential: Seq<char>, i: int)
    requires
        0 <= i <= devices.len(),
        forall|j: int| 0 <= j < i ==> !device_accepts(#[trigger] devices[j], credential),
        i < devices.len() ==> device_accepts(devices[i], credential),
    ensures
        accepting_device(devices, credential) == if i < devices.len() { i } else { -1 },
    decreases i,
{
    if i > 0 {
        assert forall|j: int| 0 <= j < i - 1 implies !device_accepts(#[trigger] devices.drop_first()[j], credential) by {
            assert(devices.drop_first()[j] == devices[j + 1]);
        }
        if i < devices.len() {
            assert(devices.drop_first()[i - 1] == devices[i]);
        }
        lemma_accepting_device(devices.drop_first(), credential, i - 1);
        assert(!device_accepts(devices[0], credential));
    }
}

/// `ctx` speaks for device `device_id` labelled `label`, with every scope.
pub open spec fn grants_all(ctx: AuthContext, device_id: Seq<char>, label: Seq<char>) -> bool {
    &&& ctx.device_id@ == device_id
    &&& ctx.device_label@ == label
    &&& forall|s: Scope| ctx.scopes@.contains(s)
}

/// `e` refuses authentication with `reason`.
pub open spec fn unauthenticated(e: ProtocolError, reason: Seq<char>) -> bool {
    e matches ProtocolError::Unauthenticated(m) && m@ == reason
}

/// The credential a hello presents; none reads as empty.
pub open spec fn credential_of(hello: ClientHello) -> Seq<char> {
    match hello.credential {
        Some(c) => c@,
        None => Seq::empty(),
    }
}

/// Whether a development host accepts `credential`.
pub open spec fn dev_accepts(access: DevAccess, credential: Seq<char>) -> bool {
    access.dev_mode && match access.dev_token {
        Some(t) => t@ == credential,
        None => true,
    }
}

/// Ten to the power `k`.
pub open spec fn ten_pow(k: nat) -> nat
    decreases k,
{
    if k == 0 { 1 } else { 10 * ten_pow((k - 1) as nat) }
}

/// `n` in decimal, padded with zeros on the left to `width` digits.
pub open spec fn padded_decimal(n: nat, width: nat) -> Seq<char> {
    let digits = spec_decimal(n);
    if digits.len() < width {
        Seq::new((width - digits.len()) as nat, |i: int| '0') + digits
    } else {
        digits
    }
}

proof fn lemma_decimal_len(n: nat, k: nat)
    requires
        k >= 1,
        n < ten_pow(k),
    ensures
        spec_decimal(n).len() <= k,
    decreases k,
{
    if n >= 10 {
        reveal_with_fuel(ten_pow, 2);
        assert(k >= 2);
        let below = ten_pow((k - 1) as nat);
        assert(n / 10 < below) by (nonlinear_arith)
            requires
                n < 10 * below,
        ;
        lemma_decimal_len(n / 10, (k - 1) as nat);
    }
}

/// The six-digit code of `value`: the value modulo one million, zero padded.
pub open spec fn code_of(value: u32) -> Seq<char> {
    padded_decimal((value % 1_000_000) as nat, 6)
}

/// The six-digit pairing code of `value`: the value modulo one million,
/// zero padded.
pub fn pairing_code(value: u32) -> (res: String)
    ensures
        res@ == code_of(value),
        res@.len() == 6,
{
    let n: u64 = (value % 1_000_000) as u64;
    let digits = decimal_u64(n);
    proof {
        reveal_with_fuel(ten_pow, 7);
        lemma_decimal_len(n as nat, 6);
        reveal_strlit("0");
    }
    let len = digits.as_str().unicode_len();
    let pad: usize = 6 - len;
    let mut res = String::new();
    let mut i: usize = 0;
    while i < pad
        invariant
            i <= pad,
            res@ == Seq::new(i as nat, |j: int| '0'),
        decreases pad - i,
    {
        proof {
            reveal_strlit("0");
        }
        res.append("0");
        i = i + 1;
        assert(res@ =~= Seq::new(i as nat, |j: int| '0'));
    }
    res.append(digits.as_str());
    assert(res@ =~= padded_decimal(n as nat, 6));
    res
}

/// A fresh random six-digit pairing code.
pub fn generate_pairing_code() -> (res: String)
    ensures
        exists|value: u32| res@ == #[trigger] code_of(value),
        res@.len() == 6,
{
    let value = random_u32();
    pairing_code(value)
}

/// The link a pairing client scans: the host, the code and the address to
/// reach the host at.
pub open spec fn pairing_link(server_id: Seq<char>, code: Seq<char>, address: Seq<char>) -> Seq<char> {
    "slight://pair?host="@ + server_id + "&code="@ + code + "&addr="@ + address
}

/// `dto` lists pairing `p`.
pub open spec fn pairing_listed(dto: PairingSummaryDto, p: PairingRecord) -> bool {
    &&& dto.pairing_id@ == p.pairing_id@
    &&& dto.code@ == p.code@
    &&& dto.label@ == p.label@
    &&& dto.expires_at@ == timestamp_text(p.expires_at_ms as int)
    &&& dto.consumed == p.consumed
}

/// `dto` lists device `d`.
pub open spec fn device_listed(dto: DeviceSummaryDto, d: DeviceRecord) -> bool {
    &&& dto.device_id@ == d.device_id@
    &&& dto.label@ == d.label@
    &&& dto.created_at@ == timestamp_text(d.created_at_ms as int)
    &&& dto.last_seen_at@ == timestamp_text(d.last_seen_at_ms as int)
    &&& dto.revoked == d.revoked
}

/// The index of the first device with identifier `id`, or -1.
pub open spec fn device_index(devices: Seq<DeviceRecord>, id: Seq<char>) -> int
    decreases devices.len(),
{
    if devices.len() == 0 {
        -1
    } else if devices[0].device_id@ == id {
        0
    } else {
        let rest = device_index(devices.drop_first(), id);
        if rest < 0 { -1 } else { rest + 1 }
    }
}

proof fn lemma_device_index(devices: Seq<DeviceRecord>, id: Seq<char>, i: int)
    requires
        0 <= i <= devices.len(),
        forall|j: int| 0 <= j < i ==> (#[trigger] devices[j]).device_id@ != id,
        i < devices.len() ==> devices[i].device_id@ == id,
    ensures
        device_index(devices, id) == if i < devices.len() { i } else { -1 },
    decreases i,
{
    if i > 0 {
        assert forall|j: int| 0 <= j < i - 1 implies (#[trigger] devices.drop_first()[j]).device_id@ != id by {
            assert(devices.drop_first()[j] == devices[j + 1]);
        }
        if i < devices.len() {
            assert(devices.drop_first()[i - 1] == devices[i]);
        }
        lemma_device_index(devices.drop_first(), id, i - 1);
        assert(devices[0].device_id@ != id);
    }
}

/// The number of devices that are not revoked.
pub open spec fn active_devices(devices: Seq<DeviceRecord>) -> nat
    decreases devices.len(),
{
    if devices.len() == 0 {
        0
    } else {
        active_devices(devices.drop_last()) + if devices.last().revoked { 0nat } else { 1nat }
    }
}

proof fn lemma_active_devices_bound(devices: Seq<DeviceRecord>)
    ensures
        active_devices(devices) <= devices.len(),
    decreases devices.len(),
{
    if devices.len() > 0 {
        lemma_active_devices_bound(devices.drop_last());
    }
}

/// The summary of device `device`.
pub fn device_dto(device: &DeviceRecord) -> (res: DeviceSummaryDto)
    ensures
        device_listed(res, *device),
{
    DeviceSummaryDto {
        device_id: device.device_id.clone(),
        label: device.label.clone(),
        created_at: rfc3339_from_ms(device.created_at_ms),
        last_seen_at: rfc3339_from_ms(device.last_seen_at_ms),
        revoked: device.revoked,
    }
}

/// The summary of pairing `pairing`.
pub fn pairing_dto(pairing: &PairingRecord) -> (res: PairingSummaryDto)
    ensures
        pairing_listed(res, *pairing),
{
    PairingSummaryDto {
        pairing_id: pairing.pairing_id.clone(),
        code: pairing.code.clone(),
        label: pairing.label.clone(),
        expires_at: rfc3339_from_ms(pairing.expires_at_ms),
        consumed: pairing.consumed,
    }
}

/// What authenticating `hello` at time `now` does, from registry `old` to
/// registry `new`, where a paired device gets the id `device-` followed by
/// `fresh_device` and the token `fresh_token`. An empty credential is
/// refused. A pairing code that is unused and not expired pairs a new
/// device and is used up. Else a token of a device that is not revoked
/// authenticates it (and marks it seen). Else a development host may accept
/// the credential for the hello's own device. Anything else is refused as
/// invalid.
pub open spec fn authenticated(old: CredentialRegistry, new: CredentialRegistry, hello: ClientHello, access: DevAccess,
    now: i64, fresh_device: Seq<char>, fresh_token: Seq<char>, res: Result<AuthContext, ProtocolError>) -> bool {
    let cred = credential_of(hello);
    let p = accepting_pairing(old.pairings@, cred, now);
    let d = accepting_device(old.devices@, cred);
    if cred.len() == 0 {
        &&& res matches Err(e) && unauthenticated(e, "credential required"@)
        &&& new.devices@ == old.devices@
        &&& new.pairings@ == old.pairings@
    } else if p >= 0 {
        let pairing = old.pairings@[p];
        let device = new.devices@.last();
        &&& res matches Ok(ctx) && grants_all(ctx, "device-"@ + fresh_device, pairing.label@)
        &&& new.pairings@ == old.pairings@.update(p, PairingRecord { consumed: true, ..pairing })
        &&& new.devices@.len() == old.devices@.len() + 1
        &&& new.devices@.drop_last() == old.devices@
        &&& device.device_id@ == "device-"@ + fresh_device
        &&& device.label == pairing.label
        &&& device.token@ == fresh_token
        &&& device.created_at_ms == now && device.last_seen_at_ms == now
        &&& !device.revoked
    } else if d >= 0 {
        let device = old.devices@[d];
        &&& res matches Ok(ctx) && grants_all(ctx, device.device_id@, device.label@)
        &&& new.devices@ == old.devices@.update(d, DeviceRecord { last_seen_at_ms: now, ..device })
        &&& new.pairings@ == old.pairings@
    } else {
        &&& new.devices@ == old.devices@
        &&& new.pairings@ == old.pairings@
        &&& dev_accepts(access, cred) ==> (res matches Ok(ctx) && grants_all(ctx,
            match hello.device_id { Some(id) => id@, None => "dev-device"@ }, hello.client_name@))
        &&& !dev_accepts(access, cred) ==> (res matches Err(e) && unauthenticated(e, "invalid credential"@))
    }
}

/// Whether no pairing of `pairings` has the code `credential`, used or
/// not, expired or not.
pub open spec fn no_pairing_code(pairings: Seq<PairingRecord>, credential: Seq<char>) -> bool {
    forall|i: int| 0 <= i < pairings.len() ==> (#[trigger] pairings[i]).code@ != credential
}

/// With no pairing of that code, no pairing accepts a credential, whatever
/// the time.
proof fn lemma_no_pairing_code(pairings: Seq<PairingRecord>, credential: Seq<char>, now: i64)
    requires
        no_pairing_code(pairings, credential),
    ensures
        accepting_pairing(pairings, credential, now) == -1,
    decreases pairings.len(),
{
    if pairings.len() > 0 {
        assert(pairings[0].code@ != credential);
        assert forall|i: int| 0 <= i < pairings.drop_first().len() implies (#[trigger] pairings.drop_first()[i]).code@
            != credential by {
            assert(pairings.drop_first()[i] == pairings[i + 1]);
        }
        lemma_no_pairing_code(pairings.drop_first(), credential, now);
    }
}

impl CredentialRegistry {
    pub fn new() -> (res: Self)
        ensures
            res.devices@.len() == 0,
            res.pairings@.len() == 0,
    {
        CredentialRegistry { devices: Vec::new(), pairings: Vec::new() }
    }

    /// Decides who `hello` speaks for at time `now`. An empty credential is
    /// refused. A pairing code that is unused and not expired pairs a new
    /// device, `device-` followed by `fresh_device`, with token
    /// `fresh_token`, and is used up. Else a token of a device that is not
    /// revoked authenticates it (and marks it seen). Else a development host
    /// may accept the credential for the hello's own device. Anything else
    /// is refused as invalid.
    pub fn authenticate_at(&mut self, hello: &ClientHello, access: &DevAccess, now: i64, fresh_device: &str,
        fresh_token: &str) -> (res: Result<AuthContext, ProtocolError>)
        ensures
            authenticated(*old(self), *final(self), *hello, *access, now, fresh_device@, fresh_token@, res),
    {
        let credential = match &hello.credential {
            Some(c) => c.clone(),
            None => String::new(),
        };
        if credential.unicode_len() == 0 {
            return Err(ProtocolError::Unauthenticated(owned("credential required")));
        }
        let ghost cred = credential@;
        let mut i: usize = 0;
        while i < self.pairings.len()
            invariant
                i <= self.pairings@.len(),
                self.pairings@ == old(self).pairings@,
                self.devices@ == old(self).devices@,
                cred == credential@,
                cred == credential_of(*hello),
                cred.len() != 0,
                forall|j: int| 0 <= j < i ==> !pairing_accepts(#[trigger] self.pairings@[j], cred, now),
            decreases self.pairings.len() - i,
        {
            let usable = {
                let p = &self.pairings[i];
                str_equal(p.code.as_str(), credential.as_str()) && !p.consumed && p.expires_at_ms >= now
            };
            if usable {
                proof {
                    lemma_accepting_pairing(self.pairings@, cred, now, i as int);
                }
                let pairing = {
                    let p = &self.pairings[i];
                    PairingRecord {
                        pairing_id: p.pairing_id.clone(),
                        code: p.code.clone(),
                        label: p.label.clone(),
                        expires_at_ms: p.expires_at_ms,
                        consumed: true,
                    }
                };
                let label = pairing.label.clone();
                self.pairings.set(i, pairing);
                let device_id = concat2("device-", fresh_device);
                self.devices.push(DeviceRecord {
                    device_id: device_id.clone(),
                    label: label.clone(),
                    token: owned(fresh_token),
                    created_at_ms: now,
                    last_seen_at_ms: now,
                    revoked: false,
                });
                let res = Ok(AuthContext::all(device_id.as_str(), label.as_str()));
                proof {
                    let pr = old(self).pairings@[i as int];
                    assert(accepting_pairing(old(self).pairings@, cred, now) == i);
                    assert(self.pairings@ == old(self).pairings@.update(i as int, PairingRecord { consumed: true, ..pr }));
                    assert(self.devices@.drop_last() == old(self).devices@);
                    assert(self.devices@.last().label == pr.label);
                    assert(res matches Ok(ctx) && grants_all(ctx, "device-"@ + fresh_device@, pr.label@));
                }
                return res;
            }
            i = i + 1;
        }
        proof {
            lemma_accepting_pairing(self.pairings@, cred, now, self.pairings@.len() as int);
        }
        let mut k: usize = 0;
        while k < self.devices.len()
            invariant
                k <= self.devices@.len(),
                self.pairings@ == old(self).pairings@,
                self.devices@ == old(self).devices@,
                cred == credential@,
                cred == credential_of(*hello),
                cred.len() != 0,
                accepting_pairing(old(self).pairings@, cred, now) == -1,
                forall|j: int| 0 <= j < k ==> !device_accepts(#[trigger] self.devices@[j], cred),
            decreases self.devices.len() - k,
        {
            let usable = str_equal(self.devices[k].token.as_str(), credential.as_str()) && !self.devices[k].revoked;
            if usable {
                proof {
                    lemma_accepting_device(self.devices@, cred, k as int);
                }
                let device = {
                    let d = &self.devices[k];
                    DeviceRecord {
                        device_id: d.device_id.clone(),
                        label: d.label.clone(),
                        token: d.token.clone(),
                        created_at_ms: d.created_at_ms,
                        last_seen_at_ms: now,
                        revoked: d.revoked,
                    }
                };
                let device_id = device.device_id.clone();
                let label = device.label.clone();
                self.devices.set(k, device);
                return Ok(AuthContext::all(device_id.as_str(), label.as_str()));
            }
            k = k + 1;
        }
        proof {
            lemma_accepting_device(self.devices@, cred, self.devices@.len() as int);
        }
        if access.dev_mode {
            let accepted = match &access.dev_token {
                Some(token) => str_equal(token.as_str(), credential.as_str()),
                None => true,
            };
            if accepted {
                let device_id = match &hello.device_id {
                    Some(id) => id.clone(),
                    None => owned("dev-device"),
                };
                return Ok(AuthContext::all(device_id.as_str(), hello.client_name.as_str()));
            }
        }
        Err(ProtocolError::Unauthenticated(owned("invalid credential")))
    }

    /// Decides who `hello` speaks for now, pairing a new device under fresh
    /// random identifiers when a pairing code is presented.
    pub fn authenticate(&mut self, hello: &ClientHello, access: &DevAccess) -> (res: Result<AuthContext, ProtocolError>)
        ensures
            exists|now: i64, fresh_device: Seq<char>, fresh_token: Seq<char>|
                authenticated(*old(self), *final(self), *hello, *access, now, fresh_device, fresh_token, res),
            credential_of(*hello).len() == 0 ==> (res matches Err(e) && unauthenticated(e, "credential required"@)),
            res matches Err(e) ==> final(self).devices@ == old(self).devices@ && final(self).pairings@ == old(self).pairings@,
            ({
                let cred = credential_of(*hello);
                let d = accepting_device(old(self).devices@, cred);
                cred.len() > 0 && no_pairing_code(old(self).pairings@, cred) ==> if d >= 0 {
                    &&& res matches Ok(ctx) && grants_all(ctx, old(self).devices@[d].device_id@, old(self).devices@[d].label@)
                    &&& final(self).pairings@ == old(self).pairings@
                    &&& final(self).devices@.len() == old(self).devices@.len()
                } else {
                    &&& final(self).devices@ == old(self).devices@
                    &&& final(self).pairings@ == old(self).pairings@
                    &&& dev_accepts(*access, cred) ==> (res matches Ok(ctx) && grants_all(ctx,
                        match hello.device_id { Some(id) => id@, None => "dev-device"@ }, hello.client_name@))
                    &&& !dev_accepts(*access, cred) ==> (res matches Err(e) && unauthenticated(e, "invalid credential"@))
                }
            }),
    {
        let now = now_ms();
        let device = fresh_id();
        let token = fresh_id();
        let res = self.authenticate_at(hello, access, now, device.as_str(), token.as_str());
        proof {
            let cred = credential_of(*hello);
            lemma_accepting_device_found(old(self).devices@, cred);
            if no_pairing_code(old(self).pairings@, cred) {
                lemma_no_pairing_code(old(self).pairings@, cred, now);
            }
            assert(authenticated(*old(self), *self, *hello, *access, now, device@, token@, res));
        }
        res
    }
}


impl CredentialRegistry {
    /// Opens a pairing at time `now` that lasts `ttl_secs` seconds, under
    /// identifier `pairing_id` and code `code`, for a device to be labelled
    /// `label`, on host `server_id` reached at `address`.
    pub fn begin_pairing_at(&mut self, label: &str, now: i64, ttl_secs: u64, pairing_id: &str, code: &str,
        server_id: &str, address: &str) -> (res: PairingCreateResult)
        requires
            ttl_secs * 1000 <= i64::MAX,
            now + ttl_secs * 1000 <= i64::MAX,
        ensures
            final(self).devices@ == old(self).devices@,
            final(self).pairings@.len() == old(self).pairings@.len() + 1,
            final(self).pairings@.drop_last() == old(self).pairings@,
            ({
                let p = final(self).pairings@.last();
                &&& p.pairing_id@ == pairing_id@
                &&& p.code@ == code@
                &&& p.label@ == label@
                &&& p.expires_at_ms == now + ttl_secs * 1000
                &&& !p.consumed
            }),
            res.pairing_id@ == pairing_id@,
            res.code@ == code@,
            res.label@ == label@,
            res.expires_at@ == timestamp_text(now + ttl_secs * 1000),
            res.qr_payload@ == pairing_link(server_id@, code@, address@),
    {
        let ttl: i64 = ttl_secs as i64;
        let expires_at_ms: i64 = now + ttl * 1000;
        self.pairings.push(PairingRecord {
            pairing_id: owned(pairing_id),
            code: owned(code),
            label: owned(label),
            expires_at_ms,
            consumed: false,
        });
        let mut qr_payload = concat2("slight://pair?host=", server_id);
        qr_payload.append("&code=");
        qr_payload.append(code);
        qr_payload.append("&addr=");
        qr_payload.append(address);
        proof {
            assert(self.pairings@.drop_last() == old(self).pairings@);
        }
        PairingCreateResult {
            pairing_id: owned(pairing_id),
            code: owned(code),
            label: owned(label),
            expires_at: rfc3339_from_ms(expires_at_ms),
            qr_payload,
        }
    }

    /// Opens a pairing now that lasts `ttl_secs` seconds, under a fresh
    /// identifier and a fresh random code; `None` when its expiry would not
    /// fit the clock's range.
    pub fn begin_pairing(&mut self, label: &str, ttl_secs: u64, server_id: &str, address: &str) -> (res:
        Option<PairingCreateResult>)
        ensures
            res is None ==> final(self).devices@ == old(self).devices@ && final(self).pairings@ == old(self).pairings@,
            res matches Some(r) ==> {
                &&& final(self).devices@ == old(self).devices@
                &&& final(self).pairings@.drop_last() == old(self).pairings@
                &&& final(self).pairings@.len() == old(self).pairings@.len() + 1
                &&& r.label@ == label@
                &&& r.code@.len() == 6
                &&& r.code@ == final(self).pairings@.last().code@
                &&& r.pairing_id@ == final(self).pairings@.last().pairing_id@
                &&& final(self).pairings@.last().label@ == label@
                &&& !final(self).pairings@.last().consumed
                &&& r.expires_at@ == timestamp_text(final(self).pairings@.last().expires_at_ms as int)
                &&& r.qr_payload@ == pairing_link(server_id@, r.code@, address@)
            },
            ttl_secs * 1000 > i64::MAX ==> res is None,
    {
        let now = now_ms();
        if ttl_secs > 9_223_372_036_854_775 {
            return None;
        }
        let ttl: i64 = ttl_secs as i64;
        let span: i64 = ttl * 1000;
        if now > i64::MAX - span {
            return None;
        }
        let pairing_id = fresh_id();
        let code = generate_pairing_code();
        Some(self.begin_pairing_at(label, now, ttl_secs, pairing_id.as_str(), code.as_str(), server_id, address))
    }

    /// The summaries of all pairings, in the order they were opened.
    pub fn list_pairings(&self) -> (res: PairingListResult)
        ensures
            res.pairings@.len() == self.pairings@.len(),
            forall|i: int| 0 <= i < self.pairings@.len() ==> pairing_listed(#[trigger] res.pairings@[i], self.pairings@[i]),
    {
        let mut pairings: Vec<PairingSummaryDto> = Vec::new();
        let mut i: usize = 0;
        while i < self.pairings.len()
            invariant
                i <= self.pairings@.len(),
                pairings@.len() == i,
                forall|j: int| 0 <= j < i ==> pairing_listed(#[trigger] pairings@[j], self.pairings@[j]),
            decreases self.pairings.len() - i,
        {
            pairings.push(pairing_dto(&self.pairings[i]));
            i = i + 1;
        }
        PairingListResult { pairings }
    }

    /// The summaries of all devices, in the order they were paired.
    pub fn list_devices(&self) -> (res: DeviceListResult)
        ensures
            res.devices@.len() == self.devices@.len(),
            forall|i: int| 0 <= i < self.devices@.len() ==> device_listed(#[trigger] res.devices@[i], self.devices@[i]),
    {
        let mut devices: Vec<DeviceSummaryDto> = Vec::new();
        let mut i: usize = 0;
        while i < self.devices.len()
            invariant
                i <= self.devices@.len(),
                devices@.len() == i,
                forall|j: int| 0 <= j < i ==> device_listed(#[trigger] devices@[j], self.devices@[j]),
            decreases self.devices.len() - i,
        {
            devices.push(device_dto(&self.devices[i]));
            i = i + 1;
        }
        DeviceListResult { devices }
    }

    /// Revokes the device `device_id`: its token no longer authenticates.
    /// An unknown device is refused as invalid parameters.
    pub fn revoke_device(&mut self, device_id: &str) -> (res: Result<DeviceRevokeResult, ProtocolError>)
        ensures
            final(self).pairings@ == old(self).pairings@,
            ({
                let i = device_index(old(self).devices@, device_id@);
                if i < 0 {
                    &&& res matches Err(ProtocolError::InvalidParams(m)) && m@ == "unknown device: "@ + device_id@
                    &&& final(self).devices@ == old(self).devices@
                } else {
                    let revoked = DeviceRecord { revoked: true, ..old(self).devices@[i] };
                    &&& final(self).devices@ == old(self).devices@.update(i, revoked)
                    &&& res matches Ok(r) && device_listed(r.device, revoked)
                }
            }),
    {
        let mut i: usize = 0;
        while i < self.devices.len()
            invariant
                i <= self.devices@.len(),
                self.devices@ == old(self).devices@,
                self.pairings@ == old(self).pairings@,
                forall|j: int| 0 <= j < i ==> (#[trigger] self.devices@[j]).device_id@ != device_id@,
            decreases self.devices.len() - i,
        {
            if str_equal(self.devices[i].device_id.as_str(), device_id) {
                proof {
                    lemma_device_index(self.devices@, device_id@, i as int);
                }
                let device = {
                    let d = &self.devices[i];
                    DeviceRecord {
                        device_id: d.device_id.clone(),
                        label: d.label.clone(),
                        token: d.token.clone(),
                        created_at_ms: d.created_at_ms,
                        last_seen_at_ms: d.last_seen_at_ms,
                        revoked: true,
                    }
                };
                let dto = device_dto(&device);
                self.devices.set(i, device);
                return Ok(DeviceRevokeResult { device: dto });
            }
            i = i + 1;
        }
        proof {
            lemma_device_index(self.devices@, device_id@, self.devices@.len() as int);
        }
        Err(ProtocolError::InvalidParams(concat2("unknown device: ", device_id)))
    }

    /// The number of paired devices that are not revoked.
    pub fn paired_device_count(&self) -> (res: usize)
        ensures
            res == active_devices(self.devices@),
    {
        let mut count: usize = 0;
        let mut i: usize = 0;
        while i < self.devices.len()
            invariant
                i <= self.devices@.len(),
                count == active_devices(self.devices@.subrange(0, i as int)),
                count <= i,
            decreases self.devices.len() - i,
        {
            proof {
                assert(self.devices@.subrange(0, i + 1).drop_last() == self.devices@.subrange(0, i as int));
            }
            if !self.devices[i].revoked {
                count = count + 1;
            }
            i = i + 1;
        }
        assert(self.devices@.subrange(0, i as int) == self.devices@);
        count
    }
}

/// A pairing code is spent by its first use: once the pairing that
/// accepted `credential` at `now` is marked used, it accepts no credential
/// at any time, and a later authentication cannot pick it again.
pub proof fn law_pairing_single_use(pairings: Seq<PairingRecord>, credential: Seq<char>, now: i64, other: Seq<char>,
    later: i64)
    requires
        accepting_pairing(pairings, credential, now) >= 0,
    ensures
        ({
            let p = accepting_pairing(pairings, credential, now);
            let spent = pairings.update(p, PairingRecord { consumed: true, ..pairings[p] });
            &&& !pairing_accepts(spent[p], other, later)
            &&& accepting_pairing(spent, other, later) != p
        }),
{
    let p = accepting_pairing(pairings, credential, now);
    lemma_accepting_pairing_found(pairings, credential, now);
    let spent = pairings.update(p, PairingRecord { consumed: true, ..pairings[p] });
    lemma_accepting_pairing_found(spent, other, later);
}

/// A revoked device's token no longer authenticates it: once the device
/// `device_id` is marked revoked, no credential is accepted as that device.
pub proof fn law_revoked_device_refused(devices: Seq<DeviceRecord>, device_id: Seq<char>, credential: Seq<char>)
    requires
        device_index(devices, device_id) >= 0,
    ensures
        ({
            let i = device_index(devices, device_id);
            let revoked = devices.update(i, DeviceRecord { revoked: true, ..devices[i] });
            &&& !device_accepts(revoked[i], credential)
            &&& accepting_device(revoked, credential) != i
        }),
{
    let i = device_index(devices, device_id);
    lemma_device_index_found(devices, device_id);
    let revoked = devices.update(i, DeviceRecord { revoked: true, ..devices[i] });
    lemma_accepting_device_found(revoked, credential);
}

/// Where `accepting_pairing` points, the pairing accepts the credential.
proof fn lemma_accepting_pairing_found(pairings: Seq<PairingRecord>, credential: Seq<char>, now: i64)
    ensures
        -1 <= accepting_pairing(pairings, credential, now) < pairings.len(),
        accepting_pairing(pairings, credential, now) >= 0 ==> pairing_accepts(
            pairings[accepting_pairing(pairings, credential, now)],
            credential,
            now,
        ),
    decreases pairings.len(),
{
    if pairings.len() > 0 && !pairing_accepts(pairings[0], credential, now) {
        lemma_accepting_pairing_found(pairings.drop_first(), credential, now);
    }
}

/// Where `accepting_device` points, the device accepts the credential.
proof fn lemma_accepting_device_found(devices: Seq<DeviceRecord>, credential: Seq<char>)
    ensures
        -1 <= accepting_device(devices, credential) < devices.len(),
        accepting_device(devices, credential) >= 0 ==> device_accepts(
            devices[accepting_device(devices, credential)],
            credential,
        ),
    decreases devices.len(),
{
    if devices.len() > 0 && !device_accepts(devices[0], credential) {
        lemma_accepting_device_found(devices.drop_first(), credential);
    }
}

/// `device_index` points inside the sequence, at a device with that identifier.
proof fn lemma_device_index_found(devices: Seq<DeviceRecord>, id: Seq<char>)
    ensures
        -1 <= device_index(devices, id) < devices.len(),
        device_index(devices, id) >= 0 ==> devices[device_index(devices, id)].device_id@ == id,
    decreases devices.len(),
{
    if devices.len() > 0 && devices[0].device_id@ != id {
        lemma_device_index_found(devices.drop_first(), id);
    }
}

} // verus!
