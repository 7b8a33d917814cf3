//! Hellos a test client sends.

use vstd::prelude::*;
use crate::protocol::{ClientHello, ResumeRequest, PROTOCOL_VERSION};
use crate::text::owned;

verus! {

/// The hello of the test client `test-client` (named `test`, version
/// `0.1.0`) from device `test-device`, presenting `credential`.
pub fn sample_hello(credential: &str) -> (res: ClientHello)
    ensures
        res.protocol_version == PROTOCOL_VERSION,
        res.client_id@ == "test-client"@,
        res.client_name@ == "test"@,
        res.client_version@ == "0.1.0"@,
        res.device_id matches Some(d) && d@ == "test-device"@,
        res.credential matches Some(c) && c@ == credential@,
        res.resume is None,
{
    ClientHello {
        protocol_version: PROTOCOL_VERSION,
        client_id: owned("test-client"),
        client_name: owned("test"),
        client_version: owned("0.1.0"),
        device_id: Some(owned("test-device")),
        credential: Some(owned(credential)),
        resume: None,
    }
}

/// The same hello, asking to resume session `session_id` after event
/// `sequence`.
pub fn sample_resume_hello(credential: &str, session_id: &str, sequence: u64) -> (res: ClientHello)
    ensures
        ({
            &&& res.protocol_version == PROTOCOL_VERSION
            &&& res.client_id@ == "test-client"@
            &&& res.client_name@ == "test"@
            &&& res.client_version@ == "0.1.0"@
            &&& res.device_id matches Some(d) && d@ == "test-device"@
            &&& res.credential matches Some(c) && c@ == credential@
            &&& res.resume matches Some(r) && (r.session_id matches Some(s) && s@ == session_id@)
                && r.last_event_sequence == Some(sequence)
        }),
{
    let mut hello = sample_hello(credential);
    hello.resume = Some(ResumeRequest { session_id: Some(owned(session_id)), last_event_sequence: Some(sequence) });
    hello
}

} // verus!
