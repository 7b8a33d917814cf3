//! Fresh identifiers and the wall clock. Both depend on the machine, so no
//! contract states what they return.

use vstd::prelude::*;

verus! {

/// A fresh random identifier, the hyphenated form of a version-4 UUID.
///
/// Calls `uuid::Uuid::new_v4` and renders it with `to_string`. The value is
/// random; only its length is stated: the hyphenated form of a UUID always
/// has 36 characters.
#[verifier::external_body]
pub(crate) fn fresh_id() -> (res: String)
    ensures
        res@.len() == 36,
{
    uuid::Uuid::new_v4().to_string()
}

/// Milliseconds since the Unix epoch, or 0 when the clock reads before it.
///
/// Calls `std::time::SystemTime::now`. Nothing is stated about the result:
/// it is the time.
#[verifier::external_body]
pub fn now_ms() -> (res: i64) {
    std::time::SystemTime::now()
        .duration_since(std::time::UNIX_EPOCH)
        .map(|duration| duration.as_millis() as i64)
        .unwrap_or(0)
}

/// Four random bytes: the first four of a version-4 UUID.
///
/// Calls `uuid::Uuid::new_v4` and reads its bytes with `as_bytes`. Nothing
/// is stated about the result: it is random.
#[verifier::external_body]
fn random_bytes() -> (res: (u8, u8, u8, u8)) {
    let bytes = *uuid::Uuid::new_v4().as_bytes();
    (bytes[0], bytes[1], bytes[2], bytes[3])
}

/// Four random bytes read as a big-endian number.
pub(crate) fn random_u32() -> (res: u32) {
    let (a, b, c, d) = random_bytes();
    (a as u32) * 16777216 + (b as u32) * 65536 + (c as u32) * 256 + (d as u32)
}

} // verus!
