//! Clock access and timestamp formatting.

use vstd::prelude::*;

verus! {

/// Relies on time::OffsetDateTime::now_utc, unix_timestamp and millisecond:
/// the current Unix second and the millisecond within it. The datetime type
/// supports years -9999 to 9999, which bounds the second count; the
/// millisecond is below one thousand. The host clock must lie within that
/// year range: outside it the conversion inside the datetime crate aborts
/// before anything is returned.
#[verifier::external_body]
fn now_unix_parts() -> (r: (i64, u16))
    ensures
        -400_000_000_000 <= r.0 <= 400_000_000_000,
        r.1 <= 999,
{
    let now = time::OffsetDateTime::now_utc();
    (now.unix_timestamp(), now.millisecond())
}

/// The current Unix timestamp in seconds.
pub fn current_timestamp() -> (r: i64)
    ensures
        -400_000_000_000 <= r <= 400_000_000_000,
{
    let (seconds, _) = now_unix_parts();
    seconds
}

/// A millisecond timestamp decomposed into one clock reading: a Unix second
/// within the supported datetime range, and the millisecond within it.
pub open spec fn spec_millis_decomposition(r: i64, seconds: i64, millisecond: u16) -> bool {
    &&& -400_000_000_000 <= seconds <= 400_000_000_000
    &&& millisecond <= 999
    &&& r == seconds * 1000 + millisecond
}

/// The current Unix timestamp in milliseconds: the Unix second times a
/// thousand, plus the millisecond within that second, for one reading of
/// the clock.
pub fn current_timestamp_millis() -> (r: i64)
    ensures
        exists|seconds: i64, millisecond: u16|
            #[trigger] spec_millis_decomposition(r, seconds, millisecond),
        -400_000_000_001_000 <= r <= 400_000_000_000_999,
{
    let (seconds, millisecond) = now_unix_parts();
    let r = seconds * 1000 + (millisecond as i64);
    proof {
        assert(spec_millis_decomposition(r, seconds, millisecond));
    }
    r
}

/// What formatting a Unix-millisecond timestamp yields; the result depends
/// on the timestamp alone.
pub uninterp spec fn rfc3339_of(unix_ms: int) -> Seq<char>;

/// Relies on time::OffsetDateTime::from_unix_timestamp_nanos and
/// OffsetDateTime::format with the RFC 3339 description: a textual form of
/// the timestamp, falling back to the default rendering where the format or
/// range is not representable.
#[verifier::external_body]
pub fn format_rfc3339_ms(unix_ms: i64) -> (r: String)
    ensures
        r@ == rfc3339_of(unix_ms as int),
{
    match time::OffsetDateTime::from_unix_timestamp_nanos((unix_ms as i128) * 1_000_000) {
        Ok(dt) => dt
            .format(&time::format_description::well_known::Rfc3339)
            .unwrap_or_else(|_| dt.to_string()),
        Err(_) => unix_ms.to_string(),
    }
}

} // verus!
