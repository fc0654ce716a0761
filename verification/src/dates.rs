//! Conversion of Unix-epoch millisecond timestamps to the alias format's
//! native epoch: seconds since 1904-01-01T00:00:00Z, rounded to the
//! nearest second (halves rounding up).

use vstd::prelude::*;

verus! {

/// Milliseconds from 1904-01-01T00:00:00Z to 1970-01-01T00:00:00Z.
pub const MAC_EPOCH_OFFSET_MS: u64 = 2082844800000;

/// The native-epoch second value of a Unix-epoch millisecond timestamp:
/// `round((unix_ms + 2082844800000) / 1000)`, halves rounding up.
pub open spec fn mac_timestamp(unix_ms: u64) -> int {
    (unix_ms + MAC_EPOCH_OFFSET_MS + 500) / 1000
}

/// Converts a Unix-epoch millisecond timestamp to native-epoch seconds,
/// as written into the record's 32-bit date fields.
pub fn apple_date(unix_ms: u64) -> (r: u32)
    requires
        mac_timestamp(unix_ms) <= u32::MAX,
    ensures
        r == mac_timestamp(unix_ms),
{
    (((unix_ms as u128) + (MAC_EPOCH_OFFSET_MS as u128) + 500) / 1000) as u32
}

} // verus!
