//! The time stamp of an object file.

use vstd::prelude::*;

verus! {

/// The time stamp for a time given in seconds since the start of 1970: its
/// low 32 bits.
pub open spec fn stamp_of(seconds: int) -> u32 {
    (seconds % 0x1_0000_0000) as u32
}

/// Reads the system clock through `chrono::Local::now` and
/// `DateTime::timestamp`: the seconds since the start of 1970, UTC. Nothing
/// is claimed of the value: it differs from call to call. The call takes no
/// input; it gives up only on a machine whose clock stands before 1970.
#[verifier::external_body]
pub(crate) fn unix_seconds() -> i64 {
    chrono::Local::now().timestamp()
}

/// Cuts a time in seconds to the 32 bits of a time stamp.
pub fn stamp(seconds: i64) -> (r: u32)
    ensures
        r == stamp_of(seconds as int),
{
    if seconds >= 0 {
        ((seconds as u64) % 0x1_0000_0000) as u32
    } else {
        let below: u64 = (-(seconds + 1)) as u64;
        (0xffff_ffff - below % 0x1_0000_0000) as u32
    }
}

} // verus!
