//! The directory guardian's rule on permissions.

use vstd::prelude::*;

verus! {

/// The permission bits that the module directory must carry: read, write and
/// execute for owner, group and others.
pub const REQUIRED_MODE: u32 = 0o777;

/// Whether a mode carries every required permission bit.
pub open spec fn mode_suffices(mode: u32) -> bool {
    mode & REQUIRED_MODE == REQUIRED_MODE
}

/// The mode to give the directory, if the one it has does not suffice.
pub open spec fn mode_fix(mode: u32) -> Option<u32> {
    if mode_suffices(mode) {
        None
    } else {
        Some(REQUIRED_MODE)
    }
}

/// Decides from the directory's current mode whether its permissions must be
/// rewritten, and to what.
pub fn required_mode_change(mode: u32) -> (r: Option<u32>)
    ensures
        r == mode_fix(mode),
        r is None <==> mode_suffices(mode),
        r matches Some(fix) ==> fix == REQUIRED_MODE,
{
    if mode & REQUIRED_MODE == REQUIRED_MODE {
        None
    } else {
        Some(REQUIRED_MODE)
    }
}

/// Once the required mode is written, whatever other bits the directory
/// keeps, the next look finds nothing to rewrite.
pub proof fn fixed_mode_suffices(other_bits: u32)
    ensures
        mode_fix(other_bits | REQUIRED_MODE) is None,
{
    assert((other_bits | 0o777u32) & 0o777u32 == 0o777u32) by (bit_vector);
}

} // verus!
