//! Arithmetic and fault policy for a core that runs without an operating
//! system: one addition that wraps, and a fault handler that halts.

use vstd::prelude::*;

pub mod fault;

verus! {

/// Adds two unsigned 32-bit integers. A sum that does not fit in 32 bits
/// wraps around, and no input makes the function fail.
pub fn add(lhs: u32, rhs: u32) -> (sum: u32)
    ensures
        sum == (lhs + rhs) % 0x1_0000_0000,
    no_unwind
{
    let room: u32 = u32::MAX - lhs;
    if rhs <= room {
        lhs + rhs
    } else {
        rhs - room - 1
    }
}

} // verus!
