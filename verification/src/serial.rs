//! Serial-number arithmetic (RFC 1982) on the 32-bit sequence numbers that
//! transfer-ids, delivery counts and windows use.

use vstd::prelude::*;

verus! {

/// Serial addition: `a + b` modulo `2^32`.
pub open spec fn sn_add(a: u32, b: u32) -> u32 {
    if a + b <= u32::MAX {
        (a + b) as u32
    } else {
        (a + b - 0x1_0000_0000) as u32
    }
}

/// Serial subtraction: `a - b` modulo `2^32`.
pub open spec fn sn_sub(a: u32, b: u32) -> u32 {
    if a >= b {
        (a - b) as u32
    } else {
        (a + 0x1_0000_0000 - b) as u32
    }
}

/// Executable serial addition.
pub fn serial_add(a: u32, b: u32) -> (r: u32)
    ensures
        r == sn_add(a, b),
{
    a.wrapping_add(b)
}

/// Executable serial subtraction.
pub fn serial_sub(a: u32, b: u32) -> (r: u32)
    ensures
        r == sn_sub(a, b),
{
    a.wrapping_sub(b)
}

} // verus!
