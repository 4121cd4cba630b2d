//! Core counts, thread counts and usage readings.
//!
//! [`cpu`] holds the fixed answers that stand in where no host query is made;
//! [`read`] holds the logic that works on what the host reports.

use vstd::prelude::*;

pub mod cpu;
pub mod read;

verus! {

/// The usage percentage reported where nothing was measured: the bit pattern
/// of the IEEE 754 single-precision number one.
pub const PLACEHOLDER_USAGE: u32 = 0x3F80_0000;

} // verus!
