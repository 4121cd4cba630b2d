//! Fixed answers for hosts on which nothing is queried.

use vstd::prelude::*;
use crate::cpu::PLACEHOLDER_USAGE;

verus! {

/// The number of processor cores on the system.
pub fn get_num_cpus() -> (n: u16)
    ensures
        n == 1,
{
    1
}

/// The number of graphics cores on the system.
pub fn get_num_gpus() -> (n: u16)
    ensures
        n == 1,
{
    1
}

/// The number of processor threads on the system.
pub fn get_num_cpu_threads() -> (n: u16)
    ensures
        n == 1,
{
    1
}

/// The number of graphics threads on the system.
pub fn get_num_gpu_threads() -> (n: u16)
    ensures
        n == 1,
{
    1
}

/// The percentage of processor usage, as the bit pattern of a
/// single-precision number.
pub fn get_cpu_usage() -> (usage: u32)
    ensures
        usage == PLACEHOLDER_USAGE,
{
    PLACEHOLDER_USAGE
}

/// The percentage of graphics usage, as the bit pattern of a
/// single-precision number.
pub fn get_gpu_usage() -> (usage: u32)
    ensures
        usage == PLACEHOLDER_USAGE,
{
    PLACEHOLDER_USAGE
}

/// The percentage of processor usage over `time_period` seconds, as the bit
/// pattern of a single-precision number. The period does not change the
/// answer.
pub fn track_cpu_usage(time_period: u32) -> (usage: u32)
    ensures
        usage == PLACEHOLDER_USAGE,
{
    PLACEHOLDER_USAGE
}

} // verus!
