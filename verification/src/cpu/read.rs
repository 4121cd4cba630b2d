//! Logic over what the host reports: configuration values and clock readings.

use std::time::{Duration, Instant};
use vstd::prelude::*;
use crate::cpu::PLACEHOLDER_USAGE;

verus! {

/// Nanoseconds in one second.
pub const NANOS_PER_SEC: u128 = 1_000_000_000;

/// How far, in nanoseconds, a reading's time stamp lies after the moment at
/// which it was taken: three seconds.
pub const STAMP_OFFSET_NANOS: u128 = 3_000_000_000;

/// One sample of processor usage.
pub struct CPUReading {
    /// The usage percentage, as the bit pattern of a single-precision number.
    pub cpu_usage: u32,
    /// Nanoseconds on the clock that the reading was taken by.
    pub time_stamp: u128,
}

/// What is known of the system that runs the program.
pub struct SystemInformation {
    /// The instruction set architecture.
    pub arch: String,
    /// The operating system.
    pub os: String,
    /// The maker of the processor.
    pub chip: String,
}

/// A point on the monotonic clock. Nothing is known of a value of it but what
/// the functions below hand out.
#[verifier::external_type_specification]
#[verifier::external_body]
pub struct ExInstant(Instant);

/// `std::time::Instant::now` reads the monotonic clock. Nothing is claimed of the point
/// it returns.
pub assume_specification[ Instant::now ]() -> (now: Instant);

/// `std::time::Instant::elapsed` gives the time that has passed since `start`. Nothing
/// is claimed of the amount.
pub assume_specification[ Instant::elapsed ](start: &Instant) -> (passed: Duration);

/// `std::time::Duration::as_nanos` gives a duration as a whole number of nanoseconds.
/// Nothing is claimed of the number.
pub assume_specification[ Duration::as_nanos ](duration: &Duration) -> (nanos: u128);

/// The number of processor cores, from the host's answer to a query for the
/// configured processors. An answer that is negative, as the host gives on
/// failure, or that does not fit sixteen bits, is no count.
pub fn get_num_cpus(configured: i64) -> (n: Option<u16>)
    ensures
        n.is_some() <==> 0 <= configured <= u16::MAX,
        n matches Some(count) ==> count == configured,
{
    match u16::try_from(configured) {
        Ok(count) => Some(count),
        Err(_) => None,
    }
}

/// The processor's clock speed, from the host's answer to a query for the
/// clock ticks per second. An answer that is negative, as the host gives on
/// failure, or that does not fit sixteen bits, is no speed.
pub fn get_cpu_clock_speed(ticks: i64) -> (speed: Option<u16>)
    ensures
        speed.is_some() <==> 0 <= ticks <= u16::MAX,
        speed matches Some(rate) ==> rate == ticks,
{
    match u16::try_from(ticks) {
        Ok(rate) => Some(rate),
        Err(_) => None,
    }
}

/// Whether a clock that shows `elapsed` nanoseconds since tracking began is
/// still inside a period of `time_period` seconds.
pub open spec fn spec_within_period(elapsed: u128, time_period: u32) -> bool {
    elapsed < time_period * NANOS_PER_SEC
}

/// Decides whether tracking goes on: it does while less than `time_period`
/// seconds have passed.
pub fn within_period(elapsed: u128, time_period: u32) -> (inside: bool)
    ensures
        inside == spec_within_period(elapsed, time_period),
{
    elapsed < (time_period as u128) * NANOS_PER_SEC
}

/// The reading that is taken when the clock shows `now` nanoseconds: the
/// placeholder usage, stamped three seconds after `now`.
pub open spec fn spec_reading(now: u128) -> CPUReading {
    CPUReading { cpu_usage: PLACEHOLDER_USAGE, time_stamp: (now + STAMP_OFFSET_NANOS) as u128 }
}

/// The reading taken when the clock shows `now` nanoseconds. The time stamp
/// has to fit its type.
pub fn get_cpu_usage(now: u128) -> (reading: CPUReading)
    requires
        now + STAMP_OFFSET_NANOS <= u128::MAX,
    ensures
        reading == spec_reading(now),
{
    CPUReading { cpu_usage: PLACEHOLDER_USAGE, time_stamp: now + STAMP_OFFSET_NANOS }
}

/// One turn of tracking, with the clock at `elapsed` nanoseconds since
/// tracking began. Inside the period a reading is taken and put at the end of
/// `cpu_usage`; outside it, or when `cpu_usage` can hold no more, nothing
/// changes. The result says whether a reading was taken.
pub fn take_reading(cpu_usage: &mut Vec<CPUReading>, elapsed: u128, time_period: u32) -> (taken:
    bool)
    ensures
        taken == (spec_within_period(elapsed, time_period) && old(cpu_usage)@.len() < usize::MAX),
        taken ==> final(cpu_usage)@ == old(cpu_usage)@.push(spec_reading(elapsed)),
        !taken ==> final(cpu_usage)@ == old(cpu_usage)@,
{
    if cpu_usage.len() < usize::MAX && within_period(elapsed, time_period) {
        cpu_usage.push(get_cpu_usage(elapsed));
        true
    } else {
        false
    }
}

/// The number of readings as tracking reports it: the length, of which only
/// the low thirty-two bits are kept.
pub fn reading_count(readings: &Vec<CPUReading>) -> (count: u32)
    ensures
        count == readings@.len() % 0x1_0000_0000,
{
    let len: u64 = readings.len() as u64;
    (len % 0x1_0000_0000) as u32
}

/// Takes readings in a tight loop until `time_period` seconds have passed,
/// and returns how many were taken. How many fit in the period depends on the
/// clock; a period of no length takes none. The loop also ends when the
/// readings have reached the greatest length a vector can have, which bounds
/// the number of turns.
pub fn track_cpu_usage(time_period: u32) -> (count: u32)
    ensures
        time_period == 0 ==> count == 0,
{
    let start = Instant::now();
    let mut cpu_usage: Vec<CPUReading> = Vec::new();
    loop
        invariant
            time_period == 0 ==> cpu_usage@.len() == 0,
        decreases usize::MAX - cpu_usage.len(),
    {
        let elapsed: u128 = start.elapsed().as_nanos();
        if !take_reading(&mut cpu_usage, elapsed, time_period) {
            break;
        }
    }
    reading_count(&cpu_usage)
}

/// The system that the program describes itself as running on.
pub fn get_system_info() -> (info: SystemInformation)
    ensures
        info.arch@ == "x86"@,
        info.os@ == "macOS"@,
        info.chip@ == "Intel"@,
{
    SystemInformation {
        arch: "x86".to_owned(),
        os: "macOS".to_owned(),
        chip: "Intel".to_owned(),
    }
}

} // verus!
