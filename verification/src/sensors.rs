//! Sensor sample-rate setup for the ICM-20948 outside its DMP mode.
use vstd::prelude::*;

verus! {

/// Base output data rate of the accelerometer, in Hz: its rate is this over `1 + divider`.
pub const ACCEL_BASE_RATE_HZ: u64 = 1125;
/// Base output data rate of the gyroscope, in Hz: its rate is this over `1 + divider`.
pub const GYRO_BASE_RATE_HZ: u64 = 1100;

/// `a - b`, or 0 where `b` exceeds `a`.
pub open spec fn saturating_sub(a: int, b: int) -> int {
    if a >= b {
        a - b
    } else {
        0
    }
}

/// The accelerometer and gyroscope sample-rate dividers that keep each sensor's rate just above
/// the loop rate of one iteration every `loop_period_ms` milliseconds: `base * period / 1000 - 1`
/// (0 at least), cut to the registers' widths (16 bits for the accelerometer, 8 for the
/// gyroscope) as the registers take them.
pub fn odr_dividers(loop_period_ms: u64) -> (r: (u16, u8))
    requires
        ACCEL_BASE_RATE_HZ * loop_period_ms <= u64::MAX,
    ensures
        r.0 == saturating_sub(ACCEL_BASE_RATE_HZ * loop_period_ms / 1000, 1) as u16,
        r.1 == saturating_sub(GYRO_BASE_RATE_HZ * loop_period_ms / 1000, 1) as u8,
        loop_period_ms >= 1 ==> r.0 == (1125 * loop_period_ms / 1000 - 1) as u16 && r.1 == (1100
            * loop_period_ms / 1000 - 1) as u8,
        loop_period_ms == 0 ==> r.0 == 0 && r.1 == 0,
{
    let accel_div = (ACCEL_BASE_RATE_HZ * loop_period_ms / 1000).saturating_sub(1) as u16;
    let gyro_div = (GYRO_BASE_RATE_HZ * loop_period_ms / 1000).saturating_sub(1) as u8;
    (accel_div, gyro_div)
}

} // verus!
