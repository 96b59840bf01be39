//! Motor PWM resolution.
use vstd::prelude::*;

verus! {

/// Resolution of the motor PWM timer, in bits.
pub const PWM_BITS: u32 = 10;

/// Largest duty value at that resolution: `2^PWM_BITS - 1`.
pub const PWM_MAX_DUTY: u32 = 1023;

/// Duty-cycle resolutions the LEDC timer supports.
#[derive(Debug, Clone, Copy, PartialEq, Eq, Structural)]
pub enum DutyResolution {
    Duty1Bit,
    Duty2Bit,
    Duty3Bit,
    Duty4Bit,
    Duty5Bit,
    Duty6Bit,
    Duty7Bit,
    Duty8Bit,
    Duty9Bit,
    Duty10Bit,
    Duty11Bit,
    Duty12Bit,
    Duty13Bit,
    Duty14Bit,
}

/// Number of bits of the resolution `d`.
pub open spec fn resolution_bits(d: DutyResolution) -> u32 {
    match d {
        DutyResolution::Duty1Bit => 1,
        DutyResolution::Duty2Bit => 2,
        DutyResolution::Duty3Bit => 3,
        DutyResolution::Duty4Bit => 4,
        DutyResolution::Duty5Bit => 5,
        DutyResolution::Duty6Bit => 6,
        DutyResolution::Duty7Bit => 7,
        DutyResolution::Duty8Bit => 8,
        DutyResolution::Duty9Bit => 9,
        DutyResolution::Duty10Bit => 10,
        DutyResolution::Duty11Bit => 11,
        DutyResolution::Duty12Bit => 12,
        DutyResolution::Duty13Bit => 13,
        DutyResolution::Duty14Bit => 14,
    }
}

/// The timer's duty resolution for `bits` bits; the timer supports 1 to 14.
pub fn pwm_duty_config(bits: u32) -> (r: DutyResolution)
    requires
        1 <= bits <= 14,
    ensures
        resolution_bits(r) == bits,
        bits == 1 ==> r == DutyResolution::Duty1Bit,
        bits == 2 ==> r == DutyResolution::Duty2Bit,
        bits == 3 ==> r == DutyResolution::Duty3Bit,
        bits == 4 ==> r == DutyResolution::Duty4Bit,
        bits == 5 ==> r == DutyResolution::Duty5Bit,
        bits == 6 ==> r == DutyResolution::Duty6Bit,
        bits == 7 ==> r == DutyResolution::Duty7Bit,
        bits == 8 ==> r == DutyResolution::Duty8Bit,
        bits == 9 ==> r == DutyResolution::Duty9Bit,
        bits == 10 ==> r == DutyResolution::Duty10Bit,
        bits == 11 ==> r == DutyResolution::Duty11Bit,
        bits == 12 ==> r == DutyResolution::Duty12Bit,
        bits == 13 ==> r == DutyResolution::Duty13Bit,
        bits == 14 ==> r == DutyResolution::Duty14Bit,
{
    match bits {
        1 => DutyResolution::Duty1Bit,
        2 => DutyResolution::Duty2Bit,
        3 => DutyResolution::Duty3Bit,
        4 => DutyResolution::Duty4Bit,
        5 => DutyResolution::Duty5Bit,
        6 => DutyResolution::Duty6Bit,
        7 => DutyResolution::Duty7Bit,
        8 => DutyResolution::Duty8Bit,
        9 => DutyResolution::Duty9Bit,
        10 => DutyResolution::Duty10Bit,
        11 => DutyResolution::Duty11Bit,
        12 => DutyResolution::Duty12Bit,
        13 => DutyResolution::Duty13Bit,
        _ => DutyResolution::Duty14Bit,
    }
}

/// Proves that the resolution names its bit count: different resolutions have different bit
/// counts, so `pwm_duty_config` has one answer for each count.
pub proof fn law_resolution_injective(a: DutyResolution, b: DutyResolution)
    requires
        resolution_bits(a) == resolution_bits(b),
    ensures
        a == b,
{
}

/// Proves that each resolution counts the bits it is named for, variant by variant.
pub proof fn law_resolution_named_bits()
    ensures
        resolution_bits(DutyResolution::Duty1Bit) == 1,
        resolution_bits(DutyResolution::Duty2Bit) == 2,
        resolution_bits(DutyResolution::Duty3Bit) == 3,
        resolution_bits(DutyResolution::Duty4Bit) == 4,
        resolution_bits(DutyResolution::Duty5Bit) == 5,
        resolution_bits(DutyResolution::Duty6Bit) == 6,
        resolution_bits(DutyResolution::Duty7Bit) == 7,
        resolution_bits(DutyResolution::Duty8Bit) == 8,
        resolution_bits(DutyResolution::Duty9Bit) == 9,
        resolution_bits(DutyResolution::Duty10Bit) == 10,
        resolution_bits(DutyResolution::Duty11Bit) == 11,
        resolution_bits(DutyResolution::Duty12Bit) == 12,
        resolution_bits(DutyResolution::Duty13Bit) == 13,
        resolution_bits(DutyResolution::Duty14Bit) == 14,
{
}

} // verus!
