use libs::pwm::{pwm_duty_config, DutyResolution, PWM_BITS, PWM_MAX_DUTY};

#[test]
fn pwm_duty_resolutions() {
    assert_eq!(pwm_duty_config(1), DutyResolution::Duty1Bit);
    assert_eq!(pwm_duty_config(10), DutyResolution::Duty10Bit);
    assert_eq!(pwm_duty_config(14), DutyResolution::Duty14Bit);
    assert_eq!(pwm_duty_config(PWM_BITS), DutyResolution::Duty10Bit);
    assert_eq!(PWM_MAX_DUTY, (1 << PWM_BITS) - 1);
}
