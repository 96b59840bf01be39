use libs::sensors::odr_dividers;

#[test]
fn odr_dividers_keep_sensor_rate_above_loop_rate() {
    assert_eq!(odr_dividers(0), (0, 0));
    assert_eq!(odr_dividers(1), (0, 0));
    assert_eq!(odr_dividers(10), (10, 10));
    // the gyro divider register is 8 bits wide: the value is cut to it
    assert_eq!(odr_dividers(300), (336, 73));
}
