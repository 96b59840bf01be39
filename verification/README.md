# libs

The shared library of a small quadcopter: the wire formats that the ground station and the
flight controller exchange, and the flight controller's integer-only decisions, each with a
contract proved by Verus.

- `src/control.rs`: control packet and its flag byte (encode, decode, arming).
- `src/calibrate.rs`: calibration packet and the ground station's calibration session.
- `src/record.rs`: the flash record that keeps the accelerometer calibration.
- `src/offsets.rs`: register writes that load accelerometer offsets into the IMU.
- `src/flight.rs`: link failsafe, arming edges, heading latch and motor cutoff.
- `src/config.rs`, `src/sensors.rs`, `src/pwm.rs`: build-time settings, sensor dividers, PWM
  resolution.
- `src/bytes.rs`: byte-order helpers and their round-trip lemmas.

`app/` is the ground-station program (gamepad to UDP) and the f32 control law (PID, mixing,
filters, attitude fusion), which stays outside Verus because it computes in floating point.
