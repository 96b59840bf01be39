use libs::control::{ControlPacket, Flags, DEFAULT_SIZE, MAGIC};

#[test]
fn test_flags() {
    let mut flags = Flags::new(0);
    assert!(!flags.armed());
    flags.set_armed(true);
    assert_eq!(flags.to_bytes(), 0x01);
    assert!(flags.armed());
    flags.set_armed(false);
    assert!(!flags.armed());
    assert_eq!(flags.to_bytes(), 0);

    // start with another bit set alongside armed
    let mut flags = Flags::from_bytes(0b0000_0110);
    flags.set_armed(true);
    assert_eq!(flags.to_bytes(), 0b0000_0111);
    assert!(flags.armed());
    flags.set_armed(false);
    assert!(!flags.armed());
    assert_eq!(flags.to_bytes(), 0b0000_0110);
}

#[test]
fn test_flags_failsafe() {
    let mut flags = Flags::new(0);
    assert!(!flags.failsafe());
    flags.set_failsafe(true);
    assert!(flags.failsafe());
    assert_eq!(flags.to_bytes(), 0b0000_0010);
    flags.set_failsafe(false);
    assert!(!flags.failsafe());
    assert_eq!(flags.to_bytes(), 0);
}

#[test]
fn test_flags_armed_and_failsafe_are_independent_bits() {
    let mut flags = Flags::new(0);
    flags.set_armed(true);
    flags.set_failsafe(true);
    assert!(flags.armed());
    assert!(flags.failsafe());
    assert_eq!(flags.to_bytes(), 0b0000_0011);

    flags.set_armed(false);
    assert!(!flags.armed());
    assert!(flags.failsafe()); // unaffected by clearing armed
    assert_eq!(flags.to_bytes(), 0b0000_0010);
}

#[test]
fn flags_fifo_overflow_is_its_own_bit() {
    let mut flags = Flags::from_bytes(0b1111_1011);
    assert!(!flags.fifo_overflow());
    assert!(flags.armed());
    assert!(flags.failsafe());
    flags.set_fifo_overflow(true);
    assert!(flags.fifo_overflow());
    assert_eq!(flags.to_bytes(), 0xff);
    flags.set_fifo_overflow(false);
    assert_eq!(flags.to_bytes(), 0b1111_1011);
    // setting a flag that is already set changes nothing
    flags.set_armed(true);
    assert_eq!(flags.to_bytes(), 0b1111_1011);
}

#[test]
fn flags_armed_reads_only_its_bit() {
    assert!(Flags::from_bytes(0x01).armed());
    assert!(Flags::from_bytes(0x81).armed());
    assert!(!Flags::from_bytes(0xfe).armed());
    assert!(Flags::from_bytes(0x02).failsafe());
    assert!(!Flags::from_bytes(0xfd).failsafe());
    assert!(Flags::from_bytes(0x04).fifo_overflow());
    assert!(!Flags::from_bytes(0xfb).fifo_overflow());
    assert_eq!(Flags::from_bytes(0x5a).to_bytes(), 0x5a);
}

#[test]
fn test_control_packet_roundtrip() {
    let pkt = ControlPacket::new(42, 0.5f32.to_bits(), (-0.25f32).to_bits(), 1.0f32.to_bits(), true);
    let bytes = pkt.to_bytes();
    assert_eq!(ControlPacket::from_bytes(&bytes), Some(pkt));
}

#[test]
fn test_control_packet_rejects_bad_magic() {
    let mut bytes =
        ControlPacket::new(10, 0.0f32.to_bits(), 0.0f32.to_bits(), 0.0f32.to_bits(), false)
            .to_bytes();
    bytes[0] = b'X';
    assert_eq!(ControlPacket::from_bytes(&bytes), None);
}

#[test]
fn test_control_packet_rejects_short_buffer() {
    let bytes = ControlPacket::new(10, 0.0f32.to_bits(), 0.0f32.to_bits(), 0.0f32.to_bits(), false)
        .to_bytes();
    assert_eq!(ControlPacket::from_bytes(&bytes[..DEFAULT_SIZE - 1]), None);
}

#[test]
fn test_control_packet_set_armed_zeros_throttle() {
    // arming always resets throttle to zero, as a safety net
    let mut pkt = ControlPacket::new(80, 0.0f32.to_bits(), 0.0f32.to_bits(), 0.0f32.to_bits(), false);
    pkt.set_armed(true);
    assert!(pkt.armed());
    assert_eq!(pkt.throttle, 0);

    // disarming does not touch throttle
    pkt.throttle = 55;
    pkt.set_armed(false);
    assert!(!pkt.armed());
    assert_eq!(pkt.throttle, 55);
}

#[test]
fn control_packet_wire_layout() {
    assert_eq!(MAGIC, *b"QUAD");
    let pkt = ControlPacket::new(42, 0.5f32.to_bits(), (-0.25f32).to_bits(), 1.0f32.to_bits(), true);
    let bytes = pkt.to_bytes();
    let mut expected = Vec::new();
    expected.extend_from_slice(b"QUAD");
    expected.push(42);
    expected.extend_from_slice(&0.5f32.to_be_bytes());
    expected.extend_from_slice(&(-0.25f32).to_be_bytes());
    expected.extend_from_slice(&1.0f32.to_be_bytes());
    expected.push(0x01);
    assert_eq!(bytes.to_vec(), expected);
    assert_eq!(f32::from_bits(pkt.roll_bits), 0.5);
    assert_eq!(f32::from_bits(pkt.pitch_bits), -0.25);
    assert_eq!(f32::from_bits(pkt.yaw_bits), 1.0);
}

#[test]
fn control_packet_decodes_fields_and_ignores_trailing_bytes() {
    let mut bytes = vec![b'Q', b'U', b'A', b'D', 77];
    bytes.extend_from_slice(&0x0102_0304u32.to_be_bytes());
    bytes.extend_from_slice(&0xa0b0_c0d0u32.to_be_bytes());
    bytes.extend_from_slice(&0xffff_fffeu32.to_be_bytes());
    bytes.push(0b110);
    bytes.push(9);
    let pkt = ControlPacket::from_bytes(&bytes).unwrap();
    assert_eq!(pkt.throttle, 77);
    assert_eq!(pkt.roll_bits, 0x0102_0304);
    assert_eq!(pkt.pitch_bits, 0xa0b0_c0d0);
    assert_eq!(pkt.yaw_bits, 0xffff_fffe);
    assert_eq!(pkt.flags().to_bytes(), 0b110);
    assert!(!pkt.armed());
    assert!(pkt.flags().failsafe());
    // a datagram must be exactly one packet long
    assert_eq!(ControlPacket::from_datagram(&bytes), None);
    assert_eq!(ControlPacket::from_datagram(&bytes[..DEFAULT_SIZE]), Some(pkt));
    assert_eq!(ControlPacket::from_datagram(&bytes[..DEFAULT_SIZE - 1]), None);
}

#[test]
fn control_packet_new_sets_only_armed_flag() {
    let armed = ControlPacket::new(80, 1, 2, 3, true);
    assert_eq!(armed.throttle, 80);
    assert_eq!(armed.flags().to_bytes(), 0x01);
    let disarmed = ControlPacket::new(80, 1, 2, 3, false);
    assert_eq!(disarmed.flags().to_bytes(), 0x00);
    assert!(!disarmed.armed());
}
