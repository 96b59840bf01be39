use libs::record::{AccelBias, PAYLOAD_LEN, RECORD_LEN, RECORD_MAGIC};

fn sample() -> AccelBias {
    AccelBias {
        bias: [0.01f32.to_bits(), (-0.02f32).to_bits(), 0.5f32.to_bits()],
        scale: [1.0f32.to_bits(), 0.99f32.to_bits(), 1.01f32.to_bits()],
    }
}

#[test]
fn record_layout_is_magic_payload_crc() {
    assert_eq!(RECORD_MAGIC, *b"ACAL");
    let a = sample();
    let payload = a.payload();
    assert_eq!(payload.len(), PAYLOAD_LEN);
    assert_eq!(&payload[0..4], &0.01f32.to_le_bytes());
    assert_eq!(&payload[20..24], &1.01f32.to_le_bytes());
    let rec = a.as_bytes(0xbeef);
    assert_eq!(rec.len(), RECORD_LEN);
    assert_eq!(&rec[0..4], b"ACAL");
    assert_eq!(&rec[4..28], &payload[..]);
    assert_eq!(&rec[28..30], &[0xef, 0xbe]);
}

#[test]
fn record_roundtrip() {
    let a = sample();
    let rec = a.as_bytes(0x1234);
    let back = AccelBias::from_bytes(&rec, 0x1234).unwrap();
    assert_eq!(back.bias, a.bias);
    assert_eq!(back.scale, a.scale);
    assert_eq!(f32::from_bits(back.scale[1]), 0.99);
}

#[test]
fn record_rejects_bad_magic_and_bad_crc() {
    let a = sample();
    let mut rec = a.as_bytes(0x1234);
    assert!(AccelBias::from_bytes(&rec, 0x1235).is_none());
    rec[0] = 0xff;
    assert!(AccelBias::from_bytes(&rec, 0x1234).is_none());
    // erased flash
    assert!(AccelBias::from_bytes(&[0xff; RECORD_LEN], 0xffff).is_none());
}
