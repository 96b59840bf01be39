use libs::offsets::{accel_offset_writes, pack_offset};

#[test]
fn pack_offset_negates_then_splits_big_endian() {
    assert_eq!(pack_offset(0), [0, 0]);
    assert_eq!(pack_offset(1), [0xff, 0xff]);
    assert_eq!(pack_offset(-1), [0x00, 0x01]);
    assert_eq!(pack_offset(0x1234), (-0x1234i16).to_be_bytes());
    assert_eq!(pack_offset(i16::MAX), [0x80, 0x01]);
    assert_eq!(pack_offset(-i16::MAX), [0x7f, 0xff]);
    for v in [-300i16, -2, 5, 1000, 32000] {
        assert_eq!(i16::from_be_bytes(pack_offset(v)), -v);
    }
}

#[test]
fn accel_offset_writes_select_bank_write_axes_and_restore_bank() {
    let writes = accel_offset_writes([100, -2, 0]);
    assert_eq!(
        writes,
        vec![
            vec![0x7f, 0x10],
            vec![0x14, 0xff, 0x9c],
            vec![0x17, 0x00, 0x02],
            vec![0x1a, 0x00, 0x00],
            vec![0x7f, 0x00],
        ]
    );
}
