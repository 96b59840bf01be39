//! Accelerometer offset cancellation in the ICM-20948's own registers: the register writes that
//! load a bias into the chip, which then subtracts it in silicon.
use vstd::prelude::*;

use crate::bytes::{be_bytes_i16, be_value_i16, lemma_be_i16_roundtrip};

verus! {

/// Register that selects the active register bank.
pub const REG_BANK_SEL: u8 = 0x7F;
/// The bank that holds the accelerometer offset registers.
pub const BANK_1: u8 = 1;
/// High byte of the X accelerometer offset (bank 1).
pub const XA_OFFS_H: u8 = 0x14;
/// High byte of the Y accelerometer offset (bank 1).
pub const YA_OFFS_H: u8 = 0x17;
/// High byte of the Z accelerometer offset (bank 1).
pub const ZA_OFFS_H: u8 = 0x1A;

/// The offset register for axis `k` (0 = X, 1 = Y, 2 = Z).
pub open spec fn offset_register(k: int) -> u8 {
    if k == 0 {
        XA_OFFS_H
    } else if k == 1 {
        YA_OFFS_H
    } else {
        ZA_OFFS_H
    }
}

/// The two register bytes that cancel a bias of `value`: the bias negated, then split as a plain
/// big-endian `i16` across the high and low register.
pub fn pack_offset(value: i16) -> (r: [u8; 2])
    requires
        value != i16::MIN,
    ensures
        r@ == be_bytes_i16((-value) as i16),
        be_value_i16(r@) == -value,
        r@[0] as int * 256 + r@[1] as int == (if value <= 0 {
            -value
        } else {
            65536 - value
        }),
{
    let neg: i16 = -value;
    let bits: u16 = neg as u16;
    let r = [(bits >> 8) as u8, (bits & 0xff) as u8];
    proof {
        lemma_be_i16_roundtrip(neg);
        assert(((bits >> 8) as u8) as u16 * 256u16 + ((bits & 0xff) as u8) as u16 == bits)
            by (bit_vector);
        assert(neg >= 0i16 ==> (neg as u16) as i32 == neg as i32) by (bit_vector);
        assert(neg < 0i16 ==> (neg as u16) as i32 == neg as i32 + 65536i32) by (bit_vector);
    }
    assert(r@ =~= be_bytes_i16(neg));
    r
}

/// The I2C register writes, in order, that load the X/Y/Z accelerometer offsets (raw LSB values
/// to cancel: positive where the sensor reads that much high): select bank 1, write each axis's
/// offset registers, and select bank 0 again, where every other driver call expects the chip.
pub fn accel_offset_writes(offsets: [i16; 3]) -> (r: Vec<Vec<u8>>)
    requires
        forall|k: int| 0 <= k < 3 ==> offsets[k] != i16::MIN,
    ensures
        r@.len() == 5,
        r@[0]@ == seq![REG_BANK_SEL, BANK_1 << 4],
        forall|k: int|
            0 <= k < 3 ==> #[trigger] r@[k + 1]@ == seq![offset_register(k)] + be_bytes_i16(
                (-offsets[k]) as i16,
            ),
        r@[4]@ == seq![REG_BANK_SEL, 0u8],
        r@[0]@ == seq![0x7Fu8, 0x10u8],
        r@[4]@ == seq![0x7Fu8, 0x00u8],
        r@[1]@.len() == 3 && r@[1]@[0] == 0x14,
        r@[2]@.len() == 3 && r@[2]@[0] == 0x17,
        r@[3]@.len() == 3 && r@[3]@[0] == 0x1A,
        forall|k: int|
            0 <= k < 3 ==> #[trigger] r@[k + 1]@[1] as int * 256 + r@[k + 1]@[2] as int == (if offsets[k]
                <= 0 {
                -offsets[k]
            } else {
                65536 - offsets[k]
            }),
{
    let mut writes: Vec<Vec<u8>> = Vec::new();
    writes.push(vec![REG_BANK_SEL, BANK_1 << 4]);
    let regs = [XA_OFFS_H, YA_OFFS_H, ZA_OFFS_H];
    let mut k: usize = 0;
    while k < 3
        invariant
            0 <= k <= 3,
            regs@ == seq![XA_OFFS_H, YA_OFFS_H, ZA_OFFS_H],
            forall|j: int| 0 <= j < 3 ==> offsets[j] != i16::MIN,
            writes@.len() == k + 1,
            writes@[0]@ == seq![REG_BANK_SEL, BANK_1 << 4],
            forall|j: int|
                0 <= j < k ==> #[trigger] writes@[j + 1]@ == seq![offset_register(j)]
                    + be_bytes_i16((-offsets[j]) as i16),
            forall|j: int|
                0 <= j < k ==> #[trigger] writes@[j + 1]@[1] as int * 256 + writes@[j + 1]@[2] as int
                    == (if offsets[j] <= 0 {
                    -offsets[j]
                } else {
                    65536 - offsets[j]
                }),
        decreases 3 - k,
    {
        let hl = pack_offset(offsets[k]);
        let frame = vec![regs[k], hl[0], hl[1]];
        assert(frame@ =~= seq![offset_register(k as int)] + be_bytes_i16(
            (-offsets[k as int]) as i16,
        ));
        writes.push(frame);
        k += 1;
    }
    writes.push(vec![REG_BANK_SEL, 0]);
    assert(1u8 << 4u8 == 0x10u8) by (bit_vector);
    assert(writes@[0int + 1]@ == seq![offset_register(0)] + be_bytes_i16((-offsets[0]) as i16));
    assert(writes@[1int + 1]@ == seq![offset_register(1)] + be_bytes_i16((-offsets[1]) as i16));
    assert(writes@[2int + 1]@ == seq![offset_register(2)] + be_bytes_i16((-offsets[2]) as i16));
    writes
}

} // verus!
