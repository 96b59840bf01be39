//! The control packet sent from the ground station to the flight controller, and the flag byte
//! it carries.
use vstd::prelude::*;

use crate::bytes::{be_bytes_u32, be_value_u32, u32_from_be_bytes, u32_to_be_bytes};

verus! {

/// The bytes every control packet starts with: `"QUAD"`.
pub const MAGIC: [u8; 4] = [0x51, 0x55, 0x41, 0x44];

/// Length of an encoded control packet: 4 (magic) + 1 (throttle) + 3 * 4 (roll, pitch and yaw,
/// big-endian `f32`) + 1 (flags).
pub const DEFAULT_SIZE: usize = 18;

/// The magic bytes as a sequence.
pub open spec fn control_magic() -> Seq<u8> {
    MAGIC@
}

/// Bit of the flag byte that says the quad is armed.
pub const ARMED_MASK: u8 = 0x01;
/// Bit of the flag byte that says the link is in failsafe.
pub const FAILSAFE_MASK: u8 = 0x02;
/// Bit of the flag byte that says the sensor FIFO overflowed.
pub const FIFO_OVERFLOW_MASK: u8 = 0x04;

/// Whether `mask`'s bit is set in the flag byte `v`.
pub open spec fn has_bit(v: u8, mask: u8) -> bool {
    v & mask != 0
}

/// The flag byte `v` with `mask`'s bit set to `b` and every other bit kept.
pub open spec fn with_bit(v: u8, mask: u8, b: bool) -> u8 {
    if b {
        v | mask
    } else {
        v & !mask
    }
}

/// The flag byte of a control or telemetry packet.
#[derive(Debug, Clone, Copy, PartialEq, Eq, Structural)]
pub struct Flags(u8);

impl View for Flags {
    type V = u8;

    closed spec fn view(&self) -> u8 {
        self.0
    }
}

impl Flags {
    pub fn new(f: u8) -> (r: Self)
        ensures
            r@ == f,
    {
        Self(f)
    }

    /// The byte as it goes on the wire (a single byte has no byte order to swap).
    pub fn to_bytes(&self) -> (r: u8)
        ensures
            r == self@,
    {
        self.0
    }

    pub fn from_bytes(byte: u8) -> (r: Self)
        ensures
            r@ == byte,
    {
        Self(byte)
    }

    pub fn armed(&self) -> (r: bool)
        ensures
            r == has_bit(self@, ARMED_MASK),
            r == (self@ & 0x01 != 0),
    {
        let v = self.0;
        assert((0x01u8 & v == 1) == (v & 0x01u8 != 0)) by (bit_vector);
        0x01 & self.0 == 1
    }

    pub fn set_armed(&mut self, b: bool)
        ensures
            final(self)@ == with_bit(old(self)@, ARMED_MASK, b),
            final(self)@ == (if b { old(self)@ | 0x01 } else { old(self)@ & 0xfe }),
    {
        assert(!0x01u8 == 0xfeu8) by (bit_vector);
        if b {
            self.0 |= 0x01;
        } else {
            self.0 &= !0x01;
        }
    }

    pub fn failsafe(&self) -> (r: bool)
        ensures
            r == has_bit(self@, FAILSAFE_MASK),
            r == (self@ & 0x02 != 0),
    {
        let v = self.0;
        assert((0x02u8 & v != 0) == (v & 0x02u8 != 0)) by (bit_vector);
        0x02 & self.0 != 0
    }

    pub fn set_failsafe(&mut self, b: bool)
        ensures
            final(self)@ == with_bit(old(self)@, FAILSAFE_MASK, b),
            final(self)@ == (if b { old(self)@ | 0x02 } else { old(self)@ & 0xfd }),
    {
        assert(!0x02u8 == 0xfdu8) by (bit_vector);
        if b {
            self.0 |= 0x02;
        } else {
            self.0 &= !0x02;
        }
    }

    pub fn fifo_overflow(&self) -> (r: bool)
        ensures
            r == has_bit(self@, FIFO_OVERFLOW_MASK),
            r == (self@ & 0x04 != 0),
    {
        let v = self.0;
        assert((0x04u8 & v != 0) == (v & 0x04u8 != 0)) by (bit_vector);
        0x04 & self.0 != 0
    }

    pub fn set_fifo_overflow(&mut self, b: bool)
        ensures
            final(self)@ == with_bit(old(self)@, FIFO_OVERFLOW_MASK, b),
            final(self)@ == (if b { old(self)@ | 0x04 } else { old(self)@ & 0xfb }),
    {
        assert(!0x04u8 == 0xfbu8) by (bit_vector);
        if b {
            self.0 |= 0x04;
        } else {
            self.0 &= !0x04;
        }
    }
}

/// Proves that flag setters do what they say, on each of the three flags.
///
/// Setting a flag to `b` makes that flag read back as `b` and leaves every other bit of the
/// byte as it was.
pub proof fn law_set_flag(v: u8, mask: u8, b: bool)
    requires
        mask == ARMED_MASK || mask == FAILSAFE_MASK || mask == FIFO_OVERFLOW_MASK,
    ensures
        has_bit(with_bit(v, mask, b), mask) == b,
        with_bit(v, mask, b) & !mask == v & !mask,
{
    if b {
        assert((mask == 1u8 || mask == 2u8 || mask == 4u8) ==> ((v | mask) & mask != 0 && (v | mask)
            & !mask == v & !mask)) by (bit_vector);
    } else {
        assert((mask == 1u8 || mask == 2u8 || mask == 4u8) ==> ((v & !mask) & mask == 0 && (v
            & !mask) & !mask == v & !mask)) by (bit_vector);
    }
}

/// The three flags are independent: setting one never changes what another reads.
pub proof fn law_flags_independent(v: u8, set: u8, other: u8, b: bool)
    requires
        set == ARMED_MASK || set == FAILSAFE_MASK || set == FIFO_OVERFLOW_MASK,
        other == ARMED_MASK || other == FAILSAFE_MASK || other == FIFO_OVERFLOW_MASK,
        set != other,
    ensures
        has_bit(with_bit(v, set, b), other) == has_bit(v, other),
{
    if b {
        assert((set == 1u8 || set == 2u8 || set == 4u8) && (other == 1u8 || other == 2u8 || other
            == 4u8) && set != other ==> (((v | set) & other != 0) == (v & other != 0)))
            by (bit_vector);
    } else {
        assert((set == 1u8 || set == 2u8 || set == 4u8) && (other == 1u8 || other == 2u8 || other
            == 4u8) && set != other ==> (((v & !set) & other != 0) == (v & other != 0)))
            by (bit_vector);
    }
}

/// Control packet sent from the ground station to the flight controller over UDP.
///
/// The roll, pitch and yaw stick positions are `f32` values on the wire; the packet holds each
/// as its IEEE-754 bit pattern (`f32::to_bits`), which is all that encoding and decoding read.
#[derive(Debug, Clone, Copy, PartialEq, Eq, Structural)]
pub struct ControlPacket {
    /// Throttle: 0 (min) to 100 (max), as a duty cycle percentage.
    pub throttle: u8,
    /// Bit pattern of the roll command: -1.0 (left) to 1.0 (right).
    pub roll_bits: u32,
    /// Bit pattern of the pitch command: -1.0 (forward) to 1.0 (backward).
    pub pitch_bits: u32,
    /// Bit pattern of the yaw command: -1.0 (left) to 1.0 (right).
    pub yaw_bits: u32,
    /// Armed and other flags.
    pub flags: Flags,
}

/// Whether `b` starts with a whole control packet: long enough, and opening with the magic.
pub open spec fn control_frame_ok(b: Seq<u8>) -> bool {
    b.len() >= DEFAULT_SIZE && b.take(4) == control_magic()
}

/// The wire encoding of `p`.
pub open spec fn encode_control(p: ControlPacket) -> Seq<u8> {
    control_magic() + seq![p.throttle] + be_bytes_u32(p.roll_bits) + be_bytes_u32(p.pitch_bits)
        + be_bytes_u32(p.yaw_bits) + seq![p.flag_byte()]
}

/// Whether the fields of `p` are the ones that the bytes `b` hold at their places.
pub open spec fn decodes_to(b: Seq<u8>, p: ControlPacket) -> bool {
    &&& p.throttle == b[4]
    &&& p.roll_bits == be_value_u32(b.subrange(5, 9))
    &&& p.pitch_bits == be_value_u32(b.subrange(9, 13))
    &&& p.yaw_bits == be_value_u32(b.subrange(13, 17))
    &&& p.flag_byte() == b[17]
}

impl ControlPacket {
    /// The flag byte the packet carries.
    pub open spec fn flag_byte(&self) -> u8 {
        self.flags@
    }

    /// Two packets with the same fields and the same flag byte are the same packet.
    pub proof fn lemma_fields_determine(p: ControlPacket, q: ControlPacket)
        requires
            p.throttle == q.throttle,
            p.roll_bits == q.roll_bits,
            p.pitch_bits == q.pitch_bits,
            p.yaw_bits == q.yaw_bits,
            p.flag_byte() == q.flag_byte(),
        ensures
            p == q,
    {
    }

    pub fn new(throttle: u8, roll_bits: u32, pitch_bits: u32, yaw_bits: u32, armed: bool) -> (r:
        Self)
        ensures
            r.throttle == throttle,
            r.roll_bits == roll_bits,
            r.pitch_bits == pitch_bits,
            r.yaw_bits == yaw_bits,
            r.flag_byte() == with_bit(0, ARMED_MASK, armed),
            r.flag_byte() == (if armed { 1u8 } else { 0u8 }),
    {
        assert((0u8 | 0x01u8) == 1u8 && (0u8 & 0xfeu8) == 0u8) by (bit_vector);
        let mut flags = Flags(0);
        flags.set_armed(armed);
        Self { throttle, roll_bits, pitch_bits, yaw_bits, flags }
    }

    pub fn to_bytes(&self) -> (r: [u8; DEFAULT_SIZE])
        ensures
            r@ == encode_control(*self),
            r@[0] == 0x51 && r@[1] == 0x55 && r@[2] == 0x41 && r@[3] == 0x44,
            r@[4] == self.throttle,
            r@[5] as int * 0x1000000 + r@[6] as int * 0x10000 + r@[7] as int * 0x100 + r@[8] as int
                == self.roll_bits as int,
            r@[9] as int * 0x1000000 + r@[10] as int * 0x10000 + r@[11] as int * 0x100
                + r@[12] as int == self.pitch_bits as int,
            r@[13] as int * 0x1000000 + r@[14] as int * 0x10000 + r@[15] as int * 0x100
                + r@[16] as int == self.yaw_bits as int,
            r@[17] == self.flag_byte(),
    {
        proof {
            law_control_wire_layout(*self);
        }
        let mut buf = [0u8; DEFAULT_SIZE];
        buf[0] = MAGIC[0];
        buf[1] = MAGIC[1];
        buf[2] = MAGIC[2];
        buf[3] = MAGIC[3];
        buf[4] = self.throttle;
        let roll = u32_to_be_bytes(self.roll_bits);
        let pitch = u32_to_be_bytes(self.pitch_bits);
        let yaw = u32_to_be_bytes(self.yaw_bits);
        buf[5] = roll[0];
        buf[6] = roll[1];
        buf[7] = roll[2];
        buf[8] = roll[3];
        buf[9] = pitch[0];
        buf[10] = pitch[1];
        buf[11] = pitch[2];
        buf[12] = pitch[3];
        buf[13] = yaw[0];
        buf[14] = yaw[1];
        buf[15] = yaw[2];
        buf[16] = yaw[3];
        buf[17] = Flags::to_bytes(&self.flags);
        assert(buf@ =~= encode_control(*self));
        buf
    }

    /// Decodes a packet from the start of `buf`; `None` where `buf` is shorter than a packet or
    /// does not open with the magic.
    pub fn from_bytes(buf: &[u8]) -> (r: Option<Self>)
        ensures
            r is Some <==> control_frame_ok(buf@),
            r matches Some(p) ==> decodes_to(buf@, p),
            r is Some <==> (buf@.len() >= 18 && buf@[0] == 0x51 && buf@[1] == 0x55 && buf@[2]
                == 0x41 && buf@[3] == 0x44),
            r matches Some(p) ==> p.throttle == buf@[4] && p.roll_bits as int == buf@[5] as int
                * 0x1000000 + buf@[6] as int * 0x10000 + buf@[7] as int * 0x100 + buf@[8] as int
                && p.pitch_bits as int == buf@[9] as int * 0x1000000 + buf@[10] as int * 0x10000
                + buf@[11] as int * 0x100 + buf@[12] as int && p.yaw_bits as int == buf@[13] as int
                * 0x1000000 + buf@[14] as int * 0x10000 + buf@[15] as int * 0x100 + buf@[16] as int
                && p.flag_byte() == buf@[17],
    {
        proof {
            law_control_frame_bytes(buf@);
        }
        if buf.len() < DEFAULT_SIZE {
            return None;
        }
        if buf[0] != MAGIC[0] || buf[1] != MAGIC[1] || buf[2] != MAGIC[2]
            || buf[3] != MAGIC[3] {
            assert(buf@.take(4) != control_magic()) by {
                if buf@.take(4) == control_magic() {
                    assert(buf@.take(4)[0] == buf@[0]);
                    assert(buf@.take(4)[1] == buf@[1]);
                    assert(buf@.take(4)[2] == buf@[2]);
                    assert(buf@.take(4)[3] == buf@[3]);
                }
            }
            return None;
        }
        assert(buf@.take(4) =~= control_magic());
        let roll_bits = u32_from_be_bytes(buf[5], buf[6], buf[7], buf[8]);
        let pitch_bits = u32_from_be_bytes(buf[9], buf[10], buf[11], buf[12]);
        let yaw_bits = u32_from_be_bytes(buf[13], buf[14], buf[15], buf[16]);
        assert(buf@.subrange(5, 9) =~= seq![buf@[5], buf@[6], buf@[7], buf@[8]]);
        assert(buf@.subrange(9, 13) =~= seq![buf@[9], buf@[10], buf@[11], buf@[12]]);
        assert(buf@.subrange(13, 17) =~= seq![buf@[13], buf@[14], buf@[15], buf@[16]]);
        let flags = Flags::from_bytes(buf[17]);
        let r = Self { throttle: buf[4], roll_bits, pitch_bits, yaw_bits, flags };
        proof {
            law_decoded_fields(buf@, r);
        }
        Some(r)
    }

    /// Accepts a received datagram as a control packet: only a datagram of exactly one packet's
    /// length that decodes is one.
    pub fn from_datagram(datagram: &[u8]) -> (r: Option<Self>)
        ensures
            r is Some <==> datagram@.len() == DEFAULT_SIZE && control_frame_ok(datagram@),
            r matches Some(p) ==> decodes_to(datagram@, p),
            r is Some <==> (datagram@.len() == 18 && datagram@[0] == 0x51 && datagram@[1] == 0x55
                && datagram@[2] == 0x41 && datagram@[3] == 0x44),
            r matches Some(p) ==> p.throttle == datagram@[4] && p.flag_byte() == datagram@[17],
    {
        proof {
            law_control_frame_bytes(datagram@);
        }
        if datagram.len() == DEFAULT_SIZE {
            Self::from_bytes(datagram)
        } else {
            None
        }
    }

    pub fn flags(&self) -> (r: Flags)
        ensures
            r@ == self.flag_byte(),
    {
        self.flags
    }

    pub fn armed(&self) -> (r: bool)
        ensures
            r == has_bit(self.flag_byte(), ARMED_MASK),
    {
        self.flags().armed()
    }

    /// Sets the armed flag; arming also zeroes the throttle, as a safety net.
    pub fn set_armed(&mut self, b: bool)
        ensures
            final(self).flag_byte() == with_bit(old(self).flag_byte(), ARMED_MASK, b),
            final(self).flag_byte() == (if b {
                old(self).flag_byte() | 0x01
            } else {
                old(self).flag_byte() & 0xfe
            }),
            (final(self).flag_byte() & 0x01 != 0) == b,
            final(self).throttle == (if b { 0 } else { old(self).throttle }),
            final(self).roll_bits == old(self).roll_bits,
            final(self).pitch_bits == old(self).pitch_bits,
            final(self).yaw_bits == old(self).yaw_bits,
    {
        self.flags.set_armed(b);
        proof {
            law_set_flag(old(self).flags@, ARMED_MASK, b);
            let v = old(self).flags@;
            assert(((v | 0x01u8) & 0x01u8 != 0) && ((v & 0xfeu8) & 0x01u8 == 0)) by (bit_vector);
        }
        if self.armed() {
            self.throttle = 0;
        }
    }
}

/// Proves that a control packet survives the wire: the bytes `to_bytes` writes are a whole frame
/// that decodes to the very same packet.
pub proof fn law_control_roundtrip(p: ControlPacket)
    ensures
        encode_control(p).len() == DEFAULT_SIZE,
        control_frame_ok(encode_control(p)),
        decodes_to(encode_control(p), p),
{
    let b = encode_control(p);
    crate::bytes::lemma_be_u32_roundtrip(p.roll_bits);
    crate::bytes::lemma_be_u32_roundtrip(p.pitch_bits);
    crate::bytes::lemma_be_u32_roundtrip(p.yaw_bits);
    assert(b.take(4) =~= control_magic());
    assert(b.subrange(5, 9) =~= be_bytes_u32(p.roll_bits));
    assert(b.subrange(9, 13) =~= be_bytes_u32(p.pitch_bits));
    assert(b.subrange(13, 17) =~= be_bytes_u32(p.yaw_bits));
}

/// Proves the wire layout of a control packet, byte by byte: `"QUAD"`, the throttle byte as it
/// is, roll, pitch and yaw as big-endian base-256 numbers, and the flag byte last.
pub proof fn law_control_wire_layout(p: ControlPacket)
    ensures
        encode_control(p).len() == 18,
        encode_control(p)[0] == 0x51 && encode_control(p)[1] == 0x55 && encode_control(p)[2]
            == 0x41 && encode_control(p)[3] == 0x44,
        encode_control(p)[4] == p.throttle,
        encode_control(p)[5] as int * 0x1000000 + encode_control(p)[6] as int * 0x10000
            + encode_control(p)[7] as int * 0x100 + encode_control(p)[8] as int
            == p.roll_bits as int,
        encode_control(p)[9] as int * 0x1000000 + encode_control(p)[10] as int * 0x10000
            + encode_control(p)[11] as int * 0x100 + encode_control(p)[12] as int
            == p.pitch_bits as int,
        encode_control(p)[13] as int * 0x1000000 + encode_control(p)[14] as int * 0x10000
            + encode_control(p)[15] as int * 0x100 + encode_control(p)[16] as int
            == p.yaw_bits as int,
        encode_control(p)[17] == p.flag_byte(),
{
    let b = encode_control(p);
    crate::bytes::lemma_be_u32_digits(p.roll_bits);
    crate::bytes::lemma_be_u32_digits(p.pitch_bits);
    crate::bytes::lemma_be_u32_digits(p.yaw_bits);
    assert(b[5] == be_bytes_u32(p.roll_bits)[0] && b[6] == be_bytes_u32(p.roll_bits)[1] && b[7]
        == be_bytes_u32(p.roll_bits)[2] && b[8] == be_bytes_u32(p.roll_bits)[3]);
    assert(b[9] == be_bytes_u32(p.pitch_bits)[0] && b[10] == be_bytes_u32(p.pitch_bits)[1] && b[11]
        == be_bytes_u32(p.pitch_bits)[2] && b[12] == be_bytes_u32(p.pitch_bits)[3]);
    assert(b[13] == be_bytes_u32(p.yaw_bits)[0] && b[14] == be_bytes_u32(p.yaw_bits)[1] && b[15]
        == be_bytes_u32(p.yaw_bits)[2] && b[16] == be_bytes_u32(p.yaw_bits)[3]);
}

/// Proves which buffers hold a control packet, byte by byte: 18 bytes or more, opening with
/// `"QUAD"`.
pub proof fn law_control_frame_bytes(b: Seq<u8>)
    ensures
        control_frame_ok(b) == (b.len() >= 18 && b[0] == 0x51 && b[1] == 0x55 && b[2] == 0x41
            && b[3] == 0x44),
{
    if b.len() >= 4 {
        if b[0] == 0x51 && b[1] == 0x55 && b[2] == 0x41 && b[3] == 0x44 {
            assert(b.take(4) =~= control_magic());
        }
        if b.take(4) == control_magic() {
            assert(b.take(4)[0] == b[0] && b.take(4)[1] == b[1] && b.take(4)[2] == b[2]
                && b.take(4)[3] == b[3]);
        }
    }
}

/// Proves what a packet decoded from a frame holds, byte by byte: the throttle is byte 4 as it
/// is, roll, pitch and yaw are the big-endian base-256 numbers of bytes 5-8, 9-12 and 13-16, and
/// the flag byte is byte 17.
pub proof fn law_decoded_fields(b: Seq<u8>, p: ControlPacket)
    requires
        b.len() >= 18,
        decodes_to(b, p),
    ensures
        p.throttle == b[4],
        p.roll_bits as int == b[5] as int * 0x1000000 + b[6] as int * 0x10000 + b[7] as int * 0x100
            + b[8] as int,
        p.pitch_bits as int == b[9] as int * 0x1000000 + b[10] as int * 0x10000 + b[11] as int
            * 0x100 + b[12] as int,
        p.yaw_bits as int == b[13] as int * 0x1000000 + b[14] as int * 0x10000 + b[15] as int
            * 0x100 + b[16] as int,
        p.flag_byte() == b[17],
{
    crate::bytes::lemma_be_u32_value_digits(b[5], b[6], b[7], b[8]);
    crate::bytes::lemma_be_u32_value_digits(b[9], b[10], b[11], b[12]);
    crate::bytes::lemma_be_u32_value_digits(b[13], b[14], b[15], b[16]);
    assert(b.subrange(5, 9) =~= seq![b[5], b[6], b[7], b[8]]);
    assert(b.subrange(9, 13) =~= seq![b[9], b[10], b[11], b[12]]);
    assert(b.subrange(13, 17) =~= seq![b[13], b[14], b[15], b[16]]);
}

/// Proves that decoding loses nothing: the packet decoded from a frame encodes back to the
/// frame's bytes.
pub proof fn law_control_decode_encode(b: Seq<u8>, p: ControlPacket)
    requires
        control_frame_ok(b),
        decodes_to(b, p),
    ensures
        encode_control(p) =~= b.take(DEFAULT_SIZE as int),
{
    crate::bytes::lemma_be_u32_bytes_roundtrip(b.subrange(5, 9));
    crate::bytes::lemma_be_u32_bytes_roundtrip(b.subrange(9, 13));
    crate::bytes::lemma_be_u32_bytes_roundtrip(b.subrange(13, 17));
    let e = encode_control(p);
    assert forall|i: int| 0 <= i < 18 implies #[trigger] e[i] == b[i] by {
        if i < 4 {
            assert(b.take(4)[i] == b[i]);
        } else if 5 <= i < 9 {
            assert(b.subrange(5, 9)[i - 5] == b[i]);
        } else if 9 <= i < 13 {
            assert(b.subrange(9, 13)[i - 9] == b[i]);
        } else if 13 <= i < 17 {
            assert(b.subrange(13, 17)[i - 13] == b[i]);
        }
    }
}

/// Proves that one frame decodes to one packet only.
pub proof fn law_control_decode_unique(b: Seq<u8>, p: ControlPacket, q: ControlPacket)
    requires
        decodes_to(b, p),
        decodes_to(b, q),
    ensures
        p == q,
{
    ControlPacket::lemma_fields_determine(p, q);
}

/// Proves the arming safety net, over the packets before (`p`) and after (`q`) a call of
/// `set_armed(b)`: the packet then reads as armed exactly when `b`, arming leaves zero throttle,
/// and disarming leaves the throttle as it was.
pub proof fn law_arming_zeroes_throttle(p: ControlPacket, q: ControlPacket, b: bool)
    requires
        q.flag_byte() == with_bit(p.flag_byte(), ARMED_MASK, b),
        q.throttle == (if b { 0 } else { p.throttle }),
    ensures
        has_bit(q.flag_byte(), ARMED_MASK) == b,
        b ==> q.throttle == 0,
        !b ==> q.throttle == p.throttle,
{
    law_set_flag(p.flag_byte(), ARMED_MASK, b);
}

} // verus!
