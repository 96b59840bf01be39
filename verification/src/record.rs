//! The flash record that keeps the accelerometer calibration across reboots and reflashes:
//! magic, six little-endian `f32` words, and a CRC-16 over those words.
use vstd::prelude::*;

use crate::bytes::{
    le_bytes_u16, le_bytes_u32, le_value_u16, le_value_u32, lemma_le_u16_roundtrip,
    lemma_le_u32_bytes_roundtrip, lemma_le_u32_roundtrip, u16_from_le_bytes, u16_to_le_bytes,
    u32_from_le_bytes, u32_to_le_bytes,
};

verus! {

/// The bytes a written record starts with: `"ACAL"`. Erased flash reads back as all `0xFF`, so
/// a record without them was never written or has been erased.
pub const RECORD_MAGIC: [u8; 4] = [0x41, 0x43, 0x41, 0x4c];
/// Length of the payload: three bias and three scale `f32` words.
pub const PAYLOAD_LEN: usize = 24;
/// Length of a whole record: magic, payload and CRC-16.
pub const RECORD_LEN: usize = 30;

/// The magic bytes as a sequence.
pub open spec fn record_magic() -> Seq<u8> {
    RECORD_MAGIC@
}

/// Accelerometer calibration: per-axis bias and scale, each component held as the bit pattern
/// of its `f32` value (`f32::to_bits`), which is what the record stores.
#[derive(Debug, Clone, Copy)]
pub struct AccelBias {
    /// Bit patterns of the X, Y and Z bias.
    pub bias: [u32; 3],
    /// Bit patterns of the X, Y and Z scale.
    pub scale: [u32; 3],
}

/// The payload bytes of `a`: bias X, Y, Z then scale X, Y, Z, each little-endian.
pub open spec fn payload_bytes(a: AccelBias) -> Seq<u8> {
    le_bytes_u32(a.bias[0]) + le_bytes_u32(a.bias[1]) + le_bytes_u32(a.bias[2]) + le_bytes_u32(
        a.scale[0],
    ) + le_bytes_u32(a.scale[1]) + le_bytes_u32(a.scale[2])
}

/// The whole record of `a`, with `crc` as the stored checksum of its payload.
pub open spec fn encode_record(a: AccelBias, crc: u16) -> Seq<u8> {
    record_magic() + payload_bytes(a) + le_bytes_u16(crc)
}

/// Word `k` of a payload held in `b` (the payload starts at byte 4).
pub open spec fn record_word(b: Seq<u8>, k: int) -> u32 {
    le_value_u32(b.subrange(4 + 4 * k, 8 + 4 * k))
}

/// Whether `b` is a record whose checksum field matches `payload_crc`, the checksum of its
/// payload bytes.
pub open spec fn record_valid(b: Seq<u8>, payload_crc: u16) -> bool {
    &&& b.take(4) == record_magic()
    &&& le_value_u16(b.subrange(28, 30)) == payload_crc
}

/// Whether `a` holds the words that the record `b` stores.
pub open spec fn record_holds(b: Seq<u8>, a: AccelBias) -> bool {
    &&& a.bias[0] == record_word(b, 0)
    &&& a.bias[1] == record_word(b, 1)
    &&& a.bias[2] == record_word(b, 2)
    &&& a.scale[0] == record_word(b, 3)
    &&& a.scale[1] == record_word(b, 4)
    &&& a.scale[2] == record_word(b, 5)
}

impl AccelBias {
    /// The payload bytes, over which the record's checksum is taken.
    pub fn payload(&self) -> (r: [u8; PAYLOAD_LEN])
        ensures
            r@ == payload_bytes(*self),
    {
        let mut buf = [0u8; PAYLOAD_LEN];
        let words = [
            self.bias[0],
            self.bias[1],
            self.bias[2],
            self.scale[0],
            self.scale[1],
            self.scale[2],
        ];
        let mut k: usize = 0;
        while k < 6
            invariant
                0 <= k <= 6,
                words@ == seq![
                    self.bias[0],
                    self.bias[1],
                    self.bias[2],
                    self.scale[0],
                    self.scale[1],
                    self.scale[2],
                ],
                forall|j: int, i: int|
                    0 <= j < k && 0 <= i < 4 ==> #[trigger] buf@[4 * j + i] == le_bytes_u32(
                        words@[j],
                    )[i],
            decreases 6 - k,
        {
            let w = u32_to_le_bytes(words[k]);
            buf[4 * k] = w[0];
            buf[4 * k + 1] = w[1];
            buf[4 * k + 2] = w[2];
            buf[4 * k + 3] = w[3];
            assert forall|j: int, i: int|
                0 <= j < k + 1 && 0 <= i < 4 implies #[trigger] buf@[4 * j + i] == le_bytes_u32(
                words@[j],
            )[i] by {
                if j == k {
                    assert(w@[i] == le_bytes_u32(words@[j])[i]);
                }
            }
            k += 1;
        }
        assert forall|n: int| 0 <= n < 24 implies #[trigger] buf@[n] == payload_bytes(*self)[n] by {
            let j = n / 4;
            let i = n % 4;
            assert(n == 4 * j + i);
            assert(buf@[4 * j + i] == le_bytes_u32(words@[j])[i]);
        }
        assert(buf@ =~= payload_bytes(*self));
        buf
    }

    /// The record to write to flash, with `payload_crc` (the CRC-16 of `self.payload()`) as its
    /// checksum.
    pub fn as_bytes(&self, payload_crc: u16) -> (r: [u8; RECORD_LEN])
        ensures
            r@ == encode_record(*self, payload_crc),
            r@[0] == 0x41 && r@[1] == 0x43 && r@[2] == 0x41 && r@[3] == 0x4c,
            forall|k: int|
                0 <= k < 6 ==> #[trigger] r@[4 + 4 * k] as int + r@[5 + 4 * k] as int * 0x100
                    + r@[6 + 4 * k] as int * 0x10000 + r@[7 + 4 * k] as int * 0x1000000 == (if k
                    < 3 {
                    self.bias[k]
                } else {
                    self.scale[k - 3]
                }) as int,
            r@[28] as int + r@[29] as int * 0x100 == payload_crc as int,
    {
        proof {
            law_record_layout(*self, payload_crc);
        }
        let payload = self.payload();
        let crc = u16_to_le_bytes(payload_crc);
        let mut buf = [0u8; RECORD_LEN];
        buf[0] = RECORD_MAGIC[0];
        buf[1] = RECORD_MAGIC[1];
        buf[2] = RECORD_MAGIC[2];
        buf[3] = RECORD_MAGIC[3];
        let mut n: usize = 0;
        while n < PAYLOAD_LEN
            invariant
                0 <= n <= PAYLOAD_LEN,
                buf@.take(4) == record_magic(),
                forall|i: int| 0 <= i < n ==> #[trigger] buf@[4 + i] == payload@[i],
            decreases PAYLOAD_LEN - n,
        {
            buf[4 + n] = payload[n];
            assert(buf@.take(4) =~= record_magic());
            n += 1;
        }
        buf[28] = crc[0];
        buf[29] = crc[1];
        let ghost e = encode_record(*self, payload_crc);
        assert forall|i: int| 0 <= i < 30 implies #[trigger] buf@[i] == e[i] by {
            if i < 4 {
                assert(buf@.take(4)[i] == buf@[i]);
            } else if i < 28 {
                assert(buf@[4 + (i - 4)] == payload@[i - 4]);
            }
        }
        assert(buf@ =~= e);
        buf
    }

    /// Reads a record back: `None` where the magic is missing or the stored checksum differs
    /// from `payload_crc`, the CRC-16 of the record's payload bytes `buf[4..28]`.
    pub fn from_bytes(buf: &[u8; RECORD_LEN], payload_crc: u16) -> (r: Option<AccelBias>)
        ensures
            r is Some <==> record_valid(buf@, payload_crc),
            r matches Some(a) ==> record_holds(buf@, a),
            r is Some <==> (buf@[0] == 0x41 && buf@[1] == 0x43 && buf@[2] == 0x41 && buf@[3] == 0x4c
                && buf@[28] as int + buf@[29] as int * 0x100 == payload_crc as int),
            r matches Some(a) ==> forall|k: int|
                0 <= k < 6 ==> #[trigger] buf@[4 + 4 * k] as int + buf@[5 + 4 * k] as int * 0x100
                    + buf@[6 + 4 * k] as int * 0x10000 + buf@[7 + 4 * k] as int * 0x1000000 == (if k
                    < 3 {
                    a.bias[k]
                } else {
                    a.scale[k - 3]
                }) as int,
    {
        proof {
            law_record_bytes(buf@, payload_crc);
        }
        if buf[0] != RECORD_MAGIC[0] || buf[1] != RECORD_MAGIC[1] || buf[2] != RECORD_MAGIC[2]
            || buf[3] != RECORD_MAGIC[3] {
            assert(buf@.take(4) != record_magic()) by {
                if buf@.take(4) == record_magic() {
                    assert(buf@.take(4)[0] == buf@[0]);
                    assert(buf@.take(4)[1] == buf@[1]);
                    assert(buf@.take(4)[2] == buf@[2]);
                    assert(buf@.take(4)[3] == buf@[3]);
                }
            }
            return None;
        }
        assert(buf@.take(4) =~= record_magic());
        let stored = u16_from_le_bytes(buf[28], buf[29]);
        assert(buf@.subrange(28, 30) =~= seq![buf@[28], buf@[29]]);
        if stored != payload_crc {
            return None;
        }
        let mut words: [u32; 6] = [0u32; 6];
        let mut k: usize = 0;
        while k < 6
            invariant
                0 <= k <= 6,
                forall|j: int| 0 <= j < k ==> #[trigger] words@[j] == record_word(buf@, j),
            decreases 6 - k,
        {
            let at = 4 + 4 * k;
            let w = u32_from_le_bytes(buf[at], buf[at + 1], buf[at + 2], buf[at + 3]);
            assert(buf@.subrange(4 + 4 * k, 8 + 4 * k) =~= seq![
                buf@[4 + 4 * k],
                buf@[5 + 4 * k],
                buf@[6 + 4 * k],
                buf@[7 + 4 * k],
            ]);
            words[k] = w;
            k += 1;
        }
        let bias = [words[0], words[1], words[2]];
        let scale = [words[3], words[4], words[5]];
        let a = AccelBias { bias, scale };
        proof {
            law_record_words(buf@, a);
        }
        Some(a)
    }
}

/// Proves the record layout byte by byte: `"ACAL"`, then bias X, Y, Z and scale X, Y, Z as
/// little-endian base-256 numbers, then the checksum as a little-endian number.
pub proof fn law_record_layout(a: AccelBias, crc: u16)
    ensures
        encode_record(a, crc).len() == 30,
        encode_record(a, crc)[0] == 0x41 && encode_record(a, crc)[1] == 0x43 && encode_record(
            a,
            crc,
        )[2] == 0x41 && encode_record(a, crc)[3] == 0x4c,
        forall|k: int|
            0 <= k < 6 ==> #[trigger] encode_record(a, crc)[4 + 4 * k] as int + encode_record(
                a,
                crc,
            )[5 + 4 * k] as int * 0x100 + encode_record(a, crc)[6 + 4 * k] as int * 0x10000
                + encode_record(a, crc)[7 + 4 * k] as int * 0x1000000 == (if k < 3 {
                a.bias[k]
            } else {
                a.scale[k - 3]
            }) as int,
        encode_record(a, crc)[28] as int + encode_record(a, crc)[29] as int * 0x100 == crc as int,
{
    let b = encode_record(a, crc);
    crate::bytes::lemma_le_u16_digits(crc);
    assert forall|k: int| 0 <= k < 6 implies #[trigger] b[4 + 4 * k] as int + b[5 + 4 * k] as int
        * 0x100 + b[6 + 4 * k] as int * 0x10000 + b[7 + 4 * k] as int * 0x1000000 == (if k < 3 {
        a.bias[k]
    } else {
        a.scale[k - 3]
    }) as int by {
        let w = if k < 3 {
            a.bias[k]
        } else {
            a.scale[k - 3]
        };
        crate::bytes::lemma_le_u32_digits(w);
        assert(b[4 + 4 * k] == le_bytes_u32(w)[0]);
        assert(b[5 + 4 * k] == le_bytes_u32(w)[1]);
        assert(b[6 + 4 * k] == le_bytes_u32(w)[2]);
        assert(b[7 + 4 * k] == le_bytes_u32(w)[3]);
    }
}

/// Proves which records are valid, byte by byte: they open with `"ACAL"` and their last two
/// bytes, read as a little-endian number, are the payload's checksum.
pub proof fn law_record_bytes(b: Seq<u8>, crc: u16)
    requires
        b.len() == 30,
    ensures
        record_valid(b, crc) == (b[0] == 0x41 && b[1] == 0x43 && b[2] == 0x41 && b[3] == 0x4c
            && b[28] as int + b[29] as int * 0x100 == crc as int),
{
    crate::bytes::lemma_le_u16_value_digits(b[28], b[29]);
    assert(b.subrange(28, 30) =~= seq![b[28], b[29]]);
    if b[0] == 0x41 && b[1] == 0x43 && b[2] == 0x41 && b[3] == 0x4c {
        assert(b.take(4) =~= record_magic());
    }
    if b.take(4) == record_magic() {
        assert(b.take(4)[0] == b[0] && b.take(4)[1] == b[1] && b.take(4)[2] == b[2] && b.take(4)[3]
            == b[3]);
    }
}

/// Proves what a calibration read from a record holds, byte by byte: word `k` (bias X, Y, Z then
/// scale X, Y, Z) is the little-endian base-256 number of bytes `4 + 4k .. 8 + 4k`.
pub proof fn law_record_words(b: Seq<u8>, a: AccelBias)
    requires
        b.len() == 30,
        record_holds(b, a),
    ensures
        forall|k: int|
            0 <= k < 6 ==> #[trigger] b[4 + 4 * k] as int + b[5 + 4 * k] as int * 0x100 + b[6 + 4
                * k] as int * 0x10000 + b[7 + 4 * k] as int * 0x1000000 == (if k < 3 {
                a.bias[k]
            } else {
                a.scale[k - 3]
            }) as int,
{
    assert forall|k: int| 0 <= k < 6 implies #[trigger] b[4 + 4 * k] as int + b[5 + 4 * k] as int
        * 0x100 + b[6 + 4 * k] as int * 0x10000 + b[7 + 4 * k] as int * 0x1000000 == (if k < 3 {
        a.bias[k]
    } else {
        a.scale[k - 3]
    }) as int by {
        crate::bytes::lemma_le_u32_value_digits(b[4 + 4 * k], b[5 + 4 * k], b[6 + 4 * k], b[7 + 4 * k]);
        assert(b.subrange(4 + 4 * k, 8 + 4 * k) =~= seq![
            b[4 + 4 * k],
            b[5 + 4 * k],
            b[6 + 4 * k],
            b[7 + 4 * k],
        ]);
        assert(record_word(b, k) == le_value_u32(seq![
            b[4 + 4 * k],
            b[5 + 4 * k],
            b[6 + 4 * k],
            b[7 + 4 * k],
        ]));
    }
}

/// Proves that a calibration survives flash: the record written for it, read back with the same
/// checksum, is valid and holds exactly its words.
pub proof fn law_record_roundtrip(a: AccelBias, crc: u16)
    ensures
        encode_record(a, crc).len() == RECORD_LEN,
        record_valid(encode_record(a, crc), crc),
        record_holds(encode_record(a, crc), a),
{
    let b = encode_record(a, crc);
    lemma_le_u16_roundtrip(crc);
    lemma_le_u32_roundtrip(a.bias[0]);
    lemma_le_u32_roundtrip(a.bias[1]);
    lemma_le_u32_roundtrip(a.bias[2]);
    lemma_le_u32_roundtrip(a.scale[0]);
    lemma_le_u32_roundtrip(a.scale[1]);
    lemma_le_u32_roundtrip(a.scale[2]);
    assert(b.take(4) =~= record_magic());
    assert(b.subrange(28, 30) =~= le_bytes_u16(crc));
    assert(b.subrange(4, 8) =~= le_bytes_u32(a.bias[0]));
    assert(b.subrange(8, 12) =~= le_bytes_u32(a.bias[1]));
    assert(b.subrange(12, 16) =~= le_bytes_u32(a.bias[2]));
    assert(b.subrange(16, 20) =~= le_bytes_u32(a.scale[0]));
    assert(b.subrange(20, 24) =~= le_bytes_u32(a.scale[1]));
    assert(b.subrange(24, 28) =~= le_bytes_u32(a.scale[2]));
}

/// Proves that reading loses nothing: a valid record is the very record that would be written for
/// the calibration it holds.
pub proof fn law_record_decode_encode(b: Seq<u8>, crc: u16, a: AccelBias)
    requires
        b.len() == RECORD_LEN,
        record_valid(b, crc),
        record_holds(b, a),
    ensures
        encode_record(a, crc) =~= b,
{
    let e = encode_record(a, crc);
    assert forall|k: int| 0 <= k < 6 implies #[trigger] le_bytes_u32(record_word(b, k))
        =~= b.subrange(4 + 4 * k, 8 + 4 * k) by {
        lemma_le_u32_bytes_roundtrip(b.subrange(4 + 4 * k, 8 + 4 * k));
    }
    assert(le_bytes_u16(le_value_u16(b.subrange(28, 30))) =~= b.subrange(28, 30)) by {
        let s = b.subrange(28, 30);
        let b0 = s[0];
        let b1 = s[1];
        let x = le_value_u16(s);
        assert(x == (b0 as u16) | (b1 as u16) << 8);
        assert(x == (b0 as u16) | (b1 as u16) << 8 ==> (x & 0xff) as u8 == b0 && (x >> 8) as u8
            == b1) by (bit_vector);
    }
    assert forall|i: int| 0 <= i < 30 implies #[trigger] e[i] == b[i] by {
        if i < 4 {
            assert(b.take(4)[i] == b[i]);
        } else if i < 28 {
            let k = (i - 4) / 4;
            assert(le_bytes_u32(record_word(b, k)) =~= b.subrange(4 + 4 * k, 8 + 4 * k));
            assert(b.subrange(4 + 4 * k, 8 + 4 * k)[i - 4 - 4 * k] == b[i]);
        } else {
            assert(b.subrange(28, 30)[i - 28] == b[i]);
        }
    }
}

} // verus!
