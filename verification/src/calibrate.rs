//! The calibration packet: the flight controller tells the ground station which pose to hold
//! next while it calibrates the accelerometer.
use vstd::prelude::*;

verus! {

/// The bytes every calibration packet starts with: `"CALB"`.
pub const CALIBRATION_MAGIC: [u8; 4] = [0x43, 0x41, 0x4c, 0x42];

/// Length of an encoded calibration packet: the magic and one byte for the mode.
pub const CALIBRATION_SIZE: usize = 5;

/// The magic bytes as a sequence.
pub open spec fn calibration_magic() -> Seq<u8> {
    CALIBRATION_MAGIC@
}

/// Step of the accelerometer calibration that the flight controller reports.
#[derive(Debug, Clone, Copy, PartialEq, Eq, Structural)]
pub enum CalibrationMode {
    Level,
    FrontUp,
    BackUp,
    LeftSide,
    RightSide,
    UpsideDown,
    Ended,
    Failed,
}

/// The byte that stands for `m` on the wire.
pub open spec fn mode_code(m: CalibrationMode) -> u8 {
    match m {
        CalibrationMode::Level => 0,
        CalibrationMode::FrontUp => 1,
        CalibrationMode::BackUp => 2,
        CalibrationMode::LeftSide => 3,
        CalibrationMode::RightSide => 4,
        CalibrationMode::UpsideDown => 5,
        CalibrationMode::Ended => 6,
        CalibrationMode::Failed => 7,
    }
}

/// The mode that the byte `c` stands for, if any.
pub open spec fn mode_of_code(c: u8) -> Option<CalibrationMode> {
    if c == 0 {
        Some(CalibrationMode::Level)
    } else if c == 1 {
        Some(CalibrationMode::FrontUp)
    } else if c == 2 {
        Some(CalibrationMode::BackUp)
    } else if c == 3 {
        Some(CalibrationMode::LeftSide)
    } else if c == 4 {
        Some(CalibrationMode::RightSide)
    } else if c == 5 {
        Some(CalibrationMode::UpsideDown)
    } else if c == 6 {
        Some(CalibrationMode::Ended)
    } else if c == 7 {
        Some(CalibrationMode::Failed)
    } else {
        None
    }
}

/// The wire encoding of `m`.
pub open spec fn encode_calibration(m: CalibrationMode) -> Seq<u8> {
    calibration_magic().push(mode_code(m))
}

/// What decoding the bytes `b` gives: `None` for a short buffer, a wrong magic or an unknown
/// mode byte.
pub open spec fn decode_calibration(b: Seq<u8>) -> Option<CalibrationMode> {
    if b.len() < CALIBRATION_SIZE || b.take(4) != calibration_magic() {
        None
    } else {
        mode_of_code(b[4])
    }
}

impl CalibrationMode {
    /// Human-readable name of the pose to hold.
    pub fn name(&self) -> (r: &'static str)
        ensures
            r@ == (match *self {
                CalibrationMode::Level => "level"@,
                CalibrationMode::FrontUp => "front side up"@,
                CalibrationMode::BackUp => "back side up"@,
                CalibrationMode::LeftSide => "left side up"@,
                CalibrationMode::RightSide => "right side up"@,
                CalibrationMode::UpsideDown => "upside down"@,
                CalibrationMode::Ended => "ended"@,
                CalibrationMode::Failed => "failed"@,
            }),
    {
        match self {
            Self::Level => "level",
            Self::FrontUp => "front side up",
            Self::BackUp => "back side up",
            Self::LeftSide => "left side up",
            Self::RightSide => "right side up",
            Self::UpsideDown => "upside down",
            Self::Ended => "ended",
            Self::Failed => "failed",
        }
    }

    /// The byte that stands for this mode on the wire.
    fn code(self) -> (r: u8)
        ensures
            r == mode_code(self),
    {
        match self {
            Self::Level => 0,
            Self::FrontUp => 1,
            Self::BackUp => 2,
            Self::LeftSide => 3,
            Self::RightSide => 4,
            Self::UpsideDown => 5,
            Self::Ended => 6,
            Self::Failed => 7,
        }
    }

    pub fn to_bytes(self) -> (r: [u8; CALIBRATION_SIZE])
        ensures
            r@ == encode_calibration(self),
            r@[0] == 0x43 && r@[1] == 0x41 && r@[2] == 0x4c && r@[3] == 0x42,
            r@[4] == mode_code(self),
    {
        let mut buf = [0u8; CALIBRATION_SIZE];
        buf[0] = CALIBRATION_MAGIC[0];
        buf[1] = CALIBRATION_MAGIC[1];
        buf[2] = CALIBRATION_MAGIC[2];
        buf[3] = CALIBRATION_MAGIC[3];
        buf[4] = self.code();
        assert(buf@ =~= encode_calibration(self));
        buf
    }

    pub fn from_bytes(buf: &[u8]) -> (r: Option<Self>)
        ensures
            r == decode_calibration(buf@),
            r is Some <==> (buf@.len() >= 5 && buf@[0] == 0x43 && buf@[1] == 0x41 && buf@[2]
                == 0x4c && buf@[3] == 0x42 && buf@[4] <= 7),
            r matches Some(m) ==> mode_code(m) == buf@[4],
    {
        proof {
            law_calibration_frame_bytes(buf@);
        }
        if buf.len() < CALIBRATION_SIZE {
            return None;
        }
        if buf[0] != CALIBRATION_MAGIC[0] || buf[1] != CALIBRATION_MAGIC[1]
            || buf[2] != CALIBRATION_MAGIC[2] || buf[3] != CALIBRATION_MAGIC[3] {
            assert(buf@.take(4) != calibration_magic()) by {
                if buf@.take(4) == calibration_magic() {
                    assert(buf@.take(4)[0] == buf@[0]);
                    assert(buf@.take(4)[1] == buf@[1]);
                    assert(buf@.take(4)[2] == buf@[2]);
                    assert(buf@.take(4)[3] == buf@[3]);
                }
            }
            return None;
        }
        assert(buf@.take(4) =~= calibration_magic());
        match buf[4] {
            0 => Some(Self::Level),
            1 => Some(Self::FrontUp),
            2 => Some(Self::BackUp),
            3 => Some(Self::LeftSide),
            4 => Some(Self::RightSide),
            5 => Some(Self::UpsideDown),
            6 => Some(Self::Ended),
            7 => Some(Self::Failed),
            _ => None,
        }
    }
}

/// What the ground station does with one reply during a calibration session.
#[derive(Debug, Clone, Copy, PartialEq, Eq, Structural)]
pub enum CalibrationStep {
    /// Not a calibration packet: keep listening.
    Ignore,
    /// Tell the operator to place the quad in this pose.
    Place(CalibrationMode),
    /// Calibration finished and was saved.
    Complete,
    /// Calibration failed and nothing was saved.
    Failed,
}

/// The step that the reply `b` calls for.
pub open spec fn calibration_step(b: Seq<u8>) -> CalibrationStep {
    if b.len() != CALIBRATION_SIZE {
        CalibrationStep::Ignore
    } else {
        match decode_calibration(b) {
            None => CalibrationStep::Ignore,
            Some(CalibrationMode::Ended) => CalibrationStep::Complete,
            Some(CalibrationMode::Failed) => CalibrationStep::Failed,
            Some(m) => CalibrationStep::Place(m),
        }
    }
}

/// The ground station's side of a calibration session.
///
/// The flight controller starts calibrating when any control packet reaches it, so the station
/// keeps sending one until the first calibration-sized reply shows that it was heard.
#[derive(Debug, Clone, Copy, PartialEq, Eq, Structural)]
pub struct CalibrationSession {
    /// Whether the flight controller has answered.
    pub started: bool,
}

impl CalibrationSession {
    pub fn new() -> (r: Self)
        ensures
            !r.started,
    {
        CalibrationSession { started: false }
    }

    /// Whether the start packet still has to be (re)sent.
    pub fn should_send_start(&self) -> (r: bool)
        ensures
            r == !self.started,
    {
        !self.started
    }

    /// Takes one received reply (the datagram's bytes) and says what to do.
    pub fn on_reply(&mut self, reply: &[u8]) -> (r: CalibrationStep)
        ensures
            final(self).started == (old(self).started || reply@.len() == CALIBRATION_SIZE),
            r == calibration_step(reply@),
            final(self).started == (old(self).started || reply@.len() == 5),
    {
        proof {
            law_calibration_step_bytes(reply@);
        }
        if reply.len() != CALIBRATION_SIZE {
            return CalibrationStep::Ignore;
        }
        self.started = true;
        match CalibrationMode::from_bytes(reply) {
            None => CalibrationStep::Ignore,
            Some(CalibrationMode::Ended) => CalibrationStep::Complete,
            Some(CalibrationMode::Failed) => CalibrationStep::Failed,
            Some(m) => CalibrationStep::Place(m),
        }
    }
}

/// Proves the mode numbering on the wire, mode by mode, and that no byte above 7 is a mode.
pub proof fn law_mode_codes(c: u8)
    ensures
        mode_code(CalibrationMode::Level) == 0,
        mode_of_code(0) == Some(CalibrationMode::Level),
        mode_code(CalibrationMode::FrontUp) == 1,
        mode_of_code(1) == Some(CalibrationMode::FrontUp),
        mode_code(CalibrationMode::BackUp) == 2,
        mode_of_code(2) == Some(CalibrationMode::BackUp),
        mode_code(CalibrationMode::LeftSide) == 3,
        mode_of_code(3) == Some(CalibrationMode::LeftSide),
        mode_code(CalibrationMode::RightSide) == 4,
        mode_of_code(4) == Some(CalibrationMode::RightSide),
        mode_code(CalibrationMode::UpsideDown) == 5,
        mode_of_code(5) == Some(CalibrationMode::UpsideDown),
        mode_code(CalibrationMode::Ended) == 6,
        mode_of_code(6) == Some(CalibrationMode::Ended),
        mode_code(CalibrationMode::Failed) == 7,
        mode_of_code(7) == Some(CalibrationMode::Failed),
        c > 7 ==> mode_of_code(c) is None,
        c <= 7 ==> mode_of_code(c) is Some && mode_code(mode_of_code(c).unwrap()) == c,
{
}

/// Proves which buffers decode to a mode, byte by byte: five bytes or more, `"CALB"`, then a
/// mode number 0 to 7, which names the decoded mode.
pub proof fn law_calibration_frame_bytes(b: Seq<u8>)
    ensures
        decode_calibration(b) is Some <==> (b.len() >= 5 && b[0] == 0x43 && b[1] == 0x41 && b[2]
            == 0x4c && b[3] == 0x42 && b[4] <= 7),
        decode_calibration(b) matches Some(m) ==> mode_code(m) == b[4],
{
    if b.len() >= 5 {
        if b[0] == 0x43 && b[1] == 0x41 && b[2] == 0x4c && b[3] == 0x42 {
            assert(b.take(4) =~= calibration_magic());
        }
        if b.take(4) == calibration_magic() {
            assert(b.take(4)[0] == b[0] && b.take(4)[1] == b[1] && b.take(4)[2] == b[2]
                && b.take(4)[3] == b[3]);
        }
    }
}

/// Proves what a reply makes the session do, byte by byte: only a five-byte `"CALB"` reply
/// counts; mode 6 (ended) completes the session, mode 7 (failed) fails it, modes 0 to 5 ask
/// for that pose, and anything else is ignored.
pub proof fn law_calibration_step_bytes(b: Seq<u8>)
    ensures
        calibration_step(b) == CalibrationStep::Complete <==> (b.len() == 5 && b[0] == 0x43 && b[1]
            == 0x41 && b[2] == 0x4c && b[3] == 0x42 && b[4] == 6),
        calibration_step(b) == CalibrationStep::Failed <==> (b.len() == 5 && b[0] == 0x43 && b[1]
            == 0x41 && b[2] == 0x4c && b[3] == 0x42 && b[4] == 7),
        calibration_step(b) is Place <==> (b.len() == 5 && b[0] == 0x43 && b[1] == 0x41 && b[2]
            == 0x4c && b[3] == 0x42 && b[4] <= 5),
        calibration_step(b) matches CalibrationStep::Place(m) ==> mode_code(m) == b[4],
{
    law_calibration_frame_bytes(b);
}

/// Proves that every mode survives the wire: decoding its encoding gives the mode back.
pub proof fn law_calibration_roundtrip(m: CalibrationMode)
    ensures
        decode_calibration(encode_calibration(m)) == Some(m),
{
    assert(encode_calibration(m).take(4) =~= calibration_magic());
}

/// Proves that decoding loses nothing: a buffer that decodes to a mode starts with that mode's
/// encoding.
pub proof fn law_calibration_decode_encode(b: Seq<u8>)
    requires
        decode_calibration(b) is Some,
    ensures
        encode_calibration(decode_calibration(b).unwrap()) =~= b.take(CALIBRATION_SIZE as int),
{
    let e = encode_calibration(decode_calibration(b).unwrap());
    assert forall|i: int| 0 <= i < 4 implies #[trigger] e[i] == b[i] by {
        assert(b.take(4)[i] == b[i]);
    }
}

/// Proves that a session ends exactly on the two final modes: their encodings finish it, and any
/// other mode's encoding asks for a pose.
pub proof fn law_session_ends_on_final_modes(m: CalibrationMode)
    ensures
        calibration_step(encode_calibration(m)) == (match m {
            CalibrationMode::Ended => CalibrationStep::Complete,
            CalibrationMode::Failed => CalibrationStep::Failed,
            _ => CalibrationStep::Place(m),
        }),
{
    law_calibration_roundtrip(m);
}

} // verus!
