use libs::calibrate::{
    CalibrationMode, CalibrationSession, CalibrationStep, CALIBRATION_MAGIC, CALIBRATION_SIZE,
};

const ALL_MODES: [CalibrationMode; 8] = [
    CalibrationMode::Level,
    CalibrationMode::FrontUp,
    CalibrationMode::BackUp,
    CalibrationMode::LeftSide,
    CalibrationMode::RightSide,
    CalibrationMode::UpsideDown,
    CalibrationMode::Ended,
    CalibrationMode::Failed,
];

#[test]
fn test_calibration_mode_roundtrip() {
    for mode in [
        CalibrationMode::Level,
        CalibrationMode::FrontUp,
        CalibrationMode::BackUp,
        CalibrationMode::LeftSide,
        CalibrationMode::RightSide,
        CalibrationMode::UpsideDown,
        CalibrationMode::Ended,
        CalibrationMode::Failed,
    ] {
        assert_eq!(CalibrationMode::from_bytes(&mode.to_bytes()), Some(mode));
    }
}

#[test]
fn test_calibration_mode_rejects_bad_magic() {
    let mut bytes = CalibrationMode::Level.to_bytes();
    bytes[0] = b'X';
    assert_eq!(CalibrationMode::from_bytes(&bytes), None);
}

#[test]
fn test_calibration_mode_rejects_short_buffer() {
    let bytes = CalibrationMode::Level.to_bytes();
    assert_eq!(
        CalibrationMode::from_bytes(&bytes[..CALIBRATION_SIZE - 1]),
        None
    );
}

#[test]
fn calibration_encoding_is_magic_then_mode_number() {
    assert_eq!(CALIBRATION_MAGIC, *b"CALB");
    for (i, mode) in ALL_MODES.iter().enumerate() {
        let bytes = mode.to_bytes();
        assert_eq!(&bytes[..4], b"CALB");
        assert_eq!(bytes[4], i as u8);
    }
}

#[test]
fn calibration_rejects_unknown_mode_byte() {
    assert_eq!(CalibrationMode::from_bytes(b"CALB\x08"), None);
    assert_eq!(CalibrationMode::from_bytes(b"CALB\xff"), None);
    assert_eq!(CalibrationMode::from_bytes(b"CALB\x07"), Some(CalibrationMode::Failed));
}

#[test]
fn calibration_decodes_from_longer_buffer() {
    assert_eq!(CalibrationMode::from_bytes(b"CALB\x03trailing"), Some(CalibrationMode::LeftSide));
    assert_eq!(CalibrationMode::from_bytes(b""), None);
}

#[test]
fn calibration_mode_names() {
    let names: Vec<&str> = ALL_MODES.iter().map(|m| m.name()).collect();
    assert_eq!(
        names,
        vec![
            "level",
            "front side up",
            "back side up",
            "left side up",
            "right side up",
            "upside down",
            "ended",
            "failed"
        ]
    );
}

#[test]
fn calibration_session_flow() {
    let mut session = CalibrationSession::new();
    assert!(session.should_send_start());
    // a reply of the wrong size neither starts the session nor means anything
    assert_eq!(session.on_reply(b"CAL"), CalibrationStep::Ignore);
    assert!(session.should_send_start());
    // a calibration-sized reply that does not decode still shows the start packet arrived
    assert_eq!(session.on_reply(b"XXXXX"), CalibrationStep::Ignore);
    assert!(!session.should_send_start());
    assert_eq!(
        session.on_reply(&CalibrationMode::FrontUp.to_bytes()),
        CalibrationStep::Place(CalibrationMode::FrontUp)
    );
    assert_eq!(session.on_reply(&CalibrationMode::Ended.to_bytes()), CalibrationStep::Complete);
    assert_eq!(session.on_reply(&CalibrationMode::Failed.to_bytes()), CalibrationStep::Failed);
    assert!(!session.should_send_start());
}
