use espflash_errors::{
    command_attribution, stage_promotion, Command, ConnectionError, FramingFailure, IoKind,
    RomError, RomErrorKind, SerialKind, TimedOutCommand, TopLevelError,
};

fn serial_cause() -> serial::Error {
    serial::Error::new(serial::ErrorKind::InvalidInput, "bad")
}

#[test]
fn rom_codes_map_to_named_kinds() {
    assert_eq!(RomErrorKind::from_code(0x05), RomErrorKind::InvalidMessage);
    assert_eq!(RomErrorKind::from_code(0x06), RomErrorKind::FailedToAct);
    assert_eq!(RomErrorKind::from_code(0x07), RomErrorKind::InvalidCrc);
    assert_eq!(RomErrorKind::from_code(0x08), RomErrorKind::FlashWriteError);
    assert_eq!(RomErrorKind::from_code(0x09), RomErrorKind::FlashReadError);
    assert_eq!(RomErrorKind::from_code(0x0a), RomErrorKind::FlashReadLengthError);
    assert_eq!(RomErrorKind::from_code(0x0b), RomErrorKind::DeflateError);
}

#[test]
fn rom_codes_outside_range_are_other() {
    for b in [0x00u8, 0x04, 0x0c, 0x10, 0x7f, 0xfe, 0xff] {
        assert_eq!(RomErrorKind::from_code(b), RomErrorKind::Other);
    }
    let kind: RomErrorKind = 0x07u8.into();
    assert_eq!(kind, RomErrorKind::InvalidCrc);
    assert_eq!(RomErrorKind::InvalidCrc.code(), "espflash::rom::crc");
    assert_eq!(RomErrorKind::Other.message(), "Other");
}

#[test]
fn rom_error_keeps_command_and_kind() {
    let e = RomError::new(Command::FlashData, RomErrorKind::FlashWriteError);
    assert_eq!(e.command, Command::FlashData);
    assert_eq!(e.kind, RomErrorKind::FlashWriteError);
}

#[test]
fn io_kinds_classify() {
    assert!(matches!(
        ConnectionError::from_io_kind(IoKind::TimedOut, serial_cause()),
        ConnectionError::Timeout(TimedOutCommand { command: None })
    ));
    assert!(matches!(
        ConnectionError::from_io_kind(IoKind::NotFound, serial_cause()),
        ConnectionError::DeviceNotFound
    ));
    assert!(matches!(
        ConnectionError::from_io_kind(IoKind::Other, serial_cause()),
        ConnectionError::Serial(_)
    ));
}

#[test]
fn io_errors_classify() {
    let t = std::io::Error::new(std::io::ErrorKind::TimedOut, "slow");
    assert!(matches!(
        ConnectionError::from_io(t),
        ConnectionError::Timeout(TimedOutCommand { command: None })
    ));
    let n = std::io::Error::new(std::io::ErrorKind::NotFound, "gone");
    assert!(matches!(ConnectionError::from_io(n), ConnectionError::DeviceNotFound));
    let o = std::io::Error::new(std::io::ErrorKind::BrokenPipe, "pipe");
    match ConnectionError::from_io(o) {
        ConnectionError::Serial(e) => {
            assert_eq!(e.kind(), serial::ErrorKind::Io(std::io::ErrorKind::BrokenPipe))
        }
        other => panic!("unexpected {:?}", other),
    }
}

#[test]
fn serial_errors_classify() {
    let gone = serial::Error::new(serial::ErrorKind::NoDevice, "gone");
    assert_eq!(ConnectionError::serial_kind(&gone), SerialKind::NoDevice);
    assert!(matches!(ConnectionError::from_serial(gone), ConnectionError::DeviceNotFound));
    let slow = serial::Error::new(serial::ErrorKind::Io(std::io::ErrorKind::TimedOut), "slow");
    assert_eq!(ConnectionError::serial_kind(&slow), SerialKind::Io(IoKind::TimedOut));
    assert!(matches!(ConnectionError::from_serial(slow), ConnectionError::Timeout(_)));
    let missing = serial::Error::new(serial::ErrorKind::Io(std::io::ErrorKind::NotFound), "x");
    assert!(matches!(ConnectionError::from_serial(missing), ConnectionError::DeviceNotFound));
    let bad = serial::Error::new(serial::ErrorKind::InvalidInput, "bad");
    assert_eq!(ConnectionError::serial_kind(&bad), SerialKind::Other);
    assert!(matches!(ConnectionError::from_serial(bad), ConnectionError::Serial(_)));
    assert!(matches!(
        ConnectionError::from_serial_kind(SerialKind::Io(IoKind::Other), serial_cause()),
        ConnectionError::Serial(_)
    ));
}

#[test]
fn slip_errors_classify() {
    assert!(matches!(
        ConnectionError::from_slip(slip_codec::Error::FramingError),
        ConnectionError::FramingError
    ));
    assert!(matches!(
        ConnectionError::from_slip(slip_codec::Error::OversizedPacket),
        ConnectionError::OverSizedPacket
    ));
    assert!(matches!(
        ConnectionError::from_slip(slip_codec::Error::EndOfStream),
        ConnectionError::FramingError
    ));
    let read = std::io::Error::new(std::io::ErrorKind::TimedOut, "slow");
    assert!(matches!(
        ConnectionError::from_slip(slip_codec::Error::ReadError(read)),
        ConnectionError::Timeout(TimedOutCommand { command: None })
    ));
    assert!(matches!(
        ConnectionError::from_framing(FramingFailure::Oversized),
        ConnectionError::OverSizedPacket
    ));
}

#[test]
fn binread_errors_classify() {
    let io = std::io::Error::new(std::io::ErrorKind::NotFound, "gone");
    assert!(matches!(
        ConnectionError::from_binread(binread::Error::Io(io)),
        Some(ConnectionError::DeviceNotFound)
    ));
    assert!(ConnectionError::from_binread(binread::Error::NoVariantMatch { pos: 3 }).is_none());
    let io = std::io::Error::new(std::io::ErrorKind::TimedOut, "slow");
    assert!(matches!(
        TopLevelError::from_binread(binread::Error::Io(io)),
        Some(TopLevelError::Connection(ConnectionError::Timeout(_)))
    ));
}

#[test]
fn top_level_conversions_are_connection_failures() {
    let gone = serial::Error::new(serial::ErrorKind::NoDevice, "gone");
    assert!(matches!(
        TopLevelError::from_serial(gone),
        TopLevelError::Connection(ConnectionError::DeviceNotFound)
    ));
    assert!(matches!(
        TopLevelError::from_slip(slip_codec::Error::FramingError),
        TopLevelError::Connection(ConnectionError::FramingError)
    ));
}

#[test]
fn promotion_relabels_connection_failures() {
    let r: Result<u8, TopLevelError> = Err(TopLevelError::Connection(ConnectionError::DeviceNotFound));
    assert!(matches!(
        stage_promotion(r),
        Err(TopLevelError::Flashing(ConnectionError::DeviceNotFound))
    ));
    let t: Result<u8, TopLevelError> =
        Err(TopLevelError::Connection(ConnectionError::Timeout(TimedOutCommand::default())));
    assert!(matches!(
        stage_promotion(t),
        Err(TopLevelError::Flashing(ConnectionError::Timeout(TimedOutCommand { command: None })))
    ));
}

#[test]
fn promotion_passes_other_results_through() {
    let ok: Result<u8, TopLevelError> = Ok(7);
    assert!(matches!(stage_promotion(ok), Ok(7)));
    let f: Result<u8, TopLevelError> = Err(TopLevelError::Flashing(ConnectionError::FramingError));
    let once = stage_promotion(f);
    assert!(matches!(once, Err(TopLevelError::Flashing(ConnectionError::FramingError))));
    assert!(matches!(
        stage_promotion(once),
        Err(TopLevelError::Flashing(ConnectionError::FramingError))
    ));
    let other: Result<u8, TopLevelError> = Err(TopLevelError::FlashConnect);
    assert!(matches!(stage_promotion(other), Err(TopLevelError::FlashConnect)));
}

#[test]
fn attribution_fills_in_the_command() {
    let c: Result<(), TopLevelError> =
        Err(TopLevelError::Connection(ConnectionError::Timeout(TimedOutCommand::unknown())));
    assert!(matches!(
        command_attribution(c, Command::FlashBegin),
        Err(TopLevelError::Connection(ConnectionError::Timeout(TimedOutCommand {
            command: Some(Command::FlashBegin)
        })))
    ));
    let f: Result<(), TopLevelError> = Err(TopLevelError::Flashing(ConnectionError::Timeout(
        TimedOutCommand::from(Command::MemEnd),
    )));
    assert!(matches!(
        command_attribution(f, Command::FlashMd5),
        Err(TopLevelError::Flashing(ConnectionError::Timeout(TimedOutCommand {
            command: Some(Command::FlashMd5)
        })))
    ));
}

#[test]
fn attribution_passes_other_results_through() {
    let ok: Result<u8, TopLevelError> = Ok(1);
    assert!(matches!(command_attribution(ok, Command::SyncFrame), Ok(1)));
    let c: Result<u8, TopLevelError> = Err(TopLevelError::Connection(ConnectionError::FramingError));
    assert!(matches!(
        command_attribution(c, Command::SyncFrame),
        Err(TopLevelError::Connection(ConnectionError::FramingError))
    ));
    let r: Result<u8, TopLevelError> = Err(TopLevelError::RomError(RomError::new(
        Command::FlashEnd,
        RomErrorKind::InvalidCrc,
    )));
    assert!(matches!(
        command_attribution(r, Command::SyncFrame),
        Err(TopLevelError::RomError(RomError { command: Command::FlashEnd, .. }))
    ));
}

#[test]
fn timeout_then_attribution_names_sync_frame() {
    let io = std::io::Error::new(std::io::ErrorKind::TimedOut, "no answer");
    let e = TopLevelError::from_io(io);
    assert!(matches!(
        e,
        TopLevelError::Connection(ConnectionError::Timeout(TimedOutCommand { command: None }))
    ));
    let r: Result<(), TopLevelError> = Err(e);
    assert!(matches!(
        command_attribution(r, Command::SyncFrame),
        Err(TopLevelError::Connection(ConnectionError::Timeout(TimedOutCommand {
            command: Some(Command::SyncFrame)
        })))
    ));
}
