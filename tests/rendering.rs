use espflash_errors::{
    locate_span, ChipDetectError, Chip, Command, ConnectionError, CsvFailure, CSVError,
    ElfError, FlashDetectError, ImageFormatId, InvalidSubTypeError, PartitionTableError,
    RomError, RomErrorKind, SubType, DataType, TimedOutCommand, TopLevelError, Type,
    UnsupportedImageFormatError,
};

#[test]
fn timeout_message_names_known_command() {
    let known = ConnectionError::Timeout(TimedOutCommand::from(Command::SyncFrame));
    assert_eq!(known.message(), "Timeout while running SyncFrame command");
    let unknown = ConnectionError::Timeout(TimedOutCommand::default());
    assert_eq!(unknown.message(), "Timeout while running command");
    assert_eq!(unknown.code(), "espflash::timeout");
    assert_eq!(unknown.help(), None);
    assert_eq!(TimedOutCommand::from(Command::FlashMd5).describe(), "FlashMd5 ");
}

#[test]
fn serial_message_carries_port_description() {
    let e = ConnectionError::Serial(serial::Error::new(serial::ErrorKind::InvalidInput, "bad baud"));
    assert_eq!(e.message(), "IO error while using serial port: bad baud");
    assert_eq!(e.code(), "espflash::serial_error");
}

#[test]
fn connection_codes_and_help() {
    assert_eq!(ConnectionError::DeviceNotFound.message(), "Serial port not found");
    assert_eq!(ConnectionError::DeviceNotFound.code(), "espflash::connection_failed");
    assert_eq!(
        ConnectionError::DeviceNotFound.help(),
        Some("Ensure that the device is connected and your host recognizes the serial adapter")
    );
    assert_eq!(ConnectionError::FramingError.code(), "espflash::slip_framing");
    assert_eq!(ConnectionError::OverSizedPacket.code(), "espflash::oversized_packet");
}

#[test]
fn rom_error_message_names_command() {
    let e = RomError::new(Command::FlashEnd, RomErrorKind::InvalidCrc);
    assert_eq!(e.message(), "Error while running FlashEnd command");
    let top = TopLevelError::RomError(e);
    assert_eq!(top.code(), Some("espflash::rom::crc"));
    assert_eq!(top.message(), "The bootloader returned an error");
    assert!(top.help().is_none());
}

#[test]
fn detect_errors_print_hex() {
    assert_eq!(ChipDetectError(0x00f0_1d83).message(), "Unrecognized magic value 0xf01d83");
    assert_eq!(FlashDetectError(0x1a).message(), "Unrecognized flash id 0x1a");
    assert_eq!(FlashDetectError(0).message(), "Unrecognized flash id 0x0");
}

#[test]
fn top_level_summaries_and_codes() {
    let c = TopLevelError::Flashing(ConnectionError::FramingError);
    assert_eq!(c.message(), "Communication error while flashing device");
    assert_eq!(c.code(), Some("espflash::slip_framing"));
    assert!(c.help().unwrap().starts_with("Try hard-resetting"));
    let u = TopLevelError::UnknownImageFormat("hex".to_string());
    assert_eq!(u.message(), "Unrecognized image format hex");
    assert_eq!(u.help().unwrap(), "The following image formats are bootloader, direct-boot");
    let elf = TopLevelError::InvalidElf(ElfError("no entry"));
    assert_eq!(elf.code(), Some("espflash::invalid_elf"));
    assert_eq!(
        elf.help().unwrap(),
        "Try running `cargo clean` and rebuilding the image"
    );
}

#[test]
fn image_format_help_lists_supported_formats() {
    let e = UnsupportedImageFormatError::new(ImageFormatId::DirectBoot, Chip::Esp8266);
    assert_eq!(e.message(), "Image format direct-boot is not supported by the esp8266");
    let top = TopLevelError::UnsupportedImageFormat(e);
    assert_eq!(
        top.help().unwrap(),
        "The following image formats are supported by the esp8266: bootloader"
    );
    assert_eq!(top.code(), Some("espflash::unsupported_image_format"));
}

#[test]
fn partition_table_help_is_forwarded() {
    let text = "nvs,data,nvs,0x9000,0x6000\nfactory,data,factory,0x10000,1M\n";
    let e = InvalidSubTypeError::new(text, 2, Type::Data, SubType::Data(DataType::Fat));
    let top = TopLevelError::MalformedPartitionTable(PartitionTableError::InvalidSubType(e));
    assert_eq!(top.message(), "Invalid subtype for type");
    assert_eq!(top.code(), Some("espflash::partition_table::invalid_type"));
    assert!(top.help().unwrap().starts_with("'data' supports the following subtypes: "));

    let mut reader = csv::ReaderBuilder::new()
        .has_headers(false)
        .from_reader("a,b\nc\n".as_bytes());
    let cause = reader.records().find_map(|r| r.err()).unwrap();
    let failure = CsvFailure::Deserialize { line: Some(1), message: "bad".to_string() };
    let csv = CSVError::from_failure(&failure, cause, text.to_string());
    assert_eq!(csv.err_span, locate_span(text, 1));
    let top = TopLevelError::MalformedPartitionTable(PartitionTableError::Csv(csv));
    assert_eq!(top.message(), "Malformed partition table");
    assert!(top.help().unwrap().starts_with("See the espressif documentation"));
}
