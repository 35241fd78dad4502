use espflash_errors::{
    join_names, Command, RomError, RomErrorKind, TopLevelError, ChipDetectError, Chip, ElfError, FlashDetectError, ImageFormatId,
    UnsupportedImageFormatError,
};

#[test]
fn supported_formats_are_listed() {
    let e = UnsupportedImageFormatError::new(ImageFormatId::DirectBoot, Chip::Esp32);
    assert_eq!(e.supported_formats(), "bootloader");
    assert_eq!(e.format, ImageFormatId::DirectBoot);
    let c3 = UnsupportedImageFormatError::new(ImageFormatId::Bootloader, Chip::Esp32c3);
    assert_eq!(c3.supported_formats(), "bootloader, direct-boot");
    assert_eq!(join_names(&ImageFormatId::all()), "bootloader, direct-boot");
    assert_eq!(join_names(&Vec::new()), "");
}

#[test]
fn leaf_diagnostics_keep_values() {
    assert_eq!(ChipDetectError::from(0xdead_beef).0, 0xdead_beef);
    assert_eq!(FlashDetectError::from(0x17u8).0, 0x17);
    assert_eq!(ElfError::from("no segments").0, "no segments");
}

#[test]
fn leaf_diagnostics_lift_into_top_level() {
    assert!(matches!(
        TopLevelError::from(ElfError("bad")),
        TopLevelError::InvalidElf(ElfError("bad"))
    ));
    assert!(matches!(
        TopLevelError::from(ChipDetectError(7)),
        TopLevelError::UnrecognizedChip(ChipDetectError(7))
    ));
    assert!(matches!(
        TopLevelError::from(FlashDetectError(9)),
        TopLevelError::UnsupportedFlash(FlashDetectError(9))
    ));
    let rom = RomError::new(Command::FlashBegin, RomErrorKind::FailedToAct);
    assert!(matches!(TopLevelError::from(rom), TopLevelError::RomError(r) if r == rom));
    let u = UnsupportedImageFormatError::new(ImageFormatId::DirectBoot, Chip::Esp32);
    assert!(matches!(TopLevelError::from(u), TopLevelError::UnsupportedImageFormat(x) if x == u));
}
