use vstd::prelude::*;

use crate::connection::{ConnectionError, TimedOutCommand};
use crate::device::{joined_names, join_names, Chip, Command, ImageFormatId};
use crate::foreign::{binread_cause_read, framing_read, serial_kind_read};
use crate::partition_error::{PartitionTableError, CSV_HELP_SUFFIX};
use crate::rom::RomError;
use crate::text::{hex, hex_string};

verus! {

/// An ELF image that cannot be used, with the reason.
#[derive(Clone, Copy, Debug)]
pub struct ElfError(pub &'static str);

impl From<&'static str> for ElfError {
    fn from(err: &'static str) -> ElfError {
        ElfError(err)
    }
}

impl vstd::std_specs::convert::FromSpecImpl<&'static str> for ElfError {
    open spec fn obeys_from_spec() -> bool {
        true
    }

    open spec fn from_spec(v: &'static str) -> ElfError {
        ElfError(v)
    }
}

/// A chip whose magic value is not known.
#[derive(Clone, Copy, Debug, PartialEq, Eq, Structural)]
pub struct ChipDetectError(pub u32);

impl From<u32> for ChipDetectError {
    fn from(err: u32) -> ChipDetectError {
        ChipDetectError(err)
    }
}

impl ChipDetectError {
    /// One-line summary with the magic value in hexadecimal.
    pub fn message(&self) -> (r: String)
        ensures
            r@ == "Unrecognized magic value "@ + "0x"@ + hex(self.0 as nat),
    {
        let mut s = "Unrecognized magic value ".to_owned();
        s.append(hex_string(self.0 as u64).as_str());
        s
    }
}

impl vstd::std_specs::convert::FromSpecImpl<u32> for ChipDetectError {
    open spec fn obeys_from_spec() -> bool {
        true
    }

    open spec fn from_spec(v: u32) -> ChipDetectError {
        ChipDetectError(v)
    }
}

/// A flash part whose id is not known.
#[derive(Clone, Copy, Debug, PartialEq, Eq, Structural)]
pub struct FlashDetectError(pub u8);

impl From<u8> for FlashDetectError {
    fn from(err: u8) -> FlashDetectError {
        FlashDetectError(err)
    }
}

impl FlashDetectError {
    /// One-line summary with the flash id in hexadecimal.
    pub fn message(&self) -> (r: String)
        ensures
            r@ == "Unrecognized flash id "@ + "0x"@ + hex(self.0 as nat),
    {
        let mut s = "Unrecognized flash id ".to_owned();
        s.append(hex_string(self.0 as u64).as_str());
        s
    }
}

impl vstd::std_specs::convert::FromSpecImpl<u8> for FlashDetectError {
    open spec fn obeys_from_spec() -> bool {
        true
    }

    open spec fn from_spec(v: u8) -> FlashDetectError {
        FlashDetectError(v)
    }
}

/// An image format that the chip cannot boot.
#[derive(Clone, Copy, Debug, PartialEq, Eq, Structural)]
pub struct UnsupportedImageFormatError {
    pub format: ImageFormatId,
    pub chip: Chip,
}

impl UnsupportedImageFormatError {
    pub fn new(format: ImageFormatId, chip: Chip) -> (r: Self)
        ensures
            r.format == format,
            r.chip == chip,
    {
        UnsupportedImageFormatError { format, chip }
    }

    /// The names of the formats that the chip does support, joined by `", "`.
    pub fn supported_formats(&self) -> (r: String)
        ensures
            r@ == joined_names(self.chip.spec_supported_image_formats()),
    {
        join_names(&self.chip.supported_image_formats())
    }

    /// One-line summary naming the format and the chip.
    pub fn message(&self) -> (r: String)
        ensures
            r@ == "Image format "@ + self.format.spec_name() + " is not supported by the "@
                + self.chip.spec_name(),
    {
        let mut s = "Image format ".to_owned();
        s.append(self.format.name());
        s.append(" is not supported by the ");
        s.append(self.chip.name());
        s
    }

    /// The help text: the formats that the chip does support.
    pub fn help(&self) -> (r: String)
        ensures
            r@ == "The following image formats are supported by the "@ + self.chip.spec_name()
                + ": "@ + joined_names(self.chip.spec_supported_image_formats()),
    {
        let mut s = "The following image formats are supported by the ".to_owned();
        s.append(self.chip.name());
        s.append(": ");
        s.append(self.supported_formats().as_str());
        s
    }
}

/// The failure of any operation of the flasher.
#[derive(Debug)]
pub enum TopLevelError {
    Connection(ConnectionError),
    Flashing(ConnectionError),
    InvalidElf(ElfError),
    ElfNotRamLoadable,
    RomError(RomError),
    UnrecognizedChip(ChipDetectError),
    UnsupportedFlash(FlashDetectError),
    FlashConnect,
    MalformedPartitionTable(PartitionTableError),
    UnsupportedImageFormat(UnsupportedImageFormatError),
    UnknownImageFormat(String),
    InvalidDirectBootBinary,
}

impl TopLevelError {
    /// Lifts an I/O failure into a connection failure.
    pub fn from_io(err: std::io::Error) -> (r: TopLevelError)
        ensures
            r matches TopLevelError::Connection(c) && c.classifies_io(err),
    {
        TopLevelError::Connection(ConnectionError::from_io(err))
    }

    /// Lifts a serial-port failure into a connection failure.
    pub fn from_serial(err: serial::Error) -> (r: TopLevelError)
        ensures
            r == TopLevelError::Connection(
                ConnectionError::spec_from_serial_kind(serial_kind_read(err), err),
            ),
    {
        TopLevelError::Connection(ConnectionError::from_serial(err))
    }

    /// Lifts a SLIP decoder failure into a connection failure.
    pub fn from_slip(err: slip_codec::Error) -> (r: TopLevelError)
        ensures
            r matches TopLevelError::Connection(c) && c.classifies_framing(framing_read(err)),
    {
        TopLevelError::Connection(ConnectionError::from_slip(err))
    }

    /// Lifts a failure to decode a fixed-layout value into a connection
    /// failure; `None` where it is not an I/O failure.
    pub fn from_binread(err: binread::Error) -> (r: Option<TopLevelError>)
        ensures
            r is Some <==> binread_cause_read(err) is Some,
            binread_cause_read(err) matches Some(io) ==> (r matches Some(e) && e matches TopLevelError::Connection(c) && c.classifies_io(io)),
    {
        match ConnectionError::from_binread(err) {
            Some(c) => Some(TopLevelError::Connection(c)),
            None => None,
        }
    }
}

impl From<ElfError> for TopLevelError {
    fn from(e: ElfError) -> TopLevelError {
        TopLevelError::InvalidElf(e)
    }
}

impl vstd::std_specs::convert::FromSpecImpl<ElfError> for TopLevelError {
    open spec fn obeys_from_spec() -> bool {
        true
    }

    open spec fn from_spec(v: ElfError) -> TopLevelError {
        TopLevelError::InvalidElf(v)
    }
}

impl From<RomError> for TopLevelError {
    fn from(e: RomError) -> TopLevelError {
        TopLevelError::RomError(e)
    }
}

impl vstd::std_specs::convert::FromSpecImpl<RomError> for TopLevelError {
    open spec fn obeys_from_spec() -> bool {
        true
    }

    open spec fn from_spec(v: RomError) -> TopLevelError {
        TopLevelError::RomError(v)
    }
}

impl From<ChipDetectError> for TopLevelError {
    fn from(e: ChipDetectError) -> TopLevelError {
        TopLevelError::UnrecognizedChip(e)
    }
}

impl vstd::std_specs::convert::FromSpecImpl<ChipDetectError> for TopLevelError {
    open spec fn obeys_from_spec() -> bool {
        true
    }

    open spec fn from_spec(v: ChipDetectError) -> TopLevelError {
        TopLevelError::UnrecognizedChip(v)
    }
}

impl From<FlashDetectError> for TopLevelError {
    fn from(e: FlashDetectError) -> TopLevelError {
        TopLevelError::UnsupportedFlash(e)
    }
}

impl vstd::std_specs::convert::FromSpecImpl<FlashDetectError> for TopLevelError {
    open spec fn obeys_from_spec() -> bool {
        true
    }

    open spec fn from_spec(v: FlashDetectError) -> TopLevelError {
        TopLevelError::UnsupportedFlash(v)
    }
}

impl From<PartitionTableError> for TopLevelError {
    fn from(e: PartitionTableError) -> TopLevelError {
        TopLevelError::MalformedPartitionTable(e)
    }
}

impl vstd::std_specs::convert::FromSpecImpl<PartitionTableError> for TopLevelError {
    open spec fn obeys_from_spec() -> bool {
        true
    }

    open spec fn from_spec(v: PartitionTableError) -> TopLevelError {
        TopLevelError::MalformedPartitionTable(v)
    }
}

impl From<UnsupportedImageFormatError> for TopLevelError {
    fn from(e: UnsupportedImageFormatError) -> TopLevelError {
        TopLevelError::UnsupportedImageFormat(e)
    }
}

impl vstd::std_specs::convert::FromSpecImpl<UnsupportedImageFormatError> for TopLevelError {
    open spec fn obeys_from_spec() -> bool {
        true
    }

    open spec fn from_spec(v: UnsupportedImageFormatError) -> TopLevelError {
        TopLevelError::UnsupportedImageFormat(v)
    }
}

impl TopLevelError {
    /// Stable diagnostic code of the failure, where it has one.
    pub fn code(&self) -> (r: Option<&'static str>)
        ensures
            self matches TopLevelError::Connection(c) ==> (r matches Some(k) && k@ == c.spec_code()),
            self matches TopLevelError::Flashing(c) ==> (r matches Some(k) && k@ == c.spec_code()),
            self matches TopLevelError::RomError(e) ==> (r matches Some(k) && k@
                == e.kind.spec_code()),
            self matches TopLevelError::MalformedPartitionTable(p) ==> (r matches Some(k) && k@
                == p.spec_code()),
            self is InvalidElf ==> (r matches Some(k) && k@ == "espflash::invalid_elf"@),
            self is ElfNotRamLoadable ==> (r matches Some(k) && k@ == "espflash::not_ram_loadable"@),
            self is UnrecognizedChip ==> (r matches Some(k) && k@ == "espflash::unrecognized_chip"@),
            self is UnsupportedFlash ==> (r matches Some(k) && k@ == "espflash::unrecognized_flash"@),
            self is FlashConnect ==> (r matches Some(k) && k@ == "espflash::flash_connect"@),
            self is UnsupportedImageFormat ==> (r matches Some(k) && k@
                == "espflash::unsupported_image_format"@),
            self is UnknownImageFormat ==> (r matches Some(k) && k@ == "espflash::unknown_format"@),
            self is InvalidDirectBootBinary ==> (r matches Some(k) && k@
                == "espflash::invalid_direct_boot"@),
    {
        match self {
            TopLevelError::Connection(c) => Some(c.code()),
            TopLevelError::Flashing(c) => Some(c.code()),
            TopLevelError::InvalidElf(_) => Some("espflash::invalid_elf"),
            TopLevelError::ElfNotRamLoadable => Some("espflash::not_ram_loadable"),
            TopLevelError::RomError(e) => Some(e.kind.code()),
            TopLevelError::UnrecognizedChip(_) => Some("espflash::unrecognized_chip"),
            TopLevelError::UnsupportedFlash(_) => Some("espflash::unrecognized_flash"),
            TopLevelError::FlashConnect => Some("espflash::flash_connect"),
            TopLevelError::MalformedPartitionTable(p) => Some(p.code()),
            TopLevelError::UnsupportedImageFormat(_) => Some("espflash::unsupported_image_format"),
            TopLevelError::UnknownImageFormat(_) => Some("espflash::unknown_format"),
            TopLevelError::InvalidDirectBootBinary => Some("espflash::invalid_direct_boot"),
        }
    }

    /// One-line summary of the failure.
    pub fn message(&self) -> (r: String)
        ensures
            self is Connection ==> r@ == "Error while connecting to device"@,
            self is Flashing ==> r@ == "Communication error while flashing device"@,
            self is InvalidElf ==> r@ == "Supplied elf image is not valid"@,
            self is ElfNotRamLoadable ==> r@ == ELF_NOT_RAM_LOADABLE@,
            self is RomError ==> r@ == "The bootloader returned an error"@,
            self is UnrecognizedChip ==> r@ == UNRECOGNIZED_CHIP@,
            self is UnsupportedFlash ==> r@ == UNSUPPORTED_FLASH@,
            self is FlashConnect ==> r@ == "Failed to connect to on-device flash"@,
            self matches TopLevelError::MalformedPartitionTable(p) ==> r@ == p.spec_message(),
            self matches TopLevelError::UnsupportedImageFormat(e) ==> r@ == "Image format "@
                + e.format.spec_name() + " is not supported by the "@ + e.chip.spec_name(),
            self matches TopLevelError::UnknownImageFormat(name) ==> r@
                == "Unrecognized image format "@ + name@,
            self is InvalidDirectBootBinary ==> r@
                == "binary is not setup correct to support direct boot"@,
    {
        match self {
            TopLevelError::Connection(_) => "Error while connecting to device".to_owned(),
            TopLevelError::Flashing(_) => "Communication error while flashing device".to_owned(),
            TopLevelError::InvalidElf(_) => "Supplied elf image is not valid".to_owned(),
            TopLevelError::ElfNotRamLoadable => ELF_NOT_RAM_LOADABLE.to_owned(),
            TopLevelError::RomError(_) => "The bootloader returned an error".to_owned(),
            TopLevelError::UnrecognizedChip(_) => UNRECOGNIZED_CHIP.to_owned(),
            TopLevelError::UnsupportedFlash(_) => UNSUPPORTED_FLASH.to_owned(),
            TopLevelError::FlashConnect => "Failed to connect to on-device flash".to_owned(),
            TopLevelError::MalformedPartitionTable(p) => p.message().to_owned(),
            TopLevelError::UnsupportedImageFormat(e) => e.message(),
            TopLevelError::UnknownImageFormat(name) => {
                let mut s = "Unrecognized image format ".to_owned();
                s.append(name.as_str());
                s
            },
            TopLevelError::InvalidDirectBootBinary => {
                "binary is not setup correct to support direct boot".to_owned()
            },
        }
    }

    /// What the user can do about the failure, where there is advice.
    pub fn help(&self) -> (r: Option<String>)
        ensures
            self matches TopLevelError::Connection(c) ==> (r matches Some(h) ==> c.spec_help()
                == Some(h@)) && (r is None ==> c.spec_help() is None),
            self matches TopLevelError::Flashing(c) ==> (r matches Some(h) ==> c.spec_help()
                == Some(h@)) && (r is None ==> c.spec_help() is None),
            self is InvalidElf ==> (r matches Some(h) && h@
                == "Try running `cargo clean` and rebuilding the image"@),
            self is ElfNotRamLoadable ==> (r matches Some(h) && h@ == NOT_RAM_LOADABLE_HELP@),
            self is UnrecognizedChip ==> (r matches Some(h) && h@
                == "If your chip is supported, try hard-resetting the device and try again"@),
            self matches TopLevelError::MalformedPartitionTable(PartitionTableError::Csv(e)) ==> (r matches Some(h) && h@ == e.help@ + CSV_HELP_SUFFIX@),
            self matches TopLevelError::MalformedPartitionTable(PartitionTableError::InvalidSubType(e)) ==> (r matches Some(h) && h@ == "'"@ + e.ty.spec_name()
                + "' supports the following subtypes: "@ + e.ty.spec_subtype_hint()),
            self matches TopLevelError::UnsupportedImageFormat(e) ==> (r matches Some(h) && h@
                == "The following image formats are supported by the "@ + e.chip.spec_name()
                + ": "@ + joined_names(e.chip.spec_supported_image_formats())),
            self is UnknownImageFormat ==> (r matches Some(h) && h@
                == "The following image formats are "@ + joined_names(ImageFormatId::spec_all())),
            self is InvalidDirectBootBinary ==> (r matches Some(h) && h@ == DIRECT_BOOT_HELP@),
            self is RomError || self is UnsupportedFlash || self is FlashConnect ==> r is None,
            self matches TopLevelError::MalformedPartitionTable(p) && (p is Overlapping
                || p is Duplicate || p is UnalignedPartitionError) ==> r is None,
    {
        match self {
            TopLevelError::Connection(c) => match c.help() {
                Some(h) => Some(h.to_owned()),
                None => None,
            },
            TopLevelError::Flashing(c) => match c.help() {
                Some(h) => Some(h.to_owned()),
                None => None,
            },
            TopLevelError::InvalidElf(_) => Some(
                "Try running `cargo clean` and rebuilding the image".to_owned(),
            ),
            TopLevelError::ElfNotRamLoadable => Some(NOT_RAM_LOADABLE_HELP.to_owned()),
            TopLevelError::UnrecognizedChip(_) => Some(
                "If your chip is supported, try hard-resetting the device and try again".to_owned(),
            ),
            TopLevelError::MalformedPartitionTable(PartitionTableError::Csv(e)) => {
                let mut s = e.help.clone();
                s.append(CSV_HELP_SUFFIX);
                Some(s)
            },
            TopLevelError::MalformedPartitionTable(PartitionTableError::InvalidSubType(e)) => {
                Some(e.help())
            },
            TopLevelError::UnsupportedImageFormat(e) => Some(e.help()),
            TopLevelError::UnknownImageFormat(_) => {
                let mut s = "The following image formats are ".to_owned();
                s.append(join_names(&ImageFormatId::all()).as_str());
                Some(s)
            },
            TopLevelError::InvalidDirectBootBinary => Some(DIRECT_BOOT_HELP.to_owned()),
            _ => None,
        }
    }
}

/// Summary of an ELF image with segments mapped to ROM addresses.
pub const ELF_NOT_RAM_LOADABLE: &'static str =
    "Supplied elf image can not be ran from ram as it includes segments mapped to rom addresses";

/// Advice for an ELF image that cannot be loaded to RAM.
pub const NOT_RAM_LOADABLE_HELP: &'static str =
    "Either build the binary to be all in ram or remove the `--ram` option to load the image to flash";

/// Summary of an unknown chip.
pub const UNRECOGNIZED_CHIP: &'static str =
    "Chip not recognized, supported chip types are esp8266, esp32 and esp32-c3";

/// Summary of an unknown flash part.
pub const UNSUPPORTED_FLASH: &'static str =
    "Flash chip not supported, flash sizes from 1 to 16MB are supported";

/// Advice for a binary that is not laid out for direct boot.
pub const DIRECT_BOOT_HELP: &'static str =
    "See the following page for documentation on how to setup your binary for direct boot:\nhttps://github.com/espressif/esp32c3-direct-boot-example";

/// A connection failure, relabelled as one of the flashing stage.
pub open spec fn promoted<T>(res: Result<T, TopLevelError>) -> Result<T, TopLevelError> {
    match res {
        Err(TopLevelError::Connection(c)) => Err(TopLevelError::Flashing(c)),
        _ => res,
    }
}

/// A time-out, now naming `command` as the one in flight.
pub open spec fn attributed<T>(res: Result<T, TopLevelError>, command: Command) -> Result<T, TopLevelError> {
    match res {
        Err(TopLevelError::Connection(ConnectionError::Timeout(_))) => Err(
            TopLevelError::Connection(ConnectionError::Timeout(TimedOutCommand { command: Some(command) })),
        ),
        Err(TopLevelError::Flashing(ConnectionError::Timeout(_))) => Err(
            TopLevelError::Flashing(ConnectionError::Timeout(TimedOutCommand { command: Some(command) })),
        ),
        _ => res,
    }
}

/// Marks a failure as one of the flashing stage: a connection failure
/// becomes a flashing failure with the same cause; anything else is
/// returned as it is.
pub fn stage_promotion<T>(res: Result<T, TopLevelError>) -> (r: Result<T, TopLevelError>)
    ensures
        r == promoted(res),
        res matches Err(TopLevelError::Connection(c)) ==> r == Err::<T, TopLevelError>(TopLevelError::Flashing(c)),
        !(res matches Err(TopLevelError::Connection(_))) ==> r == res,
{
    match res {
        Err(TopLevelError::Connection(err)) => Err(TopLevelError::Flashing(err)),
        res => res,
    }
}

/// Records `command` as the command in flight of a time-out, whether the
/// time-out was seen while connecting or while flashing; anything else is
/// returned as it is.
pub fn command_attribution<T>(res: Result<T, TopLevelError>, command: Command) -> (r: Result<T, TopLevelError>)
    ensures
        r == attributed(res, command),
        res matches Err(TopLevelError::Connection(ConnectionError::Timeout(_))) ==> r == Err::<T, TopLevelError>(
            TopLevelError::Connection(ConnectionError::Timeout(TimedOutCommand { command: Some(command) })),
        ),
        res matches Err(TopLevelError::Flashing(ConnectionError::Timeout(_))) ==> r == Err::<T, TopLevelError>(
            TopLevelError::Flashing(ConnectionError::Timeout(TimedOutCommand { command: Some(command) })),
        ),
        !(res matches Err(TopLevelError::Connection(ConnectionError::Timeout(_))))
            && !(res matches Err(TopLevelError::Flashing(ConnectionError::Timeout(_)))) ==> r == res,
{
    match res {
        Err(TopLevelError::Connection(ConnectionError::Timeout(_))) => {
            Err(TopLevelError::Connection(ConnectionError::Timeout(TimedOutCommand::from(command))))
        },
        Err(TopLevelError::Flashing(ConnectionError::Timeout(_))) => {
            Err(TopLevelError::Flashing(ConnectionError::Timeout(TimedOutCommand::from(command))))
        },
        res => res,
    }
}

/// Promoting a result twice is promoting it once.
pub proof fn lemma_promotion_idempotent<T>(res: Result<T, TopLevelError>)
    ensures
        promoted(promoted(res)) == promoted(res),
{
}

/// Attributing a command twice keeps the later command.
pub proof fn lemma_attribution_latest_wins<T>(res: Result<T, TopLevelError>, first: Command, second: Command)
    ensures
        attributed(attributed(res, first), second) == attributed(res, second),
{
}

/// Stage promotion and command attribution can be applied in either order.
pub proof fn lemma_promotion_attribution_commute<T>(res: Result<T, TopLevelError>, command: Command)
    ensures
        promoted(attributed(res, command)) == attributed(promoted(res), command),
{
}

} // verus!
