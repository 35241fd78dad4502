use vstd::prelude::*;

use crate::device::Command;

verus! {

/// A failure status reported by the ROM bootloader.
#[derive(Clone, Copy, Debug, PartialEq, Eq, Structural)]
pub enum RomErrorKind {
    InvalidMessage,
    FailedToAct,
    InvalidCrc,
    FlashWriteError,
    FlashReadError,
    FlashReadLengthError,
    DeflateError,
    Other,
}

impl RomErrorKind {
    /// The kind that a status byte stands for; every byte has one.
    pub open spec fn spec_from_code(raw: u8) -> RomErrorKind {
        if raw == 0x05 {
            RomErrorKind::InvalidMessage
        } else if raw == 0x06 {
            RomErrorKind::FailedToAct
        } else if raw == 0x07 {
            RomErrorKind::InvalidCrc
        } else if raw == 0x08 {
            RomErrorKind::FlashWriteError
        } else if raw == 0x09 {
            RomErrorKind::FlashReadError
        } else if raw == 0x0a {
            RomErrorKind::FlashReadLengthError
        } else if raw == 0x0b {
            RomErrorKind::DeflateError
        } else {
            RomErrorKind::Other
        }
    }

    /// Decodes a status byte; codes outside `0x05..=0x0b` become `Other`.
    pub fn from_code(raw: u8) -> (r: RomErrorKind)
        ensures
            r == Self::spec_from_code(raw),
            0x05 <= raw <= 0x0b ==> r != RomErrorKind::Other,
            !(0x05 <= raw <= 0x0b) ==> r == RomErrorKind::Other,
    {
        match raw {
            0x05 => RomErrorKind::InvalidMessage,
            0x06 => RomErrorKind::FailedToAct,
            0x07 => RomErrorKind::InvalidCrc,
            0x08 => RomErrorKind::FlashWriteError,
            0x09 => RomErrorKind::FlashReadError,
            0x0a => RomErrorKind::FlashReadLengthError,
            0x0b => RomErrorKind::DeflateError,
            _ => RomErrorKind::Other,
        }
    }

    pub open spec fn spec_message(self) -> Seq<char> {
        match self {
            RomErrorKind::InvalidMessage => "Invalid message received"@,
            RomErrorKind::FailedToAct => "Bootloader failed to execute command"@,
            RomErrorKind::InvalidCrc => "Received message has invalid crc"@,
            RomErrorKind::FlashWriteError => "Bootloader failed to write to flash"@,
            RomErrorKind::FlashReadError => "Bootloader failed to read from flash"@,
            RomErrorKind::FlashReadLengthError => "Invalid length for flash read"@,
            RomErrorKind::DeflateError => "Malformed compressed data received"@,
            RomErrorKind::Other => "Other"@,
        }
    }

    /// One-line summary of the status.
    pub fn message(&self) -> (r: &'static str)
        ensures
            r@ == self.spec_message(),
    {
        match self {
            RomErrorKind::InvalidMessage => "Invalid message received",
            RomErrorKind::FailedToAct => "Bootloader failed to execute command",
            RomErrorKind::InvalidCrc => "Received message has invalid crc",
            RomErrorKind::FlashWriteError => "Bootloader failed to write to flash",
            RomErrorKind::FlashReadError => "Bootloader failed to read from flash",
            RomErrorKind::FlashReadLengthError => "Invalid length for flash read",
            RomErrorKind::DeflateError => "Malformed compressed data received",
            RomErrorKind::Other => "Other",
        }
    }

    pub open spec fn spec_code(self) -> Seq<char> {
        match self {
            RomErrorKind::InvalidMessage => "espflash::rom::invalid_message"@,
            RomErrorKind::FailedToAct => "espflash::rom::failed"@,
            RomErrorKind::InvalidCrc => "espflash::rom::crc"@,
            RomErrorKind::FlashWriteError => "espflash::rom::flash_write"@,
            RomErrorKind::FlashReadError => "espflash::rom::flash_read"@,
            RomErrorKind::FlashReadLengthError => "espflash::rom::flash_read_length"@,
            RomErrorKind::DeflateError => "espflash::rom::deflate"@,
            RomErrorKind::Other => "espflash::rom::other"@,
        }
    }

    /// Stable diagnostic code of the status.
    pub fn code(&self) -> (r: &'static str)
        ensures
            r@ == self.spec_code(),
    {
        match self {
            RomErrorKind::InvalidMessage => "espflash::rom::invalid_message",
            RomErrorKind::FailedToAct => "espflash::rom::failed",
            RomErrorKind::InvalidCrc => "espflash::rom::crc",
            RomErrorKind::FlashWriteError => "espflash::rom::flash_write",
            RomErrorKind::FlashReadError => "espflash::rom::flash_read",
            RomErrorKind::FlashReadLengthError => "espflash::rom::flash_read_length",
            RomErrorKind::DeflateError => "espflash::rom::deflate",
            RomErrorKind::Other => "espflash::rom::other",
        }
    }
}

impl From<u8> for RomErrorKind {
    fn from(raw: u8) -> RomErrorKind {
        RomErrorKind::from_code(raw)
    }
}

impl vstd::std_specs::convert::FromSpecImpl<u8> for RomErrorKind {
    open spec fn obeys_from_spec() -> bool {
        true
    }

    open spec fn from_spec(v: u8) -> RomErrorKind {
        RomErrorKind::spec_from_code(v)
    }
}

/// A failure status of the bootloader, with the command whose response
/// carried it.
#[derive(Clone, Copy, Debug, PartialEq, Eq, Structural)]
pub struct RomError {
    pub command: Command,
    pub kind: RomErrorKind,
}

impl RomError {
    pub fn new(command: Command, kind: RomErrorKind) -> (r: RomError)
        ensures
            r.command == command,
            r.kind == kind,
    {
        RomError { command, kind }
    }

    /// One-line summary naming the command.
    pub fn message(&self) -> (r: String)
        ensures
            r@ == "Error while running "@ + self.command.spec_name() + " command"@,
    {
        let mut s = "Error while running ".to_owned();
        s.append(self.command.name());
        s.append(" command");
        s
    }
}

} // verus!
