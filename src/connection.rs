use vstd::prelude::*;

use crate::device::Command;
use crate::foreign::{
    binread_cause_read, binread_io_cause, framing_failure_of, framing_read, io_kind_of,
    io_kind_read, serial_description, serial_error_from_io, serial_kind_of, serial_kind_read,
    serial_text,
};

verus! {

/// The command that was in flight when a time-out was seen; `None` until
/// the caller that issued it fills it in.
#[derive(Clone, Copy, Debug, PartialEq, Eq, Structural)]
pub struct TimedOutCommand {
    pub command: Option<Command>,
}

impl TimedOutCommand {
    /// A time-out whose command is not known yet.
    pub fn unknown() -> (r: TimedOutCommand)
        ensures
            r.command.is_none(),
    {
        TimedOutCommand { command: None }
    }
}

impl TimedOutCommand {
    pub open spec fn spec_describe(self) -> Seq<char> {
        match self.command {
            Some(c) => c.spec_name() + " "@,
            None => Seq::empty(),
        }
    }

    /// The command's name and a space, or nothing where it is not known.
    pub fn describe(&self) -> (r: String)
        ensures
            r@ == self.spec_describe(),
    {
        match self.command {
            Some(c) => {
                let mut s = c.name().to_owned();
                s.append(" ");
                s
            },
            None => String::new(),
        }
    }
}

impl Default for TimedOutCommand {
    fn default() -> (r: TimedOutCommand)
        ensures
            r.command.is_none(),
    {
        TimedOutCommand { command: None }
    }
}

impl From<Command> for TimedOutCommand {
    fn from(c: Command) -> TimedOutCommand {
        TimedOutCommand { command: Some(c) }
    }
}

impl vstd::std_specs::convert::FromSpecImpl<Command> for TimedOutCommand {
    open spec fn obeys_from_spec() -> bool {
        true
    }

    open spec fn from_spec(v: Command) -> TimedOutCommand {
        TimedOutCommand { command: Some(v) }
    }
}

/// What classification reads of an I/O failure's kind.
#[derive(Clone, Copy, Debug, PartialEq, Eq, Structural)]
pub enum IoKind {
    TimedOut,
    NotFound,
    Other,
}

/// What classification reads of a serial-port failure's kind.
#[derive(Clone, Copy, Debug, PartialEq, Eq, Structural)]
pub enum SerialKind {
    NoDevice,
    Io(IoKind),
    Other,
}

/// A failure of the SLIP decoder, variant for variant.
#[derive(Debug)]
pub enum FramingFailure {
    Malformed,
    Oversized,
    EndOfStream,
    Read(std::io::Error),
}

/// A failure of the transport or of the framing on it.
#[derive(Debug)]
pub enum ConnectionError {
    Serial(serial::Error),
    ConnectionFailed,
    DeviceNotFound,
    Timeout(TimedOutCommand),
    FramingError,
    OverSizedPacket,
}

impl ConnectionError {
    /// The classification of an I/O failure of kind `kind`, whose cause is
    /// kept as `cause` when no specific variant applies.
    pub open spec fn spec_from_io_kind(kind: IoKind, cause: serial::Error) -> ConnectionError {
        match kind {
            IoKind::TimedOut => ConnectionError::Timeout(TimedOutCommand { command: None }),
            IoKind::NotFound => ConnectionError::DeviceNotFound,
            IoKind::Other => ConnectionError::Serial(cause),
        }
    }

    /// The classification of a serial-port failure of kind `kind`.
    pub open spec fn spec_from_serial_kind(kind: SerialKind, cause: serial::Error) -> ConnectionError {
        match kind {
            SerialKind::Io(io) => Self::spec_from_io_kind(io, cause),
            SerialKind::NoDevice => ConnectionError::DeviceNotFound,
            SerialKind::Other => ConnectionError::Serial(cause),
        }
    }

    /// `self` is the classification of the I/O failure `err`: by its kind,
    /// a time-out with no command yet, an absent device, or an opaque serial
    /// failure.
    pub open spec fn classifies_io(self, err: std::io::Error) -> bool {
        match io_kind_read(err) {
            IoKind::TimedOut => self == ConnectionError::Timeout(TimedOutCommand { command: None }),
            IoKind::NotFound => self is DeviceNotFound,
            IoKind::Other => self is Serial,
        }
    }

    /// `self` is the classification of the SLIP decoder failure `f`.
    pub open spec fn classifies_framing(self, f: FramingFailure) -> bool {
        match f {
            FramingFailure::Malformed => self is FramingError,
            FramingFailure::Oversized => self is OverSizedPacket,
            FramingFailure::EndOfStream => self is FramingError,
            FramingFailure::Read(io) => self.classifies_io(io),
        }
    }

    /// Classifies an I/O failure by its kind: a time-out with no command
    /// yet, an absent device, or an opaque serial failure.
    pub fn from_io_kind(kind: IoKind, cause: serial::Error) -> (r: ConnectionError)
        ensures
            r == Self::spec_from_io_kind(kind, cause),
    {
        match kind {
            IoKind::TimedOut => ConnectionError::Timeout(TimedOutCommand::unknown()),
            IoKind::NotFound => ConnectionError::DeviceNotFound,
            IoKind::Other => ConnectionError::Serial(cause),
        }
    }

    /// Classifies a serial-port failure by its kind: an absent device, else
    /// by its I/O kind, else an opaque serial failure.
    pub fn from_serial_kind(kind: SerialKind, cause: serial::Error) -> (r: ConnectionError)
        ensures
            r == Self::spec_from_serial_kind(kind, cause),
    {
        match kind {
            SerialKind::Io(io) => Self::from_io_kind(io, cause),
            SerialKind::NoDevice => ConnectionError::DeviceNotFound,
            SerialKind::Other => ConnectionError::Serial(cause),
        }
    }

    /// Classifies a failure of the SLIP decoder; a read failure is
    /// classified as its I/O failure.
    pub fn from_framing(f: FramingFailure) -> (r: ConnectionError)
        ensures
            r.classifies_framing(f),
    {
        match f {
            FramingFailure::Malformed => ConnectionError::FramingError,
            FramingFailure::Oversized => ConnectionError::OverSizedPacket,
            FramingFailure::EndOfStream => ConnectionError::FramingError,
            FramingFailure::Read(io) => Self::from_io(io),
        }
    }

    /// Classifies an I/O failure.
    pub fn from_io(err: std::io::Error) -> (r: ConnectionError)
        ensures
            r.classifies_io(err),
    {
        let kind = io_kind_of(&err);
        Self::from_io_kind(kind, serial_error_from_io(err))
    }

    /// Reads what classification needs of a serial-port failure.
    pub fn serial_kind(err: &serial::Error) -> (r: SerialKind)
        ensures
            r == serial_kind_read(*err),
    {
        serial_kind_of(err)
    }

    /// Classifies a serial-port failure.
    pub fn from_serial(err: serial::Error) -> (r: ConnectionError)
        ensures
            r == Self::spec_from_serial_kind(serial_kind_read(err), err),
    {
        let kind = Self::serial_kind(&err);
        Self::from_serial_kind(kind, err)
    }

    /// Classifies a failure of the SLIP decoder.
    pub fn from_slip(err: slip_codec::Error) -> (r: ConnectionError)
        ensures
            r.classifies_framing(framing_read(err)),
    {
        Self::from_framing(framing_failure_of(err))
    }

    /// Classifies a failure to decode a fixed-layout value from the stream.
    /// Only an I/O failure can arise there; any other failure gives `None`.
    pub fn from_binread(err: binread::Error) -> (r: Option<ConnectionError>)
        ensures
            r is Some <==> binread_cause_read(err) is Some,
            binread_cause_read(err) matches Some(io) ==> (r matches Some(c) && c.classifies_io(io)),
    {
        match binread_io_cause(err) {
            Some(io) => Some(Self::from_io(io)),
            None => None,
        }
    }
}

impl ConnectionError {
    pub open spec fn spec_code(&self) -> Seq<char> {
        match self {
            ConnectionError::Serial(_) => "espflash::serial_error"@,
            ConnectionError::ConnectionFailed => "espflash::connection_failed"@,
            ConnectionError::DeviceNotFound => "espflash::connection_failed"@,
            ConnectionError::Timeout(_) => "espflash::timeout"@,
            ConnectionError::FramingError => "espflash::slip_framing"@,
            ConnectionError::OverSizedPacket => "espflash::oversized_packet"@,
        }
    }

    /// Stable diagnostic code of the failure.
    pub fn code(&self) -> (r: &'static str)
        ensures
            r@ == self.spec_code(),
    {
        match self {
            ConnectionError::Serial(_) => "espflash::serial_error",
            ConnectionError::ConnectionFailed => "espflash::connection_failed",
            ConnectionError::DeviceNotFound => "espflash::connection_failed",
            ConnectionError::Timeout(_) => "espflash::timeout",
            ConnectionError::FramingError => "espflash::slip_framing",
            ConnectionError::OverSizedPacket => "espflash::oversized_packet",
        }
    }

    pub open spec fn spec_help(&self) -> Option<Seq<char>> {
        match self {
            ConnectionError::ConnectionFailed => Some(
                "Ensure that the device is connected and the reset and boot pins are not being held down"@,
            ),
            ConnectionError::DeviceNotFound => Some(
                "Ensure that the device is connected and your host recognizes the serial adapter"@,
            ),
            ConnectionError::FramingError => Some(
                "Try hard-resetting the device and try again, if the error persists your rom might be corrupted"@,
            ),
            ConnectionError::OverSizedPacket => Some(
                "Try hard-resetting the device and try again, if the error persists your rom might be corrupted"@,
            ),
            _ => None,
        }
    }

    /// What the user can do about the failure, where there is advice.
    pub fn help(&self) -> (r: Option<&'static str>)
        ensures
            r matches Some(h) ==> self.spec_help() == Some(h@),
            r is None ==> self.spec_help() is None,
    {
        match self {
            ConnectionError::ConnectionFailed => Some(
                "Ensure that the device is connected and the reset and boot pins are not being held down",
            ),
            ConnectionError::DeviceNotFound => Some(
                "Ensure that the device is connected and your host recognizes the serial adapter",
            ),
            ConnectionError::FramingError => Some(
                "Try hard-resetting the device and try again, if the error persists your rom might be corrupted",
            ),
            ConnectionError::OverSizedPacket => Some(
                "Try hard-resetting the device and try again, if the error persists your rom might be corrupted",
            ),
            _ => None,
        }
    }

    /// One-line summary of the failure. For a serial failure the port's own
    /// description follows a fixed prefix.
    pub fn message(&self) -> (r: String)
        ensures
            self matches ConnectionError::Serial(e) ==> r@ == SERIAL_PREFIX@ + serial_text(*e),
            self is ConnectionFailed ==> r@ == "Failed to connect to the device"@,
            self is DeviceNotFound ==> r@ == "Serial port not found"@,
            self matches ConnectionError::Timeout(t) ==> r@ == "Timeout while running "@
                + t.spec_describe() + "command"@,
            self is FramingError ==> r@ == "Received packet has invalid SLIP framing"@,
            self is OverSizedPacket ==> r@ == "Received packet too large for buffer"@,
    {
        match self {
            ConnectionError::Serial(e) => {
                let mut s = SERIAL_PREFIX.to_owned();
                let d = serial_description(e);
                s.append(d.as_str());
                s
            },
            ConnectionError::ConnectionFailed => "Failed to connect to the device".to_owned(),
            ConnectionError::DeviceNotFound => "Serial port not found".to_owned(),
            ConnectionError::Timeout(t) => {
                let mut s = "Timeout while running ".to_owned();
                s.append(t.describe().as_str());
                s.append("command");
                s
            },
            ConnectionError::FramingError => "Received packet has invalid SLIP framing".to_owned(),
            ConnectionError::OverSizedPacket => "Received packet too large for buffer".to_owned(),
        }
    }
}

/// The start of the summary of a serial failure.
pub const SERIAL_PREFIX: &'static str = "IO error while using serial port: ";

} // verus!
