//! The outside types that failures arrive in, and the few calls that read
//! them. Everything here is trusted; everything built on it is verified.
use vstd::prelude::*;

use crate::connection::{FramingFailure, IoKind, SerialKind};
use crate::partition_error::CsvFailure;

verus! {

#[verifier::external_type_specification]
#[verifier::external_body]
pub struct ExIoError(std::io::Error);

#[verifier::external_type_specification]
#[verifier::external_body]
pub struct ExSerialError(serial::Error);

#[verifier::external_type_specification]
#[verifier::external_body]
pub struct ExSlipError(slip_codec::Error);

#[verifier::external_type_specification]
#[verifier::external_body]
pub struct ExBinreadError(binread::Error);

#[verifier::external_type_specification]
#[verifier::external_body]
pub struct ExCsvError(csv::Error);

/// What `std::io::Error::kind` says of an I/O failure, as far as
/// classification tells kinds apart.
pub uninterp spec fn io_kind_read(e: std::io::Error) -> IoKind;

/// What `serial::Error::kind` says of a serial-port failure.
pub uninterp spec fn serial_kind_read(e: serial::Error) -> SerialKind;

/// The variant of a SLIP decoder failure, with its I/O cause.
pub uninterp spec fn framing_read(e: slip_codec::Error) -> FramingFailure;

/// The I/O cause of a binread failure, where it has one.
pub uninterp spec fn binread_cause_read(e: binread::Error) -> Option<std::io::Error>;

/// What `csv::Error::kind` says of a CSV failure.
pub uninterp spec fn csv_failure_read(e: csv::Error) -> CsvFailure;

/// The description that a serial-port failure was made with.
pub uninterp spec fn serial_text(e: serial::Error) -> Seq<char>;

/// Relies on `std::io::Error::kind`, which returns the stored kind: tells
/// apart the two kinds that classification looks at.
#[verifier::external_body]
pub(crate) fn io_kind_of(e: &std::io::Error) -> (r: IoKind)
    ensures
        r == io_kind_read(*e),
{
    match e.kind() {
        std::io::ErrorKind::TimedOut => IoKind::TimedOut,
        std::io::ErrorKind::NotFound => IoKind::NotFound,
        _ => IoKind::Other,
    }
}

/// Relies on `serial::Error::kind`, which returns the stored kind; for
/// `ErrorKind::Io` the inner I/O kind is told apart as for `io_kind_of`.
#[verifier::external_body]
pub(crate) fn serial_kind_of(e: &serial::Error) -> (r: SerialKind)
    ensures
        r == serial_kind_read(*e),
{
    match e.kind() {
        serial::ErrorKind::NoDevice => SerialKind::NoDevice,
        serial::ErrorKind::Io(std::io::ErrorKind::TimedOut) => SerialKind::Io(IoKind::TimedOut),
        serial::ErrorKind::Io(std::io::ErrorKind::NotFound) => SerialKind::Io(IoKind::NotFound),
        serial::ErrorKind::Io(_) => SerialKind::Io(IoKind::Other),
        serial::ErrorKind::InvalidInput => SerialKind::Other,
    }
}

/// Relies on serial-core's `From<io::Error> for Error`, which keeps the
/// I/O kind and the error's text.
#[verifier::external_body]
pub(crate) fn serial_error_from_io(e: std::io::Error) -> serial::Error {
    serial::Error::from(e)
}

/// Relies on the variants of `slip_codec::Error`, moved one for one.
#[verifier::external_body]
pub(crate) fn framing_failure_of(e: slip_codec::Error) -> (r: FramingFailure)
    ensures
        r == framing_read(e),
{
    match e {
        slip_codec::Error::FramingError => FramingFailure::Malformed,
        slip_codec::Error::OversizedPacket => FramingFailure::Oversized,
        slip_codec::Error::EndOfStream => FramingFailure::EndOfStream,
        slip_codec::Error::ReadError(io) => FramingFailure::Read(io),
    }
}

/// Relies on the variants of `binread::Error`: the I/O error of
/// `Error::Io`, if that is the variant.
#[verifier::external_body]
pub(crate) fn binread_io_cause(e: binread::Error) -> (r: Option<std::io::Error>)
    ensures
        r == binread_cause_read(e),
{
    match e {
        binread::Error::Io(io) => Some(io),
        _ => None,
    }
}

} // verus!

verus! {

/// Relies on `csv::Error::kind`: the record line of a `Deserialize` or
/// `UnequalLengths` error, the deserializer's message, and the two field
/// counts, each moved over as it is.
#[verifier::external_body]
pub(crate) fn csv_failure_of(e: &csv::Error) -> (r: CsvFailure)
    ensures
        r == csv_failure_read(*e),
{
    match e.kind() {
        csv::ErrorKind::Deserialize { pos, err } => CsvFailure::Deserialize {
            line: pos.as_ref().map(|p| p.line()),
            message: err.to_string(),
        },
        csv::ErrorKind::UnequalLengths { pos, expected_len, len } => CsvFailure::UnequalLengths {
            line: pos.as_ref().map(|p| p.line()),
            expected_len: *expected_len,
            len: *len,
        },
        _ => CsvFailure::Other,
    }
}

} // verus!

verus! {

/// Relies on the `Display` of `serial::Error`, which writes its stored
/// description.
#[verifier::external_body]
pub(crate) fn serial_description(e: &serial::Error) -> (r: String)
    ensures
        r@ == serial_text(*e),
{
    e.to_string()
}

} // verus!
