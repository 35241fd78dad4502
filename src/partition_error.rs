use vstd::prelude::*;

use crate::foreign::{csv_failure_of, csv_failure_read};
use crate::partition::{SubType, Type};
use crate::span::{count_lines, lemma_line_count_bound, locate_span, names_line, text_bytes, Span};
use crate::text::{decimal, decimal_string};

verus! {

/// The message that the deserializer gives for a subtype it does not know.
pub const UNKNOWN_SUBTYPE_MESSAGE: &'static str = "data did not match any variant of untagged enum SubType";

/// The part of a CSV failure's help text that points to the table format.
pub const CSV_HELP_SUFFIX: &'static str =
    "See the espressif documentation for information on the partition table format:\n\nhttps://docs.espressif.com/projects/esp-idf/en/latest/esp32/api-guides/partition-tables.html#creating-custom-tables";

/// What the diagnostics read of a CSV parsing failure.
#[derive(Debug)]
pub enum CsvFailure {
    Deserialize { line: Option<u64>, message: String },
    UnequalLengths { line: Option<u64>, expected_len: u64, len: u64 },
    Other,
}

impl CsvFailure {
    /// The 1-based line of the failure, or 0 where it has none.
    pub open spec fn spec_line(&self) -> nat {
        match self {
            CsvFailure::Deserialize { line: Some(l), .. } => *l as nat,
            CsvFailure::UnequalLengths { line: Some(l), .. } => *l as nat,
            _ => 0,
        }
    }

    /// The short text that the failure itself gives.
    pub open spec fn spec_raw_hint(&self) -> Seq<char> {
        match self {
            CsvFailure::Deserialize { message, .. } => message@,
            CsvFailure::UnequalLengths { expected_len, len, .. } => "record has "@ + decimal(
                *len as nat,
            ) + " fields, but the previous record has "@ + decimal(*expected_len as nat)
                + " fields"@,
            CsvFailure::Other => Seq::empty(),
        }
    }

    /// Whether the failure is the deserializer's unknown-subtype message.
    pub open spec fn is_unknown_subtype(&self) -> bool {
        self.spec_raw_hint() == UNKNOWN_SUBTYPE_MESSAGE@
    }

    /// The label shown under the offending line.
    pub open spec fn spec_hint(&self) -> Seq<char> {
        if self.is_unknown_subtype() {
            "Unknown sub-type"@
        } else {
            self.spec_raw_hint()
        }
    }

    /// The help text: the valid subtypes where the subtype was unknown.
    pub open spec fn spec_help(&self) -> Seq<char> {
        if self.is_unknown_subtype() {
            "the following sub-types are supported:\n    "@ + Type::Data.spec_subtype_hint()
                + " for data partitions\n    "@ + Type::App.spec_subtype_hint()
                + " for app partitions\n\n"@
        } else {
            Seq::empty()
        }
    }

    /// The 1-based line of the failure, or 0 where it has none.
    pub fn line(&self) -> (r: u64)
        ensures
            r as nat == self.spec_line(),
    {
        match self {
            CsvFailure::Deserialize { line: Some(l), .. } => *l,
            CsvFailure::UnequalLengths { line: Some(l), .. } => *l,
            _ => 0,
        }
    }

    /// The short text that the failure itself gives.
    pub fn raw_hint(&self) -> (r: String)
        ensures
            r@ == self.spec_raw_hint(),
    {
        match self {
            CsvFailure::Deserialize { message, .. } => message.clone(),
            CsvFailure::UnequalLengths { expected_len, len, .. } => {
                let mut s = "record has ".to_owned();
                s.append(decimal_string(*len).as_str());
                s.append(" fields, but the previous record has ");
                s.append(decimal_string(*expected_len).as_str());
                s.append(" fields");
                s
            },
            CsvFailure::Other => String::new(),
        }
    }
}

/// A partition table that the CSV parser could not read.
#[derive(Debug)]
pub struct CSVError {
    pub source: String,
    pub err_span: Span,
    pub hint: String,
    pub error: csv::Error,
    pub help: String,
}

impl CSVError {
    /// Builds the diagnostic from what was read of the parser's failure.
    /// The failure must name a line of `source`.
    pub fn from_failure(failure: &CsvFailure, error: csv::Error, source: String) -> (r: CSVError)
        requires
            names_line(source@, failure.spec_line() as int),
        ensures
            r.source@ == source@,
            r.err_span.covers_line(source@, failure.spec_line() as int),
            r.hint@ == failure.spec_hint(),
            r.help@ == failure.spec_help(),
            r.error == error,
    {
        let raw = failure.raw_hint();
        let unknown = raw == UNKNOWN_SUBTYPE_MESSAGE.to_owned();
        // The deserializer offers no structured cause for an unknown subtype,
        // so its message is matched word for word. Should its wording change,
        // the raw message and an empty help are kept: less specific, not wrong.
        let (hint, help) = if unknown {
            let mut help = "the following sub-types are supported:\n    ".to_owned();
            help.append(Type::Data.subtype_hint());
            help.append(" for data partitions\n    ");
            help.append(Type::App.subtype_hint());
            help.append(" for app partitions\n\n");
            ("Unknown sub-type".to_owned(), help)
        } else {
            (raw, String::new())
        };
        // A slice's length fits in usize, and a line number within it does too.
        let _bytes = source.as_str().as_bytes().len();
        proof {
            lemma_line_count_bound(text_bytes(source@));
        }
        let err_span = locate_span(source.as_str(), failure.line() as usize);
        CSVError { source, err_span, hint, error, help }
    }

    /// Builds the diagnostic for a CSV failure over `source`. Gives `None`
    /// where the failure names no line of `source`.
    pub fn new(error: csv::Error, source: String) -> (r: Option<CSVError>)
        ensures
            r is Some <==> names_line(source@, csv_failure_read(error).spec_line() as int),
            r matches Some(e) ==> {
                &&& e.source@ == source@
                &&& e.error == error
                &&& e.err_span.covers_line(source@, csv_failure_read(error).spec_line() as int)
                &&& e.hint@ == csv_failure_read(error).spec_hint()
                &&& e.help@ == csv_failure_read(error).spec_help()
            },
    {
        let failure = csv_failure_of(&error);
        let lines = count_lines(source.as_str());
        let line = failure.line();
        if 1 <= line && line <= lines as u64 {
            Some(Self::from_failure(&failure, error, source))
        } else {
            None
        }
    }
}

} // verus!

verus! {

/// Two partitions of a table whose ranges overlap.
#[derive(Debug)]
pub struct OverlappingPartitionsError {
    pub source_code: String,
    pub partition1_span: Span,
    pub partition2_span: Span,
}

impl OverlappingPartitionsError {
    /// Spans the two lines, each 1-based, that declare the partitions.
    pub fn new(source: &str, partition1_line: usize, partition2_line: usize) -> (r: Self)
        requires
            names_line(source@, partition1_line as int),
            names_line(source@, partition2_line as int),
        ensures
            r.source_code@ == source@,
            r.partition1_span.covers_line(source@, partition1_line as int),
            r.partition2_span.covers_line(source@, partition2_line as int),
    {
        OverlappingPartitionsError {
            source_code: source.to_owned(),
            partition1_span: locate_span(source, partition1_line),
            partition2_span: locate_span(source, partition2_line),
        }
    }

    /// The labels of the first and the second span.
    pub fn labels(&self) -> (r: (&'static str, &'static str))
        ensures
            r.0@ == "This partition"@,
            r.1@ == "overlaps with this partition"@,
    {
        ("This partition", "overlaps with this partition")
    }
}

/// Two partitions of a table that share a value that must be unique.
#[derive(Debug)]
pub struct DuplicatePartitionsError {
    pub source_code: String,
    pub partition1_span: Span,
    pub partition2_span: Span,
    pub ty: &'static str,
}

impl DuplicatePartitionsError {
    /// Spans the two lines, each 1-based, that declare the partitions; `ty`
    /// names the field whose values collide.
    pub fn new(source: &str, partition1_line: usize, partition2_line: usize, ty: &'static str) -> (r:
        Self)
        requires
            names_line(source@, partition1_line as int),
            names_line(source@, partition2_line as int),
        ensures
            r.source_code@ == source@,
            r.partition1_span.covers_line(source@, partition1_line as int),
            r.partition2_span.covers_line(source@, partition2_line as int),
            r.ty == ty,
    {
        DuplicatePartitionsError {
            source_code: source.to_owned(),
            partition1_span: locate_span(source, partition1_line),
            partition2_span: locate_span(source, partition2_line),
            ty,
        }
    }

    /// The labels of the first and the second span.
    pub fn labels(&self) -> (r: (&'static str, String))
        ensures
            r.0@ == "This partition"@,
            r.1@ == "has the same "@ + self.ty@ + " as this partition"@,
    {
        ("This partition", self.duplicate_label())
    }

    /// The label of the second span, naming the colliding field.
    pub fn duplicate_label(&self) -> (r: String)
        ensures
            r@ == "has the same "@ + self.ty@ + " as this partition"@,
    {
        let mut s = "has the same ".to_owned();
        s.append(self.ty);
        s.append(" as this partition");
        s
    }
}

/// A partition whose subtype does not belong to its type.
#[derive(Debug)]
pub struct InvalidSubTypeError {
    pub source_code: String,
    pub span: Span,
    pub ty: Type,
    pub sub_type: SubType,
}

impl InvalidSubTypeError {
    /// Spans the 1-based line `line` that declares the partition.
    pub fn new(source: &str, line: usize, ty: Type, sub_type: SubType) -> (r: Self)
        requires
            names_line(source@, line as int),
        ensures
            r.source_code@ == source@,
            r.span.covers_line(source@, line as int),
            r.ty == ty,
            r.sub_type == sub_type,
    {
        InvalidSubTypeError {
            source_code: source.to_owned(),
            span: locate_span(source, line),
            ty,
            sub_type,
        }
    }

    /// The label of the span.
    pub fn label(&self) -> (r: String)
        ensures
            r@ == "'"@ + self.sub_type.spec_name() + "' is not a valid subtype for '"@
                + self.ty.spec_name() + "'"@,
    {
        let mut s = "'".to_owned();
        s.append(self.sub_type.name().as_str());
        s.append("' is not a valid subtype for '");
        s.append(self.ty.name());
        s.append("'");
        s
    }

    /// The help text: the subtypes that the type accepts.
    pub fn help(&self) -> (r: String)
        ensures
            r@ == "'"@ + self.ty.spec_name() + "' supports the following subtypes: "@
                + self.ty.spec_subtype_hint(),
    {
        let mut s = "'".to_owned();
        s.append(self.ty.name());
        s.append("' supports the following subtypes: ");
        s.append(self.ty.subtype_hint());
        s
    }
}

/// An app partition that does not start on a 64 KiB boundary.
#[derive(Debug)]
pub struct UnalignedPartitionError {
    pub source_code: String,
    pub span: Span,
}

impl UnalignedPartitionError {
    /// Spans the 1-based line `line` that declares the partition.
    pub fn new(source: &str, line: usize) -> (r: Self)
        requires
            names_line(source@, line as int),
        ensures
            r.source_code@ == source@,
            r.span.covers_line(source@, line as int),
    {
        UnalignedPartitionError { source_code: source.to_owned(), span: locate_span(source, line) }
    }

    /// The label of the span.
    pub fn label(&self) -> (r: &'static str)
        ensures
            r@ == "App partition is not aligned to 64k (0x10000)"@,
    {
        "App partition is not aligned to 64k (0x10000)"
    }
}

/// A partition table that is malformed or breaks a rule of the layout.
#[derive(Debug)]
pub enum PartitionTableError {
    Csv(CSVError),
    Overlapping(OverlappingPartitionsError),
    Duplicate(DuplicatePartitionsError),
    InvalidSubType(InvalidSubTypeError),
    UnalignedPartitionError(UnalignedPartitionError),
}

impl PartitionTableError {
    pub open spec fn spec_code(&self) -> Seq<char> {
        match self {
            PartitionTableError::Csv(_) => "espflash::partition_table::malformed"@,
            PartitionTableError::Overlapping(_) => "espflash::partition_table::overlapping"@,
            PartitionTableError::Duplicate(_) => "espflash::partition_table::duplicate"@,
            PartitionTableError::InvalidSubType(_) => "espflash::partition_table::invalid_type"@,
            PartitionTableError::UnalignedPartitionError(_) =>
                "espflash::partition_table::unaligned"@,
        }
    }

    /// Stable diagnostic code of the failure.
    pub fn code(&self) -> (r: &'static str)
        ensures
            r@ == self.spec_code(),
    {
        match self {
            PartitionTableError::Csv(_) => "espflash::partition_table::malformed",
            PartitionTableError::Overlapping(_) => "espflash::partition_table::overlapping",
            PartitionTableError::Duplicate(_) => "espflash::partition_table::duplicate",
            PartitionTableError::InvalidSubType(_) => "espflash::partition_table::invalid_type",
            PartitionTableError::UnalignedPartitionError(_) => "espflash::partition_table::unaligned",
        }
    }

    pub open spec fn spec_message(&self) -> Seq<char> {
        match self {
            PartitionTableError::Csv(_) => "Malformed partition table"@,
            PartitionTableError::Overlapping(_) => "Overlapping partitions"@,
            PartitionTableError::Duplicate(_) => "Duplicate partitions"@,
            PartitionTableError::InvalidSubType(_) => "Invalid subtype for type"@,
            PartitionTableError::UnalignedPartitionError(_) => "Unaligned partition"@,
        }
    }

    /// One-line summary of the failure.
    pub fn message(&self) -> (r: &'static str)
        ensures
            r@ == self.spec_message(),
    {
        match self {
            PartitionTableError::Csv(_) => "Malformed partition table",
            PartitionTableError::Overlapping(_) => "Overlapping partitions",
            PartitionTableError::Duplicate(_) => "Duplicate partitions",
            PartitionTableError::InvalidSubType(_) => "Invalid subtype for type",
            PartitionTableError::UnalignedPartitionError(_) => "Unaligned partition",
        }
    }
}

} // verus!
