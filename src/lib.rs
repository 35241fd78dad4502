//! Failure classification and diagnostics for a serial firmware flasher.
//!
//! Low-level failures (serial I/O, SLIP framing, binary decoding, CSV
//! parsing) are lifted into one closed taxonomy, enriched with the pipeline
//! stage and the in-flight device command, and carry the exact source spans
//! needed to render partition-table diagnostics.
mod connection;
mod device;
mod error;
mod foreign;
mod partition;
mod partition_error;
mod rom;
mod span;
mod text;

pub use connection::{ConnectionError, FramingFailure, IoKind, SerialKind, TimedOutCommand};
pub use device::{join_names, Chip, Command, ImageFormatId};
pub use error::{
    command_attribution, lemma_attribution_latest_wins, lemma_promotion_attribution_commute,
    lemma_promotion_idempotent, stage_promotion, ChipDetectError, ElfError, FlashDetectError,
    TopLevelError, UnsupportedImageFormatError,
};
pub use partition::{AppType, DataType, SubType, Type};
pub use partition_error::{
    CSVError, CsvFailure, DuplicatePartitionsError, InvalidSubTypeError,
    OverlappingPartitionsError, PartitionTableError, UnalignedPartitionError,
};
pub use rom::{RomError, RomErrorKind};
pub use span::{count_lines, locate_span, Span};
