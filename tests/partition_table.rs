use espflash_errors::{
    count_lines, locate_span, AppType, CSVError, CsvFailure, DataType, DuplicatePartitionsError,
    InvalidSubTypeError, OverlappingPartitionsError, PartitionTableError, Span, SubType, Type,
    UnalignedPartitionError,
};

fn slice(text: &str, span: Span) -> &str {
    &text[span.offset..span.offset + span.len]
}

fn table(lines: usize) -> String {
    let mut s = String::new();
    for i in 1..=lines {
        s.push_str(&format!("part{},data,nvs,0x{:x},0x1000\n", i, 0x9000 + i * 0x1000));
    }
    s
}

fn csv_error_of(text: &str) -> csv::Error {
    let mut reader = csv::ReaderBuilder::new()
        .has_headers(false)
        .from_reader(text.as_bytes());
    for record in reader.records() {
        if let Err(e) = record {
            return e;
        }
    }
    panic!("text parsed without error")
}

#[test]
fn span_covers_each_line() {
    let text = "first\nsecond line\r\n\nlast";
    assert_eq!(count_lines(text), 4);
    assert_eq!(slice(text, locate_span(text, 1)), "first");
    assert_eq!(slice(text, locate_span(text, 2)), "second line");
    assert_eq!(slice(text, locate_span(text, 3)), "");
    assert_eq!(slice(text, locate_span(text, 4)), "last");
    assert_eq!(locate_span(text, 2), Span { offset: 6, len: 11 });
    for (i, line) in text.lines().enumerate() {
        assert_eq!(slice(text, locate_span(text, i + 1)), line);
    }
}

#[test]
fn span_counts_bytes_of_multibyte_text() {
    let text = "größe\nnäme,x\n";
    assert_eq!(count_lines(text), 2);
    assert_eq!(locate_span(text, 2), Span { offset: 8, len: 7 });
    assert_eq!(slice(text, locate_span(text, 2)), "näme,x");
    assert_eq!(count_lines(""), 0);
    assert_eq!(count_lines("a\r"), 1);
    assert_eq!(slice("a\r", locate_span("a\r", 1)), "a\r");
}

#[test]
fn csv_field_count_mismatch_names_counts_and_line() {
    let mut text = String::new();
    for i in 1..=10 {
        if i == 7 {
            text.push_str("short,row,here\n");
        } else {
            text.push_str(&format!("p{},data,nvs,0x{:x},0x1000\n", i, i * 0x1000));
        }
    }
    let err = CSVError::new(csv_error_of(&text), text.clone()).expect("line 7 is in the text");
    assert_eq!(err.hint, "record has 3 fields, but the previous record has 5 fields");
    assert_eq!(err.help, "");
    assert_eq!(slice(&text, err.err_span), "short,row,here");
    assert_eq!(err.err_span, locate_span(&text, 7));
    assert_eq!(err.source, text);
}

#[test]
fn csv_failure_values_give_hint_and_span() {
    let text = table(10);
    let failure = CsvFailure::UnequalLengths { line: Some(7), expected_len: 5, len: 3 };
    let err = CSVError::from_failure(&failure, csv_error_of("a,b\nc\n"), text.clone());
    assert_eq!(err.hint, "record has 3 fields, but the previous record has 5 fields");
    assert_eq!(err.err_span, locate_span(&text, 7));
    let failure = CsvFailure::UnequalLengths { line: Some(2), expected_len: 1234567, len: 90 };
    let err = CSVError::from_failure(&failure, csv_error_of("a,b\nc\n"), text.clone());
    assert_eq!(err.hint, "record has 90 fields, but the previous record has 1234567 fields");
}

#[test]
fn csv_unknown_subtype_gets_clear_hint_and_help() {
    let text = table(3);
    let failure = CsvFailure::Deserialize {
        line: Some(2),
        message: "data did not match any variant of untagged enum SubType".to_string(),
    };
    let err = CSVError::from_failure(&failure, csv_error_of("a,b\nc\n"), text.clone());
    assert_eq!(err.hint, "Unknown sub-type");
    assert_eq!(
        err.help,
        format!(
            "the following sub-types are supported:\n    {} for data partitions\n    {} for app partitions\n\n",
            Type::Data.subtype_hint(),
            Type::App.subtype_hint()
        )
    );
    assert_eq!(slice(&text, err.err_span), text.lines().nth(1).unwrap());
}

#[test]
fn csv_other_message_is_kept() {
    let text = table(3);
    let failure = CsvFailure::Deserialize { line: Some(3), message: "invalid digit".to_string() };
    let err = CSVError::from_failure(&failure, csv_error_of("a,b\nc\n"), text.clone());
    assert_eq!(err.hint, "invalid digit");
    assert_eq!(err.help, "");
}

#[test]
fn csv_error_without_line_in_text_is_refused() {
    assert!(CSVError::new(csv_error_of("a,b\nc\n"), "x\n".to_string()).is_none());
}

#[test]
fn overlapping_spans_both_lines() {
    let text = table(6);
    let e = OverlappingPartitionsError::new(&text, 2, 5);
    assert_eq!(e.partition1_span, locate_span(&text, 2));
    assert_eq!(e.partition2_span, locate_span(&text, 5));
    assert_eq!(e.labels(), ("This partition", "overlaps with this partition"));
    assert_eq!(e.source_code, text);
}

#[test]
fn duplicate_names_spans_lines_four_and_nine() {
    let text = table(10);
    let e = DuplicatePartitionsError::new(&text, 4, 9, "name");
    assert_eq!(slice(&text, e.partition1_span), text.lines().nth(3).unwrap());
    assert_eq!(slice(&text, e.partition2_span), text.lines().nth(8).unwrap());
    assert_eq!(e.ty, "name");
    assert_eq!(e.duplicate_label(), "has the same name as this partition");
    assert_eq!(
        e.labels(),
        ("This partition", "has the same name as this partition".to_string())
    );
    let wrapped = espflash_errors::TopLevelError::from(PartitionTableError::Duplicate(e));
    let espflash_errors::TopLevelError::MalformedPartitionTable(wrapped) = wrapped else {
        panic!("not a partition table failure")
    };
    assert_eq!(wrapped.code(), "espflash::partition_table::duplicate");
}

#[test]
fn invalid_subtype_labels_and_help() {
    let text = table(3);
    let e = InvalidSubTypeError::new(&text, 3, Type::Data, SubType::App(AppType::Ota(3)));
    assert_eq!(e.span, locate_span(&text, 3));
    assert_eq!(e.label(), "'ota_3' is not a valid subtype for 'data'");
    assert_eq!(
        e.help(),
        format!("'data' supports the following subtypes: {}", Type::Data.subtype_hint())
    );
    assert_eq!(SubType::Data(DataType::NvsKeys).name(), "nvs_keys");
    assert_eq!(SubType::App(AppType::Ota(15)).name(), "ota_15");
}

#[test]
fn unaligned_app_partition_spans_line_twelve() {
    let text = table(14);
    let e = UnalignedPartitionError::new(&text, 12);
    assert_eq!(slice(&text, e.span), text.lines().nth(11).unwrap());
    assert_eq!(e.label(), "App partition is not aligned to 64k (0x10000)");
    let wrapped = PartitionTableError::UnalignedPartitionError(e);
    assert!(matches!(wrapped, PartitionTableError::UnalignedPartitionError(_)));
    assert_eq!(wrapped.message(), "Unaligned partition");
}
