use dfio::{Format, JsonLayout, Reader, Writer};

#[test]
fn each_extension_selects_its_format() {
    assert_eq!(Format::from_extension("csv"), Some(Format::Csv));
    assert_eq!(Format::from_extension("json"), Some(Format::Json));
    assert_eq!(Format::from_extension("ndjson"), Some(Format::NdJson));
    assert_eq!(Format::from_extension("jsonl"), Some(Format::NdJson));
    assert_eq!(Format::from_extension("hdvb"), Some(Format::HdvBinary));
    assert_eq!(Format::from_extension("hdvt"), Some(Format::HdvText));
}

#[test]
fn extension_outside_the_set_selects_nothing() {
    for ext in ["", "txt", "parquet", "cs", "csvx", "xcsv", "jso", "jsonlines", "hdv", "hdvx"] {
        assert_eq!(Format::from_extension(ext), None, "extension {:?}", ext);
    }
}

#[test]
fn matching_is_case_sensitive() {
    for ext in ["CSV", "Csv", "csV", "JSON", "Json", "NDJSON", "JsonL", "HDVB", "hdvT"] {
        assert_eq!(Format::from_extension(ext), None, "extension {:?}", ext);
    }
}

#[test]
fn matching_takes_the_extension_as_written() {
    for ext in [" csv", "csv ", ".csv", "csv\n", "ｃｓｖ"] {
        assert_eq!(Format::from_extension(ext), None, "extension {:?}", ext);
    }
}

#[test]
fn every_format_has_a_reader() {
    assert_eq!(
        Format::Csv.to_reader(),
        Reader::Csv { has_header: true, infer_schema_length: None }
    );
    assert_eq!(Format::Json.to_reader(), Reader::Json { layout: JsonLayout::Document });
    assert_eq!(Format::NdJson.to_reader(), Reader::NdJson { infer_schema_length: None });
    assert_eq!(Format::HdvBinary.to_reader(), Reader::HdvBinary);
    assert_eq!(Format::HdvText.to_reader(), Reader::HdvText);
}

#[test]
fn every_format_but_line_json_has_a_writer() {
    assert_eq!(Format::Csv.to_writer(), Some(Writer::Csv { include_header: true }));
    assert_eq!(Format::Json.to_writer(), Some(Writer::Json { layout: JsonLayout::Document }));
    assert_eq!(Format::NdJson.to_writer(), None);
    assert_eq!(Format::HdvBinary.to_writer(), Some(Writer::HdvBinary));
    assert_eq!(Format::HdvText.to_writer(), Some(Writer::HdvText { is_csv_header: false }));
}

#[test]
fn csv_and_line_json_are_read_deferred() {
    assert!(Format::Csv.to_reader().is_deferred());
    assert!(Format::NdJson.to_reader().is_deferred());
}

#[test]
fn json_and_hdv_are_read_eagerly() {
    assert!(!Format::Json.to_reader().is_deferred());
    assert!(!Format::HdvBinary.to_reader().is_deferred());
    assert!(!Format::HdvText.to_reader().is_deferred());
}
