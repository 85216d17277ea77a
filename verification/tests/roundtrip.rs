use std::io::Cursor;

use dfio::{begin_write, reader_for, JsonLayout, Reader, Writer};
use hdv::io::polars::{hdv_bin_polars_read, hdv_bin_polars_write, hdv_text_polars_write};
use hdv::io::text::HdvTextWriterOptions;
use polars::prelude::{
    Column, CsvReadOptions, CsvWriter, DataFrame, JsonFormat, JsonReader, JsonWriter, SerReader,
    SerWriter,
};

fn table() -> DataFrame {
    DataFrame::new(vec![
        Column::new("id".into(), [1i64, 2i64]),
        Column::new("name".into(), ["a", "b"]),
    ])
    .unwrap()
}

fn json_format(layout: JsonLayout) -> JsonFormat {
    match layout {
        JsonLayout::Document => JsonFormat::Json,
        JsonLayout::Lines => JsonFormat::JsonLines,
    }
}

fn encode(writer: Writer, df: &mut DataFrame) -> Vec<u8> {
    let mut bytes = Vec::new();
    match writer {
        Writer::Csv { include_header } => {
            CsvWriter::new(&mut bytes).include_header(include_header).finish(df).unwrap()
        }
        Writer::Json { layout } => {
            JsonWriter::new(&mut bytes).with_json_format(json_format(layout)).finish(df).unwrap()
        }
        Writer::HdvBinary => hdv_bin_polars_write(&mut bytes, df).unwrap(),
        Writer::HdvText { is_csv_header } => {
            hdv_text_polars_write(&mut bytes, df, HdvTextWriterOptions { is_csv_header }).unwrap()
        }
    }
    bytes
}

fn decode(reader: Reader, bytes: Vec<u8>) -> DataFrame {
    let input = Cursor::new(bytes);
    match reader {
        Reader::Csv { has_header, infer_schema_length } => CsvReadOptions::default()
            .with_has_header(has_header)
            .with_infer_schema_length(infer_schema_length)
            .into_reader_with_file_handle(input)
            .finish()
            .unwrap(),
        Reader::Json { layout } => {
            JsonReader::new(input).with_json_format(json_format(layout)).finish().unwrap()
        }
        Reader::NdJson { .. } => {
            JsonReader::new(input).with_json_format(JsonFormat::JsonLines).finish().unwrap()
        }
        Reader::HdvBinary => hdv_bin_polars_read(input).unwrap(),
        // The text reader of hdv 0.7 takes the end of its input for one more
        // empty row and never stops, so nothing is decoded with it here.
        Reader::HdvText => unreachable!("no test decodes HDV text"),
    }
}

fn written_then_read(path: &str) -> DataFrame {
    let writer = begin_write(path).unwrap().select_writer(Ok(())).unwrap();
    let bytes = encode(writer, &mut table());
    decode(reader_for(path).unwrap(), bytes)
}

fn column_names(df: &DataFrame) -> Vec<String> {
    df.get_column_names().iter().map(|name| name.to_string()).collect()
}

#[test]
fn json_round_trip_keeps_rows_and_column_order() {
    let back = written_then_read("out.json");
    assert_eq!(column_names(&back), vec!["id", "name"]);
    assert!(back.equals(&table()));
}

#[test]
fn csv_round_trip_keeps_names_order_and_values() {
    let back = written_then_read("x.csv");
    assert_eq!(column_names(&back), vec!["id", "name"]);
    assert!(back.equals(&table()));
}

#[test]
fn hdv_binary_round_trip_reads_back_what_was_written() {
    let back = written_then_read("x.hdvb");
    assert_eq!(column_names(&back), vec!["id", "name"]);
    assert!(back.equals(&table()));
}

#[test]
fn hdv_text_output_has_no_csv_header() {
    let writer = begin_write("x.hdvt").unwrap().select_writer(Ok(())).unwrap();
    let text = String::from_utf8(encode(writer, &mut table())).unwrap();
    let lines: Vec<&str> = text.lines().collect();
    assert_eq!(lines.len(), 3);
    assert_ne!(lines[0], "id,name,");
    assert!(lines[0].contains("id") && lines[0].contains("name"));
    assert_eq!(lines[1], "1,a,");
    assert_eq!(lines[2], "2,b,");
}

#[test]
fn hdv_extensions_select_different_encodings() {
    let bytes_of = |path: &str| {
        let writer = begin_write(path).unwrap().select_writer(Ok(())).unwrap();
        encode(writer, &mut table())
    };
    assert_ne!(bytes_of("x.hdvb"), bytes_of("x.hdvt"));
}

#[test]
fn json_document_is_one_value() {
    let writer = begin_write("out.json").unwrap().select_writer(Ok(())).unwrap();
    let text = String::from_utf8(encode(writer, &mut table())).unwrap();
    assert!(text.trim_start().starts_with('['));
    assert!(text.trim_end().ends_with(']'));
}

#[test]
fn csv_output_starts_with_the_header_row() {
    let writer = begin_write("x.csv").unwrap().select_writer(Ok(())).unwrap();
    let text = String::from_utf8(encode(writer, &mut table())).unwrap();
    assert_eq!(text.lines().next(), Some("id,name"));
    assert_eq!(text.lines().count(), 3);
}
