//! The closed set of formats, and the codecs that read and write them.

use vstd::prelude::*;
use crate::text::str_eq;

verus! {

/// A tabular file format that an extension can select.
#[derive(Clone, Copy, Debug, PartialEq, Eq, Structural)]
pub enum Format {
    /// Comma-separated values.
    Csv,
    /// One JSON document holding the whole table.
    Json,
    /// Newline-delimited JSON records.
    NdJson,
    /// The binary HDV encoding.
    HdvBinary,
    /// The text HDV encoding.
    HdvText,
}

/// How JSON text lays a table out.
#[derive(Clone, Copy, Debug, PartialEq, Eq, Structural)]
pub enum JsonLayout {
    /// One document holds the whole table.
    Document,
    /// Each line holds one record.
    Lines,
}

/// How a table is read from a file of some format.
#[derive(Clone, Copy, Debug, PartialEq, Eq)]
pub enum Reader {
    /// A deferred scan of a CSV file.
    Csv {
        /// Whether the first row names the columns.
        has_header: bool,
        /// How many rows the column types are inferred from; `None` is the
        /// whole input.
        infer_schema_length: Option<usize>,
    },
    /// The JSON text is parsed into a table as a whole.
    Json {
        /// How the text lays the table out.
        layout: JsonLayout,
    },
    /// A deferred scan of newline-delimited JSON records.
    NdJson {
        /// How many records the column types are inferred from; `None` is
        /// the whole input.
        infer_schema_length: Option<usize>,
    },
    /// The binary HDV codec decodes the whole file into a table.
    HdvBinary,
    /// The text HDV codec decodes the whole file into a table.
    HdvText,
}

/// How a table is written to a file of some format.
#[derive(Clone, Copy, Debug, PartialEq, Eq)]
pub enum Writer {
    /// The CSV serializer, with its default delimiter and quoting.
    Csv {
        /// Whether a row of column names comes first.
        include_header: bool,
    },
    /// The JSON serializer.
    Json {
        /// How the text lays the table out.
        layout: JsonLayout,
    },
    /// The binary HDV codec.
    HdvBinary,
    /// The text HDV codec.
    HdvText {
        /// Whether the header is laid out as a CSV row.
        is_csv_header: bool,
    },
}

impl Format {
    /// The format that an extension selects, if any.
    ///
    /// The extension is matched as it is written: `csv` selects CSV, `CSV`
    /// selects nothing.
    pub open spec fn of_extension(ext: Seq<char>) -> Option<Format> {
        if ext == "csv"@ {
            Some(Format::Csv)
        } else if ext == "json"@ {
            Some(Format::Json)
        } else if ext == "ndjson"@ || ext == "jsonl"@ {
            Some(Format::NdJson)
        } else if ext == "hdvb"@ {
            Some(Format::HdvBinary)
        } else if ext == "hdvt"@ {
            Some(Format::HdvText)
        } else {
            None
        }
    }

    /// The reader of this format. Every format can be read. CSV has a header
    /// row, column types are inferred from the whole input, and a JSON file
    /// is one document.
    pub open spec fn reader(self) -> Reader {
        match self {
            Format::Csv => Reader::Csv { has_header: true, infer_schema_length: None },
            Format::Json => Reader::Json { layout: JsonLayout::Document },
            Format::NdJson => Reader::NdJson { infer_schema_length: None },
            Format::HdvBinary => Reader::HdvBinary,
            Format::HdvText => Reader::HdvText,
        }
    }

    /// The writer of this format; newline-delimited JSON has none. CSV gets
    /// a header row, a JSON file is one document, and the text HDV codec
    /// lays out no CSV header.
    pub open spec fn writer(self) -> Option<Writer> {
        match self {
            Format::Csv => Some(Writer::Csv { include_header: true }),
            Format::Json => Some(Writer::Json { layout: JsonLayout::Document }),
            Format::NdJson => None,
            Format::HdvBinary => Some(Writer::HdvBinary),
            Format::HdvText => Some(Writer::HdvText { is_csv_header: false }),
        }
    }

    /// Matches an extension against the closed set of formats.
    pub fn from_extension(ext: &str) -> (format: Option<Format>)
        ensures
            format == Format::of_extension(ext@),
    {
        if str_eq(ext, "csv") {
            Some(Format::Csv)
        } else if str_eq(ext, "json") {
            Some(Format::Json)
        } else if str_eq(ext, "ndjson") || str_eq(ext, "jsonl") {
            Some(Format::NdJson)
        } else if str_eq(ext, "hdvb") {
            Some(Format::HdvBinary)
        } else if str_eq(ext, "hdvt") {
            Some(Format::HdvText)
        } else {
            None
        }
    }

    /// The reader of this format.
    pub fn to_reader(self) -> (reader: Reader)
        ensures
            reader == self.reader(),
    {
        match self {
            Format::Csv => Reader::Csv { has_header: true, infer_schema_length: None },
            Format::Json => Reader::Json { layout: JsonLayout::Document },
            Format::NdJson => Reader::NdJson { infer_schema_length: None },
            Format::HdvBinary => Reader::HdvBinary,
            Format::HdvText => Reader::HdvText,
        }
    }

    /// The writer of this format, or `None` for a format that is read only.
    pub fn to_writer(self) -> (writer: Option<Writer>)
        ensures
            writer == self.writer(),
    {
        match self {
            Format::Csv => Some(Writer::Csv { include_header: true }),
            Format::Json => Some(Writer::Json { layout: JsonLayout::Document }),
            Format::NdJson => None,
            Format::HdvBinary => Some(Writer::HdvBinary),
            Format::HdvText => Some(Writer::HdvText { is_csv_header: false }),
        }
    }
}

impl Reader {
    /// The format that this reader reads.
    pub open spec fn format(self) -> Format {
        match self {
            Reader::Csv { .. } => Format::Csv,
            Reader::Json { .. } => Format::Json,
            Reader::NdJson { .. } => Format::NdJson,
            Reader::HdvBinary => Format::HdvBinary,
            Reader::HdvText => Format::HdvText,
        }
    }

    /// Whether reading is deferred: the reader hands out a plan over the
    /// file and parses nothing yet. The other readers parse the whole file
    /// into a table, which is then wrapped as a plan.
    pub open spec fn deferred(self) -> bool {
        self is Csv || self is NdJson
    }

    /// Whether reading is deferred.
    pub fn is_deferred(&self) -> (deferred: bool)
        ensures
            deferred == self.deferred(),
    {
        match self {
            Reader::Csv { .. } => true,
            Reader::NdJson { .. } => true,
            _ => false,
        }
    }
}

impl Writer {
    /// The format that this writer writes.
    pub open spec fn format(self) -> Format {
        match self {
            Writer::Csv { .. } => Format::Csv,
            Writer::Json { .. } => Format::Json,
            Writer::HdvBinary => Format::HdvBinary,
            Writer::HdvText { .. } => Format::HdvText,
        }
    }
}

} // verus!
