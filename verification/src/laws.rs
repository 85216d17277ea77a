//! What holds of the dispatchers on every path.

use vstd::prelude::*;
use crate::error::{conclusion, DfErrorView, FaultView};
use crate::format::{Format, Reader, Writer};
use crate::read::read_selection;
use crate::write::{write_selection, write_start, PendingWrite};

verus! {

/// What the six extension literals spell.
proof fn lemma_extension_literals()
    ensures
        "csv"@ == seq!['c', 's', 'v'],
        "json"@ == seq!['j', 's', 'o', 'n'],
        "ndjson"@ == seq!['n', 'd', 'j', 's', 'o', 'n'],
        "jsonl"@ == seq!['j', 's', 'o', 'n', 'l'],
        "hdvb"@ == seq!['h', 'd', 'v', 'b'],
        "hdvt"@ == seq!['h', 'd', 'v', 't'],
        "csv"@.len() == 3,
        "json"@.len() == 4,
        "ndjson"@.len() == 6,
        "jsonl"@.len() == 5,
        "hdvb"@.len() == 4,
        "hdvt"@.len() == 4,
        "hdvb"@[3] != "hdvt"@[3],
        "hdvb"@[0] != "json"@[0],
{
    reveal_strlit("csv");
    reveal_strlit("json");
    reveal_strlit("ndjson");
    reveal_strlit("jsonl");
    reveal_strlit("hdvb");
    reveal_strlit("hdvt");
    assert("csv"@ =~= seq!['c', 's', 'v']);
    assert("json"@ =~= seq!['j', 's', 'o', 'n']);
    assert("ndjson"@ =~= seq!['n', 'd', 'j', 's', 'o', 'n']);
    assert("jsonl"@ =~= seq!['j', 's', 'o', 'n', 'l']);
    assert("hdvb"@ =~= seq!['h', 'd', 'v', 'b']);
    assert("hdvt"@ =~= seq!['h', 'd', 'v', 't']);
}

/// A path without an extension fails with `MissingExtension`, read or
/// written, and the write fails before its target is created or emptied.
pub proof fn lemma_missing_extension_fails(path: Seq<char>)
    ensures
        read_selection(None, path) == Err::<Reader, DfErrorView>(
            DfErrorView::MissingExtension { path },
        ),
        write_start(None, path) == Err::<(Seq<char>, Seq<char>), DfErrorView>(
            DfErrorView::MissingExtension { path },
        ),
{
}

/// Reading changes no file: whatever reader is selected opens its file for
/// reading only.
pub proof fn lemma_read_mutates_nothing(reader: Reader)
    ensures
        !reader.access().mutates(),
{
}

/// A write to a path whose extension selects no format still creates or
/// empties the target, and fails with `UnsupportedFormat` once the target
/// has been opened.
pub proof fn lemma_unsupported_write_truncates_first(
    extension: Seq<char>,
    path: Seq<char>,
    pending: PendingWrite,
)
    requires
        Format::of_extension(extension) is None,
        pending@ == (path, extension),
    ensures
        write_start(Some(extension), path) == Ok::<(Seq<char>, Seq<char>), DfErrorView>(pending@),
        pending.access().create && pending.access().truncate,
        write_selection(extension, path, Ok(())) == Err::<Writer, DfErrorView>(
            DfErrorView::UnsupportedFormat { extension, path },
        ),
{
}

/// Whatever can be written can be read back in the same format: where a
/// write selects a writer, a read of the same path selects the reader of the
/// writer's format.
pub proof fn lemma_written_format_is_read_back(
    extension: Seq<char>,
    path: Seq<char>,
    opened: Result<(), Seq<char>>,
)
    requires
        write_selection(extension, path, opened) is Ok,
    ensures
        read_selection(Some(extension), path) is Ok,
        read_selection(Some(extension), path)->Ok_0.format() == write_selection(
            extension,
            path,
            opened,
        )->Ok_0.format(),
{
}

/// Newline-delimited JSON is read but not written: under either of its
/// extensions a read selects the deferred reader over the records, and a
/// write whose target was opened fails with `UnsupportedWriteMode`.
pub proof fn lemma_line_json_is_read_only(extension: Seq<char>, path: Seq<char>)
    requires
        extension == "ndjson"@ || extension == "jsonl"@,
    ensures
        read_selection(Some(extension), path) == Ok::<Reader, DfErrorView>(
            Reader::NdJson { infer_schema_length: None },
        ),
        read_selection(Some(extension), path)->Ok_0.deferred(),
        write_selection(extension, path, Ok(())) == Err::<Writer, DfErrorView>(
            DfErrorView::UnsupportedWriteMode { path },
        ),
{
    lemma_extension_literals();
}

/// An upper-case letter of the basic Latin alphabet.
pub open spec fn is_ascii_upper(c: char) -> bool {
    'A' <= c <= 'Z'
}

/// Matching is case-sensitive: an extension with an upper-case letter in it
/// selects no format, so a read or a write of such a path that gets as far as
/// the format fails with `UnsupportedFormat`.
pub proof fn lemma_matching_is_case_sensitive(extension: Seq<char>, path: Seq<char>, i: int)
    requires
        0 <= i < extension.len(),
        is_ascii_upper(extension[i]),
    ensures
        Format::of_extension(extension) is None,
        read_selection(Some(extension), path) == Err::<Reader, DfErrorView>(
            DfErrorView::UnsupportedFormat { extension, path },
        ),
        write_selection(extension, path, Ok(())) == Err::<Writer, DfErrorView>(
            DfErrorView::UnsupportedFormat { extension, path },
        ),
{
    lemma_extension_literals();
}

/// The two HDV extensions select the two HDV codecs, each its own, for
/// reading and for writing alike; the text writer lays out no CSV header.
pub proof fn lemma_hdv_codecs(path: Seq<char>)
    ensures
        read_selection(Some("hdvb"@), path) == Ok::<Reader, DfErrorView>(Reader::HdvBinary),
        read_selection(Some("hdvt"@), path) == Ok::<Reader, DfErrorView>(Reader::HdvText),
        write_selection("hdvb"@, path, Ok(())) == Ok::<Writer, DfErrorView>(Writer::HdvBinary),
        write_selection("hdvt"@, path, Ok(())) == Ok::<Writer, DfErrorView>(
            Writer::HdvText { is_csv_header: false },
        ),
{
    lemma_extension_literals();
}

/// Every failure carries the path it is about.
pub proof fn lemma_failures_carry_path(
    extension: Option<Seq<char>>,
    path: Seq<char>,
    opened: Result<(), Seq<char>>,
    report: Result<(), FaultView>,
)
    ensures
        read_selection(extension, path) matches Err(e) ==> e.path() == path,
        write_start(extension, path) matches Err(e) ==> e.path() == path,
        extension matches Some(ext) ==> (write_selection(ext, path, opened) matches Err(e)
            ==> e.path() == path),
        conclusion(path, report) matches Err(e) ==> e.path() == path,
{
}

/// No fault is swallowed: the operation succeeds exactly when the step that
/// the caller performed did.
pub proof fn lemma_faults_surface(path: Seq<char>, report: Result<(), FaultView>)
    ensures
        conclusion(path, report) is Ok <==> report is Ok,
{
}

} // verus!
