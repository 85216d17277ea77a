//! The read dispatcher: from a path to the reader of its file.

use vstd::prelude::*;
use crate::access::OpenMode;
use crate::error::{outcome_view, DfError, DfErrorView};
use crate::extension::{extension_of, resolve_extension};
use crate::format::{Format, Reader};

verus! {

/// The reader that the read dispatcher selects for a path with the given
/// extension, or the failure it reports instead.
///
/// No extension is a `MissingExtension`; an extension outside the closed set
/// is an `UnsupportedFormat` that carries the extension as written. Every
/// format of the set can be read.
pub open spec fn read_selection(extension: Option<Seq<char>>, path: Seq<char>) -> Result<
    Reader,
    DfErrorView,
> {
    match extension {
        None => Err(DfErrorView::MissingExtension { path }),
        Some(ext) => match Format::of_extension(ext) {
            Some(format) => Ok(format.reader()),
            None => Err(DfErrorView::UnsupportedFormat { extension: ext, path }),
        },
    }
}

impl Reader {
    /// A reader opens its file for reading only.
    pub open spec fn access(self) -> OpenMode {
        OpenMode::read_only()
    }

    /// The mode in which the file is opened for this reader.
    pub fn open_mode(&self) -> (mode: OpenMode)
        ensures
            mode == self.access(),
    {
        OpenMode { read: true, write: false, create: false, truncate: false }
    }
}

/// Selects the reader for `path`, whose extension the caller has resolved.
pub fn select_reader(extension: Option<&str>, path: &str) -> (selected: Result<Reader, DfError>)
    ensures
        outcome_view(selected) == read_selection(extension.deep_view(), path@),
{
    match extension {
        None => Err(DfError::MissingExtension { path: path.to_owned() }),
        Some(ext) => match Format::from_extension(ext) {
            Some(format) => Ok(format.to_reader()),
            None => Err(
                DfError::UnsupportedFormat { extension: ext.to_owned(), path: path.to_owned() },
            ),
        },
    }
}

/// Selects the reader for `path` from its extension alone: the file is
/// neither opened nor looked at.
///
/// On `Ok` the caller runs the reader on the file and hands its report to
/// `conclude`. A path without a dot has no extension, whatever its
/// components.
pub fn reader_for(path: &str) -> (selected: Result<Reader, DfError>)
    ensures
        outcome_view(selected) == read_selection(extension_of(path@), path@),
        !path@.contains('.') ==> outcome_view(selected) == Err::<Reader, DfErrorView>(
            DfErrorView::MissingExtension { path: path@ },
        ),
{
    match resolve_extension(path) {
        Some(ext) => select_reader(Some(ext.as_str()), path),
        None => select_reader(None, path),
    }
}

} // verus!
