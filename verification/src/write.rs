//! The write dispatcher: from a path to the writer of its file, by way of
//! the target's creation.

use vstd::prelude::*;
use crate::access::OpenMode;
use crate::error::{outcome_view, DfError, DfErrorView};
use crate::extension::{extension_of, resolve_extension};
use crate::format::{Format, Writer};

verus! {

/// A write that has passed the extension check and now waits for its target
/// to be created or emptied.
#[derive(Debug, PartialEq, Eq)]
pub struct PendingWrite {
    /// The target of the write.
    pub path: String,
    /// The extension of the target, as written.
    pub extension: String,
}

/// How a write starts: with no extension it fails at once, before the target
/// is touched; with any extension, supported or not, it goes on to create or
/// empty the target.
pub open spec fn write_start(extension: Option<Seq<char>>, path: Seq<char>) -> Result<
    (Seq<char>, Seq<char>),
    DfErrorView,
> {
    match extension {
        None => Err(DfErrorView::MissingExtension { path }),
        Some(ext) => Ok((path, ext)),
    }
}

/// The writer that the write dispatcher selects once the target has been
/// opened, or the failure it reports instead.
///
/// A target that could not be opened is an `IoFailure`, whatever the
/// extension. After that, an extension outside the closed set is an
/// `UnsupportedFormat`, and one of a format that has no writer is an
/// `UnsupportedWriteMode`.
pub open spec fn write_selection(
    extension: Seq<char>,
    path: Seq<char>,
    opened: Result<(), Seq<char>>,
) -> Result<Writer, DfErrorView> {
    match opened {
        Err(cause) => Err(DfErrorView::IoFailure { path, cause }),
        Ok(()) => match Format::of_extension(extension) {
            None => Err(DfErrorView::UnsupportedFormat { extension, path }),
            Some(format) => match format.writer() {
                Some(writer) => Ok(writer),
                None => Err(DfErrorView::UnsupportedWriteMode { path }),
            },
        },
    }
}

/// What the caller reports of opening the target, as contracts see it.
pub open spec fn opened_view(opened: Result<(), String>) -> Result<(), Seq<char>> {
    match opened {
        Ok(()) => Ok(()),
        Err(cause) => Err(cause@),
    }
}

impl View for PendingWrite {
    type V = (Seq<char>, Seq<char>);

    /// The path and the extension.
    open spec fn view(&self) -> (Seq<char>, Seq<char>) {
        (self.path@, self.extension@)
    }
}

/// The start of a write as contracts see it.
pub open spec fn start_view(started: Result<PendingWrite, DfError>) -> Result<
    (Seq<char>, Seq<char>),
    DfErrorView,
> {
    match started {
        Ok(pending) => Ok(pending@),
        Err(error) => Err(error@),
    }
}

impl PendingWrite {
    /// The target is opened for writing, created if it does not exist and
    /// emptied if it does.
    pub open spec fn access(self) -> OpenMode {
        OpenMode::create_truncate()
    }

    /// The mode in which the caller now opens the target.
    pub fn open_mode(&self) -> (mode: OpenMode)
        ensures
            mode == self.access(),
    {
        OpenMode { read: false, write: true, create: true, truncate: true }
    }

    /// Selects the writer, given how the opening of the target went.
    ///
    /// On `Ok` the caller runs the writer on the opened file and hands its
    /// report to `conclude`.
    pub fn select_writer(&self, opened: Result<(), String>) -> (selected: Result<Writer, DfError>)
        ensures
            outcome_view(selected) == write_selection(
                self.extension@,
                self.path@,
                opened_view(opened),
            ),
    {
        match opened {
            Err(cause) => Err(DfError::IoFailure { path: self.path.clone(), cause }),
            Ok(()) => match Format::from_extension(self.extension.as_str()) {
                None => Err(
                    DfError::UnsupportedFormat {
                        extension: self.extension.clone(),
                        path: self.path.clone(),
                    },
                ),
                Some(format) => match format.to_writer() {
                    Some(writer) => Ok(writer),
                    None => Err(DfError::UnsupportedWriteMode { path: self.path.clone() }),
                },
            },
        }
    }
}

/// Starts a write to `path`, whose extension the caller has resolved.
pub fn begin_write_with(extension: Option<&str>, path: &str) -> (started: Result<PendingWrite, DfError>)
    ensures
        start_view(started) == write_start(extension.deep_view(), path@),
{
    match extension {
        None => Err(DfError::MissingExtension { path: path.to_owned() }),
        Some(ext) => Ok(PendingWrite { path: path.to_owned(), extension: ext.to_owned() }),
    }
}

/// Starts a write to `path`.
///
/// On `Ok` the caller opens the target in the pending write's mode, before
/// the format is looked at, and hands the result to `select_writer`. A path
/// without a dot has no extension, whatever its components.
pub fn begin_write(path: &str) -> (started: Result<PendingWrite, DfError>)
    ensures
        start_view(started) == write_start(extension_of(path@), path@),
        !path@.contains('.') ==> start_view(started) == Err::<
            (Seq<char>, Seq<char>),
            DfErrorView,
        >(DfErrorView::MissingExtension { path: path@ }),
{
    match resolve_extension(path) {
        Some(ext) => begin_write_with(Some(ext.as_str()), path),
        None => begin_write_with(None, path),
    }
}

} // verus!
