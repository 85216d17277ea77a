//! The failures of a read or a write, and what the caller reports of its
//! own steps.

use vstd::prelude::*;
use vstd::string::*;

verus! {

/// Why a read or a write failed. Every failure names the path it is about.
#[derive(Debug, PartialEq, Eq)]
pub enum DfError {
    /// The path has no extension.
    MissingExtension { path: String },
    /// The extension selects no format.
    UnsupportedFormat { extension: String, path: String },
    /// The extension selects a format that can be read but not written.
    UnsupportedWriteMode { path: String },
    /// The file system refused the file.
    IoFailure { path: String, cause: String },
    /// The codec could not parse or serialize the table.
    CodecFailure { path: String, cause: String },
}

/// A failure as contracts see it: the same cases over sequences of
/// characters.
pub enum DfErrorView {
    MissingExtension { path: Seq<char> },
    UnsupportedFormat { extension: Seq<char>, path: Seq<char> },
    UnsupportedWriteMode { path: Seq<char> },
    IoFailure { path: Seq<char>, cause: Seq<char> },
    CodecFailure { path: Seq<char>, cause: Seq<char> },
}

/// How a step that the caller performed went wrong.
#[derive(Debug, PartialEq, Eq)]
pub enum Fault {
    /// The file system failed; the text says how.
    Io(String),
    /// The codec failed; the text says how.
    Codec(String),
}

/// A fault as contracts see it.
pub enum FaultView {
    Io(Seq<char>),
    Codec(Seq<char>),
}

impl View for DfError {
    type V = DfErrorView;

    open spec fn view(&self) -> DfErrorView {
        match *self {
            DfError::MissingExtension { path } => DfErrorView::MissingExtension { path: path@ },
            DfError::UnsupportedFormat { extension, path } => DfErrorView::UnsupportedFormat {
                extension: extension@,
                path: path@,
            },
            DfError::UnsupportedWriteMode { path } => DfErrorView::UnsupportedWriteMode {
                path: path@,
            },
            DfError::IoFailure { path, cause } => DfErrorView::IoFailure {
                path: path@,
                cause: cause@,
            },
            DfError::CodecFailure { path, cause } => DfErrorView::CodecFailure {
                path: path@,
                cause: cause@,
            },
        }
    }
}

impl View for Fault {
    type V = FaultView;

    open spec fn view(&self) -> FaultView {
        match *self {
            Fault::Io(cause) => FaultView::Io(cause@),
            Fault::Codec(cause) => FaultView::Codec(cause@),
        }
    }
}

/// A result as contracts see it: the value as it is, the failure by its view.
pub open spec fn outcome_view<T>(outcome: Result<T, DfError>) -> Result<T, DfErrorView> {
    match outcome {
        Ok(value) => Ok(value),
        Err(error) => Err(error@),
    }
}

/// What the caller reports of a step, as contracts see it.
pub open spec fn report_view(report: Result<(), Fault>) -> Result<(), FaultView> {
    match report {
        Ok(()) => Ok(()),
        Err(fault) => Err(fault@),
    }
}

impl DfErrorView {
    /// The path that the failure is about.
    pub open spec fn path(self) -> Seq<char> {
        match self {
            DfErrorView::MissingExtension { path } => path,
            DfErrorView::UnsupportedFormat { path, .. } => path,
            DfErrorView::UnsupportedWriteMode { path } => path,
            DfErrorView::IoFailure { path, .. } => path,
            DfErrorView::CodecFailure { path, .. } => path,
        }
    }

    /// The failure in words.
    pub open spec fn message(self) -> Seq<char> {
        match self {
            DfErrorView::MissingExtension { path } => "No extension at the name of the file `"@
                + path + "`"@,
            DfErrorView::UnsupportedFormat { extension, path } => "Unknown extension `"@
                + extension + "` at the name of the file `"@ + path + "`"@,
            DfErrorView::UnsupportedWriteMode { path } =>
                "No `JsonLineWriter` available to write `"@ + path + "`"@,
            DfErrorView::IoFailure { path, cause } => "I/O failure at the file `"@ + path
                + "`: "@ + cause,
            DfErrorView::CodecFailure { path, cause } => "Codec failure at the file `"@ + path
                + "`: "@ + cause,
        }
    }
}

impl DfError {
    /// The path that the failure is about.
    pub fn path(&self) -> (path: &str)
        ensures
            path@ == self@.path(),
    {
        match self {
            DfError::MissingExtension { path } => path.as_str(),
            DfError::UnsupportedFormat { path, .. } => path.as_str(),
            DfError::UnsupportedWriteMode { path } => path.as_str(),
            DfError::IoFailure { path, .. } => path.as_str(),
            DfError::CodecFailure { path, .. } => path.as_str(),
        }
    }

    /// The failure in words, for display.
    pub fn message(&self) -> (text: String)
        ensures
            text@ == self@.message(),
    {
        match self {
            DfError::MissingExtension { path } => {
                let mut text = String::from_str("No extension at the name of the file `");
                text.append(path.as_str());
                text.append("`");
                text
            },
            DfError::UnsupportedFormat { extension, path } => {
                let mut text = String::from_str("Unknown extension `");
                text.append(extension.as_str());
                text.append("` at the name of the file `");
                text.append(path.as_str());
                text.append("`");
                text
            },
            DfError::UnsupportedWriteMode { path } => {
                let mut text = String::from_str("No `JsonLineWriter` available to write `");
                text.append(path.as_str());
                text.append("`");
                text
            },
            DfError::IoFailure { path, cause } => {
                let mut text = String::from_str("I/O failure at the file `");
                text.append(path.as_str());
                text.append("`: ");
                text.append(cause.as_str());
                text
            },
            DfError::CodecFailure { path, cause } => {
                let mut text = String::from_str("Codec failure at the file `");
                text.append(path.as_str());
                text.append("`: ");
                text.append(cause.as_str());
                text
            },
        }
    }
}

/// What a performed step comes to: success stays success, an I/O fault
/// becomes an `IoFailure` and a codec fault a `CodecFailure`, each with the
/// path and the cause.
pub open spec fn conclusion(path: Seq<char>, report: Result<(), FaultView>) -> Result<
    (),
    DfErrorView,
> {
    match report {
        Ok(()) => Ok(()),
        Err(FaultView::Io(cause)) => Err(DfErrorView::IoFailure { path, cause }),
        Err(FaultView::Codec(cause)) => Err(DfErrorView::CodecFailure { path, cause }),
    }
}

/// Turns the caller's report of the step it performed on `path` into the
/// result of the whole operation. No fault is dropped or softened.
pub fn conclude(path: &str, report: Result<(), Fault>) -> (outcome: Result<(), DfError>)
    ensures
        outcome_view(outcome) == conclusion(path@, report_view(report)),
{
    match report {
        Ok(()) => Ok(()),
        Err(Fault::Io(cause)) => Err(DfError::IoFailure { path: path.to_owned(), cause }),
        Err(Fault::Codec(cause)) => Err(DfError::CodecFailure { path: path.to_owned(), cause }),
    }
}

} // verus!
