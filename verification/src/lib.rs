//! Extension-driven dispatch for tabular data files.
//!
//! Given a file path, this library decides which codec reads or writes the
//! table, how the file is to be opened, and which error a failed step comes
//! to. It performs no I/O itself: the caller opens files and runs codecs, and
//! reports back how each step went.

pub mod access;
pub mod error;
pub mod extension;
pub mod format;
pub mod laws;
pub mod read;
pub mod text;
pub mod write;

pub use access::OpenMode;
pub use error::{conclude, DfError, Fault};
pub use extension::{extension_of_name, resolve_extension};
pub use format::{Format, JsonLayout, Reader, Writer};
pub use read::{reader_for, select_reader};
pub use text::str_eq;
pub use write::{begin_write, begin_write_with, PendingWrite};
