//! The record a caller hands to the logger.

use crate::severity::Severity;
use vstd::prelude::*;

verus! {

/// One event to log: its severity, where in the source it was raised, and
/// the message.
#[derive(Clone, Debug)]
pub struct LogRecord {
    pub level: Severity,
    pub file: Option<String>,
    pub line: Option<u32>,
    pub message: String,
}

/// The final component of a path, as `std::path::Path::file_name` finds it
/// by the path rules of the platform; `None` where the path has none.
pub uninterp spec fn file_name_of(path: Seq<char>) -> Option<Seq<char>>;

/// The text held by an optional string.
pub open spec fn option_text(value: Option<String>) -> Option<Seq<char>> {
    match value {
        Some(s) => Some(s@),
        None => None,
    }
}

/// The name of a source file without its directories; empty where the
/// path is absent or names no file.
pub open spec fn basename_text(file: Option<Seq<char>>) -> Seq<char> {
    match file {
        Some(path) => match file_name_of(path) {
            Some(name) => name,
            None => Seq::<char>::empty(),
        },
        None => Seq::<char>::empty(),
    }
}

impl LogRecord {
    /// The path of the source file, if the record has one.
    pub open spec fn file_text(&self) -> Option<Seq<char>> {
        option_text(self.file)
    }

    /// The name of the source file without its directories.
    pub open spec fn basename(&self) -> Seq<char> {
        basename_text(self.file_text())
    }
}

/// The name that stands for an optional final path component.
pub fn name_or_empty(name: Option<String>) -> (r: String)
    ensures
        r@ == (match option_text(name) {
            Some(n) => n,
            None => Seq::<char>::empty(),
        }),
{
    match name {
        Some(n) => n,
        None => String::new(),
    }
}

/// The name of a record's source file without its directories; empty
/// where the record names no file.
pub fn record_to_file_name(record: &LogRecord) -> (r: String)
    ensures
        r@ == record.basename(),
{
    match &record.file {
        Some(path) => name_or_empty(path_file_name(path.as_str())),
        None => String::new(),
    }
}

/// `std::path::Path::file_name`, on the path made by `Path::new`, with the
/// name turned back into a string.
///
/// Trusted: the result is the final component that the standard library
/// finds in the path; it depends on the path alone.
#[verifier::external_body]
pub(crate) fn path_file_name(path: &str) -> (name: Option<String>)
    ensures
        option_text(name) == file_name_of(path@),
{
    let name = std::path::Path::new(path).file_name()?;
    Some(name.to_str()?.to_owned())
}

} // verus!
