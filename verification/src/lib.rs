//! A logging backend that renders leveled records in the glog line
//! convention and decides, for each record, which sinks receive it.
//!
//! The crate holds the rules: severity policy, line and header text, file
//! names, and the dispatch of a record to console and file. Opening files,
//! writing to streams and registering the logger are left to the caller,
//! which performs what the values returned here describe.

pub mod files;
pub mod flags;
pub mod glog;
pub mod header;
pub mod line;
pub mod record;
pub mod severity;
pub mod system;
pub mod text;
pub mod timestamp;

pub use crate::files::{LogFile, ProcessIdentity};
pub use crate::flags::Flags;
pub use crate::glog::{new, ConsoleColor, ConsoleWrite, Dispatch, Glog, LogError, Startup};
pub use crate::record::LogRecord;
pub use crate::severity::Severity;
pub use crate::timestamp::{ClockReading, Timestamp};
