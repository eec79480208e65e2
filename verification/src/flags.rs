//! The configuration a logger is initialised with.

use crate::severity::Severity;
use vstd::prelude::*;

verus! {

/// The options that decide what is logged and where.
#[derive(Clone, Debug)]
pub struct Flags {
    /// The least urgent severity that is still logged.
    pub minloglevel: Severity,
    /// Write to the console only, and open no files.
    pub logtostderr: bool,
    /// Write to the console as well as to the files.
    pub alsologtostderr: bool,
    /// Colour console lines by severity.
    pub colorlogtostderr: bool,
    /// The directory log files are created in, with or without a `/` at
    /// its end; empty for the current directory.
    pub log_dir: String,
    /// `file:line` of the record that is followed by a backtrace.
    pub log_backtrace_at: Option<String>,
}

impl Flags {
    /// A record goes to the console.
    pub open spec fn console_enabled(&self) -> bool {
        self.logtostderr || self.alsologtostderr
    }

    /// A record goes to a file.
    pub open spec fn files_enabled(&self) -> bool {
        !self.logtostderr
    }

    /// The options of a logger that was given none: records from `Info` up
    /// go to files in the current directory, in plain text, and none is
    /// followed by a backtrace.
    pub open spec fn is_default(&self) -> bool {
        &&& self.minloglevel == Severity::Info
        &&& !self.logtostderr
        &&& !self.alsologtostderr
        &&& !self.colorlogtostderr
        &&& self.log_dir@ == Seq::<char>::empty()
        &&& self.log_backtrace_at is None
    }

    /// The text of the backtrace trigger, if one is set.
    pub open spec fn trigger_text(&self) -> Option<Seq<char>> {
        match self.log_backtrace_at {
            Some(t) => Some(t@),
            None => None,
        }
    }
}

impl Default for Flags {
    fn default() -> (r: Flags)
        ensures
            r.is_default(),
    {
        Flags {
            minloglevel: Severity::Info,
            logtostderr: false,
            alsologtostderr: false,
            colorlogtostderr: false,
            log_dir: String::new(),
            log_backtrace_at: None,
        }
    }
}

} // verus!
