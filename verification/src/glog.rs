//! The logger: it drops what is not severe enough, renders each record once, and says which
//! sinks are to receive the line.

use crate::files::{file_header, file_levels, file_levels_spec, header_text, log_file_name,
    log_file_name_text, path_in, path_in_directory, LogFile, ProcessIdentity};
use crate::flags::Flags;
use crate::line::{assemble_line, line_text, place, place_text};
use crate::record::{option_text, record_to_file_name, LogRecord};
use crate::severity::Severity;
use crate::text::decimal_text;
use crate::system::{get_tid, system_host_name, system_user_name};
use crate::timestamp::{local_now, ClockReading, Timestamp};
use vstd::prelude::*;

verus! {

/// The colour of a console line.
#[derive(Clone, Copy, Debug, PartialEq, Eq, Structural)]
pub enum ConsoleColor {
    Red,
    Yellow,
}

/// How a line is written to the console.
#[derive(Clone, Copy, Debug, PartialEq, Eq, Structural)]
pub struct ConsoleWrite {
    /// Set the colour before the line and reset it after.
    pub colorize: bool,
    /// The foreground colour to set; `None` is the terminal's own.
    pub color: Option<ConsoleColor>,
    /// Follow the line with a backtrace.
    pub backtrace: bool,
}

/// What is to be done with one record that is severe enough: the rendered
/// line, and the sinks that receive it.
#[derive(Clone, Debug)]
pub struct Dispatch {
    /// The line, without the newline that ends it.
    pub line: String,
    /// How to write the line to the console, if it goes there.
    pub console: Option<ConsoleWrite>,
    /// The severity whose file receives the line, if it goes to a file.
    pub file: Option<Severity>,
}

/// What is left to do once the logger holds its options.
#[derive(Clone, Copy, Debug, PartialEq, Eq, Structural)]
pub struct Startup {
    /// Create the log files before the first record.
    pub open_files: bool,
    /// No record less urgent than this needs to be handed to the logger.
    pub max_level: Severity,
}

/// Why a record could not be rendered.
#[derive(Clone, Copy, Debug, PartialEq, Eq, Structural)]
pub enum LogError {
    /// The wall clock shows a time that has no four-digit year or is no
    /// time of the calendar.
    ClockOutOfRange,
}

/// The logger.
#[derive(Clone, Debug)]
pub struct Glog {
    compatible_verbosity: bool,
    compatible_date: bool,
    flags: Flags,
    application_fingerprint: Option<String>,
    start_seconds: i64,
    start_microsecond: u32,
    active: bool,
}

/// What a logger is, as its rules see it.
pub struct GlogModel {
    /// Only four severities are shown and routed: `Trace` and `Debug`
    /// count as `Info`.
    pub four_severities: bool,
    /// Lines start their time stamp with the year.
    pub with_year: bool,
    /// The options the logger was initialised with.
    pub flags: Flags,
    /// The application fingerprint, if one was attached.
    pub fingerprint: Option<Seq<char>>,
    /// When the logger was made, in seconds since the Unix epoch.
    pub start_seconds: int,
    /// The microseconds past that second at which the logger was made.
    pub start_microsecond: int,
    /// The logger was initialised.
    pub active: bool,
}

/// The colour of a console line of one severity.
pub open spec fn color_of(level: Severity) -> Option<ConsoleColor> {
    match level {
        Severity::Error => Some(ConsoleColor::Red),
        Severity::Warn => Some(ConsoleColor::Yellow),
        _ => None,
    }
}

/// The line number of a record, 0 where it has none.
pub open spec fn line_of(record: LogRecord) -> nat {
    match record.line {
        Some(n) => n as nat,
        None => 0,
    }
}

/// The whole seconds that have passed from a start to a later moment,
/// each given as seconds and the microseconds past that second: the
/// difference of the seconds, less one where the later moment has fewer
/// microseconds. None where the later second is not after the start's.
pub open spec fn elapsed_spec(
    start_seconds: int,
    start_microsecond: int,
    now_seconds: int,
    now_microsecond: int,
) -> nat {
    if now_seconds > start_seconds {
        if now_microsecond < start_microsecond {
            (now_seconds - start_seconds - 1) as nat
        } else {
            (now_seconds - start_seconds) as nat
        }
    } else {
        0
    }
}

impl GlogModel {
    /// A logger as it is made: four severities, no year in the time
    /// stamp, the default options, no fingerprint, not yet active.
    pub open spec fn is_fresh(self) -> bool {
        &&& self.four_severities
        &&& !self.with_year
        &&& self.flags.is_default()
        &&& self.fingerprint is None
        &&& !self.active
    }

    /// A record of this severity is severe enough to be logged.
    pub open spec fn enabled(self, level: Severity) -> bool {
        level.at_least(self.flags.minloglevel)
    }

    /// The severity that decides the letter and the file of a record.
    pub open spec fn effective(self, level: Severity) -> Severity {
        level.effective_spec(self.four_severities)
    }

    /// The rendered line of a record.
    pub open spec fn line(self, record: LogRecord, now: Timestamp, thread_id: u64) -> Seq<char> {
        line_text(
            self.effective(record.level).letter_text(),
            now.line_stamp_text(self.with_year),
            thread_id as nat,
            record.basename(),
            line_of(record),
            record.message@,
        )
    }

    /// The record is the one that the backtrace trigger names.
    pub open spec fn triggers_backtrace(self, record: LogRecord) -> bool {
        self.flags.trigger_text() == Some(place_text(record.basename(), line_of(record)))
    }

    /// How the line of a record is written to the console.
    pub open spec fn console_write(self, record: LogRecord) -> ConsoleWrite {
        ConsoleWrite {
            colorize: self.flags.colorlogtostderr,
            color: color_of(record.level),
            backtrace: self.triggers_backtrace(record),
        }
    }

    /// The console's part in the dispatch of a record.
    pub open spec fn console_target(self, record: LogRecord) -> Option<ConsoleWrite> {
        if self.flags.console_enabled() {
            Some(self.console_write(record))
        } else {
            None
        }
    }

    /// The file that receives a record.
    pub open spec fn file_target(self, record: LogRecord) -> Option<Severity> {
        if self.flags.files_enabled() {
            Some(self.effective(record.level))
        } else {
            None
        }
    }

    /// `dispatch` is what is to be done with a record that is severe enough.
    pub open spec fn is_dispatch_of(
        self,
        record: LogRecord,
        now: Timestamp,
        thread_id: u64,
        dispatch: Dispatch,
    ) -> bool {
        &&& dispatch.line@ == self.line(record, now, thread_id)
        &&& dispatch.console == self.console_target(record)
        &&& dispatch.file == self.file_target(record)
    }

    /// `outcome` is what logging a record gives when the clock shows
    /// `reading`: nothing for a record below the minimum severity, an
    /// error where the time cannot be rendered, the dispatch otherwise.
    pub open spec fn is_outcome_of(
        self,
        record: LogRecord,
        reading: ClockReading,
        thread_id: u64,
        outcome: Result<Option<Dispatch>, LogError>,
    ) -> bool {
        if !self.enabled(record.level) {
            outcome == Ok::<Option<Dispatch>, LogError>(None)
        } else if !reading.civil.wf() {
            outcome == Err::<Option<Dispatch>, LogError>(LogError::ClockOutOfRange)
        } else {
            outcome matches Ok(Some(d)) && self.is_dispatch_of(
                record,
                reading.civil,
                thread_id,
                d,
            )
        }
    }

    /// `outcome` is what rendering a record gives when the clock shows
    /// `reading`: the line, or an error where the time cannot be rendered.
    pub open spec fn is_message_of(
        self,
        record: LogRecord,
        reading: ClockReading,
        thread_id: u64,
        outcome: Result<String, LogError>,
    ) -> bool {
        if reading.civil.wf() {
            outcome matches Ok(text) && text@ == self.line(record, reading.civil, thread_id)
        } else {
            outcome == Err::<String, LogError>(LogError::ClockOutOfRange)
        }
    }

    /// `outcome` is what planning the log files gives when the clock shows
    /// `reading`: the files, or an error where the time cannot be rendered.
    pub open spec fn is_file_plan_of(
        self,
        who: ProcessIdentity,
        reading: ClockReading,
        outcome: Result<Vec<LogFile>, LogError>,
    ) -> bool {
        if reading.civil.wf() {
            outcome matches Ok(files) && self.are_log_files_of(who, reading, files@)
        } else {
            outcome == Err::<Vec<LogFile>, LogError>(LogError::ClockOutOfRange)
        }
    }

    /// The severities whose files are open.
    pub open spec fn open_files(self) -> Seq<Severity> {
        if self.active && self.flags.files_enabled() {
            file_levels_spec(self.four_severities)
        } else {
            Seq::<Severity>::empty()
        }
    }

    /// The header of a log file created at `now`.
    pub open spec fn header(self, host: Option<Seq<char>>, now: ClockReading) -> Seq<char> {
        header_text(
            now.civil,
            host,
            self.fingerprint,
            elapsed_spec(
                self.start_seconds,
                self.start_microsecond,
                now.unix_seconds as int,
                now.civil.microsecond as int,
            ),
            self.four_severities,
            self.with_year,
        )
    }

    /// The path of the log file of one severity: the file's name, in the
    /// directory that the options give.
    pub open spec fn log_file_path(
        self,
        who: ProcessIdentity,
        level: Severity,
        created: Timestamp,
    ) -> Seq<char> {
        path_in_directory(
            self.flags.log_dir@,
            log_file_name_text(
                option_text(who.executable),
                option_text(who.host),
                option_text(who.user),
                level,
                created,
                who.pid as nat,
            ),
        )
    }

    /// `file` is the log file of `level`, created at `now`.
    pub open spec fn is_log_file_of(
        self,
        who: ProcessIdentity,
        now: ClockReading,
        level: Severity,
        file: LogFile,
    ) -> bool {
        &&& file.level == level
        &&& file.path@ == self.log_file_path(who, level, now.civil)
        &&& file.header@ == self.header(option_text(who.host), now)
    }

    /// `files` are the log files to create at `now`, one for each
    /// severity that has a file, in their order.
    pub open spec fn are_log_files_of(
        self,
        who: ProcessIdentity,
        now: ClockReading,
        files: Seq<LogFile>,
    ) -> bool {
        &&& files.len() == file_levels_spec(self.four_severities).len()
        &&& forall|i: int|
            0 <= i < files.len() ==> self.is_log_file_of(
                who,
                now,
                file_levels_spec(self.four_severities)[i],
                #[trigger] files[i],
            )
    }
}

impl View for Glog {
    type V = GlogModel;

    closed spec fn view(&self) -> GlogModel {
        GlogModel {
            four_severities: self.compatible_verbosity,
            with_year: !self.compatible_date,
            flags: self.flags,
            fingerprint: option_text(self.application_fingerprint),
            start_seconds: self.start_seconds as int,
            start_microsecond: self.start_microsecond as int,
            active: self.active,
        }
    }
}

impl Glog {
    /// A logger made now; its run time counts from what the wall clock
    /// shows.
    pub fn new() -> (r: Glog)
        ensures
            r@.is_fresh(),
    {
        let shown = local_now();
        Glog::started_at(shown.unix_seconds, shown.civil.microsecond)
    }

    /// A logger made at a given time: the seconds since the Unix epoch,
    /// and the microseconds past that second.
    pub fn started_at(unix_seconds: i64, microsecond: u32) -> (r: Glog)
        ensures
            r@.is_fresh(),
            r@.start_seconds == unix_seconds,
            r@.start_microsecond == microsecond,
    {
        Glog {
            compatible_verbosity: true,
            compatible_date: true,
            flags: Flags::default(),
            application_fingerprint: None,
            start_seconds: unix_seconds,
            start_microsecond: microsecond,
            active: false,
        }
    }

    /// Takes the options and makes the logger active. What is returned is
    /// left to the caller: whether log files are to be created, and the
    /// least urgent severity that records need to have.
    pub fn init(&mut self, flags: Flags) -> (startup: Startup)
        ensures
            final(self)@ == (GlogModel { flags: flags, active: true, ..old(self)@ }),
            startup.open_files == flags.files_enabled(),
            startup.max_level == flags.minloglevel,
    {
        let startup = Startup { open_files: !flags.logtostderr, max_level: flags.minloglevel };
        self.flags = flags;
        self.active = true;
        startup
    }

    /// Whether lines start their time stamp with the year.
    pub fn with_year(self, with_year: bool) -> (r: Glog)
        ensures
            r@ == (GlogModel { with_year: with_year, ..self@ }),
    {
        let mut r = self;
        r.compatible_date = !with_year;
        r
    }

    /// Whether only four severities are shown and routed.
    pub fn limited_abbreviations(self, limit_abbreviations: bool) -> (r: Glog)
        ensures
            r@ == (GlogModel { four_severities: limit_abbreviations, ..self@ }),
    {
        let mut r = self;
        r.compatible_verbosity = limit_abbreviations;
        r
    }

    /// Attaches the fingerprint that file headers show.
    pub fn set_application_fingerprint(self, fingerprint: &str) -> (r: Glog)
        ensures
            r@ == (GlogModel { fingerprint: Some(fingerprint@), ..self@ }),
    {
        let mut r = self;
        r.application_fingerprint = Some(fingerprint.to_owned());
        r
    }

    /// The severity that decides the letter and the file of a record.
    pub fn match_level(&self, level: &Severity) -> (r: Severity)
        ensures
            r == self@.effective(*level),
    {
        level.effective(self.compatible_verbosity)
    }

    /// Whether a record of this severity is severe enough to be logged.
    pub fn enabled(&self, level: Severity) -> (r: bool)
        ensures
            r == self@.enabled(level),
    {
        level.is_at_least(self.flags.minloglevel)
    }

    /// Whether the record at `file_name:line` is the one that the
    /// backtrace trigger names.
    pub fn should_log_backtrace(&self, file_name: &str, line: u32) -> (r: bool)
        ensures
            r == (self@.flags.trigger_text() == Some(place_text(file_name@, line as nat))),
    {
        match &self.flags.log_backtrace_at {
            Some(trigger) => {
                let here = place(file_name, line);
                here == *trigger
            },
            None => false,
        }
    }

    /// Renders a record as it is logged at `now` by the thread
    /// `thread_id`.
    pub fn render(&self, record: &LogRecord, now: &Timestamp, thread_id: u64) -> (r: String)
        requires
            now.wf(),
            record.line is Some,
        ensures
            r@ == self@.line(*record, *now, thread_id),
    {
        let level = self.match_level(&record.level);
        let stamp = now.line_stamp(!self.compatible_date);
        let basename = record_to_file_name(record);
        let line = match record.line {
            Some(n) => n,
            None => 0,
        };
        assemble_line(
            level.letter(),
            stamp.as_str(),
            thread_id,
            basename.as_str(),
            line,
            record.message.as_str(),
        )
    }

    /// Renders a record as it is logged when the clock shows `reading`, by
    /// the thread `thread_id`.
    ///
    /// The result is an error where the clock shows a time that cannot be
    /// rendered.
    pub fn build_log_message_at(
        &self,
        record: &LogRecord,
        reading: &ClockReading,
        thread_id: u64,
    ) -> (r: Result<String, LogError>)
        requires
            record.line is Some,
        ensures
            self@.is_message_of(*record, *reading, thread_id, r),
    {
        if reading.civil.is_valid() {
            Ok(self.render(record, &reading.civil, thread_id))
        } else {
            Err(LogError::ClockOutOfRange)
        }
    }

    /// Renders a record as the calling thread logs it now: what
    /// `build_log_message_at` gives for the time that the wall clock shows
    /// and the id of the calling thread.
    pub fn build_log_message(&self, record: &LogRecord) -> (r: Result<String, LogError>)
        requires
            record.line is Some,
        ensures
            exists|reading: ClockReading, thread_id: u64| #[trigger]
                self@.is_message_of(*record, reading, thread_id, r),
    {
        let reading = local_now();
        let thread_id = get_tid();
        let r = self.build_log_message_at(record, &reading, thread_id);
        assert(self@.is_message_of(*record, reading, thread_id, r));
        r
    }

    /// How the line of a record is written to the console.
    pub fn console_write(&self, record: &LogRecord) -> (r: ConsoleWrite)
        ensures
            r == self@.console_write(*record),
    {
        let color = match record.level {
            Severity::Error => Some(ConsoleColor::Red),
            Severity::Warn => Some(ConsoleColor::Yellow),
            _ => None,
        };
        let basename = record_to_file_name(record);
        let line = match record.line {
            Some(n) => n,
            None => 0,
        };
        ConsoleWrite {
            colorize: self.flags.colorlogtostderr,
            color,
            backtrace: self.should_log_backtrace(basename.as_str(), line),
        }
    }

    /// The severity whose file receives a record.
    pub fn file_target(&self, record: &LogRecord) -> (r: Severity)
        ensures
            r == self@.effective(record.level),
            self@.active && self@.flags.files_enabled() ==> self@.open_files().contains(r),
    {
        proof {
            crate::files::routing_stays_within_files(record.level, self@.four_severities);
        }
        self.match_level(&record.level)
    }

    /// What is to be done with a record that is logged at `now` by the
    /// thread `thread_id`: nothing where the record is below the minimum
    /// severity; otherwise the line, rendered once, with the sinks that
    /// receive it.
    pub fn dispatch(&self, record: &LogRecord, now: &Timestamp, thread_id: u64) -> (r: Option<
        Dispatch,
    >)
        requires
            now.wf(),
            self@.enabled(record.level) ==> record.line is Some,
        ensures
            r is Some <==> self@.enabled(record.level),
            r matches Some(d) ==> self@.is_dispatch_of(*record, *now, thread_id, d),
    {
        if !self.enabled(record.level) {
            return None;
        }
        let line = self.render(record, now, thread_id);
        let console = if self.flags.logtostderr || self.flags.alsologtostderr {
            Some(self.console_write(record))
        } else {
            None
        };
        let file = if !self.flags.logtostderr {
            Some(self.file_target(record))
        } else {
            None
        };
        Some(Dispatch { line, console, file })
    }

    /// What is to be done with a record that is logged when the clock
    /// shows `reading`, by the thread `thread_id`.
    ///
    /// A record below the minimum severity is dropped, whatever the clock
    /// shows. For any other record the result is an error where the clock
    /// shows a time that cannot be rendered.
    pub fn log_at(&self, record: &LogRecord, reading: &ClockReading, thread_id: u64) -> (r: Result<
        Option<Dispatch>,
        LogError,
    >)
        requires
            self@.enabled(record.level) ==> record.line is Some,
        ensures
            self@.is_outcome_of(*record, *reading, thread_id, r),
    {
        if !self.enabled(record.level) {
            return Ok(None);
        }
        if !reading.civil.is_valid() {
            return Err(LogError::ClockOutOfRange);
        }
        Ok(self.dispatch(record, &reading.civil, thread_id))
    }

    /// What is to be done with a record that the calling thread logs now.
    ///
    /// A record below the minimum severity is dropped. For any other
    /// record the result is what `log_at` gives for the time that the wall
    /// clock shows and the id of the calling thread.
    pub fn log(&self, record: &LogRecord) -> (r: Result<Option<Dispatch>, LogError>)
        requires
            self@.enabled(record.level) ==> record.line is Some,
        ensures
            !self@.enabled(record.level) ==> r == Ok::<Option<Dispatch>, LogError>(None),
            exists|reading: ClockReading, thread_id: u64| #[trigger]
                self@.is_outcome_of(*record, reading, thread_id, r),
    {
        let reading = local_now();
        let thread_id = get_tid();
        let r = self.log_at(record, &reading, thread_id);
        assert(self@.is_outcome_of(*record, reading, thread_id, r));
        r
    }

    /// The severities whose files are to be flushed, after the console.
    pub fn open_files(&self) -> (r: Vec<Severity>)
        ensures
            r@ == self@.open_files(),
    {
        if self.active && !self.flags.logtostderr {
            file_levels(self.compatible_verbosity)
        } else {
            Vec::new()
        }
    }

    /// The whole seconds the logger has been running when the clock shows
    /// `now`; none where the clock went back.
    pub fn elapsed_seconds(&self, now: &ClockReading) -> (r: u64)
        ensures
            r as nat == elapsed_spec(
                self@.start_seconds,
                self@.start_microsecond,
                now.unix_seconds as int,
                now.civil.microsecond as int,
            ),
    {
        if now.unix_seconds > self.start_seconds {
            let span: i128 = now.unix_seconds as i128 - self.start_seconds as i128;
            if now.civil.microsecond < self.start_microsecond {
                (span - 1) as u64
            } else {
                span as u64
            }
        } else {
            0
        }
    }

    /// The header of a log file created at `now` on the machine `host`.
    pub fn file_header(&self, host: &Option<String>, now: &ClockReading) -> (r: String)
        requires
            now.civil.wf(),
        ensures
            r@ == self@.header(option_text(*host), *now),
    {
        file_header(
            &now.civil,
            host,
            &self.application_fingerprint,
            self.elapsed_seconds(now),
            self.compatible_verbosity,
            !self.compatible_date,
        )
    }

    /// The log files to create at `now`: one for each severity that has a
    /// file, each with its path and its header.
    pub fn log_files(&self, who: &ProcessIdentity, now: &ClockReading) -> (r: Vec<LogFile>)
        requires
            now.civil.wf(),
        ensures
            self@.are_log_files_of(*who, *now, r@),
    {
        let levels = file_levels(self.compatible_verbosity);
        let mut files: Vec<LogFile> = Vec::new();
        let mut i: usize = 0;
        while i < levels.len()
            invariant
                i <= levels.len(),
                now.civil.wf(),
                levels@ == file_levels_spec(self@.four_severities),
                files.len() == i,
                forall|j: int|
                    0 <= j < i ==> self@.is_log_file_of(
                        *who,
                        *now,
                        levels@[j],
                        #[trigger] files@[j],
                    ),
            decreases levels.len() - i,
        {
            let level = levels[i];
            let name = log_file_name(who, level, &now.civil);
            let path = path_in(self.flags.log_dir.as_str(), name.as_str());
            let header = self.file_header(&who.host, now);
            files.push(LogFile { level, path, header });
            i = i + 1;
        }
        files
    }

    /// The log files to create when the clock shows `reading`.
    ///
    /// The result is an error where the clock shows a time that cannot be
    /// rendered.
    pub fn log_files_at(&self, who: &ProcessIdentity, reading: &ClockReading) -> (r: Result<
        Vec<LogFile>,
        LogError,
    >)
        ensures
            self@.is_file_plan_of(*who, *reading, r),
    {
        if reading.civil.is_valid() {
            Ok(self.log_files(who, reading))
        } else {
            Err(LogError::ClockOutOfRange)
        }
    }

    /// The log files to create now for the program `executable` running
    /// as process `pid`: what `log_files_at` gives for the names
    /// that this machine and this user have, and the time that the wall
    /// clock shows.
    pub fn log_files_now(&self, executable: Option<String>, pid: u32) -> (r: Result<
        Vec<LogFile>,
        LogError,
    >)
        ensures
            exists|who: ProcessIdentity, reading: ClockReading|
                who.executable == executable && who.pid == pid && #[trigger] self@.is_file_plan_of(
                    who,
                    reading,
                    r,
                ),
    {
        let who = ProcessIdentity {
            executable,
            host: system_host_name(),
            user: system_user_name(),
            pid,
        };
        let reading = local_now();
        let r = self.log_files_at(&who, &reading);
        assert(self@.is_file_plan_of(who, reading, r));
        r
    }
}

/// A record below the minimum severity reaches no sink: whatever the
/// clock shows, the outcome of logging it is that nothing is written.
pub proof fn dropped_records_reach_no_sink(
    model: GlogModel,
    record: LogRecord,
    reading: ClockReading,
    thread_id: u64,
    outcome: Result<Option<Dispatch>, LogError>,
)
    requires
        !record.level.at_least(model.flags.minloglevel),
        model.is_outcome_of(record, reading, thread_id, outcome),
    ensures
        outcome == Ok::<Option<Dispatch>, LogError>(None),
{
}

/// A record at or above the minimum severity is rendered once; the one
/// line goes to the console exactly where console output is on, and to a
/// file exactly where file output is on, so that both sinks hold the
/// same text. At least one of the two is on.
pub proof fn enabled_sinks_share_one_line(
    model: GlogModel,
    record: LogRecord,
    reading: ClockReading,
    thread_id: u64,
    outcome: Result<Option<Dispatch>, LogError>,
)
    requires
        record.level.at_least(model.flags.minloglevel),
        reading.civil.wf(),
        model.is_outcome_of(record, reading, thread_id, outcome),
    ensures
        outcome matches Ok(Some(d)) && {
            &&& d.line@ == model.line(record, reading.civil, thread_id)
            &&& d.console is Some <==> model.flags.console_enabled()
            &&& d.file is Some <==> model.flags.files_enabled()
            &&& d.console is Some || d.file is Some
        },
{
}

/// With four severities in use, a record at `Trace` or `Debug` is rendered
/// with the letter `I` and goes to the file of `Info`, never to a file of
/// its own. With five in use it is rendered with its own letter and goes
/// to its own file.
pub proof fn trace_and_debug_follow_the_severities_in_use(
    model: GlogModel,
    record: LogRecord,
    now: Timestamp,
    thread_id: u64,
)
    requires
        record.level == Severity::Trace || record.level == Severity::Debug,
    ensures
        model.four_severities ==> model.line(record, now, thread_id)[0] == 'I',
        model.four_severities && model.flags.files_enabled() ==> model.file_target(record) == Some(
            Severity::Info,
        ),
        model.four_severities ==> !file_levels_spec(true).contains(record.level),
        !model.four_severities && record.level == Severity::Trace ==> model.line(
            record,
            now,
            thread_id,
        )[0] == 'T',
        !model.four_severities && record.level == Severity::Debug ==> model.line(
            record,
            now,
            thread_id,
        )[0] == 'D',
        !model.four_severities && model.flags.files_enabled() ==> model.file_target(record) == Some(
            record.level,
        ),
        !model.four_severities ==> file_levels_spec(false).contains(record.level),
{
    crate::files::routing_stays_within_files(record.level, model.four_severities);
}

/// Once the logger is active, the file that a record goes to is one of
/// the files that are open.
pub proof fn file_target_is_open(model: GlogModel, record: LogRecord)
    requires
        model.active,
    ensures
        model.file_target(record) matches Some(level) ==> model.open_files().contains(level),
{
    crate::files::routing_stays_within_files(record.level, model.four_severities);
}

/// Every record starts with the letter of its effective severity.
pub proof fn line_starts_with_the_effective_letter(
    model: GlogModel,
    record: LogRecord,
    now: Timestamp,
    thread_id: u64,
)
    ensures
        model.line(record, now, thread_id).len() > 0,
        model.line(record, now, thread_id)[0] == model.effective(record.level).name_text()[0],
{
}

/// Rendering is a function of the logger, the record, the clock reading
/// and the thread: two renderings of the same record at the same reading
/// by the same thread end alike, both in the same text or both in the
/// same error.
pub proof fn rendering_is_repeatable(
    model: GlogModel,
    record: LogRecord,
    reading: ClockReading,
    thread_id: u64,
    first: Result<String, LogError>,
    second: Result<String, LogError>,
)
    requires
        model.is_message_of(record, reading, thread_id, first),
        model.is_message_of(record, reading, thread_id, second),
    ensures
        match (first, second) {
            (Ok(a), Ok(b)) => a@ == b@,
            (Err(a), Err(b)) => a == b,
            _ => false,
        },
{
}

/// Logging is repeatable in the same way: two outcomes for the same
/// record at the same reading by the same thread are both nothing, both
/// the same error, or both a dispatch of the same line to the same sinks.
pub proof fn logging_is_repeatable(
    model: GlogModel,
    record: LogRecord,
    reading: ClockReading,
    thread_id: u64,
    first: Result<Option<Dispatch>, LogError>,
    second: Result<Option<Dispatch>, LogError>,
)
    requires
        model.is_outcome_of(record, reading, thread_id, first),
        model.is_outcome_of(record, reading, thread_id, second),
    ensures
        match (first, second) {
            (Ok(Some(a)), Ok(Some(b))) => a.line@ == b.line@ && a.console == b.console && a.file
                == b.file,
            (Ok(None), Ok(None)) => true,
            (Err(a), Err(b)) => a == b,
            _ => false,
        },
{
}

/// A console line is followed by a backtrace exactly where a trigger is
/// set and is, character for character, the record's `basename:line`.
/// A record that does not go to the console has none.
pub proof fn backtrace_only_at_the_trigger(model: GlogModel, record: LogRecord)
    ensures
        model.console_write(record).backtrace <==> (model.flags.log_backtrace_at matches Some(t)
            && t@ == record.basename() + seq![':'] + decimal_text(line_of(record))),
        model.flags.log_backtrace_at is None ==> !model.console_write(record).backtrace,
        model.console_target(record) matches Some(w) ==> w.backtrace == model.triggers_backtrace(
            record,
        ),
{
}

impl Default for Glog {
    fn default() -> (r: Glog)
        ensures
            r@.is_fresh(),
    {
        Glog::new()
    }
}

/// A logger made now, with the default options.
pub fn new() -> (r: Glog)
    ensures
        r@.is_fresh(),
{
    Glog::new()
}

} // verus!
