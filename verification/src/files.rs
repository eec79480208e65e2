//! Log files: which severities have one, what each is called, and the
//! header it starts with.

use crate::record::option_text;
use crate::severity::Severity;
use crate::text::{decimal_text, fixed_digits, push_decimal, push_fixed_digits};
use crate::timestamp::Timestamp;
use vstd::prelude::*;

verus! {

/// Who is logging: the program, the machine, the user and the process.
/// A part that could not be found out is `None`.
#[derive(Clone, Debug)]
pub struct ProcessIdentity {
    pub executable: Option<String>,
    pub host: Option<String>,
    pub user: Option<String>,
    pub pid: u32,
}

/// A log file to create: the severity it serves, its path, and the header
/// to write before any line.
#[derive(Clone, Debug)]
pub struct LogFile {
    pub level: Severity,
    pub path: String,
    pub header: String,
}

/// The severities that have a file of their own, in the order in which
/// the files are created.
pub open spec fn file_levels_spec(four_severities: bool) -> Seq<Severity> {
    if four_severities {
        seq![Severity::Info, Severity::Warn, Severity::Error]
    } else {
        seq![Severity::Trace, Severity::Debug, Severity::Info, Severity::Warn, Severity::Error]
    }
}

/// `text`, or `fallback` where `text` is absent or empty.
pub open spec fn or_placeholder(text: Option<Seq<char>>, fallback: Seq<char>) -> Seq<char> {
    match text {
        Some(t) => if t.len() == 0 {
            fallback
        } else {
            t
        },
        None => fallback,
    }
}

/// The program's name in a file name.
pub open spec fn executable_part(executable: Option<Seq<char>>) -> Seq<char> {
    match executable {
        Some(name) => name,
        None => "UNKNOWN"@,
    }
}

/// The machine's name in a file name.
pub open spec fn host_part(host: Option<Seq<char>>) -> Seq<char> {
    or_placeholder(host, "(unknown)"@)
}

/// The user's name in a file name.
pub open spec fn user_part(user: Option<Seq<char>>) -> Seq<char> {
    or_placeholder(user, "invalid-user"@)
}

/// The machine's name in a file header.
pub open spec fn header_host_text(host: Option<Seq<char>>) -> Seq<char> {
    match host {
        Some(name) => name,
        None => "UNKNOWN"@,
    }
}

/// The name of the log file of one severity:
/// `<program>.<host>.<user>.log.<SEVERITY>.<YYYYMMDD-HHMMSS>.<pid>`.
pub open spec fn log_file_name_text(
    executable: Option<Seq<char>>,
    host: Option<Seq<char>>,
    user: Option<Seq<char>>,
    level: Severity,
    created: Timestamp,
    pid: nat,
) -> Seq<char> {
    executable_part(executable) + "."@ + host_part(host) + "."@ + user_part(user) + ".log."@
        + level.name_text() + "."@ + created.file_stamp_text() + "."@ + decimal_text(pid)
}

/// The directory is not empty and does not end with the separator `/`.
pub open spec fn lacks_separator(directory: Seq<char>) -> bool {
    directory.len() > 0 && directory.last() != '/'
}

/// The path of a file in a directory: the directory, one `/` where the
/// directory is not empty and does not end with one, and the file's name.
/// With an empty directory the path is the name alone.
pub open spec fn path_in_directory(directory: Seq<char>, name: Seq<char>) -> Seq<char> {
    if lacks_separator(directory) {
        directory + seq!['/'] + name
    } else {
        directory + name
    }
}

/// A run time as `H:MM:SS`: the hours as they are, minutes and seconds in
/// two digits each.
pub open spec fn duration_text(seconds: nat) -> Seq<char> {
    decimal_text(seconds / 3600) + ":"@ + fixed_digits((seconds / 60) % 60, 2) + ":"@
        + fixed_digits(seconds % 60, 2)
}

/// The line of a header that holds the application fingerprint; empty
/// where there is none.
pub open spec fn fingerprint_line(fingerprint: Option<Seq<char>>) -> Seq<char> {
    match fingerprint {
        Some(f) => "Application fingerprint: "@ + f + "\n"@,
        None => Seq::<char>::empty(),
    }
}

/// The legend that closes a header: the severity letters in use and the
/// layout of a line.
pub open spec fn legend_line(four_severities: bool, with_year: bool) -> Seq<char> {
    "Log line format: ["@ + (if four_severities {
        ""@
    } else {
        "TD"@
    }) + "IWE]"@ + (if with_year {
        "yyyy"@
    } else {
        ""@
    }) + "mmdd hh:mm:ss.uuuuuu threadid file:line] msg\n"@
}

/// The header of a log file.
pub open spec fn header_text(
    created: Timestamp,
    host: Option<Seq<char>>,
    fingerprint: Option<Seq<char>>,
    elapsed_seconds: nat,
    four_severities: bool,
    with_year: bool,
) -> Seq<char> {
    "Log file created at:\n"@ + created.header_stamp_text() + "\nRunning on machine: "@
        + header_host_text(host) + "\n"@ + fingerprint_line(fingerprint)
        + "Running duration (h:mm:ss): "@ + duration_text(elapsed_seconds) + "\n"@ + legend_line(
        four_severities,
        with_year,
    )
}

/// The severities that have a file of their own, in the order in which
/// the files are created.
pub fn file_levels(four_severities: bool) -> (r: Vec<Severity>)
    ensures
        r@ == file_levels_spec(four_severities),
{
    let mut r: Vec<Severity> = Vec::new();
    if !four_severities {
        r.push(Severity::Trace);
        r.push(Severity::Debug);
    }
    r.push(Severity::Info);
    r.push(Severity::Warn);
    r.push(Severity::Error);
    assert(r@ =~= file_levels_spec(four_severities));
    r
}

/// `text`, or `fallback` where `text` is absent or empty.
pub fn text_or_placeholder(text: &Option<String>, fallback: &str) -> (r: String)
    ensures
        r@ == or_placeholder(option_text(*text), fallback@),
{
    match text {
        Some(t) => if_empty(t.clone(), fallback.to_owned()),
        None => fallback.to_owned(),
    }
}

/// `text`, or `fallback` where `text` is absent.
pub fn text_or_missing(text: &Option<String>, fallback: &str) -> (r: String)
    ensures
        r@ == (match option_text(*text) {
            Some(t) => t,
            None => fallback@,
        }),
{
    match text {
        Some(t) => t.clone(),
        None => fallback.to_owned(),
    }
}

/// The name of the log file of one severity.
pub fn log_file_name(who: &ProcessIdentity, level: Severity, created: &Timestamp) -> (r: String)
    requires
        created.wf(),
    ensures
        r@ == log_file_name_text(
            option_text(who.executable),
            option_text(who.host),
            option_text(who.user),
            level,
            *created,
            who.pid as nat,
        ),
{
    let mut r = text_or_missing(&who.executable, "UNKNOWN");
    r.append(".");
    let host = text_or_placeholder(&who.host, "(unknown)");
    r.append(host.as_str());
    r.append(".");
    let user = text_or_placeholder(&who.user, "invalid-user");
    r.append(user.as_str());
    r.append(".log.");
    r.append(level.name());
    r.append(".");
    let stamp = created.file_stamp();
    r.append(stamp.as_str());
    r.append(".");
    push_decimal(&mut r, who.pid as u64);
    assert(r@ =~= log_file_name_text(
        option_text(who.executable),
        option_text(who.host),
        option_text(who.user),
        level,
        *created,
        who.pid as nat,
    ));
    r
}

/// The path of a file in a directory.
pub fn path_in(directory: &str, name: &str) -> (r: String)
    ensures
        r@ == path_in_directory(directory@, name@),
{
    let len = directory.unicode_len();
    let mut r = directory.to_owned();
    if len > 0 && directory.get_char(len - 1) != '/' {
        r.append("/");
    }
    r.append(name);
    proof {
        reveal_strlit("/");
        assert(r@ =~= path_in_directory(directory@, name@));
    }
    r
}

/// A run time as `H:MM:SS`.
pub fn duration(seconds: u64) -> (r: String)
    ensures
        r@ == duration_text(seconds as nat),
{
    let mut r = String::new();
    push_decimal(&mut r, seconds / 3600);
    r.append(":");
    push_fixed_digits(&mut r, (seconds / 60) % 60, 2);
    r.append(":");
    push_fixed_digits(&mut r, seconds % 60, 2);
    assert(r@ =~= duration_text(seconds as nat));
    r
}

/// The header of a log file.
pub fn file_header(
    created: &Timestamp,
    host: &Option<String>,
    fingerprint: &Option<String>,
    elapsed_seconds: u64,
    four_severities: bool,
    with_year: bool,
) -> (r: String)
    requires
        created.wf(),
    ensures
        r@ == header_text(
            *created,
            option_text(*host),
            option_text(*fingerprint),
            elapsed_seconds as nat,
            four_severities,
            with_year,
        ),
{
    let mut r = String::new();
    r.append("Log file created at:\n");
    let stamp = created.header_stamp();
    r.append(stamp.as_str());
    r.append("\nRunning on machine: ");
    let machine = text_or_missing(host, "UNKNOWN");
    r.append(machine.as_str());
    r.append("\n");
    let ghost before_fingerprint = r@;
    match fingerprint {
        Some(f) => {
            r.append("Application fingerprint: ");
            r.append(f.as_str());
            r.append("\n");
        },
        None => {},
    }
    assert(r@ =~= before_fingerprint + fingerprint_line(option_text(*fingerprint)));
    r.append("Running duration (h:mm:ss): ");
    let run = duration(elapsed_seconds);
    r.append(run.as_str());
    r.append("\n");
    let ghost before_legend = r@;
    r.append("Log line format: [");
    r.append(if four_severities {
        ""
    } else {
        "TD"
    });
    r.append("IWE]");
    r.append(if with_year {
        "yyyy"
    } else {
        ""
    });
    r.append("mmdd hh:mm:ss.uuuuuu threadid file:line] msg\n");
    assert(r@ =~= before_legend + legend_line(four_severities, with_year));
    assert(r@ =~= header_text(
        *created,
        option_text(*host),
        option_text(*fingerprint),
        elapsed_seconds as nat,
        four_severities,
        with_year,
    ));
    r
}

/// Every severity is routed to a file that exists: the effective severity
/// of any record is among the severities that have a file. With four
/// severities in use there is no file for `Trace` nor for `Debug`.
pub proof fn routing_stays_within_files(level: Severity, four_severities: bool)
    ensures
        file_levels_spec(four_severities).contains(level.effective_spec(four_severities)),
        !file_levels_spec(true).contains(Severity::Trace),
        !file_levels_spec(true).contains(Severity::Debug),
        file_levels_spec(false).contains(level),
        file_levels_spec(four_severities).no_duplicates(),
{
    let four = file_levels_spec(true);
    let five = file_levels_spec(false);
    assert(four[0] == Severity::Info && four[1] == Severity::Warn && four[2] == Severity::Error);
    assert(five[0] == Severity::Trace && five[1] == Severity::Debug && five[2] == Severity::Info
        && five[3] == Severity::Warn && five[4] == Severity::Error);
}

/// `if_empty::IfEmpty::if_empty` on `String`.
///
/// Trusted: the result is `fallback` where `text` is empty, and `text`
/// otherwise.
#[verifier::external_body]
pub(crate) fn if_empty(text: String, fallback: String) -> (r: String)
    ensures
        r@ == (if text@.len() == 0 {
            fallback@
        } else {
            text@
        }),
{
    if_empty::IfEmpty::if_empty(text, fallback)
}

} // verus!
