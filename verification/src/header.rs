//! Reading a log file's header back: the machine, the fingerprint and the
//! run time that were written into it.

use crate::files::{duration_text, fingerprint_line, header_host_text, header_text, legend_line};
use crate::record::option_text;
use crate::text::{decimal_text, decimal_text_shape, fixed_digits, fixed_digits_shape, is_digit};
use crate::timestamp::Timestamp;
use vstd::prelude::*;

verus! {

/// What a header says of the process that wrote it.
#[derive(Clone, Debug)]
pub struct HeaderFields {
    /// The machine's name.
    pub host: String,
    /// The application fingerprint, if the header has one.
    pub fingerprint: Option<String>,
    /// The run time, as it is written.
    pub duration: String,
}

/// The texts of the fields of a header.
pub struct HeaderText {
    pub host: Seq<char>,
    pub fingerprint: Option<Seq<char>>,
    pub duration: Seq<char>,
}

impl View for HeaderFields {
    type V = HeaderText;

    open spec fn view(&self) -> HeaderText {
        HeaderText {
            host: self.host@,
            fingerprint: option_text(self.fingerprint),
            duration: self.duration@,
        }
    }
}

/// The views of optional header fields.
pub open spec fn option_fields(fields: Option<HeaderFields>) -> Option<HeaderText> {
    match fields {
        Some(f) => Some(f@),
        None => None,
    }
}

/// The text holds no line break.
pub open spec fn has_no_line_break(s: Seq<char>) -> bool {
    forall|i: int| 0 <= i < s.len() ==> s[i] != '\n'
}

/// The position of the first line break of a text; its length where it
/// has none.
pub open spec fn line_end(s: Seq<char>) -> int
    decreases s.len(),
{
    if s.len() == 0 || s[0] == '\n' {
        0
    } else {
        1 + line_end(s.skip(1))
    }
}

/// The text up to its first line break.
pub open spec fn first_line(s: Seq<char>) -> Seq<char> {
    s.take(line_end(s))
}

/// The text after its first line break; empty where it has none.
pub open spec fn after_first_line(s: Seq<char>) -> Seq<char> {
    if line_end(s) < s.len() {
        s.skip(line_end(s) + 1)
    } else {
        Seq::<char>::empty()
    }
}

/// What is left of a line after a prefix, if the line starts with it.
pub open spec fn without_prefix(line: Seq<char>, prefix: Seq<char>) -> Option<Seq<char>> {
    if prefix.is_prefix_of(line) {
        Some(line.skip(prefix.len() as int))
    } else {
        None
    }
}

/// The fields of a header: the first line is the title, the third names
/// the machine, the fourth holds the fingerprint where there is one, and
/// the line after it the run time. `None` for a text of another shape.
pub open spec fn parse_header_text(text: Seq<char>) -> Option<HeaderText> {
    let title = first_line(text);
    let from_created = after_first_line(text);
    let from_machine = after_first_line(from_created);
    let machine = without_prefix(first_line(from_machine), "Running on machine: "@);
    let from_fourth = after_first_line(from_machine);
    let fingerprint = without_prefix(first_line(from_fourth), "Application fingerprint: "@);
    let from_duration = if fingerprint is Some {
        after_first_line(from_fourth)
    } else {
        from_fourth
    };
    let duration = without_prefix(first_line(from_duration), "Running duration (h:mm:ss): "@);
    if title == "Log file created at:"@ && machine is Some && duration is Some {
        Some(HeaderText { host: machine.unwrap(), fingerprint, duration: duration.unwrap() })
    } else {
        None
    }
}

/// The first line break of a text is where no earlier character is one.
pub proof fn line_end_is_first_break(s: Seq<char>, k: int)
    requires
        0 <= k <= s.len(),
        forall|i: int| 0 <= i < k ==> s[i] != '\n',
        k == s.len() || s[k] == '\n',
    ensures
        line_end(s) == k,
    decreases s.len(),
{
    if k > 0 {
        let rest = s.skip(1);
        assert forall|i: int| 0 <= i < k - 1 implies rest[i] != '\n' by {
            assert(rest[i] == s[i + 1]);
        }
        line_end_is_first_break(rest, k - 1);
    }
}

/// A line without a break, a break, and more text: the first line is that
/// line, and the rest follows it.
pub proof fn first_line_of_joined(line: Seq<char>, rest: Seq<char>)
    requires
        has_no_line_break(line),
    ensures
        first_line(line + seq!['\n'] + rest) == line,
        after_first_line(line + seq!['\n'] + rest) == rest,
{
    let s = line + seq!['\n'] + rest;
    assert forall|i: int| 0 <= i < line.len() implies s[i] != '\n' by {
        assert(s[i] == line[i]);
    }
    assert(s[line.len() as int] == '\n');
    line_end_is_first_break(s, line.len() as int);
    assert(s.take(line.len() as int) =~= line);
    assert(s.skip(line.len() as int + 1) =~= rest);
}

/// No digit is a line break.
pub proof fn digits_are_no_line_breaks(c: char)
    requires
        is_digit(c),
    ensures
        c != '\n',
        c != ':',
{
}

/// A padded decimal holds no line break.
pub proof fn fixed_digits_have_no_line_break(n: nat, width: nat)
    ensures
        has_no_line_break(fixed_digits(n, width)),
{
    fixed_digits_shape(n, width);
    assert forall|i: int| 0 <= i < fixed_digits(n, width).len() implies fixed_digits(n, width)[i]
        != '\n' by {
        digits_are_no_line_breaks(fixed_digits(n, width)[i]);
    }
}

/// Two texts without a line break, joined, hold none.
pub proof fn joined_has_no_line_break(a: Seq<char>, b: Seq<char>)
    requires
        has_no_line_break(a),
        has_no_line_break(b),
    ensures
        has_no_line_break(a + b),
{
    assert forall|i: int| 0 <= i < (a + b).len() implies (a + b)[i] != '\n' by {
        if i < a.len() {
            assert((a + b)[i] == a[i]);
        } else {
            assert((a + b)[i] == b[i - a.len()]);
        }
    }
}

/// A run time is the hours in decimal, then minutes and seconds below 60
/// in two digits each, with colons between; it holds no line break.
pub proof fn duration_text_shape(seconds: nat)
    ensures
        exists|hours: nat, minutes: nat, secs: nat|
            minutes < 60 && secs < 60 && seconds == hours * 3600 + minutes * 60 + secs
                && #[trigger] duration_parts(hours, minutes, secs) == duration_text(seconds),
        has_no_line_break(duration_text(seconds)),
{
    let hours = seconds / 3600;
    let minutes = (seconds / 60) % 60;
    let secs = seconds % 60;
    assert(seconds == hours * 3600 + minutes * 60 + secs) by (nonlinear_arith)
        requires
            hours == seconds / 3600,
            minutes == (seconds / 60) % 60,
            secs == seconds % 60,
    ;
    assert(duration_parts(hours, minutes, secs) == duration_text(seconds));
    reveal_strlit(":");
    decimal_text_shape(hours);
    assert forall|i: int| 0 <= i < decimal_text(hours).len() implies decimal_text(hours)[i]
        != '\n' by {
        digits_are_no_line_breaks(decimal_text(hours)[i]);
    }
    fixed_digits_have_no_line_break(minutes, 2);
    fixed_digits_have_no_line_break(secs, 2);
    joined_has_no_line_break(decimal_text(hours), ":"@);
    joined_has_no_line_break(decimal_text(hours) + ":"@, fixed_digits(minutes, 2));
    joined_has_no_line_break(decimal_text(hours) + ":"@ + fixed_digits(minutes, 2), ":"@);
    joined_has_no_line_break(
        decimal_text(hours) + ":"@ + fixed_digits(minutes, 2) + ":"@,
        fixed_digits(secs, 2),
    );
}

/// `H:MM:SS` of hours, minutes and seconds.
pub open spec fn duration_parts(hours: nat, minutes: nat, secs: nat) -> Seq<char> {
    decimal_text(hours) + ":"@ + fixed_digits(minutes, 2) + ":"@ + fixed_digits(secs, 2)
}

/// The creation time of a header holds no line break.
pub proof fn header_stamp_has_no_line_break(created: Timestamp)
    ensures
        has_no_line_break(created.header_stamp_text()),
{
    fixed_digits_have_no_line_break(created.year as nat, 4);
    fixed_digits_have_no_line_break(created.month as nat, 2);
    fixed_digits_have_no_line_break(created.day as nat, 2);
    fixed_digits_have_no_line_break(created.hour as nat, 2);
    fixed_digits_have_no_line_break(created.minute as nat, 2);
    fixed_digits_have_no_line_break(created.second as nat, 2);
    let y = created.year_text();
    let mo = created.month_text();
    let d = created.day_text();
    let h = created.hour_text();
    let mi = created.minute_text();
    let s = created.second_text();
    joined_has_no_line_break(h, seq![':']);
    joined_has_no_line_break(h + seq![':'], mi);
    joined_has_no_line_break(h + seq![':'] + mi, seq![':']);
    joined_has_no_line_break(h + seq![':'] + mi + seq![':'], s);
    joined_has_no_line_break(y, seq!['/']);
    joined_has_no_line_break(y + seq!['/'], mo);
    joined_has_no_line_break(y + seq!['/'] + mo, seq!['/']);
    joined_has_no_line_break(y + seq!['/'] + mo + seq!['/'], d);
    joined_has_no_line_break(y + seq!['/'] + mo + seq!['/'] + d, seq![' ']);
    joined_has_no_line_break(y + seq!['/'] + mo + seq!['/'] + d + seq![' '], created.clock_text());
}

/// A header that is read back gives the machine's name, the fingerprint
/// (or none) and the run time that were written into it, provided that
/// neither name nor fingerprint holds a line break. The run time has the
/// shape `H:MM:SS`, minutes and seconds below 60 and in two digits each.
pub proof fn header_round_trip(
    created: Timestamp,
    host: Option<Seq<char>>,
    fingerprint: Option<Seq<char>>,
    elapsed_seconds: nat,
    four_severities: bool,
    with_year: bool,
)
    requires
        host matches Some(h) ==> has_no_line_break(h),
        fingerprint matches Some(f) ==> has_no_line_break(f),
    ensures
        parse_header_text(
            header_text(created, host, fingerprint, elapsed_seconds, four_severities, with_year),
        ) == Some(
            HeaderText {
                host: header_host_text(host),
                fingerprint,
                duration: duration_text(elapsed_seconds),
            },
        ),
        exists|hours: nat, minutes: nat, secs: nat|
            minutes < 60 && secs < 60 && elapsed_seconds == hours * 3600 + minutes * 60 + secs
                && #[trigger] duration_parts(hours, minutes, secs) == duration_text(
                elapsed_seconds,
            ),
{
    reveal_strlit("Log file created at:\n");
    reveal_strlit("Log file created at:");
    reveal_strlit("\nRunning on machine: ");
    reveal_strlit("Running on machine: ");
    reveal_strlit("\n");
    reveal_strlit("UNKNOWN");
    reveal_strlit("Application fingerprint: ");
    reveal_strlit("Running duration (h:mm:ss): ");
    duration_text_shape(elapsed_seconds);
    header_stamp_has_no_line_break(created);

    let text = header_text(created, host, fingerprint, elapsed_seconds, four_severities, with_year);
    let nl = seq!['\n'];
    let title = "Log file created at:"@;
    let stamp = created.header_stamp_text();
    let machine_label = "Running on machine: "@;
    let machine = header_host_text(host);
    let fingerprint_label = "Application fingerprint: "@;
    let duration_label = "Running duration (h:mm:ss): "@;
    let run = duration_text(elapsed_seconds);
    let legend = legend_line(four_severities, with_year);

    let duration_line = duration_label + run;
    let from_duration = duration_line + nl + legend;
    let from_fourth = match fingerprint {
        Some(f) => (fingerprint_label + f) + nl + from_duration,
        None => from_duration,
    };
    let machine_line = machine_label + machine;
    let from_machine = machine_line + nl + from_fourth;
    let from_created = stamp + nl + from_machine;

    assert("Log file created at:\n"@ =~= title + nl);
    assert("\nRunning on machine: "@ =~= nl + machine_label);
    assert("\n"@ =~= nl);
    assert(fingerprint_line(fingerprint) + duration_label + run + nl + legend =~= from_fourth);
    assert(text =~= title + nl + from_created);

    assert(has_no_line_break(title));
    first_line_of_joined(title, from_created);
    first_line_of_joined(stamp, from_machine);

    assert(has_no_line_break(machine_label));
    assert(has_no_line_break(machine));
    joined_has_no_line_break(machine_label, machine);
    first_line_of_joined(machine_line, from_fourth);
    assert(machine_label.is_prefix_of(machine_line)) by {
        assert(machine_line.subrange(0, machine_label.len() as int) =~= machine_label);
    }
    assert(machine_line.skip(machine_label.len() as int) =~= machine);

    assert(has_no_line_break(duration_label));
    joined_has_no_line_break(duration_label, run);
    first_line_of_joined(duration_line, legend);
    assert(duration_label.is_prefix_of(duration_line)) by {
        assert(duration_line.subrange(0, duration_label.len() as int) =~= duration_label);
    }
    assert(duration_line.skip(duration_label.len() as int) =~= run);

    match fingerprint {
        Some(f) => {
            let fingerprint_row = fingerprint_label + f;
            assert(has_no_line_break(fingerprint_label));
            joined_has_no_line_break(fingerprint_label, f);
            first_line_of_joined(fingerprint_row, from_duration);
            assert(fingerprint_label.is_prefix_of(fingerprint_row)) by {
                assert(fingerprint_row.subrange(0, fingerprint_label.len() as int)
                    =~= fingerprint_label);
            }
            assert(fingerprint_row.skip(fingerprint_label.len() as int) =~= f);
        },
        None => {
            assert(!fingerprint_label.is_prefix_of(duration_line)) by {
                assert(duration_line[0] == 'R');
                assert(fingerprint_label[0] == 'A');
                if fingerprint_label.is_prefix_of(duration_line) {
                    assert(duration_line.subrange(0, fingerprint_label.len() as int)[0]
                        == fingerprint_label[0]);
                }
            }
        },
    }
}

/// Whether two texts are the same.
pub fn same_text(a: &str, b: &str) -> (r: bool)
    ensures
        r == (a@ == b@),
{
    let x = a.to_owned();
    let y = b.to_owned();
    x == y
}

/// Cuts a text at its first line break: the line before it, and what
/// follows it.
pub fn cut_line<'a>(text: &'a str) -> (r: (&'a str, &'a str))
    ensures
        r.0@ == first_line(text@),
        r.1@ == after_first_line(text@),
{
    let len = text.unicode_len();
    let mut i: usize = 0;
    while i < len && text.get_char(i) != '\n'
        invariant
            i <= len,
            len == text@.len(),
            forall|j: int| 0 <= j < i ==> text@[j] != '\n',
        decreases len - i,
    {
        i = i + 1;
    }
    proof {
        line_end_is_first_break(text@, i as int);
    }
    let head = text.substring_char(0, i);
    let tail = if i < len {
        text.substring_char(i + 1, len)
    } else {
        text.substring_char(len, len)
    };
    proof {
        assert(head@ =~= first_line(text@));
        assert(tail@ =~= after_first_line(text@));
    }
    (head, tail)
}

/// What is left of a line after a prefix, if the line starts with it.
pub fn strip_prefix<'a>(line: &'a str, prefix: &str) -> (r: Option<&'a str>)
    ensures
        (match r {
            Some(rest) => Some(rest@),
            None => None,
        }) == without_prefix(line@, prefix@),
{
    let prefix_len = prefix.unicode_len();
    let line_len = line.unicode_len();
    if prefix_len > line_len {
        return None;
    }
    let head = line.substring_char(0, prefix_len);
    if same_text(head, prefix) {
        let rest = line.substring_char(prefix_len, line_len);
        assert(rest@ =~= line@.skip(prefix@.len() as int));
        Some(rest)
    } else {
        None
    }
}

/// Reads the fields of a header; `None` for a text that is no header.
pub fn parse_file_header(text: &str) -> (r: Option<HeaderFields>)
    ensures
        option_fields(r) == parse_header_text(text@),
{
    let (title, from_created) = cut_line(text);
    let (_created, from_machine) = cut_line(from_created);
    let (machine_line, from_fourth) = cut_line(from_machine);
    let (fourth_line, after_fourth) = cut_line(from_fourth);
    let machine = strip_prefix(machine_line, "Running on machine: ");
    let fingerprint = strip_prefix(fourth_line, "Application fingerprint: ");
    let duration_line = match fingerprint {
        Some(_) => cut_line(after_fourth).0,
        None => fourth_line,
    };
    let duration = strip_prefix(duration_line, "Running duration (h:mm:ss): ");
    if !same_text(title, "Log file created at:") {
        return None;
    }
    match (machine, duration) {
        (Some(host), Some(run)) => {
            let fingerprint = match fingerprint {
                Some(f) => Some(f.to_owned()),
                None => None,
            };
            Some(HeaderFields { host: host.to_owned(), fingerprint, duration: run.to_owned() })
        },
        _ => None,
    }
}

} // verus!
