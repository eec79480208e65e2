use glog::{
    ClockReading, ConsoleColor, ConsoleWrite, Flags, Glog, LogError, LogRecord, Severity, Startup,
    Timestamp,
};

fn stamp() -> Timestamp {
    Timestamp::new(2024, 3, 1, 10, 15, 30, 123456).unwrap()
}

fn record(level: Severity) -> LogRecord {
    LogRecord {
        level,
        file: Some("src/server.rs".to_string()),
        line: Some(42),
        message: "connection lost".to_string(),
    }
}

fn flags(minimum: Severity, only_console: bool, also_console: bool) -> Flags {
    Flags {
        minloglevel: minimum,
        logtostderr: only_console,
        alsologtostderr: also_console,
        colorlogtostderr: false,
        log_dir: "/var/log/".to_string(),
        log_backtrace_at: None,
    }
}

fn logger(f: Flags) -> Glog {
    let mut g = Glog::started_at(0, 0);
    g.init(f);
    g
}

const ALL: [Severity; 5] =
    [Severity::Trace, Severity::Debug, Severity::Info, Severity::Warn, Severity::Error];

#[test]
fn records_below_the_minimum_reach_no_sink() {
    for minimum in ALL {
        let g = logger(flags(minimum, false, true));
        for level in ALL {
            let d = g.dispatch(&record(level), &stamp(), 1);
            assert_eq!(g.enabled(level), level.index() >= minimum.index());
            assert_eq!(d.is_some(), level.index() >= minimum.index());
        }
    }
}

#[test]
fn dropped_record_needs_no_line_number() {
    let g = logger(flags(Severity::Warn, false, false));
    let r = LogRecord { level: Severity::Info, file: None, line: None, message: String::new() };
    assert!(g.dispatch(&r, &stamp(), 1).is_none());
    assert_eq!(g.log(&r).unwrap().map(|d| d.line), None);
}

#[test]
fn each_enabled_sink_gets_the_one_line() {
    let both = logger(flags(Severity::Info, false, true));
    let d = both.dispatch(&record(Severity::Warn), &stamp(), 7).unwrap();
    assert_eq!(d.line, "W0301 10:15:30.123456     7 server.rs:42] connection lost");
    assert!(d.console.is_some());
    assert_eq!(d.file, Some(Severity::Warn));

    let files = logger(flags(Severity::Info, false, false));
    let d = files.dispatch(&record(Severity::Warn), &stamp(), 7).unwrap();
    assert_eq!(d.line, "W0301 10:15:30.123456     7 server.rs:42] connection lost");
    assert!(d.console.is_none());
    assert_eq!(d.file, Some(Severity::Warn));

    let console = logger(flags(Severity::Info, true, false));
    let d = console.dispatch(&record(Severity::Warn), &stamp(), 7).unwrap();
    assert!(d.console.is_some());
    assert_eq!(d.file, None);

    let console_twice = logger(flags(Severity::Info, true, true));
    let d = console_twice.dispatch(&record(Severity::Warn), &stamp(), 7).unwrap();
    assert!(d.console.is_some());
    assert_eq!(d.file, None);
}

#[test]
fn debug_counts_as_info_with_four_severities() {
    let g = logger(flags(Severity::Trace, false, false));
    let d = g.dispatch(&record(Severity::Debug), &stamp(), 7).unwrap();
    assert!(d.line.starts_with("I0301 "));
    assert_eq!(d.file, Some(Severity::Info));
    assert!(!g.open_files().contains(&Severity::Debug));
    assert!(!g.open_files().contains(&Severity::Trace));
    let t = g.dispatch(&record(Severity::Trace), &stamp(), 7).unwrap();
    assert!(t.line.starts_with("I0301 "));
    assert_eq!(t.file, Some(Severity::Info));
    assert_eq!(g.match_level(&Severity::Debug), Severity::Info);
    assert_eq!(g.file_target(&record(Severity::Debug)), Severity::Info);
}

#[test]
fn trace_and_debug_keep_their_letters_with_five_severities() {
    let mut g = Glog::started_at(0, 0).limited_abbreviations(false);
    g.init(flags(Severity::Trace, false, false));
    let d = g.dispatch(&record(Severity::Debug), &stamp(), 7).unwrap();
    assert!(d.line.starts_with("D0301 "));
    assert_eq!(d.file, Some(Severity::Debug));
    let t = g.dispatch(&record(Severity::Trace), &stamp(), 7).unwrap();
    assert!(t.line.starts_with("T0301 "));
    assert_eq!(t.file, Some(Severity::Trace));
    assert_eq!(g.open_files(), ALL.to_vec());
    assert_eq!(g.match_level(&Severity::Trace), Severity::Trace);
}

#[test]
fn every_file_target_is_an_open_file() {
    for four in [true, false] {
        let mut g = Glog::started_at(0, 0).limited_abbreviations(four);
        g.init(flags(Severity::Trace, false, false));
        let open = g.open_files();
        for level in ALL {
            let d = g.dispatch(&record(level), &stamp(), 1).unwrap();
            assert!(open.contains(&d.file.unwrap()));
        }
    }
}

#[test]
fn backtrace_follows_only_the_record_the_trigger_names() {
    let mut f = flags(Severity::Info, true, false);
    f.log_backtrace_at = Some("server.rs:42".to_string());
    let g = logger(f);
    let d = g.dispatch(&record(Severity::Warn), &stamp(), 7).unwrap();
    assert!(d.console.unwrap().backtrace);
    let mut other = record(Severity::Warn);
    other.line = Some(43);
    assert!(!g.dispatch(&other, &stamp(), 7).unwrap().console.unwrap().backtrace);
    let mut elsewhere = record(Severity::Warn);
    elsewhere.file = Some("src/client.rs".to_string());
    assert!(!g.dispatch(&elsewhere, &stamp(), 7).unwrap().console.unwrap().backtrace);
    assert!(g.should_log_backtrace("server.rs", 42));
    assert!(!g.should_log_backtrace("server.rs", 4));
    assert!(!g.should_log_backtrace("src/server.rs", 42));
    assert!(!g.should_log_backtrace("erver.rs", 42));

    let none = logger(flags(Severity::Info, true, false));
    assert!(!none.should_log_backtrace("server.rs", 42));
    assert!(!none.dispatch(&record(Severity::Warn), &stamp(), 7).unwrap().console.unwrap().backtrace);
}

#[test]
fn console_colour_goes_by_severity() {
    let mut f = flags(Severity::Trace, true, false);
    f.colorlogtostderr = true;
    let g = logger(f);
    assert_eq!(
        g.console_write(&record(Severity::Error)),
        ConsoleWrite { colorize: true, color: Some(ConsoleColor::Red), backtrace: false }
    );
    assert_eq!(g.console_write(&record(Severity::Warn)).color, Some(ConsoleColor::Yellow));
    assert_eq!(g.console_write(&record(Severity::Info)).color, None);
    assert_eq!(g.console_write(&record(Severity::Debug)).color, None);
    assert_eq!(g.console_write(&record(Severity::Trace)).color, None);
    let plain = logger(flags(Severity::Trace, true, false));
    assert!(!plain.console_write(&record(Severity::Error)).colorize);
}

#[test]
fn clock_out_of_range_is_an_error() {
    let g = logger(flags(Severity::Info, true, false));
    let mut reading = ClockReading { civil: stamp(), unix_seconds: 0 };
    reading.civil.year = 10_000;
    let r = g.log_at(&record(Severity::Warn), &reading, 7);
    assert_eq!(r.err(), Some(LogError::ClockOutOfRange));
    let dropped = g.log_at(&record(Severity::Debug), &reading, 7);
    assert!(dropped.unwrap().is_none());
    reading.civil.year = 2024;
    let d = g.log_at(&record(Severity::Warn), &reading, 7).unwrap().unwrap();
    assert_eq!(d.line, "W0301 10:15:30.123456     7 server.rs:42] connection lost");
}

#[test]
fn logging_now_uses_the_clock_and_the_thread() {
    let g = logger(flags(Severity::Info, false, true));
    let d = g.log(&record(Severity::Error)).unwrap().unwrap();
    assert!(d.line.starts_with('E'));
    assert!(d.line.ends_with(" server.rs:42] connection lost"));
    assert_eq!(d.file, Some(Severity::Error));
    assert!(d.console.is_some());
    let text = g.build_log_message(&record(Severity::Error)).unwrap();
    assert!(text.starts_with('E'));
    assert_eq!(&text[5..6], " ");
    assert_eq!(&text[8..9], ":");
    assert_eq!(&text[14..15], ".");
    assert!(text.ends_with(" server.rs:42] connection lost"));
    let id: u64 = text[22..].split(' ').find(|p| !p.is_empty()).unwrap().parse().unwrap();
    assert!(id > 0);
}

#[test]
fn a_new_logger_has_the_defaults() {
    let g = Glog::new();
    assert!(g.enabled(Severity::Info));
    assert!(!g.enabled(Severity::Debug));
    assert_eq!(g.match_level(&Severity::Trace), Severity::Info);
    assert!(g.open_files().is_empty());
    let r = record(Severity::Info);
    assert_eq!(g.render(&r, &stamp(), 1), "I0301 10:15:30.123456     1 server.rs:42] connection lost");
    let h = glog::new();
    assert!(!h.should_log_backtrace("server.rs", 42));
    let d = Glog::default();
    assert!(d.open_files().is_empty());
    let f = Flags::default();
    assert_eq!(f.minloglevel, Severity::Info);
    assert!(!f.logtostderr && !f.alsologtostderr && !f.colorlogtostderr);
    assert_eq!(f.log_dir, "");
    assert_eq!(f.log_backtrace_at, None);
}

#[test]
fn init_takes_the_options_and_says_what_is_left() {
    let mut g = Glog::started_at(0, 0);
    let s = g.init(flags(Severity::Warn, false, false));
    assert_eq!(s, Startup { open_files: true, max_level: Severity::Warn });
    assert_eq!(g.open_files(), vec![Severity::Info, Severity::Warn, Severity::Error]);
    assert!(!g.enabled(Severity::Info));
    let s = g.init(flags(Severity::Trace, true, false));
    assert_eq!(s, Startup { open_files: false, max_level: Severity::Trace });
    assert!(g.open_files().is_empty());
    assert!(g.enabled(Severity::Trace));
}

#[test]
fn builders_change_one_thing() {
    let g = Glog::started_at(0, 0).with_year(true);
    assert!(g.render(&record(Severity::Info), &stamp(), 1).starts_with("I20240301 "));
    let g = g.with_year(false);
    assert!(g.render(&record(Severity::Info), &stamp(), 1).starts_with("I0301 "));
    let g = g.limited_abbreviations(false);
    assert!(g.render(&record(Severity::Trace), &stamp(), 1).starts_with("T0301 "));
    let g = g.set_application_fingerprint("abc");
    let now = ClockReading { civil: stamp(), unix_seconds: 0 };
    assert!(g.file_header(&None, &now).contains("Application fingerprint: abc\n"));
}

#[test]
fn severities_are_ordered_and_named() {
    let names = ["TRACE", "DEBUG", "INFO", "WARN", "ERROR"];
    let letters = ["T", "D", "I", "W", "E"];
    for (i, level) in ALL.iter().enumerate() {
        assert_eq!(level.index() as usize, i);
        assert_eq!(level.name(), names[i]);
        assert_eq!(level.letter(), letters[i]);
        assert_eq!(level.effective(false), *level);
        for (j, other) in ALL.iter().enumerate() {
            assert_eq!(level.is_at_least(*other), i >= j);
        }
    }
    assert_eq!(Severity::Trace.effective(true), Severity::Info);
    assert_eq!(Severity::Debug.effective(true), Severity::Info);
    assert_eq!(Severity::Info.effective(true), Severity::Info);
    assert_eq!(Severity::Warn.effective(true), Severity::Warn);
    assert_eq!(Severity::Error.effective(true), Severity::Error);
}

#[test]
fn message_needs_a_clock_that_can_be_rendered() {
    let g = logger(flags(Severity::Info, true, false));
    let mut reading = ClockReading { civil: stamp(), unix_seconds: 0 };
    assert_eq!(
        g.build_log_message_at(&record(Severity::Warn), &reading, 7).unwrap(),
        "W0301 10:15:30.123456     7 server.rs:42] connection lost"
    );
    reading.civil.day = 32;
    assert_eq!(
        g.build_log_message_at(&record(Severity::Warn), &reading, 7).err(),
        Some(LogError::ClockOutOfRange)
    );
}
