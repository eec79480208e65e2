use glog::files::{duration, file_header, file_levels, log_file_name, text_or_missing,
    text_or_placeholder};
use glog::{ClockReading, Flags, Glog, ProcessIdentity, Severity, Timestamp};

fn stamp() -> Timestamp {
    Timestamp::new(2024, 3, 1, 10, 15, 30, 123456).unwrap()
}

fn who() -> ProcessIdentity {
    ProcessIdentity {
        executable: Some("server".to_string()),
        host: Some("box".to_string()),
        user: Some("ann".to_string()),
        pid: 4711,
    }
}

fn file_flags(dir: &str) -> Flags {
    Flags {
        minloglevel: Severity::Info,
        logtostderr: false,
        alsologtostderr: false,
        colorlogtostderr: false,
        log_dir: dir.to_string(),
        log_backtrace_at: None,
    }
}

#[test]
fn file_name_follows_the_convention() {
    assert_eq!(
        log_file_name(&who(), Severity::Info, &stamp()),
        "server.box.ann.log.INFO.20240301-101530.4711"
    );
    assert_eq!(
        log_file_name(&who(), Severity::Error, &stamp()),
        "server.box.ann.log.ERROR.20240301-101530.4711"
    );
}

#[test]
fn missing_names_get_placeholders() {
    let nobody = ProcessIdentity { executable: None, host: None, user: None, pid: 0 };
    assert_eq!(
        log_file_name(&nobody, Severity::Warn, &stamp()),
        "UNKNOWN.(unknown).invalid-user.log.WARN.20240301-101530.0"
    );
    let empty = ProcessIdentity {
        executable: Some(String::new()),
        host: Some(String::new()),
        user: Some(String::new()),
        pid: u32::MAX,
    };
    assert_eq!(
        log_file_name(&empty, Severity::Trace, &stamp()),
        ".(unknown).invalid-user.log.TRACE.20240301-101530.4294967295"
    );
}

#[test]
fn empty_text_gives_way_to_the_placeholder() {
    assert_eq!(text_or_placeholder(&Some(String::new()), "x"), "x");
    assert_eq!(text_or_placeholder(&Some("a".to_string()), "x"), "a");
    assert_eq!(text_or_placeholder(&None, "x"), "x");
    assert_eq!(text_or_missing(&Some(String::new()), "x"), "");
    assert_eq!(text_or_missing(&Some("a".to_string()), "x"), "a");
    assert_eq!(text_or_missing(&None, "x"), "x");
}

#[test]
fn durations_pad_minutes_and_seconds() {
    assert_eq!(duration(0), "0:00:00");
    assert_eq!(duration(59), "0:00:59");
    assert_eq!(duration(60), "0:01:00");
    assert_eq!(duration(3661), "1:01:01");
    assert_eq!(duration(86_399), "23:59:59");
    assert_eq!(duration(360_000), "100:00:00");
    assert_eq!(duration(u64::MAX), "5124095576030431:00:15");
}

#[test]
fn header_holds_time_host_fingerprint_duration_and_legend() {
    let text = file_header(&stamp(), &Some("box".to_string()), &Some("v1.2".to_string()), 3661, true, false);
    assert_eq!(
        text,
        "Log file created at:\n2024/03/01 10:15:30\nRunning on machine: box\n\
Application fingerprint: v1.2\nRunning duration (h:mm:ss): 1:01:01\n\
Log line format: [IWE]mmdd hh:mm:ss.uuuuuu threadid file:line] msg\n"
    );
}

#[test]
fn header_without_fingerprint_has_no_such_line() {
    let text = file_header(&stamp(), &None, &None, 0, false, true);
    assert_eq!(
        text,
        "Log file created at:\n2024/03/01 10:15:30\nRunning on machine: UNKNOWN\n\
Running duration (h:mm:ss): 0:00:00\n\
Log line format: [TDIWE]yyyymmdd hh:mm:ss.uuuuuu threadid file:line] msg\n"
    );
    let plain = file_header(&stamp(), &Some(String::new()), &None, 0, false, false);
    assert!(plain.contains("Running on machine: \n"));
    assert!(plain.ends_with("Log line format: [TDIWE]mmdd hh:mm:ss.uuuuuu threadid file:line] msg\n"));
    let year = file_header(&stamp(), &None, &None, 0, true, true);
    assert!(year.ends_with("Log line format: [IWE]yyyymmdd hh:mm:ss.uuuuuu threadid file:line] msg\n"));
}

#[test]
fn files_exist_for_the_severities_in_use() {
    assert_eq!(file_levels(true), vec![Severity::Info, Severity::Warn, Severity::Error]);
    assert_eq!(
        file_levels(false),
        vec![Severity::Trace, Severity::Debug, Severity::Info, Severity::Warn, Severity::Error]
    );
}

#[test]
fn planned_files_have_path_and_header() {
    let mut g = Glog::started_at(1_000, 0).set_application_fingerprint("fp");
    g.init(file_flags("/var/log/"));
    let now = ClockReading { civil: stamp(), unix_seconds: 1_000 + 7_384 };
    let files = g.log_files(&who(), &now);
    assert_eq!(files.len(), 3);
    assert_eq!(files[0].level, Severity::Info);
    assert_eq!(files[1].level, Severity::Warn);
    assert_eq!(files[2].level, Severity::Error);
    assert_eq!(files[0].path, "/var/log/server.box.ann.log.INFO.20240301-101530.4711");
    assert_eq!(files[1].path, "/var/log/server.box.ann.log.WARN.20240301-101530.4711");
    assert_eq!(files[2].path, "/var/log/server.box.ann.log.ERROR.20240301-101530.4711");
    for f in &files {
        assert_eq!(
            f.header,
            "Log file created at:\n2024/03/01 10:15:30\nRunning on machine: box\n\
Application fingerprint: fp\nRunning duration (h:mm:ss): 2:03:04\n\
Log line format: [IWE]mmdd hh:mm:ss.uuuuuu threadid file:line] msg\n"
        );
        assert_eq!(f.header, g.file_header(&who().host, &now));
    }
}

#[test]
fn five_severities_get_five_files() {
    let mut g = Glog::started_at(0, 0).limited_abbreviations(false).with_year(true);
    g.init(file_flags(""));
    let now = ClockReading { civil: stamp(), unix_seconds: 0 };
    let files = g.log_files(&who(), &now);
    assert_eq!(files.len(), 5);
    assert_eq!(files[0].path, "server.box.ann.log.TRACE.20240301-101530.4711");
    assert_eq!(files[1].path, "server.box.ann.log.DEBUG.20240301-101530.4711");
    assert!(files[4].header.ends_with(
        "Log line format: [TDIWE]yyyymmdd hh:mm:ss.uuuuuu threadid file:line] msg\n"
    ));
}

fn at(unix_seconds: i64, microsecond: u32) -> ClockReading {
    let mut civil = stamp();
    civil.microsecond = microsecond;
    ClockReading { civil, unix_seconds }
}

#[test]
fn elapsed_time_never_runs_backwards() {
    let g = Glog::started_at(100, 0);
    assert_eq!(g.elapsed_seconds(&at(100, 0)), 0);
    assert_eq!(g.elapsed_seconds(&at(161, 0)), 61);
    assert_eq!(g.elapsed_seconds(&at(99, 0)), 0);
    assert_eq!(g.elapsed_seconds(&at(i64::MIN, 0)), 0);
    let early = Glog::started_at(i64::MIN, 0);
    assert_eq!(early.elapsed_seconds(&at(i64::MAX, 0)), u64::MAX);
}

#[test]
fn elapsed_time_counts_whole_seconds_only() {
    let g = Glog::started_at(10, 900_000);
    assert_eq!(g.elapsed_seconds(&at(11, 100_000)), 0);
    assert_eq!(g.elapsed_seconds(&at(11, 899_999)), 0);
    assert_eq!(g.elapsed_seconds(&at(11, 900_000)), 1);
    assert_eq!(g.elapsed_seconds(&at(12, 100_000)), 1);
    assert_eq!(g.elapsed_seconds(&at(10, 999_999)), 0);
    assert_eq!(g.elapsed_seconds(&at(10, 0)), 0);
    assert_eq!(g.elapsed_seconds(&at(3_671, 0)), 3_660);
    assert!(g.file_header(&None, &at(11, 100_000)).contains("\nRunning duration (h:mm:ss): 0:00:00\n"));
    assert!(g.file_header(&None, &at(11, 900_000)).contains("\nRunning duration (h:mm:ss): 0:00:01\n"));
    assert!(g.file_header(&None, &at(3_671, 0)).contains("\nRunning duration (h:mm:ss): 1:01:00\n"));
}

#[test]
fn files_lie_in_the_directory_whatever_its_ending() {
    let mut g = Glog::started_at(0, 0);
    g.init(file_flags("/var/log"));
    let identity = ProcessIdentity {
        executable: Some("server".to_string()),
        host: Some("box1".to_string()),
        user: Some("alice".to_string()),
        pid: 4321,
    };
    let now = ClockReading { civil: stamp(), unix_seconds: 0 };
    let paths: Vec<String> = g.log_files(&identity, &now).into_iter().map(|f| f.path).collect();
    assert_eq!(
        paths,
        vec![
            "/var/log/server.box1.alice.log.INFO.20240301-101530.4321".to_string(),
            "/var/log/server.box1.alice.log.WARN.20240301-101530.4321".to_string(),
            "/var/log/server.box1.alice.log.ERROR.20240301-101530.4321".to_string(),
        ]
    );
    g.init(file_flags("/var/log/"));
    assert_eq!(
        g.log_files(&identity, &now)[0].path,
        "/var/log/server.box1.alice.log.INFO.20240301-101530.4321"
    );
    g.init(file_flags(""));
    assert_eq!(
        g.log_files(&identity, &now)[0].path,
        "server.box1.alice.log.INFO.20240301-101530.4321"
    );
    g.init(file_flags("/"));
    assert_eq!(
        g.log_files(&identity, &now)[0].path,
        "/server.box1.alice.log.INFO.20240301-101530.4321"
    );
    g.init(file_flags("logs"));
    assert_eq!(
        g.log_files(&identity, &now)[0].path,
        "logs/server.box1.alice.log.INFO.20240301-101530.4321"
    );
}

#[test]
fn paths_get_one_separator() {
    assert_eq!(glog::files::path_in("/var/log", "a"), "/var/log/a");
    assert_eq!(glog::files::path_in("/var/log/", "a"), "/var/log/a");
    assert_eq!(glog::files::path_in("", "a"), "a");
    assert_eq!(glog::files::path_in("/", "a"), "/a");
    assert_eq!(glog::files::path_in("d", ""), "d/");
}

#[test]
fn files_created_now_are_named_for_this_process() {
    let mut g = Glog::new();
    g.init(file_flags("/tmp/"));
    let files = g.log_files_now(Some("prog".to_string()), 31).unwrap();
    assert_eq!(files.len(), 3);
    assert!(files[0].path.starts_with("/tmp/prog."));
    assert!(files[0].path.contains(".log.INFO."));
    assert!(files[2].path.contains(".log.ERROR."));
    assert!(files[0].path.ends_with(".31"));
    assert!(files[0].header.starts_with("Log file created at:\n"));
    assert!(files[0].header.contains("\nRunning duration (h:mm:ss): 0:00:0"));
    assert_eq!(files[0].path.matches('.').count() >= 6, true);
}

#[test]
fn header_read_back_gives_what_was_written() {
    let text = file_header(&stamp(), &Some("box".to_string()), &Some("v1.2".to_string()), 3661, true, false);
    let fields = glog::header::parse_file_header(&text).unwrap();
    assert_eq!(fields.host, "box");
    assert_eq!(fields.fingerprint, Some("v1.2".to_string()));
    assert_eq!(fields.duration, "1:01:01");

    let bare = file_header(&stamp(), &None, &None, 360_000, false, true);
    let fields = glog::header::parse_file_header(&bare).unwrap();
    assert_eq!(fields.host, "UNKNOWN");
    assert_eq!(fields.fingerprint, None);
    assert_eq!(fields.duration, "100:00:00");

    let empty = file_header(&stamp(), &Some(String::new()), &Some(String::new()), 0, true, true);
    let fields = glog::header::parse_file_header(&empty).unwrap();
    assert_eq!(fields.host, "");
    assert_eq!(fields.fingerprint, Some(String::new()));
    assert_eq!(fields.duration, "0:00:00");
}

#[test]
fn a_name_with_a_line_break_is_not_read_back() {
    let text = file_header(&stamp(), &Some("bo\nx".to_string()), &None, 1, true, false);
    assert!(glog::header::parse_file_header(&text).is_none());
}

#[test]
fn other_texts_are_no_headers() {
    assert!(glog::header::parse_file_header("").is_none());
    assert!(glog::header::parse_file_header("Log file created at:\n").is_none());
    assert!(glog::header::parse_file_header("I0301 10:15:30.123456     7 a.rs:1] x\n").is_none());
    assert!(glog::header::parse_file_header(
        "Log file created at\n2024/03/01 10:15:30\nRunning on machine: box\n\
Running duration (h:mm:ss): 0:00:00\n"
    )
    .is_none());
    let short = "Log file created at:\nwhenever\nRunning on machine: box\n\
Running duration (h:mm:ss): 0:00:00";
    let fields = glog::header::parse_file_header(short).unwrap();
    assert_eq!(fields.host, "box");
    assert_eq!(fields.duration, "0:00:00");
}

#[test]
fn lines_are_cut_at_the_first_break() {
    assert_eq!(glog::header::cut_line("a\nb\nc"), ("a", "b\nc"));
    assert_eq!(glog::header::cut_line("abc"), ("abc", ""));
    assert_eq!(glog::header::cut_line("\nabc"), ("", "abc"));
    assert_eq!(glog::header::cut_line("abc\n"), ("abc", ""));
    assert_eq!(glog::header::cut_line(""), ("", ""));
    assert_eq!(glog::header::strip_prefix("key: value", "key: "), Some("value"));
    assert_eq!(glog::header::strip_prefix("key: ", "key: "), Some(""));
    assert_eq!(glog::header::strip_prefix("key", "key: "), None);
    assert_eq!(glog::header::strip_prefix("kez: value", "key: "), None);
    assert!(glog::header::same_text("a", "a"));
    assert!(!glog::header::same_text("a", "b"));
}

#[test]
fn file_plan_needs_a_clock_that_can_be_rendered() {
    let mut g = Glog::started_at(0, 0);
    g.init(file_flags("/var/log/"));
    let mut reading = ClockReading { civil: stamp(), unix_seconds: 10 };
    assert_eq!(g.log_files_at(&who(), &reading).unwrap().len(), 3);
    reading.civil.month = 13;
    assert_eq!(g.log_files_at(&who(), &reading).err(), Some(glog::LogError::ClockOutOfRange));
}
