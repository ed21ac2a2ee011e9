use gpcl::clock::ClockTracker;
use gpcl::config::{AppIconConfig, StyleConfig};
use gpcl::launcher::{split_tokens, Executable};

#[test]
fn time_str_zero_pads() {
    let t = ClockTracker { hh: 7, mm: 5 };
    assert_eq!(t.time_str(), "07:05");
    let t = ClockTracker { hh: 23, mm: 59 };
    assert_eq!(t.time_str(), "23:59");
    let t = ClockTracker { hh: 0, mm: 0 };
    assert_eq!(t.time_str(), "00:00");
}

#[test]
fn apply_time_reports_change() {
    let mut t = ClockTracker { hh: 12, mm: 30 };
    assert!(!t.apply_time(12, 30));
    assert!(t.apply_time(12, 31));
    assert_eq!((t.hh, t.mm), (12, 31));
    assert!(t.apply_time(13, 31));
}

#[test]
fn new_tracker_holds_a_real_time() {
    // Reads the wall clock through the backend; whatever it returned,
    // the stored pair is a real time of day.
    let t = ClockTracker::new();
    assert!(t.hh < 24);
    assert!(t.mm < 60);
    let s = t.time_str();
    assert_eq!(s.len(), 5);
    assert_eq!(&s[2..3], ":");
}

#[test]
fn update_detects_no_change_immediately() {
    let mut t = ClockTracker::new();
    // The minute cannot tick twice within one call sequence's tolerance;
    // at worst this flips once, so a second update right after is stable.
    t.update();
    assert!(!t.update());
}

#[test]
fn exec_string_parses_program_and_args() {
    let e = Executable::new(&"mpv --fs video.mkv".to_string());
    assert_eq!(e.program, "mpv");
    assert_eq!(e.args, vec!["--fs".to_string(), "video.mkv".to_string()]);
}

#[test]
fn exec_string_collapses_whitespace() {
    let e = Executable::new(&"  prog \t one\n two  ".to_string());
    assert_eq!(e.program, "prog");
    assert_eq!(e.args, vec!["one".to_string(), "two".to_string()]);
}

#[test]
fn empty_exec_string_yields_empty_program() {
    let e = Executable::new(&String::new());
    assert_eq!(e.program, "");
    assert!(e.args.is_empty());
    let e = Executable::new(&"   ".to_string());
    assert_eq!(e.program, "");
    assert!(e.args.is_empty());
}

#[test]
fn split_tokens_plain() {
    assert_eq!(split_tokens("a bc  d"), vec!["a", "bc", "d"]);
    assert_eq!(split_tokens(""), Vec::<String>::new());
    assert_eq!(split_tokens("single"), vec!["single"]);
}

#[test]
fn config_defaults_are_empty() {
    let s = StyleConfig::default();
    assert!(s.font.is_none());
    assert!(s.font_weight.is_none());
    let a = AppIconConfig {
        name: "Films".to_string(),
        icon: "/tmp/i.png".to_string(),
        command: "mpv --fs".to_string(),
    };
    let e = Executable::new(&a.command);
    assert_eq!(e.program, "mpv");
}
