use chperf::paths::file_stem;
use chperf::trace::{detect_main_thread, TraceEvent, TraceFile};

fn ev(name: &str, ph: &str, dur: Option<i64>, tid: u64) -> TraceEvent {
    TraceEvent {
        name: name.to_string(),
        ph: ph.to_string(),
        dur,
        tid,
        pid: 1,
        cat: None,
    }
}

#[test]
fn first_long_run_task_wins() {
    let events = vec![
        ev("RunTask", "X", Some(10), 5),
        ev("RunTask", "X", Some(600_000), 7),
        ev("RunTask", "X", Some(900_000), 9),
    ];
    assert_eq!(detect_main_thread(&events), 7);
}

#[test]
fn half_second_exactly_is_not_long() {
    let events = vec![
        ev("RunTask", "X", Some(500_000), 3),
        ev("RunTask", "X", Some(500_001), 4),
    ];
    assert_eq!(detect_main_thread(&events), 4);
}

#[test]
fn long_task_must_be_complete_run_task() {
    let events = vec![
        ev("RunTask", "B", Some(900_000), 1),
        ev("Layout", "X", Some(900_000), 2),
        ev("RunTask", "X", Some(10), 3),
    ];
    assert_eq!(detect_main_thread(&events), 3);
}

#[test]
fn fallback_picks_busiest_thread() {
    let events = vec![
        ev("RunTask", "X", Some(10), 1),
        ev("RunTask", "X", Some(10), 2),
        ev("RunTask", "X", None, 2),
        ev("Paint", "X", Some(10), 1),
        ev("Paint", "X", Some(10), 1),
        ev("RunTask", "X", Some(10), 2),
    ];
    assert_eq!(detect_main_thread(&events), 2);
}

#[test]
fn tie_picks_one_of_the_busiest() {
    let events = vec![
        ev("RunTask", "X", Some(10), 1),
        ev("RunTask", "X", Some(10), 2),
        ev("RunTask", "X", Some(10), 3),
        ev("RunTask", "X", Some(10), 2),
        ev("RunTask", "X", Some(10), 1),
    ];
    let tid = detect_main_thread(&events);
    assert!(tid == 1 || tid == 2);
}

#[test]
fn no_run_tasks_gives_zero() {
    let events = vec![ev("Paint", "X", Some(900_000), 8)];
    assert_eq!(detect_main_thread(&events), 0);
    assert_eq!(detect_main_thread(&[]), 0);
}

#[test]
fn trace_file_holds_events() {
    let file = TraceFile { trace_events: vec![ev("RunTask", "X", Some(600_000), 11)] };
    assert_eq!(detect_main_thread(&file.trace_events), 11);
}

#[test]
fn file_stem_drops_directory_and_extension() {
    assert_eq!(file_stem("traces/before.json"), "before");
    assert_eq!(file_stem("after.trace.json"), "after.trace");
    assert_eq!(file_stem("plain"), "plain");
    assert_eq!(file_stem(".hidden"), ".hidden");
}

#[test]
fn file_stem_falls_back_to_path() {
    assert_eq!(file_stem("/"), "/");
    assert_eq!(file_stem(""), "");
    assert_eq!(file_stem("dir/.."), "dir/..");
}
