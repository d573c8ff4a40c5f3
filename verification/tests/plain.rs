use stamped_log::clock::{MAX_UTC_SECONDS, MIN_UTC_SECONDS};
use stamped_log::{log, log_at, Action, ClockReading, TimeZone, PLAIN_OFFSET_SECONDS};

#[test]
fn plain_entry_at_the_epoch() {
    assert_eq!(
        log_at(0, "main.rs", "started"),
        Some(vec![Action::Stdout(
            "[1969-12-31 21:00:00] - main.rs: started\n".to_string()
        )])
    );
}

#[test]
fn plain_entry_is_three_hours_behind_utc() {
    assert_eq!(PLAIN_OFFSET_SECONDS, -3 * 60 * 60);
    assert_eq!(
        log_at(1_700_000_000, "worker.rs", "done"),
        Some(vec![Action::Stdout(
            "[2023-11-14 19:13:20] - worker.rs: done\n".to_string()
        )])
    );
}

#[test]
fn plain_entry_out_of_range_is_none() {
    assert_eq!(log_at(MIN_UTC_SECONDS - 1, "a", "b"), None);
    assert_eq!(log_at(MAX_UTC_SECONDS + 1, "a", "b"), None);
    assert!(log_at(MIN_UTC_SECONDS, "a", "b").is_some());
    assert!(log_at(MAX_UTC_SECONDS, "a", "b").is_some());
}

#[test]
fn plain_entry_of_empty_parts() {
    assert_eq!(
        log_at(0, "", ""),
        Some(vec![Action::Stdout("[1969-12-31 21:00:00] - : \n".to_string())])
    );
}

#[test]
fn plain_entry_reads_the_clock() {
    let zone = TimeZone::FixedOffset(PLAIN_OFFSET_SECONDS);
    let before = ClockReading::now(zone).expect("a usable zone");
    let plan = log("main.rs", "started");
    let after = ClockReading::now(zone).expect("a usable zone");
    let mut matched = false;
    let mut second: i64 = before.utc_seconds();
    while second <= after.utc_seconds() {
        if Some(&plan) == log_at(second, "main.rs", "started").as_ref() {
            matched = true;
        }
        second += 1;
    }
    assert!(matched);
}

#[test]
fn plain_entry_is_one_line_on_standard_output() {
    let plan = log("main.rs", "started");
    assert_eq!(plan.len(), 1);
    match &plan[0] {
        Action::Stdout(text) => {
            assert!(text.starts_with('['));
            assert!(text.ends_with("] - main.rs: started\n"));
            assert_eq!(text.matches('\n').count(), 1);
        }
        _ => panic!("a plain entry goes to standard output"),
    }
}
