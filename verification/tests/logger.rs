use stamped_log::logger::FATAL_STATUS;
use stamped_log::{Action, ClockReading, Logger, TimeZone};

const EAST: TimeZone = TimeZone::FixedOffset(3_600);

fn reading() -> ClockReading {
    ClockReading::new(1_700_000_000, 3_600).expect("a reading in range")
}

fn out(text: &str) -> Action {
    Action::Stdout(text.to_string())
}

fn err(text: &str) -> Action {
    Action::Stderr(text.to_string())
}

fn kept(text: &str, zone: TimeZone) -> Action {
    Action::AppendFile { content: text.to_string(), zone }
}

#[test]
fn new_keeps_the_configuration() {
    let logger = Logger::new(true, EAST, 72);
    assert!(logger.write_in_files());
    assert_eq!(logger.time_zone(), EAST);
    assert_eq!(logger.status_column(), 72);
    let logger = Logger::new(false, TimeZone::SystemLocal, 0);
    assert!(!logger.write_in_files());
    assert_eq!(logger.time_zone(), TimeZone::SystemLocal);
    assert_eq!(logger.status_column(), 0);
}

#[test]
fn log_at_without_file() {
    let logger = Logger::new(false, EAST, 60);
    assert_eq!(
        logger.log_at(&reading(), "net", "link is up"),
        vec![out("🔹 [2023-11-14 23:13:20] net - link is up\n")]
    );
}

#[test]
fn log_at_with_file() {
    let logger = Logger::new(true, EAST, 60);
    assert_eq!(
        logger.log_at(&reading(), "net", "link is up"),
        vec![
            out("🔹 [2023-11-14 23:13:20] net - link is up\n"),
            kept("🔹 [2023-11-14 23:13:20] net - link is up\n", EAST),
        ]
    );
}

#[test]
fn log_without_ln_at_without_file() {
    let logger = Logger::new(false, EAST, 60);
    assert_eq!(
        logger.log_without_ln_at(&reading(), "disk", "checking"),
        vec![out("🔹 [2023-11-14 23:13:20] disk - checking")]
    );
}

#[test]
fn log_without_ln_at_with_file() {
    let logger = Logger::new(true, TimeZone::SystemLocal, 60);
    assert_eq!(
        logger.log_without_ln_at(&reading(), "disk", "checking"),
        vec![
            out("🔹 [2023-11-14 23:13:20] disk - checking"),
            kept("🔹 [2023-11-14 23:13:20] disk - checking", TimeZone::SystemLocal),
        ]
    );
}

#[test]
fn log_error_at_without_file() {
    let logger = Logger::new(false, EAST, 60);
    assert_eq!(
        logger.log_error_at(&reading(), "db", "query failed", "timeout"),
        vec![err(
            "\u{1b}[31m❌ ==================== ERROR ====================\n\
             [2023-11-14 23:13:20] db\n\
             Description: query failed\n\
             Error: timeout\n\
             ❌ ===============================================\u{1b}[0m\n"
        )]
    );
}

#[test]
fn log_error_at_with_file_keeps_the_block_uncoloured() {
    let logger = Logger::new(true, EAST, 60);
    let block = "❌ ==================== ERROR ====================\n\
                 [2023-11-14 23:13:20] db\n\
                 Description: query failed\n\
                 Error: timeout\n\
                 ❌ ===============================================";
    assert_eq!(
        logger.log_error_at(&reading(), "db", "query failed", "timeout"),
        vec![
            err(&format!("\u{1b}[31m{}\u{1b}[0m\n", block)),
            kept(&format!("{}\n", block), EAST),
        ]
    );
}

#[test]
fn log_error_does_not_end_the_process() {
    let logger = Logger::new(true, EAST, 60);
    let plan = logger.log_error_at(&reading(), "db", "query failed", "timeout");
    assert!(plan.iter().all(|step| !matches!(step, Action::Exit(_))));
    let plan = logger.log_error("db", "query failed", "timeout");
    assert!(plan.iter().all(|step| !matches!(step, Action::Exit(_))));
}

#[test]
fn println_adds_a_line_break() {
    let logger = Logger::new(false, EAST, 60);
    assert_eq!(logger.println("free text"), vec![out("free text\n")]);
    let logger = Logger::new(true, EAST, 60);
    assert_eq!(
        logger.println("free text"),
        vec![out("free text\n"), kept("free text\n", EAST)]
    );
}

#[test]
fn print_adds_nothing() {
    let logger = Logger::new(false, EAST, 60);
    assert_eq!(logger.print("free text"), vec![out("free text")]);
    let logger = Logger::new(true, EAST, 60);
    assert_eq!(
        logger.print("free text"),
        vec![out("free text"), kept("free text", EAST)]
    );
}

#[test]
fn print_of_nothing() {
    let logger = Logger::new(true, EAST, 60);
    assert_eq!(logger.print(""), vec![out(""), kept("", EAST)]);
    assert_eq!(logger.println(""), vec![out("\n"), kept("\n", EAST)]);
}

#[test]
fn print_ok_moves_then_marks() {
    let logger = Logger::new(false, EAST, 60);
    assert_eq!(
        logger.print_ok(),
        vec![Action::MoveToColumn(60), out("OK ✅\n")]
    );
    let logger = Logger::new(true, EAST, 81);
    assert_eq!(
        logger.print_ok(),
        vec![Action::MoveToColumn(81), out("OK ✅\n"), kept("OK ✅\n", EAST)]
    );
}

#[test]
fn print_fail_moves_then_marks() {
    let logger = Logger::new(false, EAST, 60);
    assert_eq!(
        logger.print_fail(),
        vec![Action::MoveToColumn(60), out("FAIL ❌\n")]
    );
    let logger = Logger::new(true, EAST, 0);
    assert_eq!(
        logger.print_fail(),
        vec![Action::MoveToColumn(0), out("FAIL ❌\n"), kept("FAIL ❌\n", EAST)]
    );
}

#[test]
fn status_column_may_be_the_last() {
    let logger = Logger::new(false, EAST, u16::MAX);
    assert_eq!(
        logger.print_ok(),
        vec![Action::MoveToColumn(u16::MAX), out("OK ✅\n")]
    );
}

#[test]
fn throw_error_reports_then_exits() {
    let logger = Logger::new(false, EAST, 60);
    assert_eq!(
        logger.throw_error("src/main.rs", 42, "cannot go on", "disk full"),
        vec![
            err(
                "\u{1b}[31m❌ ================ CRITICAL ERROR ================\n\
                 Location: src/main.rs:42\n\
                 Description: cannot go on\n\
                 Error: disk full\n\
                 ❌ ================================================\u{1b}[0m\n"
            ),
            Action::Exit(1),
        ]
    );
}

#[test]
fn throw_error_with_file_writes_before_it_exits() {
    let logger = Logger::new(true, EAST, 60);
    let block = "❌ ================ CRITICAL ERROR ================\n\
                 Location: src/main.rs:42\n\
                 Description: cannot go on\n\
                 Error: disk full\n\
                 ❌ ================================================";
    assert_eq!(
        logger.throw_error("src/main.rs", 42, "cannot go on", "disk full"),
        vec![
            err(&format!("\u{1b}[31m{}\u{1b}[0m\n", block)),
            kept(&format!("{}\n", block), EAST),
            Action::Exit(FATAL_STATUS),
        ]
    );
}

#[test]
fn throw_error_d_e_ends_with_status_one() {
    for logger in [Logger::new(false, EAST, 60), Logger::new(true, EAST, 60)] {
        let plan = logger.throw_error("lib.rs", 1, "d", "e");
        assert_eq!(plan.last(), Some(&Action::Exit(1)));
        let exits = plan.iter().filter(|step| matches!(step, Action::Exit(_))).count();
        assert_eq!(exits, 1);
    }
    assert_eq!(FATAL_STATUS, 1);
}

#[test]
fn clear_terminal_writes_the_codes_and_no_file() {
    let logger = Logger::new(true, EAST, 60);
    assert_eq!(logger.clear_terminal(), vec![out("\u{1b}[2J\u{1b}[1;1H")]);
    let logger = Logger::new(false, EAST, 60);
    assert_eq!(logger.clear_terminal(), vec![out("\u{1b}[2J\u{1b}[1;1H")]);
}

#[test]
fn log_reads_the_clock() {
    let logger = Logger::new(true, EAST, 60);
    let before = ClockReading::now(EAST).expect("a usable zone");
    let plan = logger.log("net", "link is up");
    let after = ClockReading::now(EAST).expect("a usable zone");
    assert_eq!(plan.len(), 2);
    let mut matched = false;
    let mut second: i64 = before.utc_seconds();
    while second <= after.utc_seconds() {
        let now = ClockReading::new(second, 3_600).expect("a reading in range");
        if plan == logger.log_at(&now, "net", "link is up") {
            matched = true;
        }
        second += 1;
    }
    assert!(matched);
}

#[test]
fn log_without_ln_reads_the_clock() {
    let logger = Logger::new(false, TimeZone::FixedOffset(0), 60);
    let plan = logger.log_without_ln("disk", "checking");
    assert_eq!(plan.len(), 1);
    match &plan[0] {
        Action::Stdout(text) => {
            assert!(text.starts_with("🔹 ["));
            assert!(text.ends_with("] disk - checking"));
        }
        _ => panic!("the first step writes to standard output"),
    }
}

#[test]
fn log_error_reads_the_clock() {
    let logger = Logger::new(true, TimeZone::SystemLocal, 60);
    let plan = logger.log_error("db", "query failed", "timeout");
    assert_eq!(plan.len(), 2);
    match (&plan[0], &plan[1]) {
        (Action::Stderr(painted), Action::AppendFile { content, zone }) => {
            assert_eq!(*zone, TimeZone::SystemLocal);
            assert_eq!(painted, &format!("\u{1b}[31m{}\u{1b}[0m\n", content.trim_end_matches('\n')));
            assert!(content.ends_with("] db\nDescription: query failed\nError: timeout\n❌ ===============================================\n"));
        }
        _ => panic!("standard error first, then the file"),
    }
}

#[test]
fn unusable_zone_does_nothing() {
    let logger = Logger::new(true, TimeZone::FixedOffset(86_400), 60);
    assert_eq!(logger.log("net", "link is up"), vec![]);
    assert_eq!(logger.log_without_ln("net", "link is up"), vec![]);
    assert_eq!(logger.log_error("net", "link", "down"), vec![]);
    let logger = Logger::new(false, TimeZone::FixedOffset(-90_000), 60);
    assert_eq!(logger.log("net", "link is up"), vec![]);
}

#[test]
fn unusable_zone_prints_free_text_and_keeps_no_file() {
    let logger = Logger::new(true, TimeZone::FixedOffset(86_400), 60);
    assert!(logger.write_in_files());
    assert!(!logger.is_keeping_file());
    assert_eq!(logger.println("x"), vec![out("x\n")]);
    assert_eq!(logger.print("x"), vec![out("x")]);
    assert_eq!(
        logger.print_ok(),
        vec![Action::MoveToColumn(60), out("OK ✅\n")]
    );
    let plan = logger.throw_error("lib.rs", 3, "d", "e");
    assert_eq!(plan.len(), 2);
    assert_eq!(plan.last(), Some(&Action::Exit(1)));
}

#[test]
fn a_file_is_kept_when_switched_on_in_a_usable_zone() {
    assert!(Logger::new(true, EAST, 60).is_keeping_file());
    assert!(Logger::new(true, TimeZone::SystemLocal, 60).is_keeping_file());
    assert!(!Logger::new(false, EAST, 60).is_keeping_file());
    assert!(!Logger::new(false, TimeZone::SystemLocal, 60).is_keeping_file());
    assert!(!Logger::new(true, TimeZone::FixedOffset(-86_400), 60).is_keeping_file());
}

#[test]
fn a_copied_action_equals_the_first() {
    let logger = Logger::new(true, EAST, 60);
    for step in logger.throw_error("lib.rs", 9, "d", "e") {
        assert_eq!(step.clone(), step);
    }
    assert_eq!(Action::MoveToColumn(3).clone(), Action::MoveToColumn(3));
}
