//! The logger: a fixed configuration and the plan of each of its operations.

use vstd::prelude::*;

use crate::action::{leaves_files_alone, Action, ActionModel};
use crate::clock::{instant_in_range, ClockReading, TimeZone};
use crate::format::{
    build_critical_block, build_error_block, build_standard_line, clear_codes, critical_block,
    error_block, fail_mark, in_red, ok_mark, paint_red, standard_line,
};

verus! {

/// The status with which a fatal error ends the process.
pub const FATAL_STATUS: i32 = 1;

/// A logger. Its configuration is set once, when it is made.
#[derive(Debug, Clone, Copy, PartialEq, Eq)]
pub struct Logger {
    write_in_files: bool,
    time_zone: TimeZone,
    status_column: u16,
}

impl Logger {
    /// Whether what goes to the terminal is appended to the log file too.
    pub closed spec fn writes_files(self) -> bool {
        self.write_in_files
    }

    /// The zone in which the time is shown and the log file is dated.
    pub closed spec fn zone(self) -> TimeZone {
        self.time_zone
    }

    /// The column at which the mark of a finished step is put.
    pub closed spec fn column(self) -> u16 {
        self.status_column
    }

    /// Whether a log file is kept: it is switched on, and its date can be
    /// told, which takes a usable zone.
    pub open spec fn keeps_file(self) -> bool {
        self.writes_files() && self.zone().usable()
    }

    /// The plan that puts `text` on standard output and, where the log file
    /// is kept, appends the same text to it.
    pub open spec fn emit_plan(self, text: Seq<char>) -> Seq<ActionModel> {
        if self.keeps_file() {
            seq![
                ActionModel::Stdout(text),
                ActionModel::AppendFile { content: text, zone: self.zone() },
            ]
        } else {
            seq![ActionModel::Stdout(text)]
        }
    }

    /// The plan that puts `block` in red on standard error, a line break
    /// after it, and, where the log file is kept, appends the block and a
    /// line break to it, without the colour.
    pub open spec fn report_plan(self, block: Seq<char>) -> Seq<ActionModel> {
        if self.keeps_file() {
            seq![
                ActionModel::Stderr(in_red(block) + "\n"@),
                ActionModel::AppendFile { content: block + "\n"@, zone: self.zone() },
            ]
        } else {
            seq![ActionModel::Stderr(in_red(block) + "\n"@)]
        }
    }

    /// The plan of [`Logger::log`] when the clock shows `stamp`.
    pub open spec fn log_plan(self, stamp: Seq<char>, tag: Seq<char>, message: Seq<char>) -> Seq<
        ActionModel,
    > {
        self.emit_plan(standard_line(stamp, tag, message) + "\n"@)
    }

    /// The plan of [`Logger::log_without_ln`] when the clock shows `stamp`.
    pub open spec fn log_without_ln_plan(
        self,
        stamp: Seq<char>,
        tag: Seq<char>,
        message: Seq<char>,
    ) -> Seq<ActionModel> {
        self.emit_plan(standard_line(stamp, tag, message))
    }

    /// The plan of [`Logger::log_error`] when the clock shows `stamp`.
    pub open spec fn log_error_plan(
        self,
        stamp: Seq<char>,
        tag: Seq<char>,
        description: Seq<char>,
        error: Seq<char>,
    ) -> Seq<ActionModel> {
        self.report_plan(error_block(stamp, tag, description, error))
    }

    /// The plan of [`Logger::println`].
    pub open spec fn println_plan(self, content: Seq<char>) -> Seq<ActionModel> {
        self.emit_plan(content + "\n"@)
    }

    /// The plan of [`Logger::print`].
    pub open spec fn print_plan(self, content: Seq<char>) -> Seq<ActionModel> {
        self.emit_plan(content)
    }

    /// The plan of [`Logger::print_ok`].
    pub open spec fn print_ok_plan(self) -> Seq<ActionModel> {
        seq![ActionModel::MoveToColumn(self.column())] + self.println_plan(ok_mark())
    }

    /// The plan of [`Logger::print_fail`].
    pub open spec fn print_fail_plan(self) -> Seq<ActionModel> {
        seq![ActionModel::MoveToColumn(self.column())] + self.println_plan(fail_mark())
    }

    /// The plan of [`Logger::throw_error`].
    pub open spec fn throw_error_plan(
        self,
        file: Seq<char>,
        line: nat,
        description: Seq<char>,
        error: Seq<char>,
    ) -> Seq<ActionModel> {
        self.report_plan(critical_block(file, line, description, error)).push(
            ActionModel::Exit(FATAL_STATUS),
        )
    }

    /// The plan of [`Logger::clear_terminal`].
    pub open spec fn clear_terminal_plan(self) -> Seq<ActionModel> {
        seq![ActionModel::Stdout(clear_codes())]
    }

    /// Whether `now` is a reading that this logger's clock may give.
    pub open spec fn may_read(self, now: ClockReading) -> bool {
        self.zone().admits(now.offset()) && instant_in_range(now.instant())
    }

    /// A logger that mirrors its output to the log file if `write_in_files`
    /// is set, shows the time in `time_zone` and puts status marks at
    /// `status_column`.
    pub fn new(write_in_files: bool, time_zone: TimeZone, status_column: u16) -> (logger: Logger)
        ensures
            logger.writes_files() == write_in_files,
            logger.zone() == time_zone,
            logger.column() == status_column,
    {
        Logger { write_in_files, time_zone, status_column }
    }

    /// Whether what goes to the terminal is appended to the log file too.
    pub fn write_in_files(&self) -> (enabled: bool)
        ensures
            enabled == self.writes_files(),
    {
        self.write_in_files
    }

    /// The zone in which the time is shown and the log file is dated.
    pub fn time_zone(&self) -> (zone: TimeZone)
        ensures
            zone == self.zone(),
    {
        self.time_zone
    }

    /// The column at which the mark of a finished step is put.
    pub fn status_column(&self) -> (column: u16)
        ensures
            column == self.column(),
    {
        self.status_column
    }

    /// Tells whether a log file is kept.
    pub fn is_keeping_file(&self) -> (kept: bool)
        ensures
            kept == self.keeps_file(),
    {
        self.write_in_files && self.time_zone.is_usable()
    }

    fn emit(&self, text: String) -> (plan: Vec<Action>)
        ensures
            plan.deep_view() == self.emit_plan(text@),
    {
        let mut plan: Vec<Action> = Vec::new();
        if self.is_keeping_file() {
            let copy: String = text.clone();
            plan.push(Action::Stdout(text));
            plan.push(Action::AppendFile { content: copy, zone: self.time_zone });
        } else {
            plan.push(Action::Stdout(text));
        }
        assert(plan.deep_view() =~= self.emit_plan(text@));
        plan
    }

    fn report(&self, block: String) -> (plan: Vec<Action>)
        ensures
            plan.deep_view() == self.report_plan(block@),
    {
        let mut painted: String = paint_red(block.as_str());
        painted.append("\n");
        let mut plan: Vec<Action> = Vec::new();
        plan.push(Action::Stderr(painted));
        if self.is_keeping_file() {
            let mut plain: String = block;
            plain.append("\n");
            plan.push(Action::AppendFile { content: plain, zone: self.time_zone });
        }
        assert(plan.deep_view() =~= self.report_plan(block@));
        plan
    }

    /// An ordinary entry at the time `now`: the line and a line break go to
    /// standard output and, where the log file is kept, to the file.
    pub fn log_at(&self, now: &ClockReading, tag: &str, message: &str) -> (plan: Vec<Action>)
        ensures
            plan.deep_view() == self.log_plan(now.date_and_hour(), tag@, message@),
    {
        let stamp: String = now.get_date_and_hour();
        let mut line: String = build_standard_line(stamp.as_str(), tag, message);
        line.append("\n");
        self.emit(line)
    }

    /// An ordinary entry at the time of the call. With a zone in which no
    /// clock can be read, nothing is done.
    pub fn log(&self, tag: &str, message: &str) -> (plan: Vec<Action>)
        ensures
            !self.zone().usable() ==> plan.deep_view() == Seq::<ActionModel>::empty(),
            self.zone().usable() ==> exists|now: ClockReading|
                self.may_read(now) && plan.deep_view() == #[trigger] self.log_plan(
                    now.date_and_hour(),
                    tag@,
                    message@,
                ),
            !self.keeps_file() ==> leaves_files_alone(plan.deep_view()),
    {
        match ClockReading::now(self.time_zone) {
            Some(now) => self.log_at(&now, tag, message),
            None => Vec::new(),
        }
    }

    /// An ordinary entry at the time `now`, left open: the line goes out
    /// without a line break, so that a status mark can follow it.
    pub fn log_without_ln_at(&self, now: &ClockReading, tag: &str, message: &str) -> (plan: Vec<
        Action,
    >)
        ensures
            plan.deep_view() == self.log_without_ln_plan(now.date_and_hour(), tag@, message@),
    {
        let stamp: String = now.get_date_and_hour();
        let line: String = build_standard_line(stamp.as_str(), tag, message);
        self.emit(line)
    }

    /// An ordinary entry at the time of the call, left open. With a zone in
    /// which no clock can be read, nothing is done.
    pub fn log_without_ln(&self, tag: &str, message: &str) -> (plan: Vec<Action>)
        ensures
            !self.zone().usable() ==> plan.deep_view() == Seq::<ActionModel>::empty(),
            self.zone().usable() ==> exists|now: ClockReading|
                self.may_read(now) && plan.deep_view() == #[trigger] self.log_without_ln_plan(
                    now.date_and_hour(),
                    tag@,
                    message@,
                ),
            !self.keeps_file() ==> leaves_files_alone(plan.deep_view()),
    {
        match ClockReading::now(self.time_zone) {
            Some(now) => self.log_without_ln_at(&now, tag, message),
            None => Vec::new(),
        }
    }

    /// The report of an error at the time `now`: the block goes in red to
    /// standard error and, where the log file is kept, uncoloured to the
    /// file. The process goes on.
    pub fn log_error_at(&self, now: &ClockReading, tag: &str, description: &str, error: &str) -> (plan:
        Vec<Action>)
        ensures
            plan.deep_view() == self.log_error_plan(
                now.date_and_hour(),
                tag@,
                description@,
                error@,
            ),
    {
        let stamp: String = now.get_date_and_hour();
        let block: String = build_error_block(stamp.as_str(), tag, description, error);
        self.report(block)
    }

    /// The report of an error at the time of the call. With a zone in which
    /// no clock can be read, nothing is done.
    pub fn log_error(&self, tag: &str, description: &str, error: &str) -> (plan: Vec<Action>)
        ensures
            !self.zone().usable() ==> plan.deep_view() == Seq::<ActionModel>::empty(),
            self.zone().usable() ==> exists|now: ClockReading|
                self.may_read(now) && plan.deep_view() == #[trigger] self.log_error_plan(
                    now.date_and_hour(),
                    tag@,
                    description@,
                    error@,
                ),
            !self.keeps_file() ==> leaves_files_alone(plan.deep_view()),
    {
        match ClockReading::now(self.time_zone) {
            Some(now) => self.log_error_at(&now, tag, description, error),
            None => Vec::new(),
        }
    }

    /// Free text and a line break, to standard output and, where the log
    /// file is kept, to the file.
    pub fn println(&self, content: &str) -> (plan: Vec<Action>)
        ensures
            plan.deep_view() == self.println_plan(content@),
    {
        let mut text: String = String::from_str(content);
        text.append("\n");
        self.emit(text)
    }

    /// Free text as it stands, to standard output and, where the log file is
    /// kept, to the file.
    pub fn print(&self, content: &str) -> (plan: Vec<Action>)
        ensures
            plan.deep_view() == self.print_plan(content@),
    {
        self.emit(String::from_str(content))
    }

    fn mark(&self, text: &str) -> (plan: Vec<Action>)
        ensures
            plan.deep_view() == seq![ActionModel::MoveToColumn(self.column())] + self.println_plan(
                text@,
            ),
    {
        let mut plan: Vec<Action> = Vec::new();
        plan.push(Action::MoveToColumn(self.status_column));
        let mut line: String = String::from_str(text);
        line.append("\n");
        if self.is_keeping_file() {
            let copy: String = line.clone();
            plan.push(Action::Stdout(line));
            plan.push(Action::AppendFile { content: copy, zone: self.time_zone });
        } else {
            plan.push(Action::Stdout(line));
        }
        assert(plan.deep_view() =~= seq![ActionModel::MoveToColumn(self.column())]
            + self.println_plan(text@));
        plan
    }

    /// The mark of a step that went well, at the status column.
    pub fn print_ok(&self) -> (plan: Vec<Action>)
        ensures
            plan.deep_view() == self.print_ok_plan(),
    {
        self.mark("OK ✅")
    }

    /// The mark of a step that failed, at the status column.
    pub fn print_fail(&self) -> (plan: Vec<Action>)
        ensures
            plan.deep_view() == self.print_fail_plan(),
    {
        self.mark("FAIL ❌")
    }

    /// The report of a fatal error raised at `line` of `file`: the block goes
    /// in red to standard error and, where the log file is kept, uncoloured
    /// to the file; then the process ends with status 1.
    pub fn throw_error(&self, file: &str, line: u32, description: &str, error: &str) -> (plan: Vec<
        Action,
    >)
        ensures
            plan.deep_view() == self.throw_error_plan(file@, line as nat, description@, error@),
    {
        let block: String = build_critical_block(file, line, description, error);
        let mut plan: Vec<Action> = self.report(block);
        plan.push(Action::Exit(FATAL_STATUS));
        assert(plan.deep_view() =~= self.throw_error_plan(
            file@,
            line as nat,
            description@,
            error@,
        ));
        plan
    }

    /// Clears the terminal and puts the cursor at its top left. The log file
    /// is left alone.
    pub fn clear_terminal(&self) -> (plan: Vec<Action>)
        ensures
            plan.deep_view() == self.clear_terminal_plan(),
    {
        let mut plan: Vec<Action> = Vec::new();
        plan.push(Action::Stdout(String::from_str("\x1b[2J\x1b[1;1H")));
        assert(plan.deep_view() =~= self.clear_terminal_plan());
        plan
    }
}

} // verus!
