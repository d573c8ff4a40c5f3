//! A small logging library: it decides what a log call writes, and where.
//!
//! Every operation yields a plan, a list of [`Action`]s in the order in which
//! they are to be carried out: text for standard output or standard error, a
//! cursor move, text to append to the dated log file, the end of the process.
//! The library itself writes nothing; the caller performs the plan.
//!
//! [`Logger`] is the configurable logger. [`log`] is a plain entry point
//! beside it, with a format of its own and the time of UTC-3.

use vstd::prelude::*;

pub mod action;
pub mod clock;
pub mod format;
pub mod laws;
pub mod logger;

pub use crate::action::{Action, ActionModel};
pub use crate::clock::{ClockReading, TimeZone};
pub use crate::logger::Logger;

use crate::action::leaves_files_alone;
use crate::clock::{instant_in_range, rendered_instant};
use crate::format::{build_plain_line, plain_line};

verus! {

/// The offset under which [`log`] shows the time: three hours west of
/// Greenwich.
pub const PLAIN_OFFSET_SECONDS: i32 = -10_800;

/// The plan of a plain entry when the clock shows `stamp`: one line on
/// standard output.
pub open spec fn plain_plan(stamp: Seq<char>, file: Seq<char>, message: Seq<char>) -> Seq<
    ActionModel,
> {
    seq![ActionModel::Stdout(plain_line(stamp, file, message) + "\n"@)]
}

/// A plain entry for the instant `utc_seconds`, shown at UTC-3. There is
/// none for an instant that the clock cannot hold.
pub fn log_at(utc_seconds: i64, file: &str, message: &str) -> (plan: Option<Vec<Action>>)
    ensures
        plan.is_some() <==> instant_in_range(utc_seconds as int),
        plan matches Some(steps) ==> steps.deep_view() == plain_plan(
            rendered_instant(utc_seconds as int, PLAIN_OFFSET_SECONDS as int),
            file@,
            message@,
        ),
{
    match ClockReading::new(utc_seconds, PLAIN_OFFSET_SECONDS) {
        Some(now) => {
            let stamp: String = now.get_date_and_hour();
            let mut line: String = build_plain_line(stamp.as_str(), file, message);
            line.append("\n");
            let mut steps: Vec<Action> = Vec::new();
            steps.push(Action::Stdout(line));
            assert(steps.deep_view() =~= plain_plan(now.date_and_hour(), file@, message@));
            Some(steps)
        },
        None => None,
    }
}

/// A plain entry for the time of the call, shown at UTC-3: the time, the
/// name of the source file and the message, on one line of standard output.
pub fn log(file: &str, message: &str) -> (plan: Vec<Action>)
    ensures
        exists|seconds: int|
            instant_in_range(seconds) && plan.deep_view() == plain_plan(
                #[trigger] rendered_instant(seconds, PLAIN_OFFSET_SECONDS as int),
                file@,
                message@,
            ),
        leaves_files_alone(plan.deep_view()),
{
    let now: ClockReading = ClockReading::now(TimeZone::FixedOffset(PLAIN_OFFSET_SECONDS)).unwrap();
    let utc_seconds: i64 = now.utc_seconds();
    let plan: Vec<Action> = log_at(utc_seconds, file, message).unwrap();
    assert(plan.deep_view() == plain_plan(
        rendered_instant(utc_seconds as int, PLAIN_OFFSET_SECONDS as int),
        file@,
        message@,
    ));
    plan
}

} // verus!
