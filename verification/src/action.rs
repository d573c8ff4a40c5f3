//! What a log call asks of its caller: the steps of a plan.

use vstd::prelude::*;

use crate::clock::TimeZone;

verus! {

/// One step of a plan. The caller carries the steps out in order.
#[derive(Debug, PartialEq, Eq)]
pub enum Action {
    /// Write the text to standard output, as it stands.
    Stdout(String),
    /// Write the text to standard error, as it stands.
    Stderr(String),
    /// Move the terminal's cursor to this column of the current line. A
    /// terminal that cannot do so is left alone.
    MoveToColumn(u16),
    /// Append the text, as it stands, to the log file of the current date in
    /// `zone`, creating the file if there is none.
    AppendFile { content: String, zone: TimeZone },
    /// End the process with this status. Nothing follows.
    Exit(i32),
}

/// An [`Action`] as a mathematical value: the text it carries is a sequence
/// of characters.
pub enum ActionModel {
    Stdout(Seq<char>),
    Stderr(Seq<char>),
    MoveToColumn(u16),
    AppendFile { content: Seq<char>, zone: TimeZone },
    Exit(i32),
}

impl DeepView for Action {
    type V = ActionModel;

    open spec fn deep_view(&self) -> ActionModel {
        match self {
            Action::Stdout(text) => ActionModel::Stdout(text@),
            Action::Stderr(text) => ActionModel::Stderr(text@),
            Action::MoveToColumn(column) => ActionModel::MoveToColumn(*column),
            Action::AppendFile { content, zone } => ActionModel::AppendFile {
                content: content@,
                zone: *zone,
            },
            Action::Exit(status) => ActionModel::Exit(*status),
        }
    }
}

impl Clone for Action {
    /// A copy that carries the same text.
    fn clone(&self) -> (copy: Action)
        ensures
            copy.deep_view() == self.deep_view(),
    {
        match self {
            Action::Stdout(text) => Action::Stdout(text.clone()),
            Action::Stderr(text) => Action::Stderr(text.clone()),
            Action::MoveToColumn(column) => Action::MoveToColumn(*column),
            Action::AppendFile { content, zone } => Action::AppendFile {
                content: content.clone(),
                zone: *zone,
            },
            Action::Exit(status) => Action::Exit(*status),
        }
    }
}

impl ActionModel {
    /// Whether the step is seen on the terminal.
    pub open spec fn on_terminal(self) -> bool {
        self is Stdout || self is Stderr || self is MoveToColumn
    }
}

/// The steps of `plan` that are seen on the terminal, in their order.
pub open spec fn terminal_trace(plan: Seq<ActionModel>) -> Seq<ActionModel>
    decreases plan.len(),
{
    if plan.len() == 0 {
        Seq::empty()
    } else if plan.last().on_terminal() {
        terminal_trace(plan.drop_last()).push(plan.last())
    } else {
        terminal_trace(plan.drop_last())
    }
}

/// All that `plan` writes to the terminal, both streams together, in order.
pub open spec fn terminal_text(plan: Seq<ActionModel>) -> Seq<char>
    decreases plan.len(),
{
    if plan.len() == 0 {
        Seq::empty()
    } else {
        match plan.last() {
            ActionModel::Stdout(text) => terminal_text(plan.drop_last()) + text,
            ActionModel::Stderr(text) => terminal_text(plan.drop_last()) + text,
            _ => terminal_text(plan.drop_last()),
        }
    }
}

/// All that `plan` appends to the log file, in order.
pub open spec fn file_text(plan: Seq<ActionModel>) -> Seq<char>
    decreases plan.len(),
{
    if plan.len() == 0 {
        Seq::empty()
    } else {
        match plan.last() {
            ActionModel::AppendFile { content, .. } => file_text(plan.drop_last()) + content,
            _ => file_text(plan.drop_last()),
        }
    }
}

/// Whether no step of `plan` touches a file.
pub open spec fn leaves_files_alone(plan: Seq<ActionModel>) -> bool {
    forall|i: int| 0 <= i < plan.len() ==> !(#[trigger] plan[i] is AppendFile)
}

/// Whether `plan` ends the process with `status`, as its last step and in no
/// other.
pub open spec fn ends_process_with(plan: Seq<ActionModel>, status: i32) -> bool {
    &&& plan.len() > 0
    &&& plan.last() == ActionModel::Exit(status)
    &&& forall|i: int| 0 <= i < plan.len() - 1 ==> !(#[trigger] plan[i] is Exit)
}

/// Whether `needle` stands somewhere in `text`, character for character.
pub open spec fn occurs_in(needle: Seq<char>, text: Seq<char>) -> bool {
    exists|at: int|
        0 <= at && at + needle.len() <= text.len() && #[trigger] text.subrange(
            at,
            at + needle.len(),
        ) == needle
}

} // verus!
