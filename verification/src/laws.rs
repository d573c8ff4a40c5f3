//! What holds of every logger and every input.

use vstd::prelude::*;

use crate::action::{
    ends_process_with, file_text, leaves_files_alone, occurs_in, terminal_text, terminal_trace,
    ActionModel,
};
use crate::format::{fail_mark, ok_mark, standard_line};
use crate::logger::{Logger, FATAL_STATUS};

verus! {

/// An ordinary entry shows the tag, a dash and the message, in that order
/// and unbroken; what reaches the terminal ends with a line break; and the
/// log file, where it is kept, receives what the terminal receives,
/// character for character, and nothing where it is not.
pub proof fn law_log_line(logger: Logger, stamp: Seq<char>, tag: Seq<char>, message: Seq<char>)
    ensures
        occurs_in(tag + " - "@ + message, terminal_text(logger.log_plan(stamp, tag, message))),
        terminal_text(logger.log_plan(stamp, tag, message)).len() > 0,
        terminal_text(logger.log_plan(stamp, tag, message)).last() == '\n',
        logger.keeps_file() ==> file_text(logger.log_plan(stamp, tag, message)) == terminal_text(
            logger.log_plan(stamp, tag, message),
        ),
        !logger.keeps_file() ==> file_text(logger.log_plan(stamp, tag, message)) == Seq::<
            char,
        >::empty(),
{
    reveal_strlit("\n");
    reveal_with_fuel(terminal_text, 3);
    reveal_with_fuel(file_text, 3);
    let plan = logger.log_plan(stamp, tag, message);
    let text = standard_line(stamp, tag, message) + "\n"@;
    let head = "🔹 ["@ + stamp + "] "@;
    let core = tag + " - "@ + message;
    assert(terminal_text(plan) =~= text);
    assert(logger.keeps_file() ==> file_text(plan) =~= text);
    assert(!logger.keeps_file() ==> file_text(plan) =~= Seq::<char>::empty());
    assert(text.subrange(head.len() as int, head.len() as int + core.len()) =~= core);
}

/// An entry left open and then marked shows on the terminal, in this order:
/// the line without a line break, the move of the cursor to the status
/// column, and the mark with its line break.
pub proof fn law_mark_follows_open_line(
    logger: Logger,
    stamp: Seq<char>,
    tag: Seq<char>,
    message: Seq<char>,
)
    ensures
        terminal_trace(logger.log_without_ln_plan(stamp, tag, message) + logger.print_ok_plan())
            == seq![
            ActionModel::Stdout(standard_line(stamp, tag, message)),
            ActionModel::MoveToColumn(logger.column()),
            ActionModel::Stdout(ok_mark() + "\n"@),
        ],
        terminal_trace(logger.log_without_ln_plan(stamp, tag, message) + logger.print_fail_plan())
            == seq![
            ActionModel::Stdout(standard_line(stamp, tag, message)),
            ActionModel::MoveToColumn(logger.column()),
            ActionModel::Stdout(fail_mark() + "\n"@),
        ],
{
    let open = logger.log_without_ln_plan(stamp, tag, message);
    lemma_trace_of_marked_line(logger, open + logger.print_ok_plan(), stamp, tag, message, ok_mark());
    lemma_trace_of_marked_line(
        logger,
        open + logger.print_fail_plan(),
        stamp,
        tag,
        message,
        fail_mark(),
    );
}

proof fn lemma_trace_of_marked_line(
    logger: Logger,
    plan: Seq<ActionModel>,
    stamp: Seq<char>,
    tag: Seq<char>,
    message: Seq<char>,
    mark: Seq<char>,
)
    requires
        plan == logger.log_without_ln_plan(stamp, tag, message) + (seq![
            ActionModel::MoveToColumn(logger.column()),
        ] + logger.println_plan(mark)),
    ensures
        terminal_trace(plan) == seq![
            ActionModel::Stdout(standard_line(stamp, tag, message)),
            ActionModel::MoveToColumn(logger.column()),
            ActionModel::Stdout(mark + "\n"@),
        ],
{
    let line = ActionModel::Stdout(standard_line(stamp, tag, message));
    let kept = ActionModel::AppendFile {
        content: standard_line(stamp, tag, message),
        zone: logger.zone(),
    };
    let shift = ActionModel::MoveToColumn(logger.column());
    let status = ActionModel::Stdout(mark + "\n"@);
    let kept_status = ActionModel::AppendFile { content: mark + "\n"@, zone: logger.zone() };
    if logger.keeps_file() {
        assert(plan =~= seq![line, kept, shift, status].push(kept_status));
        lemma_trace_step(seq![line, kept, shift, status], kept_status);
        assert(seq![line, kept, shift, status] =~= seq![line, kept, shift].push(status));
        lemma_trace_step(seq![line, kept, shift], status);
        assert(seq![line, kept, shift] =~= seq![line, kept].push(shift));
        lemma_trace_step(seq![line, kept], shift);
        assert(seq![line, kept] =~= seq![line].push(kept));
        lemma_trace_step(seq![line], kept);
    } else {
        assert(plan =~= seq![line, shift].push(status));
        lemma_trace_step(seq![line, shift], status);
        assert(seq![line, shift] =~= seq![line].push(shift));
        lemma_trace_step(seq![line], shift);
    }
    assert(seq![line] =~= Seq::<ActionModel>::empty().push(line));
    lemma_trace_step(Seq::empty(), line);
    assert(terminal_trace(plan) =~= seq![line, shift, status]);
}

proof fn lemma_trace_step(before: Seq<ActionModel>, step: ActionModel)
    ensures
        terminal_trace(before.push(step)) == if step.on_terminal() {
            terminal_trace(before).push(step)
        } else {
            terminal_trace(before)
        },
{
    assert(before.push(step).drop_last() =~= before);
}

/// With the log file switched off, two calls of `println` touch no file.
pub proof fn law_println_twice_leaves_files_alone(logger: Logger, content: Seq<char>)
    requires
        !logger.writes_files(),
    ensures
        leaves_files_alone(logger.println_plan(content) + logger.println_plan(content)),
{
}

/// Where the log file is kept, what `print` appends to it is its argument,
/// unchanged, and what `println` appends is its argument and one line break.
pub proof fn law_file_keeps_content(logger: Logger, content: Seq<char>)
    requires
        logger.keeps_file(),
    ensures
        file_text(logger.print_plan(content)) == content,
        file_text(logger.println_plan(content)) == content + "\n"@,
{
    reveal_with_fuel(file_text, 3);
    assert(file_text(logger.print_plan(content)) =~= content);
    assert(file_text(logger.println_plan(content)) =~= content + "\n"@);
}

/// A fatal error ends the process with status 1: that is the last step of
/// its plan, and no step before it ends the process.
pub proof fn law_fatal_error_ends_process(
    logger: Logger,
    file: Seq<char>,
    line: nat,
    description: Seq<char>,
    error: Seq<char>,
)
    ensures
        ends_process_with(logger.throw_error_plan(file, line, description, error), FATAL_STATUS),
{
}

/// With the log file switched off, no operation of the logger touches a
/// file.
pub proof fn law_no_file_is_touched(
    logger: Logger,
    stamp: Seq<char>,
    tag: Seq<char>,
    message: Seq<char>,
    description: Seq<char>,
    error: Seq<char>,
    file: Seq<char>,
    line: nat,
)
    requires
        !logger.writes_files(),
    ensures
        leaves_files_alone(logger.log_plan(stamp, tag, message)),
        leaves_files_alone(logger.log_without_ln_plan(stamp, tag, message)),
        leaves_files_alone(logger.log_error_plan(stamp, tag, description, error)),
        leaves_files_alone(logger.println_plan(message)),
        leaves_files_alone(logger.print_plan(message)),
        leaves_files_alone(logger.print_ok_plan()),
        leaves_files_alone(logger.print_fail_plan()),
        leaves_files_alone(logger.throw_error_plan(file, line, description, error)),
        leaves_files_alone(logger.clear_terminal_plan()),
{
}

} // verus!
