//! The text of a log entry.

use vstd::prelude::*;

verus! {

/// The line of an ordinary entry: a marker, the time in square brackets, the
/// tag, a dash and the message.
pub open spec fn standard_line(stamp: Seq<char>, tag: Seq<char>, message: Seq<char>) -> Seq<char> {
    "🔹 ["@ + stamp + "] "@ + tag + " - "@ + message
}

/// The line of the plain entry: the time in square brackets, a dash, the
/// name of the source and the message.
pub open spec fn plain_line(stamp: Seq<char>, source: Seq<char>, message: Seq<char>) -> Seq<char> {
    "["@ + stamp + "] - "@ + source + ": "@ + message
}

/// The block of a reported error: five lines, the first and the last a
/// rule, with the time and the tag, the description and the error between
/// them. It ends without a line break.
pub open spec fn error_block(
    stamp: Seq<char>,
    tag: Seq<char>,
    description: Seq<char>,
    error: Seq<char>,
) -> Seq<char> {
    "❌ ==================== ERROR ====================\n["@ + stamp + "] "@ + tag
        + "\nDescription: "@ + description + "\nError: "@ + error
        + "\n❌ ==============================================="@
}

/// The block of a fatal error: five lines, the first and the last a rule,
/// with the place of the call as file and line, the description and the
/// error between them. It ends without a line break.
pub open spec fn critical_block(
    file: Seq<char>,
    line: nat,
    description: Seq<char>,
    error: Seq<char>,
) -> Seq<char> {
    "❌ ================ CRITICAL ERROR ================\nLocation: "@ + file + ":"@ + decimal(
        line,
    ) + "\nDescription: "@ + description + "\nError: "@ + error
        + "\n❌ ================================================"@
}

/// `text` between the terminal's codes for red and for the default colour.
pub open spec fn in_red(text: Seq<char>) -> Seq<char> {
    "\x1b[31m"@ + text + "\x1b[0m"@
}

/// The codes that clear the terminal and put the cursor at its top left.
pub open spec fn clear_codes() -> Seq<char> {
    "\x1b[2J\x1b[1;1H"@
}

/// The mark of a step that went well.
pub open spec fn ok_mark() -> Seq<char> {
    "OK ✅"@
}

/// The mark of a step that failed.
pub open spec fn fail_mark() -> Seq<char> {
    "FAIL ❌"@
}

/// The character of a single decimal digit.
pub open spec fn digit(value: nat) -> char
    recommends
        value < 10,
{
    if value == 0 {
        '0'
    } else if value == 1 {
        '1'
    } else if value == 2 {
        '2'
    } else if value == 3 {
        '3'
    } else if value == 4 {
        '4'
    } else if value == 5 {
        '5'
    } else if value == 6 {
        '6'
    } else if value == 7 {
        '7'
    } else if value == 8 {
        '8'
    } else {
        '9'
    }
}

/// A number in decimal, without sign or leading zeros.
pub open spec fn decimal(value: nat) -> Seq<char>
    decreases value,
{
    if value < 10 {
        seq![digit(value)]
    } else {
        decimal(value / 10).push(digit(value % 10))
    }
}

fn digit_text(value: u32) -> (text: &'static str)
    requires
        value < 10,
    ensures
        text@ == seq![digit(value as nat)],
{
    proof {
        reveal_strlit("0");
        reveal_strlit("1");
        reveal_strlit("2");
        reveal_strlit("3");
        reveal_strlit("4");
        reveal_strlit("5");
        reveal_strlit("6");
        reveal_strlit("7");
        reveal_strlit("8");
        reveal_strlit("9");
    }
    let text: &'static str = match value {
        0 => "0",
        1 => "1",
        2 => "2",
        3 => "3",
        4 => "4",
        5 => "5",
        6 => "6",
        7 => "7",
        8 => "8",
        _ => "9",
    };
    assert(text@ =~= seq![digit(value as nat)]);
    text
}

/// Writes a number in decimal.
pub fn decimal_text(value: u32) -> (text: String)
    ensures
        text@ == decimal(value as nat),
    decreases value,
{
    if value < 10 {
        String::from_str(digit_text(value))
    } else {
        let mut text: String = decimal_text(value / 10);
        text.append(digit_text(value % 10));
        assert(text@ =~= decimal(value as nat));
        text
    }
}

/// Builds the line of an ordinary entry.
pub fn build_standard_line(stamp: &str, tag: &str, message: &str) -> (line: String)
    ensures
        line@ == standard_line(stamp@, tag@, message@),
{
    let mut line: String = String::from_str("🔹 [");
    line.append(stamp);
    line.append("] ");
    line.append(tag);
    line.append(" - ");
    line.append(message);
    line
}

/// Builds the line of the plain entry.
pub fn build_plain_line(stamp: &str, source: &str, message: &str) -> (line: String)
    ensures
        line@ == plain_line(stamp@, source@, message@),
{
    let mut line: String = String::from_str("[");
    line.append(stamp);
    line.append("] - ");
    line.append(source);
    line.append(": ");
    line.append(message);
    line
}

/// Builds the block of a reported error.
pub fn build_error_block(stamp: &str, tag: &str, description: &str, error: &str) -> (block: String)
    ensures
        block@ == error_block(stamp@, tag@, description@, error@),
{
    let mut block: String = String::from_str(
        "❌ ==================== ERROR ====================\n[",
    );
    block.append(stamp);
    block.append("] ");
    block.append(tag);
    block.append("\nDescription: ");
    block.append(description);
    block.append("\nError: ");
    block.append(error);
    block.append("\n❌ ===============================================");
    block
}

/// Builds the block of a fatal error.
pub fn build_critical_block(file: &str, line: u32, description: &str, error: &str) -> (block:
    String)
    ensures
        block@ == critical_block(file@, line as nat, description@, error@),
{
    let number: String = decimal_text(line);
    let mut block: String = String::from_str(
        "❌ ================ CRITICAL ERROR ================\nLocation: ",
    );
    block.append(file);
    block.append(":");
    block.append(number.as_str());
    block.append("\nDescription: ");
    block.append(description);
    block.append("\nError: ");
    block.append(error);
    block.append("\n❌ ================================================");
    block
}

/// Puts `text` between the terminal's codes for red and for the default
/// colour.
pub fn paint_red(text: &str) -> (painted: String)
    ensures
        painted@ == in_red(text@),
{
    let mut painted: String = String::from_str("\x1b[31m");
    painted.append(text);
    painted.append("\x1b[0m");
    painted
}

} // verus!
