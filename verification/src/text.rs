//! Everything a review prints: the prompt, the legend and the status lines.
//!
//! Lines end in a carriage return and a line feed, because they are written
//! while the terminal is in raw mode.

use vstd::prelude::*;
use vstd::string::*;
use crate::branch::{hex, Branch, BranchView};
use crate::time::wall_clock_text;

verus! {

/// `String::push` of the standard library: the character is appended to the
/// end of the string, and nothing else of the string changes.
pub assume_specification[ String::push ](s: &mut String, ch: char)
    ensures
        final(s)@ == old(s)@.push(ch),
;

/// The prompt for one branch: its name, the short form of its commit's
/// identifier, the time of that commit and the keys on offer.
pub open spec fn prompt_text(branch: BranchView) -> Seq<char> {
    "'"@ + branch.name + "' ("@ + hex(branch.id).take(7) + ") last commit at "@
        + branch.time_text + " (k/d/q/u/?) > "@
}

/// The key that was pressed, on a line of its own.
pub open spec fn echo_text(c: char) -> Seq<char> {
    seq![c] + "\r\n"@
}

/// The legend: five lines, one for each key, in the order keep, delete,
/// undo, quit, help.
pub open spec fn help_text() -> Seq<char> {
    "k - Keep the branch\r\n"@ + "d - Delete the branch\r\n"@
        + "u - Undo last deleted branch\r\n"@ + "q - Quit\r\n"@
        + "? - Show this help text\r\n"@
}

/// Said of the branch that is checked out.
pub open spec fn ignoring_text(name: Seq<char>) -> Seq<char> {
    "Ignoring '"@ + name + "' because it is the current branch\r\n"@
}

/// Said after a branch was deleted.
pub open spec fn deleted_text(name: Seq<char>) -> Seq<char> {
    "Deleted branch '"@ + name + "', to undo select 'u'\r\n"@
}

/// Said after a deleted branch was brought back.
pub open spec fn undoing_text(name: Seq<char>) -> Seq<char> {
    "Undoing deletion of branch '"@ + name + "'\r\n"@
}

/// Said when there is no deleted branch to bring back.
pub open spec fn nothing_to_undo_text() -> Seq<char> {
    "No branch to undo deletion of\r\n"@
}

/// Said when the user stops the review.
pub open spec fn quitting_text() -> Seq<char> {
    "Quitting...\r\n"@
}

/// Said when there is no branch to review.
pub open spec fn no_branches_text() -> Seq<char> {
    "No branches found (master ignored).\r\n"@
}

/// The prompt for `branch`. The time in it is chrono's reading of the
/// seconds by which the branch is ordered.
pub fn prompt_line(branch: &Branch) -> (r: String)
    ensures
        r@ == prompt_text(branch@),
        wall_clock_text(branch.time.spec_seconds()) == Some(branch@.time_text),
{
    let short = branch.id.short();
    let mut line = String::from_str("'");
    line.append(branch.name.as_str());
    line.append("' (");
    line.append(short.as_str());
    line.append(") last commit at ");
    line.append(branch.time.text().as_str());
    line.append(" (k/d/q/u/?) > ");
    line
}

/// The pressed key followed by a line break.
pub fn echo_line(c: char) -> (r: String)
    ensures
        r@ == echo_text(c),
{
    let mut line = String::new();
    line.push(c);
    line.append("\r\n");
    line
}

/// The legend of the keys.
pub fn help_lines() -> (r: String)
    ensures
        r@ == help_text(),
{
    let mut lines = String::from_str("k - Keep the branch\r\n");
    lines.append("d - Delete the branch\r\n");
    lines.append("u - Undo last deleted branch\r\n");
    lines.append("q - Quit\r\n");
    lines.append("? - Show this help text\r\n");
    lines
}

/// The line that says that the checked-out branch `name` is passed over.
pub fn ignoring_line(name: &str) -> (r: String)
    ensures
        r@ == ignoring_text(name@),
{
    let mut line = String::from_str("Ignoring '");
    line.append(name);
    line.append("' because it is the current branch\r\n");
    line
}

/// The line that says that `name` was deleted and how to get it back.
pub fn deleted_line(name: &str) -> (r: String)
    ensures
        r@ == deleted_text(name@),
{
    let mut line = String::from_str("Deleted branch '");
    line.append(name);
    line.append("', to undo select 'u'\r\n");
    line
}

/// The line that says that `name` is back.
pub fn undoing_line(name: &str) -> (r: String)
    ensures
        r@ == undoing_text(name@),
{
    let mut line = String::from_str("Undoing deletion of branch '");
    line.append(name);
    line.append("'\r\n");
    line
}

} // verus!
