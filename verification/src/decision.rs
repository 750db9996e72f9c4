//! What one read of the keyboard means for the branch on offer.

use vstd::prelude::*;
use vstd::string::*;
use crate::action::{action_of, is_help, BranchAction};
use crate::branch::{Branch, BranchView};
use crate::error::{Error, ErrorView};
use crate::text::{echo_line, echo_text, help_lines, help_text, prompt_line, prompt_text};

verus! {

/// The reply to one read of the keyboard.
#[derive(Debug, PartialEq, Eq)]
pub struct Answer {
    /// What is printed now.
    pub output: String,
    /// The decision for the branch, where the read settled one: an action, or
    /// the error for a key that is no command. `None` where the same branch
    /// is offered again.
    pub decision: Option<Result<BranchAction, Error>>,
}

/// The character that a byte from the keyboard stands for.
pub open spec fn key_char(byte: u8) -> char {
    byte as char
}

/// What is printed after a read: the key on a line of its own, and, where
/// the branch is offered again, what leads up to the next read. A read that
/// gave no byte prints the prompt again; the key for help prints the legend
/// and then the prompt, unchanged.
pub open spec fn answer_output(branch: BranchView, key: Option<u8>) -> Seq<char> {
    match key {
        None => prompt_text(branch),
        Some(byte) => if is_help(key_char(byte)) {
            echo_text(key_char(byte)) + help_text() + prompt_text(branch)
        } else {
            echo_text(key_char(byte))
        },
    }
}

/// The decision that a read settles, if any.
pub open spec fn answer_decision(key: Option<u8>) -> Option<Result<BranchAction, ErrorView>> {
    match key {
        None => None,
        Some(byte) => if is_help(key_char(byte)) {
            None
        } else {
            match action_of(key_char(byte)) {
                Some(action) => Some(Ok(action)),
                None => Some(Err(ErrorView::InvalidInput(key_char(byte)))),
            }
        },
    }
}

/// A decision with its error as plain values.
pub open spec fn decision_view(decision: Option<Result<BranchAction, Error>>) -> Option<
    Result<BranchAction, ErrorView>,
> {
    match decision {
        None => None,
        Some(Ok(action)) => Some(Ok(action)),
        Some(Err(e)) => Some(Err(e@)),
    }
}

/// Turns one read of the keyboard, made at the prompt for `branch`, into what
/// to print and what was decided. `key` is the byte that was read, or `None`
/// where the read gave none.
///
/// The keys `k`, `d`, `u` and `q` decide; `?` shows the legend and offers the
/// same branch again with the same prompt; any other key is an error that
/// names it.
pub fn get_branch_action_from_user(branch: &Branch, key: Option<u8>) -> (r: Answer)
    ensures
        r.output@ == answer_output(branch@, key),
        decision_view(r.decision) == answer_decision(key),
{
    match key {
        None => Answer { output: prompt_line(branch), decision: None },
        Some(byte) => {
            let c = byte as char;
            let mut output = echo_line(c);
            if c == '?' {
                let legend = help_lines();
                let prompt = prompt_line(branch);
                output.append(legend.as_str());
                output.append(prompt.as_str());
                Answer { output, decision: None }
            } else {
                Answer { output, decision: Some(BranchAction::try_from(c)) }
            }
        },
    }
}

} // verus!
