//! The command vocabulary: what a keystroke asks for.

use vstd::prelude::*;
use crate::error::Error;

verus! {

/// What the user decided for the branch on offer.
#[derive(Clone, Copy, Debug, PartialEq, Eq, Structural)]
pub enum BranchAction {
    /// Stop the review; the branches not yet offered stay as they are.
    Quit,
    /// Remove the branch from the repository.
    Delete,
    /// Leave the branch and go on.
    Keep,
    /// Bring back the branch that was deleted last.
    Undo,
}

/// The key that asks for the legend. It is no action: the same branch is
/// offered again.
pub open spec fn is_help(c: char) -> bool {
    c == '?'
}

/// The action bound to a key, if any.
pub open spec fn action_of(c: char) -> Option<BranchAction> {
    if c == 'k' {
        Some(BranchAction::Keep)
    } else if c == 'd' {
        Some(BranchAction::Delete)
    } else if c == 'u' {
        Some(BranchAction::Undo)
    } else if c == 'q' {
        Some(BranchAction::Quit)
    } else {
        None
    }
}

impl BranchAction {
    /// Maps a key to its action. Every character without an action is
    /// rejected, and the error carries it.
    pub fn try_from(c: char) -> (r: Result<BranchAction, Error>)
        ensures
            match action_of(c) {
                Some(action) => r == Ok::<BranchAction, Error>(action),
                None => r == Err::<BranchAction, Error>(Error::InvalidInput(c)),
            },
    {
        match c {
            'q' => Ok(BranchAction::Quit),
            'd' => Ok(BranchAction::Delete),
            'k' => Ok(BranchAction::Keep),
            'u' => Ok(BranchAction::Undo),
            _ => Err(Error::InvalidInput(c)),
        }
    }
}

} // verus!
