//! From what the repository lists to the queue of branches to review.

use vstd::prelude::*;
use vstd::string::*;
use vstd::utf8::{decode_utf8, valid_utf8};
use crate::branch::{views, Branch, BranchView, CommitId};
use crate::error::{Error, ErrorView};
use crate::queue::{at_time, insert_by_time, is_review_queue, lemma_at_time_push};
use crate::time::CommitTime;

verus! {

/// One local branch as the repository gives it: the name still in bytes.
#[derive(Clone, Debug, PartialEq, Eq)]
pub struct RawBranch {
    /// The branch's name as stored.
    pub name: Vec<u8>,
    /// The commit that the branch points to.
    pub id: CommitId,
    /// When that commit was made.
    pub time: CommitTime,
    /// Whether the branch is the one checked out.
    pub is_head: bool,
}

/// What the standard library says of bytes that are not UTF-8: how long the
/// valid part is and what follows it.
pub uninterp spec fn utf8_error_text(bytes: Seq<u8>) -> Seq<char>;

/// `String::from_utf8` of the standard library on a copy of `bytes`: the
/// characters that the bytes encode, or, exactly where the bytes are not valid
/// UTF-8, the description of the standard library's error.
#[verifier::external_body]
fn decode_name(bytes: &Vec<u8>) -> (r: Result<String, String>)
    ensures
        match r {
            Ok(name) => valid_utf8(bytes@) && name@ == decode_utf8(bytes@),
            Err(description) => !valid_utf8(bytes@) && description@ == utf8_error_text(bytes@),
        },
{
    match String::from_utf8(bytes.clone()) {
        Ok(name) => Ok(name),
        Err(e) => Err(e.to_string()),
    }
}

/// The name of the branch that is never offered.
pub open spec fn protected_name() -> Seq<char> {
    "master"@
}

/// The record of a listed branch, once its name is read as text.
pub open spec fn decoded(raw: RawBranch) -> BranchView {
    BranchView {
        time: raw.time.spec_seconds() as int,
        time_text: raw.time.spec_text(),
        id: raw.id@,
        name: decode_utf8(raw.name@),
        is_head: raw.is_head,
    }
}

/// Why an entry of the listing ends the listing, if it does: the repository
/// could not read the branch, or the name is not text.
pub open spec fn failure_of(entry: Result<RawBranch, String>) -> Option<ErrorView> {
    match entry {
        Err(description) => Some(ErrorView::GitError(description@)),
        Ok(raw) => if valid_utf8(raw.name@) {
            None
        } else {
            Some(ErrorView::FromUtf8Error(utf8_error_text(raw.name@)))
        },
    }
}

/// The branches of a listing that are offered, in the order of the listing:
/// all but the protected one.
pub open spec fn eligible(found: Seq<Result<RawBranch, String>>) -> Seq<BranchView>
    decreases found.len(),
{
    if found.len() == 0 {
        Seq::empty()
    } else {
        let before = eligible(found.drop_last());
        match found.last() {
            Ok(raw) => if decoded(raw).name == protected_name() {
                before
            } else {
                before.push(decoded(raw))
            },
            Err(_) => before,
        }
    }
}

/// Builds the review queue from the listing of the local branches.
///
/// The first entry, in the order of the listing, that the repository could
/// not read or whose name is not UTF-8 ends the listing with its error, and
/// nothing is returned of the others. Otherwise every branch but `master` is
/// in the queue, oldest commit first; branches of one commit time keep the
/// order of the listing.
pub fn get_branches(found: &Vec<Result<RawBranch, String>>) -> (r: Result<Vec<Branch>, Error>)
    ensures
        match r {
            Ok(queue) => {
                &&& forall|i: int| 0 <= i < found@.len() ==> failure_of(found@[i]) is None
                &&& is_review_queue(views(queue@), eligible(found@))
                &&& forall|k: int|
                    0 <= k < queue@.len() ==> (#[trigger] queue@[k]).name@ != protected_name()
            },
            Err(e) => exists|i: int|
                {
                    &&& 0 <= i < found@.len()
                    &&& #[trigger] failure_of(found@[i]) == Some(e@)
                    &&& forall|j: int| 0 <= j < i ==> failure_of(found@[j]) is None
                },
        },
{
    let mut queue: Vec<Branch> = Vec::new();
    let protected = String::from_str("master");
    let mut i: usize = 0;
    proof {
        assert(found@.take(0) =~= Seq::empty());
    }
    while i < found.len()
        invariant
            i <= found@.len(),
            protected@ == protected_name(),
            forall|j: int| 0 <= j < i ==> failure_of(found@[j]) is None,
            is_review_queue(views(queue@), eligible(found@.take(i as int))),
            forall|k: int| 0 <= k < queue@.len() ==> (#[trigger] queue@[k]).name@ != protected_name(),
        decreases found@.len() - i,
    {
        proof {
            assert(found@.take(i + 1).drop_last() =~= found@.take(i as int));
            assert(found@.take(i + 1).last() == found@[i as int]);
        }
        match &found[i] {
            Err(description) => {
                let e = Error::GitError(description.clone());
                assert(failure_of(found@[i as int]) == Some(e@));
                return Err(e);
            },
            Ok(raw) => {
                match decode_name(&raw.name) {
                    Err(description) => {
                        let e = Error::FromUtf8Error(description);
                        assert(failure_of(found@[i as int]) == Some(e@));
                        return Err(e);
                    },
                    Ok(name) => {
                        if name != protected {
                            let branch = Branch {
                                time: raw.time.clone(),
                                id: raw.id,
                                name,
                                is_head: raw.is_head,
                            };
                            let ghost before = views(queue@);
                            let ghost listed = eligible(found@.take(i as int));
                            assert(branch@ == decoded(*raw));
                            insert_by_time(&mut queue, branch);
                            proof {
                                assert forall|t: int| #[trigger]
                                    at_time(views(queue@), t) == at_time(
                                        listed.push(branch@),
                                        t,
                                    ) by {
                                    lemma_at_time_push(before, branch@, t);
                                    lemma_at_time_push(listed, branch@, t);
                                    assert(at_time(before, t) == at_time(listed, t));
                                }
                            }
                        }
                    },
                }
            },
        }
        i += 1;
    }
    proof {
        assert(found@.take(i as int) =~= found@);
    }
    Ok(queue)
}

} // verus!
