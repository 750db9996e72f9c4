//! One local branch as the review sees it.

use vstd::prelude::*;
use crate::time::CommitTime;

verus! {

/// Number of bytes in a commit identifier.
pub const ID_BYTES: usize = 20;

/// Number of hexadecimal digits of an identifier that a prompt shows.
pub const SHORT_ID_DIGITS: usize = 7;

/// The identifier of a commit.
#[derive(Clone, Copy, Debug, PartialEq, Eq)]
pub struct CommitId {
    pub bytes: [u8; ID_BYTES],
}

/// The hexadecimal digit, in lower case, for a value below sixteen.
pub open spec fn hex_digit_of(value: int) -> char {
    if value < 10 {
        (48 + value) as char
    } else {
        (87 + value) as char
    }
}

/// The `i`-th hexadecimal digit of `bytes`: each byte gives two digits, the
/// high half first.
pub open spec fn hex_digit_at(bytes: Seq<u8>, i: int) -> char {
    if i % 2 == 0 {
        hex_digit_of(bytes[i / 2] as int / 16)
    } else {
        hex_digit_of(bytes[i / 2] as int % 16)
    }
}

/// `bytes` in hexadecimal.
pub open spec fn hex(bytes: Seq<u8>) -> Seq<char> {
    Seq::new(2 * bytes.len(), |i: int| hex_digit_at(bytes, i))
}

fn hex_digit(value: u8) -> (c: char)
    requires
        value < 16,
    ensures
        c == hex_digit_of(value as int),
{
    if value < 10 {
        (48u8 + value) as char
    } else {
        (87u8 + value) as char
    }
}

impl View for CommitId {
    type V = Seq<u8>;

    open spec fn view(&self) -> Seq<u8> {
        self.bytes@
    }
}

impl CommitId {
    /// The identifier as the user reads it in a prompt: the first seven
    /// digits of its hexadecimal form.
    pub open spec fn short_text(self) -> Seq<char> {
        hex(self@).take(7)
    }

    /// The first seven hexadecimal digits of the identifier.
    pub fn short(&self) -> (r: String)
        ensures
            r@ == self.short_text(),
    {
        let mut out = String::new();
        let mut i: usize = 0;
        while i < SHORT_ID_DIGITS
            invariant
                i <= SHORT_ID_DIGITS,
                out@ == hex(self@).take(i as int),
            decreases SHORT_ID_DIGITS - i,
        {
            let byte: u8 = self.bytes[i / 2];
            let half: u8 = if i % 2 == 0 {
                byte / 16
            } else {
                byte % 16
            };
            out.push(hex_digit(half));
            assert(out@ =~= hex(self@).take(i + 1));
            i += 1;
        }
        out
    }
}

/// One local branch: what identifies it and what the user is shown of it.
#[derive(Clone, Debug, PartialEq, Eq)]
pub struct Branch {
    /// When the branch's last commit was made.
    pub time: CommitTime,
    /// The commit that the branch points to.
    pub id: CommitId,
    /// The branch's name.
    pub name: String,
    /// Whether the branch is the one checked out.
    pub is_head: bool,
}

/// A branch as plain values.
pub ghost struct BranchView {
    pub time: int,
    pub time_text: Seq<char>,
    pub id: Seq<u8>,
    pub name: Seq<char>,
    pub is_head: bool,
}

impl View for Branch {
    type V = BranchView;

    open spec fn view(&self) -> BranchView {
        BranchView {
            time: self.time.spec_seconds() as int,
            time_text: self.time.spec_text(),
            id: self.id@,
            name: self.name@,
            is_head: self.is_head,
        }
    }
}

/// The branches of a list as plain values, in the same order.
pub open spec fn views(branches: Seq<Branch>) -> Seq<BranchView> {
    Seq::new(branches.len(), |i: int| branches[i]@)
}

impl Branch {
    /// A copy of this record.
    pub fn duplicate(&self) -> (r: Branch)
        ensures
            r == *self,
    {
        Branch {
            time: self.time.clone(),
            id: self.id,
            name: self.name.clone(),
            is_head: self.is_head,
        }
    }
}

} // verus!
