//! The time of a branch's last commit, as the commit itself recorded it.

use vstd::prelude::*;

verus! {

/// The wall-clock reading that chrono prints for the given number of seconds
/// since 1970-01-01 00:00:00, or `None` where chrono has no date for it
/// (about 262,000 years either way). For the years 0 to 9999 the reading has
/// the form `YYYY-MM-DD HH:MM:SS`; for any other year chrono writes a sign
/// and at least five digits for the year.
pub uninterp spec fn wall_clock_text(seconds: i64) -> Option<Seq<char>>;

/// `chrono::DateTime::from_timestamp` with no nanoseconds, printed as a naive
/// date and time. The contract only gives the outcome its name: it is a
/// function of the seconds alone, absent exactly where chrono returns `None`.
#[verifier::external_body]
fn render_wall_clock(seconds: i64) -> (r: Option<String>)
    ensures
        match r {
            Some(text) => wall_clock_text(seconds) == Some(text@),
            None => wall_clock_text(seconds) is None,
        },
{
    match chrono::DateTime::from_timestamp(seconds, 0) {
        Some(moment) => Some(moment.naive_utc().to_string()),
        None => None,
    }
}

/// Seconds in a minute.
pub const SECONDS_PER_MINUTE: i64 = 60;

/// When a commit was made, on the clock of the place where it was made.
///
/// A value is only made by [`CommitTime::from_git`], so the text that the
/// user reads always belongs to the seconds by which branches are ordered.
#[derive(Debug, PartialEq, Eq)]
pub struct CommitTime {
    seconds: i64,
    text: String,
}

/// The commit's local seconds: its UTC seconds plus its offset from UTC.
pub open spec fn local_seconds(seconds: i64, offset_minutes: i32) -> int {
    seconds + 60 * offset_minutes
}

/// Whether a commit time can be held: the local seconds fit the machine's
/// integer and chrono has a date for them.
pub open spec fn representable(seconds: i64, offset_minutes: i32) -> bool {
    let local = local_seconds(seconds, offset_minutes);
    i64::MIN <= local <= i64::MAX && wall_clock_text(local as i64) is Some
}

impl CommitTime {
    /// Seconds since the epoch, moved by the commit's own offset from UTC.
    /// Branches are ordered by this number.
    pub closed spec fn spec_seconds(&self) -> i64 {
        self.seconds
    }

    /// The same moment as the user reads it.
    pub closed spec fn spec_text(&self) -> Seq<char> {
        self.text@
    }

    /// The text is what is printed for the seconds. It holds of every value.
    pub open spec fn wf(self) -> bool {
        wall_clock_text(self.spec_seconds()) == Some(self.spec_text())
    }

    #[verifier::type_invariant]
    spec fn fits(self) -> bool {
        wall_clock_text(self.seconds) == Some(self.text@)
    }

    /// The time of a commit made at `seconds` after the epoch (UTC) in a place
    /// `offset_minutes` ahead of UTC. `None` where that time cannot be held.
    pub fn from_git(seconds: i64, offset_minutes: i32) -> (r: Option<CommitTime>)
        ensures
            r is Some <==> representable(seconds, offset_minutes),
            match r {
                Some(time) => time.spec_seconds() == local_seconds(seconds, offset_minutes)
                    && time.wf(),
                None => true,
            },
    {
        let shift: i64 = SECONDS_PER_MINUTE * (offset_minutes as i64);
        match seconds.checked_add(shift) {
            Some(local) => match render_wall_clock(local) {
                Some(text) => Some(CommitTime { seconds: local, text }),
                None => None,
            },
            None => None,
        }
    }

    /// Seconds since the epoch on the commit's own clock.
    #[verifier::when_used_as_spec(spec_seconds)]
    pub fn seconds(&self) -> (r: i64)
        ensures
            r == self.spec_seconds(),
            self.wf(),
    {
        proof {
            use_type_invariant(self);
        }
        self.seconds
    }

    /// The time as the user reads it.
    pub fn text(&self) -> (r: &String)
        ensures
            r@ == self.spec_text(),
            self.wf(),
    {
        proof {
            use_type_invariant(self);
        }
        &self.text
    }
}

impl Clone for CommitTime {
    /// A copy of this time.
    fn clone(&self) -> (r: CommitTime)
        ensures
            r == *self,
    {
        proof {
            use_type_invariant(self);
        }
        CommitTime { seconds: self.seconds, text: self.text.clone() }
    }
}

} // verus!
