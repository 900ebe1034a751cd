//! Poll records and the rules that gate their creation.

use vstd::prelude::*;

verus! {

/// Maximum poll duration, in seconds: thirty days.
pub const MAX_POLL_DURATION: u64 = 30 * 24 * 60 * 60;

/// Validation failures surfaced by the three poll operations.
#[derive(Clone, Copy, Debug, PartialEq, Eq, Structural)]
pub enum PollError {
    /// The poll would end before (or the moment) it starts.
    InvalidPollEndTime,
    /// The poll would start at or before the current time.
    PollStartTimeInPast,
    /// The poll window is longer than `MAX_POLL_DURATION` seconds.
    PollDurationTooLong,
    /// A vote arrived before the poll window opened.
    PollNotStarted,
    /// A vote arrived after the poll window closed.
    PollEnded,
    /// A candidate registration arrived at or after the poll start.
    InvalidCandidate,
}

/// Poll metadata and the voting time window. Created once; afterwards only
/// the two counters move, and only by candidate registration.
#[derive(Debug)]
pub struct Poll {
    pub poll_id: u64,
    pub name: String,
    pub description: String,
    pub poll_start: u64,
    pub poll_end: u64,
    pub candidate_amount: u64,
    pub next_candidate_id: u64,
}

impl Poll {
    /// The window invariant every stored poll satisfies: it ends strictly
    /// after it starts, and lasts at most `MAX_POLL_DURATION` seconds.
    pub open spec fn wf(self) -> bool {
        &&& self.poll_start < self.poll_end
        &&& self.poll_end - self.poll_start <= MAX_POLL_DURATION
    }
}

/// The three creation-time checks, in the order they are applied: the window
/// is non-empty, it starts strictly in the future, and it is short enough.
pub open spec fn poll_times_ok(current_time: u64, poll_start: u64, poll_end: u64) -> bool {
    &&& poll_end > poll_start
    &&& poll_start > current_time
    &&& poll_end - poll_start <= MAX_POLL_DURATION
}

/// Creates a poll record. The first failing check decides the error: a window
/// that ends at or before its start is `InvalidPollEndTime`; a start at or
/// before the current time is `PollStartTimeInPast`; a window longer than
/// `MAX_POLL_DURATION` seconds is `PollDurationTooLong` (exactly that long is
/// accepted). On success the poll id is derived from the current time and the
/// creator's identity, the metadata is stored verbatim, and both counters
/// start at zero.
pub fn initialize_poll(
    current_time: u64,
    authority: u64,
    description: String,
    poll_start: u64,
    poll_end: u64,
    name: String,
) -> (r: Result<Poll, PollError>)
    ensures
        r is Ok <==> poll_times_ok(current_time, poll_start, poll_end),
        poll_end <= poll_start ==> r == Result::<Poll, PollError>::Err(
            PollError::InvalidPollEndTime,
        ),
        poll_end > poll_start && poll_start <= current_time ==> r == Result::<Poll, PollError>::Err(
            PollError::PollStartTimeInPast,
        ),
        poll_end > poll_start && poll_start > current_time && poll_end - poll_start
            > MAX_POLL_DURATION ==> r == Result::<Poll, PollError>::Err(
            PollError::PollDurationTooLong,
        ),
        r is Ok ==> r->Ok_0 == (Poll {
            poll_id: crate::ids::derived_poll_id(current_time, authority),
            name,
            description,
            poll_start,
            poll_end,
            candidate_amount: 0,
            next_candidate_id: 0,
        }),
        r is Ok ==> r->Ok_0.wf(),
{
    if poll_end <= poll_start {
        return Err(PollError::InvalidPollEndTime);
    }
    if poll_start <= current_time {
        return Err(PollError::PollStartTimeInPast);
    }
    if poll_end - poll_start > MAX_POLL_DURATION {
        return Err(PollError::PollDurationTooLong);
    }
    let poll_id = crate::ids::derive_poll_id(current_time, authority);
    Ok(
        Poll {
            poll_id,
            name,
            description,
            poll_start,
            poll_end,
            candidate_amount: 0,
            next_candidate_id: 0,
        },
    )
}

} // verus!
