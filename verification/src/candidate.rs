//! Candidate records and their registration, which is open only while the
//! poll has not started.

use vstd::prelude::*;

use crate::poll::{Poll, PollError};

verus! {

/// A candidate's tally. Created once per candidate before the poll starts;
/// afterwards only `candidate_votes` moves, and only by vote increments.
#[derive(Debug)]
pub struct Candidate {
    pub poll_id: u64,
    pub candidate_id: u64,
    pub candidate_name: String,
    pub candidate_votes: u64,
}

/// Registers a candidate on a poll. Registration is closed the instant the
/// poll opens: at or after `poll_start` it fails with `InvalidCandidate` and
/// leaves the poll untouched. On success the candidate takes the poll's next
/// id, the poll's two counters each move up by one, and the tally starts at
/// zero.
pub fn initialize_candidate(poll: &mut Poll, current_time: u64, candidate_name: String) -> (r:
    Result<Candidate, PollError>)
    requires
        old(poll).next_candidate_id < u64::MAX,
        old(poll).candidate_amount < u64::MAX,
    ensures
        r is Ok <==> current_time < old(poll).poll_start,
        r is Err ==> r == Result::<Candidate, PollError>::Err(PollError::InvalidCandidate)
            && *final(poll) == *old(poll),
        r is Ok ==> r->Ok_0 == (Candidate {
            poll_id: old(poll).poll_id,
            candidate_id: old(poll).next_candidate_id,
            candidate_name,
            candidate_votes: 0,
        }),
        r is Ok ==> *final(poll) == (Poll {
            candidate_amount: (old(poll).candidate_amount + 1) as u64,
            next_candidate_id: (old(poll).next_candidate_id + 1) as u64,
            ..*old(poll)
        }),
{
    if current_time >= poll.poll_start {
        return Err(PollError::InvalidCandidate);
    }
    let candidate_id = poll.next_candidate_id;
    poll.next_candidate_id = poll.next_candidate_id + 1;
    poll.candidate_amount = poll.candidate_amount + 1;
    Ok(Candidate { poll_id: poll.poll_id, candidate_id, candidate_name, candidate_votes: 0 })
}

} // verus!
