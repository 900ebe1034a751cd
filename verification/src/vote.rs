//! The vote operation, legal exactly while the poll window is open.

use vstd::prelude::*;

use crate::candidate::Candidate;
use crate::poll::{Poll, PollError};

verus! {

/// A vote at `current_time` is accepted exactly inside the inclusive window
/// `[poll_start, poll_end]`.
pub open spec fn vote_accepted(poll: Poll, current_time: u64) -> bool {
    poll.poll_start <= current_time <= poll.poll_end
}

/// One successful vote: the window is open, the tally has room, and exactly
/// the tally moves, up by one.
pub open spec fn vote_step(poll: Poll, before: Candidate, after: Candidate, current_time: u64) -> bool {
    &&& vote_accepted(poll, current_time)
    &&& before.candidate_votes < u64::MAX
    &&& after == (Candidate { candidate_votes: (before.candidate_votes + 1) as u64, ..before })
}

/// Casts one vote for a candidate. Before `poll_start` it fails with
/// `PollNotStarted`, after `poll_end` with `PollEnded`, both boundaries
/// included in the window; on failure the candidate is untouched. On success
/// the tally moves up by exactly one. No double-vote prevention is performed:
/// every accepted call increments the tally.
pub fn vote(poll: &Poll, candidate: &mut Candidate, current_time: u64) -> (r: Result<
    (),
    PollError,
>)
    requires
        old(candidate).candidate_votes < u64::MAX,
    ensures
        r is Ok <==> vote_accepted(*poll, current_time),
        current_time < poll.poll_start ==> r == Result::<(), PollError>::Err(
            PollError::PollNotStarted,
        ) && *final(candidate) == *old(candidate),
        current_time >= poll.poll_start && current_time > poll.poll_end ==> r == Result::<
            (),
            PollError,
        >::Err(PollError::PollEnded) && *final(candidate) == *old(candidate),
        r is Ok ==> vote_step(*poll, *old(candidate), *final(candidate), current_time),
{
    if current_time < poll.poll_start {
        return Err(PollError::PollNotStarted);
    }
    if current_time > poll.poll_end {
        return Err(PollError::PollEnded);
    }
    candidate.candidate_votes = candidate.candidate_votes + 1;
    Ok(())
}

/// Law: a run of consecutive successful votes on one candidate raises the
/// tally by exactly the number of votes cast; a candidate whose tally starts
/// at zero therefore holds exactly as many votes as were cast for it.
pub proof fn lemma_sequential_votes(poll: Poll, states: Seq<Candidate>, times: Seq<u64>)
    requires
        states.len() == times.len() + 1,
        forall|i: int|
            0 <= i < times.len() ==> vote_step(poll, states[i], states[i + 1], #[trigger] times[i]),
    ensures
        states.last().candidate_votes == states.first().candidate_votes + times.len(),
    decreases times.len(),
{
    if times.len() > 0 {
        assert(vote_step(poll, states[0], states[1], times[0]));
        assert forall|i: int| 0 <= i < times.skip(1).len() implies vote_step(
            poll,
            states.skip(1)[i],
            states.skip(1)[i + 1],
            #[trigger] times.skip(1)[i],
        ) by {
            assert(vote_step(poll, states[i + 1], states[i + 2], times[i + 1]));
        }
        lemma_sequential_votes(poll, states.skip(1), times.skip(1));
        assert(states.skip(1).first() == states[1]);
        assert(states.skip(1).last() == states.last());
    }
}

} // verus!
