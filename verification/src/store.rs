//! An in-memory keyed store for polls and their candidates, standing for the
//! storage substrate: create-if-absent keyed by `(authority, poll_start)`,
//! candidates held per poll in an append-only arena whose index is the
//! candidate id, and every operation either fully applied or fully rejected.

use vstd::prelude::*;

use crate::candidate::{initialize_candidate, Candidate};
use crate::poll::{initialize_poll, poll_times_ok, Poll, PollError};
use crate::vote::{vote, vote_accepted};

verus! {

/// What a store operation can fail with: a validation failure of the
/// operation itself, or a substrate-level failure, each kept distinct.
#[derive(Clone, Copy, Debug, PartialEq, Eq, Structural)]
pub enum VotingError {
    /// One of the poll operations' own checks failed.
    Validation(PollError),
    /// A poll keyed by the same `(authority, poll_start)` already exists.
    PollAddressCollision,
    /// No poll is stored under the given key.
    PollNotFound,
    /// The poll has no candidate with the given id.
    CandidateNotFound,
    /// The candidate found under the given id belongs to a different poll id
    /// than the one supplied.
    LookupMismatch,
    /// The poll's candidate-id counter has no next value.
    CandidateIdOverflow,
    /// The candidate's tally cannot move up without overflowing.
    VoteCountOverflow,
}

/// One stored poll: its addressing key component, the record, and its
/// candidates, in registration order.
pub struct PollSlot {
    pub authority: u64,
    pub poll: Poll,
    pub candidates: Vec<Candidate>,
}

impl PollSlot {
    /// The slot invariant: the poll's window is well formed, both counters
    /// equal the number of stored candidates, and candidate `i` holds id `i`
    /// and the owning poll's id.
    pub open spec fn wf(self) -> bool {
        &&& self.poll.wf()
        &&& self.poll.next_candidate_id == self.candidates@.len()
        &&& self.poll.candidate_amount == self.candidates@.len()
        &&& forall|i: int|
            0 <= i < self.candidates@.len() ==> {
                let c = #[trigger] self.candidates@[i];
                c.candidate_id == i && c.poll_id == self.poll.poll_id
            }
    }

    /// Whether this slot sits under the given addressing key.
    pub open spec fn keyed_by(self, authority: u64, poll_start: u64) -> bool {
        self.authority == authority && self.poll.poll_start == poll_start
    }
}

/// The store: every slot well formed, no two slots under one key.
pub struct VotingStore {
    pub polls: Vec<PollSlot>,
}

impl VotingStore {
    /// The store invariant, established by `new` and preserved by every
    /// operation.
    pub open spec fn wf(self) -> bool {
        &&& forall|i: int| 0 <= i < self.polls@.len() ==> (#[trigger] self.polls@[i]).wf()
        &&& forall|i: int, j: int|
            #![trigger self.polls@[i], self.polls@[j]]
            0 <= i < j < self.polls@.len() ==> !self.polls@[i].keyed_by(
                self.polls@[j].authority,
                self.polls@[j].poll.poll_start,
            )
    }

    /// Whether some slot sits under the given key.
    pub open spec fn has_poll(self, authority: u64, poll_start: u64) -> bool {
        exists|i: int|
            0 <= i < self.polls@.len() && (#[trigger] self.polls@[i]).keyed_by(
                authority,
                poll_start,
            )
    }

    /// The index of the slot under the given key; meaningful when `has_poll`
    /// holds, in which case the store invariant makes it unique.
    pub open spec fn poll_index(self, authority: u64, poll_start: u64) -> int {
        choose|i: int|
            0 <= i < self.polls@.len() && (#[trigger] self.polls@[i]).keyed_by(
                authority,
                poll_start,
            )
    }

    /// Whether a creation request is accepted: its times pass the three
    /// checks and its key is still free.
    pub open spec fn create_accepted(
        self,
        current_time: u64,
        authority: u64,
        poll_start: u64,
        poll_end: u64,
    ) -> bool {
        poll_times_ok(current_time, poll_start, poll_end) && !self.has_poll(authority, poll_start)
    }

    /// An empty store.
    pub fn new() -> (s: Self)
        ensures
            s.wf(),
            s.polls@.len() == 0,
    {
        VotingStore { polls: Vec::new() }
    }

    /// Creates a poll and stores it under the key `(authority, poll_start)`,
    /// returning the derived poll id. The three time checks are applied in
    /// order first; a key already held then fails with `PollAddressCollision`
    /// rather than silently overwriting. A failed call leaves the store
    /// exactly as it was.
    pub fn create_poll(
        &mut self,
        current_time: u64,
        authority: u64,
        description: String,
        poll_start: u64,
        poll_end: u64,
        name: String,
    ) -> (r: Result<u64, VotingError>)
        requires
            old(self).wf(),
        ensures
            final(self).wf(),
            r is Ok <==> old(self).create_accepted(current_time, authority, poll_start, poll_end),
            r is Err ==> *final(self) == *old(self),
            poll_end <= poll_start ==> r == Result::<u64, VotingError>::Err(
                VotingError::Validation(PollError::InvalidPollEndTime),
            ),
            poll_end > poll_start && poll_start <= current_time ==> r == Result::<
                u64,
                VotingError,
            >::Err(VotingError::Validation(PollError::PollStartTimeInPast)),
            poll_end > poll_start && poll_start > current_time && poll_end - poll_start
                > crate::poll::MAX_POLL_DURATION ==> r == Result::<u64, VotingError>::Err(
                VotingError::Validation(PollError::PollDurationTooLong),
            ),
            poll_times_ok(current_time, poll_start, poll_end) && old(self).has_poll(
                authority,
                poll_start,
            ) ==> r == Result::<u64, VotingError>::Err(VotingError::PollAddressCollision),
            r is Ok ==> ({
                let slot = final(self).polls@.last();
                &&& r->Ok_0 == crate::ids::derived_poll_id(current_time, authority)
                &&& final(self).polls@ == old(self).polls@.push(slot)
                &&& slot.authority == authority
                &&& slot.candidates@.len() == 0
                &&& slot.poll == (Poll {
                    poll_id: crate::ids::derived_poll_id(current_time, authority),
                    name,
                    description,
                    poll_start,
                    poll_end,
                    candidate_amount: 0,
                    next_candidate_id: 0,
                })
            }),
            r is Ok ==> final(self).has_poll(authority, poll_start),
    {
        let poll = match initialize_poll(
            current_time,
            authority,
            description,
            poll_start,
            poll_end,
            name,
        ) {
            Ok(p) => p,
            Err(e) => {
                return Err(VotingError::Validation(e));
            },
        };
        if find_poll(&self.polls, authority, poll_start).is_some() {
            return Err(VotingError::PollAddressCollision);
        }
        let poll_id = poll.poll_id;
        let slot = PollSlot { authority, poll, candidates: Vec::new() };
        let ghost old_polls = self.polls@;
        self.polls.push(slot);
        proof {
            assert forall|i: int| 0 <= i < self.polls@.len() implies (
            #[trigger] self.polls@[i]).wf() by {
                if i < old_polls.len() {
                    assert(self.polls@[i] == old_polls[i]);
                }
            }
            assert forall|i: int, j: int|
                #![trigger self.polls@[i], self.polls@[j]]
                0 <= i < j < self.polls@.len() implies !self.polls@[i].keyed_by(
                self.polls@[j].authority,
                self.polls@[j].poll.poll_start,
            ) by {
                if j < old_polls.len() {
                    assert(self.polls@[i] == old_polls[i]);
                    assert(self.polls@[j] == old_polls[j]);
                } else {
                    assert(self.polls@[i] == old_polls[i]);
                }
            }
            assert(self.polls@[self.polls@.len() - 1].keyed_by(authority, poll_start));
        }
        Ok(poll_id)
    }

    /// Registers a candidate on the poll stored under `(authority,
    /// poll_start)`, returning the id it was assigned. A key with no poll
    /// fails with `PollNotFound`; a poll that has already started fails with
    /// `InvalidCandidate`; a counter with no next value fails with
    /// `CandidateIdOverflow`. A failed call leaves the store exactly as it
    /// was; a successful one, as one atomic step, appends the candidate with
    /// the poll's next id and a zero tally and moves both poll counters up by
    /// one.
    pub fn register_candidate(
        &mut self,
        authority: u64,
        poll_start: u64,
        current_time: u64,
        candidate_name: String,
    ) -> (r: Result<u64, VotingError>)
        requires
            old(self).wf(),
        ensures
            final(self).wf(),
            r is Err ==> *final(self) == *old(self),
            !old(self).has_poll(authority, poll_start) ==> r == Result::<u64, VotingError>::Err(
                VotingError::PollNotFound,
            ),
            old(self).has_poll(authority, poll_start) ==> ({
                let idx = old(self).poll_index(authority, poll_start);
                let slot = old(self).polls@[idx];
                &&& (current_time >= slot.poll.poll_start ==> r == Result::<u64, VotingError>::Err(
                    VotingError::Validation(PollError::InvalidCandidate),
                ))
                &&& (current_time < slot.poll.poll_start && slot.poll.next_candidate_id
                    == u64::MAX ==> r == Result::<u64, VotingError>::Err(
                    VotingError::CandidateIdOverflow,
                ))
                &&& (current_time < slot.poll.poll_start && slot.poll.next_candidate_id < u64::MAX
                    ==> {
                    &&& r == Result::<u64, VotingError>::Ok(slot.poll.next_candidate_id)
                    &&& final(self).polls@.len() == old(self).polls@.len()
                    &&& (forall|j: int|
                        0 <= j < old(self).polls@.len() && j != idx
                            ==> #[trigger] final(self).polls@[j] == old(self).polls@[j])
                    &&& final(self).polls@[idx].authority == slot.authority
                    &&& final(self).polls@[idx].poll == (Poll {
                        candidate_amount: (slot.poll.candidate_amount + 1) as u64,
                        next_candidate_id: (slot.poll.next_candidate_id + 1) as u64,
                        ..slot.poll
                    })
                    &&& final(self).polls@[idx].candidates@ == slot.candidates@.push(
                        Candidate {
                            poll_id: slot.poll.poll_id,
                            candidate_id: slot.poll.next_candidate_id,
                            candidate_name,
                            candidate_votes: 0,
                        },
                    )
                })
            }),
    {
        let idx = match find_poll(&self.polls, authority, poll_start) {
            Some(i) => i,
            None => {
                return Err(VotingError::PollNotFound);
            },
        };
        proof {
            lemma_unique_key_index(*old(self), authority, poll_start, idx as int);
        }
        if current_time >= self.polls[idx].poll.poll_start {
            return Err(VotingError::Validation(PollError::InvalidCandidate));
        }
        if self.polls[idx].poll.next_candidate_id == u64::MAX {
            return Err(VotingError::CandidateIdOverflow);
        }
        let ghost old_polls = self.polls@;
        let ghost old_slot = self.polls@[idx as int];
        let slot = elem_mut(&mut self.polls, idx);
        let c = match initialize_candidate(&mut slot.poll, current_time, candidate_name) {
            Ok(c) => c,
            Err(e) => {
                return Err(VotingError::Validation(e));
            },
        };
        let candidate_id = c.candidate_id;
        slot.candidates.push(c);
        proof {
            assert forall|i: int| 0 <= i < self.polls@.len() implies (
            #[trigger] self.polls@[i]).wf() by {
                if i != idx as int {
                    assert(self.polls@[i] == old_polls[i]);
                } else {
                    let ns = self.polls@[idx as int];
                    assert forall|k: int|
                        0 <= k < ns.candidates@.len() implies {
                        let c2 = #[trigger] ns.candidates@[k];
                        c2.candidate_id == k && c2.poll_id == ns.poll.poll_id
                    } by {
                        if k < old_slot.candidates@.len() {
                            assert(ns.candidates@[k] == old_slot.candidates@[k]);
                        }
                    }
                }
            }
            assert forall|i: int, j: int|
                #![trigger self.polls@[i], self.polls@[j]]
                0 <= i < j < self.polls@.len() implies !self.polls@[i].keyed_by(
                self.polls@[j].authority,
                self.polls@[j].poll.poll_start,
            ) by {
                assert(self.polls@[i].authority == old_polls[i].authority);
                assert(self.polls@[i].poll.poll_start == old_polls[i].poll.poll_start);
                assert(self.polls@[j].authority == old_polls[j].authority);
                assert(self.polls@[j].poll.poll_start == old_polls[j].poll.poll_start);
                assert(!old_polls[i].keyed_by(old_polls[j].authority, old_polls[j].poll.poll_start));
            }
        }
        Ok(candidate_id)
    }

    /// Casts one vote. The poll is looked up under `(authority, poll_start)`,
    /// the candidate under the given id within that poll; a supplied
    /// `poll_id` that is not the id of the poll the candidate belongs to is a
    /// lookup failure, rejected before the window is even considered. Inside
    /// the inclusive window `[poll_start, poll_end]` the candidate's tally
    /// moves up by exactly one; outside it the call fails with
    /// `PollNotStarted` or `PollEnded`; a tally at the counter's ceiling
    /// fails with `VoteCountOverflow`. A failed call leaves the store exactly
    /// as it was.
    pub fn cast_vote(
        &mut self,
        authority: u64,
        poll_start: u64,
        poll_id: u64,
        candidate_id: u64,
        current_time: u64,
    ) -> (r: Result<(), VotingError>)
        requires
            old(self).wf(),
        ensures
            final(self).wf(),
            r is Err ==> *final(self) == *old(self),
            !old(self).has_poll(authority, poll_start) ==> r == Result::<(), VotingError>::Err(
                VotingError::PollNotFound,
            ),
            old(self).has_poll(authority, poll_start) ==> ({
                let idx = old(self).poll_index(authority, poll_start);
                let slot = old(self).polls@[idx];
                &&& (candidate_id >= slot.candidates@.len() ==> r == Result::<(), VotingError>::Err(
                    VotingError::CandidateNotFound,
                ))
                &&& (candidate_id < slot.candidates@.len() && slot.poll.poll_id != poll_id ==> r
                    == Result::<(), VotingError>::Err(VotingError::LookupMismatch))
                &&& (candidate_id < slot.candidates@.len() && slot.poll.poll_id == poll_id ==> {
                    let c = slot.candidates@[candidate_id as int];
                    &&& (current_time < slot.poll.poll_start ==> r == Result::<
                        (),
                        VotingError,
                    >::Err(VotingError::Validation(PollError::PollNotStarted)))
                    &&& (current_time > slot.poll.poll_end ==> r == Result::<(), VotingError>::Err(
                        VotingError::Validation(PollError::PollEnded),
                    ))
                    &&& (vote_accepted(slot.poll, current_time) && c.candidate_votes == u64::MAX
                        ==> r == Result::<(), VotingError>::Err(VotingError::VoteCountOverflow))
                    &&& (vote_accepted(slot.poll, current_time) && c.candidate_votes < u64::MAX
                        ==> {
                        &&& r is Ok
                        &&& final(self).polls@.len() == old(self).polls@.len()
                        &&& (forall|j: int|
                            0 <= j < old(self).polls@.len() && j != idx
                                ==> #[trigger] final(self).polls@[j] == old(self).polls@[j])
                        &&& final(self).polls@[idx].authority == slot.authority
                        &&& final(self).polls@[idx].poll == slot.poll
                        &&& final(self).polls@[idx].candidates@ == slot.candidates@.update(
                            candidate_id as int,
                            Candidate {
                                candidate_votes: (c.candidate_votes + 1) as u64,
                                ..c
                            },
                        )
                    })
                })
            }),
    {
        let idx = match find_poll(&self.polls, authority, poll_start) {
            Some(i) => i,
            None => {
                return Err(VotingError::PollNotFound);
            },
        };
        proof {
            lemma_unique_key_index(*old(self), authority, poll_start, idx as int);
        }
        let clen = self.polls[idx].candidates.len();
        if candidate_id >= clen as u64 {
            return Err(VotingError::CandidateNotFound);
        }
        if self.polls[idx].poll.poll_id != poll_id {
            return Err(VotingError::LookupMismatch);
        }
        if current_time < self.polls[idx].poll.poll_start {
            return Err(VotingError::Validation(PollError::PollNotStarted));
        }
        if current_time > self.polls[idx].poll.poll_end {
            return Err(VotingError::Validation(PollError::PollEnded));
        }
        let cid = candidate_id as usize;
        if self.polls[idx].candidates[cid].candidate_votes == u64::MAX {
            return Err(VotingError::VoteCountOverflow);
        }
        let ghost old_polls = self.polls@;
        let ghost old_slot = self.polls@[idx as int];
        let slot = elem_mut(&mut self.polls, idx);
        let c = elem_mut(&mut slot.candidates, cid);
        let voted = vote(&slot.poll, c, current_time);
        proof {
            assert(voted is Ok);
            assert forall|i: int| 0 <= i < self.polls@.len() implies (
            #[trigger] self.polls@[i]).wf() by {
                if i != idx as int {
                    assert(self.polls@[i] == old_polls[i]);
                } else {
                    let ns = self.polls@[idx as int];
                    assert forall|k: int|
                        0 <= k < ns.candidates@.len() implies {
                        let c2 = #[trigger] ns.candidates@[k];
                        c2.candidate_id == k && c2.poll_id == ns.poll.poll_id
                    } by {
                        if k != cid as int {
                            assert(ns.candidates@[k] == old_slot.candidates@[k]);
                        }
                    }
                }
            }
            assert forall|i: int, j: int|
                #![trigger self.polls@[i], self.polls@[j]]
                0 <= i < j < self.polls@.len() implies !self.polls@[i].keyed_by(
                self.polls@[j].authority,
                self.polls@[j].poll.poll_start,
            ) by {
                assert(self.polls@[i].authority == old_polls[i].authority);
                assert(self.polls@[i].poll.poll_start == old_polls[i].poll.poll_start);
                assert(self.polls@[j].authority == old_polls[j].authority);
                assert(self.polls@[j].poll.poll_start == old_polls[j].poll.poll_start);
                assert(!old_polls[i].keyed_by(old_polls[j].authority, old_polls[j].poll.poll_start));
            }
        }
        Ok(())
    }
}

/// In the store's slot sequence, the index of the slot under the given key,
/// if any.
fn find_poll(polls: &Vec<PollSlot>, authority: u64, poll_start: u64) -> (r: Option<usize>)
    ensures
        match r {
            Option::Some(i) => i < polls@.len() && polls@[i as int].keyed_by(
                authority,
                poll_start,
            ),
            Option::None => forall|j: int|
                0 <= j < polls@.len() ==> !(#[trigger] polls@[j]).keyed_by(authority, poll_start),
        },
{
    let n = polls.len();
    let mut i: usize = 0;
    while i < n
        invariant
            i <= n,
            n == polls@.len(),
            forall|j: int| 0 <= j < i ==> !(#[trigger] polls@[j]).keyed_by(authority, poll_start),
        decreases n - i,
    {
        if polls[i].authority == authority && polls[i].poll.poll_start == poll_start {
            return Some(i);
        }
        i = i + 1;
    }
    None
}

/// A mutable borrow of one element, with the update it induces on the vector.
fn elem_mut<T>(v: &mut Vec<T>, i: usize) -> (e: &mut T)
    requires
        i < old(v)@.len(),
    ensures
        *e == old(v)@[i as int],
        final(v)@ == old(v)@.update(i as int, *final(e)),
{
    &mut v[i]
}

/// Under the store invariant, a key points at one slot only: any index whose
/// slot holds the key is the `poll_index`.
proof fn lemma_unique_key_index(s: VotingStore, authority: u64, poll_start: u64, i: int)
    requires
        s.wf(),
        0 <= i < s.polls@.len(),
        s.polls@[i].keyed_by(authority, poll_start),
    ensures
        s.has_poll(authority, poll_start),
        s.poll_index(authority, poll_start) == i,
{
    assert(s.has_poll(authority, poll_start));
    let j = s.poll_index(authority, poll_start);
    if i < j {
        assert(!s.polls@[i].keyed_by(s.polls@[j].authority, s.polls@[j].poll.poll_start));
    } else if j < i {
        assert(!s.polls@[j].keyed_by(s.polls@[i].authority, s.polls@[i].poll.poll_start));
    }
}

/// Law: a key that a stored poll already holds is never accepted for a second
/// creation, whatever the requested times; together with `create_poll`'s
/// guarantee that a successful creation leaves its key held, two creations
/// with one `(authority, poll_start)` pair cannot both succeed.
pub proof fn lemma_duplicate_key_rejected(
    s: VotingStore,
    current_time: u64,
    authority: u64,
    poll_start: u64,
    poll_end: u64,
)
    requires
        s.has_poll(authority, poll_start),
    ensures
        !s.create_accepted(current_time, authority, poll_start, poll_end),
{
}

/// Law: in a well-formed store, each poll's candidate ids fill the contiguous
/// range from zero up to (excluding) `next_candidate_id`, with no gaps and no
/// duplicates, and `candidate_amount` counts exactly the stored candidates.
pub proof fn lemma_candidate_ids_contiguous(s: VotingStore, idx: int)
    requires
        s.wf(),
        0 <= idx < s.polls@.len(),
    ensures
        s.polls@[idx].poll.candidate_amount == s.polls@[idx].candidates@.len(),
        s.polls@[idx].poll.next_candidate_id == s.polls@[idx].candidates@.len(),
        forall|i: int|
            0 <= i < s.polls@[idx].candidates@.len() ==> (#[trigger] s.polls@[idx].candidates@[i]).candidate_id
                == i,
{
    assert(s.polls@[idx].wf());
}

} // verus!
