use sha2::Digest;
use voting::candidate::initialize_candidate;
use voting::ids::{derive_poll_id, le_u64_from, u64_to_decimal};
use voting::poll::{initialize_poll, Poll, PollError, MAX_POLL_DURATION};
use voting::store::{VotingError, VotingStore};
use voting::vote::vote;

fn make_poll(current_time: u64, authority: u64, poll_start: u64, poll_end: u64) -> Poll {
    initialize_poll(
        current_time,
        authority,
        "a poll".to_string(),
        poll_start,
        poll_end,
        "poll".to_string(),
    )
    .unwrap()
}

#[test]
fn creation_rejects_end_before_start() {
    let r = initialize_poll(100, 7, String::new(), 200, 150, String::new());
    assert_eq!(r.unwrap_err(), PollError::InvalidPollEndTime);
}

#[test]
fn creation_rejects_end_equal_to_start() {
    let r = initialize_poll(100, 7, String::new(), 200, 200, String::new());
    assert_eq!(r.unwrap_err(), PollError::InvalidPollEndTime);
}

#[test]
fn creation_rejects_start_in_past() {
    let r = initialize_poll(300, 7, String::new(), 250, 400, String::new());
    assert_eq!(r.unwrap_err(), PollError::PollStartTimeInPast);
}

#[test]
fn creation_rejects_start_equal_to_now() {
    let r = initialize_poll(300, 7, String::new(), 300, 400, String::new());
    assert_eq!(r.unwrap_err(), PollError::PollStartTimeInPast);
}

#[test]
fn creation_rejects_window_longer_than_thirty_days() {
    let r = initialize_poll(100, 7, String::new(), 200, 200 + MAX_POLL_DURATION + 1, String::new());
    assert_eq!(r.unwrap_err(), PollError::PollDurationTooLong);
}

#[test]
fn creation_accepts_window_of_exactly_thirty_days() {
    let p = make_poll(100, 7, 200, 200 + MAX_POLL_DURATION);
    assert_eq!(p.poll_end - p.poll_start, 2_592_000);
}

#[test]
fn created_poll_starts_with_zeroed_counters_and_verbatim_metadata() {
    let p = initialize_poll(
        100,
        7,
        "which fruit should the office buy".to_string(),
        200,
        300,
        "best fruit".to_string(),
    )
    .unwrap();
    assert_eq!(p.candidate_amount, 0);
    assert_eq!(p.next_candidate_id, 0);
    assert_eq!(p.name, "best fruit");
    assert_eq!(p.description, "which fruit should the office buy");
    assert_eq!(p.poll_id, derive_poll_id(100, 7));
}

#[test]
fn registration_assigns_sequential_ids() {
    let mut p = make_poll(100, 7, 1000, 2000);
    let a = initialize_candidate(&mut p, 100, "a".to_string()).unwrap();
    let b = initialize_candidate(&mut p, 200, "b".to_string()).unwrap();
    let c = initialize_candidate(&mut p, 300, "c".to_string()).unwrap();
    assert_eq!(a.candidate_id, 0);
    assert_eq!(b.candidate_id, 1);
    assert_eq!(c.candidate_id, 2);
    assert_eq!(p.candidate_amount, 3);
    assert_eq!(p.next_candidate_id, 3);
    assert_eq!(a.poll_id, p.poll_id);
    assert_eq!(a.candidate_votes, 0);
    assert_eq!(a.candidate_name, "a");
}

#[test]
fn registration_closed_from_poll_start_on() {
    let mut p = make_poll(100, 7, 1000, 2000);
    let at_start = initialize_candidate(&mut p, 1000, "late".to_string());
    assert_eq!(at_start.unwrap_err(), PollError::InvalidCandidate);
    let after_start = initialize_candidate(&mut p, 1500, "later".to_string());
    assert_eq!(after_start.unwrap_err(), PollError::InvalidCandidate);
    assert_eq!(p.candidate_amount, 0);
    assert_eq!(p.next_candidate_id, 0);
}

#[test]
fn vote_window_boundaries_are_inclusive() {
    let mut p = make_poll(100, 7, 1000, 2000);
    let mut c = initialize_candidate(&mut p, 100, "a".to_string()).unwrap();
    assert_eq!(vote(&p, &mut c, 999).unwrap_err(), PollError::PollNotStarted);
    assert_eq!(c.candidate_votes, 0);
    assert!(vote(&p, &mut c, 1000).is_ok());
    assert!(vote(&p, &mut c, 2000).is_ok());
    assert_eq!(c.candidate_votes, 2);
    assert_eq!(vote(&p, &mut c, 2001).unwrap_err(), PollError::PollEnded);
    assert_eq!(c.candidate_votes, 2);
}

#[test]
fn sequential_votes_accumulate_exactly() {
    let mut p = make_poll(100, 7, 1000, 2000);
    let mut c = initialize_candidate(&mut p, 100, "a".to_string()).unwrap();
    for k in 0..5 {
        assert!(vote(&p, &mut c, 1000 + k).is_ok());
    }
    assert_eq!(c.candidate_votes, 5);
}

#[test]
fn store_rejects_second_poll_under_same_key() {
    let mut s = VotingStore::new();
    let first = s.create_poll(100, 7, "one".to_string(), 1000, 2000, "one".to_string());
    assert!(first.is_ok());
    let second = s.create_poll(150, 7, "two".to_string(), 1000, 1500, "two".to_string());
    assert_eq!(second.unwrap_err(), VotingError::PollAddressCollision);
    assert_eq!(s.polls.len(), 1);
    assert_eq!(s.polls[0].poll.name, "one");
}

#[test]
fn store_accepts_same_start_under_other_authority() {
    let mut s = VotingStore::new();
    assert!(s.create_poll(100, 7, String::new(), 1000, 2000, String::new()).is_ok());
    assert!(s.create_poll(100, 8, String::new(), 1000, 2000, String::new()).is_ok());
    assert!(s.create_poll(100, 7, String::new(), 1001, 2000, String::new()).is_ok());
    assert_eq!(s.polls.len(), 3);
}

#[test]
fn store_validation_error_wins_over_collision() {
    let mut s = VotingStore::new();
    assert!(s.create_poll(100, 7, String::new(), 1000, 2000, String::new()).is_ok());
    let late = s.create_poll(1000, 7, String::new(), 1000, 2000, String::new());
    assert_eq!(
        late.unwrap_err(),
        VotingError::Validation(PollError::PollStartTimeInPast)
    );
}

#[test]
fn store_registration_fills_the_arena_in_order() {
    let mut s = VotingStore::new();
    s.create_poll(100, 7, String::new(), 1000, 2000, String::new()).unwrap();
    for (k, name) in ["apple", "banana", "cherry"].iter().enumerate() {
        let id = s.register_candidate(7, 1000, 100, name.to_string()).unwrap();
        assert_eq!(id, k as u64);
    }
    let slot = &s.polls[0];
    assert_eq!(slot.poll.candidate_amount, 3);
    assert_eq!(slot.poll.next_candidate_id, 3);
    for (k, c) in slot.candidates.iter().enumerate() {
        assert_eq!(c.candidate_id, k as u64);
        assert_eq!(c.poll_id, slot.poll.poll_id);
        assert_eq!(c.candidate_votes, 0);
    }
    assert_eq!(slot.candidates[1].candidate_name, "banana");
}

#[test]
fn store_registration_after_start_creates_no_record() {
    let mut s = VotingStore::new();
    s.create_poll(100, 7, String::new(), 1000, 2000, String::new()).unwrap();
    let r = s.register_candidate(7, 1000, 1000, "late".to_string());
    assert_eq!(r.unwrap_err(), VotingError::Validation(PollError::InvalidCandidate));
    assert_eq!(s.polls[0].candidates.len(), 0);
    assert_eq!(s.polls[0].poll.candidate_amount, 0);
    assert_eq!(s.polls[0].poll.next_candidate_id, 0);
}

#[test]
fn store_lookup_failures_are_distinct() {
    let mut s = VotingStore::new();
    let pid = s.create_poll(100, 7, String::new(), 1000, 2000, String::new()).unwrap();
    s.register_candidate(7, 1000, 100, "a".to_string()).unwrap();
    let missing_poll = s.register_candidate(9, 1000, 100, "b".to_string());
    assert_eq!(missing_poll.unwrap_err(), VotingError::PollNotFound);
    let too_early = s.cast_vote(7, 1000, pid, 0, 999);
    assert_eq!(
        too_early.unwrap_err(),
        VotingError::Validation(PollError::PollNotStarted)
    );
    let missing_poll_vote = s.cast_vote(7, 999, pid, 0, 1500);
    assert_eq!(missing_poll_vote.unwrap_err(), VotingError::PollNotFound);
    let missing_candidate = s.cast_vote(7, 1000, pid, 1, 1500);
    assert_eq!(missing_candidate.unwrap_err(), VotingError::CandidateNotFound);
    let wrong_poll_id = s.cast_vote(7, 1000, pid.wrapping_add(1), 0, 1500);
    assert_eq!(wrong_poll_id.unwrap_err(), VotingError::LookupMismatch);
    assert_eq!(s.polls[0].candidates[0].candidate_votes, 0);
}

#[test]
fn store_vote_tally_cannot_wrap() {
    let mut s = VotingStore::new();
    let pid = s.create_poll(100, 7, String::new(), 1000, 2000, String::new()).unwrap();
    s.register_candidate(7, 1000, 100, "a".to_string()).unwrap();
    s.polls[0].candidates[0].candidate_votes = u64::MAX;
    let r = s.cast_vote(7, 1000, pid, 0, 1500);
    assert_eq!(r.unwrap_err(), VotingError::VoteCountOverflow);
    assert_eq!(s.polls[0].candidates[0].candidate_votes, u64::MAX);
}

#[test]
fn store_candidate_counter_cannot_wrap() {
    let mut s = VotingStore::new();
    s.create_poll(100, 7, String::new(), 1000, 2000, String::new()).unwrap();
    s.polls[0].poll.next_candidate_id = u64::MAX;
    s.polls[0].poll.candidate_amount = u64::MAX;
    let r = s.register_candidate(7, 1000, 100, "a".to_string());
    assert_eq!(r.unwrap_err(), VotingError::CandidateIdOverflow);
}

#[test]
fn full_poll_lifecycle() {
    let now: u64 = 50_000;
    let mut s = VotingStore::new();
    let pid = s
        .create_poll(now, 7, "pick one".to_string(), now + 100, now + 200, "poll".to_string())
        .unwrap();
    let cid = s.register_candidate(7, now + 100, now, "A".to_string()).unwrap();
    assert_eq!(cid, 0);
    for _ in 0..3 {
        assert!(s.cast_vote(7, now + 100, pid, cid, now + 150).is_ok());
    }
    assert_eq!(s.polls[0].candidates[0].candidate_votes, 3);
    let closed = s.cast_vote(7, now + 100, pid, cid, now + 250);
    assert_eq!(closed.unwrap_err(), VotingError::Validation(PollError::PollEnded));
    assert_eq!(s.polls[0].candidates[0].candidate_votes, 3);
}

#[test]
fn registration_after_open_fails_in_lifecycle() {
    let now: u64 = 50_000;
    let mut s = VotingStore::new();
    s.create_poll(now, 7, String::new(), now + 100, now + 200, String::new()).unwrap();
    let r = s.register_candidate(7, now + 100, now + 150, "B".to_string());
    assert_eq!(r.unwrap_err(), VotingError::Validation(PollError::InvalidCandidate));
    assert_eq!(s.polls[0].candidates.len(), 0);
}

#[test]
fn decimal_rendering_matches_standard_formatting() {
    assert_eq!(u64_to_decimal(0), b"0".to_vec());
    assert_eq!(u64_to_decimal(7), b"7".to_vec());
    assert_eq!(u64_to_decimal(9_876_543_210), b"9876543210".to_vec());
    assert_eq!(u64_to_decimal(u64::MAX), u64::MAX.to_string().into_bytes());
}

#[test]
fn little_endian_read_uses_first_eight_bytes() {
    assert_eq!(le_u64_from(&vec![1, 0, 0, 0, 0, 0, 0, 0, 99]), 1);
    assert_eq!(le_u64_from(&vec![0xff; 8]), u64::MAX);
    assert_eq!(
        le_u64_from(&vec![0x11, 0x22, 0x33, 0x44, 0x55, 0x66, 0x77, 0x88]),
        0x8877665544332211
    );
}

#[test]
fn poll_id_matches_independent_sha256_of_preimage() {
    let mut h = sha2::Sha256::new();
    h.update(b"5:7");
    let digest = h.finalize();
    let expected = u64::from_le_bytes(digest[0..8].try_into().unwrap());
    assert_eq!(derive_poll_id(5, 7), expected);
}

#[test]
fn poll_id_is_deterministic_and_hashed() {
    assert_eq!(derive_poll_id(1_111_111_111, 22), derive_poll_id(1_111_111_111, 22));
    // were the digest the preimage itself, the id would spell out the first
    // eight decimal digits
    assert_ne!(derive_poll_id(1_111_111_111, 22), 0x3131313131313131);
    assert_ne!(derive_poll_id(5, 7), derive_poll_id(7, 5));
}
