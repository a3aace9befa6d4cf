use voting_app::{FlutterVoteError, Poll, PollOption, VoterKey};

fn key(n: u8) -> VoterKey {
    VoterKey::new([n; 32])
}

fn wide_key(n: u32) -> VoterKey {
    let mut bytes = [0u8; 32];
    bytes[28..].copy_from_slice(&n.to_be_bytes());
    VoterKey::new(bytes)
}

fn lunch() -> Poll {
    let mut poll = Poll::new();
    let res = poll.init(
        "Lunch".to_string(),
        "Where to eat".to_string(),
        vec!["Pizza".to_string(), "Sushi".to_string()],
    );
    assert_eq!(res, Ok(()));
    poll
}

fn votes(poll: &Poll) -> Vec<u32> {
    poll.options.iter().map(|o| o.votes).collect()
}

fn tally(poll: &Poll) -> u64 {
    poll.options.iter().map(|o| o.votes as u64).sum()
}

#[test]
fn lunch_poll_scenario() {
    let mut poll = lunch();
    assert_eq!(poll.options[0].id, 1);
    assert_eq!(poll.options[0].label, "Pizza");
    assert_eq!(poll.options[0].votes, 0);
    assert_eq!(poll.options[1].id, 2);
    assert_eq!(poll.options[1].label, "Sushi");
    assert_eq!(poll.options[1].votes, 0);

    let a = key(0xA);
    let b = key(0xB);

    assert_eq!(poll.vote(1, a), Ok(()));
    assert_eq!(votes(&poll), vec![1, 0]);
    assert_eq!(poll.voters, vec![a]);

    assert_eq!(poll.vote(2, a), Err(FlutterVoteError::UserAlreadyVoted));
    assert_eq!(votes(&poll), vec![1, 0]);
    assert_eq!(poll.voters, vec![a]);

    assert_eq!(poll.vote(2, b), Ok(()));
    assert_eq!(votes(&poll), vec![1, 1]);
    assert_eq!(poll.voters, vec![a, b]);
}

#[test]
fn second_vote_of_a_voter_is_refused_for_every_option() {
    for first in [1u8, 2] {
        for second in [1u8, 2] {
            let mut poll = lunch();
            assert_eq!(poll.vote(first, key(1)), Ok(()));
            let before = votes(&poll);
            assert_eq!(poll.vote(second, key(1)), Err(FlutterVoteError::UserAlreadyVoted));
            assert_eq!(votes(&poll), before);
            assert_eq!(poll.voters, vec![key(1)]);
        }
    }
}

#[test]
fn unknown_option_is_reported_before_a_repeated_voter() {
    let mut poll = lunch();
    assert_eq!(poll.vote(1, key(1)), Ok(()));
    for id in [0u8, 3, 200] {
        assert_eq!(poll.vote(id, key(1)), Err(FlutterVoteError::PollOptionNotFound));
    }
    assert_eq!(votes(&poll), vec![1, 0]);
    assert_eq!(poll.voters, vec![key(1)]);
}

#[test]
fn vote_for_an_unknown_option_changes_no_counter() {
    let mut poll = lunch();
    assert_eq!(poll.vote(2, key(9)), Ok(()));
    for id in [0u8, 3, 4, 255] {
        assert_eq!(poll.vote(id, key(1)), Err(FlutterVoteError::PollOptionNotFound));
        assert_eq!(votes(&poll), vec![0, 1]);
        assert_eq!(poll.voters, vec![key(9)]);
    }
}

#[test]
fn votes_are_as_many_as_voters_after_every_vote() {
    let mut poll = Poll::new();
    let res = poll.init(
        "Colour".to_string(),
        "Pick one".to_string(),
        vec!["red".to_string(), "green".to_string(), "blue".to_string()],
    );
    assert_eq!(res, Ok(()));
    assert_eq!(tally(&poll), 0);
    for n in 0..300u32 {
        let id = (n % 3 + 1) as u8;
        assert_eq!(poll.vote(id, wide_key(n)), Ok(()));
        assert_eq!(tally(&poll), poll.voters.len() as u64);
        assert_eq!(poll.voters.len() as u32, n + 1);
        // A refused vote in between changes neither side.
        assert_eq!(poll.vote(id, wide_key(n)), Err(FlutterVoteError::UserAlreadyVoted));
        assert_eq!(poll.vote(4, wide_key(n + 1000)), Err(FlutterVoteError::PollOptionNotFound));
        assert_eq!(tally(&poll), poll.voters.len() as u64);
    }
    assert_eq!(votes(&poll), vec![100, 100, 100]);
}

#[test]
fn accepted_vote_changes_one_counter_and_adds_the_voter_last() {
    let mut poll = Poll::new();
    let res = poll.init(
        "Colour".to_string(),
        "Pick one".to_string(),
        vec!["red".to_string(), "green".to_string(), "blue".to_string()],
    );
    assert_eq!(res, Ok(()));
    assert_eq!(poll.vote(2, key(5)), Ok(()));
    assert_eq!(votes(&poll), vec![0, 1, 0]);
    assert_eq!(poll.vote(2, key(4)), Ok(()));
    assert_eq!(votes(&poll), vec![0, 2, 0]);
    assert_eq!(poll.vote(3, key(6)), Ok(()));
    assert_eq!(votes(&poll), vec![0, 2, 1]);
    assert_eq!(poll.voters, vec![key(5), key(4), key(6)]);
    assert_eq!(poll.name, "Colour");
    assert_eq!(poll.description, "Pick one");
    assert!(!poll.finished);
    let ids: Vec<u8> = poll.options.iter().map(|o| o.id).collect();
    assert_eq!(ids, vec![1, 2, 3]);
    let labels: Vec<&str> = poll.options.iter().map(|o| o.label.as_str()).collect();
    assert_eq!(labels, vec!["red", "green", "blue"]);
}

#[test]
fn finished_poll_refuses_every_vote() {
    let mut poll = lunch();
    assert_eq!(poll.vote(1, key(1)), Ok(()));
    poll.finished = true;
    assert_eq!(poll.vote(1, key(2)), Err(FlutterVoteError::PollAlreadyFinished));
    assert_eq!(poll.vote(9, key(2)), Err(FlutterVoteError::PollAlreadyFinished));
    assert_eq!(poll.vote(2, key(1)), Err(FlutterVoteError::PollAlreadyFinished));
    assert_eq!(votes(&poll), vec![1, 0]);
    assert_eq!(poll.voters, vec![key(1)]);
    assert!(poll.finished);
}

#[test]
fn id_carried_by_two_options_is_not_found() {
    let mut poll = lunch();
    poll.options.push(PollOption { label: "Again".to_string(), id: 2, votes: 0 });
    assert_eq!(poll.options_with_id(2), 2);
    assert_eq!(poll.vote(2, key(1)), Err(FlutterVoteError::PollOptionNotFound));
    assert_eq!(votes(&poll), vec![0, 0, 0]);
    assert!(poll.voters.is_empty());
    assert_eq!(poll.vote(1, key(1)), Ok(()));
    assert_eq!(votes(&poll), vec![1, 0, 0]);
}

#[test]
fn options_with_id_counts_the_options() {
    let poll = lunch();
    assert_eq!(poll.options_with_id(0), 0);
    assert_eq!(poll.options_with_id(1), 1);
    assert_eq!(poll.options_with_id(2), 1);
    assert_eq!(poll.options_with_id(3), 0);
    assert_eq!(Poll::new().options_with_id(1), 0);
}

#[test]
fn has_voted_tells_who_voted() {
    let mut poll = lunch();
    assert!(!poll.has_voted(&key(1)));
    assert_eq!(poll.vote(1, key(1)), Ok(()));
    assert_eq!(poll.vote(1, key(2)), Ok(()));
    assert!(poll.has_voted(&key(1)));
    assert!(poll.has_voted(&key(2)));
    assert!(!poll.has_voted(&key(3)));
    let mut near = [2u8; 32];
    near[31] = 3;
    assert!(!poll.has_voted(&VoterKey::new(near)));
}

#[test]
fn keys_that_differ_in_one_byte_are_two_voters() {
    let mut poll = lunch();
    let first = VoterKey::new([0; 32]);
    let mut bytes = [0u8; 32];
    bytes[31] = 1;
    let second = VoterKey::new(bytes);
    let mut bytes = [0u8; 32];
    bytes[0] = 1;
    let third = VoterKey::new(bytes);
    assert_eq!(poll.vote(1, first), Ok(()));
    assert_eq!(poll.vote(1, second), Ok(()));
    assert_eq!(poll.vote(1, third), Ok(()));
    assert_eq!(poll.vote(1, VoterKey::new([0; 32])), Err(FlutterVoteError::UserAlreadyVoted));
    assert_eq!(votes(&poll), vec![3, 0]);
}
