use live_poll::{LivePollContract, Poll, PollError};
use soroban_sdk::{Env, String, Vec};

/// Runs one vote the way a host does: looks up the voter marker, decides,
/// and on success writes the record back and marks the voter.
fn cast(
    stored: &mut Option<Poll>,
    voters: &mut std::vec::Vec<u32>,
    voter: u32,
    option_index: u32,
    now: u64,
) -> Result<(), PollError> {
    let already_voted = voters.contains(&voter);
    let poll = LivePollContract::vote(stored.clone(), now, already_voted, option_index)?;
    *stored = Some(poll);
    voters.push(voter);
    Ok(())
}

fn colors(env: &Env) -> (String, Vec<String>) {
    let question = String::from_str(env, "Favorite Color?");
    let mut options = Vec::new(env);
    options.push_back(String::from_str(env, "Red"));
    options.push_back(String::from_str(env, "Blue"));
    (question, options)
}

fn tally(stored: &Option<Poll>, option_index: u32) -> u32 {
    LivePollContract::get_poll(stored)
        .unwrap()
        .votes
        .get(option_index)
        .unwrap_or(0)
}

#[test]
fn test_poll_flow() {
    let env = Env::default();
    let (question, options) = colors(&env);
    let mut now: u64 = 100;
    let deadline: u64 = 200;
    let mut voters = std::vec::Vec::new();

    let mut stored = Some(LivePollContract::init_poll(
        env.clone(),
        question.clone(),
        options.clone(),
        deadline,
    ));

    let poll = LivePollContract::get_poll(&stored).unwrap();
    assert_eq!(poll.question, question);
    assert_eq!(poll.options.len(), 2);

    let voter1: u32 = 1;
    cast(&mut stored, &mut voters, voter1, 0, now).unwrap();

    let poll_after = LivePollContract::get_poll(&stored).unwrap();
    assert_eq!(poll_after.votes.get(0).unwrap(), 1);
    assert_eq!(poll_after.votes.get(1).unwrap_or(0), 0);

    let voter2: u32 = 2;
    cast(&mut stored, &mut voters, voter2, 1, now).unwrap();

    let res = cast(&mut stored, &mut voters, voter1, 0, now);
    assert_eq!(res, Err(PollError::AlreadyVoted));

    now = 201;
    let voter3: u32 = 3;
    let res_late = cast(&mut stored, &mut voters, voter3, 0, now);
    assert_eq!(res_late, Err(PollError::PollEnded));
}

#[test]
fn favorite_color_scenario() {
    let env = Env::default();
    let (question, options) = colors(&env);
    let mut voters = std::vec::Vec::new();
    let mut stored = Some(LivePollContract::init_poll(env.clone(), question, options, 200));

    assert_eq!(cast(&mut stored, &mut voters, 10, 0, 150), Ok(()));
    assert_eq!(tally(&stored, 0), 1);
    assert_eq!(LivePollContract::get_poll(&stored).unwrap().votes.len(), 1);

    assert_eq!(cast(&mut stored, &mut voters, 11, 1, 160), Ok(()));
    assert_eq!(tally(&stored, 0), 1);
    assert_eq!(tally(&stored, 1), 1);

    assert_eq!(cast(&mut stored, &mut voters, 10, 0, 170), Err(PollError::AlreadyVoted));
    assert_eq!(tally(&stored, 0), 1);
    assert_eq!(tally(&stored, 1), 1);

    assert_eq!(cast(&mut stored, &mut voters, 12, 0, 201), Err(PollError::PollEnded));
    assert_eq!(tally(&stored, 0), 1);
    assert_eq!(tally(&stored, 1), 1);
}

#[test]
fn init_poll_starts_with_empty_tally() {
    let env = Env::default();
    let (question, options) = colors(&env);
    let poll = LivePollContract::init_poll(env.clone(), question.clone(), options.clone(), 42);
    assert_eq!(poll.question, question);
    assert_eq!(poll.options, options);
    assert_eq!(poll.deadline, 42);
    assert_eq!(poll.votes.len(), 0);
}

#[test]
fn reinit_resets_tally_but_keeps_markers() {
    let env = Env::default();
    let (question, options) = colors(&env);
    let mut voters = std::vec::Vec::new();
    let mut stored = Some(LivePollContract::init_poll(
        env.clone(),
        question.clone(),
        options.clone(),
        200,
    ));
    cast(&mut stored, &mut voters, 1, 0, 100).unwrap();
    assert_eq!(tally(&stored, 0), 1);

    stored = Some(LivePollContract::init_poll(env.clone(), question, options, 300));
    assert_eq!(tally(&stored, 0), 0);
    assert_eq!(cast(&mut stored, &mut voters, 1, 1, 100), Err(PollError::AlreadyVoted));
}

#[test]
fn read_twice_gives_same_record() {
    let env = Env::default();
    let (question, options) = colors(&env);
    let mut voters = std::vec::Vec::new();
    let mut stored = Some(LivePollContract::init_poll(env.clone(), question, options, 200));
    cast(&mut stored, &mut voters, 1, 1, 100).unwrap();

    let first = LivePollContract::get_poll(&stored).unwrap();
    let second = LivePollContract::get_poll(&stored).unwrap();
    assert_eq!(first, second);
    assert_eq!(first.deadline, 200);
    assert_eq!(second.votes.get(1), Some(1));
}

#[test]
fn second_vote_refused_for_any_option() {
    let env = Env::default();
    let (question, options) = colors(&env);
    let mut voters = std::vec::Vec::new();
    let mut stored = Some(LivePollContract::init_poll(env.clone(), question, options, 200));
    assert_eq!(cast(&mut stored, &mut voters, 7, 0, 100), Ok(()));
    assert_eq!(cast(&mut stored, &mut voters, 7, 0, 101), Err(PollError::AlreadyVoted));
    assert_eq!(cast(&mut stored, &mut voters, 7, 1, 102), Err(PollError::AlreadyVoted));
    assert_eq!(cast(&mut stored, &mut voters, 7, 5, 103), Err(PollError::AlreadyVoted));
    assert_eq!(tally(&stored, 0), 1);
    assert_eq!(tally(&stored, 1), 0);
}

#[test]
fn deadline_is_inclusive() {
    let env = Env::default();
    let (question, options) = colors(&env);
    let poll = LivePollContract::init_poll(env.clone(), question, options, 200);

    let at_deadline = LivePollContract::decide(poll.clone(), 200, false, 0).unwrap();
    assert_eq!(at_deadline.votes.get(0), Some(1));

    let late = LivePollContract::decide(poll.clone(), 201, false, 0);
    assert_eq!(late, Err(PollError::PollEnded));
}

#[test]
fn deadline_checked_before_double_vote_and_option() {
    let env = Env::default();
    let (question, options) = colors(&env);
    let poll = LivePollContract::init_poll(env.clone(), question, options, 200);
    assert_eq!(
        LivePollContract::decide(poll.clone(), 300, true, 9),
        Err(PollError::PollEnded)
    );
    assert_eq!(
        LivePollContract::decide(poll.clone(), 100, true, 9),
        Err(PollError::AlreadyVoted)
    );
}

#[test]
fn tally_counts_every_accepted_vote() {
    let env = Env::default();
    let (question, options) = colors(&env);
    let mut voters = std::vec::Vec::new();
    let mut stored = Some(LivePollContract::init_poll(env.clone(), question, options, 200));
    let choices: [u32; 7] = [0, 1, 1, 0, 1, 1, 1];
    for (i, c) in choices.iter().enumerate() {
        cast(&mut stored, &mut voters, i as u32, *c, 100).unwrap();
    }
    assert_eq!(cast(&mut stored, &mut voters, 3, 0, 100), Err(PollError::AlreadyVoted));
    assert_eq!(cast(&mut stored, &mut voters, 99, 2, 100), Err(PollError::InvalidOption));
    assert_eq!(tally(&stored, 0), 2);
    assert_eq!(tally(&stored, 1), 5);
    assert_eq!(tally(&stored, 0) + tally(&stored, 1), 7);
}

#[test]
fn option_past_the_end_is_refused() {
    let env = Env::default();
    let (question, options) = colors(&env);
    let mut voters = std::vec::Vec::new();
    let mut stored = Some(LivePollContract::init_poll(env.clone(), question, options, 200));
    cast(&mut stored, &mut voters, 1, 1, 100).unwrap();

    assert_eq!(cast(&mut stored, &mut voters, 2, 2, 100), Err(PollError::InvalidOption));
    assert_eq!(cast(&mut stored, &mut voters, 3, 7, 100), Err(PollError::InvalidOption));
    assert_eq!(
        cast(&mut stored, &mut voters, 4, u32::MAX, 100),
        Err(PollError::InvalidOption)
    );
    assert_eq!(tally(&stored, 0), 0);
    assert_eq!(tally(&stored, 1), 1);
    assert_eq!(LivePollContract::get_poll(&stored).unwrap().votes.len(), 1);
    assert_eq!(cast(&mut stored, &mut voters, 2, 0, 100), Ok(()));
}

#[test]
fn empty_option_list_refuses_every_vote() {
    let env = Env::default();
    let question = String::from_str(&env, "Anything?");
    let options: Vec<String> = Vec::new(&env);
    let poll = LivePollContract::init_poll(env.clone(), question, options, 200);
    assert_eq!(
        LivePollContract::decide(poll, 100, false, 0),
        Err(PollError::InvalidOption)
    );
}

#[test]
fn no_poll_means_not_found() {
    assert_eq!(
        LivePollContract::vote(None, 100, false, 0),
        Err(PollError::PollNotFound)
    );
    assert_eq!(
        LivePollContract::get_poll(&None),
        Err(PollError::PollNotFound)
    );
    assert_eq!(
        LivePollContract::vote_checked(None, 100, true, 3),
        Some(Err(PollError::PollNotFound))
    );
}

#[test]
fn full_counter_is_reported() {
    let env = Env::default();
    let (question, options) = colors(&env);
    let mut votes: soroban_sdk::Map<u32, u32> = soroban_sdk::Map::new(&env);
    votes.set(0, u32::MAX);
    votes.set(1, 41);
    let poll = Poll {
        question,
        options,
        deadline: 200,
        votes,
    };
    assert!(!LivePollContract::has_room(&poll, 0));
    assert!(LivePollContract::has_room(&poll, 1));
    assert!(LivePollContract::has_room(&poll, 5));
    assert_eq!(
        LivePollContract::vote_checked(Some(poll.clone()), 100, false, 0),
        None
    );
    assert_eq!(
        LivePollContract::vote_checked(Some(poll.clone()), 201, false, 0),
        Some(Err(PollError::PollEnded))
    );
    assert_eq!(
        LivePollContract::vote_checked(Some(poll.clone()), 100, true, 0),
        Some(Err(PollError::AlreadyVoted))
    );
    assert_eq!(
        LivePollContract::decide(poll.clone(), 100, true, 0),
        Err(PollError::AlreadyVoted)
    );
    let r = LivePollContract::vote_checked(Some(poll), 100, false, 1)
        .unwrap()
        .unwrap();
    assert_eq!(r.votes.get(1), Some(42));
    assert_eq!(r.votes.get(0), Some(u32::MAX));
}
