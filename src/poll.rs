//! The poll record and the rules that accept or refuse a vote.

use vstd::prelude::*;

use crate::host::{
    empty_tally, new_tally, option_count, options_len, tally_get, tally_of, tally_set, tally_typed,
    Options, Tally,
};

verus! {

/// Why an operation on the poll was refused.
#[derive(Copy, Clone, Debug, PartialEq, Eq, Structural, PartialOrd, Ord)]
pub enum PollError {
    /// No poll record exists yet.
    PollNotFound,
    /// The current time is past the poll's deadline.
    PollEnded,
    /// The identity already has a voter marker.
    AlreadyVoted,
    /// The option index is not below the number of options.
    InvalidOption,
}

/// The poll record: question, options, inclusive deadline and tally.
#[derive(Clone, Debug, PartialEq, Eq)]
pub struct Poll {
    pub question: soroban_sdk::String,
    pub options: Options,
    pub deadline: u64,
    pub votes: Tally,
}

/// Number of votes recorded for option `k`; an absent key counts as zero.
pub open spec fn count_of(t: Map<u32, u32>, k: u32) -> nat {
    if t.contains_key(k) {
        t[k] as nat
    } else {
        0
    }
}

/// The tally after one more vote for option `k`.
pub open spec fn add_vote(t: Map<u32, u32>, k: u32) -> Map<u32, u32> {
    t.insert(k, (count_of(t, k) + 1) as u32)
}

/// What the voting rules read of a poll record: its deadline, how many
/// options it has, and its tally.
pub struct PollState {
    pub deadline: u64,
    pub num_options: nat,
    pub tally: Map<u32, u32>,
}

impl Poll {
    /// The tally as a map from option index to number of votes.
    pub open spec fn tally(self) -> Map<u32, u32> {
        tally_of(self.votes)
    }

    /// The number of options.
    pub open spec fn num_options(self) -> nat {
        option_count(self.options)
    }

    /// What the voting rules read of this record.
    pub open spec fn state(self) -> PollState {
        PollState { deadline: self.deadline, num_options: self.num_options(), tally: self.tally() }
    }

    /// The tally map holds `u32` pairs only, and each of its keys is an index
    /// into the options.
    pub open spec fn wf(self) -> bool {
        &&& tally_typed(self.votes)
        &&& forall|k: u32| #[trigger] self.tally().contains_key(k) ==> (k as nat) < self.num_options()
    }

    /// One more vote for option `k` still fits in the counter.
    pub open spec fn has_room(self, k: u32) -> bool {
        count_of(self.tally(), k) < u32::MAX
    }

    /// Question, options and deadline are those of `other`.
    pub open spec fn same_record(self, other: Poll) -> bool {
        self.question == other.question && self.options == other.options && self.deadline
            == other.deadline
    }
}

/// What a vote at time `now` does to a poll in state `s`: the new tally, or
/// the first gate that refuses it (deadline, then double vote, then option).
pub open spec fn state_outcome(s: PollState, now: u64, already_voted: bool, k: u32) -> Result<
    Map<u32, u32>,
    PollError,
> {
    if now > s.deadline {
        Err(PollError::PollEnded)
    } else if already_voted {
        Err(PollError::AlreadyVoted)
    } else if k as nat >= s.num_options {
        Err(PollError::InvalidOption)
    } else {
        Ok(add_vote(s.tally, k))
    }
}

/// What a vote against poll `p` at time `now` does.
pub open spec fn decide_outcome(p: Poll, now: u64, already_voted: bool, k: u32) -> Result<
    Map<u32, u32>,
    PollError,
> {
    state_outcome(p.state(), now, already_voted, k)
}

/// What a vote does against the stored record, which may be absent.
pub open spec fn vote_outcome(stored: Option<Poll>, now: u64, already_voted: bool, k: u32) -> Result<
    Map<u32, u32>,
    PollError,
> {
    match stored {
        None => Err(PollError::PollNotFound),
        Some(p) => decide_outcome(p, now, already_voted, k),
    }
}

/// What a read of the stored record returns.
pub open spec fn read_outcome(stored: Option<Poll>) -> Result<Poll, PollError> {
    match stored {
        None => Err(PollError::PollNotFound),
        Some(p) => Ok(p),
    }
}

/// `r` is what a vote against `stored` returns: on success the same record
/// with the tally of `vote_outcome`, on failure its error.
pub open spec fn vote_done(
    stored: Option<Poll>,
    now: u64,
    already_voted: bool,
    k: u32,
    r: Result<Poll, PollError>,
) -> bool {
    match r {
        Ok(p) => stored is Some && p.same_record(stored->0) && vote_outcome(
            stored,
            now,
            already_voted,
            k,
        ) == Ok::<Map<u32, u32>, PollError>(p.tally()),
        Err(e) => vote_outcome(stored, now, already_voted, k) == Err::<Map<u32, u32>, PollError>(e),
    }
}

/// If the vote is accepted, its counter has room for it.
pub open spec fn vote_fits(stored: Option<Poll>, now: u64, already_voted: bool, k: u32) -> bool {
    vote_outcome(stored, now, already_voted, k) is Ok ==> stored->0.has_room(k)
}

/// The stored record, if any, is well formed.
pub open spec fn stored_wf(stored: Option<Poll>) -> bool {
    stored is Some ==> stored->0.wf()
}

/// The operations of the single-poll ledger. Persistence, authentication,
/// the clock and notifications belong to the host: each operation takes what
/// it reads from there and returns what is to be written back.
pub struct LivePollContract;

impl LivePollContract {
    /// A fresh poll record with an empty tally. Storing it replaces any
    /// earlier record; voter markers are left alone.
    pub fn init_poll(
        env: soroban_sdk::Env,
        question: soroban_sdk::String,
        options: Options,
        deadline: u64,
    ) -> (r: Poll)
        ensures
            r.question == question,
            r.options == options,
            r.deadline == deadline,
            r.tally() == empty_tally(),
            r.wf(),
    {
        let votes = new_tally(&env);
        Poll { question, options, deadline, votes }
    }

    /// Decides a vote for `option_index` at time `now` by an identity that
    /// has voted before or not, and returns the updated record.
    pub fn decide(poll: Poll, now: u64, already_voted: bool, option_index: u32) -> (r: Result<
        Poll,
        PollError,
    >)
        requires
            poll.wf(),
            vote_fits(Some(poll), now, already_voted, option_index),
        ensures
            vote_done(Some(poll), now, already_voted, option_index, r),
            r matches Ok(p) ==> p.wf(),
    {
        if now > poll.deadline {
            return Err(PollError::PollEnded);
        }
        if already_voted {
            return Err(PollError::AlreadyVoted);
        }
        let n = options_len(&poll.options);
        if option_index >= n {
            return Err(PollError::InvalidOption);
        }
        let current: u32 = match tally_get(&poll.votes, option_index) {
            Some(c) => c,
            None => 0,
        };
        let mut poll = poll;
        tally_set(&mut poll.votes, option_index, current + 1);
        Ok(poll)
    }

    /// A vote against the stored record, which may be absent.
    pub fn vote(stored: Option<Poll>, now: u64, already_voted: bool, option_index: u32) -> (r:
        Result<Poll, PollError>)
        requires
            stored_wf(stored),
            vote_fits(stored, now, already_voted, option_index),
        ensures
            vote_done(stored, now, already_voted, option_index, r),
            r matches Ok(p) ==> p.wf(),
    {
        match stored {
            None => Err(PollError::PollNotFound),
            Some(poll) => Self::decide(poll, now, already_voted, option_index),
        }
    }

    /// Whether one more vote for `option_index` fits in its counter.
    pub fn has_room(poll: &Poll, option_index: u32) -> (r: bool)
        requires
            poll.wf(),
        ensures
            r == poll.has_room(option_index),
    {
        match tally_get(&poll.votes, option_index) {
            Some(c) => c < u32::MAX,
            None => true,
        }
    }

    /// A vote that checks, before counting it, that the counter has room:
    /// `None`, with nothing decided, exactly when the vote would be accepted
    /// and its counter is full. Refused votes are refused as by `vote`.
    pub fn vote_checked(
        stored: Option<Poll>,
        now: u64,
        already_voted: bool,
        option_index: u32,
    ) -> (r: Option<Result<Poll, PollError>>)
        requires
            stored_wf(stored),
        ensures
            r is None <==> !vote_fits(stored, now, already_voted, option_index),
            r is Some ==> vote_done(stored, now, already_voted, option_index, r->0),
            r matches Some(Ok(p)) ==> p.wf(),
    {
        match stored {
            None => Some(Err(PollError::PollNotFound)),
            Some(poll) => {
                let accepted = now <= poll.deadline && !already_voted && option_index
                    < options_len(&poll.options);
                if accepted && !Self::has_room(&poll, option_index) {
                    None
                } else {
                    Some(Self::decide(poll, now, already_voted, option_index))
                }
            },
        }
    }

    /// A copy of the stored record, or `PollNotFound` when there is none.
    pub fn get_poll(stored: &Option<Poll>) -> (r: Result<Poll, PollError>)
        ensures
            r == read_outcome(*stored),
    {
        match stored {
            None => Err(PollError::PollNotFound),
            Some(poll) => Ok(
                Poll {
                    question: poll.question.clone(),
                    options: poll.options.clone(),
                    deadline: poll.deadline,
                    votes: poll.votes.clone(),
                },
            ),
        }
    }
}

} // verus!
