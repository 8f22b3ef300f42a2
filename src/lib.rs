//! A single-poll voting ledger: one question, a fixed list of options, an
//! inclusive deadline and a tally, with at most one accepted vote per identity.
//!
//! The poll record keeps the host's own values (text, vectors and the tally
//! map); the rules that accept or refuse a vote are verified against the
//! contents of those values.

mod host;
mod laws;
mod poll;

pub use host::{empty_tally, option_count, tally_of, tally_typed, Options, Tally};
pub use laws::{
    accepted, accepted_options, apply_votes, ballot_outcome, ledger_step,
    lemma_accepted_vote_adds_one, lemma_deadline_boundary, lemma_option_bound,
    lemma_read_is_idempotent, lemma_single_vote, lemma_single_vote_over_calls,
    lemma_tally_conservation, lemma_tally_conservation_over_calls, lemma_uninitialized,
    lemma_vote_is_ledger_step, occurrences, run, tally_sum, wins, Ballot, Ledger,
};
pub use poll::{
    add_vote, count_of, decide_outcome, read_outcome, state_outcome, stored_wf, vote_done,
    vote_fits, vote_outcome, LivePollContract, Poll, PollError, PollState,
};
