//! Properties of the voting rules that hold across calls.

use vstd::prelude::*;

use crate::host::empty_tally;
use crate::poll::{
    add_vote, count_of, decide_outcome, read_outcome, state_outcome, vote_done, vote_outcome, Poll,
    PollError, PollState,
};

verus! {

/// The tally after the votes `ks`, cast in order, starting from `t`.
pub open spec fn apply_votes(t: Map<u32, u32>, ks: Seq<u32>) -> Map<u32, u32>
    decreases ks.len(),
{
    if ks.len() == 0 {
        t
    } else {
        add_vote(apply_votes(t, ks.drop_last()), ks.last())
    }
}

/// How many of the votes `ks` are for option `k`.
pub open spec fn occurrences(ks: Seq<u32>, k: u32) -> nat
    decreases ks.len(),
{
    if ks.len() == 0 {
        0
    } else {
        occurrences(ks.drop_last(), k) + if ks.last() == k {
            1nat
        } else {
            0nat
        }
    }
}

/// The sum of the counts of options `0 .. n`.
pub open spec fn tally_sum(t: Map<u32, u32>, n: nat) -> nat
    decreases n,
{
    if n == 0 {
        0
    } else {
        tally_sum(t, (n - 1) as nat) + count_of(t, (n - 1) as u32)
    }
}

/// A read returns the stored record itself and changes nothing, so two reads
/// with no write between return identical records.
pub proof fn lemma_read_is_idempotent(stored: Option<Poll>)
    ensures
        stored is Some ==> read_outcome(stored) == Ok::<Poll, PollError>(stored->0),
{
}

/// Once an identity has voted, no vote of it is accepted again, whatever the
/// option; while the poll is open it is refused as `AlreadyVoted`.
pub proof fn lemma_single_vote(stored: Option<Poll>, now: u64, k: u32)
    ensures
        vote_outcome(stored, now, true, k) is Err,
        stored is Some && now <= stored->0.deadline ==> vote_outcome(stored, now, true, k)
            == Err::<Map<u32, u32>, PollError>(PollError::AlreadyVoted),
{
}

/// The deadline is inclusive: a vote at the deadline is accepted, one a unit
/// later is refused as `PollEnded`.
pub proof fn lemma_deadline_boundary(p: Poll, k: u32)
    requires
        (k as nat) < p.num_options(),
        p.deadline < u64::MAX,
    ensures
        decide_outcome(p, p.deadline, false, k) is Ok,
        decide_outcome(p, (p.deadline + 1) as u64, false, k) == Err::<Map<u32, u32>, PollError>(
            PollError::PollEnded,
        ),
{
}

/// An index at or past the number of options is refused as `InvalidOption`
/// by an open poll, and the tally is left as it was.
pub proof fn lemma_option_bound(p: Poll, now: u64, k: u32)
    requires
        now <= p.deadline,
        (k as nat) >= p.num_options(),
    ensures
        decide_outcome(p, now, false, k) == Err::<Map<u32, u32>, PollError>(
            PollError::InvalidOption,
        ),
{
}

/// Without a stored record both a vote and a read are refused as
/// `PollNotFound`.
pub proof fn lemma_uninitialized(now: u64, already_voted: bool, k: u32)
    ensures
        vote_outcome(None, now, already_voted, k) == Err::<Map<u32, u32>, PollError>(
            PollError::PollNotFound,
        ),
        read_outcome(None) == Err::<Poll, PollError>(PollError::PollNotFound),
{
}

proof fn lemma_counts(ks: Seq<u32>, k: u32)
    requires
        ks.len() < u32::MAX,
    ensures
        count_of(apply_votes(empty_tally(), ks), k) == occurrences(ks, k),
        occurrences(ks, k) <= ks.len(),
    decreases ks.len(),
{
    if ks.len() > 0 {
        let pre = ks.drop_last();
        lemma_counts(pre, k);
        lemma_counts(pre, ks.last());
    }
}

proof fn lemma_sum_add_vote(t: Map<u32, u32>, k: u32, n: nat)
    requires
        count_of(t, k) < u32::MAX,
        n <= u32::MAX + 1,
    ensures
        tally_sum(add_vote(t, k), n) == tally_sum(t, n) + if (k as nat) < n {
            1nat
        } else {
            0nat
        },
    decreases n,
{
    if n > 0 {
        lemma_sum_add_vote(t, k, (n - 1) as nat);
    }
}

proof fn lemma_sum(ks: Seq<u32>, n: nat)
    requires
        ks.len() < u32::MAX,
        n <= u32::MAX + 1,
        forall|i: int| 0 <= i < ks.len() ==> (#[trigger] ks[i] as nat) < n,
    ensures
        tally_sum(apply_votes(empty_tally(), ks), n) == ks.len(),
    decreases ks.len(),
{
    if ks.len() == 0 {
        lemma_sum_zero(n);
    } else {
        let pre = ks.drop_last();
        assert forall|i: int| 0 <= i < pre.len() implies (#[trigger] pre[i] as nat) < n by {
            assert(pre[i] == ks[i]);
        }
        lemma_sum(pre, n);
        lemma_counts(pre, ks.last());
        assert((ks[ks.len() - 1] as nat) < n);
        lemma_sum_add_vote(apply_votes(empty_tally(), pre), ks.last(), n);
    }
}

proof fn lemma_sum_zero(n: nat)
    ensures
        tally_sum(empty_tally(), n) == 0,
    decreases n,
{
    if n > 0 {
        lemma_sum_zero((n - 1) as nat);
    }
}

/// An accepted vote for `k` adds one to the count of `k`, leaves every other
/// count as it was, and adds one to the sum of the counts of any `n` options
/// that include `k`.
pub proof fn lemma_accepted_vote_adds_one(
    p: Poll,
    now: u64,
    already_voted: bool,
    k: u32,
    t: Map<u32, u32>,
    n: nat,
)
    requires
        p.has_room(k),
        decide_outcome(p, now, already_voted, k) == Ok::<Map<u32, u32>, PollError>(t),
        (k as nat) < n,
        n <= u32::MAX + 1,
    ensures
        count_of(t, k) == count_of(p.tally(), k) + 1,
        forall|j: u32| j != k ==> #[trigger] count_of(t, j) == count_of(p.tally(), j),
        tally_sum(t, n) == tally_sum(p.tally(), n) + 1,
{
    lemma_sum_add_vote(p.tally(), k, n);
}

/// After the accepted votes `ks`, all for options below `n`, cast into an
/// empty tally: each option's count is the number of votes for it, and the
/// counts of the `n` options add up to the number of votes.
pub proof fn lemma_tally_conservation(ks: Seq<u32>, n: nat)
    requires
        ks.len() < u32::MAX,
        n <= u32::MAX + 1,
        forall|i: int| 0 <= i < ks.len() ==> (#[trigger] ks[i] as nat) < n,
    ensures
        forall|k: u32| #[trigger]
            count_of(apply_votes(empty_tally(), ks), k) == occurrences(ks, k),
        tally_sum(apply_votes(empty_tally(), ks), n) == ks.len(),
{
    assert forall|k: u32| #[trigger]
        count_of(apply_votes(empty_tally(), ks), k) == occurrences(ks, k) by {
        lemma_counts(ks, k);
    }
    lemma_sum(ks, n);
}

/// A deployment as the voting rules see it: the poll, if initialised, and the
/// identities that hold a voter marker.
pub struct Ledger {
    pub poll: Option<PollState>,
    pub voters: Set<int>,
}

/// One call of `vote`: who votes, for which option, at what time.
pub struct Ballot {
    pub voter: int,
    pub option: u32,
    pub now: u64,
}

/// What a ballot does against the ledger's poll.
pub open spec fn ballot_outcome(l: Ledger, b: Ballot) -> Result<Map<u32, u32>, PollError> {
    match l.poll {
        None => Err(PollError::PollNotFound),
        Some(s) => state_outcome(s, b.now, l.voters.contains(b.voter), b.option),
    }
}

/// The ballot is accepted.
pub open spec fn accepted(l: Ledger, b: Ballot) -> bool {
    ballot_outcome(l, b) is Ok
}

/// The ledger after one ballot: an accepted one replaces the tally and marks
/// the voter, a refused one changes nothing.
pub open spec fn ledger_step(l: Ledger, b: Ballot) -> Ledger {
    match ballot_outcome(l, b) {
        Ok(t) => Ledger {
            poll: Some(
                PollState { deadline: l.poll->0.deadline, num_options: l.poll->0.num_options, tally: t },
            ),
            voters: l.voters.insert(b.voter),
        },
        Err(_) => l,
    }
}

/// The ledger after the ballots `bs`, in order.
pub open spec fn run(l: Ledger, bs: Seq<Ballot>) -> Ledger
    decreases bs.len(),
{
    if bs.len() == 0 {
        l
    } else {
        ledger_step(run(l, bs.drop_last()), bs.last())
    }
}

/// How many of the ballots `bs` cast by `a` were accepted.
pub open spec fn wins(l: Ledger, bs: Seq<Ballot>, a: int) -> nat
    decreases bs.len(),
{
    if bs.len() == 0 {
        0
    } else {
        wins(l, bs.drop_last(), a) + if bs.last().voter == a && accepted(
            run(l, bs.drop_last()),
            bs.last(),
        ) {
            1nat
        } else {
            0nat
        }
    }
}

/// The options of the accepted ballots among `bs`, in order.
pub open spec fn accepted_options(l: Ledger, bs: Seq<Ballot>) -> Seq<u32>
    decreases bs.len(),
{
    if bs.len() == 0 {
        Seq::empty()
    } else if accepted(run(l, bs.drop_last()), bs.last()) {
        accepted_options(l, bs.drop_last()).push(bs.last().option)
    } else {
        accepted_options(l, bs.drop_last())
    }
}

/// A call of `vote` on a stored record is one ledger step: the record it
/// returns on success has the stepped state, and a refusal leaves it as it
/// was.
pub proof fn lemma_vote_is_ledger_step(p: Poll, voters: Set<int>, b: Ballot, r: Result<Poll, PollError>)
    requires
        vote_done(Some(p), b.now, voters.contains(b.voter), b.option, r),
    ensures
        r matches Ok(q) ==> ledger_step(Ledger { poll: Some(p.state()), voters }, b) == (Ledger {
            poll: Some(q.state()),
            voters: voters.insert(b.voter),
        }),
        r is Err ==> ledger_step(Ledger { poll: Some(p.state()), voters }, b) == (Ledger {
            poll: Some(p.state()),
            voters,
        }),
{
}

proof fn lemma_marker_tracks_wins(l: Ledger, bs: Seq<Ballot>, a: int)
    ensures
        run(l, bs).voters.contains(a) == (l.voters.contains(a) || wins(l, bs, a) > 0),
        wins(l, bs, a) <= 1,
        l.voters.contains(a) ==> wins(l, bs, a) == 0,
    decreases bs.len(),
{
    if bs.len() > 0 {
        lemma_marker_tracks_wins(l, bs.drop_last(), a);
    }
}

/// Over any sequence of ballots against one poll, at most one ballot of an
/// identity is accepted, and none if it held a marker before; once one is
/// accepted it holds a marker, so every later ballot of it is refused.
pub proof fn lemma_single_vote_over_calls(l: Ledger, bs: Seq<Ballot>, a: int)
    ensures
        wins(l, bs, a) <= 1,
        l.voters.contains(a) ==> wins(l, bs, a) == 0,
        wins(l, bs, a) == 1 ==> run(l, bs).voters.contains(a),
        run(l, bs).voters.contains(a) ==> forall|b: Ballot|
            b.voter == a ==> !#[trigger] accepted(run(l, bs), b),
{
    lemma_marker_tracks_wins(l, bs, a);
}

proof fn lemma_run_shape(l: Ledger, bs: Seq<Ballot>)
    requires
        l.poll is Some,
    ensures
        run(l, bs).poll is Some,
        run(l, bs).poll->0.deadline == l.poll->0.deadline,
        run(l, bs).poll->0.num_options == l.poll->0.num_options,
        run(l, bs).poll->0.tally == apply_votes(l.poll->0.tally, accepted_options(l, bs)),
        accepted_options(l, bs).len() <= bs.len(),
        forall|i: int|
            0 <= i < accepted_options(l, bs).len() ==> (#[trigger] accepted_options(l, bs)[i] as nat)
                < l.poll->0.num_options,
    decreases bs.len(),
{
    if bs.len() > 0 {
        let pre = bs.drop_last();
        lemma_run_shape(l, pre);
        let acc = accepted_options(l, pre);
        if accepted(run(l, pre), bs.last()) {
            let acc2 = acc.push(bs.last().option);
            assert(acc2.drop_last() =~= acc);
            assert forall|i: int| 0 <= i < acc2.len() implies (#[trigger] acc2[i] as nat)
                < l.poll->0.num_options by {
                if i < acc.len() {
                    assert(acc2[i] == acc[i]);
                }
            }
        }
    }
}

/// Starting from a freshly initialised poll, after any sequence of ballots:
/// each option's count is the number of accepted ballots for it, and the
/// counts of all options add up to the number of accepted ballots.
pub proof fn lemma_tally_conservation_over_calls(l: Ledger, bs: Seq<Ballot>)
    requires
        l.poll is Some,
        l.poll->0.tally == empty_tally(),
        l.poll->0.num_options <= u32::MAX + 1,
        bs.len() < u32::MAX,
    ensures
        run(l, bs).poll is Some,
        forall|k: u32| #[trigger]
            count_of(run(l, bs).poll->0.tally, k) == occurrences(accepted_options(l, bs), k),
        tally_sum(run(l, bs).poll->0.tally, l.poll->0.num_options) == accepted_options(l, bs).len(),
{
    lemma_run_shape(l, bs);
    lemma_tally_conservation(accepted_options(l, bs), l.poll->0.num_options);
}

} // verus!
