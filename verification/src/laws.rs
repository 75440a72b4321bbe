//! Laws of the poll state machine, proved once over the abstract model.
//! Together they pin the behaviour down for every reachable state: a
//! freshly created poll starts zeroed and well formed, every accepted vote
//! keeps the invariant and moves the tally by exactly one, and the three
//! rejection gates fire exactly as specified.

use vstd::prelude::*;

use crate::model::{
    create_allowed, created_poll, has_voted, lemma_elem_le_sum, lemma_sum_update,
    lemma_sum_zeros, poll_wf, sum_counts, vote_allowed, vote_err, vote_next, voters_distinct,
    PollModel,
};
use crate::poll::ErrorCode;

verus! {

/// After creation from any valid inputs, the poll is well formed, holds one
/// count per option, every count is zero, and no voter is recorded.
pub proof fn lemma_create_initializes(
    authority: Seq<u8>,
    required_token: Seq<u8>,
    question: Seq<char>,
    options: Seq<Seq<char>>,
)
    requires
        create_allowed(question, options),
    ensures
        poll_wf(created_poll(authority, required_token, question, options)),
        created_poll(authority, required_token, question, options).vote_counts.len()
            == options.len(),
        forall|i: int|
            0 <= i < options.len() ==> created_poll(
                authority,
                required_token,
                question,
                options,
            ).vote_counts[i] == 0u64,
        created_poll(authority, required_token, question, options).voters.len() == 0,
{
    lemma_sum_zeros(options.len());
}

/// In every well-formed poll the tally equals the number of recorded
/// voters, and no voter is recorded twice — so the tally counts exactly
/// the distinct callers whose votes were accepted.
pub proof fn lemma_tally_counts_distinct_voters(m: PollModel)
    requires
        poll_wf(m),
    ensures
        sum_counts(m.vote_counts) == m.voters.len(),
        voters_distinct(m.voters),
{
}

/// An accepted vote preserves the invariant: the poll stays well formed,
/// the tally and the voter record each grow by exactly one, and the caller
/// is now recorded. With `lemma_create_initializes` this carries the
/// invariant through every sequence of accepted votes from creation on.
pub proof fn lemma_vote_preserves_invariant(
    m: PollModel,
    voter: Seq<u8>,
    balance: u64,
    option_index: u64,
)
    requires
        poll_wf(m),
        vote_allowed(m, voter, balance, option_index),
    ensures
        poll_wf(vote_next(m, voter, option_index)),
        sum_counts(vote_next(m, voter, option_index).vote_counts) == sum_counts(m.vote_counts)
            + 1,
        vote_next(m, voter, option_index).voters.len() == m.voters.len() + 1,
        vote_next(m, voter, option_index).vote_counts[option_index as int]
            == m.vote_counts[option_index as int] + 1,
        has_voted(vote_next(m, voter, option_index), voter),
{
    let m1 = vote_next(m, voter, option_index);
    lemma_elem_le_sum(m.vote_counts, option_index as int);
    lemma_sum_update(
        m.vote_counts,
        option_index as int,
        (m.vote_counts[option_index as int] + 1) as u64,
    );
    assert(m1.voters[m.voters.len() as int] == voter);
    assert forall|i: int, j: int| 0 <= i < j < m1.voters.len() implies m1.voters[i]
        != m1.voters[j] by {
        if j < m.voters.len() {
            assert(m.voters[i] != m.voters[j]);
        } else {
            assert(m1.voters[j] == voter);
            assert(m.voters[i] != voter);
        }
    }
}

/// Rejection is idempotent: once a caller's vote has been accepted, any
/// further vote by the same caller — eligible or not, any valid index — is
/// refused with `AlreadyVoted`, and the first vote moved the tally by
/// exactly one, so two calls never count twice.
pub proof fn lemma_second_vote_rejected(
    m: PollModel,
    voter: Seq<u8>,
    balance1: u64,
    index1: u64,
    balance2: u64,
    index2: u64,
)
    requires
        poll_wf(m),
        vote_allowed(m, voter, balance1, index1),
        balance2 > 0,
        (index2 as int) < m.options.len(),
    ensures
        !vote_allowed(vote_next(m, voter, index1), voter, balance2, index2),
        vote_err(vote_next(m, voter, index1), voter, balance2, index2)
            == ErrorCode::AlreadyVoted,
        sum_counts(vote_next(m, voter, index1).vote_counts) == sum_counts(m.vote_counts) + 1,
{
    lemma_vote_preserves_invariant(m, voter, balance1, index1);
}

/// An index at or past the number of options is never accepted, in any
/// state; when the caller is eligible, the reported error is
/// `InvalidOptionIndex`. (An ineligible caller is turned away first, with
/// `InsufficientTokens`, because eligibility is checked before the index.)
pub proof fn lemma_out_of_range_index_rejected(
    m: PollModel,
    voter: Seq<u8>,
    balance: u64,
    option_index: u64,
)
    requires
        m.options.len() <= option_index as int,
    ensures
        !vote_allowed(m, voter, balance, option_index),
        balance > 0 ==> vote_err(m, voter, balance, option_index)
            == ErrorCode::InvalidOptionIndex,
{
}

/// A caller with no balance of the required token is always refused with
/// `InsufficientTokens`, whatever the index and whether or not the caller
/// has voted before.
pub proof fn lemma_zero_balance_rejected(m: PollModel, voter: Seq<u8>, option_index: u64)
    ensures
        !vote_allowed(m, voter, 0u64, option_index),
        vote_err(m, voter, 0u64, option_index) == ErrorCode::InsufficientTokens,
{
}

} // verus!
