//! The mathematical model of a poll: an abstract record over sequences,
//! the well-formedness invariant, and the two transitions (creation and
//! voting) as spec-level functions. The executable code in [`crate::poll`]
//! is specified entirely against this model.

use vstd::prelude::*;

verus! {

/// Maximum length of the question text, in characters.
pub const MAX_QUESTION_LEN: usize = 256;

/// Maximum number of options a poll may offer.
pub const MAX_OPTIONS: usize = 10;

/// Maximum length of one option label, in characters.
pub const MAX_OPTION_LEN: usize = 256;

/// Maximum number of recorded voters.
pub const MAX_VOTERS: usize = 1000;

/// Fixed capacity, in bytes, of the persisted poll record: two 32-byte
/// identifiers, a length-prefixed question, up to [`MAX_OPTIONS`]
/// length-prefixed labels, one 8-byte count per option, and up to
/// [`MAX_VOTERS`] 32-byte voter identifiers. The bounds above keep every
/// poll inside this capacity, so the record never needs to grow.
pub const POLL_SIZE: usize = 32 + 32 + (4 + MAX_QUESTION_LEN) + (4 + MAX_OPTIONS * (4
    + MAX_OPTION_LEN)) + (4 + MAX_OPTIONS * 8) + (4 + MAX_VOTERS * 32);

/// Abstract state of a poll: every field of the executable record, as a
/// mathematical value. Identifiers appear as byte sequences, text as
/// character sequences.
#[verifier::ext_equal]
pub ghost struct PollModel {
    /// Identity of the creator; set at creation, never mutated.
    pub authority: Seq<u8>,
    /// Token type whose holders may vote; set at creation, never mutated.
    pub required_token: Seq<u8>,
    /// The question text.
    pub question: Seq<char>,
    /// The option labels, in the order that defines the index space.
    pub options: Seq<Seq<char>>,
    /// One accepted-vote count per option, in option order.
    pub vote_counts: Seq<u64>,
    /// Identities that have voted, in order of acceptance.
    pub voters: Seq<Seq<u8>>,
}

/// Sum of a sequence of counts, as an unbounded integer.
pub open spec fn sum_counts(s: Seq<u64>) -> int
    decreases s.len(),
{
    if s.len() == 0 {
        0
    } else {
        sum_counts(s.drop_last()) + s.last()
    }
}

/// No identity appears twice among the voters.
pub open spec fn voters_distinct(vs: Seq<Seq<u8>>) -> bool {
    forall|i: int, j: int| 0 <= i < j < vs.len() ==> vs[i] != vs[j]
}

/// The poll invariant. It holds of every poll returned by creation and is
/// preserved by every vote: counts and options stay in step, every bounded
/// field stays within the fixed-capacity layout, no voter is recorded
/// twice, and the tally equals the number of recorded voters.
pub open spec fn poll_wf(m: PollModel) -> bool {
    &&& m.vote_counts.len() == m.options.len()
    &&& 1 <= m.options.len() <= MAX_OPTIONS
    &&& m.question.len() <= MAX_QUESTION_LEN
    &&& (forall|i: int| 0 <= i < m.options.len() ==> m.options[i].len() <= MAX_OPTION_LEN)
    &&& m.voters.len() <= MAX_VOTERS
    &&& voters_distinct(m.voters)
    &&& sum_counts(m.vote_counts) == m.voters.len()
}

/// Whether creation inputs fit the fixed-capacity layout.
pub open spec fn create_allowed(question: Seq<char>, options: Seq<Seq<char>>) -> bool {
    &&& question.len() <= MAX_QUESTION_LEN
    &&& 1 <= options.len() <= MAX_OPTIONS
    &&& (forall|i: int| 0 <= i < options.len() ==> options[i].len() <= MAX_OPTION_LEN)
}

/// The poll that creation produces: the given fields, a zeroed count per
/// option, and no voters.
pub open spec fn created_poll(
    authority: Seq<u8>,
    required_token: Seq<u8>,
    question: Seq<char>,
    options: Seq<Seq<char>>,
) -> PollModel {
    PollModel {
        authority,
        required_token,
        question,
        options,
        vote_counts: Seq::new(options.len(), |i: int| 0u64),
        voters: Seq::empty(),
    }
}

/// Whether this identity has already voted.
pub open spec fn has_voted(m: PollModel, voter: Seq<u8>) -> bool {
    m.voters.contains(voter)
}

/// Whether a vote is accepted: the caller holds the required token, the
/// index names an option, the caller has not voted, and the voter record
/// has room.
pub open spec fn vote_allowed(m: PollModel, voter: Seq<u8>, balance: u64, option_index: u64) -> bool {
    &&& balance > 0
    &&& (option_index as int) < m.options.len()
    &&& !has_voted(m, voter)
    &&& m.voters.len() < MAX_VOTERS
}

/// The error a rejected vote reports. The conditions are tested in this
/// order: eligibility, then index range, then prior voting, then capacity.
pub open spec fn vote_err(m: PollModel, voter: Seq<u8>, balance: u64, option_index: u64) -> crate::poll::ErrorCode {
    if balance == 0 {
        crate::poll::ErrorCode::InsufficientTokens
    } else if (option_index as int) >= m.options.len() {
        crate::poll::ErrorCode::InvalidOptionIndex
    } else if has_voted(m, voter) {
        crate::poll::ErrorCode::AlreadyVoted
    } else {
        crate::poll::ErrorCode::AllocationError
    }
}

/// The poll after an accepted vote: the chosen count is one higher, the
/// caller is recorded, and every other field is unchanged.
pub open spec fn vote_next(m: PollModel, voter: Seq<u8>, option_index: u64) -> PollModel {
    PollModel {
        vote_counts: m.vote_counts.update(
            option_index as int,
            (m.vote_counts[option_index as int] + 1) as u64,
        ),
        voters: m.voters.push(voter),
        ..m
    }
}

/// Every count is at most the whole tally.
pub proof fn lemma_elem_le_sum(s: Seq<u64>, i: int)
    requires
        0 <= i < s.len(),
    ensures
        s[i] <= sum_counts(s),
    decreases s.len(),
{
    if i == s.len() - 1 {
        lemma_sum_nonneg(s.drop_last());
    } else {
        lemma_elem_le_sum(s.drop_last(), i);
    }
}

/// A tally is never negative.
pub proof fn lemma_sum_nonneg(s: Seq<u64>)
    ensures
        sum_counts(s) >= 0,
    decreases s.len(),
{
    if s.len() > 0 {
        lemma_sum_nonneg(s.drop_last());
    }
}

/// Raising one count raises the tally by the same difference.
pub proof fn lemma_sum_update(s: Seq<u64>, i: int, v: u64)
    requires
        0 <= i < s.len(),
    ensures
        sum_counts(s.update(i, v)) == sum_counts(s) - s[i] + v,
    decreases s.len(),
{
    if i == s.len() - 1 {
        assert(s.update(i, v).drop_last() =~= s.drop_last());
    } else {
        assert(s.update(i, v).drop_last() =~= s.drop_last().update(i, v));
        lemma_sum_update(s.drop_last(), i, v);
    }
}

/// A zero-filled tally sums to zero.
pub proof fn lemma_sum_zeros(n: nat)
    ensures
        sum_counts(Seq::new(n, |i: int| 0u64)) == 0,
    decreases n,
{
    if n > 0 {
        assert(Seq::new(n, |i: int| 0u64).drop_last() =~= Seq::new((n - 1) as nat, |i: int| 0u64));
        lemma_sum_zeros((n - 1) as nat);
    }
}

/// The tally of a prefix grows by exactly the next count.
pub proof fn lemma_sum_take_succ(s: Seq<u64>, i: int)
    requires
        0 <= i < s.len(),
    ensures
        sum_counts(s.take(i + 1)) == sum_counts(s.take(i)) + s[i],
{
    assert(s.take(i + 1).drop_last() =~= s.take(i));
}

} // verus!
