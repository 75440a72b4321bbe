//! The poll record and its two transitions: creation and voting. Every
//! function here is specified against the abstract model in
//! [`crate::model`]; the record either takes a full transition or is left
//! exactly as it was, so a failed call never leaves a partial update.

use vstd::prelude::*;
use vstd::string::StrSliceExecFns;

use crate::ids::AccountId;
use crate::model::{
    create_allowed, created_poll, has_voted, lemma_elem_le_sum, lemma_sum_take_succ,
    lemma_sum_update, lemma_sum_zeros, poll_wf, sum_counts, vote_allowed, vote_err, vote_next,
    voters_distinct, PollModel, MAX_OPTIONS, MAX_OPTION_LEN, MAX_QUESTION_LEN, MAX_VOTERS,
};

verus! {

/// Why a call was rejected. Every rejection is reported before any
/// mutation, so the poll record is unchanged whenever one of these comes
/// back.
#[derive(Clone, Copy, Debug, PartialEq, Eq, Structural)]
pub enum ErrorCode {
    /// The option index is out of bounds for the poll's option list.
    InvalidOptionIndex,
    /// The caller's identity is already recorded among the voters.
    AlreadyVoted,
    /// The caller holds no positive balance of the required token.
    InsufficientTokens,
    /// The fixed-capacity record cannot hold the request: oversized
    /// creation inputs, or a voter list already at capacity.
    AllocationError,
}

/// The persistent poll record.
#[derive(Clone, Debug, PartialEq, Eq)]
pub struct Poll {
    /// Creator of the poll.
    pub authority: AccountId,
    /// Token type whose holders may vote.
    pub required_token: AccountId,
    /// The poll question.
    pub question: String,
    /// The option labels; their order defines the index space of votes.
    pub options: Vec<String>,
    /// One accepted-vote count per option.
    pub vote_counts: Vec<u64>,
    /// Identities that have voted, kept to refuse a second ballot.
    pub voters: Vec<AccountId>,
}

/// The option labels of a poll, as character sequences.
pub open spec fn labels_view(labels: Seq<String>) -> Seq<Seq<char>> {
    labels.map_values(|s: String| s@)
}

/// The recorded voters of a poll, as byte sequences.
pub open spec fn voters_view(voters: Seq<AccountId>) -> Seq<Seq<u8>> {
    voters.map_values(|a: AccountId| a@)
}

impl View for Poll {
    type V = PollModel;

    open spec fn view(&self) -> PollModel {
        PollModel {
            authority: self.authority@,
            required_token: self.required_token@,
            question: self.question@,
            options: labels_view(self.options@),
            vote_counts: self.vote_counts@,
            voters: voters_view(self.voters@),
        }
    }
}

/// The resolved context of a creation call: the boundary authenticates the
/// paying caller and hands its identity in.
pub struct CreatePoll {
    /// Verified identity of the caller creating the poll.
    pub payer: AccountId,
}

/// The resolved context of a voting call: the boundary authenticates the
/// caller and looks its balance of the poll's required token up before the
/// core runs. An unresolvable balance record is handed in as zero.
pub struct Vote {
    /// Verified identity of the caller casting the vote.
    pub voter: AccountId,
    /// The caller's held balance of the poll's required token.
    pub voter_token_balance: u64,
}

/// Creates a poll: the caller becomes the authority, the question, options
/// and required token are stored, every count starts at zero and no voter
/// is recorded. Inputs that would overflow the fixed-capacity record are
/// rejected with [`ErrorCode::AllocationError`] and nothing is allocated.
pub fn create_poll(
    ctx: &CreatePoll,
    question: String,
    options: Vec<String>,
    required_token: AccountId,
) -> (result: Result<Poll, ErrorCode>)
    ensures
        result is Ok <==> create_allowed(question@, labels_view(options@)),
        result matches Ok(p) ==> p@ == created_poll(
            ctx.payer@,
            required_token@,
            question@,
            labels_view(options@),
        ) && poll_wf(p@),
        result matches Err(e) ==> e == ErrorCode::AllocationError,
{
    if question.as_str().unicode_len() > MAX_QUESTION_LEN {
        return Err(ErrorCode::AllocationError);
    }
    if options.len() < 1 || options.len() > MAX_OPTIONS {
        return Err(ErrorCode::AllocationError);
    }
    let num_options = options.len();
    let mut i: usize = 0;
    while i < num_options
        invariant
            i <= num_options,
            num_options == options@.len(),
            forall|k: int| 0 <= k < i ==> labels_view(options@)[k].len() <= MAX_OPTION_LEN,
        decreases num_options - i,
    {
        if options[i].as_str().unicode_len() > MAX_OPTION_LEN {
            proof {
                assert(labels_view(options@)[i as int].len() > MAX_OPTION_LEN);
            }
            return Err(ErrorCode::AllocationError);
        }
        i += 1;
    }
    let mut vote_counts: Vec<u64> = Vec::new();
    let mut j: usize = 0;
    while j < num_options
        invariant
            j <= num_options,
            vote_counts@.len() == j,
            forall|k: int| 0 <= k < j ==> vote_counts@[k] == 0u64,
        decreases num_options - j,
    {
        vote_counts.push(0);
        j += 1;
    }
    let poll = Poll {
        authority: ctx.payer,
        required_token,
        question,
        options,
        vote_counts,
        voters: Vec::new(),
    };
    proof {
        assert(poll@.vote_counts =~= Seq::new(poll@.options.len(), |i: int| 0u64));
        assert(poll@.voters =~= Seq::<Seq<u8>>::empty());
        assert(poll@ =~= created_poll(
            ctx.payer@,
            required_token@,
            question@,
            labels_view(poll.options@),
        ));
        lemma_sum_zeros(poll@.options.len());
    }
    Ok(poll)
}

/// Casts one vote. The checks run in order — eligibility, index range,
/// prior voting, capacity — and the first failure is reported with no
/// mutation at all; on success the chosen count is incremented and the
/// caller recorded, in one atomic step.
pub fn vote(poll: &mut Poll, ctx: &Vote, option_index: u64) -> (result: Result<(), ErrorCode>)
    requires
        poll_wf(old(poll)@),
    ensures
        poll_wf(final(poll)@),
        final(poll)@.authority == old(poll)@.authority,
        final(poll)@.required_token == old(poll)@.required_token,
        final(poll)@.question == old(poll)@.question,
        final(poll)@.options == old(poll)@.options,
        vote_allowed(old(poll)@, ctx.voter@, ctx.voter_token_balance, option_index) ==> result
            == Ok::<(), ErrorCode>(()) && final(poll)@ == vote_next(
            old(poll)@,
            ctx.voter@,
            option_index,
        ) && final(poll)@.vote_counts[option_index as int] == old(poll)@.vote_counts[option_index
            as int] + 1,
        !vote_allowed(old(poll)@, ctx.voter@, ctx.voter_token_balance, option_index) ==> result
            == Err::<(), ErrorCode>(vote_err(
            old(poll)@,
            ctx.voter@,
            ctx.voter_token_balance,
            option_index,
        )) && final(poll)@ == old(poll)@,
{
    if ctx.voter_token_balance == 0 {
        return Err(ErrorCode::InsufficientTokens);
    }
    if option_index >= poll.options.len() as u64 {
        return Err(ErrorCode::InvalidOptionIndex);
    }
    if contains_voter(&poll.voters, &ctx.voter) {
        return Err(ErrorCode::AlreadyVoted);
    }
    if poll.voters.len() >= MAX_VOTERS {
        return Err(ErrorCode::AllocationError);
    }
    let idx = option_index as usize;
    proof {
        lemma_elem_le_sum(poll@.vote_counts, idx as int);
    }
    let count = poll.vote_counts[idx];
    poll.vote_counts[idx] = count + 1;
    poll.voters.push(ctx.voter);
    proof {
        lemma_sum_update(old(poll)@.vote_counts, idx as int, (count + 1) as u64);
        assert(poll@.voters =~= old(poll)@.voters.push(ctx.voter@));
        assert(poll@ =~= vote_next(old(poll)@, ctx.voter@, option_index));
    }
    Ok(())
}

/// Whether this identity is among the recorded voters.
fn contains_voter(voters: &Vec<AccountId>, id: &AccountId) -> (r: bool)
    ensures
        r == voters_view(voters@).contains(id@),
{
    let mut i: usize = 0;
    while i < voters.len()
        invariant
            i <= voters@.len(),
            forall|k: int| 0 <= k < i ==> voters_view(voters@)[k] != id@,
        decreases voters@.len() - i,
    {
        if voters[i].eq_id(id) {
            proof {
                assert(voters_view(voters@)[i as int] == id@);
            }
            return true;
        }
        i += 1;
    }
    false
}

impl Poll {
    /// Decides the poll invariant at run time, exactly as
    /// [`crate::model::poll_wf`] states it. A host that receives a record
    /// from storage rather than from [`create_poll`] can use this to
    /// establish what [`vote`] requires.
    pub fn is_well_formed(&self) -> (r: bool)
        ensures
            r == poll_wf(self@),
    {
        if self.vote_counts.len() != self.options.len() {
            return false;
        }
        if self.options.len() < 1 || self.options.len() > MAX_OPTIONS {
            return false;
        }
        if self.question.as_str().unicode_len() > MAX_QUESTION_LEN {
            return false;
        }
        let num_options = self.options.len();
        let mut i: usize = 0;
        while i < num_options
            invariant
                i <= num_options,
                num_options == self.options@.len(),
                forall|k: int| 0 <= k < i ==> labels_view(self.options@)[k].len()
                    <= MAX_OPTION_LEN,
            decreases num_options - i,
        {
            if self.options[i].as_str().unicode_len() > MAX_OPTION_LEN {
                proof {
                    assert(labels_view(self.options@)[i as int].len() > MAX_OPTION_LEN);
                }
                return false;
            }
            i += 1;
        }
        if self.voters.len() > MAX_VOTERS {
            return false;
        }
        let num_voters = self.voters.len();
        let mut a: usize = 0;
        while a < num_voters
            invariant
                a <= num_voters,
                num_voters == self.voters@.len(),
                forall|p: int, q: int|
                    0 <= p < q < num_voters && p < a ==> voters_view(self.voters@)[p]
                        != voters_view(self.voters@)[q],
            decreases num_voters - a,
        {
            let mut b: usize = a + 1;
            while b < num_voters
                invariant
                    a < b <= num_voters,
                    num_voters == self.voters@.len(),
                    forall|q: int| a < q < b ==> voters_view(self.voters@)[a as int]
                        != voters_view(self.voters@)[q],
                decreases num_voters - b,
            {
                if self.voters[a].eq_id(&self.voters[b]) {
                    proof {
                        assert(voters_view(self.voters@)[a as int] == voters_view(
                            self.voters@,
                        )[b as int]);
                        assert(!voters_distinct(self@.voters));
                    }
                    return false;
                }
                b += 1;
            }
            a += 1;
        }
        proof {
            assert(voters_distinct(self@.voters));
        }
        let num_counts = self.vote_counts.len();
        let mut tally: u128 = 0;
        let mut t: usize = 0;
        while t < num_counts
            invariant
                t <= num_counts,
                num_counts == self.vote_counts@.len(),
                tally == sum_counts(self.vote_counts@.take(t as int)),
                tally <= (t as int) * (u64::MAX as int),
            decreases num_counts - t,
        {
            proof {
                lemma_sum_take_succ(self.vote_counts@, t as int);
            }
            tally = tally + self.vote_counts[t] as u128;
            t += 1;
        }
        proof {
            assert(self.vote_counts@.take(num_counts as int) =~= self.vote_counts@);
        }
        tally == self.voters.len() as u128
    }
}

} // verus!
