use vstd::prelude::*;
use crate::address::Address;
use crate::error::GovernanceError;
use crate::record::TokenOwnerRecord;

verus! {

/// Lifecycle of a proposal: `Draft -> SigningOff -> Voting`, then one of the
/// terminal states `Succeeded`, `Defeated` or `Cancelled`.
#[derive(Clone, Copy, Debug, PartialEq, Eq, Structural)]
pub enum ProposalState {
    Draft,
    SigningOff,
    Voting,
    Succeeded,
    Defeated,
    Cancelled,
}

pub open spec fn is_terminal(s: ProposalState) -> bool {
    s == ProposalState::Succeeded || s == ProposalState::Defeated || s == ProposalState::Cancelled
}

/// A proposal, counted as outstanding on its owner's record until it reaches
/// a terminal state.
#[derive(Clone, Copy, Debug, PartialEq, Eq, Structural)]
pub struct Proposal {
    pub owner_record: Address,
    pub state: ProposalState,
}

/// A vote cast on a proposal by the holder of `voter_record`.
#[derive(Clone, Copy, Debug, PartialEq, Eq, Structural)]
pub struct VoteRecord {
    pub voter_record: Address,
    pub approve: bool,
    pub is_relinquished: bool,
}

/// The record counter lowered by one, never below zero.
pub open spec fn lowered(n: u64) -> u64 {
    if n == 0 {
        0
    } else {
        (n - 1) as u64
    }
}

/// Everything but the two counters is as in `other`.
pub open spec fn same_but_counters(r: &TokenOwnerRecord, o: &TokenOwnerRecord) -> bool {
    &&& r.realm == o.realm
    &&& r.governing_token_mint == o.governing_token_mint
    &&& r.governing_token_owner == o.governing_token_owner
    &&& r.governing_token_deposit_amount == o.governing_token_deposit_amount
    &&& r.locks@ == o.locks@
}

impl Proposal {
    /// Creates a draft proposal owned by the record at `owner_record`, which
    /// then has one more outstanding proposal.
    pub fn create(owner_record: Address, record: &mut TokenOwnerRecord) -> (r: Result<
        Proposal,
        GovernanceError,
    >)
        ensures
            same_but_counters(final(record), old(record)),
            final(record).unrelinquished_votes_count == old(record).unrelinquished_votes_count,
            old(record).outstanding_proposal_count == u64::MAX ==> r == Err::<Proposal, _>(
                GovernanceError::MathOverflow,
            ) && final(record).outstanding_proposal_count == old(
                record,
            ).outstanding_proposal_count,
            old(record).outstanding_proposal_count < u64::MAX ==> r == Ok::<_, GovernanceError>(
                Proposal { owner_record, state: ProposalState::Draft },
            ) && final(record).outstanding_proposal_count == old(record).outstanding_proposal_count
                + 1,
    {
        if record.outstanding_proposal_count == u64::MAX {
            return Err(GovernanceError::MathOverflow);
        }
        record.outstanding_proposal_count = record.outstanding_proposal_count + 1;
        Ok(Proposal { owner_record, state: ProposalState::Draft })
    }

    /// Signs the proposal off: a draft, or one being signed off, opens for voting.
    pub fn sign_off(&mut self) -> (r: Result<(), GovernanceError>)
        ensures
            r.is_ok() <==> (old(self).state == ProposalState::Draft || old(self).state
                == ProposalState::SigningOff),
            r.is_err() ==> r == Err::<(), _>(GovernanceError::InvalidProposalState) && *final(self)
                == *old(self),
            r.is_ok() ==> *final(self) == (Proposal { state: ProposalState::Voting, ..*old(self) }),
    {
        match self.state {
            ProposalState::Draft | ProposalState::SigningOff => {
                self.state = ProposalState::Voting;
                Ok(())
            },
            _ => Err(GovernanceError::InvalidProposalState),
        }
    }

    /// Moves the proposal to `next`, a terminal state, and retires it from
    /// the owner's outstanding count.
    fn retire(&mut self, record_address: &Address, record: &mut TokenOwnerRecord, next: ProposalState)
        -> (r: Result<(), GovernanceError>)
        ensures
            same_but_counters(final(record), old(record)),
            final(record).unrelinquished_votes_count == old(record).unrelinquished_votes_count,
            *record_address != old(self).owner_record ==> r == Err::<(), _>(
                GovernanceError::InvalidOwnerRecord,
            ),
            r.is_ok() <==> *record_address == old(self).owner_record,
            r.is_ok() ==> *final(self) == (Proposal { state: next, ..*old(self) })
                && final(record).outstanding_proposal_count == lowered(
                old(record).outstanding_proposal_count,
            ),
            r.is_err() ==> *final(self) == *old(self) && final(record).outstanding_proposal_count
                == old(record).outstanding_proposal_count,
    {
        if !record_address.same_as(&self.owner_record) {
            return Err(GovernanceError::InvalidOwnerRecord);
        }
        self.state = next;
        record.outstanding_proposal_count = record.outstanding_proposal_count.saturating_sub(1);
        Ok(())
    }

    /// Cancels a proposal that has not reached a terminal state.
    pub fn cancel(&mut self, record_address: &Address, record: &mut TokenOwnerRecord) -> (r: Result<
        (),
        GovernanceError,
    >)
        ensures
            same_but_counters(final(record), old(record)),
            final(record).unrelinquished_votes_count == old(record).unrelinquished_votes_count,
            is_terminal(old(self).state) ==> r == Err::<(), _>(
                GovernanceError::InvalidProposalState,
            ),
            !is_terminal(old(self).state) && *record_address != old(self).owner_record ==> r
                == Err::<(), _>(GovernanceError::InvalidOwnerRecord),
            r.is_ok() <==> !is_terminal(old(self).state) && *record_address == old(
                self,
            ).owner_record,
            r.is_ok() ==> *final(self) == (Proposal { state: ProposalState::Cancelled, ..*old(self) })
                && final(record).outstanding_proposal_count == lowered(
                old(record).outstanding_proposal_count,
            ),
            r.is_err() ==> *final(self) == *old(self) && final(record).outstanding_proposal_count
                == old(record).outstanding_proposal_count,
    {
        match self.state {
            ProposalState::Succeeded | ProposalState::Defeated | ProposalState::Cancelled => {
                Err(GovernanceError::InvalidProposalState)
            },
            _ => self.retire(record_address, record, ProposalState::Cancelled),
        }
    }

    /// Ends voting with the decision `approved`.
    pub fn finalize(
        &mut self,
        record_address: &Address,
        record: &mut TokenOwnerRecord,
        approved: bool,
    ) -> (r: Result<(), GovernanceError>)
        ensures
            same_but_counters(final(record), old(record)),
            final(record).unrelinquished_votes_count == old(record).unrelinquished_votes_count,
            old(self).state != ProposalState::Voting ==> r == Err::<(), _>(
                GovernanceError::InvalidProposalState,
            ),
            old(self).state == ProposalState::Voting && *record_address != old(self).owner_record
                ==> r == Err::<(), _>(GovernanceError::InvalidOwnerRecord),
            r.is_ok() <==> old(self).state == ProposalState::Voting && *record_address == old(
                self,
            ).owner_record,
            r.is_ok() ==> final(self).owner_record == old(self).owner_record && final(self).state
                == (if approved {
                ProposalState::Succeeded
            } else {
                ProposalState::Defeated
            }) && final(record).outstanding_proposal_count == lowered(
                old(record).outstanding_proposal_count,
            ),
            r.is_err() ==> *final(self) == *old(self) && final(record).outstanding_proposal_count
                == old(record).outstanding_proposal_count,
    {
        if self.state != ProposalState::Voting {
            return Err(GovernanceError::InvalidProposalState);
        }
        let next = if approved {
            ProposalState::Succeeded
        } else {
            ProposalState::Defeated
        };
        self.retire(record_address, record, next)
    }
}

impl VoteRecord {
    /// Casts a vote on a proposal open for voting; the voter's record then
    /// has one more unrelinquished vote.
    pub fn cast(
        proposal: &Proposal,
        voter_record: Address,
        record: &mut TokenOwnerRecord,
        approve: bool,
    ) -> (r: Result<VoteRecord, GovernanceError>)
        ensures
            same_but_counters(final(record), old(record)),
            final(record).outstanding_proposal_count == old(record).outstanding_proposal_count,
            proposal.state != ProposalState::Voting ==> r == Err::<VoteRecord, _>(
                GovernanceError::InvalidProposalState,
            ),
            proposal.state == ProposalState::Voting && old(record).unrelinquished_votes_count
                == u64::MAX ==> r == Err::<VoteRecord, _>(GovernanceError::MathOverflow),
            r.is_ok() <==> proposal.state == ProposalState::Voting && old(
                record,
            ).unrelinquished_votes_count < u64::MAX,
            r.is_ok() ==> r == Ok::<_, GovernanceError>(
                VoteRecord { voter_record, approve, is_relinquished: false },
            ) && final(record).unrelinquished_votes_count == old(record).unrelinquished_votes_count
                + 1,
            r.is_err() ==> final(record).unrelinquished_votes_count == old(
                record,
            ).unrelinquished_votes_count,
    {
        if proposal.state != ProposalState::Voting {
            return Err(GovernanceError::InvalidProposalState);
        }
        if record.unrelinquished_votes_count == u64::MAX {
            return Err(GovernanceError::MathOverflow);
        }
        record.unrelinquished_votes_count = record.unrelinquished_votes_count + 1;
        Ok(VoteRecord { voter_record, approve, is_relinquished: false })
    }

    /// Releases the vote's weight back to the voter's record, before or
    /// after the proposal is decided.
    pub fn relinquish(&mut self, voter_record: &Address, record: &mut TokenOwnerRecord) -> (r: Result<
        (),
        GovernanceError,
    >)
        ensures
            same_but_counters(final(record), old(record)),
            final(record).outstanding_proposal_count == old(record).outstanding_proposal_count,
            *voter_record != old(self).voter_record ==> r == Err::<(), _>(
                GovernanceError::InvalidOwnerRecord,
            ),
            *voter_record == old(self).voter_record && old(self).is_relinquished ==> r == Err::<
                (),
                _,
            >(GovernanceError::VoteAlreadyRelinquished),
            r.is_ok() <==> *voter_record == old(self).voter_record && !old(self).is_relinquished,
            r.is_ok() ==> *final(self) == (VoteRecord { is_relinquished: true, ..*old(self) })
                && final(record).unrelinquished_votes_count == lowered(
                old(record).unrelinquished_votes_count,
            ),
            r.is_err() ==> *final(self) == *old(self) && final(record).unrelinquished_votes_count
                == old(record).unrelinquished_votes_count,
    {
        if !voter_record.same_as(&self.voter_record) {
            return Err(GovernanceError::InvalidOwnerRecord);
        }
        if self.is_relinquished {
            return Err(GovernanceError::VoteAlreadyRelinquished);
        }
        self.is_relinquished = true;
        record.unrelinquished_votes_count = record.unrelinquished_votes_count.saturating_sub(1);
        Ok(())
    }
}

} // verus!
