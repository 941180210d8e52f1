//! Properties that relate several operations of the custody guard.
use vstd::prelude::*;
use crate::address::{spec_holding_address, spec_record_address, Address, Pubkey};
use crate::custody::{deposit_error, same_but_deposit, withdraw_error};
use crate::error::GovernanceError;
use crate::proposal::{lowered, same_but_counters};
use crate::realm::{GoverningTokenType, Realm};
use crate::record::{has_active_lock, lock_is_active, TokenLock, TokenOwnerRecord};
use crate::token::{can_transfer, credited, debited, TokenAccount};

verus! {

/// The request is signed by the owner, names the canonical record and
/// holding account, and its mint belongs to the realm.
pub open spec fn well_addressed(
    program_id: Pubkey,
    realm: &Realm,
    mint: Pubkey,
    owner: Pubkey,
    signers: Seq<Pubkey>,
    record_address: Address,
    record: &TokenOwnerRecord,
    holding: TokenAccount,
) -> bool {
    &&& signers.contains(owner)
    &&& record_address == spec_record_address(program_id, realm.address, mint, owner)
    &&& record.has_seeds(realm.address, mint, owner)
    &&& holding.address == spec_holding_address(program_id, realm.address, mint)
    &&& realm.spec_token_config(mint).is_some()
}

pub open spec fn is_membership(realm: &Realm, mint: Pubkey) -> bool {
    realm.spec_token_config(mint).unwrap().token_type == GoverningTokenType::Membership
}

/// For a well-addressed request whose transfer the token ledger accepts,
/// withdrawal succeeds exactly when the record has no unrelinquished vote,
/// no outstanding proposal and no active lock and the token is not a
/// membership token; otherwise the first violated condition is reported.
pub proof fn lemma_withdraw_succeeds_iff_clear(
    program_id: Pubkey,
    realm: &Realm,
    mint: Pubkey,
    owner: Pubkey,
    signers: Seq<Pubkey>,
    record_address: Address,
    record: &TokenOwnerRecord,
    holding: TokenAccount,
    destination: TokenAccount,
    now: i64,
)
    requires
        well_addressed(program_id, realm, mint, owner, signers, record_address, record, holding),
        can_transfer(holding, destination, record.governing_token_deposit_amount),
    ensures
        ({
            let e = withdraw_error(
                program_id,
                realm,
                mint,
                owner,
                signers,
                record_address,
                record,
                holding,
                destination,
                now,
            );
            &&& e.is_none() <==> (record.unrelinquished_votes_count == 0
                && record.outstanding_proposal_count == 0 && !has_active_lock(record.locks@, now)
                && !is_membership(realm, mint))
            &&& is_membership(realm, mint) ==> e == Some(
                GovernanceError::CannotWithdrawMembershipTokens,
            )
            &&& !is_membership(realm, mint) && record.unrelinquished_votes_count > 0 ==> e == Some(
                GovernanceError::VotesMustBeRelinquished,
            )
            &&& !is_membership(realm, mint) && record.unrelinquished_votes_count == 0
                && record.outstanding_proposal_count > 0 ==> e == Some(
                GovernanceError::ProposalsMustBeFinalised,
            )
            &&& !is_membership(realm, mint) && record.unrelinquished_votes_count == 0
                && record.outstanding_proposal_count == 0 && has_active_lock(record.locks@, now)
                ==> e == Some(GovernanceError::RecordLocked)
        }),
{
}

/// After a successful withdrawal the record holds nothing, so the same
/// request again succeeds and moves no tokens.
pub proof fn lemma_repeated_withdrawal_moves_nothing(
    program_id: Pubkey,
    realm: &Realm,
    mint: Pubkey,
    owner: Pubkey,
    signers: Seq<Pubkey>,
    record_address: Address,
    record: &TokenOwnerRecord,
    holding: TokenAccount,
    destination: TokenAccount,
    now: i64,
    after: &TokenOwnerRecord,
)
    requires
        withdraw_error(
            program_id,
            realm,
            mint,
            owner,
            signers,
            record_address,
            record,
            holding,
            destination,
            now,
        ).is_none(),
        same_but_deposit(after, record, 0),
    ensures
        ({
            let amount = record.governing_token_deposit_amount;
            let holding2 = debited(holding, amount);
            let destination2 = credited(destination, amount);
            &&& destination2.amount == destination.amount + amount
            &&& withdraw_error(
                program_id,
                realm,
                mint,
                owner,
                signers,
                record_address,
                after,
                holding2,
                destination2,
                now,
            ).is_none()
            &&& after.governing_token_deposit_amount == 0
            &&& debited(holding2, 0) == holding2
            &&& credited(destination2, 0) == destination2
        }),
{
}

/// A deposit into an empty, unencumbered record of a withdrawable token,
/// followed at once by a withdrawal back to the source account, leaves the
/// source and the holding account as they were.
pub proof fn lemma_deposit_then_withdraw_restores_source(
    program_id: Pubkey,
    realm: &Realm,
    mint: Pubkey,
    owner: Pubkey,
    signers: Seq<Pubkey>,
    record_address: Address,
    record: &TokenOwnerRecord,
    source: TokenAccount,
    holding: TokenAccount,
    amount: u64,
    deposited: &TokenOwnerRecord,
    now: i64,
)
    requires
        signers.contains(owner),
        record.governing_token_deposit_amount == 0,
        record.unrelinquished_votes_count == 0,
        record.outstanding_proposal_count == 0,
        !has_active_lock(record.locks@, now),
        deposit_error(
            program_id,
            realm,
            mint,
            owner,
            record_address,
            record,
            source,
            holding,
            amount,
        ).is_none(),
        !is_membership(realm, mint),
        same_but_deposit(deposited, record, amount as int),
    ensures
        ({
            let source1 = debited(source, amount);
            let holding1 = credited(holding, amount);
            &&& withdraw_error(
                program_id,
                realm,
                mint,
                owner,
                signers,
                record_address,
                deposited,
                holding1,
                source1,
                now,
            ).is_none()
            &&& deposited.governing_token_deposit_amount == amount
            &&& credited(source1, amount) == source
            &&& debited(holding1, amount) == holding
        }),
{
}

/// A cast vote blocks withdrawal from an otherwise withdrawable record;
/// once relinquished, the record is withdrawable again with its whole deposit.
pub proof fn lemma_vote_blocks_until_relinquished(
    program_id: Pubkey,
    realm: &Realm,
    mint: Pubkey,
    owner: Pubkey,
    signers: Seq<Pubkey>,
    record_address: Address,
    record: &TokenOwnerRecord,
    voted: &TokenOwnerRecord,
    relinquished: &TokenOwnerRecord,
    holding: TokenAccount,
    destination: TokenAccount,
    now: i64,
)
    requires
        withdraw_error(
            program_id,
            realm,
            mint,
            owner,
            signers,
            record_address,
            record,
            holding,
            destination,
            now,
        ).is_none(),
        same_but_counters(voted, record),
        voted.unrelinquished_votes_count == record.unrelinquished_votes_count + 1,
        voted.outstanding_proposal_count == record.outstanding_proposal_count,
        same_but_counters(relinquished, voted),
        relinquished.unrelinquished_votes_count == lowered(voted.unrelinquished_votes_count),
        relinquished.outstanding_proposal_count == voted.outstanding_proposal_count,
    ensures
        withdraw_error(
            program_id,
            realm,
            mint,
            owner,
            signers,
            record_address,
            voted,
            holding,
            destination,
            now,
        ) == Some(GovernanceError::VotesMustBeRelinquished),
        withdraw_error(
            program_id,
            realm,
            mint,
            owner,
            signers,
            record_address,
            relinquished,
            holding,
            destination,
            now,
        ).is_none(),
        relinquished.governing_token_deposit_amount == record.governing_token_deposit_amount,
{
}

/// A proposal that has not reached a terminal state blocks withdrawal from
/// an otherwise withdrawable record; cancelling it lifts the block.
pub proof fn lemma_proposal_blocks_until_cancelled(
    program_id: Pubkey,
    realm: &Realm,
    mint: Pubkey,
    owner: Pubkey,
    signers: Seq<Pubkey>,
    record_address: Address,
    record: &TokenOwnerRecord,
    proposed: &TokenOwnerRecord,
    cancelled: &TokenOwnerRecord,
    holding: TokenAccount,
    destination: TokenAccount,
    now: i64,
)
    requires
        withdraw_error(
            program_id,
            realm,
            mint,
            owner,
            signers,
            record_address,
            record,
            holding,
            destination,
            now,
        ).is_none(),
        same_but_counters(proposed, record),
        proposed.outstanding_proposal_count == record.outstanding_proposal_count + 1,
        proposed.unrelinquished_votes_count == record.unrelinquished_votes_count,
        same_but_counters(cancelled, proposed),
        cancelled.outstanding_proposal_count == lowered(proposed.outstanding_proposal_count),
        cancelled.unrelinquished_votes_count == proposed.unrelinquished_votes_count,
    ensures
        withdraw_error(
            program_id,
            realm,
            mint,
            owner,
            signers,
            record_address,
            proposed,
            holding,
            destination,
            now,
        ) == Some(GovernanceError::ProposalsMustBeFinalised),
        withdraw_error(
            program_id,
            realm,
            mint,
            owner,
            signers,
            record_address,
            cancelled,
            holding,
            destination,
            now,
        ).is_none(),
{
}

/// A record that carries an active lock cannot be withdrawn from, whatever
/// its votes and proposals; a lock just added without expiry, or with one
/// still to come, is such a lock.
pub proof fn lemma_active_lock_blocks_withdrawal(
    program_id: Pubkey,
    realm: &Realm,
    mint: Pubkey,
    owner: Pubkey,
    signers: Seq<Pubkey>,
    record_address: Address,
    record: &TokenOwnerRecord,
    holding: TokenAccount,
    destination: TokenAccount,
    now: i64,
    before: &TokenOwnerRecord,
    lock: TokenLock,
)
    requires
        record.locks@ == before.locks@.push(lock),
        lock_is_active(lock, now),
    ensures
        has_active_lock(record.locks@, now),
        withdraw_error(
            program_id,
            realm,
            mint,
            owner,
            signers,
            record_address,
            record,
            holding,
            destination,
            now,
        ).is_some(),
{
    assert(record.locks@[before.locks@.len() as int] == lock);
}

/// Whenever an account in a privileged slot is substituted, the request is
/// refused for that reason even when the owner signed it.
pub proof fn lemma_substituted_accounts_rejected(
    program_id: Pubkey,
    realm: &Realm,
    mint: Pubkey,
    owner: Pubkey,
    signers: Seq<Pubkey>,
    record_address: Address,
    record: &TokenOwnerRecord,
    holding: TokenAccount,
    destination: TokenAccount,
    now: i64,
)
    requires
        signers.contains(owner),
    ensures
        record_address != spec_record_address(program_id, realm.address, mint, owner)
            ==> withdraw_error(
            program_id,
            realm,
            mint,
            owner,
            signers,
            record_address,
            record,
            holding,
            destination,
            now,
        ) == Some(GovernanceError::InvalidRecordAddress),
        record_address == spec_record_address(program_id, realm.address, mint, owner)
            && record.has_seeds(realm.address, mint, owner) && holding.address
            != spec_holding_address(program_id, realm.address, mint) ==> withdraw_error(
            program_id,
            realm,
            mint,
            owner,
            signers,
            record_address,
            record,
            holding,
            destination,
            now,
        ) == Some(GovernanceError::InvalidHoldingAccount),
{
}

/// Membership tokens can never be withdrawn, while the token type has no
/// bearing on deposits: two realms that differ only in their token
/// configs accept and refuse the same deposits.
pub proof fn lemma_token_type_restricts_only_membership_withdrawal(
    program_id: Pubkey,
    realm: &Realm,
    other: &Realm,
    mint: Pubkey,
    owner: Pubkey,
    signers: Seq<Pubkey>,
    record_address: Address,
    record: &TokenOwnerRecord,
    source: TokenAccount,
    holding: TokenAccount,
    destination: TokenAccount,
    amount: u64,
    now: i64,
)
    requires
        other.address == realm.address,
        other.community_mint == realm.community_mint,
        other.council_mint == realm.council_mint,
    ensures
        deposit_error(program_id, realm, mint, owner, record_address, record, source, holding, amount)
            == deposit_error(
            program_id,
            other,
            mint,
            owner,
            record_address,
            record,
            source,
            holding,
            amount,
        ),
        realm.spec_token_config(mint).is_some() && is_membership(realm, mint) ==> withdraw_error(
            program_id,
            realm,
            mint,
            owner,
            signers,
            record_address,
            record,
            holding,
            destination,
            now,
        ).is_some(),
{
}

} // verus!
