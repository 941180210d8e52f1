use vstd::prelude::*;
use crate::address::{
    holding_address,
    is_signer,
    spec_holding_address,
    spec_record_address,
    token_owner_record_address,
    Address,
    Pubkey,
};
use crate::error::GovernanceError;
use crate::realm::{GoverningTokenType, Realm};
use crate::record::{has_active_lock, TokenOwnerRecord};
use crate::token::{can_transfer, credited, debited, transfer, TokenAccount};

verus! {

/// The first check that a withdrawal request fails, in the order in which
/// the guard evaluates them, or `None` when the request is to be carried out.
pub open spec fn withdraw_error(
    program_id: Pubkey,
    realm: &Realm,
    mint: Pubkey,
    owner: Pubkey,
    signers: Seq<Pubkey>,
    record_address: Address,
    record: &TokenOwnerRecord,
    holding: TokenAccount,
    destination: TokenAccount,
    now: i64,
) -> Option<GovernanceError> {
    if !signers.contains(owner) {
        Some(GovernanceError::OwnerMustSign)
    } else if record_address != spec_record_address(program_id, realm.address, mint, owner)
        || !record.has_seeds(realm.address, mint, owner) {
        Some(GovernanceError::InvalidRecordAddress)
    } else if holding.address != spec_holding_address(program_id, realm.address, mint) {
        Some(GovernanceError::InvalidHoldingAccount)
    } else if realm.spec_token_config(mint).is_none() {
        Some(GovernanceError::InvalidGoverningTokenMint)
    } else if realm.spec_token_config(mint).unwrap().token_type == GoverningTokenType::Membership {
        Some(GovernanceError::CannotWithdrawMembershipTokens)
    } else if record.unrelinquished_votes_count > 0 {
        Some(GovernanceError::VotesMustBeRelinquished)
    } else if record.outstanding_proposal_count > 0 {
        Some(GovernanceError::ProposalsMustBeFinalised)
    } else if has_active_lock(record.locks@, now) {
        Some(GovernanceError::RecordLocked)
    } else if !can_transfer(holding, destination, record.governing_token_deposit_amount) {
        Some(GovernanceError::TokenTransferFailed)
    } else {
        None
    }
}

/// The first check that a deposit request fails, or `None` when the request
/// is to be carried out. The token type of the mint plays no part.
pub open spec fn deposit_error(
    program_id: Pubkey,
    realm: &Realm,
    mint: Pubkey,
    owner: Pubkey,
    record_address: Address,
    record: &TokenOwnerRecord,
    source: TokenAccount,
    holding: TokenAccount,
    amount: u64,
) -> Option<GovernanceError> {
    deposit_error_for(
        program_id,
        realm,
        mint,
        owner,
        record_address,
        record.has_seeds(realm.address, mint, owner),
        record.governing_token_deposit_amount,
        source,
        holding,
        amount,
    )
}

/// `deposit_error` for a record whose seeds match the request exactly when
/// `seeds_match` and which holds `deposited` tokens.
pub open spec fn deposit_error_for(
    program_id: Pubkey,
    realm: &Realm,
    mint: Pubkey,
    owner: Pubkey,
    record_address: Address,
    seeds_match: bool,
    deposited: u64,
    source: TokenAccount,
    holding: TokenAccount,
    amount: u64,
) -> Option<GovernanceError> {
    if record_address != spec_record_address(program_id, realm.address, mint, owner)
        || !seeds_match {
        Some(GovernanceError::InvalidRecordAddress)
    } else if holding.address != spec_holding_address(program_id, realm.address, mint) {
        Some(GovernanceError::InvalidHoldingAccount)
    } else if realm.spec_token_config(mint).is_none() {
        Some(GovernanceError::InvalidGoverningTokenMint)
    } else if deposited + amount > u64::MAX {
        Some(GovernanceError::MathOverflow)
    } else if !can_transfer(source, holding, amount) {
        Some(GovernanceError::TokenTransferFailed)
    } else {
        None
    }
}

/// The record that a first deposit of `amount` leaves behind.
pub open spec fn is_first_deposit_record(
    r: &TokenOwnerRecord,
    realm: Pubkey,
    mint: Pubkey,
    owner: Pubkey,
    amount: u64,
) -> bool {
    &&& r.has_seeds(realm, mint, owner)
    &&& r.governing_token_deposit_amount == amount
    &&& r.unrelinquished_votes_count == 0
    &&& r.outstanding_proposal_count == 0
    &&& r.locks@.len() == 0
}

/// `r` is `o` with its deposit set to `amount` and nothing else changed.
pub open spec fn same_but_deposit(r: &TokenOwnerRecord, o: &TokenOwnerRecord, amount: int) -> bool {
    &&& r.realm == o.realm
    &&& r.governing_token_mint == o.governing_token_mint
    &&& r.governing_token_owner == o.governing_token_owner
    &&& r.governing_token_deposit_amount == amount
    &&& r.unrelinquished_votes_count == o.unrelinquished_votes_count
    &&& r.outstanding_proposal_count == o.outstanding_proposal_count
    &&& r.locks@ == o.locks@
}

/// The records are equal field by field.
pub open spec fn same_record(r: &TokenOwnerRecord, o: &TokenOwnerRecord) -> bool {
    same_but_deposit(r, o, o.governing_token_deposit_amount as int)
}

/// Moves `amount` governing tokens from `source` into the realm's holding
/// account and credits them to the owner's record. Deposits are accepted
/// whatever the token type of the mint.
pub fn deposit_governing_tokens(
    program_id: Pubkey,
    realm: &Realm,
    governing_token_mint: Pubkey,
    governing_token_owner: Pubkey,
    record_address: &Address,
    record: &mut TokenOwnerRecord,
    source: &mut TokenAccount,
    holding: &mut TokenAccount,
    amount: u64,
) -> (r: Result<(), GovernanceError>)
    requires
        amount > 0,
    ensures
        ({
            let e = deposit_error(
                program_id,
                realm,
                governing_token_mint,
                governing_token_owner,
                *record_address,
                old(record),
                *old(source),
                *old(holding),
                amount,
            );
            &&& r.is_ok() <==> e.is_none()
            &&& r.is_err() ==> r == Err::<(), _>(e.unwrap()) && same_record(final(record), old(record))
                && *final(source) == *old(source) && *final(holding) == *old(holding)
            &&& r.is_ok() ==> same_but_deposit(
                final(record),
                old(record),
                old(record).governing_token_deposit_amount + amount,
            ) && *final(source) == debited(*old(source), amount) && *final(holding) == credited(
                *old(holding),
                amount,
            )
        }),
{
    let canonical_record = token_owner_record_address(
        program_id,
        realm.address,
        governing_token_mint,
        governing_token_owner,
    );
    if !record_address.same_as(&canonical_record) || record.realm != realm.address
        || record.governing_token_mint != governing_token_mint || record.governing_token_owner
        != governing_token_owner {
        return Err(GovernanceError::InvalidRecordAddress);
    }
    let canonical_holding = holding_address(program_id, realm.address, governing_token_mint);
    if !holding.address.same_as(&canonical_holding) {
        return Err(GovernanceError::InvalidHoldingAccount);
    }
    if realm.token_config(governing_token_mint).is_none() {
        return Err(GovernanceError::InvalidGoverningTokenMint);
    }
    if record.governing_token_deposit_amount > u64::MAX - amount {
        return Err(GovernanceError::MathOverflow);
    }
    if !transfer(source, holding, amount) {
        return Err(GovernanceError::TokenTransferFailed);
    }
    record.governing_token_deposit_amount = record.governing_token_deposit_amount + amount;
    Ok(())
}

/// Deposits into the owner's record, creating it on the first deposit.
/// When the deposit is refused, an absent record stays absent.
pub fn deposit_creating_record(
    program_id: Pubkey,
    realm: &Realm,
    governing_token_mint: Pubkey,
    governing_token_owner: Pubkey,
    record_address: &Address,
    record: &mut Option<TokenOwnerRecord>,
    source: &mut TokenAccount,
    holding: &mut TokenAccount,
    amount: u64,
) -> (r: Result<(), GovernanceError>)
    requires
        amount > 0,
    ensures
        old(record).is_some() ==> final(record).is_some() && {
            let before = old(record).unwrap();
            let after = final(record).unwrap();
            let e = deposit_error(
                program_id,
                realm,
                governing_token_mint,
                governing_token_owner,
                *record_address,
                &before,
                *old(source),
                *old(holding),
                amount,
            );
            &&& r.is_ok() <==> e.is_none()
            &&& r.is_err() ==> r == Err::<(), _>(e.unwrap()) && same_record(&after, &before)
            &&& r.is_ok() ==> same_but_deposit(
                &after,
                &before,
                before.governing_token_deposit_amount + amount,
            )
        },
        old(record).is_none() ==> {
            let e = deposit_error_for(
                program_id,
                realm,
                governing_token_mint,
                governing_token_owner,
                *record_address,
                true,
                0,
                *old(source),
                *old(holding),
                amount,
            );
            &&& r.is_ok() <==> e.is_none()
            &&& r.is_err() ==> r == Err::<(), _>(e.unwrap()) && final(record).is_none()
            &&& r.is_ok() ==> final(record).is_some() && is_first_deposit_record(
                &final(record).unwrap(),
                realm.address,
                governing_token_mint,
                governing_token_owner,
                amount,
            )
        },
        r.is_err() ==> *final(source) == *old(source) && *final(holding) == *old(holding),
        r.is_ok() ==> *final(source) == debited(*old(source), amount) && *final(holding)
            == credited(*old(holding), amount),
{
    let existed = record.is_some();
    let mut current = match record.take() {
        Some(r) => r,
        None => TokenOwnerRecord::new(realm.address, governing_token_mint, governing_token_owner),
    };
    let result = deposit_governing_tokens(
        program_id,
        realm,
        governing_token_mint,
        governing_token_owner,
        record_address,
        &mut current,
        source,
        holding,
        amount,
    );
    if existed || result.is_ok() {
        *record = Some(current);
    }
    result
}

/// Releases the owner's whole deposit from the realm's holding account to
/// `destination`, after checking, in this order: the owner signed; the
/// record and the holding account are the canonical ones for
/// `(realm, mint, owner)`; the mint belongs to the realm and is not a
/// membership token; the record has no unrelinquished vote, no outstanding
/// proposal and no active lock at time `now`; the token ledger accepts the
/// transfer. The first failing check is reported and nothing changes.
/// On success the amount released is returned and the record's deposit is 0.
pub fn withdraw_governing_tokens(
    program_id: Pubkey,
    realm: &Realm,
    governing_token_mint: Pubkey,
    governing_token_owner: Pubkey,
    signers: &Vec<Pubkey>,
    record_address: &Address,
    record: &mut TokenOwnerRecord,
    holding: &mut TokenAccount,
    destination: &mut TokenAccount,
    now: i64,
) -> (r: Result<u64, GovernanceError>)
    ensures
        ({
            let e = withdraw_error(
                program_id,
                realm,
                governing_token_mint,
                governing_token_owner,
                signers@,
                *record_address,
                old(record),
                *old(holding),
                *old(destination),
                now,
            );
            let amount = old(record).governing_token_deposit_amount;
            &&& r.is_ok() <==> e.is_none()
            &&& r.is_err() ==> r == Err::<u64, _>(e.unwrap()) && same_record(final(record), old(record))
                && *final(holding) == *old(holding) && *final(destination) == *old(destination)
            &&& r.is_ok() ==> r == Ok::<_, GovernanceError>(amount) && same_but_deposit(
                final(record),
                old(record),
                0,
            ) && *final(holding) == debited(*old(holding), amount) && *final(destination)
                == credited(*old(destination), amount)
        }),
{
    if !is_signer(signers, governing_token_owner) {
        return Err(GovernanceError::OwnerMustSign);
    }
    let canonical_record = token_owner_record_address(
        program_id,
        realm.address,
        governing_token_mint,
        governing_token_owner,
    );
    if !record_address.same_as(&canonical_record) || record.realm != realm.address
        || record.governing_token_mint != governing_token_mint || record.governing_token_owner
        != governing_token_owner {
        return Err(GovernanceError::InvalidRecordAddress);
    }
    let canonical_holding = holding_address(program_id, realm.address, governing_token_mint);
    if !holding.address.same_as(&canonical_holding) {
        return Err(GovernanceError::InvalidHoldingAccount);
    }
    let config = match realm.token_config(governing_token_mint) {
        None => {
            return Err(GovernanceError::InvalidGoverningTokenMint);
        },
        Some(c) => c,
    };
    if config.token_type == GoverningTokenType::Membership {
        return Err(GovernanceError::CannotWithdrawMembershipTokens);
    }
    if record.unrelinquished_votes_count > 0 {
        return Err(GovernanceError::VotesMustBeRelinquished);
    }
    if record.outstanding_proposal_count > 0 {
        return Err(GovernanceError::ProposalsMustBeFinalised);
    }
    if record.is_locked(now) {
        return Err(GovernanceError::RecordLocked);
    }
    let amount = record.governing_token_deposit_amount;
    if !transfer(holding, destination, amount) {
        return Err(GovernanceError::TokenTransferFailed);
    }
    record.governing_token_deposit_amount = 0;
    Ok(amount)
}

} // verus!
