use vstd::prelude::*;

verus! {

/// The closed set of reasons for which an operation is refused.
#[derive(Clone, Copy, Debug, PartialEq, Eq, Structural)]
pub enum GovernanceError {
    /// The governing token owner did not sign the request.
    OwnerMustSign,
    /// The supplied token owner record is not the canonical one for its seeds.
    InvalidRecordAddress,
    /// The supplied holding account is not the realm's holding account for the mint.
    InvalidHoldingAccount,
    /// The mint is neither the realm's community mint nor its council mint.
    InvalidGoverningTokenMint,
    /// Membership tokens can never be withdrawn.
    CannotWithdrawMembershipTokens,
    /// The record still has votes that were not relinquished.
    VotesMustBeRelinquished,
    /// The record still has proposals that have not reached a terminal state.
    ProposalsMustBeFinalised,
    /// The record carries a lock that has not expired.
    RecordLocked,
    /// The caller is not a registered lock authority of the record's realm and mint.
    UnauthorizedLockAuthority,
    /// No lock with the given id is on the record.
    LockNotFound,
    /// A lock with the given id is already on the record.
    LockAlreadyExists,
    /// The signer is not the realm's authority.
    InvalidRealmAuthority,
    /// The authority is already registered for the realm and mint.
    LockAuthorityAlreadyExists,
    /// The authority is not registered for the realm and mint.
    LockAuthorityNotFound,
    /// The token ledger refused the transfer (mint mismatch, funds, or overflow).
    TokenTransferFailed,
    /// A counter or an amount would leave the range of `u64`.
    MathOverflow,
    /// The proposal is not in a state that allows the operation.
    InvalidProposalState,
    /// The supplied record is not the one the proposal or vote belongs to.
    InvalidOwnerRecord,
    /// The vote was already relinquished.
    VoteAlreadyRelinquished,
}

} // verus!
