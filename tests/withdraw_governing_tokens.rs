use governance::address::{holding_address, token_owner_record_address, Address, Pubkey};
use governance::custody::{deposit_governing_tokens, withdraw_governing_tokens};
use governance::error::GovernanceError;
use governance::proposal::{Proposal, VoteRecord};
use governance::realm::{GoverningTokenConfig, GoverningTokenType, Realm};
use governance::record::TokenOwnerRecord;
use governance::token::TokenAccount;

const PROGRAM: u64 = 1;
const REALM: u64 = 10;
const REALM_AUTHORITY: u64 = 11;
const COMMUNITY_MINT: u64 = 20;
const COUNCIL_MINT: u64 = 21;
const SOURCE_AMOUNT: u64 = 100;

struct Bench {
    realm: Realm,
    community_holding: TokenAccount,
    council_holding: TokenAccount,
}

struct Member {
    owner: Pubkey,
    mint: Pubkey,
    record_address: Address,
    record: TokenOwnerRecord,
    source: TokenAccount,
}

fn bench_with(community: GoverningTokenType, council: GoverningTokenType) -> Bench {
    let program = Pubkey::new(PROGRAM);
    let realm_key = Pubkey::new(REALM);
    let community_mint = Pubkey::new(COMMUNITY_MINT);
    let council_mint = Pubkey::new(COUNCIL_MINT);
    Bench {
        realm: Realm::new(
            realm_key,
            Pubkey::new(REALM_AUTHORITY),
            community_mint,
            GoverningTokenConfig::new(community),
            Some(council_mint),
            GoverningTokenConfig::new(council),
        ),
        community_holding: TokenAccount::new(
            holding_address(program, realm_key, community_mint),
            community_mint,
            realm_key,
            0,
        ),
        council_holding: TokenAccount::new(
            holding_address(program, realm_key, council_mint),
            council_mint,
            realm_key,
            0,
        ),
    }
}

fn bench() -> Bench {
    bench_with(GoverningTokenType::Liquid, GoverningTokenType::Liquid)
}

fn deposit(b: &mut Bench, owner_id: u64, mint_id: u64) -> Member {
    let program = Pubkey::new(PROGRAM);
    let owner = Pubkey::new(owner_id);
    let mint = Pubkey::new(mint_id);
    let record_address = token_owner_record_address(program, b.realm.address, mint, owner);
    let mut record = TokenOwnerRecord::new(b.realm.address, mint, owner);
    let mut source =
        TokenAccount::new(Address::key(Pubkey::new(owner_id + 1000)), mint, owner, SOURCE_AMOUNT);
    let Bench { realm, community_holding, council_holding } = b;
    let holding = if mint_id == COMMUNITY_MINT { community_holding } else { council_holding };
    deposit_governing_tokens(
        program,
        realm,
        mint,
        owner,
        &record_address,
        &mut record,
        &mut source,
        holding,
        SOURCE_AMOUNT,
    )
    .unwrap();
    Member { owner, mint, record_address, record, source }
}

fn withdraw(b: &mut Bench, m: &mut Member) -> Result<u64, GovernanceError> {
    let signers = vec![m.owner];
    withdraw_signed_by(b, m, &signers)
}

fn withdraw_signed_by(
    b: &mut Bench,
    m: &mut Member,
    signers: &Vec<Pubkey>,
) -> Result<u64, GovernanceError> {
    let Bench { realm, community_holding, council_holding } = b;
    let holding = if m.mint.id == COMMUNITY_MINT { community_holding } else { council_holding };
    withdraw_governing_tokens(
        Pubkey::new(PROGRAM),
        realm,
        m.mint,
        m.owner,
        signers,
        &m.record_address,
        &mut m.record,
        holding,
        &mut m.source,
        0,
    )
}

fn signed_off_proposal(m: &mut Member) -> Proposal {
    let mut p = Proposal::create(m.record_address, &mut m.record).unwrap();
    p.sign_off().unwrap();
    p
}

#[test]
fn test_withdraw_community_tokens() {
    let mut b = bench();
    let mut m = deposit(&mut b, 100, COMMUNITY_MINT);
    withdraw(&mut b, &mut m).unwrap();
    assert_eq!(0, m.record.governing_token_deposit_amount);
    assert_eq!(0, b.community_holding.amount);
    assert_eq!(SOURCE_AMOUNT, m.source.amount);
}

#[test]
fn test_withdraw_council_tokens() {
    let mut b = bench();
    let mut m = deposit(&mut b, 100, COUNCIL_MINT);
    withdraw(&mut b, &mut m).unwrap();
    assert_eq!(0, m.record.governing_token_deposit_amount);
    assert_eq!(0, b.council_holding.amount);
    assert_eq!(SOURCE_AMOUNT, m.source.amount);
}

#[test]
fn test_withdraw_community_tokens_with_owner_must_sign_error() {
    let mut b = bench();
    let mut m = deposit(&mut b, 100, COMMUNITY_MINT);
    let hacker = Pubkey::new(666);
    m.source = TokenAccount::new(Address::key(hacker), m.mint, hacker, 0);
    let err = withdraw_signed_by(&mut b, &mut m, &vec![hacker]).err().unwrap();
    assert_eq!(err, GovernanceError::OwnerMustSign);
}

#[test]
fn test_withdraw_community_tokens_with_token_owner_record_address_mismatch_error() {
    let mut b = bench();
    let victim = deposit(&mut b, 100, COMMUNITY_MINT);
    let mut hacker = deposit(&mut b, 200, COMMUNITY_MINT);
    hacker.record_address = victim.record_address;
    hacker.record = victim.record;
    let err = withdraw(&mut b, &mut hacker).err().unwrap();
    assert_eq!(err, GovernanceError::InvalidRecordAddress);
}

#[test]
fn test_withdraw_governing_tokens_with_unrelinquished_votes_error() {
    let mut b = bench();
    let mut m = deposit(&mut b, 100, COMMUNITY_MINT);
    let proposal = signed_off_proposal(&mut m);
    VoteRecord::cast(&proposal, m.record_address, &mut m.record, true).unwrap();
    let err = withdraw(&mut b, &mut m).err().unwrap();
    assert_eq!(err, GovernanceError::VotesMustBeRelinquished);
}

#[test]
fn test_withdraw_governing_tokens_after_relinquishing_vote() {
    let mut b = bench();
    let mut m = deposit(&mut b, 100, COMMUNITY_MINT);
    let mut proposal = signed_off_proposal(&mut m);
    let mut vote = VoteRecord::cast(&proposal, m.record_address, &mut m.record, true).unwrap();
    // The only voter holds the whole supply, so the vote decides the proposal.
    let owner_record = m.record_address;
    proposal.finalize(&owner_record, &mut m.record, true).unwrap();
    vote.relinquish(&owner_record, &mut m.record).unwrap();
    withdraw(&mut b, &mut m).unwrap();
    assert_eq!(SOURCE_AMOUNT, m.source.amount);
}

#[test]
fn test_withdraw_tokens_with_malicious_holding_account_error() {
    let mut b = bench();
    let mut m = deposit(&mut b, 100, COMMUNITY_MINT);
    // Another account of the community mint, owned by the realm.
    b.community_holding = TokenAccount::new(Address::key(Pubkey::new(300)), m.mint, b.realm.address, 200);
    assert_eq!(b.community_holding.owner, b.realm.address);
    let err = withdraw(&mut b, &mut m).err().unwrap();
    assert_eq!(err, GovernanceError::InvalidHoldingAccount);
    assert_eq!(b.community_holding.amount, 200);
    assert_eq!(m.record.governing_token_deposit_amount, SOURCE_AMOUNT);
}

#[test]
fn test_withdraw_governing_tokens_with_outstanding_proposals_error() {
    let mut b = bench();
    let mut m = deposit(&mut b, 100, COMMUNITY_MINT);
    signed_off_proposal(&mut m);
    let err = withdraw(&mut b, &mut m).err().unwrap();
    assert_eq!(err, GovernanceError::ProposalsMustBeFinalised);
}

#[test]
fn test_withdraw_governing_tokens_after_proposal_cancelled() {
    let mut b = bench();
    let mut m = deposit(&mut b, 100, COMMUNITY_MINT);
    let mut proposal = signed_off_proposal(&mut m);
    let owner_record = m.record_address;
    proposal.cancel(&owner_record, &mut m.record).unwrap();
    withdraw(&mut b, &mut m).unwrap();
    assert_eq!(SOURCE_AMOUNT, m.source.amount);
}

#[test]
fn test_withdraw_council_tokens_with_cannot_withdraw_membership_tokens_error() {
    let mut b = bench_with(GoverningTokenType::Liquid, GoverningTokenType::Membership);
    let mut m = deposit(&mut b, 100, COUNCIL_MINT);
    let err = withdraw(&mut b, &mut m).err().unwrap();
    assert_eq!(err, GovernanceError::CannotWithdrawMembershipTokens);
}

#[test]
fn test_withdraw_dormant_community_tokens() {
    let mut b = bench();
    let mut m = deposit(&mut b, 100, COMMUNITY_MINT);
    b.realm
        .set_token_config(
            Pubkey::new(REALM_AUTHORITY),
            Pubkey::new(COMMUNITY_MINT),
            GoverningTokenConfig::new(GoverningTokenType::Dormant),
        )
        .unwrap();
    withdraw(&mut b, &mut m).unwrap();
    assert_eq!(0, m.record.governing_token_deposit_amount);
}

#[test]
fn test_withdraw_governing_tokens_with_token_owner_record_lock_error() {
    let mut b = bench();
    let mut m = deposit(&mut b, 100, COMMUNITY_MINT);
    let lock_authority = Pubkey::new(500);
    b.realm
        .register_lock_authority(Pubkey::new(REALM_AUTHORITY), m.mint, lock_authority)
        .unwrap();
    m.record.add_lock(&b.realm, lock_authority, true, 1, None).unwrap();
    let err = withdraw(&mut b, &mut m).err().unwrap();
    assert_eq!(err, GovernanceError::RecordLocked);
}
