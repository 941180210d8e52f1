use vstd::prelude::*;

verus! {

/// An account or signer identity.
#[derive(Clone, Copy, Debug, PartialEq, Eq, Structural)]
pub struct Pubkey {
    pub id: u64,
}

impl Pubkey {
    pub fn new(id: u64) -> (r: Pubkey)
        ensures
            r.id == id,
    {
        Pubkey { id }
    }
}

/// The role under which an address is derived; it separates the address
/// spaces of different kinds of accounts.
#[derive(Clone, Copy, Debug, PartialEq, Eq, Structural)]
pub enum Role {
    /// The realm's holding account for one governing mint.
    GoverningTokenHolding,
    /// A member's token owner record.
    TokenOwnerRecord,
}

/// The identity of an account: either a free key, or an address derived
/// from a program, a role and a seed tuple.
///
/// A derived address holds its seeds, so two derived addresses are equal
/// exactly when their program, role and seeds are equal: the mapping is
/// collision free by construction, and no free key equals a derived address.
#[derive(Clone, Copy, Debug, PartialEq, Eq, Structural)]
pub enum Address {
    Key(Pubkey),
    Derived { program: Pubkey, role: Role, seeds: SeedTuple },
}

/// The seeds of a derived address; the role decides how many are used,
/// and unused slots hold `None`.
#[derive(Clone, Copy, Debug, PartialEq, Eq, Structural)]
pub struct SeedTuple {
    pub realm: Pubkey,
    pub mint: Pubkey,
    pub owner: Option<Pubkey>,
}

pub open spec fn spec_derive_address(program: Pubkey, role: Role, seeds: SeedTuple) -> Address {
    Address::Derived { program, role, seeds }
}

/// The canonical holding account of `realm` for `mint`.
pub open spec fn spec_holding_address(program: Pubkey, realm: Pubkey, mint: Pubkey) -> Address {
    spec_derive_address(
        program,
        Role::GoverningTokenHolding,
        SeedTuple { realm, mint, owner: None },
    )
}

/// The canonical token owner record of `owner` for `(realm, mint)`.
pub open spec fn spec_record_address(
    program: Pubkey,
    realm: Pubkey,
    mint: Pubkey,
    owner: Pubkey,
) -> Address {
    spec_derive_address(
        program,
        Role::TokenOwnerRecord,
        SeedTuple { realm, mint, owner: Some(owner) },
    )
}

impl Address {
    pub fn key(k: Pubkey) -> (r: Address)
        ensures
            r == Address::Key(k),
    {
        Address::Key(k)
    }

    /// Compares two identities.
    pub fn same_as(&self, other: &Address) -> (r: bool)
        ensures
            r == (*self == *other),
    {
        *self == *other
    }
}

/// Maps a program, a role and a seed tuple to the account identity of that role.
pub fn derive_address(program: Pubkey, role: Role, seeds: SeedTuple) -> (r: Address)
    ensures
        r == spec_derive_address(program, role, seeds),
{
    Address::Derived { program, role, seeds }
}

pub fn holding_address(program: Pubkey, realm: Pubkey, mint: Pubkey) -> (r: Address)
    ensures
        r == spec_holding_address(program, realm, mint),
{
    derive_address(program, Role::GoverningTokenHolding, SeedTuple { realm, mint, owner: None })
}

pub fn token_owner_record_address(
    program: Pubkey,
    realm: Pubkey,
    mint: Pubkey,
    owner: Pubkey,
) -> (r: Address)
    ensures
        r == spec_record_address(program, realm, mint, owner),
{
    derive_address(
        program,
        Role::TokenOwnerRecord,
        SeedTuple { realm, mint, owner: Some(owner) },
    )
}

/// Whether `key` is among the signers of a request.
pub fn is_signer(signers: &Vec<Pubkey>, key: Pubkey) -> (r: bool)
    ensures
        r == signers@.contains(key),
{
    let mut i: usize = 0;
    while i < signers.len()
        invariant
            i <= signers@.len(),
            forall|k: int| 0 <= k < i ==> signers@[k] != key,
        decreases signers@.len() - i,
    {
        if signers[i] == key {
            return true;
        }
        i = i + 1;
    }
    false
}

/// Derivation is a function of its inputs, and different inputs give
/// different identities.
pub proof fn lemma_derive_injective(
    program_a: Pubkey,
    role_a: Role,
    seeds_a: SeedTuple,
    program_b: Pubkey,
    role_b: Role,
    seeds_b: SeedTuple,
)
    ensures
        (spec_derive_address(program_a, role_a, seeds_a) == spec_derive_address(
            program_b,
            role_b,
            seeds_b,
        )) <==> (program_a == program_b && role_a == role_b && seeds_a == seeds_b),
{
}

/// A derived address is never a free key, and a holding account is never a
/// token owner record.
pub proof fn lemma_roles_disjoint(
    program: Pubkey,
    realm: Pubkey,
    mint: Pubkey,
    owner: Pubkey,
    k: Pubkey,
)
    ensures
        spec_holding_address(program, realm, mint) != Address::Key(k),
        spec_record_address(program, realm, mint, owner) != Address::Key(k),
        spec_holding_address(program, realm, mint) != spec_record_address(
            program,
            realm,
            mint,
            owner,
        ),
{
}

} // verus!
