use vstd::prelude::*;
use crate::address::Pubkey;
use crate::error::GovernanceError;
use crate::realm::Realm;

verus! {

/// A hold placed on a record by a lock authority, until `expiry` if one is set.
#[derive(Clone, Copy, Debug, PartialEq, Eq, Structural)]
pub struct TokenLock {
    pub lock_id: u64,
    pub authority: Pubkey,
    pub expiry: Option<i64>,
}

/// The custody ledger of one owner for one realm and mint.
#[derive(Debug)]
pub struct TokenOwnerRecord {
    pub realm: Pubkey,
    pub governing_token_mint: Pubkey,
    pub governing_token_owner: Pubkey,
    pub governing_token_deposit_amount: u64,
    pub unrelinquished_votes_count: u64,
    pub outstanding_proposal_count: u64,
    pub locks: Vec<TokenLock>,
}

/// A lock holds at time `now` unless its expiry is set and has passed.
pub open spec fn lock_is_active(lock: TokenLock, now: i64) -> bool {
    match lock.expiry {
        None => true,
        Some(t) => now < t,
    }
}

pub open spec fn has_active_lock(locks: Seq<TokenLock>, now: i64) -> bool {
    exists|i: int| 0 <= i < locks.len() && lock_is_active(#[trigger] locks[i], now)
}

pub open spec fn has_lock_id(locks: Seq<TokenLock>, lock_id: u64) -> bool {
    exists|i: int| 0 <= i < locks.len() && (#[trigger] locks[i]).lock_id == lock_id
}

impl TokenOwnerRecord {
    /// The record was made for these seeds.
    pub open spec fn has_seeds(&self, realm: Pubkey, mint: Pubkey, owner: Pubkey) -> bool {
        &&& self.realm == realm
        &&& self.governing_token_mint == mint
        &&& self.governing_token_owner == owner
    }

    /// Lock ids are unique on a record.
    pub open spec fn wf(&self) -> bool {
        forall|i: int, j: int|
            0 <= i < j < self.locks@.len() ==> self.locks@[i].lock_id != self.locks@[j].lock_id
    }

    /// Everything but the lock set is as in `other`.
    pub open spec fn same_but_locks(&self, other: &TokenOwnerRecord) -> bool {
        &&& self.realm == other.realm
        &&& self.governing_token_mint == other.governing_token_mint
        &&& self.governing_token_owner == other.governing_token_owner
        &&& self.governing_token_deposit_amount == other.governing_token_deposit_amount
        &&& self.unrelinquished_votes_count == other.unrelinquished_votes_count
        &&& self.outstanding_proposal_count == other.outstanding_proposal_count
    }

    /// The record made on a first deposit: nothing deposited, no votes, no
    /// proposals and no locks.
    pub fn new(realm: Pubkey, mint: Pubkey, owner: Pubkey) -> (r: TokenOwnerRecord)
        ensures
            r.wf(),
            r.has_seeds(realm, mint, owner),
            r.governing_token_deposit_amount == 0,
            r.unrelinquished_votes_count == 0,
            r.outstanding_proposal_count == 0,
            r.locks@.len() == 0,
    {
        TokenOwnerRecord {
            realm,
            governing_token_mint: mint,
            governing_token_owner: owner,
            governing_token_deposit_amount: 0,
            unrelinquished_votes_count: 0,
            outstanding_proposal_count: 0,
            locks: Vec::new(),
        }
    }

    fn find_lock(&self, lock_id: u64) -> (r: Option<usize>)
        ensures
            match r {
                Some(i) => i < self.locks@.len() && self.locks@[i as int].lock_id == lock_id,
                None => !has_lock_id(self.locks@, lock_id),
            },
    {
        let mut i: usize = 0;
        while i < self.locks.len()
            invariant
                i <= self.locks@.len(),
                forall|k: int| 0 <= k < i ==> self.locks@[k].lock_id != lock_id,
            decreases self.locks@.len() - i,
        {
            if self.locks[i].lock_id == lock_id {
                return Some(i);
            }
            i = i + 1;
        }
        None
    }

    /// Whether some lock on the record holds at time `now`.
    pub fn is_locked(&self, now: i64) -> (r: bool)
        ensures
            r == has_active_lock(self.locks@, now),
    {
        let mut i: usize = 0;
        while i < self.locks.len()
            invariant
                i <= self.locks@.len(),
                forall|k: int| 0 <= k < i ==> !lock_is_active(self.locks@[k], now),
            decreases self.locks@.len() - i,
        {
            let active = match self.locks[i].expiry {
                None => true,
                Some(t) => now < t,
            };
            if active {
                return true;
            }
            i = i + 1;
        }
        false
    }

    /// Places a lock on the record on behalf of `authority`, which must have
    /// signed and be registered for the record's realm and mint.
    pub fn add_lock(
        &mut self,
        realm: &Realm,
        authority: Pubkey,
        authority_signed: bool,
        lock_id: u64,
        expiry: Option<i64>,
    ) -> (r: Result<(), GovernanceError>)
        requires
            old(self).wf(),
        ensures
            final(self).wf(),
            final(self).same_but_locks(old(self)),
            !(authority_signed && old(self).realm == realm.address && realm.is_lock_authority(
                old(self).governing_token_mint,
                authority,
            )) ==> r == Err::<(), _>(GovernanceError::UnauthorizedLockAuthority),
            authority_signed && old(self).realm == realm.address && realm.is_lock_authority(
                old(self).governing_token_mint,
                authority,
            ) ==> r == if has_lock_id(old(self).locks@, lock_id) {
                Err::<(), _>(GovernanceError::LockAlreadyExists)
            } else {
                Ok(())
            },
            r.is_ok() ==> final(self).locks@ == old(self).locks@.push(
                TokenLock { lock_id, authority, expiry },
            ),
            r.is_err() ==> final(self).locks@ == old(self).locks@,
    {
        if !authority_signed || self.realm != realm.address || !realm.has_lock_authority(
            self.governing_token_mint,
            authority,
        ) {
            return Err(GovernanceError::UnauthorizedLockAuthority);
        }
        if self.find_lock(lock_id).is_some() {
            return Err(GovernanceError::LockAlreadyExists);
        }
        self.locks.push(TokenLock { lock_id, authority, expiry });
        proof {
            assert forall|i: int, j: int| 0 <= i < j < self.locks@.len() implies self.locks@[i].lock_id
                != self.locks@[j].lock_id by {
                if j == self.locks@.len() - 1 {
                    assert(old(self).locks@[i] == self.locks@[i]);
                }
            }
        }
        Ok(())
    }

    /// Takes the lock with id `lock_id` off the record, on behalf of a
    /// registered authority that signed.
    pub fn remove_lock(
        &mut self,
        realm: &Realm,
        authority: Pubkey,
        authority_signed: bool,
        lock_id: u64,
    ) -> (r: Result<(), GovernanceError>)
        requires
            old(self).wf(),
        ensures
            final(self).wf(),
            final(self).same_but_locks(old(self)),
            !(authority_signed && old(self).realm == realm.address && realm.is_lock_authority(
                old(self).governing_token_mint,
                authority,
            )) ==> r == Err::<(), _>(GovernanceError::UnauthorizedLockAuthority),
            authority_signed && old(self).realm == realm.address && realm.is_lock_authority(
                old(self).governing_token_mint,
                authority,
            ) ==> r == if has_lock_id(old(self).locks@, lock_id) {
                Ok(())
            } else {
                Err::<(), _>(GovernanceError::LockNotFound)
            },
            r.is_ok() ==> exists|i: int|
                0 <= i < old(self).locks@.len() && old(self).locks@[i].lock_id == lock_id
                    && final(self).locks@ == old(self).locks@.remove(i),
            r.is_ok() ==> !has_lock_id(final(self).locks@, lock_id),
            r.is_err() ==> final(self).locks@ == old(self).locks@,
    {
        if !authority_signed || self.realm != realm.address || !realm.has_lock_authority(
            self.governing_token_mint,
            authority,
        ) {
            return Err(GovernanceError::UnauthorizedLockAuthority);
        }
        match self.find_lock(lock_id) {
            None => Err(GovernanceError::LockNotFound),
            Some(i) => {
                let ghost before = self.locks@;
                self.locks.remove(i);
                proof {
                    let after = self.locks@;
                    assert(after == before.remove(i as int));
                    assert forall|a: int, b: int| 0 <= a < b < after.len() implies after[a].lock_id
                        != after[b].lock_id by {
                        let a2 = if a < i { a } else { a + 1 };
                        let b2 = if b < i { b } else { b + 1 };
                        assert(before[a2].lock_id != before[b2].lock_id);
                    }
                    assert forall|k: int| 0 <= k < after.len() implies (#[trigger] after[k]).lock_id
                        != lock_id by {
                        if k < i {
                            assert(before[k].lock_id != before[i as int].lock_id);
                        } else {
                            assert(before[k + 1].lock_id != before[i as int].lock_id);
                        }
                    }
                }
                Ok(())
            },
        }
    }
}

} // verus!
