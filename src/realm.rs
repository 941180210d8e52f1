use vstd::prelude::*;
use crate::address::Pubkey;
use crate::error::GovernanceError;

verus! {

/// What holders of a governing token may do with their deposit.
#[derive(Clone, Copy, Debug, PartialEq, Eq, Structural)]
pub enum GoverningTokenType {
    /// Deposits can be withdrawn.
    Liquid,
    /// Deposits stand for non-transferable standing and are never withdrawn.
    Membership,
    /// The token no longer gives voting weight; deposits can be withdrawn.
    Dormant,
}

/// Per-mint policy of a realm.
#[derive(Clone, Copy, Debug, PartialEq, Eq, Structural)]
pub struct GoverningTokenConfig {
    pub token_type: GoverningTokenType,
    /// An optional plugin that computes the maximum voter weight.
    pub max_voter_weight_addin: Option<Pubkey>,
}

/// A third party allowed to lock the records of one realm and mint.
#[derive(Clone, Copy, Debug, PartialEq, Eq, Structural)]
pub struct LockAuthority {
    pub mint: Pubkey,
    pub authority: Pubkey,
}

/// A governance scope with a community mint, an optional council mint, a
/// config for each, and the registry of lock authorities.
#[derive(Debug)]
pub struct Realm {
    pub address: Pubkey,
    pub authority: Pubkey,
    pub community_mint: Pubkey,
    pub community_config: GoverningTokenConfig,
    pub council_mint: Option<Pubkey>,
    pub council_config: GoverningTokenConfig,
    pub lock_authorities: Vec<LockAuthority>,
}

impl GoverningTokenConfig {
    pub fn new(token_type: GoverningTokenType) -> (r: GoverningTokenConfig)
        ensures
            r.token_type == token_type,
            r.max_voter_weight_addin.is_none(),
    {
        GoverningTokenConfig { token_type, max_voter_weight_addin: None }
    }
}

impl Realm {
    /// The config of `mint` in this realm, if `mint` is one of its mints.
    pub open spec fn spec_token_config(&self, mint: Pubkey) -> Option<GoverningTokenConfig> {
        if mint == self.community_mint {
            Some(self.community_config)
        } else if self.council_mint == Some(mint) {
            Some(self.council_config)
        } else {
            None
        }
    }

    pub open spec fn is_lock_authority(&self, mint: Pubkey, authority: Pubkey) -> bool {
        self.lock_authorities@.contains(LockAuthority { mint, authority })
    }

    /// Registered authorities are listed once each.
    pub open spec fn wf(&self) -> bool {
        forall|i: int, j: int|
            0 <= i < j < self.lock_authorities@.len() ==> self.lock_authorities@[i]
                != self.lock_authorities@[j]
    }

    /// A realm with no lock authorities.
    pub fn new(
        address: Pubkey,
        authority: Pubkey,
        community_mint: Pubkey,
        community_config: GoverningTokenConfig,
        council_mint: Option<Pubkey>,
        council_config: GoverningTokenConfig,
    ) -> (r: Realm)
        ensures
            r.wf(),
            r.address == address,
            r.authority == authority,
            r.community_mint == community_mint,
            r.community_config == community_config,
            r.council_mint == council_mint,
            r.council_config == council_config,
            r.lock_authorities@.len() == 0,
    {
        Realm {
            address,
            authority,
            community_mint,
            community_config,
            council_mint,
            council_config,
            lock_authorities: Vec::new(),
        }
    }

    pub fn token_config(&self, mint: Pubkey) -> (r: Option<GoverningTokenConfig>)
        ensures
            r == self.spec_token_config(mint),
    {
        if mint == self.community_mint {
            Some(self.community_config)
        } else {
            match self.council_mint {
                Some(m) => {
                    if m == mint {
                        Some(self.council_config)
                    } else {
                        None
                    }
                },
                None => None,
            }
        }
    }

    /// Replaces the config of one of the realm's mints; only the realm
    /// authority may do this.
    pub fn set_token_config(&mut self, signer: Pubkey, mint: Pubkey, config: GoverningTokenConfig) -> (r:
        Result<(), GovernanceError>)
        ensures
            signer != old(self).authority ==> r == Err::<(), _>(
                GovernanceError::InvalidRealmAuthority,
            ),
            signer == old(self).authority && old(self).spec_token_config(mint).is_none() ==> r
                == Err::<(), _>(GovernanceError::InvalidGoverningTokenMint),
            r.is_ok() <==> signer == old(self).authority && old(self).spec_token_config(
                mint,
            ).is_some(),
            r.is_ok() ==> final(self).spec_token_config(mint) == Some(config),
            r.is_ok() ==> forall|m: Pubkey|
                m != mint ==> final(self).spec_token_config(m) == old(self).spec_token_config(m),
            r.is_err() ==> final(self).community_config == old(self).community_config
                && final(self).council_config == old(self).council_config,
            final(self).address == old(self).address,
            final(self).authority == old(self).authority,
            final(self).community_mint == old(self).community_mint,
            final(self).council_mint == old(self).council_mint,
            final(self).lock_authorities@ == old(self).lock_authorities@,
    {
        if signer != self.authority {
            return Err(GovernanceError::InvalidRealmAuthority);
        }
        if mint == self.community_mint {
            self.community_config = config;
            Ok(())
        } else if self.token_config(mint).is_some() {
            self.council_config = config;
            Ok(())
        } else {
            Err(GovernanceError::InvalidGoverningTokenMint)
        }
    }

    /// Position of `(mint, authority)` in the registry.
    fn find_lock_authority(&self, mint: Pubkey, authority: Pubkey) -> (r: Option<usize>)
        ensures
            match r {
                Some(i) => i < self.lock_authorities@.len() && self.lock_authorities@[i as int]
                    == (LockAuthority { mint, authority }),
                None => !self.is_lock_authority(mint, authority),
            },
    {
        let target = LockAuthority { mint, authority };
        let mut i: usize = 0;
        while i < self.lock_authorities.len()
            invariant
                i <= self.lock_authorities@.len(),
                target == (LockAuthority { mint, authority }),
                forall|k: int| 0 <= k < i ==> self.lock_authorities@[k] != target,
            decreases self.lock_authorities@.len() - i,
        {
            let e = self.lock_authorities[i];
            if e.mint == mint && e.authority == authority {
                return Some(i);
            }
            i = i + 1;
        }
        None
    }

    pub fn has_lock_authority(&self, mint: Pubkey, authority: Pubkey) -> (r: bool)
        ensures
            r == self.is_lock_authority(mint, authority),
    {
        self.find_lock_authority(mint, authority).is_some()
    }

    /// Lets `authority` lock records of `mint`; only the realm authority may do this.
    pub fn register_lock_authority(&mut self, signer: Pubkey, mint: Pubkey, authority: Pubkey) -> (r:
        Result<(), GovernanceError>)
        requires
            old(self).wf(),
        ensures
            final(self).wf(),
            signer != old(self).authority ==> r == Err::<(), _>(
                GovernanceError::InvalidRealmAuthority,
            ),
            signer == old(self).authority && old(self).spec_token_config(mint).is_none() ==> r
                == Err::<(), _>(GovernanceError::InvalidGoverningTokenMint),
            signer == old(self).authority && old(self).spec_token_config(mint).is_some() && old(
                self,
            ).is_lock_authority(mint, authority) ==> r == Err::<(), _>(
                GovernanceError::LockAuthorityAlreadyExists,
            ),
            r.is_ok() <==> (signer == old(self).authority && old(self).spec_token_config(
                mint,
            ).is_some() && !old(self).is_lock_authority(mint, authority)),
            r.is_ok() ==> final(self).lock_authorities@ == old(self).lock_authorities@.push(
                LockAuthority { mint, authority },
            ),
            r.is_err() ==> final(self).lock_authorities@ == old(self).lock_authorities@,
            final(self).address == old(self).address,
            final(self).authority == old(self).authority,
            final(self).community_mint == old(self).community_mint,
            final(self).community_config == old(self).community_config,
            final(self).council_mint == old(self).council_mint,
            final(self).council_config == old(self).council_config,
    {
        if signer != self.authority {
            return Err(GovernanceError::InvalidRealmAuthority);
        }
        if self.token_config(mint).is_none() {
            return Err(GovernanceError::InvalidGoverningTokenMint);
        }
        if self.has_lock_authority(mint, authority) {
            return Err(GovernanceError::LockAuthorityAlreadyExists);
        }
        let entry = LockAuthority { mint, authority };
        self.lock_authorities.push(entry);
        proof {
            assert forall|i: int, j: int|
                0 <= i < j < self.lock_authorities@.len() implies self.lock_authorities@[i]
                    != self.lock_authorities@[j] by {
                if j == self.lock_authorities@.len() - 1 {
                    assert(old(self).lock_authorities@[i] == self.lock_authorities@[i]);
                }
            }
        }
        Ok(())
    }

    /// Withdraws the right of `authority` to lock records of `mint`.
    pub fn remove_lock_authority(&mut self, signer: Pubkey, mint: Pubkey, authority: Pubkey) -> (r:
        Result<(), GovernanceError>)
        requires
            old(self).wf(),
        ensures
            final(self).wf(),
            signer != old(self).authority ==> r == Err::<(), _>(
                GovernanceError::InvalidRealmAuthority,
            ),
            signer == old(self).authority && !old(self).is_lock_authority(mint, authority) ==> r
                == Err::<(), _>(GovernanceError::LockAuthorityNotFound),
            r.is_ok() <==> (signer == old(self).authority && old(self).is_lock_authority(
                mint,
                authority,
            )),
            r.is_ok() ==> !final(self).is_lock_authority(mint, authority) && (forall|e: LockAuthority|
                e != (LockAuthority { mint, authority }) ==> (final(self).lock_authorities@.contains(e)
                    <==> old(self).lock_authorities@.contains(e))),
            r.is_err() ==> final(self).lock_authorities@ == old(self).lock_authorities@,
            final(self).address == old(self).address,
            final(self).authority == old(self).authority,
            final(self).community_mint == old(self).community_mint,
            final(self).community_config == old(self).community_config,
            final(self).council_mint == old(self).council_mint,
            final(self).council_config == old(self).council_config,
    {
        if signer != self.authority {
            return Err(GovernanceError::InvalidRealmAuthority);
        }
        match self.find_lock_authority(mint, authority) {
            None => Err(GovernanceError::LockAuthorityNotFound),
            Some(i) => {
                let ghost before = self.lock_authorities@;
                let ghost target = LockAuthority { mint, authority };
                self.lock_authorities.remove(i);
                proof {
                    let after = self.lock_authorities@;
                    assert(after == before.remove(i as int));
                    assert forall|k: int| 0 <= k < after.len() implies after[k] != target by {
                        if k < i {
                            assert(before[k] != before[i as int]);
                        } else {
                            assert(before[k + 1] != before[i as int]);
                        }
                    }
                    assert forall|a: int, b: int| 0 <= a < b < after.len() implies after[a]
                        != after[b] by {
                        let a2 = if a < i { a } else { a + 1 };
                        let b2 = if b < i { b } else { b + 1 };
                        assert(before[a2] != before[b2]);
                    }
                    assert forall|e: LockAuthority| e != target implies (after.contains(e)
                        <==> before.contains(e)) by {
                        if after.contains(e) {
                            let k = choose|k: int| 0 <= k < after.len() && after[k] == e;
                            if k < i {
                                assert(before[k] == e);
                            } else {
                                assert(before[k + 1] == e);
                            }
                        }
                        if before.contains(e) {
                            let k = choose|k: int| 0 <= k < before.len() && before[k] == e;
                            if k < i {
                                assert(after[k] == e);
                            } else {
                                assert(k != i);
                                assert(after[k - 1] == e);
                            }
                        }
                    }
                }
                Ok(())
            },
        }
    }
}

} // verus!
