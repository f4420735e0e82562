use vstd::prelude::*;
use crate::identity::Identity;

verus! {

/// The fungible reward mint: its address, the authority allowed to mint, and
/// the supply issued so far.
#[derive(Clone, Copy, Debug, PartialEq, Eq)]
pub struct RewardMint {
    pub key: Identity,
    pub authority: Identity,
    pub supply: u64,
}

/// An owner's account of reward tokens.
#[derive(Clone, Copy, Debug, PartialEq, Eq)]
pub struct RewardAccount {
    pub key: Identity,
    pub owner: Identity,
    pub mint: Identity,
    pub balance: u64,
}

/// Why minting a reward was refused.
#[derive(Clone, Copy, Debug, PartialEq, Eq, Structural)]
pub enum MintError {
    AuthorityMismatch,
    MintMismatch,
    SupplyOverflow,
    BalanceOverflow,
}

/// The accrual policy: one reward unit per second staked.
pub open spec fn reward_spec(elapsed: u64) -> u64 {
    elapsed
}

pub fn reward_for(elapsed: u64) -> (r: u64)
    ensures
        r == reward_spec(elapsed),
{
    elapsed
}

pub open spec fn mint_error(m: RewardMint, a: RewardAccount, signer: Identity, amount: u64) -> Option<MintError> {
    if signer != m.authority {
        Some(MintError::AuthorityMismatch)
    } else if a.mint != m.key {
        Some(MintError::MintMismatch)
    } else if m.supply + amount > u64::MAX {
        Some(MintError::SupplyOverflow)
    } else if a.balance + amount > u64::MAX {
        Some(MintError::BalanceOverflow)
    } else {
        None
    }
}

/// Mints `amount` reward units into `a`, signed by `signer`. Either both the
/// supply and the balance grow by `amount`, or nothing changes.
pub fn mint_reward(m: &mut RewardMint, a: &mut RewardAccount, signer: Identity, amount: u64) -> (r: Result<(), MintError>)
    ensures
        r == (match mint_error(*old(m), *old(a), signer, amount) {
            Some(e) => Err(e),
            None => Ok(()),
        }),
        r is Ok ==> final(m).supply == old(m).supply + amount && *final(m) == (RewardMint {
            supply: final(m).supply,
            ..*old(m)
        }),
        r is Ok ==> final(a).balance == old(a).balance + amount && *final(a) == (RewardAccount {
            balance: final(a).balance,
            ..*old(a)
        }),
        r is Err ==> *final(m) == *old(m) && *final(a) == *old(a),
{
    if signer != m.authority {
        return Err(MintError::AuthorityMismatch);
    }
    if a.mint != m.key {
        return Err(MintError::MintMismatch);
    }
    let supply = match m.supply.checked_add(amount) {
        Some(s) => s,
        None => return Err(MintError::SupplyOverflow),
    };
    let balance = match a.balance.checked_add(amount) {
        Some(b) => b,
        None => return Err(MintError::BalanceOverflow),
    };
    m.supply = supply;
    a.balance = balance;
    Ok(())
}

} // verus!
