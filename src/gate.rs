use vstd::prelude::*;
use crate::identity::Identity;

verus! {

/// What the logic reads of an owner's holding account: who owns it, which
/// item it holds and how many units, the delegated spender, and the lock.
#[derive(Clone, Copy, Debug, PartialEq, Eq)]
pub struct HoldingAccount {
    pub key: Identity,
    pub owner: Identity,
    pub mint: Identity,
    pub amount: u64,
    pub delegate: Option<Identity>,
    pub delegated_amount: u64,
    pub frozen: bool,
}

/// Why a delegation-gate operation was refused by the holding account.
#[derive(Clone, Copy, Debug, PartialEq, Eq, Structural)]
pub enum GateError {
    OwnerMismatch,
    InsufficientBalance,
    AccountFrozen,
    NotDelegated,
    NotFrozen,
}

pub open spec fn grant_error(h: HoldingAccount, owner: Identity, quantity: u64) -> Option<GateError> {
    if h.owner != owner {
        Some(GateError::OwnerMismatch)
    } else if h.frozen {
        Some(GateError::AccountFrozen)
    } else if h.amount < quantity {
        Some(GateError::InsufficientBalance)
    } else {
        None
    }
}

pub open spec fn granted(h: HoldingAccount, custodian: Identity, quantity: u64) -> HoldingAccount {
    HoldingAccount { delegate: Some(custodian), delegated_amount: quantity, ..h }
}

pub open spec fn lock_error(h: HoldingAccount, custodian: Identity) -> Option<GateError> {
    if h.delegate != Some(custodian) {
        Some(GateError::NotDelegated)
    } else if h.frozen {
        Some(GateError::AccountFrozen)
    } else {
        None
    }
}

pub open spec fn unlock_error(h: HoldingAccount, custodian: Identity) -> Option<GateError> {
    if h.delegate != Some(custodian) {
        Some(GateError::NotDelegated)
    } else if !h.frozen {
        Some(GateError::NotFrozen)
    } else {
        None
    }
}

pub open spec fn revoke_error(h: HoldingAccount, owner: Identity) -> Option<GateError> {
    if h.owner != owner {
        Some(GateError::OwnerMismatch)
    } else if h.frozen {
        Some(GateError::AccountFrozen)
    } else {
        None
    }
}

pub open spec fn revoked(h: HoldingAccount) -> HoldingAccount {
    HoldingAccount { delegate: None, delegated_amount: 0, ..h }
}

pub open spec fn gate_result(e: Option<GateError>) -> Result<(), GateError> {
    match e {
        Some(e) => Err(e),
        None => Ok(()),
    }
}

/// The owner lets `custodian` move up to `quantity` units out of the account.
pub fn grant(h: &mut HoldingAccount, owner: Identity, custodian: Identity, quantity: u64) -> (r: Result<(), GateError>)
    ensures
        r == gate_result(grant_error(*old(h), owner, quantity)),
        r is Ok ==> *final(h) == granted(*old(h), custodian, quantity),
        r is Err ==> *final(h) == *old(h),
{
    if h.owner != owner {
        return Err(GateError::OwnerMismatch);
    }
    if h.frozen {
        return Err(GateError::AccountFrozen);
    }
    if h.amount < quantity {
        return Err(GateError::InsufficientBalance);
    }
    h.delegate = Some(custodian);
    h.delegated_amount = quantity;
    Ok(())
}

/// The custodian, as the delegated spender, places the transfer lock.
pub fn lock(h: &mut HoldingAccount, custodian: Identity) -> (r: Result<(), GateError>)
    ensures
        r == gate_result(lock_error(*old(h), custodian)),
        r is Ok ==> *final(h) == (HoldingAccount { frozen: true, ..*old(h) }),
        r is Err ==> *final(h) == *old(h),
{
    if h.delegate != Some(custodian) {
        return Err(GateError::NotDelegated);
    }
    if h.frozen {
        return Err(GateError::AccountFrozen);
    }
    h.frozen = true;
    Ok(())
}

/// The custodian, as the delegated spender, clears the transfer lock.
pub fn unlock(h: &mut HoldingAccount, custodian: Identity) -> (r: Result<(), GateError>)
    ensures
        r == gate_result(unlock_error(*old(h), custodian)),
        r is Ok ==> *final(h) == (HoldingAccount { frozen: false, ..*old(h) }),
        r is Err ==> *final(h) == *old(h),
{
    if h.delegate != Some(custodian) {
        return Err(GateError::NotDelegated);
    }
    if !h.frozen {
        return Err(GateError::NotFrozen);
    }
    h.frozen = false;
    Ok(())
}

/// The owner withdraws whatever spending capability was delegated.
pub fn revoke(h: &mut HoldingAccount, owner: Identity) -> (r: Result<(), GateError>)
    ensures
        r == gate_result(revoke_error(*old(h), owner)),
        r is Ok ==> *final(h) == revoked(*old(h)),
        r is Err ==> *final(h) == *old(h),
{
    if h.owner != owner {
        return Err(GateError::OwnerMismatch);
    }
    if h.frozen {
        return Err(GateError::AccountFrozen);
    }
    h.delegate = None;
    h.delegated_amount = 0;
    Ok(())
}

} // verus!
