//! Staking custody for unique items: an owner delegates one unit of an
//! item's holding account to a derived custodian authority, which locks it;
//! unstaking unlocks it, revokes the delegation, and mints one reward unit
//! per second staked. Every operation is decided here over plain values;
//! the on-chain program around it performs the resulting calls.

pub mod accounts;
pub mod authority;
pub mod gate;
pub mod identity;
pub mod laws;
pub mod record;
pub mod reward;
pub mod staking;
