use vstd::prelude::*;
use crate::identity::Identity;

verus! {

/// The persisted stake record: when the stake began, in seconds.
#[derive(Clone, Copy, Debug, PartialEq, Eq, Structural)]
pub struct StakingData {
    pub timestamp: u64,
}

/// The record slot of one (owner, holding account) key: `data` is present
/// exactly while that holding account's item is staked.
#[derive(Clone, Copy, Debug, PartialEq, Eq)]
pub struct StakeSlot {
    pub owner: Identity,
    pub holding: Identity,
    pub data: Option<StakingData>,
}

impl StakeSlot {
    /// An empty slot for the key `(owner, holding)`.
    pub fn vacant(owner: Identity, holding: Identity) -> (r: StakeSlot)
        ensures
            r.owner == owner,
            r.holding == holding,
            r.data is None,
    {
        StakeSlot { owner, holding, data: None }
    }

    pub open spec fn is_for(self, owner: Identity, holding: Identity) -> bool {
        self.owner == owner && self.holding == holding
    }

    pub fn keyed_by(&self, owner: &Identity, holding: &Identity) -> (r: bool)
        ensures
            r == self.is_for(*owner, *holding),
    {
        self.owner == *owner && self.holding == *holding
    }

    pub fn is_staked(&self) -> (r: bool)
        ensures
            r == self.data is Some,
    {
        self.data.is_some()
    }
}

} // verus!
