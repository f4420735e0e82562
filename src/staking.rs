use vstd::prelude::*;
use crate::accounts::{CreateNFT, InitializeMint, StakeNFT, StakingConfig, UnstakeNFT};
use crate::gate::{
    grant, granted, grant_error, lock, lock_error, revoke, revoke_error, revoked, unlock, unlock_error,
    GateError, HoldingAccount,
};
use crate::identity::Identity;
use crate::record::{StakeSlot, StakingData};
use crate::reward::{mint_error, mint_reward, reward_for, reward_spec, MintError, RewardAccount, RewardMint};

verus! {

/// Why setting up the reward mint was refused.
#[derive(Clone, Copy, Debug, PartialEq, Eq, Structural)]
pub enum SetupError {
    WrongRewardMint,
    WrongAuthority,
}

/// Why a stake was refused. A refused stake changes nothing.
#[derive(Clone, Copy, Debug, PartialEq, Eq, Structural)]
pub enum StakeError {
    WrongProgram,
    WrongAuthority,
    NotHoldingAccount,
    WrongRecord,
    AlreadyStaked,
    NotSingleItem,
    Gate(GateError),
}

/// Why an unstake was refused. A refused unstake changes nothing.
#[derive(Clone, Copy, Debug, PartialEq, Eq, Structural)]
pub enum UnstakeError {
    WrongProgram,
    WrongAuthority,
    WrongRewardMint,
    NotHoldingAccount,
    WrongRecord,
    NotRewardAccount,
    NotStaked,
    TimeWentBackwards,
    Gate(GateError),
}

/// How a completed unstake went for the reward: minted, or forfeited
/// because minting was refused (the item is released either way).
#[derive(Clone, Copy, Debug, PartialEq, Eq, Structural)]
pub enum UnstakeOutcome {
    Unstaked { reward: u64 },
    UnstakedRewardForfeited { reward: u64, reason: MintError },
}

impl UnstakeOutcome {
    pub open spec fn reward_spec(self) -> u64 {
        match self {
            UnstakeOutcome::Unstaked { reward } => reward,
            UnstakeOutcome::UnstakedRewardForfeited { reward, .. } => reward,
        }
    }

    /// The reward that was due, whether or not it was minted.
    pub fn reward(&self) -> (r: u64)
        ensures
            r == self.reward_spec(),
    {
        match self {
            UnstakeOutcome::Unstaked { reward } => *reward,
            UnstakeOutcome::UnstakedRewardForfeited { reward, .. } => *reward,
        }
    }

    /// Whether the reward was minted.
    pub fn minted(&self) -> (r: bool)
        ensures
            r == self is Unstaked,
    {
        match self {
            UnstakeOutcome::Unstaked { .. } => true,
            UnstakeOutcome::UnstakedRewardForfeited { .. } => false,
        }
    }
}

/// The fresh reward mint: no supply yet, minted only by the reward authority.
pub fn initialize_mint(cfg: &StakingConfig, ctx: &InitializeMint) -> (r: Result<RewardMint, SetupError>)
    ensures
        r == (if ctx.token_mint != cfg.reward_mint {
            Err(SetupError::WrongRewardMint)
        } else if ctx.mint_authority != cfg.reward_authority {
            Err(SetupError::WrongAuthority)
        } else {
            Ok(RewardMint { key: cfg.reward_mint, authority: cfg.reward_authority, supply: 0 })
        }),
{
    if ctx.token_mint != cfg.reward_mint {
        return Err(SetupError::WrongRewardMint);
    }
    if ctx.mint_authority != cfg.reward_authority {
        return Err(SetupError::WrongAuthority);
    }
    Ok(RewardMint { key: cfg.reward_mint, authority: cfg.reward_authority, supply: 0 })
}

pub open spec fn issued_holding(ctx: CreateNFT) -> HoldingAccount {
    HoldingAccount {
        key: ctx.user_token_account,
        owner: ctx.user,
        mint: ctx.nft_mint,
        amount: 1,
        delegate: None,
        delegated_amount: 0,
        frozen: false,
    }
}

/// The owner's holding account once issuance has minted the single unit of
/// a new item into it.
pub fn create_nft(ctx: &CreateNFT) -> (r: HoldingAccount)
    ensures
        r == issued_holding(*ctx),
{
    HoldingAccount {
        key: ctx.user_token_account,
        owner: ctx.user,
        mint: ctx.nft_mint,
        amount: 1,
        delegate: None,
        delegated_amount: 0,
        frozen: false,
    }
}

/// The first reason, if any, for which `stake` refuses.
pub open spec fn stake_error(cfg: StakingConfig, ctx: StakeNFT, slot: StakeSlot, h: HoldingAccount) -> Option<StakeError> {
    if ctx.metadata_program != cfg.metadata_program || ctx.master_edition_owner != cfg.metadata_program {
        Some(StakeError::WrongProgram)
    } else if ctx.program_authority != cfg.custodian {
        Some(StakeError::WrongAuthority)
    } else if h.key != ctx.user_token_account || h.owner != ctx.user || h.mint != ctx.nft_mint {
        Some(StakeError::NotHoldingAccount)
    } else if !slot.is_for(ctx.user, ctx.user_token_account) {
        Some(StakeError::WrongRecord)
    } else if slot.data is Some {
        Some(StakeError::AlreadyStaked)
    } else if h.amount != 1 {
        Some(StakeError::NotSingleItem)
    } else if grant_error(h, ctx.user, 1) is Some {
        Some(StakeError::Gate(grant_error(h, ctx.user, 1)->0))
    } else if lock_error(granted(h, cfg.custodian, 1), cfg.custodian) is Some {
        Some(StakeError::Gate(lock_error(granted(h, cfg.custodian, 1), cfg.custodian)->0))
    } else {
        None
    }
}

/// A holding account once staked: delegated one unit to the custodian, and locked.
pub open spec fn staked_holding(h: HoldingAccount, custodian: Identity) -> HoldingAccount {
    HoldingAccount { frozen: true, ..granted(h, custodian, 1) }
}

/// Stakes the item held in `h` at time `now`: the owner delegates one unit
/// to the custodian authority, the custodian locks the account, and the
/// record slot takes the start time. On refusal nothing changes.
pub fn stake(cfg: &StakingConfig, ctx: &StakeNFT, slot: &mut StakeSlot, h: &mut HoldingAccount, now: u64) -> (r: Result<(), StakeError>)
    ensures
        r == (match stake_error(*cfg, *ctx, *old(slot), *old(h)) {
            Some(e) => Err(e),
            None => Ok(()),
        }),
        r is Ok ==> *final(h) == staked_holding(*old(h), cfg.custodian),
        r is Ok ==> *final(slot) == (StakeSlot { data: Some(StakingData { timestamp: now }), ..*old(slot) }),
        r is Err ==> *final(h) == *old(h) && *final(slot) == *old(slot),
{
    if ctx.metadata_program != cfg.metadata_program || ctx.master_edition_owner != cfg.metadata_program {
        return Err(StakeError::WrongProgram);
    }
    if ctx.program_authority != cfg.custodian {
        return Err(StakeError::WrongAuthority);
    }
    if h.key != ctx.user_token_account || h.owner != ctx.user || h.mint != ctx.nft_mint {
        return Err(StakeError::NotHoldingAccount);
    }
    if !slot.keyed_by(&ctx.user, &ctx.user_token_account) {
        return Err(StakeError::WrongRecord);
    }
    if slot.is_staked() {
        return Err(StakeError::AlreadyStaked);
    }
    if h.amount != 1 {
        return Err(StakeError::NotSingleItem);
    }
    let mut w = *h;
    match grant(&mut w, ctx.user, cfg.custodian, 1) {
        Ok(()) => {},
        Err(e) => return Err(StakeError::Gate(e)),
    }
    match lock(&mut w, cfg.custodian) {
        Ok(()) => {},
        Err(e) => return Err(StakeError::Gate(e)),
    }
    *h = w;
    slot.data = Some(StakingData { timestamp: now });
    Ok(())
}

/// The first reason, if any, for which `unstake` refuses at time `now`.
pub open spec fn unstake_error(
    cfg: StakingConfig,
    ctx: UnstakeNFT,
    slot: StakeSlot,
    h: HoldingAccount,
    m: RewardMint,
    a: RewardAccount,
    now: u64,
) -> Option<UnstakeError> {
    if ctx.metadata_program != cfg.metadata_program || ctx.master_edition_owner != cfg.metadata_program {
        Some(UnstakeError::WrongProgram)
    } else if ctx.program_authority != cfg.custodian || ctx.mint_authority != cfg.reward_authority {
        Some(UnstakeError::WrongAuthority)
    } else if ctx.token_mint != cfg.reward_mint || m.key != cfg.reward_mint {
        Some(UnstakeError::WrongRewardMint)
    } else if h.key != ctx.nft_token_account || h.owner != ctx.user || h.mint != ctx.nft_mint {
        Some(UnstakeError::NotHoldingAccount)
    } else if !slot.is_for(ctx.user, ctx.nft_token_account) {
        Some(UnstakeError::WrongRecord)
    } else if a.key != ctx.user_token_account || a.owner != ctx.user || a.mint != ctx.token_mint {
        Some(UnstakeError::NotRewardAccount)
    } else if slot.data is None {
        Some(UnstakeError::NotStaked)
    } else if now < slot.data->0.timestamp {
        Some(UnstakeError::TimeWentBackwards)
    } else if unlock_error(h, cfg.custodian) is Some {
        Some(UnstakeError::Gate(unlock_error(h, cfg.custodian)->0))
    } else if revoke_error(HoldingAccount { frozen: false, ..h }, ctx.user) is Some {
        Some(UnstakeError::Gate(revoke_error(HoldingAccount { frozen: false, ..h }, ctx.user)->0))
    } else {
        None
    }
}

/// A holding account once released: unlocked, with no delegated spender.
pub open spec fn released_holding(h: HoldingAccount) -> HoldingAccount {
    revoked(HoldingAccount { frozen: false, ..h })
}

/// The outcome of an unstake whose reward is `amount`.
pub open spec fn unstake_outcome(cfg: StakingConfig, m: RewardMint, a: RewardAccount, amount: u64) -> UnstakeOutcome {
    match mint_error(m, a, cfg.reward_authority, amount) {
        Some(reason) => UnstakeOutcome::UnstakedRewardForfeited { reward: amount, reason },
        None => UnstakeOutcome::Unstaked { reward: amount },
    }
}

/// Ends the stake recorded in `slot` at time `now`: the custodian unlocks
/// the holding account, the owner revokes the delegation, the reward for
/// the elapsed seconds is minted to the owner, and the record is destroyed.
/// A refused mint does not undo the rest: the reward is then forfeited and
/// the outcome says so. On any other refusal nothing changes.
pub fn unstake(
    cfg: &StakingConfig,
    ctx: &UnstakeNFT,
    slot: &mut StakeSlot,
    h: &mut HoldingAccount,
    m: &mut RewardMint,
    a: &mut RewardAccount,
    now: u64,
) -> (r: Result<UnstakeOutcome, UnstakeError>)
    ensures
        match unstake_error(*cfg, *ctx, *old(slot), *old(h), *old(m), *old(a), now) {
            Some(e) => r == Err::<UnstakeOutcome, UnstakeError>(e),
            None => r == Ok::<UnstakeOutcome, UnstakeError>(unstake_outcome(
                *cfg,
                *old(m),
                *old(a),
                reward_spec((now - old(slot).data->0.timestamp) as u64),
            )),
        },
        r is Ok ==> *final(h) == released_holding(*old(h)),
        r is Ok ==> *final(slot) == (StakeSlot { data: None, ..*old(slot) }),
        r is Ok ==> !final(h).frozen && final(h).delegate is None && final(h).owner == old(h).owner,
        r matches Ok(UnstakeOutcome::Unstaked { reward }) ==> final(m).supply == old(m).supply + reward
            && final(a).balance == old(a).balance + reward
            && final(m).key == old(m).key && final(m).authority == old(m).authority
            && *final(a) == (RewardAccount { balance: final(a).balance, ..*old(a) }),
        !(r matches Ok(UnstakeOutcome::Unstaked { .. })) ==> *final(m) == *old(m) && *final(a) == *old(a),
        r is Err ==> *final(h) == *old(h) && *final(slot) == *old(slot),
{
    if ctx.metadata_program != cfg.metadata_program || ctx.master_edition_owner != cfg.metadata_program {
        return Err(UnstakeError::WrongProgram);
    }
    if ctx.program_authority != cfg.custodian || ctx.mint_authority != cfg.reward_authority {
        return Err(UnstakeError::WrongAuthority);
    }
    if ctx.token_mint != cfg.reward_mint || m.key != cfg.reward_mint {
        return Err(UnstakeError::WrongRewardMint);
    }
    if h.key != ctx.nft_token_account || h.owner != ctx.user || h.mint != ctx.nft_mint {
        return Err(UnstakeError::NotHoldingAccount);
    }
    if !slot.keyed_by(&ctx.user, &ctx.nft_token_account) {
        return Err(UnstakeError::WrongRecord);
    }
    if a.key != ctx.user_token_account || a.owner != ctx.user || a.mint != ctx.token_mint {
        return Err(UnstakeError::NotRewardAccount);
    }
    let started = match slot.data {
        Some(d) => d.timestamp,
        None => return Err(UnstakeError::NotStaked),
    };
    let elapsed = match now.checked_sub(started) {
        Some(e) => e,
        None => return Err(UnstakeError::TimeWentBackwards),
    };
    let mut w = *h;
    match unlock(&mut w, cfg.custodian) {
        Ok(()) => {},
        Err(e) => return Err(UnstakeError::Gate(e)),
    }
    match revoke(&mut w, ctx.user) {
        Ok(()) => {},
        Err(e) => return Err(UnstakeError::Gate(e)),
    }
    *h = w;
    let reward = reward_for(elapsed);
    let outcome = match mint_reward(m, a, ctx.mint_authority, reward) {
        Ok(()) => UnstakeOutcome::Unstaked { reward },
        Err(reason) => UnstakeOutcome::UnstakedRewardForfeited { reward, reason },
    };
    slot.data = None;
    Ok(outcome)
}

} // verus!
