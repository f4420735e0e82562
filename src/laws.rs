use vstd::prelude::*;
use crate::accounts::{StakeNFT, StakingConfig, UnstakeNFT};
use crate::gate::HoldingAccount;
use crate::record::{StakeSlot, StakingData};
use crate::reward::{mint_error, reward_spec, RewardAccount, RewardMint};
use crate::staking::{
    released_holding, stake_error, staked_holding, unstake_error, unstake_outcome, StakeError, UnstakeOutcome,
};

verus! {

/// `uctx` asks to unstake the very item, holding account and owner that `sctx` staked.
pub open spec fn same_item(sctx: StakeNFT, uctx: UnstakeNFT) -> bool {
    &&& uctx.user == sctx.user
    &&& uctx.nft_mint == sctx.nft_mint
    &&& uctx.nft_token_account == sctx.user_token_account
    &&& uctx.master_edition_owner == sctx.master_edition_owner
    &&& uctx.program_authority == sctx.program_authority
    &&& uctx.metadata_program == sctx.metadata_program
}

/// `uctx` names the configured reward mint and authority, and `m` and `a`
/// are that mint and the owner's account of it.
pub open spec fn reward_side_valid(cfg: StakingConfig, uctx: UnstakeNFT, m: RewardMint, a: RewardAccount) -> bool {
    &&& uctx.mint_authority == cfg.reward_authority
    &&& uctx.token_mint == cfg.reward_mint
    &&& m.key == cfg.reward_mint
    &&& a.key == uctx.user_token_account
    &&& a.owner == uctx.user
    &&& a.mint == uctx.token_mint
}

/// The slot after a stake that began at `t`.
pub open spec fn slot_started(slot: StakeSlot, t: u64) -> StakeSlot {
    StakeSlot { data: Some(StakingData { timestamp: t }), ..slot }
}

/// A stake at `t` followed by an unstake of the same item at `t + d` is
/// accepted and is owed exactly `d` reward units; when the mint accepts
/// them, exactly `d` units are minted.
pub proof fn lemma_reward_is_elapsed_time(
    cfg: StakingConfig,
    sctx: StakeNFT,
    uctx: UnstakeNFT,
    slot: StakeSlot,
    h: HoldingAccount,
    m: RewardMint,
    a: RewardAccount,
    t: u64,
    d: u64,
)
    requires
        stake_error(cfg, sctx, slot, h) is None,
        same_item(sctx, uctx),
        reward_side_valid(cfg, uctx, m, a),
        t + d <= u64::MAX,
    ensures
        unstake_error(cfg, uctx, slot_started(slot, t), staked_holding(h, cfg.custodian), m, a, (t + d) as u64) is None,
        reward_spec(((t + d) as u64 - slot_started(slot, t).data->0.timestamp) as u64) == d,
        unstake_outcome(cfg, m, a, d).reward_spec() == d,
        mint_error(m, a, cfg.reward_authority, d) is None ==> unstake_outcome(cfg, m, a, d)
            == (UnstakeOutcome::Unstaked { reward: d }),
{
}

/// A stake followed at once by an unstake of the same item is accepted,
/// is owed no reward, and leaves the holding account unlocked, with no
/// delegated spender, still owned by the same owner and holding the
/// same units.
pub proof fn lemma_stake_then_unstake_at_once(
    cfg: StakingConfig,
    sctx: StakeNFT,
    uctx: UnstakeNFT,
    slot: StakeSlot,
    h: HoldingAccount,
    m: RewardMint,
    a: RewardAccount,
    t: u64,
)
    requires
        stake_error(cfg, sctx, slot, h) is None,
        same_item(sctx, uctx),
        reward_side_valid(cfg, uctx, m, a),
    ensures
        unstake_error(cfg, uctx, slot_started(slot, t), staked_holding(h, cfg.custodian), m, a, t) is None,
        reward_spec((t - slot_started(slot, t).data->0.timestamp) as u64) == 0,
        unstake_outcome(cfg, m, a, 0).reward_spec() == 0,
        !released_holding(staked_holding(h, cfg.custodian)).frozen,
        released_holding(staked_holding(h, cfg.custodian)).delegate is None,
        released_holding(staked_holding(h, cfg.custodian)).owner == h.owner,
        released_holding(staked_holding(h, cfg.custodian)).amount == h.amount,
{
    lemma_reward_is_elapsed_time(cfg, sctx, uctx, slot, h, m, a, t, 0);
}

/// A second stake of the same item, with no unstake in between, is refused
/// as already staked (and a refused stake changes nothing).
pub proof fn lemma_second_stake_refused(
    cfg: StakingConfig,
    ctx: StakeNFT,
    slot: StakeSlot,
    h: HoldingAccount,
    t: u64,
)
    requires
        stake_error(cfg, ctx, slot, h) is None,
    ensures
        stake_error(cfg, ctx, slot_started(slot, t), staked_holding(h, cfg.custodian))
            == Some(StakeError::AlreadyStaked),
{
}

/// An unstake whose record slot holds no stake is refused (and a refused
/// unstake changes nothing).
pub proof fn lemma_unstake_without_record_refused(
    cfg: StakingConfig,
    ctx: UnstakeNFT,
    slot: StakeSlot,
    h: HoldingAccount,
    m: RewardMint,
    a: RewardAccount,
    now: u64,
)
    requires
        slot.data is None,
    ensures
        unstake_error(cfg, ctx, slot, h, m, a, now) is Some,
{
}

/// The record slot holds a stake exactly while the holding account is
/// locked with the custodian as its delegated spender.
pub open spec fn custody_consistent(cfg: StakingConfig, slot: StakeSlot, h: HoldingAccount) -> bool {
    slot.data is Some <==> (h.frozen && h.delegate == Some(cfg.custodian))
}

/// A successful stake and a successful unstake both leave record and lock
/// in agreement: a record exists if and only if the item is locked.
pub proof fn lemma_record_exists_iff_locked(
    cfg: StakingConfig,
    sctx: StakeNFT,
    uctx: UnstakeNFT,
    slot: StakeSlot,
    h: HoldingAccount,
    m: RewardMint,
    a: RewardAccount,
    now: u64,
)
    ensures
        stake_error(cfg, sctx, slot, h) is None ==> custody_consistent(
            cfg,
            slot_started(slot, now),
            staked_holding(h, cfg.custodian),
        ),
        unstake_error(cfg, uctx, slot, h, m, a, now) is None ==> custody_consistent(
            cfg,
            StakeSlot { data: None, ..slot },
            released_holding(h),
        ),
{
}

} // verus!
