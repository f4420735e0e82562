use vstd::prelude::*;
use crate::identity::Identity;

verus! {

/// The process-wide identities every operation is checked against: the two
/// derived authorities (with the bumps that sign for them), the reward mint,
/// and the well-known metadata program.
#[derive(Clone, Copy, Debug, PartialEq, Eq)]
pub struct StakingConfig {
    pub custodian: Identity,
    pub custodian_bump: u8,
    pub reward_mint: Identity,
    pub reward_authority: Identity,
    pub reward_authority_bump: u8,
    pub metadata_program: Identity,
}

/// The accounts named by an item-issuance request.
#[derive(Clone, Copy, Debug, PartialEq, Eq)]
pub struct CreateNFT {
    pub user: Identity,
    pub nft_mint: Identity,
    pub user_token_account: Identity,
}

/// The accounts named by a request to create the reward mint.
#[derive(Clone, Copy, Debug, PartialEq, Eq)]
pub struct InitializeMint {
    pub token_mint: Identity,
    pub mint_authority: Identity,
    pub payer: Identity,
}

/// The accounts named by a stake request. `master_edition_owner` is the
/// program that owns the item's edition account.
#[derive(Clone, Copy, Debug, PartialEq, Eq)]
pub struct StakeNFT {
    pub user: Identity,
    pub nft_mint: Identity,
    pub user_token_account: Identity,
    pub master_edition_owner: Identity,
    pub program_authority: Identity,
    pub metadata_program: Identity,
}

/// The accounts named by an unstake request. `user_token_account` is the
/// owner's reward account, `nft_token_account` the item's holding account.
#[derive(Clone, Copy, Debug, PartialEq, Eq)]
pub struct UnstakeNFT {
    pub user: Identity,
    pub nft_mint: Identity,
    pub nft_token_account: Identity,
    pub master_edition_owner: Identity,
    pub program_authority: Identity,
    pub token_mint: Identity,
    pub mint_authority: Identity,
    pub user_token_account: Identity,
    pub metadata_program: Identity,
}

/// Accounts of a token `approve`: `authority` lets `delegate` spend from `to`.
#[derive(Clone, Copy, Debug, PartialEq, Eq)]
pub struct ApproveAccounts {
    pub to: Identity,
    pub delegate: Identity,
    pub authority: Identity,
}

/// Accounts of a token `revoke`: `authority` withdraws the delegation on `source`.
#[derive(Clone, Copy, Debug, PartialEq, Eq)]
pub struct RevokeAccounts {
    pub source: Identity,
    pub authority: Identity,
}

/// Accounts of a token `mint_to`: `authority` mints units of `mint` into `to`.
#[derive(Clone, Copy, Debug, PartialEq, Eq)]
pub struct MintToAccounts {
    pub mint: Identity,
    pub to: Identity,
    pub authority: Identity,
}

impl CreateNFT {
    /// The new item is minted into the owner's holding account, by the owner.
    pub fn mint_to_ctx(&self) -> (r: MintToAccounts)
        ensures
            r == (MintToAccounts { mint: self.nft_mint, to: self.user_token_account, authority: self.user }),
    {
        MintToAccounts { mint: self.nft_mint, to: self.user_token_account, authority: self.user }
    }
}

impl StakeNFT {
    /// The owner delegates its holding account to the custodian authority.
    pub fn approve_ctx(&self) -> (r: ApproveAccounts)
        ensures
            r == (ApproveAccounts {
                to: self.user_token_account,
                delegate: self.program_authority,
                authority: self.user,
            }),
    {
        ApproveAccounts {
            to: self.user_token_account,
            delegate: self.program_authority,
            authority: self.user,
        }
    }
}

impl UnstakeNFT {
    /// The owner withdraws the delegation on the item's holding account.
    pub fn revoke_ctx(&self) -> (r: RevokeAccounts)
        ensures
            r == (RevokeAccounts { source: self.nft_token_account, authority: self.user }),
    {
        RevokeAccounts { source: self.nft_token_account, authority: self.user }
    }

    /// The reward-mint authority mints the reward into the owner's reward account.
    pub fn mint_to_ctx(&self) -> (r: MintToAccounts)
        ensures
            r == (MintToAccounts {
                mint: self.token_mint,
                to: self.user_token_account,
                authority: self.mint_authority,
            }),
    {
        MintToAccounts {
            mint: self.token_mint,
            to: self.user_token_account,
            authority: self.mint_authority,
        }
    }
}

} // verus!
