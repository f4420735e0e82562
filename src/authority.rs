use vstd::prelude::*;
use anchor_lang::solana_program::pubkey::Pubkey;
use crate::accounts::StakingConfig;
use crate::identity::Identity;

verus! {

/// Seed of the custodian authority, which locks staked items.
pub const CUSTODY_SEED: &'static str = "authority";

/// Seed of the authority allowed to mint rewards.
pub const MINT_AUTHORITY_SEED: &'static str = "mint-authority";

/// Seed of the reward mint's own address.
pub const REWARD_MINT_SEED: &'static str = "token-mint";

/// The program-derived address and bump for one seed under `program`, or
/// none where the ledger's derivation finds no address.
pub uninterp spec fn program_address(seed: Seq<char>, program: Identity) -> Option<(Identity, u8)>;

/// Relies on solana_program's `Pubkey::try_find_program_address`: the
/// derived address and bump depend on the seeds and the program id alone.
#[verifier::external_body]
fn find_program_address(seed: &str, program: Identity) -> (r: Option<(Identity, u8)>)
    ensures
        r == program_address(seed@, program),
{
    match Pubkey::try_find_program_address(&[seed.as_bytes()], &Pubkey::new_from_array(program.bytes)) {
        Some((address, bump)) => Some((Identity { bytes: address.to_bytes() }, bump)),
        None => None,
    }
}

/// The configuration of `program`: its derived identities, and the
/// metadata program it trusts.
pub open spec fn derived_config(program: Identity, metadata_program: Identity) -> Option<StakingConfig> {
    match (
        program_address(CUSTODY_SEED@, program),
        program_address(MINT_AUTHORITY_SEED@, program),
        program_address(REWARD_MINT_SEED@, program),
    ) {
        (Some(custody), Some(minter), Some(mint)) => Some(
            StakingConfig {
                custodian: custody.0,
                custodian_bump: custody.1,
                reward_mint: mint.0,
                reward_authority: minter.0,
                reward_authority_bump: minter.1,
                metadata_program,
            },
        ),
        _ => None,
    }
}

impl StakingConfig {
    /// Derives, once, every identity the program acts as or checks against.
    pub fn for_program(program: Identity, metadata_program: Identity) -> (r: Option<StakingConfig>)
        ensures
            r == derived_config(program, metadata_program),
    {
        let custody = match find_program_address(CUSTODY_SEED, program) {
            Some(c) => c,
            None => return None,
        };
        let minter = match find_program_address(MINT_AUTHORITY_SEED, program) {
            Some(m) => m,
            None => return None,
        };
        let mint = match find_program_address(REWARD_MINT_SEED, program) {
            Some(m) => m,
            None => return None,
        };
        Some(
            StakingConfig {
                custodian: custody.0,
                custodian_bump: custody.1,
                reward_mint: mint.0,
                reward_authority: minter.0,
                reward_authority_bump: minter.1,
                metadata_program,
            },
        )
    }
}

} // verus!
