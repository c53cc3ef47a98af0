use vstd::prelude::*;

use crate::error::ErrorCode;
use crate::events::HonoraryPositionInitialized;
use crate::key::AccountKey;
use crate::pda::{
    derivation, policy_seed, position_owner_seed, progress_seed, vault_seed, PdaUtils,
};
use crate::policy::PolicyConfig;
use crate::progress::DistributionProgress;

verus! {

/// The parameters of a vault's setup.
#[derive(Debug, Clone, Copy)]
pub struct InitializeHonoraryPositionParams {
    pub quote_mint: AccountKey,
    pub creator_wallet: AccountKey,
    pub investor_fee_share_bps: u16,
    pub daily_cap_lamports: Option<u64>,
    pub min_payout_lamports: u64,
    pub y0_total_allocation: u64,
}

/// The keys of the accounts a vault's setup works with.
#[derive(Debug, Clone, Copy)]
pub struct InitializationAccounts {
    pub vault: AccountKey,
    pub quote_vault_mint: AccountKey,
    pub quote_vault_owner: AccountKey,
    pub base_vault_mint: AccountKey,
    pub base_vault_owner: AccountKey,
    pub position_owner_pda: AccountKey,
    pub policy_config: AccountKey,
    pub distribution_progress: AccountKey,
}

/// The policy that a setup with `params` writes for `vault`.
pub open spec fn policy_of(
    vault: AccountKey,
    params: InitializeHonoraryPositionParams,
    bump: u8,
) -> PolicyConfig {
    PolicyConfig {
        vault,
        quote_mint: params.quote_mint,
        creator_wallet: params.creator_wallet,
        investor_fee_share_bps: params.investor_fee_share_bps,
        daily_cap_lamports: params.daily_cap_lamports,
        min_payout_lamports: params.min_payout_lamports,
        y0_total_allocation: params.y0_total_allocation,
        bump,
    }
}

/// The checks of a vault's pool accounts: the quote vault holds the quote asset, the two
/// vaults hold different assets and have the same owner.
pub open spec fn relationship_check(
    accounts: InitializationAccounts,
    params: InitializeHonoraryPositionParams,
) -> Result<(), ErrorCode> {
    if accounts.quote_vault_mint@ != params.quote_mint@ {
        Err(ErrorCode::InvalidQuoteMint)
    } else if accounts.quote_vault_mint@ == accounts.base_vault_mint@ {
        Err(ErrorCode::InvalidPoolConfiguration)
    } else if accounts.quote_vault_owner@ != accounts.base_vault_owner@ {
        Err(ErrorCode::InvalidPoolConfiguration)
    } else {
        Ok(())
    }
}

/// Checks the setup parameters against the policy invariants.
pub fn validate_initialization_params(params: &InitializeHonoraryPositionParams) -> (r: Result<
    (),
    ErrorCode,
>)
    ensures
        forall|vault: AccountKey, bump: u8| r == #[trigger] policy_of(vault, *params, bump).check(),
{
    let probe = PolicyConfig {
        vault: AccountKey::zero(),
        quote_mint: params.quote_mint,
        creator_wallet: params.creator_wallet,
        investor_fee_share_bps: params.investor_fee_share_bps,
        daily_cap_lamports: params.daily_cap_lamports,
        min_payout_lamports: params.min_payout_lamports,
        y0_total_allocation: params.y0_total_allocation,
        bump: 0,
    };
    probe.validate()
}

/// Checks the vault's pool accounts.
pub fn validate_account_relationships(
    accounts: &InitializationAccounts,
    params: &InitializeHonoraryPositionParams,
) -> (r: Result<(), ErrorCode>)
    ensures
        r == relationship_check(*accounts, *params),
{
    if !accounts.quote_vault_mint.same_as(&params.quote_mint) {
        return Err(ErrorCode::InvalidQuoteMint);
    }
    if accounts.quote_vault_mint.same_as(&accounts.base_vault_mint) {
        return Err(ErrorCode::InvalidPoolConfiguration);
    }
    if !accounts.quote_vault_owner.same_as(&accounts.base_vault_owner) {
        return Err(ErrorCode::InvalidPoolConfiguration);
    }
    Ok(())
}

/// Checks that the quote asset is one of the pool's tokens, held by the quote vault.
pub fn validate_quote_only_configuration(
    accounts: &InitializationAccounts,
    params: &InitializeHonoraryPositionParams,
) -> (r: Result<(), ErrorCode>)
    ensures
        r == (if params.quote_mint@ == accounts.quote_vault_mint@ {
            Ok(())
        } else {
            Err(ErrorCode::InvalidQuoteMint)
        }),
{
    let quote_mint = &params.quote_mint;
    if !quote_mint.same_as(&accounts.quote_vault_mint) && !quote_mint.same_as(
        &accounts.base_vault_mint,
    ) {
        return Err(ErrorCode::InvalidQuoteMint);
    }
    if !quote_mint.same_as(&accounts.quote_vault_mint) {
        return Err(ErrorCode::InvalidQuoteMint);
    }
    Ok(())
}

/// The check of a vault's three derived addresses: each must be derivable, and equal the
/// account given for it.
pub open spec fn pda_check(
    program_id: AccountKey,
    vault: AccountKey,
    policy_config: AccountKey,
    distribution_progress: AccountKey,
    position_owner_pda: AccountKey,
) -> Result<(), ErrorCode> {
    match derivation(seq![policy_seed(), vault@], program_id) {
        Err(e) => Err(e),
        Ok((policy, _)) => if policy != policy_config@ {
            Err(ErrorCode::AccountInitializationFailed)
        } else {
            match derivation(seq![progress_seed(), vault@], program_id) {
                Err(e) => Err(e),
                Ok((progress, _)) => if progress != distribution_progress@ {
                    Err(ErrorCode::AccountInitializationFailed)
                } else {
                    match derivation(seq![vault_seed(), vault@, position_owner_seed()], program_id) {
                        Err(e) => Err(e),
                        Ok((owner, _)) => if owner != position_owner_pda@ {
                            Err(ErrorCode::AccountInitializationFailed)
                        } else {
                            Ok(())
                        },
                    }
                },
            }
        },
    }
}

/// Checks that the policy record, the progress record and the position owner sit at the
/// addresses derived for the vault.
pub fn validate_pda_derivations(accounts: &InitializationAccounts, program_id: &AccountKey) -> (r:
    Result<(), ErrorCode>)
    ensures
        r == pda_check(
            *program_id,
            accounts.vault,
            accounts.policy_config,
            accounts.distribution_progress,
            accounts.position_owner_pda,
        ),
{
    let (policy, _) = match PdaUtils::derive_policy_config_pda(program_id, &accounts.vault) {
        Ok(found) => found,
        Err(e) => {
            return Err(e);
        },
    };
    if !policy.same_as(&accounts.policy_config) {
        return Err(ErrorCode::AccountInitializationFailed);
    }
    let (progress, _) = match PdaUtils::derive_distribution_progress_pda(
        program_id,
        &accounts.vault,
    ) {
        Ok(found) => found,
        Err(e) => {
            return Err(e);
        },
    };
    if !progress.same_as(&accounts.distribution_progress) {
        return Err(ErrorCode::AccountInitializationFailed);
    }
    let (owner, _) = match PdaUtils::derive_position_owner_pda(program_id, &accounts.vault) {
        Ok(found) => found,
        Err(e) => {
            return Err(e);
        },
    };
    if !owner.same_as(&accounts.position_owner_pda) {
        return Err(ErrorCode::AccountInitializationFailed);
    }
    Ok(())
}

/// Everything a setup checks, in order: the policy invariants, the pool accounts and the
/// derived addresses.
pub open spec fn setup_check(
    accounts: InitializationAccounts,
    params: InitializeHonoraryPositionParams,
    policy_bump: u8,
    program_id: AccountKey,
) -> Result<(), ErrorCode> {
    let policy = policy_of(accounts.vault, params, policy_bump);
    if policy.check() is Err {
        policy.check()
    } else if relationship_check(accounts, params) is Err {
        relationship_check(accounts, params)
    } else {
        pda_check(
            program_id,
            accounts.vault,
            accounts.policy_config,
            accounts.distribution_progress,
            accounts.position_owner_pda,
        )
    }
}

/// Sets a vault up: checks the parameters, the pool accounts and the derived addresses, writes
/// the policy and a never-run ledger, and returns the record of the setup. On failure neither
/// is written.
pub fn initialize_honorary_position(
    policy_config: &mut PolicyConfig,
    distribution_progress: &mut DistributionProgress,
    accounts: &InitializationAccounts,
    params: &InitializeHonoraryPositionParams,
    program_id: &AccountKey,
    policy_bump: u8,
    progress_bump: u8,
    current_timestamp: i64,
) -> (r: Result<HonoraryPositionInitialized, ErrorCode>)
    ensures
        match r {
            Ok(ev) => {
                &&& setup_check(*accounts, *params, policy_bump, *program_id) is Ok
                &&& *final(policy_config) == policy_of(accounts.vault, *params, policy_bump)
                &&& *final(distribution_progress) == (DistributionProgress {
                    vault: accounts.vault,
                    last_distribution_ts: 0,
                    current_day_distributed: 0,
                    carry_over_dust: 0,
                    pagination_cursor: 0,
                    day_complete: false,
                    bump: progress_bump,
                })
                &&& ev.vault == accounts.vault
                &&& ev.quote_mint == params.quote_mint
                &&& ev.creator_wallet == params.creator_wallet
                &&& ev.investor_fee_share_bps == params.investor_fee_share_bps
                &&& ev.daily_cap_lamports == params.daily_cap_lamports
                &&& ev.min_payout_lamports == params.min_payout_lamports
                &&& ev.y0_total_allocation == params.y0_total_allocation
                &&& ev.position_owner_pda == accounts.position_owner_pda
                &&& ev.policy_config == accounts.policy_config
                &&& ev.distribution_progress == accounts.distribution_progress
                &&& ev.timestamp == current_timestamp
            },
            Err(e) => {
                &&& setup_check(*accounts, *params, policy_bump, *program_id) == Err::<
                    (),
                    ErrorCode,
                >(e)
                &&& *final(policy_config) == *old(policy_config)
                &&& *final(distribution_progress) == *old(distribution_progress)
            },
        },
{
    match validate_initialization_params(params) {
        Ok(_) => {},
        Err(e) => {
            return Err(e);
        },
    }
    match validate_account_relationships(accounts, params) {
        Ok(_) => {},
        Err(e) => {
            return Err(e);
        },
    }
    match validate_quote_only_configuration(accounts, params) {
        Ok(_) => {},
        Err(e) => {
            return Err(e);
        },
    }
    match validate_pda_derivations(accounts, program_id) {
        Ok(_) => {},
        Err(e) => {
            return Err(e);
        },
    }
    let _ = policy_config.initialize(
        accounts.vault,
        params.quote_mint,
        params.creator_wallet,
        params.investor_fee_share_bps,
        params.daily_cap_lamports,
        params.min_payout_lamports,
        params.y0_total_allocation,
        policy_bump,
    );
    let _ = distribution_progress.initialize(accounts.vault, progress_bump);
    Ok(
        HonoraryPositionInitialized {
            vault: accounts.vault,
            quote_mint: params.quote_mint,
            creator_wallet: params.creator_wallet,
            investor_fee_share_bps: params.investor_fee_share_bps,
            daily_cap_lamports: params.daily_cap_lamports,
            min_payout_lamports: params.min_payout_lamports,
            y0_total_allocation: params.y0_total_allocation,
            position_owner_pda: accounts.position_owner_pda,
            policy_config: accounts.policy_config,
            distribution_progress: accounts.distribution_progress,
            timestamp: current_timestamp,
        },
    )
}

} // verus!
