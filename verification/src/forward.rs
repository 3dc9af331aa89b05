//! Calls that governance forwards into the vault, oracle, auction and lending pool. Governance
//! decides who may make each one (the council may pause the vault; the maintainer makes every
//! other call) and names the call; the host then makes it with governance as the caller, and a
//! refusal by the target becomes the error of [`GovernanceForward::failure_error`].

use vstd::prelude::*;
use crate::types::{AccountId, Balance};
use crate::ratio::Ratio;
use crate::lending::params::{AlphaMarketParamsConfig, InterestRateParamsConfig, PoolGlobalParamsConfig};
use crate::governance::{Error, TusdtGovernance};

verus! {

/// The vault's global parameters, as governance hands them on: the transaction fee, the
/// auction duration and oracle age limit (ms), and the vault creation fee.
#[derive(Debug, Clone, Copy, PartialEq, Eq, Structural)]
pub struct VaultGlobalParamsConfig {
    pub transaction_fee: u32,
    pub auction_duration_ms: u64,
    pub max_oracle_age_ms: u64,
    pub vault_creation_fee: Balance,
}

/// A call into another protocol contract, with its arguments.
#[derive(Debug, Clone, PartialEq, Eq)]
pub enum GovernanceForward {
    /// `vault.cancel_contract_params_update(netuid)`.
    VaultCancelContractParamsUpdate { netuid: u16 },
    /// `vault.update_treasury(new_treasury)`.
    VaultUpdateTreasury { new_treasury: AccountId },
    /// `vault.update_platform(new_platform)`.
    VaultUpdatePlatform { new_platform: AccountId },
    /// `vault.set_token_controller(new_controller)`.
    VaultSetTokenController { new_controller: AccountId },
    /// `vault.update_auction_address(new_auction)`.
    VaultUpdateAuctionAddress { new_auction: AccountId },
    /// `vault.update_oracle_address(new_oracle)`.
    VaultUpdateOracleAddress { new_oracle: AccountId },
    /// `vault.unpause()`.
    VaultUnpause,
    /// `vault.get_vault_hotkey()`, a read whose answer is the message's result.
    VaultGetHotkey,
    /// `vault.set_vault_hotkey(new_hotkey, netuids)`.
    VaultSetHotkey { new_hotkey: AccountId, netuids: Vec<u16> },
    /// `vault.transfer_native_to_treasury()`.
    VaultTransferNativeToTreasury,
    /// `vault.claim_excess_alpha(netuid)`.
    VaultClaimExcessAlpha { netuid: u16 },
    /// `vault.set_approved_netuid(netuid, approved)`.
    VaultSetApprovedNetuid { netuid: u16, approved: bool },
    /// `vault.set_global_params(config)`.
    VaultSetGlobalParams { config: VaultGlobalParamsConfig },
    /// `vault.cancel_global_params_update()`.
    VaultCancelGlobalParamsUpdate,
    /// `vault.pause()`.
    VaultPause,
    /// `oracle.set_validator(validator)`.
    OracleSetValidator { validator: Option<AccountId> },
    /// `oracle.set_max_price_deviation(max_price_deviation)`.
    OracleSetMaxPriceDeviation { max_price_deviation: Ratio },
    /// `oracle.commit_round_governance(price)`, whose committed round is the message's result.
    OracleCommitRound { price: Ratio },
    /// `oracle.set_netuid(netuid)`.
    OracleSetNetuid { netuid: u16 },
    /// `oracle.set_min_submitter_stake(min_stake)`.
    OracleSetMinSubmitterStake { min_stake: u128 },
    /// `auction.set_admin(admin)`.
    AuctionSetAdmin { admin: Option<AccountId> },
    /// `pool.set_approved_netuid(netuid, approved)`.
    PoolSetApprovedNetuid { netuid: u16, approved: bool },
    /// `pool.set_alpha_params(netuid, config)`.
    PoolSetAlphaParams { netuid: u16, config: AlphaMarketParamsConfig },
    /// `pool.cancel_alpha_params_update(netuid)`.
    PoolCancelAlphaParamsUpdate { netuid: u16 },
    /// `pool.set_market_params(market_id, config)`.
    PoolSetMarketParams { market_id: u8, config: InterestRateParamsConfig },
    /// `pool.cancel_market_params_update(market_id)`.
    PoolCancelMarketParamsUpdate { market_id: u8 },
    /// `pool.set_global_params(config)`.
    PoolSetGlobalParams { config: PoolGlobalParamsConfig },
    /// `pool.cancel_global_params_update()`.
    PoolCancelGlobalParamsUpdate,
    /// `pool.update_platform(new_platform)`.
    PoolUpdatePlatform { new_platform: AccountId },
    /// `pool.update_treasury(new_treasury)`.
    PoolUpdateTreasury { new_treasury: AccountId },
    /// `pool.update_oracle_address(new_oracle)`.
    PoolUpdateOracleAddress { new_oracle: AccountId },
    /// `pool.update_ltoken_address(market_id, new_ltoken)`.
    PoolUpdateLtokenAddress { market_id: u8, new_ltoken: AccountId },
    /// `pool.update_pool_hotkey(new_hotkey, netuids)`.
    PoolUpdatePoolHotkey { new_hotkey: AccountId, netuids: Vec<u16> },
    /// `pool.claim_surplus_tusdt(amount)`.
    PoolClaimSurplusTusdt { amount: Balance },
    /// `pool.transfer_native_to_treasury()`.
    PoolTransferNativeToTreasury,
    /// `pool.unpause()`.
    PoolUnpause,
    /// `pool.update_maintainer(new_maintainer)`.
    PoolUpdateMaintainer { new_maintainer: AccountId },
}

/// The error a forwarded call reports when its target refuses it.
pub open spec fn forward_error(call: GovernanceForward) -> Error {
    match call {
        GovernanceForward::VaultCancelContractParamsUpdate { .. }
        | GovernanceForward::VaultUpdateTreasury { .. }
        | GovernanceForward::VaultUpdatePlatform { .. }
        | GovernanceForward::VaultUpdateAuctionAddress { .. }
        | GovernanceForward::VaultUpdateOracleAddress { .. }
        | GovernanceForward::VaultUnpause
        | GovernanceForward::VaultGetHotkey
        | GovernanceForward::VaultSetHotkey { .. }
        | GovernanceForward::VaultTransferNativeToTreasury
        | GovernanceForward::VaultClaimExcessAlpha { .. }
        | GovernanceForward::VaultSetApprovedNetuid { .. }
        | GovernanceForward::VaultSetGlobalParams { .. }
        | GovernanceForward::VaultCancelGlobalParamsUpdate
        | GovernanceForward::VaultPause => Error::VaultCallFailed,
        GovernanceForward::VaultSetTokenController { .. } => Error::VaultTokenCallFailed,
        GovernanceForward::OracleSetValidator { .. }
        | GovernanceForward::OracleSetMaxPriceDeviation { .. }
        | GovernanceForward::OracleCommitRound { .. }
        | GovernanceForward::OracleSetNetuid { .. }
        | GovernanceForward::OracleSetMinSubmitterStake { .. } => Error::OracleCallFailed,
        GovernanceForward::AuctionSetAdmin { .. } => Error::AuctionCallFailed,
        GovernanceForward::PoolSetApprovedNetuid { .. }
        | GovernanceForward::PoolSetAlphaParams { .. }
        | GovernanceForward::PoolCancelAlphaParamsUpdate { .. }
        | GovernanceForward::PoolSetMarketParams { .. }
        | GovernanceForward::PoolCancelMarketParamsUpdate { .. }
        | GovernanceForward::PoolSetGlobalParams { .. }
        | GovernanceForward::PoolCancelGlobalParamsUpdate
        | GovernanceForward::PoolUpdatePlatform { .. }
        | GovernanceForward::PoolUpdateTreasury { .. }
        | GovernanceForward::PoolUpdateOracleAddress { .. }
        | GovernanceForward::PoolUpdateLtokenAddress { .. }
        | GovernanceForward::PoolUpdatePoolHotkey { .. }
        | GovernanceForward::PoolClaimSurplusTusdt { .. }
        | GovernanceForward::PoolTransferNativeToTreasury
        | GovernanceForward::PoolUnpause
        | GovernanceForward::PoolUpdateMaintainer { .. } => Error::PoolCallFailed,
    }
}

impl GovernanceForward {
    /// The error governance reports when the target contract refuses this call.
    pub fn failure_error(&self) -> (e: Error)
        ensures
            e == forward_error(*self),
    {
        match self {
            GovernanceForward::VaultCancelContractParamsUpdate { .. }
            | GovernanceForward::VaultUpdateTreasury { .. }
            | GovernanceForward::VaultUpdatePlatform { .. }
            | GovernanceForward::VaultUpdateAuctionAddress { .. }
            | GovernanceForward::VaultUpdateOracleAddress { .. }
            | GovernanceForward::VaultUnpause
            | GovernanceForward::VaultGetHotkey
            | GovernanceForward::VaultSetHotkey { .. }
            | GovernanceForward::VaultTransferNativeToTreasury
            | GovernanceForward::VaultClaimExcessAlpha { .. }
            | GovernanceForward::VaultSetApprovedNetuid { .. }
            | GovernanceForward::VaultSetGlobalParams { .. }
            | GovernanceForward::VaultCancelGlobalParamsUpdate
            | GovernanceForward::VaultPause => Error::VaultCallFailed,
            GovernanceForward::VaultSetTokenController { .. } => Error::VaultTokenCallFailed,
            GovernanceForward::OracleSetValidator { .. }
            | GovernanceForward::OracleSetMaxPriceDeviation { .. }
            | GovernanceForward::OracleCommitRound { .. }
            | GovernanceForward::OracleSetNetuid { .. }
            | GovernanceForward::OracleSetMinSubmitterStake { .. } => Error::OracleCallFailed,
            GovernanceForward::AuctionSetAdmin { .. } => Error::AuctionCallFailed,
            GovernanceForward::PoolSetApprovedNetuid { .. }
            | GovernanceForward::PoolSetAlphaParams { .. }
            | GovernanceForward::PoolCancelAlphaParamsUpdate { .. }
            | GovernanceForward::PoolSetMarketParams { .. }
            | GovernanceForward::PoolCancelMarketParamsUpdate { .. }
            | GovernanceForward::PoolSetGlobalParams { .. }
            | GovernanceForward::PoolCancelGlobalParamsUpdate
            | GovernanceForward::PoolUpdatePlatform { .. }
            | GovernanceForward::PoolUpdateTreasury { .. }
            | GovernanceForward::PoolUpdateOracleAddress { .. }
            | GovernanceForward::PoolUpdateLtokenAddress { .. }
            | GovernanceForward::PoolUpdatePoolHotkey { .. }
            | GovernanceForward::PoolClaimSurplusTusdt { .. }
            | GovernanceForward::PoolTransferNativeToTreasury
            | GovernanceForward::PoolUnpause
            | GovernanceForward::PoolUpdateMaintainer { .. } => Error::PoolCallFailed,
        }
    }
}

impl TusdtGovernance {

    /// Admits `vault.cancel_contract_params_update(netuid)` when `caller` is the maintainer.
    pub fn vault_cancel_contract_params_update(&self, caller: AccountId, netuid: u16) -> (r: Result<GovernanceForward, Error>)
        ensures
            caller == self.maintainer ==> r == Ok::<GovernanceForward, Error>(GovernanceForward::VaultCancelContractParamsUpdate { netuid }),
            caller != self.maintainer ==> r == Err::<GovernanceForward, Error>(Error::NotMaintainer),
    {
        match self.ensure_maintainer(caller) {
            Ok(()) => {},
            Err(e) => return Err(e),
        }
        Ok(GovernanceForward::VaultCancelContractParamsUpdate { netuid })
    }

    /// Admits `vault.update_treasury(new_treasury)` when `caller` is the maintainer.
    pub fn vault_update_treasury(&self, caller: AccountId, new_treasury: AccountId) -> (r: Result<GovernanceForward, Error>)
        ensures
            caller == self.maintainer ==> r == Ok::<GovernanceForward, Error>(GovernanceForward::VaultUpdateTreasury { new_treasury }),
            caller != self.maintainer ==> r == Err::<GovernanceForward, Error>(Error::NotMaintainer),
    {
        match self.ensure_maintainer(caller) {
            Ok(()) => {},
            Err(e) => return Err(e),
        }
        Ok(GovernanceForward::VaultUpdateTreasury { new_treasury })
    }

    /// Admits `vault.update_platform(new_platform)` when `caller` is the maintainer.
    pub fn vault_update_platform(&self, caller: AccountId, new_platform: AccountId) -> (r: Result<GovernanceForward, Error>)
        ensures
            caller == self.maintainer ==> r == Ok::<GovernanceForward, Error>(GovernanceForward::VaultUpdatePlatform { new_platform }),
            caller != self.maintainer ==> r == Err::<GovernanceForward, Error>(Error::NotMaintainer),
    {
        match self.ensure_maintainer(caller) {
            Ok(()) => {},
            Err(e) => return Err(e),
        }
        Ok(GovernanceForward::VaultUpdatePlatform { new_platform })
    }

    /// Admits `vault.set_token_controller(new_controller)` when `caller` is the maintainer.
    pub fn vault_set_token_controller(&self, caller: AccountId, new_controller: AccountId) -> (r: Result<GovernanceForward, Error>)
        ensures
            caller == self.maintainer ==> r == Ok::<GovernanceForward, Error>(GovernanceForward::VaultSetTokenController { new_controller }),
            caller != self.maintainer ==> r == Err::<GovernanceForward, Error>(Error::NotMaintainer),
    {
        match self.ensure_maintainer(caller) {
            Ok(()) => {},
            Err(e) => return Err(e),
        }
        Ok(GovernanceForward::VaultSetTokenController { new_controller })
    }

    /// Admits `vault.update_auction_address(new_auction)` when `caller` is the maintainer.
    pub fn vault_update_auction_address(&self, caller: AccountId, new_auction: AccountId) -> (r: Result<GovernanceForward, Error>)
        ensures
            caller == self.maintainer ==> r == Ok::<GovernanceForward, Error>(GovernanceForward::VaultUpdateAuctionAddress { new_auction }),
            caller != self.maintainer ==> r == Err::<GovernanceForward, Error>(Error::NotMaintainer),
    {
        match self.ensure_maintainer(caller) {
            Ok(()) => {},
            Err(e) => return Err(e),
        }
        Ok(GovernanceForward::VaultUpdateAuctionAddress { new_auction })
    }

    /// Admits `vault.update_oracle_address(new_oracle)` when `caller` is the maintainer.
    pub fn vault_update_oracle_address(&self, caller: AccountId, new_oracle: AccountId) -> (r: Result<GovernanceForward, Error>)
        ensures
            caller == self.maintainer ==> r == Ok::<GovernanceForward, Error>(GovernanceForward::VaultUpdateOracleAddress { new_oracle }),
            caller != self.maintainer ==> r == Err::<GovernanceForward, Error>(Error::NotMaintainer),
    {
        match self.ensure_maintainer(caller) {
            Ok(()) => {},
            Err(e) => return Err(e),
        }
        Ok(GovernanceForward::VaultUpdateOracleAddress { new_oracle })
    }

    /// Admits `vault.unpause()` when `caller` is the maintainer.
    pub fn vault_unpause(&self, caller: AccountId) -> (r: Result<GovernanceForward, Error>)
        ensures
            caller == self.maintainer ==> r == Ok::<GovernanceForward, Error>(GovernanceForward::VaultUnpause),
            caller != self.maintainer ==> r == Err::<GovernanceForward, Error>(Error::NotMaintainer),
    {
        match self.ensure_maintainer(caller) {
            Ok(()) => {},
            Err(e) => return Err(e),
        }
        Ok(GovernanceForward::VaultUnpause)
    }

    /// Names the read `vault.get_vault_hotkey()`; anyone may make it.
    pub fn vault_get_hotkey(&self) -> (r: GovernanceForward)
        ensures
            r == GovernanceForward::VaultGetHotkey,
    {
        GovernanceForward::VaultGetHotkey
    }

    /// Admits `vault.set_vault_hotkey(new_hotkey, netuids)` when `caller` is the maintainer.
    pub fn vault_set_hotkey(&self, caller: AccountId, new_hotkey: AccountId, netuids: Vec<u16>) -> (r: Result<GovernanceForward, Error>)
        ensures
            caller == self.maintainer ==> r == Ok::<GovernanceForward, Error>(GovernanceForward::VaultSetHotkey { new_hotkey, netuids }),
            caller != self.maintainer ==> r == Err::<GovernanceForward, Error>(Error::NotMaintainer),
    {
        match self.ensure_maintainer(caller) {
            Ok(()) => {},
            Err(e) => return Err(e),
        }
        Ok(GovernanceForward::VaultSetHotkey { new_hotkey, netuids })
    }

    /// Admits `vault.transfer_native_to_treasury()` when `caller` is the maintainer.
    pub fn vault_transfer_native_to_treasury(&self, caller: AccountId) -> (r: Result<GovernanceForward, Error>)
        ensures
            caller == self.maintainer ==> r == Ok::<GovernanceForward, Error>(GovernanceForward::VaultTransferNativeToTreasury),
            caller != self.maintainer ==> r == Err::<GovernanceForward, Error>(Error::NotMaintainer),
    {
        match self.ensure_maintainer(caller) {
            Ok(()) => {},
            Err(e) => return Err(e),
        }
        Ok(GovernanceForward::VaultTransferNativeToTreasury)
    }

    /// Admits `vault.claim_excess_alpha(netuid)` when `caller` is the maintainer.
    pub fn vault_claim_excess_alpha(&self, caller: AccountId, netuid: u16) -> (r: Result<GovernanceForward, Error>)
        ensures
            caller == self.maintainer ==> r == Ok::<GovernanceForward, Error>(GovernanceForward::VaultClaimExcessAlpha { netuid }),
            caller != self.maintainer ==> r == Err::<GovernanceForward, Error>(Error::NotMaintainer),
    {
        match self.ensure_maintainer(caller) {
            Ok(()) => {},
            Err(e) => return Err(e),
        }
        Ok(GovernanceForward::VaultClaimExcessAlpha { netuid })
    }

    /// Admits `vault.set_approved_netuid(netuid, approved)` when `caller` is the maintainer.
    pub fn vault_set_approved_netuid(&self, caller: AccountId, netuid: u16, approved: bool) -> (r: Result<GovernanceForward, Error>)
        ensures
            caller == self.maintainer ==> r == Ok::<GovernanceForward, Error>(GovernanceForward::VaultSetApprovedNetuid { netuid, approved }),
            caller != self.maintainer ==> r == Err::<GovernanceForward, Error>(Error::NotMaintainer),
    {
        match self.ensure_maintainer(caller) {
            Ok(()) => {},
            Err(e) => return Err(e),
        }
        Ok(GovernanceForward::VaultSetApprovedNetuid { netuid, approved })
    }

    /// Admits `vault.set_global_params(config)` when `caller` is the maintainer.
    pub fn vault_set_global_params(&self, caller: AccountId, config: VaultGlobalParamsConfig) -> (r: Result<GovernanceForward, Error>)
        ensures
            caller == self.maintainer ==> r == Ok::<GovernanceForward, Error>(GovernanceForward::VaultSetGlobalParams { config }),
            caller != self.maintainer ==> r == Err::<GovernanceForward, Error>(Error::NotMaintainer),
    {
        match self.ensure_maintainer(caller) {
            Ok(()) => {},
            Err(e) => return Err(e),
        }
        Ok(GovernanceForward::VaultSetGlobalParams { config })
    }

    /// Admits `vault.cancel_global_params_update()` when `caller` is the maintainer.
    pub fn vault_cancel_global_params_update(&self, caller: AccountId) -> (r: Result<GovernanceForward, Error>)
        ensures
            caller == self.maintainer ==> r == Ok::<GovernanceForward, Error>(GovernanceForward::VaultCancelGlobalParamsUpdate),
            caller != self.maintainer ==> r == Err::<GovernanceForward, Error>(Error::NotMaintainer),
    {
        match self.ensure_maintainer(caller) {
            Ok(()) => {},
            Err(e) => return Err(e),
        }
        Ok(GovernanceForward::VaultCancelGlobalParamsUpdate)
    }

    /// Admits `vault.pause()` when `caller` is a council member.
    pub fn vault_pause(&self, caller: AccountId) -> (r: Result<GovernanceForward, Error>)
        ensures
            self@.council.contains(caller) ==> r == Ok::<GovernanceForward, Error>(GovernanceForward::VaultPause),
            !self@.council.contains(caller) ==> r == Err::<GovernanceForward, Error>(Error::NotCouncil),
    {
        match self.ensure_council(caller) {
            Ok(()) => {},
            Err(e) => return Err(e),
        }
        Ok(GovernanceForward::VaultPause)
    }

    /// Admits `oracle.set_validator(validator)` when `caller` is the maintainer.
    pub fn oracle_set_validator(&self, caller: AccountId, validator: Option<AccountId>) -> (r: Result<GovernanceForward, Error>)
        ensures
            caller == self.maintainer ==> r == Ok::<GovernanceForward, Error>(GovernanceForward::OracleSetValidator { validator }),
            caller != self.maintainer ==> r == Err::<GovernanceForward, Error>(Error::NotMaintainer),
    {
        match self.ensure_maintainer(caller) {
            Ok(()) => {},
            Err(e) => return Err(e),
        }
        Ok(GovernanceForward::OracleSetValidator { validator })
    }

    /// Admits `oracle.set_max_price_deviation(max_price_deviation)` when `caller` is the maintainer.
    pub fn oracle_set_max_price_deviation(&self, caller: AccountId, max_price_deviation: Ratio) -> (r: Result<GovernanceForward, Error>)
        ensures
            caller == self.maintainer ==> r == Ok::<GovernanceForward, Error>(GovernanceForward::OracleSetMaxPriceDeviation { max_price_deviation }),
            caller != self.maintainer ==> r == Err::<GovernanceForward, Error>(Error::NotMaintainer),
    {
        match self.ensure_maintainer(caller) {
            Ok(()) => {},
            Err(e) => return Err(e),
        }
        Ok(GovernanceForward::OracleSetMaxPriceDeviation { max_price_deviation })
    }

    /// Admits `oracle.commit_round_governance(price)`, whose committed round is the message's result when `caller` is the maintainer.
    pub fn oracle_commit_round(&self, caller: AccountId, price: Ratio) -> (r: Result<GovernanceForward, Error>)
        ensures
            caller == self.maintainer ==> r == Ok::<GovernanceForward, Error>(GovernanceForward::OracleCommitRound { price }),
            caller != self.maintainer ==> r == Err::<GovernanceForward, Error>(Error::NotMaintainer),
    {
        match self.ensure_maintainer(caller) {
            Ok(()) => {},
            Err(e) => return Err(e),
        }
        Ok(GovernanceForward::OracleCommitRound { price })
    }

    /// Admits `oracle.set_netuid(netuid)` when `caller` is the maintainer.
    pub fn oracle_set_netuid(&self, caller: AccountId, netuid: u16) -> (r: Result<GovernanceForward, Error>)
        ensures
            caller == self.maintainer ==> r == Ok::<GovernanceForward, Error>(GovernanceForward::OracleSetNetuid { netuid }),
            caller != self.maintainer ==> r == Err::<GovernanceForward, Error>(Error::NotMaintainer),
    {
        match self.ensure_maintainer(caller) {
            Ok(()) => {},
            Err(e) => return Err(e),
        }
        Ok(GovernanceForward::OracleSetNetuid { netuid })
    }

    /// Admits `oracle.set_min_submitter_stake(min_stake)` when `caller` is the maintainer.
    pub fn oracle_set_min_submitter_stake(&self, caller: AccountId, min_stake: u128) -> (r: Result<GovernanceForward, Error>)
        ensures
            caller == self.maintainer ==> r == Ok::<GovernanceForward, Error>(GovernanceForward::OracleSetMinSubmitterStake { min_stake }),
            caller != self.maintainer ==> r == Err::<GovernanceForward, Error>(Error::NotMaintainer),
    {
        match self.ensure_maintainer(caller) {
            Ok(()) => {},
            Err(e) => return Err(e),
        }
        Ok(GovernanceForward::OracleSetMinSubmitterStake { min_stake })
    }

    /// Admits `auction.set_admin(admin)` when `caller` is the maintainer.
    pub fn auction_set_admin(&self, caller: AccountId, admin: Option<AccountId>) -> (r: Result<GovernanceForward, Error>)
        ensures
            caller == self.maintainer ==> r == Ok::<GovernanceForward, Error>(GovernanceForward::AuctionSetAdmin { admin }),
            caller != self.maintainer ==> r == Err::<GovernanceForward, Error>(Error::NotMaintainer),
    {
        match self.ensure_maintainer(caller) {
            Ok(()) => {},
            Err(e) => return Err(e),
        }
        Ok(GovernanceForward::AuctionSetAdmin { admin })
    }

    /// Admits `pool.set_approved_netuid(netuid, approved)` when `caller` is the maintainer.
    pub fn pool_set_approved_netuid(&self, caller: AccountId, netuid: u16, approved: bool) -> (r: Result<GovernanceForward, Error>)
        ensures
            caller == self.maintainer ==> r == Ok::<GovernanceForward, Error>(GovernanceForward::PoolSetApprovedNetuid { netuid, approved }),
            caller != self.maintainer ==> r == Err::<GovernanceForward, Error>(Error::NotMaintainer),
    {
        match self.ensure_maintainer(caller) {
            Ok(()) => {},
            Err(e) => return Err(e),
        }
        Ok(GovernanceForward::PoolSetApprovedNetuid { netuid, approved })
    }

    /// Admits `pool.set_alpha_params(netuid, config)` when `caller` is the maintainer.
    pub fn pool_set_alpha_params(&self, caller: AccountId, netuid: u16, config: AlphaMarketParamsConfig) -> (r: Result<GovernanceForward, Error>)
        ensures
            caller == self.maintainer ==> r == Ok::<GovernanceForward, Error>(GovernanceForward::PoolSetAlphaParams { netuid, config }),
            caller != self.maintainer ==> r == Err::<GovernanceForward, Error>(Error::NotMaintainer),
    {
        match self.ensure_maintainer(caller) {
            Ok(()) => {},
            Err(e) => return Err(e),
        }
        Ok(GovernanceForward::PoolSetAlphaParams { netuid, config })
    }

    /// Admits `pool.cancel_alpha_params_update(netuid)` when `caller` is the maintainer.
    pub fn pool_cancel_alpha_params_update(&self, caller: AccountId, netuid: u16) -> (r: Result<GovernanceForward, Error>)
        ensures
            caller == self.maintainer ==> r == Ok::<GovernanceForward, Error>(GovernanceForward::PoolCancelAlphaParamsUpdate { netuid }),
            caller != self.maintainer ==> r == Err::<GovernanceForward, Error>(Error::NotMaintainer),
    {
        match self.ensure_maintainer(caller) {
            Ok(()) => {},
            Err(e) => return Err(e),
        }
        Ok(GovernanceForward::PoolCancelAlphaParamsUpdate { netuid })
    }

    /// Admits `pool.set_market_params(market_id, config)` when `caller` is the maintainer.
    pub fn pool_set_market_params(&self, caller: AccountId, market_id: u8, config: InterestRateParamsConfig) -> (r: Result<GovernanceForward, Error>)
        ensures
            caller == self.maintainer ==> r == Ok::<GovernanceForward, Error>(GovernanceForward::PoolSetMarketParams { market_id, config }),
            caller != self.maintainer ==> r == Err::<GovernanceForward, Error>(Error::NotMaintainer),
    {
        match self.ensure_maintainer(caller) {
            Ok(()) => {},
            Err(e) => return Err(e),
        }
        Ok(GovernanceForward::PoolSetMarketParams { market_id, config })
    }

    /// Admits `pool.cancel_market_params_update(market_id)` when `caller` is the maintainer.
    pub fn pool_cancel_market_params_update(&self, caller: AccountId, market_id: u8) -> (r: Result<GovernanceForward, Error>)
        ensures
            caller == self.maintainer ==> r == Ok::<GovernanceForward, Error>(GovernanceForward::PoolCancelMarketParamsUpdate { market_id }),
            caller != self.maintainer ==> r == Err::<GovernanceForward, Error>(Error::NotMaintainer),
    {
        match self.ensure_maintainer(caller) {
            Ok(()) => {},
            Err(e) => return Err(e),
        }
        Ok(GovernanceForward::PoolCancelMarketParamsUpdate { market_id })
    }

    /// Admits `pool.set_global_params(config)` when `caller` is the maintainer.
    pub fn pool_set_global_params(&self, caller: AccountId, config: PoolGlobalParamsConfig) -> (r: Result<GovernanceForward, Error>)
        ensures
            caller == self.maintainer ==> r == Ok::<GovernanceForward, Error>(GovernanceForward::PoolSetGlobalParams { config }),
            caller != self.maintainer ==> r == Err::<GovernanceForward, Error>(Error::NotMaintainer),
    {
        match self.ensure_maintainer(caller) {
            Ok(()) => {},
            Err(e) => return Err(e),
        }
        Ok(GovernanceForward::PoolSetGlobalParams { config })
    }

    /// Admits `pool.cancel_global_params_update()` when `caller` is the maintainer.
    pub fn pool_cancel_global_params_update(&self, caller: AccountId) -> (r: Result<GovernanceForward, Error>)
        ensures
            caller == self.maintainer ==> r == Ok::<GovernanceForward, Error>(GovernanceForward::PoolCancelGlobalParamsUpdate),
            caller != self.maintainer ==> r == Err::<GovernanceForward, Error>(Error::NotMaintainer),
    {
        match self.ensure_maintainer(caller) {
            Ok(()) => {},
            Err(e) => return Err(e),
        }
        Ok(GovernanceForward::PoolCancelGlobalParamsUpdate)
    }

    /// Admits `pool.update_platform(new_platform)` when `caller` is the maintainer.
    pub fn pool_update_platform(&self, caller: AccountId, new_platform: AccountId) -> (r: Result<GovernanceForward, Error>)
        ensures
            caller == self.maintainer ==> r == Ok::<GovernanceForward, Error>(GovernanceForward::PoolUpdatePlatform { new_platform }),
            caller != self.maintainer ==> r == Err::<GovernanceForward, Error>(Error::NotMaintainer),
    {
        match self.ensure_maintainer(caller) {
            Ok(()) => {},
            Err(e) => return Err(e),
        }
        Ok(GovernanceForward::PoolUpdatePlatform { new_platform })
    }

    /// Admits `pool.update_treasury(new_treasury)` when `caller` is the maintainer.
    pub fn pool_update_treasury(&self, caller: AccountId, new_treasury: AccountId) -> (r: Result<GovernanceForward, Error>)
        ensures
            caller == self.maintainer ==> r == Ok::<GovernanceForward, Error>(GovernanceForward::PoolUpdateTreasury { new_treasury }),
            caller != self.maintainer ==> r == Err::<GovernanceForward, Error>(Error::NotMaintainer),
    {
        match self.ensure_maintainer(caller) {
            Ok(()) => {},
            Err(e) => return Err(e),
        }
        Ok(GovernanceForward::PoolUpdateTreasury { new_treasury })
    }

    /// Admits `pool.update_oracle_address(new_oracle)` when `caller` is the maintainer.
    pub fn pool_update_oracle_address(&self, caller: AccountId, new_oracle: AccountId) -> (r: Result<GovernanceForward, Error>)
        ensures
            caller == self.maintainer ==> r == Ok::<GovernanceForward, Error>(GovernanceForward::PoolUpdateOracleAddress { new_oracle }),
            caller != self.maintainer ==> r == Err::<GovernanceForward, Error>(Error::NotMaintainer),
    {
        match self.ensure_maintainer(caller) {
            Ok(()) => {},
            Err(e) => return Err(e),
        }
        Ok(GovernanceForward::PoolUpdateOracleAddress { new_oracle })
    }

    /// Admits `pool.update_ltoken_address(market_id, new_ltoken)` when `caller` is the maintainer.
    pub fn pool_update_ltoken_address(&self, caller: AccountId, market_id: u8, new_ltoken: AccountId) -> (r: Result<GovernanceForward, Error>)
        ensures
            caller == self.maintainer ==> r == Ok::<GovernanceForward, Error>(GovernanceForward::PoolUpdateLtokenAddress { market_id, new_ltoken }),
            caller != self.maintainer ==> r == Err::<GovernanceForward, Error>(Error::NotMaintainer),
    {
        match self.ensure_maintainer(caller) {
            Ok(()) => {},
            Err(e) => return Err(e),
        }
        Ok(GovernanceForward::PoolUpdateLtokenAddress { market_id, new_ltoken })
    }

    /// Admits `pool.update_pool_hotkey(new_hotkey, netuids)` when `caller` is the maintainer.
    pub fn pool_update_pool_hotkey(&self, caller: AccountId, new_hotkey: AccountId, netuids: Vec<u16>) -> (r: Result<GovernanceForward, Error>)
        ensures
            caller == self.maintainer ==> r == Ok::<GovernanceForward, Error>(GovernanceForward::PoolUpdatePoolHotkey { new_hotkey, netuids }),
            caller != self.maintainer ==> r == Err::<GovernanceForward, Error>(Error::NotMaintainer),
    {
        match self.ensure_maintainer(caller) {
            Ok(()) => {},
            Err(e) => return Err(e),
        }
        Ok(GovernanceForward::PoolUpdatePoolHotkey { new_hotkey, netuids })
    }

    /// Admits `pool.claim_surplus_tusdt(amount)` when `caller` is the maintainer.
    pub fn pool_claim_surplus_tusdt(&self, caller: AccountId, amount: Balance) -> (r: Result<GovernanceForward, Error>)
        ensures
            caller == self.maintainer ==> r == Ok::<GovernanceForward, Error>(GovernanceForward::PoolClaimSurplusTusdt { amount }),
            caller != self.maintainer ==> r == Err::<GovernanceForward, Error>(Error::NotMaintainer),
    {
        match self.ensure_maintainer(caller) {
            Ok(()) => {},
            Err(e) => return Err(e),
        }
        Ok(GovernanceForward::PoolClaimSurplusTusdt { amount })
    }

    /// Admits `pool.transfer_native_to_treasury()` when `caller` is the maintainer.
    pub fn pool_transfer_native_to_treasury(&self, caller: AccountId) -> (r: Result<GovernanceForward, Error>)
        ensures
            caller == self.maintainer ==> r == Ok::<GovernanceForward, Error>(GovernanceForward::PoolTransferNativeToTreasury),
            caller != self.maintainer ==> r == Err::<GovernanceForward, Error>(Error::NotMaintainer),
    {
        match self.ensure_maintainer(caller) {
            Ok(()) => {},
            Err(e) => return Err(e),
        }
        Ok(GovernanceForward::PoolTransferNativeToTreasury)
    }

    /// Admits `pool.unpause()` when `caller` is the maintainer.
    pub fn pool_unpause(&self, caller: AccountId) -> (r: Result<GovernanceForward, Error>)
        ensures
            caller == self.maintainer ==> r == Ok::<GovernanceForward, Error>(GovernanceForward::PoolUnpause),
            caller != self.maintainer ==> r == Err::<GovernanceForward, Error>(Error::NotMaintainer),
    {
        match self.ensure_maintainer(caller) {
            Ok(()) => {},
            Err(e) => return Err(e),
        }
        Ok(GovernanceForward::PoolUnpause)
    }

    /// Admits `pool.update_maintainer(new_maintainer)` when `caller` is the maintainer.
    pub fn pool_update_maintainer(&self, caller: AccountId, new_maintainer: AccountId) -> (r: Result<GovernanceForward, Error>)
        ensures
            caller == self.maintainer ==> r == Ok::<GovernanceForward, Error>(GovernanceForward::PoolUpdateMaintainer { new_maintainer }),
            caller != self.maintainer ==> r == Err::<GovernanceForward, Error>(Error::NotMaintainer),
    {
        match self.ensure_maintainer(caller) {
            Ok(()) => {},
            Err(e) => return Err(e),
        }
        Ok(GovernanceForward::PoolUpdateMaintainer { new_maintainer })
    }
}

} // verus!
