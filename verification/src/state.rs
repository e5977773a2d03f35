//! The internal system-state records.
//!
//! These are the version-evolving records owned by the consensus and
//! execution layer, as the state provider hands them out: key material is
//! still raw bytes, and field names follow the internal schema. The
//! `view` functions map each record onto the shared snapshot model and
//! are the authoritative rename table between internal and wire names
//! (for instance `sui_address` on this side is `address` on the wire
//! side).

use vstd::prelude::*;

use crate::types::{
    Address, ObjectId, BLS12381_PUBLIC_KEY_LENGTH, ED25519_PUBLIC_KEY_LENGTH,
};
use crate::views::{SystemStateModel, ValidatorModel};

verus! {

/// One active validator as the internal state records it. Key material
/// is raw, not yet decoded against its scheme.
#[derive(Debug, Clone, PartialEq, Eq)]
pub struct SuiValidatorSummary {
    pub sui_address: Address,
    pub protocol_pubkey_bytes: Vec<u8>,
    pub network_pubkey_bytes: Vec<u8>,
    pub worker_pubkey_bytes: Vec<u8>,
    pub proof_of_possession_bytes: Vec<u8>,
    pub name: String,
    pub description: String,
    pub image_url: String,
    pub project_url: String,
    pub net_address: String,
    pub p2p_address: String,
    pub primary_address: String,
    pub worker_address: String,
    pub next_epoch_protocol_pubkey_bytes: Option<Vec<u8>>,
    pub next_epoch_proof_of_possession: Option<Vec<u8>>,
    pub next_epoch_network_pubkey_bytes: Option<Vec<u8>>,
    pub next_epoch_worker_pubkey_bytes: Option<Vec<u8>>,
    pub next_epoch_net_address: Option<String>,
    pub next_epoch_p2p_address: Option<String>,
    pub next_epoch_primary_address: Option<String>,
    pub next_epoch_worker_address: Option<String>,
    pub voting_power: u64,
    pub operation_cap_id: ObjectId,
    pub gas_price: u64,
    pub commission_rate: u64,
    pub next_epoch_stake: u64,
    pub next_epoch_gas_price: u64,
    pub next_epoch_commission_rate: u64,
    pub staking_pool_id: ObjectId,
    pub staking_pool_activation_epoch: Option<u64>,
    pub staking_pool_deactivation_epoch: Option<u64>,
    pub staking_pool_sui_balance: u64,
    pub rewards_pool: u64,
    pub pool_token_balance: u64,
    pub pending_stake: u64,
    pub pending_total_sui_withdraw: u64,
    pub pending_pool_token_withdraw: u64,
    pub exchange_rates_id: ObjectId,
    pub exchange_rates_size: u64,
}

impl View for SuiValidatorSummary {
    type V = ValidatorModel;

    open spec fn view(&self) -> ValidatorModel {
        ValidatorModel {
            address: self.sui_address@,
            protocol_public_key: self.protocol_pubkey_bytes@,
            network_public_key: self.network_pubkey_bytes@,
            worker_public_key: self.worker_pubkey_bytes@,
            proof_of_possession_bytes: self.proof_of_possession_bytes@,
            name: self.name@,
            description: self.description@,
            image_url: self.image_url@,
            project_url: self.project_url@,
            net_address: self.net_address@,
            p2p_address: self.p2p_address@,
            primary_address: self.primary_address@,
            worker_address: self.worker_address@,
            next_epoch_protocol_public_key: self.next_epoch_protocol_pubkey_bytes.deep_view(),
            next_epoch_network_public_key: self.next_epoch_network_pubkey_bytes.deep_view(),
            next_epoch_worker_public_key: self.next_epoch_worker_pubkey_bytes.deep_view(),
            next_epoch_proof_of_possession: self.next_epoch_proof_of_possession.deep_view(),
            next_epoch_net_address: self.next_epoch_net_address.deep_view(),
            next_epoch_p2p_address: self.next_epoch_p2p_address.deep_view(),
            next_epoch_primary_address: self.next_epoch_primary_address.deep_view(),
            next_epoch_worker_address: self.next_epoch_worker_address.deep_view(),
            voting_power: self.voting_power,
            operation_cap_id: self.operation_cap_id@,
            gas_price: self.gas_price,
            commission_rate: self.commission_rate,
            next_epoch_stake: self.next_epoch_stake,
            next_epoch_gas_price: self.next_epoch_gas_price,
            next_epoch_commission_rate: self.next_epoch_commission_rate,
            staking_pool_id: self.staking_pool_id@,
            staking_pool_activation_epoch: self.staking_pool_activation_epoch,
            staking_pool_deactivation_epoch: self.staking_pool_deactivation_epoch,
            staking_pool_sui_balance: self.staking_pool_sui_balance,
            rewards_pool: self.rewards_pool,
            pool_token_balance: self.pool_token_balance,
            pending_stake: self.pending_stake,
            pending_total_sui_withdraw: self.pending_total_sui_withdraw,
            pending_pool_token_withdraw: self.pending_pool_token_withdraw,
            exchange_rates_id: self.exchange_rates_id@,
            exchange_rates_size: self.exchange_rates_size,
        }
    }
}

impl DeepView for SuiValidatorSummary {
    type V = ValidatorModel;

    open spec fn deep_view(&self) -> ValidatorModel {
        self.view()
    }
}

impl SuiValidatorSummary {
    /// Whether every key byte string, current and scheduled, has the
    /// length its scheme demands. A well-formed upstream state guarantees
    /// this; the projection decodes exactly these byte strings.
    pub open spec fn keys_wf(&self) -> bool {
        &&& self.protocol_pubkey_bytes@.len() == BLS12381_PUBLIC_KEY_LENGTH
        &&& self.network_pubkey_bytes@.len() == ED25519_PUBLIC_KEY_LENGTH
        &&& self.worker_pubkey_bytes@.len() == ED25519_PUBLIC_KEY_LENGTH
        &&& (self.next_epoch_protocol_pubkey_bytes matches Some(b) ==> b@.len()
            == BLS12381_PUBLIC_KEY_LENGTH)
        &&& (self.next_epoch_network_pubkey_bytes matches Some(b) ==> b@.len()
            == ED25519_PUBLIC_KEY_LENGTH)
        &&& (self.next_epoch_worker_pubkey_bytes matches Some(b) ==> b@.len()
            == ED25519_PUBLIC_KEY_LENGTH)
    }
}

/// The whole epoch snapshot as the internal state records it.
#[derive(Debug, Clone, PartialEq, Eq)]
pub struct SuiSystemStateSummary {
    pub epoch: u64,
    pub protocol_version: u64,
    pub system_state_version: u64,
    pub storage_fund_total_object_storage_rebates: u64,
    pub storage_fund_non_refundable_balance: u64,
    pub reference_gas_price: u64,
    pub safe_mode: bool,
    pub safe_mode_storage_rewards: u64,
    pub safe_mode_computation_rewards: u64,
    pub safe_mode_storage_rebates: u64,
    pub safe_mode_non_refundable_storage_fee: u64,
    pub epoch_start_timestamp_ms: u64,
    pub epoch_duration_ms: u64,
    pub stake_subsidy_start_epoch: u64,
    pub max_validator_count: u64,
    pub min_validator_joining_stake: u64,
    pub validator_low_stake_threshold: u64,
    pub validator_very_low_stake_threshold: u64,
    pub validator_low_stake_grace_period: u64,
    pub stake_subsidy_balance: u64,
    pub stake_subsidy_distribution_counter: u64,
    pub stake_subsidy_current_distribution_amount: u64,
    pub stake_subsidy_period_length: u64,
    pub stake_subsidy_decrease_rate: u16,
    pub total_stake: u64,
    pub active_validators: Vec<SuiValidatorSummary>,
    pub pending_active_validators_id: ObjectId,
    pub pending_active_validators_size: u64,
    pub pending_removals: Vec<u64>,
    pub staking_pool_mappings_id: ObjectId,
    pub staking_pool_mappings_size: u64,
    pub inactive_pools_id: ObjectId,
    pub inactive_pools_size: u64,
    pub validator_candidates_id: ObjectId,
    pub validator_candidates_size: u64,
    pub at_risk_validators: Vec<(Address, u64)>,
    pub validator_report_records: Vec<(Address, Vec<Address>)>,
}

impl View for SuiSystemStateSummary {
    type V = SystemStateModel;

    open spec fn view(&self) -> SystemStateModel {
        SystemStateModel {
            epoch: self.epoch,
            protocol_version: self.protocol_version,
            system_state_version: self.system_state_version,
            storage_fund_total_object_storage_rebates: self.storage_fund_total_object_storage_rebates,
            storage_fund_non_refundable_balance: self.storage_fund_non_refundable_balance,
            reference_gas_price: self.reference_gas_price,
            safe_mode: self.safe_mode,
            safe_mode_storage_rewards: self.safe_mode_storage_rewards,
            safe_mode_computation_rewards: self.safe_mode_computation_rewards,
            safe_mode_storage_rebates: self.safe_mode_storage_rebates,
            safe_mode_non_refundable_storage_fee: self.safe_mode_non_refundable_storage_fee,
            epoch_start_timestamp_ms: self.epoch_start_timestamp_ms,
            epoch_duration_ms: self.epoch_duration_ms,
            stake_subsidy_start_epoch: self.stake_subsidy_start_epoch,
            max_validator_count: self.max_validator_count,
            min_validator_joining_stake: self.min_validator_joining_stake,
            validator_low_stake_threshold: self.validator_low_stake_threshold,
            validator_very_low_stake_threshold: self.validator_very_low_stake_threshold,
            validator_low_stake_grace_period: self.validator_low_stake_grace_period,
            stake_subsidy_balance: self.stake_subsidy_balance,
            stake_subsidy_distribution_counter: self.stake_subsidy_distribution_counter,
            stake_subsidy_current_distribution_amount: self.stake_subsidy_current_distribution_amount,
            stake_subsidy_period_length: self.stake_subsidy_period_length,
            stake_subsidy_decrease_rate: self.stake_subsidy_decrease_rate,
            total_stake: self.total_stake,
            active_validators: self.active_validators.deep_view(),
            pending_active_validators_id: self.pending_active_validators_id@,
            pending_active_validators_size: self.pending_active_validators_size,
            pending_removals: self.pending_removals@,
            staking_pool_mappings_id: self.staking_pool_mappings_id@,
            staking_pool_mappings_size: self.staking_pool_mappings_size,
            inactive_pools_id: self.inactive_pools_id@,
            inactive_pools_size: self.inactive_pools_size,
            validator_candidates_id: self.validator_candidates_id@,
            validator_candidates_size: self.validator_candidates_size,
            at_risk_validators: self.at_risk_validators.deep_view(),
            validator_report_records: self.validator_report_records.deep_view(),
        }
    }
}

impl SuiSystemStateSummary {
    /// Whether every active validator's key material is well-formed.
    /// A well-formed upstream state guarantees this; the projection
    /// succeeds exactly when it holds.
    pub open spec fn keys_wf(&self) -> bool {
        forall|i: int|
            0 <= i < self.active_validators@.len() ==> (
            #[trigger] self.active_validators@[i]).keys_wf()
    }
}

} // verus!
