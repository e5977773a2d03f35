//! Mathematical models of the snapshot records.
//!
//! Both sides of the projection, the internal record and the wire
//! summary, abstract to the same model: a field-for-field image of the
//! snapshot in which byte strings are `Seq<u8>`, text is `Seq<char>`, and
//! scheduled-change fields keep their explicit present/absent structure.
//! Each concrete type's `view` function documents its field-rename
//! mapping onto this model; that the projection preserves the model is
//! the statement of its structural fidelity.

use vstd::prelude::*;

verus! {

/// Model of one per-validator record. Every "next epoch" field is
/// `Option`: `None` means no change is scheduled for the next epoch
/// boundary, which is distinct from a scheduled change to an empty value.
#[verifier::ext_equal]
pub ghost struct ValidatorModel {
    pub address: Seq<u8>,
    pub protocol_public_key: Seq<u8>,
    pub network_public_key: Seq<u8>,
    pub worker_public_key: Seq<u8>,
    pub proof_of_possession_bytes: Seq<u8>,
    pub name: Seq<char>,
    pub description: Seq<char>,
    pub image_url: Seq<char>,
    pub project_url: Seq<char>,
    pub net_address: Seq<char>,
    pub p2p_address: Seq<char>,
    pub primary_address: Seq<char>,
    pub worker_address: Seq<char>,
    pub next_epoch_protocol_public_key: Option<Seq<u8>>,
    pub next_epoch_network_public_key: Option<Seq<u8>>,
    pub next_epoch_worker_public_key: Option<Seq<u8>>,
    pub next_epoch_proof_of_possession: Option<Seq<u8>>,
    pub next_epoch_net_address: Option<Seq<char>>,
    pub next_epoch_p2p_address: Option<Seq<char>>,
    pub next_epoch_primary_address: Option<Seq<char>>,
    pub next_epoch_worker_address: Option<Seq<char>>,
    pub voting_power: u64,
    pub operation_cap_id: Seq<u8>,
    pub gas_price: u64,
    pub commission_rate: u64,
    pub next_epoch_stake: u64,
    pub next_epoch_gas_price: u64,
    pub next_epoch_commission_rate: u64,
    pub staking_pool_id: Seq<u8>,
    pub staking_pool_activation_epoch: Option<u64>,
    pub staking_pool_deactivation_epoch: Option<u64>,
    pub staking_pool_sui_balance: u64,
    pub rewards_pool: u64,
    pub pool_token_balance: u64,
    pub pending_stake: u64,
    pub pending_total_sui_withdraw: u64,
    pub pending_pool_token_withdraw: u64,
    pub exchange_rates_id: Seq<u8>,
    pub exchange_rates_size: u64,
}

/// Model of the whole epoch snapshot. The active-validator list is kept
/// in source order; address-keyed auxiliary maps are sequences of pairs
/// in source order. Unbounded auxiliary collections never appear inline:
/// only their identifier and size do.
#[verifier::ext_equal]
pub ghost struct SystemStateModel {
    pub epoch: u64,
    pub protocol_version: u64,
    pub system_state_version: u64,
    pub storage_fund_total_object_storage_rebates: u64,
    pub storage_fund_non_refundable_balance: u64,
    pub reference_gas_price: u64,
    pub safe_mode: bool,
    pub safe_mode_storage_rewards: u64,
    pub safe_mode_computation_rewards: u64,
    pub safe_mode_storage_rebates: u64,
    pub safe_mode_non_refundable_storage_fee: u64,
    pub epoch_start_timestamp_ms: u64,
    pub epoch_duration_ms: u64,
    pub stake_subsidy_start_epoch: u64,
    pub max_validator_count: u64,
    pub min_validator_joining_stake: u64,
    pub validator_low_stake_threshold: u64,
    pub validator_very_low_stake_threshold: u64,
    pub validator_low_stake_grace_period: u64,
    pub stake_subsidy_balance: u64,
    pub stake_subsidy_distribution_counter: u64,
    pub stake_subsidy_current_distribution_amount: u64,
    pub stake_subsidy_period_length: u64,
    pub stake_subsidy_decrease_rate: u16,
    pub total_stake: u64,
    pub active_validators: Seq<ValidatorModel>,
    pub pending_active_validators_id: Seq<u8>,
    pub pending_active_validators_size: u64,
    pub pending_removals: Seq<u64>,
    pub staking_pool_mappings_id: Seq<u8>,
    pub staking_pool_mappings_size: u64,
    pub inactive_pools_id: Seq<u8>,
    pub inactive_pools_size: u64,
    pub validator_candidates_id: Seq<u8>,
    pub validator_candidates_size: u64,
    pub at_risk_validators: Seq<(Seq<u8>, u64)>,
    pub validator_report_records: Seq<(Seq<u8>, Seq<Seq<u8>>)>,
}

} // verus!
