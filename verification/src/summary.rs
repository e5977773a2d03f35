//! The wire summary types and the projection onto them.
//!
//! `project_validator` and `project_epoch` are the only way a wire
//! summary is built: a pure structural transform that renames fields,
//! decodes raw key bytes into typed keys, and keeps every collection in
//! source order. Nothing is dropped, computed, sorted or deduplicated,
//! which the contracts state as view preservation: the output abstracts
//! to exactly the model of the input. The transform fails atomically,
//! with `MalformedKeyMaterial`, exactly when some key byte string has the
//! wrong length for its scheme; `unproject_validator` and
//! `unproject_epoch` invert it losslessly.

use vstd::prelude::*;

use crate::state::{SuiSystemStateSummary, SuiValidatorSummary};
use crate::types::{Address, Bls12381PublicKey, Ed25519PublicKey, MalformedKeyMaterial, ObjectId};
use crate::views::{SystemStateModel, ValidatorModel};

verus! {

broadcast use vstd::std_specs::vec::axiom_spec_into_iter;

/// One active validator in wire form. All previously nested internal
/// groupings (metadata, key material, staking-pool economics, voting
/// parameters) appear as a single flat record; key material is typed.
#[derive(Debug, Clone, PartialEq, Eq)]
pub struct ValidatorSummary {
    pub address: Address,
    pub protocol_public_key: Bls12381PublicKey,
    pub network_public_key: Ed25519PublicKey,
    pub worker_public_key: Ed25519PublicKey,
    pub proof_of_possession_bytes: Vec<u8>,
    pub name: String,
    pub description: String,
    pub image_url: String,
    pub project_url: String,
    pub net_address: String,
    pub p2p_address: String,
    pub primary_address: String,
    pub worker_address: String,
    pub next_epoch_protocol_public_key: Option<Bls12381PublicKey>,
    pub next_epoch_network_public_key: Option<Ed25519PublicKey>,
    pub next_epoch_worker_public_key: Option<Ed25519PublicKey>,
    pub next_epoch_proof_of_possession: Option<Vec<u8>>,
    pub next_epoch_net_address: Option<String>,
    pub next_epoch_p2p_address: Option<String>,
    pub next_epoch_primary_address: Option<String>,
    pub next_epoch_worker_address: Option<String>,
    pub voting_power: u64,
    pub operation_cap_id: ObjectId,
    pub gas_price: u64,
    pub commission_rate: u64,
    pub next_epoch_stake: u64,
    pub next_epoch_gas_price: u64,
    pub next_epoch_commission_rate: u64,
    pub staking_pool_id: ObjectId,
    pub staking_pool_activation_epoch: Option<u64>,
    pub staking_pool_deactivation_epoch: Option<u64>,
    pub staking_pool_sui_balance: u64,
    pub rewards_pool: u64,
    pub pool_token_balance: u64,
    pub pending_stake: u64,
    pub pending_total_sui_withdraw: u64,
    pub pending_pool_token_withdraw: u64,
    pub exchange_rates_id: ObjectId,
    pub exchange_rates_size: u64,
}

impl View for ValidatorSummary {
    type V = ValidatorModel;

    open spec fn view(&self) -> ValidatorModel {
        ValidatorModel {
            address: self.address@,
            protocol_public_key: self.protocol_public_key@,
            network_public_key: self.network_public_key@,
            worker_public_key: self.worker_public_key@,
            proof_of_possession_bytes: self.proof_of_possession_bytes@,
            name: self.name@,
            description: self.description@,
            image_url: self.image_url@,
            project_url: self.project_url@,
            net_address: self.net_address@,
            p2p_address: self.p2p_address@,
            primary_address: self.primary_address@,
            worker_address: self.worker_address@,
            next_epoch_protocol_public_key: self.next_epoch_protocol_public_key.deep_view(),
            next_epoch_network_public_key: self.next_epoch_network_public_key.deep_view(),
            next_epoch_worker_public_key: self.next_epoch_worker_public_key.deep_view(),
            next_epoch_proof_of_possession: self.next_epoch_proof_of_possession.deep_view(),
            next_epoch_net_address: self.next_epoch_net_address.deep_view(),
            next_epoch_p2p_address: self.next_epoch_p2p_address.deep_view(),
            next_epoch_primary_address: self.next_epoch_primary_address.deep_view(),
            next_epoch_worker_address: self.next_epoch_worker_address.deep_view(),
            voting_power: self.voting_power,
            operation_cap_id: self.operation_cap_id@,
            gas_price: self.gas_price,
            commission_rate: self.commission_rate,
            next_epoch_stake: self.next_epoch_stake,
            next_epoch_gas_price: self.next_epoch_gas_price,
            next_epoch_commission_rate: self.next_epoch_commission_rate,
            staking_pool_id: self.staking_pool_id@,
            staking_pool_activation_epoch: self.staking_pool_activation_epoch,
            staking_pool_deactivation_epoch: self.staking_pool_deactivation_epoch,
            staking_pool_sui_balance: self.staking_pool_sui_balance,
            rewards_pool: self.rewards_pool,
            pool_token_balance: self.pool_token_balance,
            pending_stake: self.pending_stake,
            pending_total_sui_withdraw: self.pending_total_sui_withdraw,
            pending_pool_token_withdraw: self.pending_pool_token_withdraw,
            exchange_rates_id: self.exchange_rates_id@,
            exchange_rates_size: self.exchange_rates_size,
        }
    }
}

impl DeepView for ValidatorSummary {
    type V = ValidatorModel;

    open spec fn deep_view(&self) -> ValidatorModel {
        self.view()
    }
}

impl ValidatorSummary {
    /// Every typed key, current and scheduled, carries bytes of the
    /// length its scheme demands.
    pub open spec fn wf(&self) -> bool {
        &&& self.protocol_public_key.wf()
        &&& self.network_public_key.wf()
        &&& self.worker_public_key.wf()
        &&& (self.next_epoch_protocol_public_key matches Some(k) ==> k.wf())
        &&& (self.next_epoch_network_public_key matches Some(k) ==> k.wf())
        &&& (self.next_epoch_worker_public_key matches Some(k) ==> k.wf())
    }
}

/// The epoch snapshot in wire form: a flattened record of one epoch's
/// global parameters with the active validator set embedded by value.
#[derive(Debug, Clone, PartialEq, Eq)]
pub struct SystemStateSummary {
    pub epoch: u64,
    pub protocol_version: u64,
    pub system_state_version: u64,
    pub storage_fund_total_object_storage_rebates: u64,
    pub storage_fund_non_refundable_balance: u64,
    pub reference_gas_price: u64,
    pub safe_mode: bool,
    pub safe_mode_storage_rewards: u64,
    pub safe_mode_computation_rewards: u64,
    pub safe_mode_storage_rebates: u64,
    pub safe_mode_non_refundable_storage_fee: u64,
    pub epoch_start_timestamp_ms: u64,
    pub epoch_duration_ms: u64,
    pub stake_subsidy_start_epoch: u64,
    pub max_validator_count: u64,
    pub min_validator_joining_stake: u64,
    pub validator_low_stake_threshold: u64,
    pub validator_very_low_stake_threshold: u64,
    pub validator_low_stake_grace_period: u64,
    pub stake_subsidy_balance: u64,
    pub stake_subsidy_distribution_counter: u64,
    pub stake_subsidy_current_distribution_amount: u64,
    pub stake_subsidy_period_length: u64,
    pub stake_subsidy_decrease_rate: u16,
    pub total_stake: u64,
    pub active_validators: Vec<ValidatorSummary>,
    pub pending_active_validators_id: ObjectId,
    pub pending_active_validators_size: u64,
    pub pending_removals: Vec<u64>,
    pub staking_pool_mappings_id: ObjectId,
    pub staking_pool_mappings_size: u64,
    pub inactive_pools_id: ObjectId,
    pub inactive_pools_size: u64,
    pub validator_candidates_id: ObjectId,
    pub validator_candidates_size: u64,
    pub at_risk_validators: Vec<(Address, u64)>,
    pub validator_report_records: Vec<(Address, Vec<Address>)>,
}

impl View for SystemStateSummary {
    type V = SystemStateModel;

    open spec fn view(&self) -> SystemStateModel {
        SystemStateModel {
            epoch: self.epoch,
            protocol_version: self.protocol_version,
            system_state_version: self.system_state_version,
            storage_fund_total_object_storage_rebates: self.storage_fund_total_object_storage_rebates,
            storage_fund_non_refundable_balance: self.storage_fund_non_refundable_balance,
            reference_gas_price: self.reference_gas_price,
            safe_mode: self.safe_mode,
            safe_mode_storage_rewards: self.safe_mode_storage_rewards,
            safe_mode_computation_rewards: self.safe_mode_computation_rewards,
            safe_mode_storage_rebates: self.safe_mode_storage_rebates,
            safe_mode_non_refundable_storage_fee: self.safe_mode_non_refundable_storage_fee,
            epoch_start_timestamp_ms: self.epoch_start_timestamp_ms,
            epoch_duration_ms: self.epoch_duration_ms,
            stake_subsidy_start_epoch: self.stake_subsidy_start_epoch,
            max_validator_count: self.max_validator_count,
            min_validator_joining_stake: self.min_validator_joining_stake,
            validator_low_stake_threshold: self.validator_low_stake_threshold,
            validator_very_low_stake_threshold: self.validator_very_low_stake_threshold,
            validator_low_stake_grace_period: self.validator_low_stake_grace_period,
            stake_subsidy_balance: self.stake_subsidy_balance,
            stake_subsidy_distribution_counter: self.stake_subsidy_distribution_counter,
            stake_subsidy_current_distribution_amount: self.stake_subsidy_current_distribution_amount,
            stake_subsidy_period_length: self.stake_subsidy_period_length,
            stake_subsidy_decrease_rate: self.stake_subsidy_decrease_rate,
            total_stake: self.total_stake,
            active_validators: self.active_validators.deep_view(),
            pending_active_validators_id: self.pending_active_validators_id@,
            pending_active_validators_size: self.pending_active_validators_size,
            pending_removals: self.pending_removals@,
            staking_pool_mappings_id: self.staking_pool_mappings_id@,
            staking_pool_mappings_size: self.staking_pool_mappings_size,
            inactive_pools_id: self.inactive_pools_id@,
            inactive_pools_size: self.inactive_pools_size,
            validator_candidates_id: self.validator_candidates_id@,
            validator_candidates_size: self.validator_candidates_size,
            at_risk_validators: self.at_risk_validators.deep_view(),
            validator_report_records: self.validator_report_records.deep_view(),
        }
    }
}

impl SystemStateSummary {
    /// Every embedded validator summary is well-formed.
    pub open spec fn wf(&self) -> bool {
        forall|i: int|
            0 <= i < self.active_validators@.len() ==> (
            #[trigger] self.active_validators@[i]).wf()
    }
}

/// Projects one internal validator record into wire form: a field-for-
/// field re-shape that decodes the raw key bytes against their declared
/// schemes. Succeeds exactly when every key byte string, current and
/// scheduled, has its scheme's length, and then the wire record abstracts
/// to exactly the model of the input: nothing dropped, nothing defaulted,
/// presence and absence of every scheduled change preserved.
pub fn project_validator(v: SuiValidatorSummary) -> (r: Result<
    ValidatorSummary,
    MalformedKeyMaterial,
>)
    ensures
        r is Ok <==> v.keys_wf(),
        r matches Ok(s) ==> s@ == v@ && s.wf(),
{
    let SuiValidatorSummary {
        sui_address,
        protocol_pubkey_bytes,
        network_pubkey_bytes,
        worker_pubkey_bytes,
        proof_of_possession_bytes,
        name,
        description,
        image_url,
        project_url,
        net_address,
        p2p_address,
        primary_address,
        worker_address,
        next_epoch_protocol_pubkey_bytes,
        next_epoch_proof_of_possession,
        next_epoch_network_pubkey_bytes,
        next_epoch_worker_pubkey_bytes,
        next_epoch_net_address,
        next_epoch_p2p_address,
        next_epoch_primary_address,
        next_epoch_worker_address,
        voting_power,
        operation_cap_id,
        gas_price,
        commission_rate,
        next_epoch_stake,
        next_epoch_gas_price,
        next_epoch_commission_rate,
        staking_pool_id,
        staking_pool_activation_epoch,
        staking_pool_deactivation_epoch,
        staking_pool_sui_balance,
        rewards_pool,
        pool_token_balance,
        pending_stake,
        pending_total_sui_withdraw,
        pending_pool_token_withdraw,
        exchange_rates_id,
        exchange_rates_size,
    } = v;

    let protocol_public_key = match Bls12381PublicKey::from_bytes(protocol_pubkey_bytes) {
        Ok(k) => k,
        Err(e) => {
            return Err(e);
        },
    };
    let network_public_key = match Ed25519PublicKey::from_bytes(network_pubkey_bytes) {
        Ok(k) => k,
        Err(e) => {
            return Err(e);
        },
    };
    let worker_public_key = match Ed25519PublicKey::from_bytes(worker_pubkey_bytes) {
        Ok(k) => k,
        Err(e) => {
            return Err(e);
        },
    };
    let next_epoch_protocol_public_key = match next_epoch_protocol_pubkey_bytes {
        Some(bytes) => match Bls12381PublicKey::from_bytes(bytes) {
            Ok(k) => Some(k),
            Err(e) => {
                return Err(e);
            },
        },
        None => None,
    };
    let next_epoch_network_public_key = match next_epoch_network_pubkey_bytes {
        Some(bytes) => match Ed25519PublicKey::from_bytes(bytes) {
            Ok(k) => Some(k),
            Err(e) => {
                return Err(e);
            },
        },
        None => None,
    };
    let next_epoch_worker_public_key = match next_epoch_worker_pubkey_bytes {
        Some(bytes) => match Ed25519PublicKey::from_bytes(bytes) {
            Ok(k) => Some(k),
            Err(e) => {
                return Err(e);
            },
        },
        None => None,
    };

    let s = ValidatorSummary {
        address: sui_address,
        protocol_public_key,
        network_public_key,
        worker_public_key,
        proof_of_possession_bytes,
        name,
        description,
        image_url,
        project_url,
        net_address,
        p2p_address,
        primary_address,
        worker_address,
        next_epoch_protocol_public_key,
        next_epoch_network_public_key,
        next_epoch_worker_public_key,
        next_epoch_proof_of_possession,
        next_epoch_net_address,
        next_epoch_p2p_address,
        next_epoch_primary_address,
        next_epoch_worker_address,
        voting_power,
        operation_cap_id,
        gas_price,
        commission_rate,
        next_epoch_stake,
        next_epoch_gas_price,
        next_epoch_commission_rate,
        staking_pool_id,
        staking_pool_activation_epoch,
        staking_pool_deactivation_epoch,
        staking_pool_sui_balance,
        rewards_pool,
        pool_token_balance,
        pending_stake,
        pending_total_sui_withdraw,
        pending_pool_token_withdraw,
        exchange_rates_id,
        exchange_rates_size,
    };
    proof {
        assert(s@ =~= v@);
    }
    Ok(s)
}

/// Inverts `project_validator`: re-encodes the typed keys as the raw
/// byte strings they were decoded from. Total, and the result is a
/// well-formed internal record with the same model, so a projected
/// record converts back to the original field-for-field.
pub fn unproject_validator(s: ValidatorSummary) -> (v: SuiValidatorSummary)
    requires
        s.wf(),
    ensures
        v@ == s@,
        v.keys_wf(),
{
    let ValidatorSummary {
        address,
        protocol_public_key,
        network_public_key,
        worker_public_key,
        proof_of_possession_bytes,
        name,
        description,
        image_url,
        project_url,
        net_address,
        p2p_address,
        primary_address,
        worker_address,
        next_epoch_protocol_public_key,
        next_epoch_network_public_key,
        next_epoch_worker_public_key,
        next_epoch_proof_of_possession,
        next_epoch_net_address,
        next_epoch_p2p_address,
        next_epoch_primary_address,
        next_epoch_worker_address,
        voting_power,
        operation_cap_id,
        gas_price,
        commission_rate,
        next_epoch_stake,
        next_epoch_gas_price,
        next_epoch_commission_rate,
        staking_pool_id,
        staking_pool_activation_epoch,
        staking_pool_deactivation_epoch,
        staking_pool_sui_balance,
        rewards_pool,
        pool_token_balance,
        pending_stake,
        pending_total_sui_withdraw,
        pending_pool_token_withdraw,
        exchange_rates_id,
        exchange_rates_size,
    } = s;

    let next_epoch_protocol_pubkey_bytes = match next_epoch_protocol_public_key {
        Some(k) => Some(k.bytes),
        None => None,
    };
    let next_epoch_network_pubkey_bytes = match next_epoch_network_public_key {
        Some(k) => Some(k.bytes),
        None => None,
    };
    let next_epoch_worker_pubkey_bytes = match next_epoch_worker_public_key {
        Some(k) => Some(k.bytes),
        None => None,
    };

    let v = SuiValidatorSummary {
        sui_address: address,
        protocol_pubkey_bytes: protocol_public_key.bytes,
        network_pubkey_bytes: network_public_key.bytes,
        worker_pubkey_bytes: worker_public_key.bytes,
        proof_of_possession_bytes,
        name,
        description,
        image_url,
        project_url,
        net_address,
        p2p_address,
        primary_address,
        worker_address,
        next_epoch_protocol_pubkey_bytes,
        next_epoch_proof_of_possession,
        next_epoch_network_pubkey_bytes,
        next_epoch_worker_pubkey_bytes,
        next_epoch_net_address,
        next_epoch_p2p_address,
        next_epoch_primary_address,
        next_epoch_worker_address,
        voting_power,
        operation_cap_id,
        gas_price,
        commission_rate,
        next_epoch_stake,
        next_epoch_gas_price,
        next_epoch_commission_rate,
        staking_pool_id,
        staking_pool_activation_epoch,
        staking_pool_deactivation_epoch,
        staking_pool_sui_balance,
        rewards_pool,
        pool_token_balance,
        pending_stake,
        pending_total_sui_withdraw,
        pending_pool_token_withdraw,
        exchange_rates_id,
        exchange_rates_size,
    };
    proof {
        assert(v@ =~= s@);
    }
    v
}

/// Projects the whole internal epoch snapshot into wire form. Ordered
/// collections are converted element-wise in source order; the paired
/// auxiliary maps keep their pairing and order; opaque identifiers keep
/// their bytes. Succeeds exactly when every active validator's key
/// material is well-formed; otherwise the whole snapshot is rejected
/// atomically, with no partial result.
pub fn project_epoch(state: SuiSystemStateSummary) -> (r: Result<
    SystemStateSummary,
    MalformedKeyMaterial,
>)
    ensures
        r is Ok <==> state.keys_wf(),
        r matches Ok(s) ==> s@ == state@ && s.wf(),
{
    let SuiSystemStateSummary {
        epoch,
        protocol_version,
        system_state_version,
        storage_fund_total_object_storage_rebates,
        storage_fund_non_refundable_balance,
        reference_gas_price,
        safe_mode,
        safe_mode_storage_rewards,
        safe_mode_computation_rewards,
        safe_mode_storage_rebates,
        safe_mode_non_refundable_storage_fee,
        epoch_start_timestamp_ms,
        epoch_duration_ms,
        stake_subsidy_start_epoch,
        max_validator_count,
        min_validator_joining_stake,
        validator_low_stake_threshold,
        validator_very_low_stake_threshold,
        validator_low_stake_grace_period,
        stake_subsidy_balance,
        stake_subsidy_distribution_counter,
        stake_subsidy_current_distribution_amount,
        stake_subsidy_period_length,
        stake_subsidy_decrease_rate,
        total_stake,
        active_validators,
        pending_active_validators_id,
        pending_active_validators_size,
        pending_removals,
        staking_pool_mappings_id,
        staking_pool_mappings_size,
        inactive_pools_id,
        inactive_pools_size,
        validator_candidates_id,
        validator_candidates_size,
        at_risk_validators,
        validator_report_records,
    } = state;

    let ghost gvals = active_validators@;
    let mut validators: Vec<ValidatorSummary> = Vec::new();
    for v in iter: active_validators.into_iter()
        invariant
            gvals == state.active_validators@,
            iter.seq() == gvals,
            validators@.len() == iter.index(),
            forall|j: int|
                0 <= j < validators@.len() ==> ((#[trigger] validators@[j])@ == gvals[j]@
                    && validators@[j].wf()),
            forall|j: int| 0 <= j < iter.index() ==> (#[trigger] gvals[j]).keys_wf(),
    {
        proof {
            assert(v == gvals[iter.index()]);
        }
        match project_validator(v) {
            Ok(s) => validators.push(s),
            Err(e) => {
                return Err(e);
            },
        }
    }
    proof {
        assert(validators.deep_view() =~= state.active_validators.deep_view());
    }

    let s = SystemStateSummary {
        epoch,
        protocol_version,
        system_state_version,
        storage_fund_total_object_storage_rebates,
        storage_fund_non_refundable_balance,
        reference_gas_price,
        safe_mode,
        safe_mode_storage_rewards,
        safe_mode_computation_rewards,
        safe_mode_storage_rebates,
        safe_mode_non_refundable_storage_fee,
        epoch_start_timestamp_ms,
        epoch_duration_ms,
        stake_subsidy_start_epoch,
        max_validator_count,
        min_validator_joining_stake,
        validator_low_stake_threshold,
        validator_very_low_stake_threshold,
        validator_low_stake_grace_period,
        stake_subsidy_balance,
        stake_subsidy_distribution_counter,
        stake_subsidy_current_distribution_amount,
        stake_subsidy_period_length,
        stake_subsidy_decrease_rate,
        total_stake,
        active_validators: validators,
        pending_active_validators_id,
        pending_active_validators_size,
        pending_removals,
        staking_pool_mappings_id,
        staking_pool_mappings_size,
        inactive_pools_id,
        inactive_pools_size,
        validator_candidates_id,
        validator_candidates_size,
        at_risk_validators,
        validator_report_records,
    };
    proof {
        assert(s@ =~~= state@);
    }
    Ok(s)
}

/// Inverts `project_epoch` for a well-formed wire snapshot: the result
/// is an internal record with the same model, so projecting and
/// converting back reproduces the original snapshot field-for-field,
/// with no loss.
pub fn unproject_epoch(s: SystemStateSummary) -> (state: SuiSystemStateSummary)
    requires
        s.wf(),
    ensures
        state@ == s@,
        state.keys_wf(),
{
    let SystemStateSummary {
        epoch,
        protocol_version,
        system_state_version,
        storage_fund_total_object_storage_rebates,
        storage_fund_non_refundable_balance,
        reference_gas_price,
        safe_mode,
        safe_mode_storage_rewards,
        safe_mode_computation_rewards,
        safe_mode_storage_rebates,
        safe_mode_non_refundable_storage_fee,
        epoch_start_timestamp_ms,
        epoch_duration_ms,
        stake_subsidy_start_epoch,
        max_validator_count,
        min_validator_joining_stake,
        validator_low_stake_threshold,
        validator_very_low_stake_threshold,
        validator_low_stake_grace_period,
        stake_subsidy_balance,
        stake_subsidy_distribution_counter,
        stake_subsidy_current_distribution_amount,
        stake_subsidy_period_length,
        stake_subsidy_decrease_rate,
        total_stake,
        active_validators,
        pending_active_validators_id,
        pending_active_validators_size,
        pending_removals,
        staking_pool_mappings_id,
        staking_pool_mappings_size,
        inactive_pools_id,
        inactive_pools_size,
        validator_candidates_id,
        validator_candidates_size,
        at_risk_validators,
        validator_report_records,
    } = s;

    let ghost gvals = active_validators@;
    let mut records: Vec<SuiValidatorSummary> = Vec::new();
    for v in iter: active_validators.into_iter()
        invariant
            gvals == s.active_validators@,
            iter.seq() == gvals,
            records@.len() == iter.index(),
            forall|j: int| 0 <= j < gvals.len() ==> (#[trigger] gvals[j]).wf(),
            forall|j: int|
                0 <= j < records@.len() ==> ((#[trigger] records@[j])@ == gvals[j]@
                    && records@[j].keys_wf()),
    {
        proof {
            assert(v == gvals[iter.index()]);
        }
        let rec = unproject_validator(v);
        records.push(rec);
    }
    proof {
        assert(records.deep_view() =~= s.active_validators.deep_view());
    }

    let state = SuiSystemStateSummary {
        epoch,
        protocol_version,
        system_state_version,
        storage_fund_total_object_storage_rebates,
        storage_fund_non_refundable_balance,
        reference_gas_price,
        safe_mode,
        safe_mode_storage_rewards,
        safe_mode_computation_rewards,
        safe_mode_storage_rebates,
        safe_mode_non_refundable_storage_fee,
        epoch_start_timestamp_ms,
        epoch_duration_ms,
        stake_subsidy_start_epoch,
        max_validator_count,
        min_validator_joining_stake,
        validator_low_stake_threshold,
        validator_very_low_stake_threshold,
        validator_low_stake_grace_period,
        stake_subsidy_balance,
        stake_subsidy_distribution_counter,
        stake_subsidy_current_distribution_amount,
        stake_subsidy_period_length,
        stake_subsidy_decrease_rate,
        total_stake,
        active_validators: records,
        pending_active_validators_id,
        pending_active_validators_size,
        pending_removals,
        staking_pool_mappings_id,
        staking_pool_mappings_size,
        inactive_pools_id,
        inactive_pools_size,
        validator_candidates_id,
        validator_candidates_size,
        at_risk_validators,
        validator_report_records,
    };
    proof {
        assert(state@ =~~= s@);
    }
    state
}

/// Round-trip structural fidelity for one validator: the requirements
/// are exactly what `project_validator` and `unproject_validator`
/// guarantee, so an internal record converted to wire form and back
/// reproduces the original record's every field, with no loss beyond
/// the intentional re-shape.
pub proof fn lemma_validator_round_trip(
    original: SuiValidatorSummary,
    wire: ValidatorSummary,
    back: SuiValidatorSummary,
)
    requires
        wire@ == original@,
        back@ == wire@,
    ensures
        back.sui_address@ == original.sui_address@,
        back.protocol_pubkey_bytes@ == original.protocol_pubkey_bytes@,
        back.network_pubkey_bytes@ == original.network_pubkey_bytes@,
        back.worker_pubkey_bytes@ == original.worker_pubkey_bytes@,
        back.proof_of_possession_bytes@ == original.proof_of_possession_bytes@,
        back.name@ == original.name@,
        back.description@ == original.description@,
        back.image_url@ == original.image_url@,
        back.project_url@ == original.project_url@,
        back.net_address@ == original.net_address@,
        back.p2p_address@ == original.p2p_address@,
        back.primary_address@ == original.primary_address@,
        back.worker_address@ == original.worker_address@,
        back.next_epoch_protocol_pubkey_bytes.deep_view()
            == original.next_epoch_protocol_pubkey_bytes.deep_view(),
        back.next_epoch_network_pubkey_bytes.deep_view()
            == original.next_epoch_network_pubkey_bytes.deep_view(),
        back.next_epoch_worker_pubkey_bytes.deep_view()
            == original.next_epoch_worker_pubkey_bytes.deep_view(),
        back.next_epoch_proof_of_possession.deep_view()
            == original.next_epoch_proof_of_possession.deep_view(),
        back.next_epoch_net_address.deep_view() == original.next_epoch_net_address.deep_view(),
        back.next_epoch_p2p_address.deep_view() == original.next_epoch_p2p_address.deep_view(),
        back.next_epoch_primary_address.deep_view()
            == original.next_epoch_primary_address.deep_view(),
        back.next_epoch_worker_address.deep_view()
            == original.next_epoch_worker_address.deep_view(),
        back.voting_power == original.voting_power,
        back.operation_cap_id@ == original.operation_cap_id@,
        back.gas_price == original.gas_price,
        back.commission_rate == original.commission_rate,
        back.next_epoch_stake == original.next_epoch_stake,
        back.next_epoch_gas_price == original.next_epoch_gas_price,
        back.next_epoch_commission_rate == original.next_epoch_commission_rate,
        back.staking_pool_id@ == original.staking_pool_id@,
        back.staking_pool_activation_epoch == original.staking_pool_activation_epoch,
        back.staking_pool_deactivation_epoch == original.staking_pool_deactivation_epoch,
        back.staking_pool_sui_balance == original.staking_pool_sui_balance,
        back.rewards_pool == original.rewards_pool,
        back.pool_token_balance == original.pool_token_balance,
        back.pending_stake == original.pending_stake,
        back.pending_total_sui_withdraw == original.pending_total_sui_withdraw,
        back.pending_pool_token_withdraw == original.pending_pool_token_withdraw,
        back.exchange_rates_id@ == original.exchange_rates_id@,
        back.exchange_rates_size == original.exchange_rates_size,
{
}

/// Round-trip structural fidelity for the whole snapshot: the
/// requirements are exactly what `project_epoch` and `unproject_epoch`
/// guarantee, so a snapshot converted to wire form and back reproduces
/// every field, the validator list in its original order included.
pub proof fn lemma_epoch_round_trip(
    original: SuiSystemStateSummary,
    wire: SystemStateSummary,
    back: SuiSystemStateSummary,
)
    requires
        wire@ == original@,
        back@ == wire@,
    ensures
        back.epoch == original.epoch,
        back.protocol_version == original.protocol_version,
        back.system_state_version == original.system_state_version,
        back.storage_fund_total_object_storage_rebates
            == original.storage_fund_total_object_storage_rebates,
        back.storage_fund_non_refundable_balance == original.storage_fund_non_refundable_balance,
        back.reference_gas_price == original.reference_gas_price,
        back.safe_mode == original.safe_mode,
        back.safe_mode_storage_rewards == original.safe_mode_storage_rewards,
        back.safe_mode_computation_rewards == original.safe_mode_computation_rewards,
        back.safe_mode_storage_rebates == original.safe_mode_storage_rebates,
        back.safe_mode_non_refundable_storage_fee
            == original.safe_mode_non_refundable_storage_fee,
        back.epoch_start_timestamp_ms == original.epoch_start_timestamp_ms,
        back.epoch_duration_ms == original.epoch_duration_ms,
        back.stake_subsidy_start_epoch == original.stake_subsidy_start_epoch,
        back.max_validator_count == original.max_validator_count,
        back.min_validator_joining_stake == original.min_validator_joining_stake,
        back.validator_low_stake_threshold == original.validator_low_stake_threshold,
        back.validator_very_low_stake_threshold == original.validator_very_low_stake_threshold,
        back.validator_low_stake_grace_period == original.validator_low_stake_grace_period,
        back.stake_subsidy_balance == original.stake_subsidy_balance,
        back.stake_subsidy_distribution_counter == original.stake_subsidy_distribution_counter,
        back.stake_subsidy_current_distribution_amount
            == original.stake_subsidy_current_distribution_amount,
        back.stake_subsidy_period_length == original.stake_subsidy_period_length,
        back.stake_subsidy_decrease_rate == original.stake_subsidy_decrease_rate,
        back.total_stake == original.total_stake,
        back.active_validators.deep_view() == original.active_validators.deep_view(),
        back.pending_active_validators_id@ == original.pending_active_validators_id@,
        back.pending_active_validators_size == original.pending_active_validators_size,
        back.pending_removals@ == original.pending_removals@,
        back.staking_pool_mappings_id@ == original.staking_pool_mappings_id@,
        back.staking_pool_mappings_size == original.staking_pool_mappings_size,
        back.inactive_pools_id@ == original.inactive_pools_id@,
        back.inactive_pools_size == original.inactive_pools_size,
        back.validator_candidates_id@ == original.validator_candidates_id@,
        back.validator_candidates_size == original.validator_candidates_size,
        back.at_risk_validators.deep_view() == original.at_risk_validators.deep_view(),
        back.validator_report_records.deep_view()
            == original.validator_report_records.deep_view(),
{
}

} // verus!
