use sui_rest_api::codec::encode_u64_decimal;
use sui_rest_api::handler::{
    check_accept, get_system_state_summary, AcceptFormat, ProviderError, RestError,
};
use sui_rest_api::state::{SuiSystemStateSummary, SuiValidatorSummary};
use sui_rest_api::types::{Address, ObjectId};

fn plain_validator(tag: u8) -> SuiValidatorSummary {
    SuiValidatorSummary {
        sui_address: Address::new(vec![tag; 32]),
        protocol_pubkey_bytes: vec![tag; 96],
        network_pubkey_bytes: vec![tag; 32],
        worker_pubkey_bytes: vec![tag; 32],
        proof_of_possession_bytes: vec![tag; 48],
        name: format!("node-{}", tag),
        description: String::new(),
        image_url: String::new(),
        project_url: String::new(),
        net_address: format!("/dns/node{}/tcp/8080", tag),
        p2p_address: format!("/dns/node{}/udp/8084", tag),
        primary_address: format!("/dns/node{}/udp/8081", tag),
        worker_address: format!("/dns/node{}/udp/8082", tag),
        next_epoch_protocol_pubkey_bytes: None,
        next_epoch_proof_of_possession: None,
        next_epoch_network_pubkey_bytes: None,
        next_epoch_worker_pubkey_bytes: None,
        next_epoch_net_address: None,
        next_epoch_p2p_address: None,
        next_epoch_primary_address: None,
        next_epoch_worker_address: None,
        voting_power: 10000,
        operation_cap_id: ObjectId::new(vec![tag; 32]),
        gas_price: 1000,
        commission_rate: 0,
        next_epoch_stake: 0,
        next_epoch_gas_price: 1000,
        next_epoch_commission_rate: 0,
        staking_pool_id: ObjectId::new(vec![tag; 32]),
        staking_pool_activation_epoch: None,
        staking_pool_deactivation_epoch: None,
        staking_pool_sui_balance: 0,
        rewards_pool: 0,
        pool_token_balance: 0,
        pending_stake: 0,
        pending_total_sui_withdraw: 0,
        pending_pool_token_withdraw: 0,
        exchange_rates_id: ObjectId::new(vec![tag; 32]),
        exchange_rates_size: 0,
    }
}

fn safe_mode_state() -> SuiSystemStateSummary {
    SuiSystemStateSummary {
        epoch: 42,
        protocol_version: 1,
        system_state_version: 1,
        storage_fund_total_object_storage_rebates: 0,
        storage_fund_non_refundable_balance: 0,
        reference_gas_price: 1000,
        safe_mode: true,
        safe_mode_storage_rewards: u64::MAX,
        safe_mode_computation_rewards: 11,
        safe_mode_storage_rebates: 12,
        safe_mode_non_refundable_storage_fee: 13,
        epoch_start_timestamp_ms: 0,
        epoch_duration_ms: 86_400_000,
        stake_subsidy_start_epoch: 0,
        max_validator_count: 150,
        min_validator_joining_stake: 0,
        validator_low_stake_threshold: 0,
        validator_very_low_stake_threshold: 0,
        validator_low_stake_grace_period: 7,
        stake_subsidy_balance: 0,
        stake_subsidy_distribution_counter: 0,
        stake_subsidy_current_distribution_amount: 0,
        stake_subsidy_period_length: 10,
        stake_subsidy_decrease_rate: 1000,
        total_stake: 0,
        active_validators: vec![plain_validator(1)],
        pending_active_validators_id: ObjectId::new(vec![0; 32]),
        pending_active_validators_size: 0,
        pending_removals: vec![],
        staking_pool_mappings_id: ObjectId::new(vec![0; 32]),
        staking_pool_mappings_size: 0,
        inactive_pools_id: ObjectId::new(vec![0; 32]),
        inactive_pools_size: 0,
        validator_candidates_id: ObjectId::new(vec![0; 32]),
        validator_candidates_size: 0,
        at_risk_validators: vec![],
        validator_report_records: vec![],
    }
}

#[test]
fn binary_only_request_is_rejected_without_a_read() {
    // The format check runs before any provider read.
    assert_eq!(check_accept(AcceptFormat::Bcs), Err(RestError::UnsupportedFormat));
    assert_eq!(check_accept(AcceptFormat::Json), Ok(()));
}

#[test]
fn binary_only_request_gets_unsupported_format_whatever_the_state() {
    let r = get_system_state_summary(AcceptFormat::Bcs, Ok(safe_mode_state()));
    assert!(matches!(r, Err(RestError::UnsupportedFormat)));
    let r = get_system_state_summary(
        AcceptFormat::Bcs,
        Err(ProviderError::ReadFailure),
    );
    assert!(matches!(r, Err(RestError::UnsupportedFormat)));
}

#[test]
fn provider_failure_is_propagated_unchanged() {
    let r = get_system_state_summary(
        AcceptFormat::Json,
        Err(ProviderError::NotYetInitialized),
    );
    assert_eq!(
        r.err(),
        Some(RestError::StateUnavailable(ProviderError::NotYetInitialized))
    );
    let r = get_system_state_summary(AcceptFormat::Json, Err(ProviderError::ReadFailure));
    assert_eq!(
        r.err(),
        Some(RestError::StateUnavailable(ProviderError::ReadFailure))
    );
}

#[test]
fn corrupt_key_material_is_distinguishable_from_unavailability() {
    let mut state = safe_mode_state();
    state.active_validators[0].protocol_pubkey_bytes = vec![1; 10];
    let r = get_system_state_summary(AcceptFormat::Json, Ok(state));
    assert_eq!(r.err(), Some(RestError::MalformedKeyMaterial));
}

#[test]
fn status_codes_follow_the_error_taxonomy() {
    assert_eq!(RestError::UnsupportedFormat.status_code(), 400);
    assert_eq!(
        RestError::StateUnavailable(ProviderError::NotYetInitialized).status_code(),
        404
    );
    assert_eq!(
        RestError::StateUnavailable(ProviderError::ReadFailure).status_code(),
        500
    );
    assert_eq!(RestError::MalformedKeyMaterial.status_code(), 500);
}

#[test]
fn safe_mode_snapshot_serves_exact_wire_values() {
    let summary = get_system_state_summary(AcceptFormat::Json, Ok(safe_mode_state()))
        .expect("well-formed state must be served");
    assert_eq!(encode_u64_decimal(summary.epoch), "42");
    assert!(summary.safe_mode);
    assert_eq!(
        encode_u64_decimal(summary.safe_mode_storage_rewards),
        "18446744073709551615"
    );
    let v = &summary.active_validators[0];
    assert!(v.next_epoch_protocol_public_key.is_none());
    assert!(v.next_epoch_network_public_key.is_none());
    assert!(v.next_epoch_worker_public_key.is_none());
    assert!(v.next_epoch_proof_of_possession.is_none());
    assert!(v.next_epoch_net_address.is_none());
    assert!(v.next_epoch_p2p_address.is_none());
    assert!(v.next_epoch_primary_address.is_none());
    assert!(v.next_epoch_worker_address.is_none());
}

#[test]
fn safe_mode_accumulators_pass_through_unconditionally() {
    let summary = get_system_state_summary(AcceptFormat::Json, Ok(safe_mode_state())).unwrap();
    assert_eq!(summary.safe_mode_computation_rewards, 11);
    assert_eq!(summary.safe_mode_storage_rebates, 12);
    assert_eq!(summary.safe_mode_non_refundable_storage_fee, 13);
}
