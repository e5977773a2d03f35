use sui_rest_api::state::{SuiSystemStateSummary, SuiValidatorSummary};
use sui_rest_api::summary::{
    project_epoch, project_validator, unproject_epoch, unproject_validator,
};
use sui_rest_api::types::{Address, ObjectId};

fn sample_address(tag: u8) -> Address {
    Address::new(vec![tag; 32])
}

fn sample_object_id(tag: u8) -> ObjectId {
    ObjectId::new(vec![tag; 32])
}

fn sample_validator(tag: u8, with_next_epoch: bool) -> SuiValidatorSummary {
    SuiValidatorSummary {
        sui_address: sample_address(tag),
        protocol_pubkey_bytes: vec![tag; 96],
        network_pubkey_bytes: vec![tag.wrapping_add(1); 32],
        worker_pubkey_bytes: vec![tag.wrapping_add(2); 32],
        proof_of_possession_bytes: vec![tag.wrapping_add(3); 48],
        name: format!("validator-{}", tag),
        description: format!("description-{}", tag),
        image_url: format!("https://img.example/{}", tag),
        project_url: format!("https://proj.example/{}", tag),
        net_address: format!("/dns/net{}/tcp/8080", tag),
        p2p_address: format!("/dns/p2p{}/udp/8084", tag),
        primary_address: format!("/dns/primary{}/udp/8081", tag),
        worker_address: format!("/dns/worker{}/udp/8082", tag),
        next_epoch_protocol_pubkey_bytes: if with_next_epoch {
            Some(vec![tag.wrapping_add(4); 96])
        } else {
            None
        },
        next_epoch_proof_of_possession: if with_next_epoch {
            Some(vec![tag.wrapping_add(5); 48])
        } else {
            None
        },
        next_epoch_network_pubkey_bytes: if with_next_epoch {
            Some(vec![tag.wrapping_add(6); 32])
        } else {
            None
        },
        next_epoch_worker_pubkey_bytes: if with_next_epoch {
            Some(vec![tag.wrapping_add(7); 32])
        } else {
            None
        },
        next_epoch_net_address: if with_next_epoch {
            Some(format!("/dns/nextnet{}/tcp/8080", tag))
        } else {
            None
        },
        next_epoch_p2p_address: if with_next_epoch {
            Some(format!("/dns/nextp2p{}/udp/8084", tag))
        } else {
            None
        },
        next_epoch_primary_address: if with_next_epoch {
            Some(format!("/dns/nextprimary{}/udp/8081", tag))
        } else {
            None
        },
        next_epoch_worker_address: if with_next_epoch {
            Some(format!("/dns/nextworker{}/udp/8082", tag))
        } else {
            None
        },
        voting_power: 100 + tag as u64,
        operation_cap_id: sample_object_id(tag.wrapping_add(8)),
        gas_price: 1000,
        commission_rate: 200,
        next_epoch_stake: 20_000_000_000,
        next_epoch_gas_price: 1100,
        next_epoch_commission_rate: 250,
        staking_pool_id: sample_object_id(tag.wrapping_add(9)),
        staking_pool_activation_epoch: Some(0),
        staking_pool_deactivation_epoch: None,
        staking_pool_sui_balance: 20_000_000_000_000,
        rewards_pool: 1_000_000_000,
        pool_token_balance: 19_000_000_000_000,
        pending_stake: 0,
        pending_total_sui_withdraw: 0,
        pending_pool_token_withdraw: 0,
        exchange_rates_id: sample_object_id(tag.wrapping_add(10)),
        exchange_rates_size: 12,
    }
}

fn sample_state(validators: Vec<SuiValidatorSummary>) -> SuiSystemStateSummary {
    SuiSystemStateSummary {
        epoch: 7,
        protocol_version: 35,
        system_state_version: 2,
        storage_fund_total_object_storage_rebates: 5_000_000,
        storage_fund_non_refundable_balance: 3_000_000,
        reference_gas_price: 750,
        safe_mode: false,
        safe_mode_storage_rewards: 0,
        safe_mode_computation_rewards: 0,
        safe_mode_storage_rebates: 0,
        safe_mode_non_refundable_storage_fee: 0,
        epoch_start_timestamp_ms: 1_700_000_000_000,
        epoch_duration_ms: 86_400_000,
        stake_subsidy_start_epoch: 0,
        max_validator_count: 150,
        min_validator_joining_stake: 30_000_000_000_000,
        validator_low_stake_threshold: 20_000_000_000_000,
        validator_very_low_stake_threshold: 15_000_000_000_000,
        validator_low_stake_grace_period: 7,
        stake_subsidy_balance: 1_000_000_000_000,
        stake_subsidy_distribution_counter: 5,
        stake_subsidy_current_distribution_amount: 333_333,
        stake_subsidy_period_length: 10,
        stake_subsidy_decrease_rate: 1000,
        total_stake: 60_000_000_000_000,
        active_validators: validators,
        pending_active_validators_id: sample_object_id(101),
        pending_active_validators_size: 2,
        pending_removals: vec![1, 0],
        staking_pool_mappings_id: sample_object_id(102),
        staking_pool_mappings_size: 3,
        inactive_pools_id: sample_object_id(103),
        inactive_pools_size: 1,
        validator_candidates_id: sample_object_id(104),
        validator_candidates_size: 4,
        at_risk_validators: vec![(sample_address(51), 2), (sample_address(52), 1)],
        validator_report_records: vec![
            (sample_address(53), vec![sample_address(54), sample_address(55)]),
            (sample_address(54), vec![sample_address(53)]),
        ],
    }
}

#[test]
fn validator_round_trip_reproduces_every_field() {
    let original = sample_validator(9, true);
    let wire = project_validator(original.clone()).expect("well-formed keys must project");
    let back = unproject_validator(wire);
    assert_eq!(back, original);
}

#[test]
fn validator_round_trip_without_scheduled_changes() {
    let original = sample_validator(3, false);
    let wire = project_validator(original.clone()).expect("well-formed keys must project");
    let back = unproject_validator(wire);
    assert_eq!(back, original);
}

#[test]
fn epoch_round_trip_reproduces_every_field() {
    let original = sample_state(vec![
        sample_validator(1, false),
        sample_validator(2, true),
    ]);
    let wire = project_epoch(original.clone()).expect("well-formed state must project");
    let back = unproject_epoch(wire);
    assert_eq!(back, original);
}

#[test]
fn projection_renames_and_preserves_key_bytes() {
    let original = sample_validator(5, true);
    let wire = project_validator(original.clone()).unwrap();
    assert_eq!(wire.address.bytes, original.sui_address.bytes);
    assert_eq!(wire.protocol_public_key.bytes, original.protocol_pubkey_bytes);
    assert_eq!(wire.network_public_key.bytes, original.network_pubkey_bytes);
    assert_eq!(wire.worker_public_key.bytes, original.worker_pubkey_bytes);
    assert_eq!(wire.proof_of_possession_bytes, original.proof_of_possession_bytes);
    assert_eq!(wire.name, original.name);
    assert_eq!(wire.operation_cap_id.bytes, original.operation_cap_id.bytes);
    assert_eq!(wire.staking_pool_id.bytes, original.staking_pool_id.bytes);
    assert_eq!(wire.exchange_rates_id.bytes, original.exchange_rates_id.bytes);
}

#[test]
fn absent_next_epoch_fields_stay_absent() {
    let original = sample_validator(4, false);
    let wire = project_validator(original).unwrap();
    assert!(wire.next_epoch_protocol_public_key.is_none());
    assert!(wire.next_epoch_network_public_key.is_none());
    assert!(wire.next_epoch_worker_public_key.is_none());
    assert!(wire.next_epoch_proof_of_possession.is_none());
    assert!(wire.next_epoch_net_address.is_none());
    assert!(wire.next_epoch_p2p_address.is_none());
    assert!(wire.next_epoch_primary_address.is_none());
    assert!(wire.next_epoch_worker_address.is_none());
}

#[test]
fn present_next_epoch_fields_keep_exact_content() {
    let original = sample_validator(6, true);
    let wire = project_validator(original.clone()).unwrap();
    assert_eq!(
        wire.next_epoch_protocol_public_key.as_ref().map(|k| k.bytes.clone()),
        original.next_epoch_protocol_pubkey_bytes
    );
    assert_eq!(
        wire.next_epoch_network_public_key.as_ref().map(|k| k.bytes.clone()),
        original.next_epoch_network_pubkey_bytes
    );
    assert_eq!(
        wire.next_epoch_worker_public_key.as_ref().map(|k| k.bytes.clone()),
        original.next_epoch_worker_pubkey_bytes
    );
    assert_eq!(
        wire.next_epoch_proof_of_possession,
        original.next_epoch_proof_of_possession
    );
    assert_eq!(wire.next_epoch_net_address, original.next_epoch_net_address);
    assert_eq!(wire.next_epoch_p2p_address, original.next_epoch_p2p_address);
    assert_eq!(wire.next_epoch_primary_address, original.next_epoch_primary_address);
    assert_eq!(wire.next_epoch_worker_address, original.next_epoch_worker_address);
}

#[test]
fn active_validator_order_is_preserved() {
    let a = sample_validator(10, false);
    let b = sample_validator(20, true);
    let c = sample_validator(30, false);
    let state = sample_state(vec![a.clone(), b.clone(), c.clone()]);
    let wire = project_epoch(state).unwrap();
    assert_eq!(wire.active_validators.len(), 3);
    assert_eq!(wire.active_validators[0].name, a.name);
    assert_eq!(wire.active_validators[1].name, b.name);
    assert_eq!(wire.active_validators[2].name, c.name);
    assert_eq!(wire.active_validators[0].address.bytes, a.sui_address.bytes);
    assert_eq!(wire.active_validators[1].address.bytes, b.sui_address.bytes);
    assert_eq!(wire.active_validators[2].address.bytes, c.sui_address.bytes);
}

#[test]
fn paired_collections_keep_pairing_and_order() {
    let state = sample_state(vec![]);
    let wire = project_epoch(state.clone()).unwrap();
    assert_eq!(wire.pending_removals, state.pending_removals);
    assert_eq!(wire.at_risk_validators, state.at_risk_validators);
    assert_eq!(wire.validator_report_records, state.validator_report_records);
}

#[test]
fn truncated_protocol_key_fails_whole_conversion() {
    let mut bad = sample_validator(8, false);
    bad.protocol_pubkey_bytes = vec![8; 95];
    assert!(project_validator(bad).is_err());
}

#[test]
fn oversized_network_key_fails_whole_conversion() {
    let mut bad = sample_validator(8, false);
    bad.network_pubkey_bytes = vec![8; 33];
    assert!(project_validator(bad).is_err());
}

#[test]
fn bad_scheduled_key_fails_whole_conversion() {
    let mut bad = sample_validator(8, true);
    bad.next_epoch_worker_pubkey_bytes = Some(vec![8; 31]);
    assert!(project_validator(bad).is_err());
}

#[test]
fn one_bad_validator_fails_whole_snapshot() {
    let good = sample_validator(1, false);
    let mut bad = sample_validator(2, false);
    bad.worker_pubkey_bytes = vec![2; 16];
    let state = sample_state(vec![good, bad]);
    assert!(project_epoch(state).is_err());
}

#[test]
fn empty_validator_set_projects() {
    let state = sample_state(vec![]);
    let wire = project_epoch(state.clone()).unwrap();
    assert!(wire.active_validators.is_empty());
    assert_eq!(wire.epoch, state.epoch);
    assert_eq!(wire.total_stake, state.total_stake);
}
