use pallet_smart_contract::contract_migration::{
    migrate_contract, migrate_rent_contract_storage, migrate_to_version_4, ContractMigrationV5,
    ContractV3Entry, PublicIpCheck, RentContractV3Entry, V4Limits,
};
use pallet_smart_contract::deprecated;
use pallet_smart_contract::types::{
    Cause, ContractData, ContractState, PublicIP, RentContract, StorageVersion,
};
use pallet_smart_contract::weights::RuntimeDbWeight;

const LIMITS: V4Limits = V4Limits { max_node_contract_public_ips: 2, max_deployment_data_length: 8 };
const DB: RuntimeDbWeight = RuntimeDbWeight { read: 25, write: 100 };
const OK: PublicIpCheck = PublicIpCheck { ip_valid: true, gateway_valid: true };

fn old_ip(n: u8) -> deprecated::PublicIP {
    deprecated::PublicIP { ip: vec![185, 206, 122, n], gateway: vec![185, 206, 122, 1], contract_id: 1 }
}

fn v3(contract_id: u64, contract_type: deprecated::ContractData) -> deprecated::ContractV3 {
    deprecated::ContractV3 {
        version: 3,
        state: ContractState::Created,
        contract_id,
        twin_id: 7,
        contract_type,
    }
}

fn node_entry(key: u64, ips: Vec<deprecated::PublicIP>, checks: Vec<PublicIpCheck>, data: Vec<u8>, hash: Vec<u8>) -> ContractV3Entry {
    ContractV3Entry {
        key,
        contract: v3(
            key,
            deprecated::ContractData::NodeContract(deprecated::NodeContract {
                node_id: 3,
                deployment_data: data,
                deployment_hash: hash,
                public_ips: ips.len() as u32,
                public_ips_list: ips,
            }),
        ),
        public_ip_checks: checks,
        name_valid: false,
    }
}

fn name_entry(key: u64, valid: bool) -> ContractV3Entry {
    ContractV3Entry {
        key,
        contract: v3(key, deprecated::ContractData::NameContract(deprecated::NameContract { name: b"foobar".to_vec() })),
        public_ip_checks: vec![],
        name_valid: valid,
    }
}

fn rent_entry(key: u64) -> ContractV3Entry {
    ContractV3Entry {
        key,
        contract: v3(key, deprecated::ContractData::RentContract(deprecated::RentContract { node_id: 9 })),
        public_ip_checks: vec![],
        name_valid: false,
    }
}

#[test]
fn test_migrate_node_contract_keeps_valid_data() {
    let hash: Vec<u8> = (0..32).collect();
    let e = node_entry(1, vec![old_ip(2), old_ip(3)], vec![OK, OK], vec![1, 2, 3], hash.clone());
    let m = migrate_contract(&e, &LIMITS).unwrap();
    assert_eq!(m.key, 1);
    assert!(!m.free_ips);
    assert_eq!(m.contract.version, 4);
    assert_eq!(m.contract.contract_id, 1);
    assert_eq!(m.contract.twin_id, 7);
    assert_eq!(m.contract.solution_provider_id, None);
    match m.contract.contract_type {
        ContractData::NodeContract(nc) => {
            assert_eq!(nc.node_id, 3);
            assert_eq!(nc.public_ips, 2);
            assert_eq!(nc.deployment_data, vec![1, 2, 3]);
            assert_eq!(nc.deployment_hash, hash);
            assert_eq!(
                nc.public_ips_list,
                vec![
                    PublicIP { ip: vec![185, 206, 122, 2], gateway: vec![185, 206, 122, 1], contract_id: 1 },
                    PublicIP { ip: vec![185, 206, 122, 3], gateway: vec![185, 206, 122, 1], contract_id: 1 },
                ]
            );
        },
        _ => panic!("not a node contract"),
    }
}

#[test]
fn test_migrate_node_contract_drops_invalid_data() {
    let bad_ip = PublicIpCheck { ip_valid: false, gateway_valid: true };
    let bad_gw = PublicIpCheck { ip_valid: true, gateway_valid: false };
    let e = node_entry(
        2,
        vec![old_ip(2), old_ip(3), old_ip(4)],
        vec![bad_ip, OK, bad_gw],
        vec![0; 9],
        vec![1; 31],
    );
    let m = migrate_contract(&e, &LIMITS).unwrap();
    assert!(m.free_ips);
    match m.contract.contract_type {
        ContractData::NodeContract(nc) => {
            assert_eq!(nc.public_ips_list.len(), 1);
            assert_eq!(nc.public_ips_list[0].ip, vec![185, 206, 122, 3]);
            assert_eq!(nc.deployment_data, Vec::<u8>::new());
            assert_eq!(nc.deployment_hash, vec![0; 32]);
            assert_eq!(nc.public_ips, 3);
        },
        _ => panic!("not a node contract"),
    }
}

#[test]
fn test_migrate_node_contract_ip_limit() {
    let e = node_entry(3, vec![old_ip(2), old_ip(3), old_ip(4)], vec![OK, OK, OK], vec![], vec![]);
    let m = migrate_contract(&e, &LIMITS).unwrap();
    assert!(m.free_ips);
    match m.contract.contract_type {
        ContractData::NodeContract(nc) => {
            assert_eq!(nc.public_ips_list.len(), 2);
            assert_eq!(nc.public_ips_list[1].ip, vec![185, 206, 122, 3]);
        },
        _ => panic!("not a node contract"),
    }
}

#[test]
fn test_migrate_name_contract() {
    let m = migrate_contract(&name_entry(4, true), &LIMITS).unwrap();
    assert!(!m.free_ips);
    match m.contract.contract_type {
        ContractData::NameContract(nc) => assert_eq!(nc.name, b"foobar".to_vec()),
        _ => panic!("not a name contract"),
    }
    assert!(migrate_contract(&name_entry(5, false), &LIMITS).is_none());
}

#[test]
fn test_migrate_rent_contract_and_state() {
    let mut e = rent_entry(6);
    e.contract.state = ContractState::Deleted(Cause::OutOfFunds);
    let m = migrate_contract(&e, &LIMITS).unwrap();
    assert_eq!(m.contract.contract_type, ContractData::RentContract(RentContract { node_id: 9 }));
    assert_eq!(m.contract.state, ContractState::Deleted(Cause::OutOfFunds));
}

#[test]
fn test_migrate_to_version_4() {
    let mut version = StorageVersion::V3;
    let entries = vec![name_entry(1, false), rent_entry(2), name_entry(3, true)];
    let (weight, migrated) = migrate_to_version_4(&mut version, &entries, &LIMITS, &DB);
    assert_eq!(version, StorageVersion::V4);
    let migrated = migrated.unwrap();
    assert_eq!(migrated.iter().map(|m| m.key).collect::<Vec<_>>(), vec![2, 3]);
    assert_eq!(weight, 25 * 3 + 100 * 3);
    // a second run does nothing
    let (weight, migrated) = migrate_to_version_4(&mut version, &entries, &LIMITS, &DB);
    assert_eq!(version, StorageVersion::V4);
    assert_eq!(weight, 0);
    assert!(migrated.is_none());
}

#[test]
fn test_migrate_rent_contract_storage() {
    let mut version = StorageVersion::V4;
    let entries = vec![
        RentContractV3Entry { node_id: 9, contract: rent_entry(2).contract },
        RentContractV3Entry { node_id: 10, contract: rent_entry(5).contract },
    ];
    let (weight, migrated) = migrate_rent_contract_storage(&mut version, &entries, &DB);
    assert_eq!(version, StorageVersion::V5);
    assert_eq!(migrated, Some(vec![(9, 2), (10, 5)]));
    assert_eq!(weight, 25 * 3 + 100 * 3);
    let mut v3 = StorageVersion::V3;
    assert_eq!(migrate_rent_contract_storage(&mut v3, &entries, &DB), (0, None));
    assert_eq!(v3, StorageVersion::V3);
    // a second run does nothing
    assert_eq!(migrate_rent_contract_storage(&mut version, &entries, &DB), (0, None));
    assert_eq!(version, StorageVersion::V5);
}

#[test]
fn test_runtime_upgrade_from_v4_migrates_rent_contracts_only() {
    let mut version = StorageVersion::V4;
    let rent = vec![
        RentContractV3Entry { node_id: 9, contract: rent_entry(2).contract },
        RentContractV3Entry { node_id: 4, contract: rent_entry(8).contract },
    ];
    let out = ContractMigrationV5::on_runtime_upgrade(&mut version, &vec![rent_entry(1)], &rent, &LIMITS, &DB);
    assert_eq!(version, StorageVersion::V5);
    assert!(out.contracts.is_none());
    assert_eq!(out.active_rent_contracts, Some(vec![(9, 2), (4, 8)]));
    assert_eq!(out.weight, 25 * 3 + 100 * 3);
}

#[test]
fn test_runtime_upgrade_from_v3() {
    let mut version = StorageVersion::V3;
    assert!(ContractMigrationV5::pre_upgrade(version).is_ok());
    let entries = vec![rent_entry(2), node_entry(4, vec![old_ip(2)], vec![OK], vec![], vec![])];
    let rent = vec![RentContractV3Entry { node_id: 9, contract: rent_entry(2).contract }];
    let out = ContractMigrationV5::on_runtime_upgrade(&mut version, &entries, &rent, &LIMITS, &DB);
    assert_eq!(version, StorageVersion::V5);
    assert_eq!(out.contracts.unwrap().len(), 2);
    assert_eq!(out.active_rent_contracts, Some(vec![(9, 2)]));
    assert_eq!(out.weight, (25 * 3 + 100 * 3) + (25 * 2 + 100 * 2));
    // a second upgrade does nothing
    let again = ContractMigrationV5::on_runtime_upgrade(&mut version, &entries, &rent, &LIMITS, &DB);
    assert_eq!(again.weight, 0);
    assert!(again.contracts.is_none() && again.active_rent_contracts.is_none());
    assert!(ContractMigrationV5::post_upgrade(version).is_ok());
}

#[test]
fn test_runtime_upgrade_from_v5_does_nothing() {
    let mut version = StorageVersion::V5;
    let out = ContractMigrationV5::on_runtime_upgrade(&mut version, &vec![], &vec![], &LIMITS, &DB);
    assert_eq!(version, StorageVersion::V5);
    assert_eq!(out.weight, 0);
    assert!(out.contracts.is_none() && out.active_rent_contracts.is_none());
}

#[test]
fn test_reads_writes_saturates() {
    assert_eq!(DB.reads_writes(2, 3), 350);
    let heavy = RuntimeDbWeight { read: u64::MAX / 2, write: u64::MAX / 2 };
    assert_eq!(heavy.reads_writes(3, 1), u64::MAX);
}

#[test]
fn test_deprecated_default_is_empty_node_contract() {
    match deprecated::ContractData::default() {
        deprecated::ContractData::NodeContract(nc) => {
            assert_eq!(nc.node_id, 0);
            assert!(nc.public_ips_list.is_empty());
        },
        _ => panic!("not a node contract"),
    }
}
