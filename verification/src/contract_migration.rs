//! The migrations of the contract storage from version 3 to version 5.
//!
//! Version 4 bounds the data of contracts: a node contract keeps at most a
//! configured number of public IPs, whose bytes must parse as an IP and a
//! gateway, keeps its deployment data only when it is short enough, and
//! its deployment hash only when it has 32 bytes; a name contract whose
//! name does not parse is dropped. Version 5 stores, for each node with an
//! active rent contract, the contract's id instead of the whole contract.
//!
//! The parsing of IPs, gateways and names is the runtime's configuration:
//! its outcome for each contract comes with the contract, in
//! [`ContractV3Entry`]. Freeing the IPs of a node contract that lost some
//! is a storage operation of the runtime: [`MigratedContract::free_ips`]
//! says when it is due.
use crate::deprecated;
use crate::types::{Contract, ContractData, NameContract, NodeContract, PublicIP, RentContract, StorageVersion};
use crate::weights::{reads_writes_weight, RuntimeDbWeight};
use vstd::prelude::*;

verus! {

/// What the runtime's parsers say of the bytes of a version 3 public IP.
#[derive(Clone, Copy, Debug, PartialEq, Eq, Structural)]
pub struct PublicIpCheck {
    /// The IP parses.
    pub ip_valid: bool,
    /// The gateway parses.
    pub gateway_valid: bool,
}

/// The bounds of the version 4 layout.
#[derive(Clone, Copy, Debug, PartialEq, Eq, Structural)]
pub struct V4Limits {
    /// Most public IPs a node contract holds.
    pub max_node_contract_public_ips: u32,
    /// Most bytes of deployment data a node contract holds.
    pub max_deployment_data_length: u32,
}

/// A stored version 3 contract, under its key, with what the runtime's
/// parsers say of its bytes: one check per public IP of a node contract,
/// in order, and whether a name contract's name parses.
#[derive(Clone, Debug, PartialEq, Eq)]
pub struct ContractV3Entry {
    pub key: u64,
    pub contract: deprecated::ContractV3,
    pub public_ip_checks: Vec<PublicIpCheck>,
    pub name_valid: bool,
}

/// A contract migrated to version 4, under its key.
#[derive(Clone, Debug, PartialEq, Eq)]
pub struct MigratedContract {
    pub key: u64,
    pub contract: Contract,
    /// Some public IPs of the node contract were dropped: the runtime frees
    /// the contract's IPs.
    pub free_ips: bool,
}

/// A version 3 active rent contract, under the id of its node.
#[derive(Clone, Debug, PartialEq, Eq)]
pub struct RentContractV3Entry {
    pub node_id: u32,
    pub contract: deprecated::ContractV3,
}

/// The bytes and contract of a version 3 public IP.
pub open spec fn old_ip_view(ip: deprecated::PublicIP) -> (Seq<u8>, Seq<u8>, u64) {
    (ip.ip@, ip.gateway@, ip.contract_id)
}

/// The bytes and contract of a version 4 public IP.
pub open spec fn ip_view(ip: PublicIP) -> (Seq<u8>, Seq<u8>, u64) {
    (ip.ip@, ip.gateway@, ip.contract_id)
}

/// The public IPs a list keeps in version 4, in order, and whether some
/// were dropped: an IP is kept when its IP and gateway parse and fewer
/// than `max` IPs are kept before it.
pub open spec fn migrate_ips(
    old: Seq<deprecated::PublicIP>,
    checks: Seq<PublicIpCheck>,
    max: int,
) -> (Seq<(Seq<u8>, Seq<u8>, u64)>, bool)
    decreases old.len(),
{
    if old.len() == 0 {
        (Seq::empty(), false)
    } else {
        let (kept, dropped) = migrate_ips(old.drop_last(), checks, max);
        let i = old.len() - 1;
        if !checks[i].ip_valid || !checks[i].gateway_valid || kept.len() >= max {
            (kept, true)
        } else {
            (kept.push(old_ip_view(old.last())), dropped)
        }
    }
}

/// The hash of a deployment whose hash was not 32 bytes: 32 zero bytes.
pub open spec fn zero_hash() -> Seq<u8> {
    Seq::new(32, |_i: int| 0u8)
}

/// `new` is node contract `old` migrated to version 4, and `free_ips`
/// says whether some of its public IPs were dropped.
pub open spec fn node_contract_migrated(
    old: deprecated::NodeContract,
    checks: Seq<PublicIpCheck>,
    limits: V4Limits,
    new: NodeContract,
    free_ips: bool,
) -> bool {
    let ips = migrate_ips(old.public_ips_list@, checks, limits.max_node_contract_public_ips as int);
    &&& new.node_id == old.node_id
    &&& new.public_ips == old.public_ips
    &&& new.public_ips_list@.map_values(|p: PublicIP| ip_view(p)) == ips.0
    &&& free_ips == ips.1
    &&& new.deployment_data@ == if old.deployment_data.len() <= limits.max_deployment_data_length {
        old.deployment_data@
    } else {
        Seq::<u8>::empty()
    }
    &&& new.deployment_hash@ == if old.deployment_hash.len() == 32 {
        old.deployment_hash@
    } else {
        zero_hash()
    }
}

/// The entry carries one check per public IP of its node contract.
pub open spec fn entry_well_formed(e: ContractV3Entry) -> bool {
    e.contract.contract_type matches deprecated::ContractData::NodeContract(nc)
        ==> e.public_ip_checks.len() == nc.public_ips_list.len()
}

/// The contract survives the migration: all do but name contracts whose
/// name does not parse.
pub open spec fn contract_kept(e: ContractV3Entry) -> bool {
    !(e.contract.contract_type is NameContract && !e.name_valid)
}

/// `m` is the contract of entry `e` migrated to version 4.
pub open spec fn contract_migrated(e: ContractV3Entry, limits: V4Limits, m: MigratedContract) -> bool {
    &&& m.key == e.key
    &&& m.contract.version == 4
    &&& m.contract.state == e.contract.state
    &&& m.contract.contract_id == e.contract.contract_id
    &&& m.contract.twin_id == e.contract.twin_id
    &&& m.contract.solution_provider_id is None
    &&& match e.contract.contract_type {
        deprecated::ContractData::NodeContract(nc) => m.contract.contract_type matches ContractData::NodeContract(
            new,
        ) && node_contract_migrated(nc, e.public_ip_checks@, limits, new, m.free_ips),
        deprecated::ContractData::NameContract(nc) => m.contract.contract_type matches ContractData::NameContract(
            n,
        ) && n.name@ == nc.name@ && !m.free_ips,
        deprecated::ContractData::RentContract(rc) => m.contract.contract_type
            == ContractData::RentContract(RentContract { node_id: rc.node_id }) && !m.free_ips,
    }
}

/// The entries whose contracts survive the migration, in order.
pub open spec fn kept_entries(s: Seq<ContractV3Entry>) -> Seq<ContractV3Entry>
    decreases s.len(),
{
    if s.len() == 0 {
        Seq::empty()
    } else {
        let k = kept_entries(s.drop_last());
        if contract_kept(s.last()) {
            k.push(s.last())
        } else {
            k
        }
    }
}

/// The storage version after the migration to version 4: version 4 when
/// the storage was at version 3, unchanged otherwise.
pub open spec fn version_after_v4(version: StorageVersion) -> StorageVersion {
    if version == StorageVersion::V3 {
        StorageVersion::V4
    } else {
        version
    }
}

/// The storage version after the migration of the active rent contracts:
/// version 5 when the storage was at version 4, unchanged otherwise.
pub open spec fn version_after_v5(version: StorageVersion) -> StorageVersion {
    if version == StorageVersion::V4 {
        StorageVersion::V5
    } else {
        version
    }
}

/// `list` is the active rent contracts of `entries` migrated to version 5:
/// each node with its contract's id, in order.
pub open spec fn rent_contracts_migrated(entries: Seq<RentContractV3Entry>, list: Seq<(u32, u64)>) -> bool {
    &&& list.len() == entries.len()
    &&& forall|i: int|
        0 <= i < list.len() ==> #[trigger] list[i] == (entries[i].node_id, entries[i].contract.contract_id)
}

/// `list` is the contracts of `entries` migrated to version 4: those that
/// survive, in order, each migrated.
pub open spec fn contracts_migrated(entries: Seq<ContractV3Entry>, limits: V4Limits, list: Seq<MigratedContract>) -> bool {
    &&& list.len() == kept_entries(entries).len()
    &&& forall|i: int|
        0 <= i < list.len() ==> contract_migrated(#[trigger] kept_entries(entries)[i], limits, list[i])
}

/// A copy of the bytes.
fn copy_bytes(v: &Vec<u8>) -> (r: Vec<u8>)
    ensures
        r@ == v@,
{
    let r = v.clone();
    assert(r@ =~= v@);
    r
}

/// 32 zero bytes.
fn zero_hash_bytes() -> (r: Vec<u8>)
    ensures
        r@ == zero_hash(),
{
    let mut r: Vec<u8> = Vec::new();
    let mut i: usize = 0;
    while i < 32
        invariant
            i <= 32,
            r@ == Seq::new(i as nat, |_j: int| 0u8),
        decreases 32 - i,
    {
        r.push(0);
        i = i + 1;
        assert(r@ =~= Seq::new(i as nat, |_j: int| 0u8));
    }
    r
}

/// The public IPs of a version 3 node contract that version 4 keeps, and
/// whether some were dropped.
fn migrate_public_ips(
    list: &Vec<deprecated::PublicIP>,
    checks: &Vec<PublicIpCheck>,
    max: u32,
) -> (r: (Vec<PublicIP>, bool))
    requires
        checks.len() == list.len(),
    ensures
        r.0@.map_values(|p: PublicIP| ip_view(p)) == migrate_ips(list@, checks@, max as int).0,
        r.1 == migrate_ips(list@, checks@, max as int).1,
{
    let mut out: Vec<PublicIP> = Vec::new();
    let mut should_free_ip = false;
    let mut i: usize = 0;
    assert(list@.take(0) =~= Seq::<deprecated::PublicIP>::empty());
    while i < list.len()
        invariant
            i <= list.len(),
            checks.len() == list.len(),
            out@.map_values(|p: PublicIP| ip_view(p)) == migrate_ips(list@.take(i as int), checks@, max as int).0,
            should_free_ip == migrate_ips(list@.take(i as int), checks@, max as int).1,
        decreases list.len() - i,
    {
        let pub_ip = &list[i];
        let check = checks[i];
        let ghost before = out@;
        assert(list@.take(i + 1).drop_last() =~= list@.take(i as int));
        assert(list@.take(i + 1).last() == list@[i as int]);
        if !check.ip_valid {
            should_free_ip = true;
        } else if !check.gateway_valid {
            should_free_ip = true;
        } else if out.len() >= max as usize {
            should_free_ip = true;
        } else {
            let new_ip = PublicIP {
                ip: copy_bytes(&pub_ip.ip),
                gateway: copy_bytes(&pub_ip.gateway),
                contract_id: pub_ip.contract_id,
            };
            out.push(new_ip);
            assert(out@.map_values(|p: PublicIP| ip_view(p)) =~= before.map_values(
                |p: PublicIP| ip_view(p),
            ).push(old_ip_view(list@[i as int])));
        }
        i = i + 1;
    }
    assert(list@.take(list.len() as int) =~= list@);
    (out, should_free_ip)
}

/// A version 3 node contract migrated to version 4, and whether some of
/// its public IPs were dropped.
fn migrate_node_contract(
    node_contract: &deprecated::NodeContract,
    checks: &Vec<PublicIpCheck>,
    limits: &V4Limits,
) -> (r: (NodeContract, bool))
    requires
        checks.len() == node_contract.public_ips_list.len(),
    ensures
        node_contract_migrated(*node_contract, checks@, *limits, r.0, r.1),
{
    let (public_ips_list, should_free_ip) = migrate_public_ips(
        &node_contract.public_ips_list,
        checks,
        limits.max_node_contract_public_ips,
    );
    let deployment_data = if node_contract.deployment_data.len()
        <= limits.max_deployment_data_length as usize {
        copy_bytes(&node_contract.deployment_data)
    } else {
        Vec::new()
    };
    // If it's a valid 32 byte hash keep it, else the zero hash
    let deployment_hash = if node_contract.deployment_hash.len() == 32 {
        copy_bytes(&node_contract.deployment_hash)
    } else {
        zero_hash_bytes()
    };
    let new_node_contract = NodeContract {
        node_id: node_contract.node_id,
        deployment_hash,
        deployment_data,
        public_ips: node_contract.public_ips,
        public_ips_list,
    };
    (new_node_contract, should_free_ip)
}

/// The contract of `entry` migrated to version 4, or `None` when it is
/// dropped (a name contract whose name does not parse).
pub fn migrate_contract(entry: &ContractV3Entry, limits: &V4Limits) -> (r: Option<MigratedContract>)
    requires
        entry_well_formed(*entry),
    ensures
        r is Some <==> contract_kept(*entry),
        r matches Some(m) ==> contract_migrated(*entry, *limits, m),
{
    let ctr = &entry.contract;
    let (contract_type, free_ips) = match &ctr.contract_type {
        deprecated::ContractData::NodeContract(node_contract) => {
            let (new_node_contract, should_free_ip) = migrate_node_contract(
                node_contract,
                &entry.public_ip_checks,
                limits,
            );
            (ContractData::NodeContract(new_node_contract), should_free_ip)
        },
        deprecated::ContractData::NameContract(nc) => {
            if entry.name_valid {
                (ContractData::NameContract(NameContract { name: copy_bytes(&nc.name) }), false)
            } else {
                // If it's not a valid contract name, it's probably garbage. Cancel the contract
                return None;
            }
        },
        deprecated::ContractData::RentContract(rc) => {
            (ContractData::RentContract(RentContract { node_id: rc.node_id }), false)
        },
    };
    let new_contract = Contract {
        version: 4,
        state: ctr.state,
        contract_id: ctr.contract_id,
        twin_id: ctr.twin_id,
        contract_type,
        solution_provider_id: None,
    };
    Some(MigratedContract { key: entry.key, contract: new_contract, free_ips })
}

/// Migrates the contracts from storage version 3 to version 4. At version 3
/// it returns the migrated contracts (the storage's new content, in the
/// order of `contracts`), sets the version to 4 and returns the weight of
/// a read and a write per migrated contract and one more of each;
/// otherwise it changes nothing and weighs nothing.
pub fn migrate_to_version_4(
    version: &mut StorageVersion,
    contracts: &Vec<ContractV3Entry>,
    limits: &V4Limits,
    db_weight: &RuntimeDbWeight,
) -> (r: (u64, Option<Vec<MigratedContract>>))
    requires
        *old(version) == StorageVersion::V3 ==> kept_entries(contracts@).len() <= 0x7fff_ffff,
        forall|i: int| 0 <= i < contracts.len() ==> entry_well_formed(#[trigger] contracts@[i]),
    ensures
        *final(version) == version_after_v4(*old(version)),
        *old(version) == StorageVersion::V3 ==> (r.1 matches Some(list) && {
            &&& contracts_migrated(contracts@, *limits, list@)
            &&& r.0 == reads_writes_weight(*db_weight, list.len() + 1, list.len() + 1)
        }),
        *old(version) != StorageVersion::V3 ==> r.0 == 0 && r.1 is None,
{
    if *version == StorageVersion::V3 {
        let mut migrated: Vec<MigratedContract> = Vec::new();
        let mut migrated_count: u64 = 0;
        let mut i: usize = 0;
        assert(contracts@.take(0) =~= Seq::<ContractV3Entry>::empty());
        while i < contracts.len()
            invariant
                i <= contracts.len(),
                forall|j: int| 0 <= j < contracts.len() ==> entry_well_formed(#[trigger] contracts@[j]),
                migrated_count == migrated.len(),
                migrated.len() == kept_entries(contracts@.take(i as int)).len(),
                migrated.len() <= i,
                forall|j: int|
                    0 <= j < migrated.len() ==> contract_migrated(
                        #[trigger] kept_entries(contracts@.take(i as int))[j],
                        *limits,
                        migrated@[j],
                    ),
            decreases contracts.len() - i,
        {
            let ghost prefix = contracts@.take(i as int);
            assert(contracts@.take(i + 1).drop_last() =~= prefix);
            assert(contracts@.take(i + 1).last() == contracts@[i as int]);
            match migrate_contract(&contracts[i], limits) {
                Some(m) => {
                    migrated.push(m);
                    migrated_count = migrated_count + 1;
                },
                None => {},
            }
            i = i + 1;
        }
        assert(contracts@.take(contracts.len() as int) =~= contracts@);
        // Update pallet storage version
        *version = StorageVersion::V4;
        // Return the weight consumed by the migration.
        let weight = db_weight.reads_writes(migrated_count + 1, migrated_count + 1);
        (weight, Some(migrated))
    } else {
        (0, None)
    }
}

/// Migrates the active rent contracts from storage version 4 to version 5:
/// each node keeps the id of its rent contract. At version 4 it returns the
/// new content (in the order of `active_rent_contracts`), sets the version
/// to 5 and returns the weight of a read and a write per entry and one
/// more of each; otherwise it changes nothing and weighs nothing.
pub fn migrate_rent_contract_storage(
    version: &mut StorageVersion,
    active_rent_contracts: &Vec<RentContractV3Entry>,
    db_weight: &RuntimeDbWeight,
) -> (r: (u64, Option<Vec<(u32, u64)>>))
    requires
        *old(version) == StorageVersion::V4 ==> active_rent_contracts.len() <= 0x7fff_ffff,
    ensures
        *final(version) == version_after_v5(*old(version)),
        *old(version) == StorageVersion::V4 ==> (r.1 matches Some(list) && {
            &&& rent_contracts_migrated(active_rent_contracts@, list@)
            &&& r.0 == reads_writes_weight(*db_weight, list.len() + 1, list.len() + 1)
        }),
        *old(version) != StorageVersion::V4 ==> r.0 == 0 && r.1 is None,
{
    if *version == StorageVersion::V4 {
        let mut migrated: Vec<(u32, u64)> = Vec::new();
        let mut migrated_count: u64 = 0;
        let mut i: usize = 0;
        while i < active_rent_contracts.len()
            invariant
                i <= active_rent_contracts.len(),
                active_rent_contracts.len() <= 0x7fff_ffff,
                migrated_count == migrated.len(),
                migrated.len() == i,
                forall|j: int|
                    0 <= j < i ==> #[trigger] migrated@[j] == (
                        active_rent_contracts@[j].node_id,
                        active_rent_contracts@[j].contract.contract_id,
                    ),
            decreases active_rent_contracts.len() - i,
        {
            let entry = &active_rent_contracts[i];
            migrated.push((entry.node_id, entry.contract.contract_id));
            migrated_count = migrated_count + 1;
            i = i + 1;
        }
        // Update pallet storage version
        *version = StorageVersion::V5;
        // Return the weight consumed by the migration.
        let weight = db_weight.reads_writes(migrated_count + 1, migrated_count + 1);
        (weight, Some(migrated))
    } else {
        (0, None)
    }
}

/// What the upgrade to storage version 5 did.
#[derive(Clone, Debug, PartialEq, Eq)]
pub struct UpgradeOutcome {
    /// The weight the upgrade consumed.
    pub weight: u64,
    /// The new content of the contracts, when they were migrated.
    pub contracts: Option<Vec<MigratedContract>>,
    /// The new content of the active rent contracts, when they were
    /// migrated.
    pub active_rent_contracts: Option<Vec<(u32, u64)>>,
}

/// The weights of both migrations from `version` add up without overflow.
pub open spec fn upgrade_weight_fits(
    version: StorageVersion,
    contracts: Seq<ContractV3Entry>,
    active_rent_contracts: Seq<RentContractV3Entry>,
    db_weight: RuntimeDbWeight,
) -> bool {
    version == StorageVersion::V3 ==> reads_writes_weight(
        db_weight,
        (kept_entries(contracts).len() + 1) as int,
        (kept_entries(contracts).len() + 1) as int,
    ) + reads_writes_weight(
        db_weight,
        (active_rent_contracts.len() + 1) as int,
        (active_rent_contracts.len() + 1) as int,
    )
        <= u64::MAX
}

/// The upgrade of the contract storage to version 5.
pub struct ContractMigrationV5;

impl ContractMigrationV5 {
    /// Before the upgrade the storage is at version 3.
    pub fn pre_upgrade(version: StorageVersion) -> (r: Result<(), &'static str>)
        requires
            version == StorageVersion::V3,
        ensures
            r is Ok,
    {
        Ok(())
    }

    /// Migrates the contracts to version 4 and then the active rent
    /// contracts to version 5, and returns the weight of both.
    pub fn on_runtime_upgrade(
        version: &mut StorageVersion,
        contracts: &Vec<ContractV3Entry>,
        active_rent_contracts: &Vec<RentContractV3Entry>,
        limits: &V4Limits,
        db_weight: &RuntimeDbWeight,
    ) -> (r: UpgradeOutcome)
        requires
            *old(version) == StorageVersion::V3 ==> kept_entries(contracts@).len() <= 0x7fff_ffff,
            *old(version) == StorageVersion::V3 || *old(version) == StorageVersion::V4
                ==> active_rent_contracts.len() <= 0x7fff_ffff,
            forall|i: int| 0 <= i < contracts.len() ==> entry_well_formed(#[trigger] contracts@[i]),
            upgrade_weight_fits(*old(version), contracts@, active_rent_contracts@, *db_weight),
        ensures
            *final(version) == version_after_v5(version_after_v4(*old(version))),
            *old(version) == StorageVersion::V3 ==> {
                &&& r.contracts matches Some(list) && contracts_migrated(contracts@, *limits, list@)
                &&& r.active_rent_contracts matches Some(rent) && rent_contracts_migrated(
                    active_rent_contracts@,
                    rent@,
                )
                &&& r.weight == reads_writes_weight(
                    *db_weight,
                    (kept_entries(contracts@).len() + 1) as int,
                    (kept_entries(contracts@).len() + 1) as int,
                ) + reads_writes_weight(
                    *db_weight,
                    active_rent_contracts.len() + 1,
                    active_rent_contracts.len() + 1,
                )
            },
            *old(version) == StorageVersion::V4 ==> {
                &&& r.contracts is None
                &&& r.active_rent_contracts matches Some(rent) && rent_contracts_migrated(
                    active_rent_contracts@,
                    rent@,
                )
                &&& r.weight == reads_writes_weight(
                    *db_weight,
                    active_rent_contracts.len() + 1,
                    active_rent_contracts.len() + 1,
                )
            },
            *old(version) != StorageVersion::V3 && *old(version) != StorageVersion::V4
                ==> r == (UpgradeOutcome { weight: 0, contracts: None, active_rent_contracts: None }),
    {
        let (contracts_weight, migrated_contracts) = migrate_to_version_4(version, contracts, limits, db_weight);
        let (rent_weight, migrated_rent) = migrate_rent_contract_storage(version, active_rent_contracts, db_weight);
        UpgradeOutcome {
            weight: contracts_weight + rent_weight,
            contracts: migrated_contracts,
            active_rent_contracts: migrated_rent,
        }
    }

    /// After the upgrade the storage is at version 5.
    pub fn post_upgrade(version: StorageVersion) -> (r: Result<(), &'static str>)
        requires
            version == StorageVersion::V5,
        ensures
            r is Ok,
    {
        Ok(())
    }
}

} // verus!
