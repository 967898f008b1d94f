//! The contract storage layout of version 3, which the migrations read.
use crate::types::ContractState;
use vstd::prelude::*;

verus! {

/// A contract as stored in version 3.
#[derive(Clone, Debug, PartialEq, Eq)]
pub struct ContractV3 {
    pub version: u32,
    pub state: ContractState,
    pub contract_id: u64,
    pub twin_id: u32,
    pub contract_type: ContractData,
}

/// A public IP of a version 3 node contract: the raw bytes of the IP and
/// of its gateway.
#[derive(Clone, Debug, PartialEq, Eq, Default)]
pub struct PublicIP {
    pub ip: Vec<u8>,
    pub gateway: Vec<u8>,
    pub contract_id: u64,
}

/// A version 3 node contract.
#[derive(Clone, Debug, PartialEq, Eq)]
pub struct NodeContract {
    pub node_id: u32,
    /// The deployment, encrypted with the user's public key.
    pub deployment_data: Vec<u8>,
    /// Hash of the deployment, set by the user (at most 32 bytes).
    pub deployment_hash: Vec<u8>,
    pub public_ips: u32,
    pub public_ips_list: Vec<PublicIP>,
}

impl Default for NodeContract {
    fn default() -> (r: Self)
        ensures
            r.node_id == 0,
            r.deployment_data@ == Seq::<u8>::empty(),
            r.deployment_hash@ == Seq::<u8>::empty(),
            r.public_ips == 0,
            r.public_ips_list@ == Seq::<PublicIP>::empty(),
    {
        NodeContract {
            node_id: 0,
            deployment_data: Vec::new(),
            deployment_hash: Vec::new(),
            public_ips: 0,
            public_ips_list: Vec::new(),
        }
    }
}

/// A version 3 name contract.
#[derive(Clone, Debug, PartialEq, Eq, Default)]
pub struct NameContract {
    pub name: Vec<u8>,
}

/// A version 3 rent contract.
#[derive(Clone, Copy, Debug, PartialEq, Eq, Default)]
pub struct RentContract {
    pub node_id: u32,
}

/// What a version 3 contract is for.
#[derive(Clone, Debug, PartialEq, Eq)]
pub enum ContractData {
    NodeContract(NodeContract),
    NameContract(NameContract),
    RentContract(RentContract),
}

impl Default for ContractData {
    /// An empty node contract.
    fn default() -> (r: ContractData)
        ensures
            r matches ContractData::NodeContract(nc) && {
                &&& nc.node_id == 0
                &&& nc.deployment_data@ == Seq::<u8>::empty()
                &&& nc.deployment_hash@ == Seq::<u8>::empty()
                &&& nc.public_ips == 0
                &&& nc.public_ips_list@ == Seq::<PublicIP>::empty()
            },
    {
        ContractData::NodeContract(NodeContract::default())
    }
}

} // verus!
