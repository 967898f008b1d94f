//! The data that billing and migration read: resources, pricing policies,
//! contracts, billing information, and the discount levels.
use vstd::prelude::*;

verus! {

/// Seconds in an hour.
pub const SECS_PER_HOUR: u64 = 3600;

/// Seconds in a month of 30 days, the period a dedicated node's extra fee is
/// quoted for.
pub const SECS_PER_MONTH: u64 = 2592000;

/// Units of USD in one mUSD (a unit of USD is a ten-millionth of a USD).
pub const UNITS_USD_PER_MUSD: u64 = 10000;

/// Units of TFT in one TFT (the chain's seven decimals).
pub const UNITS_TFT_PER_TFT: u64 = 10000000;

/// Capacity of a node, or the capacity a deployment uses.
#[derive(Clone, Copy, Debug, PartialEq, Eq, Structural, Default)]
pub struct Resources {
    /// Disk (HDD) bytes.
    pub hru: u64,
    /// SSD bytes.
    pub sru: u64,
    /// Virtual cores.
    pub cru: u64,
    /// Memory bytes.
    pub mru: u64,
}

/// The unit a pricing policy's amounts are given in.
#[derive(Clone, Copy, Debug, PartialEq, Eq, Structural)]
pub enum Unit {
    Bytes,
    Kilobytes,
    Megabytes,
    Gigabytes,
    Terrabytes,
}

/// A price (in mUSD per billing reference period) per unit of a resource.
#[derive(Clone, Copy, Debug, PartialEq, Eq, Structural)]
pub struct Policy {
    pub value: u32,
    pub unit: Unit,
}

/// The power of 1024 that the unit stands for.
pub open spec fn unit_factor_1024(unit: Unit) -> int {
    match unit {
        Unit::Bytes => 1,
        Unit::Kilobytes => 1024,
        Unit::Megabytes => 1048576,
        Unit::Gigabytes => 1073741824,
        Unit::Terrabytes => 1099511627776,
    }
}

/// The power of 1000 that the unit stands for.
pub open spec fn unit_factor_1000(unit: Unit) -> int {
    match unit {
        Unit::Bytes => 1,
        Unit::Kilobytes => 1000,
        Unit::Megabytes => 1000000,
        Unit::Gigabytes => 1000000000,
        Unit::Terrabytes => 1000000000000,
    }
}

impl Policy {
    /// Bytes per unit, in powers of 1024.
    pub fn factor_base_1024(&self) -> (r: u128)
        ensures
            r == unit_factor_1024(self.unit),
            r >= 1,
    {
        match self.unit {
            Unit::Bytes => 1,
            Unit::Kilobytes => 1024,
            Unit::Megabytes => 1048576,
            Unit::Gigabytes => 1073741824,
            Unit::Terrabytes => 1099511627776,
        }
    }

    /// Bytes per unit, in powers of 1000.
    pub fn factor_base_1000(&self) -> (r: u128)
        ensures
            r == unit_factor_1000(self.unit),
            r >= 1,
    {
        match self.unit {
            Unit::Bytes => 1,
            Unit::Kilobytes => 1000,
            Unit::Megabytes => 1000000,
            Unit::Gigabytes => 1000000000,
            Unit::Terrabytes => 1000000000000,
        }
    }
}

/// The prices the grid bills by.
#[derive(Clone, Debug, PartialEq, Eq)]
pub struct PricingPolicy {
    pub version: u32,
    pub id: u32,
    pub name: Vec<u8>,
    /// Storage unit.
    pub su: Policy,
    /// Compute unit.
    pub cu: Policy,
    /// Network unit.
    pub nu: Policy,
    /// Public IP.
    pub ipu: Policy,
    pub unique_name: Policy,
    pub domain_name: Policy,
    pub foundation_account: Vec<u8>,
    pub certified_sales_account: Vec<u8>,
    /// The share (in percent) of the price a dedicated (rented) node is
    /// billed at.
    pub discount_for_dedication_nodes: u8,
}

/// How a node's capacity is certified.
#[derive(Clone, Copy, Debug, PartialEq, Eq, Structural)]
pub enum NodeCertification {
    Diy,
    Certified,
}

/// The discount a twin receives, by how many months its balance covers.
#[derive(Clone, Copy, Debug, PartialEq, Eq, Structural)]
pub enum DiscountLevel {
    NoDiscount,
    Default,
    Bronze,
    Silver,
    Gold,
}

/// The bits of the 64.64 fixed-point factor a discount level multiplies the
/// price by: 1, and the `f64` values 0.8, 0.7, 0.6 and 0.4 converted
/// exactly (each is a multiple of `2^-64`).
pub open spec fn price_multiplier_bits(level: DiscountLevel) -> int {
    match level {
        DiscountLevel::NoDiscount => 18446744073709551616,
        DiscountLevel::Default => 14757395258967642112,
        DiscountLevel::Bronze => 12912720851596685312,
        DiscountLevel::Silver => 11068046444225730560,
        DiscountLevel::Gold => 7378697629483821056,
    }
}

impl DiscountLevel {
    /// The factor the price is multiplied by, as fixed-point bits.
    pub fn price_multiplier(&self) -> (r: u128)
        ensures
            r == price_multiplier_bits(*self),
    {
        match self {
            DiscountLevel::NoDiscount => 18446744073709551616,
            DiscountLevel::Default => 14757395258967642112,
            DiscountLevel::Bronze => 12912720851596685312,
            DiscountLevel::Silver => 11068046444225730560,
            DiscountLevel::Gold => 7378697629483821056,
        }
    }
}

/// Why a contract was deleted.
#[derive(Clone, Copy, Debug, PartialEq, Eq, Structural)]
pub enum Cause {
    CanceledByUser,
    OutOfFunds,
}

/// The state of a contract.
#[derive(Clone, Copy, Debug, PartialEq, Eq, Structural)]
pub enum ContractState {
    Created,
    Deleted(Cause),
    /// In grace period since the given block.
    GracePeriod(u64),
}

/// A public IP reserved by a node contract.
#[derive(Clone, Debug, PartialEq, Eq)]
pub struct PublicIP {
    pub ip: Vec<u8>,
    pub gateway: Vec<u8>,
    pub contract_id: u64,
}

/// A deployment on a node.
#[derive(Clone, Debug, PartialEq, Eq)]
pub struct NodeContract {
    pub node_id: u32,
    /// Hash of the deployment: 32 bytes.
    pub deployment_hash: Vec<u8>,
    pub deployment_data: Vec<u8>,
    pub public_ips: u32,
    pub public_ips_list: Vec<PublicIP>,
}

/// A name reserved on the grid.
#[derive(Clone, Debug, PartialEq, Eq)]
pub struct NameContract {
    pub name: Vec<u8>,
}

/// A whole node rented by a twin.
#[derive(Clone, Copy, Debug, PartialEq, Eq, Structural)]
pub struct RentContract {
    pub node_id: u32,
}

/// What a contract is for.
#[derive(Clone, Debug, PartialEq, Eq)]
pub enum ContractData {
    NodeContract(NodeContract),
    NameContract(NameContract),
    RentContract(RentContract),
}

/// A contract between a twin and the grid.
#[derive(Clone, Debug, PartialEq, Eq)]
pub struct Contract {
    pub version: u32,
    pub state: ContractState,
    pub contract_id: u64,
    pub twin_id: u32,
    pub contract_type: ContractData,
    pub solution_provider_id: Option<u64>,
}

/// What is known of a contract's billing.
#[derive(Clone, Copy, Debug, PartialEq, Eq, Structural, Default)]
pub struct ContractBillingInformation {
    pub previous_nu_reported: u64,
    /// Timestamp of the last report taken into account.
    pub last_updated: u64,
    /// Cost (units USD) of network use reported but not billed yet.
    pub amount_unbilled: u64,
}

/// A node's report of the network units a contract used.
#[derive(Clone, Copy, Debug, PartialEq, Eq, Structural)]
pub struct NruConsumption {
    pub contract_id: u64,
    pub timestamp: u64,
    /// Seconds the report covers.
    pub window: u64,
    /// Network resource units used.
    pub nru: u64,
}

/// The state of a service contract.
#[derive(Clone, Copy, Debug, PartialEq, Eq, Structural)]
pub enum ServiceContractState {
    Created,
    AgreementReady,
    ApprovedByBoth,
}

/// A contract between a service and a consumer twin.
#[derive(Clone, Debug, PartialEq, Eq)]
pub struct ServiceContract {
    pub service_contract_id: u64,
    pub service_twin_id: u32,
    pub consumer_twin_id: u32,
    /// Fee (mUSD) per billing reference period.
    pub base_fee: u64,
    /// Cap (mUSD) of the variable part of one bill.
    pub variable_fee: u64,
    pub metadata: Vec<u8>,
    pub accepted_by_service: bool,
    pub accepted_by_consumer: bool,
    pub last_bill: u64,
    pub state: ServiceContractState,
}

/// A bill sent by a service.
#[derive(Clone, Debug, PartialEq, Eq)]
pub struct ServiceContractBill {
    /// Variable amount (mUSD) billed.
    pub variable_amount: u64,
    /// Seconds the bill covers.
    pub window: u64,
    pub metadata: Vec<u8>,
}

/// The version of the contract storage layout.
#[derive(Clone, Copy, Debug, PartialEq, Eq, Structural)]
pub enum StorageVersion {
    V1,
    V2,
    V3,
    V4,
    V5,
}

/// Why a cost could not be computed.
#[derive(Clone, Copy, Debug, PartialEq, Eq, Structural)]
pub enum Error {
    NodeNotExists,
}

} // verus!
