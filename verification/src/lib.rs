//! Billing of smart contracts on the grid: the cost of node, rent, name and
//! service contracts in units of USD and in TFT, the discount a twin earns
//! from its balance, and the storage migrations of contracts.
pub mod fixed;
pub mod percent;
pub mod types;
pub mod cost;
pub mod deprecated;
pub mod weights;
pub mod contract_migration;
pub mod laws;
