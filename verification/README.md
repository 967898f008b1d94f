# pallet_smart_contract

Verified billing logic of the grid's smart contracts, written in Verus.

- `src/fixed.rs`: 64.64 fixed-point numbers as raw bits, with the operations
  of `substrate_fixed::types::U64F64` behind wrappers whose contracts state
  what that crate computes.
- `src/percent.rs`: the share taken by `sp_arithmetic::Percent`.
- `src/types.rs`: resources, pricing policies, contracts, billing
  information, discount levels, storage versions.
- `src/cost.rs`: cost of resources, node/rent/name contracts, network use
  reports and service bills, in units USD and in TFT, and the discount a
  balance earns.
- `src/deprecated.rs`, `src/contract_migration.rs`, `src/weights.rs`: the
  migrations of the contract storage from version 3 to version 5.
- `src/laws.rs`: properties proved for all inputs.

Reading and writing chain storage is the runtime's part: the functions take
the values read from storage and return the values to store.
