use pallet_smart_contract::cost::{
    calculate_cost_in_tft_from_units_usd, calculate_cu, calculate_discount_tft,
    calculate_extra_fee_cost_units_usd, calculate_resources_cost_units_usd, ContractCostContext,
    TftPrices,
};
use pallet_smart_contract::fixed::round_to_u64;
use pallet_smart_contract::types::{
    Contract, ContractBillingInformation, ContractData, ContractState, DiscountLevel, Error,
    NameContract, NodeCertification, NodeContract, NruConsumption, Policy, PricingPolicy,
    RentContract, Resources, ServiceContract, ServiceContractBill, ServiceContractState, Unit,
};

const ONE: u128 = 1u128 << 64;
const GIB: u64 = 1073741824;
const PERIOD: u64 = 3600;

fn policy() -> PricingPolicy {
    PricingPolicy {
        version: 1,
        id: 1,
        name: b"policy_1".to_vec(),
        su: Policy { value: 50000, unit: Unit::Gigabytes },
        cu: Policy { value: 100000, unit: Unit::Gigabytes },
        nu: Policy { value: 15000, unit: Unit::Gigabytes },
        ipu: Policy { value: 40000, unit: Unit::Gigabytes },
        unique_name: Policy { value: 2500, unit: Unit::Gigabytes },
        domain_name: Policy { value: 5000, unit: Unit::Gigabytes },
        foundation_account: vec![1; 32],
        certified_sales_account: vec![2; 32],
        discount_for_dedication_nodes: 50,
    }
}

fn prices() -> TftPrices {
    TftPrices { average: 50, min: 10, max: 1000 }
}

fn deployment() -> Resources {
    Resources { hru: 0, sru: 20 * GIB, cru: 2, mru: 2 * GIB }
}

fn node_contract(public_ips: u32) -> Contract {
    Contract {
        version: 4,
        state: ContractState::Created,
        contract_id: 1,
        twin_id: 1,
        contract_type: ContractData::NodeContract(NodeContract {
            node_id: 1,
            deployment_hash: vec![0; 32],
            deployment_data: vec![],
            public_ips,
            public_ips_list: vec![],
        }),
        solution_provider_id: None,
    }
}

fn rent_contract() -> Contract {
    Contract {
        version: 4,
        state: ContractState::Created,
        contract_id: 2,
        twin_id: 1,
        contract_type: ContractData::RentContract(RentContract { node_id: 1 }),
        solution_provider_id: None,
    }
}

fn name_contract() -> Contract {
    Contract {
        version: 4,
        state: ContractState::Created,
        contract_id: 3,
        twin_id: 1,
        contract_type: ContractData::NameContract(NameContract { name: b"foobar".to_vec() }),
        solution_provider_id: None,
    }
}

fn context(node_exists: bool, rented: bool, unbilled: u64) -> ContractCostContext {
    ContractCostContext {
        billing_info: ContractBillingInformation {
            previous_nu_reported: 0,
            last_updated: 0,
            amount_unbilled: unbilled,
        },
        node_resources: if node_exists {
            Some(Resources { hru: 0, sru: 20 * GIB, cru: 2, mru: 2 * GIB })
        } else {
            None
        },
        node_contract_resources: deployment(),
        node_has_active_rent_contract: rented,
        billing_reference_period: PERIOD,
    }
}

#[test]
fn test_calculate_cu_takes_least_of_three() {
    // cru = 2, mru = 2: max(0.5, 1) = 1, max(0.25, 2) = 2, max(1, 0.5) = 1
    assert_eq!(calculate_cu(2 * ONE, 2 * ONE), ONE);
    // cru = 8, mru = 32: max(8, 4) = 8, max(4, 8) = 8, max(16, 2) = 16
    assert_eq!(calculate_cu(8 * ONE, 32 * ONE), 8 * ONE);
    // cru = 4, mru = 16: max(4, 2) = 4, max(2, 4) = 4, max(8, 1) = 8
    assert_eq!(calculate_cu(4 * ONE, 16 * ONE), 4 * ONE);
    assert_eq!(calculate_cu(0, 0), 0);
}

#[test]
fn test_round_to_u64_ties_away_from_zero() {
    assert_eq!(round_to_u64(2 * ONE + ONE / 2), 3);
    assert_eq!(round_to_u64(2 * ONE + ONE / 2 - 1), 2);
    assert_eq!(round_to_u64(7 * ONE), 7);
    assert_eq!(round_to_u64(0), 0);
}

#[test]
fn test_resources_cost_one_hour() {
    // 0.1 SU * 50000 + 1 CU * 100000
    let cost = calculate_resources_cost_units_usd(deployment(), 0, 3600, &policy(), PERIOD, true);
    assert_eq!(cost, 105000);
}

#[test]
fn test_resources_cost_with_ip() {
    let cost = calculate_resources_cost_units_usd(deployment(), 1, 3600, &policy(), PERIOD, true);
    assert_eq!(cost, 145000);
    let only_ips = calculate_resources_cost_units_usd(deployment(), 1, 3600, &policy(), PERIOD, false);
    assert_eq!(only_ips, 40000);
    let two_ips = calculate_resources_cost_units_usd(Resources::default(), 2, 3600, &policy(), PERIOD, true);
    assert_eq!(two_ips, 80000);
}

#[test]
fn test_resources_cost_per_second() {
    assert_eq!(calculate_resources_cost_units_usd(deployment(), 0, 1800, &policy(), PERIOD, true), 52500);
    assert_eq!(calculate_resources_cost_units_usd(deployment(), 0, 0, &policy(), PERIOD, true), 0);
    let big = Resources { hru: 0, sru: 0, cru: 8, mru: 32 * GIB };
    // 8 CU * 100000 per hour over a minute: 13333.33
    assert_eq!(calculate_resources_cost_units_usd(big, 0, 60, &policy(), PERIOD, true), 13333);
    // 100 GiB of HDD: 100/1200 SU * 50000: 4166.67
    let hdd = Resources { hru: 100 * GIB, sru: 0, cru: 0, mru: 0 };
    assert_eq!(calculate_resources_cost_units_usd(hdd, 0, 3600, &policy(), PERIOD, true), 4167);
}

#[test]
fn test_resources_cost_grows_with_time() {
    let mut last = 0;
    for secs in [0u64, 1, 59, 60, 600, 1800, 3600, 7200] {
        let cost = calculate_resources_cost_units_usd(deployment(), 1, secs, &policy(), PERIOD, true);
        assert!(cost >= last);
        last = cost;
    }
}

#[test]
fn test_node_contract_cost_units_usd() {
    let c = node_contract(0);
    assert_eq!(c.calculate_contract_cost_units_usd(&policy(), 3600, &context(true, false, 0)), Ok(105000));
    // the unbilled network cost is added
    assert_eq!(c.calculate_contract_cost_units_usd(&policy(), 3600, &context(true, false, 15000)), Ok(120000));
    let with_ip = node_contract(1);
    assert_eq!(with_ip.calculate_contract_cost_units_usd(&policy(), 3600, &context(true, false, 0)), Ok(145000));
}

#[test]
fn test_node_contract_on_rented_node_bills_only_ips() {
    let c = node_contract(1);
    assert_eq!(c.calculate_contract_cost_units_usd(&policy(), 3600, &context(true, true, 0)), Ok(40000));
    let mut other = context(true, true, 0);
    other.node_contract_resources = Resources { hru: 1000 * GIB, sru: 0, cru: 64, mru: 256 * GIB };
    assert_eq!(c.calculate_contract_cost_units_usd(&policy(), 3600, &other), Ok(40000));
    let without_ips = node_contract(0);
    assert_eq!(without_ips.calculate_contract_cost_units_usd(&policy(), 3600, &context(true, true, 7)), Ok(7));
}

#[test]
fn test_node_contract_node_not_exists() {
    let c = node_contract(0);
    assert_eq!(
        c.calculate_contract_cost_units_usd(&policy(), 3600, &context(false, false, 0)),
        Err(Error::NodeNotExists)
    );
    assert_eq!(
        rent_contract().calculate_contract_cost_units_usd(&policy(), 3600, &context(false, false, 0)),
        Err(Error::NodeNotExists)
    );
}

#[test]
fn test_no_time_no_cost() {
    for c in [node_contract(1), rent_contract(), name_contract()] {
        assert_eq!(c.calculate_contract_cost_units_usd(&policy(), 0, &context(false, false, 9)), Ok(0));
    }
}

#[test]
fn test_rent_contract_cost_units_usd() {
    // half of the node's resources
    assert_eq!(
        rent_contract().calculate_contract_cost_units_usd(&policy(), 3600, &context(true, false, 0)),
        Ok(52500)
    );
    let mut full = policy();
    full.discount_for_dedication_nodes = 200;
    assert_eq!(
        rent_contract().calculate_contract_cost_units_usd(&full, 3600, &context(true, false, 0)),
        Ok(105000)
    );
}

#[test]
fn test_rent_share_rounds_half_down() {
    // 33% of 50 is 16.5: rounded down
    let mut p = policy();
    p.discount_for_dedication_nodes = 33;
    p.su.value = 0;
    p.cu.value = 50;
    p.cu.unit = Unit::Bytes;
    let mut ctx = context(true, false, 0);
    ctx.node_resources = Some(Resources { hru: 0, sru: 0, cru: 2, mru: 2 });
    assert_eq!(rent_contract().calculate_contract_cost_units_usd(&p, 3600, &ctx), Ok(16));
}

#[test]
fn test_name_contract_cost_units_usd() {
    let c = name_contract();
    assert_eq!(c.calculate_contract_cost_units_usd(&policy(), 3600, &context(false, false, 0)), Ok(2500));
    assert_eq!(c.calculate_contract_cost_units_usd(&policy(), 7200, &context(false, false, 0)), Ok(5000));
    assert_eq!(c.calculate_contract_cost_units_usd(&policy(), 1, &context(false, false, 0)), Ok(1));
}

#[test]
fn test_cost_in_tft() {
    // 0.01 USD at 0.05 USD per TFT is 0.2 TFT
    assert_eq!(calculate_cost_in_tft_from_units_usd(100000, 50, 10, 1000), Ok(2000000));
    assert_eq!(calculate_cost_in_tft_from_units_usd(1, 50, 10, 1000), Ok(20));
    assert_eq!(calculate_cost_in_tft_from_units_usd(0, 50, 10, 1000), Ok(0));
}

#[test]
fn test_cost_in_tft_price_is_clamped() {
    // below the minimum price, the minimum is used
    assert_eq!(calculate_cost_in_tft_from_units_usd(100000, 5, 10, 1000), Ok(10000000));
    // above the maximum price, the maximum is used
    assert_eq!(calculate_cost_in_tft_from_units_usd(100000, 5000, 10, 1000), Ok(100000));
}

#[test]
fn test_higher_price_fewer_tft() {
    let mut last = u64::MAX;
    for price in [10u32, 11, 50, 99, 100, 1000] {
        let tft = calculate_cost_in_tft_from_units_usd(123456789, price, 1, 100000).unwrap();
        assert!(tft <= last);
        last = tft;
    }
}

#[test]
fn test_extra_fee_cost_units_usd() {
    // 10 USD per month over an hour
    assert_eq!(calculate_extra_fee_cost_units_usd(10000, 3600), 138889);
    assert_eq!(calculate_extra_fee_cost_units_usd(0, 3600), 0);
    assert_eq!(calculate_extra_fee_cost_units_usd(1, 1), 0);
    assert_eq!(calculate_extra_fee_cost_units_usd(1000, 2592000), 10000000);
}

#[test]
fn test_extra_fee_cost_tft() {
    let c = rent_contract();
    assert_eq!(c.calculate_extra_fee_cost_tft(10000, 3600, prices()), Ok(2777780));
    assert_eq!(c.calculate_extra_fee_cost_tft(0, 3600, prices()), Ok(0));
    // the cost does not depend on the contract
    assert_eq!(name_contract().calculate_extra_fee_cost_tft(10000, 3600, prices()), Ok(2777780));
}

#[test]
fn test_discount_levels() {
    // 1000 per hour is 720000 per month
    assert_eq!(calculate_discount_tft(1000, 3600, 0, NodeCertification::Diy), (1000, DiscountLevel::NoDiscount));
    assert_eq!(calculate_discount_tft(1000, 3600, 1079999, NodeCertification::Diy), (1000, DiscountLevel::NoDiscount));
    assert_eq!(calculate_discount_tft(1000, 3600, 1080000, NodeCertification::Diy), (800, DiscountLevel::Default));
    assert_eq!(calculate_discount_tft(1000, 3600, 2160000, NodeCertification::Diy), (700, DiscountLevel::Bronze));
    assert_eq!(calculate_discount_tft(1000, 3600, 4320000, NodeCertification::Diy), (600, DiscountLevel::Silver));
    assert_eq!(calculate_discount_tft(1000, 3600, 12960000, NodeCertification::Diy), (400, DiscountLevel::Gold));
    // 7 due over 3 seconds is 8400 per hour, 6048000 per month
    assert_eq!(calculate_discount_tft(7, 3, 1000000, NodeCertification::Diy), (7, DiscountLevel::NoDiscount));
    assert_eq!(calculate_discount_tft(7, 3, 100000000, NodeCertification::Diy), (4, DiscountLevel::Silver));
}

#[test]
fn test_discount_normalizes_to_one_hour() {
    // 1000 due over two hours is 500 per hour, 360000 per month: 3 months is bronze
    assert_eq!(calculate_discount_tft(1000, 7200, 1080000, NodeCertification::Diy), (700, DiscountLevel::Bronze));
    // 1000 due over half an hour is 2000 per hour, 1440000 per month: 0.75 month
    assert_eq!(calculate_discount_tft(1000, 1800, 1080000, NodeCertification::Diy), (1000, DiscountLevel::NoDiscount));
}

#[test]
fn test_discount_certified_costs_more() {
    assert_eq!(calculate_discount_tft(1000, 3600, 0, NodeCertification::Certified), (1250, DiscountLevel::NoDiscount));
    assert_eq!(calculate_discount_tft(1000, 3600, 10000000, NodeCertification::Certified), (750, DiscountLevel::Silver));
    assert_eq!(calculate_discount_tft(1000, 3600, 1000000000, NodeCertification::Certified), (500, DiscountLevel::Gold));
}

#[test]
fn test_discount_nothing_due() {
    assert_eq!(calculate_discount_tft(0, 3600, 1000000000, NodeCertification::Certified), (0, DiscountLevel::NoDiscount));
}

#[test]
fn test_more_balance_never_costs_more() {
    let mut last = u64::MAX;
    for balance in [0u64, 1000, 1080000, 2000000, 2160000, 5000000, 12960000, 1 << 40] {
        let (due, _) = calculate_discount_tft(1000, 3600, balance, NodeCertification::Diy);
        assert!(due <= last);
        assert!(due <= 1000);
        last = due;
    }
}

#[test]
fn test_contract_cost_tft() {
    let c = node_contract(0);
    assert_eq!(
        c.calculate_contract_cost_tft(0, 3600, &policy(), &context(true, false, 0), prices()),
        Ok((2100000, DiscountLevel::NoDiscount))
    );
    assert_eq!(
        rent_contract().calculate_contract_cost_tft(0, 3600, &policy(), &context(true, false, 0), prices()),
        Ok((1050000, DiscountLevel::NoDiscount))
    );
    assert_eq!(
        name_contract().calculate_contract_cost_tft(0, 3600, &policy(), &context(false, false, 0), prices()),
        Ok((50000, DiscountLevel::NoDiscount))
    );
    // 2100000 per hour is 1512000000 per month: 18 months get gold
    assert_eq!(
        c.calculate_contract_cost_tft(27216000000, 3600, &policy(), &context(true, false, 0), prices()),
        Ok((840000, DiscountLevel::Gold))
    );
}

#[test]
fn test_contract_cost_tft_zero_and_error() {
    let c = node_contract(0);
    assert_eq!(
        c.calculate_contract_cost_tft(100, 0, &policy(), &context(true, false, 0), prices()),
        Ok((0, DiscountLevel::NoDiscount))
    );
    assert_eq!(
        c.calculate_contract_cost_tft(100, 3600, &policy(), &context(false, false, 0), prices()),
        Err(Error::NodeNotExists)
    );
}

fn service_contract(base_fee: u64) -> ServiceContract {
    ServiceContract {
        service_contract_id: 1,
        service_twin_id: 1,
        consumer_twin_id: 2,
        base_fee,
        variable_fee: 100,
        metadata: b"some_metadata".to_vec(),
        accepted_by_service: true,
        accepted_by_consumer: true,
        last_bill: 0,
        state: ServiceContractState::ApprovedByBoth,
    }
}

fn bill(variable_amount: u64, window: u64) -> ServiceContractBill {
    ServiceContractBill { variable_amount, window, metadata: b"bill_metadata".to_vec() }
}

#[test]
fn test_service_bill_cost_units_usd() {
    assert_eq!(service_contract(100).calculate_bill_cost_units_usd(bill(0, 3600), PERIOD), 1000000);
    assert_eq!(service_contract(100).calculate_bill_cost_units_usd(bill(50, 1800), PERIOD), 1000000);
    assert_eq!(service_contract(0).calculate_bill_cost_units_usd(bill(0, 10), PERIOD), 0);
    assert_eq!(service_contract(1).calculate_bill_cost_units_usd(bill(1, 1), PERIOD), 10003);
}

#[test]
fn test_service_bill_cost_tft() {
    assert_eq!(service_contract(100).calculate_bill_cost_tft(bill(50, 1800), PERIOD, prices()), Ok(20000000));
    assert_eq!(service_contract(0).calculate_bill_cost_tft(bill(0, 1800), PERIOD, prices()), Ok(0));
}

#[test]
fn test_nru_report_adds_cost() {
    let report = NruConsumption { contract_id: 1, timestamp: 100, window: 3600, nru: 1000000000 };
    let mut info = ContractBillingInformation { previous_nu_reported: 0, last_updated: 50, amount_unbilled: 10 };
    report.calculate_report_cost_units_usd(&policy(), PERIOD, &mut info);
    assert_eq!(info, ContractBillingInformation { previous_nu_reported: 0, last_updated: 100, amount_unbilled: 15010 });
    let half = NruConsumption { contract_id: 1, timestamp: 200, window: 1800, nru: 5000000000 };
    half.calculate_report_cost_units_usd(&policy(), PERIOD, &mut info);
    assert_eq!(info.amount_unbilled, 15010 + 37500);
    assert_eq!(info.last_updated, 200);
}

#[test]
fn test_nru_stale_report_ignored() {
    let report = NruConsumption { contract_id: 1, timestamp: 10, window: 3600, nru: 1000000000 };
    let mut info = ContractBillingInformation { previous_nu_reported: 0, last_updated: 50, amount_unbilled: 10 };
    report.calculate_report_cost_units_usd(&policy(), PERIOD, &mut info);
    assert_eq!(info, ContractBillingInformation { previous_nu_reported: 0, last_updated: 50, amount_unbilled: 10 });
}

#[test]
fn test_policy_factors() {
    let p = Policy { value: 1, unit: Unit::Gigabytes };
    assert_eq!(p.factor_base_1024(), 1073741824);
    assert_eq!(p.factor_base_1000(), 1000000000);
    assert_eq!(Policy { value: 1, unit: Unit::Bytes }.factor_base_1024(), 1);
    assert_eq!(Policy { value: 1, unit: Unit::Terrabytes }.factor_base_1000(), 1000000000000);
}

#[test]
fn test_price_multipliers() {
    assert_eq!(DiscountLevel::NoDiscount.price_multiplier(), ONE);
    assert_eq!(DiscountLevel::Default.price_multiplier(), (0.8f64 * ONE as f64) as u128);
    assert_eq!(DiscountLevel::Bronze.price_multiplier(), (0.7f64 * ONE as f64) as u128);
    assert_eq!(DiscountLevel::Silver.price_multiplier(), (0.6f64 * ONE as f64) as u128);
    assert_eq!(DiscountLevel::Gold.price_multiplier(), (0.4f64 * ONE as f64) as u128);
}

#[test]
fn test_contract_cost_grows_with_time() {
    for (c, ctx) in [
        (node_contract(1), context(true, false, 15000)),
        (node_contract(0), context(true, true, 15000)),
        (rent_contract(), context(true, false, 0)),
        (name_contract(), context(false, false, 0)),
    ] {
        let mut last = 0;
        for secs in [0u64, 1, 2, 59, 600, 3599, 3600, 86400] {
            let cost = c.calculate_contract_cost_units_usd(&policy(), secs, &ctx).unwrap();
            assert!(cost >= last);
            last = cost;
        }
    }
}
