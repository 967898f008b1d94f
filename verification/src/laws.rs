//! Properties of billing and migration that hold for all inputs.
use crate::contract_migration::{migrate_ips, version_after_v4, version_after_v5};
use crate::contract_migration::PublicIpCheck;
use crate::cost::{
    after_report, contract_cost_computable, extra_fee_cost, service_bill_cost, service_bill_cost_fixed, cu_spec, su_spec, name_cost_fixed, nru_cost_fixed, report_computable,
    amount_due_monthly, certified_multiplier, clamped_tft_price, contract_cost_units_usd, cost_in_tft, cost_in_tft_fixed,
    cu_cost, discount_computable, discount_level, discount_level_of, discount_tft, discounted_fixed,
    ip_cost, ips_rate, months_covered, rate, rate_over, resources_cost, resources_cost_computable,
    resources_cost_fixed, resources_cu, resources_su, su_cost, ContractCostContext,
};
use crate::deprecated;
use crate::fixed::{
    fits, fx_round_int, lemma_fx_div_ints, frac_one, fx_div, fx_int, fx_mul, lemma_fx_div_antimono, lemma_fx_div_le,
    lemma_fx_div_mono, lemma_fx_mul_le, lemma_fx_mul_mono, lemma_round_int, lemma_round_mono,
};
use crate::percent::percent_of;
use crate::types::{
    price_multiplier_bits, unit_factor_1024, Contract, ContractBillingInformation, ContractData,
    DiscountLevel, Error,
    NruConsumption, ServiceContractBill, StorageVersion, unit_factor_1000,
    NodeCertification, PricingPolicy, Resources,
};
use vstd::prelude::*;

verus! {

/// The order of discount levels, from none to gold.
pub open spec fn discount_rank(level: DiscountLevel) -> int {
    match level {
        DiscountLevel::NoDiscount => 0,
        DiscountLevel::Default => 1,
        DiscountLevel::Bronze => 2,
        DiscountLevel::Silver => 3,
        DiscountLevel::Gold => 4,
    }
}

/// A contract costs nothing over no time.
pub proof fn law_no_time_no_cost(c: Contract, policy: PricingPolicy, ctx: ContractCostContext)
    ensures
        contract_cost_units_usd(c, policy, 0, ctx) == Ok::<int, Error>(0),
{
}

/// When nothing is due, nothing is billed and no discount is given.
pub proof fn law_nothing_due_no_discount(secs: int, balance: int, certification: NodeCertification)
    ensures
        discount_tft(0, secs, balance, certification) == (0int, DiscountLevel::NoDiscount),
{
}

/// On DIY capacity the discount never raises the amount due.
pub proof fn law_discount_never_raises_amount(amount: int, secs: int, balance: int)
    requires
        0 <= amount,
    ensures
        discount_tft(amount, secs, balance, NodeCertification::Diy).0 <= amount,
{
    if amount != 0 {
        let level = discount_level(amount, secs, balance);
        lemma_fx_mul_le(fx_int(amount), price_multiplier_bits(level));
        assert(0 <= fx_int(amount)) by (nonlinear_arith)
            requires
                0 <= amount,
                frac_one() > 0,
        ;
        lemma_round_mono(discounted_fixed(amount, level, NodeCertification::Diy), fx_int(amount));
        lemma_round_int(amount);
    }
}

/// A larger balance covers at least as many months: the discount level
/// never drops as the balance grows.
pub proof fn law_more_balance_no_lower_discount(amount: int, secs: int, b1: int, b2: int)
    requires
        amount_due_monthly(amount, secs) >= 1,
        0 <= b1 <= b2,
    ensures
        discount_rank(discount_level(amount, secs, b1)) <= discount_rank(discount_level(amount, secs, b2)),
{
    let monthly = amount_due_monthly(amount, secs);
    assert(fx_int(b1) <= fx_int(b2) && 0 <= fx_int(b1) && fx_int(monthly) > 0) by (nonlinear_arith)
        requires
            0 <= b1 <= b2,
            monthly >= 1,
            frac_one() > 0,
    ;
    lemma_fx_div_mono(fx_int(b1), fx_int(b2), fx_int(monthly));
    let d1 = months_covered(b1, monthly);
    let d2 = months_covered(b2, monthly);
    assert(d1 <= d2);
    assert(discount_rank(discount_level_of(d1)) <= discount_rank(discount_level_of(d2)));
}

/// A higher discount level multiplies the price by a smaller factor.
pub proof fn lemma_multiplier_antitone(l1: DiscountLevel, l2: DiscountLevel)
    requires
        discount_rank(l1) <= discount_rank(l2),
    ensures
        0 <= price_multiplier_bits(l2) <= price_multiplier_bits(l1),
{
}

/// With a larger balance, the amount due is never larger.
pub proof fn law_more_balance_never_costs_more(
    amount: int,
    secs: int,
    b1: int,
    b2: int,
    certification: NodeCertification,
)
    requires
        0 <= amount,
        0 <= b1 <= b2,
        discount_computable(amount, secs, b1, certification),
        discount_computable(amount, secs, b2, certification),
    ensures
        discount_tft(amount, secs, b2, certification).0 <= discount_tft(amount, secs, b1, certification).0,
{
    if amount != 0 {
        let l1 = discount_level(amount, secs, b1);
        let l2 = discount_level(amount, secs, b2);
        law_more_balance_no_lower_discount(amount, secs, b1, b2);
        lemma_multiplier_antitone(l1, l2);
        assert(0 <= fx_int(amount)) by (nonlinear_arith)
            requires
                0 <= amount,
                frac_one() > 0,
        ;
        lemma_fx_mul_mono(fx_int(amount), fx_int(amount), price_multiplier_bits(l2), price_multiplier_bits(l1));
        let d1 = fx_mul(fx_int(amount), price_multiplier_bits(l1));
        let d2 = fx_mul(fx_int(amount), price_multiplier_bits(l2));
        if certification == NodeCertification::Certified {
            lemma_fx_mul_mono(d2, d1, frac_one() * 5 / 4, frac_one() * 5 / 4);
        }
        lemma_round_mono(
            discounted_fixed(amount, l2, certification),
            discounted_fixed(amount, l1, certification),
        );
    }
}

/// The TFT price billing uses lies between the minimum and the maximum
/// price, and is the average price when that does.
pub proof fn law_tft_price_within_bounds(avg: int, min: int, max: int)
    requires
        min <= max,
    ensures
        min <= clamped_tft_price(avg, min, max) <= max,
        min <= avg <= max ==> clamped_tft_price(avg, min, max) == avg,
{
}

/// At a higher TFT price a cost converts to no more TFT.
pub proof fn law_higher_price_fewer_tft(cost: int, p1: int, p2: int)
    requires
        0 <= cost,
        1 <= p1 <= p2,
    ensures
        0 <= cost_in_tft(cost, p2) <= cost_in_tft(cost, p1),
{
    assert(0 <= fx_int(cost) && 1 <= fx_int(p1 * 10000) <= fx_int(p2 * 10000) && fx_int(10000000) >= 0)
        by (nonlinear_arith)
        requires
            0 <= cost,
            1 <= p1 <= p2,
            frac_one() > 0,
    ;
    lemma_fx_div_antimono(fx_int(cost), fx_int(p1 * 10000), fx_int(p2 * 10000));
    let q1 = fx_div(fx_int(cost), fx_int(p1 * 10000));
    let q2 = fx_div(fx_int(cost), fx_int(p2 * 10000));
    lemma_fx_mul_mono(q2, q1, fx_int(10000000), fx_int(10000000));
    lemma_round_mono(cost_in_tft_fixed(cost, p2), cost_in_tft_fixed(cost, p1));
}

/// A node contract on a node that has an active rent contract is not
/// billed for the resources its deployment uses.
pub proof fn law_rented_node_bills_no_resources(
    c: Contract,
    policy: PricingPolicy,
    secs: int,
    ctx: ContractCostContext,
    used: Resources,
)
    requires
        c.contract_type is NodeContract,
        ctx.node_has_active_rent_contract,
    ensures
        contract_cost_units_usd(c, policy, secs, ctx) == contract_cost_units_usd(
            c,
            policy,
            secs,
            ContractCostContext { node_contract_resources: used, ..ctx },
        ),
{
}

/// `Percent * x` is at most `x`.
pub proof fn lemma_percent_at_most(p: int, x: int)
    requires
        0 <= p,
        0 <= x,
    ensures
        0 <= percent_of(p, x) <= x,
{
    let parts = if p > 100 { 100 } else { p };
    let t = x * parts;
    assert(0 <= t <= x * 100) by (nonlinear_arith)
        requires
            0 <= x,
            0 <= parts <= 100,
            t == x * parts,
    ;
    assert(t / 100 + (if t % 100 > 50 { 1int } else { 0int }) <= x);
}

/// A rent contract costs at most the full price of its node's resources:
/// the dedication share never exceeds the whole.
pub proof fn law_rent_at_most_full_price(
    c: Contract,
    policy: PricingPolicy,
    secs: int,
    ctx: ContractCostContext,
    res: Resources,
)
    requires
        c.contract_type is RentContract,
        ctx.node_resources == Some(res),
        secs != 0,
        resources_cost_computable(res, 0, secs, policy, ctx.billing_reference_period as int, true),
    ensures
        contract_cost_units_usd(c, policy, secs, ctx) matches Ok(cost) && 0 <= cost <= resources_cost(
            res,
            0,
            secs,
            policy,
            ctx.billing_reference_period as int,
            true,
        ),
{
    let period = ctx.billing_reference_period as int;
    let total = resources_cost_fixed(res, 0, secs, policy, period, true);
    lemma_round_mono(0, total);
    lemma_percent_at_most(
        policy.discount_for_dedication_nodes as int,
        resources_cost(res, 0, secs, policy, period, true),
    );
}

/// The price per second is never negative.
proof fn lemma_rate_nonneg(value: int, period: int)
    requires
        0 <= value,
        period > 0,
    ensures
        rate(value, period) >= 0,
{
    assert(0 <= fx_int(value) && fx_int(period) >= frac_one()) by (nonlinear_arith)
        requires
            0 <= value,
            period > 0,
            frac_one() > 0,
    ;
    lemma_fx_div_le(fx_int(value), fx_int(period));
}

/// `rate * seconds` grows with the seconds.
proof fn lemma_rate_over_mono(value: int, period: int, s1: int, s2: int)
    requires
        0 <= value,
        period > 0,
        0 <= s1 <= s2,
    ensures
        0 <= rate_over(value, period, s1) <= rate_over(value, period, s2),
{
    lemma_rate_nonneg(value, period);
    assert(0 <= fx_int(s1) <= fx_int(s2)) by (nonlinear_arith)
        requires
            0 <= s1 <= s2,
            frac_one() > 0,
    ;
    lemma_fx_mul_mono(rate(value, period), rate(value, period), fx_int(s1), fx_int(s2));
}

/// The storage and compute units of resources are never negative.
proof fn lemma_units_nonneg(r: Resources, policy: PricingPolicy)
    ensures
        resources_su(r, policy) >= 0,
        resources_cu(r, policy) >= 0,
{
    assert(fx_int(r.hru as int) >= 0 && fx_int(r.sru as int) >= 0 && fx_int(r.mru as int) >= 0 && fx_int(
        r.cru as int,
    ) >= 0) by (nonlinear_arith)
        requires
            frac_one() > 0,
            r.hru >= 0,
            r.sru >= 0,
            r.mru >= 0,
            r.cru >= 0,
    ;
    assert(unit_factor_1024(policy.su.unit) >= 1);
    assert(unit_factor_1024(policy.cu.unit) >= 1);
    vstd::arithmetic::div_mod::lemma_div_pos_is_pos(fx_int(r.hru as int), unit_factor_1024(policy.su.unit));
    vstd::arithmetic::div_mod::lemma_div_pos_is_pos(fx_int(r.sru as int), unit_factor_1024(policy.su.unit));
    vstd::arithmetic::div_mod::lemma_div_pos_is_pos(fx_int(r.mru as int), unit_factor_1024(policy.cu.unit));
}

/// The longer the time, the higher (or equal) the cost of resources and
/// IPs.
pub proof fn law_resources_cost_grows_with_time(
    r: Resources,
    ipu: int,
    s1: int,
    s2: int,
    policy: PricingPolicy,
    period: int,
    bill_resources: bool,
)
    requires
        0 <= ipu,
        0 <= s1 <= s2,
        period > 0,
    ensures
        0 <= resources_cost(r, ipu, s1, policy, period, bill_resources) <= resources_cost(
            r,
            ipu,
            s2,
            policy,
            period,
            bill_resources,
        ),
{
    lemma_units_nonneg(r, policy);
    lemma_rate_over_mono(policy.su.value as int, period, s1, s2);
    lemma_rate_over_mono(policy.cu.value as int, period, s1, s2);
    lemma_fx_mul_mono(
        rate_over(policy.su.value as int, period, s1),
        rate_over(policy.su.value as int, period, s2),
        resources_su(r, policy),
        resources_su(r, policy),
    );
    lemma_fx_mul_mono(
        rate_over(policy.cu.value as int, period, s1),
        rate_over(policy.cu.value as int, period, s2),
        resources_cu(r, policy),
        resources_cu(r, policy),
    );
    lemma_rate_nonneg(policy.ipu.value as int, period);
    assert(0 <= fx_int(ipu) && 0 <= fx_int(s1) <= fx_int(s2)) by (nonlinear_arith)
        requires
            0 <= ipu,
            0 <= s1 <= s2,
            frac_one() > 0,
    ;
    lemma_fx_mul_mono(fx_int(ipu), fx_int(ipu), rate(policy.ipu.value as int, period), rate(policy.ipu.value as int, period));
    lemma_fx_mul_mono(ips_rate(ipu, policy, period), ips_rate(ipu, policy, period), fx_int(s1), fx_int(s2));
    assert(0 <= su_cost(r, s1, policy, period) <= su_cost(r, s2, policy, period));
    assert(0 <= cu_cost(r, s1, policy, period) <= cu_cost(r, s2, policy, period));
    assert(0 <= ip_cost(ipu, s1, policy, period) <= ip_cost(ipu, s2, policy, period));
    lemma_round_mono(
        resources_cost_fixed(r, ipu, s1, policy, period, bill_resources),
        resources_cost_fixed(r, ipu, s2, policy, period, bill_resources),
    );
}

/// A migrated node contract keeps no more public IPs than the limit, and no
/// more than it had.
pub proof fn law_kept_ips_bounded(old: Seq<deprecated::PublicIP>, checks: Seq<PublicIpCheck>, max: int)
    requires
        0 <= max,
    ensures
        migrate_ips(old, checks, max).0.len() <= max,
        migrate_ips(old, checks, max).0.len() <= old.len(),
    decreases old.len(),
{
    if old.len() > 0 {
        law_kept_ips_bounded(old.drop_last(), checks, max);
    }
}

/// A node contract whose public IPs all parse, and are no more than the
/// limit, keeps them all and frees none.
pub proof fn law_valid_ips_all_kept(old: Seq<deprecated::PublicIP>, checks: Seq<PublicIpCheck>, max: int)
    requires
        old.len() <= max,
        checks.len() >= old.len(),
        forall|i: int| #![trigger checks[i]] 0 <= i < old.len() ==> checks[i].ip_valid && checks[i].gateway_valid,
    ensures
        migrate_ips(old, checks, max).0.len() == old.len(),
        !migrate_ips(old, checks, max).1,
    decreases old.len(),
{
    if old.len() > 0 {
        law_valid_ips_all_kept(old.drop_last(), checks, max);
        assert(checks[old.len() - 1].ip_valid && checks[old.len() - 1].gateway_valid);
    }
}

/// Certified capacity never costs less than DIY capacity, at the same
/// discount level.
pub proof fn law_certified_costs_more(amount: int, secs: int, balance: int)
    requires
        0 <= amount,
    ensures
        discount_tft(amount, secs, balance, NodeCertification::Certified).1 == discount_tft(
            amount,
            secs,
            balance,
            NodeCertification::Diy,
        ).1,
        discount_tft(amount, secs, balance, NodeCertification::Diy).0 <= discount_tft(
            amount,
            secs,
            balance,
            NodeCertification::Certified,
        ).0,
{
    if amount != 0 {
        let level = discount_level(amount, secs, balance);
        let d = fx_mul(fx_int(amount), price_multiplier_bits(level));
        assert(0 <= fx_int(amount)) by (nonlinear_arith)
            requires
                0 <= amount,
                frac_one() > 0,
        ;
        lemma_fx_mul_mono(fx_int(amount), fx_int(amount), 0, price_multiplier_bits(level));
        assert(fx_mul(0, price_multiplier_bits(level)) == 0);
        assert(d <= fx_mul(d, frac_one() * 5 / 4)) by (nonlinear_arith)
            requires
                0 <= d,
                frac_one() == 0x1_0000_0000_0000_0000,
        {
            assert(d * frac_one() <= d * (frac_one() * 5 / 4));
            vstd::arithmetic::div_mod::lemma_div_multiples_vanish(d, frac_one());
            vstd::arithmetic::div_mod::lemma_div_is_ordered(d * frac_one(), d * (frac_one() * 5 / 4), frac_one());
        }
        lemma_round_mono(d, fx_mul(d, frac_one() * 5 / 4));
    }
}

/// The migration to version 4 runs once: after it the storage is not at
/// version 3, so running it again changes nothing and weighs nothing.
pub proof fn law_migration_to_v4_runs_once(version: StorageVersion)
    ensures
        version_after_v4(version) != StorageVersion::V3,
        version_after_v4(version_after_v4(version)) == version_after_v4(version),
{
}

/// The migration of the active rent contracts runs once: after it the
/// storage is not at version 4, so running it again changes nothing and
/// weighs nothing.
pub proof fn law_rent_migration_runs_once(version: StorageVersion)
    ensures
        version_after_v5(version) != StorageVersion::V4,
        version_after_v5(version_after_v5(version)) == version_after_v5(version),
{
}

/// The upgrade brings storage at version 3 or 4 to version 5.
pub proof fn law_upgrade_reaches_v5(version: StorageVersion)
    requires
        version == StorageVersion::V3 || version == StorageVersion::V4,
    ensures
        version_after_v5(version_after_v4(version)) == StorageVersion::V5,
{
}

/// A network report never lowers a contract's unbilled amount nor its last
/// update.
pub proof fn law_report_never_lowers_billing(
    info: ContractBillingInformation,
    report: NruConsumption,
    policy: PricingPolicy,
    period: int,
)
    requires
        report_computable(info, report, policy, period),
    ensures
        after_report(info, report, policy, period).amount_unbilled >= info.amount_unbilled,
        after_report(info, report, policy, period).last_updated >= info.last_updated,
{
    if report.timestamp >= info.last_updated {
        let cost = nru_cost_fixed(report, policy, period);
        assert(fits(cost));
        lemma_round_mono(0, cost);
    }
}

/// `Percent * x` grows with `x`.
pub proof fn lemma_percent_mono(p: int, x1: int, x2: int)
    requires
        0 <= p,
        0 <= x1 <= x2,
    ensures
        percent_of(p, x1) <= percent_of(p, x2),
{
    let parts = if p > 100 { 100 } else { p };
    let t1 = x1 * parts;
    let t2 = x2 * parts;
    assert(0 <= t1 <= t2) by (nonlinear_arith)
        requires
            0 <= x1 <= x2,
            0 <= parts,
            t1 == x1 * parts,
            t2 == x2 * parts,
    ;
    // rounding half down is `(t + 49) / 100`
    assert(percent_of(p, x1) == (t1 + 49) / 100);
    assert(percent_of(p, x2) == (t2 + 49) / 100);
    vstd::arithmetic::div_mod::lemma_div_is_ordered(t1 + 49, t2 + 49, 100);
}

/// A longer time never makes a contract cost less: with the same contract,
/// pricing policy and chain data, the cost over `s1` seconds is at most the
/// cost over `s2 >= s1` seconds, whenever both can be computed.
pub proof fn law_contract_cost_grows_with_time(
    c: Contract,
    policy: PricingPolicy,
    ctx: ContractCostContext,
    s1: int,
    s2: int,
)
    requires
        0 <= s1 <= s2,
        contract_cost_computable(c, policy, s1, ctx),
        contract_cost_computable(c, policy, s2, ctx),
        contract_cost_units_usd(c, policy, s1, ctx) is Ok,
        contract_cost_units_usd(c, policy, s2, ctx) is Ok,
    ensures
        contract_cost_units_usd(c, policy, s1, ctx) matches Ok(cost1) && contract_cost_units_usd(
            c,
            policy,
            s2,
            ctx,
        ) matches Ok(cost2) && 0 <= cost1 <= cost2,
{
    let period = ctx.billing_reference_period as int;
    if s2 == 0 {
        return;
    }
    match c.contract_type {
        ContractData::NodeContract(nc) => {
            let bill = !ctx.node_has_active_rent_contract;
            let ipu = nc.public_ips as int;
            if bill || ipu > 0 {
                law_resources_cost_grows_with_time(ctx.node_contract_resources, ipu, s1, s2, policy, period, bill);
                law_resources_cost_grows_with_time(ctx.node_contract_resources, ipu, 0, s1, policy, period, bill);
            } else {
                assert(resources_cost_fixed(ctx.node_contract_resources, ipu, s1, policy, period, bill) == 0);
                assert(resources_cost_fixed(ctx.node_contract_resources, ipu, s2, policy, period, bill) == 0);
            }
        },
        ContractData::RentContract(_) => {
            let res = ctx.node_resources->0;
            law_resources_cost_grows_with_time(res, 0, s1, s2, policy, period, true);
            law_resources_cost_grows_with_time(res, 0, 0, s1, policy, period, true);
            let x1 = resources_cost(res, 0, s1, policy, period, true);
            let x2 = resources_cost(res, 0, s2, policy, period, true);
            lemma_percent_mono(policy.discount_for_dedication_nodes as int, x1, x2);
            lemma_percent_at_most(policy.discount_for_dedication_nodes as int, x1);
            lemma_percent_mono(policy.discount_for_dedication_nodes as int, 0, x1);
        },
        ContractData::NameContract(_) => {
            lemma_rate_over_mono(policy.unique_name.value as int, period, s1, s2);
            lemma_round_mono(name_cost_fixed(policy, period, s1), name_cost_fixed(policy, period, s2));
        },
    }
}

/// Storage units add up over the disks: the units of `hru` disk and `sru`
/// SSD (fixed-point bits) are `hru / 1200` plus `sru / 200`, the units of
/// the disk alone plus those of the SSD alone.
pub proof fn law_storage_units_add_up(hru: int, sru: int)
    requires
        0 <= hru,
        0 <= sru,
    ensures
        su_spec(hru, 0) == hru / 1200,
        su_spec(0, sru) == sru / 200,
        su_spec(hru, sru) == su_spec(hru, 0) + su_spec(0, sru),
{
}

/// The storage units of a node's resources are those of its disk plus
/// those of its SSD, each in the policy's storage unit.
pub proof fn law_resources_storage_units_add_up(r: Resources, policy: PricingPolicy)
    ensures
        resources_su(r, policy) == (fx_int(r.hru as int) / unit_factor_1024(policy.su.unit)) / 1200
            + (fx_int(r.sru as int) / unit_factor_1024(policy.su.unit)) / 200,
{
}

/// The compute units of `cru` cores and `mru` memory (fixed-point bits)
/// are the least of `max(mru / 4, cru / 2)`, `max(mru / 8, cru)` and
/// `max(mru / 2, cru / 4)`: at most each of them, and equal to one of them.
pub proof fn law_compute_units_least_of_three(cru: int, mru: int)
    ensures
        cu_spec(cru, mru) <= (if mru / 4 >= cru / 2 { mru / 4 } else { cru / 2 }),
        cu_spec(cru, mru) <= (if mru / 8 >= cru { mru / 8 } else { cru }),
        cu_spec(cru, mru) <= (if mru / 2 >= cru / 4 { mru / 2 } else { cru / 4 }),
        cu_spec(cru, mru) == (if mru / 4 >= cru / 2 { mru / 4 } else { cru / 2 })
            || cu_spec(cru, mru) == (if mru / 8 >= cru { mru / 8 } else { cru })
            || cu_spec(cru, mru) == (if mru / 2 >= cru / 4 { mru / 2 } else { cru / 4 }),
{
}

/// The discount levels follow the documented thresholds on the months
/// `d` (fixed-point bits) the balance covers: none below 1.5, default from
/// 1.5 to 3, bronze from 3 to 6, silver from 6 to 18, gold from 18.
pub proof fn law_discount_thresholds(d: int)
    ensures
        discount_level_of(d) == DiscountLevel::NoDiscount <==> d < 27670116110564327424,
        discount_level_of(d) == DiscountLevel::Default <==> 27670116110564327424 <= d < 55340232221128654848,
        discount_level_of(d) == DiscountLevel::Bronze <==> 55340232221128654848 <= d < 110680464442257309696,
        discount_level_of(d) == DiscountLevel::Silver <==> 110680464442257309696 <= d < 332041393326771929088,
        discount_level_of(d) == DiscountLevel::Gold <==> 332041393326771929088 <= d,
        27670116110564327424 == frac_one() * 3 / 2,
        55340232221128654848 == frac_one() * 3,
        110680464442257309696 == frac_one() * 6,
        332041393326771929088 == frac_one() * 18,
{
}

/// The discount factors are 1, 0.8, 0.7, 0.6 and 0.4 (20%, 30%, 40% and
/// 60% off), each within `2^-52` of the decimal value.
pub proof fn law_discount_factors()
    ensures
        price_multiplier_bits(DiscountLevel::NoDiscount) == frac_one(),
        0 <= price_multiplier_bits(DiscountLevel::Default) * 10 - 8 * frac_one() < 0x10000,
        0 <= 7 * frac_one() - price_multiplier_bits(DiscountLevel::Bronze) * 10 < 0x10000,
        0 <= 6 * frac_one() - price_multiplier_bits(DiscountLevel::Silver) * 10 < 0x10000,
        0 <= price_multiplier_bits(DiscountLevel::Gold) * 10 - 4 * frac_one() < 0x10000,
        certified_multiplier() * 4 == 5 * frac_one(),
{
}

/// The dedication share of an amount is the percentage of it rounded to
/// the nearest unit (an exact half rounds down), and the whole amount for
/// a percentage of 100 or more.
pub proof fn law_percent_share(p: int, x: int)
    requires
        0 <= x,
    ensures
        0 <= p <= 100 ==> -50 <= 100 * percent_of(p, x) - x * p < 50,
        p >= 100 ==> percent_of(p, x) == x,
{
    if p >= 100 {
        assert(x * 100 / 100 == x);
        assert((x * 100) % 100 == 0);
    }
}

/// Multiplying a fixed-point number by an integer is exact.
proof fn lemma_fx_mul_by_int(x: int, k: int)
    requires
        0 <= x,
        0 <= k,
    ensures
        fx_mul(x, fx_int(k)) == x * k,
{
    assert(x * (k * frac_one()) == (x * k) * frac_one()) by (nonlinear_arith);
    vstd::arithmetic::div_mod::lemma_div_by_multiple(x * k, frac_one());
    assert(0 <= x * k) by (nonlinear_arith)
        requires
            0 <= x,
            0 <= k,
    ;
}

/// A cost of `cost` units USD at `price` mUSD per TFT converts to
/// `cost * 1000 / price` units TFT, rounded to the nearest unit: the result
/// is within one half of that quotient.
pub proof fn law_tft_conversion(cost: int, price: int)
    requires
        0 <= cost,
        1 <= price <= 429496,
    ensures
        2 * cost_in_tft(cost, price) * price <= 2000 * cost + price,
        2000 * cost <= 2 * cost_in_tft(cost, price) * price + price,
{
    let f = frac_one();
    let d = price * 10000;
    assert(0 <= fx_int(cost)) by (nonlinear_arith)
        requires
            0 <= cost,
            f > 0,
    ;
    lemma_fx_div_ints(cost, d);
    let q = fx_int(cost) / d;
    assert(0 <= q) by (nonlinear_arith)
        requires
            0 <= fx_int(cost),
            d > 0,
            q == fx_int(cost) / d,
    ;
    lemma_fx_mul_by_int(q, 10000000);
    let v = q * 10000000;
    assert(cost_in_tft_fixed(cost, price) == v);
    let r = fx_round_int(v);
    // q * d <= cost * f < (q + 1) * d
    vstd::arithmetic::div_mod::lemma_fundamental_div_mod(fx_int(cost), d);
    vstd::arithmetic::div_mod::lemma_mod_bound(fx_int(cost), d);
    vstd::arithmetic::div_mod::lemma_fundamental_div_mod(v + f / 2, f);
    vstd::arithmetic::div_mod::lemma_mod_bound(v + f / 2, f);
    let m = fx_int(cost) % d;
    assert(q * d <= cost * f < (q + 1) * d) by (nonlinear_arith)
        requires
            fx_int(cost) == d * q + m,
            0 <= m < d,
            fx_int(cost) == cost * f,
    ;
    assert(2 * r * price <= 2000 * cost + price) by (nonlinear_arith)
        requires
            f == 0x1_0000_0000_0000_0000,
            d == price * 10000,
            price >= 1,
            q * d <= cost * f,
            v == q * 10000000,
            r * f <= v + f / 2,
    {
        assert(v * d == q * d * 10000000);
        assert(v * d <= cost * f * 10000000);
        assert(v * price <= cost * f * 1000);
        assert(r * f * price <= v * price + (f / 2) * price);
        assert(r * f * price <= cost * f * 1000 + (f / 2) * price);
        assert(2 * r * price * f <= (2000 * cost + price) * f);
    }
    assert(2000 * cost <= 2 * r * price + price) by (nonlinear_arith)
        requires
            f == 0x1_0000_0000_0000_0000,
            d == price * 10000,
            1 <= price <= 429496,
            cost * f < (q + 1) * d,
            v == q * 10000000,
            v + f / 2 < (r + 1) * f,
    {
        assert(cost * f * 1000 < (q + 1) * price * 10000000);
        assert(cost * f * 1000 < v * price + 10000000 * price);
        assert(v * price < ((r + 1) * f - f / 2) * price);
        assert(cost * f * 1000 < ((r + 1) * f - f / 2) * price + 10000000 * price);
        assert(2000 * cost * f < (2 * r * price + price) * f + 20000000 * price);
        assert(20000000 * price < f);
    }
}

/// The price per second times one billing period is the price itself, up to
/// less than one bit per second of the period.
proof fn lemma_rate_over_period(v: int, p: int)
    requires
        0 <= v,
        1 <= p,
    ensures
        v * frac_one() - p < rate_over(v, p, p) <= v * frac_one(),
        rate(v, p) == v * frac_one() / p,
        0 <= rate(v, p),
        rate_over(v, p, p) == rate(v, p) * p,
        0 <= rate_over(v, p, p),
{
    let f = frac_one();
    assert(0 <= fx_int(v)) by (nonlinear_arith)
        requires
            0 <= v,
            f > 0,
    ;
    lemma_fx_div_ints(v, p);
    let q = fx_int(v) / p;
    vstd::arithmetic::div_mod::lemma_fundamental_div_mod(fx_int(v), p);
    vstd::arithmetic::div_mod::lemma_mod_bound(fx_int(v), p);
    vstd::arithmetic::div_mod::lemma_div_pos_is_pos(fx_int(v), p);
    lemma_fx_mul_by_int(q, p);
    let m = fx_int(v) % p;
    assert(v * f - p < q * p <= v * f && 0 <= q * p) by (nonlinear_arith)
        requires
            fx_int(v) == p * q + m,
            0 <= m < p,
            fx_int(v) == v * f,
            0 <= q,
            1 <= p,
    ;
}

/// `w * k` where `w` is within `p` below `v` (fixed-point) is within
/// `k * p` below `v * k`.
proof fn lemma_scaled_bounds(w: int, v: int, p: int, k: int)
    requires
        v * frac_one() - p < w <= v * frac_one(),
        0 <= w,
        0 <= k,
    ensures
        fx_mul(w, fx_int(k)) == w * k,
        v * k * frac_one() - k * p <= w * k <= v * k * frac_one(),
{
    lemma_fx_mul_by_int(w, k);
    assert(v * k * frac_one() - k * p <= w * k <= v * k * frac_one()) by (nonlinear_arith)
        requires
            v * frac_one() - p < w <= v * frac_one(),
            0 <= k,
    ;
}

/// Over one billing period, resources whose storage and compute units are
/// whole numbers `s` and `c` cost `s` times the storage price plus `c` times
/// the compute price, and `ipu` public IPs cost `ipu` times the IP price:
/// each unit is billed at its policy price per period.
pub proof fn law_one_period_costs_the_policy_prices(
    r: Resources,
    ipu: int,
    policy: PricingPolicy,
    period: int,
    s: int,
    c: int,
)
    requires
        1 <= period,
        0 <= ipu,
        0 <= s,
        0 <= c,
        resources_su(r, policy) == fx_int(s),
        resources_cu(r, policy) == fx_int(c),
        (s + c + ipu) * period <= 0x4000_0000_0000_0000,
    ensures
        resources_cost(r, ipu, period, policy, period, true) == policy.su.value * s + policy.cu.value * c
            + ipu * policy.ipu.value,
        resources_cost(r, ipu, period, policy, period, false) == ipu * policy.ipu.value,
{
    let f = frac_one();
    let vs = policy.su.value as int;
    let vc = policy.cu.value as int;
    let vi = policy.ipu.value as int;
    lemma_rate_over_period(vs, period);
    lemma_rate_over_period(vc, period);
    lemma_rate_over_period(vi, period);
    lemma_rate_nonneg(vs, period);
    lemma_rate_nonneg(vc, period);
    lemma_rate_nonneg(vi, period);
    let ws = rate_over(vs, period, period);
    let wc = rate_over(vc, period, period);
    let wi = rate_over(vi, period, period);
    lemma_scaled_bounds(ws, vs, period, s);
    lemma_scaled_bounds(wc, vc, period, c);
    lemma_scaled_bounds(wi, vi, period, ipu);
    let su_part = su_cost(r, period, policy, period);
    let cu_part = cu_cost(r, period, policy, period);
    let ip_part = ip_cost(ipu, period, policy, period);
    assert(su_part == ws * s);
    assert(cu_part == wc * c);
    // the IPs: ipu * rate, then times the period
    let rt = rate(vi, period);
    assert(ips_rate(ipu, policy, period) == ipu * rt) by {
        assert(fx_int(ipu) * rt == (ipu * rt) * f) by (nonlinear_arith)
            requires
                fx_int(ipu) == ipu * f,
        ;
        assert(0 <= ipu * rt) by (nonlinear_arith)
            requires
                0 <= ipu,
                0 <= rt,
        ;
        vstd::arithmetic::div_mod::lemma_div_by_multiple(ipu * rt, f);
    }
    assert(0 <= ipu * rt) by (nonlinear_arith)
        requires
            0 <= ipu,
            0 <= rt,
    ;
    lemma_fx_mul_by_int(ipu * rt, period);
    assert(ip_part == wi * ipu) by (nonlinear_arith)
        requires
            ip_part == ipu * rt * period,
            wi == rt * period,
    ;
    let expected_bill = vs * s + vc * c + ipu * vi;
    let expected_ips = ipu * vi;
    let total_bill = resources_cost_fixed(r, ipu, period, policy, period, true);
    let total_ips = resources_cost_fixed(r, ipu, period, policy, period, false);
    assert(total_bill == su_part + cu_part + ip_part);
    assert(total_ips == ip_part);
    assert(expected_bill * f - f / 2 < total_bill <= expected_bill * f) by (nonlinear_arith)
        requires
            vs * s * f - s * period <= su_part <= vs * s * f,
            vc * c * f - c * period <= cu_part <= vc * c * f,
            vi * ipu * f - ipu * period <= ip_part <= vi * ipu * f,
            (s + c + ipu) * period <= 0x4000_0000_0000_0000,
            f == 0x1_0000_0000_0000_0000,
            total_bill == su_part + cu_part + ip_part,
            expected_bill == vs * s + vc * c + ipu * vi,
    ;
    assert(ipu * period <= 0x4000_0000_0000_0000) by (nonlinear_arith)
        requires
            (s + c + ipu) * period <= 0x4000_0000_0000_0000,
            0 <= s,
            0 <= c,
            1 <= period,
    ;
    assert(expected_ips * f - f / 2 < total_ips <= expected_ips * f) by (nonlinear_arith)
        requires
            vi * ipu * f - ipu * period <= ip_part <= vi * ipu * f,
            ipu * period <= 0x4000_0000_0000_0000,
            f == 0x1_0000_0000_0000_0000,
            total_ips == ip_part,
            expected_ips == ipu * vi,
    ;
    lemma_round_near(total_bill, expected_bill);
    lemma_round_near(total_ips, expected_ips);
}

/// A fixed-point number less than half below an integer rounds to it.
proof fn lemma_round_near(x: int, n: int)
    requires
        n * frac_one() - frac_one() / 2 < x <= n * frac_one(),
    ensures
        fx_round_int(x) == n,
{
    let f = frac_one();
    assert(n * f <= x + f / 2 < n * f + f);
    vstd::arithmetic::div_mod::lemma_fundamental_div_mod(x + f / 2, f);
    vstd::arithmetic::div_mod::lemma_mod_bound(x + f / 2, f);
    let q = (x + f / 2) / f;
    let m = (x + f / 2) % f;
    assert(q == n) by (nonlinear_arith)
        requires
            x + f / 2 == f * q + m,
            0 <= m < f,
            n * f <= x + f / 2 < n * f + f,
            f > 0,
    ;
}

/// A name contract costs the policy's name price per billing period.
pub proof fn law_name_costs_its_price_per_period(c: Contract, policy: PricingPolicy, ctx: ContractCostContext)
    requires
        c.contract_type is NameContract,
        1 <= ctx.billing_reference_period <= 0x4000_0000_0000_0000,
    ensures
        contract_cost_units_usd(c, policy, ctx.billing_reference_period as int, ctx) == Ok::<int, Error>(
            policy.unique_name.value as int,
        ),
{
    let p = ctx.billing_reference_period as int;
    let v = policy.unique_name.value as int;
    lemma_rate_over_period(v, p);
    assert(v * frac_one() - frac_one() / 2 < rate_over(v, p, p));
    lemma_round_near(name_cost_fixed(policy, p, p), v);
}

/// A service bill covering one billing period costs the base fee plus the
/// variable amount, both converted from mUSD to units USD.
pub proof fn law_service_bill_over_one_period(base_fee: int, bill: ServiceContractBill, period: int)
    requires
        0 <= base_fee,
        1 <= period,
        bill.window == period,
    ensures
        service_bill_cost(base_fee, bill, period) == base_fee * 10000 + bill.variable_amount * 10000,
{
    let f = frac_one();
    let b = base_fee * 10000;
    let v = bill.variable_amount * 10000;
    assert(fx_mul(fx_int(b), fx_int(period)) == fx_int(b * period)) by {
        crate::fixed::lemma_fx_mul_ints(b, period);
    }
    assert(0 <= b * period) by (nonlinear_arith)
        requires
            0 <= b,
            1 <= period,
    ;
    lemma_fx_div_ints(b * period, period);
    assert(fx_int(b * period) / period == fx_int(b)) by {
        assert(fx_int(b * period) == (b * f) * period) by (nonlinear_arith)
            requires
                fx_int(b * period) == b * period * f,
        ;
        vstd::arithmetic::div_mod::lemma_div_by_multiple(b * f, period);
        assert(0 <= b * f) by (nonlinear_arith)
            requires
                0 <= b,
                f > 0,
        ;
    }
    assert(service_bill_cost_fixed(base_fee, bill, period) == (b + v) * f) by (nonlinear_arith)
        requires
            service_bill_cost_fixed(base_fee, bill, period) == fx_int(b) + fx_int(v),
            fx_int(b) == b * f,
            fx_int(v) == v * f,
    ;
    lemma_round_near((b + v) * f, b + v);
}

/// A dedicated node's extra fee over one month (30 days) is the fee,
/// converted from mUSD to units USD.
pub proof fn law_extra_fee_over_one_month(fee_musd: int)
    requires
        0 <= fee_musd,
    ensures
        extra_fee_cost(fee_musd, 2592000) == fee_musd * 10000,
{
    if fee_musd > 0 {
        let f = frac_one();
        let x = fee_musd * 10000 * 2592000;
        assert(0 <= x);
        lemma_fx_div_ints(x, 2592000);
        assert(fx_int(x) / 2592000 == (fee_musd * 10000) * f) by {
            assert(fx_int(x) == ((fee_musd * 10000) * f) * 2592000) by (nonlinear_arith)
                requires
                    fx_int(x) == x * f,
                    x == fee_musd * 10000 * 2592000,
            ;
            assert(0 <= (fee_musd * 10000) * f) by (nonlinear_arith)
                requires
                    0 <= fee_musd,
                    f > 0,
            ;
            vstd::arithmetic::div_mod::lemma_div_by_multiple((fee_musd * 10000) * f, 2592000);
        }
        lemma_round_near((fee_musd * 10000) * f, fee_musd * 10000);
    }
}

/// A network report covering one billing period for a whole number `u` of
/// network units (in the policy's network unit) adds `u` times the network
/// price to the unbilled amount.
pub proof fn law_report_over_one_period(
    info: ContractBillingInformation,
    report: NruConsumption,
    policy: PricingPolicy,
    period: int,
    u: int,
)
    requires
        1 <= period,
        0 <= u,
        report.window == period,
        report.nru == u * unit_factor_1000(policy.nu.unit),
        u * period <= 0x4000_0000_0000_0000,
        report.timestamp >= info.last_updated,
        info.amount_unbilled + u * policy.nu.value <= u64::MAX,
    ensures
        after_report(info, report, policy, period).amount_unbilled == info.amount_unbilled + u
            * policy.nu.value,
        after_report(info, report, policy, period).last_updated == report.timestamp,
{
    let f = frac_one();
    let fac = unit_factor_1000(policy.nu.unit);
    let vn = policy.nu.value as int;
    assert(fx_int(report.nru as int) / fac == u * f) by {
        assert(fx_int(report.nru as int) == (u * f) * fac) by (nonlinear_arith)
            requires
                fx_int(report.nru as int) == report.nru * f,
                report.nru == u * fac,
        ;
        assert(0 <= u * f) by (nonlinear_arith)
            requires
                0 <= u,
                f > 0,
        ;
        vstd::arithmetic::div_mod::lemma_div_by_multiple(u * f, fac);
    }
    lemma_rate_over_period(vn, period);
    let rt = rate(vn, period);
    // (u * f) * rate / f == u * rate
    assert(fx_mul(u * f, rt) == u * rt) by {
        assert((u * f) * rt == (u * rt) * f) by (nonlinear_arith);
        assert(0 <= u * rt) by (nonlinear_arith)
            requires
                0 <= u,
                0 <= rt,
        ;
        vstd::arithmetic::div_mod::lemma_div_by_multiple(u * rt, f);
    }
    assert(0 <= u * rt) by (nonlinear_arith)
        requires
            0 <= u,
            0 <= rt,
    ;
    lemma_fx_mul_by_int(u * rt, period);
    let w = rate_over(vn, period, period);
    let cost = nru_cost_fixed(report, policy, period);
    assert(cost == u * rt * period);
    assert(u * vn * f - f / 2 < cost <= u * vn * f) by (nonlinear_arith)
        requires
            vn * f - period < w <= vn * f,
            w == rt * period,
            cost == u * rt * period,
            0 <= u,
            u * period <= 0x4000_0000_0000_0000,
            f == 0x1_0000_0000_0000_0000,
    {
        assert(cost == u * w);
        assert(u * (vn * f - period) <= u * w);
        assert(u * w <= u * (vn * f));
    }
    lemma_round_near(cost, u * vn);
}

/// An amount due for one hour is due 720 times per month (24 hours, 30
/// days).
pub proof fn law_hourly_amount_per_month(amount: int)
    requires
        0 <= amount,
    ensures
        amount_due_monthly(amount, 3600) == amount * 720,
{
    let f = frac_one();
    crate::fixed::lemma_fx_mul_ints(amount, 3600);
    assert(0 <= amount * 3600) by (nonlinear_arith)
        requires
            0 <= amount,
    ;
    lemma_fx_div_ints(amount * 3600, 3600);
    assert(fx_int(amount * 3600) / 3600 == amount * f) by {
        assert(fx_int(amount * 3600) == (amount * f) * 3600) by (nonlinear_arith)
            requires
                fx_int(amount * 3600) == amount * 3600 * f,
        ;
        assert(0 <= amount * f) by (nonlinear_arith)
            requires
                0 <= amount,
                f > 0,
        ;
        vstd::arithmetic::div_mod::lemma_div_by_multiple(amount * f, 3600);
    }
    assert(amount * f * 24 * 30 == (amount * 720) * f) by (nonlinear_arith);
    lemma_round_near((amount * 720) * f, amount * 720);
}

} // verus!
