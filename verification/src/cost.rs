//! The cost of contracts: in units of USD from the pricing policy, in TFT
//! from the TFT price, and after the discount the payer's balance earns.
//!
//! All amounts computed with fractions are 64.64 fixed-point numbers
//! (see [`crate::fixed`]); the contracts below state each result over the
//! same truncating operations, and require that no intermediate value
//! overflows, as the fixed-point type panics (with debug assertions) when
//! one does.
use crate::fixed::{
    fits, fixed_add, fixed_div, fixed_div_int, fixed_from_u64, fixed_max, fixed_min, fixed_mul,
    fixed_mul_int, frac_one, fx_div, fx_int, fx_max, fx_min, fx_mul, fx_round, fx_round_int,
    lemma_fx_div_le, lemma_fx_div_ints, lemma_fx_mul_ints, lemma_round_fits, lemma_fx_mul_le, round_to_u64,
};
use crate::percent::{percent_mul, percent_of};
use crate::types::{
    unit_factor_1000, unit_factor_1024, price_multiplier_bits, Contract, ContractBillingInformation,
    ContractData, DiscountLevel, Error, NodeCertification, NruConsumption, PricingPolicy, Resources,
    ServiceContract, ServiceContractBill, SECS_PER_HOUR, SECS_PER_MONTH, UNITS_TFT_PER_TFT,
    UNITS_USD_PER_MUSD,
};
use vstd::prelude::*;

verus! {

// ---------------------------------------------------------------------------
// Capacity units
// ---------------------------------------------------------------------------

/// Storage units of the given disk and SSD amounts (fixed-point bits):
/// `hru / 1200 + sru / 200`.
pub open spec fn su_spec(hru: int, sru: int) -> int {
    hru / 1200 + sru / 200
}

/// Compute units of the given cores and memory (fixed-point bits):
/// the least of `max(mru / 4, cru / 2)`, `max(mru / 8, cru)` and
/// `max(mru / 2, cru / 4)`.
pub open spec fn cu_spec(cru: int, mru: int) -> int {
    fx_min(fx_min(fx_max(mru / 4, cru / 2), fx_max(mru / 8, cru)), fx_max(mru / 2, cru / 4))
}

/// Storage units of `hru` disk and `sru` SSD, both fixed-point bits.
fn calculate_su(hru: u128, sru: u128) -> (r: u128)
    ensures
        r == su_spec(hru as int, sru as int),
        r == hru / 1200 + sru / 200,
{
    let h = fixed_div_int(hru, 1200);
    let s = fixed_div_int(sru, 200);
    fixed_add(h, s)
}

/// Compute units of `cru` cores and `mru` memory, both fixed-point bits.
pub fn calculate_cu(cru: u128, mru: u128) -> (r: u128)
    ensures
        r == cu_spec(cru as int, mru as int),
        r <= (if mru / 4 >= cru / 2 { mru / 4 } else { cru / 2 }),
        r <= (if mru / 8 >= cru { mru / 8 } else { cru }),
        r <= (if mru / 2 >= cru / 4 { mru / 2 } else { cru / 4 }),
        r == (if mru / 4 >= cru / 2 { mru / 4 } else { cru / 2 })
            || r == (if mru / 8 >= cru { mru / 8 } else { cru })
            || r == (if mru / 2 >= cru / 4 { mru / 2 } else { cru / 4 }),
{
    // cu1 = MAX(mru/4, cru/2)
    let mru_1 = fixed_div_int(mru, 4);
    let cru_1 = fixed_div_int(cru, 2);
    let cu_1 = fixed_max(mru_1, cru_1);
    // cu2 = MAX(mru/8, cru)
    let mru_2 = fixed_div_int(mru, 8);
    let cru_2 = cru;
    let cu_2 = fixed_max(mru_2, cru_2);
    // cu3 = MAX(mru/2, cru/4)
    let mru_3 = fixed_div_int(mru, 2);
    let cru_3 = fixed_div_int(cru, 4);
    let cu_3 = fixed_max(mru_3, cru_3);
    // CU = MIN(cu1, cu2, cu3)
    fixed_min(fixed_min(cu_1, cu_2), cu_3)
}

// ---------------------------------------------------------------------------
// Cost of resources
// ---------------------------------------------------------------------------

/// The price per second of a policy value quoted per billing reference
/// period (fixed-point bits).
pub open spec fn rate(value: int, period: int) -> int {
    fx_div(fx_int(value), fx_int(period))
}

/// Storage units used by `r` under the policy's storage unit.
pub open spec fn resources_su(r: Resources, policy: PricingPolicy) -> int {
    su_spec(
        fx_int(r.hru as int) / unit_factor_1024(policy.su.unit),
        fx_int(r.sru as int) / unit_factor_1024(policy.su.unit),
    )
}

/// Compute units used by `r` under the policy's compute unit.
pub open spec fn resources_cu(r: Resources, policy: PricingPolicy) -> int {
    cu_spec(fx_int(r.cru as int), fx_int(r.mru as int) / unit_factor_1024(policy.cu.unit))
}

/// `rate * seconds` for a policy value.
pub open spec fn rate_over(value: int, period: int, secs: int) -> int {
    fx_mul(rate(value, period), fx_int(secs))
}

/// Cost (fixed-point) of the storage units of `r` over `secs` seconds.
pub open spec fn su_cost(r: Resources, secs: int, policy: PricingPolicy, period: int) -> int {
    fx_mul(rate_over(policy.su.value as int, period, secs), resources_su(r, policy))
}

/// Cost (fixed-point) of the compute units of `r` over `secs` seconds.
pub open spec fn cu_cost(r: Resources, secs: int, policy: PricingPolicy, period: int) -> int {
    fx_mul(rate_over(policy.cu.value as int, period, secs), resources_cu(r, policy))
}

/// `ipu * rate` of the public IP price.
pub open spec fn ips_rate(ipu: int, policy: PricingPolicy, period: int) -> int {
    fx_mul(fx_int(ipu), rate(policy.ipu.value as int, period))
}

/// Cost (fixed-point) of `ipu` public IPs over `secs` seconds.
pub open spec fn ip_cost(ipu: int, secs: int, policy: PricingPolicy, period: int) -> int {
    fx_mul(ips_rate(ipu, policy, period), fx_int(secs))
}

/// Cost (fixed-point) of resources and IPs: the resources only when they
/// are billed, the IPs only when there are some.
pub open spec fn resources_cost_fixed(
    r: Resources,
    ipu: int,
    secs: int,
    policy: PricingPolicy,
    period: int,
    bill_resources: bool,
) -> int {
    let resources = if bill_resources {
        su_cost(r, secs, policy, period) + cu_cost(r, secs, policy, period)
    } else {
        0
    };
    if ipu > 0 {
        resources + ip_cost(ipu, secs, policy, period)
    } else {
        resources
    }
}

/// Cost in units USD of resources and IPs: the fixed-point cost rounded to
/// the nearest integer.
pub open spec fn resources_cost(
    r: Resources,
    ipu: int,
    secs: int,
    policy: PricingPolicy,
    period: int,
    bill_resources: bool,
) -> int {
    fx_round_int(resources_cost_fixed(r, ipu, secs, policy, period, bill_resources))
}

/// The cost of resources and IPs can be computed: the billing reference
/// period is not zero where it is divided by, and no intermediate value
/// overflows.
pub open spec fn resources_cost_computable(
    r: Resources,
    ipu: int,
    secs: int,
    policy: PricingPolicy,
    period: int,
    bill_resources: bool,
) -> bool {
    &&& (bill_resources || ipu > 0) ==> period > 0
    &&& bill_resources ==> {
        &&& fits(rate_over(policy.su.value as int, period, secs))
        &&& fits(su_cost(r, secs, policy, period))
        &&& fits(rate_over(policy.cu.value as int, period, secs))
        &&& fits(cu_cost(r, secs, policy, period))
        &&& fits(su_cost(r, secs, policy, period) + cu_cost(r, secs, policy, period))
    }
    &&& ipu > 0 ==> {
        &&& fits(ips_rate(ipu, policy, period))
        &&& fits(ip_cost(ipu, secs, policy, period))
    }
    &&& fits(resources_cost_fixed(r, ipu, secs, policy, period, bill_resources))
    &&& fits(fx_round(resources_cost_fixed(r, ipu, secs, policy, period, bill_resources)))
}

/// The price per second of `value` per `period`.
fn price_per_second(value: u32, billing_reference_period: u64) -> (r: u128)
    requires
        billing_reference_period > 0,
    ensures
        r == rate(value as int, billing_reference_period as int),
{
    proof {
        lemma_fx_div_le(fx_int(value as int), fx_int(billing_reference_period as int));
    }
    fixed_div(fixed_from_u64(value as u64), fixed_from_u64(billing_reference_period))
}

/// Cost in units USD of the resources `resources` (when `bill_resources`)
/// and of `ipu` public IPs over `seconds_elapsed` seconds.
pub fn calculate_resources_cost_units_usd(
    resources: Resources,
    ipu: u32,
    seconds_elapsed: u64,
    pricing_policy: &PricingPolicy,
    billing_reference_period: u64,
    bill_resources: bool,
) -> (r: u64)
    requires
        resources_cost_computable(
            resources,
            ipu as int,
            seconds_elapsed as int,
            *pricing_policy,
            billing_reference_period as int,
            bill_resources,
        ),
    ensures
        r == resources_cost(
            resources,
            ipu as int,
            seconds_elapsed as int,
            *pricing_policy,
            billing_reference_period as int,
            bill_resources,
        ),
{
    let mut total_cost: u128 = fixed_from_u64(0);

    if bill_resources {
        let su_factor = pricing_policy.su.factor_base_1024();
        let cu_factor = pricing_policy.cu.factor_base_1024();
        let hru = fixed_div_int(fixed_from_u64(resources.hru), su_factor);
        let sru = fixed_div_int(fixed_from_u64(resources.sru), su_factor);
        let mru = fixed_div_int(fixed_from_u64(resources.mru), cu_factor);
        let cru = fixed_from_u64(resources.cru);

        let su = calculate_su(hru, sru);

        // The policy's price is per billing reference period: bill it per
        // second, times the seconds elapsed.
        let su_rate = price_per_second(pricing_policy.su.value, billing_reference_period);
        let su_cost = fixed_mul(fixed_mul(su_rate, fixed_from_u64(seconds_elapsed)), su);

        let cu = calculate_cu(cru, mru);

        let cu_rate = price_per_second(pricing_policy.cu.value, billing_reference_period);
        let cu_cost = fixed_mul(fixed_mul(cu_rate, fixed_from_u64(seconds_elapsed)), cu);
        total_cost = fixed_add(su_cost, cu_cost);
    }
    if ipu > 0 {
        let ip_rate = price_per_second(pricing_policy.ipu.value, billing_reference_period);
        let total_ip_cost = fixed_mul(
            fixed_mul(fixed_from_u64(ipu as u64), ip_rate),
            fixed_from_u64(seconds_elapsed),
        );
        total_cost = fixed_add(total_cost, total_ip_cost);
    }
    round_to_u64(total_cost)
}

// ---------------------------------------------------------------------------
// From units USD to TFT
// ---------------------------------------------------------------------------

/// The TFT price (mUSD) billing uses: the average price, raised to the
/// minimum price and then lowered to the maximum price.
pub open spec fn clamped_tft_price(avg_tft_price: int, min_tft_price: int, max_tft_price: int) -> int {
    let raised = if avg_tft_price >= min_tft_price { avg_tft_price } else { min_tft_price };
    if raised <= max_tft_price { raised } else { max_tft_price }
}

/// Cost (fixed-point) in units TFT of `cost` units USD at `price` mUSD per
/// TFT: `cost / (price * 10000)` TFT, times the chain's precision.
pub open spec fn cost_in_tft_fixed(cost: int, price: int) -> int {
    fx_mul(
        fx_div(fx_int(cost), fx_int(price * UNITS_USD_PER_MUSD)),
        fx_int(UNITS_TFT_PER_TFT as int),
    )
}

/// Cost in units TFT of `cost` units USD at `price` mUSD per TFT, rounded
/// to the nearest unit.
pub open spec fn cost_in_tft(cost: int, price: int) -> int {
    fx_round_int(cost_in_tft_fixed(cost, price))
}

/// The TFT conversion can be computed: the clamped price is not zero, its
/// value in units USD fits a `u32`, and the result does not overflow.
pub open spec fn cost_in_tft_computable(
    cost: int,
    avg_tft_price: int,
    min_tft_price: int,
    max_tft_price: int,
) -> bool {
    let price = clamped_tft_price(avg_tft_price, min_tft_price, max_tft_price);
    &&& price > 0
    &&& price * UNITS_USD_PER_MUSD <= u32::MAX
    &&& fits(cost_in_tft_fixed(cost, price))
    &&& fits(fx_round(cost_in_tft_fixed(cost, price)))
}

/// Converts a cost in units USD to units TFT at the average TFT price
/// (mUSD), kept between the minimum and the maximum TFT price.
pub fn calculate_cost_in_tft_from_units_usd(
    cost_units_usd: u64,
    avg_tft_price: u32,
    min_tft_price: u32,
    max_tft_price: u32,
) -> (r: Result<u64, Error>)
    requires
        cost_in_tft_computable(
            cost_units_usd as int,
            avg_tft_price as int,
            min_tft_price as int,
            max_tft_price as int,
        ),
    ensures
        r matches Ok(v) && v == cost_in_tft(
            cost_units_usd as int,
            clamped_tft_price(avg_tft_price as int, min_tft_price as int, max_tft_price as int),
        ),
{
    // Guarantee tft price will never be lower than min tft price
    let mut tft_price = if avg_tft_price >= min_tft_price {
        avg_tft_price
    } else {
        min_tft_price
    };
    // Guarantee tft price will never be higher than max tft price
    tft_price = if tft_price <= max_tft_price {
        tft_price
    } else {
        max_tft_price
    };

    // TFT Price is in musd so lets convert to units usd
    let tft_price_units_usd = tft_price * 10000;

    proof {
        lemma_fx_div_le(fx_int(cost_units_usd as int), fx_int(tft_price_units_usd as int));
    }
    let cost_tft = fixed_div(
        fixed_from_u64(cost_units_usd),
        fixed_from_u64(tft_price_units_usd as u64),
    );
    // Multiply by the chain precision (7 decimals)
    let cost_tft_units = fixed_mul(cost_tft, fixed_from_u64(10000000));
    Ok(round_to_u64(cost_tft_units))
}

// ---------------------------------------------------------------------------
// Extra fee of dedicated nodes
// ---------------------------------------------------------------------------

/// Cost in units USD of a monthly extra fee of `fee_musd` mUSD over `secs`
/// seconds, rounded to the nearest unit; zero when there is no fee.
pub open spec fn extra_fee_cost(fee_musd: int, secs: int) -> int {
    if fee_musd > 0 {
        fx_round_int(fx_div(fx_int(fee_musd * UNITS_USD_PER_MUSD * secs), fx_int(SECS_PER_MONTH as int)))
    } else {
        0
    }
}

/// The extra fee cost can be computed: the fee in units USD times the
/// seconds fits a `u64`.
pub open spec fn extra_fee_computable(fee_musd: int, secs: int) -> bool {
    fee_musd > 0 ==> {
        &&& fee_musd * UNITS_USD_PER_MUSD <= u64::MAX
        &&& fee_musd * UNITS_USD_PER_MUSD * secs <= u64::MAX
    }
}

/// Cost in units USD of the extra fee `fee_musd` (mUSD per month) that the
/// farmer set on a dedicated node, over `seconds_elapsed` seconds.
pub fn calculate_extra_fee_cost_units_usd(fee_musd: u64, seconds_elapsed: u64) -> (r: u64)
    requires
        extra_fee_computable(fee_musd as int, seconds_elapsed as int),
    ensures
        r == extra_fee_cost(fee_musd as int, seconds_elapsed as int),
{
    if fee_musd > 0 {
        // Convert fee from mUSD to units USD
        let fee_units_usd = fee_musd * 10000;
        let cost_units = fee_units_usd * seconds_elapsed;
        proof {
            lemma_fx_div_ints(cost_units as int, SECS_PER_MONTH as int);
            lemma_round_fits(fx_int(cost_units as int) / (SECS_PER_MONTH as int));
        }
        // Fee is per month so convert to seconds to get cost
        let cost = fixed_div(fixed_from_u64(cost_units), fixed_from_u64(SECS_PER_MONTH));
        round_to_u64(cost)
    } else {
        0
    }
}

// ---------------------------------------------------------------------------
// Discount
// ---------------------------------------------------------------------------

/// Amount due per hour (fixed-point) when `amount` is due for `secs`
/// seconds: the amount normalized to one hour, `amount * 3600 / secs`.
pub open spec fn amount_due_hourly(amount: int, secs: int) -> int {
    fx_div(fx_mul(fx_int(amount), fx_int(SECS_PER_HOUR as int)), fx_int(secs))
}

/// Amount due per month of 30 days (fixed-point): 24 * 30 hours.
pub open spec fn amount_due_monthly_fixed(amount: int, secs: int) -> int {
    amount_due_hourly(amount, secs) * 24 * 30
}

/// Amount due per month, rounded to the nearest unit.
pub open spec fn amount_due_monthly(amount: int, secs: int) -> int {
    fx_round_int(amount_due_monthly_fixed(amount, secs))
}

/// How many months (fixed-point) `balance` pays for at `monthly` per month.
pub open spec fn months_covered(balance: int, monthly: int) -> int {
    fx_div(fx_int(balance), fx_int(monthly))
}

/// The bits of 1.5.
pub open spec fn one_and_a_half() -> int {
    frac_one() * 3 / 2
}

/// The discount earned by a balance covering `d` months (fixed-point):
/// none below 1.5 months, default from 1.5, bronze from 3, silver from 6
/// and gold from 18 months.
pub open spec fn discount_level_of(d: int) -> DiscountLevel {
    if d >= one_and_a_half() && d < fx_int(3) {
        DiscountLevel::Default
    } else if d >= fx_int(3) && d < fx_int(6) {
        DiscountLevel::Bronze
    } else if d >= fx_int(6) && d < fx_int(18) {
        DiscountLevel::Silver
    } else if d >= fx_int(18) {
        DiscountLevel::Gold
    } else {
        DiscountLevel::NoDiscount
    }
}

/// The bits of 1.25, the factor certified capacity costs more by.
pub open spec fn certified_multiplier() -> int {
    frac_one() * 5 / 4
}

/// Amount due (fixed-point) after the discount, and 25% more on certified
/// capacity.
pub open spec fn discounted_fixed(amount: int, level: DiscountLevel, certification: NodeCertification) -> int {
    let discounted = fx_mul(fx_int(amount), price_multiplier_bits(level));
    if certification == NodeCertification::Certified {
        fx_mul(discounted, certified_multiplier())
    } else {
        discounted
    }
}

/// The discount level `amount` due over `secs` seconds earns with
/// `balance`.
pub open spec fn discount_level(amount: int, secs: int, balance: int) -> DiscountLevel {
    discount_level_of(months_covered(balance, amount_due_monthly(amount, secs)))
}

/// The amount due after discount, rounded to the nearest unit, and the
/// discount received; nothing is due and no discount is given when the
/// amount is zero.
pub open spec fn discount_tft(
    amount: int,
    secs: int,
    balance: int,
    certification: NodeCertification,
) -> (int, DiscountLevel) {
    if amount == 0 {
        (0, DiscountLevel::NoDiscount)
    } else {
        let level = discount_level(amount, secs, balance);
        (fx_round_int(discounted_fixed(amount, level, certification)), level)
    }
}

/// The discount can be computed: some time has elapsed (it divides the
/// amount), no intermediate value overflows and the monthly amount due is
/// not zero (it divides the balance).
pub open spec fn discount_computable(
    amount: int,
    secs: int,
    balance: int,
    certification: NodeCertification,
) -> bool {
    amount != 0 ==> {
        &&& secs > 0
        &&& amount * SECS_PER_HOUR <= u64::MAX
        &&& fits(amount_due_monthly_fixed(amount, secs))
        &&& fits(fx_round(amount_due_monthly_fixed(amount, secs)))
        &&& amount_due_monthly(amount, secs) != 0
        &&& fits(discounted_fixed(amount, discount_level(amount, secs, balance), certification))
        &&& fits(
            fx_round(discounted_fixed(amount, discount_level(amount, secs, balance), certification)),
        )
    }
}

/// The amount due after the discount the payer's balance earns, and the
/// discount level: the more months of this bill the balance covers, the
/// larger the discount. Certified capacity costs 25% more.
pub fn calculate_discount_tft(
    amount_due: u64,
    seconds_elapsed: u64,
    balance: u64,
    certification_type: NodeCertification,
) -> (r: (u64, DiscountLevel))
    requires
        discount_computable(amount_due as int, seconds_elapsed as int, balance as int, certification_type),
    ensures
        r.0 == discount_tft(amount_due as int, seconds_elapsed as int, balance as int, certification_type).0,
        r.1 == discount_tft(amount_due as int, seconds_elapsed as int, balance as int, certification_type).1,
        amount_due == 0 ==> r.1 == DiscountLevel::NoDiscount,
        amount_due != 0 ==> {
            let d = months_covered(balance as int, amount_due_monthly(amount_due as int, seconds_elapsed as int));
            &&& (r.1 == DiscountLevel::NoDiscount <==> d < 27670116110564327424)
            &&& (r.1 == DiscountLevel::Default <==> 27670116110564327424 <= d < 55340232221128654848)
            &&& (r.1 == DiscountLevel::Bronze <==> 55340232221128654848 <= d < 110680464442257309696)
            &&& (r.1 == DiscountLevel::Silver <==> 110680464442257309696 <= d < 332041393326771929088)
            &&& (r.1 == DiscountLevel::Gold <==> 332041393326771929088 <= d)
        },
{
    if amount_due == 0 {
        return (0, DiscountLevel::NoDiscount);
    }
    let ghost amount = amount_due as int;
    let ghost secs = seconds_elapsed as int;
    // calculate amount due on a monthly basis
    // first get the normalized amount per hour
    proof {
        lemma_fx_mul_ints(amount, SECS_PER_HOUR as int);
        assert(fx_int(secs) >= frac_one()) by (nonlinear_arith)
            requires
                secs >= 1,
                frac_one() > 0,
        ;
        lemma_fx_div_le(fx_int(amount * SECS_PER_HOUR), fx_int(secs));
    }
    let amount_due_per_hour = fixed_mul(fixed_from_u64(amount_due), fixed_from_u64(SECS_PER_HOUR));
    let amount_due_hourly = fixed_div(amount_due_per_hour, fixed_from_u64(seconds_elapsed));
    // then we can infer the amount due monthly (30 days ish)
    let amount_due_daily = fixed_mul_int(amount_due_hourly, 24);
    let amount_due_monthly = round_to_u64(fixed_mul_int(amount_due_daily, 30));

    // see how many months a user can pay for this deployment given his balance
    proof {
        lemma_fx_div_le(fx_int(balance as int), fx_int(amount_due_monthly as int));
    }
    let discount_level = fixed_div(fixed_from_u64(balance), fixed_from_u64(amount_due_monthly));

    // predefined discount levels
    let discount_received = if discount_level >= 27670116110564327424 && discount_level < 55340232221128654848 {
        DiscountLevel::Default
    } else if discount_level >= 55340232221128654848 && discount_level < 110680464442257309696 {
        DiscountLevel::Bronze
    } else if discount_level >= 110680464442257309696 && discount_level < 332041393326771929088 {
        DiscountLevel::Silver
    } else if discount_level >= 332041393326771929088 {
        DiscountLevel::Gold
    } else {
        DiscountLevel::NoDiscount
    };

    // calculate the new amount due given the discount
    let multiplier = discount_received.price_multiplier();
    proof {
        lemma_fx_mul_le(fx_int(amount), multiplier as int);
    }
    let mut amount_due_fixed = fixed_mul(fixed_from_u64(amount_due), multiplier);

    // Certified capacity costs 25% more
    if certification_type == NodeCertification::Certified {
        amount_due_fixed = fixed_mul(amount_due_fixed, 23058430092136939520);
    }
    (round_to_u64(amount_due_fixed), discount_received)
}

// ---------------------------------------------------------------------------
// Cost of a contract
// ---------------------------------------------------------------------------

/// What the chain holds that the cost of a contract depends on, besides
/// the contract and the pricing policy.
#[derive(Clone, Copy, Debug, PartialEq, Eq)]
pub struct ContractCostContext {
    /// The contract's billing information (its unbilled network cost).
    pub billing_info: ContractBillingInformation,
    /// The resources of the node the contract is on, or `None` when the
    /// node does not exist.
    pub node_resources: Option<Resources>,
    /// The resources a node contract's deployment uses.
    pub node_contract_resources: Resources,
    /// The node has an active rent contract.
    pub node_has_active_rent_contract: bool,
    /// The period (seconds) the pricing policy's prices are quoted for.
    pub billing_reference_period: u64,
}

/// Cost in units USD of a name over `secs` seconds.
pub open spec fn name_cost_fixed(policy: PricingPolicy, period: int, secs: int) -> int {
    rate_over(policy.unique_name.value as int, period, secs)
}

/// Cost in units USD of contract `c` over `secs` seconds: nothing for no
/// time; for a node contract, its resources (unless the node is rented)
/// and IPs plus the unbilled network cost; for a rent contract, the
/// dedication share of the whole node's resources; for a name contract,
/// the name's price. A node or rent contract on a node that does not
/// exist gives `NodeNotExists`.
pub open spec fn contract_cost_units_usd(
    c: Contract,
    policy: PricingPolicy,
    secs: int,
    ctx: ContractCostContext,
) -> Result<int, Error> {
    let period = ctx.billing_reference_period as int;
    if secs == 0 {
        Ok(0)
    } else {
        match c.contract_type {
            ContractData::NodeContract(nc) => match ctx.node_resources {
                None => Err(Error::NodeNotExists),
                Some(_) => Ok(
                    resources_cost(
                        ctx.node_contract_resources,
                        nc.public_ips as int,
                        secs,
                        policy,
                        period,
                        !ctx.node_has_active_rent_contract,
                    ) + ctx.billing_info.amount_unbilled,
                ),
            },
            ContractData::RentContract(_) => match ctx.node_resources {
                None => Err(Error::NodeNotExists),
                Some(res) => Ok(
                    percent_of(
                        policy.discount_for_dedication_nodes as int,
                        resources_cost(res, 0, secs, policy, period, true),
                    ),
                ),
            },
            ContractData::NameContract(_) => Ok(fx_round_int(name_cost_fixed(policy, period, secs))),
        }
    }
}

/// The cost of contract `c` can be computed: the cost of its resources
/// can, the node contract's total fits a `u64`, and the name's cost does
/// not overflow.
pub open spec fn contract_cost_computable(
    c: Contract,
    policy: PricingPolicy,
    secs: int,
    ctx: ContractCostContext,
) -> bool {
    let period = ctx.billing_reference_period as int;
    secs != 0 ==> match c.contract_type {
        ContractData::NodeContract(nc) => ctx.node_resources is Some ==> {
            &&& resources_cost_computable(
                ctx.node_contract_resources,
                nc.public_ips as int,
                secs,
                policy,
                period,
                !ctx.node_has_active_rent_contract,
            )
            &&& resources_cost(
                ctx.node_contract_resources,
                nc.public_ips as int,
                secs,
                policy,
                period,
                !ctx.node_has_active_rent_contract,
            ) + ctx.billing_info.amount_unbilled <= u64::MAX
        },
        ContractData::RentContract(_) => match ctx.node_resources {
            None => true,
            Some(res) => resources_cost_computable(res, 0, secs, policy, period, true),
        },
        ContractData::NameContract(_) => {
            &&& period > 0
            &&& fits(name_cost_fixed(policy, period, secs))
            &&& fits(fx_round(name_cost_fixed(policy, period, secs)))
        },
    }
}

/// The spec result of a computation that returned `r`.
pub open spec fn result_int(r: Result<u64, Error>) -> Result<int, Error> {
    match r {
        Ok(v) => Ok(v as int),
        Err(e) => Err(e),
    }
}

/// The contract's cost over `seconds_elapsed` seconds, in units TFT, with
/// the discount the balance earns, and the discount level.
pub open spec fn contract_cost_tft(
    cost_usd: int,
    secs: int,
    balance: int,
    price: int,
) -> (int, DiscountLevel) {
    if cost_usd == 0 {
        (0, DiscountLevel::NoDiscount)
    } else {
        discount_tft(cost_in_tft(cost_usd, price), secs, balance, NodeCertification::Diy)
    }
}

/// The TFT prices (mUSD) the chain holds.
#[derive(Clone, Copy, Debug, PartialEq, Eq, Structural)]
pub struct TftPrices {
    pub average: u32,
    pub min: u32,
    pub max: u32,
}

/// The clamped TFT price of `prices`.
pub open spec fn tft_price(prices: TftPrices) -> int {
    clamped_tft_price(prices.average as int, prices.min as int, prices.max as int)
}

impl Contract {
    /// Cost in units USD of this contract over `seconds_elapsed` seconds
    /// under `pricing_policy`.
    pub fn calculate_contract_cost_units_usd(
        &self,
        pricing_policy: &PricingPolicy,
        seconds_elapsed: u64,
        ctx: &ContractCostContext,
    ) -> (r: Result<u64, Error>)
        requires
            contract_cost_computable(*self, *pricing_policy, seconds_elapsed as int, *ctx),
        ensures
            result_int(r) == contract_cost_units_usd(*self, *pricing_policy, seconds_elapsed as int, *ctx),
    {
        if seconds_elapsed == 0 {
            return Ok(0);
        }
        let total_cost = match &self.contract_type {
            // Calculate total cost for a node contract
            ContractData::NodeContract(node_contract) => {
                // The unbilled amount for NRU (network resource units)
                let contract_billing_info = ctx.billing_info;
                // Make sure the node exists
                if ctx.node_resources.is_none() {
                    return Err(Error::NodeNotExists);
                }
                let mut bill_resources = true;
                // If this node contract is deployed on a node which has a rent contract
                // We can ignore billing for the resources used by this node contract
                if ctx.node_has_active_rent_contract {
                    bill_resources = false
                }
                let contract_cost = calculate_resources_cost_units_usd(
                    ctx.node_contract_resources,
                    node_contract.public_ips,
                    seconds_elapsed,
                    pricing_policy,
                    ctx.billing_reference_period,
                    bill_resources,
                );
                contract_cost + contract_billing_info.amount_unbilled
            },
            ContractData::RentContract(_) => {
                let node_resources = match ctx.node_resources {
                    Some(res) => res,
                    None => {
                        return Err(Error::NodeNotExists);
                    },
                };
                let contract_cost = calculate_resources_cost_units_usd(
                    node_resources,
                    0,
                    seconds_elapsed,
                    pricing_policy,
                    ctx.billing_reference_period,
                    true,
                );
                percent_mul(pricing_policy.discount_for_dedication_nodes, contract_cost)
            },
            // Calculate total cost for a name contract
            ContractData::NameContract(_) => {
                // bill user for name usage for number of seconds elapsed
                let rate = price_per_second(
                    pricing_policy.unique_name.value,
                    ctx.billing_reference_period,
                );
                let total_cost = fixed_mul(rate, fixed_from_u64(seconds_elapsed));
                round_to_u64(total_cost)
            },
        };
        Ok(total_cost)
    }

    /// Cost in units TFT of this contract over `seconds_elapsed` seconds,
    /// after the discount `balance` earns, and the discount level. The
    /// pricing policy is the default one and the capacity is counted as
    /// DIY.
    pub fn calculate_contract_cost_tft(
        &self,
        balance: u64,
        seconds_elapsed: u64,
        pricing_policy: &PricingPolicy,
        ctx: &ContractCostContext,
        prices: TftPrices,
    ) -> (r: Result<(u64, DiscountLevel), Error>)
        requires
            contract_cost_computable(*self, *pricing_policy, seconds_elapsed as int, *ctx),
            match contract_cost_units_usd(*self, *pricing_policy, seconds_elapsed as int, *ctx) {
                Ok(cost) => cost != 0 ==> {
                    &&& cost_in_tft_computable(cost, prices.average as int, prices.min as int, prices.max as int)
                    &&& discount_computable(
                        cost_in_tft(cost, tft_price(prices)),
                        seconds_elapsed as int,
                        balance as int,
                        NodeCertification::Diy,
                    )
                },
                Err(_) => true,
            },
        ensures
            match contract_cost_units_usd(*self, *pricing_policy, seconds_elapsed as int, *ctx) {
                Err(e) => r == Err::<(u64, DiscountLevel), Error>(e),
                Ok(cost) => r matches Ok((due, level)) && (due as int, level) == contract_cost_tft(
                    cost,
                    seconds_elapsed as int,
                    balance as int,
                    tft_price(prices),
                ),
            },
    {
        let certification_type = NodeCertification::Diy;

        // Calculate the cost for a contract, can be any of:
        // - NodeContract
        // - RentContract
        // - NameContract
        let total_cost = self.calculate_contract_cost_units_usd(pricing_policy, seconds_elapsed, ctx)?;

        // If cost is 0, reinsert to be billed at next interval
        if total_cost == 0 {
            return Ok((0, DiscountLevel::NoDiscount));
        }

        let total_cost_tft_64 = calculate_cost_in_tft_from_units_usd(
            total_cost,
            prices.average,
            prices.min,
            prices.max,
        )?;

        // Calculate the amount due and discount received based on the total_cost amount due
        let (amount_due, discount_received) = calculate_discount_tft(
            total_cost_tft_64,
            seconds_elapsed,
            balance,
            certification_type,
        );

        Ok((amount_due, discount_received))
    }

    /// Cost in units TFT of the extra fee `fee_musd` (mUSD per month) that
    /// the farmer set on the dedicated node, over `seconds_elapsed` seconds.
    pub fn calculate_extra_fee_cost_tft(
        &self,
        fee_musd: u64,
        seconds_elapsed: u64,
        prices: TftPrices,
    ) -> (r: Result<u64, Error>)
        requires
            extra_fee_computable(fee_musd as int, seconds_elapsed as int),
            extra_fee_cost(fee_musd as int, seconds_elapsed as int) != 0 ==> cost_in_tft_computable(
                extra_fee_cost(fee_musd as int, seconds_elapsed as int),
                prices.average as int,
                prices.min as int,
                prices.max as int,
            ),
        ensures
            r matches Ok(v) && v == if extra_fee_cost(fee_musd as int, seconds_elapsed as int) == 0 {
                0
            } else {
                cost_in_tft(extra_fee_cost(fee_musd as int, seconds_elapsed as int), tft_price(prices))
            },
    {
        let cost = calculate_extra_fee_cost_units_usd(fee_musd, seconds_elapsed);
        if cost == 0 {
            return Ok(0);
        }
        let cost_tft = calculate_cost_in_tft_from_units_usd(cost, prices.average, prices.min, prices.max)?;
        Ok(cost_tft)
    }
}

// ---------------------------------------------------------------------------
// Network use reports
// ---------------------------------------------------------------------------

/// Cost (fixed-point) of the network units of a report: the units in the
/// policy's network unit, times the network price per second, times the
/// report's window.
pub open spec fn nru_cost_fixed(report: NruConsumption, policy: PricingPolicy, period: int) -> int {
    fx_mul(
        fx_mul(fx_int(report.nru as int) / unit_factor_1000(policy.nu.unit), rate(policy.nu.value as int, period)),
        fx_int(report.window as int),
    )
}

/// The billing information after `report`: a report older than the last
/// one taken into account changes nothing; otherwise its cost, rounded to
/// the nearest unit, is added to the unbilled amount and its timestamp
/// becomes the last update.
pub open spec fn after_report(
    info: ContractBillingInformation,
    report: NruConsumption,
    policy: PricingPolicy,
    period: int,
) -> ContractBillingInformation {
    if report.timestamp < info.last_updated {
        info
    } else {
        ContractBillingInformation {
            amount_unbilled: (info.amount_unbilled + fx_round_int(nru_cost_fixed(report, policy, period))) as u64,
            last_updated: report.timestamp,
            ..info
        }
    }
}

/// A report's cost can be computed and added: the period is not zero, no
/// intermediate value overflows, and the new unbilled amount fits a `u64`.
pub open spec fn report_computable(
    info: ContractBillingInformation,
    report: NruConsumption,
    policy: PricingPolicy,
    period: int,
) -> bool {
    report.timestamp >= info.last_updated ==> {
        &&& period > 0
        &&& fits(fx_mul(fx_int(report.nru as int) / unit_factor_1000(policy.nu.unit), rate(policy.nu.value as int, period)))
        &&& fits(nru_cost_fixed(report, policy, period))
        &&& fits(fx_round(nru_cost_fixed(report, policy, period)))
        &&& info.amount_unbilled + fx_round_int(nru_cost_fixed(report, policy, period)) <= u64::MAX
    }
}

impl NruConsumption {
    /// Adds the cost in units USD of this network use report to the
    /// contract's unbilled amount, unless the report is older than the last
    /// one taken into account.
    pub fn calculate_report_cost_units_usd(
        &self,
        pricing_policy: &PricingPolicy,
        billing_reference_period: u64,
        contract_billing_info: &mut ContractBillingInformation,
    )
        requires
            report_computable(*old(contract_billing_info), *self, *pricing_policy, billing_reference_period as int),
        ensures
            *final(contract_billing_info) == after_report(
                *old(contract_billing_info),
                *self,
                *pricing_policy,
                billing_reference_period as int,
            ),
    {
        if self.timestamp < contract_billing_info.last_updated {
            return;
        }
        // seconds elapsed is the report.window
        let seconds_elapsed = self.window;

        // calculate NRU used and the cost
        let used_nru = fixed_div_int(fixed_from_u64(self.nru), pricing_policy.nu.factor_base_1000());
        let nu_rate = price_per_second(pricing_policy.nu.value, billing_reference_period);
        let nu_cost = fixed_mul(fixed_mul(used_nru, nu_rate), fixed_from_u64(seconds_elapsed));

        // save total
        let total = round_to_u64(nu_cost);

        // update contract billing info
        contract_billing_info.amount_unbilled = contract_billing_info.amount_unbilled + total;
        contract_billing_info.last_updated = self.timestamp;
    }
}

// ---------------------------------------------------------------------------
// Service contracts
// ---------------------------------------------------------------------------

/// Cost (fixed-point) of a service bill: the base fee (converted from mUSD
/// to units USD) for the bill's window out of a billing reference period,
/// plus the bill's variable amount (converted likewise).
pub open spec fn service_bill_cost_fixed(
    base_fee: int,
    bill: ServiceContractBill,
    period: int,
) -> int {
    fx_div(
        fx_mul(fx_int(base_fee * UNITS_USD_PER_MUSD), fx_int(bill.window as int)),
        fx_int(period),
    ) + fx_int(bill.variable_amount * UNITS_USD_PER_MUSD)
}

/// Cost in units USD of a service bill, rounded to the nearest unit.
pub open spec fn service_bill_cost(base_fee: int, bill: ServiceContractBill, period: int) -> int {
    fx_round_int(service_bill_cost_fixed(base_fee, bill, period))
}

/// A service bill's cost can be computed: the fees in units USD fit a
/// `u64`, the base fee times the window does too, the period is not zero,
/// and the sum and its rounding do not overflow.
pub open spec fn service_bill_computable(base_fee: int, bill: ServiceContractBill, period: int) -> bool {
    &&& base_fee * UNITS_USD_PER_MUSD <= u64::MAX
    &&& bill.variable_amount * UNITS_USD_PER_MUSD <= u64::MAX
    &&& base_fee * UNITS_USD_PER_MUSD * bill.window <= u64::MAX
    &&& period > 0
    &&& fits(service_bill_cost_fixed(base_fee, bill, period))
    &&& fits(fx_round(service_bill_cost_fixed(base_fee, bill, period)))
}

impl ServiceContract {
    /// Cost in units USD of `service_bill` under this contract's base fee.
    pub fn calculate_bill_cost_units_usd(
        &self,
        service_bill: ServiceContractBill,
        billing_reference_period: u64,
    ) -> (r: u64)
        requires
            service_bill_computable(self.base_fee as int, service_bill, billing_reference_period as int),
        ensures
            r == service_bill_cost(self.base_fee as int, service_bill, billing_reference_period as int),
    {
        // Convert fees from mUSD to units USD
        let base_fee_units_usd = self.base_fee * 10000;
        let variable_amount_units_usd = service_bill.variable_amount * 10000;
        // bill user for service usage for elpased usage (window) in seconds
        proof {
            lemma_fx_mul_ints(base_fee_units_usd as int, service_bill.window as int);
            lemma_fx_div_le(
                fx_int(base_fee_units_usd * service_bill.window),
                fx_int(billing_reference_period as int),
            );
        }
        let window_cost = fixed_mul(fixed_from_u64(base_fee_units_usd), fixed_from_u64(service_bill.window));
        let contract_cost = fixed_add(
            fixed_div(window_cost, fixed_from_u64(billing_reference_period)),
            fixed_from_u64(variable_amount_units_usd),
        );
        round_to_u64(contract_cost)
    }

    /// Cost in units TFT of `service_bill`.
    pub fn calculate_bill_cost_tft(
        &self,
        service_bill: ServiceContractBill,
        billing_reference_period: u64,
        prices: TftPrices,
    ) -> (r: Result<u64, Error>)
        requires
            service_bill_computable(self.base_fee as int, service_bill, billing_reference_period as int),
            service_bill_cost(self.base_fee as int, service_bill, billing_reference_period as int) != 0
                ==> cost_in_tft_computable(
                service_bill_cost(self.base_fee as int, service_bill, billing_reference_period as int),
                prices.average as int,
                prices.min as int,
                prices.max as int,
            ),
        ensures
            r matches Ok(v) && v == if service_bill_cost(
                self.base_fee as int,
                service_bill,
                billing_reference_period as int,
            ) == 0 {
                0
            } else {
                cost_in_tft(
                    service_bill_cost(self.base_fee as int, service_bill, billing_reference_period as int),
                    tft_price(prices),
                )
            },
    {
        // Calculate the cost in units usd for service contract bill
        let total_cost = self.calculate_bill_cost_units_usd(service_bill, billing_reference_period);
        if total_cost == 0 {
            return Ok(0);
        }
        // Calculate the cost in TFT for service contract
        let total_cost_tft_64 = calculate_cost_in_tft_from_units_usd(
            total_cost,
            prices.average,
            prices.min,
            prices.max,
        )?;
        Ok(total_cost_tft_64)
    }
}

} // verus!
