//! Pricing engine and the basic fee splitter.
//!
//! Price of the next key at supply `S`:
//! `P(S) = BASE + LINEAR * S + S * S^0.6 * EXPONENTIAL / SCALE`, in lamports.
//! `S^0.6` comes from a small interpolated table up to 1000 keys and from
//! `0.9 * cbrt(S^2)` above it.
use vstd::prelude::*;
use crate::errors::CurveError;

verus! {

/// Price of the first key: 0.05 SOL.
pub const BASE_PRICE_LAMPORTS: u128 = 50_000_000;

/// Linear price increase per key in circulation: 0.0003 SOL.
pub const LINEAR_COEFFICIENT: u128 = 300_000;

/// Coefficient of the `S^1.6` term, before division by `EXPONENT_SCALE`.
pub const EXPONENTIAL_COEFFICIENT: u128 = 1_200;

/// Divisor of the `S^1.6` term.
pub const EXPONENT_SCALE: u128 = 1_000_000_000;

/// Largest supply served by the `S^0.6` lookup table.
pub const LOOKUP_LIMIT: u128 = 1000;

/// Table anchors: `floor(b^0.6)` at the breakpoints `b` = 10, 50, 100, 500.
pub const POW_0_6_AT_10: u128 = 3;
pub const POW_0_6_AT_50: u128 = 10;
pub const POW_0_6_AT_100: u128 = 15;
pub const POW_0_6_AT_500: u128 = 41;

/// Basis-point denominator of every fee schedule.
pub const BPS_DENOMINATOR: u128 = 10_000;

/// Share of a purchase that goes to the reserve (and of a sale that goes to the seller).
pub const RESERVE_BPS: u128 = 9_400;

/// Instant fee: to the referrer, or to the creator when there is none.
pub const INSTANT_BPS: u128 = 200;

/// Buyback-and-burn share.
pub const BUYBACK_BPS: u128 = 100;

/// Community rewards share.
pub const COMMUNITY_BPS: u128 = 100;

/// Platform share.
pub const PLATFORM_BPS: u128 = 200;

/// Total fee taken from a sale.
pub const TOTAL_FEE_BPS: u128 = 600;

/// Every supply below this bound has a price; from it on, `S * S` leaves u128.
pub open spec fn priced_supply_limit() -> int {
    0x1_0000_0000_0000_0000
}

/// `m` is the integer cube root of `n`: the largest `m` with `m^3 <= n`.
pub open spec fn is_cube_root(n: int, m: int) -> bool {
    0 <= m && m * m * m <= n && n < (m + 1) * (m + 1) * (m + 1)
}

/// The integer cube root of `n`.
pub open spec fn cube_root(n: int) -> int {
    choose|m: int| #[trigger] is_cube_root(n, m)
}

/// The interpolated table for `S^0.6`.
pub open spec fn power_0_6_table(s: int) -> int {
    if s <= 0 {
        0
    } else if s <= 10 {
        s * 1000 / 1585
    } else if s <= 50 {
        POW_0_6_AT_10 + (s - 10) * 200
    } else if s <= 100 {
        POW_0_6_AT_50 + (s - 50) * 150
    } else if s <= 500 {
        POW_0_6_AT_100 + (s - 100) * 100
    } else if s <= 1000 {
        POW_0_6_AT_500 + (s - 500) * 80
    } else {
        s * 630 / 100
    }
}

/// The approximation of `S^0.6` used by the price formula.
pub open spec fn power_0_6(s: int) -> int {
    if s == 0 {
        0
    } else if s <= LOOKUP_LIMIT {
        power_0_6_table(s)
    } else {
        cube_root(s * s) * 9 / 10
    }
}

/// Marginal price of the next key when `s` keys are in circulation.
pub open spec fn price_at(s: int) -> int {
    BASE_PRICE_LAMPORTS + LINEAR_COEFFICIENT * s + s * power_0_6(s) * (
    EXPONENTIAL_COEFFICIENT as int) / (EXPONENT_SCALE as int)
}

/// Sum of the prices of the `n` keys at supplies `start, start + 1, ..., start + n - 1`.
pub open spec fn price_sum(start: int, n: nat) -> int
    decreases n,
{
    if n == 0 {
        0
    } else {
        price_sum(start, (n - 1) as nat) + price_at(start + n - 1)
    }
}

proof fn lemma_cube_monotone(a: int, b: int)
    requires
        0 <= a <= b,
    ensures
        a * a * a <= b * b * b,
{
    assert(a * a <= b * b) by (nonlinear_arith)
        requires
            0 <= a <= b,
    ;
    assert(a * a * a <= b * b * b) by (nonlinear_arith)
        requires
            0 <= a <= b,
            0 <= a * a <= b * b,
    ;
}

proof fn lemma_cube_root_exists(n: int)
    requires
        0 <= n,
    ensures
        exists|m: int| #[trigger] is_cube_root(n, m),
    decreases n,
{
    if n == 0 {
        assert(is_cube_root(0, 0));
    } else {
        lemma_cube_root_exists(n - 1);
        let m = choose|m: int| #[trigger] is_cube_root(n - 1, m);
        if (m + 1) * (m + 1) * (m + 1) <= n {
            lemma_cube_monotone(m + 1, m + 2);
            assert((m + 1) * (m + 1) * (m + 1) < (m + 2) * (m + 2) * (m + 2)) by (nonlinear_arith)
                requires
                    0 <= m,
            ;
            assert(is_cube_root(n, m + 1));
        } else {
            assert(is_cube_root(n, m));
        }
    }
}

proof fn lemma_cube_root_is(n: int, m: int)
    requires
        is_cube_root(n, m),
    ensures
        cube_root(n) == m,
{
    let r = cube_root(n);
    assert(is_cube_root(n, r));
    if r < m {
        lemma_cube_monotone(r + 1, m);
    } else if m < r {
        lemma_cube_monotone(m + 1, r);
    }
}

/// The cube root of a non-negative number exists and brackets it.
pub proof fn lemma_cube_root(n: int)
    requires
        0 <= n,
    ensures
        is_cube_root(n, cube_root(n)),
{
    lemma_cube_root_exists(n);
}

/// The integer cube root does not decrease as its argument grows.
pub proof fn lemma_cube_root_monotone(a: int, b: int)
    requires
        0 <= a <= b,
    ensures
        cube_root(a) <= cube_root(b),
{
    lemma_cube_root(a);
    lemma_cube_root(b);
    if cube_root(b) < cube_root(a) {
        lemma_cube_monotone(cube_root(b) + 1, cube_root(a));
    }
}

/// `min(m^3, u128::MAX)`.
fn saturating_cube(m: u128) -> (c: u128)
    ensures
        c == if m * m * m > u128::MAX { u128::MAX as int } else { m * m * m },
{
    match m.checked_mul(m) {
        None => {
            assert(m * m * m > u128::MAX) by (nonlinear_arith)
                requires
                    m * m > u128::MAX,
                    m >= 1,
            ;
            u128::MAX
        },
        Some(square) => match square.checked_mul(m) {
            None => u128::MAX,
            Some(cube) => cube,
        },
    }
}

/// Integer cube root by binary search over candidate cubes.
fn integer_cbrt(n: u128) -> (r: u128)
    requires
        n < u128::MAX,
    ensures
        is_cube_root(n as int, r as int),
{
    if n == 0 {
        assert(is_cube_root(0, 0));
        return 0;
    }
    if n == 1 {
        assert(is_cube_root(1, 1));
        return 1;
    }
    let mut low: u128 = 0;
    let mut high: u128 = n;
    let mut result: u128 = 0;
    assert(n < (n + 1) * (n + 1) * (n + 1)) by (nonlinear_arith)
        requires
            n >= 2,
    ;
    while low <= high
        invariant
            2 <= n < u128::MAX,
            result <= low <= result + 1,
            high <= n,
            result * result * result <= n,
            n < (high + 1) * (high + 1) * (high + 1),
        decreases high + 1 - low,
    {
        let mid = low + (high - low) / 2;
        let cube = saturating_cube(mid);
        if cube == n {
            assert(mid * mid * mid < (mid + 1) * (mid + 1) * (mid + 1)) by (nonlinear_arith)
                requires
                    mid >= 0,
            ;
            return mid;
        } else if cube < n {
            result = mid;
            low = mid + 1;
        } else {
            high = mid - 1;
        }
    }
    proof {
        lemma_cube_monotone(high + 1, result + 1);
    }
    result
}

/// Interpolated table for `S^0.6` at small supplies.
fn lookup_power_0_6(supply: u128) -> (r: u128)
    requires
        supply <= LOOKUP_LIMIT,
    ensures
        r == power_0_6_table(supply as int),
{
    if supply == 0 {
        0
    } else if supply <= 10 {
        supply * 1000 / 1585
    } else if supply <= 50 {
        POW_0_6_AT_10 + (supply - 10) * 200
    } else if supply <= 100 {
        POW_0_6_AT_50 + (supply - 50) * 150
    } else if supply <= 500 {
        POW_0_6_AT_100 + (supply - 100) * 100
    } else {
        POW_0_6_AT_500 + (supply - 500) * 80
    }
}

/// `x^(2/3)` as the integer cube root of `x^2`.
fn approximate_power_2_3(x: u128) -> (r: Result<u128, CurveError>)
    ensures
        r == if x * x > u128::MAX {
            Err::<u128, CurveError>(CurveError::ArithmeticOverflow)
        } else {
            Ok::<u128, CurveError>(cube_root(x * x) as u128)
        },
{
    if x == 0 {
        proof {
            lemma_cube_root_is(0, 0);
        }
        return Ok(0);
    }
    match x.checked_mul(x) {
        None => Err(CurveError::ArithmeticOverflow),
        Some(x_squared) => {
            assert(x_squared < u128::MAX) by (nonlinear_arith)
                requires
                    x_squared == x * x,
                    x_squared <= u128::MAX,
            {
                if x >= 0x1_0000_0000_0000_0000 {
                    assert(x * x >= 0x1_0000_0000_0000_0000 * 0x1_0000_0000_0000_0000);
                } else {
                    assert(x * x <= 0xffff_ffff_ffff_ffff * 0xffff_ffff_ffff_ffff);
                }
            }
            let root = integer_cbrt(x_squared);
            proof {
                lemma_cube_root_is(x * x, root as int);
            }
            Ok(root)
        },
    }
}

/// Below the priced-supply limit `S^0.6` stays under `2^43`.
proof fn lemma_power_0_6_bound(s: int)
    requires
        0 <= s < priced_supply_limit(),
    ensures
        0 <= power_0_6(s) < 0x800_0000_0000,
        s <= LOOKUP_LIMIT ==> power_0_6(s) <= 40041,
{
    if s > LOOKUP_LIMIT {
        lemma_cube_root(s * s);
        let m = cube_root(s * s);
        assert(s * s < 0x1_0000_0000_0000_0000 * 0x1_0000_0000_0000_0000) by (nonlinear_arith)
            requires
                0 <= s < 0x1_0000_0000_0000_0000int,
        ;
        if m >= 0x800_0000_0000 {
            lemma_cube_monotone(0x800_0000_0000, m);
            assert(0x800_0000_0000int * 0x800_0000_0000int * 0x800_0000_0000int
                > 0x1_0000_0000_0000_0000int * 0x1_0000_0000_0000_0000int);
        }
    }
}

/// `S^0.6`: zero at zero, the table up to `LOOKUP_LIMIT`, `0.9 * cbrt(S^2)` above.
pub fn approximate_power_0_6(supply: u128) -> (r: Result<u128, CurveError>)
    ensures
        r == if supply >= priced_supply_limit() {
            Err::<u128, CurveError>(CurveError::ArithmeticOverflow)
        } else {
            Ok::<u128, CurveError>(power_0_6(supply as int) as u128)
        },
{
    if supply == 0 {
        return Ok(0);
    }
    if supply <= LOOKUP_LIMIT {
        return Ok(lookup_power_0_6(supply));
    }
    assert(supply >= priced_supply_limit() <==> supply * supply > u128::MAX) by (nonlinear_arith)
        requires
            supply >= 0,
    {
        if supply >= 0x1_0000_0000_0000_0000 {
            assert(supply * supply >= 0x1_0000_0000_0000_0000 * 0x1_0000_0000_0000_0000);
        } else {
            assert(supply * supply <= 0xffff_ffff_ffff_ffff * 0xffff_ffff_ffff_ffff);
        }
    }
    let root = approximate_power_2_3(supply)?;
    proof {
        lemma_power_0_6_bound(supply as int);
    }
    Ok(root * 9 / 10)
}

/// Marginal price of the next key at `supply`.
/// Fails with `ArithmeticOverflow` exactly when `supply * supply` leaves u128.
pub fn calculate_price_at_supply(supply: u128) -> (r: Result<u128, CurveError>)
    ensures
        r == if supply >= priced_supply_limit() {
            Err::<u128, CurveError>(CurveError::ArithmeticOverflow)
        } else {
            Ok::<u128, CurveError>(price_at(supply as int) as u128)
        },
        r is Ok ==> r->Ok_0 == price_at(supply as int),
{
    let s_to_0_6 = approximate_power_0_6(supply)?;
    proof {
        lemma_power_0_6_bound(supply as int);
        assert(supply * s_to_0_6 <= 0xffff_ffff_ffff_ffff * 0x800_0000_0000) by (nonlinear_arith)
            requires
                0 <= supply <= 0xffff_ffff_ffff_ffff,
                0 <= s_to_0_6 <= 0x800_0000_0000,
        ;
    }
    let linear = supply * LINEAR_COEFFICIENT;
    let exponential_term = supply * s_to_0_6 * EXPONENTIAL_COEFFICIENT / EXPONENT_SCALE;
    Ok(BASE_PRICE_LAMPORTS + linear + exponential_term)
}

/// The price strictly increases with supply: `price_at(S + 1) > price_at(S)`
/// for every supply `S` at which both prices are defined.
pub proof fn lemma_price_strictly_increasing(s: int)
    requires
        0 <= s,
        s + 1 < priced_supply_limit(),
    ensures
        price_at(s) < price_at(s + 1),
{
    lemma_power_0_6_bound(s);
    lemma_power_0_6_bound(s + 1);
    let pow_here = power_0_6(s);
    let pow_next = power_0_6(s + 1);
    let scaled_here = s * pow_here;
    let scaled_next = (s + 1) * pow_next;
    if s <= LOOKUP_LIMIT {
        assert(0 <= scaled_here <= 1000 * 40041) by (nonlinear_arith)
            requires
                0 <= s <= 1000,
                0 <= pow_here <= 40041,
                scaled_here == s * pow_here,
        ;
        assert(0 <= scaled_next) by (nonlinear_arith)
            requires
                0 <= s,
                0 <= pow_next,
                scaled_next == (s + 1) * pow_next,
        ;
        assert(scaled_here * 1200 / 1_000_000_000 <= 48);
        assert(scaled_next * 1200 / 1_000_000_000 >= 0);
    } else {
        assert(s * s <= (s + 1) * (s + 1)) by (nonlinear_arith)
            requires
                0 <= s,
        ;
        assert(0 <= s * s) by (nonlinear_arith)
            requires
                0 <= s,
        ;
        lemma_cube_root_monotone(s * s, (s + 1) * (s + 1));
        assert(pow_here <= pow_next);
        assert(scaled_here <= scaled_next) by (nonlinear_arith)
            requires
                0 <= s,
                0 <= pow_here <= pow_next,
                scaled_here == s * pow_here,
                scaled_next == (s + 1) * pow_next,
        ;
        assert(scaled_here * 1200 / 1_000_000_000 <= scaled_next * 1200 / 1_000_000_000);
    }
}

/// Every price is at least the base price.
pub proof fn lemma_price_at_least_base(s: int)
    requires
        0 <= s,
    ensures
        price_at(s) >= BASE_PRICE_LAMPORTS,
{
    if s > LOOKUP_LIMIT {
        lemma_cube_root(s * s);
        assert(0 <= s * s) by (nonlinear_arith)
            requires
                0 <= s,
        ;
    }
    assert(power_0_6(s) >= 0);
    assert(s * power_0_6(s) >= 0) by (nonlinear_arith)
        requires
            0 <= s,
            power_0_6(s) >= 0,
    ;
}

proof fn lemma_price_sum_split_bottom(a: int, n: nat)
    ensures
        price_sum(a, n + 1) == price_at(a) + price_sum(a + 1, n),
    decreases n,
{
    assert(price_sum(a, n + 1) == price_sum(a, n) + price_at(a + n));
    if n > 0 {
        lemma_price_sum_split_bottom(a, (n - 1) as nat);
        assert(price_sum(a + 1, n) == price_sum(a + 1, (n - 1) as nat) + price_at(a + n));
    } else {
        assert(price_sum(a, 1) == price_sum(a, 0) + price_at(a));
    }
}

/// Adding keys at the top of a range does not lower its total.
proof fn lemma_price_sum_grows(a: int, n: nat, m: nat)
    requires
        0 <= a,
        n <= m,
    ensures
        price_sum(a, n) <= price_sum(a, m),
    decreases m,
{
    if n < m {
        lemma_price_sum_grows(a, n, (m - 1) as nat);
        lemma_price_at_least_base(a + m - 1);
    }
}

/// Adding keys at the bottom of a range does not lower its total.
proof fn lemma_price_sum_grows_down(a: int, n: nat, k: nat)
    requires
        0 <= a - k,
    ensures
        price_sum(a, n) <= price_sum(a - k, n + k),
    decreases k,
{
    if k > 0 {
        lemma_price_sum_grows_down(a, n, (k - 1) as nat);
        lemma_price_sum_split_bottom(a - k, (n + k - 1) as nat);
        lemma_price_at_least_base(a - k);
    }
}

/// Total cost of buying `amount` keys starting at `current_supply`:
/// the sum of `price_at` over `[current_supply, current_supply + amount)`.
/// Fails with `ArithmeticOverflow` exactly when a price in the range is
/// undefined or the total leaves u128.
pub fn calculate_buy_cost(current_supply: u128, amount: u64) -> (r: Result<u128, CurveError>)
    ensures
        r is Ok <==> buy_cost_defined(current_supply as int, amount as int),
        r is Ok ==> r->Ok_0 == price_sum(current_supply as int, amount as nat),
        r is Err ==> r->Err_0 == CurveError::ArithmeticOverflow,
{
    if amount == 0 {
        return Ok(0);
    }
    let mut total_cost: u128 = 0;
    let mut i: u64 = 0;
    while i < amount
        invariant
            i <= amount,
            total_cost == price_sum(current_supply as int, i as nat),
            i > 0 ==> current_supply + i <= priced_supply_limit(),
        decreases amount - i,
    {
        let supply_at_i = match current_supply.checked_add(i as u128) {
            Some(v) => v,
            None => return Err(CurveError::ArithmeticOverflow),
        };
        let price = match calculate_price_at_supply(supply_at_i) {
            Ok(p) => p,
            Err(e) => return Err(e),
        };
        total_cost = match total_cost.checked_add(price) {
            Some(v) => v,
            None => {
                proof {
                    lemma_price_sum_grows(current_supply as int, (i + 1) as nat, amount as nat);
                }
                return Err(CurveError::ArithmeticOverflow);
            },
        };
        i = i + 1;
    }
    Ok(total_cost)
}

/// The buy cost is defined: nothing to buy, or every price in the range is
/// defined and the total fits in u128.
pub open spec fn buy_cost_defined(supply: int, amount: int) -> bool {
    amount == 0 || (supply + amount <= priced_supply_limit() && price_sum(supply, amount as nat)
        <= u128::MAX)
}

/// Gross proceeds of selling `amount` keys from `supply`: the prices over
/// `[supply - amount, supply)`.
pub open spec fn sell_gross(supply: int, amount: int) -> int {
    price_sum(supply - amount, amount as nat)
}

/// Outcome of `calculate_sell_return`.
pub open spec fn sell_return_outcome(supply: int, amount: int) -> Result<u128, CurveError> {
    if amount == 0 {
        Ok(0)
    } else if supply < amount {
        Err(CurveError::InsufficientReserve)
    } else if supply > priced_supply_limit() || sell_gross(supply, amount) * RESERVE_BPS
        > u128::MAX {
        Err(CurveError::ArithmeticOverflow)
    } else {
        Ok((sell_gross(supply, amount) * RESERVE_BPS / BPS_DENOMINATOR as int) as u128)
    }
}

/// Net return of selling `amount` keys at `current_supply`: the gross
/// proceeds over `[current_supply - amount, current_supply)` less the 6% fee.
pub fn calculate_sell_return(current_supply: u128, amount: u64) -> (r: Result<u128, CurveError>)
    ensures
        r == sell_return_outcome(current_supply as int, amount as int),
{
    if amount == 0 {
        return Ok(0);
    }
    if current_supply < amount as u128 {
        return Err(CurveError::InsufficientReserve);
    }
    let mut gross_return: u128 = 0;
    let mut i: u64 = 0;
    while i < amount
        invariant
            i <= amount <= current_supply,
            gross_return == price_sum(current_supply - i, i as nat),
            i > 0 ==> current_supply <= priced_supply_limit(),
        decreases amount - i,
    {
        let supply_at_i = current_supply - (i as u128 + 1);
        let price = match calculate_price_at_supply(supply_at_i) {
            Ok(p) => p,
            Err(e) => return Err(e),
        };
        proof {
            lemma_price_sum_split_bottom(current_supply - i - 1, i as nat);
        }
        gross_return = match gross_return.checked_add(price) {
            Some(v) => v,
            None => {
                proof {
                    lemma_price_sum_grows_down(
                        current_supply - i - 1,
                        (i + 1) as nat,
                        (amount - i - 1) as nat,
                    );
                }
                return Err(CurveError::ArithmeticOverflow);
            },
        };
        i = i + 1;
    }
    match gross_return.checked_mul(RESERVE_BPS) {
        Some(v) => Ok(v / BPS_DENOMINATOR),
        None => Err(CurveError::ArithmeticOverflow),
    }
}

/// Selling back the `amount` keys just bought from `supply` returns exactly
/// the buy cost scaled by the seller's 94% share, rounded down.
pub proof fn lemma_sell_back_returns_reserve_share(supply: int, amount: int)
    requires
        0 <= supply,
        0 < amount,
        supply + amount <= priced_supply_limit(),
        price_sum(supply, amount as nat) * RESERVE_BPS <= u128::MAX,
    ensures
        buy_cost_defined(supply, amount),
        sell_return_outcome(supply + amount, amount) == Ok::<u128, CurveError>(
            (price_sum(supply, amount as nat) * RESERVE_BPS / BPS_DENOMINATOR as int) as u128,
        ),
{
    assert(sell_gross(supply + amount, amount) == price_sum(supply, amount as nat));
}

/// `bps` basis points of `total`, rounded down (multiply first, then divide).
pub open spec fn bps_of(total: int, bps: int) -> int {
    total * bps / BPS_DENOMINATOR as int
}

/// Buckets of a purchase's total cost.
#[derive(Debug, Clone, Copy)]
pub struct BuyFeeDistribution {
    /// 94%, to the reserve vault.
    pub reserve: u128,
    /// 2%, to the referrer or, without one, to the creator.
    pub instant_fee: u128,
    /// 1%, to the buyback-and-burn wallet.
    pub buyback_burn: u128,
    /// 1%, to the community rewards wallet.
    pub community_rewards: u128,
    /// 2% and any rounding remainder, to the platform treasury.
    pub platform: u128,
}

impl BuyFeeDistribution {
    /// Sum of all buckets.
    pub open spec fn total(self) -> int {
        self.reserve + self.instant_fee + self.buyback_burn + self.community_rewards
            + self.platform
    }
}

/// The split of a purchase costing `t`.
pub open spec fn buy_fees_of(t: int) -> BuyFeeDistribution {
    let reserve = bps_of(t, RESERVE_BPS as int);
    let instant_fee = bps_of(t, INSTANT_BPS as int);
    let rewards = bps_of(t, (BUYBACK_BPS + COMMUNITY_BPS) as int);
    let buyback_burn = rewards / 2;
    let community_rewards = rewards - buyback_burn;
    BuyFeeDistribution {
        reserve: reserve as u128,
        instant_fee: instant_fee as u128,
        buyback_burn: buyback_burn as u128,
        community_rewards: community_rewards as u128,
        platform: (t - reserve - instant_fee - buyback_burn - community_rewards) as u128,
    }
}

/// Splits a purchase's total cost into its five buckets; the platform bucket,
/// computed last, absorbs the rounding remainder so the buckets sum to the total.
pub fn calculate_buy_fees(total_cost: u128) -> (r: Result<BuyFeeDistribution, CurveError>)
    ensures
        r == if total_cost * RESERVE_BPS > u128::MAX {
            Err::<BuyFeeDistribution, CurveError>(CurveError::ArithmeticOverflow)
        } else {
            Ok::<BuyFeeDistribution, CurveError>(buy_fees_of(total_cost as int))
        },
        r is Ok ==> r->Ok_0.total() == total_cost,
{
    let reserve = match total_cost.checked_mul(RESERVE_BPS) {
        Some(v) => v / BPS_DENOMINATOR,
        None => return Err(CurveError::ArithmeticOverflow),
    };
    let instant_fee = total_cost * INSTANT_BPS / BPS_DENOMINATOR;
    let total_rewards = total_cost * (BUYBACK_BPS + COMMUNITY_BPS) / BPS_DENOMINATOR;
    let buyback_burn = total_rewards / 2;
    let community_rewards = total_rewards - buyback_burn;
    let platform = total_cost - reserve - instant_fee - buyback_burn - community_rewards;
    Ok(BuyFeeDistribution { reserve, instant_fee, buyback_burn, community_rewards, platform })
}

/// Buckets of a sale's gross proceeds.
#[derive(Debug, Clone, Copy)]
pub struct SellFeeDistribution {
    /// 94%, paid to the seller.
    pub to_seller: u128,
    /// 2% of gross, to the referrer or, without one, to the creator.
    pub instant_fee: u128,
    /// 1% of gross, to the buyback-and-burn wallet.
    pub buyback_burn: u128,
    /// 1% of gross, to the community rewards wallet.
    pub community_rewards: u128,
    /// 2% of gross and any rounding remainder of the fee, to the platform treasury.
    pub platform: u128,
}

impl SellFeeDistribution {
    /// The fee buckets, without the seller's share.
    pub open spec fn fees(self) -> int {
        self.instant_fee + self.buyback_burn + self.community_rewards + self.platform
    }

    /// Sum of all buckets.
    pub open spec fn total(self) -> int {
        self.to_seller + self.fees()
    }
}

/// The split of a sale with gross proceeds `g`.
pub open spec fn sell_fees_of(g: int) -> SellFeeDistribution {
    let total_fee = bps_of(g, TOTAL_FEE_BPS as int);
    let instant_fee = total_fee * INSTANT_BPS / TOTAL_FEE_BPS as int;
    let buyback_burn = total_fee * BUYBACK_BPS / TOTAL_FEE_BPS as int;
    let community_rewards = total_fee * COMMUNITY_BPS / TOTAL_FEE_BPS as int;
    SellFeeDistribution {
        to_seller: (g - total_fee) as u128,
        instant_fee: instant_fee as u128,
        buyback_burn: buyback_burn as u128,
        community_rewards: community_rewards as u128,
        platform: (total_fee - instant_fee - buyback_burn - community_rewards) as u128,
    }
}

/// Splits a sale's gross proceeds: the 6% fee is deducted from the gross and
/// divided among the fee buckets, the platform bucket taking the remainder.
pub fn calculate_sell_fees(gross_return: u128) -> (r: Result<SellFeeDistribution, CurveError>)
    ensures
        r == if gross_return * TOTAL_FEE_BPS > u128::MAX {
            Err::<SellFeeDistribution, CurveError>(CurveError::ArithmeticOverflow)
        } else {
            Ok::<SellFeeDistribution, CurveError>(sell_fees_of(gross_return as int))
        },
        r is Ok ==> r->Ok_0.total() == gross_return,
        r is Ok ==> r->Ok_0.fees() == bps_of(gross_return as int, TOTAL_FEE_BPS as int),
{
    let total_fee = match gross_return.checked_mul(TOTAL_FEE_BPS) {
        Some(v) => v / BPS_DENOMINATOR,
        None => return Err(CurveError::ArithmeticOverflow),
    };
    let to_seller = gross_return - total_fee;
    let instant_fee = total_fee * INSTANT_BPS / TOTAL_FEE_BPS;
    let buyback_burn = total_fee * BUYBACK_BPS / TOTAL_FEE_BPS;
    let community_rewards = total_fee * COMMUNITY_BPS / TOTAL_FEE_BPS;
    let platform = total_fee - instant_fee - buyback_burn - community_rewards;
    Ok(SellFeeDistribution { to_seller, instant_fee, buyback_burn, community_rewards, platform })
}

} // verus!
