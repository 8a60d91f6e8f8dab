//! veNEAR growth: locked NEAR earns extra veNEAR at a fixed rate per
//! nanosecond, linearly (the extra veNEAR itself does not grow).
use vstd::prelude::*;
use crate::fraction::Fraction;
use crate::token::{near_add, near_sub, spec_truncate_near_to_millis, truncate_near_to_millis, NearToken, TimestampNs, NANOS_PER_SECOND};

verus! {

/// The fixed annual growth rate of veNEAR tokens.
#[derive(Clone, Copy, Debug)]
pub struct VenearGrowthConfigFixedRate {
    /// The growth rate of veNEAR tokens per nanosecond, e.g.
    /// `6 / (100 * NUM_SEC_IN_YEAR * 10**9)` means 6% annual growth.
    pub annual_growth_rate_ns: Fraction,
}

/// How veNEAR grows over time.
#[derive(Clone, Debug)]
pub enum VenearGrowthConfig {
    FixedRate(Box<VenearGrowthConfigFixedRate>),
}

impl From<VenearGrowthConfigFixedRate> for VenearGrowthConfig {
    fn from(config: VenearGrowthConfigFixedRate) -> (res: Self) {
        VenearGrowthConfig::FixedRate(Box::new(config))
    }
}

impl vstd::std_specs::convert::FromSpecImpl<VenearGrowthConfigFixedRate> for VenearGrowthConfig {
    open spec fn obeys_from_spec() -> bool {
        true
    }

    open spec fn from_spec(config: VenearGrowthConfigFixedRate) -> VenearGrowthConfig {
        VenearGrowthConfig::FixedRate(Box::new(config))
    }
}

/// A timestamp that is whole seconds.
pub open spec fn is_whole_seconds(ts: u64) -> bool {
    ts % NANOS_PER_SECOND == 0
}

impl VenearGrowthConfig {
    /// A copy of the configuration.
    pub fn duplicate(&self) -> (res: VenearGrowthConfig)
        ensures
            res == *self,
    {
        match self {
            VenearGrowthConfig::FixedRate(c) => VenearGrowthConfig::FixedRate(Box::new(**c)),
        }
    }

    /// The growth rate per nanosecond.
    pub open spec fn rate(self) -> Fraction {
        match self {
            VenearGrowthConfig::FixedRate(c) => c.annual_growth_rate_ns,
        }
    }

    /// The extra veNEAR that `balance` earns from `prev` to `cur`: the rate
    /// times the elapsed nanoseconds times the balance rounded down to whole
    /// milliNEAR, rounded down.
    pub open spec fn spec_growth(self, prev: u64, cur: u64, balance: NearToken) -> int {
        if prev == cur {
            0
        } else {
            self.rate().spec_mul2(cur - prev, spec_truncate_near_to_millis(balance).0 as int)
        }
    }

    /// The inputs on which `calculate` succeeds: time does not go back, both
    /// timestamps are whole seconds, and, when time passes, the rate has a
    /// positive denominator and the growth fits in `u128`.
    pub open spec fn calculate_ok(self, prev: u64, cur: u64, balance: NearToken) -> bool {
        &&& prev <= cur
        &&& is_whole_seconds(prev)
        &&& is_whole_seconds(cur)
        &&& prev != cur ==> self.rate().denominator > 0
        &&& self.spec_growth(prev, cur, balance) <= u128::MAX
    }

    /// The extra veNEAR that `balance` earns from `previous_timestamp` to
    /// `current_timestamp`.
    pub fn calculate(
        &self,
        previous_timestamp: TimestampNs,
        current_timestamp: TimestampNs,
        balance: NearToken,
    ) -> (res: NearToken)
        requires
            self.calculate_ok(previous_timestamp, current_timestamp, balance),
        ensures
            res.0 == self.spec_growth(previous_timestamp, current_timestamp, balance),
    {
        self.try_calculate(previous_timestamp, current_timestamp, balance).unwrap()
    }

    /// The extra veNEAR that `balance` earns from `previous_timestamp` to
    /// `current_timestamp`, or `None` on the inputs that `calculate` refuses.
    pub fn try_calculate(
        &self,
        previous_timestamp: TimestampNs,
        current_timestamp: TimestampNs,
        balance: NearToken,
    ) -> (res: Option<NearToken>)
        ensures
            res is Some <==> self.calculate_ok(previous_timestamp, current_timestamp, balance),
            res matches Some(g) ==> g.0 == self.spec_growth(
                previous_timestamp,
                current_timestamp,
                balance,
            ),
    {
        if current_timestamp < previous_timestamp
            || current_timestamp % NANOS_PER_SECOND != 0
            || previous_timestamp % NANOS_PER_SECOND != 0 {
            return None;
        }
        if previous_timestamp == current_timestamp {
            return Some(NearToken::from_yoctonear(0));
        }
        let truncated_near_balance = truncate_near_to_millis(balance);
        match self {
            VenearGrowthConfig::FixedRate(config) => {
                let growth_period_ns = current_timestamp - previous_timestamp;
                match config.annual_growth_rate_ns.checked_u384_mul(
                    growth_period_ns as u128,
                    truncated_near_balance.as_yoctonear(),
                ) {
                    Some(g) => Some(NearToken::from_yoctonear(g)),
                    None => None,
                }
            },
        }
    }
}

/// A veNEAR balance: the locked NEAR and the extra veNEAR it has earned.
#[derive(Clone, Copy, Debug, PartialEq, Eq, Structural)]
pub struct VenearBalance {
    /// The NEAR balance, which does not change as time passes.
    pub near_balance: NearToken,
    /// The veNEAR earned by the NEAR balance so far.
    pub extra_venear_balance: NearToken,
}

/// The sum of several accounts' veNEAR balances.
pub type PooledVenearBalance = VenearBalance;

impl Default for VenearBalance {
    fn default() -> (res: VenearBalance)
        ensures
            res.near_balance.0 == 0,
            res.extra_venear_balance.0 == 0,
    {
        VenearBalance {
            near_balance: NearToken::from_yoctonear(0),
            extra_venear_balance: NearToken::from_yoctonear(0),
        }
    }
}

impl VenearBalance {
    /// The whole veNEAR: NEAR plus extra veNEAR.
    pub open spec fn spec_total(self) -> int {
        self.near_balance.0 + self.extra_venear_balance.0
    }

    /// The balance after growing from `prev` to `cur`.
    pub open spec fn spec_updated(
        self,
        prev: u64,
        cur: u64,
        config: VenearGrowthConfig,
    ) -> VenearBalance {
        VenearBalance {
            near_balance: self.near_balance,
            extra_venear_balance: NearToken(
                (self.extra_venear_balance.0 + config.spec_growth(prev, cur, self.near_balance)) as u128,
            ),
        }
    }

    /// The inputs on which `update` succeeds.
    pub open spec fn update_ok(self, prev: u64, cur: u64, config: VenearGrowthConfig) -> bool {
        &&& config.calculate_ok(prev, cur, self.near_balance)
        &&& self.extra_venear_balance.0 + config.spec_growth(prev, cur, self.near_balance)
            <= u128::MAX
    }

    /// A balance of NEAR with no extra veNEAR yet.
    pub fn from_near(near_balance: NearToken) -> (res: VenearBalance)
        ensures
            res.near_balance == near_balance,
            res.extra_venear_balance.0 == 0,
    {
        VenearBalance { near_balance, extra_venear_balance: NearToken::from_yoctonear(0) }
    }

    /// The whole veNEAR: NEAR plus extra veNEAR.
    pub fn total(&self) -> (res: NearToken)
        requires
            self.spec_total() <= u128::MAX,
        ensures
            res.0 == self.spec_total(),
    {
        near_add(self.near_balance, self.extra_venear_balance)
    }

    /// Adds the veNEAR that the NEAR balance earned from
    /// `previous_timestamp` to `current_timestamp`.
    pub fn update(
        &mut self,
        previous_timestamp: TimestampNs,
        current_timestamp: TimestampNs,
        config: &VenearGrowthConfig,
    )
        requires
            old(self).update_ok(previous_timestamp, current_timestamp, *config),
        ensures
            *final(self) == old(self).spec_updated(previous_timestamp, current_timestamp, *config),
    {
        let growth = config.calculate(previous_timestamp, current_timestamp, self.near_balance);
        self.extra_venear_balance = near_add(self.extra_venear_balance, growth);
    }

    /// The balance after growing from `previous_timestamp` to
    /// `current_timestamp`, or `None` on the inputs that `update` refuses.
    pub fn try_updated(
        &self,
        previous_timestamp: TimestampNs,
        current_timestamp: TimestampNs,
        config: &VenearGrowthConfig,
    ) -> (res: Option<VenearBalance>)
        ensures
            res is Some <==> self.update_ok(previous_timestamp, current_timestamp, *config),
            res matches Some(b) ==> b == self.spec_updated(
                previous_timestamp,
                current_timestamp,
                *config,
            ),
    {
        match config.try_calculate(previous_timestamp, current_timestamp, self.near_balance) {
            Some(growth) => match self.extra_venear_balance.checked_add(growth) {
                Some(extra) => Some(
                    VenearBalance { near_balance: self.near_balance, extra_venear_balance: extra },
                ),
                None => None,
            },
            None => None,
        }
    }

    /// The whole veNEAR, or `None` when it does not fit.
    pub fn try_total(&self) -> (res: Option<NearToken>)
        ensures
            res is Some <==> self.spec_total() <= u128::MAX,
            res matches Some(t) ==> t.0 == self.spec_total(),
    {
        self.near_balance.checked_add(self.extra_venear_balance)
    }

    /// The component-wise sum of two balances.
    pub open spec fn spec_plus(self, other: VenearBalance) -> VenearBalance {
        VenearBalance {
            near_balance: NearToken((self.near_balance.0 + other.near_balance.0) as u128),
            extra_venear_balance: NearToken(
                (self.extra_venear_balance.0 + other.extra_venear_balance.0) as u128,
            ),
        }
    }

    /// The difference of two balances: the NEAR exactly, the extra veNEAR
    /// down to zero at least. Extra veNEAR is grown separately on a pooled
    /// balance and on each of its parts, and rounding may leave the pool with
    /// less than a part.
    pub open spec fn spec_minus(self, other: VenearBalance) -> VenearBalance {
        VenearBalance {
            near_balance: NearToken((self.near_balance.0 - other.near_balance.0) as u128),
            extra_venear_balance: NearToken(
                if other.extra_venear_balance.0 <= self.extra_venear_balance.0 {
                    (self.extra_venear_balance.0 - other.extra_venear_balance.0) as u128
                } else {
                    0
                },
            ),
        }
    }

    /// Both components of the sum fit.
    pub open spec fn can_add(self, other: VenearBalance) -> bool {
        &&& self.near_balance.0 + other.near_balance.0 <= u128::MAX
        &&& self.extra_venear_balance.0 + other.extra_venear_balance.0 <= u128::MAX
    }

    /// The NEAR of `other` does not exceed the NEAR of `self`.
    pub open spec fn can_sub(self, other: VenearBalance) -> bool {
        other.near_balance.0 <= self.near_balance.0
    }

    /// Adds another balance, component by component.
    pub fn add_balance(&mut self, other: VenearBalance)
        requires
            old(self).can_add(other),
        ensures
            *final(self) == old(self).spec_plus(other),
    {
        self.near_balance = near_add(self.near_balance, other.near_balance);
        self.extra_venear_balance = near_add(self.extra_venear_balance, other.extra_venear_balance);
    }

    /// Subtracts another balance: the NEAR exactly, the extra veNEAR down to
    /// zero at least.
    pub fn sub_balance(&mut self, other: VenearBalance)
        requires
            old(self).can_sub(other),
        ensures
            *final(self) == old(self).spec_minus(other),
    {
        self.near_balance = near_sub(self.near_balance, other.near_balance);
        self.extra_venear_balance = self.extra_venear_balance.saturating_sub(other.extra_venear_balance);
    }
}

/// Growth depends on the elapsed time alone, not on when it elapsed.
pub proof fn lemma_growth_time_shift(config: VenearGrowthConfig, prev: u64, cur: u64, shift: u64, balance: NearToken)
    requires
        prev <= cur,
        cur + shift <= u64::MAX,
    ensures
        config.spec_growth(prev, cur, balance) == config.spec_growth(
            (prev + shift) as u64,
            (cur + shift) as u64,
            balance,
        ),
{
}

/// Growth is linear, not compound: growing a balance over two periods adds
/// the growth of each period, and each is computed from the NEAR alone, so
/// the veNEAR earned in the first does not earn more in the second.
pub proof fn lemma_growth_not_compound(
    balance: VenearBalance,
    config: VenearGrowthConfig,
    t0: u64,
    t1: u64,
    t2: u64,
)
    ensures
        balance.spec_updated(t0, t1, config).near_balance == balance.near_balance,
        balance.update_ok(t0, t1, config) && balance.spec_updated(t0, t1, config).update_ok(t1, t2, config)
            ==> balance.spec_updated(t0, t1, config).spec_updated(
            t1,
            t2,
            config,
        ).extra_venear_balance.0 == balance.extra_venear_balance.0 + config.spec_growth(t0, t1, balance.near_balance)
            + config.spec_growth(t1, t2, balance.near_balance),
        balance.update_ok(t0, t1, config) ==> balance.spec_updated(t0, t1, config).extra_venear_balance.0
            == balance.extra_venear_balance.0 + config.spec_growth(t0, t1, balance.near_balance),
{
}

/// Rounded-down quotients of two non-negative numbers add up to the
/// quotient of their sum, or one less.
pub proof fn lemma_floor_add(a: int, b: int, d: int)
    requires
        a >= 0,
        b >= 0,
        d > 0,
    ensures
        a / d + b / d <= (a + b) / d <= a / d + b / d + 1,
{
    vstd::arithmetic::div_mod::lemma_fundamental_div_mod(a, d);
    vstd::arithmetic::div_mod::lemma_fundamental_div_mod(b, d);
    vstd::arithmetic::div_mod::lemma_fundamental_div_mod(a + b, d);
    let qa = a / d;
    let qb = b / d;
    let q = (a + b) / d;
    let ra = a % d;
    let rb = b % d;
    let r = (a + b) % d;
    assert(0 <= ra < d && 0 <= rb < d && 0 <= r < d) by {
        vstd::arithmetic::div_mod::lemma_mod_bound(a, d);
        vstd::arithmetic::div_mod::lemma_mod_bound(b, d);
        vstd::arithmetic::div_mod::lemma_mod_bound(a + b, d);
    }
    assert(d * (q - qa - qb) == ra + rb - r) by (nonlinear_arith)
        requires
            a == d * qa + ra,
            b == d * qb + rb,
            a + b == d * q + r,
    ;
    assert(qa + qb <= q <= qa + qb + 1) by (nonlinear_arith)
        requires
            d * (q - qa - qb) == ra + rb - r,
            0 <= ra < d,
            0 <= rb < d,
            0 <= r < d,
            d > 0,
    ;
}

/// Growth over a period is the growth of its two parts, or at most one
/// yoctoNEAR more, from rounding down.
pub proof fn lemma_growth_additive(config: VenearGrowthConfig, t0: u64, t1: u64, t2: u64, balance: NearToken)
    requires
        t0 <= t1 <= t2,
        config.rate().denominator > 0,
    ensures
        config.spec_growth(t0, t1, balance) + config.spec_growth(t1, t2, balance) <= config.spec_growth(
            t0,
            t2,
            balance,
        ) <= config.spec_growth(t0, t1, balance) + config.spec_growth(t1, t2, balance) + 1,
{
    let r = config.rate();
    let n = r.numerator as int;
    let d = r.denominator as int;
    let m = spec_truncate_near_to_millis(balance).0 as int;
    let x = n * (t1 - t0) * m;
    let y = n * (t2 - t1) * m;
    assert(x >= 0 && y >= 0) by (nonlinear_arith)
        requires
            n >= 0,
            m >= 0,
            t1 - t0 >= 0,
            t2 - t1 >= 0,
            x == n * (t1 - t0) * m,
            y == n * (t2 - t1) * m,
    ;
    assert(x + y == n * (t2 - t0) * m) by (nonlinear_arith)
        requires
            x == n * (t1 - t0) * m,
            y == n * (t2 - t1) * m,
    ;
    lemma_floor_add(x, y, d);
    if t0 == t1 {
        assert(x == 0) by (nonlinear_arith)
            requires
                x == n * (t1 - t0) * m,
                t1 == t0,
        ;
    }
    if t1 == t2 {
        assert(y == 0) by (nonlinear_arith)
            requires
                y == n * (t2 - t1) * m,
                t1 == t2,
        ;
    }
}

/// Growth from `prev` never shrinks as the end moves later.
pub proof fn lemma_growth_monotone(config: VenearGrowthConfig, prev: u64, c1: u64, c2: u64, balance: NearToken)
    requires
        prev <= c1 <= c2,
        prev != c2 ==> config.rate().denominator > 0,
    ensures
        0 <= config.spec_growth(prev, c1, balance) <= config.spec_growth(prev, c2, balance),
{
    if prev != c2 {
        let r = config.rate();
        let n = r.numerator as int;
        let d = r.denominator as int;
        let m = spec_truncate_near_to_millis(balance).0 as int;
        let x1 = n * (c1 - prev) * m;
        let x2 = n * (c2 - prev) * m;
        assert(0 <= x1 <= x2) by (nonlinear_arith)
            requires
                n >= 0,
                m >= 0,
                0 <= c1 - prev <= c2 - prev,
                x1 == n * (c1 - prev) * m,
                x2 == n * (c2 - prev) * m,
        ;
        vstd::arithmetic::div_mod::lemma_div_pos_is_pos(x1, d);
        vstd::arithmetic::div_mod::lemma_div_is_ordered(x1, x2, d);
    }
}

} // verus!
