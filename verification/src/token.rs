//! Amounts of NEAR in yoctoNEAR and timestamps in nanoseconds.
use vstd::prelude::*;

verus! {

/// Number of yoctoNEAR in one NEAR.
pub const ONE_NEAR: u128 = 1_000_000_000_000_000_000_000_000u128;

/// Number of yoctoNEAR in one milliNEAR.
pub const ONE_MILLINEAR: u128 = 1_000_000_000_000_000_000_000u128;

/// Number of nanoseconds in one second.
pub const NANOS_PER_SECOND: u64 = 1_000_000_000u64;

/// The timestamp in nanoseconds.
pub type TimestampNs = u64;

/// The version of a contract. It is a monotonically increasing number.
pub type Version = u64;

/// An amount of NEAR, held in yoctoNEAR.
#[derive(Clone, Copy, Debug, PartialEq, Eq, Structural, PartialOrd, Ord, Hash)]
pub struct NearToken(pub u128);

impl NearToken {
    /// The amount in yoctoNEAR.
    pub open spec fn yocto(self) -> nat {
        self.0 as nat
    }

    pub fn from_yoctonear(amount: u128) -> (res: NearToken)
        ensures
            res.0 == amount,
    {
        NearToken(amount)
    }

    pub fn from_millinear(amount: u128) -> (res: NearToken)
        requires
            amount * ONE_MILLINEAR <= u128::MAX,
        ensures
            res.0 == amount * ONE_MILLINEAR,
    {
        NearToken(amount * ONE_MILLINEAR)
    }

    pub fn from_near(amount: u128) -> (res: NearToken)
        requires
            amount * ONE_NEAR <= u128::MAX,
        ensures
            res.0 == amount * ONE_NEAR,
    {
        NearToken(amount * ONE_NEAR)
    }

    pub fn as_yoctonear(&self) -> (res: u128)
        ensures
            res == self.0,
    {
        self.0
    }

    /// Whole milliNEAR, rounded down.
    pub fn as_millinear(&self) -> (res: u128)
        ensures
            res == self.0 / ONE_MILLINEAR,
    {
        self.0 / ONE_MILLINEAR
    }

    /// Whole NEAR, rounded down.
    pub fn as_near(&self) -> (res: u128)
        ensures
            res == self.0 / ONE_NEAR,
    {
        self.0 / ONE_NEAR
    }

    pub fn is_zero(&self) -> (res: bool)
        ensures
            res == (self.0 == 0),
    {
        self.0 == 0
    }

    pub fn checked_add(self, other: NearToken) -> (res: Option<NearToken>)
        ensures
            self.0 + other.0 <= u128::MAX ==> res == Some(NearToken((self.0 + other.0) as u128)),
            self.0 + other.0 > u128::MAX ==> res is None,
    {
        match self.0.checked_add(other.0) {
            Some(v) => Some(NearToken(v)),
            None => None,
        }
    }

    pub fn checked_sub(self, other: NearToken) -> (res: Option<NearToken>)
        ensures
            other.0 <= self.0 ==> res == Some(NearToken((self.0 - other.0) as u128)),
            other.0 > self.0 ==> res is None,
    {
        if other.0 <= self.0 {
            Some(NearToken(self.0 - other.0))
        } else {
            None
        }
    }

    pub fn saturating_sub(self, other: NearToken) -> (res: NearToken)
        ensures
            res.0 == if other.0 <= self.0 { self.0 - other.0 } else { 0 },
    {
        if other.0 <= self.0 {
            NearToken(self.0 - other.0)
        } else {
            NearToken(0)
        }
    }
}

impl Default for NearToken {
    fn default() -> (res: NearToken)
        ensures
            res.0 == 0,
    {
        NearToken(0)
    }
}

/// Adds two amounts; the sum must fit.
pub fn near_add(a: NearToken, b: NearToken) -> (res: NearToken)
    requires
        a.0 + b.0 <= u128::MAX,
    ensures
        res.0 == a.0 + b.0,
{
    a.checked_add(b).unwrap()
}

/// Subtracts `b` from `a`; `b` must not exceed `a`.
pub fn near_sub(a: NearToken, b: NearToken) -> (res: NearToken)
    requires
        b.0 <= a.0,
    ensures
        res.0 == a.0 - b.0,
{
    a.checked_sub(b).unwrap()
}

/// A timestamp rounded down to whole seconds.
pub open spec fn spec_truncate_to_seconds(ns: u64) -> u64 {
    (ns - ns % NANOS_PER_SECOND) as u64
}

/// Rounds a nanosecond timestamp down to whole seconds.
pub fn truncate_to_seconds(nanoseconds: TimestampNs) -> (res: TimestampNs)
    ensures
        res == spec_truncate_to_seconds(nanoseconds),
        res <= nanoseconds,
        res % NANOS_PER_SECOND == 0,
{
    let secs = nanoseconds / NANOS_PER_SECOND;
    assert(secs * NANOS_PER_SECOND == nanoseconds - nanoseconds % NANOS_PER_SECOND) by {
        vstd::arithmetic::div_mod::lemma_fundamental_div_mod(nanoseconds as int, NANOS_PER_SECOND as int);
    }
    assert((secs * NANOS_PER_SECOND) % (NANOS_PER_SECOND as int) == 0) by {
        vstd::arithmetic::div_mod::lemma_mod_multiples_basic(secs as int, NANOS_PER_SECOND as int);
    }
    secs * NANOS_PER_SECOND
}

/// An amount rounded down to whole milliNEAR.
pub open spec fn spec_truncate_near_to_millis(near: NearToken) -> NearToken {
    NearToken((near.0 - near.0 % ONE_MILLINEAR) as u128)
}

/// Rounds an amount down to whole milliNEAR.
pub fn truncate_near_to_millis(near: NearToken) -> (res: NearToken)
    ensures
        res == spec_truncate_near_to_millis(near),
        res.0 <= near.0,
{
    let millis = near.as_millinear();
    assert(millis * ONE_MILLINEAR == near.0 - near.0 % ONE_MILLINEAR) by {
        vstd::arithmetic::div_mod::lemma_fundamental_div_mod(near.0 as int, ONE_MILLINEAR as int);
    }
    NearToken::from_millinear(millis)
}

} // verus!
