//! The global state kept beside the Merkle tree: the total veNEAR.
use vstd::prelude::*;
use crate::token::{spec_truncate_to_seconds, truncate_to_seconds, TimestampNs};
use crate::venear::{PooledVenearBalance, VenearBalance, VenearGrowthConfig};

verus! {

/// The global state of the veNEAR contract and the Merkle tree.
#[derive(Clone, Debug)]
pub struct GlobalState {
    pub update_timestamp: TimestampNs,
    pub total_venear_balance: PooledVenearBalance,
    pub venear_growth_config: VenearGrowthConfig,
}

/// A versioned global state.
#[derive(Clone, Debug)]
pub enum VGlobalState {
    V0(GlobalState),
}

impl From<GlobalState> for VGlobalState {
    fn from(global_state: GlobalState) -> (res: Self) {
        VGlobalState::V0(global_state)
    }
}

impl vstd::std_specs::convert::FromSpecImpl<GlobalState> for VGlobalState {
    open spec fn obeys_from_spec() -> bool {
        true
    }

    open spec fn from_spec(global_state: GlobalState) -> VGlobalState {
        VGlobalState::V0(global_state)
    }
}

impl From<VGlobalState> for GlobalState {
    fn from(value: VGlobalState) -> (res: Self) {
        match value {
            VGlobalState::V0(global_state) => global_state,
        }
    }
}

impl vstd::std_specs::convert::FromSpecImpl<VGlobalState> for GlobalState {
    open spec fn obeys_from_spec() -> bool {
        true
    }

    open spec fn from_spec(value: VGlobalState) -> GlobalState {
        match value {
            VGlobalState::V0(global_state) => global_state,
        }
    }
}

impl VGlobalState {
    /// A copy of the versioned global state.
    pub fn duplicate(&self) -> (res: VGlobalState)
        ensures
            res == *self,
    {
        match self {
            VGlobalState::V0(g) => VGlobalState::V0(g.duplicate()),
        }
    }

    /// The global state inside.
    pub open spec fn state(self) -> GlobalState {
        match self {
            VGlobalState::V0(global_state) => global_state,
        }
    }

    /// The growth configuration.
    pub fn get_venear_growth_config(&self) -> (res: &VenearGrowthConfig)
        ensures
            *res == self.state().venear_growth_config,
    {
        match self {
            VGlobalState::V0(global_state) => &global_state.venear_growth_config,
        }
    }
}

impl GlobalState {
    /// A copy of the global state.
    pub fn duplicate(&self) -> (res: GlobalState)
        ensures
            res == *self,
    {
        GlobalState {
            update_timestamp: self.update_timestamp,
            total_venear_balance: self.total_venear_balance,
            venear_growth_config: self.venear_growth_config.duplicate(),
        }
    }

    /// A global state with no veNEAR, at `timestamp` rounded down to whole
    /// seconds.
    pub fn new(timestamp: TimestampNs, venear_growth_config: VenearGrowthConfig) -> (res: Self)
        ensures
            res.update_timestamp == spec_truncate_to_seconds(timestamp),
            res.total_venear_balance.near_balance.0 == 0,
            res.total_venear_balance.extra_venear_balance.0 == 0,
            res.venear_growth_config == venear_growth_config,
    {
        GlobalState {
            update_timestamp: truncate_to_seconds(timestamp),
            total_venear_balance: VenearBalance::default(),
            venear_growth_config,
        }
    }

    /// The inputs on which `update` succeeds.
    pub open spec fn update_ok(self, current: u64) -> bool {
        self.total_venear_balance.update_ok(
            self.update_timestamp,
            spec_truncate_to_seconds(current),
            self.venear_growth_config,
        )
    }

    /// The state with the total grown to `current`, rounded down to whole
    /// seconds.
    pub open spec fn spec_updated(self, current: u64) -> GlobalState {
        let cur = spec_truncate_to_seconds(current);
        GlobalState {
            update_timestamp: cur,
            total_venear_balance: self.total_venear_balance.spec_updated(
                self.update_timestamp,
                cur,
                self.venear_growth_config,
            ),
            venear_growth_config: self.venear_growth_config,
        }
    }

    /// Grows the total veNEAR to `current_timestamp` rounded down to whole
    /// seconds, and records that time.
    pub fn update(&mut self, current_timestamp: TimestampNs)
        requires
            old(self).update_ok(current_timestamp),
        ensures
            *final(self) == old(self).spec_updated(current_timestamp),
    {
        let _ok = self.try_update(current_timestamp);
    }

    /// Grows the total veNEAR and returns `true`, or leaves the state unchanged
    /// and returns `false` on the inputs that `update` refuses.
    pub fn try_update(&mut self, current_timestamp: TimestampNs) -> (ok: bool)
        ensures
            ok == old(self).update_ok(current_timestamp),
            ok ==> *final(self) == old(self).spec_updated(current_timestamp),
            !ok ==> *final(self) == *old(self),
    {
        let current_timestamp = truncate_to_seconds(current_timestamp);
        match self.total_venear_balance.try_updated(
            self.update_timestamp,
            current_timestamp,
            &self.venear_growth_config,
        ) {
            Some(b) => {
                self.total_venear_balance = b;
                self.update_timestamp = current_timestamp;
                true
            },
            None => false,
        }
    }
}

/// Bringing the global state to `current` keeps the total NEAR, grows the
/// total's extra veNEAR by what the total NEAR earns from the last update
/// to `current` in whole seconds, and records that time.
pub proof fn lemma_global_state_grows(g: GlobalState, current: u64)
    requires
        g.update_ok(current),
    ensures
        g.spec_updated(current).total_venear_balance.near_balance == g.total_venear_balance.near_balance,
        g.spec_updated(current).total_venear_balance.extra_venear_balance.0 == g.total_venear_balance.extra_venear_balance.0
            + g.venear_growth_config.spec_growth(
            g.update_timestamp,
            spec_truncate_to_seconds(current),
            g.total_venear_balance.near_balance,
        ),
        g.spec_updated(current).update_timestamp == spec_truncate_to_seconds(current),
        g.spec_updated(current).venear_growth_config == g.venear_growth_config,
{
}

} // verus!
