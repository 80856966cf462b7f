//! The configuration of the platform, given once at start-up.

use vstd::prelude::*;

use crate::ledger::Tokens;
use crate::memory::State;

verus! {

/// The configuration that the ledger works under.
#[derive(Debug, Clone, Copy, PartialEq, Eq)]
pub struct Settings {
    /// What a developer's escrow must hold before an app is deployed.
    pub minimum_escrow_balance_for_deploy: Tokens,
    /// How many apps one developer may own.
    pub max_apps_per_developer: usize,
    /// The commission rate, as the bits of a single-precision number. The
    /// ledger carries it and never computes with it.
    pub commition_rate_bits: u32,
    /// For how many seconds a fetched exchange rate is used.
    pub exchange_rate_timeout_seconds: u64,
}

/// The configuration as it arrives at start-up.
#[derive(Debug, Clone, Copy, PartialEq, Eq)]
pub struct InitArgs {
    pub minimum_escrow_balance_for_deploy: Tokens,
    pub max_apps_per_developer: usize,
    pub commition_rate_bits: u32,
    pub exchange_rate_timeout_seconds: u64,
}

impl InitArgs {
    /// The settings that these arguments ask for.
    pub open spec fn settings(self) -> Settings {
        Settings {
            minimum_escrow_balance_for_deploy: self.minimum_escrow_balance_for_deploy,
            max_apps_per_developer: self.max_apps_per_developer,
            commition_rate_bits: self.commition_rate_bits,
            exchange_rate_timeout_seconds: self.exchange_rate_timeout_seconds,
        }
    }
}

/// Puts the start-up configuration in place. A state that already has
/// settings keeps them.
pub fn init_canister(state: &mut State, init_args: InitArgs)
    ensures
        final(state)@ == old(state)@.init_settings(init_args.settings()),
{
    let settings = Settings {
        minimum_escrow_balance_for_deploy: init_args.minimum_escrow_balance_for_deploy,
        max_apps_per_developer: init_args.max_apps_per_developer,
        commition_rate_bits: init_args.commition_rate_bits,
        exchange_rate_timeout_seconds: init_args.exchange_rate_timeout_seconds,
    };
    state.init_settings(settings);
}

} // verus!
