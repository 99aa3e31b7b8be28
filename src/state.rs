//! The snapshot of the economy at the end of one epoch.
use vstd::prelude::*;

verus! {

/// The economy at the end of one epoch. Amounts are micro-dollars, rates are parts
/// per million.
#[derive(Clone, Copy, Debug, PartialEq, Eq, Structural)]
pub struct State {
    /// Total value bonded by operators.
    pub tvb: i64,
    /// Total value locked: minted minus burned.
    pub tvl: i64,
    /// Cumulative value set aside for rebates.
    pub tvr: i64,
    /// Mint fee rate of the epoch.
    pub mf: i64,
    /// Burn fee rate of the epoch.
    pub bf: i64,
    /// Rebate rate of the epoch.
    pub r: i64,
    /// Fees collected and not yet claimed by operators.
    pub f_unclaimed: i64,
    /// Cumulative fees claimed by operators.
    pub f_claimed: i64,
    /// Funds reserved to pay rebates.
    pub r_pool: i64,
}

/// The genesis snapshot: every field zero.
pub open spec fn genesis_state() -> State {
    State { tvb: 0, tvl: 0, tvr: 0, mf: 0, bf: 0, r: 0, f_unclaimed: 0, f_claimed: 0, r_pool: 0 }
}

impl State {
    /// The genesis snapshot, with every field zero.
    pub fn genesis() -> (s: State)
        ensures
            s == genesis_state(),
    {
        State { tvb: 0, tvl: 0, tvr: 0, mf: 0, bf: 0, r: 0, f_unclaimed: 0, f_claimed: 0, r_pool: 0 }
    }
}

/// A copy of the last snapshot of a non-empty history.
pub fn latest_state(history: &Vec<State>) -> (s: State)
    requires
        history@.len() > 0,
    ensures
        s == history@.last(),
{
    history[history.len() - 1]
}

} // verus!
