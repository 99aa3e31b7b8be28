//! Models of actors outside the protocol: operators who bond capital, minters and
//! burners. Each reads the history and nothing else.
use vstd::prelude::*;
use crate::fixed::{fits, floor_div, PPM};
use crate::state::{latest_state, State};

verus! {

/// Annual return, in parts per million, that operators want on bonded capital (5%).
pub const TARGET_ROI: i64 = 50_000;

/// Epochs in one year.
pub const EPOCHS_PER_YEAR: i64 = 365;

/// Most epoch-over-epoch increases of claimed fees that operators average over.
pub const BOND_WINDOW: usize = 7;

/// Value minted in every epoch: four million dollars.
pub const BASE_MINT_VOLUME: i64 = 4_000_000_000_000;

/// Value burned in every epoch before any rebate arbitrage: two million dollars.
pub const BASE_BURN_VOLUME: i64 = 2_000_000_000_000;

/// Least rebate rate (0.1%) at which rebates draw arbitrage burns.
pub const ARBITRAGE_THRESHOLD: i64 = 1_000;

/// Arbitrage burn volume drawn per `ARBITRAGE_THRESHOLD` of rebate: one million dollars.
pub const ARBITRAGE_PER_THRESHOLD: i64 = 1_000_000_000_000;

/// Number of epoch-over-epoch increases that a history of `len` snapshots offers to
/// the bonding average.
pub open spec fn bond_window(len: int) -> int {
    if len - 1 < BOND_WINDOW as int {
        len - 1
    } else {
        BOND_WINDOW as int
    }
}

/// Value bonded by operators who want `TARGET_ROI` a year from the average increase
/// of claimed fees over the last `bond_window` epochs. The sum of those increases
/// is the increase of `f_claimed` across them; the value is
/// `average × EPOCHS_PER_YEAR / TARGET_ROI`, rounded down, and zero when the
/// history has no two snapshots.
pub open spec fn spec_total_value_bonded(h: Seq<State>) -> int {
    if h.len() < 2 {
        0
    } else {
        let k = bond_window(h.len() as int);
        let rise = h.last().f_claimed - h[h.len() - 1 - k].f_claimed;
        (rise * EPOCHS_PER_YEAR * PPM) / (k * TARGET_ROI)
    }
}

/// Burn volume: the base volume, plus, once the latest rebate rate reaches
/// `ARBITRAGE_THRESHOLD`, the smaller of what the rebate pool can pay for at that
/// rate (`r_pool / r`, rounded down) and `ARBITRAGE_PER_THRESHOLD × r / ARBITRAGE_THRESHOLD`.
pub open spec fn spec_burn_volume(h: Seq<State>) -> int {
    let s = h.last();
    if s.r >= ARBITRAGE_THRESHOLD {
        let affordable = (s.r_pool * PPM) / (s.r as int);
        let drawn = (ARBITRAGE_PER_THRESHOLD * s.r) / (ARBITRAGE_THRESHOLD as int);
        BASE_BURN_VOLUME + if affordable < drawn { affordable } else { drawn }
    } else {
        BASE_BURN_VOLUME as int
    }
}

/// Value that operators bond, given the history; `None` when it leaves the range
/// of `i64`.
pub fn total_value_bonded(history: &Vec<State>) -> (r: Option<i64>)
    ensures
        r == (if fits(spec_total_value_bonded(history@)) {
            Some(spec_total_value_bonded(history@) as i64)
        } else {
            None
        }),
        history@.len() < 2 ==> r == Some(0i64),
{
    let len = history.len();
    if len < 2 {
        return Some(0);
    }
    let k: usize = if len - 1 < BOND_WINDOW { len - 1 } else { BOND_WINDOW };
    let rise: i128 = history[len - 1].f_claimed as i128 - history[len - 1 - k].f_claimed as i128;
    assert(-0x1_0000_0000_0000_0000_0000_0000 <= rise * EPOCHS_PER_YEAR * PPM
        <= 0x1_0000_0000_0000_0000_0000_0000) by (nonlinear_arith)
        requires
            -0x1_0000_0000_0000_0000 <= rise <= 0x1_0000_0000_0000_0000,
            EPOCHS_PER_YEAR == 365,
            PPM == 1_000_000;
    let numer: i128 = rise * (EPOCHS_PER_YEAR as i128) * (PPM as i128);
    let denom: i128 = (k as i128) * (TARGET_ROI as i128);
    let v = floor_div(numer, denom);
    if v < i64::MIN as i128 || v > i64::MAX as i128 {
        None
    } else {
        Some(v as i64)
    }
}

/// Value minted in an epoch: a constant in this model.
pub fn mint_volume(history: &Vec<State>) -> (r: i64)
    ensures
        r == BASE_MINT_VOLUME,
{
    BASE_MINT_VOLUME
}

/// Value burned in an epoch, given a non-empty history; `None` when it leaves the
/// range of `i64`.
pub fn burn_volume(history: &Vec<State>) -> (r: Option<i64>)
    requires
        history@.len() > 0,
    ensures
        r == (if fits(spec_burn_volume(history@)) {
            Some(spec_burn_volume(history@) as i64)
        } else {
            None
        }),
        history@.last().r < ARBITRAGE_THRESHOLD ==> r == Some(BASE_BURN_VOLUME),
{
    let s = latest_state(history);
    if s.r >= ARBITRAGE_THRESHOLD {
        assert(-0x1_0000_0000_0000_0000_0000_0000 <= s.r_pool * PPM
            <= 0x1_0000_0000_0000_0000_0000_0000) by (nonlinear_arith)
            requires i64::MIN <= s.r_pool <= i64::MAX, PPM == 1_000_000;
        let affordable = floor_div((s.r_pool as i128) * (PPM as i128), s.r as i128);
        assert(ARBITRAGE_PER_THRESHOLD * s.r <= 0x1_0000_0000_0000_0000_0000_0000_0000) by (nonlinear_arith)
            requires 0 <= s.r <= i64::MAX;
        let drawn: i128 = (ARBITRAGE_PER_THRESHOLD as i128) * (s.r as i128) / (ARBITRAGE_THRESHOLD as i128);
        let extra: i128 = if affordable < drawn { affordable } else { drawn };
        let v: i128 = BASE_BURN_VOLUME as i128 + extra;
        if v > i64::MAX as i128 || v < i64::MIN as i128 {
            None
        } else {
            Some(v as i64)
        }
    } else {
        Some(BASE_BURN_VOLUME)
    }
}

} // verus!
