//! Models of the protocol's own policy: fee and rebate rates, and the share of fees
//! that funds rebates.
use vstd::prelude::*;
use crate::fixed::{fits, portion, spec_portion};
use crate::state::{latest_state, State};

verus! {

/// Mint fee rate: 0.3%.
pub const MINT_FEE: i64 = 3_000;

/// Burn fee rate while the value locked is below the value bonded: 0.1%.
pub const BURN_FEE: i64 = 1_000;

/// Amount by which the rebate rate moves in one epoch: 0.01%.
pub const REBATE_STEP: i64 = 100;

/// Most trailing snapshots whose gap the rebate rate is compared with.
pub const GAP_WINDOW: usize = 7;

/// Share of collected fees that goes to the rebate pool: 50%.
pub const REBATE_SHARE: i64 = 500_000;

/// Value locked in excess of value bonded.
pub open spec fn gap(s: State) -> int {
    s.tvl - s.tvb
}

/// Sum of the gaps of the snapshots at positions `lo` up to, not including, `hi`.
pub open spec fn gap_sum(h: Seq<State>, lo: int, hi: int) -> int
    decreases hi - lo,
{
    if hi <= lo {
        0
    } else {
        gap_sum(h, lo, hi - 1) + gap(h[hi - 1])
    }
}

/// First position of the trailing window of snapshots in a history of `len`.
pub open spec fn gap_window_start(len: int) -> int {
    if len < GAP_WINDOW as int {
        0
    } else {
        len - GAP_WINDOW
    }
}

/// Whether the latest gap is below the average gap of the trailing window (the
/// latest snapshot included): `gap < sum / count` is `gap × count < sum`.
pub open spec fn gap_shrinking(h: Seq<State>) -> bool {
    let start = gap_window_start(h.len() as int);
    gap(h.last()) * (h.len() - start) < gap_sum(h, start, h.len() as int)
}

/// Mint fee rate: a constant in this model.
pub open spec fn spec_mint_fee(h: Seq<State>) -> int {
    MINT_FEE as int
}

/// Burn fee rate: `BURN_FEE` while the latest value locked is below the value bonded,
/// else zero.
pub open spec fn spec_burn_fee(h: Seq<State>) -> int {
    if h.last().tvl < h.last().tvb {
        BURN_FEE as int
    } else {
        0
    }
}

/// Rebate rate: zero unless the latest value locked exceeds the value bonded. Then
/// the latest rate moves down by `REBATE_STEP` (not below zero) while the gap shrinks
/// against its trailing average, and up by `REBATE_STEP` otherwise, with no ceiling.
pub open spec fn spec_rebate_rate(h: Seq<State>) -> int {
    let s = h.last();
    if s.tvb < s.tvl {
        if gap_shrinking(h) {
            if s.r - REBATE_STEP > 0 {
                s.r - REBATE_STEP
            } else {
                0
            }
        } else {
            s.r + REBATE_STEP
        }
    } else {
        0
    }
}

/// Mint fee rate of the next epoch.
pub fn mint_fee_curve(history: &Vec<State>) -> (r: i64)
    ensures
        r == spec_mint_fee(history@),
{
    MINT_FEE
}

/// Burn fee rate of the next epoch, given a non-empty history.
pub fn burn_fee_curve(history: &Vec<State>) -> (r: i64)
    requires
        history@.len() > 0,
    ensures
        r == spec_burn_fee(history@),
{
    let s = latest_state(history);
    if s.tvl < s.tvb {
        BURN_FEE
    } else {
        0
    }
}

/// Sum of the gaps of the trailing window of a non-empty history.
fn trailing_gap_sum(history: &Vec<State>, start: usize) -> (r: i128)
    requires
        start <= history@.len() <= start + GAP_WINDOW,
    ensures
        r == gap_sum(history@, start as int, history@.len() as int),
{
    let mut acc: i128 = 0;
    let mut i: usize = start;
    while i < history.len()
        invariant
            start <= i <= history@.len() <= start + GAP_WINDOW,
            acc == gap_sum(history@, start as int, i as int),
            -(i - start) * 0x1_0000_0000_0000_0000 <= acc <= (i - start) * 0x1_0000_0000_0000_0000,
        decreases history@.len() - i,
    {
        let s = history[i];
        acc = acc + (s.tvl as i128 - s.tvb as i128);
        i = i + 1;
    }
    acc
}

/// Rebate rate of the next epoch, given a non-empty history; `None` when it leaves
/// the range of `i64`.
pub fn rebate_curve(history: &Vec<State>) -> (r: Option<i64>)
    requires
        history@.len() > 0,
    ensures
        r == (if fits(spec_rebate_rate(history@)) {
            Some(spec_rebate_rate(history@) as i64)
        } else {
            None
        }),
{
    let s = latest_state(history);
    if s.tvb < s.tvl {
        let len = history.len();
        let start: usize = if len < GAP_WINDOW { 0 } else { len - GAP_WINDOW };
        let sum = trailing_gap_sum(history, start);
        let current: i128 = s.tvl as i128 - s.tvb as i128;
        let count: i128 = (len - start) as i128;
        assert(0 <= current * count <= 7 * 0x1_0000_0000_0000_0000) by (nonlinear_arith)
            requires 0 <= current <= 0x1_0000_0000_0000_0000, 0 <= count <= 7;
        if current * count < sum {
            if s.r > REBATE_STEP {
                Some(s.r - REBATE_STEP)
            } else {
                Some(0)
            }
        } else if s.r > i64::MAX - REBATE_STEP {
            None
        } else {
            Some(s.r + REBATE_STEP)
        }
    } else {
        Some(0)
    }
}

/// Share of a fee amount that goes to the rebate pool rather than to operators,
/// rounded down.
pub fn rebate_collected(history: &Vec<State>, fee: i64) -> (r: i64)
    ensures
        r == spec_portion(fee as int, REBATE_SHARE as int),
{
    let v = portion(fee, REBATE_SHARE);
    assert(spec_portion(fee as int, REBATE_SHARE as int) == (fee * 500_000) / 1_000_000);
    v as i64
}

} // verus!
