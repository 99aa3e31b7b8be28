//! The epoch driver: one epoch derives the next snapshot from the history, and a
//! run starts from the genesis snapshot and appends one snapshot per epoch.
use vstd::prelude::*;
use crate::fixed::{fits, lemma_portion_rounding, portion, spec_portion};
use crate::state::{genesis_state, latest_state, State};
use crate::external::{
    burn_volume, mint_volume, spec_burn_volume, spec_total_value_bonded, total_value_bonded,
    BASE_MINT_VOLUME,
};
use crate::internal::{
    burn_fee_curve, mint_fee_curve, rebate_collected, rebate_curve, spec_burn_fee,
    spec_mint_fee, spec_rebate_rate, REBATE_SHARE,
};

verus! {

/// Share of unclaimed fees that operators claim in each epoch: 2.4451%, about half
/// of them in a month of thirty epochs.
pub const CLAIM_RATE: i64 = 24_451;

/// Rebates paid in the next epoch: the burn volume at the rebate rate.
pub open spec fn rebate_paid(h: Seq<State>) -> int {
    spec_portion(spec_burn_volume(h), spec_rebate_rate(h))
}

/// Fees collected in the next epoch, on minting and on burning.
pub open spec fn gross_fees(h: Seq<State>) -> int {
    spec_portion(BASE_MINT_VOLUME as int, spec_mint_fee(h))
        + spec_portion(spec_burn_volume(h), spec_burn_fee(h))
}

/// Part of the next epoch's fees that goes to the rebate pool.
pub open spec fn fees_to_pool(h: Seq<State>) -> int {
    spec_portion(gross_fees(h), REBATE_SHARE as int)
}

/// Part of the next epoch's fees that goes to operators.
pub open spec fn net_fees(h: Seq<State>) -> int {
    gross_fees(h) - fees_to_pool(h)
}

/// Fees that operators claim in the next epoch, out of those unclaimed so far.
pub open spec fn fee_claim(h: Seq<State>) -> int {
    spec_portion(h.last().f_unclaimed as int, CLAIM_RATE as int)
}

/// Value locked after the next epoch.
pub open spec fn next_tvl(h: Seq<State>) -> int {
    h.last().tvl + BASE_MINT_VOLUME - spec_burn_volume(h)
}

/// Value set aside for rebates, cumulated, after the next epoch.
pub open spec fn next_tvr(h: Seq<State>) -> int {
    h.last().tvr + fees_to_pool(h)
}

/// Unclaimed fees after the next epoch.
pub open spec fn next_f_unclaimed(h: Seq<State>) -> int {
    h.last().f_unclaimed + net_fees(h) - fee_claim(h)
}

/// Claimed fees, cumulated, after the next epoch.
pub open spec fn next_f_claimed(h: Seq<State>) -> int {
    h.last().f_claimed + fee_claim(h)
}

/// Rebate pool after the next epoch: what it held, plus its share of fees, less the
/// rebates paid, and never below zero.
pub open spec fn next_r_pool(h: Seq<State>) -> int {
    let v = h.last().r_pool + fees_to_pool(h) - rebate_paid(h);
    if v < 0 {
        0
    } else {
        v
    }
}

/// Whether every quantity that the next epoch stores, or that a model hands to it,
/// is in the range of `i64`.
pub open spec fn step_ok(h: Seq<State>) -> bool {
    &&& fits(spec_burn_volume(h))
    &&& fits(spec_rebate_rate(h))
    &&& fits(spec_total_value_bonded(h))
    &&& fits(next_tvl(h))
    &&& fits(next_tvr(h))
    &&& fits(next_f_unclaimed(h))
    &&& fits(next_f_claimed(h))
    &&& fits(next_r_pool(h))
}

/// The snapshot that the next epoch appends to `h`, where `step_ok(h)` holds.
pub open spec fn next_state(h: Seq<State>) -> State {
    State {
        tvb: spec_total_value_bonded(h) as i64,
        tvl: next_tvl(h) as i64,
        tvr: next_tvr(h) as i64,
        mf: spec_mint_fee(h) as i64,
        bf: spec_burn_fee(h) as i64,
        r: spec_rebate_rate(h) as i64,
        f_unclaimed: next_f_unclaimed(h) as i64,
        f_claimed: next_f_claimed(h) as i64,
        r_pool: next_r_pool(h) as i64,
    }
}

/// The snapshot of the next epoch, computed from the history alone; `None` on a
/// numeric fault.
pub fn step(history: &Vec<State>) -> (r: Option<State>)
    requires
        history@.len() > 0,
    ensures
        r == (if step_ok(history@) {
            Some(next_state(history@))
        } else {
            None
        }),
{
    let prev = latest_state(history);
    let mv = mint_volume(history);
    let bv = match burn_volume(history) {
        Some(v) => v,
        None => return None,
    };
    let mf = mint_fee_curve(history);
    let bf = burn_fee_curve(history);
    let r = match rebate_curve(history) {
        Some(v) => v,
        None => return None,
    };
    let tvb = match total_value_bonded(history) {
        Some(v) => v,
        None => return None,
    };

    let paid: i128 = portion(bv, r);
    let mint_fees: i128 = portion(mv, mf);
    let burn_fees: i128 = portion(bv, bf);
    proof {
        lemma_portion_rounding(bv as int, bf as int);
        lemma_portion_rounding(prev.f_unclaimed as int, CLAIM_RATE as int);
        lemma_portion_rounding(bv as int, r as int);
        assert(-0x4000_0000_0000_0000_0000_0000_0000_0000 <= bv * r <= 0x4000_0000_0000_0000_0000_0000_0000_0000)
            by (nonlinear_arith)
            requires i64::MIN <= bv <= i64::MAX, i64::MIN <= r <= i64::MAX;
        assert(mint_fees == 12_000_000_000);
        if bf == 0 {
            assert(burn_fees == 0);
        } else {
            assert(bf == 1_000);
            assert(bv * bf == bv * 1_000);
        }
    }
    let gross: i64 = (mint_fees + burn_fees) as i64;
    let pooled: i64 = rebate_collected(history, gross);
    let net: i64 = gross - pooled;
    let claim: i64 = portion(prev.f_unclaimed, CLAIM_RATE) as i64;

    let tvl: i128 = prev.tvl as i128 + mv as i128 - bv as i128;
    let tvr: i128 = prev.tvr as i128 + pooled as i128;
    let f_unclaimed: i128 = prev.f_unclaimed as i128 + net as i128 - claim as i128;
    let f_claimed: i128 = prev.f_claimed as i128 + claim as i128;
    let pool: i128 = prev.r_pool as i128 + pooled as i128 - paid;
    let r_pool: i128 = if pool < 0 { 0 } else { pool };
    if tvl < i64::MIN as i128 || tvl > i64::MAX as i128
        || tvr < i64::MIN as i128 || tvr > i64::MAX as i128
        || f_unclaimed < i64::MIN as i128 || f_unclaimed > i64::MAX as i128
        || f_claimed < i64::MIN as i128 || f_claimed > i64::MAX as i128
        || r_pool > i64::MAX as i128
    {
        return None;
    }
    Some(State {
        tvb,
        tvl: tvl as i64,
        tvr: tvr as i64,
        mf,
        bf,
        r,
        f_unclaimed: f_unclaimed as i64,
        f_claimed: f_claimed as i64,
        r_pool: r_pool as i64,
    })
}

/// The history after `n` epochs from the genesis snapshot; `None` once an epoch
/// faults, since a run that faults yields no trajectory.
pub open spec fn trajectory(n: nat) -> Option<Seq<State>>
    decreases n,
{
    if n == 0 {
        Some(seq![genesis_state()])
    } else {
        match trajectory((n - 1) as nat) {
            Some(h) => if step_ok(h) {
                Some(h.push(next_state(h)))
            } else {
                None
            },
            None => None,
        }
    }
}

/// A run that faulted stays faulted.
pub proof fn lemma_trajectory_fault_persists(i: nat, n: nat)
    requires
        i <= n,
        trajectory(i) is None,
    ensures
        trajectory(n) is None,
    decreases n - i,
{
    if i < n {
        lemma_trajectory_fault_persists(i, (n - 1) as nat);
    }
}

/// Appends the snapshot of the next epoch to the history. Returns `false`, and
/// leaves the history as it was, on a numeric fault.
pub fn advance(history: &mut Vec<State>) -> (ok: bool)
    requires
        old(history)@.len() > 0,
    ensures
        ok == step_ok(old(history)@),
        ok ==> final(history)@ == old(history)@.push(next_state(old(history)@)),
        !ok ==> final(history)@ == old(history)@,
{
    match step(history) {
        Some(s) => {
            history.push(s);
            true
        },
        None => false,
    }
}

/// Runs `num_steps` epochs from the genesis snapshot and returns the whole history,
/// genesis included; `None` when an epoch faults. The result is a function of
/// `num_steps` alone.
pub fn run_simulation(num_steps: usize) -> (r: Option<Vec<State>>)
    ensures
        r is Some <==> trajectory(num_steps as nat) is Some,
        r is Some ==> r->0@ == trajectory(num_steps as nat)->0,
        r is Some ==> r->0@.len() == num_steps + 1,
{
    let mut history: Vec<State> = vec![State::genesis()];
    assert(history@ =~= seq![genesis_state()]);
    let mut i: usize = 0;
    while i < num_steps
        invariant
            i <= num_steps,
            trajectory(i as nat) == Some(history@),
            history@.len() == i + 1,
        decreases num_steps - i,
    {
        if !advance(&mut history) {
            proof {
                assert(trajectory((i + 1) as nat) is None);
                lemma_trajectory_fault_persists((i + 1) as nat, num_steps as nat);
            }
            return None;
        }
        i = i + 1;
    }
    Some(history)
}

} // verus!
