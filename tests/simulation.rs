use renvm_sim::driver::{advance, run_simulation, step};
use renvm_sim::external::{burn_volume, mint_volume, total_value_bonded};
use renvm_sim::fixed::{floor_div, portion};
use renvm_sim::internal::{burn_fee_curve, mint_fee_curve, rebate_collected, rebate_curve};
use renvm_sim::state::{latest_state, State};

const USD: i64 = 1_000_000;

fn with(f: impl Fn(&mut State)) -> State {
    let mut s = State::genesis();
    f(&mut s);
    s
}

#[test]
fn first_epoch_from_genesis() {
    let h = run_simulation(1).unwrap();
    assert_eq!(h.len(), 2);
    assert_eq!(h[0], State::genesis());
    let s = h[1];
    assert_eq!(s.mf, 3_000);
    assert_eq!(s.bf, 0);
    assert_eq!(s.r, 0);
    assert_eq!(s.tvb, 0);
    assert_eq!(s.tvl, 2_000_000 * USD);
    assert_eq!(s.tvr, 6_000 * USD);
    assert_eq!(s.f_unclaimed, 6_000 * USD);
    assert_eq!(s.f_claimed, 0);
    assert_eq!(s.r_pool, 6_000 * USD);
}

#[test]
fn genesis_models() {
    let h = vec![State::genesis()];
    assert_eq!(mint_volume(&h), 4_000_000 * USD);
    assert_eq!(burn_volume(&h), Some(2_000_000 * USD));
    assert_eq!(mint_fee_curve(&h), 3_000);
    assert_eq!(burn_fee_curve(&h), 0);
    assert_eq!(rebate_curve(&h), Some(0));
    assert_eq!(rebate_collected(&h, 12_000 * USD), 6_000 * USD);
}

#[test]
fn second_epoch_claims_fees() {
    let h = run_simulation(2).unwrap();
    let s = h[2];
    // claim = 6000 * 0.024451 = 146.706 dollars
    assert_eq!(s.f_claimed, 146_706_000);
    assert_eq!(s.f_unclaimed, 12_000 * USD - 146_706_000);
    assert_eq!(s.tvl, 4_000_000 * USD);
    // the gap grew, so the rebate rate rose to 0.01%: 200 dollars paid on 2M burned
    assert_eq!(s.r, 100);
    assert_eq!(s.r_pool, 11_800 * USD);
    assert_eq!(s.tvr, 12_000 * USD);
}

#[test]
fn run_length_is_steps_plus_one() {
    for n in [0usize, 1, 7, 30, 180] {
        assert_eq!(run_simulation(n).unwrap().len(), n + 1);
    }
}

#[test]
fn rebate_pool_never_negative_and_fee_excludes_rebate() {
    let h = run_simulation(180).unwrap();
    let mut saw_rebate = false;
    for s in &h {
        assert!(s.r_pool >= 0);
        assert!(!(s.bf > 0 && s.r > 0));
        if s.r > 0 {
            saw_rebate = true;
        }
    }
    assert!(saw_rebate);
}

#[test]
fn runs_are_deterministic() {
    assert_eq!(run_simulation(180), run_simulation(180));
}

#[test]
fn later_run_extends_earlier_run() {
    let short = run_simulation(40).unwrap();
    let long = run_simulation(60).unwrap();
    assert_eq!(&long[..41], &short[..]);
}

#[test]
fn bonded_value_needs_two_snapshots() {
    assert_eq!(total_value_bonded(&vec![State::genesis()]), Some(0));
    let rich = with(|s| s.f_claimed = 1_000 * USD);
    assert_eq!(total_value_bonded(&vec![rich]), Some(0));
}

#[test]
fn bonded_value_from_one_increase() {
    let h = vec![State::genesis(), with(|s| s.f_claimed = USD)];
    // one dollar a day, 365 a year, at 5% needs 7300 dollars
    assert_eq!(total_value_bonded(&h), Some(7_300 * USD));
}

#[test]
fn bonded_value_averages_last_seven_increases() {
    let mut h = Vec::new();
    for i in 0..10i64 {
        let c = if i < 3 { 0 } else { (i - 2) * 2 * USD };
        h.push(with(|s| s.f_claimed = c));
    }
    // the last seven increases are 2 dollars each
    assert_eq!(total_value_bonded(&h), Some(14_600 * USD));
}

#[test]
fn bonded_value_averages_fewer_increases_on_short_history() {
    let h = vec![
        State::genesis(),
        with(|s| s.f_claimed = USD),
        with(|s| s.f_claimed = 4 * USD),
    ];
    // average increase 2 dollars
    assert_eq!(total_value_bonded(&h), Some(14_600 * USD));
}

#[test]
fn bonded_value_fault() {
    let h = vec![with(|s| s.f_claimed = i64::MIN), with(|s| s.f_claimed = i64::MAX)];
    assert_eq!(total_value_bonded(&h), None);
}

#[test]
fn burn_volume_below_threshold() {
    let h = vec![with(|s| {
        s.r = 999;
        s.r_pool = 1_000_000 * USD;
    })];
    assert_eq!(burn_volume(&h), Some(2_000_000 * USD));
}

#[test]
fn burn_volume_limited_by_incentive() {
    let h = vec![with(|s| {
        s.r = 2_000;
        s.r_pool = 1_000_000 * USD;
    })];
    // min(1e6 / 0.002, 1e6 * 2) = 2e6
    assert_eq!(burn_volume(&h), Some(4_000_000 * USD));
}

#[test]
fn burn_volume_limited_by_pool() {
    let h = vec![with(|s| {
        s.r = 1_000;
        s.r_pool = 500 * USD;
    })];
    // min(500 / 0.001, 1e6) = 5e5
    assert_eq!(burn_volume(&h), Some(2_500_000 * USD));
}

#[test]
fn burn_volume_fault() {
    let h = vec![with(|s| {
        s.r = 1_000;
        s.r_pool = i64::MIN;
    })];
    assert_eq!(burn_volume(&h), None);
}

#[test]
fn burn_fee_when_locked_below_bonded() {
    let h = vec![with(|s| {
        s.tvl = 5;
        s.tvb = 6;
    })];
    assert_eq!(burn_fee_curve(&h), 1_000);
    assert_eq!(rebate_curve(&h), Some(0));
    let even = vec![with(|s| {
        s.tvl = 6;
        s.tvb = 6;
    })];
    assert_eq!(burn_fee_curve(&even), 0);
    assert_eq!(rebate_curve(&even), Some(0));
}

#[test]
fn rebate_rises_while_gap_grows() {
    let h = vec![
        with(|s| s.tvl = 10),
        with(|s| {
            s.tvl = 20;
            s.r = 300;
        }),
    ];
    assert_eq!(rebate_curve(&h), Some(400));
    assert_eq!(burn_fee_curve(&h), 0);
}

#[test]
fn rebate_falls_while_gap_shrinks() {
    let h = vec![
        with(|s| s.tvl = 30),
        with(|s| {
            s.tvl = 20;
            s.r = 300;
        }),
    ];
    assert_eq!(rebate_curve(&h), Some(200));
}

#[test]
fn rebate_floor_is_zero() {
    let h = vec![
        with(|s| s.tvl = 30),
        with(|s| {
            s.tvl = 20;
            s.r = 50;
        }),
    ];
    assert_eq!(rebate_curve(&h), Some(0));
}

#[test]
fn rebate_window_is_last_seven() {
    // an old large gap outside the window does not count
    let mut h = vec![with(|s| s.tvl = 1_000)];
    for _ in 0..6 {
        h.push(with(|s| s.tvl = 10));
    }
    h.push(with(|s| {
        s.tvl = 10;
        s.r = 500;
    }));
    assert_eq!(rebate_curve(&h), Some(600));
    h.remove(1);
    // now the large gap is inside the window, the current gap is below average
    assert_eq!(rebate_curve(&h), Some(400));
}

#[test]
fn rebate_fault() {
    let h = vec![with(|s| {
        s.tvl = 1;
        s.r = i64::MAX;
    })];
    assert_eq!(rebate_curve(&h), None);
}

#[test]
fn step_fault_leaves_history() {
    let mut h = vec![with(|s| s.tvl = i64::MAX - 1_000 * USD)];
    assert_eq!(step(&h), None);
    assert!(!advance(&mut h));
    assert_eq!(h.len(), 1);
}

#[test]
fn advance_appends_step() {
    let mut h = vec![State::genesis()];
    let next = step(&h).unwrap();
    assert!(advance(&mut h));
    assert_eq!(h.len(), 2);
    assert_eq!(latest_state(&h), next);
}

#[test]
fn rebate_pool_clamped_at_zero() {
    // a large rebate on an empty pool pays more than the pool holds
    let h = vec![
        with(|s| s.tvl = 10),
        with(|s| {
            s.tvl = 20;
            s.r = 5_000;
        }),
    ];
    let s = step(&h).unwrap();
    assert_eq!(s.r, 5_100);
    assert_eq!(s.r_pool, 0);
}

#[test]
fn rounding_is_downward() {
    assert_eq!(floor_div(7, 2), 3);
    assert_eq!(floor_div(-7, 2), -4);
    assert_eq!(floor_div(-6, 2), -3);
    assert_eq!(portion(3, 500_000), 1);
    assert_eq!(portion(-3, 500_000), -2);
    assert_eq!(rebate_collected(&vec![State::genesis()], 3), 1);
}
