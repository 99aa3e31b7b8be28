//! Properties of every run and of every epoch, proved over the models' definitions.
use vstd::prelude::*;
use crate::driver::{next_state, step_ok, trajectory};
use crate::internal::{spec_burn_fee, spec_rebate_rate};
use crate::state::State;

verus! {

/// A run of `n` epochs that completes holds `n + 1` snapshots, genesis included.
pub proof fn lemma_trajectory_length(n: nat)
    requires
        trajectory(n) is Some,
    ensures
        trajectory(n)->0.len() == n + 1,
    decreases n,
{
    if n > 0 {
        lemma_trajectory_length((n - 1) as nat);
    }
}

/// Whether a snapshot charges a burn fee and pays a rebate in the same epoch.
pub open spec fn fee_and_rebate_exclusive(s: State) -> bool {
    &&& (s.bf > 0 ==> s.r == 0)
    &&& (s.r > 0 ==> s.bf == 0)
}

/// On any history, a non-zero burn fee rate and a non-zero rebate rate never come
/// together; both may be zero.
pub proof fn lemma_fee_rebate_exclusive(h: Seq<State>)
    ensures
        spec_burn_fee(h) > 0 ==> spec_rebate_rate(h) == 0,
        spec_rebate_rate(h) > 0 ==> spec_burn_fee(h) == 0,
{
}

/// An epoch never leaves the rebate pool below zero, and never charges a burn fee
/// while it pays a rebate.
pub proof fn lemma_next_state_invariants(h: Seq<State>)
    requires
        step_ok(h),
    ensures
        next_state(h).r_pool >= 0,
        fee_and_rebate_exclusive(next_state(h)),
{
    lemma_fee_rebate_exclusive(h);
}

/// In every snapshot of a completed run the rebate pool is not below zero, and a
/// burn fee and a rebate are never both non-zero.
pub proof fn lemma_trajectory_invariants(n: nat)
    requires
        trajectory(n) is Some,
    ensures
        forall|i: int| 0 <= i < trajectory(n)->0.len() ==> {
            &&& #[trigger] trajectory(n)->0[i].r_pool >= 0
            &&& fee_and_rebate_exclusive(trajectory(n)->0[i])
        },
    decreases n,
{
    if n > 0 {
        let h = trajectory((n - 1) as nat)->0;
        lemma_trajectory_invariants((n - 1) as nat);
        lemma_next_state_invariants(h);
        assert(trajectory(n)->0 == h.push(next_state(h)));
    }
}

} // verus!
