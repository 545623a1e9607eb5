use vstd::prelude::*;
use crate::bins::lemma_index_round_trip;
use crate::engine::EnergyMC;
use crate::method::Method;

verus! {

/// Every valid index of a run's table maps to an energy that maps back to
/// the same index.
pub proof fn lemma_bin_round_trip<R: Copy>(mc: EnergyMC<R>, i: int)
    requires
        mc.wf(),
        0 <= i < mc.len(),
    ensures
        mc.in_range(mc.energy_spec(i)),
        mc.index_spec(mc.energy_spec(i)) == i,
{
    lemma_index_round_trip(mc.min_energy_bin as int, mc.energy_bin as int, i);
    assert(mc.energy_spec(i) < mc.top()) by (nonlinear_arith)
        requires
            mc.energy_spec(i) == mc.min_energy_bin + mc.energy_bin * i,
            mc.top() == mc.min_energy_bin + mc.energy_bin * mc.len(),
            i < mc.len(),
            mc.energy_bin > 0,
    ;
    assert(mc.min_energy_bin <= mc.energy_spec(i)) by (nonlinear_arith)
        requires
            mc.energy_spec(i) == mc.min_energy_bin + mc.energy_bin * i,
            i >= 0,
            mc.energy_bin > 0,
    ;
}

/// A bin that has been visited is never discovered again: the acceptance
/// test of a move into it leaves SAD's count of found bins, and the move
/// of the last discovery, as they were, whatever the verdict.
pub proof fn lemma_discovered_once<R: Copy>(mc: EnergyMC<R>, e2: int, rejected: bool)
    requires
        mc.wf(),
        mc.in_range(e2),
        mc.histogram@[mc.index_spec(e2)] > 0,
    ensures
        mc.after_trial(e2, rejected) == mc.method,
{
}

/// An accepted move into a bin that was never visited is a discovery: SAD
/// counts one more found bin and notes the current move.
pub proof fn lemma_discovery_counted<R: Copy>(mc: EnergyMC<R>, e2: int)
    requires
        mc.wf(),
        mc.in_range(e2),
        mc.histogram@[mc.index_spec(e2)] == 0,
        mc.method is Sad,
        mc.method->n_found < u64::MAX,
    ensures
        mc.after_trial(e2, false)->n_found == mc.method->n_found + 1,
        mc.after_trial(e2, false)->t_l == mc.moves,
{
}

/// The acceptance test leaves SAD's window and its lowest important energy
/// where they were.
pub proof fn lemma_trial_keeps_window<R: Copy>(mc: EnergyMC<R>, e2: int, rejected: bool)
    requires
        mc.wf(),
        mc.method is Sad,
    ensures
        mc.after_trial(e2, rejected) is Sad,
        mc.after_trial(e2, rejected)->too_lo == mc.method->too_lo,
        mc.after_trial(e2, rejected)->too_hi == mc.method->too_hi,
        mc.after_trial(e2, rejected)->min_important_energy == mc.method->min_important_energy,
{
}

/// SAD's window never shrinks when it is updated: the lower edge only
/// moves down and the upper edge only moves up, and the window stays
/// ordered.
pub proof fn lemma_window_grows<R: Copy>(mc: EnergyMC<R>, e1: i64, exceeds_max: bool, above_boltz: bool)
    requires
        mc.wf(),
        mc.method is Sad,
    ensures
        mc.after_window(e1, exceeds_max, above_boltz)->too_lo <= mc.method->too_lo,
        mc.after_window(e1, exceeds_max, above_boltz)->too_hi >= mc.method->too_hi,
        mc.after_window(e1, exceeds_max, above_boltz)->too_lo
            <= mc.after_window(e1, exceeds_max, above_boltz)->too_hi,
{
}

/// The scheme's variant never changes: neither the acceptance test nor
/// the window update turns SAD into SAMC or back.
pub proof fn lemma_variant_kept<R: Copy>(mc: EnergyMC<R>, e: i64, rejected: bool, exceeds_max: bool, above_boltz: bool)
    ensures
        (mc.after_trial(e as int, rejected) is Sad) == (mc.method is Sad),
        (mc.after_window(e, exceeds_max, above_boltz) is Sad) == (mc.method is Sad),
        mc.method is Samc ==> mc.after_trial(e as int, rejected) == mc.method
            && mc.after_window(e, exceeds_max, above_boltz) == mc.method,
{
}

} // verus!
