//! Laws relating the controller's operations across calls.

use vstd::prelude::*;

use crate::gearbox::GearStatus;
use crate::gearbox::HarmonicGearbox;
use crate::gearbox::sovereign_key;

verus! {

/// A fresh controller is well formed and reads as grinding.
pub proof fn lemma_fresh_state()
    ensures
        HarmonicGearbox::fresh().wf(),
        HarmonicGearbox::fresh().status_of() == GearStatus::Grinding,
{
}

/// Ticking and override attempts preserve well-formedness.
pub proof fn lemma_wf_preserved(g: HarmonicGearbox, key: Seq<char>)
    requires
        g.wf(),
    ensures
        g.ticked().wf(),
        g.overridden(key).wf(),
{
}

/// Starting from a fresh controller, each tick raises lock quality by
/// exactly one hundredth until it reaches the ceiling, after which further
/// ticks leave it unchanged; ticking never sets the override latch.
pub proof fn lemma_quality_ramp(n: nat)
    ensures
        HarmonicGearbox::fresh().ticked_n(n).lock_quality == if n < 99 {
            n as u8
        } else {
            99u8
        },
        !HarmonicGearbox::fresh().ticked_n(n).sovereign_mode,
    decreases n,
{
    if n > 0 {
        lemma_quality_ramp((n - 1) as nat);
    }
}

/// The status trajectory under ticking alone: grinding through the first
/// ninety ticks, locked ever after. Ticking never pushes lock quality past
/// the ceiling, so the zero-point band is reached only by writing the
/// quality field directly, never by ticking.
pub proof fn lemma_ramp_status(n: nat)
    ensures
        n <= 90 ==> HarmonicGearbox::fresh().ticked_n(n).status_of() == GearStatus::Grinding,
        n > 90 ==> HarmonicGearbox::fresh().ticked_n(n).status_of() == GearStatus::Locked,
        HarmonicGearbox::fresh().ticked_n(n).status_of() != GearStatus::ZeroPoint,
{
    lemma_quality_ramp(n);
}

/// Any state whose lock quality exceeds the ceiling without the override
/// latch reads as zero point.
pub proof fn lemma_zero_point_band(g: HarmonicGearbox)
    requires
        !g.sovereign_mode,
        g.lock_quality > 99,
    ensures
        g.status_of() == GearStatus::ZeroPoint,
{
}

/// In a state with the override latch set and full lock quality, any number
/// of further ticks changes nothing.
pub proof fn lemma_sovereign_steady(g: HarmonicGearbox, n: nat)
    requires
        g.sovereign_mode,
        g.lock_quality == 100,
    ensures
        g.ticked_n(n) == g,
    decreases n,
{
    if n > 0 {
        lemma_sovereign_steady(g, (n - 1) as nat);
    }
}

/// The exact secret credential engages the override: the latch is set, lock
/// quality is forced to full, the status reads sovereign, and any number of
/// later ticks leaves the state fixed there.
pub proof fn lemma_override_engages(g: HarmonicGearbox, key: Seq<char>, n: nat)
    requires
        key == sovereign_key(),
    ensures
        g.overridden(key).sovereign_mode,
        g.overridden(key).lock_quality == 100,
        g.overridden(key).status_of() == GearStatus::Sovereign,
        g.overridden(key).ticked_n(n) == g.overridden(key),
{
    lemma_sovereign_steady(g.overridden(key), n);
}

/// Any credential other than the exact secret leaves the whole state
/// unchanged, the status with it.
pub proof fn lemma_override_rejects(g: HarmonicGearbox, key: Seq<char>)
    requires
        key != sovereign_key(),
    ensures
        g.overridden(key) == g,
        g.overridden(key).status_of() == g.status_of(),
{
}

} // verus!
