//! The gearbox controller: state, the tick transition, the credential
//! override, and the derived status bands.

use vstd::prelude::*;

verus! {

/// Lock quality is held in hundredths of its unit scale, so `LOCK_FULL`
/// stands for a quality of exactly 1.0.
pub const LOCK_FULL: u8 = 100;

/// Ticking ramps lock quality by one hundredth per call until it reaches
/// this ceiling (0.99); only the override pushes it past the ceiling. The
/// same value bounds the "zero point" status band, which demands a quality
/// strictly above it.
pub const LOCK_CEILING: u8 = 99;

/// A quality strictly above this band edge (0.90), and at most the ceiling,
/// reads as locked.
pub const LOCKED_BAND: u8 = 90;

/// The fixed ratio of driven output frequency to input frequency.
pub const GEAR_RATIO: i64 = 5;

/// The discrete status label derived from the controller state.
#[derive(Clone, Copy, Debug, PartialEq, Eq, Structural)]
pub enum GearStatus {
    /// Still ramping: lock quality at or below the locked band edge.
    Grinding,
    /// Lock quality strictly above the locked band edge, at most the ceiling.
    Locked,
    /// Lock quality strictly above the ceiling without the override engaged.
    ZeroPoint,
    /// The override latch is set.
    Sovereign,
}

/// A frequency-locking controller. The gain and accumulator fields are fixed
/// at construction and reserved for a future feedback law; the current tick
/// transition reads none of them.
pub struct HarmonicGearbox {
    /// Proportional gain, in thousandths.
    pub kp: i64,
    /// Integral gain, in thousandths.
    pub ki: i64,
    /// Derivative gain, in thousandths.
    pub kd: i64,
    /// Integral accumulator scratch field, in thousandths.
    pub integral: i64,
    /// Previous-error scratch field, in thousandths.
    pub prev_error: i64,
    /// Lock quality in hundredths of its unit scale.
    pub lock_quality: u8,
    /// One-way override latch: set by a correct credential, never cleared.
    pub sovereign_mode: bool,
}

/// The credential that engages the override, as a sequence of characters.
pub open spec fn sovereign_key() -> Seq<char> {
    "OPHANE-X7"@
}

impl HarmonicGearbox {
    /// The state a controller is constructed in: fixed default gains, zeroed
    /// accumulators, zero lock quality, override latch off.
    pub open spec fn fresh() -> HarmonicGearbox {
        HarmonicGearbox {
            kp: 2000,
            ki: 300,
            kd: 400,
            integral: 0,
            prev_error: 0,
            lock_quality: 0,
            sovereign_mode: false,
        }
    }

    /// Well-formedness: lock quality never exceeds the full scale, and the
    /// engaged override forces a full lock.
    pub open spec fn wf(self) -> bool {
        &&& self.lock_quality <= LOCK_FULL
        &&& self.sovereign_mode ==> self.lock_quality == LOCK_FULL
    }

    /// The state after one tick: an engaged override forces full lock
    /// quality; otherwise quality ramps by one hundredth up to the ceiling.
    /// No other field moves.
    pub open spec fn ticked(self) -> HarmonicGearbox {
        HarmonicGearbox {
            lock_quality: if self.sovereign_mode {
                LOCK_FULL
            } else {
                next_lock(self.lock_quality)
            },
            ..self
        }
    }

    /// The state after `n` ticks.
    pub open spec fn ticked_n(self, n: nat) -> HarmonicGearbox
        decreases n,
    {
        if n == 0 {
            self
        } else {
            self.ticked_n((n - 1) as nat).ticked()
        }
    }

    /// The state after an override attempt with credential `key`: the exact
    /// secret sets the latch and forces full lock quality; anything else
    /// changes nothing.
    pub open spec fn overridden(self, key: Seq<char>) -> HarmonicGearbox {
        if key == sovereign_key() {
            HarmonicGearbox { sovereign_mode: true, lock_quality: LOCK_FULL, ..self }
        } else {
            self
        }
    }

    /// The status label: the override latch wins, then the quality bands,
    /// highest first, each with a strict lower edge.
    pub open spec fn status_of(self) -> GearStatus {
        if self.sovereign_mode {
            GearStatus::Sovereign
        } else if self.lock_quality > LOCK_CEILING {
            GearStatus::ZeroPoint
        } else if self.lock_quality > LOCKED_BAND {
            GearStatus::Locked
        } else {
            GearStatus::Grinding
        }
    }

    /// Constructs a fresh controller. Cannot fail.
    pub fn new() -> (g: HarmonicGearbox)
        ensures
            g == HarmonicGearbox::fresh(),
    {
        HarmonicGearbox {
            kp: 2000,
            ki: 300,
            kd: 400,
            integral: 0,
            prev_error: 0,
            lock_quality: 0,
            sovereign_mode: false,
        }
    }

    /// Advances the controller by one time step, driving the output at the
    /// fixed 5:1 multiple of the observed input frequency. `dt` is accepted
    /// for interface completeness but unused by the current tracking law.
    /// Negative and zero inputs are processed like any others; the bound on
    /// `input_freq` only keeps the product within the machine word.
    pub fn tick(&mut self, dt: i64, input_freq: i64) -> (drive: i64)
        requires
            -(i64::MAX / 5) <= input_freq <= i64::MAX / 5,
        ensures
            drive == GEAR_RATIO * input_freq,
            *final(self) == (*old(self)).ticked(),
    {
        if self.sovereign_mode {
            self.lock_quality = LOCK_FULL;
            return input_freq * 5;
        }
        let target: i64 = input_freq * 5;
        let drive: i64 = target;
        if self.lock_quality < LOCK_CEILING {
            self.lock_quality = self.lock_quality + 1;
        }
        drive
    }

    /// Attempts to engage the override. The exact secret credential sets the
    /// one-way latch and forces a full lock; any other credential is a
    /// silent no-op. Never fails and gives no indication of rejection.
    pub fn engage_sovereign_override(&mut self, key: String)
        ensures
            *final(self) == (*old(self)).overridden(key@),
    {
        let secret: String = String::from_str("OPHANE-X7");
        if key == secret {
            self.sovereign_mode = true;
            self.lock_quality = LOCK_FULL;
        }
    }

    /// Reads the discrete status label. Pure: no state moves.
    pub fn status(&self) -> (s: GearStatus)
        ensures
            s == self.status_of(),
    {
        if self.sovereign_mode {
            GearStatus::Sovereign
        } else if self.lock_quality > LOCK_CEILING {
            GearStatus::ZeroPoint
        } else if self.lock_quality > LOCKED_BAND {
            GearStatus::Locked
        } else {
            GearStatus::Grinding
        }
    }

    /// Reads the status as its human-readable label.
    pub fn get_status_string(&self) -> (label: &'static str)
        ensures
            label@ == self.status_of().label(),
    {
        if self.sovereign_mode {
            return "SOVEREIGN";
        }
        if self.lock_quality > LOCK_CEILING {
            return "ZERO POINT";
        }
        if self.lock_quality > LOCKED_BAND {
            return "LOCKED";
        }
        "GRINDING"
    }
}

impl GearStatus {
    /// The human-readable label of each status.
    pub open spec fn label(self) -> Seq<char> {
        match self {
            GearStatus::Grinding => "GRINDING"@,
            GearStatus::Locked => "LOCKED"@,
            GearStatus::ZeroPoint => "ZERO POINT"@,
            GearStatus::Sovereign => "SOVEREIGN"@,
        }
    }
}

/// Lock quality after one ramp step: up one hundredth below the ceiling,
/// unchanged at or above it.
pub open spec fn next_lock(q: u8) -> u8 {
    if q < LOCK_CEILING {
        (q + 1) as u8
    } else {
        q
    }
}

} // verus!
