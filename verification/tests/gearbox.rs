//! Runtime checks of the gearbox controller. Frequencies are in thousandths
//! of a hertz, time steps in thousandths of a second, lock quality in
//! hundredths of its unit scale.

use pleroma_core::GearStatus;
use pleroma_core::HarmonicGearbox;

#[test]
fn fresh_controller_grinds() {
    let g = HarmonicGearbox::new();
    assert_eq!(g.lock_quality, 0);
    assert!(!g.sovereign_mode);
    assert_eq!(g.status(), GearStatus::Grinding);
    assert_eq!(g.get_status_string(), "GRINDING");
    assert_eq!(g.kp, 2000);
    assert_eq!(g.ki, 300);
    assert_eq!(g.kd, 400);
    assert_eq!(g.integral, 0);
    assert_eq!(g.prev_error, 0);
}

#[test]
fn tick_drives_five_to_one() {
    let mut g = HarmonicGearbox::new();
    // 8.000 Hz in, 40.000 Hz out.
    assert_eq!(g.tick(100, 8000), 40000);
    assert_eq!(g.lock_quality, 1);
    assert_eq!(g.status(), GearStatus::Grinding);
}

#[test]
fn tick_accepts_zero_and_negative_inputs() {
    let mut g = HarmonicGearbox::new();
    assert_eq!(g.tick(0, 0), 0);
    assert_eq!(g.tick(-100, -7000), -35000);
    assert_eq!(g.tick(50, 3), 15);
    assert_eq!(g.lock_quality, 3);
}

#[test]
fn quality_ramps_then_saturates() {
    let mut g = HarmonicGearbox::new();
    for i in 1..=99i64 {
        g.tick(100, 1000);
        let expect = if i < 99 { i as u8 } else { 99 };
        assert_eq!(g.lock_quality, expect);
    }
    // Further ticks leave the saturated quality unchanged.
    for _ in 0..50 {
        assert_eq!(g.tick(100, 1000), 5000);
        assert_eq!(g.lock_quality, 99);
    }
}

#[test]
fn locked_band_opens_above_ninety() {
    let mut g = HarmonicGearbox::new();
    for _ in 0..90 {
        g.tick(100, 2000);
    }
    assert_eq!(g.lock_quality, 90);
    assert_eq!(g.status(), GearStatus::Grinding);
    g.tick(100, 2000);
    assert_eq!(g.lock_quality, 91);
    assert_eq!(g.status(), GearStatus::Locked);
    assert_eq!(g.get_status_string(), "LOCKED");
}

#[test]
fn ceiling_stays_locked_not_zero_point() {
    let mut g = HarmonicGearbox::new();
    for _ in 0..200 {
        g.tick(100, 2000);
    }
    // At exactly the ceiling the strict comparison keeps the locked label.
    assert_eq!(g.lock_quality, 99);
    assert_eq!(g.status(), GearStatus::Locked);
    assert_eq!(g.get_status_string(), "LOCKED");
}

#[test]
fn zero_point_band_above_ceiling() {
    let mut g = HarmonicGearbox::new();
    // Only a direct write of the public quality field exceeds the ceiling
    // without engaging the override.
    g.lock_quality = 100;
    assert_eq!(g.status(), GearStatus::ZeroPoint);
    assert_eq!(g.get_status_string(), "ZERO POINT");
}

#[test]
fn correct_credential_engages_override() {
    let mut g = HarmonicGearbox::new();
    g.engage_sovereign_override(String::from("OPHANE-X7"));
    assert!(g.sovereign_mode);
    assert_eq!(g.lock_quality, 100);
    assert_eq!(g.status(), GearStatus::Sovereign);
    assert_eq!(g.get_status_string(), "SOVEREIGN");
    // Subsequent ticks keep the perfect lock and the 5:1 drive.
    assert_eq!(g.tick(1000, 8000), 40000);
    assert_eq!(g.lock_quality, 100);
    assert!(g.sovereign_mode);
    assert_eq!(g.status(), GearStatus::Sovereign);
}

#[test]
fn wrong_credential_is_silent_noop() {
    let mut g = HarmonicGearbox::new();
    g.tick(100, 1000);
    for key in ["", "ophane-x7", "OPHANE-X8", "OPHANE-X7 ", "sovereign"] {
        g.engage_sovereign_override(String::from(key));
        assert!(!g.sovereign_mode);
        assert_eq!(g.lock_quality, 1);
        assert_eq!(g.status(), GearStatus::Grinding);
    }
}

#[test]
fn full_session_scenario() {
    let mut g = HarmonicGearbox::new();
    assert_eq!(g.tick(100, 8000), 40000);
    assert_eq!(g.lock_quality, 1);
    assert_eq!(g.get_status_string(), "GRINDING");
    for _ in 0..90 {
        g.tick(250, 3000);
    }
    assert_eq!(g.lock_quality, 91);
    assert_eq!(g.get_status_string(), "LOCKED");
    for _ in 0..8 {
        g.tick(250, 3000);
    }
    assert_eq!(g.lock_quality, 99);
    assert_eq!(g.get_status_string(), "LOCKED");
    g.engage_sovereign_override(String::from("OPHANE-X7"));
    assert_eq!(g.lock_quality, 100);
    assert_eq!(g.get_status_string(), "SOVEREIGN");
    assert_eq!(g.tick(1000, 8000), 40000);
}

#[test]
fn sovereign_tick_restores_full_quality() {
    let mut g = HarmonicGearbox::new();
    g.engage_sovereign_override(String::from("OPHANE-X7"));
    // Even if a caller writes the public quality field down, the next tick
    // in sovereign mode forces it back to full.
    g.lock_quality = 40;
    assert_eq!(g.tick(100, 6000), 30000);
    assert_eq!(g.lock_quality, 100);
}

#[test]
fn extreme_frequencies_within_bounds() {
    let mut g = HarmonicGearbox::new();
    let max_in: i64 = i64::MAX / 5;
    assert_eq!(g.tick(1, max_in), max_in * 5);
    assert_eq!(g.tick(1, -max_in), -(max_in * 5));
}
