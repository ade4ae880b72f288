use ursa_minor_ffb::effects::{EffectsSnapshot, RumbleOutput};
use ursa_minor_ffb::frame::{
    finish_effects, frame_effects, frame_gates, touchdown_edges, EffectSwitches, FrameReadings,
    TransientReadings,
};
use ursa_minor_ffb::gear::GearFlags;

fn all_switches(on: bool) -> EffectSwitches {
    EffectSwitches {
        taxi_start_enabled: on,
        taxi_end_enabled: on,
        ground_enabled: on,
        spoilers_enabled: on,
        overspeed_enabled: on,
        bank_enabled: on,
        stall_enabled: on,
        flaps_enabled: on,
        gear_enabled: on,
        gear_comp_enabled: on,
        gear_comp_nose_enabled: on,
        gear_comp_left_enabled: on,
        gear_comp_right_enabled: on,
        gear_transit_enabled: on,
    }
}

fn taxiing() -> FrameReadings {
    FrameReadings {
        on_ground: true,
        stalled: false,
        at_or_above_taxi_start: true,
        at_or_above_thump_floor: true,
        below_taxi_end: true,
        at_or_above_taxi_end: false,
        bank_beyond_threshold: false,
        spoilers_beyond_threshold: false,
        airspeed_above_spoiler_floor: false,
    }
}

fn all_transients() -> TransientReadings {
    TransientReadings {
        airspeed_beyond_overspeed: true,
        flaps_motor_audible: true,
        gear_bump_window: true,
        touchdown_windows: GearFlags::new(true, true, true),
    }
}

#[test]
fn default_snapshot_is_quiet() {
    let e = EffectsSnapshot::default();
    assert!(!e.taxi_start_crossed && !e.taxi_end_crossed && !e.ground_thump_active);
    assert!(!e.ground_active && !e.stall_active && !e.bank_active && !e.spoilers_active);
    assert!(!e.overspeed_active && !e.flaps_bump_active && !e.gear_bump_active);
    assert!(!e.gear_comp_nose_active && !e.gear_comp_left_active && !e.gear_comp_right_active);
}

#[test]
fn silent_output_keeps_effects() {
    let mut e = EffectsSnapshot::default();
    e.stall_active = true;
    e.taxi_start_crossed = true;
    let out = RumbleOutput::silent(e);
    assert_eq!(out.intensity, 0);
    assert_eq!(out.effects, e);
}

#[test]
fn taxiing_in_thump_band() {
    let e = frame_effects(all_switches(true), taxiing());
    assert!(e.taxi_start_crossed);
    assert!(e.ground_thump_active);
    assert!(!e.taxi_end_crossed);
    assert!(!e.ground_active);
    assert!(!e.bank_active);
    assert!(!e.overspeed_active);
}

#[test]
fn crossing_taxi_end_reports_ground_effect() {
    let mut r = taxiing();
    r.below_taxi_end = false;
    r.at_or_above_taxi_end = true;
    let e = frame_effects(all_switches(true), r);
    assert!(e.taxi_end_crossed);
    assert!(e.ground_active);
    assert!(!e.ground_thump_active);
    let mut sw = all_switches(true);
    sw.taxi_end_enabled = false;
    let e = frame_effects(sw, r);
    assert!(!e.taxi_end_crossed);
    assert!(!e.ground_active);
}

#[test]
fn bank_and_stall_follow_flight_state_not_switches() {
    let r = FrameReadings {
        on_ground: false,
        stalled: true,
        at_or_above_taxi_start: false,
        at_or_above_thump_floor: false,
        below_taxi_end: true,
        at_or_above_taxi_end: false,
        bank_beyond_threshold: true,
        spoilers_beyond_threshold: true,
        airspeed_above_spoiler_floor: true,
    };
    let e = frame_effects(all_switches(false), r);
    assert!(e.bank_active);
    assert!(e.stall_active);
    assert!(!e.spoilers_active);
    let g = frame_gates(all_switches(false), r);
    assert!(!g.bank_buzz && !g.stall_floor && !g.ground_roll);
    let on = all_switches(true);
    let e = frame_effects(on, r);
    assert!(e.spoilers_active);
    let g = frame_gates(on, r);
    assert!(g.bank_buzz && g.stall_floor && !g.ground_roll);
}

#[test]
fn spoilers_need_airspeed() {
    let mut r = taxiing();
    r.spoilers_beyond_threshold = true;
    r.airspeed_above_spoiler_floor = false;
    assert!(!frame_effects(all_switches(true), r).spoilers_active);
    r.airspeed_above_spoiler_floor = true;
    assert!(frame_effects(all_switches(true), r).spoilers_active);
}

#[test]
fn ground_roll_gate_without_taxi_end_bound() {
    let mut r = taxiing();
    r.below_taxi_end = false;
    r.at_or_above_taxi_end = true;
    let g = frame_gates(all_switches(true), r);
    assert!(g.ground_roll);
    r.at_or_above_thump_floor = false;
    assert!(!frame_gates(all_switches(true), r).ground_roll);
}

#[test]
fn transients_on_ground_exclude_overspeed() {
    let sw = all_switches(true);
    let r = taxiing();
    let base = frame_effects(sw, r);
    let e = finish_effects(base, sw, r.on_ground, all_transients());
    assert!(!e.overspeed_active);
    assert!(e.flaps_bump_active && e.gear_bump_active);
    assert!(e.gear_comp_nose_active && e.gear_comp_left_active && e.gear_comp_right_active);
    assert_eq!(e.taxi_start_crossed, base.taxi_start_crossed);
    assert_eq!(e.ground_thump_active, base.ground_thump_active);
    let e = finish_effects(base, sw, false, all_transients());
    assert!(e.overspeed_active);
}

#[test]
fn transients_switched_off() {
    let mut sw = all_switches(true);
    sw.gear_comp_enabled = false;
    sw.flaps_enabled = false;
    sw.gear_enabled = false;
    sw.overspeed_enabled = false;
    let base = EffectsSnapshot::default();
    let e = finish_effects(base, sw, false, all_transients());
    assert!(!e.overspeed_active && !e.flaps_bump_active && !e.gear_bump_active);
    assert!(!e.gear_comp_nose_active && !e.gear_comp_left_active && !e.gear_comp_right_active);
    let mut sw = all_switches(true);
    sw.gear_comp_left_enabled = false;
    let e = finish_effects(base, sw, true, all_transients());
    assert!(e.gear_comp_nose_active && !e.gear_comp_left_active && e.gear_comp_right_active);
}

#[test]
fn touchdown_registers_upward_crossings_only() {
    let sw = all_switches(true);
    let reached = GearFlags::new(true, true, false);
    let below = GearFlags::new(true, false, true);
    let d = touchdown_edges(sw, true, reached, below);
    assert_eq!(d, GearFlags::new(true, false, false));
    let d = touchdown_edges(sw, false, reached, below);
    assert_eq!(d, GearFlags::new(false, false, false));
    let mut off = sw;
    off.gear_comp_nose_enabled = false;
    let d = touchdown_edges(off, true, GearFlags::new(true, true, true), GearFlags::new(true, true, true));
    assert_eq!(d, GearFlags::new(false, true, true));
    let mut off = sw;
    off.gear_comp_enabled = false;
    let d = touchdown_edges(off, true, GearFlags::new(true, true, true), GearFlags::new(true, true, true));
    assert!(!d.any());
}
