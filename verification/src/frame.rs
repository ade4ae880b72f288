//! The discrete decisions of one rumble frame: which effects are active and
//! which signal terms are engaged, from the configuration's switches and the
//! comparisons that the frame's flight variables pass.
use vstd::prelude::*;
use crate::effects::EffectsSnapshot;
use crate::gear::GearFlags;

verus! {

/// The on/off switches of the rumble configuration.
#[derive(Clone, Copy, Debug, PartialEq, Eq, Structural)]
pub struct EffectSwitches {
    pub taxi_start_enabled: bool,
    pub taxi_end_enabled: bool,
    pub ground_enabled: bool,
    pub spoilers_enabled: bool,
    pub overspeed_enabled: bool,
    pub bank_enabled: bool,
    pub stall_enabled: bool,
    pub flaps_enabled: bool,
    pub gear_enabled: bool,
    pub gear_comp_enabled: bool,
    pub gear_comp_nose_enabled: bool,
    pub gear_comp_left_enabled: bool,
    pub gear_comp_right_enabled: bool,
    pub gear_transit_enabled: bool,
}

/// The comparisons of one frame's flight variables against the configured
/// thresholds, as the effect flags read them.
#[derive(Clone, Copy, Debug, PartialEq, Eq, Structural)]
pub struct FrameReadings {
    pub on_ground: bool,
    pub stalled: bool,
    /// Ground speed at or above the taxi start speed.
    pub at_or_above_taxi_start: bool,
    /// Ground speed at or above the taxi start speed raised to at least one knot.
    pub at_or_above_thump_floor: bool,
    /// Ground speed below the taxi end speed.
    pub below_taxi_end: bool,
    /// Ground speed at or above the taxi end speed.
    pub at_or_above_taxi_end: bool,
    /// Absolute bank angle beyond the bank threshold.
    pub bank_beyond_threshold: bool,
    /// Spoiler deflection beyond the spoiler threshold.
    pub spoilers_beyond_threshold: bool,
    /// Indicated airspeed above the floor under which spoilers are not felt.
    pub airspeed_above_spoiler_floor: bool,
}

impl FrameReadings {
    /// No ground speed is both below and at or above the taxi end speed.
    pub open spec fn consistent(self) -> bool {
        !(self.below_taxi_end && self.at_or_above_taxi_end)
    }
}

/// The effect flags that a frame reports before the simulator's pause and the
/// rumble hold are looked at.
pub open spec fn spec_frame_effects(sw: EffectSwitches, r: FrameReadings) -> EffectsSnapshot {
    let at_or_above_end = sw.ground_enabled && sw.taxi_end_enabled && r.on_ground
        && r.at_or_above_taxi_end;
    EffectsSnapshot {
        taxi_start_crossed: sw.taxi_start_enabled && r.on_ground && r.at_or_above_taxi_start,
        taxi_end_crossed: at_or_above_end,
        ground_thump_active: sw.ground_enabled && r.on_ground && r.at_or_above_thump_floor
            && r.below_taxi_end,
        ground_active: at_or_above_end,
        stall_active: r.stalled,
        bank_active: !r.on_ground && r.bank_beyond_threshold,
        spoilers_active: sw.spoilers_enabled && r.spoilers_beyond_threshold
            && r.airspeed_above_spoiler_floor,
        overspeed_active: false,
        flaps_bump_active: false,
        gear_bump_active: false,
        gear_comp_nose_active: false,
        gear_comp_left_active: false,
        gear_comp_right_active: false,
    }
}

/// Computes the effect flags that a frame reports before the pause and hold
/// are looked at; the flags of the transient effects start out inactive.
pub fn frame_effects(sw: EffectSwitches, r: FrameReadings) -> (e: EffectsSnapshot)
    ensures
        e == spec_frame_effects(sw, r),
{
    let at_or_above_end = sw.ground_enabled && sw.taxi_end_enabled && r.on_ground
        && r.at_or_above_taxi_end;
    EffectsSnapshot {
        taxi_start_crossed: sw.taxi_start_enabled && r.on_ground && r.at_or_above_taxi_start,
        taxi_end_crossed: at_or_above_end,
        ground_thump_active: sw.ground_enabled && r.on_ground && r.at_or_above_thump_floor
            && r.below_taxi_end,
        ground_active: at_or_above_end,
        stall_active: r.stalled,
        bank_active: !r.on_ground && r.bank_beyond_threshold,
        spoilers_active: sw.spoilers_enabled && r.spoilers_beyond_threshold
            && r.airspeed_above_spoiler_floor,
        overspeed_active: false,
        flaps_bump_active: false,
        gear_bump_active: false,
        gear_comp_nose_active: false,
        gear_comp_left_active: false,
        gear_comp_right_active: false,
    }
}

/// Which of the continuous signal terms a running (neither paused nor held)
/// frame computes.
#[derive(Clone, Copy, Debug, PartialEq, Eq, Structural)]
pub struct FrameGates {
    /// The runway-slab thump is computed (otherwise its phase is reset).
    pub ground_roll: bool,
    /// The bank buzz is computed.
    pub bank_buzz: bool,
    /// The total is raised to the stall ceiling.
    pub stall_floor: bool,
}

pub open spec fn spec_frame_gates(sw: EffectSwitches, r: FrameReadings) -> FrameGates {
    FrameGates {
        ground_roll: sw.ground_enabled && r.on_ground && r.at_or_above_thump_floor,
        bank_buzz: sw.bank_enabled && !r.on_ground && r.bank_beyond_threshold,
        stall_floor: sw.stall_enabled && r.stalled,
    }
}

/// Decides which continuous signal terms a running frame computes.
pub fn frame_gates(sw: EffectSwitches, r: FrameReadings) -> (g: FrameGates)
    ensures
        g == spec_frame_gates(sw, r),
{
    FrameGates {
        ground_roll: sw.ground_enabled && r.on_ground && r.at_or_above_thump_floor,
        bank_buzz: sw.bank_enabled && !r.on_ground && r.bank_beyond_threshold,
        stall_floor: sw.stall_enabled && r.stalled,
    }
}

/// The wheels that register a touchdown in this frame: strut-compression
/// tracking is on, simulator time advanced, the wheel's own switch is on, and
/// its compression crossed the touchdown threshold upwards (at or above it now,
/// below it in the previous frame).
pub open spec fn spec_touchdown_edges(
    sw: EffectSwitches,
    time_advanced: bool,
    reached_now: GearFlags,
    below_before: GearFlags,
) -> GearFlags {
    let tracking = sw.gear_comp_enabled && time_advanced;
    GearFlags {
        nose: tracking && sw.gear_comp_nose_enabled && reached_now.nose && below_before.nose,
        left: tracking && sw.gear_comp_left_enabled && reached_now.left && below_before.left,
        right: tracking && sw.gear_comp_right_enabled && reached_now.right && below_before.right,
    }
}

/// Detects the wheels that touch down in this frame.
pub fn touchdown_edges(
    sw: EffectSwitches,
    time_advanced: bool,
    reached_now: GearFlags,
    below_before: GearFlags,
) -> (edges: GearFlags)
    ensures
        edges == spec_touchdown_edges(sw, time_advanced, reached_now, below_before),
{
    let tracking = sw.gear_comp_enabled && time_advanced;
    GearFlags {
        nose: tracking && sw.gear_comp_nose_enabled && reached_now.nose && below_before.nose,
        left: tracking && sw.gear_comp_left_enabled && reached_now.left && below_before.left,
        right: tracking && sw.gear_comp_right_enabled && reached_now.right && below_before.right,
    }
}

/// The comparisons a running frame makes after its state has advanced, which
/// decide the transient effect flags.
#[derive(Clone, Copy, Debug, PartialEq, Eq, Structural)]
pub struct TransientReadings {
    /// Indicated airspeed beyond the overspeed threshold.
    pub airspeed_beyond_overspeed: bool,
    /// The flaps motor amplitude is above its audible minimum.
    pub flaps_motor_audible: bool,
    /// Simulator time lies in the gear-handle bump window and its peak is positive.
    pub gear_bump_window: bool,
    /// Per wheel, simulator time lies in the touchdown bump window.
    pub touchdown_windows: GearFlags,
}

/// The effect flags of a running frame: the flags of `base` with the
/// transient effects decided.
pub open spec fn spec_finish_effects(
    base: EffectsSnapshot,
    sw: EffectSwitches,
    on_ground: bool,
    t: TransientReadings,
) -> EffectsSnapshot {
    EffectsSnapshot {
        overspeed_active: sw.overspeed_enabled && !on_ground && t.airspeed_beyond_overspeed,
        flaps_bump_active: sw.flaps_enabled && t.flaps_motor_audible,
        gear_bump_active: sw.gear_enabled && t.gear_bump_window,
        gear_comp_nose_active: sw.gear_comp_enabled && sw.gear_comp_nose_enabled
            && t.touchdown_windows.nose,
        gear_comp_left_active: sw.gear_comp_enabled && sw.gear_comp_left_enabled
            && t.touchdown_windows.left,
        gear_comp_right_active: sw.gear_comp_enabled && sw.gear_comp_right_enabled
            && t.touchdown_windows.right,
        ..base
    }
}

/// Decides the transient effect flags of a running frame.
pub fn finish_effects(
    base: EffectsSnapshot,
    sw: EffectSwitches,
    on_ground: bool,
    t: TransientReadings,
) -> (e: EffectsSnapshot)
    ensures
        e == spec_finish_effects(base, sw, on_ground, t),
{
    EffectsSnapshot {
        overspeed_active: sw.overspeed_enabled && !on_ground && t.airspeed_beyond_overspeed,
        flaps_bump_active: sw.flaps_enabled && t.flaps_motor_audible,
        gear_bump_active: sw.gear_enabled && t.gear_bump_window,
        gear_comp_nose_active: sw.gear_comp_enabled && sw.gear_comp_nose_enabled
            && t.touchdown_windows.nose,
        gear_comp_left_active: sw.gear_comp_enabled && sw.gear_comp_left_enabled
            && t.touchdown_windows.left,
        gear_comp_right_active: sw.gear_comp_enabled && sw.gear_comp_right_enabled
            && t.touchdown_windows.right,
        ..base
    }
}

/// The effect flags of a running frame, from the switches and all of the
/// frame's readings.
pub open spec fn spec_running_effects(
    sw: EffectSwitches,
    r: FrameReadings,
    t: TransientReadings,
) -> EffectsSnapshot {
    spec_finish_effects(spec_frame_effects(sw, r), sw, r.on_ground, t)
}

/// Law: ground effects are only reported on the ground, the bank and
/// overspeed effects only in the air; the ground effect is reported exactly
/// when the taxi end speed is crossed; and with consistent readings the slab
/// thump band and the taxi-end band never overlap.
pub proof fn law_ground_and_air_effects(sw: EffectSwitches, r: FrameReadings, t: TransientReadings)
    ensures
        ({
            let e = spec_running_effects(sw, r, t);
            &&& (e.taxi_start_crossed || e.taxi_end_crossed || e.ground_thump_active
                || e.ground_active) ==> r.on_ground
            &&& (e.bank_active || e.overspeed_active) ==> !r.on_ground
            &&& e.ground_active == e.taxi_end_crossed
            &&& r.consistent() ==> !(e.ground_thump_active && e.taxi_end_crossed)
        }),
{
}

/// Law: an effect whose switch is off is never reported active (the stall and
/// bank flags are the exceptions: they follow the flight state whatever the
/// switches say).
pub proof fn law_switched_off_effects_stay_off(
    sw: EffectSwitches,
    r: FrameReadings,
    t: TransientReadings,
)
    ensures
        ({
            let e = spec_running_effects(sw, r, t);
            &&& !sw.taxi_start_enabled ==> !e.taxi_start_crossed
            &&& !sw.ground_enabled ==> !e.taxi_end_crossed && !e.ground_thump_active
                && !e.ground_active
            &&& !sw.taxi_end_enabled ==> !e.taxi_end_crossed && !e.ground_active
            &&& !sw.spoilers_enabled ==> !e.spoilers_active
            &&& !sw.overspeed_enabled ==> !e.overspeed_active
            &&& !sw.flaps_enabled ==> !e.flaps_bump_active
            &&& !sw.gear_enabled ==> !e.gear_bump_active
            &&& !sw.gear_comp_enabled ==> !e.gear_comp_nose_active && !e.gear_comp_left_active
                && !e.gear_comp_right_active
            &&& !sw.gear_comp_nose_enabled ==> !e.gear_comp_nose_active
            &&& !sw.gear_comp_left_enabled ==> !e.gear_comp_left_active
            &&& !sw.gear_comp_right_enabled ==> !e.gear_comp_right_active
            &&& e.stall_active == r.stalled
            &&& e.bank_active == (!r.on_ground && r.bank_beyond_threshold)
        }),
{
}

/// Law: a frame that is paused or held reports the same flags as a running
/// frame up to the transient effects, which it reports inactive; deciding the
/// transient effects leaves the other flags unchanged.
pub proof fn law_transients_extend_base(sw: EffectSwitches, r: FrameReadings, t: TransientReadings)
    ensures
        ({
            let base = spec_frame_effects(sw, r);
            let e = spec_running_effects(sw, r, t);
            &&& !base.overspeed_active && !base.flaps_bump_active && !base.gear_bump_active
            &&& !base.gear_comp_nose_active && !base.gear_comp_left_active
                && !base.gear_comp_right_active
            &&& e.taxi_start_crossed == base.taxi_start_crossed
            &&& e.taxi_end_crossed == base.taxi_end_crossed
            &&& e.ground_thump_active == base.ground_thump_active
            &&& e.ground_active == base.ground_active
            &&& e.stall_active == base.stall_active
            &&& e.bank_active == base.bank_active
            &&& e.spoilers_active == base.spoilers_active
        }),
{
}

/// Law: the ground-roll, bank and stall terms are computed only when their
/// switches are on; the bank buzz runs exactly when its switch is on and the
/// bank effect is reported, and the ground roll runs whenever the slab thump
/// is reported.
pub proof fn law_gates_follow_switches(sw: EffectSwitches, r: FrameReadings)
    ensures
        ({
            let g = spec_frame_gates(sw, r);
            let e = spec_frame_effects(sw, r);
            &&& g.ground_roll ==> sw.ground_enabled && r.on_ground
            &&& g.bank_buzz == (sw.bank_enabled && e.bank_active)
            &&& g.stall_floor == (sw.stall_enabled && e.stall_active)
            &&& e.ground_thump_active ==> g.ground_roll
        }),
{
}

/// Law: a wheel touches down only when its compression crosses the threshold
/// upwards in a frame in which time advanced and its tracking is switched on;
/// a wheel that was already at or above the threshold in the previous frame
/// (with consistent readings: not also below it) registers no new touchdown.
pub proof fn law_touchdown_on_upward_crossing(
    sw: EffectSwitches,
    time_advanced: bool,
    reached_now: GearFlags,
    below_before: GearFlags,
)
    ensures
        ({
            let d = spec_touchdown_edges(sw, time_advanced, reached_now, below_before);
            &&& d.spec_any() ==> sw.gear_comp_enabled && time_advanced
            &&& d.nose ==> sw.gear_comp_nose_enabled && reached_now.nose && below_before.nose
            &&& d.left ==> sw.gear_comp_left_enabled && reached_now.left && below_before.left
            &&& d.right ==> sw.gear_comp_right_enabled && reached_now.right && below_before.right
            &&& !below_before.spec_any() ==> !d.spec_any()
        }),
{
}

/// Law: each effect flag of a frame is on exactly under the conditions of its
/// effect. Taxi start: its switch, on the ground, at or above the start speed.
/// Taxi end and the ground effect: the ground and taxi-end switches, on the
/// ground, at or above the end speed. Slab thump: the ground switch, on the
/// ground, at or above the thump floor and below the end speed. Stall: the
/// aircraft is stalled. Bank: airborne and banked beyond the threshold.
/// Spoilers: their switch, deflected beyond the threshold and above the
/// airspeed floor, on the ground or in the air, at any ground speed.
pub proof fn law_each_frame_flag(sw: EffectSwitches, r: FrameReadings)
    ensures
        spec_frame_effects(sw, r).taxi_start_crossed <==> (sw.taxi_start_enabled && r.on_ground
            && r.at_or_above_taxi_start),
        spec_frame_effects(sw, r).taxi_end_crossed <==> (sw.ground_enabled && sw.taxi_end_enabled
            && r.on_ground && r.at_or_above_taxi_end),
        spec_frame_effects(sw, r).ground_active <==> (sw.ground_enabled && sw.taxi_end_enabled
            && r.on_ground && r.at_or_above_taxi_end),
        spec_frame_effects(sw, r).ground_thump_active <==> (sw.ground_enabled && r.on_ground
            && r.at_or_above_thump_floor && r.below_taxi_end),
        spec_frame_effects(sw, r).stall_active <==> r.stalled,
        spec_frame_effects(sw, r).bank_active <==> (!r.on_ground && r.bank_beyond_threshold),
        spec_frame_effects(sw, r).spoilers_active <==> (sw.spoilers_enabled
            && r.spoilers_beyond_threshold && r.airspeed_above_spoiler_floor),
        !spec_frame_effects(sw, r).overspeed_active,
        !spec_frame_effects(sw, r).flaps_bump_active,
        !spec_frame_effects(sw, r).gear_bump_active,
        !spec_frame_effects(sw, r).gear_comp_nose_active,
        !spec_frame_effects(sw, r).gear_comp_left_active,
        !spec_frame_effects(sw, r).gear_comp_right_active,
{
}

/// Law: the spoiler and stall flags do not depend on whether the aircraft is
/// on the ground nor on its ground speed: two frames that differ only in those
/// readings report the same spoiler and stall flags.
pub proof fn law_spoilers_and_stall_ignore_ground_state(
    sw: EffectSwitches,
    r1: FrameReadings,
    r2: FrameReadings,
)
    requires
        r1.stalled == r2.stalled,
        r1.spoilers_beyond_threshold == r2.spoilers_beyond_threshold,
        r1.airspeed_above_spoiler_floor == r2.airspeed_above_spoiler_floor,
    ensures
        spec_frame_effects(sw, r1).spoilers_active == spec_frame_effects(sw, r2).spoilers_active,
        spec_frame_effects(sw, r1).stall_active == spec_frame_effects(sw, r2).stall_active,
{
}

/// Law: the gates are on exactly under their conditions. The ground roll:
/// its switch, on the ground, at or above the thump floor (so never below the
/// taxi start speed or the one-knot floor), at any speed beyond the taxi end.
/// The bank buzz: its switch, airborne, banked beyond the threshold. The stall
/// floor: its switch and a stall.
pub proof fn law_each_gate(sw: EffectSwitches, r: FrameReadings)
    ensures
        spec_frame_gates(sw, r).ground_roll <==> (sw.ground_enabled && r.on_ground
            && r.at_or_above_thump_floor),
        spec_frame_gates(sw, r).ground_roll ==> r.at_or_above_thump_floor,
        spec_frame_gates(sw, r).bank_buzz <==> (sw.bank_enabled && !r.on_ground
            && r.bank_beyond_threshold),
        spec_frame_gates(sw, r).stall_floor <==> (sw.stall_enabled && r.stalled),
{
}

/// Law: the ground roll does not depend on the taxi end speed: two frames
/// that differ only in the taxi-end readings engage it alike.
pub proof fn law_ground_roll_ignores_taxi_end(sw: EffectSwitches, r1: FrameReadings, r2: FrameReadings)
    requires
        r1.on_ground == r2.on_ground,
        r1.at_or_above_thump_floor == r2.at_or_above_thump_floor,
    ensures
        spec_frame_gates(sw, r1).ground_roll == spec_frame_gates(sw, r2).ground_roll,
{
}

/// Law: each transient flag is on exactly under the conditions of its effect.
/// Overspeed: its switch, airborne, beyond the overspeed speed. Flaps hum: its
/// switch and an audible motor, on the ground or in the air. Gear-handle bump:
/// its switch and its time window. Touchdown bumps: the compression switch,
/// the wheel's own switch and the wheel's own window. The other flags are
/// those of the base snapshot.
pub proof fn law_each_transient_flag(
    base: EffectsSnapshot,
    sw: EffectSwitches,
    on_ground: bool,
    t: TransientReadings,
)
    ensures
        spec_finish_effects(base, sw, on_ground, t).overspeed_active <==> (sw.overspeed_enabled
            && !on_ground && t.airspeed_beyond_overspeed),
        spec_finish_effects(base, sw, on_ground, t).flaps_bump_active <==> (sw.flaps_enabled
            && t.flaps_motor_audible),
        spec_finish_effects(base, sw, true, t).flaps_bump_active == spec_finish_effects(
            base,
            sw,
            false,
            t,
        ).flaps_bump_active,
        spec_finish_effects(base, sw, on_ground, t).gear_bump_active <==> (sw.gear_enabled
            && t.gear_bump_window),
        spec_finish_effects(base, sw, on_ground, t).gear_comp_nose_active <==> (
        sw.gear_comp_enabled && sw.gear_comp_nose_enabled && t.touchdown_windows.nose),
        spec_finish_effects(base, sw, on_ground, t).gear_comp_left_active <==> (
        sw.gear_comp_enabled && sw.gear_comp_left_enabled && t.touchdown_windows.left),
        spec_finish_effects(base, sw, on_ground, t).gear_comp_right_active <==> (
        sw.gear_comp_enabled && sw.gear_comp_right_enabled && t.touchdown_windows.right),
        spec_finish_effects(base, sw, on_ground, t).taxi_start_crossed == base.taxi_start_crossed,
        spec_finish_effects(base, sw, on_ground, t).taxi_end_crossed == base.taxi_end_crossed,
        spec_finish_effects(base, sw, on_ground, t).ground_thump_active == base.ground_thump_active,
        spec_finish_effects(base, sw, on_ground, t).ground_active == base.ground_active,
        spec_finish_effects(base, sw, on_ground, t).stall_active == base.stall_active,
        spec_finish_effects(base, sw, on_ground, t).bank_active == base.bank_active,
        spec_finish_effects(base, sw, on_ground, t).spoilers_active == base.spoilers_active,
{
}

/// Law: a wheel's touchdown bump flag depends only on that wheel's window:
/// changing the windows of the other wheels leaves it unchanged.
pub proof fn law_touchdown_flags_per_wheel(
    base: EffectsSnapshot,
    sw: EffectSwitches,
    on_ground: bool,
    t1: TransientReadings,
    t2: TransientReadings,
)
    ensures
        t1.touchdown_windows.nose == t2.touchdown_windows.nose ==> spec_finish_effects(
            base,
            sw,
            on_ground,
            t1,
        ).gear_comp_nose_active == spec_finish_effects(base, sw, on_ground, t2).gear_comp_nose_active,
        t1.touchdown_windows.left == t2.touchdown_windows.left ==> spec_finish_effects(
            base,
            sw,
            on_ground,
            t1,
        ).gear_comp_left_active == spec_finish_effects(base, sw, on_ground, t2).gear_comp_left_active,
        t1.touchdown_windows.right == t2.touchdown_windows.right ==> spec_finish_effects(
            base,
            sw,
            on_ground,
            t1,
        ).gear_comp_right_active == spec_finish_effects(
            base,
            sw,
            on_ground,
            t2,
        ).gear_comp_right_active,
{
}

/// Law: with tracking on and time advancing, a wheel whose switch is on
/// registers a touchdown exactly when its compression crossed the threshold
/// upwards, whatever the other wheels do; several wheels may touch down in the
/// same frame.
pub proof fn law_touchdown_each_wheel(
    sw: EffectSwitches,
    time_advanced: bool,
    reached_now: GearFlags,
    below_before: GearFlags,
)
    ensures
        ({
            let d = spec_touchdown_edges(sw, time_advanced, reached_now, below_before);
            let on = sw.gear_comp_enabled && time_advanced;
            &&& d.nose <==> (on && sw.gear_comp_nose_enabled && reached_now.nose
                && below_before.nose)
            &&& d.left <==> (on && sw.gear_comp_left_enabled && reached_now.left
                && below_before.left)
            &&& d.right <==> (on && sw.gear_comp_right_enabled && reached_now.right
                && below_before.right)
        }),
{
}

/// Law: a wheel's touchdown depends only on its own readings: two frames whose
/// readings agree on one wheel give that wheel the same touchdown decision.
pub proof fn law_touchdown_independent_wheels(
    sw: EffectSwitches,
    time_advanced: bool,
    reached1: GearFlags,
    below1: GearFlags,
    reached2: GearFlags,
    below2: GearFlags,
)
    ensures
        reached1.nose == reached2.nose && below1.nose == below2.nose ==> spec_touchdown_edges(
            sw,
            time_advanced,
            reached1,
            below1,
        ).nose == spec_touchdown_edges(sw, time_advanced, reached2, below2).nose,
        reached1.left == reached2.left && below1.left == below2.left ==> spec_touchdown_edges(
            sw,
            time_advanced,
            reached1,
            below1,
        ).left == spec_touchdown_edges(sw, time_advanced, reached2, below2).left,
        reached1.right == reached2.right && below1.right == below2.right ==> spec_touchdown_edges(
            sw,
            time_advanced,
            reached1,
            below1,
        ).right == spec_touchdown_edges(sw, time_advanced, reached2, below2).right,
{
}

} // verus!
