//! The set of effects reported active in one frame, and the frame's output.
use vstd::prelude::*;

verus! {

/// Which rumble effects are active in the current frame.
#[derive(Clone, Copy, Debug, PartialEq, Eq, Structural)]
pub struct EffectsSnapshot {
    pub taxi_start_crossed: bool,
    pub taxi_end_crossed: bool,
    pub ground_thump_active: bool,
    pub ground_active: bool,
    pub stall_active: bool,
    pub bank_active: bool,
    pub spoilers_active: bool,
    pub overspeed_active: bool,
    pub flaps_bump_active: bool,
    pub gear_bump_active: bool,
    pub gear_comp_nose_active: bool,
    pub gear_comp_left_active: bool,
    pub gear_comp_right_active: bool,
}

impl EffectsSnapshot {
    /// No effect is active.
    pub open spec fn is_quiet(self) -> bool {
        &&& !self.taxi_start_crossed
        &&& !self.taxi_end_crossed
        &&& !self.ground_thump_active
        &&& !self.ground_active
        &&& !self.stall_active
        &&& !self.bank_active
        &&& !self.spoilers_active
        &&& !self.overspeed_active
        &&& !self.flaps_bump_active
        &&& !self.gear_bump_active
        &&& !self.gear_comp_nose_active
        &&& !self.gear_comp_left_active
        &&& !self.gear_comp_right_active
    }
}

impl Default for EffectsSnapshot {
    fn default() -> (s: Self)
        ensures
            s.is_quiet(),
    {
        EffectsSnapshot {
            taxi_start_crossed: false,
            taxi_end_crossed: false,
            ground_thump_active: false,
            ground_active: false,
            stall_active: false,
            bank_active: false,
            spoilers_active: false,
            overspeed_active: false,
            flaps_bump_active: false,
            gear_bump_active: false,
            gear_comp_nose_active: false,
            gear_comp_left_active: false,
            gear_comp_right_active: false,
        }
    }
}

/// What one frame of the rumble engine produces: the motor intensity and the
/// effects that were active.
#[derive(Clone, Copy, Debug, PartialEq, Eq, Structural)]
pub struct RumbleOutput {
    pub intensity: u8,
    pub effects: EffectsSnapshot,
}

impl RumbleOutput {
    /// The output of a frame in which the simulator is paused or the rumble is
    /// held: the motor stays still, and the effects are reported as they are.
    pub fn silent(effects: EffectsSnapshot) -> (out: RumbleOutput)
        ensures
            out.intensity == 0,
            out.effects == effects,
    {
        RumbleOutput { intensity: 0, effects }
    }
}

} // verus!
