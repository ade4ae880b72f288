//! Per-wheel flags of the landing gear, and the decisions of the gear-transit
//! effect: how many struts move, when the doors lock, which beat is accented.
use vstd::prelude::*;

verus! {

/// One flag for each of the three landing-gear struts.
#[derive(Clone, Copy, Debug, PartialEq, Eq, Structural)]
pub struct GearFlags {
    pub nose: bool,
    pub left: bool,
    pub right: bool,
}

impl GearFlags {
    /// How many of the three flags are set.
    pub open spec fn spec_count(self) -> nat {
        (if self.nose { 1nat } else { 0nat }) + (if self.left { 1nat } else { 0nat }) + (if self.right {
            1nat
        } else {
            0nat
        })
    }

    /// Every strut's flag is set.
    pub open spec fn spec_all(self) -> bool {
        self.nose && self.left && self.right
    }

    /// Some strut's flag is set.
    pub open spec fn spec_any(self) -> bool {
        self.nose || self.left || self.right
    }

    pub fn new(nose: bool, left: bool, right: bool) -> (g: GearFlags)
        ensures
            g.nose == nose,
            g.left == left,
            g.right == right,
    {
        GearFlags { nose, left, right }
    }

    /// The number of struts whose flag is set (the gear-transit effect counts
    /// the struts in motion with it).
    pub fn count(&self) -> (n: u8)
        ensures
            n as nat == self.spec_count(),
    {
        let mut n: u8 = 0;
        if self.nose {
            n = n + 1;
        }
        if self.left {
            n = n + 1;
        }
        if self.right {
            n = n + 1;
        }
        n
    }

    pub fn all(&self) -> (b: bool)
        ensures
            b == self.spec_all(),
    {
        self.nose && self.left && self.right
    }

    pub fn any(&self) -> (b: bool)
        ensures
            b == self.spec_any(),
    {
        self.nose || self.left || self.right
    }
}

/// The doors slam shut in the frame in which the last strut locks: all struts
/// are up now while one was still out in the previous frame, or all are down
/// now while one was not yet down before.
pub open spec fn spec_doors_locked(
    up_now: GearFlags,
    out_before: GearFlags,
    down_now: GearFlags,
    not_down_before: GearFlags,
) -> bool {
    (up_now.spec_all() && out_before.spec_any()) || (down_now.spec_all()
        && not_down_before.spec_any())
}

/// Decides whether the gear doors slam in this frame. `up_now` holds, per
/// strut, that its position is at or below zero; `out_before` that its
/// previous position was above zero; `down_now` that its position is at or
/// beyond the down-lock mark; `not_down_before` that its previous position was
/// short of that mark.
pub fn doors_locked(
    up_now: GearFlags,
    out_before: GearFlags,
    down_now: GearFlags,
    not_down_before: GearFlags,
) -> (slam: bool)
    ensures
        slam == spec_doors_locked(up_now, out_before, down_now, not_down_before),
{
    (up_now.all() && out_before.any()) || (down_now.all() && not_down_before.any())
}

/// The gear motor beats in groups of three, with the first beat of each group
/// accented: beat `b` is accented when `b` is a multiple of three.
pub open spec fn is_accented(beat: int) -> bool {
    beat % 3 == 0
}

/// Whether beat number `beat` (counted from the start of simulator time) is
/// the accented one of its group.
pub fn accented_beat(beat: i64) -> (accent: bool)
    ensures
        accent == is_accented(beat as int),
{
    let r: i64 = beat % 3;
    r == 0
}

/// Law: the number of moving struts is at most three; it is zero exactly when
/// no strut moves and three exactly when all do.
pub proof fn law_count_bounds(g: GearFlags)
    ensures
        g.spec_count() <= 3,
        g.spec_count() == 0 <==> !g.spec_any(),
        g.spec_count() == 3 <==> g.spec_all(),
{
}

/// Law: the doors slam only when every strut is at one end of its travel, and
/// never in a frame in which all struts already were there before.
pub proof fn law_doors_slam_on_arrival(
    up_now: GearFlags,
    out_before: GearFlags,
    down_now: GearFlags,
    not_down_before: GearFlags,
)
    ensures
        spec_doors_locked(up_now, out_before, down_now, not_down_before) ==> up_now.spec_all()
            || down_now.spec_all(),
        !out_before.spec_any() && !not_down_before.spec_any() ==> !spec_doors_locked(
            up_now,
            out_before,
            down_now,
            not_down_before,
        ),
{
}

/// Law: of any three consecutive beats exactly one is accented, so the accent
/// comes back every third beat.
pub proof fn law_one_accent_in_three(beat: int)
    ensures
        is_accented(beat) || is_accented(beat + 1) || is_accented(beat + 2),
        is_accented(beat) ==> !is_accented(beat + 1) && !is_accented(beat + 2),
        is_accented(beat + 1) ==> !is_accented(beat + 2),
        is_accented(beat + 3) == is_accented(beat),
{
}

/// The flags with the struts taken in another order (nose to left, left to
/// right, right to nose).
pub open spec fn rotated(g: GearFlags) -> GearFlags {
    GearFlags { nose: g.right, left: g.nose, right: g.left }
}

/// The flags with the two main struts swapped.
pub open spec fn mains_swapped(g: GearFlags) -> GearFlags {
    GearFlags { nose: g.nose, left: g.right, right: g.left }
}

/// Law: the doors slam whenever all struts are up now and some strut was
/// still out before, or all are down now and some strut was not yet down
/// before; they slam only then; and every strut counts the same (taking the
/// struts in another order changes nothing).
pub proof fn law_doors_slam_exactly(
    up_now: GearFlags,
    out_before: GearFlags,
    down_now: GearFlags,
    not_down_before: GearFlags,
)
    ensures
        up_now.nose && up_now.left && up_now.right && (out_before.nose || out_before.left
            || out_before.right) ==> spec_doors_locked(up_now, out_before, down_now, not_down_before),
        down_now.nose && down_now.left && down_now.right && (not_down_before.nose
            || not_down_before.left || not_down_before.right) ==> spec_doors_locked(
            up_now,
            out_before,
            down_now,
            not_down_before,
        ),
        spec_doors_locked(up_now, out_before, down_now, not_down_before) ==> (up_now.nose
            && up_now.left && up_now.right && (out_before.nose || out_before.left
            || out_before.right)) || (down_now.nose && down_now.left && down_now.right && (
        not_down_before.nose || not_down_before.left || not_down_before.right)),
        spec_doors_locked(
            rotated(up_now),
            rotated(out_before),
            rotated(down_now),
            rotated(not_down_before),
        ) == spec_doors_locked(up_now, out_before, down_now, not_down_before),
        spec_doors_locked(
            mains_swapped(up_now),
            mains_swapped(out_before),
            mains_swapped(down_now),
            mains_swapped(not_down_before),
        ) == spec_doors_locked(up_now, out_before, down_now, not_down_before),
{
}

/// Law: the count is the number of set flags: none gives zero, setting one
/// more flag adds one, and the order of the struts does not matter.
pub proof fn law_count_exact(g: GearFlags)
    ensures
        (GearFlags { nose: false, left: false, right: false }).spec_count() == 0,
        !g.nose ==> (GearFlags { nose: true, ..g }).spec_count() == g.spec_count() + 1,
        !g.left ==> (GearFlags { left: true, ..g }).spec_count() == g.spec_count() + 1,
        !g.right ==> (GearFlags { right: true, ..g }).spec_count() == g.spec_count() + 1,
        rotated(g).spec_count() == g.spec_count(),
        g.spec_all() <==> (g.nose && g.left && g.right),
        g.spec_any() <==> (g.nose || g.left || g.right),
{
}

/// Law: beat zero is accented, and then every third beat, in both directions.
pub proof fn law_accent_on_multiples_of_three(beat: int)
    ensures
        is_accented(0),
        !is_accented(1),
        !is_accented(2),
        is_accented(beat) <==> beat == 3 * (beat / 3),
        is_accented(3 * beat),
{
}

} // verus!
