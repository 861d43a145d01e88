//! What the display shows.
use vstd::prelude::*;

verus! {

/// The angles of the servos, in the order in which they are shown.
#[derive(Clone, Copy, Debug)]
pub struct DisplayState {
    pub angles: [u32; 5],
}

impl Default for DisplayState {
    fn default() -> (state: DisplayState)
        ensures
            state.angles@ == seq![0u32, 0, 0, 0, 0],
    {
        let angles: [u32; 5] = [0, 0, 0, 0, 0];
        assert(angles@ =~= seq![0u32, 0, 0, 0, 0]);
        DisplayState { angles }
    }
}

/// The angles of the servos in the order in which they are shown.
pub open spec fn shown(angles: Seq<u32>) -> Seq<u32> {
    seq![angles[0], angles[3], angles[2], angles[1], angles[4]]
}

impl DisplayState {
    /// The state that shows the angles of the five servos. The second and the fourth servo have
    /// changed places on the display.
    pub fn of_servos(m1: u32, m2: u32, m3: u32, m4: u32, m5: u32) -> (state: DisplayState)
        ensures
            state.angles@ == seq![m1, m4, m3, m2, m5],
            state.angles@ == shown(seq![m1, m2, m3, m4, m5]),
    {
        let angles: [u32; 5] = [m1, m4, m3, m2, m5];
        assert(angles@ =~= seq![m1, m4, m3, m2, m5]);
        DisplayState { angles }
    }
}

/// The second and the fourth servo change places on the display, the others do not; so to
/// arrange the angles twice is to leave them as they are.
pub proof fn law_two_servos_change_places(angles: Seq<u32>)
    requires
        angles.len() == 5,
    ensures
        shown(angles).len() == 5,
        shown(angles)[0] == angles[0],
        shown(angles)[1] == angles[3],
        shown(angles)[2] == angles[2],
        shown(angles)[3] == angles[1],
        shown(angles)[4] == angles[4],
        shown(shown(angles)) == angles,
{
    assert(shown(shown(angles)) =~= angles);
}

} // verus!
