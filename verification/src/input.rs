use vstd::prelude::*;

verus! {

/// The per-frame snapshot handed over by the host's input collaborator.
/// `left_held` and `right_held` are level-triggered; the other two are fresh
/// edges, true only on the frame the key went down.
#[derive(Clone, Copy, Debug, PartialEq, Eq, Structural)]
pub struct InputSnapshot {
    pub left_held: bool,
    pub right_held: bool,
    pub jump_just_pressed: bool,
    pub discard_just_pressed: bool,
}

impl InputSnapshot {
    /// The snapshot of a frame with no input at all.
    pub fn idle() -> (s: InputSnapshot)
        ensures
            s == (InputSnapshot {
                left_held: false,
                right_held: false,
                jump_just_pressed: false,
                discard_just_pressed: false,
            }),
    {
        InputSnapshot {
            left_held: false,
            right_held: false,
            jump_just_pressed: false,
            discard_just_pressed: false,
        }
    }
}

} // verus!
