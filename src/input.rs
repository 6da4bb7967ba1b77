use vstd::prelude::*;

verus! {

/// One tick's view of the keyboard, sampled once and shared by every behaviour of
/// that tick. Each direction stands for all of its key aliases: a direction is held
/// when any of its keys is held, pressed or released when any of them saw that edge
/// during the tick.
#[derive(Clone, Copy, Debug, PartialEq, Eq)]
pub struct InputSnapshot {
    pub left_held: bool,
    pub right_held: bool,
    pub left_pressed: bool,
    pub right_pressed: bool,
    pub left_released: bool,
    pub right_released: bool,
    /// Rising edge of the jump trigger.
    pub jump_pressed: bool,
}

impl InputSnapshot {
    /// Some movement key is held.
    pub open spec fn movement_held(self) -> bool {
        self.left_held || self.right_held
    }

    /// Some movement key was pressed during the tick.
    pub open spec fn movement_pressed(self) -> bool {
        self.left_pressed || self.right_pressed
    }

    /// Some movement key was released during the tick and none is held any more.
    pub open spec fn movement_stopped(self) -> bool {
        (self.left_released || self.right_released) && !self.movement_held()
    }

    /// A snapshot with no key held and no edge seen.
    pub fn idle() -> (r: InputSnapshot)
        ensures
            !r.left_held && !r.right_held && !r.left_pressed && !r.right_pressed,
            !r.left_released && !r.right_released && !r.jump_pressed,
    {
        InputSnapshot {
            left_held: false,
            right_held: false,
            left_pressed: false,
            right_pressed: false,
            left_released: false,
            right_released: false,
            jump_pressed: false,
        }
    }
}

} // verus!
