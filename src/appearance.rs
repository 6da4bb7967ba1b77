use crate::input::InputSnapshot;
use vstd::prelude::*;

verus! {

/// The sprite sheets that the character is drawn from.
#[derive(Clone, Copy, Debug, PartialEq, Eq, Structural)]
pub enum Sheet {
    Idle,
    Run,
    Jump,
}

/// Which of two competing switches wins in a tick that both stops all movement and
/// presses jump.
#[derive(Clone, Copy, Debug, PartialEq, Eq, Structural)]
pub enum SheetPolicy {
    /// Stopping movement selects the idle sheet; the jump press is ignored.
    StopFirst,
    /// The jump press selects the jump sheet; stopping movement is ignored.
    JumpFirst,
}

/// The sheet that a tick switches to, if any. Pressing a movement key selects the run
/// sheet; stopping all movement selects the idle sheet and a jump press the jump sheet,
/// and either of those overrides the run sheet, in the order that `policy` gives.
pub open spec fn switch_of(input: InputSnapshot, policy: SheetPolicy) -> Option<Sheet> {
    let stop = input.movement_stopped();
    let jump = input.jump_pressed;
    if stop && (policy == SheetPolicy::StopFirst || !jump) {
        Some(Sheet::Idle)
    } else if jump {
        Some(Sheet::Jump)
    } else if input.movement_pressed() {
        Some(Sheet::Run)
    } else {
        None
    }
}

/// Whether the character faces left after a tick that began with `flipped`. Pressing
/// left turns it left; pressing right while left is not held turns it right; releasing
/// left while right stays held turns it right; otherwise the facing is kept.
pub open spec fn facing_of(input: InputSnapshot, flipped: bool) -> bool {
    if input.left_pressed {
        true
    } else if input.right_pressed && !input.left_held {
        false
    } else if input.left_released && !input.left_held && input.right_held {
        false
    } else {
        flipped
    }
}

/// The sheet switch that this tick's input calls for, or `None` to keep the sheet.
pub fn sheet_switch(input: &InputSnapshot, policy: SheetPolicy) -> (r: Option<Sheet>)
    ensures
        r == switch_of(*input, policy),
{
    let stop: bool = (input.left_released || input.right_released) && !(input.left_held
        || input.right_held);
    let jump: bool = input.jump_pressed;
    let stop_wins: bool = match policy {
        SheetPolicy::StopFirst => true,
        SheetPolicy::JumpFirst => !jump,
    };
    if stop && stop_wins {
        Some(Sheet::Idle)
    } else if jump {
        Some(Sheet::Jump)
    } else if input.left_pressed || input.right_pressed {
        Some(Sheet::Run)
    } else {
        None
    }
}

/// The facing flag after this tick's input.
pub fn facing(input: &InputSnapshot, flipped: bool) -> (r: bool)
    ensures
        r == facing_of(*input, flipped),
{
    if input.left_pressed {
        true
    } else if input.right_pressed && !input.left_held {
        false
    } else if input.left_released && !input.left_held && input.right_held {
        false
    } else {
        flipped
    }
}

} // verus!
