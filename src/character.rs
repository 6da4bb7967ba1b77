use crate::animation::AnimationClock;
use crate::appearance::{facing, facing_of, sheet_switch, switch_of, Sheet, SheetPolicy};
use crate::input::InputSnapshot;
use vstd::prelude::*;

verus! {

/// Frames in every sprite sheet of the character.
pub const SHEET_FRAMES: usize = 8;

/// How long each animation frame is shown: a twentieth of a second.
pub const FRAME_MICROS: u32 = 50000;

/// Micro-units in one world unit.
pub const MICROS_PER_UNIT: u64 = 1000000;

/// The hand-tuned speeds of the character, in world units per second.
#[derive(Clone, Copy, Debug, PartialEq, Eq)]
pub struct Tuning {
    /// Horizontal walking speed.
    pub move_speed: u32,
    /// Launch speed of a jump.
    pub jump_speed: u32,
    /// Rate at which a jump's velocity decays, and speed of the fall back to the ground.
    pub fall_speed: u32,
}

impl Tuning {
    /// The speeds the character ships with.
    pub fn standard() -> (r: Tuning)
        ensures
            r == (Tuning { move_speed: 220, jump_speed: 180, fall_speed: 300 }),
    {
        Tuning { move_speed: 220, jump_speed: 180, fall_speed: 300 }
    }
}

/// Vertical state: on the ground (or falling back to it), or rising with the upward
/// velocity that is left, in micro-units.
#[derive(Clone, Copy, Debug, PartialEq, Eq, Structural)]
pub enum JumpState {
    Grounded,
    Jumping { velocity: u64 },
}

/// Upward velocity that is left; zero on the ground.
pub open spec fn velocity_of(jump: JumpState) -> nat {
    match jump {
        JumpState::Grounded => 0,
        JumpState::Jumping { velocity } => velocity as nat,
    }
}

/// Horizontal displacement of one tick, in micro-units. Left wins over right.
pub open spec fn shift_of(input: InputSnapshot, speed: u32, dt: u32) -> int {
    if input.left_held {
        -(speed * dt)
    } else if input.right_held {
        speed * dt
    } else {
        0
    }
}

/// The vertical state after a possible jump start: a jump press on the ground launches
/// the character at `jump_speed`; otherwise nothing changes.
pub open spec fn launched(jump: JumpState, input: InputSnapshot, jump_speed: u32) -> JumpState {
    if input.jump_pressed && jump == JumpState::Grounded {
        JumpState::Jumping { velocity: (jump_speed * MICROS_PER_UNIT) as u64 }
    } else {
        jump
    }
}

/// What one tick of ascent takes from the velocity and adds to the height: twice the
/// fall speed times the tick length, but never more than the velocity that is left.
pub open spec fn rise_of(jump: JumpState, fall_speed: u32, dt: u32) -> nat {
    let decay = 2 * fall_speed * dt;
    if decay < velocity_of(jump) {
        decay as nat
    } else {
        velocity_of(jump)
    }
}

/// The vertical state after one tick of ascent; a jump whose velocity reaches zero ends.
pub open spec fn ascended(jump: JumpState, fall_speed: u32, dt: u32) -> JumpState {
    let left = velocity_of(jump) - rise_of(jump, fall_speed, dt);
    if jump == JumpState::Grounded || left == 0 {
        JumpState::Grounded
    } else {
        JumpState::Jumping { velocity: left as u64 }
    }
}

/// The vertical state after `n` ticks of ascent of length `dt`.
pub open spec fn ascended_n(jump: JumpState, fall_speed: u32, dt: u32, n: nat) -> JumpState
    decreases n,
{
    if n == 0 {
        jump
    } else {
        ascended_n(ascended(jump, fall_speed, dt), fall_speed, dt, (n - 1) as nat)
    }
}

/// Height after one tick of falling: above the ground it drops by the fall speed times
/// the tick length, stopping at the ground; at or below the ground it stays.
pub open spec fn fallen_y(y: int, fall_speed: u32, dt: u32) -> int {
    if y > 0 {
        if y - fall_speed * dt < 0 {
            0
        } else {
            y - fall_speed * dt
        }
    } else {
        y
    }
}

proof fn lemma_product_fits(a: u32, b: u32)
    ensures
        0 <= a * b <= u32::MAX * u32::MAX,
        2 * a * b == 2 * (a * b),
{
    assert(0 <= a * b <= u32::MAX * u32::MAX) by (nonlinear_arith);
    assert(2 * a * b == 2 * (a * b)) by (nonlinear_arith);
}

/// While jumping, the velocity never grows from one tick of ascent to the next.
pub proof fn lemma_jump_velocity_never_grows(jump: JumpState, fall_speed: u32, dt: u32, n: nat)
    ensures
        velocity_of(ascended_n(jump, fall_speed, dt, n + 1)) <= velocity_of(
            ascended_n(jump, fall_speed, dt, n),
        ),
    decreases n,
{
    if n > 0 {
        lemma_jump_velocity_never_grows(ascended(jump, fall_speed, dt), fall_speed, dt, (n - 1) as nat);
    } else {
        reveal_with_fuel(ascended_n, 2);
    }
}

/// With a positive fall speed and a fixed positive tick length, a jump launched with
/// velocity `v` has ended, with the velocity exactly zero, after any number `n >= 1` of
/// ticks whose combined decay `n * 2 * fall_speed * dt` covers `v`.
pub proof fn lemma_jump_lands(v: u64, fall_speed: u32, dt: u32, n: nat)
    requires
        fall_speed > 0,
        dt > 0,
        n >= 1,
        n * (2 * fall_speed * dt) >= v,
    ensures
        ascended_n(JumpState::Jumping { velocity: v }, fall_speed, dt, n) == JumpState::Grounded,
    decreases n,
{
    let d = 2 * fall_speed * dt;
    let jump = JumpState::Jumping { velocity: v };
    if v <= d {
        assert(ascended(jump, fall_speed, dt) == JumpState::Grounded);
        lemma_grounded_stays(fall_speed, dt, (n - 1) as nat);
    } else {
        assert(n > 1) by (nonlinear_arith)
            requires
                n >= 1,
                n * d >= v,
                v > d,
        ;
        assert((n - 1) * d >= v - d) by (nonlinear_arith)
            requires
                n * d >= v,
        ;
        assert(ascended(jump, fall_speed, dt) == JumpState::Jumping { velocity: (v - d) as u64 });
        lemma_jump_lands((v - d) as u64, fall_speed, dt, (n - 1) as nat);
    }
}

proof fn lemma_grounded_stays(fall_speed: u32, dt: u32, n: nat)
    ensures
        ascended_n(JumpState::Grounded, fall_speed, dt, n) == JumpState::Grounded,
    decreases n,
{
    if n > 0 {
        lemma_grounded_stays(fall_speed, dt, (n - 1) as nat);
    }
}

/// Falling never takes the character below the ground, whatever the tick length, from
/// any height at or above it.
pub proof fn lemma_fall_never_below_ground(y: int, fall_speed: u32, dt: u32)
    requires
        y >= 0,
    ensures
        fallen_y(y, fall_speed, dt) >= 0,
{
}

/// With left and right both held, the character moves left.
pub proof fn lemma_left_wins(input: InputSnapshot, speed: u32, dt: u32)
    requires
        input.left_held,
        input.right_held,
    ensures
        shift_of(input, speed, dt) == -(speed * dt),
{
}

/// The one character of the game. Positions are in micro-units, with the ground at
/// `y == 0`; `flipped` means facing left.
#[derive(Clone, Copy, Debug, PartialEq, Eq)]
pub struct Character {
    pub x: i64,
    pub y: i64,
    pub flipped: bool,
    pub sheet: Sheet,
    pub clock: AnimationClock,
    pub jump: JumpState,
}

impl Character {
    /// Never below the ground, with a well-formed animation clock.
    pub open spec fn wf(self) -> bool {
        &&& self.y >= 0
        &&& self.clock.wf()
    }

    /// The character after a tick of horizontal movement.
    pub open spec fn moved(self, input: InputSnapshot, speed: u32, dt: u32) -> Character {
        Character { x: (self.x + shift_of(input, speed, dt)) as i64, ..self }
    }

    /// The character after a tick's sheet and facing selection.
    pub open spec fn restyled(self, input: InputSnapshot, policy: SheetPolicy) -> Character {
        let flipped = facing_of(input, self.flipped);
        match switch_of(input, policy) {
            Some(sheet) => Character {
                flipped,
                sheet,
                clock: AnimationClock {
                    index: self.clock.index % SHEET_FRAMES,
                    frame_len: SHEET_FRAMES,
                    ..self.clock
                },
                ..self
            },
            None => Character { flipped, ..self },
        }
    }

    /// The character after a tick of vertical motion: ascent while jumping, else falling.
    pub open spec fn lifted(self, fall_speed: u32, dt: u32) -> Character {
        match self.jump {
            JumpState::Jumping { .. } => Character {
                y: (self.y + rise_of(self.jump, fall_speed, dt)) as i64,
                jump: ascended(self.jump, fall_speed, dt),
                ..self
            },
            JumpState::Grounded => Character { y: fallen_y(self.y as int, fall_speed, dt) as i64, ..self },
        }
    }

    /// The character after one whole tick: animation, horizontal movement, jump start,
    /// sheet and facing, then ascent or fall.
    pub open spec fn ticked(
        self,
        input: InputSnapshot,
        dt: u32,
        tuning: Tuning,
        policy: SheetPolicy,
    ) -> Character {
        let animated = Character { clock: self.clock.stepped(dt), ..self };
        let moved = animated.moved(input, tuning.move_speed, dt);
        let started = Character { jump: launched(moved.jump, input, tuning.jump_speed), ..moved };
        started.restyled(input, policy).lifted(tuning.fall_speed, dt)
    }

    /// Whether a tick of `dt` with this input keeps both coordinates inside `i64`.
    pub open spec fn tick_fits(self, input: InputSnapshot, dt: u32, tuning: Tuning) -> bool {
        &&& i64::MIN <= self.x + shift_of(input, tuning.move_speed, dt) <= i64::MAX
        &&& self.y + rise_of(launched(self.jump, input, tuning.jump_speed), tuning.fall_speed, dt)
            <= i64::MAX
    }

    /// The character as spawned: at the origin, on the ground, facing right, on frame 0
    /// of the idle sheet.
    pub fn new() -> (r: Character)
        ensures
            r.wf(),
            r == (Character {
                x: 0,
                y: 0,
                flipped: false,
                sheet: Sheet::Idle,
                clock: AnimationClock {
                    index: 0,
                    frame_len: SHEET_FRAMES,
                    frame_time: FRAME_MICROS,
                    elapsed: 0,
                },
                jump: JumpState::Grounded,
            }),
    {
        Character {
            x: 0,
            y: 0,
            flipped: false,
            sheet: Sheet::Idle,
            clock: AnimationClock::new(SHEET_FRAMES, FRAME_MICROS),
            jump: JumpState::Grounded,
        }
    }

    /// Moves left by `speed * dt` while left is held, else right while right is held.
    pub fn move_horizontal(&mut self, input: &InputSnapshot, speed: u32, dt: u32)
        requires
            i64::MIN <= old(self).x + shift_of(*input, speed, dt) <= i64::MAX,
        ensures
            *final(self) == old(self).moved(*input, speed, dt),
            input.left_held ==> final(self).x == old(self).x - speed * dt,
    {
        proof {
            lemma_product_fits(speed, dt);
        }
        let d: i128 = speed as i128 * dt as i128;
        if input.left_held {
            self.x = (self.x as i128 - d) as i64;
        } else if input.right_held {
            self.x = (self.x as i128 + d) as i64;
        }
    }

    /// Launches a jump at `jump_speed` on a jump press, unless already jumping.
    pub fn start_jump(&mut self, input: &InputSnapshot, jump_speed: u32)
        ensures
            *final(self) == (Character {
                jump: launched(old(self).jump, *input, jump_speed),
                ..*old(self)
            }),
    {
        if input.jump_pressed {
            if let JumpState::Grounded = self.jump {
                self.jump = JumpState::Jumping { velocity: jump_speed as u64 * MICROS_PER_UNIT };
            }
        }
    }

    /// Applies this tick's sheet switch and facing, and returns the switch, if any. A
    /// switch sets the sheet length and keeps the frame index inside it.
    pub fn restyle(&mut self, input: &InputSnapshot, policy: SheetPolicy) -> (r: Option<Sheet>)
        ensures
            r == switch_of(*input, policy),
            *final(self) == old(self).restyled(*input, policy),
    {
        self.flipped = facing(input, self.flipped);
        let switch = sheet_switch(input, policy);
        if let Some(sheet) = switch {
            self.sheet = sheet;
            self.clock.frame_len = SHEET_FRAMES;
            self.clock.index = self.clock.index % SHEET_FRAMES;
        }
        switch
    }

    /// One tick of ascent: takes the rise from the velocity and adds it to the height,
    /// ending the jump when the velocity reaches zero. Does nothing on the ground.
    pub fn ascend(&mut self, fall_speed: u32, dt: u32)
        requires
            old(self).y + rise_of(old(self).jump, fall_speed, dt) <= i64::MAX,
        ensures
            final(self).y == old(self).y + rise_of(old(self).jump, fall_speed, dt),
            final(self).jump == ascended(old(self).jump, fall_speed, dt),
            velocity_of(final(self).jump) <= velocity_of(old(self).jump),
            *final(self) == (Character { y: final(self).y, jump: final(self).jump, ..*old(self) }),
    {
        if let JumpState::Jumping { velocity } = self.jump {
            proof {
                lemma_product_fits(fall_speed, dt);
            }
            let decay: u128 = 2 * ((fall_speed as u128) * (dt as u128));
            assert(decay == 2 * fall_speed * dt);
            let rise: u64 = if decay < velocity as u128 {
                decay as u64
            } else {
                velocity
            };
            assert(rise == rise_of(self.jump, fall_speed, dt));
            let left: u64 = velocity - rise;
            self.y = (self.y as i128 + rise as i128) as i64;
            if left == 0 {
                self.jump = JumpState::Grounded;
            } else {
                self.jump = JumpState::Jumping { velocity: left };
            }
        }
    }

    /// One tick of falling: above the ground, drops by `fall_speed * dt`, stopping at the
    /// ground.
    pub fn fall(&mut self, fall_speed: u32, dt: u32)
        ensures
            final(self).y == fallen_y(old(self).y as int, fall_speed, dt),
            old(self).y >= 0 ==> final(self).y >= 0,
            *final(self) == (Character { y: final(self).y, ..*old(self) }),
    {
        if self.y > 0 {
            proof {
                lemma_product_fits(fall_speed, dt);
            }
            let d: i128 = fall_speed as i128 * dt as i128;
            let next: i128 = self.y as i128 - d;
            if next < 0 {
                self.y = 0;
            } else {
                self.y = next as i64;
            }
        }
    }

    /// Whether `tick` may run on this character with these arguments: it is well formed
    /// and both coordinates stay inside `i64`.
    pub fn can_tick(&self, input: &InputSnapshot, dt: u32, tuning: Tuning) -> (r: bool)
        ensures
            r == (self.wf() && self.tick_fits(*input, dt, tuning)),
    {
        let clock = self.clock;
        if !(self.y >= 0 && clock.frame_len > 0 && clock.frame_time > 0 && clock.index
            < clock.frame_len && clock.elapsed <= clock.frame_time as u64) {
            return false;
        }
        proof {
            lemma_product_fits(tuning.move_speed, dt);
            lemma_product_fits(tuning.fall_speed, dt);
        }
        let d: i128 = tuning.move_speed as i128 * dt as i128;
        let x: i128 = if input.left_held {
            self.x as i128 - d
        } else if input.right_held {
            self.x as i128 + d
        } else {
            self.x as i128
        };
        if x < i64::MIN as i128 || x > i64::MAX as i128 {
            return false;
        }
        let velocity: u64 = match self.jump {
            JumpState::Jumping { velocity } => velocity,
            JumpState::Grounded => if input.jump_pressed {
                tuning.jump_speed as u64 * MICROS_PER_UNIT
            } else {
                0
            },
        };
        let decay: u128 = 2 * ((tuning.fall_speed as u128) * (dt as u128));
        let rise: u128 = if decay < velocity as u128 {
            decay
        } else {
            velocity as u128
        };
        proof {
            assert(rise == rise_of(launched(self.jump, *input, tuning.jump_speed), tuning.fall_speed, dt));
        }
        (self.y as i128 + rise as i128) <= i64::MAX as i128
    }

    /// One whole tick of `dt` microseconds: advances the animation, moves, starts a jump
    /// on a jump press, selects sheet and facing, then ascends while jumping or else
    /// falls. Returns the sheet switch of the tick, if any, so that the new sheet's
    /// image can be loaded.
    pub fn tick(
        &mut self,
        input: &InputSnapshot,
        dt: u32,
        tuning: Tuning,
        policy: SheetPolicy,
    ) -> (r: Option<Sheet>)
        requires
            old(self).wf(),
            old(self).tick_fits(*input, dt, tuning),
        ensures
            final(self).wf(),
            *final(self) == old(self).ticked(*input, dt, tuning, policy),
            r == switch_of(*input, policy),
    {
        self.clock.tick(dt);
        self.move_horizontal(input, tuning.move_speed, dt);
        self.start_jump(input, tuning.jump_speed);
        let switch = self.restyle(input, policy);
        match self.jump {
            JumpState::Jumping { .. } => self.ascend(tuning.fall_speed, dt),
            JumpState::Grounded => self.fall(tuning.fall_speed, dt),
        }
        switch
    }
}

} // verus!
