use sidescroller::animation::AnimationClock;
use sidescroller::appearance::{facing, sheet_switch, Sheet, SheetPolicy};
use sidescroller::character::{Character, JumpState, Tuning, SHEET_FRAMES};
use sidescroller::input::InputSnapshot;

fn tuning(move_speed: u32, jump_speed: u32, fall_speed: u32) -> Tuning {
    Tuning { move_speed, jump_speed, fall_speed }
}

#[test]
fn spawned_character_is_idle_at_origin() {
    let c = Character::new();
    assert_eq!((c.x, c.y), (0, 0));
    assert_eq!(c.sheet, Sheet::Idle);
    assert_eq!(c.clock.index, 0);
    assert_eq!(c.clock.frame_len, 8);
    assert_eq!(c.clock.frame_time, 50_000);
    assert_eq!(c.jump, JumpState::Grounded);
    assert!(!c.flipped);
}

#[test]
fn holding_right_for_one_second_runs_right() {
    let mut c = Character::new();
    let t = tuning(100, 180, 130);
    let mut input = InputSnapshot::idle();
    input.right_held = true;
    input.right_pressed = true;
    for tick in 0..60 {
        if tick == 1 {
            input.right_pressed = false;
        }
        c.tick(&input, 16_667, t, SheetPolicy::StopFirst);
    }
    // 100 units/s * 16_667 us * 60 ticks, in micro-units: about 100 units.
    assert_eq!(c.x, 100_002_000);
    assert!((c.x - 100_000_000).abs() < 10_000);
    assert_eq!(c.sheet, Sheet::Run);
    assert!(!c.flipped);
    assert_eq!(c.y, 0);
}

#[test]
fn first_jump_tick_rises_by_bounded_decay() {
    let mut c = Character::new();
    let t = tuning(100, 180, 130);
    let mut input = InputSnapshot::idle();
    input.jump_pressed = true;
    let switch = c.tick(&input, 100_000, t, SheetPolicy::StopFirst);
    assert_eq!(switch, Some(Sheet::Jump));
    assert_eq!(c.jump, JumpState::Jumping { velocity: 154_000_000 });
    assert_eq!(c.y, 26_000_000);
}

#[test]
fn slow_tick_catches_up_two_frames() {
    let mut clock = AnimationClock::new(8, 50_000);
    clock.tick(120_000);
    assert_eq!(clock.index, 2);
    assert_eq!(clock.elapsed, 20_000);
}

#[test]
fn releasing_all_movement_switches_to_idle() {
    let mut c = Character::new();
    c.sheet = Sheet::Run;
    let mut input = InputSnapshot::idle();
    input.left_released = true;
    let switch = c.tick(&input, 16_667, Tuning::standard(), SheetPolicy::StopFirst);
    assert_eq!(switch, Some(Sheet::Idle));
    assert_eq!(c.sheet, Sheet::Idle);
    assert_eq!(c.clock.frame_len, 8);
}

#[test]
fn left_and_right_held_moves_left() {
    let mut c = Character::new();
    let mut input = InputSnapshot::idle();
    input.left_held = true;
    input.right_held = true;
    c.move_horizontal(&input, 220, 10_000);
    assert_eq!(c.x, -2_200_000);
    c.tick(&input, 10_000, Tuning::standard(), SheetPolicy::StopFirst);
    assert_eq!(c.x, -4_400_000);
}

#[test]
fn no_key_held_keeps_x() {
    let mut c = Character::new();
    c.move_horizontal(&InputSnapshot::idle(), 220, 10_000);
    assert_eq!(c.x, 0);
}

#[test]
fn clock_result_does_not_depend_on_tick_split() {
    let mut a = AnimationClock::new(8, 50_000);
    for dt in [60_000u32, 30_000, 30_000, 7_000] {
        a.tick(dt);
    }
    let mut b = AnimationClock::new(8, 50_000);
    b.tick(127_000);
    let mut c = AnimationClock::new(8, 50_000);
    for _ in 0..127 {
        c.tick(1_000);
    }
    assert_eq!(a, b);
    assert_eq!(b, c);
    assert_eq!(b.index, 2);
    assert_eq!(b.elapsed, 27_000);
}

#[test]
fn clock_wraps_modulo_frame_len() {
    let mut clock = AnimationClock::new(8, 50_000);
    clock.index = 7;
    clock.tick(60_000);
    assert_eq!(clock.index, 0);
    assert_eq!(clock.elapsed, 10_000);
    clock.tick(50_000 * 20 + 1);
    assert_eq!(clock.index, 4);
    assert_eq!(clock.elapsed, 10_001);
}

#[test]
fn clock_waits_until_frame_time_is_exceeded() {
    let mut clock = AnimationClock::new(8, 50_000);
    clock.tick(30_000);
    assert_eq!((clock.index, clock.elapsed), (0, 30_000));
    clock.tick(20_000);
    assert_eq!((clock.index, clock.elapsed), (0, 50_000));
    clock.tick(1);
    assert_eq!((clock.index, clock.elapsed), (1, 1));
}

#[test]
fn jump_velocity_decays_to_zero_and_lands() {
    let mut c = Character::new();
    c.jump = JumpState::Jumping { velocity: 180_000_000 };
    let mut last = 180_000_000u64;
    let mut ticks = 0;
    while let JumpState::Jumping { velocity } = c.jump {
        assert!(velocity <= last);
        last = velocity;
        c.ascend(300, 16_667);
        ticks += 1;
        assert!(ticks <= 18);
    }
    assert_eq!(ticks, 18);
    assert_eq!(c.y, 180_000_000);
}

#[test]
fn ascent_on_ground_does_nothing() {
    let mut c = Character::new();
    c.y = 5;
    c.ascend(300, 16_667);
    assert_eq!(c.y, 5);
    assert_eq!(c.jump, JumpState::Grounded);
}

#[test]
fn fall_drops_and_clamps_at_ground() {
    let mut c = Character::new();
    c.y = 10_000_000;
    c.fall(300, 16_667);
    assert_eq!(c.y, 4_999_900);
    c.fall(300, 16_667);
    assert_eq!(c.y, 0);
    c.fall(300, 16_667);
    assert_eq!(c.y, 0);
    c.fall(300, 0);
    assert_eq!(c.y, 0);
}

#[test]
fn jump_press_while_jumping_is_ignored() {
    let mut c = Character::new();
    c.jump = JumpState::Jumping { velocity: 7 };
    let mut input = InputSnapshot::idle();
    input.jump_pressed = true;
    c.start_jump(&input, 180);
    assert_eq!(c.jump, JumpState::Jumping { velocity: 7 });
    let mut g = Character::new();
    g.start_jump(&input, 180);
    assert_eq!(g.jump, JumpState::Jumping { velocity: 180_000_000 });
}

#[test]
fn full_jump_returns_to_ground() {
    let mut c = Character::new();
    let t = Tuning::standard();
    let mut input = InputSnapshot::idle();
    input.jump_pressed = true;
    c.tick(&input, 16_667, t, SheetPolicy::StopFirst);
    let idle = InputSnapshot::idle();
    let mut peak = c.y;
    for _ in 0..200 {
        c.tick(&idle, 16_667, t, SheetPolicy::StopFirst);
        assert!(c.y >= 0);
        peak = peak.max(c.y);
    }
    assert_eq!(peak, 180_000_000);
    assert_eq!(c.y, 0);
    assert_eq!(c.jump, JumpState::Grounded);
}

#[test]
fn stop_and_jump_together_follow_policy() {
    let mut input = InputSnapshot::idle();
    input.right_released = true;
    input.jump_pressed = true;
    assert_eq!(sheet_switch(&input, SheetPolicy::StopFirst), Some(Sheet::Idle));
    assert_eq!(sheet_switch(&input, SheetPolicy::JumpFirst), Some(Sheet::Jump));
}

#[test]
fn sheet_switch_cases() {
    let mut input = InputSnapshot::idle();
    assert_eq!(sheet_switch(&input, SheetPolicy::StopFirst), None);
    input.left_pressed = true;
    input.left_held = true;
    assert_eq!(sheet_switch(&input, SheetPolicy::StopFirst), Some(Sheet::Run));
    // A release while another movement key stays held is no stop.
    let mut still = InputSnapshot::idle();
    still.right_released = true;
    still.left_held = true;
    assert_eq!(sheet_switch(&still, SheetPolicy::StopFirst), None);
    assert_eq!(sheet_switch(&still, SheetPolicy::JumpFirst), None);
}

#[test]
fn facing_follows_direction_edges() {
    let mut input = InputSnapshot::idle();
    input.left_pressed = true;
    input.right_pressed = true;
    assert!(facing(&input, false));
    let mut right = InputSnapshot::idle();
    right.right_pressed = true;
    assert!(!facing(&right, true));
    right.left_held = true;
    assert!(facing(&right, true));
    let mut back = InputSnapshot::idle();
    back.left_released = true;
    back.right_held = true;
    assert!(!facing(&back, true));
    back.right_held = false;
    assert!(facing(&back, true));
    assert!(!facing(&InputSnapshot::idle(), false));
}

#[test]
fn sheet_switch_keeps_index_inside_sheet() {
    let mut c = Character::new();
    c.clock = AnimationClock { index: 10, frame_len: 12, frame_time: 50_000, elapsed: 0 };
    let mut input = InputSnapshot::idle();
    input.right_pressed = true;
    assert_eq!(c.restyle(&input, SheetPolicy::StopFirst), Some(Sheet::Run));
    assert_eq!(c.clock.frame_len, SHEET_FRAMES);
    assert_eq!(c.clock.index, 2);
    assert_eq!(c.sheet, Sheet::Run);
}

#[test]
fn standard_tuning_values() {
    assert_eq!(Tuning::standard(), tuning(220, 180, 300));
}

#[test]
fn can_tick_rejects_overflowing_moves() {
    let c = Character::new();
    let mut input = InputSnapshot::idle();
    assert!(c.can_tick(&input, 16_667, Tuning::standard()));
    let mut edge = Character::new();
    edge.x = i64::MIN + 10;
    input.left_held = true;
    assert!(!edge.can_tick(&input, 16_667, Tuning::standard()));
    let mut high = Character::new();
    high.y = i64::MAX - 10;
    high.jump = JumpState::Jumping { velocity: 1_000 };
    assert!(!high.can_tick(&InputSnapshot::idle(), 16_667, Tuning::standard()));
    let mut broken = Character::new();
    broken.y = -1;
    assert!(!broken.can_tick(&InputSnapshot::idle(), 16_667, Tuning::standard()));
}
