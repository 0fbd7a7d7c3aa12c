use shooter_core::control_scheme::{ControlButton, ControlScheme, InputEvent};
use shooter_core::handle::Handle;
use shooter_core::level::UpdateContext;
use shooter_core::math::{GameTime, Offset, Vector3};
use shooter_core::message::{Message, ProjectileKind};
use shooter_core::player::lower_body::{LowerBodyMachine, LowerBodyMachineInput};
use shooter_core::player::upper_body::UpperBodyMachine;
use shooter_core::player::{
    camera_distance, grenade, has_ground_contact, model_yaw, smooth_run_factor, speed, steering,
    CameraBob, CameraHit, ClipRequests, ClipStates, Commands, Direction, InputController, Player,
    Senses, Steering,
};

fn h(i: u32) -> Handle {
    Handle::new(i, 1)
}

fn bindings() -> ControlScheme {
    ControlScheme {
        move_forward: ControlButton::Key(17),
        move_backward: ControlButton::Key(31),
        move_left: ControlButton::Key(30),
        move_right: ControlButton::Key(32),
        jump: ControlButton::Key(57),
        shoot: ControlButton::Mouse(1),
        next_weapon: ControlButton::WheelUp,
        prev_weapon: ControlButton::WheelDown,
        run: ControlButton::Key(42),
        aim: ControlButton::Mouse(3),
        toss_grenade: ControlButton::Key(34),
        mouse_sens: 300,
    }
}

fn press(button: ControlButton) -> InputEvent {
    InputEvent::Button { button, pressed: true }
}

fn release(button: ControlButton) -> InputEvent {
    InputEvent::Button { button, pressed: false }
}

fn no_clips() -> ClipStates {
    ClipStates {
        jump_ended: false,
        land_ended: false,
        toss_grenade_ended: false,
        put_back_ended: false,
        grab_ended: false,
    }
}

fn on_ground() -> Senses {
    Senses {
        contact_normals: vec![1000],
        camera_hits: vec![],
        weapon_pivot_position: Vector3::new(10, 1500, 20),
        camera_look: Vector3::new(0, 0, 1000),
        clips: no_clips(),
    }
}

fn in_air() -> Senses {
    Senses { contact_normals: vec![], ..on_ground() }
}

fn tick(p: &mut Player, delta: u32, s: &Senses) -> Commands {
    p.update(&UpdateContext { time: GameTime { elapsed: 0, delta }, navmesh: false }, s)
}

fn armed_player(weapons: u32) -> Player {
    let mut p = Player::new(bindings());
    let mut outbox = vec![];
    for i in 0..weapons {
        p.character.add_weapon(h(10 + i), &mut outbox);
    }
    p
}

#[test]
fn a_new_player() {
    let p = Player::new(bindings());
    assert_eq!(p.character.health, 100_000);
    assert_eq!(p.move_speed, 650);
    assert_eq!(p.weapon_change_direction, Direction::Stay);
    assert_eq!(p.run_factor, 0);
    assert_eq!(p.in_air_time, 0);
    assert_eq!(p.controller, InputController::new());
    assert!(!p.can_be_removed());
    assert_eq!(p.lower_body_machine.active_state(), LowerBodyMachine::IDLE_STATE);
    assert_eq!(p.upper_body_machine.active_state(), UpperBodyMachine::IDLE_STATE);
}

#[test]
fn a_dead_player_can_be_removed() {
    let mut p = Player::new(bindings());
    p.character.damage(99_999);
    assert!(!p.can_be_removed());
    p.character.damage(1);
    assert!(p.can_be_removed());
}

#[test]
fn ground_is_a_contact_steeper_than_seven_tenths() {
    assert!(!has_ground_contact(&vec![]));
    assert!(!has_ground_contact(&vec![700, -1000, 0]));
    assert!(has_ground_contact(&vec![0, 701]));
    assert!(has_ground_contact(&vec![1000]));
}

#[test]
fn weapon_switch_waits_for_the_grab_signal() {
    let mut p = armed_player(3);
    let mut outbox = vec![];
    p.character.set_current_weapon(0, &mut outbox);
    assert_eq!(p.character.current_weapon, 0);
    assert_eq!(p.character.weapons.len(), 3);

    let r = p.process_input_event(&InputEvent::Wheel { delta: -1 }, 16);
    assert_eq!(r, ClipRequests { begin_weapon_change: false, rewind_toss_grenade: false });
    assert_eq!(p.weapon_change_direction, Direction::Stay);
    assert_eq!(p.character.current_weapon, 0);

    let r = p.process_input_event(&InputEvent::Wheel { delta: 1 }, 16);
    assert_eq!(r, ClipRequests { begin_weapon_change: true, rewind_toss_grenade: false });
    assert_eq!(p.weapon_change_direction, Direction::Next);
    assert_eq!(p.character.current_weapon, 0);

    for _ in 0..5 {
        let c = tick(&mut p, 16, &on_ground());
        assert!(c.messages.is_empty());
        assert_eq!(p.character.current_weapon, 0);
        assert_eq!(p.weapon_change_direction, Direction::Next);
    }
    assert_eq!(p.upper_body_machine.active_transition(), Some(0));

    p.upper_body_machine.grab_signals.push(UpperBodyMachine::GRAB_WEAPON_SIGNAL);
    let c = tick(&mut p, 16, &on_ground());
    assert_eq!(p.character.current_weapon, 1);
    assert_eq!(p.weapon_change_direction, Direction::Stay);
    assert_eq!(
        c.messages,
        vec![
            Message::ShowWeapon { weapon: h(10), state: false },
            Message::ShowWeapon { weapon: h(11), state: true },
            Message::ShowWeapon { weapon: h(12), state: false },
        ]
    );
    assert!(p.upper_body_machine.grab_signals.is_empty());
}

#[test]
fn a_grab_signal_without_a_request_changes_nothing() {
    let mut p = armed_player(3);
    p.upper_body_machine.grab_signals.push(UpperBodyMachine::GRAB_WEAPON_SIGNAL);
    let c = tick(&mut p, 16, &on_ground());
    assert_eq!(p.character.current_weapon, 2);
    assert!(c.messages.is_empty());
    assert!(p.upper_body_machine.grab_signals.is_empty());
}

#[test]
fn two_grab_signals_switch_once() {
    let mut p = armed_player(3);
    p.process_input_event(&InputEvent::Wheel { delta: -1 }, 16);
    assert_eq!(p.weapon_change_direction, Direction::Previous);
    p.upper_body_machine.grab_signals.push(UpperBodyMachine::GRAB_WEAPON_SIGNAL);
    p.upper_body_machine.grab_signals.push(UpperBodyMachine::GRAB_WEAPON_SIGNAL);
    tick(&mut p, 16, &on_ground());
    assert_eq!(p.character.current_weapon, 1);
    assert_eq!(p.weapon_change_direction, Direction::Stay);
}

#[test]
fn next_weapon_is_refused_at_the_last_weapon_and_without_weapons() {
    let mut p = armed_player(3);
    let r = p.process_input_event(&InputEvent::Wheel { delta: 0 }, 16);
    assert!(!r.begin_weapon_change);
    assert_eq!(p.weapon_change_direction, Direction::Stay);
    let mut p = Player::new(bindings());
    assert!(!p.process_input_event(&InputEvent::Wheel { delta: 0 }, 16).begin_weapon_change);
    assert!(!p.process_input_event(&InputEvent::Wheel { delta: -1 }, 16).begin_weapon_change);
    assert_eq!(p.weapon_change_direction, Direction::Stay);
}

#[test]
fn releasing_a_weapon_button_asks_for_nothing() {
    let mut p = armed_player(3);
    let r = p.process_input_event(&release(ControlButton::WheelDown), 16);
    assert!(!r.begin_weapon_change);
    assert_eq!(p.weapon_change_direction, Direction::Stay);
}

#[test]
fn buttons_set_and_clear_the_controls() {
    let mut p = Player::new(bindings());
    p.process_input_event(&press(ControlButton::Key(17)), 16);
    p.process_input_event(&press(ControlButton::Key(30)), 16);
    p.process_input_event(&press(ControlButton::Key(42)), 16);
    p.process_input_event(&press(ControlButton::Mouse(3)), 16);
    p.process_input_event(&press(ControlButton::Mouse(1)), 16);
    p.process_input_event(&press(ControlButton::Key(57)), 16);
    p.process_input_event(&press(ControlButton::Key(1234)), 16);
    p.process_input_event(&InputEvent::Other, 16);
    let c = p.controller;
    assert!(c.walk_forward && c.walk_left && c.run && c.aim && c.shoot && c.jump);
    assert!(!c.walk_backward && !c.walk_right && !c.toss_grenade);
    p.process_input_event(&release(ControlButton::Key(17)), 16);
    p.process_input_event(&release(ControlButton::Mouse(3)), 16);
    assert!(!p.controller.walk_forward && !p.controller.aim && p.controller.walk_left);
    let r = p.process_input_event(&press(ControlButton::Key(34)), 16);
    assert_eq!(r, ClipRequests { begin_weapon_change: false, rewind_toss_grenade: true });
    assert!(p.controller.toss_grenade);
    let r = p.process_input_event(&release(ControlButton::Key(34)), 16);
    assert_eq!(r, ClipRequests { begin_weapon_change: false, rewind_toss_grenade: false });
    assert!(!p.controller.toss_grenade);
}

#[test]
fn the_mouse_turns_the_view_and_pitch_stops_at_ninety_degrees() {
    let mut p = Player::new(bindings());
    p.process_input_event(&InputEvent::MouseMotion { dx: 10, dy: -20 }, 16);
    assert_eq!(p.controller.yaw, -48);
    assert_eq!(p.controller.pitch, -96);
    p.process_input_event(&InputEvent::MouseMotion { dx: -1000, dy: 100_000 }, 1000);
    assert_eq!(p.controller.yaw, -48 + 300_000);
    assert_eq!(p.controller.pitch, 90_000);
    p.process_input_event(&InputEvent::MouseMotion { dx: 0, dy: i32::MIN }, u32::MAX);
    assert_eq!(p.controller.pitch, -90_000);
    p.controller.yaw = i64::MIN + 5;
    p.controller.look(i32::MAX, 0, u32::MAX, u32::MAX);
    assert_eq!(p.controller.yaw, i64::MIN);
    p.controller.yaw = i64::MAX - 5;
    p.controller.look(i32::MIN, 0, u32::MAX, u32::MAX);
    assert_eq!(p.controller.yaw, i64::MAX);
}

#[test]
fn the_model_turns_into_the_direction_of_the_walk() {
    let c = |aim, l, r, f, b| InputController {
        aim,
        walk_left: l,
        walk_right: r,
        walk_forward: f,
        walk_backward: b,
        ..InputController::new()
    };
    assert_eq!(model_yaw(&c(false, false, false, false, false)), 0);
    assert_eq!(model_yaw(&c(false, false, false, true, false)), 0);
    assert_eq!(model_yaw(&c(false, false, false, false, true)), 180_000);
    assert_eq!(model_yaw(&c(false, true, false, false, false)), 90_000);
    assert_eq!(model_yaw(&c(false, true, false, true, false)), 45_000);
    assert_eq!(model_yaw(&c(false, true, false, false, true)), 135_000);
    assert_eq!(model_yaw(&c(false, true, false, true, true)), 45_000);
    assert_eq!(model_yaw(&c(false, false, true, false, false)), -90_000);
    assert_eq!(model_yaw(&c(false, false, true, true, false)), -45_000);
    assert_eq!(model_yaw(&c(false, false, true, false, true)), -135_000);
    assert_eq!(model_yaw(&c(false, true, true, false, false)), 90_000);
    assert_eq!(model_yaw(&c(true, false, false, false, true)), 0);
    assert_eq!(model_yaw(&c(true, true, false, false, false)), 45_000);
    assert_eq!(model_yaw(&c(true, true, false, false, true)), -45_000);
    assert_eq!(model_yaw(&c(true, false, true, false, false)), -45_000);
    assert_eq!(model_yaw(&c(true, false, true, false, true)), 45_000);
    assert_eq!(model_yaw(&c(true, true, true, true, false)), 45_000);
}

#[test]
fn steering_adds_up_the_moves() {
    let c = |l, r, f, b| InputController {
        walk_left: l,
        walk_right: r,
        walk_forward: f,
        walk_backward: b,
        ..InputController::new()
    };
    assert_eq!(steering(&c(false, false, false, false)), Steering { side: 0, forward: 0 });
    assert_eq!(steering(&c(true, false, true, false)), Steering { side: 1, forward: 1 });
    assert_eq!(steering(&c(false, true, false, true)), Steering { side: -1, forward: -1 });
    assert_eq!(steering(&c(true, true, true, true)), Steering { side: 0, forward: 0 });
}

#[test]
fn the_run_factor_eases_toward_its_target() {
    assert_eq!(smooth_run_factor(0, 1000), 100);
    assert_eq!(smooth_run_factor(100, 1000), 190);
    assert_eq!(smooth_run_factor(1000, 0), 900);
    assert_eq!(smooth_run_factor(995, 1000), 995);
    assert_eq!(smooth_run_factor(9, 0), 9);
    assert_eq!(smooth_run_factor(10, 0), 9);
    assert_eq!(smooth_run_factor(1000, 1000), 1000);
    let mut rf = 0;
    for _ in 0..200 {
        let next = smooth_run_factor(rf, 1000);
        assert!(next >= rf && next <= 1000);
        rf = next;
    }
    assert_eq!(rf, 991);
}

#[test]
fn speed_lies_between_walking_and_four_times_walking() {
    assert_eq!(speed(650, 0), 650);
    assert_eq!(speed(650, 1000), 2600);
    assert_eq!(speed(650, 500), 1625);
    assert_eq!(speed(650, 1), 651);
    assert_eq!(speed(u32::MAX, 1000), 4 * u32::MAX as u64);
    assert_eq!(speed(0, 1000), 0);
}

#[test]
fn the_camera_keeps_before_what_is_behind_it() {
    let hit = |own_collider, toi| CameraHit { own_collider, toi };
    assert_eq!(camera_distance(false, &vec![]), 800);
    assert_eq!(camera_distance(true, &vec![]), 200);
    assert_eq!(camera_distance(false, &vec![hit(true, 10)]), 800);
    assert_eq!(camera_distance(false, &vec![hit(false, 500)]), 300);
    assert_eq!(camera_distance(false, &vec![hit(true, 10), hit(false, 600), hit(false, 250)]), 400);
    assert_eq!(camera_distance(false, &vec![hit(false, 250)]), 100);
    assert_eq!(camera_distance(false, &vec![hit(false, 0)]), 100);
    assert_eq!(camera_distance(false, &vec![hit(false, 301)]), 101);
    assert_eq!(camera_distance(false, &vec![hit(false, 5000)]), 600);
    assert_eq!(camera_distance(false, &vec![hit(false, u32::MAX)]), 600);
    assert_eq!(camera_distance(true, &vec![hit(false, 399)]), 199);
    assert_eq!(camera_distance(true, &vec![hit(false, 400)]), 200);
    assert_eq!(camera_distance(true, &vec![hit(false, 5000)]), 200);
}

#[test]
fn a_grenade_leaves_at_fifteen_times_the_look_vector() {
    let m = grenade(Vector3::new(1, 2, 3), Vector3::new(600, -800, 0));
    assert_eq!(
        m,
        Message::CreateProjectile {
            kind: ProjectileKind::Grenade,
            position: Vector3::new(1, 2, 3),
            direction: Offset { x: 600, y: -800, z: 0 },
            initial_velocity: Offset { x: 9000, y: -12_000, z: 0 },
            owner: Handle::none(),
        }
    );
    let m = grenade(Vector3::new(0, 0, 0), Vector3::new(i32::MAX, i32::MIN, 0));
    assert_eq!(
        m,
        Message::CreateProjectile {
            kind: ProjectileKind::Grenade,
            position: Vector3::new(0, 0, 0),
            direction: Offset { x: i32::MAX as i64, y: i32::MIN as i64, z: 0 },
            initial_velocity: Offset { x: 15 * i32::MAX as i64, y: 15 * i32::MIN as i64, z: 0 },
            owner: Handle::none(),
        }
    );
}

#[test]
fn every_toss_signal_launches_one_grenade() {
    let mut p = Player::new(bindings());
    for id in [UpperBodyMachine::TOSS_GRENADE_SIGNAL, 99, UpperBodyMachine::TOSS_GRENADE_SIGNAL] {
        p.upper_body_machine.toss_grenade_signals.push(id);
    }
    let s = on_ground();
    let c = tick(&mut p, 16, &s);
    let g = grenade(s.weapon_pivot_position, s.camera_look);
    assert_eq!(c.messages, vec![g, g]);
    assert!(p.upper_body_machine.toss_grenade_signals.is_empty());
}

#[test]
fn the_put_back_signal_enables_the_grab_clip() {
    let mut p = Player::new(bindings());
    assert!(!tick(&mut p, 16, &on_ground()).enable_grab_clip);
    p.upper_body_machine.put_back_signals.push(UpperBodyMachine::GRAB_WEAPON_SIGNAL);
    assert!(!tick(&mut p, 16, &on_ground()).enable_grab_clip);
    p.upper_body_machine.put_back_signals.push(UpperBodyMachine::PUT_BACK_WEAPON_END_SIGNAL);
    assert!(tick(&mut p, 16, &on_ground()).enable_grab_clip);
    assert!(p.upper_body_machine.put_back_signals.is_empty());
}

#[test]
fn the_jump_signal_counts_only_while_the_jump_is_on() {
    let mut p = Player::new(bindings());
    p.lower_body_machine.jump_signals.push(LowerBodyMachine::JUMP_SIGNAL);
    let c = tick(&mut p, 16, &on_ground());
    assert!(!c.jump);
    assert!(p.lower_body_machine.jump_signals.is_empty());

    p.process_input_event(&press(ControlButton::Key(57)), 16);
    p.lower_body_machine.jump_signals.push(LowerBodyMachine::JUMP_SIGNAL);
    let c = tick(&mut p, 16, &on_ground());
    assert!(c.rewind_jump_clips);
    assert_eq!(p.lower_body_machine.active_transition(), Some(LowerBodyMachine::IDLE_TO_JUMP));
    assert!(c.jump);
    let c = tick(&mut p, 16, &on_ground());
    assert!(!c.jump);
    p.lower_body_machine.jump_signals.push(LowerBodyMachine::JUMP_SIGNAL);
    let c = tick(&mut p, 200, &in_air());
    assert_eq!(p.lower_body_machine.active_state(), LowerBodyMachine::JUMP_STATE);
    assert!(c.jump);
    assert!(!c.rewind_jump_clips);
    assert!(c.rewind_land_clips);
}

#[test]
fn time_in_the_air_counts_up_and_the_ground_resets_it() {
    let mut p = Player::new(bindings());
    tick(&mut p, 100, &in_air());
    assert_eq!(p.in_air_time, 100);
    tick(&mut p, 250, &in_air());
    assert_eq!(p.in_air_time, 350);
    let c = tick(&mut p, 100, &in_air());
    assert!(!c.has_ground_contact);
    assert_eq!(p.in_air_time, 450);
    assert_eq!(p.lower_body_machine.active_transition(), Some(6));
    tick(&mut p, u32::MAX, &in_air());
    assert_eq!(p.in_air_time, u32::MAX);
    assert_eq!(p.lower_body_machine.active_state(), LowerBodyMachine::FALL_STATE);
    let c = tick(&mut p, 16, &on_ground());
    assert!(c.has_ground_contact);
    assert_eq!(c.speed, 0);
    assert_eq!(p.in_air_time, 0);
    assert_eq!(p.lower_body_machine.active_state(), LowerBodyMachine::FALL_STATE);
    let c = tick(&mut p, 200, &on_ground());
    assert_eq!(p.lower_body_machine.active_state(), LowerBodyMachine::LAND_STATE);
    assert_eq!(c.speed, 0);
    let landed = Senses { clips: ClipStates { land_ended: true, ..no_clips() }, ..on_ground() };
    let c = tick(&mut p, 200, &landed);
    assert_eq!(p.lower_body_machine.active_state(), LowerBodyMachine::IDLE_STATE);
    assert_eq!(c.speed, 650);
}

#[test]
fn the_player_fires_only_from_the_aim_state() {
    let mut p = armed_player(2);
    p.process_input_event(&press(ControlButton::Mouse(1)), 16);
    let c = tick(&mut p, 16, &on_ground());
    assert!(c.messages.is_empty());
    p.process_input_event(&press(ControlButton::Mouse(3)), 16);
    let c = tick(&mut p, 299, &on_ground());
    assert!(c.messages.is_empty());
    assert!(!p.upper_body_machine.is_aiming());
    let c = tick(&mut p, 1, &on_ground());
    assert!(p.upper_body_machine.is_aiming());
    assert_eq!(
        c.messages,
        vec![Message::ShootWeapon { weapon: h(11), direction: Some(Offset { x: 0, y: 0, z: 1000 }) }]
    );
    p.process_input_event(&release(ControlButton::Mouse(1)), 16);
    assert!(tick(&mut p, 16, &on_ground()).messages.is_empty());
    let mut unarmed = Player::new(bindings());
    unarmed.process_input_event(&press(ControlButton::Mouse(1)), 16);
    unarmed.process_input_event(&press(ControlButton::Mouse(3)), 16);
    tick(&mut unarmed, 300, &on_ground());
    assert!(unarmed.upper_body_machine.is_aiming());
    assert!(tick(&mut unarmed, 16, &on_ground()).messages.is_empty());
}

#[test]
fn what_a_tick_asks_of_spine_model_weapon_and_camera() {
    let mut p = Player::new(bindings());
    let c = tick(&mut p, 16, &on_ground());
    assert_eq!(c.steering, Steering { side: 0, forward: 0 });
    assert_eq!(c.speed, 650);
    assert_eq!(c.spine_pitch, 0);
    assert_eq!(c.model_yaw, None);
    assert_eq!(c.walk_clip_speed, None);
    assert_eq!(c.weapon_yaw_correction, 30_000);
    assert_eq!(c.weapon_pitch_correction, 8_000);
    assert_eq!(c.camera_bob, None);
    assert_eq!(c.camera_distance, 800);
    assert!(!c.rewind_jump_clips);
    assert!(!c.rewind_land_clips);

    p.controller.pitch = -30_000;
    p.process_input_event(&press(ControlButton::Mouse(3)), 16);
    p.process_input_event(&press(ControlButton::Key(31)), 16);
    p.process_input_event(&press(ControlButton::Key(32)), 16);
    let c = tick(&mut p, 16, &on_ground());
    assert_eq!(c.steering, Steering { side: -1, forward: -1 });
    assert_eq!(c.spine_pitch, -30_000);
    assert_eq!(c.model_yaw, Some(45_000));
    assert_eq!(c.walk_clip_speed, Some(-1000));
    assert_eq!(c.weapon_yaw_correction, -4_000);
    assert_eq!(c.weapon_pitch_correction, -12_000);
    assert_eq!(c.camera_bob, Some(CameraBob { amplitude: 15, kx: 5_000, ky: 10_000 }));
    assert_eq!(c.camera_distance, 200);

    p.process_input_event(&release(ControlButton::Mouse(3)), 16);
    p.process_input_event(&press(ControlButton::Key(42)), 16);
    let c = tick(&mut p, 16, &on_ground());
    assert_eq!(c.spine_pitch, 0);
    assert_eq!(c.model_yaw, Some(-135_000));
    assert_eq!(c.walk_clip_speed, Some(1000));
    assert_eq!(c.camera_bob, Some(CameraBob { amplitude: 15, kx: 8_000, ky: 13_000 }));
    assert_eq!(p.target_run_factor, 1000);
    assert_eq!(p.run_factor, 100);
    assert_eq!(c.speed, 650 + 195);
}

#[test]
fn player_lower_body_follows_its_input() {
    let mut m = LowerBodyMachine::new();
    let input = |is_walking, is_jumping, has_ground_contact, jump_ended, land_ended| LowerBodyMachineInput {
        is_walking,
        is_jumping,
        has_ground_contact,
        run_factor: 0,
        jump_ended,
        land_ended,
    };
    m.apply(300, input(true, false, true, false, false));
    assert_eq!(m.active_state(), LowerBodyMachine::WALK_STATE);
    assert!(m.can_move());
    m.apply(60, input(true, true, true, false, false));
    assert_eq!(m.active_transition(), Some(LowerBodyMachine::WALK_TO_JUMP));
    assert!(m.is_jumping());
    m.apply(60, input(true, false, false, false, false));
    assert_eq!(m.active_state(), LowerBodyMachine::JUMP_STATE);
    assert!(m.is_jumping());
    m.apply(1000, input(true, false, false, false, false));
    assert_eq!(m.active_state(), LowerBodyMachine::JUMP_STATE);
    m.apply(300, input(true, false, false, true, false));
    assert_eq!(m.active_state(), LowerBodyMachine::FALL_STATE);
    assert!(!m.is_jumping());
    assert!(!m.can_move());
    m.apply(200, input(true, false, true, true, false));
    assert_eq!(m.active_state(), LowerBodyMachine::LAND_STATE);
    assert!(!m.can_move());
    m.apply(1000, input(true, false, true, true, false));
    assert_eq!(m.active_state(), LowerBodyMachine::LAND_STATE);
    m.apply(200, input(true, false, true, true, true));
    assert_eq!(m.active_state(), LowerBodyMachine::IDLE_STATE);
}

#[test]
fn a_weapon_change_runs_through_put_back_and_grab() {
    let mut p = armed_player(2);
    p.process_input_event(&InputEvent::Wheel { delta: -1 }, 16);
    tick(&mut p, 100, &on_ground());
    assert_eq!(p.upper_body_machine.active_state(), UpperBodyMachine::PUT_BACK_STATE);
    tick(&mut p, 100, &on_ground());
    assert_eq!(p.upper_body_machine.active_state(), UpperBodyMachine::PUT_BACK_STATE);
    let stowed = Senses { clips: ClipStates { put_back_ended: true, ..no_clips() }, ..on_ground() };
    p.upper_body_machine.put_back_signals.push(UpperBodyMachine::PUT_BACK_WEAPON_END_SIGNAL);
    let c = tick(&mut p, 100, &stowed);
    assert!(c.enable_grab_clip);
    assert_eq!(p.upper_body_machine.active_state(), UpperBodyMachine::GRAB_STATE);
    assert_eq!(p.character.current_weapon, 1);
    p.upper_body_machine.grab_signals.push(UpperBodyMachine::GRAB_WEAPON_SIGNAL);
    tick(&mut p, 50, &on_ground());
    assert_eq!(p.character.current_weapon, 0);
    assert_eq!(p.upper_body_machine.active_state(), UpperBodyMachine::GRAB_STATE);
    let grabbed = Senses { clips: ClipStates { grab_ended: true, ..no_clips() }, ..on_ground() };
    tick(&mut p, 100, &grabbed);
    assert_eq!(p.upper_body_machine.active_state(), UpperBodyMachine::IDLE_STATE);
}

#[test]
fn set_control_scheme_rebinds() {
    let mut p = Player::new(bindings());
    let mut other = bindings();
    other.jump = ControlButton::Key(1);
    p.set_control_scheme(other);
    p.process_input_event(&press(ControlButton::Key(57)), 16);
    assert!(!p.controller.jump);
    p.process_input_event(&press(ControlButton::Key(1)), 16);
    assert!(p.controller.jump);
}
