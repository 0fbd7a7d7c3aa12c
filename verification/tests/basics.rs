use shooter_core::bot::BotKind;
use shooter_core::character::Character;
use shooter_core::control_scheme::{turn, ControlAction, ControlButton, ControlScheme, InputEvent};
use shooter_core::handle::Handle;
use shooter_core::math::{count_down, Offset, Vector3};
use shooter_core::message::{Message, Sound, FOOTSTEP_COUNT};
use shooter_core::player::Direction;
use shooter_core::random::random_index;
use shooter_core::signal::SignalQueue;
use shooter_core::text::numbered_message;

#[test]
fn bot_kind_from_id_knows_three_kinds() {
    assert_eq!(BotKind::from_id(0), Ok(BotKind::Mutant));
    assert_eq!(BotKind::from_id(1), Ok(BotKind::Parasite));
    assert_eq!(BotKind::from_id(2), Ok(BotKind::Zombie));
}

#[test]
fn bot_kind_from_id_refuses_unknown_ids() {
    assert_eq!(BotKind::from_id(3), Err(format!("Invalid bot kind {}", 3)));
    assert_eq!(BotKind::from_id(7), Err("Invalid bot kind 7".to_string()));
    assert_eq!(BotKind::from_id(-1), Err("Invalid bot kind -1".to_string()));
    assert_eq!(BotKind::from_id(i32::MIN), Err("Invalid bot kind -2147483648".to_string()));
    assert_eq!(BotKind::from_id(9207), Err("Invalid bot kind 9207".to_string()));
}

#[test]
fn bot_kind_id_round_trips() {
    for kind in [BotKind::Mutant, BotKind::Parasite, BotKind::Zombie] {
        assert_eq!(BotKind::from_id(kind.id()), Ok(kind));
    }
    assert_eq!(BotKind::Mutant.id(), 0);
    assert_eq!(BotKind::Parasite.id(), 1);
    assert_eq!(BotKind::Zombie.id(), 2);
}

#[test]
fn bot_kind_description() {
    assert_eq!(BotKind::Mutant.description(), "Mutant");
    assert_eq!(BotKind::Parasite.description(), "Parasite");
    assert_eq!(BotKind::Zombie.description(), "Zombie");
}

#[test]
fn direction_from_id() {
    assert_eq!(Direction::from_id(0), Ok(Direction::Stay));
    assert_eq!(Direction::from_id(1), Ok(Direction::Next));
    assert_eq!(Direction::from_id(2), Ok(Direction::Previous));
    assert_eq!(Direction::from_id(3), Err("Invalid Direction id 3!".to_string()));
    assert_eq!(Direction::from_id(u32::MAX), Err("Invalid Direction id 4294967295!".to_string()));
    for d in [Direction::Stay, Direction::Next, Direction::Previous] {
        assert_eq!(Direction::from_id(d.id()), Ok(d));
    }
}

#[test]
fn numbered_message_writes_decimal() {
    assert_eq!(numbered_message("a", 0, "b"), "a0b");
    assert_eq!(numbered_message("", -45, ""), "-45");
    assert_eq!(numbered_message("n=", i64::MAX, ";"), "n=9223372036854775807;");
    assert_eq!(numbered_message("n=", i64::MIN, ";"), "n=-9223372036854775808;");
}

#[test]
fn squared_distance_is_exact() {
    let a = Vector3::new(0, 0, 0);
    let b = Vector3::new(3, 4, 12);
    assert_eq!(a.sqr_distance(&b), 169);
    assert_eq!(b.sqr_distance(&a), 169);
    let far = Vector3::new(i32::MAX, i32::MAX, i32::MAX);
    let near = Vector3::new(i32::MIN, i32::MIN, i32::MIN);
    let d: u128 = u32::MAX as u128;
    assert_eq!(near.sqr_distance(&far), 3 * d * d);
}

#[test]
fn within_includes_the_boundary() {
    let a = Vector3::new(0, 0, 0);
    assert!(a.within(&Vector3::new(750, 0, 0), 750));
    assert!(!a.within(&Vector3::new(751, 0, 0), 750));
    assert!(a.within(&Vector3::new(450, 600, 0), 750));
    assert!(!a.within(&Vector3::new(450, 600, 1), 750));
    assert!(a.within(&a, 0));
}

#[test]
fn offset_between_extremes_does_not_wrap() {
    let a = Vector3::new(i32::MIN, 0, 5);
    let b = Vector3::new(i32::MAX, -7, 5);
    assert_eq!(a.offset_to(&b), Offset { x: 4294967295, y: -7, z: 0 });
    assert!(!a.offset_to(&b).is_zero());
    assert!(a.offset_to(&a).is_zero());
}

#[test]
fn count_down_falls_below_zero_and_stops_at_the_least_value() {
    assert_eq!(count_down(800, 16), 784);
    assert_eq!(count_down(0, 16), -16);
    assert_eq!(count_down(i64::MIN + 3, 16), i64::MIN);
    assert_eq!(count_down(i64::MIN, 0), i64::MIN);
    assert_eq!(count_down(5, u32::MAX), 5 - u32::MAX as i64);
}

#[test]
fn handle_none_names_nothing() {
    assert!(Handle::none().is_none());
    assert!(!Handle::none().is_some());
    assert!(Handle::new(0, 1).is_some());
    assert!(Handle::new(1, 0).is_some());
    assert_eq!(Handle::new(3, 4), Handle { index: 3, generation: 4 });
}

#[test]
fn signal_queue_is_first_in_first_out() {
    let mut q = SignalQueue::new();
    assert!(q.is_empty());
    assert_eq!(q.pop_event(), None);
    q.push(7);
    q.push(8);
    q.push(7);
    assert_eq!(q.len(), 3);
    assert_eq!(q.pop_event(), Some(7));
    assert_eq!(q.pop_event(), Some(8));
    assert_eq!(q.pop_event(), Some(7));
    assert_eq!(q.pop_event(), None);
}

#[test]
fn signal_queue_drain_counts_and_empties() {
    let mut q = SignalQueue::new();
    for id in [1, 2, 1, 1, 3] {
        q.push(id);
    }
    assert_eq!(q.drain(1), 3);
    assert!(q.is_empty());
    assert_eq!(q.drain(1), 0);
}

#[test]
fn random_index_stays_below_the_bound() {
    assert_eq!(random_index(0), None);
    assert_eq!(random_index(1), Some(0));
    let mut seen = [false; 4];
    for _ in 0..400 {
        let i = random_index(FOOTSTEP_COUNT).unwrap();
        assert!(i < FOOTSTEP_COUNT);
        seen[i] = true;
    }
    assert!(seen.iter().all(|s| *s));
}

#[test]
fn sounds_have_their_paths() {
    assert_eq!(Sound::footstep(0), Sound::FootStep1);
    assert_eq!(Sound::footstep(1), Sound::FootStep2);
    assert_eq!(Sound::footstep(2), Sound::FootStep3);
    assert_eq!(Sound::footstep(3), Sound::FootStep4);
    assert_eq!(Sound::FootStep1.path(), "data/sounds/footsteps/FootStep_shoe_stone_step1.wav");
    assert_eq!(Sound::FootStep4.path(), "data/sounds/footsteps/FootStep_shoe_stone_step4.wav");
    assert_eq!(Sound::ItemPickup.path(), "data/sounds/item_pickup.ogg");
    assert_eq!(Sound::BulletImpact.path(), "data/sounds/bullet_impact_concrete.ogg");
}

#[test]
fn damage_of_99999_kills_a_character_of_health_100() {
    let mut c = Character::new(100_000);
    assert!(!c.is_dead());
    c.damage(99_999_000);
    assert_eq!(c.health, 100_000 - 99_999_000);
    assert!(c.health <= 0);
    assert!(c.is_dead());
}

#[test]
fn character_dies_at_exactly_zero() {
    let mut c = Character::new(40_000);
    c.damage(39_999);
    assert!(!c.is_dead());
    c.damage(1);
    assert_eq!(c.health, 0);
    assert!(c.is_dead());
}

#[test]
fn heal_and_damage_saturate() {
    let mut c = Character::new(i64::MAX - 5);
    c.heal(20_000);
    assert_eq!(c.health, i64::MAX);
    let mut c = Character::new(i64::MIN + 5);
    c.damage(20_000);
    assert_eq!(c.health, i64::MIN);
    let mut c = Character::new(50_000);
    c.heal(20_000);
    assert_eq!(c.health, 70_000);
}

fn armed(n: u32) -> (Character, Vec<Handle>) {
    let mut c = Character::new(100_000);
    let mut handles = Vec::new();
    let mut outbox = Vec::new();
    for i in 0..n {
        let h = Handle::new(i + 1, 1);
        c.add_weapon(h, &mut outbox);
        handles.push(h);
    }
    (c, handles)
}

#[test]
fn add_weapon_takes_it_in_hand_and_shows_only_it() {
    let mut c = Character::new(100_000);
    let mut outbox = Vec::new();
    assert!(c.current_weapon().is_none());
    let a = Handle::new(1, 1);
    let b = Handle::new(2, 1);
    c.add_weapon(a, &mut outbox);
    assert_eq!(outbox, vec![Message::ShowWeapon { weapon: a, state: true }]);
    outbox.clear();
    c.add_weapon(b, &mut outbox);
    assert_eq!(c.current_weapon, 1);
    assert_eq!(c.current_weapon(), b);
    assert_eq!(
        outbox,
        vec![
            Message::ShowWeapon { weapon: a, state: false },
            Message::ShowWeapon { weapon: b, state: true },
        ]
    );
}

#[test]
fn next_and_prev_weapon_stop_at_the_ends() {
    let (mut c, h) = armed(3);
    let mut outbox = Vec::new();
    assert_eq!(c.current_weapon, 2);
    c.next_weapon(&mut outbox);
    assert_eq!(c.current_weapon, 2);
    assert!(outbox.is_empty());
    c.prev_weapon(&mut outbox);
    assert_eq!(c.current_weapon, 1);
    assert_eq!(
        outbox,
        vec![
            Message::ShowWeapon { weapon: h[0], state: false },
            Message::ShowWeapon { weapon: h[1], state: true },
            Message::ShowWeapon { weapon: h[2], state: false },
        ]
    );
    outbox.clear();
    c.prev_weapon(&mut outbox);
    c.prev_weapon(&mut outbox);
    assert_eq!(c.current_weapon, 0);
    outbox.clear();
    c.prev_weapon(&mut outbox);
    assert_eq!(c.current_weapon, 0);
    assert!(outbox.is_empty());
    c.next_weapon(&mut outbox);
    assert_eq!(c.current_weapon, 1);
    assert_eq!(outbox.len(), 3);
}

#[test]
fn set_current_weapon_ignores_an_index_past_the_end() {
    let (mut c, h) = armed(2);
    let mut outbox = Vec::new();
    c.set_current_weapon(2, &mut outbox);
    assert_eq!(c.current_weapon, 1);
    assert!(outbox.is_empty());
    c.set_current_weapon(0, &mut outbox);
    assert_eq!(c.current_weapon, 0);
    assert_eq!(c.current_weapon(), h[0]);
    assert_eq!(outbox.len(), 2);
}

fn scheme() -> ControlScheme {
    ControlScheme {
        move_forward: ControlButton::Key(17),
        move_backward: ControlButton::Key(31),
        move_left: ControlButton::Key(30),
        move_right: ControlButton::Key(32),
        jump: ControlButton::Key(57),
        shoot: ControlButton::Mouse(1),
        next_weapon: ControlButton::WheelUp,
        prev_weapon: ControlButton::WheelDown,
        run: ControlButton::Key(42),
        aim: ControlButton::Mouse(3),
        toss_grenade: ControlButton::Key(34),
        mouse_sens: 300,
    }
}

#[test]
fn scheme_maps_buttons_to_actions() {
    let s = scheme();
    assert_eq!(s.action_of(ControlButton::Key(17)), Some(ControlAction::MoveForward));
    assert_eq!(s.action_of(ControlButton::Key(31)), Some(ControlAction::MoveBackward));
    assert_eq!(s.action_of(ControlButton::Key(30)), Some(ControlAction::MoveLeft));
    assert_eq!(s.action_of(ControlButton::Key(32)), Some(ControlAction::MoveRight));
    assert_eq!(s.action_of(ControlButton::Key(57)), Some(ControlAction::Jump));
    assert_eq!(s.action_of(ControlButton::Mouse(1)), Some(ControlAction::Shoot));
    assert_eq!(s.action_of(ControlButton::WheelUp), Some(ControlAction::NextWeapon));
    assert_eq!(s.action_of(ControlButton::WheelDown), Some(ControlAction::PrevWeapon));
    assert_eq!(s.action_of(ControlButton::Key(42)), Some(ControlAction::Run));
    assert_eq!(s.action_of(ControlButton::Mouse(3)), Some(ControlAction::Aim));
    assert_eq!(s.action_of(ControlButton::Key(34)), Some(ControlAction::TossGrenade));
    assert_eq!(s.action_of(ControlButton::Key(99)), None);
    assert_eq!(s.action_of(ControlButton::Mouse(17)), None);
}

#[test]
fn a_button_bound_twice_means_the_first_action() {
    let mut s = scheme();
    s.shoot = ControlButton::Mouse(3);
    assert_eq!(s.action_of(ControlButton::Mouse(3)), Some(ControlAction::Aim));
    s.jump = ControlButton::Key(42);
    assert_eq!(s.action_of(ControlButton::Key(42)), Some(ControlAction::Jump));
}

#[test]
fn the_wheel_presses_a_wheel_button() {
    assert_eq!(InputEvent::Wheel { delta: -1 }.button_state(), Some((ControlButton::WheelDown, true)));
    assert_eq!(InputEvent::Wheel { delta: 0 }.button_state(), Some((ControlButton::WheelUp, true)));
    assert_eq!(InputEvent::Wheel { delta: 3 }.button_state(), Some((ControlButton::WheelUp, true)));
    assert_eq!(InputEvent::MouseMotion { dx: 1, dy: 1 }.button_state(), None);
    assert_eq!(InputEvent::Other.button_state(), None);
    assert_eq!(
        InputEvent::Button { button: ControlButton::Key(5), pressed: false }.button_state(),
        Some((ControlButton::Key(5), false))
    );
}

#[test]
fn turn_is_travel_times_sensitivity_times_time() {
    assert_eq!(turn(10, 300, 16), 48);
    assert_eq!(turn(-10, 300, 16), -48);
    assert_eq!(turn(1, 1, 999), 0);
    assert_eq!(turn(-1, 1, 999), 0);
    assert_eq!(turn(0, 300, 16), 0);
    assert_eq!(turn(i32::MAX, u32::MAX, u32::MAX), i64::MAX);
    assert_eq!(turn(i32::MIN, u32::MAX, u32::MAX), -i64::MAX);
    assert_eq!(turn(7, 1000, 1000), 7000);
}
