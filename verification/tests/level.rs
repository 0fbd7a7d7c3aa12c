use shooter_core::actor::Actor;
use shooter_core::bot::upper_body::UpperBodyMachine;
use shooter_core::bot::{Bot, BotKind, Senses, Target};
use shooter_core::container::Container;
use shooter_core::control_scheme::{ControlButton, ControlScheme, InputEvent};
use shooter_core::handle::Handle;
use shooter_core::level::{
    analyze, classify, hit_messages, is_weapon, item_of, weapon_for, Hit, AnalysisResult, AxisAlignedBoundingBox,
    DeathZone, Effect, ItemPlacement, Level, NodeRole, SceneNode, SpawnPoint, UpdateContext,
    Weapon, AMMO_PER_ITEM, DEATH_ZONE_DAMAGE, MEDKIT_HEALTH, RESPAWN_TIME,
};
use shooter_core::math::{GameTime, Vector3};
use shooter_core::message::{EffectKind, ItemKind, Message, Sound, WeaponKind};
use shooter_core::player::Direction;
use shooter_core::text::starts_with;

fn h(i: u32) -> Handle {
    Handle::new(i, 1)
}

fn v(x: i32, y: i32, z: i32) -> Vector3 {
    Vector3::new(x, y, z)
}

fn bindings() -> ControlScheme {
    ControlScheme {
        move_forward: ControlButton::Key(17),
        move_backward: ControlButton::Key(31),
        move_left: ControlButton::Key(30),
        move_right: ControlButton::Key(32),
        jump: ControlButton::Key(57),
        shoot: ControlButton::Mouse(1),
        next_weapon: ControlButton::WheelUp,
        prev_weapon: ControlButton::WheelDown,
        run: ControlButton::Key(42),
        aim: ControlButton::Mouse(3),
        toss_grenade: ControlButton::Key(34),
        mouse_sens: 300,
    }
}

fn cube(min: i32, max: i32) -> AxisAlignedBoundingBox {
    AxisAlignedBoundingBox { min: v(min, min, min), max: v(max, max, max) }
}

fn node(name: &str, position: Vector3, is_mesh: bool) -> SceneNode {
    SceneNode { name: name.to_string(), position, is_mesh, bounds: cube(-1, 1) }
}

fn empty_level() -> Level {
    Level::new(AnalysisResult {
        items: vec![],
        death_zones: vec![DeathZone { bounds: cube(-500, 500) }, DeathZone { bounds: cube(0, 9000) }],
        spawn_points: vec![
            SpawnPoint::new(v(1, 0, 0), BotKind::Zombie),
            SpawnPoint::new(v(2, 0, 0), BotKind::Mutant),
        ],
        player_spawn_position: v(0, 0, 0),
    })
}

fn health_of(level: &Level, handle: Handle) -> i64 {
    level.actors().get(handle).unwrap().character().health
}

fn bot_of(level: &Level, handle: Handle) -> &Bot {
    match level.actors().get(handle).unwrap() {
        Actor::Bot(bot) => bot,
        Actor::Player(_) => panic!("not a bot"),
    }
}

#[test]
fn respawn_takes_four_seconds() {
    assert_eq!(RESPAWN_TIME, 4000);
    assert_eq!(DEATH_ZONE_DAMAGE, 99_999_000);
    assert_eq!(MEDKIT_HEALTH, 20_000);
    assert_eq!(AMMO_PER_ITEM, 200);
}

#[test]
fn starts_with_compares_the_beginning() {
    assert!(starts_with("Medkit01", "Medkit"));
    assert!(starts_with("Medkit", "Medkit"));
    assert!(!starts_with("Medki", "Medkit"));
    assert!(!starts_with("medkit", "Medkit"));
    assert!(starts_with("anything", ""));
    assert!(starts_with("", ""));
    assert!(!starts_with("", "a"));
    assert!(starts_with("Zoë1", "Zoë"));
    assert!(!starts_with("Zoe1", "Zoë"));
}

#[test]
fn names_decide_the_role_of_a_node() {
    assert_eq!(classify("Medkit.001", false), NodeRole::Item(ItemKind::Medkit));
    assert_eq!(classify("Ammo_Ak47", false), NodeRole::Item(ItemKind::Ak47Ammo));
    assert_eq!(classify("Ammo_M4_3", true), NodeRole::Item(ItemKind::M4Ammo));
    assert_eq!(classify("Ammo_Plasma", false), NodeRole::Item(ItemKind::Plasma));
    assert_eq!(classify("Ammo_", false), NodeRole::Scenery);
    assert_eq!(classify("Zombie7", false), NodeRole::Spawn(BotKind::Zombie));
    assert_eq!(classify("Mutant", false), NodeRole::Spawn(BotKind::Mutant));
    assert_eq!(classify("ParasiteSpawn", false), NodeRole::Spawn(BotKind::Parasite));
    assert_eq!(classify("PlayerSpawnPoint", false), NodeRole::PlayerSpawn);
    assert_eq!(classify("PlayerSpawn", false), NodeRole::Scenery);
    assert_eq!(classify("DeathZone1", true), NodeRole::DeathZone);
    assert_eq!(classify("DeathZone1", false), NodeRole::Scenery);
    assert_eq!(classify("Wall", true), NodeRole::Scenery);
    assert_eq!(classify("", true), NodeRole::Scenery);
    assert_eq!(classify("zombie", false), NodeRole::Scenery);
}

#[test]
fn analysis_finds_items_spawn_points_and_death_zones_in_order() {
    let nodes = vec![
        node("Root", v(0, 0, 0), false),
        node("Zombie1", v(1, 0, 0), false),
        node("PlayerSpawnPoint", v(7, 7, 7), false),
        node("Medkit", v(2, 0, 0), true),
        node("DeathZoneA", v(3, 0, 0), true),
        node("Mutant", v(4, 0, 0), false),
        node("DeathZoneB", v(5, 0, 0), false),
        node("Ammo_Plasma", v(6, 0, 0), false),
        node("PlayerSpawnPoint2", v(8, 8, 8), false),
        node("Parasite", v(9, 0, 0), false),
    ];
    let r = analyze(&nodes);
    assert_eq!(
        r.items,
        vec![
            ItemPlacement { kind: ItemKind::Medkit, position: v(2, 0, 0) },
            ItemPlacement { kind: ItemKind::Plasma, position: v(6, 0, 0) },
        ]
    );
    assert_eq!(
        r.spawn_points,
        vec![
            SpawnPoint { position: v(1, 0, 0), bot_kind: BotKind::Zombie, spawned: false },
            SpawnPoint { position: v(4, 0, 0), bot_kind: BotKind::Mutant, spawned: false },
            SpawnPoint { position: v(9, 0, 0), bot_kind: BotKind::Parasite, spawned: false },
        ]
    );
    assert_eq!(r.death_zones, vec![DeathZone { bounds: cube(-1, 1) }]);
    assert_eq!(r.player_spawn_position, v(8, 8, 8));
    let nothing = analyze(&vec![]);
    assert!(nothing.items.is_empty() && nothing.spawn_points.is_empty() && nothing.death_zones.is_empty());
    assert_eq!(nothing.player_spawn_position, v(0, 0, 0));
}

#[test]
fn a_box_holds_its_faces() {
    let b = AxisAlignedBoundingBox { min: v(-1, 0, 5), max: v(1, 10, 5) };
    assert!(b.is_contains_point(v(0, 5, 5)));
    assert!(b.is_contains_point(v(-1, 0, 5)));
    assert!(b.is_contains_point(v(1, 10, 5)));
    assert!(!b.is_contains_point(v(2, 5, 5)));
    assert!(!b.is_contains_point(v(-2, 5, 5)));
    assert!(!b.is_contains_point(v(0, 11, 5)));
    assert!(!b.is_contains_point(v(0, -1, 5)));
    assert!(!b.is_contains_point(v(0, 5, 4)));
    assert!(!b.is_contains_point(v(0, 5, 6)));
}

#[test]
fn what_has_spawned_stays_spawned() {
    let mut p = SpawnPoint::new(v(1, 2, 3), BotKind::Parasite);
    assert!(!p.spawned);
    p.spawn();
    assert!(p.spawned);
    p.spawn();
    assert_eq!(p, SpawnPoint { position: v(1, 2, 3), bot_kind: BotKind::Parasite, spawned: true });
    assert_eq!(SpawnPoint::default(), SpawnPoint { position: v(0, 0, 0), bot_kind: BotKind::Zombie, spawned: false });

    let mut level = empty_level();
    assert_eq!(
        level.spawn_bot(1),
        Some(SpawnPoint { position: v(2, 0, 0), bot_kind: BotKind::Mutant, spawned: true })
    );
    assert!(level.spawn_points[1].spawned);
    assert!(!level.spawn_points[0].spawned);
    assert_eq!(level.spawn_bot(2), None);
    assert!(level.spawn_bot(1).is_some());
    assert!(level.spawn_points[1].spawned);
}

#[test]
fn defaults() {
    assert_eq!(Direction::default(), Direction::Stay);
    assert_eq!(Target::default(), Target { position: v(0, 0, 0), handle: Handle::none() });
    assert_eq!(DeathZone::default(), DeathZone { bounds: cube(0, 0) });
    let bot = Bot::default();
    assert_eq!(bot.kind, BotKind::Mutant);
    assert_eq!(bot.character.health, 1_000_000);
    let level = Level::default();
    assert!(level.get_player().is_none());
    assert!(level.actors().entries.is_empty());
    assert!(level.weapons().entries.is_empty());
    assert_eq!(level.time, 0);
}

#[test]
fn a_container_names_the_first_entry_under_a_handle() {
    let mut c: Container<u8> = Container::new();
    assert_eq!(c.find(h(1)), None);
    assert!(!c.contains(h(1)));
    assert_eq!(c.get(h(1)), None);
    c.add(h(1), 10);
    c.add(h(2), 20);
    c.add(h(1), 30);
    assert_eq!(c.find(h(1)), Some(0));
    assert_eq!(c.find(h(2)), Some(1));
    assert_eq!(c.get(h(1)), Some(&10));
    assert!(c.contains(h(2)));
    assert!(!c.contains(Handle::new(1, 2)));
    assert_eq!(c.free(h(3)), None);
    assert_eq!(c.free(h(1)), Some(10));
    assert_eq!(c.get(h(1)), Some(&30));
    assert_eq!(c.find(h(1)), Some(1));
    assert_eq!(c.free(h(1)), Some(30));
    assert_eq!(c.free(h(1)), None);
    assert_eq!(c.entries.len(), 1);
}

#[test]
fn a_bot_can_be_removed_once_dead_and_its_dying_clip_has_ended() {
    let mut bot = Bot::new(BotKind::Zombie);
    assert!(!bot.can_be_removed(false));
    assert!(!bot.can_be_removed(true));
    bot.character.damage(100_000);
    assert!(!bot.can_be_removed(false));
    assert!(bot.can_be_removed(true));
}

#[test]
fn a_damage_message_of_99999_kills_and_the_next_update_starts_the_death() {
    let mut level = empty_level();
    level.add_bot(h(1), BotKind::Zombie);
    level.add_bot(h(2), BotKind::Mutant);
    assert_eq!(health_of(&level, h(1)), 100_000);
    let mut outbox = vec![];
    let message = Message::DamageActor { actor: h(1), who: Handle::none(), amount: 99_999_000 };
    assert_eq!(level.handle_message(&message, v(0, 0, 0), &mut outbox), Effect::Done);
    assert!(outbox.is_empty());
    assert_eq!(health_of(&level, h(1)), 100_000 - 99_999_000);
    assert!(health_of(&level, h(1)) <= 0);
    assert!(level.actors().get(h(1)).unwrap().is_dead());
    assert_eq!(health_of(&level, h(2)), 1_000_000);
    assert_eq!(bot_of(&level, h(1)).target, None);

    let context = UpdateContext { time: GameTime { elapsed: 0, delta: 16 }, navmesh: true };
    let senses = Senses {
        position: v(0, 0, 0),
        has_ground_contact: true,
        ammo: vec![],
        attack_clip_enabled: false,
        attack_clip_ended: false,
        sightings: vec![],
    };
    let entry = &mut level.actors_mut().entries[0];
    let bot = match &mut entry.value {
        Actor::Bot(bot) => bot,
        Actor::Player(_) => panic!("not a bot"),
    };
    let commands = bot.update(h(1), &context, &vec![], &senses);
    assert!(commands.dying);
    let t = bot.upper_body_machine.active_transition().unwrap();
    assert_eq!(bot.upper_body_machine.machine.transitions()[t].dest, UpperBodyMachine::DYING_STATE);
    let later = UpdateContext { time: GameTime { elapsed: 16, delta: 500 }, navmesh: true };
    bot.update(h(1), &later, &vec![], &senses);
    assert!(bot.upper_body_machine.is_dying());
}

#[test]
fn damage_by_somebody_sends_a_bot_to_where_that_somebody_stands() {
    let mut level = empty_level();
    level.add_bot(h(1), BotKind::Zombie);
    level.add_player(h(2), bindings());
    level.damage_actor(h(1), h(2), 30_000, v(5, 6, 7));
    assert_eq!(health_of(&level, h(1)), 70_000);
    assert_eq!(bot_of(&level, h(1)).target, Some(Target { position: v(5, 6, 7), handle: h(1) }));
    level.damage_actor(h(2), h(1), 1_000, v(0, 0, 0));
    assert_eq!(health_of(&level, h(2)), 99_000);
    level.damage_actor(h(1), h(9), 30_000, v(1, 1, 1));
    assert_eq!(health_of(&level, h(1)), 70_000);
    level.damage_actor(h(9), Handle::none(), 30_000, v(1, 1, 1));
    level.damage_actor(h(1), Handle::none(), 30_000, v(1, 1, 1));
    assert_eq!(health_of(&level, h(1)), 40_000);
    assert_eq!(bot_of(&level, h(1)).target, Some(Target { position: v(5, 6, 7), handle: h(1) }));
    assert_eq!(level.actors().entries.len(), 2);
    assert_eq!(level.actors().entries[0].handle, h(1));
    assert_eq!(level.actors().entries[1].handle, h(2));
}

#[test]
fn death_zones_take_their_toll_once_per_zone() {
    let mut level = empty_level();
    level.add_bot(h(1), BotKind::Zombie);
    level.add_bot(h(2), BotKind::Mutant);
    level.add_bot(h(3), BotKind::Parasite);
    level.add_bot(h(4), BotKind::Parasite);
    let toll = |i| Message::DamageActor { actor: h(i), who: Handle::none(), amount: 99_999_000 };
    let mut outbox = vec![Message::EndMatch];
    level.update_death_zones(&vec![v(100, 100, 100), v(-100, 0, 0), v(501, -1, 0)], &mut outbox);
    assert_eq!(outbox, vec![Message::EndMatch, toll(1), toll(1), toll(2)]);
    let mut outbox = vec![];
    level.update_death_zones(&vec![], &mut outbox);
    assert!(outbox.is_empty());
    let mut outbox = vec![];
    level.update_death_zones(&vec![v(-1, 0, 0), v(0, 0, 0), v(9000, 9000, 9000), v(500, 500, 500), v(0, 0, 0)], &mut outbox);
    assert_eq!(outbox, vec![toll(1), toll(2), toll(2), toll(3), toll(4), toll(4)]);
}

#[test]
fn the_match_ends_when_the_player_is_dead() {
    let mut level = empty_level();
    assert_eq!(level.update_game_ending(), None);
    level.add_bot(h(1), BotKind::Zombie);
    level.add_player(h(2), bindings());
    assert_eq!(level.get_player(), h(2));
    assert_eq!(level.update_game_ending(), None);
    level.damage_actor(h(1), Handle::none(), u32::MAX, v(0, 0, 0));
    assert_eq!(level.update_game_ending(), None);
    level.damage_actor(h(2), Handle::none(), 100_000, v(0, 0, 0));
    assert_eq!(level.update_game_ending(), Some(Message::EndMatch));
    let messages = level.update(GameTime { elapsed: 0, delta: 16 }, &vec![v(9999, -9999, 0), v(0, 0, 0)]);
    assert_eq!(
        messages,
        vec![
            Message::DamageActor { actor: h(2), who: Handle::none(), amount: 99_999_000 },
            Message::DamageActor { actor: h(2), who: Handle::none(), amount: 99_999_000 },
            Message::EndMatch,
        ]
    );
    assert_eq!(level.time, 16);
    level.time = i64::MAX - 3;
    level.update(GameTime { elapsed: 0, delta: 16 }, &vec![]);
    assert_eq!(level.time, i64::MAX);
}

fn armed_level() -> Level {
    let mut level = empty_level();
    level.add_bot(h(1), BotKind::Zombie);
    level.add_player(h(2), bindings());
    let mut outbox = vec![];
    level.give_new_weapon(h(2), h(10), WeaponKind::M4, 30, &mut outbox);
    level.give_new_weapon(h(2), h(11), WeaponKind::Ak47, 7, &mut outbox);
    level.give_new_weapon(h(1), h(12), WeaponKind::Ak47, 0, &mut outbox);
    level
}

fn ammo_of(level: &Level, weapon: Handle) -> u32 {
    level.weapons().get(weapon).unwrap().ammo
}

#[test]
fn a_new_weapon_is_kept_by_the_level_and_taken_in_hand() {
    let mut level = empty_level();
    level.add_player(h(2), bindings());
    let mut outbox = vec![Message::EndMatch];
    level.give_new_weapon(h(2), h(10), WeaponKind::M4, 30, &mut outbox);
    assert_eq!(outbox, vec![Message::EndMatch, Message::ShowWeapon { weapon: h(10), state: true }]);
    level.give_new_weapon(h(2), h(11), WeaponKind::PlasmaRifle, 5, &mut outbox);
    assert_eq!(
        outbox[2..],
        [
            Message::ShowWeapon { weapon: h(10), state: false },
            Message::ShowWeapon { weapon: h(11), state: true },
        ]
    );
    assert_eq!(level.weapons().get(h(11)), Some(&Weapon { kind: WeaponKind::PlasmaRifle, ammo: 5, owner: h(2) }));
    let c = level.actors().get(h(2)).unwrap().character();
    assert_eq!(c.weapons, vec![h(10), h(11)]);
    assert_eq!(c.current_weapon, 1);
    let before = outbox.len();
    level.give_new_weapon(h(9), h(12), WeaponKind::M4, 30, &mut outbox);
    assert_eq!(outbox.len(), before);
    assert!(!level.weapons().contains(h(12)));
}

#[test]
fn items_heal_refill_or_ask_for_a_weapon() {
    assert_eq!(weapon_for(ItemKind::Ak47), Some(WeaponKind::Ak47));
    assert_eq!(weapon_for(ItemKind::PlasmaGun), Some(WeaponKind::PlasmaRifle));
    assert_eq!(weapon_for(ItemKind::M4), Some(WeaponKind::M4));
    assert_eq!(weapon_for(ItemKind::Plasma), Some(WeaponKind::PlasmaRifle));
    assert_eq!(weapon_for(ItemKind::Ak47Ammo), Some(WeaponKind::Ak47));
    assert_eq!(weapon_for(ItemKind::M4Ammo), Some(WeaponKind::M4));
    assert_eq!(weapon_for(ItemKind::Medkit), None);
    assert_eq!(weapon_for(ItemKind::RocketLauncher), None);
    assert!(is_weapon(ItemKind::Ak47) && is_weapon(ItemKind::PlasmaGun) && is_weapon(ItemKind::M4));
    assert!(!is_weapon(ItemKind::Plasma) && !is_weapon(ItemKind::Medkit) && !is_weapon(ItemKind::RocketLauncher));
    assert_eq!(item_of(WeaponKind::M4), ItemKind::M4);
    assert_eq!(item_of(WeaponKind::Ak47), ItemKind::Ak47);
    assert_eq!(item_of(WeaponKind::PlasmaRifle), ItemKind::PlasmaGun);

    let mut level = armed_level();
    assert_eq!(level.give_item(h(2), ItemKind::Medkit), None);
    assert_eq!(health_of(&level, h(2)), 120_000);
    assert_eq!(level.give_item(h(9), ItemKind::Medkit), None);
    assert_eq!(level.give_item(h(2), ItemKind::Ak47Ammo), None);
    assert_eq!(ammo_of(&level, h(11)), 207);
    assert_eq!(ammo_of(&level, h(12)), 0);
    assert_eq!(ammo_of(&level, h(10)), 30);
    assert_eq!(level.give_item(h(2), ItemKind::M4), None);
    assert_eq!(ammo_of(&level, h(10)), 230);
    assert_eq!(level.give_item(h(2), ItemKind::Plasma), None);
    assert_eq!(level.give_item(h(2), ItemKind::PlasmaGun), Some(WeaponKind::PlasmaRifle));
    assert_eq!(level.give_item(h(1), ItemKind::M4), Some(WeaponKind::M4));
    assert_eq!(level.give_item(h(1), ItemKind::M4Ammo), None);
    assert_eq!(level.give_item(h(1), ItemKind::Ak47), None);
    assert_eq!(ammo_of(&level, h(12)), 200);
    assert_eq!(level.give_item(h(1), ItemKind::RocketLauncher), None);
    assert_eq!(level.give_item(h(9), ItemKind::Ak47), None);
    assert_eq!((ammo_of(&level, h(10)), ammo_of(&level, h(11)), ammo_of(&level, h(12))), (230, 207, 200));
    level.weapons.entries[0].value.ammo = u32::MAX - 1;
    level.give_item(h(2), ItemKind::M4Ammo);
    assert_eq!(ammo_of(&level, h(10)), u32::MAX);
}

#[test]
fn picking_an_item_up_sounds_where_it_lies() {
    let mut level = armed_level();
    level.items.add(h(30), ItemPlacement { kind: ItemKind::Medkit, position: v(4, 5, 6) });
    level.items.add(h(31), ItemPlacement { kind: ItemKind::PlasmaGun, position: v(7, 8, 9) });
    let mut outbox = vec![];
    assert_eq!(level.pickup_item(h(2), h(30), &mut outbox), None);
    assert_eq!(
        outbox,
        vec![Message::PlaySound {
            sound: Sound::ItemPickup,
            position: v(4, 5, 6),
            gain: 1000,
            rolloff_factor: 3000,
            radius: 2000,
        }]
    );
    assert_eq!(health_of(&level, h(2)), 120_000);
    outbox.clear();
    assert_eq!(level.pickup_item(h(2), h(32), &mut outbox), None);
    assert_eq!(level.pickup_item(h(9), h(30), &mut outbox), None);
    assert!(outbox.is_empty());
    let message = Message::PickUpItem { actor: h(1), item: h(31) };
    assert_eq!(
        level.handle_message(&message, v(0, 0, 0), &mut outbox),
        Effect::CreateWeapon { actor: h(1), kind: WeaponKind::PlasmaRifle }
    );
    assert_eq!(outbox.len(), 1);
    assert!(level.items.contains(h(31)));
}

#[test]
fn an_actor_that_leaves_drops_its_weapons_and_is_forgotten() {
    let mut level = armed_level();
    level.add_bot(h(3), BotKind::Mutant);
    level.damage_actor(h(1), h(2), 1, v(0, 0, 0));
    match &mut level.actors_mut().entries[2].value {
        Actor::Bot(bot) => bot.set_target(h(2), v(1, 1, 1)),
        Actor::Player(_) => panic!("not a bot"),
    }
    assert_eq!(bot_of(&level, h(1)).target.unwrap().handle, h(1));
    let mut outbox = vec![Message::EndMatch];
    assert!(level.remove_actor(h(2), v(3, 3, 3), &mut outbox));
    assert_eq!(
        outbox,
        vec![
            Message::EndMatch,
            Message::SpawnItem { kind: ItemKind::M4, position: v(3, 3, 3), adjust_height: true },
            Message::SpawnItem { kind: ItemKind::Ak47, position: v(3, 3, 3), adjust_height: true },
        ]
    );
    assert!(level.get_player().is_none());
    assert!(!level.actors().contains(h(2)));
    assert!(!level.weapons().contains(h(10)));
    assert!(!level.weapons().contains(h(11)));
    assert!(level.weapons().contains(h(12)));
    assert_eq!(bot_of(&level, h(3)).target, None);
    assert_eq!(bot_of(&level, h(1)).target.unwrap().handle, h(1));
    assert_eq!(level.update_game_ending(), None);
    assert!(!level.remove_actor(h(2), v(3, 3, 3), &mut outbox));
    assert_eq!(outbox.len(), 3);
    assert_eq!(
        level.handle_message(&Message::RemoveActor { actor: h(1) }, v(0, 0, 0), &mut outbox),
        Effect::ReleaseActor { actor: h(1) }
    );
    assert_eq!(outbox[3], Message::SpawnItem { kind: ItemKind::Ak47, position: v(0, 0, 0), adjust_height: true });
    assert_eq!(
        level.handle_message(&Message::RemoveActor { actor: h(1) }, v(0, 0, 0), &mut outbox),
        Effect::Done
    );
    assert_eq!(level.actors().entries.len(), 1);
    assert!(level.weapons().entries.is_empty());
}

#[test]
fn messages_are_carried_out_or_left_to_the_host() {
    let mut level = armed_level();
    let mut outbox = vec![];
    let mut handle = |level: &mut Level, m: Message| level.handle_message(&m, v(0, 0, 0), &mut outbox);
    assert_eq!(
        handle(&mut level, Message::GiveNewWeapon { actor: h(1), kind: WeaponKind::M4 }),
        Effect::CreateWeapon { actor: h(1), kind: WeaponKind::M4 }
    );
    assert_eq!(handle(&mut level, Message::GiveNewWeapon { actor: h(9), kind: WeaponKind::M4 }), Effect::Done);
    assert_eq!(
        handle(&mut level, Message::AddBot { kind: BotKind::Parasite, position: v(1, 2, 3) }),
        Effect::CreateBot { kind: BotKind::Parasite, position: v(1, 2, 3) }
    );
    assert_eq!(
        handle(&mut level, Message::SpawnBot { spawn_point_id: 0 }),
        Effect::CreateBot { kind: BotKind::Zombie, position: v(1, 0, 0) }
    );
    assert!(level.spawn_points[0].spawned);
    assert_eq!(handle(&mut level, Message::SpawnBot { spawn_point_id: 2 }), Effect::Done);
    assert_eq!(handle(&mut level, Message::GiveItem { actor: h(2), kind: ItemKind::Medkit }), Effect::Done);
    assert_eq!(health_of(&level, h(2)), 120_000);
    assert_eq!(
        handle(&mut level, Message::GiveItem { actor: h(2), kind: ItemKind::PlasmaGun }),
        Effect::CreateWeapon { actor: h(2), kind: WeaponKind::PlasmaRifle }
    );
    assert_eq!(handle(&mut level, Message::ShootWeapon { weapon: h(10), direction: None }), Effect::Perform);
    assert_eq!(handle(&mut level, Message::ShootWeapon { weapon: h(99), direction: None }), Effect::Done);
    assert_eq!(handle(&mut level, Message::ShowWeapon { weapon: h(10), state: true }), Effect::Perform);
    assert_eq!(handle(&mut level, Message::EndMatch), Effect::Perform);
    assert_eq!(
        handle(&mut level, Message::SpawnItem { kind: ItemKind::Medkit, position: v(0, 0, 0), adjust_height: false }),
        Effect::Perform
    );
    assert_eq!(
        handle(
            &mut level,
            Message::PlaySound { sound: Sound::FootStep1, position: v(0, 0, 0), gain: 1, rolloff_factor: 1, radius: 1 }
        ),
        Effect::Perform
    );
    assert!(outbox.is_empty());
}

#[test]
fn input_reaches_the_player_through_the_level() {
    let mut level = armed_level();
    let pressed = InputEvent::Button { button: ControlButton::Key(57), pressed: true };
    let r = level.process_input_event(&pressed, 16).unwrap();
    assert!(!r.begin_weapon_change && !r.rewind_toss_grenade);
    match level.actors().get(h(2)).unwrap() {
        Actor::Player(player) => assert!(player.controller.jump),
        Actor::Bot(_) => panic!("not the player"),
    }
    let r = level.process_input_event(&InputEvent::Wheel { delta: -1 }, 16).unwrap();
    assert!(r.begin_weapon_change);
    let mut outbox = vec![];
    level.remove_actor(h(2), v(0, 0, 0), &mut outbox);
    assert_eq!(level.process_input_event(&pressed, 16), None);
    let mut lonely = empty_level();
    lonely.add_bot(h(1), BotKind::Zombie);
    lonely.player = h(1);
    assert_eq!(lonely.process_input_event(&pressed, 16), None);
    assert_eq!(lonely.actors().entries.len(), 1);
}

#[test]
fn a_hit_draws_blood_from_an_actor_and_dust_from_the_level() {
    let mut outbox = vec![Message::EndMatch];
    let hit = Hit { actor: h(3), who: h(2), position: v(1, 2, 3), normal: v(0, 1000, 0) };
    hit_messages(hit, 17_000, Sound::BulletImpact, &mut outbox);
    assert_eq!(
        outbox,
        vec![
            Message::EndMatch,
            Message::CreateEffect { kind: EffectKind::BloodSpray, position: v(1, 2, 3), normal: v(0, 1000, 0) },
            Message::PlaySound {
                sound: Sound::BulletImpact,
                position: v(1, 2, 3),
                gain: 1000,
                rolloff_factor: 4000,
                radius: 3000,
            },
            Message::DamageActor { actor: h(3), who: h(2), amount: 17_000 },
        ]
    );
    let mut outbox = vec![];
    let wall = Hit { actor: Handle::none(), who: h(2), position: v(1, 2, 3), normal: v(0, 0, 1000) };
    hit_messages(wall, 17_000, Sound::BulletImpact, &mut outbox);
    assert_eq!(
        outbox[0],
        Message::CreateEffect { kind: EffectKind::BulletImpact, position: v(1, 2, 3), normal: v(0, 0, 1000) }
    );
    assert_eq!(outbox[2], Message::DamageActor { actor: Handle::none(), who: h(2), amount: 17_000 });
    let mut level = empty_level();
    level.add_bot(h(3), BotKind::Zombie);
    let shot = Message::ShootRay { weapon: h(10), begin: v(0, 0, 0), end: v(1, 0, 0), damage: 1, impact_sound: Sound::BulletImpact };
    assert_eq!(level.handle_message(&shot, v(0, 0, 0), &mut outbox), Effect::Perform);
    assert_eq!(level.handle_message(&outbox[0].clone(), v(0, 0, 0), &mut outbox), Effect::Perform);
    assert_eq!(outbox.len(), 3);
}

#[test]
fn a_level_lists_its_actors_as_candidates() {
    let mut level = armed_level();
    level.damage_actor(h(1), Handle::none(), 30_000, v(0, 0, 0));
    let targets = level.targets(&vec![v(1, 1, 1), v(2, 2, 2), v(3, 3, 3)]);
    assert_eq!(
        targets,
        vec![
            shooter_core::bot::TargetDescriptor { handle: h(1), health: 70_000, position: v(1, 1, 1) },
            shooter_core::bot::TargetDescriptor { handle: h(2), health: 100_000, position: v(2, 2, 2) },
        ]
    );
    assert_eq!(level.targets(&vec![v(1, 1, 1)]).len(), 1);
    assert!(level.targets(&vec![]).is_empty());
    assert_eq!(level.ammo(&vec![h(11), h(99), h(10), h(12)]), vec![7, 0, 30, 0]);
    assert!(level.ammo(&vec![]).is_empty());
}

#[test]
fn what_the_library_makes_is_well_formed() {
    let mut level = armed_level();
    assert!(level.is_wf());
    assert!(Bot::new(BotKind::Mutant).is_wf());
    assert!(shooter_core::player::Player::new(bindings()).is_wf());
    match &mut level.actors_mut().entries[1].value {
        Actor::Player(player) => player.run_factor = 1001,
        Actor::Bot(_) => panic!("not the player"),
    }
    assert!(!level.is_wf());
    let mut bot = Bot::new(BotKind::Zombie);
    bot.planner.current_path_point = 1;
    assert!(bot.is_wf());
    bot.planner.path.push(v(0, 0, 0));
    assert!(!bot.is_wf());
    bot.planner.path.push(v(0, 0, 0));
    assert!(bot.is_wf());
    bot.lower_body_machine.machine = shooter_core::machine::Machine::new(4, 0, 9).unwrap();
    assert!(!bot.is_wf());
    bot.lower_body_machine.machine = shooter_core::machine::Machine::with_transitions(
        4,
        0,
        9,
        shooter_core::bot::lower_body::LowerBodyMachine::graph(),
    )
    .unwrap();
    assert!(bot.is_wf());
    bot.upper_body_machine.machine =
        shooter_core::player::upper_body::UpperBodyMachine::new().machine;
    assert!(!bot.is_wf());
}
