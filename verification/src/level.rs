//! The level: what all entities of a frame share, where bots come from,
//! where nobody survives, and what becomes of the messages that entities
//! leave.

use vstd::prelude::*;
use vstd::string::*;
use crate::actor::{Actor, ActorContainer};
use crate::bot::{Bot, BotKind, TargetDescriptor};
use crate::character::{spec_healed, visibility_messages};
use crate::container::{handles_of, Container, Entry};
use crate::control_scheme::{ControlScheme, InputEvent};
use crate::handle::Handle;
use crate::math::{spec_count_down, GameTime, Vector3};
use crate::message::{EffectKind, ItemKind, Message, Sound, WeaponKind};
use crate::player::{ClipRequests, Player};
use crate::text::starts_with;

verus! {

/// How long the dead wait for their return.
pub const RESPAWN_TIME: i64 = 4000;

/// What every entity is told at the start of its tick.
#[derive(Copy, Clone, PartialEq, Eq, Structural, Debug)]
pub struct UpdateContext {
    pub time: GameTime,
    /// Whether the level has a navigation mesh.
    pub navmesh: bool,
}

/// A box with its sides along the axes.
#[derive(Copy, Clone, PartialEq, Eq, Structural, Debug)]
pub struct AxisAlignedBoundingBox {
    pub min: Vector3,
    pub max: Vector3,
}

impl AxisAlignedBoundingBox {
    /// Whether a point lies in the box; the faces belong to it.
    pub open spec fn spec_is_contains_point(self, point: Vector3) -> bool {
        &&& self.min.x <= point.x <= self.max.x
        &&& self.min.y <= point.y <= self.max.y
        &&& self.min.z <= point.z <= self.max.z
    }

    pub fn is_contains_point(&self, point: Vector3) -> (r: bool)
        ensures
            r == self.spec_is_contains_point(point),
    {
        point.x >= self.min.x && point.x <= self.max.x && point.y >= self.min.y && point.y
            <= self.max.y && point.z >= self.min.z && point.z <= self.max.z
    }
}

/// A part of the level where nobody survives.
#[derive(Copy, Clone, PartialEq, Eq, Structural, Debug)]
pub struct DeathZone {
    pub bounds: AxisAlignedBoundingBox,
}

/// A place where a bot enters the level. A spawn point is used once: what
/// has spawned stays spawned.
#[derive(Copy, Clone, PartialEq, Eq, Structural, Debug)]
pub struct SpawnPoint {
    pub position: Vector3,
    pub bot_kind: BotKind,
    pub spawned: bool,
}

impl SpawnPoint {
    /// A spawn point that has not been used.
    pub fn new(position: Vector3, bot_kind: BotKind) -> (r: SpawnPoint)
        ensures
            r == (SpawnPoint { position, bot_kind, spawned: false }),
    {
        SpawnPoint { position, bot_kind, spawned: false }
    }

    /// Uses the spawn point.
    pub fn spawn(&mut self)
        ensures
            *final(self) == (SpawnPoint { spawned: true, ..*old(self) }),
    {
        self.spawned = true;
    }
}

impl Default for SpawnPoint {
    /// An unused spawn point for a zombie at the origin.
    fn default() -> (r: SpawnPoint)
        ensures
            r == (SpawnPoint {
                position: Vector3 { x: 0, y: 0, z: 0 },
                bot_kind: BotKind::Zombie,
                spawned: false,
            }),
    {
        SpawnPoint { position: Vector3 { x: 0, y: 0, z: 0 }, bot_kind: BotKind::Zombie, spawned: false }
    }
}

impl Default for DeathZone {
    /// A zone of one point, the origin.
    fn default() -> (r: DeathZone)
        ensures
            r == (DeathZone {
                bounds: AxisAlignedBoundingBox {
                    min: Vector3 { x: 0, y: 0, z: 0 },
                    max: Vector3 { x: 0, y: 0, z: 0 },
                },
            }),
    {
        DeathZone {
            bounds: AxisAlignedBoundingBox {
                min: Vector3 { x: 0, y: 0, z: 0 },
                max: Vector3 { x: 0, y: 0, z: 0 },
            },
        }
    }
}

/// An item lying in the level.
#[derive(Copy, Clone, PartialEq, Eq, Structural, Debug)]
pub struct ItemPlacement {
    pub kind: ItemKind,
    pub position: Vector3,
}

/// A node of the scene, as far as the level cares.
pub struct SceneNode {
    pub name: String,
    /// Where the node is in the world.
    pub position: Vector3,
    /// Whether the node is a mesh.
    pub is_mesh: bool,
    /// The box around the node in the world.
    pub bounds: AxisAlignedBoundingBox,
}

/// What a node of the scene means to the level. The beginning of the
/// name decides.
#[derive(Copy, Clone, PartialEq, Eq, Structural, Debug)]
pub enum NodeRole {
    Item(ItemKind),
    Spawn(BotKind),
    PlayerSpawn,
    /// A death zone; only a mesh can be one.
    DeathZone,
    Scenery,
}

/// The role of a node by its name.
pub open spec fn spec_classify(name: Seq<char>, is_mesh: bool) -> NodeRole {
    if "Medkit"@.is_prefix_of(name) {
        NodeRole::Item(ItemKind::Medkit)
    } else if "Ammo_Ak47"@.is_prefix_of(name) {
        NodeRole::Item(ItemKind::Ak47Ammo)
    } else if "Ammo_M4"@.is_prefix_of(name) {
        NodeRole::Item(ItemKind::M4Ammo)
    } else if "Ammo_Plasma"@.is_prefix_of(name) {
        NodeRole::Item(ItemKind::Plasma)
    } else if "Zombie"@.is_prefix_of(name) {
        NodeRole::Spawn(BotKind::Zombie)
    } else if "Mutant"@.is_prefix_of(name) {
        NodeRole::Spawn(BotKind::Mutant)
    } else if "Parasite"@.is_prefix_of(name) {
        NodeRole::Spawn(BotKind::Parasite)
    } else if "PlayerSpawnPoint"@.is_prefix_of(name) {
        NodeRole::PlayerSpawn
    } else if "DeathZone"@.is_prefix_of(name) && is_mesh {
        NodeRole::DeathZone
    } else {
        NodeRole::Scenery
    }
}

pub fn classify(name: &str, is_mesh: bool) -> (r: NodeRole)
    ensures
        r == spec_classify(name@, is_mesh),
{
    if starts_with(name, "Medkit") {
        NodeRole::Item(ItemKind::Medkit)
    } else if starts_with(name, "Ammo_Ak47") {
        NodeRole::Item(ItemKind::Ak47Ammo)
    } else if starts_with(name, "Ammo_M4") {
        NodeRole::Item(ItemKind::M4Ammo)
    } else if starts_with(name, "Ammo_Plasma") {
        NodeRole::Item(ItemKind::Plasma)
    } else if starts_with(name, "Zombie") {
        NodeRole::Spawn(BotKind::Zombie)
    } else if starts_with(name, "Mutant") {
        NodeRole::Spawn(BotKind::Mutant)
    } else if starts_with(name, "Parasite") {
        NodeRole::Spawn(BotKind::Parasite)
    } else if starts_with(name, "PlayerSpawnPoint") {
        NodeRole::PlayerSpawn
    } else if starts_with(name, "DeathZone") && is_mesh {
        NodeRole::DeathZone
    } else {
        NodeRole::Scenery
    }
}

/// What the analysis of a scene has found.
pub struct AnalysisResult {
    pub items: Vec<ItemPlacement>,
    pub death_zones: Vec<DeathZone>,
    pub spawn_points: Vec<SpawnPoint>,
    pub player_spawn_position: Vector3,
}

/// What the analysis of a scene finds, as mathematics.
pub ghost struct Analysis {
    pub items: Seq<ItemPlacement>,
    pub death_zones: Seq<DeathZone>,
    pub spawn_points: Seq<SpawnPoint>,
    pub player_spawn_position: Vector3,
}

/// The role of a node.
pub open spec fn role_of(node: SceneNode) -> NodeRole {
    spec_classify(node.name@, node.is_mesh)
}

impl Analysis {
    /// What is known before any node has been looked at: nothing, and
    /// the player enters at the origin.
    pub open spec fn nothing() -> Analysis {
        Analysis {
            items: Seq::empty(),
            death_zones: Seq::empty(),
            spawn_points: Seq::empty(),
            player_spawn_position: Vector3 { x: 0, y: 0, z: 0 },
        }
    }

    /// What is known after one more node has been looked at.
    pub open spec fn with_node(self, node: SceneNode) -> Analysis {
        match role_of(node) {
            NodeRole::Item(kind) => Analysis {
                items: self.items.push(ItemPlacement { kind, position: node.position }),
                ..self
            },
            NodeRole::Spawn(bot_kind) => Analysis {
                spawn_points: self.spawn_points.push(
                    SpawnPoint { position: node.position, bot_kind, spawned: false },
                ),
                ..self
            },
            NodeRole::PlayerSpawn => Analysis { player_spawn_position: node.position, ..self },
            NodeRole::DeathZone => Analysis {
                death_zones: self.death_zones.push(DeathZone { bounds: node.bounds }),
                ..self
            },
            NodeRole::Scenery => self,
        }
    }

    /// What the analysis of a sequence of nodes finds: every item, spawn
    /// point and death zone in the order of the nodes, and the place of
    /// the last node that marks where the player enters.
    pub open spec fn of(nodes: Seq<SceneNode>) -> Analysis
        decreases nodes.len(),
    {
        if nodes.len() == 0 {
            Analysis::nothing()
        } else {
            Analysis::of(nodes.drop_last()).with_node(nodes.last())
        }
    }
}

impl View for AnalysisResult {
    type V = Analysis;

    open spec fn view(&self) -> Analysis {
        Analysis {
            items: self.items@,
            death_zones: self.death_zones@,
            spawn_points: self.spawn_points@,
            player_spawn_position: self.player_spawn_position,
        }
    }
}

/// Looks at every node of a scene and finds the items, the spawn points
/// of bots and player, and the death zones.
pub fn analyze(nodes: &Vec<SceneNode>) -> (r: AnalysisResult)
    ensures
        r@ == Analysis::of(nodes@),
{
    let mut result = AnalysisResult {
        items: Vec::new(),
        death_zones: Vec::new(),
        spawn_points: Vec::new(),
        player_spawn_position: Vector3 { x: 0, y: 0, z: 0 },
    };
    let mut i: usize = 0;
    while i < nodes.len()
        invariant
            i <= nodes@.len(),
            result@ == Analysis::of(nodes@.take(i as int)),
        decreases nodes@.len() - i,
    {
        let node: &SceneNode = &nodes[i];
        proof {
            assert(nodes@.take(i + 1).drop_last() =~= nodes@.take(i as int));
            assert(nodes@.take(i + 1).last() == nodes@[i as int]);
        }
        match classify(node.name.as_str(), node.is_mesh) {
            NodeRole::Item(kind) => {
                result.items.push(ItemPlacement { kind, position: node.position });
            },
            NodeRole::Spawn(bot_kind) => {
                result.spawn_points.push(
                    SpawnPoint { position: node.position, bot_kind, spawned: false },
                );
            },
            NodeRole::PlayerSpawn => {
                result.player_spawn_position = node.position;
            },
            NodeRole::DeathZone => {
                result.death_zones.push(DeathZone { bounds: node.bounds });
            },
            NodeRole::Scenery => {},
        }
        i += 1;
    }
    assert(nodes@.take(i as int) =~= nodes@);
    result
}

/// The health that a death zone takes on every tick.
pub const DEATH_ZONE_DAMAGE: u32 = 99_999_000;

/// The health that a medkit gives.
pub const MEDKIT_HEALTH: u32 = 20_000;

/// The rounds that an item with ammunition holds.
pub const AMMO_PER_ITEM: u32 = 200;

/// A weapon, as far as the level cares.
#[derive(Copy, Clone, PartialEq, Eq, Structural, Debug)]
pub struct Weapon {
    pub kind: WeaponKind,
    pub ammo: u32,
    /// The actor that owns the weapon.
    pub owner: Handle,
}

pub type WeaponContainer = Container<Weapon>;

pub type ItemContainer = Container<ItemPlacement>;

pub struct Level {
    /// The actor under human control; the handle that names nothing once
    /// it has left the level.
    pub player: Handle,
    pub actors: ActorContainer,
    pub weapons: WeaponContainer,
    pub items: ItemContainer,
    pub spawn_points: Vec<SpawnPoint>,
    pub death_zones: Vec<DeathZone>,
    /// How long the level has run.
    pub time: i64,
}

/// What is left for the host to do once the level has handled a
/// message.
#[allow(inconsistent_fields)]
#[derive(Copy, Clone, PartialEq, Eq, Structural, Debug)]
pub enum Effect {
    /// Nothing.
    Done,
    /// Make a weapon of this kind and hand it over with
    /// `give_new_weapon`.
    CreateWeapon { actor: Handle, kind: WeaponKind },
    /// Make the body of a bot of this kind at this place and hand it over
    /// with `add_bot`.
    CreateBot { kind: BotKind, position: Vector3 },
    /// Release what the actor held in the scene. The level has forgotten
    /// the actor and its weapons.
    ReleaseActor { actor: Handle },
    /// The message wants nothing of the level: carry it out.
    Perform,
}

/// Where a shot has hit.
#[derive(Copy, Clone, PartialEq, Eq, Structural, Debug)]
pub struct Hit {
    /// The actor that was hit; the handle that names nothing if the shot
    /// hit the level.
    pub actor: Handle,
    /// The actor that fired.
    pub who: Handle,
    pub position: Vector3,
    /// The normal of the surface at that place.
    pub normal: Vector3,
}

/// What follows from a hit: blood from an actor or dust from the level,
/// the sound of the impact, and the damage.
pub open spec fn spec_hit_messages(hit: Hit, damage: u32, impact_sound: Sound) -> Seq<Message> {
    seq![
        Message::CreateEffect {
            kind: if hit.actor.spec_is_none() {
                EffectKind::BulletImpact
            } else {
                EffectKind::BloodSpray
            },
            position: hit.position,
            normal: hit.normal,
        },
        Message::PlaySound {
            sound: impact_sound,
            position: hit.position,
            gain: 1000,
            rolloff_factor: 4000,
            radius: 3000,
        },
        Message::DamageActor { actor: hit.actor, who: hit.who, amount: damage },
    ]
}

/// Sends what follows from the hit of a ray.
pub fn hit_messages(hit: Hit, damage: u32, impact_sound: Sound, outbox: &mut Vec<Message>)
    ensures
        final(outbox)@ == old(outbox)@ + spec_hit_messages(hit, damage, impact_sound),
{
    outbox.push(
        Message::CreateEffect {
            kind: if hit.actor.is_none() {
                EffectKind::BulletImpact
            } else {
                EffectKind::BloodSpray
            },
            position: hit.position,
            normal: hit.normal,
        },
    );
    outbox.push(
        Message::PlaySound {
            sound: impact_sound,
            position: hit.position,
            gain: 1000,
            rolloff_factor: 4000,
            radius: 3000,
        },
    );
    outbox.push(Message::DamageActor { actor: hit.actor, who: hit.who, amount: damage });
    assert(outbox@ =~= old(outbox)@ + spec_hit_messages(hit, damage, impact_sound));
}

/// The weapon that an item is, or that its ammunition fits.
pub open spec fn spec_weapon_for(kind: ItemKind) -> Option<WeaponKind> {
    match kind {
        ItemKind::Ak47 => Some(WeaponKind::Ak47),
        ItemKind::PlasmaGun => Some(WeaponKind::PlasmaRifle),
        ItemKind::M4 => Some(WeaponKind::M4),
        ItemKind::Plasma => Some(WeaponKind::PlasmaRifle),
        ItemKind::Ak47Ammo => Some(WeaponKind::Ak47),
        ItemKind::M4Ammo => Some(WeaponKind::M4),
        ItemKind::Medkit => None,
        ItemKind::RocketLauncher => None,
    }
}

pub fn weapon_for(kind: ItemKind) -> (r: Option<WeaponKind>)
    ensures
        r == spec_weapon_for(kind),
{
    match kind {
        ItemKind::Ak47 => Some(WeaponKind::Ak47),
        ItemKind::PlasmaGun => Some(WeaponKind::PlasmaRifle),
        ItemKind::M4 => Some(WeaponKind::M4),
        ItemKind::Plasma => Some(WeaponKind::PlasmaRifle),
        ItemKind::Ak47Ammo => Some(WeaponKind::Ak47),
        ItemKind::M4Ammo => Some(WeaponKind::M4),
        ItemKind::Medkit => None,
        ItemKind::RocketLauncher => None,
    }
}

/// Whether an item is itself a weapon.
pub open spec fn spec_is_weapon(kind: ItemKind) -> bool {
    kind == ItemKind::Ak47 || kind == ItemKind::PlasmaGun || kind == ItemKind::M4
}

pub fn is_weapon(kind: ItemKind) -> (r: bool)
    ensures
        r == spec_is_weapon(kind),
{
    match kind {
        ItemKind::Ak47 => true,
        ItemKind::PlasmaGun => true,
        ItemKind::M4 => true,
        _ => false,
    }
}

/// The item that a weapon becomes when its owner leaves the level.
pub open spec fn spec_item_of(kind: WeaponKind) -> ItemKind {
    match kind {
        WeaponKind::M4 => ItemKind::M4,
        WeaponKind::Ak47 => ItemKind::Ak47,
        WeaponKind::PlasmaRifle => ItemKind::PlasmaGun,
    }
}

pub fn item_of(kind: WeaponKind) -> (r: ItemKind)
    ensures
        r == spec_item_of(kind),
{
    match kind {
        WeaponKind::M4 => ItemKind::M4,
        WeaponKind::Ak47 => ItemKind::Ak47,
        WeaponKind::PlasmaRifle => ItemKind::PlasmaGun,
    }
}

/// Whether the weapon under `handle` is of `kind`.
pub open spec fn is_of_kind(weapons: Seq<Entry<Weapon>>, handle: Handle, kind: WeaponKind) -> bool {
    handles_of(weapons).index_of_first(handle) matches Some(w)
        && weapons[w].value.kind == kind
}

/// The first of the owned weapons at or after `k` that is of `kind`.
pub open spec fn first_of_kind(
    owned: Seq<Handle>,
    weapons: Seq<Entry<Weapon>>,
    kind: WeaponKind,
    k: int,
) -> Option<int>
    decreases owned.len() - k,
{
    if k < 0 || k >= owned.len() {
        None
    } else if is_of_kind(weapons, owned[k], kind) {
        Some(k)
    } else {
        first_of_kind(owned, weapons, kind, k + 1)
    }
}

/// `ammo` with the rounds of one item added, and no more than fits.
pub open spec fn spec_refilled(ammo: u32) -> u32 {
    if ammo + AMMO_PER_ITEM > u32::MAX {
        u32::MAX
    } else {
        (ammo + AMMO_PER_ITEM) as u32
    }
}

/// The weapons after the one under `handle` has been refilled.
pub open spec fn refilled(weapons: Seq<Entry<Weapon>>, handle: Handle) -> Seq<Entry<Weapon>> {
    match handles_of(weapons).index_of_first(handle) {
        Some(w) => weapons.update(
            w,
            Entry {
                handle: weapons[w].handle,
                value: Weapon { ammo: spec_refilled(weapons[w].value.ammo), ..weapons[w].value },
            },
        ),
        None => weapons,
    }
}

/// The messages by which a death zone takes the life of whoever stands
/// in it: one for every zone that holds the place.
pub open spec fn zone_damage(actor: Handle, position: Vector3, zones: Seq<DeathZone>) -> Seq<
    Message,
>
    decreases zones.len(),
{
    if zones.len() == 0 {
        Seq::empty()
    } else {
        let before = zone_damage(actor, position, zones.drop_last());
        if zones.last().bounds.spec_is_contains_point(position) {
            before.push(
                Message::DamageActor {
                    actor,
                    who: Handle::spec_none(),
                    amount: DEATH_ZONE_DAMAGE,
                },
            )
        } else {
            before
        }
    }
}

/// The messages of all death zones for the first `k` actors, in the
/// order of the actors. An actor whose place is unknown is in no zone.
pub open spec fn death_zone_messages(
    handles: Seq<Handle>,
    positions: Seq<Vector3>,
    zones: Seq<DeathZone>,
    k: int,
) -> Seq<Message>
    decreases k,
{
    if k <= 0 {
        Seq::empty()
    } else {
        let before = death_zone_messages(handles, positions, zones, k - 1);
        if k - 1 < handles.len() && k - 1 < positions.len() {
            before + zone_damage(handles[k - 1], positions[k - 1], zones)
        } else {
            before
        }
    }
}

/// What is left of the weapons, and what lies on the ground, after an
/// actor has dropped the first `k` of the weapons it owned.
pub open spec fn dropped(
    owned: Seq<Handle>,
    weapons: Seq<Entry<Weapon>>,
    position: Vector3,
    k: int,
) -> (Seq<Entry<Weapon>>, Seq<Message>)
    decreases k,
{
    if k <= 0 || k > owned.len() {
        (weapons, Seq::empty())
    } else {
        let (left, lying) = dropped(owned, weapons, position, k - 1);
        match handles_of(left).index_of_first(owned[k - 1]) {
            Some(w) => (
                left.remove(w),
                lying.push(
                    Message::SpawnItem {
                        kind: spec_item_of(left[w].value.kind),
                        position,
                        adjust_height: true,
                    },
                ),
            ),
            None => (left, lying),
        }
    }
}

/// The actors after each of them has been told that `removed` has left.
pub open spec fn informed(actors: Seq<Entry<Actor>>, removed: Handle) -> Seq<Entry<Actor>> {
    Seq::new(
        actors.len(),
        |i: int|
            Entry { handle: actors[i].handle, value: actors[i].value.without_target(removed) },
    )
}

impl Level {
    /// Every actor is well formed.
    pub open spec fn wf(&self) -> bool {
        forall|i: int| 0 <= i < self.actors.entries@.len() ==> (#[trigger] self.actors.entries@[i]).value.wf()
    }

    /// Whether every actor is well formed.
    pub fn is_wf(&self) -> (r: bool)
        ensures
            r == self.wf(),
    {
        let mut i: usize = 0;
        while i < self.actors.entries.len()
            invariant
                i <= self.actors.entries@.len(),
                forall|j: int| 0 <= j < i ==> (#[trigger] self.actors.entries@[j]).value.wf(),
            decreases self.actors.entries@.len() - i,
        {
            if !self.actors.entries[i].value.is_wf() {
                return false;
            }
            i += 1;
        }
        true
    }

    /// The candidates that bots may go after: every actor with its
    /// health and its place. `positions` holds the place of every actor,
    /// in the order of the actors; an actor whose place is unknown is no
    /// candidate.
    pub fn targets(&self, positions: &Vec<Vector3>) -> (r: Vec<TargetDescriptor>)
        ensures
            r@.len() == if positions@.len() < self.actors.entries@.len() {
                positions@.len()
            } else {
                self.actors.entries@.len()
            },
            forall|i: int|
                0 <= i < r@.len() ==> #[trigger] r@[i] == (TargetDescriptor {
                    handle: self.actors.entries@[i].handle,
                    health: self.actors.entries@[i].value.spec_character().health,
                    position: positions@[i],
                }),
    {
        let mut targets: Vec<TargetDescriptor> = Vec::new();
        let mut i: usize = 0;
        while i < self.actors.entries.len() && i < positions.len()
            invariant
                i <= self.actors.entries@.len(),
                i <= positions@.len(),
                targets@.len() == i,
                forall|j: int|
                    0 <= j < i ==> #[trigger] targets@[j] == (TargetDescriptor {
                        handle: self.actors.entries@[j].handle,
                        health: self.actors.entries@[j].value.spec_character().health,
                        position: positions@[j],
                    }),
            decreases self.actors.entries@.len() - i,
        {
            targets.push(
                TargetDescriptor {
                    handle: self.actors.entries[i].handle,
                    health: self.actors.entries[i].value.character().health,
                    position: positions[i],
                },
            );
            i += 1;
        }
        targets
    }

    /// The ammunition of every weapon in a list, in the order of the
    /// list. A weapon that the level does not keep counts as empty.
    pub fn ammo(&self, owned: &Vec<Handle>) -> (r: Vec<u32>)
        ensures
            r@.len() == owned@.len(),
            forall|i: int|
                0 <= i < owned@.len() ==> #[trigger] r@[i] == match self.weapons.index_of(
                    owned@[i],
                ) {
                    Some(w) => self.weapons.entries@[w].value.ammo,
                    None => 0,
                },
    {
        let mut ammo: Vec<u32> = Vec::new();
        let mut i: usize = 0;
        while i < owned.len()
            invariant
                i <= owned@.len(),
                ammo@.len() == i,
                forall|j: int|
                    0 <= j < i ==> #[trigger] ammo@[j] == match self.weapons.index_of(owned@[j]) {
                        Some(w) => self.weapons.entries@[w].value.ammo,
                        None => 0,
                    },
            decreases owned@.len() - i,
        {
            let rounds: u32 = match self.weapons.get(owned[i]) {
                Some(weapon) => weapon.ammo,
                None => 0,
            };
            ammo.push(rounds);
            i += 1;
        }
        ammo
    }

    /// A level with the spawn points and death zones that the analysis of
    /// its scene has found, and nobody in it yet. The items that the
    /// analysis has found enter the level one by one, each under the
    /// handle that the host gives it once it has made the item.
    pub fn new(analysis: AnalysisResult) -> (r: Level)
        ensures
            r.wf(),
            r.player == Handle::spec_none(),
            r.actors.entries@.len() == 0,
            r.weapons.entries@.len() == 0,
            r.items.entries@.len() == 0,
            r.spawn_points@ == analysis.spawn_points@,
            r.death_zones@ == analysis.death_zones@,
            r.time == 0,
    {
        Level {
            player: Handle::none(),
            actors: Container::new(),
            weapons: Container::new(),
            items: Container::new(),
            spawn_points: analysis.spawn_points,
            death_zones: analysis.death_zones,
            time: 0,
        }
    }

    pub fn get_player(&self) -> (r: Handle)
        ensures
            r == self.player,
    {
        self.player
    }

    pub fn actors(&self) -> (r: &ActorContainer)
        ensures
            *r == self.actors,
    {
        &self.actors
    }

    pub fn actors_mut(&mut self) -> (r: &mut ActorContainer)
        ensures
            *r == old(self).actors,
            *final(self) == (Level { actors: *final(r), ..*old(self) }),
    {
        &mut self.actors
    }

    pub fn weapons(&self) -> (r: &WeaponContainer)
        ensures
            *r == self.weapons,
    {
        &self.weapons
    }

    /// What `spawn_bot` does to a level, and what it returns.
    pub open spec fn spawn_done(
        pre: &Level,
        post: &Level,
        spawn_point_id: usize,
        r: Option<SpawnPoint>,
    ) -> bool {
        &&& post.player == pre.player
        &&& post.actors == pre.actors
        &&& post.weapons == pre.weapons
        &&& post.items == pre.items
        &&& post.death_zones == pre.death_zones
        &&& post.time == pre.time
        &&& (r is Some) == (spawn_point_id < pre.spawn_points@.len())
        &&& r matches Some(point) ==> point == (SpawnPoint {
            spawned: true,
            ..pre.spawn_points@[spawn_point_id as int]
        }) && post.spawn_points@ == pre.spawn_points@.update(spawn_point_id as int, point)
        &&& r is None ==> post.spawn_points@ == pre.spawn_points@
    }

    /// Uses a spawn point and tells what enters the level there; nothing
    /// if there is no spawn point of that number.
    pub fn spawn_bot(&mut self, spawn_point_id: usize) -> (r: Option<SpawnPoint>)
        ensures
            Level::spawn_done(old(self), final(self), spawn_point_id, r),
    {
        if spawn_point_id < self.spawn_points.len() {
            let mut point: SpawnPoint = self.spawn_points[spawn_point_id];
            point.spawn();
            self.spawn_points.set(spawn_point_id, point);
            Some(point)
        } else {
            None
        }
    }

    /// Lets a bot of a kind into the level, under the handle that the
    /// host has given it.
    pub fn add_bot(&mut self, handle: Handle, kind: BotKind)
        requires
            old(self).wf(),
        ensures
            final(self).wf(),
            final(self).actors.entries@.len() == old(self).actors.entries@.len() + 1,
            final(self).actors.entries@.drop_last() == old(self).actors.entries@,
            final(self).actors.entries@.last().handle == handle,
            final(self).actors.entries@.last().value matches Actor::Bot(bot) && bot.is_newborn(
                kind,
            ),
            final(self).player == old(self).player,
            final(self).weapons == old(self).weapons,
            final(self).items == old(self).items,
            final(self).spawn_points == old(self).spawn_points,
            final(self).death_zones == old(self).death_zones,
            final(self).time == old(self).time,
    {
        self.actors.add(handle, Actor::Bot(Bot::new(kind)));
        assert(self.actors.entries@.drop_last() =~= old(self).actors.entries@);
    }

    /// Lets the player into the level, under the handle that the host
    /// has given it.
    pub fn add_player(&mut self, handle: Handle, control_scheme: ControlScheme)
        requires
            old(self).wf(),
        ensures
            final(self).wf(),
            final(self).player == handle,
            final(self).actors.entries@.len() == old(self).actors.entries@.len() + 1,
            final(self).actors.entries@.drop_last() == old(self).actors.entries@,
            final(self).actors.entries@.last().handle == handle,
            final(self).actors.entries@.last().value matches Actor::Player(player)
                && player.is_fresh(control_scheme),
            final(self).weapons == old(self).weapons,
            final(self).items == old(self).items,
            final(self).spawn_points == old(self).spawn_points,
            final(self).death_zones == old(self).death_zones,
            final(self).time == old(self).time,
    {
        self.actors.add(handle, Actor::Player(Player::new(control_scheme)));
        self.player = handle;
        assert(self.actors.entries@.drop_last() =~= old(self).actors.entries@);
    }

    /// Whether damage reaches its victim: the victim is in the level, and
    /// so is whoever did the damage, if anybody did.
    pub open spec fn damage_applies(&self, actor: Handle, who: Handle) -> bool {
        self.actors.spec_contains(actor) && (who.spec_is_none() || self.actors.spec_contains(who))
    }

    /// An actor after it has been damaged.
    pub open spec fn damaged(
        victim: Actor,
        actor: Handle,
        who: Handle,
        amount: u32,
        who_position: Vector3,
    ) -> Actor {
        let warned = if who.spec_is_none() {
            victim
        } else {
            victim.alerted(actor, who_position)
        };
        warned.with_health(spec_count_down(victim.spec_character().health, amount))
    }

    /// Whether `post` is `pre` but for its actors, weapons and spawn
    /// points.
    pub open spec fn same_frame(pre: &Level, post: &Level) -> bool {
        &&& post.items == pre.items
        &&& post.death_zones == pre.death_zones
        &&& post.time == pre.time
    }

    /// What `damage_actor` does to a level.
    pub open spec fn damage_done(
        pre: &Level,
        post: &Level,
        actor: Handle,
        who: Handle,
        amount: u32,
        who_position: Vector3,
    ) -> bool {
        &&& Level::same_frame(pre, post)
        &&& post.player == pre.player
        &&& post.weapons == pre.weapons
        &&& post.spawn_points == pre.spawn_points
        &&& if pre.damage_applies(actor, who) {
            let i = pre.actors.index_of(actor)->Some_0;
            post.actors.entries@ == pre.actors.entries@.update(
                i,
                Entry {
                    handle: actor,
                    value: Level::damaged(
                        pre.actors.entries@[i].value,
                        actor,
                        who,
                        amount,
                        who_position,
                    ),
                },
            )
        } else {
            post.actors.entries@ == pre.actors.entries@
        }
    }

    /// Takes `amount` of health from `actor`. If somebody did the damage,
    /// a bot that suffers it turns to where that somebody stands.
    pub fn damage_actor(&mut self, actor: Handle, who: Handle, amount: u32, who_position: Vector3)
        requires
            old(self).wf(),
        ensures
            final(self).wf(),
            Level::damage_done(old(self), final(self), actor, who, amount, who_position),
    {
        if who.is_some() && !self.actors.contains(who) {
            return ;
        }
        if let Some(i) = self.actors.find(actor) {
            let mut entry = self.actors.entries.remove(i);
            if who.is_some() {
                entry.value.alert(actor, who_position);
            }
            entry.value.damage(amount);
            self.actors.entries.insert(i, entry);
            assert(self.actors.entries@ =~= old(self).actors.entries@.update(
                i as int,
                Entry {
                    handle: actor,
                    value: Level::damaged(
                        old(self).actors.entries@[i as int].value,
                        actor,
                        who,
                        amount,
                        who_position,
                    ),
                },
            ));
        }
    }

    /// The messages by which the death zones take the life of whoever
    /// stands in them. `positions` holds the place of every actor, in the
    /// order of the actors.
    pub fn update_death_zones(&self, positions: &Vec<Vector3>, outbox: &mut Vec<Message>)
        ensures
            final(outbox)@ == old(outbox)@ + death_zone_messages(
                self.actors.handles(),
                positions@,
                self.death_zones@,
                self.actors.entries@.len() as int,
            ),
    {
        let mut i: usize = 0;
        assert(outbox@ =~= old(outbox)@ + Seq::<Message>::empty());
        while i < self.actors.entries.len()
            invariant
                i <= self.actors.entries@.len(),
                outbox@ == old(outbox)@ + death_zone_messages(
                    self.actors.handles(),
                    positions@,
                    self.death_zones@,
                    i as int,
                ),
            decreases self.actors.entries@.len() - i,
        {
            let ghost before = outbox@;
            if i < positions.len() {
                let handle: Handle = self.actors.entries[i].handle;
                let position: Vector3 = positions[i];
                let mut j: usize = 0;
                assert(outbox@ =~= before + zone_damage(
                    handle,
                    position,
                    self.death_zones@.take(0),
                ));
                while j < self.death_zones.len()
                    invariant
                        j <= self.death_zones@.len(),
                        outbox@ == before + zone_damage(
                            handle,
                            position,
                            self.death_zones@.take(j as int),
                        ),
                    decreases self.death_zones@.len() - j,
                {
                    proof {
                        assert(self.death_zones@.take(j + 1).drop_last() =~= self.death_zones@.take(
                            j as int,
                        ));
                        assert(self.death_zones@.take(j + 1).last() == self.death_zones@[j as int]);
                    }
                    if self.death_zones[j].bounds.is_contains_point(position) {
                        outbox.push(
                            Message::DamageActor {
                                actor: handle,
                                who: Handle::none(),
                                amount: DEATH_ZONE_DAMAGE,
                            },
                        );
                    }
                    j += 1;
                    assert(outbox@ =~= before + zone_damage(
                        handle,
                        position,
                        self.death_zones@.take(j as int),
                    ));
                }
                assert(self.death_zones@.take(j as int) =~= self.death_zones@);
            }
            i += 1;
            assert(outbox@ =~= old(outbox)@ + death_zone_messages(
                self.actors.handles(),
                positions@,
                self.death_zones@,
                i as int,
            ));
        }
    }

    /// Whether the match is over: the player is in the level and dead.
    pub open spec fn match_is_over(&self) -> bool {
        self.actors.index_of(self.player) matches Some(i)
            && self.actors.entries@[i].value.spec_character().health <= 0
    }

    /// The message that ends the match, once the player is dead.
    pub fn update_game_ending(&self) -> (r: Option<Message>)
        ensures
            r == if self.match_is_over() {
                Some(Message::EndMatch)
            } else {
                None
            },
    {
        match self.actors.get(self.player) {
            Some(actor) => {
                if actor.is_dead() {
                    Some(Message::EndMatch)
                } else {
                    None
                }
            },
            None => None,
        }
    }

    /// One tick of the level itself: time passes, the death zones take
    /// their toll, and the match ends if the player is dead. The entities
    /// have their own ticks.
    pub fn update(&mut self, time: GameTime, positions: &Vec<Vector3>) -> (messages: Vec<Message>)
        ensures
            final(self).time == if old(self).time + time.delta > i64::MAX {
                i64::MAX
            } else {
                (old(self).time + time.delta) as i64
            },
            *final(self) == (Level { time: final(self).time, ..*old(self) }),
            messages@ == death_zone_messages(
                old(self).actors.handles(),
                positions@,
                old(self).death_zones@,
                old(self).actors.entries@.len() as int,
            ) + if old(self).match_is_over() {
                seq![Message::EndMatch]
            } else {
                Seq::empty()
            },
    {
        self.time = if self.time <= i64::MAX - time.delta as i64 {
            self.time + time.delta as i64
        } else {
            i64::MAX
        };
        let mut messages: Vec<Message> = Vec::new();
        self.update_death_zones(positions, &mut messages);
        let ghost tolls = messages@;
        if let Some(end) = self.update_game_ending() {
            messages.push(end);
            assert(messages@ =~= tolls + seq![Message::EndMatch]);
        } else {
            assert(messages@ =~= tolls + Seq::<Message>::empty());
        }
        messages
    }

    /// Hands an input event to the player, if the player is in the
    /// level.
    pub fn process_input_event(&mut self, event: &InputEvent, dt: u32) -> (r: Option<ClipRequests>)
        requires
            old(self).wf(),
        ensures
            final(self).wf(),
            final(self).player == old(self).player,
            final(self).weapons == old(self).weapons,
            final(self).items == old(self).items,
            final(self).spawn_points == old(self).spawn_points,
            final(self).death_zones == old(self).death_zones,
            final(self).time == old(self).time,
            match old(self).actors.index_of(old(self).player) {
                Some(i) => match old(self).actors.entries@[i].value {
                    Actor::Player(player) => r == Some(player.requests(*event))
                        && final(self).actors.entries@ == old(self).actors.entries@.update(
                        i,
                        Entry {
                            handle: old(self).player,
                            value: Actor::Player(
                                Player {
                                    controller: player.controller_after(*event, dt),
                                    weapon_change_direction: player.direction_after(*event),
                                    ..player
                                },
                            ),
                        },
                    ),
                    Actor::Bot(bot) => r is None && final(self).actors.entries@ == old(
                        self,
                    ).actors.entries@,
                },
                None => r is None && final(self).actors.entries@ == old(self).actors.entries@,
            },
    {
        match self.actors.find(self.player) {
            Some(i) => {
                let entry = self.actors.entries.remove(i);
                match entry.value {
                    Actor::Player(mut player) => {
                        let requests = player.process_input_event(event, dt);
                        self.actors.entries.insert(
                            i,
                            Entry { handle: entry.handle, value: Actor::Player(player) },
                        );
                        assert(self.actors.entries@ =~= old(self).actors.entries@.update(
                            i as int,
                            Entry { handle: old(self).player, value: Actor::Player(player) },
                        ));
                        Some(requests)
                    },
                    Actor::Bot(bot) => {
                        self.actors.entries.insert(
                            i,
                            Entry { handle: entry.handle, value: Actor::Bot(bot) },
                        );
                        assert(self.actors.entries@ =~= old(self).actors.entries@);
                        None
                    },
                }
            },
            None => None,
        }
    }

    /// What `give_new_weapon` does to a level and to the outbox.
    pub open spec fn weapon_given(
        pre: &Level,
        post: &Level,
        actor: Handle,
        weapon: Handle,
        kind: WeaponKind,
        ammo: u32,
        sent: Seq<Message>,
    ) -> bool {
        &&& Level::same_frame(pre, post)
        &&& post.player == pre.player
        &&& post.spawn_points == pre.spawn_points
        &&& match pre.actors.index_of(actor) {
            Some(i) if pre.actors.entries@[i].value.spec_character().weapons@.len() < u32::MAX => {
                let owner = pre.actors.entries@[i].value;
                let owned = owner.spec_character().weapons@;
                &&& post.weapons.entries@ == pre.weapons.entries@.push(
                    Entry { handle: weapon, value: Weapon { kind, ammo, owner: actor } },
                )
                &&& post.actors.entries@.len() == pre.actors.entries@.len()
                &&& forall|j: int|
                    0 <= j < pre.actors.entries@.len() && j != i ==> post.actors.entries@[j]
                        == pre.actors.entries@[j]
                &&& post.actors.entries@[i].handle == actor
                &&& post.actors.entries@[i].value == owner.with_character(
                    post.actors.entries@[i].value.spec_character(),
                )
                &&& post.actors.entries@[i].value.spec_character().health
                    == owner.spec_character().health
                &&& post.actors.entries@[i].value.spec_character().weapons@ == owned.push(weapon)
                &&& post.actors.entries@[i].value.spec_character().current_weapon == owned.len()
                &&& sent == visibility_messages(owned.push(weapon), owned.len() as int)
            },
            _ => {
                &&& post.weapons.entries@ == pre.weapons.entries@
                &&& post.actors.entries@ == pre.actors.entries@
                &&& sent.len() == 0
            },
        }
    }

    /// Hands a weapon that the host has made to an actor: the level
    /// keeps it under its handle, the actor takes it in hand.
    pub fn give_new_weapon(
        &mut self,
        actor: Handle,
        weapon: Handle,
        kind: WeaponKind,
        ammo: u32,
        outbox: &mut Vec<Message>,
    )
        requires
            old(self).wf(),
        ensures
            final(self).wf(),
            final(outbox)@.len() >= old(outbox)@.len(),
            final(outbox)@.subrange(0, old(outbox)@.len() as int) == old(outbox)@,
            Level::weapon_given(
                old(self),
                final(self),
                actor,
                weapon,
                kind,
                ammo,
                final(outbox)@.subrange(old(outbox)@.len() as int, final(outbox)@.len() as int),
            ),
    {
        if let Some(i) = self.actors.find(actor) {
            if self.actors.entries[i].value.character().weapons.len() < u32::MAX as usize {
                self.weapons.add(weapon, Weapon { kind, ammo, owner: actor });
                let mut entry = self.actors.entries.remove(i);
                let ghost owned = entry.value.spec_character().weapons@;
                entry.value.add_weapon(weapon, outbox);
                self.actors.entries.insert(i, entry);
                proof {
                    let sent = visibility_messages(owned.push(weapon), owned.len() as int);
                    assert(outbox@.subrange(0, old(outbox)@.len() as int) =~= old(outbox)@);
                    assert(outbox@.subrange(old(outbox)@.len() as int, outbox@.len() as int)
                        =~= sent);
                }
                return ;
            }
        }
        assert(outbox@.subrange(0, old(outbox)@.len() as int) =~= old(outbox)@);
    }

    /// What `give_item` does to a level, and what it returns.
    pub open spec fn item_given(
        pre: &Level,
        post: &Level,
        actor: Handle,
        kind: ItemKind,
        r: Option<WeaponKind>,
    ) -> bool {
        &&& Level::same_frame(pre, post)
        &&& post.player == pre.player
        &&& post.spawn_points == pre.spawn_points
        &&& match pre.actors.index_of(actor) {
            None => {
                &&& post.actors.entries@ == pre.actors.entries@
                &&& post.weapons.entries@ == pre.weapons.entries@
                &&& r is None
            },
            Some(i) => {
                let receiver = pre.actors.entries@[i].value;
                if kind == ItemKind::Medkit {
                    &&& post.actors.entries@ == pre.actors.entries@.update(
                        i,
                        Entry {
                            handle: actor,
                            value: receiver.with_health(
                                spec_healed(receiver.spec_character().health, MEDKIT_HEALTH),
                            ),
                        },
                    )
                    &&& post.weapons.entries@ == pre.weapons.entries@
                    &&& r is None
                } else {
                    &&& post.actors.entries@ == pre.actors.entries@
                    &&& match spec_weapon_for(kind) {
                        None => post.weapons.entries@ == pre.weapons.entries@ && r is None,
                        Some(wanted) => match first_of_kind(
                            receiver.spec_character().weapons@,
                            pre.weapons.entries@,
                            wanted,
                            0,
                        ) {
                            Some(j) => {
                                &&& post.weapons.entries@ == refilled(
                                    pre.weapons.entries@,
                                    receiver.spec_character().weapons@[j],
                                )
                                &&& r is None
                            },
                            None => {
                                &&& post.weapons.entries@ == pre.weapons.entries@
                                &&& r == if spec_is_weapon(kind) {
                                    Some(wanted)
                                } else {
                                    None
                                }
                            },
                        },
                    }
                }
            },
        }
    }

    /// Gives an item to an actor. A medkit heals. Ammunition goes into the
    /// first weapon of the actor that it fits. A weapon of a kind that the
    /// actor already owns counts as ammunition for it; of a kind that the
    /// actor does not own, it is returned for the host to make, since a
    /// weapon needs a body in the scene. A rocket launcher is nothing an
    /// actor can use.
    pub fn give_item(&mut self, actor: Handle, kind: ItemKind) -> (r: Option<WeaponKind>)
        requires
            old(self).wf(),
        ensures
            final(self).wf(),
            Level::item_given(old(self), final(self), actor, kind, r),
    {
        let i: usize = match self.actors.find(actor) {
            Some(i) => i,
            None => {
                return None;
            },
        };
        if kind == ItemKind::Medkit {
            let mut entry = self.actors.entries.remove(i);
            entry.value.heal(MEDKIT_HEALTH);
            self.actors.entries.insert(i, entry);
            assert(self.actors.entries@ =~= old(self).actors.entries@.update(
                i as int,
                Entry {
                    handle: actor,
                    value: old(self).actors.entries@[i as int].value.with_health(
                        spec_healed(
                            old(self).actors.entries@[i as int].value.spec_character().health,
                            MEDKIT_HEALTH,
                        ),
                    ),
                },
            ));
            return None;
        }
        let wanted: WeaponKind = match weapon_for(kind) {
            Some(wanted) => wanted,
            None => {
                return None;
            },
        };
        let owned: &Vec<Handle> = &self.actors.entries[i].value.character().weapons;
        let mut j: usize = 0;
        let mut found: Option<usize> = None;
        while j < owned.len()
            invariant_except_break
                found is None,
                first_of_kind(owned@, self.weapons.entries@, wanted, 0) == first_of_kind(
                    owned@,
                    self.weapons.entries@,
                    wanted,
                    j as int,
                ),
            invariant
                j <= owned@.len(),
            ensures
                match found {
                    Some(w) => first_of_kind(owned@, self.weapons.entries@, wanted, 0) matches Some(
                        at,
                    ) && at < owned@.len() && self.weapons.index_of(owned@[at]) == Some(w as int)
                        && w < self.weapons.entries@.len(),
                    None => first_of_kind(owned@, self.weapons.entries@, wanted, 0) is None,
                },
            decreases owned@.len() - j,
        {
            match self.weapons.find(owned[j]) {
                Some(w) => {
                    if self.weapons.entries[w].value.kind == wanted {
                        assert(is_of_kind(self.weapons.entries@, owned@[j as int], wanted));
                        assert(first_of_kind(owned@, self.weapons.entries@, wanted, j as int)
                            == Some(j as int));
                        found = Some(w);
                        break ;
                    }
                },
                None => {},
            }
            j += 1;
        }
        match found {
            Some(w) => {
                let held: Entry<Weapon> = Entry {
                    handle: self.weapons.entries[w].handle,
                    value: self.weapons.entries[w].value,
                };
                let ammo: u32 = held.value.ammo.saturating_add(AMMO_PER_ITEM);
                self.weapons.entries.set(
                    w,
                    Entry { handle: held.handle, value: Weapon { ammo, ..held.value } },
                );
                None
            },
            None => {
                if is_weapon(kind) {
                    Some(wanted)
                } else {
                    None
                }
            },
        }
    }

    /// What `pickup_item` does to a level and to the outbox, and what it
    /// returns.
    pub open spec fn item_picked(
        pre: &Level,
        post: &Level,
        actor: Handle,
        item: Handle,
        sent: Seq<Message>,
        r: Option<WeaponKind>,
    ) -> bool {
        match pre.items.index_of(item) {
            Some(at) if pre.actors.spec_contains(actor) => {
                &&& sent == seq![
                    Message::PlaySound {
                        sound: Sound::ItemPickup,
                        position: pre.items.entries@[at].value.position,
                        gain: 1000,
                        rolloff_factor: 3000,
                        radius: 2000,
                    },
                ]
                &&& Level::item_given(pre, post, actor, pre.items.entries@[at].value.kind, r)
            },
            _ => {
                &&& sent.len() == 0
                &&& r is None
                &&& post.actors.entries@ == pre.actors.entries@
                &&& post.weapons.entries@ == pre.weapons.entries@
                &&& post.player == pre.player
                &&& post.spawn_points == pre.spawn_points
                &&& Level::same_frame(pre, post)
            },
        }
    }

    /// Lets an actor pick an item up: the pickup sounds where the item
    /// lies, and the actor is given the item.
    pub fn pickup_item(&mut self, actor: Handle, item: Handle, outbox: &mut Vec<Message>) -> (r:
        Option<WeaponKind>)
        requires
            old(self).wf(),
        ensures
            final(self).wf(),
            final(outbox)@.len() >= old(outbox)@.len(),
            final(outbox)@.subrange(0, old(outbox)@.len() as int) == old(outbox)@,
            Level::item_picked(
                old(self),
                final(self),
                actor,
                item,
                final(outbox)@.subrange(old(outbox)@.len() as int, final(outbox)@.len() as int),
                r,
            ),
    {
        if self.actors.contains(actor) {
            let lying: Option<ItemPlacement> = match self.items.get(item) {
                Some(it) => Some(*it),
                None => None,
            };
            if let Some(it) = lying {
                outbox.push(
                    Message::PlaySound {
                        sound: Sound::ItemPickup,
                        position: it.position,
                        gain: 1000,
                        rolloff_factor: 3000,
                        radius: 2000,
                    },
                );
                proof {
                    assert(outbox@.subrange(0, old(outbox)@.len() as int) =~= old(outbox)@);
                    assert(outbox@.subrange(old(outbox)@.len() as int, outbox@.len() as int)
                        =~= seq![
                        Message::PlaySound {
                            sound: Sound::ItemPickup,
                            position: it.position,
                            gain: 1000,
                            rolloff_factor: 3000,
                            radius: 2000,
                        },
                    ]);
                }
                return self.give_item(actor, it.kind);
            }
        }
        assert(outbox@.subrange(0, old(outbox)@.len() as int) =~= old(outbox)@);
        None
    }

    /// What `remove_actor` does to a level and to the outbox, and what it
    /// returns.
    pub open spec fn actor_removed(
        pre: &Level,
        post: &Level,
        actor: Handle,
        position: Vector3,
        sent: Seq<Message>,
        r: bool,
    ) -> bool {
        &&& Level::same_frame(pre, post)
        &&& post.spawn_points == pre.spawn_points
        &&& match pre.actors.index_of(actor) {
            None => {
                &&& !r
                &&& sent.len() == 0
                &&& post.player == pre.player
                &&& post.actors.entries@ == pre.actors.entries@
                &&& post.weapons.entries@ == pre.weapons.entries@
            },
            Some(i) => {
                let owned = pre.actors.entries@[i].value.spec_character().weapons@;
                let (left, lying) = dropped(
                    owned,
                    pre.weapons.entries@,
                    position,
                    owned.len() as int,
                );
                &&& r
                &&& sent == lying
                &&& post.weapons.entries@ == left
                &&& post.actors.entries@ == informed(pre.actors.entries@.remove(i), actor)
                &&& post.player == if pre.player == actor {
                    Handle::spec_none()
                } else {
                    pre.player
                }
            },
        }
    }

    /// Takes an actor out of the level. Its weapons leave the level with
    /// it, and each becomes an item where the actor stood. Every bot that
    /// was after the actor forgets it. If the actor was the player, the
    /// level has no player any more. Tells whether there was such an
    /// actor.
    pub fn remove_actor(&mut self, actor: Handle, position: Vector3, outbox: &mut Vec<Message>) -> (r:
        bool)
        requires
            old(self).wf(),
        ensures
            final(self).wf(),
            final(outbox)@.len() >= old(outbox)@.len(),
            final(outbox)@.subrange(0, old(outbox)@.len() as int) == old(outbox)@,
            Level::actor_removed(
                old(self),
                final(self),
                actor,
                position,
                final(outbox)@.subrange(old(outbox)@.len() as int, final(outbox)@.len() as int),
                r,
            ),
    {
        let i: usize = match self.actors.find(actor) {
            Some(i) => i,
            None => {
                assert(outbox@.subrange(0, old(outbox)@.len() as int) =~= old(outbox)@);
                return false;
            },
        };
        let entry = self.actors.entries.remove(i);
        let owned: &Vec<Handle> = &entry.value.character().weapons;
        let ghost lying: Seq<Message> = Seq::empty();
        let ghost remaining = self.actors.entries@;
        let mut k: usize = 0;
        proof {
            assert(outbox@ =~= old(outbox)@ + lying);
            assert forall|j: int| 0 <= j < remaining.len() implies (
            #[trigger] remaining[j]).value.wf() by {
                if j < i {
                    assert(remaining[j] == old(self).actors.entries@[j]);
                } else {
                    assert(remaining[j] == old(self).actors.entries@[j + 1]);
                }
            }
        }
        while k < owned.len()
            invariant
                k <= owned@.len(),
                self.actors.entries@ == remaining,
                self.player == old(self).player,
                self.items == old(self).items,
                self.spawn_points == old(self).spawn_points,
                self.death_zones == old(self).death_zones,
                self.time == old(self).time,
                (self.weapons.entries@, lying) == dropped(
                    owned@,
                    old(self).weapons.entries@,
                    position,
                    k as int,
                ),
                outbox@ == old(outbox)@ + lying,
            decreases owned@.len() - k,
        {
            match self.weapons.find(owned[k]) {
                Some(w) => {
                    let left = self.weapons.entries.remove(w);
                    outbox.push(
                        Message::SpawnItem {
                            kind: item_of(left.value.kind),
                            position,
                            adjust_height: true,
                        },
                    );
                    proof {
                        lying = lying.push(
                            Message::SpawnItem {
                                kind: spec_item_of(left.value.kind),
                                position,
                                adjust_height: true,
                            },
                        );
                        assert(outbox@ =~= old(outbox)@ + lying);
                    }
                },
                None => {},
            }
            k += 1;
        }
        let ghost left = self.weapons.entries@;
        let mut m: usize = 0;
        while m < self.actors.entries.len()
            invariant
                m <= self.actors.entries@.len(),
                self.weapons.entries@ == left,
                self.player == old(self).player,
                self.items == old(self).items,
                self.spawn_points == old(self).spawn_points,
                self.death_zones == old(self).death_zones,
                self.time == old(self).time,
                self.actors.entries@.len() == remaining.len(),
                forall|j: int|
                    0 <= j < m ==> #[trigger] self.actors.entries@[j] == informed(
                        remaining,
                        actor,
                    )[j],
                forall|j: int|
                    m <= j < remaining.len() ==> #[trigger] self.actors.entries@[j] == remaining[j],
                forall|j: int|
                    0 <= j < remaining.len() ==> (#[trigger] self.actors.entries@[j]).value.wf(),
            decreases self.actors.entries@.len() - m,
        {
            let ghost before = self.actors.entries@;
            let mut other = self.actors.entries.remove(m);
            other.value.on_actor_removed(actor);
            self.actors.entries.insert(m, other);
            assert(self.actors.entries@ =~= before.update(m as int, other));
            m += 1;
        }
        if self.player == actor {
            self.player = Handle::none();
        }
        proof {
            assert(self.actors.entries@ =~= informed(remaining, actor));
            assert(outbox@.subrange(0, old(outbox)@.len() as int) =~= old(outbox)@);
            assert(outbox@.subrange(old(outbox)@.len() as int, outbox@.len() as int) =~= lying);
        }
        true
    }

    /// What `handle_message` does to a level and to the outbox, and what
    /// it leaves for the host.
    pub open spec fn message_handled(
        pre: &Level,
        post: &Level,
        message: Message,
        position: Vector3,
        sent: Seq<Message>,
        effect: Effect,
    ) -> bool {
        match message {
            Message::DamageActor { actor, who, amount } => {
                &&& Level::damage_done(pre, post, actor, who, amount, position)
                &&& sent.len() == 0
                &&& effect == Effect::Done
            },
            Message::RemoveActor { actor } => {
                &&& Level::actor_removed(
                    pre,
                    post,
                    actor,
                    position,
                    sent,
                    effect == (Effect::ReleaseActor { actor }),
                )
                &&& effect == (Effect::ReleaseActor { actor }) || effect == Effect::Done
            },
            Message::GiveItem { actor, kind } => {
                &&& sent.len() == 0
                &&& Level::item_given(
                    pre,
                    post,
                    actor,
                    kind,
                    match effect {
                        Effect::CreateWeapon { actor: a, kind: k } => Some(k),
                        _ => None,
                    },
                )
                &&& effect matches Effect::CreateWeapon { actor: a, kind: k } ==> a == actor
                &&& effect is CreateWeapon || effect == Effect::Done
            },
            Message::PickUpItem { actor, item } => {
                &&& Level::item_picked(
                    pre,
                    post,
                    actor,
                    item,
                    sent,
                    match effect {
                        Effect::CreateWeapon { actor: a, kind: k } => Some(k),
                        _ => None,
                    },
                )
                &&& effect matches Effect::CreateWeapon { actor: a, kind: k } ==> a == actor
                &&& effect is CreateWeapon || effect == Effect::Done
            },
            Message::SpawnBot { spawn_point_id } => {
                &&& sent.len() == 0
                &&& Level::spawn_done(
                    pre,
                    post,
                    spawn_point_id,
                    if spawn_point_id < pre.spawn_points@.len() {
                        Some(
                            SpawnPoint {
                                spawned: true,
                                ..pre.spawn_points@[spawn_point_id as int]
                            },
                        )
                    } else {
                        None
                    },
                )
                &&& effect == if spawn_point_id < pre.spawn_points@.len() {
                    Effect::CreateBot {
                        kind: pre.spawn_points@[spawn_point_id as int].bot_kind,
                        position: pre.spawn_points@[spawn_point_id as int].position,
                    }
                } else {
                    Effect::Done
                }
            },
            other => {
                &&& *post == *pre
                &&& sent.len() == 0
                &&& effect == match other {
                    Message::GiveNewWeapon { actor, kind } => if pre.actors.spec_contains(actor) {
                        Effect::CreateWeapon { actor, kind }
                    } else {
                        Effect::Done
                    },
                    Message::AddBot { kind, position: place } => Effect::CreateBot {
                        kind,
                        position: place,
                    },
                    Message::ShootWeapon { weapon, direction } => if pre.weapons.spec_contains(
                        weapon,
                    ) {
                        Effect::Perform
                    } else {
                        Effect::Done
                    },
                    _ => Effect::Perform,
                }
            },
        }
    }

    /// Carries out a message as far as the level can, and tells what is
    /// left for the host. `position` is where the actor stands that the
    /// message is about: for damage, whoever did it; for a removal, the
    /// actor that leaves. Messages that the level sends in turn go to
    /// the outbox.
    pub fn handle_message(
        &mut self,
        message: &Message,
        position: Vector3,
        outbox: &mut Vec<Message>,
    ) -> (effect: Effect)
        requires
            old(self).wf(),
        ensures
            final(self).wf(),
            final(outbox)@.len() >= old(outbox)@.len(),
            final(outbox)@.subrange(0, old(outbox)@.len() as int) == old(outbox)@,
            Level::message_handled(
                old(self),
                final(self),
                *message,
                position,
                final(outbox)@.subrange(old(outbox)@.len() as int, final(outbox)@.len() as int),
                effect,
            ),
    {
        proof {
            assert(outbox@.subrange(0, old(outbox)@.len() as int) =~= old(outbox)@);
        }
        match *message {
            Message::DamageActor { actor, who, amount } => {
                self.damage_actor(actor, who, amount, position);
                Effect::Done
            },
            Message::RemoveActor { actor } => {
                if self.remove_actor(actor, position, outbox) {
                    Effect::ReleaseActor { actor }
                } else {
                    Effect::Done
                }
            },
            Message::GiveItem { actor, kind } => {
                match self.give_item(actor, kind) {
                    Some(wanted) => Effect::CreateWeapon { actor, kind: wanted },
                    None => Effect::Done,
                }
            },
            Message::PickUpItem { actor, item } => {
                match self.pickup_item(actor, item, outbox) {
                    Some(wanted) => Effect::CreateWeapon { actor, kind: wanted },
                    None => Effect::Done,
                }
            },
            Message::SpawnBot { spawn_point_id } => {
                match self.spawn_bot(spawn_point_id) {
                    Some(point) => Effect::CreateBot {
                        kind: point.bot_kind,
                        position: point.position,
                    },
                    None => Effect::Done,
                }
            },
            Message::GiveNewWeapon { actor, kind } => {
                if self.actors.contains(actor) {
                    Effect::CreateWeapon { actor, kind }
                } else {
                    Effect::Done
                }
            },
            Message::AddBot { kind, position: place } => Effect::CreateBot {
                kind,
                position: place,
            },
            Message::ShootWeapon { weapon, direction } => {
                if self.weapons.contains(weapon) {
                    Effect::Perform
                } else {
                    Effect::Done
                }
            },
            _ => Effect::Perform,
        }
    }
}

/// A spawn point that has been used stays used, whatever message the
/// level handles: no message brings a spawn point back.
pub proof fn lemma_spawned_stays_spawned(
    pre: &Level,
    post: &Level,
    message: Message,
    position: Vector3,
    sent: Seq<Message>,
    effect: Effect,
)
    requires
        Level::message_handled(pre, post, message, position, sent, effect),
    ensures
        post.spawn_points@.len() == pre.spawn_points@.len(),
        forall|i: int|
            0 <= i < pre.spawn_points@.len() && pre.spawn_points@[i].spawned
                ==> post.spawn_points@[i].spawned,
        forall|i: int|
            0 <= i < pre.spawn_points@.len() ==> post.spawn_points@[i].position
                == pre.spawn_points@[i].position && post.spawn_points@[i].bot_kind
                == pre.spawn_points@[i].bot_kind,
{
}

impl Default for Level {
    /// An empty level.
    fn default() -> (r: Level)
        ensures
            r.wf(),
            r.player == Handle::spec_none(),
            r.actors.entries@.len() == 0,
            r.weapons.entries@.len() == 0,
            r.items.entries@.len() == 0,
            r.spawn_points@.len() == 0,
            r.death_zones@.len() == 0,
            r.time == 0,
    {
        Level {
            player: Handle::none(),
            actors: Container::new(),
            weapons: Container::new(),
            items: Container::new(),
            spawn_points: Vec::new(),
            death_zones: Vec::new(),
            time: 0,
        }
    }
}

} // verus!
