//! Autonomous agents: what a bot is, and what it decides on every tick.

use vstd::prelude::*;
use crate::bot::lower_body::{LowerBodyMachine, LowerBodyMachineInput};
use crate::bot::path::{PathAnswer, PathPlan, PathPlanner, PathRequest};
use crate::bot::targeting::{select_target, selected, Sighting};
use crate::bot::upper_body::{UpperBodyMachine, UpperBodyMachineInput};
use crate::character::{visibility_messages, Character};
use crate::handle::Handle;
use crate::level::UpdateContext;
use crate::machine::lemma_terminal_is_absorbing;
use crate::math::{count_down, spec_count_down, GameTime, Offset, Vector3};
use crate::message::{Message, Sound, FOOTSTEP_COUNT};
use crate::random::random_below;
use crate::signal::{count_signal, SignalQueue};
use crate::text::{decimal, numbered_message};

pub use crate::bot::targeting::{Target, TargetDescriptor};

pub mod lower_body;
pub mod path;
pub mod targeting;
pub mod upper_body;

verus! {

/// The species of an autonomous agent.
#[derive(Copy, Clone, PartialEq, Eq, Structural, Hash, Debug)]
pub enum BotKind {
    Mutant,
    Parasite,
    Zombie,
}

impl BotKind {
    /// The numeric identifier under which the kind is stored.
    pub open spec fn spec_id(self) -> int {
        match self {
            BotKind::Mutant => 0,
            BotKind::Parasite => 1,
            BotKind::Zombie => 2,
        }
    }

    /// The kind that is stored under `id`. An identifier that belongs to
    /// no kind is an error, never a default.
    pub fn from_id(id: i32) -> (r: Result<Self, String>)
        ensures
            0 <= id <= 2 ==> r is Ok && r->Ok_0.spec_id() == id,
            !(0 <= id <= 2) ==> r is Err && r->Err_0@ == "Invalid bot kind "@ + decimal(id as int),
    {
        match id {
            0 => Ok(BotKind::Mutant),
            1 => Ok(BotKind::Parasite),
            2 => Ok(BotKind::Zombie),
            _ => {
                let message = numbered_message("Invalid bot kind ", id as i64, "");
                proof {
                    reveal_strlit("");
                    assert(message@ =~= "Invalid bot kind "@ + decimal(id as int));
                }
                Err(message)
            },
        }
    }

    /// The identifier under which the kind is stored.
    pub fn id(self) -> (r: i32)
        ensures
            r == self.spec_id(),
    {
        match self {
            BotKind::Mutant => 0,
            BotKind::Parasite => 1,
            BotKind::Zombie => 2,
        }
    }

    /// The name of the kind, for people.
    pub fn description(self) -> (r: &'static str)
        ensures
            r@ == (match self {
                BotKind::Mutant => "Mutant"@,
                BotKind::Parasite => "Parasite"@,
                BotKind::Zombie => "Zombie"@,
            }),
    {
        match self {
            BotKind::Mutant => "Mutant",
            BotKind::Parasite => "Parasite",
            BotKind::Zombie => "Zombie",
        }
    }
}

/// The tunables of a kind of bot.
#[derive(Copy, Clone, Debug)]
pub struct BotDefinition {
    /// The size of the model, in millionths of its modelled size.
    pub scale: u32,
    /// Health at birth.
    pub health: i64,
    /// The kind that the definition belongs to.
    pub kind: BotKind,
    /// Walking speed, per second.
    pub walk_speed: u32,
    /// The size of a weapon in the hand of the bot.
    pub weapon_scale: u32,
    /// The model of the body.
    pub model: &'static str,
    /// The bone that holds the weapon.
    pub weapon_hand_name: &'static str,
    /// The bone at the top of the left leg.
    pub left_leg_name: &'static str,
    /// The bone at the top of the right leg.
    pub right_leg_name: &'static str,
    /// The bone that bends when the bot aims up or down; empty for a kind that does not aim.
    pub spine: &'static str,
    /// What is added to the pitch of the aim, in thousandths of a degree.
    pub v_aim_angle_hack: i32,
    /// Whether the kind handles weapons.
    pub can_use_weapons: bool,
    /// The health that one blow takes.
    pub attack_damage: u32,
    /// When in the attack clip the blow lands, in thousandths of a second.
    pub attack_timestamp: u32,
    pub idle_animation: &'static str,
    pub scream_animation: &'static str,
    pub attack_animation: &'static str,
    pub walk_animation: &'static str,
    pub aim_animation: &'static str,
    pub dying_animation: &'static str,
}

/// A definition with its texts as sequences of characters.
pub ghost struct BotDefinitionView {
    pub scale: u32,
    pub health: i64,
    pub kind: BotKind,
    pub walk_speed: u32,
    pub weapon_scale: u32,
    pub model: Seq<char>,
    pub weapon_hand_name: Seq<char>,
    pub left_leg_name: Seq<char>,
    pub right_leg_name: Seq<char>,
    pub spine: Seq<char>,
    pub v_aim_angle_hack: i32,
    pub can_use_weapons: bool,
    pub attack_damage: u32,
    pub attack_timestamp: u32,
    pub idle_animation: Seq<char>,
    pub scream_animation: Seq<char>,
    pub attack_animation: Seq<char>,
    pub walk_animation: Seq<char>,
    pub aim_animation: Seq<char>,
    pub dying_animation: Seq<char>,
}

impl View for BotDefinition {
    type V = BotDefinitionView;

    open spec fn view(&self) -> BotDefinitionView {
        BotDefinitionView {
            scale: self.scale,
            health: self.health,
            kind: self.kind,
            walk_speed: self.walk_speed,
            weapon_scale: self.weapon_scale,
            model: self.model@,
            weapon_hand_name: self.weapon_hand_name@,
            left_leg_name: self.left_leg_name@,
            right_leg_name: self.right_leg_name@,
            spine: self.spine@,
            v_aim_angle_hack: self.v_aim_angle_hack,
            can_use_weapons: self.can_use_weapons,
            attack_damage: self.attack_damage,
            attack_timestamp: self.attack_timestamp,
            idle_animation: self.idle_animation@,
            scream_animation: self.scream_animation@,
            attack_animation: self.attack_animation@,
            walk_animation: self.walk_animation@,
            aim_animation: self.aim_animation@,
            dying_animation: self.dying_animation@,
        }
    }
}

/// The table of definitions.
pub open spec fn spec_definition(kind: BotKind) -> BotDefinitionView {
    match kind {
        BotKind::Mutant => BotDefinitionView {
            scale: 6500,
            health: 1000000,
            kind: BotKind::Mutant,
            walk_speed: 700,
            weapon_scale: 1000,
            model: "data/models/mutant.FBX"@,
            weapon_hand_name: "Mutant:RightHand"@,
            left_leg_name: "Mutant:LeftUpLeg"@,
            right_leg_name: "Mutant:RightUpLeg"@,
            spine: ""@,
            v_aim_angle_hack: 0,
            can_use_weapons: false,
            attack_damage: 120000,
            attack_timestamp: 1100,
            idle_animation: "data/animations/mutant_idle.fbx"@,
            scream_animation: "data/animations/mutant_scream.fbx"@,
            attack_animation: "data/animations/mutant_attack_swipe.fbx"@,
            walk_animation: "data/animations/mutant_walk.fbx"@,
            aim_animation: ""@,
            dying_animation: "data/animations/mutant_dying.fbx"@,
        },
        BotKind::Parasite => BotDefinitionView {
            scale: 5500,
            health: 300000,
            kind: BotKind::Parasite,
            walk_speed: 1000,
            weapon_scale: 1000,
            model: "data/models/parasite.FBX"@,
            weapon_hand_name: "RightHand"@,
            left_leg_name: "LeftUpLeg"@,
            right_leg_name: "RightUpLeg"@,
            spine: ""@,
            v_aim_angle_hack: 0,
            can_use_weapons: false,
            attack_damage: 40000,
            attack_timestamp: 1100,
            idle_animation: "data/animations/parasite_idle.fbx"@,
            scream_animation: "data/animations/parasite_scream.fbx"@,
            attack_animation: "data/animations/parasite_attack.fbx"@,
            walk_animation: "data/animations/parasite_running.fbx"@,
            aim_animation: ""@,
            dying_animation: "data/animations/parasite_dying.fbx"@,
        },
        BotKind::Zombie => BotDefinitionView {
            scale: 5500,
            health: 100000,
            kind: BotKind::Zombie,
            walk_speed: 1200,
            weapon_scale: 1000,
            model: "data/models/zombie.fbx"@,
            weapon_hand_name: "mixamorig5:RightHand"@,
            left_leg_name: "mixamorig5:LeftUpLeg"@,
            right_leg_name: "mixamorig5:RightUpLeg"@,
            spine: "Spine"@,
            v_aim_angle_hack: 12000,
            can_use_weapons: false,
            attack_damage: 40000,
            attack_timestamp: 1600,
            idle_animation: "data/animations/zombie_idle.fbx"@,
            scream_animation: "data/animations/zombie_scream.fbx"@,
            attack_animation: "data/animations/zombie_attack.fbx"@,
            walk_animation: "data/animations/zombie_running.fbx"@,
            aim_animation: "data/animations/zombie_aim_rifle.fbx"@,
            dying_animation: "data/animations/zombie_dying.fbx"@,
        },
    }
}

/// How near a target must be for a bot to strike rather than walk.
pub const CLOSE_COMBAT_RANGE: u32 = 750;

/// How long a bot that was hurt cannot aim.
pub const RESTORATION_TIME: i64 = 800;

/// How long a bot rests between two blows.
pub const ATTACK_COOLDOWN: i64 = 300;

/// What the host has sampled for one bot at the start of a tick.
pub struct Senses {
    /// Where the body of the bot is.
    pub position: Vector3,
    /// Whether the body stands on something.
    pub has_ground_contact: bool,
    /// The ammunition of every weapon that the bot owns, in the order of
    /// its weapons. A weapon without an entry counts as empty.
    pub ammo: Vec<u32>,
    /// Whether the attack clip is enabled.
    pub attack_clip_enabled: bool,
    /// Whether the attack clip has played to its end.
    pub attack_clip_ended: bool,
    /// How the bot sees every candidate target, in the order of the
    /// candidates. A candidate without an entry is not seen.
    pub sightings: Vec<Sighting>,
}

/// What a bot does with its velocity on a tick.
#[derive(Copy, Clone, PartialEq, Eq, Structural, Debug)]
pub enum Movement {
    /// Walk along `direction`, whatever its length, at `speed`; keep the
    /// vertical velocity.
    Walk { direction: Offset, speed: u32 },
    /// Leave the velocity as it is: the bot wants to walk but stands on
    /// the very point it walks to, so there is no direction to take.
    Keep,
    /// Stop; keep the vertical velocity.
    Halt,
}

/// What a bot asks of the host at the end of a tick.
pub struct Commands {
    pub movement: Movement,
    /// The bot is dead: enable the dying clip of both layers and disable
    /// the attack clip.
    pub dying: bool,
    /// Enable the attack clip and rewind it.
    pub restart_attack: bool,
    /// Ask the navigation mesh for a path and hand the answer to
    /// `rebuild_path`.
    pub path_request: Option<PathRequest>,
    /// Turn body and spine toward this direction, whatever pose the
    /// animation has produced.
    pub aim: Option<Offset>,
    /// Messages for the level, in the order in which they were decided.
    pub messages: Vec<Message>,
}

pub struct Bot {
    pub target: Option<Target>,
    pub kind: BotKind,
    pub character: Character,
    pub definition: BotDefinition,
    pub lower_body_machine: LowerBodyMachine,
    pub upper_body_machine: UpperBodyMachine,
    /// Health at the end of the last tick.
    pub last_health: i64,
    /// How long the bot still cannot aim.
    pub restoration_time: i64,
    pub planner: PathPlanner,
    /// How long the bot still rests before its next blow.
    pub attack_timeout: i64,
}

/// The ammunition of weapon `i`; nothing if the host has reported none.
pub open spec fn ammo_of(ammo: Seq<u32>, i: int) -> u32 {
    if 0 <= i < ammo.len() {
        ammo[i]
    } else {
        0
    }
}

/// The first weapon at or after `k`, of `count` weapons, that is loaded.
pub open spec fn first_loaded(ammo: Seq<u32>, count: int, k: int) -> Option<int>
    decreases count - k,
{
    if k < 0 || k >= count {
        None
    } else if ammo_of(ammo, k) > 0 {
        Some(k)
    } else {
        first_loaded(ammo, count, k + 1)
    }
}

/// `first_loaded` finds the least loaded weapon at or after `k`.
pub proof fn lemma_first_loaded_is_least(ammo: Seq<u32>, count: int, k: int)
    requires
        0 <= k,
    ensures
        match first_loaded(ammo, count, k) {
            Some(i) => k <= i < count && ammo_of(ammo, i) > 0 && forall|j: int|
                k <= j < i ==> ammo_of(ammo, j) == 0,
            None => forall|j: int| k <= j < count ==> ammo_of(ammo, j) == 0,
        },
    decreases count - k,
{
    if k < count && ammo_of(ammo, k) == 0 {
        lemma_first_loaded_is_least(ammo, count, k + 1);
    }
}

/// The weapon that a character turns to: if the weapon in hand is empty,
/// the first loaded one it owns; else none.
pub open spec fn weapon_choice(character: &Character, ammo: Seq<u32>) -> Option<int> {
    if !character.spec_current_weapon().spec_is_none() && ammo_of(
        ammo,
        character.current_weapon as int,
    ) == 0 {
        match first_loaded(ammo, character.weapons@.len() as int, 0) {
            Some(i) if i <= u32::MAX => Some(i),
            _ => None,
        }
    } else {
        None
    }
}

/// The number of the weapon in hand after the choice.
pub open spec fn weapon_after(character: &Character, ammo: Seq<u32>) -> u32 {
    match weapon_choice(character, ammo) {
        Some(i) => i as u32,
        None => character.current_weapon,
    }
}

/// The messages that the choice of a weapon sends.
pub open spec fn weapon_messages(character: &Character, ammo: Seq<u32>) -> Seq<Message> {
    match weapon_choice(character, ammo) {
        Some(i) => visibility_messages(character.weapons@, i),
        None => Seq::empty(),
    }
}

/// Whether the target is within striking distance.
pub open spec fn spec_in_close_combat(target: Option<Target>, position: Vector3) -> bool {
    target matches Some(t) && position.spec_within(t.position, CLOSE_COMBAT_RANGE)
}

/// Where the bot looks: to its target, or straight ahead.
pub open spec fn spec_look_dir(target: Option<Target>, position: Vector3) -> Offset {
    match target {
        Some(t) => position.spec_offset_to(t.position),
        None => Offset { x: 0, y: 0, z: 1000 },
    }
}

/// The lockout after damage has been looked at: a bot that lost health
/// since the last tick starts a fresh one.
pub open spec fn spec_restoration(health: i64, last_health: i64, restoration_time: i64) -> i64 {
    if health < last_health {
        RESTORATION_TIME
    } else {
        restoration_time
    }
}

/// `count` copies of the message by which a blow takes health from the
/// target.
pub open spec fn blows(count: nat, target: Handle, amount: u32) -> Seq<Message> {
    Seq::new(
        count,
        |i: int| (Message::DamageActor { actor: target, who: Handle::spec_none(), amount }),
    )
}

/// Whether a message asks for the sound of a footstep at `position`.
pub open spec fn is_footstep_message(message: Message, position: Vector3) -> bool {
    message matches Message::PlaySound { sound, position: p, gain, rolloff_factor, radius }
        && sound.is_footstep() && p == position && gain == 1000 && rolloff_factor == 2000 && radius
        == 3000
}

/// Consumes every signal of the attack clip. While the bot is in close
/// combat, each hit signal sends one blow to the target; a signal that is
/// popped out of close combat sends nothing.
pub fn emit_blows(
    signals: &mut SignalQueue,
    in_close_combat: bool,
    target: Handle,
    amount: u32,
    outbox: &mut Vec<Message>,
)
    ensures
        final(signals)@.len() == 0,
        final(outbox)@ == old(outbox)@ + blows(
            if in_close_combat {
                count_signal(old(signals)@, UpperBodyMachine::HIT_SIGNAL)
            } else {
                0
            },
            target,
            amount,
        ),
{
    let ghost mut sent: nat = 0;
    loop
        invariant
            in_close_combat ==> count_signal(old(signals)@, UpperBodyMachine::HIT_SIGNAL) == sent
                + count_signal(signals@, UpperBodyMachine::HIT_SIGNAL),
            !in_close_combat ==> sent == 0,
            outbox@ == old(outbox)@ + blows(sent, target, amount),
        ensures
            signals@.len() == 0,
        decreases signals@.len(),
    {
        match signals.pop_event() {
            Some(signal_id) => {
                if signal_id == UpperBodyMachine::HIT_SIGNAL && in_close_combat {
                    outbox.push(Message::DamageActor { actor: target, who: Handle::none(), amount });
                    proof {
                        sent = sent + 1;
                    }
                    assert(outbox@ =~= old(outbox)@ + blows(sent, target, amount));
                }
            },
            None => {
                break ;
            },
        }
    }
    assert(count_signal(signals@, UpperBodyMachine::HIT_SIGNAL) == 0);
}

/// Consumes every signal of the walk clip. While the body stands on the
/// ground, each step signal asks for one footstep sound, chosen at
/// random, where the bot stands; a signal that is popped in the air asks
/// for nothing.
pub fn emit_footsteps(
    signals: &mut SignalQueue,
    has_ground_contact: bool,
    position: Vector3,
    outbox: &mut Vec<Message>,
)
    ensures
        final(signals)@.len() == 0,
        final(outbox)@.len() == old(outbox)@.len() + if has_ground_contact {
            count_signal(old(signals)@, LowerBodyMachine::STEP_SIGNAL)
        } else {
            0
        },
        final(outbox)@.subrange(0, old(outbox)@.len() as int) == old(outbox)@,
        forall|i: int|
            old(outbox)@.len() <= i < final(outbox)@.len() ==> is_footstep_message(
                #[trigger] final(outbox)@[i],
                position,
            ),
{
    let ghost mut sent: nat = 0;
    loop
        invariant
            has_ground_contact ==> count_signal(old(signals)@, LowerBodyMachine::STEP_SIGNAL)
                == sent + count_signal(signals@, LowerBodyMachine::STEP_SIGNAL),
            !has_ground_contact ==> sent == 0,
            outbox@.len() == old(outbox)@.len() + sent,
            outbox@.subrange(0, old(outbox)@.len() as int) == old(outbox)@,
            forall|i: int|
                old(outbox)@.len() <= i < outbox@.len() ==> is_footstep_message(
                    #[trigger] outbox@[i],
                    position,
                ),
        ensures
            signals@.len() == 0,
        decreases signals@.len(),
    {
        match signals.pop_event() {
            Some(signal_id) => {
                if signal_id == LowerBodyMachine::STEP_SIGNAL && has_ground_contact {
                    let sound = Sound::footstep(random_below(FOOTSTEP_COUNT));
                    let ghost before = outbox@;
                    outbox.push(
                        Message::PlaySound {
                            sound,
                            position,
                            gain: 1000,
                            rolloff_factor: 2000,
                            radius: 3000,
                        },
                    );
                    proof {
                        sent = sent + 1;
                        assert(outbox@.subrange(0, old(outbox)@.len() as int) =~= before.subrange(
                            0,
                            old(outbox)@.len() as int,
                        ));
                    }
                }
            },
            None => {
                break ;
            },
        }
    }
    assert(count_signal(signals@, LowerBodyMachine::STEP_SIGNAL) == 0);
}

impl Bot {
    /// The definition of a kind. The `kind` of the definition is the kind
    /// that was asked for.
    pub fn get_definition(kind: BotKind) -> (r: BotDefinition)
        ensures
            r@ == spec_definition(kind),
            r.kind == kind,
    {
        match kind {
            BotKind::Mutant => BotDefinition {
                scale: 6500,
                health: 1000000,
                kind: BotKind::Mutant,
                walk_speed: 700,
                weapon_scale: 1000,
                model: "data/models/mutant.FBX",
                weapon_hand_name: "Mutant:RightHand",
                left_leg_name: "Mutant:LeftUpLeg",
                right_leg_name: "Mutant:RightUpLeg",
                spine: "",
                v_aim_angle_hack: 0,
                can_use_weapons: false,
                attack_damage: 120000,
                attack_timestamp: 1100,
                idle_animation: "data/animations/mutant_idle.fbx",
                scream_animation: "data/animations/mutant_scream.fbx",
                attack_animation: "data/animations/mutant_attack_swipe.fbx",
                walk_animation: "data/animations/mutant_walk.fbx",
                aim_animation: "",
                dying_animation: "data/animations/mutant_dying.fbx",
            },
            BotKind::Parasite => BotDefinition {
                scale: 5500,
                health: 300000,
                kind: BotKind::Parasite,
                walk_speed: 1000,
                weapon_scale: 1000,
                model: "data/models/parasite.FBX",
                weapon_hand_name: "RightHand",
                left_leg_name: "LeftUpLeg",
                right_leg_name: "RightUpLeg",
                spine: "",
                v_aim_angle_hack: 0,
                can_use_weapons: false,
                attack_damage: 40000,
                attack_timestamp: 1100,
                idle_animation: "data/animations/parasite_idle.fbx",
                scream_animation: "data/animations/parasite_scream.fbx",
                attack_animation: "data/animations/parasite_attack.fbx",
                walk_animation: "data/animations/parasite_running.fbx",
                aim_animation: "",
                dying_animation: "data/animations/parasite_dying.fbx",
            },
            BotKind::Zombie => BotDefinition {
                scale: 5500,
                health: 100000,
                kind: BotKind::Zombie,
                walk_speed: 1200,
                weapon_scale: 1000,
                model: "data/models/zombie.fbx",
                weapon_hand_name: "mixamorig5:RightHand",
                left_leg_name: "mixamorig5:LeftUpLeg",
                right_leg_name: "mixamorig5:RightUpLeg",
                spine: "Spine",
                v_aim_angle_hack: 12000,
                can_use_weapons: false,
                attack_damage: 40000,
                attack_timestamp: 1600,
                idle_animation: "data/animations/zombie_idle.fbx",
                scream_animation: "data/animations/zombie_scream.fbx",
                attack_animation: "data/animations/zombie_attack.fbx",
                walk_animation: "data/animations/zombie_running.fbx",
                aim_animation: "data/animations/zombie_aim_rifle.fbx",
                dying_animation: "data/animations/zombie_dying.fbx",
            },
        }
    }

    pub open spec fn wf(&self) -> bool {
        &&& self.lower_body_machine.wf()
        &&& self.upper_body_machine.wf()
        &&& self.planner.wf()
    }

    /// Whether the bot is well formed. Every bot that `new` makes is,
    /// and no method of a bot changes that.
    pub fn is_wf(&self) -> (r: bool)
        ensures
            r == self.wf(),
    {
        self.lower_body_machine.is_wf() && self.upper_body_machine.is_wf() && self.planner.is_wf()
    }

    /// Whether the bot is as a bot of `kind` is born: in full health, at
    /// rest, with no target, no weapon, no path, and no signals waiting.
    pub open spec fn is_newborn(&self, kind: BotKind) -> bool {
        &&& self.wf()
        &&& self.kind == kind
        &&& self.definition@ == spec_definition(kind)
        &&& self.target is None
        &&& self.character.health == spec_definition(kind).health
        &&& self.character.weapons@.len() == 0
        &&& self.character.current_weapon == 0
        &&& self.last_health == spec_definition(kind).health
        &&& self.restoration_time == 0
        &&& self.attack_timeout == 0
        &&& self.planner@ == (PathPlan {
            path: Seq::empty(),
            cursor: 0,
            move_target: Vector3 { x: 0, y: 0, z: 0 },
            last_rebuild: -10_000,
        })
        &&& self.lower_body_machine.view().active_state == LowerBodyMachine::IDLE_STATE
        &&& self.lower_body_machine.view().active_transition is None
        &&& self.lower_body_machine.walk_signals@.len() == 0
        &&& self.upper_body_machine.view().active_state == UpperBodyMachine::IDLE_STATE
        &&& self.upper_body_machine.view().active_transition is None
        &&& self.upper_body_machine.attack_signals@.len() == 0
    }

    /// A bot of a kind, as it is born.
    pub fn new(kind: BotKind) -> (r: Bot)
        ensures
            r.is_newborn(kind),
    {
        let definition = Bot::get_definition(kind);
        Bot {
            target: None,
            kind,
            character: Character::new(definition.health),
            definition,
            lower_body_machine: LowerBodyMachine::new(),
            upper_body_machine: UpperBodyMachine::new(),
            last_health: definition.health,
            restoration_time: 0,
            planner: PathPlanner::new(),
            attack_timeout: 0,
        }
    }

    /// Whether the bot may leave the level: it is dead, and its dying
    /// clip has played to its end.
    pub fn can_be_removed(&self, dying_clip_ended: bool) -> (r: bool)
        ensures
            r == (self.character.health <= 0 && dying_clip_ended),
    {
        self.character.is_dead() && dying_clip_ended
    }

    pub open spec fn spec_can_shoot(&self) -> bool {
        self.upper_body_machine.spec_is_aiming() && self.definition.can_use_weapons
    }

    /// Whether the bot could fire: it holds its weapon up and is of a
    /// kind that handles weapons.
    pub fn can_shoot(&self) -> (r: bool)
        ensures
            r == self.spec_can_shoot(),
    {
        self.upper_body_machine.is_aiming() && self.definition.can_use_weapons
    }

    /// Sends the bot after `handle`, last seen at `position`.
    pub fn set_target(&mut self, handle: Handle, position: Vector3)
        ensures
            *final(self) == (Bot { target: Some(Target { position, handle }), ..*old(self) }),
    {
        self.target = Some(Target { position, handle });
    }

    /// Takes the answer of the navigation mesh to the last path request.
    /// Tells whether the answer became the plan.
    pub fn rebuild_path(&mut self, found: Option<Vec<Vector3>>, time: GameTime) -> (replanned:
        bool)
        requires
            old(self).wf(),
        ensures
            final(self).wf(),
            final(self).planner@ == old(self).planner@.rebuilt(
                PathAnswer {
                    found: match found {
                        Some(p) => Some(p@),
                        None => None,
                    },
                    elapsed: time.elapsed as int,
                },
            ),
            replanned == old(self).planner@.accepts(
                PathAnswer {
                    found: match found {
                        Some(p) => Some(p@),
                        None => None,
                    },
                    elapsed: time.elapsed as int,
                },
            ),
            *final(self) == (Bot { planner: final(self).planner, ..*old(self) }),
    {
        self.planner.rebuild_path(found, time)
    }

    /// Forgets the target if it is the actor that was removed.
    pub fn on_actor_removed(&mut self, handle: Handle)
        ensures
            *final(self) == (Bot {
                target: match old(self).target {
                    Some(t) if t.handle == handle => None,
                    other => other,
                },
                ..*old(self)
            }),
    {
        if let Some(target) = self.target {
            if target.handle == handle {
                self.target = None;
            }
        }
    }

    /// Looks around and settles whom the bot is after.
    pub fn select_target(
        &mut self,
        self_handle: Handle,
        position: Vector3,
        targets: &Vec<TargetDescriptor>,
        sightings: &Vec<Sighting>,
    )
        ensures
            *final(self) == (Bot {
                target: selected(old(self).target, self_handle, position, targets@, sightings@),
                ..*old(self)
            }),
    {
        self.target = select_target(self.target, self_handle, position, targets, sightings);
    }

    /// Turns from an empty weapon to the first loaded one.
    pub fn select_weapon(&mut self, ammo: &Vec<u32>, outbox: &mut Vec<Message>)
        ensures
            final(self).character.current_weapon == weapon_after(&old(self).character, ammo@),
            final(self).character.weapons == old(self).character.weapons,
            final(self).character.health == old(self).character.health,
            final(outbox)@ == old(outbox)@ + weapon_messages(&old(self).character, ammo@),
            *final(self) == (Bot { character: final(self).character, ..*old(self) }),
    {
        let current: Handle = self.character.current_weapon();
        let in_hand: usize = self.character.current_weapon as usize;
        if current.is_some() && (in_hand >= ammo.len() || ammo[in_hand] == 0) {
            let mut i: usize = 0;
            while i < self.character.weapons.len()
                invariant
                    i <= self.character.weapons@.len(),
                    first_loaded(ammo@, self.character.weapons@.len() as int, 0) == first_loaded(
                        ammo@,
                        self.character.weapons@.len() as int,
                        i as int,
                    ),
                    *self == *old(self),
                    outbox@ == old(outbox)@,
                    !old(self).character.spec_current_weapon().spec_is_none(),
                    ammo_of(ammo@, old(self).character.current_weapon as int) == 0,
                decreases self.character.weapons@.len() - i,
            {
                if i < ammo.len() && ammo[i] > 0 {
                    assert(first_loaded(ammo@, self.character.weapons@.len() as int, i as int)
                        == Some(i as int));
                    self.character.set_current_weapon(i, outbox);
                    assert(old(outbox)@ + Seq::<Message>::empty() =~= old(outbox)@);
                    return ;
                }
                i += 1;
            }
        }
        assert(old(outbox)@ + Seq::<Message>::empty() =~= old(outbox)@);
    }
}

/// What a bot makes of a tick before it acts.
pub ghost struct Situation {
    /// Whom the bot is after.
    pub target: Option<Target>,
    pub in_close_combat: bool,
    /// Where the bot looks.
    pub look_dir: Offset,
    pub dead: bool,
    /// Whether the lockout after damage is over.
    pub can_aim: bool,
    /// The path plan after the bot has looked where it stands.
    pub plan: PathPlan,
    pub movement: Movement,
    /// The number of the weapon in hand.
    pub weapon: u32,
}

/// What the bot does with its velocity. Alive, with a target out of
/// striking distance, it walks to its waypoint, unless it stands exactly
/// on it; in every other case it stops.
pub open spec fn spec_movement(
    dead: bool,
    in_close_combat: bool,
    target: Option<Target>,
    position: Vector3,
    move_target: Vector3,
    walk_speed: u32,
) -> Movement {
    if !dead && !in_close_combat && target is Some {
        if position.spec_offset_to(move_target).spec_is_zero() {
            Movement::Keep
        } else {
            Movement::Walk { direction: position.spec_offset_to(move_target), speed: walk_speed }
        }
    } else {
        Movement::Halt
    }
}

/// Whether the attack clip starts over: the bot is alive and in close
/// combat, its rest is over, and the clip is at its end or disabled.
pub open spec fn spec_restart_attack(
    dead: bool,
    in_close_combat: bool,
    attack_timeout: i64,
    clip_enabled: bool,
    clip_ended: bool,
) -> bool {
    !dead && in_close_combat && attack_timeout <= 0 && (clip_ended || !clip_enabled)
}

/// The rest before the next blow, one tick later. A clip that has come
/// to its end, and does not start over at once, arms the rest if none is
/// running.
pub open spec fn spec_attack_timeout(
    attack_timeout: i64,
    clip_ended: bool,
    restart: bool,
    dt: u32,
) -> i64 {
    spec_count_down(
        if attack_timeout <= 0 && clip_ended && !restart {
            ATTACK_COOLDOWN
        } else {
            attack_timeout
        },
        dt,
    )
}

impl Situation {
    pub open spec fn is_moving(self) -> bool {
        self.movement is Walk
    }
}

impl Bot {
    /// What the bot makes of the tick.
    pub open spec fn situation(
        &self,
        self_handle: Handle,
        targets: Seq<TargetDescriptor>,
        senses: &Senses,
    ) -> Situation {
        let target = selected(
            self.target,
            self_handle,
            senses.position,
            targets,
            senses.sightings@,
        );
        let in_close_combat = spec_in_close_combat(target, senses.position);
        let dead = self.character.health <= 0;
        let plan = self.planner@.advanced(senses.position);
        Situation {
            target,
            in_close_combat,
            look_dir: spec_look_dir(target, senses.position),
            dead,
            can_aim: spec_restoration(
                self.character.health,
                self.last_health,
                self.restoration_time,
            ) <= 0,
            plan,
            movement: spec_movement(
                dead,
                in_close_combat,
                target,
                senses.position,
                plan.move_target,
                self.definition.walk_speed,
            ),
            weapon: weapon_after(&self.character, senses.ammo@),
        }
    }

    /// Whether the bot fires on this tick.
    pub open spec fn shoots(&self, s: Situation) -> bool {
        &&& !s.in_close_combat
        &&& s.can_aim
        &&& self.spec_can_shoot()
        &&& s.target is Some
        &&& s.weapon < self.character.weapons@.len()
    }

    /// How many blows land on this tick.
    pub open spec fn blow_count(&self, s: Situation) -> nat {
        if s.in_close_combat {
            count_signal(self.upper_body_machine.attack_signals@, UpperBodyMachine::HIT_SIGNAL)
        } else {
            0
        }
    }

    /// How many footsteps sound on this tick.
    pub open spec fn footstep_count(&self, senses: &Senses) -> nat {
        if self.lower_body_machine.spec_is_walking() && senses.has_ground_contact {
            count_signal(self.lower_body_machine.walk_signals@, LowerBodyMachine::STEP_SIGNAL)
        } else {
            0
        }
    }

    /// The messages of a tick but for the footsteps: first those of the
    /// choice of a weapon, then the order to fire, then the blows.
    pub open spec fn orders(&self, s: Situation, senses: &Senses) -> Seq<Message> {
        weapon_messages(&self.character, senses.ammo@) + (if self.shoots(s) {
            seq![
                Message::ShootWeapon {
                    weapon: self.character.weapons@[s.weapon as int],
                    direction: Some(s.look_dir),
                },
            ]
        } else {
            Seq::empty()
        }) + (match s.target {
            Some(t) => blows(self.blow_count(s), t.handle, self.definition.attack_damage),
            None => Seq::empty(),
        })
    }

    /// What moves the locomotion layer on this tick.
    pub open spec fn lower_input(s: Situation) -> LowerBodyMachineInput {
        LowerBodyMachineInput { walk: s.is_moving(), scream: false, dead: s.dead }
    }

    /// What moves the action layer on this tick.
    pub open spec fn upper_input(&self, s: Situation) -> UpperBodyMachineInput {
        UpperBodyMachineInput {
            attack: s.in_close_combat && self.attack_timeout <= 0,
            walk: s.is_moving(),
            scream: false,
            dead: s.dead,
            aim: self.definition.can_use_weapons && s.can_aim,
        }
    }

    /// One tick of a bot. In this order the bot settles its target and its
    /// weapon, measures the distance to the target, turns to its waypoint,
    /// notices damage, decides how to move, fires, lands blows, sounds its
    /// footsteps, asks for a path if one is due, runs both animation
    /// layers, gates the attack clip, and aims.
    pub fn update(
        &mut self,
        self_handle: Handle,
        context: &UpdateContext,
        targets: &Vec<TargetDescriptor>,
        senses: &Senses,
    ) -> (commands: Commands)
        requires
            old(self).wf(),
        ensures
            final(self).wf(),
            final(self).kind == old(self).kind,
            final(self).definition == old(self).definition,
            final(self).character.health == old(self).character.health,
            final(self).character.weapons == old(self).character.weapons,
            ({
                let s = old(self).situation(self_handle, targets@, senses);
                let restart = spec_restart_attack(
                    s.dead,
                    s.in_close_combat,
                    old(self).attack_timeout,
                    senses.attack_clip_enabled,
                    senses.attack_clip_ended,
                );
                &&& final(self).target == s.target
                &&& final(self).character.current_weapon == s.weapon
                &&& final(self).planner@ == s.plan
                &&& final(self).last_health == old(self).character.health
                &&& final(self).restoration_time == spec_count_down(
                    spec_restoration(
                        old(self).character.health,
                        old(self).last_health,
                        old(self).restoration_time,
                    ),
                    context.time.delta,
                )
                &&& final(self).attack_timeout == spec_attack_timeout(
                    old(self).attack_timeout,
                    senses.attack_clip_ended,
                    restart,
                    context.time.delta,
                )
                &&& final(self).lower_body_machine.view() == LowerBodyMachine::applied(
                    old(self).lower_body_machine.view(),
                    context.time.delta,
                    Bot::lower_input(s),
                )
                &&& final(self).upper_body_machine.view() == UpperBodyMachine::applied(
                    old(self).upper_body_machine.view(),
                    context.time.delta,
                    old(self).upper_input(s),
                )
                &&& if s.target is Some {
                    final(self).upper_body_machine.attack_signals@.len() == 0
                } else {
                    final(self).upper_body_machine.attack_signals == old(
                        self,
                    ).upper_body_machine.attack_signals
                }
                &&& if old(self).lower_body_machine.spec_is_walking() {
                    final(self).lower_body_machine.walk_signals@.len() == 0
                } else {
                    final(self).lower_body_machine.walk_signals == old(
                        self,
                    ).lower_body_machine.walk_signals
                }
                &&& commands.movement == s.movement
                &&& commands.dying == s.dead
                &&& commands.restart_attack == restart
                &&& commands.path_request == s.plan.request(
                    context.time.elapsed as int,
                    context.navmesh,
                    senses.position,
                    s.target,
                )
                &&& commands.aim == if !s.dead && !s.look_dir.spec_is_zero() {
                    Some(s.look_dir)
                } else {
                    None
                }
                &&& commands.messages@.len() == old(self).orders(s, senses).len() + old(
                    self,
                ).footstep_count(senses)
                &&& commands.messages@.subrange(0, old(self).orders(s, senses).len() as int) == old(
                    self,
                ).orders(s, senses)
                &&& forall|i: int|
                    old(self).orders(s, senses).len() <= i < commands.messages@.len()
                        ==> is_footstep_message(#[trigger] commands.messages@[i], senses.position)
            }),
            old(self).upper_body_machine.spec_is_dying()
                ==> final(self).upper_body_machine.spec_is_dying(),
            old(self).lower_body_machine.spec_is_dying()
                ==> final(self).lower_body_machine.spec_is_dying(),
            final(self).planner.path == old(self).planner.path,
            final(self).planner.last_path_rebuild_time == old(self).planner.last_path_rebuild_time,
            old(self).planner.current_path_point <= final(self).planner.current_path_point,
            final(self).planner.path@.len() > 0 ==> final(self).planner.current_path_point
                <= final(self).planner.path@.len() - 1,
    {
        let ghost s = self.situation(self_handle, targets@, senses);
        let ghost orders = self.orders(s, senses);
        let position: Vector3 = senses.position;
        let dt: u32 = context.time.delta;
        let mut messages: Vec<Message> = Vec::new();

        self.select_target(self_handle, position, targets, &senses.sightings);
        self.select_weapon(&senses.ammo, &mut messages);
        assert(messages@ =~= weapon_messages(&old(self).character, senses.ammo@));

        let (in_close_combat, look_dir): (bool, Offset) = match self.target {
            None => (false, Offset { x: 0, y: 0, z: 1000 }),
            Some(target) => (
                position.within(&target.position, CLOSE_COMBAT_RANGE),
                position.offset_to(&target.position),
            ),
        };

        self.planner.advance(position);

        if self.character.health < self.last_health {
            self.restoration_time = RESTORATION_TIME;
        }
        let can_aim: bool = self.restoration_time <= 0;
        self.last_health = self.character.health;

        let dead: bool = self.character.is_dead();

        let movement: Movement = if !dead && !in_close_combat && self.target.is_some() {
            let direction: Offset = position.offset_to(&self.planner.move_target);
            if direction.is_zero() {
                Movement::Keep
            } else {
                Movement::Walk { direction, speed: self.definition.walk_speed }
            }
        } else {
            Movement::Halt
        };
        let is_moving: bool = match movement {
            Movement::Walk { .. } => true,
            _ => false,
        };

        if !in_close_combat && can_aim && self.can_shoot() && self.target.is_some() {
            let in_hand: usize = self.character.current_weapon as usize;
            if in_hand < self.character.weapons.len() {
                messages.push(
                    Message::ShootWeapon {
                        weapon: self.character.weapons[in_hand],
                        direction: Some(look_dir),
                    },
                );
            }
        }

        if let Some(target) = self.target {
            emit_blows(
                &mut self.upper_body_machine.attack_signals,
                in_close_combat,
                target.handle,
                self.definition.attack_damage,
                &mut messages,
            );
        }
        assert(messages@ =~= orders);

        if self.lower_body_machine.is_walking() {
            emit_footsteps(
                &mut self.lower_body_machine.walk_signals,
                senses.has_ground_contact,
                position,
                &mut messages,
            );
        }

        let path_request: Option<PathRequest> = self.planner.request(
            context.time,
            context.navmesh,
            position,
            self.target,
        );

        self.restoration_time = count_down(self.restoration_time, dt);

        proof {
            lower_body::lemma_dying_is_terminal(self.lower_body_machine.view());
            upper_body::lemma_dying_is_terminal(self.upper_body_machine.view());
            if self.lower_body_machine.spec_is_dying() {
                lemma_terminal_is_absorbing(
                    self.lower_body_machine.view().with_rules(
                        LowerBodyMachine::rules(Bot::lower_input(s)),
                    ),
                    dt,
                );
            }
            if self.upper_body_machine.spec_is_dying() {
                lemma_terminal_is_absorbing(
                    self.upper_body_machine.view().with_rules(
                        UpperBodyMachine::rules(old(self).upper_input(s)),
                    ),
                    dt,
                );
            }
        }
        self.lower_body_machine.apply(
            dt,
            LowerBodyMachineInput { walk: is_moving, scream: false, dead },
        );
        self.upper_body_machine.apply(
            dt,
            UpperBodyMachineInput {
                attack: in_close_combat && self.attack_timeout <= 0,
                walk: is_moving,
                scream: false,
                dead,
                aim: self.definition.can_use_weapons && can_aim,
            },
        );

        let restart_attack: bool = !dead && in_close_combat && self.attack_timeout <= 0 && (
        senses.attack_clip_ended || !senses.attack_clip_enabled);
        if self.attack_timeout <= 0 && senses.attack_clip_ended && !restart_attack {
            self.attack_timeout = ATTACK_COOLDOWN;
        }
        self.attack_timeout = count_down(self.attack_timeout, dt);

        let aim: Option<Offset> = if !dead && !look_dir.is_zero() {
            Some(look_dir)
        } else {
            None
        };

        Commands { movement, dying: dead, restart_attack, path_request, aim, messages }
    }
}

impl Default for Bot {
    /// A mutant, as it is born.
    fn default() -> (r: Bot)
        ensures
            r.is_newborn(BotKind::Mutant),
    {
        Bot::new(BotKind::Mutant)
    }
}

} // verus!
