//! The player: what the entity under human control decides on every
//! tick.

use vstd::prelude::*;
use crate::character::{visibility_messages, Character};
use crate::control_scheme::{spec_turn, turn, ControlAction, ControlScheme, InputEvent};
use crate::handle::Handle;
use crate::level::UpdateContext;
use crate::math::{Offset, Vector3};
use crate::message::{Message, ProjectileKind};
use crate::player::lower_body::{LowerBodyMachine, LowerBodyMachineInput};
use crate::player::upper_body::{CombatWeaponKind, UpperBodyMachine, UpperBodyMachineInput};
use crate::signal::count_signal;
use crate::text::{decimal, numbered_message};

pub mod lower_body;
pub mod upper_body;

verus! {

/// A pending change of weapon.
#[derive(Copy, Clone, PartialEq, Eq, Structural, PartialOrd, Ord, Debug)]
pub enum Direction {
    Stay,
    Next,
    Previous,
}

impl Direction {
    /// The numeric identifier under which the direction is stored.
    pub open spec fn spec_id(self) -> int {
        match self {
            Direction::Stay => 0,
            Direction::Next => 1,
            Direction::Previous => 2,
        }
    }

    /// The direction that is stored under `id`.
    pub fn from_id(id: u32) -> (r: Result<Self, String>)
        ensures
            id <= 2 ==> r is Ok && r->Ok_0.spec_id() == id,
            id > 2 ==> r is Err && r->Err_0@ == "Invalid Direction id "@ + decimal(id as int)
                + "!"@,
    {
        match id {
            0 => Ok(Direction::Stay),
            1 => Ok(Direction::Next),
            2 => Ok(Direction::Previous),
            _ => Err(numbered_message("Invalid Direction id ", id as i64, "!")),
        }
    }

    /// The identifier under which the direction is stored.
    pub fn id(self) -> (r: u32)
        ensures
            r == self.spec_id(),
    {
        match self {
            Direction::Stay => 0,
            Direction::Next => 1,
            Direction::Previous => 2,
        }
    }
}

impl Default for Direction {
    /// No change is pending.
    fn default() -> (r: Direction)
        ensures
            r == Direction::Stay,
    {
        Direction::Stay
    }
}

/// The steepest pitch of the view, up or down, in thousandths of a degree.
pub const PITCH_LIMIT: i32 = 90_000;

/// How upright a contact normal must be for the contact to count as
/// ground, in thousandths.
pub const GROUND_NORMAL: i32 = 700;

/// How long the player may be in the air and still count as standing.
pub const COYOTE_TIME: u32 = 300;

/// The speed at which a grenade leaves the hand.
pub const GRENADE_SPEED: i64 = 15;

/// The vertical velocity that a jump gives the body.
pub const JUMP_VELOCITY: u32 = 3000;

/// The camera's distance behind the player while aiming, and otherwise.
pub const CAMERA_DISTANCE_AIMING: u32 = 200;

pub const CAMERA_DISTANCE: u32 = 800;

/// The least distance of the camera, and the room it keeps from what is
/// behind it.
pub const CAMERA_MIN_DISTANCE: u32 = 100;

pub const CAMERA_MARGIN: u32 = 200;

/// What the person at the controls wants, as of the last input event.
#[derive(Copy, Clone, PartialEq, Eq, Structural, Debug)]
pub struct InputController {
    pub walk_forward: bool,
    pub walk_backward: bool,
    pub walk_left: bool,
    pub walk_right: bool,
    pub jump: bool,
    /// Where the view points, in thousandths of a degree.
    pub yaw: i64,
    pub pitch: i32,
    pub aim: bool,
    pub toss_grenade: bool,
    pub shoot: bool,
    pub run: bool,
}

/// What the ray from the camera hinge to the camera has met.
#[derive(Copy, Clone, PartialEq, Eq, Structural, Debug)]
pub struct CameraHit {
    /// Whether it is the player's own collider.
    pub own_collider: bool,
    /// How far along the ray.
    pub toi: u32,
}

/// Which clips have played to their end.
#[derive(Copy, Clone, PartialEq, Eq, Structural, Debug)]
pub struct ClipStates {
    pub jump_ended: bool,
    pub land_ended: bool,
    pub toss_grenade_ended: bool,
    pub put_back_ended: bool,
    pub grab_ended: bool,
}

/// What the host has sampled for the player at the start of a tick.
pub struct Senses {
    /// The vertical component of the normal of every contact of the
    /// player's collider, in thousandths.
    pub contact_normals: Vec<i32>,
    /// What the ray from the camera hinge to the camera has met, nearest
    /// first.
    pub camera_hits: Vec<CameraHit>,
    /// Where the weapon is.
    pub weapon_pivot_position: Vector3,
    /// Where the camera looks: a vector of length one, in thousandths.
    pub camera_look: Vector3,
    pub clips: ClipStates,
}

/// Where the player wants to go, in multiples of its own side and look
/// vectors.
#[derive(Copy, Clone, PartialEq, Eq, Structural, Debug)]
pub struct Steering {
    pub side: i8,
    pub forward: i8,
}

/// How the camera sways while the player walks: the offset to the side
/// is `amplitude` times the cosine of `kx` times the time, the offset
/// upward `amplitude` times the sine of `ky` times the time.
#[derive(Copy, Clone, PartialEq, Eq, Structural, Debug)]
pub struct CameraBob {
    pub amplitude: u32,
    pub kx: u32,
    pub ky: u32,
}

/// What the player asks of the host at the end of a tick.
pub struct Commands {
    /// Whether the body stands on something.
    pub has_ground_contact: bool,
    pub steering: Steering,
    /// How fast the player moves along its steering, per second.
    pub speed: u64,
    /// Give the body the vertical velocity of a jump.
    pub jump: bool,
    /// Enable the grab clip: the weapon has been put back.
    pub enable_grab_clip: bool,
    /// The pitch that the spine turns toward.
    pub spine_pitch: i32,
    /// While the player walks or aims: turn the body the way the view
    /// points, and the model by this angle against the body.
    pub model_yaw: Option<i32>,
    /// While the player walks or aims: the speed of the walk and run
    /// clips, a thousand forward, minus a thousand backward.
    pub walk_clip_speed: Option<i32>,
    /// The angles that the weapon turns toward, to lie well in the hand.
    pub weapon_yaw_correction: i32,
    pub weapon_pitch_correction: i32,
    /// The sway of the camera; none while the player stands.
    pub camera_bob: Option<CameraBob>,
    /// How far behind the player the camera wants to be.
    pub camera_distance: u32,
    /// Rewind the jump clips of both layers.
    pub rewind_jump_clips: bool,
    /// Rewind the land clips of both layers.
    pub rewind_land_clips: bool,
    /// Messages for the level, in the order in which they were decided.
    pub messages: Vec<Message>,
}

/// What an input event asks of the clips.
#[derive(Copy, Clone, PartialEq, Eq, Structural, Debug)]
pub struct ClipRequests {
    /// Rewind the put-back clip, disable the grab clip and rewind it: a
    /// change of weapon begins.
    pub begin_weapon_change: bool,
    /// Rewind the toss clip.
    pub rewind_toss_grenade: bool,
}

pub struct Player {
    pub character: Character,
    pub controller: InputController,
    pub control_scheme: ControlScheme,
    pub lower_body_machine: LowerBodyMachine,
    pub upper_body_machine: UpperBodyMachine,
    /// Walking speed, per second. Running is four times as fast.
    pub move_speed: u32,
    pub weapon_change_direction: Direction,
    /// How much of running is in the walk, in thousandths.
    pub run_factor: u32,
    pub target_run_factor: u32,
    /// How long the body has been in the air.
    pub in_air_time: u32,
}

/// Whether any contact is upright enough to stand on.
pub open spec fn spec_has_ground_contact(normals: Seq<i32>) -> bool {
    exists|i: int| 0 <= i < normals.len() && normals[i] > GROUND_NORMAL
}

pub fn has_ground_contact(normals: &Vec<i32>) -> (r: bool)
    ensures
        r == spec_has_ground_contact(normals@),
{
    let mut i: usize = 0;
    while i < normals.len()
        invariant
            i <= normals@.len(),
            forall|j: int| 0 <= j < i ==> normals@[j] <= GROUND_NORMAL,
        decreases normals@.len() - i,
    {
        if normals[i] > GROUND_NORMAL {
            return true;
        }
        i += 1;
    }
    false
}

/// The run factor one tick later: a tenth of the way nearer to its
/// target.
pub open spec fn spec_run_factor(run_factor: u32, target: u32) -> u32 {
    if target >= run_factor {
        (run_factor + (target - run_factor) / 10) as u32
    } else {
        (run_factor - (run_factor - target) / 10) as u32
    }
}

pub fn smooth_run_factor(run_factor: u32, target: u32) -> (r: u32)
    ensures
        r == spec_run_factor(run_factor, target),
        run_factor <= 1000 && target <= 1000 ==> r <= 1000,
{
    if target >= run_factor {
        run_factor + (target - run_factor) / 10
    } else {
        run_factor - (run_factor - target) / 10
    }
}

/// The speed of the player: between walking and four times walking, by
/// the run factor.
pub open spec fn spec_speed(move_speed: u32, run_factor: u32) -> int {
    move_speed + (3 * move_speed * run_factor) / 1000
}

pub fn speed(move_speed: u32, run_factor: u32) -> (r: u64)
    ensures
        r == spec_speed(move_speed, run_factor),
{
    let tripled: u128 = 3 * (move_speed as u128);
    assert(tripled * run_factor <= 3 * 0xffff_ffff * 0xffff_ffff) by (nonlinear_arith)
        requires
            tripled <= 3 * 0xffff_ffff,
            run_factor <= 0xffff_ffff,
    ;
    assert(3 * move_speed * run_factor == tripled * run_factor) by (nonlinear_arith)
        requires
            tripled == 3 * move_speed,
    ;
    let extra: u128 = tripled * (run_factor as u128) / 1000;
    (move_speed as u128 + extra) as u64
}

/// Where the controls steer.
pub open spec fn spec_steering(c: InputController) -> Steering {
    Steering {
        side: ((if c.walk_left {
            1int
        } else {
            0int
        }) - (if c.walk_right {
            1int
        } else {
            0int
        })) as i8,
        forward: ((if c.walk_forward {
            1int
        } else {
            0int
        }) - (if c.walk_backward {
            1int
        } else {
            0int
        })) as i8,
    }
}

pub fn steering(c: &InputController) -> (r: Steering)
    ensures
        r == spec_steering(*c),
{
    let left: i8 = if c.walk_left {
        1
    } else {
        0
    };
    let right: i8 = if c.walk_right {
        1
    } else {
        0
    };
    let forward: i8 = if c.walk_forward {
        1
    } else {
        0
    };
    let backward: i8 = if c.walk_backward {
        1
    } else {
        0
    };
    Steering { side: left - right, forward: forward - backward }
}

/// The angle between the model and the body, in thousandths of a degree:
/// the model turns into the direction of the walk.
pub open spec fn spec_model_yaw(c: InputController) -> i32 {
    if c.aim {
        if c.walk_left {
            if c.walk_backward {
                (-45_000) as i32
            } else {
                45_000
            }
        } else if c.walk_right {
            if c.walk_backward {
                45_000
            } else {
                (-45_000) as i32
            }
        } else {
            0
        }
    } else if c.walk_left {
        if c.walk_forward {
            45_000
        } else if c.walk_backward {
            135_000
        } else {
            90_000
        }
    } else if c.walk_right {
        if c.walk_forward {
            (-45_000) as i32
        } else if c.walk_backward {
            (-135_000) as i32
        } else {
            (-90_000) as i32
        }
    } else if c.walk_backward {
        180_000
    } else {
        0
    }
}

pub fn model_yaw(c: &InputController) -> (r: i32)
    ensures
        r == spec_model_yaw(*c),
{
    if c.aim {
        if c.walk_left {
            if c.walk_backward {
                -45_000
            } else {
                45_000
            }
        } else if c.walk_right {
            if c.walk_backward {
                45_000
            } else {
                -45_000
            }
        } else {
            0
        }
    } else if c.walk_left {
        if c.walk_forward {
            45_000
        } else if c.walk_backward {
            135_000
        } else {
            90_000
        }
    } else if c.walk_right {
        if c.walk_forward {
            -45_000
        } else if c.walk_backward {
            -135_000
        } else {
            -90_000
        }
    } else if c.walk_backward {
        180_000
    } else {
        0
    }
}

/// The first hit at or after `k` that is not the player's own collider.
pub open spec fn first_foreign(hits: Seq<CameraHit>, k: int) -> Option<int>
    decreases hits.len() - k,
{
    if k < 0 || k >= hits.len() {
        None
    } else if !hits[k].own_collider {
        Some(k)
    } else {
        first_foreign(hits, k + 1)
    }
}

/// `first_foreign` finds the least hit at or after `k` that is not the
/// player's own.
pub proof fn lemma_first_foreign_is_least(hits: Seq<CameraHit>, k: int)
    requires
        0 <= k,
    ensures
        match first_foreign(hits, k) {
            Some(i) => k <= i < hits.len() && !hits[i].own_collider && forall|j: int|
                k <= j < i ==> hits[j].own_collider,
            None => forall|j: int| k <= j < hits.len() ==> hits[j].own_collider,
        },
    decreases hits.len() - k,
{
    if k < hits.len() && hits[k].own_collider {
        lemma_first_foreign_is_least(hits, k + 1);
    }
}

/// How far the camera may fall back before something that lies `toi`
/// behind the hinge.
pub open spec fn spec_room(toi: u32) -> u32 {
    let near: int = if toi < CAMERA_DISTANCE {
        toi as int
    } else {
        CAMERA_DISTANCE as int
    };
    if near - CAMERA_MARGIN > CAMERA_MIN_DISTANCE {
        (near - CAMERA_MARGIN) as u32
    } else {
        CAMERA_MIN_DISTANCE
    }
}

/// How far behind the player the camera wants to be: nearer while the
/// player aims, and never behind the first thing in its way.
pub open spec fn spec_camera_distance(aim: bool, hits: Seq<CameraHit>) -> u32 {
    let wanted: u32 = if aim {
        CAMERA_DISTANCE_AIMING
    } else {
        CAMERA_DISTANCE
    };
    match first_foreign(hits, 0) {
        Some(i) if spec_room(hits[i].toi) < wanted => spec_room(hits[i].toi),
        _ => wanted,
    }
}

pub fn camera_distance(aim: bool, hits: &Vec<CameraHit>) -> (r: u32)
    ensures
        r == spec_camera_distance(aim, hits@),
{
    let wanted: u32 = if aim {
        CAMERA_DISTANCE_AIMING
    } else {
        CAMERA_DISTANCE
    };
    let mut i: usize = 0;
    while i < hits.len()
        invariant
            i <= hits@.len(),
            first_foreign(hits@, 0) == first_foreign(hits@, i as int),
            wanted == if aim {
                CAMERA_DISTANCE_AIMING
            } else {
                CAMERA_DISTANCE
            },
        decreases hits@.len() - i,
    {
        if !hits[i].own_collider {
            assert(first_foreign(hits@, i as int) == Some(i as int));
            let toi: u32 = hits[i].toi;
            let near: u32 = if toi < CAMERA_DISTANCE {
                toi
            } else {
                CAMERA_DISTANCE
            };
            let room: u32 = if near > CAMERA_MARGIN + CAMERA_MIN_DISTANCE {
                near - CAMERA_MARGIN
            } else {
                CAMERA_MIN_DISTANCE
            };
            return if room < wanted {
                room
            } else {
                wanted
            };
        }
        i += 1;
    }
    wanted
}

/// The message that launches a grenade from `position` the way the
/// camera looks.
pub open spec fn spec_grenade(position: Vector3, look: Vector3) -> Message {
    Message::CreateProjectile {
        kind: ProjectileKind::Grenade,
        position,
        direction: Offset { x: look.x as i64, y: look.y as i64, z: look.z as i64 },
        initial_velocity: Offset {
            x: (look.x * GRENADE_SPEED) as i64,
            y: (look.y * GRENADE_SPEED) as i64,
            z: (look.z * GRENADE_SPEED) as i64,
        },
        owner: Handle::spec_none(),
    }
}

pub fn grenade(position: Vector3, look: Vector3) -> (r: Message)
    ensures
        r == spec_grenade(position, look),
{
    Message::CreateProjectile {
        kind: ProjectileKind::Grenade,
        position,
        direction: Offset { x: look.x as i64, y: look.y as i64, z: look.z as i64 },
        initial_velocity: Offset {
            x: look.x as i64 * GRENADE_SPEED,
            y: look.y as i64 * GRENADE_SPEED,
            z: look.z as i64 * GRENADE_SPEED,
        },
        owner: Handle::none(),
    }
}

/// `count` grenades.
pub open spec fn grenades(count: nat, position: Vector3, look: Vector3) -> Seq<Message> {
    Seq::new(count, |i: int| spec_grenade(position, look))
}

/// The view after the mouse has moved: the yaw turns against the travel
/// to the side, the pitch with the travel downward, and stops at
/// straight up and straight down.
pub open spec fn spec_look(c: InputController, dx: i32, dy: i32, sens: u32, dt: u32) -> InputController {
    let yaw: int = c.yaw - spec_turn(dx, sens, dt);
    let pitch: int = c.pitch + spec_turn(dy, sens, dt);
    InputController {
        yaw: if yaw > i64::MAX {
            i64::MAX
        } else if yaw < i64::MIN {
            i64::MIN
        } else {
            yaw as i64
        },
        pitch: if pitch > PITCH_LIMIT {
            PITCH_LIMIT
        } else if pitch < -PITCH_LIMIT {
            (-PITCH_LIMIT) as i32
        } else {
            pitch as i32
        },
        ..c
    }
}

impl InputController {
    /// Controls that nobody touches.
    pub fn new() -> (r: InputController)
        ensures
            r == (InputController {
                walk_forward: false,
                walk_backward: false,
                walk_left: false,
                walk_right: false,
                jump: false,
                yaw: 0,
                pitch: 0,
                aim: false,
                toss_grenade: false,
                shoot: false,
                run: false,
            }),
    {
        InputController {
            walk_forward: false,
            walk_backward: false,
            walk_left: false,
            walk_right: false,
            jump: false,
            yaw: 0,
            pitch: 0,
            aim: false,
            toss_grenade: false,
            shoot: false,
            run: false,
        }
    }

    pub open spec fn spec_is_walking(self) -> bool {
        self.walk_backward || self.walk_forward || self.walk_right || self.walk_left
    }

    /// Whether any of the four moves is wanted.
    pub fn is_walking(&self) -> (r: bool)
        ensures
            r == self.spec_is_walking(),
    {
        self.walk_backward || self.walk_forward || self.walk_right || self.walk_left
    }

    /// Takes note that a button bound to `action` went down or came up.
    pub fn press(&mut self, action: ControlAction, down: bool)
        ensures
            *final(self) == Player::pressed(*old(self), action, down),
    {
        match action {
            ControlAction::Aim => {
                self.aim = down;
            },
            ControlAction::MoveForward => {
                self.walk_forward = down;
            },
            ControlAction::MoveBackward => {
                self.walk_backward = down;
            },
            ControlAction::MoveLeft => {
                self.walk_left = down;
            },
            ControlAction::MoveRight => {
                self.walk_right = down;
            },
            ControlAction::Jump => {
                self.jump = down;
            },
            ControlAction::Run => {
                self.run = down;
            },
            ControlAction::TossGrenade => {
                self.toss_grenade = down;
            },
            ControlAction::Shoot => {
                self.shoot = down;
            },
            ControlAction::NextWeapon => {},
            ControlAction::PrevWeapon => {},
        }
    }

    /// Turns the view by a travel of the mouse.
    pub fn look(&mut self, dx: i32, dy: i32, sens: u32, dt: u32)
        ensures
            *final(self) == spec_look(*old(self), dx, dy, sens, dt),
    {
        let yaw: i128 = self.yaw as i128 - turn(dx, sens, dt) as i128;
        let pitch: i128 = self.pitch as i128 + turn(dy, sens, dt) as i128;
        self.yaw = if yaw > i64::MAX as i128 {
            i64::MAX
        } else if yaw < i64::MIN as i128 {
            i64::MIN
        } else {
            yaw as i64
        };
        self.pitch = if pitch > PITCH_LIMIT as i128 {
            PITCH_LIMIT
        } else if pitch < -(PITCH_LIMIT as i128) {
            -PITCH_LIMIT
        } else {
            pitch as i32
        };
    }
}

impl Player {
    pub open spec fn wf(&self) -> bool {
        &&& self.lower_body_machine.wf()
        &&& self.upper_body_machine.wf()
        &&& self.run_factor <= 1000
    }

    /// Whether the player is well formed. Every player that `new` makes
    /// is, and no method of a player changes that.
    pub fn is_wf(&self) -> (r: bool)
        ensures
            r == self.wf(),
    {
        self.lower_body_machine.is_wf() && self.upper_body_machine.is_wf() && self.run_factor
            <= 1000
    }

    /// Whether the player is as it enters a level: in full health, at
    /// rest, with no weapon, its controls untouched, and no signals
    /// waiting.
    pub open spec fn is_fresh(&self, control_scheme: ControlScheme) -> bool {
        &&& self.wf()
        &&& self.character.health == 100_000
        &&& self.character.weapons@.len() == 0
        &&& self.character.current_weapon == 0
        &&& self.controller == (InputController {
            walk_forward: false,
            walk_backward: false,
            walk_left: false,
            walk_right: false,
            jump: false,
            yaw: 0,
            pitch: 0,
            aim: false,
            toss_grenade: false,
            shoot: false,
            run: false,
        })
        &&& self.control_scheme == control_scheme
        &&& self.move_speed == 650
        &&& self.weapon_change_direction == Direction::Stay
        &&& self.run_factor == 0
        &&& self.target_run_factor == 0
        &&& self.in_air_time == 0
        &&& self.lower_body_machine.view().active_state == LowerBodyMachine::IDLE_STATE
        &&& self.lower_body_machine.view().active_transition is None
        &&& self.upper_body_machine.view().active_state == UpperBodyMachine::IDLE_STATE
        &&& self.upper_body_machine.view().active_transition is None
        &&& self.lower_body_machine.jump_signals@.len() == 0
        &&& self.upper_body_machine.grab_signals@.len() == 0
        &&& self.upper_body_machine.put_back_signals@.len() == 0
        &&& self.upper_body_machine.toss_grenade_signals@.len() == 0
    }

    /// A player as it enters a level.
    pub fn new(control_scheme: ControlScheme) -> (r: Player)
        ensures
            r.is_fresh(control_scheme),
    {
        Player {
            character: Character::new(100_000),
            controller: InputController::new(),
            control_scheme,
            lower_body_machine: LowerBodyMachine::new(),
            upper_body_machine: UpperBodyMachine::new(),
            move_speed: 650,
            weapon_change_direction: Direction::Stay,
            run_factor: 0,
            target_run_factor: 0,
            in_air_time: 0,
        }
    }

    /// Binds the controls anew.
    pub fn set_control_scheme(&mut self, control_scheme: ControlScheme)
        ensures
            *final(self) == (Player { control_scheme, ..*old(self) }),
    {
        self.control_scheme = control_scheme;
    }

    /// Whether the player may leave the level: when it is dead.
    pub fn can_be_removed(&self) -> (r: bool)
        ensures
            r == (self.character.health <= 0),
    {
        self.character.health <= 0
    }

    /// Whether a change to the next weapon may begin.
    pub open spec fn may_take_next(&self) -> bool {
        self.character.current_weapon + 1 < self.character.weapons@.len()
    }

    /// Whether a change to the previous weapon may begin.
    pub open spec fn may_take_prev(&self) -> bool {
        self.character.current_weapon > 0
    }

    /// The controls after a button bound to `action` went down or came
    /// up. The two weapon buttons leave the controls as they are.
    pub open spec fn pressed(c: InputController, action: ControlAction, down: bool) -> InputController {
        match action {
            ControlAction::Aim => InputController { aim: down, ..c },
            ControlAction::MoveForward => InputController { walk_forward: down, ..c },
            ControlAction::MoveBackward => InputController { walk_backward: down, ..c },
            ControlAction::MoveLeft => InputController { walk_left: down, ..c },
            ControlAction::MoveRight => InputController { walk_right: down, ..c },
            ControlAction::Jump => InputController { jump: down, ..c },
            ControlAction::Run => InputController { run: down, ..c },
            ControlAction::TossGrenade => InputController { toss_grenade: down, ..c },
            ControlAction::Shoot => InputController { shoot: down, ..c },
            ControlAction::NextWeapon => c,
            ControlAction::PrevWeapon => c,
        }
    }

    /// The controls after an event.
    pub open spec fn controller_after(&self, event: InputEvent, dt: u32) -> InputController {
        match event {
            InputEvent::MouseMotion { dx, dy } => spec_look(
                self.controller,
                dx,
                dy,
                self.control_scheme.mouse_sens,
                dt,
            ),
            _ => match event.spec_button_state() {
                Some((button, down)) => match self.control_scheme.spec_action_of(button) {
                    Some(action) => Self::pressed(self.controller, action, down),
                    None => self.controller,
                },
                None => self.controller,
            },
        }
    }

    /// The action that an event presses, if it presses one.
    pub open spec fn action_pressed(&self, event: InputEvent) -> Option<ControlAction> {
        match event.spec_button_state() {
            Some((button, true)) => self.control_scheme.spec_action_of(button),
            _ => None,
        }
    }

    /// The pending change of weapon after an event. A press of the next
    /// weapon button asks for the next weapon if there is one after the
    /// weapon in hand; a press of the previous weapon button asks for the
    /// previous one if there is one before it. Without such a weapon the
    /// press is ignored.
    pub open spec fn direction_after(&self, event: InputEvent) -> Direction {
        match self.action_pressed(event) {
            Some(ControlAction::NextWeapon) if self.may_take_next() => Direction::Next,
            Some(ControlAction::PrevWeapon) if self.may_take_prev() => Direction::Previous,
            _ => self.weapon_change_direction,
        }
    }

    /// What an event asks of the clips.
    pub open spec fn requests(&self, event: InputEvent) -> ClipRequests {
        ClipRequests {
            begin_weapon_change: match self.action_pressed(event) {
                Some(ControlAction::NextWeapon) => self.may_take_next(),
                Some(ControlAction::PrevWeapon) => self.may_take_prev(),
                _ => false,
            },
            rewind_toss_grenade: self.action_pressed(event) == Some(ControlAction::TossGrenade),
        }
    }

    /// Takes an event from the devices of the host. Buttons set and clear
    /// what the person wants; the mouse turns the view; a press of a
    /// weapon button leaves a request that the next grab signal carries
    /// out.
    pub fn process_input_event(&mut self, event: &InputEvent, dt: u32) -> (r: ClipRequests)
        ensures
            *final(self) == (Player {
                controller: old(self).controller_after(*event, dt),
                weapon_change_direction: old(self).direction_after(*event),
                ..*old(self)
            }),
            r == old(self).requests(*event),
    {
        let mut requests = ClipRequests { begin_weapon_change: false, rewind_toss_grenade: false };
        if let InputEvent::MouseMotion { dx, dy } = *event {
            self.controller.look(dx, dy, self.control_scheme.mouse_sens, dt);
            return requests;
        }
        if let Some((button, down)) = event.button_state() {
            if let Some(action) = self.control_scheme.action_of(button) {
                self.controller.press(action, down);
                if down {
                    match action {
                        ControlAction::NextWeapon => {
                            if (self.character.current_weapon as u64) + 1
                                < self.character.weapons.len() as u64 {
                                self.weapon_change_direction = Direction::Next;
                                requests.begin_weapon_change = true;
                            }
                        },
                        ControlAction::PrevWeapon => {
                            if self.character.current_weapon > 0 {
                                self.weapon_change_direction = Direction::Previous;
                                requests.begin_weapon_change = true;
                            }
                        },
                        ControlAction::TossGrenade => {
                            requests.rewind_toss_grenade = true;
                        },
                        _ => {},
                    }
                }
            }
        }
        requests
    }

    /// What moves the locomotion layer on a tick.
    pub open spec fn lower_input(&self, grounded: bool, clips: ClipStates) -> LowerBodyMachineInput {
        LowerBodyMachineInput {
            is_walking: self.controller.spec_is_walking(),
            is_jumping: grounded && self.controller.jump,
            has_ground_contact: self.in_air_time <= COYOTE_TIME,
            run_factor: self.run_factor,
            jump_ended: clips.jump_ended,
            land_ended: clips.land_ended,
        }
    }

    /// What moves the action layer on a tick.
    pub open spec fn upper_input(&self, grounded: bool, clips: ClipStates) -> UpperBodyMachineInput {
        UpperBodyMachineInput {
            is_walking: self.controller.spec_is_walking(),
            is_jumping: grounded && self.controller.jump,
            has_ground_contact: self.in_air_time <= COYOTE_TIME,
            is_aiming: self.controller.aim,
            toss_grenade: self.controller.toss_grenade,
            weapon: CombatWeaponKind::Rifle,
            change_weapon: self.weapon_change_direction != Direction::Stay,
            run_factor: self.run_factor,
            jump_ended: clips.jump_ended,
            land_ended: clips.land_ended,
            toss_grenade_ended: clips.toss_grenade_ended,
            put_back_ended: clips.put_back_ended,
            grab_ended: clips.grab_ended,
        }
    }

    /// Whether the grab clip has fired its signal since the last tick.
    pub open spec fn grabbed(&self) -> bool {
        count_signal(self.upper_body_machine.grab_signals@, UpperBodyMachine::GRAB_WEAPON_SIGNAL)
            > 0
    }

    /// The number of the weapon in hand after the tick. Only the grab
    /// signal changes it, and only by the pending request.
    pub open spec fn weapon_after(&self) -> u32 {
        if self.grabbed() && self.weapon_change_direction == Direction::Next
            && self.character.has_next_weapon() {
            (self.character.current_weapon + 1) as u32
        } else if self.grabbed() && self.weapon_change_direction == Direction::Previous
            && self.character.has_prev_weapon() {
            (self.character.current_weapon - 1) as u32
        } else {
            self.character.current_weapon
        }
    }

    /// The messages of the change of weapon.
    pub open spec fn weapon_messages(&self) -> Seq<Message> {
        if self.weapon_after() != self.character.current_weapon {
            visibility_messages(self.character.weapons@, self.weapon_after() as int)
        } else {
            Seq::empty()
        }
    }

    /// How many grenades leave the hand on this tick.
    pub open spec fn grenade_count(&self) -> nat {
        count_signal(
            self.upper_body_machine.toss_grenade_signals@,
            UpperBodyMachine::TOSS_GRENADE_SIGNAL,
        )
    }

    /// Whether the player fires on this tick: it owns the weapon in hand,
    /// the trigger is down, and the action layer, after its tick, rests in
    /// the aim state.
    pub open spec fn shoots(&self, grounded: bool, clips: ClipStates, dt: u32) -> bool {
        &&& self.weapon_after() < self.character.weapons@.len()
        &&& self.controller.shoot
        &&& UpperBodyMachine::applied(
            self.upper_body_machine.view(),
            dt,
            self.upper_input(grounded, clips),
        ).active_state == UpperBodyMachine::AIM_STATE
    }

    /// The messages of a tick: first those of the change of weapon, then
    /// the grenades, then the order to fire.
    pub open spec fn orders(&self, senses: &Senses, dt: u32) -> Seq<Message> {
        self.weapon_messages() + grenades(
            self.grenade_count(),
            senses.weapon_pivot_position,
            senses.camera_look,
        ) + (if self.shoots(spec_has_ground_contact(senses.contact_normals@), senses.clips, dt) {
            seq![
                Message::ShootWeapon {
                    weapon: self.character.weapons@[self.weapon_after() as int],
                    direction: Some(
                        Offset {
                            x: senses.camera_look.x as i64,
                            y: senses.camera_look.y as i64,
                            z: senses.camera_look.z as i64,
                        },
                    ),
                },
            ]
        } else {
            Seq::empty()
        })
    }

    /// One tick of the player. In this order the player finds out whether
    /// it stands, runs both animation layers, eases into or out of a run,
    /// settles how it moves, answers the signals of its clips (push off,
    /// take the other weapon, reach for it, let the grenade go), turns
    /// spine, model and weapon, places the camera, counts its time in the
    /// air, and fires.
    pub fn update(&mut self, context: &UpdateContext, senses: &Senses) -> (commands: Commands)
        requires
            old(self).wf(),
        ensures
            final(self).wf(),
            final(self).controller == old(self).controller,
            final(self).control_scheme == old(self).control_scheme,
            final(self).move_speed == old(self).move_speed,
            final(self).character.health == old(self).character.health,
            final(self).character.weapons == old(self).character.weapons,
            ({
                let dt = context.time.delta;
                let c = old(self).controller;
                let grounded = spec_has_ground_contact(senses.contact_normals@);
                let lower = LowerBodyMachine::applied(
                    old(self).lower_body_machine.view(),
                    dt,
                    old(self).lower_input(grounded, senses.clips),
                );
                let upper = UpperBodyMachine::applied(
                    old(self).upper_body_machine.view(),
                    dt,
                    old(self).upper_input(grounded, senses.clips),
                );
                let target_run_factor: u32 = if c.run {
                    1000
                } else {
                    0
                };
                let run_factor = spec_run_factor(old(self).run_factor, target_run_factor);
                &&& final(self).lower_body_machine.view() == lower
                &&& final(self).upper_body_machine.view() == upper
                &&& final(self).lower_body_machine.jump_signals@.len() == 0
                &&& final(self).upper_body_machine.grab_signals@.len() == 0
                &&& final(self).upper_body_machine.put_back_signals@.len() == 0
                &&& final(self).upper_body_machine.toss_grenade_signals@.len() == 0
                &&& final(self).target_run_factor == target_run_factor
                &&& final(self).run_factor == run_factor
                &&& final(self).character.current_weapon == old(self).weapon_after()
                &&& final(self).weapon_change_direction == if old(self).grabbed() {
                    Direction::Stay
                } else {
                    old(self).weapon_change_direction
                }
                &&& final(self).in_air_time == if grounded {
                    0
                } else if old(self).in_air_time + dt > u32::MAX {
                    u32::MAX
                } else {
                    (old(self).in_air_time + dt) as u32
                }
                &&& commands.has_ground_contact == grounded
                &&& commands.steering == spec_steering(c)
                &&& commands.speed == if LowerBodyMachine::mobile(lower) {
                    spec_speed(old(self).move_speed, run_factor)
                } else {
                    0
                }
                &&& commands.jump == (count_signal(
                    old(self).lower_body_machine.jump_signals@,
                    LowerBodyMachine::JUMP_SIGNAL,
                ) > 0 && LowerBodyMachine::jumping(lower))
                &&& commands.enable_grab_clip == (count_signal(
                    old(self).upper_body_machine.put_back_signals@,
                    UpperBodyMachine::PUT_BACK_WEAPON_END_SIGNAL,
                ) > 0)
                &&& commands.spine_pitch == if c.aim {
                    c.pitch
                } else {
                    0
                }
                &&& commands.model_yaw == if c.spec_is_walking() || c.aim {
                    Some(spec_model_yaw(c))
                } else {
                    None
                }
                &&& commands.walk_clip_speed == if c.spec_is_walking() || c.aim {
                    Some(
                        if c.aim && c.walk_backward {
                            (-1000) as i32
                        } else {
                            1000i32
                        },
                    )
                } else {
                    None
                }
                &&& commands.weapon_yaw_correction == if c.aim {
                    (-4_000) as i32
                } else {
                    30_000i32
                }
                &&& commands.weapon_pitch_correction == if c.aim {
                    (-12_000) as i32
                } else {
                    8_000i32
                }
                &&& commands.camera_bob == if c.spec_is_walking() {
                    Some(
                        if c.run {
                            CameraBob { amplitude: 15, kx: 8_000, ky: 13_000 }
                        } else {
                            CameraBob { amplitude: 15, kx: 5_000, ky: 10_000 }
                        },
                    )
                } else {
                    None
                }
                &&& commands.camera_distance == spec_camera_distance(c.aim, senses.camera_hits@)
                &&& commands.rewind_jump_clips == (grounded && c.jump)
                &&& commands.rewind_land_clips == !grounded
                &&& commands.messages@ == old(self).orders(senses, dt)
            }),
    {
        let dt: u32 = context.time.delta;
        let grounded: bool = has_ground_contact(&senses.contact_normals);
        let is_walking: bool = self.controller.is_walking();
        let is_jumping: bool = grounded && self.controller.jump;
        let standing: bool = self.in_air_time <= COYOTE_TIME;
        let mut messages: Vec<Message> = Vec::new();

        self.lower_body_machine.apply(
            dt,
            LowerBodyMachineInput {
                is_walking,
                is_jumping,
                has_ground_contact: standing,
                run_factor: self.run_factor,
                jump_ended: senses.clips.jump_ended,
                land_ended: senses.clips.land_ended,
            },
        );
        self.upper_body_machine.apply(
            dt,
            UpperBodyMachineInput {
                is_walking,
                is_jumping,
                has_ground_contact: standing,
                is_aiming: self.controller.aim,
                toss_grenade: self.controller.toss_grenade,
                weapon: CombatWeaponKind::Rifle,
                change_weapon: self.weapon_change_direction != Direction::Stay,
                run_factor: self.run_factor,
                jump_ended: senses.clips.jump_ended,
                land_ended: senses.clips.land_ended,
                toss_grenade_ended: senses.clips.toss_grenade_ended,
                put_back_ended: senses.clips.put_back_ended,
                grab_ended: senses.clips.grab_ended,
            },
        );

        self.target_run_factor = if self.controller.run {
            1000
        } else {
            0
        };
        self.run_factor = smooth_run_factor(self.run_factor, self.target_run_factor);

        let speed: u64 = if self.lower_body_machine.can_move() {
            speed(self.move_speed, self.run_factor)
        } else {
            0
        };

        let pushed_off: usize = self.lower_body_machine.jump_signals.drain(
            LowerBodyMachine::JUMP_SIGNAL,
        );
        let jump: bool = pushed_off > 0 && self.lower_body_machine.is_jumping();

        let grabbed: usize = self.upper_body_machine.grab_signals.drain(
            UpperBodyMachine::GRAB_WEAPON_SIGNAL,
        );
        if grabbed > 0 {
            match self.weapon_change_direction {
                Direction::Stay => {},
                Direction::Next => {
                    self.character.next_weapon(&mut messages);
                },
                Direction::Previous => {
                    self.character.prev_weapon(&mut messages);
                },
            }
            self.weapon_change_direction = Direction::Stay;
        }
        assert(messages@ =~= old(self).weapon_messages());

        let put_back: usize = self.upper_body_machine.put_back_signals.drain(
            UpperBodyMachine::PUT_BACK_WEAPON_END_SIGNAL,
        );

        let tossed: usize = self.upper_body_machine.toss_grenade_signals.drain(
            UpperBodyMachine::TOSS_GRENADE_SIGNAL,
        );
        let mut i: usize = 0;
        while i < tossed
            invariant
                i <= tossed,
                messages@ == old(self).weapon_messages() + grenades(
                    i as nat,
                    senses.weapon_pivot_position,
                    senses.camera_look,
                ),
            decreases tossed - i,
        {
            messages.push(grenade(senses.weapon_pivot_position, senses.camera_look));
            i += 1;
            assert(messages@ =~= old(self).weapon_messages() + grenades(
                i as nat,
                senses.weapon_pivot_position,
                senses.camera_look,
            ));
        }

        let moving_or_aiming: bool = is_walking || self.controller.aim;
        let backward: bool = self.controller.aim && self.controller.walk_backward;

        self.in_air_time = if grounded {
            0
        } else {
            self.in_air_time.saturating_add(dt)
        };

        let in_hand: usize = self.character.current_weapon as usize;
        if in_hand < self.character.weapons.len() && self.controller.shoot
            && self.upper_body_machine.is_aiming() {
            messages.push(
                Message::ShootWeapon {
                    weapon: self.character.weapons[in_hand],
                    direction: Some(
                        Offset {
                            x: senses.camera_look.x as i64,
                            y: senses.camera_look.y as i64,
                            z: senses.camera_look.z as i64,
                        },
                    ),
                },
            );
        }
        assert(messages@ =~= old(self).orders(senses, dt));

        Commands {
            has_ground_contact: grounded,
            steering: steering(&self.controller),
            speed,
            jump,
            enable_grab_clip: put_back > 0,
            spine_pitch: if self.controller.aim {
                self.controller.pitch
            } else {
                0
            },
            model_yaw: if moving_or_aiming {
                Some(model_yaw(&self.controller))
            } else {
                None
            },
            walk_clip_speed: if moving_or_aiming {
                Some(
                    if backward {
                        -1000
                    } else {
                        1000
                    },
                )
            } else {
                None
            },
            weapon_yaw_correction: if self.controller.aim {
                -4_000
            } else {
                30_000
            },
            weapon_pitch_correction: if self.controller.aim {
                -12_000
            } else {
                8_000
            },
            camera_bob: if is_walking {
                Some(
                    if self.controller.run {
                        CameraBob { amplitude: 15, kx: 8_000, ky: 13_000 }
                    } else {
                        CameraBob { amplitude: 15, kx: 5_000, ky: 10_000 }
                    },
                )
            } else {
                None
            },
            camera_distance: camera_distance(self.controller.aim, &senses.camera_hits),
            rewind_jump_clips: grounded && self.controller.jump,
            rewind_land_clips: !grounded,
            messages,
        }
    }
}

} // verus!
