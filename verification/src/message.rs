//! Messages that entities leave for the level. An entity never changes
//! another entity: it says what should happen, and the level carries the
//! messages out once every entity has had its tick.

use vstd::prelude::*;
use crate::bot::BotKind;
use crate::handle::Handle;
use crate::math::{Offset, Vector3};

verus! {

#[derive(Copy, Clone, PartialEq, Eq, Structural, Hash, Debug)]
pub enum WeaponKind {
    M4,
    Ak47,
    PlasmaRifle,
}

#[derive(Copy, Clone, PartialEq, Eq, Structural, Hash, Debug)]
pub enum ItemKind {
    Medkit,
    Plasma,
    Ak47Ammo,
    M4Ammo,
    Ak47,
    PlasmaGun,
    M4,
    RocketLauncher,
}

#[derive(Copy, Clone, PartialEq, Eq, Structural, Hash, Debug)]
pub enum ProjectileKind {
    Plasma,
    Bullet,
    Rocket,
    Grenade,
}

/// A sound that gameplay can ask for.
#[derive(Copy, Clone, PartialEq, Eq, Structural, Hash, Debug)]
pub enum Sound {
    FootStep1,
    FootStep2,
    FootStep3,
    FootStep4,
    ItemPickup,
    BulletImpact,
}

/// What shows where a shot has hit.
#[derive(Copy, Clone, PartialEq, Eq, Structural, Hash, Debug)]
pub enum EffectKind {
    BulletImpact,
    BloodSpray,
}

/// How many footstep sounds there are to choose from.
pub const FOOTSTEP_COUNT: usize = 4;

impl Sound {
    /// The footstep sound of a given number.
    pub open spec fn spec_footstep(index: int) -> Sound {
        if index == 0 {
            Sound::FootStep1
        } else if index == 1 {
            Sound::FootStep2
        } else if index == 2 {
            Sound::FootStep3
        } else {
            Sound::FootStep4
        }
    }

    pub fn footstep(index: usize) -> (r: Sound)
        requires
            index < FOOTSTEP_COUNT,
        ensures
            r == Sound::spec_footstep(index as int),
            r.is_footstep(),
    {
        if index == 0 {
            Sound::FootStep1
        } else if index == 1 {
            Sound::FootStep2
        } else if index == 2 {
            Sound::FootStep3
        } else {
            Sound::FootStep4
        }
    }

    pub open spec fn is_footstep(self) -> bool {
        self != Sound::ItemPickup && self != Sound::BulletImpact
    }

    /// Where the recording of the sound is kept.
    pub fn path(self) -> (r: &'static str)
        ensures
            r@ == (match self {
                Sound::FootStep1 => "data/sounds/footsteps/FootStep_shoe_stone_step1.wav"@,
                Sound::FootStep2 => "data/sounds/footsteps/FootStep_shoe_stone_step2.wav"@,
                Sound::FootStep3 => "data/sounds/footsteps/FootStep_shoe_stone_step3.wav"@,
                Sound::FootStep4 => "data/sounds/footsteps/FootStep_shoe_stone_step4.wav"@,
                Sound::ItemPickup => "data/sounds/item_pickup.ogg"@,
                Sound::BulletImpact => "data/sounds/bullet_impact_concrete.ogg"@,
            }),
    {
        match self {
            Sound::FootStep1 => "data/sounds/footsteps/FootStep_shoe_stone_step1.wav",
            Sound::FootStep2 => "data/sounds/footsteps/FootStep_shoe_stone_step2.wav",
            Sound::FootStep3 => "data/sounds/footsteps/FootStep_shoe_stone_step3.wav",
            Sound::FootStep4 => "data/sounds/footsteps/FootStep_shoe_stone_step4.wav",
            Sound::ItemPickup => "data/sounds/item_pickup.ogg",
            Sound::BulletImpact => "data/sounds/bullet_impact_concrete.ogg",
        }
    }
}

/// Everything an entity can ask of the level.
#[allow(inconsistent_fields)]
#[derive(Copy, Clone, PartialEq, Eq, Structural, Debug)]
pub enum Message {
    GiveNewWeapon { actor: Handle, kind: WeaponKind },
    AddBot { kind: BotKind, position: Vector3 },
    RemoveActor { actor: Handle },
    /// Fire `weapon`, along `direction` if one is given, else the way the
    /// weapon points.
    ShootWeapon { weapon: Handle, direction: Option<Offset> },
    CreateProjectile {
        kind: ProjectileKind,
        position: Vector3,
        direction: Offset,
        initial_velocity: Offset,
        owner: Handle,
    },
    PlaySound { sound: Sound, position: Vector3, gain: u32, rolloff_factor: u32, radius: u32 },
    ShowWeapon { weapon: Handle, state: bool },
    GiveItem { actor: Handle, kind: ItemKind },
    PickUpItem { actor: Handle, item: Handle },
    SpawnItem { kind: ItemKind, position: Vector3, adjust_height: bool },
    /// Show an effect at `position`, turned along `normal`.
    CreateEffect { kind: EffectKind, position: Vector3, normal: Vector3 },
    SpawnBot { spawn_point_id: usize },
    /// Fire a ray from a weapon, from `begin` to `end`.
    ShootRay { weapon: Handle, begin: Vector3, end: Vector3, damage: u32, impact_sound: Sound },
    /// Take `amount` of health from `actor`; `who` did it, or nobody.
    DamageActor { actor: Handle, who: Handle, amount: u32 },
    EndMatch,
}

} // verus!
