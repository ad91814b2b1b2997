//! Damage: who deals it, what it is, and how an entity stands to it.
use vstd::prelude::*;

use crate::entity::EntityId;
use crate::scalar::Scalar;

verus! {

pub const DMG_GENERIC: i32 = 0;

pub const DMG_CRUSH: i32 = 0x1;

/// Damage that pushes nothing.
pub const DMG_PREVENT_PHYSICS_FORCE: i32 = 0x800;

/// Damage that leaves a whole body.
pub const DMG_NEVERGIB: i32 = 0x1000;

/// Radiation, which a hurting trigger deals from a clock of its own.
pub const DMG_RADIATION: i32 = 0x4_0000;

/// Damage that ignores what stands in between.
pub const DMG_DIRECT: i32 = 0x1000_0000;

/// Whether an entity takes damage.
#[derive(Debug, Clone, Copy, PartialEq, Eq, Structural)]
pub enum DamageMode {
    No,
    /// It hears of damage and loses nothing.
    EventsOnly,
    Yes,
}

impl DamageMode {
    pub open spec fn open_to_damage(self) -> bool {
        self != DamageMode::No
    }

    /// Whether damage reaches the entity at all.
    pub fn takes_damage(self) -> (r: bool)
        ensures
            r == self.open_to_damage(),
    {
        match self {
            DamageMode::No => false,
            DamageMode::EventsOnly => true,
            DamageMode::Yes => true,
        }
    }
}

#[derive(Debug, Clone, Copy, PartialEq, Eq, Structural)]
pub enum LifeState {
    Alive,
    Dying,
    Dead,
}

/// What came of an attempt to hurt an entity.
#[derive(Debug, Clone, Copy, PartialEq, Eq, Structural)]
pub enum Damaged {
    Refused,
    Hurt,
    Killed,
}

/// One dose of damage.
#[derive(Debug, Clone, Copy, PartialEq, Eq, Structural)]
pub struct DamageInfo {
    pub inflictor: Option<EntityId>,
    pub attacker: Option<EntityId>,
    pub damage: Scalar,
    pub damage_type: i32,
}

impl DamageInfo {
    pub fn new(
        inflictor: Option<EntityId>,
        attacker: Option<EntityId>,
        damage: Scalar,
        damage_type: i32,
    ) -> (r: DamageInfo)
        ensures
            r == (DamageInfo { inflictor, attacker, damage, damage_type }),
    {
        DamageInfo { inflictor, attacker, damage, damage_type }
    }
}

/// What a dose comes to on an entity's health: the arithmetic's answer.
#[derive(Debug, Clone, Copy, PartialEq, Eq, Structural)]
pub struct Wound {
    pub result: Damaged,
    pub health: i32,
    /// The part of the damage too small to take a whole point.
    pub accumulator: Scalar,
}

} // verus!
