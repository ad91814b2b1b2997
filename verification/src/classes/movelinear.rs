//! Pistons: brushes that slide between two places, or to any place between.
use vstd::prelude::*;

use crate::class::{SpawnResult, UseType};
use crate::context::Context;
use crate::damage::{DamageInfo, DMG_CRUSH};
use crate::entity::{Body, CoreView, Drive, EntityCore, EntityId, Motion, MoveType, Schedule, Solid, FSOLID_NOT_SOLID};
use crate::io::{Input, Value, Variant};
use crate::movement::{Aim, Toggle, Travel};
use crate::scalar::{num, origin, Scalar, Vector, EPSILON, EPSILON_SQUARED, HUNDRED, MILLI, ONE, ZERO};
use crate::step::{answered, step, Step};
use crate::text::same_name;

verus! {

pub const SF_MOVELINEAR_NOTSOLID: u32 = 0x8;

/// What a map says of a piston.
#[derive(Debug)]
pub struct MoveLinearKeys {
    /// Angles until it spawns, and from then on the direction they point in.
    pub move_dir: Vector,
    /// How far along its travel it starts.
    pub start_position: Scalar,
    pub move_distance: Scalar,
    pub block_damage: Scalar,
    pub sound_start: Option<String>,
    pub sound_stop: Option<String>,
}

/// A piston.
#[derive(Debug)]
pub struct MoveLinear {
    pub toggle: Toggle,
    pub keys: MoveLinearKeys,
}

/// A piston's geometry.
#[derive(Debug, Clone, Copy)]
pub struct MoveLinearFigures {
    /// The direction that the piston's `movedir` angles point in.
    pub move_dir: Vector,
    /// Its own size along that direction, less the lip.
    pub measured: Scalar,
    /// Where its travel starts, and where it ends.
    pub position1: Vector,
    pub position2: Vector,
}

/// Where an input sends a piston.
#[derive(Debug, Clone, Copy)]
pub struct SlideFigures {
    /// The place that an input's fraction of its travel comes to.
    pub target: Vector,
    /// How far that is from where it is.
    pub distance: Scalar,
    /// A tenth of a second's speed for that distance.
    pub speed: Scalar,
    /// How far it is to where it was last bound for, squared.
    pub remaining_squared: Scalar,
}

impl MoveLinear {
    pub open spec fn fresh() -> MoveLinear {
        MoveLinear {
            toggle: Toggle::at_rest(),
            keys: MoveLinearKeys {
                move_dir: origin(),
                start_position: num(ZERO),
                move_distance: num(ZERO),
                block_damage: num(ZERO),
                sound_start: None,
                sound_stop: None,
            },
        }
    }

    pub open spec fn with_keys(self, keys: MoveLinearKeys) -> MoveLinear {
        MoveLinear { keys, ..self }
    }

    #[verifier::opaque]
    pub open spec fn keyed(self, key: Seq<char>, value: Value) -> Option<MoveLinear> {
        if same_name(key, "movedir"@) {
            Some(self.with_keys(MoveLinearKeys { move_dir: value.vector, ..self.keys }))
        } else if same_name(key, "startposition"@) {
            Some(self.with_keys(MoveLinearKeys { start_position: value.number, ..self.keys }))
        } else if same_name(key, "movedistance"@) {
            Some(self.with_keys(MoveLinearKeys { move_distance: value.number, ..self.keys }))
        } else if same_name(key, "blockdamage"@) {
            Some(self.with_keys(MoveLinearKeys { block_damage: value.number, ..self.keys }))
        } else if same_name(key, "startsound"@) {
            Some(self.with_keys(MoveLinearKeys { sound_start: Some(value.text), ..self.keys }))
        } else if same_name(key, "stopsound"@) {
            Some(self.with_keys(MoveLinearKeys { sound_stop: Some(value.text), ..self.keys }))
        } else {
            match self.toggle.keyed(key, value) {
                Some(toggle) => Some(MoveLinear { toggle, ..self }),
                None => None,
            }
        }
    }

    /// How far it goes: as far as the map says, or as far as it is long.
    pub open spec fn reach(self, measured: Scalar) -> Scalar {
        if self.keys.move_distance.at_most(num(ZERO)) { measured } else { self.keys.move_distance }
    }
}

/// What spawn flags make of a piston's entity.
pub open spec fn movelinear_built(core: CoreView) -> CoreView {
    core.with_body(
        Body {
            move_type: MoveType::Push,
            solid: Solid::VPhysics,
            solid_flags: if core.spawned_with(SF_MOVELINEAR_NOTSOLID) {
                core.body.solid_flags | FSOLID_NOT_SOLID
            } else {
                core.body.solid_flags
            },
            ..core.body
        },
    ).with_drive(
        Drive {
            speed: if core.drive.speed.at_most(num(ZERO)) { num(HUNDRED) } else { core.drive.speed },
            ..core.drive
        },
    )
}

impl Step<MoveLinear> {
    /// The move has ended, and the output of the end that it is at goes off.
    pub open spec fn rung(self) -> Step<MoveLinear> {
        let stopped = self.with_core(self.me.toggle.arrived(self.core));
        let here = stopped.core.place.local_origin;
        let id = Some(self.core.id);
        if here.same(self.me.toggle.travel.position2) {
            stopped.fire("OnFullyOpen"@, Variant::Void, id)
        } else if here.same(self.me.toggle.travel.position1) {
            stopped.fire("OnFullyClosed"@, Variant::Void, id)
        } else {
            stopped
        }
    }

    /// Off to a place at a speed, if at any.
    pub open spec fn bound_for(self, to: Vector, speed: Scalar) -> Step<MoveLinear> {
        let aimed = self.with(MoveLinear { toggle: self.me.toggle.bound_for(to), ..self.me });
        if speed.same(num(ZERO)) {
            self
        } else if to.same(self.core.place.local_origin) {
            aimed.rung().think(Schedule::Never)
        } else {
            aimed.with_core(self.core.moving(Motion::Linear { to, speed })).think(Schedule::Never)
        }
    }

    /// A new speed, for the rest of the move too. No speed at all ends it
    /// where it is.
    pub open spec fn at_speed(self, speed: Scalar, remaining_squared: Scalar) -> Step<MoveLinear> {
        let to = self.me.toggle.aim.final_dest;
        let here = self.core.place.local_origin;
        let set = self.core.with_drive(Drive { speed, ..self.core.drive });
        if !num(EPSILON_SQUARED).less(remaining_squared) {
            self.with_core(set)
        } else if num(EPSILON).less(speed.absolute()) {
            self.with(MoveLinear { toggle: self.me.toggle.bound_for(to), ..self.me }).with_core(
                if to.same(here) { set } else { set.moving(Motion::Linear { to, speed }) },
            )
        } else {
            let slow = self.core.with_drive(Drive { speed: num(ONE), ..self.core.drive });
            self.with(MoveLinear { toggle: self.me.toggle.bound_for(here), ..self.me }).with_core(
                if here.same(here) { slow } else { slow.moving(Motion::Linear { to: here, speed: num(ONE) }) },
            )
        }
    }

    #[verifier::opaque]
    pub open spec fn move_linear_input(self, input: Input, figures: SlideFigures) -> Option<Step<MoveLinear>> {
        let name = input.name@;
        let here = self.core.place.local_origin;
        let travel = self.me.toggle.travel;
        let speed = self.core.drive.speed;
        if same_name(name, "Open"@) {
            Some(if here.same(travel.position2) { self } else { self.bound_for(travel.position2, speed) })
        } else if same_name(name, "Close"@) {
            Some(if here.same(travel.position1) { self } else { self.bound_for(travel.position1, speed) })
        } else if same_name(name, "SetPosition"@) {
            Some(
                if num(MILLI).less(figures.distance) { self.bound_for(figures.target, speed) } else { self },
            )
        } else if same_name(name, "SetSpeed"@) {
            Some(self.at_speed(input.value.number(), figures.remaining_squared))
        } else {
            None
        }
    }

    pub open spec fn spawned(self, figures: MoveLinearFigures) -> Step<MoveLinear> {
        self.with(
            MoveLinear {
                toggle: Toggle {
                    travel: Travel {
                        position1: figures.position1,
                        position2: figures.position2,
                        ..self.me.toggle.travel
                    },
                    aim: Aim { final_dest: self.core.place.local_origin, ..self.me.toggle.aim },
                    ..self.me.toggle
                },
                keys: MoveLinearKeys {
                    move_dir: figures.move_dir,
                    move_distance: self.me.reach(figures.measured),
                    ..self.me.keys
                },
            },
        ).with_core(movelinear_built(self.core))
    }
}

impl MoveLinear {
    pub fn create() -> (r: MoveLinear)
        ensures
            r == MoveLinear::fresh(),
    {
        MoveLinear {
            toggle: Toggle::new(),
            keys: MoveLinearKeys {
                move_dir: origin(),
                start_position: num(ZERO),
                move_distance: num(ZERO),
                block_damage: num(ZERO),
                sound_start: None,
                sound_stop: None,
            },
        }
    }

    /// How far it goes, given how long it is.
    pub fn distance(&self, measured: Scalar) -> (r: Scalar)
        ensures
            r == self.reach(measured),
    {
        if self.keys.move_distance.le(num(ZERO)) {
            measured
        } else {
            self.keys.move_distance
        }
    }

    /// The fraction of its travel that a used piston goes to.
    pub fn used_fraction(value: Scalar) -> (r: Scalar)
        ensures
            r == value.smaller(num(ONE)),
    {
        value.min(num(ONE))
    }

    pub fn move_to(&mut self, entity: &mut EntityCore, to: Vector, speed: Scalar, cx: &mut Context)
        ensures
            step(*final(self), final(entity)@, final(cx)@) == step(*old(self), old(entity)@, old(cx)@).bound_for(
                to,
                speed,
            ),
    {
        if speed.equals(num(ZERO)) {
            return;
        }
        if !self.toggle.linear_move(entity, to, speed) {
            self.move_done(entity, cx);
        }
        entity.set_next_think(Schedule::Never);
    }

    pub fn key_value(&mut self, key: &str, value: &Value) -> (r: bool)
        ensures
            r == old(self).keyed(key@, *value) is Some,
            *final(self) == old(self).keyed(key@, *value).unwrap_or(*old(self)),
    {
        reveal(MoveLinear::keyed);
        if key.eq_ignore_ascii_case("movedir") {
            self.keys.move_dir = value.vector;
        } else if key.eq_ignore_ascii_case("startposition") {
            self.keys.start_position = value.number;
        } else if key.eq_ignore_ascii_case("movedistance") {
            self.keys.move_distance = value.number;
        } else if key.eq_ignore_ascii_case("blockdamage") {
            self.keys.block_damage = value.number;
        } else if key.eq_ignore_ascii_case("startsound") {
            self.keys.sound_start = Some(value.text.clone());
        } else if key.eq_ignore_ascii_case("stopsound") {
            self.keys.sound_stop = Some(value.text.clone());
        } else {
            return self.toggle.key_value(key, value);
        }
        true
    }

    /// Takes its place. `figures` is its geometry.
    pub fn spawn(&mut self, entity: &mut EntityCore, figures: &MoveLinearFigures, cx: &mut Context) -> (r: SpawnResult)
        ensures
            r == SpawnResult::Keep,
            step(*final(self), final(entity)@, final(cx)@) == step(*old(self), old(entity)@, old(cx)@).spawned(
                *figures,
            ),
    {
        self.keys.move_dir = figures.move_dir;
        self.keys.move_distance = self.distance(figures.measured);
        self.toggle.travel.position1 = figures.position1;
        self.toggle.travel.position2 = figures.position2;
        self.toggle.set_final_dest(entity.place.local_origin);
        entity.body.move_type = MoveType::Push;
        entity.body.solid = Solid::VPhysics;
        if entity.has_spawn_flags(SF_MOVELINEAR_NOTSOLID) {
            entity.body.solid_flags = entity.body.solid_flags | FSOLID_NOT_SOLID;
        }
        if entity.drive.speed.le(num(ZERO)) {
            entity.drive.speed = num(HUNDRED);
        }
        SpawnResult::Keep
    }

    /// Takes an input. `figures` say where it sends the piston.
    pub fn accept_input(
        &mut self,
        entity: &mut EntityCore,
        input: &Input<'_>,
        figures: &SlideFigures,
        cx: &mut Context,
    ) -> (r: bool)
        ensures
            answered(
                step(*old(self), old(entity)@, old(cx)@).move_linear_input(*input, *figures),
                step(*old(self), old(entity)@, old(cx)@),
                r,
                step(*final(self), final(entity)@, final(cx)@),
            ),
    {
        reveal(Step::<_>::move_linear_input);
        let name = input.name;
        let here = entity.place.local_origin;
        let speed = entity.drive.speed;
        if name.eq_ignore_ascii_case("Open") {
            let to = self.toggle.travel.position2;
            if !here.equals(to) {
                self.move_to(entity, to, speed, cx);
            }
        } else if name.eq_ignore_ascii_case("Close") {
            let to = self.toggle.travel.position1;
            if !here.equals(to) {
                self.move_to(entity, to, speed, cx);
            }
        } else if name.eq_ignore_ascii_case("SetPosition") {
            if num(MILLI).lt(figures.distance) {
                self.move_to(entity, figures.target, speed, cx);
            }
        } else if name.eq_ignore_ascii_case("SetSpeed") {
            self.set_speed(entity, input.value.float(), figures.remaining_squared, Ghost(cx@));
        } else {
            return false;
        }
        true
    }

    fn set_speed(
        &mut self,
        entity: &mut EntityCore,
        speed: Scalar,
        remaining_squared: Scalar,
        Ghost(cx): Ghost<crate::context::ContextView>,
    )
        ensures
            step(*final(self), final(entity)@, cx) == step(*old(self), old(entity)@, cx).at_speed(
                speed,
                remaining_squared,
            ),
    {
        entity.drive.speed = speed;
        let to = self.toggle.final_dest();
        if num(EPSILON_SQUARED).lt(remaining_squared) {
            if num(EPSILON).lt(speed.abs()) {
                self.toggle.linear_move(entity, to, speed);
            } else {
                entity.drive.speed = num(ONE);
                let here = entity.place.local_origin;
                self.toggle.linear_move(entity, here, num(ONE));
            }
        }
    }

    /// The move has ended.
    pub fn move_done(&mut self, entity: &mut EntityCore, cx: &mut Context)
        ensures
            step(*final(self), final(entity)@, final(cx)@) == step(*old(self), old(entity)@, old(cx)@).rung(),
    {
        self.toggle.move_done(entity);
        let me = Some(entity.id());
        if entity.place.local_origin.equals(self.toggle.travel.position2) {
            entity.fire_output("OnFullyOpen", Variant::Void, me, me, num(ZERO), cx);
        } else if entity.place.local_origin.equals(self.toggle.travel.position1) {
            entity.fire_output("OnFullyClosed", Variant::Void, me, me, num(ZERO), cx);
        }
    }

    /// Somebody used it: to be set, it goes to a fraction of its travel in a
    /// tenth of a second.
    pub fn use_entity(&mut self, entity: &mut EntityCore, use_type: UseType, figures: &SlideFigures, cx: &mut Context)
        ensures
            step(*final(self), final(entity)@, final(cx)@) == (if use_type == UseType::SetTo {
                step(*old(self), old(entity)@, old(cx)@).bound_for(figures.target, figures.speed)
            } else {
                step(*old(self), old(entity)@, old(cx)@)
            }),
    {
        if use_type != UseType::SetTo {
            return;
        }
        self.move_to(entity, figures.target, figures.speed, cx);
    }

    /// Something stands in the way: it is hurt, if the piston hurts.
    pub fn blocked(&mut self, entity: &mut EntityCore, other: EntityId, cx: &mut Context)
        ensures
            *final(self) == *old(self),
            final(entity)@ == old(entity)@,
            final(cx)@ == (if old(self).keys.block_damage.same(num(ZERO)) {
                old(cx)@
            } else {
                old(cx)@.hurting(
                    other,
                    DamageInfo {
                        inflictor: Some(old(entity)@.id),
                        attacker: Some(old(entity)@.id),
                        damage: old(self).keys.block_damage,
                        damage_type: DMG_CRUSH,
                    },
                )
            }),
    {
        if self.keys.block_damage.equals(num(ZERO)) {
            return;
        }
        let me = Some(entity.id());
        cx.take_damage(other, DamageInfo::new(me, me, self.keys.block_damage, DMG_CRUSH));
    }
}

} // verus!
