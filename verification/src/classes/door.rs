//! Doors, sliding and turning.
use vstd::prelude::*;

use crate::class::SpawnResult;
use crate::context::Context;
use crate::damage::{DamageInfo, DMG_CRUSH};
use crate::entity::{
    Alarm, Body, CollisionGroup, CoreView, Drive, EntityCore, EntityId, Motion, MoveType, Schedule, Solid, FL_UNBLOCKABLE_BY_PLAYER,
    FSOLID_NOT_SOLID,
};
use crate::io::{Input, Value, Variant};
use crate::list::{at, root_of, SlotView};
use crate::movement::{turning_axis, Toggle, ToggleState, Travel};
use crate::scalar::{num, origin, Scalar, Vector, HUNDRED, MINUS_ONE, ZERO};
use crate::step::{answered, step, Step};
use crate::text::{atoi, integer_of, same_name};

verus! {

/// The door turns the other way.
pub const SF_DOOR_ROTATE_BACKWARDS: u32 = 0x2;

/// Players walk through the door and cannot stop it.
pub const SF_DOOR_NONSOLID_TO_PLAYER: u32 = 0x4;

/// The door is scenery.
pub const SF_DOOR_PASSABLE: u32 = 0x8;

/// The door stays open until it is told to shut.
pub const SF_DOOR_NO_AUTO_RETURN: u32 = 0x20;

pub const SF_DOOR_LOCKED: u32 = 0x800;

/// The door starts open.
pub const FUNC_DOOR_SPAWN_OPEN: i32 = 1;

/// What a door does when its alarm goes off.
#[derive(Debug, Clone, Copy, PartialEq, Eq, Structural)]
pub enum DoorMoveDone {
    Nothing,
    HitTop,
    HitBottom,
    GoDown,
}

/// The sounds of a door, by name.
#[derive(Debug)]
pub struct DoorNoises {
    pub moving: Option<String>,
    pub arrived: Option<String>,
    pub moving_closed: Option<String>,
    pub arrived_closed: Option<String>,
}

/// What a map says of a door.
#[derive(Debug)]
pub struct DoorKeys {
    /// Angles until it spawns, and from then on the direction they point in.
    pub move_dir: Vector,
    pub spawn_position: i32,
    pub solid_bsp: bool,
    pub force_closed: bool,
    pub block_damage: Scalar,
    pub ignore_debris: bool,
    pub loop_move_sound: bool,
    pub noises: DoorNoises,
}

/// A door, sliding or turning.
#[derive(Debug)]
pub struct Door {
    pub toggle: Toggle,
    pub rotating: bool,
    pub locked: bool,
    pub activator: Option<EntityId>,
    pub move_done: DoorMoveDone,
    pub keys: DoorKeys,
}

/// A door's geometry.
#[derive(Debug, Clone, Copy)]
pub struct DoorFigures {
    /// The direction that the door's `movedir` angles point in.
    pub move_dir: Vector,
    /// Where the door slides to: its own size along that direction, less the
    /// lip, from where it is.
    pub position2: Vector,
    /// What the door turns to: its distance about its axis, from the angles
    /// that it has.
    pub angle2: Vector,
}

impl Door {
    pub open spec fn shut(rotating: bool) -> Door {
        Door {
            toggle: Toggle::at_rest(),
            rotating,
            locked: false,
            activator: None,
            move_done: DoorMoveDone::Nothing,
            keys: DoorKeys {
                move_dir: origin(),
                spawn_position: 0,
                solid_bsp: false,
                force_closed: false,
                block_damage: num(ZERO),
                ignore_debris: false,
                loop_move_sound: false,
                noises: DoorNoises { moving: None, arrived: None, moving_closed: None, arrived_closed: None },
            },
        }
    }

    #[verifier::opaque]
    pub open spec fn keyed(self, key: Seq<char>, value: Value) -> Option<Door> {
        let flag = integer_of(value.text@) != 0;
        if same_name(key, "movedir"@) {
            Some(Door { keys: DoorKeys { move_dir: value.vector, ..self.keys }, ..self })
        } else if same_name(key, "spawnpos"@) {
            Some(Door { keys: DoorKeys { spawn_position: integer_of(value.text@) as i32, ..self.keys }, ..self })
        } else if same_name(key, "forceclosed"@) {
            Some(Door { keys: DoorKeys { force_closed: flag, ..self.keys }, ..self })
        } else if same_name(key, "dmg"@) {
            Some(Door { keys: DoorKeys { block_damage: value.number, ..self.keys }, ..self })
        } else if same_name(key, "ignoredebris"@) {
            Some(Door { keys: DoorKeys { ignore_debris: flag, ..self.keys }, ..self })
        } else if same_name(key, "loopmovesound"@) {
            Some(Door { keys: DoorKeys { loop_move_sound: flag, ..self.keys }, ..self })
        } else if same_name(key, "solidbsp"@) {
            Some(Door { keys: DoorKeys { solid_bsp: flag, ..self.keys }, ..self })
        } else if same_name(key, "noise1"@) {
            Some(self.with_noises(DoorNoises { moving: Some(value.text), ..self.keys.noises }))
        } else if same_name(key, "noise2"@) {
            Some(self.with_noises(DoorNoises { arrived: Some(value.text), ..self.keys.noises }))
        } else if same_name(key, "startclosesound"@) {
            Some(self.with_noises(DoorNoises { moving_closed: Some(value.text), ..self.keys.noises }))
        } else if same_name(key, "closesound"@) {
            Some(self.with_noises(DoorNoises { arrived_closed: Some(value.text), ..self.keys.noises }))
        } else if same_name(key, "locked_sentence"@) || same_name(key, "unlocked_sentence"@) || same_name(
            key,
            "locked_sound"@,
        ) || same_name(key, "unlocked_sound"@) {
            Some(self)
        } else {
            match self.toggle.keyed(key, value) {
                Some(toggle) => Some(Door { toggle, ..self }),
                None => None,
            }
        }
    }

    pub open spec fn with_noises(self, noises: DoorNoises) -> Door {
        Door { keys: DoorKeys { noises, ..self.keys }, ..self }
    }

    /// The door set off for a place, or for a set of angles.
    pub open spec fn off_to(self, to: Vector) -> Door {
        Door {
            toggle: if self.rotating { self.toggle.turning_to(to) } else { self.toggle.bound_for(to) },
            ..self
        }
    }

    pub open spec fn in_state(self, state: ToggleState) -> Door {
        Door { toggle: Toggle { state, ..self.toggle }, ..self }
    }

    pub open spec fn open_end(self) -> Vector {
        if self.rotating { self.toggle.travel.angle2 } else { self.toggle.travel.position2 }
    }

    pub open spec fn shut_end(self) -> Vector {
        if self.rotating { self.toggle.travel.angle1 } else { self.toggle.travel.position1 }
    }
}

/// What a door is as a solid: brushes only under a parent whose root is.
pub open spec fn door_solid(list: Seq<SlotView>, parent: Option<EntityId>) -> Solid {
    match parent {
        Some(id) => match at(list, root_of(list, id, list.len())) {
            Some(root) => if root.core.body.solid == Solid::Bsp { Solid::Bsp } else { Solid::VPhysics },
            None => Solid::VPhysics,
        },
        None => Solid::VPhysics,
    }
}

/// What spawn flags and parents make of a door's entity.
pub open spec fn door_built(core: CoreView, list: Seq<SlotView>) -> CoreView {
    let through = core.spawned_with(SF_DOOR_NONSOLID_TO_PLAYER);
    CoreView {
        body: Body {
            solid: door_solid(list, core.place.parent),
            move_type: MoveType::Push,
            solid_flags: if core.spawned_with(SF_DOOR_PASSABLE) {
                core.body.solid_flags | FSOLID_NOT_SOLID
            } else {
                core.body.solid_flags
            },
            collision_group: if through { CollisionGroup::PassableDoor } else { core.body.collision_group },
            ..core.body
        },
        flags: if through { core.flags | FL_UNBLOCKABLE_BY_PLAYER } else { core.flags },
        drive: Drive {
            speed: if core.drive.speed.same(num(ZERO)) { num(HUNDRED) } else { core.drive.speed },
            ..core.drive
        },
        ..core
    }
}

impl Step<Door> {
    /// Whether the door has nowhere to go.
    pub open spec fn is_at(self, to: Vector) -> bool {
        if self.me.rotating { to.same(self.core.place.local_angles) } else { to.same(self.core.place.local_origin) }
    }

    /// Under way to an end.
    pub open spec fn under_way(self, to: Vector) -> Step<Door> {
        let speed = self.core.drive.speed;
        let motion = if self.me.rotating { Motion::Angular { to, speed } } else { Motion::Linear { to, speed } };
        self.with(self.me.off_to(to)).with_core(self.core.moving(motion))
    }

    /// Arrived at an end.
    pub open spec fn landed(self, to: Vector) -> Step<Door> {
        let me = Door { move_done: DoorMoveDone::Nothing, ..self.me.off_to(to) };
        self.with(me).with_core(me.toggle.arrived(self.core))
    }

    /// Fully open. It shuts again once it has waited, unless it never does.
    pub open spec fn at_top(self) -> Step<Door> {
        let open = self.me.in_state(ToggleState::AtTop);
        let held = if self.core.spawned_with(SF_DOOR_NO_AUTO_RETURN) {
            self.with(Door { move_done: DoorMoveDone::Nothing, ..open })
        } else {
            let waiting = self.with(Door { move_done: DoorMoveDone::GoDown, ..open }).alarm(
                Alarm::After(self.me.toggle.keys.wait),
            );
            if self.me.toggle.keys.wait.same(num(MINUS_ONE)) {
                waiting.think(Schedule::Never)
            } else {
                waiting
            }
        };
        held.fire("OnFullyOpen"@, Variant::Void, Some(self.core.id))
    }

    /// Fully shut.
    pub open spec fn at_bottom(self) -> Step<Door> {
        self.with(
            Door { move_done: DoorMoveDone::Nothing, ..self.me.in_state(ToggleState::AtBottom) },
        ).fire("OnFullyClosed"@, Variant::Void, self.me.activator)
    }

    /// On the way open. A door with nowhere to go arrives first, and says that
    /// it opens after.
    #[verifier::opaque]
    pub open spec fn opening(self) -> Step<Door> {
        let to = self.me.open_end();
        let going = self.with(
            Door { move_done: DoorMoveDone::HitTop, ..self.me.in_state(ToggleState::GoingUp) },
        );
        let gone = if self.is_at(to) { going.landed(to).at_top() } else { going.under_way(to) };
        gone.fire("OnOpen"@, Variant::Void, Some(self.core.id))
    }

    /// On the way shut.
    #[verifier::opaque]
    pub open spec fn closing(self) -> Step<Door> {
        let to = self.me.shut_end();
        let going = self.with(
            Door { move_done: DoorMoveDone::HitBottom, ..self.me.in_state(ToggleState::GoingDown) },
        );
        let gone = if self.is_at(to) { going.landed(to).at_bottom() } else { going.under_way(to) };
        gone.fire("OnClose"@, Variant::Void, Some(self.core.id))
    }

    /// The alarm went off: the move has ended, and what was to follow follows.
    pub open spec fn rung(self) -> Step<Door> {
        let stopped = self.with(Door { move_done: DoorMoveDone::Nothing, ..self.me }).with_core(
            self.me.toggle.arrived(self.core),
        );
        match self.me.move_done {
            DoorMoveDone::Nothing => stopped,
            DoorMoveDone::HitTop => stopped.at_top(),
            DoorMoveDone::HitBottom => stopped.at_bottom(),
            DoorMoveDone::GoDown => stopped.closing(),
        }
    }

    /// Blocked: it hurts what blocks it, and turns round unless it forces
    /// itself shut or never comes back of itself.
    pub open spec fn stopped_by(self, other: EntityId) -> Step<Door> {
        let me = Some(self.core.id);
        let hurt = if self.me.keys.block_damage.same(num(ZERO)) {
            self
        } else {
            self.with_cx(
                self.cx.hurting(
                    other,
                    DamageInfo {
                        inflictor: me,
                        attacker: me,
                        damage: self.me.keys.block_damage,
                        damage_type: DMG_CRUSH,
                    },
                ),
            )
        };
        if self.me.keys.force_closed || self.me.toggle.keys.wait.less(num(ZERO)) {
            hurt
        } else if self.me.toggle.state == ToggleState::GoingDown {
            hurt.opening()
        } else {
            hurt.closing()
        }
    }

    pub open spec fn spawned(self, figures: DoorFigures) -> Step<Door> {
        let axis = turning_axis(self.core.spawn_flags);
        let open = self.me.keys.spawn_position == FUNC_DOOR_SPAWN_OPEN;
        let slid = Travel {
            position1: self.core.place.local_origin,
            position2: figures.position2,
            ..self.me.toggle.travel
        };
        let travel = if self.me.rotating {
            Travel {
                move_ang: if self.core.spawned_with(SF_DOOR_ROTATE_BACKWARDS) { axis.negated() } else { axis },
                angle1: self.core.place.local_angles,
                angle2: figures.angle2,
                ..slid
            }
        } else {
            slid
        };
        let core = if !open {
            door_built(self.core, self.cx.entities)
        } else if self.me.rotating {
            door_built(self.core, self.cx.entities).abs_angles_at(figures.angle2)
        } else {
            door_built(self.core, self.cx.entities).local_origin_at(figures.position2)
        };
        self.with(
            Door {
                toggle: Toggle {
                    travel,
                    state: if open { ToggleState::AtTop } else { ToggleState::AtBottom },
                    ..self.me.toggle
                },
                locked: self.me.locked || self.core.spawned_with(SF_DOOR_LOCKED),
                keys: DoorKeys { move_dir: figures.move_dir, ..self.me.keys },
                ..self.me
            },
        ).with_core(core)
    }

    #[verifier::opaque]
    pub open spec fn door_input(self, input: Input) -> Option<Step<Door>> {
        let name = input.name@;
        let state = self.me.toggle.state;
        let led = self.with(Door { activator: input.activator, ..self.me });
        if same_name(name, "Open"@) {
            Some(
                if state != ToggleState::AtTop && state != ToggleState::GoingUp && !self.me.locked {
                    led.opening()
                } else {
                    self
                },
            )
        } else if same_name(name, "Close"@) {
            Some(if state != ToggleState::AtBottom { led.closing() } else { self })
        } else if same_name(name, "Toggle"@) {
            Some(
                if self.me.locked {
                    self
                } else if state == ToggleState::AtBottom {
                    led.opening()
                } else if state == ToggleState::AtTop {
                    led.closing()
                } else {
                    led
                },
            )
        } else if same_name(name, "Lock"@) {
            Some(self.with(Door { locked: true, ..self.me }))
        } else if same_name(name, "Unlock"@) {
            Some(self.with(Door { locked: false, ..self.me }))
        } else if same_name(name, "SetSpeed"@) {
            Some(self.with_core(self.core.with_drive(Drive { speed: input.value.number(), ..self.core.drive })))
        } else {
            None
        }
    }
}

impl Door {
    pub fn new(rotating: bool) -> (r: Door)
        ensures
            r == Door::shut(rotating),
    {
        Door {
            toggle: Toggle::new(),
            rotating,
            locked: false,
            activator: None,
            move_done: DoorMoveDone::Nothing,
            keys: DoorKeys {
                move_dir: origin(),
                spawn_position: 0,
                solid_bsp: false,
                force_closed: false,
                block_damage: num(ZERO),
                ignore_debris: false,
                loop_move_sound: false,
                noises: DoorNoises { moving: None, arrived: None, moving_closed: None, arrived_closed: None },
            },
        }
    }

    /// A sliding door.
    pub fn create() -> (r: Door)
        ensures
            r == Door::shut(false),
    {
        Door::new(false)
    }

    /// A turning door.
    pub fn create_rotating() -> (r: Door)
        ensures
            r == Door::shut(true),
    {
        Door::new(true)
    }

    /// Sets off for an end. `false` if it is there already.
    fn set_off(&mut self, entity: &mut EntityCore, to: Vector, Ghost(cx): Ghost<crate::context::ContextView>) -> (r: bool)
        ensures
            r == !step(*old(self), old(entity)@, cx).is_at(to),
            r ==> step(*final(self), final(entity)@, cx) == step(*old(self), old(entity)@, cx).under_way(to),
            !r ==> *final(self) == old(self).off_to(to) && final(entity)@ == old(entity)@,
    {
        let speed = entity.drive.speed;
        if self.rotating {
            self.toggle.angular_move(entity, to, speed)
        } else {
            self.toggle.linear_move(entity, to, speed)
        }
    }

    pub fn go_up(&mut self, entity: &mut EntityCore, cx: &mut Context)
        ensures
            step(*final(self), final(entity)@, final(cx)@) == step(*old(self), old(entity)@, old(cx)@).opening(),
    {
        reveal(Step::<_>::opening);
        let me = Some(entity.id());
        self.toggle.state = ToggleState::GoingUp;
        self.move_done = DoorMoveDone::HitTop;
        let to = if self.rotating {
            self.toggle.travel.angle2
        } else {
            self.toggle.travel.position2
        };
        if !self.set_off(entity, to, Ghost(cx@)) {
            self.toggle.move_done(entity);
            self.move_done = DoorMoveDone::Nothing;
            self.hit_top(entity, cx);
        }
        entity.fire_output("OnOpen", Variant::Void, me, Some(entity.id()), num(ZERO), cx);
    }

    pub fn hit_top(&mut self, entity: &mut EntityCore, cx: &mut Context)
        ensures
            step(*final(self), final(entity)@, final(cx)@) == step(*old(self), old(entity)@, old(cx)@).at_top(),
    {
        self.toggle.state = ToggleState::AtTop;
        if entity.has_spawn_flags(SF_DOOR_NO_AUTO_RETURN) {
            self.move_done = DoorMoveDone::Nothing;
        } else {
            entity.set_move_done_time(self.toggle.keys.wait);
            self.move_done = DoorMoveDone::GoDown;
            if self.toggle.keys.wait.equals(num(MINUS_ONE)) {
                entity.set_next_think(Schedule::Never);
            }
        }
        let me = Some(entity.id());
        entity.fire_output("OnFullyOpen", Variant::Void, me, me, num(ZERO), cx);
    }

    pub fn go_down(&mut self, entity: &mut EntityCore, cx: &mut Context)
        ensures
            step(*final(self), final(entity)@, final(cx)@) == step(*old(self), old(entity)@, old(cx)@).closing(),
    {
        reveal(Step::<_>::closing);
        let me = Some(entity.id());
        self.toggle.state = ToggleState::GoingDown;
        self.move_done = DoorMoveDone::HitBottom;
        let to = if self.rotating {
            self.toggle.travel.angle1
        } else {
            self.toggle.travel.position1
        };
        if !self.set_off(entity, to, Ghost(cx@)) {
            self.toggle.move_done(entity);
            self.move_done = DoorMoveDone::Nothing;
            self.hit_bottom(entity, cx);
        }
        entity.fire_output("OnClose", Variant::Void, me, Some(entity.id()), num(ZERO), cx);
    }

    pub fn hit_bottom(&mut self, entity: &mut EntityCore, cx: &mut Context)
        ensures
            step(*final(self), final(entity)@, final(cx)@) == step(*old(self), old(entity)@, old(cx)@).at_bottom(),
    {
        self.toggle.state = ToggleState::AtBottom;
        self.move_done = DoorMoveDone::Nothing;
        let me = Some(entity.id());
        entity.fire_output("OnFullyClosed", Variant::Void, self.activator, me, num(ZERO), cx);
    }

    /// The alarm went off.
    pub fn move_done(&mut self, entity: &mut EntityCore, cx: &mut Context)
        ensures
            step(*final(self), final(entity)@, final(cx)@) == step(*old(self), old(entity)@, old(cx)@).rung(),
    {
        self.toggle.move_done(entity);
        let next = self.move_done;
        self.move_done = DoorMoveDone::Nothing;
        match next {
            DoorMoveDone::Nothing => {}
            DoorMoveDone::HitTop => self.hit_top(entity, cx),
            DoorMoveDone::HitBottom => self.hit_bottom(entity, cx),
            DoorMoveDone::GoDown => self.go_down(entity, cx),
        }
    }

    pub fn key_value(&mut self, key: &str, value: &Value) -> (r: bool)
        ensures
            r == old(self).keyed(key@, *value) is Some,
            *final(self) == old(self).keyed(key@, *value).unwrap_or(*old(self)),
    {
        reveal(Door::keyed);
        if key.eq_ignore_ascii_case("movedir") {
            self.keys.move_dir = value.vector;
        } else if key.eq_ignore_ascii_case("spawnpos") {
            self.keys.spawn_position = atoi(value.text.as_str());
        } else if key.eq_ignore_ascii_case("forceclosed") {
            self.keys.force_closed = atoi(value.text.as_str()) != 0;
        } else if key.eq_ignore_ascii_case("dmg") {
            self.keys.block_damage = value.number;
        } else if key.eq_ignore_ascii_case("ignoredebris") {
            self.keys.ignore_debris = atoi(value.text.as_str()) != 0;
        } else if key.eq_ignore_ascii_case("loopmovesound") {
            self.keys.loop_move_sound = atoi(value.text.as_str()) != 0;
        } else if key.eq_ignore_ascii_case("solidbsp") {
            self.keys.solid_bsp = atoi(value.text.as_str()) != 0;
        } else if key.eq_ignore_ascii_case("noise1") {
            self.keys.noises.moving = Some(value.text.clone());
        } else if key.eq_ignore_ascii_case("noise2") {
            self.keys.noises.arrived = Some(value.text.clone());
        } else if key.eq_ignore_ascii_case("startclosesound") {
            self.keys.noises.moving_closed = Some(value.text.clone());
        } else if key.eq_ignore_ascii_case("closesound") {
            self.keys.noises.arrived_closed = Some(value.text.clone());
        } else if key.eq_ignore_ascii_case("locked_sentence") || key.eq_ignore_ascii_case("unlocked_sentence")
            || key.eq_ignore_ascii_case("locked_sound") || key.eq_ignore_ascii_case("unlocked_sound") {
        } else {
            return self.toggle.key_value(key, value);
        }
        true
    }

    /// What a door is as a solid.
    fn solid_of(parent: Option<EntityId>, cx: &Context) -> (r: Solid)
        ensures
            r == door_solid(cx@.entities, parent),
    {
        match parent {
            Some(parent) => {
                let root = cx.entities.root_move_parent(parent);
                match cx.entity(root) {
                    Some(root) => if root.core.body.solid == Solid::Bsp {
                        Solid::Bsp
                    } else {
                        Solid::VPhysics
                    },
                    None => Solid::VPhysics,
                }
            },
            None => Solid::VPhysics,
        }
    }

    /// Makes of the entity what its spawn flags and parents make of it.
    fn stand(entity: &mut EntityCore, cx: &Context)
        ensures
            final(entity)@ == door_built(old(entity)@, cx@.entities),
    {
        entity.body.solid = Door::solid_of(entity.parent(), cx);
        entity.body.move_type = MoveType::Push;
        if entity.drive.speed.equals(num(ZERO)) {
            entity.drive.speed = num(HUNDRED);
        }
        if entity.has_spawn_flags(SF_DOOR_PASSABLE) {
            entity.add_solid_flags(FSOLID_NOT_SOLID);
        }
        if entity.has_spawn_flags(SF_DOOR_NONSOLID_TO_PLAYER) {
            entity.body.collision_group = CollisionGroup::PassableDoor;
            entity.flags = entity.flags | FL_UNBLOCKABLE_BY_PLAYER;
        }
    }

    /// Takes its place. `figures` is its geometry.
    pub fn spawn(&mut self, entity: &mut EntityCore, figures: &DoorFigures, cx: &mut Context) -> (r: SpawnResult)
        ensures
            r == SpawnResult::Keep,
            step(*final(self), final(entity)@, final(cx)@) == step(*old(self), old(entity)@, old(cx)@).spawned(
                *figures,
            ),
    {
        Door::stand(entity, cx);
        self.keys.move_dir = figures.move_dir;
        self.locked = self.locked || entity.has_spawn_flags(SF_DOOR_LOCKED);
        self.toggle.travel.position1 = entity.place.local_origin;
        self.toggle.travel.position2 = figures.position2;
        let open = self.keys.spawn_position == FUNC_DOOR_SPAWN_OPEN;
        self.toggle.state = if open {
            ToggleState::AtTop
        } else {
            ToggleState::AtBottom
        };
        if !self.rotating {
            if open {
                entity.set_local_origin(self.toggle.travel.position2);
            }
            return SpawnResult::Keep;
        }
        self.toggle.axis_dir(entity.spawn_flags);
        if entity.has_spawn_flags(SF_DOOR_ROTATE_BACKWARDS) {
            self.toggle.travel.move_ang = self.toggle.travel.move_ang.neg();
        }
        self.toggle.travel.angle1 = entity.place.local_angles;
        self.toggle.travel.angle2 = figures.angle2;
        if open {
            entity.set_abs_angles(self.toggle.travel.angle2);
        }
        SpawnResult::Keep
    }

    /// Something came to stand in the way.
    pub fn start_blocked(&mut self, entity: &mut EntityCore, other: EntityId, cx: &mut Context)
        ensures
            step(*final(self), final(entity)@, final(cx)@) == step(*old(self), old(entity)@, old(cx)@).fire(
                if old(self).toggle.state == ToggleState::GoingDown {
                    "OnBlockedClosing"@
                } else {
                    "OnBlockedOpening"@
                },
                Variant::Void,
                Some(other),
            ),
    {
        let output = if self.toggle.state == ToggleState::GoingDown {
            "OnBlockedClosing"
        } else {
            "OnBlockedOpening"
        };
        entity.fire_output(output, Variant::Void, Some(other), Some(entity.id()), num(ZERO), cx);
    }

    /// Nothing stands in the way any more.
    pub fn end_blocked(&mut self, entity: &mut EntityCore, cx: &mut Context)
        ensures
            step(*final(self), final(entity)@, final(cx)@) == step(*old(self), old(entity)@, old(cx)@).fire(
                if old(self).toggle.state == ToggleState::GoingDown {
                    "OnUnblockedClosing"@
                } else {
                    "OnUnblockedOpening"@
                },
                Variant::Void,
                Some(old(entity)@.id),
            ),
    {
        let output = if self.toggle.state == ToggleState::GoingDown {
            "OnUnblockedClosing"
        } else {
            "OnUnblockedOpening"
        };
        let me = Some(entity.id());
        entity.fire_output(output, Variant::Void, me, me, num(ZERO), cx);
    }

    /// Something stands in the way.
    pub fn blocked(&mut self, entity: &mut EntityCore, other: EntityId, cx: &mut Context)
        ensures
            step(*final(self), final(entity)@, final(cx)@) == step(*old(self), old(entity)@, old(cx)@).stopped_by(other),
    {
        if !self.keys.block_damage.equals(num(ZERO)) {
            let me = Some(entity.id());
            cx.take_damage(other, DamageInfo::new(me, me, self.keys.block_damage, DMG_CRUSH));
        }
        if self.keys.force_closed {
            return;
        }
        if self.toggle.keys.wait.lt(num(ZERO)) {
            return;
        }
        if self.toggle.state == ToggleState::GoingDown {
            self.go_up(entity, cx);
        } else {
            self.go_down(entity, cx);
        }
    }

    pub fn accept_input(&mut self, entity: &mut EntityCore, input: &Input<'_>, cx: &mut Context) -> (r: bool)
        ensures
            answered(
                step(*old(self), old(entity)@, old(cx)@).door_input(*input),
                step(*old(self), old(entity)@, old(cx)@),
                r,
                step(*final(self), final(entity)@, final(cx)@),
            ),
    {
        reveal(Step::<_>::door_input);
        let name = input.name;
        if name.eq_ignore_ascii_case("Open") {
            if self.toggle.state != ToggleState::AtTop && self.toggle.state != ToggleState::GoingUp && !self.locked {
                self.activator = input.activator;
                self.go_up(entity, cx);
            }
        } else if name.eq_ignore_ascii_case("Close") {
            if self.toggle.state != ToggleState::AtBottom {
                self.activator = input.activator;
                self.go_down(entity, cx);
            }
        } else if name.eq_ignore_ascii_case("Toggle") {
            if !self.locked {
                self.activator = input.activator;
                match self.toggle.state {
                    ToggleState::AtBottom => self.go_up(entity, cx),
                    ToggleState::AtTop => self.go_down(entity, cx),
                    _ => {}
                }
            }
        } else if name.eq_ignore_ascii_case("Lock") {
            self.locked = true;
        } else if name.eq_ignore_ascii_case("Unlock") {
            self.locked = false;
        } else if name.eq_ignore_ascii_case("SetSpeed") {
            entity.drive.speed = input.value.float();
        } else {
            return false;
        }
        true
    }
}

} // verus!
