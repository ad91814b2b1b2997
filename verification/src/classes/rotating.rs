//! Fans and grinders: brushes that turn for as long as they are told to.
use vstd::prelude::*;

use crate::class::SpawnResult;
use crate::context::{Context, ContextView, Time};
use crate::damage::{DamageInfo, DMG_CRUSH};
use crate::entity::{
    Alarm, Body, CoreView, Drive, EntityCore, EntityId, MoveType, Schedule, Solid, Spin, FSOLID_NOT_SOLID,
};
use crate::io::{Input, Value, Variant};
use crate::scalar::{
    num, origin, Scalar, Vector, FIFTH, HUNDRED, NINETY, ONE, TEN, TENTH, TWENTY, TWENTY_FIVE, TWO_HUNDRED_TURNS, ZERO,
};
use crate::step::{answered, step, Step};
use crate::text::{atoi, integer_of, same_name};

verus! {

/// It turns from the start.
pub const SF_BRUSH_ROTATE_START_ON: u32 = 0x1;

/// It turns the other way.
pub const SF_BRUSH_ROTATE_BACKWARDS: u32 = 0x2;

pub const SF_BRUSH_ROTATE_Z_AXIS: u32 = 0x4;

pub const SF_BRUSH_ROTATE_X_AXIS: u32 = 0x8;

/// It takes time to reach its speed and to lose it.
pub const SF_BRUSH_ACCDCC: u32 = 0x10;

pub const SF_ROTATING_NOT_SOLID: u32 = 0x40;

/// What a turning brush does when its alarm goes off.
#[derive(Debug, Clone, Copy, PartialEq, Eq, Structural)]
pub enum RotatingMoveDone {
    Nothing,
    SpinUp,
    SpinDown,
    Reverse,
    Rotate,
}

/// What a turning brush does when it thinks.
#[derive(Debug, Clone, Copy, PartialEq, Eq, Structural)]
pub enum RotatingThink {
    Nothing,
    CallUseToggle,
    Normalize,
}

/// What a map says of a turning brush.
#[derive(Debug)]
pub struct RotatingKeys {
    pub fan_friction: Scalar,
    pub volume: Scalar,
    pub max_speed: Scalar,
    pub block_damage: Scalar,
    pub solid_bsp: bool,
    pub noise_running: Option<String>,
}

/// A turning brush.
#[derive(Debug)]
pub struct Rotating {
    /// The axis that it turns about.
    pub move_ang: Vector,
    pub target_speed: Scalar,
    pub reversed: bool,
    /// The angles that it spawned with.
    pub ang_start: Vector,
    /// Whether it is to stop at those angles.
    pub stop_at_start_pos: bool,
    pub move_done: RotatingMoveDone,
    pub think: RotatingThink,
    pub keys: RotatingKeys,
}

/// Where a turning brush stands, in numbers.
#[derive(Debug, Clone, Copy)]
pub struct TurnFigures {
    /// How far it is from the angle that it spawned with, about its axis, in
    /// degrees from a half turn back to a half turn on.
    pub offset: Scalar,
    /// How far it turns about its axis in a tick.
    pub per_tick: Scalar,
    /// Its speed, sign aside, and a fifth of its friction's share of its
    /// largest speed more.
    pub raised: Scalar,
    /// Its speed, sign aside, and a tenth of its friction's share of its
    /// largest speed less.
    pub lowered: Scalar,
}

/// What a turning brush needs to bring its angles back into range.
#[derive(Debug, Clone, Copy)]
pub struct UnwindFigures {
    /// Its angles, each two hundred turns less.
    pub less: Vector,
    /// Its angles, each two hundred turns more.
    pub more: Vector,
    /// A number drawn between fifteen and thirty.
    pub drawn: Scalar,
}

impl Rotating {
    pub open spec fn fresh() -> Rotating {
        Rotating {
            move_ang: origin(),
            target_speed: num(ZERO),
            reversed: false,
            ang_start: origin(),
            stop_at_start_pos: false,
            move_done: RotatingMoveDone::Nothing,
            think: RotatingThink::Nothing,
            keys: RotatingKeys {
                fan_friction: num(ZERO),
                volume: num(ZERO),
                max_speed: num(ZERO),
                block_damage: num(ZERO),
                solid_bsp: false,
                noise_running: None,
            },
        }
    }

    /// Whether its largest speed is a number and not below zero. A spawned
    /// brush's is.
    pub open spec fn wf(self) -> bool {
        num(ZERO).at_most(self.keys.max_speed)
    }

    /// Whether a new speed can be aimed at: one that is taken on at once is
    /// brought between bounds.
    pub open spec fn can_aim(self, core: CoreView) -> bool {
        core.spawned_with(SF_BRUSH_ACCDCC) || self.wf()
    }

    /// Whether a step of turning can be taken: near the angle to stop at it
    /// aims at no speed.
    pub open spec fn can_turn(self, core: CoreView, figures: TurnFigures) -> bool {
        self.stop_at_start_pos && figures.offset.absolute().less(figures.per_tick.absolute()) ==> self.can_aim(core)
    }

    /// Whether the alarm can go off.
    pub open spec fn can_ring(self, core: CoreView, figures: TurnFigures) -> bool {
        match self.move_done {
            RotatingMoveDone::Nothing => true,
            RotatingMoveDone::Rotate => self.can_turn(core, figures),
            _ => self.wf(),
        }
    }

    /// Whether an input is one that aims at a speed.
    pub open spec fn aims(name: Seq<char>) -> bool {
        same_name(name, "SetSpeed"@) || same_name(name, "Start"@) || same_name(name, "StartForward"@) || same_name(
            name,
            "StartBackward"@,
        ) || same_name(name, "Stop"@) || same_name(name, "StopAtStartPos"@) || same_name(name, "Toggle"@)
            || same_name(name, "Reverse"@)
    }

    pub open spec fn with_keys(self, keys: RotatingKeys) -> Rotating {
        Rotating { keys, ..self }
    }

    #[verifier::opaque]
    pub open spec fn keyed(self, key: Seq<char>, value: Value) -> Option<Rotating> {
        if same_name(key, "fanfriction"@) {
            Some(self.with_keys(RotatingKeys { fan_friction: value.hundredth, ..self.keys }))
        } else if same_name(key, "volume"@) {
            Some(
                self.with_keys(
                    RotatingKeys { volume: value.tenth.clamped(num(ZERO), num(ONE)), ..self.keys },
                ),
            )
        } else if same_name(key, "maxspeed"@) {
            Some(self.with_keys(RotatingKeys { max_speed: value.number, ..self.keys }))
        } else if same_name(key, "dmg"@) {
            Some(self.with_keys(RotatingKeys { block_damage: value.number, ..self.keys }))
        } else if same_name(key, "message"@) {
            Some(self.with_keys(RotatingKeys { noise_running: Some(value.text), ..self.keys }))
        } else if same_name(key, "solidbsp"@) {
            Some(self.with_keys(RotatingKeys { solid_bsp: integer_of(value.text@) != 0, ..self.keys }))
        } else {
            None
        }
    }

    /// How long until its next step: a tick while it looks for the angle to
    /// stop at.
    pub open spec fn interval(self, time: Time) -> Scalar {
        if self.stop_at_start_pos { time.interval } else { num(TENTH) }
    }

    /// Which of the three angles it turns: pitch, yaw or roll.
    pub open spec fn axis(self) -> int {
        if !self.move_ang.x.same(num(ZERO)) {
            0
        } else if !self.move_ang.y.same(num(ZERO)) {
            1
        } else {
            2
        }
    }
}

/// What a speed becomes: the one asked for, within bounds; near the angle to
/// stop at, the one that gets there; and at that angle, none.
pub open spec fn new_speed(me: Rotating, old_speed: Scalar, new: Scalar, offset: Scalar) -> Scalar {
    let away = offset.absolute();
    if !me.stop_at_start_pos || !new.less(num(HUNDRED)) {
        new.clamped(me.keys.max_speed.negated(), me.keys.max_speed)
    } else if stops_here(me, new, offset) {
        num(ZERO)
    } else if num(NINETY).less(away) {
        old_speed
    } else if num(ZERO).less(old_speed) {
        away.larger(num(TWENTY))
    } else {
        away.larger(num(TWENTY)).negated()
    }
}

/// Whether it is to stop, slow enough for that, and at the angle to stop at.
pub open spec fn stops_here(me: Rotating, new: Scalar, offset: Scalar) -> bool {
    me.stop_at_start_pos && new.less(num(HUNDRED)) && new.at_most(num(TWENTY_FIVE)) && offset.absolute().less(
        num(ONE),
    )
}

/// An angle brought back by two hundred turns where it is beyond them.
pub open spec fn unwound(angle: Scalar, less: Scalar, more: Scalar) -> Scalar {
    if num(TWO_HUNDRED_TURNS).less(angle) {
        less
    } else if angle.less(num(TWO_HUNDRED_TURNS).negated()) {
        more
    } else {
        angle
    }
}

pub open spec fn unwound_all(angles: Vector, figures: UnwindFigures) -> Vector {
    Vector {
        x: unwound(angles.x, figures.less.x, figures.more.x),
        y: unwound(angles.y, figures.less.y, figures.more.y),
        z: unwound(angles.z, figures.less.z, figures.more.z),
    }
}

impl Step<Rotating> {
    pub open spec fn at_speed(self, new: Scalar, offset: Scalar) -> Step<Rotating> {
        let speed = new_speed(self.me, self.core.drive.speed, new, offset);
        let drive = Drive {
            speed,
            angular_velocity: Spin { axis: self.me.move_ang, speed },
            ..self.core.drive
        };
        if stops_here(self.me, new, offset) {
            self.with(Rotating { target_speed: num(ZERO), stop_at_start_pos: false, ..self.me }).with_core(
                self.core.local_angles_at(self.me.ang_start).with_drive(drive),
            )
        } else {
            self.with_core(self.core.with_drive(drive))
        }
    }

    /// A new speed to reach, of the sign that it turns in: at once, or step by
    /// step.
    #[verifier::opaque]
    pub open spec fn aiming_at(self, speed: Scalar, offset: Scalar) -> Step<Rotating> {
        let target = if self.me.reversed { speed.absolute().negated() } else { speed.absolute() };
        let now = self.core.drive.speed;
        let aimed = self.with(Rotating { target_speed: target, ..self.me });
        let set = if !self.core.spawned_with(SF_BRUSH_ACCDCC) {
            let done = aimed.at_speed(target, offset);
            done.with(Rotating { move_done: RotatingMoveDone::Rotate, ..done.me })
        } else {
            aimed.with(
                Rotating {
                    move_done: if (num(ZERO).less(now) && target.less(num(ZERO))) || (now.less(num(ZERO))
                        && num(ZERO).less(target)) {
                        RotatingMoveDone::Reverse
                    } else if now.absolute().less(target.absolute()) {
                        RotatingMoveDone::SpinUp
                    } else if target.absolute().less(now.absolute()) {
                        RotatingMoveDone::SpinDown
                    } else {
                        RotatingMoveDone::Rotate
                    },
                    ..aimed.me
                },
            )
        };
        set.alarm(Alarm::After(set.me.interval(set.cx.time)))
    }

    /// One step of turning at full speed. Looking for the angle to stop at, it
    /// stops there once the next tick would pass it.
    pub open spec fn turned(self, figures: TurnFigures) -> Step<Rotating> {
        if !self.me.stop_at_start_pos {
            self.alarm(Alarm::After(num(TEN)))
        } else {
            let ready = self.alarm(Alarm::After(self.me.interval(self.cx.time)));
            if figures.offset.absolute().less(figures.per_tick.absolute()) {
                let slowed = ready.aiming_at(num(ZERO), figures.offset);
                slowed.with(Rotating { stop_at_start_pos: false, ..slowed.me }).with_core(
                    slowed.core.local_angles_at(slowed.me.ang_start),
                )
            } else {
                ready
            }
        }
    }

    /// One step towards a greater speed.
    pub open spec fn spun_up(self, figures: TurnFigures) -> Step<Rotating> {
        let reached = self.me.target_speed.absolute().at_most(figures.raised.absolute());
        let new = if reached {
            self.me.target_speed
        } else if self.me.target_speed.less(num(ZERO)) {
            figures.raised.negated()
        } else {
            figures.raised
        };
        let faster = self.at_speed(new, figures.offset);
        let on = if reached && !self.me.stop_at_start_pos {
            faster.with(Rotating { move_done: RotatingMoveDone::Rotate, ..faster.me }).turned(figures)
        } else {
            faster
        };
        on.alarm(Alarm::After(on.me.interval(on.cx.time)))
    }

    /// Whether one step towards a smaller speed reaches it.
    pub open spec fn slowed_to(self, target: Scalar, figures: TurnFigures) -> bool {
        let new = if figures.lowered.less(num(ZERO)) { num(ZERO) } else { figures.lowered };
        new.absolute().at_most(target.absolute())
    }

    /// One step towards a smaller speed.
    pub open spec fn spun_down(self, target: Scalar, figures: TurnFigures) -> Step<Rotating> {
        let new = if figures.lowered.less(num(ZERO)) { num(ZERO) } else { figures.lowered };
        self.at_speed(
            if self.slowed_to(target, figures) {
                target
            } else if self.core.drive.speed.less(num(ZERO)) {
                new.negated()
            } else {
                new
            },
            figures.offset,
        )
    }

    /// The alarm went off.
    pub open spec fn rung(self, figures: TurnFigures) -> Step<Rotating> {
        match self.me.move_done {
            RotatingMoveDone::Nothing => self,
            RotatingMoveDone::SpinUp => self.spun_up(figures),
            RotatingMoveDone::SpinDown => {
                let slower = self.spun_down(self.me.target_speed, figures);
                if self.slowed_to(self.me.target_speed, figures) && !self.me.stop_at_start_pos {
                    slower.with(Rotating { move_done: RotatingMoveDone::Rotate, ..slower.me }).turned(figures)
                } else {
                    slower.alarm(Alarm::After(slower.me.interval(slower.cx.time)))
                }
            },
            RotatingMoveDone::Reverse => {
                let slower = self.spun_down(num(ZERO), figures);
                if self.slowed_to(num(ZERO), figures) && !self.me.stop_at_start_pos {
                    slower.aiming_at(slower.me.target_speed, figures.offset)
                } else {
                    slower.alarm(Alarm::After(slower.me.interval(slower.cx.time)))
                }
            },
            RotatingMoveDone::Rotate => self.turned(figures),
        }
    }

    /// On if it stands, off if it turns.
    pub open spec fn used(self, offset: Scalar) -> Step<Rotating> {
        let aimed = self.aiming_at(
            if self.core.drive.speed.same(num(ZERO)) { self.me.keys.max_speed } else { num(ZERO) },
            offset,
        );
        aimed.with(Rotating { think: RotatingThink::Normalize, ..aimed.me }).think(Schedule::After(num(FIFTH)))
    }

    /// Angles brought back into range, and the next time to do so.
    pub open spec fn unwinding(self, figures: UnwindFigures) -> Step<Rotating> {
        let angles = unwound_all(self.core.place.local_angles, figures);
        let turned = if angles.same(self.core.place.local_angles) {
            self
        } else {
            self.with_core(self.core.local_angles_at(angles))
        };
        turned.with(Rotating { think: RotatingThink::Normalize, ..self.me }).think(Schedule::After(figures.drawn))
    }

    pub open spec fn thought(self, offset: Scalar, figures: UnwindFigures) -> Step<Rotating> {
        let awake = self.with(Rotating { think: RotatingThink::Nothing, ..self.me });
        match self.me.think {
            RotatingThink::Nothing => awake,
            RotatingThink::CallUseToggle => awake.used(offset),
            RotatingThink::Normalize => awake.unwinding(figures),
        }
    }

    #[verifier::opaque]
    pub open spec fn rotating_input(self, input: Input, scaled: Scalar, offset: Scalar) -> Option<Step<Rotating>> {
        let name = input.name@;
        let number = input.value.number();
        let max = self.me.keys.max_speed;
        let free = self.with(Rotating { stop_at_start_pos: false, ..self.me });
        if same_name(name, "SetSpeed"@) {
            Some(free.with(Rotating { reversed: number.less(num(ZERO)), ..free.me }).aiming_at(scaled, offset))
        } else if same_name(name, "GetSpeed"@) {
            Some(self.fire("OnGetSpeed"@, Variant::Float(self.core.drive.speed.absolute()), input.activator))
        } else if same_name(name, "Start"@) {
            Some(free.aiming_at(max, offset))
        } else if same_name(name, "StartForward"@) {
            Some(self.with(Rotating { reversed: false, ..self.me }).aiming_at(max, offset))
        } else if same_name(name, "StartBackward"@) {
            Some(free.with(Rotating { reversed: true, ..free.me }).aiming_at(max, offset))
        } else if same_name(name, "Stop"@) {
            Some(free.aiming_at(num(ZERO), offset))
        } else if same_name(name, "StopAtStartPos"@) {
            let aimed = self.with(Rotating { stop_at_start_pos: true, ..self.me }).aiming_at(num(ZERO), offset);
            Some(aimed.alarm(Alarm::After(aimed.me.interval(aimed.cx.time))))
        } else if same_name(name, "Toggle"@) {
            Some(self.aiming_at(if num(ZERO).less(self.core.drive.speed) { num(ZERO) } else { max }, offset))
        } else if same_name(name, "Reverse"@) {
            Some(
                free.with(Rotating { reversed: !self.me.reversed, ..free.me }).aiming_at(
                    self.core.drive.speed,
                    offset,
                ),
            )
        } else {
            None
        }
    }

    pub open spec fn spawned(self) -> Step<Rotating> {
        let keys = self.me.keys;
        let max = keys.max_speed.absolute();
        self.with(
            Rotating {
                move_ang: spin_axis(self.core),
                ang_start: self.core.place.local_angles,
                think: if self.core.spawned_with(SF_BRUSH_ROTATE_START_ON) {
                    RotatingThink::CallUseToggle
                } else {
                    RotatingThink::Normalize
                },
                keys: RotatingKeys {
                    volume: if keys.volume.same(num(ZERO)) { num(ONE) } else { keys.volume },
                    fan_friction: if keys.fan_friction.same(num(ZERO)) { num(ONE) } else { keys.fan_friction },
                    max_speed: if max.same(num(ZERO)) { num(HUNDRED) } else { max },
                    ..keys
                },
                ..self.me
            },
        ).with_core(rotating_built(self.core)).think(Schedule::After(num(FIFTH)))
    }
}

/// The axis that spawn flags give a turning brush.
pub open spec fn spin_axis(core: CoreView) -> Vector {
    let axis = if core.spawned_with(SF_BRUSH_ROTATE_Z_AXIS) {
        Vector { x: num(ZERO), y: num(ZERO), z: num(ONE) }
    } else if core.spawned_with(SF_BRUSH_ROTATE_X_AXIS) {
        Vector { x: num(ONE), y: num(ZERO), z: num(ZERO) }
    } else {
        Vector { x: num(ZERO), y: num(ONE), z: num(ZERO) }
    };
    if core.spawned_with(SF_BRUSH_ROTATE_BACKWARDS) {
        axis.negated()
    } else {
        axis
    }
}

/// What spawn flags make of a turning brush's entity.
pub open spec fn rotating_built(core: CoreView) -> CoreView {
    core.with_body(
        Body {
            solid: Solid::VPhysics,
            solid_flags: if core.spawned_with(SF_ROTATING_NOT_SOLID) {
                core.body.solid_flags | FSOLID_NOT_SOLID
            } else {
                core.body.solid_flags & !FSOLID_NOT_SOLID
            },
            move_type: MoveType::Push,
            ..core.body
        },
    ).with_drive(Drive { speed: num(ZERO), ..core.drive })
}

impl Rotating {
    pub fn create() -> (r: Rotating)
        ensures
            r == Rotating::fresh(),
            r.wf(),
    {
        Rotating {
            move_ang: origin(),
            target_speed: num(ZERO),
            reversed: false,
            ang_start: origin(),
            stop_at_start_pos: false,
            move_done: RotatingMoveDone::Nothing,
            think: RotatingThink::Nothing,
            keys: RotatingKeys {
                fan_friction: num(ZERO),
                volume: num(ZERO),
                max_speed: num(ZERO),
                block_damage: num(ZERO),
                solid_bsp: false,
                noise_running: None,
            },
        }
    }

    pub fn next_move_interval(&self, cx: &Context) -> (r: Scalar)
        ensures
            r == self.interval(cx@.time),
    {
        if self.stop_at_start_pos {
            cx.time.interval
        } else {
            num(TENTH)
        }
    }

    /// Which of the three angles it turns: pitch, yaw or roll.
    pub fn check_axis(&self) -> (r: usize)
        ensures
            r == self.axis(),
    {
        if !self.move_ang.x.equals(num(ZERO)) {
            0
        } else if !self.move_ang.y.equals(num(ZERO)) {
            1
        } else {
            2
        }
    }

    /// The share of its largest speed that an input asks for.
    pub fn speed_fraction(value: Scalar) -> (r: Scalar)
        ensures
            r == value.absolute().clamped(num(ZERO), num(ONE)),
    {
        value.abs().clamp(num(ZERO), num(ONE))
    }

    /// Sets its speed. `offset` is how far it is from the angle that it spawned
    /// with.
    fn update_speed(&mut self, entity: &mut EntityCore, new: Scalar, offset: Scalar, Ghost(cx): Ghost<ContextView>)
        requires
            old(self).wf(),
        ensures
            step(*final(self), final(entity)@, cx) == step(*old(self), old(entity)@, cx).at_speed(new, offset),
            final(self).keys == old(self).keys,
    {
        let old_speed = entity.drive.speed;
        let away = offset.abs();
        let mut speed = new.clamp(self.keys.max_speed.neg(), self.keys.max_speed);
        if self.stop_at_start_pos && new.lt(num(HUNDRED)) {
            if new.le(num(TWENTY_FIVE)) && away.lt(num(ONE)) {
                self.target_speed = num(ZERO);
                self.stop_at_start_pos = false;
                speed = num(ZERO);
                entity.set_local_angles(self.ang_start);
            } else if num(NINETY).lt(away) {
                speed = old_speed;
            } else {
                let least = away.max(num(TWENTY));
                speed = if num(ZERO).lt(old_speed) {
                    least
                } else {
                    least.neg()
                };
            }
        }
        entity.drive.speed = speed;
        entity.drive.angular_velocity = Spin { axis: self.move_ang, speed };
    }

    /// Whether a speed can be brought between the largest ones either way.
    pub fn is_bounded(&self) -> (r: bool)
        ensures
            r == self.wf(),
    {
        num(ZERO).le(self.keys.max_speed)
    }

    /// Whether a new speed can be aimed at.
    pub fn may_aim(&self, entity: &EntityCore) -> (r: bool)
        ensures
            r == self.can_aim(entity@),
    {
        entity.has_spawn_flags(SF_BRUSH_ACCDCC) || self.is_bounded()
    }

    /// Whether an input can be taken.
    pub fn takes(&self, entity: &EntityCore, input: &Input<'_>) -> (r: bool)
        ensures
            r == (Rotating::aims(input.name@) ==> self.can_aim(entity@)),
    {
        let name = input.name;
        let aims = name.eq_ignore_ascii_case("SetSpeed") || name.eq_ignore_ascii_case("Start")
            || name.eq_ignore_ascii_case("StartForward") || name.eq_ignore_ascii_case("StartBackward")
            || name.eq_ignore_ascii_case("Stop") || name.eq_ignore_ascii_case("StopAtStartPos")
            || name.eq_ignore_ascii_case("Toggle") || name.eq_ignore_ascii_case("Reverse");
        !aims || self.may_aim(entity)
    }

    /// Whether it can think.
    pub fn may_think(&self, entity: &EntityCore) -> (r: bool)
        ensures
            r == (self.think == RotatingThink::CallUseToggle ==> self.can_aim(entity@)),
    {
        self.think != RotatingThink::CallUseToggle || self.may_aim(entity)
    }

    /// Whether the alarm can go off.
    pub fn may_ring(&self, entity: &EntityCore, figures: &TurnFigures) -> (r: bool)
        ensures
            r == self.can_ring(entity@, *figures),
    {
        match self.move_done {
            RotatingMoveDone::Nothing => true,
            RotatingMoveDone::Rotate => !(self.stop_at_start_pos && figures.offset.abs().lt(figures.per_tick.abs()))
                || self.may_aim(entity),
            _ => self.is_bounded(),
        }
    }

    pub fn set_target_speed(&mut self, entity: &mut EntityCore, speed: Scalar, offset: Scalar, cx: &Context)
        requires
            old(self).can_aim(old(entity)@),
        ensures
            step(*final(self), final(entity)@, cx@) == step(*old(self), old(entity)@, cx@).aiming_at(speed, offset),
            final(self).keys == old(self).keys,
    {
        reveal(Step::<_>::aiming_at);
        let mut target = speed.abs();
        if self.reversed {
            target = target.neg();
        }
        self.target_speed = target;
        let now = entity.drive.speed;
        if !entity.has_spawn_flags(SF_BRUSH_ACCDCC) {
            self.update_speed(entity, target, offset, Ghost(cx@));
            self.move_done = RotatingMoveDone::Rotate;
        } else if (num(ZERO).lt(now) && target.lt(num(ZERO))) || (now.lt(num(ZERO)) && num(ZERO).lt(target)) {
            self.move_done = RotatingMoveDone::Reverse;
        } else if now.abs().lt(target.abs()) {
            self.move_done = RotatingMoveDone::SpinUp;
        } else if target.abs().lt(now.abs()) {
            self.move_done = RotatingMoveDone::SpinDown;
        } else {
            self.move_done = RotatingMoveDone::Rotate;
        }
        let interval = self.next_move_interval(cx);
        entity.set_move_done_time(interval);
    }

    pub fn rotate_move(&mut self, entity: &mut EntityCore, figures: &TurnFigures, cx: &Context)
        requires
            old(self).can_turn(old(entity)@, *figures),
        ensures
            step(*final(self), final(entity)@, cx@) == step(*old(self), old(entity)@, cx@).turned(*figures),
            final(self).keys == old(self).keys,
    {
        if !self.stop_at_start_pos {
            entity.set_move_done_time(num(TEN));
            return;
        }
        let interval = self.next_move_interval(cx);
        entity.set_move_done_time(interval);
        if figures.offset.abs().lt(figures.per_tick.abs()) {
            self.set_target_speed(entity, num(ZERO), figures.offset, cx);
            entity.set_local_angles(self.ang_start);
            self.stop_at_start_pos = false;
        }
    }

    pub fn spin_up_move(&mut self, entity: &mut EntityCore, figures: &TurnFigures, cx: &Context)
        requires
            old(self).wf(),
        ensures
            step(*final(self), final(entity)@, cx@) == step(*old(self), old(entity)@, cx@).spun_up(*figures),
            final(self).keys == old(self).keys,
    {
        let mut done = false;
        let mut new = figures.raised;
        if self.target_speed.abs().le(new.abs()) {
            new = self.target_speed;
            done = !self.stop_at_start_pos;
        } else if self.target_speed.lt(num(ZERO)) {
            new = new.neg();
        }
        self.update_speed(entity, new, figures.offset, Ghost(cx@));
        if done {
            self.move_done = RotatingMoveDone::Rotate;
            self.rotate_move(entity, figures, cx);
        }
        let interval = self.next_move_interval(cx);
        entity.set_move_done_time(interval);
    }

    /// One step towards a smaller speed. Whether that is reached, and it need
    /// not look for the angle to stop at.
    fn spin_down(&mut self, entity: &mut EntityCore, target: Scalar, figures: &TurnFigures, Ghost(cx): Ghost<ContextView>) -> (r: bool)
        requires
            old(self).wf(),
        ensures
            r == (step(*old(self), old(entity)@, cx).slowed_to(target, *figures) && !old(self).stop_at_start_pos),
            step(*final(self), final(entity)@, cx) == step(*old(self), old(entity)@, cx).spun_down(target, *figures),
            final(self).keys == old(self).keys,
    {
        let mut done = false;
        let mut new = figures.lowered;
        if new.lt(num(ZERO)) {
            new = num(ZERO);
        }
        if new.abs().le(target.abs()) {
            new = target;
            done = !self.stop_at_start_pos;
        } else if entity.drive.speed.lt(num(ZERO)) {
            new = new.neg();
        }
        self.update_speed(entity, new, figures.offset, Ghost(cx));
        done
    }

    pub fn rotating_use(&mut self, entity: &mut EntityCore, offset: Scalar, cx: &Context)
        requires
            old(self).can_aim(old(entity)@),
        ensures
            step(*final(self), final(entity)@, cx@) == step(*old(self), old(entity)@, cx@).used(offset),
            final(self).keys == old(self).keys,
    {
        if entity.drive.speed.equals(num(ZERO)) {
            let max = self.keys.max_speed;
            self.set_target_speed(entity, max, offset, cx);
        } else {
            self.set_target_speed(entity, num(ZERO), offset, cx);
        }
        self.think = RotatingThink::Normalize;
        entity.set_next_think(Schedule::After(num(FIFTH)));
    }

    fn unwind(angle: Scalar, less: Scalar, more: Scalar) -> (r: Scalar)
        ensures
            r == unwound(angle, less, more),
    {
        if num(TWO_HUNDRED_TURNS).lt(angle) {
            less
        } else if angle.lt(num(TWO_HUNDRED_TURNS).neg()) {
            more
        } else {
            angle
        }
    }

    pub fn normalize_angle_if_needed(&mut self, entity: &mut EntityCore, figures: &UnwindFigures, cx: &Context)
        ensures
            step(*final(self), final(entity)@, cx@) == step(*old(self), old(entity)@, cx@).unwinding(*figures),
            final(self).keys == old(self).keys,
    {
        let angles = entity.place.local_angles;
        let unwound = Vector {
            x: Rotating::unwind(angles.x, figures.less.x, figures.more.x),
            y: Rotating::unwind(angles.y, figures.less.y, figures.more.y),
            z: Rotating::unwind(angles.z, figures.less.z, figures.more.z),
        };
        if !unwound.equals(angles) {
            entity.set_local_angles(unwound);
        }
        self.think = RotatingThink::Normalize;
        entity.set_next_think(Schedule::After(figures.drawn));
    }

    pub fn key_value(&mut self, key: &str, value: &Value) -> (r: bool)
        ensures
            r == old(self).keyed(key@, *value) is Some,
            *final(self) == old(self).keyed(key@, *value).unwrap_or(*old(self)),
    {
        reveal(Rotating::keyed);
        if key.eq_ignore_ascii_case("fanfriction") {
            self.keys.fan_friction = value.hundredth;
        } else if key.eq_ignore_ascii_case("volume") {
            self.keys.volume = value.tenth.clamp(num(ZERO), num(ONE));
        } else if key.eq_ignore_ascii_case("maxspeed") {
            self.keys.max_speed = value.number;
        } else if key.eq_ignore_ascii_case("dmg") {
            self.keys.block_damage = value.number;
        } else if key.eq_ignore_ascii_case("message") {
            self.keys.noise_running = Some(value.text.clone());
        } else if key.eq_ignore_ascii_case("solidbsp") {
            self.keys.solid_bsp = atoi(value.text.as_str()) != 0;
        } else {
            return false;
        }
        true
    }

    /// The axis that spawn flags give.
    fn axis_of(entity: &EntityCore) -> (r: Vector)
        ensures
            r == spin_axis(entity@),
    {
        let axis = if entity.has_spawn_flags(SF_BRUSH_ROTATE_Z_AXIS) {
            Vector { x: num(ZERO), y: num(ZERO), z: num(ONE) }
        } else if entity.has_spawn_flags(SF_BRUSH_ROTATE_X_AXIS) {
            Vector { x: num(ONE), y: num(ZERO), z: num(ZERO) }
        } else {
            Vector { x: num(ZERO), y: num(ONE), z: num(ZERO) }
        };
        if entity.has_spawn_flags(SF_BRUSH_ROTATE_BACKWARDS) {
            axis.neg()
        } else {
            axis
        }
    }

    /// Makes of the entity what its spawn flags make of it.
    fn stand(entity: &mut EntityCore)
        ensures
            final(entity)@ == rotating_built(old(entity)@),
    {
        entity.body.solid = Solid::VPhysics;
        if entity.has_spawn_flags(SF_ROTATING_NOT_SOLID) {
            entity.body.solid_flags = entity.body.solid_flags | FSOLID_NOT_SOLID;
        } else {
            entity.body.solid_flags = entity.body.solid_flags & !FSOLID_NOT_SOLID;
        }
        entity.body.move_type = MoveType::Push;
        entity.drive.speed = num(ZERO);
    }

    pub fn spawn(&mut self, entity: &mut EntityCore, cx: &Context) -> (r: SpawnResult)
        ensures
            r == SpawnResult::Keep,
            step(*final(self), final(entity)@, cx@) == step(*old(self), old(entity)@, cx@).spawned(),
            old(self).keys.max_speed.numeric() ==> final(self).wf(),
    {
        if self.keys.volume.equals(num(ZERO)) {
            self.keys.volume = num(ONE);
        }
        if self.keys.fan_friction.equals(num(ZERO)) {
            self.keys.fan_friction = num(ONE);
        }
        self.keys.max_speed = self.keys.max_speed.abs();
        if self.keys.max_speed.equals(num(ZERO)) {
            self.keys.max_speed = num(HUNDRED);
        }
        self.move_ang = Rotating::axis_of(entity);
        self.think = if entity.has_spawn_flags(SF_BRUSH_ROTATE_START_ON) {
            RotatingThink::CallUseToggle
        } else {
            RotatingThink::Normalize
        };
        self.ang_start = entity.place.local_angles;
        Rotating::stand(entity);
        entity.set_next_think(Schedule::After(num(FIFTH)));
        SpawnResult::Keep
    }

    /// Something stands in the way, and is hurt.
    pub fn blocked(&mut self, entity: &mut EntityCore, other: EntityId, cx: &mut Context)
        ensures
            *final(self) == *old(self),
            final(entity)@ == old(entity)@,
            final(cx)@ == old(cx)@.hurting(
                other,
                DamageInfo {
                    inflictor: Some(old(entity)@.id),
                    attacker: Some(old(entity)@.id),
                    damage: old(self).keys.block_damage,
                    damage_type: DMG_CRUSH,
                },
            ),
    {
        let me = Some(entity.id());
        cx.take_damage(other, DamageInfo::new(me, me, self.keys.block_damage, DMG_CRUSH));
    }

    /// Takes an input. `scaled` is the share of its largest speed that the
    /// input asks for; `offset` is how far it is from the angle that it spawned
    /// with.
    pub fn accept_input(
        &mut self,
        entity: &mut EntityCore,
        input: &Input<'_>,
        scaled: Scalar,
        offset: Scalar,
        cx: &mut Context,
    ) -> (r: bool)
        requires
            Rotating::aims(input.name@) ==> old(self).can_aim(old(entity)@),
        ensures
            answered(
                step(*old(self), old(entity)@, old(cx)@).rotating_input(*input, scaled, offset),
                step(*old(self), old(entity)@, old(cx)@),
                r,
                step(*final(self), final(entity)@, final(cx)@),
            ),
            final(self).keys == old(self).keys,
    {
        reveal(Step::<_>::rotating_input);
        let name = input.name;
        let max = self.keys.max_speed;
        if name.eq_ignore_ascii_case("SetSpeed") {
            self.stop_at_start_pos = false;
            self.reversed = input.value.float().lt(num(ZERO));
            self.set_target_speed(entity, scaled, offset, cx);
        } else if name.eq_ignore_ascii_case("GetSpeed") {
            let me = Some(entity.id());
            let speed = entity.drive.speed.abs();
            entity.fire_output("OnGetSpeed", Variant::Float(speed), input.activator, me, num(ZERO), cx);
        } else if name.eq_ignore_ascii_case("Start") {
            self.stop_at_start_pos = false;
            self.set_target_speed(entity, max, offset, cx);
        } else if name.eq_ignore_ascii_case("StartForward") {
            self.reversed = false;
            self.set_target_speed(entity, max, offset, cx);
        } else if name.eq_ignore_ascii_case("StartBackward") {
            self.stop_at_start_pos = false;
            self.reversed = true;
            self.set_target_speed(entity, max, offset, cx);
        } else if name.eq_ignore_ascii_case("Stop") {
            self.stop_at_start_pos = false;
            self.set_target_speed(entity, num(ZERO), offset, cx);
        } else if name.eq_ignore_ascii_case("StopAtStartPos") {
            self.stop_at_start_pos = true;
            self.set_target_speed(entity, num(ZERO), offset, cx);
            let interval = self.next_move_interval(cx);
            entity.set_move_done_time(interval);
        } else if name.eq_ignore_ascii_case("Toggle") {
            if num(ZERO).lt(entity.drive.speed) {
                self.set_target_speed(entity, num(ZERO), offset, cx);
            } else {
                self.set_target_speed(entity, max, offset, cx);
            }
        } else if name.eq_ignore_ascii_case("Reverse") {
            self.stop_at_start_pos = false;
            self.reversed = !self.reversed;
            let speed = entity.drive.speed;
            self.set_target_speed(entity, speed, offset, cx);
        } else {
            return false;
        }
        true
    }

    /// `offset` is how far it is from the angle that it spawned with.
    pub fn think(&mut self, entity: &mut EntityCore, offset: Scalar, figures: &UnwindFigures, cx: &Context)
        requires
            old(self).think == RotatingThink::CallUseToggle ==> old(self).can_aim(old(entity)@),
        ensures
            step(*final(self), final(entity)@, cx@) == step(*old(self), old(entity)@, cx@).thought(offset, *figures),
            final(self).keys == old(self).keys,
    {
        let think = self.think;
        self.think = RotatingThink::Nothing;
        match think {
            RotatingThink::Nothing => {}
            RotatingThink::CallUseToggle => self.rotating_use(entity, offset, cx),
            RotatingThink::Normalize => self.normalize_angle_if_needed(entity, figures, cx),
        }
    }

    /// The alarm went off.
    pub fn move_done(&mut self, entity: &mut EntityCore, figures: &TurnFigures, cx: &Context)
        requires
            old(self).can_ring(old(entity)@, *figures),
        ensures
            step(*final(self), final(entity)@, cx@) == step(*old(self), old(entity)@, cx@).rung(*figures),
            final(self).keys == old(self).keys,
    {
        match self.move_done {
            RotatingMoveDone::Nothing => {}
            RotatingMoveDone::SpinUp => self.spin_up_move(entity, figures, cx),
            RotatingMoveDone::SpinDown => {
                let target = self.target_speed;
                if self.spin_down(entity, target, figures, Ghost(cx@)) {
                    self.move_done = RotatingMoveDone::Rotate;
                    self.rotate_move(entity, figures, cx);
                } else {
                    let interval = self.next_move_interval(cx);
                    entity.set_move_done_time(interval);
                }
            }
            RotatingMoveDone::Reverse => {
                if self.spin_down(entity, num(ZERO), figures, Ghost(cx@)) {
                    let target = self.target_speed;
                    self.set_target_speed(entity, target, figures.offset, cx);
                } else {
                    let interval = self.next_move_interval(cx);
                    entity.set_move_done_time(interval);
                }
            }
            RotatingMoveDone::Rotate => self.rotate_move(entity, figures, cx),
        }
    }

    /// Somebody used it.
    pub fn use_entity(&mut self, entity: &mut EntityCore, offset: Scalar, cx: &Context)
        requires
            old(self).can_aim(old(entity)@),
        ensures
            step(*final(self), final(entity)@, cx@) == step(*old(self), old(entity)@, cx@).used(offset),
            final(self).keys == old(self).keys,
    {
        self.rotating_use(entity, offset, cx);
    }
}

} // verus!
