//! The two-position mover: what a door, a button and a piston have in common.
use vstd::prelude::*;

use crate::entity::{Agenda, Alarm, CoreView, EntityCore, Motion};
use crate::io::Value;
use crate::scalar::{num, origin, Scalar, Vector, ONE, ZERO};
use crate::text::same_name;

verus! {

/// It turns about the roll axis.
pub const SF_ROTATE_ROLL: u32 = 0x40;

/// It turns about the pitch axis.
pub const SF_ROTATE_PITCH: u32 = 0x80;

/// Where a two-position mover is, or which way it is going.
#[derive(Debug, Clone, Copy, PartialEq, Eq, Structural)]
pub enum ToggleState {
    AtTop,
    AtBottom,
    GoingUp,
    GoingDown,
}

/// What kind of move a mover made last.
#[derive(Debug, Clone, Copy, PartialEq, Eq, Structural)]
pub enum Movement {
    Unmoved,
    Linear,
    Angular,
}

/// What a map says of a mover.
#[derive(Debug, Clone, Copy, PartialEq, Eq, Structural)]
pub struct ToggleKeys {
    /// How much of itself it keeps in view at the far end.
    pub lip: Scalar,
    /// How long it stays at the far end.
    pub wait: Scalar,
    /// How far it turns.
    pub move_distance: Scalar,
}

/// The two ends of a mover's travel.
#[derive(Debug, Clone, Copy, PartialEq, Eq, Structural)]
pub struct Travel {
    pub position1: Vector,
    pub position2: Vector,
    pub angle1: Vector,
    pub angle2: Vector,
    /// The axis that it turns about.
    pub move_ang: Vector,
}

/// Where a mover was last bound for.
#[derive(Debug, Clone, Copy, PartialEq, Eq, Structural)]
pub struct Aim {
    pub movement: Movement,
    pub final_dest: Vector,
    pub final_angle: Vector,
}

/// A two-position mover.
#[derive(Debug, Clone, Copy, PartialEq, Eq, Structural)]
pub struct Toggle {
    pub state: ToggleState,
    pub keys: ToggleKeys,
    pub travel: Travel,
    pub aim: Aim,
}

/// The axis about which a mover with these spawn flags turns.
pub open spec fn turning_axis(spawn_flags: u32) -> Vector {
    if spawn_flags & SF_ROTATE_ROLL != 0 {
        Vector { x: num(ZERO), y: num(ZERO), z: num(ONE) }
    } else if spawn_flags & SF_ROTATE_PITCH != 0 {
        Vector { x: num(ONE), y: num(ZERO), z: num(ZERO) }
    } else {
        Vector { x: num(ZERO), y: num(ONE), z: num(ZERO) }
    }
}

impl CoreView {
    /// Set in motion, the alarm set for its arrival.
    pub open spec fn moving(self, motion: Motion) -> CoreView {
        self.with_agenda(Agenda { motion, alarm: Alarm::Arrival, ..self.agenda })
    }
}

impl Toggle {
    pub open spec fn at_rest() -> Toggle {
        Toggle {
            state: ToggleState::AtTop,
            keys: ToggleKeys { lip: num(ZERO), wait: num(ZERO), move_distance: num(ZERO) },
            travel: Travel {
                position1: origin(),
                position2: origin(),
                angle1: origin(),
                angle2: origin(),
                move_ang: origin(),
            },
            aim: Aim { movement: Movement::Unmoved, final_dest: origin(), final_angle: origin() },
        }
    }

    pub open spec fn keyed(self, key: Seq<char>, value: Value) -> Option<Toggle> {
        if same_name(key, "lip"@) {
            Some(Toggle { keys: ToggleKeys { lip: value.number, ..self.keys }, ..self })
        } else if same_name(key, "wait"@) {
            Some(Toggle { keys: ToggleKeys { wait: value.number, ..self.keys }, ..self })
        } else if same_name(key, "distance"@) {
            Some(Toggle { keys: ToggleKeys { move_distance: value.number, ..self.keys }, ..self })
        } else {
            None
        }
    }

    pub open spec fn bound_for(self, to: Vector) -> Toggle {
        Toggle { aim: Aim { movement: Movement::Linear, final_dest: to, ..self.aim }, ..self }
    }

    pub open spec fn turning_to(self, to: Vector) -> Toggle {
        Toggle { aim: Aim { movement: Movement::Angular, final_angle: to, ..self.aim }, ..self }
    }

    /// The entity once its move has ended: at its destination, still, and with
    /// no alarm set.
    pub open spec fn arrived(self, core: CoreView) -> CoreView {
        match self.aim.movement {
            Movement::Unmoved => core,
            Movement::Linear => core.local_origin_at(self.aim.final_dest).with_agenda(
                Agenda { motion: Motion::Stop, alarm: Alarm::Off, ..core.agenda },
            ),
            Movement::Angular => core.local_angles_at(self.aim.final_angle).with_agenda(
                Agenda { motion: Motion::Stop, alarm: Alarm::Off, ..core.agenda },
            ),
        }
    }

    /// A mover that has not moved.
    pub fn new() -> (r: Toggle)
        ensures
            r == Toggle::at_rest(),
    {
        Toggle {
            state: ToggleState::AtTop,
            keys: ToggleKeys { lip: num(ZERO), wait: num(ZERO), move_distance: num(ZERO) },
            travel: Travel {
                position1: origin(),
                position2: origin(),
                angle1: origin(),
                angle2: origin(),
                move_ang: origin(),
            },
            aim: Aim { movement: Movement::Unmoved, final_dest: origin(), final_angle: origin() },
        }
    }

    pub fn key_value(&mut self, key: &str, value: &Value) -> (r: bool)
        ensures
            r == old(self).keyed(key@, *value) is Some,
            *final(self) == old(self).keyed(key@, *value).unwrap_or(*old(self)),
    {
        if key.eq_ignore_ascii_case("lip") {
            self.keys.lip = value.number;
        } else if key.eq_ignore_ascii_case("wait") {
            self.keys.wait = value.number;
        } else if key.eq_ignore_ascii_case("distance") {
            self.keys.move_distance = value.number;
        } else {
            return false;
        }
        true
    }

    /// Takes the axis that it turns about from the spawn flags.
    pub fn axis_dir(&mut self, spawn_flags: u32)
        ensures
            *final(self) == (Toggle {
                travel: Travel { move_ang: turning_axis(spawn_flags), ..old(self).travel },
                ..*old(self)
            }),
    {
        if spawn_flags & SF_ROTATE_ROLL != 0 {
            self.travel.move_ang = Vector { x: num(ZERO), y: num(ZERO), z: num(ONE) };
        } else if spawn_flags & SF_ROTATE_PITCH != 0 {
            self.travel.move_ang = Vector { x: num(ONE), y: num(ZERO), z: num(ZERO) };
        } else {
            self.travel.move_ang = Vector { x: num(ZERO), y: num(ONE), z: num(ZERO) };
        }
    }

    /// Sets off for a place. `false` if it is there already, and then nothing
    /// moves.
    pub fn linear_move(&mut self, entity: &mut EntityCore, to: Vector, speed: Scalar) -> (r: bool)
        ensures
            r == !to.same(old(entity)@.place.local_origin),
            *final(self) == old(self).bound_for(to),
            final(entity)@ == (if r {
                old(entity)@.moving(Motion::Linear { to, speed })
            } else {
                old(entity)@
            }),
    {
        self.aim.movement = Movement::Linear;
        self.aim.final_dest = to;
        if to.equals(entity.place.local_origin) {
            return false;
        }
        entity.agenda.motion = Motion::Linear { to, speed };
        entity.agenda.alarm = Alarm::Arrival;
        true
    }

    /// Sets off for a set of angles. `false` if it has them already, and then
    /// nothing moves.
    pub fn angular_move(&mut self, entity: &mut EntityCore, to: Vector, speed: Scalar) -> (r: bool)
        ensures
            r == !to.same(old(entity)@.place.local_angles),
            *final(self) == old(self).turning_to(to),
            final(entity)@ == (if r {
                old(entity)@.moving(Motion::Angular { to, speed })
            } else {
                old(entity)@
            }),
    {
        self.aim.movement = Movement::Angular;
        self.aim.final_angle = to;
        if to.equals(entity.place.local_angles) {
            return false;
        }
        entity.agenda.motion = Motion::Angular { to, speed };
        entity.agenda.alarm = Alarm::Arrival;
        true
    }

    /// Ends a move: at its destination, still, no alarm set.
    pub fn move_done(&self, entity: &mut EntityCore)
        ensures
            final(entity)@ == self.arrived(old(entity)@),
    {
        match self.aim.movement {
            Movement::Unmoved => {}
            Movement::Linear => {
                entity.set_local_origin(self.aim.final_dest);
                entity.agenda.motion = Motion::Stop;
                entity.agenda.alarm = Alarm::Off;
            }
            Movement::Angular => {
                entity.set_local_angles(self.aim.final_angle);
                entity.agenda.motion = Motion::Stop;
                entity.agenda.alarm = Alarm::Off;
            }
        }
    }

    /// Where it was last bound for.
    pub fn final_dest(&self) -> (r: Vector)
        ensures
            r == self.aim.final_dest,
    {
        self.aim.final_dest
    }

    pub fn set_final_dest(&mut self, to: Vector)
        ensures
            *final(self) == (Toggle { aim: Aim { final_dest: to, ..old(self).aim }, ..*old(self) }),
    {
        self.aim.final_dest = to;
    }
}

} // verus!
