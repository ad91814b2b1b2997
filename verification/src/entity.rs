//! An entity's common half: what every class has, whatever it does.
use vstd::prelude::*;

use crate::context::{Context, Posted, PostedView};
use crate::damage::{DamageMode, LifeState};
use crate::io::Variant;
use crate::scalar::{num, origin, Scalar, Vector, MINUS_ONE, ZERO};
use crate::text::same_name;

verus! {

// Entity flags.

pub const FL_ONGROUND: u32 = 0x1;

pub const FL_FROZEN: u32 = 0x40;

pub const FL_CLIENT: u32 = 0x100;

pub const FL_NPC: u32 = 0x4000;

pub const FL_GODMODE: u32 = 0x8000;

pub const FL_NOTARGET: u32 = 0x1_0000;

pub const FL_BASEVELOCITY: u32 = 0x100_0000;

pub const FL_UNBLOCKABLE_BY_PLAYER: u32 = 0x8000_0000;

// Solidity flags.

/// Walking into it stops nobody.
pub const FSOLID_NOT_SOLID: u32 = 0x4;

/// The touch pass looks at it.
pub const FSOLID_TRIGGER: u32 = 0x8;

pub const FSOLID_TRIGGER_TOUCH_DEBRIS: u32 = 0x200;

// Effects.

pub const EF_NOSHADOW: u32 = 0x10;

/// It is not drawn.
pub const EF_NODRAW: u32 = 0x20;

pub const EF_MARKED_FOR_FAST_REFLECTION: u32 = 0x400;

/// A handle to an entity: the slot it lives in, and which of the slot's
/// tenants it is.
#[derive(Debug, Clone, Copy, PartialEq, Eq, Structural)]
pub struct EntityId {
    pub slot: usize,
    pub serial: u32,
}

impl EntityId {
    pub fn slot(self) -> (r: usize)
        ensures
            r == self.slot,
    {
        self.slot
    }
}

/// What an entity collides as.
#[derive(Debug, Clone, Copy, PartialEq, Eq, Structural)]
pub enum Solid {
    Nothing,
    Bsp,
    Bbox,
    Obb,
    VPhysics,
}

/// How an entity moves.
#[derive(Debug, Clone, Copy, PartialEq, Eq, Structural)]
pub enum MoveType {
    Still,
    Walk,
    Push,
    Noclip,
    FlyGravity,
}

/// Who passes through whom.
#[derive(Debug, Clone, Copy, PartialEq, Eq, Structural)]
pub enum CollisionGroup {
    Everything,
    PassableDoor,
}

/// A colour and how opaque it is.
#[derive(Debug, Clone, Copy, PartialEq, Eq, Structural)]
pub struct Rgba {
    pub r: u8,
    pub g: u8,
    pub b: u8,
    pub a: u8,
}

/// A box, by two corners.
#[derive(Debug, Clone, Copy, PartialEq, Eq, Structural)]
pub struct ModelBounds {
    pub mins: Vector,
    pub maxs: Vector,
}

/// A turn about an axis, at a rate.
#[derive(Debug, Clone, Copy, PartialEq, Eq, Structural)]
pub struct Spin {
    pub axis: Vector,
    pub speed: Scalar,
}

/// What a handler asks of the think schedule.
#[derive(Debug, Clone, Copy, PartialEq, Eq, Structural)]
pub enum Schedule {
    /// Leave it as it is.
    Keep,
    Never,
    /// This tick.
    Now,
    /// So many seconds from now.
    After(Scalar),
    /// At a time of the server's clock.
    At(Scalar),
}

/// What a handler asks of the alarm that ends a move.
#[derive(Debug, Clone, Copy, PartialEq, Eq, Structural)]
pub enum Alarm {
    /// Leave it as it is.
    Keep,
    Off,
    /// So many seconds from now.
    After(Scalar),
    /// When the move that was asked for arrives.
    Arrival,
}

/// What a handler asks of an entity's motion.
#[derive(Debug, Clone, Copy, PartialEq, Eq, Structural)]
pub enum Motion {
    /// Leave it as it is.
    Keep,
    Stop,
    /// To a place, at a speed.
    Linear { to: Vector, speed: Scalar },
    /// To a set of angles, at a speed.
    Angular { to: Vector, speed: Scalar },
}

/// One of an entity's connections: the output it hangs on and its delay.
#[derive(Debug)]
pub struct Connection {
    pub output: String,
    pub delay: Scalar,
}

/// What an entity collides as and how it moves about.
#[derive(Debug, Clone, Copy, PartialEq, Eq, Structural)]
pub struct Body {
    pub solid: Solid,
    pub solid_flags: u32,
    pub move_type: MoveType,
    pub collision_group: CollisionGroup,
    pub bounds: ModelBounds,
}

/// How an entity is drawn.
#[derive(Debug, Clone, Copy, PartialEq, Eq, Structural)]
pub struct Look {
    pub effects: u32,
    pub color: Rgba,
    pub render_mode: i32,
}

/// How an entity stands to damage.
#[derive(Debug, Clone, Copy, PartialEq, Eq, Structural)]
pub struct Vitals {
    pub health: i32,
    pub max_health: i32,
    pub take_damage: DamageMode,
    pub life_state: LifeState,
    /// The part of past damage too small to have taken a whole point.
    pub accumulator: Scalar,
    /// The filter that damage has to pass.
    pub damage_filter: Option<EntityId>,
}

/// Where an entity is: as the world sees it, and as its parent does.
#[derive(Debug, Clone, Copy, PartialEq, Eq, Structural)]
pub struct Place {
    pub parent: Option<EntityId>,
    pub attachment: Option<usize>,
    pub origin: Vector,
    pub angles: Vector,
    pub local_origin: Vector,
    pub local_angles: Vector,
}

/// How fast an entity is going.
#[derive(Debug, Clone, Copy, PartialEq, Eq, Structural)]
pub struct Drive {
    pub speed: Scalar,
    pub velocity: Vector,
    pub base_velocity: Vector,
    pub angular_velocity: Spin,
}

/// When an entity thinks next, as of the start of a call, and what the call
/// asks of the server's clock.
#[derive(Debug, Clone, Copy, PartialEq, Eq, Structural)]
pub struct Agenda {
    pub next_think: Scalar,
    pub schedule: Schedule,
    pub alarm: Alarm,
    pub motion: Motion,
    /// Whether it has asked to be removed.
    pub removed: bool,
}

/// What every entity has.
#[derive(Debug)]
pub struct EntityCore {
    pub id: EntityId,
    pub classname: &'static str,
    pub name: Option<String>,
    pub model: Option<String>,
    pub target: Option<String>,
    pub damage_filter_name: Option<String>,
    pub children: Vec<EntityId>,
    /// Everything that overlaps this entity now.
    pub touch_links: Vec<EntityId>,
    pub connections: Vec<Connection>,
    pub spawn_flags: u32,
    pub flags: u32,
    pub body: Body,
    pub look: Look,
    pub vitals: Vitals,
    pub place: Place,
    pub drive: Drive,
    pub agenda: Agenda,
}

/// [`Connection`], over mathematical texts.
pub struct ConnectionView {
    pub output: Seq<char>,
    pub delay: Scalar,
}

/// [`EntityCore`], over mathematical texts and lists.
pub struct CoreView {
    pub id: EntityId,
    pub classname: Seq<char>,
    pub name: Option<Seq<char>>,
    pub model: Option<Seq<char>>,
    pub target: Option<Seq<char>>,
    pub damage_filter_name: Option<Seq<char>>,
    pub children: Seq<EntityId>,
    pub touch_links: Seq<EntityId>,
    pub connections: Seq<ConnectionView>,
    pub spawn_flags: u32,
    pub flags: u32,
    pub body: Body,
    pub look: Look,
    pub vitals: Vitals,
    pub place: Place,
    pub drive: Drive,
    pub agenda: Agenda,
}

/// A text that may be missing, as a mathematical one.
pub open spec fn text_of(s: Option<String>) -> Option<Seq<char>> {
    match s {
        Some(t) => Some(t@),
        None => None,
    }
}

impl View for Connection {
    type V = ConnectionView;

    open spec fn view(&self) -> ConnectionView {
        ConnectionView { output: self.output@, delay: self.delay }
    }
}

impl View for EntityCore {
    type V = CoreView;

    open spec fn view(&self) -> CoreView {
        CoreView {
            id: self.id,
            classname: self.classname@,
            name: text_of(self.name),
            model: text_of(self.model),
            target: text_of(self.target),
            damage_filter_name: text_of(self.damage_filter_name),
            children: self.children@,
            touch_links: self.touch_links@,
            connections: self.connections@.map_values(|c: Connection| c@),
            spawn_flags: self.spawn_flags,
            flags: self.flags,
            body: self.body,
            look: self.look,
            vitals: self.vitals,
            place: self.place,
            drive: self.drive,
            agenda: self.agenda,
        }
    }
}

/// The connections among the first `n` that hang on an output.
pub open spec fn connected(connections: Seq<ConnectionView>, output: Seq<char>, n: int) -> int
    decreases n,
{
    if n <= 0 {
        0
    } else if same_name(connections[n - 1].output, output) {
        connected(connections, output, n - 1) + 1
    } else {
        connected(connections, output, n - 1)
    }
}

/// The largest delay among the first `n` connections that hang on an output;
/// zero where none does or none is delayed.
pub open spec fn longest_delay(connections: Seq<ConnectionView>, output: Seq<char>, n: int) -> Scalar
    decreases n,
{
    if n <= 0 {
        num(ZERO)
    } else {
        let before = longest_delay(connections, output, n - 1);
        if same_name(connections[n - 1].output, output) && before.less(connections[n - 1].delay) {
            connections[n - 1].delay
        } else {
            before
        }
    }
}

impl CoreView {
    /// Whether any of these spawn flags is set.
    pub open spec fn spawned_with(self, flags: u32) -> bool {
        self.spawn_flags & flags != 0
    }

    /// Whether any of these flags is set.
    pub open spec fn flagged(self, flags: u32) -> bool {
        self.flags & flags != 0
    }

    pub open spec fn with_body(self, body: Body) -> CoreView {
        CoreView { body, ..self }
    }

    pub open spec fn with_look(self, look: Look) -> CoreView {
        CoreView { look, ..self }
    }

    pub open spec fn with_vitals(self, vitals: Vitals) -> CoreView {
        CoreView { vitals, ..self }
    }

    pub open spec fn with_place(self, place: Place) -> CoreView {
        CoreView { place, ..self }
    }

    pub open spec fn with_drive(self, drive: Drive) -> CoreView {
        CoreView { drive, ..self }
    }

    pub open spec fn with_agenda(self, agenda: Agenda) -> CoreView {
        CoreView { agenda, ..self }
    }

    pub open spec fn adding_solid_flags(self, flags: u32) -> CoreView {
        self.with_body(Body { solid_flags: self.body.solid_flags | flags, ..self.body })
    }

    pub open spec fn removing_solid_flags(self, flags: u32) -> CoreView {
        self.with_body(Body { solid_flags: self.body.solid_flags & !flags, ..self.body })
    }

    pub open spec fn child_of(self, parent: Option<EntityId>, attachment: Option<usize>) -> CoreView {
        self.with_place(Place { parent, attachment, ..self.place })
    }

    /// How many connections hang on an output.
    pub open spec fn connections_on(self, output: Seq<char>) -> int {
        connected(self.connections, output, self.connections.len() as int)
    }

    pub open spec fn longest_delay_on(self, output: Seq<char>) -> Scalar {
        longest_delay(self.connections, output, self.connections.len() as int)
    }

    /// It has asked to be removed.
    pub open spec fn gone(self) -> CoreView {
        self.with_agenda(Agenda { removed: true, ..self.agenda })
    }

    pub open spec fn scheduled(self, schedule: Schedule) -> CoreView {
        self.with_agenda(Agenda { schedule, ..self.agenda })
    }

    pub open spec fn alarmed(self, alarm: Alarm) -> CoreView {
        self.with_agenda(Agenda { alarm, ..self.agenda })
    }

    /// Put somewhere, as its parent sees it. Without a parent that is where it
    /// is.
    pub open spec fn local_origin_at(self, to: Vector) -> CoreView {
        self.with_place(
            Place {
                local_origin: to,
                origin: if self.place.parent is None { to } else { self.place.origin },
                ..self.place
            },
        )
    }

    pub open spec fn local_angles_at(self, to: Vector) -> CoreView {
        self.with_place(
            Place {
                local_angles: to,
                angles: if self.place.parent is None { to } else { self.place.angles },
                ..self.place
            },
        )
    }

    /// Turned, as the world sees it. Without a parent that is how it sees
    /// itself too.
    pub open spec fn abs_angles_at(self, to: Vector) -> CoreView {
        self.with_place(
            Place {
                angles: to,
                local_angles: if self.place.parent is None { to } else { self.place.local_angles },
                ..self.place
            },
        )
    }

    pub open spec fn abs_origin_at(self, to: Vector) -> CoreView {
        self.with_place(
            Place {
                origin: to,
                local_origin: if self.place.parent is None { to } else { self.place.local_origin },
                ..self.place
            },
        )
    }

    pub open spec fn collides(self) -> bool {
        self.body.solid != Solid::Nothing && self.body.solid_flags & FSOLID_NOT_SOLID == 0
    }

    pub open spec fn alive(self) -> bool {
        self.vitals.life_state == LifeState::Alive
    }
}

impl EntityCore {
    /// A fresh entity of a class, before any key has been read.
    pub fn new(classname: &'static str) -> (r: EntityCore)
        ensures
            r@ == fresh(classname@),
    {
        let r = EntityCore {
            id: EntityId { slot: 0, serial: 0 },
            classname,
            name: None,
            model: None,
            target: None,
            damage_filter_name: None,
            children: Vec::new(),
            touch_links: Vec::new(),
            connections: Vec::new(),
            spawn_flags: 0,
            flags: 0,
            body: Body {
                solid: Solid::Nothing,
                solid_flags: 0,
                move_type: MoveType::Still,
                collision_group: CollisionGroup::Everything,
                bounds: ModelBounds { mins: origin(), maxs: origin() },
            },
            look: Look { effects: 0, color: Rgba { r: 255, g: 255, b: 255, a: 255 }, render_mode: 0 },
            vitals: Vitals {
                health: 0,
                max_health: 0,
                take_damage: DamageMode::No,
                life_state: LifeState::Alive,
                accumulator: num(ZERO),
                damage_filter: None,
            },
            place: Place {
                parent: None,
                attachment: None,
                origin: origin(),
                angles: origin(),
                local_origin: origin(),
                local_angles: origin(),
            },
            drive: Drive {
                speed: num(ZERO),
                velocity: origin(),
                base_velocity: origin(),
                angular_velocity: Spin { axis: origin(), speed: num(ZERO) },
            },
            agenda: Agenda {
                next_think: num(MINUS_ONE),
                schedule: Schedule::Keep,
                alarm: Alarm::Keep,
                motion: Motion::Keep,
                removed: false,
            },
        };
        assert(r@.children =~= Seq::empty());
        assert(r@.touch_links =~= Seq::empty());
        assert(r@.connections =~= Seq::empty());
        r
    }

    pub fn id(&self) -> (r: EntityId)
        ensures
            r == self@.id,
    {
        self.id
    }

    pub fn classname(&self) -> (r: &'static str)
        ensures
            r@ == self@.classname,
    {
        self.classname
    }

    pub fn parent(&self) -> (r: Option<EntityId>)
        ensures
            r == self@.place.parent,
    {
        self.place.parent
    }

    /// What hangs off this entity.
    pub fn children(&self) -> (r: &Vec<EntityId>)
        ensures
            r@ == self@.children,
    {
        &self.children
    }

    /// Whether any of these spawn flags is set.
    pub fn has_spawn_flags(&self, flags: u32) -> (r: bool)
        ensures
            r == self@.spawned_with(flags),
    {
        self.spawn_flags & flags != 0
    }

    /// Whether any of these flags is set.
    pub fn has_flags(&self, flags: u32) -> (r: bool)
        ensures
            r == self@.flagged(flags),
    {
        self.flags & flags != 0
    }

    pub fn add_solid_flags(&mut self, flags: u32)
        ensures
            final(self)@ == old(self)@.adding_solid_flags(flags),
    {
        self.body.solid_flags = self.body.solid_flags | flags;
    }

    pub fn remove_solid_flags(&mut self, flags: u32)
        ensures
            final(self)@ == old(self)@.removing_solid_flags(flags),
    {
        self.body.solid_flags = self.body.solid_flags & !flags;
    }

    pub fn is_solid_flag_set(&self, flag: u32) -> (r: bool)
        ensures
            r == (self@.body.solid_flags & flag != 0),
    {
        self.body.solid_flags & flag != 0
    }

    /// Whether anything can bump into it.
    pub fn is_solid(&self) -> (r: bool)
        ensures
            r == self@.collides(),
    {
        self.body.solid != Solid::Nothing && self.body.solid_flags & FSOLID_NOT_SOLID == 0
    }

    pub fn is_alive(&self) -> (r: bool)
        ensures
            r == self@.alive(),
    {
        self.vitals.life_state == LifeState::Alive
    }

    /// Asks to be removed.
    pub fn remove(&mut self)
        ensures
            final(self)@ == old(self)@.gone(),
    {
        self.agenda.removed = true;
    }

    /// Asks for the next think.
    pub fn set_next_think(&mut self, schedule: Schedule)
        ensures
            final(self)@ == old(self)@.scheduled(schedule),
    {
        self.agenda.schedule = schedule;
    }

    /// When it thinks next, as of the start of this call.
    pub fn next_think(&self) -> (r: Scalar)
        ensures
            r == self@.agenda.next_think,
    {
        self.agenda.next_think
    }

    /// Sets the alarm that ends a move.
    pub fn set_move_done_time(&mut self, delay: Scalar)
        ensures
            final(self)@ == old(self)@.alarmed(Alarm::After(delay)),
    {
        self.agenda.alarm = Alarm::After(delay);
    }

    pub fn set_local_origin(&mut self, to: Vector)
        ensures
            final(self)@ == old(self)@.local_origin_at(to),
    {
        self.place.local_origin = to;
        if self.place.parent.is_none() {
            self.place.origin = to;
        }
    }

    pub fn set_local_angles(&mut self, angles: Vector)
        ensures
            final(self)@ == old(self)@.local_angles_at(angles),
    {
        self.place.local_angles = angles;
        if self.place.parent.is_none() {
            self.place.angles = angles;
        }
    }

    pub fn set_abs_angles(&mut self, angles: Vector)
        ensures
            final(self)@ == old(self)@.abs_angles_at(angles),
    {
        self.place.angles = angles;
        if self.place.parent.is_none() {
            self.place.local_angles = angles;
        }
    }

    /// Puts it somewhere, as the world sees it.
    pub fn set_abs_origin(&mut self, to: Vector)
        ensures
            final(self)@ == old(self)@.abs_origin_at(to),
    {
        self.place.origin = to;
        if self.place.parent.is_none() {
            self.place.local_origin = to;
        }
    }

    /// Puts it somewhere and turns it, as the world sees it.
    pub fn set_abs_placement(&mut self, to: Vector, angles: Vector)
        ensures
            final(self)@ == old(self)@.abs_origin_at(to).abs_angles_at(angles),
    {
        self.set_abs_origin(to);
        self.set_abs_angles(angles);
    }

    /// How many connections hang on an output.
    pub fn output_count(&self, output: &str) -> (r: usize)
        ensures
            r == self@.connections_on(output@),
    {
        let mut i: usize = 0;
        let mut count: usize = 0;
        while i < self.connections.len()
            invariant
                count <= i <= self.connections.len(),
                count == connected(self@.connections, output@, i as int),
            decreases self.connections.len() - i,
        {
            assert(self@.connections[i as int] == self.connections@[i as int]@);
            if self.connections[i].output.as_str().eq_ignore_ascii_case(output) {
                count = count + 1;
            }
            i = i + 1;
        }
        count
    }

    /// The longest delay of any connection on an output.
    pub fn max_output_delay(&self, output: &str) -> (r: Scalar)
        ensures
            r == self@.longest_delay_on(output@),
    {
        let mut i: usize = 0;
        let mut longest: Scalar = num(ZERO);
        while i < self.connections.len()
            invariant
                i <= self.connections.len(),
                longest == longest_delay(self@.connections, output@, i as int),
            decreases self.connections.len() - i,
        {
            assert(self@.connections[i as int] == self.connections@[i as int]@);
            if self.connections[i].output.as_str().eq_ignore_ascii_case(output) && longest.lt(
                self.connections[i].delay,
            ) {
                longest = self.connections[i].delay;
            }
            i = i + 1;
        }
        longest
    }

    /// Sets off one of this entity's outputs.
    pub fn fire_output(
        &self,
        output: &'static str,
        value: Variant,
        activator: Option<EntityId>,
        caller: Option<EntityId>,
        delay: Scalar,
        cx: &mut Context,
    )
        ensures
            final(cx)@ == old(cx)@.fired(self@.id, output@, value, activator, caller, delay),
    {
        cx.post(Posted::Output { source: self.id, output, value, activator, caller, delay });
    }

    /// Sends an input to itself.
    pub fn post_to_self(&self, input: &'static str, delay: Scalar, cx: &mut Context)
        ensures
            final(cx)@ == old(cx)@.sent(
                self@.id,
                input@,
                Variant::Void,
                delay,
                Some(self@.id),
                Some(self@.id),
            ),
    {
        cx.post_entity(self.id, input, Variant::Void, delay, Some(self.id), Some(self.id));
    }

    /// Calls off everything it has sent and that has not arrived.
    pub fn cancel_pending(&self, cx: &mut Context)
        ensures
            final(cx)@ == old(cx)@.posting(PostedView::CancelFrom(self@.id)),
    {
        cx.cancel_from(self.id);
    }
}

/// A fresh entity of a class, before any key has been read.
pub open spec fn fresh(classname: Seq<char>) -> CoreView {
    CoreView {
        id: EntityId { slot: 0, serial: 0 },
        classname,
        name: None,
        model: None,
        target: None,
        damage_filter_name: None,
        children: Seq::empty(),
        touch_links: Seq::empty(),
        connections: Seq::empty(),
        spawn_flags: 0,
        flags: 0,
        body: Body {
            solid: Solid::Nothing,
            solid_flags: 0,
            move_type: MoveType::Still,
            collision_group: CollisionGroup::Everything,
            bounds: ModelBounds { mins: origin(), maxs: origin() },
        },
        look: Look { effects: 0, color: Rgba { r: 255, g: 255, b: 255, a: 255 }, render_mode: 0 },
        vitals: Vitals {
            health: 0,
            max_health: 0,
            take_damage: DamageMode::No,
            life_state: LifeState::Alive,
            accumulator: num(ZERO),
            damage_filter: None,
        },
        place: Place {
            parent: None,
            attachment: None,
            origin: origin(),
            angles: origin(),
            local_origin: origin(),
            local_angles: origin(),
        },
        drive: Drive {
            speed: num(ZERO),
            velocity: origin(),
            base_velocity: origin(),
            angular_velocity: Spin { axis: origin(), speed: num(ZERO) },
        },
        agenda: Agenda {
            next_think: num(MINUS_ONE),
            schedule: Schedule::Keep,
            alarm: Alarm::Keep,
            motion: Motion::Keep,
            removed: false,
        },
    }
}

} // verus!
