//! Triggers: what notices that something has come to stand in it.
use vstd::prelude::*;

use crate::classes::filter::{filter_named, passes_at};
use crate::context::{Context, ContextView};
use crate::entity::{
    text_of, Body, CoreView, EntityCore, EntityId, Look, MoveType, Solid, EF_NODRAW, FL_CLIENT, FL_NPC,
    FSOLID_NOT_SOLID, FSOLID_TRIGGER, FSOLID_TRIGGER_TOUCH_DEBRIS,
};
use crate::io::{Input, Variant};
use crate::list::contains_id;
use crate::scalar::{num, ZERO};
use crate::step::{answered, step, Step};
use crate::text::{atoi, integer_of, same_name};

verus! {

// ---------------------------------------------------------------------------
// Spawn flags
// ---------------------------------------------------------------------------

/// Players can set it off.
pub const SF_TRIGGER_ALLOW_CLIENTS: u32 = 0x1;

pub const SF_TRIGGER_ALLOW_NPCS: u32 = 0x2;

pub const SF_TRIGGER_ALLOW_PUSHABLES: u32 = 0x4;

/// Physics objects can set it off.
pub const SF_TRIGGER_ALLOW_PHYSICS: u32 = 0x8;

pub const SF_TRIGGER_ONLY_PLAYER_ALLY_NPCS: u32 = 0x10;

/// Of players, only those in a vehicle. There are no vehicles, so it refuses
/// every player.
pub const SF_TRIGGER_ONLY_CLIENTS_IN_VEHICLES: u32 = 0x20;

pub const SF_TRIGGER_ALLOW_ALL: u32 = 0x40;

/// It pushes once and goes.
pub const SF_TRIG_PUSH_ONCE: u32 = 0x80;

/// Of players, only those out of a vehicle, which is everybody.
pub const SF_TRIGGER_ONLY_CLIENTS_OUT_OF_VEHICLES: u32 = 0x200;

pub const SF_TRIG_TOUCH_DEBRIS: u32 = 0x400;

pub const SF_TRIGGER_ONLY_NPCS_IN_VEHICLES: u32 = 0x800;

/// Asking for some of the characters allows the characters.
pub const CHARACTER_LIMITS: u32 = 0x810;

/// Asking for some of the players allows the players.
pub const PLAYER_LIMITS: u32 = 0x220;

// ---------------------------------------------------------------------------
// The common half
// ---------------------------------------------------------------------------

/// The common half of a trigger.
#[derive(Debug)]
pub struct BaseTrigger {
    /// Switched off. Toggling leaves it as it is.
    pub disabled: bool,
    pub filter_name: Option<String>,
    pub filter: Option<EntityId>,
    /// What stands in it and passed its filters.
    pub touching: Vec<EntityId>,
}

pub struct BaseTriggerView {
    pub disabled: bool,
    pub filter_name: Option<Seq<char>>,
    pub filter: Option<EntityId>,
    pub touching: Seq<EntityId>,
}

impl View for BaseTrigger {
    type V = BaseTriggerView;

    open spec fn view(&self) -> BaseTriggerView {
        BaseTriggerView {
            disabled: self.disabled,
            filter_name: text_of(self.filter_name),
            filter: self.filter,
            touching: self.touching@,
        }
    }
}

/// Whether one entity is of a kind that another, by its spawn flags, lets set
/// it off.
pub open spec fn admits(trigger: CoreView, other: CoreView) -> bool {
    &&& trigger.spawned_with(SF_TRIGGER_ALLOW_ALL) || (trigger.spawned_with(SF_TRIGGER_ALLOW_CLIENTS)
        && other.flagged(FL_CLIENT)) || (trigger.spawned_with(SF_TRIGGER_ALLOW_NPCS) && other.flagged(FL_NPC))
        || (trigger.spawned_with(SF_TRIGGER_ALLOW_PUSHABLES) && same_name(other.classname, "func_pushable"@))
    &&& !(trigger.spawned_with(SF_TRIGGER_ONLY_CLIENTS_IN_VEHICLES) && other.flagged(FL_CLIENT))
}

/// The first place of a handle in a list, from place `i` on.
pub open spec fn place_of(ids: Seq<EntityId>, id: EntityId, i: int) -> Option<int>
    decreases ids.len() - i,
{
    if 0 <= i < ids.len() {
        if ids[i] == id { Some(i) } else { place_of(ids, id, i + 1) }
    } else {
        None
    }
}

/// Those of the first `n` handles that resolve.
pub open spec fn resolving(cx: ContextView, ids: Seq<EntityId>, n: int) -> Seq<EntityId>
    decreases n,
{
    if n <= 0 {
        Seq::empty()
    } else if cx.holds(ids[n - 1]) {
        resolving(cx, ids, n - 1).push(ids[n - 1])
    } else {
        resolving(cx, ids, n - 1)
    }
}

impl BaseTriggerView {
    pub open spec fn fresh() -> BaseTriggerView {
        BaseTriggerView { disabled: false, filter_name: None, filter: None, touching: Seq::empty() }
    }

    pub open spec fn keyed(self, key: Seq<char>, value: Seq<char>) -> Option<BaseTriggerView> {
        if same_name(key, "StartDisabled"@) {
            Some(BaseTriggerView { disabled: integer_of(value) != 0, ..self })
        } else if same_name(key, "filtername"@) {
            Some(BaseTriggerView { filter_name: Some(value), ..self })
        } else {
            None
        }
    }

    /// The filter found by its name.
    pub open spec fn activated(self, cx: ContextView) -> BaseTriggerView {
        match self.filter_name {
            Some(name) => BaseTriggerView { filter: filter_named(cx.entities, name), ..self },
            None => self,
        }
    }

    /// Whether an entity may set the trigger off: by its kind, and by the
    /// filter.
    pub open spec fn lets_in(self, core: CoreView, other: EntityId, cx: ContextView) -> bool {
        match cx.at(other) {
            Some(e) => admits(core, e.core) && match self.filter {
                Some(filter) => passes_at(cx.entities, filter, e.core, 0),
                None => true,
            },
            None => false,
        }
    }
}

/// A trigger's entity once it has spawned: a limit on a kind allows the kind.
pub open spec fn trigger_flags(core: CoreView) -> CoreView {
    let with_npcs = if core.spawned_with(CHARACTER_LIMITS) {
        CoreView { spawn_flags: core.spawn_flags | SF_TRIGGER_ALLOW_NPCS, ..core }
    } else {
        core
    };
    if with_npcs.spawned_with(PLAYER_LIMITS) {
        CoreView { spawn_flags: with_npcs.spawn_flags | SF_TRIGGER_ALLOW_CLIENTS, ..with_npcs }
    } else {
        with_npcs
    }
}

/// A trigger's entity as the touch pass is to find it: swept against its own
/// brushes, stopping nobody, not drawn, and looked at unless it is disabled.
pub open spec fn trigger_body(core: CoreView, disabled: bool) -> CoreView {
    let open = core.body.solid_flags | FSOLID_NOT_SOLID;
    let watched = if disabled { open & !FSOLID_TRIGGER } else { open | FSOLID_TRIGGER };
    CoreView {
        body: Body {
            solid: if core.place.parent is Some { Solid::VPhysics } else { Solid::Bsp },
            solid_flags: if core.spawned_with(SF_TRIG_TOUCH_DEBRIS) {
                watched | FSOLID_TRIGGER_TOUCH_DEBRIS
            } else {
                watched
            },
            move_type: MoveType::Still,
            ..core.body
        },
        look: Look { effects: core.look.effects | EF_NODRAW, ..core.look },
        ..core
    }
}

impl Step<BaseTriggerView> {
    /// Somebody came to stand in it, and passed or did not. The first to stand
    /// in it sets off a second output.
    pub open spec fn entered(self, passed: bool, other: EntityId) -> Step<BaseTriggerView> {
        if !passed {
            self
        } else {
            let added = !self.me.touching.contains(other);
            let touching = if added { self.me.touching.push(other) } else { self.me.touching };
            let started = self.with(BaseTriggerView { touching, ..self.me }).fire(
                "OnStartTouch"@,
                Variant::Void,
                Some(other),
            );
            if added && touching.len() == 1 {
                started.fire("OnStartTouchAll"@, Variant::Void, Some(other))
            } else {
                started
            }
        }
    }

    /// Somebody who stood in it left. The last to leave sets off a second
    /// output. Neither the filters nor being disabled count.
    pub open spec fn left(self, other: EntityId) -> Step<BaseTriggerView> {
        match place_of(self.me.touching, other, 0) {
            Some(i) => {
                let rest = self.me.touching.remove(i);
                let touching = resolving(self.cx, rest, rest.len() as int);
                let ended = self.with(BaseTriggerView { touching, ..self.me }).fire(
                    "OnEndTouch"@,
                    Variant::Void,
                    Some(other),
                );
                if touching.len() == 0 {
                    ended.fire("OnEndTouchAll"@, Variant::Void, Some(other))
                } else {
                    ended
                }
            },
            None => self,
        }
    }

    /// Whether somebody leaving leaves it empty.
    pub open spec fn empties(self, other: EntityId) -> bool {
        place_of(self.me.touching, other, 0) is Some && self.left(other).me.touching.len() == 0
    }

    pub open spec fn tested(self) -> Step<BaseTriggerView> {
        if self.me.disabled {
            self
        } else if self.me.touching.len() > 0 {
            self.fire("OnTouching"@, Variant::Void, None)
        } else {
            self.fire("OnNotTouching"@, Variant::Void, None)
        }
    }

    #[verifier::opaque]
    pub open spec fn base_trigger_input(self, input: Input) -> Option<Step<BaseTriggerView>> {
        let name = input.name@;
        if same_name(name, "Enable"@) {
            Some(
                self.with(BaseTriggerView { disabled: false, ..self.me }).with_core(
                    self.core.adding_solid_flags(FSOLID_TRIGGER),
                ),
            )
        } else if same_name(name, "Disable"@) {
            Some(
                self.with(BaseTriggerView { disabled: true, ..self.me }).with_core(
                    self.core.removing_solid_flags(FSOLID_TRIGGER),
                ),
            )
        } else if same_name(name, "Toggle"@) {
            Some(
                self.with_core(
                    if self.core.body.solid_flags & FSOLID_TRIGGER != 0 {
                        self.core.removing_solid_flags(FSOLID_TRIGGER)
                    } else {
                        self.core.adding_solid_flags(FSOLID_TRIGGER)
                    },
                ),
            )
        } else if same_name(name, "TouchTest"@) {
            Some(self.tested())
        } else if same_name(name, "StartTouch"@) {
            Some(
                match input.caller {
                    Some(caller) => self.entered(self.me.lets_in(self.core, caller, self.cx), caller),
                    None => self,
                },
            )
        } else if same_name(name, "EndTouch"@) {
            Some(
                match input.caller {
                    Some(caller) => self.left(caller),
                    None => self,
                },
            )
        } else {
            None
        }
    }
}

/// What came of somebody's coming to stand in a trigger.
#[derive(Debug, Clone, Copy, PartialEq, Eq, Structural)]
pub struct Touched {
    /// Whether they passed the filters.
    pub passed: bool,
    /// Whether they are the first to stand in it.
    pub all: bool,
}

impl BaseTrigger {
    pub fn new() -> (r: BaseTrigger)
        ensures
            r@ == BaseTriggerView::fresh(),
    {
        let r = BaseTrigger { disabled: false, filter_name: None, filter: None, touching: Vec::new() };
        assert(r@.touching =~= Seq::empty());
        r
    }

    pub fn key_value(&mut self, key: &str, value: &str) -> (r: bool)
        ensures
            r == old(self)@.keyed(key@, value@) is Some,
            final(self)@ == old(self)@.keyed(key@, value@).unwrap_or(old(self)@),
    {
        if key.eq_ignore_ascii_case("StartDisabled") {
            self.disabled = atoi(value) != 0;
            return true;
        }
        if key.eq_ignore_ascii_case("filtername") {
            self.filter_name = Some(value.to_owned());
            return true;
        }
        false
    }

    /// A limit on a kind allows the kind.
    pub fn spawn(&mut self, entity: &mut EntityCore)
        ensures
            final(self)@ == old(self)@,
            final(entity)@ == trigger_flags(old(entity)@),
    {
        if entity.has_spawn_flags(CHARACTER_LIMITS) {
            entity.spawn_flags = entity.spawn_flags | SF_TRIGGER_ALLOW_NPCS;
        }
        if entity.has_spawn_flags(PLAYER_LIMITS) {
            entity.spawn_flags = entity.spawn_flags | SF_TRIGGER_ALLOW_CLIENTS;
        }
    }

    /// Makes a brush entity a trigger.
    pub fn init_trigger(&mut self, entity: &mut EntityCore)
        ensures
            final(self)@ == (BaseTriggerView { touching: Seq::empty(), ..old(self)@ }),
            final(entity)@ == trigger_body(old(entity)@, old(self)@.disabled),
    {
        entity.body.solid = if entity.place.parent.is_some() {
            Solid::VPhysics
        } else {
            Solid::Bsp
        };
        entity.add_solid_flags(FSOLID_NOT_SOLID);
        if self.disabled {
            entity.remove_solid_flags(FSOLID_TRIGGER);
        } else {
            entity.add_solid_flags(FSOLID_TRIGGER);
        }
        entity.body.move_type = MoveType::Still;
        entity.look.effects = entity.look.effects | EF_NODRAW;
        self.touching.clear();
        if entity.has_spawn_flags(SF_TRIG_TOUCH_DEBRIS) {
            entity.add_solid_flags(FSOLID_TRIGGER_TOUCH_DEBRIS);
        }
        assert(self@.touching =~= Seq::empty());
    }

    /// Finds its filter by name.
    pub fn activate(&mut self, cx: &Context)
        ensures
            final(self)@ == old(self)@.activated(cx@),
    {
        match &self.filter_name {
            Some(name) => {
                self.filter = cx.filters().find(name.as_str());
            }
            None => {}
        }
    }

    /// Whether an entity may set the trigger off.
    pub fn passes_trigger_filters(&self, entity: &EntityCore, other: EntityId, cx: &Context) -> (r: bool)
        ensures
            r == self@.lets_in(entity@, other, cx@),
    {
        match cx.entity(other) {
            Some(e) => {
                let other_core = &e.core;
                let allowed = entity.has_spawn_flags(SF_TRIGGER_ALLOW_ALL) || (entity.has_spawn_flags(
                    SF_TRIGGER_ALLOW_CLIENTS,
                ) && other_core.has_flags(FL_CLIENT)) || (entity.has_spawn_flags(SF_TRIGGER_ALLOW_NPCS)
                    && other_core.has_flags(FL_NPC)) || (entity.has_spawn_flags(SF_TRIGGER_ALLOW_PUSHABLES)
                    && other_core.classname.eq_ignore_ascii_case("func_pushable"));
                if !allowed {
                    return false;
                }
                if entity.has_spawn_flags(SF_TRIGGER_ONLY_CLIENTS_IN_VEHICLES) && other_core.has_flags(FL_CLIENT) {
                    return false;
                }
                match self.filter {
                    Some(filter) => cx.filters().passes(filter, other_core),
                    None => true,
                }
            },
            None => false,
        }
    }

    /// Somebody came to stand in it. Whether they passed its filters.
    pub fn start_touch(&mut self, entity: &EntityCore, other: EntityId, cx: &mut Context) -> (r: bool)
        ensures
            r == old(self)@.lets_in(entity@, other, old(cx)@),
            step(final(self)@, entity@, final(cx)@) == step(old(self)@, entity@, old(cx)@).entered(r, other),
    {
        let passed = self.passes_trigger_filters(entity, other, cx);
        self.start_touch_passing(passed, entity, other, cx);
        passed
    }

    /// Somebody came to stand in it, and passed its filters or did not.
    pub fn start_touch_passing(&mut self, passed: bool, entity: &EntityCore, other: EntityId, cx: &mut Context) -> (r: Touched)
        ensures
            r.passed == passed,
            r.all == (passed && old(self)@.touching.len() == 0),
            step(final(self)@, entity@, final(cx)@) == step(old(self)@, entity@, old(cx)@).entered(passed, other),
    {
        if !passed {
            return Touched { passed: false, all: false };
        }
        let added = !contains_id(&self.touching, other);
        if added {
            self.touching.push(other);
        }
        let me = Some(entity.id());
        entity.fire_output("OnStartTouch", Variant::Void, Some(other), me, num(ZERO), cx);
        let all = added && self.touching.len() == 1;
        if all {
            entity.fire_output("OnStartTouchAll", Variant::Void, Some(other), me, num(ZERO), cx);
        }
        Touched { passed: true, all }
    }

    /// Somebody left. Whether that left it empty.
    pub fn end_touch(&mut self, entity: &EntityCore, other: EntityId, cx: &mut Context) -> (r: bool)
        ensures
            r == step(old(self)@, entity@, old(cx)@).empties(other),
            step(final(self)@, entity@, final(cx)@) == step(old(self)@, entity@, old(cx)@).left(other),
    {
        let mut i: usize = 0;
        while i < self.touching.len() && self.touching[i] != other
            invariant
                i <= self.touching.len(),
                *self == *old(self),
                place_of(self.touching@, other, 0) == place_of(self.touching@, other, i as int),
            decreases self.touching.len() - i,
        {
            i = i + 1;
        }
        if i == self.touching.len() {
            return false;
        }
        self.touching.remove(i);
        let me = Some(entity.id());
        let ghost rest = self.touching@;
        let ghost before = cx@;
        let mut kept: Vec<EntityId> = Vec::new();
        let mut k: usize = 0;
        while k < self.touching.len()
            invariant
                k <= self.touching.len(),
                self.touching@ == rest,
                cx@ == before,
                kept@ == resolving(before, rest, k as int),
            decreases self.touching.len() - k,
        {
            if cx.entity(self.touching[k]).is_some() {
                kept.push(self.touching[k]);
            }
            k = k + 1;
        }
        self.touching = kept;
        entity.fire_output("OnEndTouch", Variant::Void, Some(other), me, num(ZERO), cx);
        let empty = self.touching.len() == 0;
        if empty {
            entity.fire_output("OnEndTouchAll", Variant::Void, Some(other), me, num(ZERO), cx);
        }
        empty
    }

    /// Tells whether anybody stands in it, unless it is disabled.
    pub fn touch_test(&self, entity: &EntityCore, cx: &mut Context)
        ensures
            step(self@, entity@, final(cx)@) == step(self@, entity@, old(cx)@).tested(),
    {
        if self.disabled {
            return;
        }
        let output = if self.touching.len() > 0 {
            "OnTouching"
        } else {
            "OnNotTouching"
        };
        entity.fire_output(output, Variant::Void, None, Some(entity.id()), num(ZERO), cx);
    }

    pub fn accept_input(&mut self, entity: &mut EntityCore, input: &Input<'_>, cx: &mut Context) -> (r: bool)
        ensures
            answered(
                step(old(self)@, old(entity)@, old(cx)@).base_trigger_input(*input),
                step(old(self)@, old(entity)@, old(cx)@),
                r,
                step(final(self)@, final(entity)@, final(cx)@),
            ),
    {
        reveal(Step::<_>::base_trigger_input);
        let name = input.name;
        if name.eq_ignore_ascii_case("Enable") {
            self.disabled = false;
            entity.add_solid_flags(FSOLID_TRIGGER);
            return true;
        }
        if name.eq_ignore_ascii_case("Disable") {
            self.disabled = true;
            entity.remove_solid_flags(FSOLID_TRIGGER);
            return true;
        }
        if name.eq_ignore_ascii_case("Toggle") {
            if entity.is_solid_flag_set(FSOLID_TRIGGER) {
                entity.remove_solid_flags(FSOLID_TRIGGER);
            } else {
                entity.add_solid_flags(FSOLID_TRIGGER);
            }
            return true;
        }
        if name.eq_ignore_ascii_case("TouchTest") {
            self.touch_test(entity, cx);
            return true;
        }
        if name.eq_ignore_ascii_case("StartTouch") {
            match input.caller {
                Some(caller) => {
                    self.start_touch(entity, caller, cx);
                }
                None => {}
            }
            return true;
        }
        if name.eq_ignore_ascii_case("EndTouch") {
            match input.caller {
                Some(caller) => {
                    self.end_touch(entity, caller, cx);
                }
                None => {}
            }
            return true;
        }
        false
    }
}

} // verus!
