//! Brushes that appear and vanish, and the portals between areas.
use vstd::prelude::*;

use crate::class::SpawnResult;
use crate::entity::{Body, CoreView, EntityCore, Look, MoveType, Solid, EF_NODRAW, FSOLID_NOT_SOLID};
use crate::io::{Input, Value};
use crate::text::{atoi, integer_of, same_name};

verus! {

// ---------------------------------------------------------------------------
// func_brush
// ---------------------------------------------------------------------------

/// The brush is never solid.
pub const BRUSHSOLID_NEVER: i32 = 1;

/// The brush is solid even while it is off.
pub const BRUSHSOLID_ALWAYS: i32 = 2;

/// A brush that can be switched on and off.
#[derive(Debug)]
pub struct Brush {
    pub disabled: bool,
    pub solidity: i32,
    pub solid_bsp: bool,
    pub excluded_class: Option<String>,
    pub invert_exclusion: bool,
}

impl CoreView {
    /// Whether it is drawn.
    pub open spec fn drawn(self) -> bool {
        self.look.effects & EF_NODRAW == 0
    }

    pub open spec fn hidden(self) -> CoreView {
        self.with_look(Look { effects: self.look.effects | EF_NODRAW, ..self.look })
    }

    pub open spec fn shown(self) -> CoreView {
        self.with_look(Look { effects: self.look.effects & !EF_NODRAW, ..self.look })
    }
}

/// A brush and its entity.
pub struct Switch {
    pub me: Brush,
    pub core: CoreView,
}

impl Brush {
    pub open spec fn fresh() -> Brush {
        Brush { disabled: false, solidity: 0, solid_bsp: false, excluded_class: None, invert_exclusion: false }
    }

    #[verifier::opaque]
    pub open spec fn keyed(self, key: Seq<char>, value: Value) -> Option<Brush> {
        let flag = integer_of(value.text@) != 0;
        if same_name(key, "StartDisabled"@) {
            Some(Brush { disabled: flag, ..self })
        } else if same_name(key, "Solidity"@) {
            Some(Brush { solidity: integer_of(value.text@) as i32, ..self })
        } else if same_name(key, "solidbsp"@) {
            Some(Brush { solid_bsp: flag, ..self })
        } else if same_name(key, "excludednpc"@) {
            Some(Brush { excluded_class: Some(value.text), ..self })
        } else if same_name(key, "invert_exclusion"@) {
            Some(Brush { invert_exclusion: flag, ..self })
        } else {
            None
        }
    }
}

impl Switch {
    /// Off: not drawn, and not solid unless it always is. A brush that is off
    /// stays as it is.
    pub open spec fn off(self) -> Switch {
        if !self.core.drawn() {
            self
        } else {
            Switch {
                me: Brush { disabled: true, ..self.me },
                core: if self.me.solidity == BRUSHSOLID_ALWAYS {
                    self.core.hidden()
                } else {
                    self.core.adding_solid_flags(FSOLID_NOT_SOLID).hidden()
                },
            }
        }
    }

    /// On: drawn, and solid unless it never is. A brush that is on stays as it
    /// is.
    pub open spec fn on(self) -> Switch {
        if self.core.drawn() {
            self
        } else {
            Switch {
                me: Brush { disabled: false, ..self.me },
                core: if self.me.solidity == BRUSHSOLID_NEVER {
                    self.core.shown()
                } else {
                    self.core.removing_solid_flags(FSOLID_NOT_SOLID).shown()
                },
            }
        }
    }

    pub open spec fn spawned(self) -> Switch {
        let body = Body { move_type: MoveType::Push, solid: Solid::VPhysics, ..self.core.body };
        let pushed = self.core.with_body(body);
        let core = if self.me.solidity == BRUSHSOLID_NEVER {
            pushed.adding_solid_flags(FSOLID_NOT_SOLID)
        } else {
            pushed
        };
        let there = Switch { me: self.me, core };
        let set = if self.me.disabled { there.off() } else { there };
        if self.me.solid_bsp {
            Switch { me: set.me, core: set.core.with_body(Body { solid: Solid::Bsp, ..set.core.body }) }
        } else {
            set
        }
    }

    #[verifier::opaque]
    pub open spec fn input(self, input: Input) -> Option<Switch> {
        let name = input.name@;
        if same_name(name, "Enable"@) {
            Some(self.on())
        } else if same_name(name, "Disable"@) {
            Some(self.off())
        } else if same_name(name, "Toggle"@) {
            Some(if self.core.drawn() { self.off() } else { self.on() })
        } else if same_name(name, "SetExcluded"@) {
            Some(Switch { me: Brush { excluded_class: Some(input.text), ..self.me }, ..self })
        } else if same_name(name, "SetInvert"@) {
            Some(Switch { me: Brush { invert_exclusion: input.value.truth(), ..self.me }, ..self })
        } else {
            None
        }
    }
}

impl Brush {
    pub fn create() -> (r: Brush)
        ensures
            r == Brush::fresh(),
    {
        Brush { disabled: false, solidity: 0, solid_bsp: false, excluded_class: None, invert_exclusion: false }
    }

    /// Whether the brush is on.
    pub fn is_on(entity: &EntityCore) -> (r: bool)
        ensures
            r == entity@.drawn(),
    {
        entity.look.effects & EF_NODRAW == 0
    }

    pub fn turn_off(&mut self, entity: &mut EntityCore)
        ensures
            (Switch { me: *final(self), core: final(entity)@ }) == (Switch { me: *old(self), core: old(entity)@ }).off(),
    {
        if !Brush::is_on(entity) {
            return;
        }
        if self.solidity != BRUSHSOLID_ALWAYS {
            entity.add_solid_flags(FSOLID_NOT_SOLID);
        }
        entity.look.effects = entity.look.effects | EF_NODRAW;
        self.disabled = true;
    }

    pub fn turn_on(&mut self, entity: &mut EntityCore)
        ensures
            (Switch { me: *final(self), core: final(entity)@ }) == (Switch { me: *old(self), core: old(entity)@ }).on(),
    {
        if Brush::is_on(entity) {
            return;
        }
        if self.solidity != BRUSHSOLID_NEVER {
            entity.remove_solid_flags(FSOLID_NOT_SOLID);
        }
        entity.look.effects = entity.look.effects & !EF_NODRAW;
        self.disabled = false;
    }

    pub fn key_value(&mut self, key: &str, value: &Value) -> (r: bool)
        ensures
            r == old(self).keyed(key@, *value) is Some,
            *final(self) == old(self).keyed(key@, *value).unwrap_or(*old(self)),
    {
        reveal(Brush::keyed);
        if key.eq_ignore_ascii_case("StartDisabled") {
            self.disabled = atoi(value.text.as_str()) != 0;
        } else if key.eq_ignore_ascii_case("Solidity") {
            self.solidity = atoi(value.text.as_str());
        } else if key.eq_ignore_ascii_case("solidbsp") {
            self.solid_bsp = atoi(value.text.as_str()) != 0;
        } else if key.eq_ignore_ascii_case("excludednpc") {
            self.excluded_class = Some(value.text.clone());
        } else if key.eq_ignore_ascii_case("invert_exclusion") {
            self.invert_exclusion = atoi(value.text.as_str()) != 0;
        } else {
            return false;
        }
        true
    }

    pub fn spawn(&mut self, entity: &mut EntityCore) -> (r: SpawnResult)
        ensures
            r == SpawnResult::Keep,
            (Switch { me: *final(self), core: final(entity)@ }) == (Switch {
                me: *old(self),
                core: old(entity)@,
            }).spawned(),
    {
        entity.body.move_type = MoveType::Push;
        entity.body.solid = Solid::VPhysics;
        if self.solidity == BRUSHSOLID_NEVER {
            entity.add_solid_flags(FSOLID_NOT_SOLID);
        }
        if self.disabled {
            self.turn_off(entity);
        }
        if self.solid_bsp {
            entity.body.solid = Solid::Bsp;
        }
        SpawnResult::Keep
    }

    pub fn accept_input(&mut self, entity: &mut EntityCore, input: &Input<'_>) -> (r: bool)
        ensures
            r == (Switch { me: *old(self), core: old(entity)@ }).input(*input) is Some,
            (Switch { me: *final(self), core: final(entity)@ }) == (Switch {
                me: *old(self),
                core: old(entity)@,
            }).input(*input).unwrap_or(Switch { me: *old(self), core: old(entity)@ }),
    {
        reveal(Switch::input);
        let name = input.name;
        if name.eq_ignore_ascii_case("Enable") {
            self.turn_on(entity);
        } else if name.eq_ignore_ascii_case("Disable") {
            self.turn_off(entity);
        } else if name.eq_ignore_ascii_case("Toggle") {
            if Brush::is_on(entity) {
                self.turn_off(entity);
            } else {
                self.turn_on(entity);
            }
        } else if name.eq_ignore_ascii_case("SetExcluded") {
            self.excluded_class = Some(input.text.clone());
        } else if name.eq_ignore_ascii_case("SetInvert") {
            self.invert_exclusion = input.value.bool();
        } else {
            return false;
        }
        true
    }
}

/// A brush that was off is on once it has been switched on, and the other way
/// about.
pub proof fn switching_switches(state: Switch)
    ensures
        state.on().core.drawn(),
        !state.off().core.drawn(),
{
    let e = state.core.look.effects;
    assert((e & !EF_NODRAW) & EF_NODRAW == 0) by (bit_vector);
    assert((e | EF_NODRAW) & EF_NODRAW != 0) by (bit_vector);
}

/// Switching a drawn, solid brush off and on again gives it back as it was, if
/// it is one that is solid while it is on and not while it is off.
pub proof fn switching_twice_restores(state: Switch)
    requires
        state.core.drawn(),
        !state.me.disabled,
        state.core.body.solid_flags & FSOLID_NOT_SOLID == 0,
        state.me.solidity != BRUSHSOLID_NEVER,
    ensures
        state.off().on() == state,
{
    let e = state.core.look.effects;
    let f = state.core.body.solid_flags;
    switching_switches(state);
    assert(e & EF_NODRAW == 0 ==> (e | EF_NODRAW) & !EF_NODRAW == e) by (bit_vector);
    assert(f & FSOLID_NOT_SOLID == 0 ==> (f | FSOLID_NOT_SOLID) & !FSOLID_NOT_SOLID == f) by (bit_vector);
    assert(f & FSOLID_NOT_SOLID == 0 ==> f & !FSOLID_NOT_SOLID == f) by (bit_vector);
}

// ---------------------------------------------------------------------------
// func_areaportal and func_areaportalwindow
// ---------------------------------------------------------------------------

/// The state of an open portal between areas.
pub const AREAPORTAL_OPEN: i32 = 1;

/// A portal between two areas of a map: what is behind a closed one is not
/// drawn.
#[derive(Debug, Clone, Copy)]
pub struct AreaPortal {
    pub portal_number: i32,
    pub state: i32,
}

impl AreaPortal {
    pub open spec fn fresh() -> AreaPortal {
        AreaPortal { portal_number: 0, state: AREAPORTAL_OPEN }
    }

    pub open spec fn is_open(self) -> bool {
        self.state == AREAPORTAL_OPEN
    }

    pub open spec fn opened(self, open: bool) -> AreaPortal {
        AreaPortal { state: if open { AREAPORTAL_OPEN } else { 0i32 }, ..self }
    }

    #[verifier::opaque]
    pub open spec fn keyed(self, key: Seq<char>, value: Value) -> Option<AreaPortal> {
        if same_name(key, "portalnumber"@) {
            Some(AreaPortal { portal_number: integer_of(value.text@) as i32, ..self })
        } else if same_name(key, "StartOpen"@) {
            Some(self.opened(integer_of(value.text@) != 0))
        } else if same_name(key, "PortalVersion"@) || same_name(key, "FadeStartDist"@) || same_name(
            key,
            "FadeDist"@,
        ) || same_name(key, "TranslucencyLimit"@) || same_name(key, "BackgroundBModel"@) {
            Some(self)
        } else {
            None
        }
    }

    /// Turning such a portal on closes it, and turning it off opens it.
    #[verifier::opaque]
    pub open spec fn input(self, name: Seq<char>) -> Option<AreaPortal> {
        if same_name(name, "Open"@) || same_name(name, "TurnOff"@) {
            Some(self.opened(true))
        } else if same_name(name, "Close"@) || same_name(name, "TurnOn"@) {
            Some(self.opened(false))
        } else if same_name(name, "Toggle"@) {
            Some(self.opened(!self.is_open()))
        } else {
            None
        }
    }

    pub fn create() -> (r: AreaPortal)
        ensures
            r == AreaPortal::fresh(),
    {
        AreaPortal { portal_number: 0, state: AREAPORTAL_OPEN }
    }

    /// The portal's number, `0` where it is none, and whether it is open.
    pub fn state(&self) -> (r: (u16, bool))
        ensures
            r.0 == (if 0 <= self.portal_number <= u16::MAX { self.portal_number as int } else { 0 }),
            r.1 == self.is_open(),
    {
        let number: u16 = if 0 <= self.portal_number && self.portal_number <= 65535 {
            self.portal_number as u16
        } else {
            0
        };
        (number, self.state == AREAPORTAL_OPEN)
    }

    pub fn key_value(&mut self, key: &str, value: &Value) -> (r: bool)
        ensures
            r == old(self).keyed(key@, *value) is Some,
            *final(self) == old(self).keyed(key@, *value).unwrap_or(*old(self)),
    {
        reveal(AreaPortal::keyed);
        if key.eq_ignore_ascii_case("portalnumber") {
            self.portal_number = atoi(value.text.as_str());
            return true;
        }
        if key.eq_ignore_ascii_case("StartOpen") {
            self.state = if atoi(value.text.as_str()) != 0 {
                AREAPORTAL_OPEN
            } else {
                0
            };
            return true;
        }
        key.eq_ignore_ascii_case("PortalVersion") || key.eq_ignore_ascii_case("FadeStartDist")
            || key.eq_ignore_ascii_case("FadeDist") || key.eq_ignore_ascii_case("TranslucencyLimit")
            || key.eq_ignore_ascii_case("BackgroundBModel")
    }

    pub fn spawn(&mut self, entity: &mut EntityCore) -> (r: SpawnResult)
        ensures
            r == SpawnResult::Keep,
            *final(self) == *old(self),
            final(entity)@ == old(entity)@.with_body(Body { solid: Solid::Nothing, ..old(entity)@.body }),
    {
        entity.body.solid = Solid::Nothing;
        SpawnResult::Keep
    }

    pub fn accept_input(&mut self, input: &Input<'_>) -> (r: bool)
        ensures
            r == old(self).input(input.name@) is Some,
            *final(self) == old(self).input(input.name@).unwrap_or(*old(self)),
    {
        reveal(AreaPortal::input);
        let name = input.name;
        if name.eq_ignore_ascii_case("Open") || name.eq_ignore_ascii_case("TurnOff") {
            self.state = AREAPORTAL_OPEN;
        } else if name.eq_ignore_ascii_case("Close") || name.eq_ignore_ascii_case("TurnOn") {
            self.state = 0;
        } else if name.eq_ignore_ascii_case("Toggle") {
            self.state = if self.state == AREAPORTAL_OPEN {
                0
            } else {
                AREAPORTAL_OPEN
            };
        } else {
            return false;
        }
        true
    }
}

/// Toggling an area portal twice gives back whether it is open.
pub proof fn toggling_an_area_portal_twice(portal: AreaPortal)
    ensures
        ({
            let once = portal.opened(!portal.is_open());
            once.opened(!once.is_open()).is_open() == portal.is_open()
        }),
{
}

} // verus!
