//! Buttons.
use vstd::prelude::*;

use crate::class::{SpawnResult, UseType};
use crate::context::Context;
use crate::entity::{Body, CoreView, Drive, EntityCore, EntityId, Motion, MoveType, Schedule, Solid, FSOLID_NOT_SOLID};
use crate::io::{Input, Value, Variant};
use crate::movement::{Toggle, ToggleKeys, ToggleState, Travel};
use crate::scalar::{num, origin, Scalar, Vector, FORTY, FOUR, MINUS_ONE, ONE, ZERO};
use crate::step::{answered, step, Step};
use crate::text::{atoi, integer_of, same_name};

verus! {

// ---------------------------------------------------------------------------
// func_button
// ---------------------------------------------------------------------------

/// The button is pressed without moving.
pub const SF_BUTTON_DONTMOVE: u32 = 0x1;

/// The button stays in until it is pressed again.
pub const SF_BUTTON_TOGGLE: u32 = 0x20;

pub const SF_BUTTON_LOCKED: u32 = 0x800;

pub const SF_BUTTON_NOTSOLID: u32 = 0x4000;

/// What is asked of a button.
#[derive(Debug, Clone, Copy, PartialEq, Eq, Structural)]
pub enum ButtonCode {
    /// In or out, whichever it is not.
    Press,
    /// In.
    Activate,
    /// Out.
    Return,
}

/// What a button does when its alarm goes off.
#[derive(Debug, Clone, Copy, PartialEq, Eq, Structural)]
pub enum ButtonMoveDone {
    Nothing,
    TriggerAndWait,
    BackHome,
}

/// What a button does when it thinks.
#[derive(Debug, Clone, Copy, PartialEq, Eq, Structural)]
pub enum ButtonThink {
    Nothing,
    Return,
}

/// A button: in while something has pressed it, and then out again.
#[derive(Debug, Clone, Copy)]
pub struct Button {
    pub toggle: Toggle,
    /// Angles until it spawns, and from then on the direction they point in.
    pub move_dir: Vector,
    pub locked: bool,
    pub stay_pushed: bool,
    pub sounds: i32,
    pub activator: Option<EntityId>,
    pub move_done: ButtonMoveDone,
    pub think: ButtonThink,
}

/// A button's geometry.
#[derive(Debug, Clone, Copy)]
pub struct ButtonFigures {
    /// The direction that the button's `movedir` angles point in.
    pub move_dir: Vector,
    /// Where the button slides to: its own size along that direction, less the
    /// lip, from where it is.
    pub position2: Vector,
    /// How far that is.
    pub travel: Scalar,
}

impl Button {
    pub open spec fn fresh() -> Button {
        Button {
            toggle: Toggle::at_rest(),
            move_dir: origin(),
            locked: false,
            stay_pushed: false,
            sounds: 0,
            activator: None,
            move_done: ButtonMoveDone::Nothing,
            think: ButtonThink::Nothing,
        }
    }

    #[verifier::opaque]
    pub open spec fn keyed(self, key: Seq<char>, value: Value) -> Option<Button> {
        if same_name(key, "movedir"@) {
            Some(Button { move_dir: value.vector, ..self })
        } else if same_name(key, "sounds"@) {
            Some(Button { sounds: integer_of(value.text@) as i32, ..self })
        } else if same_name(key, "locked_sound"@) || same_name(key, "unlocked_sound"@) || same_name(
            key,
            "locked_sentence"@,
        ) || same_name(key, "unlocked_sentence"@) || same_name(key, "min_use_angle"@) {
            Some(self)
        } else {
            match self.toggle.keyed(key, value) {
                Some(toggle) => Some(Button { toggle, ..self }),
                None => None,
            }
        }
    }

    pub open spec fn in_state(self, state: ToggleState) -> Button {
        Button { toggle: Toggle { state, ..self.toggle }, ..self }
    }

    /// The lip that the button's travel is measured with.
    pub open spec fn measured_lip(self) -> Scalar {
        if self.toggle.keys.lip.same(num(ZERO)) { num(FOUR) } else { self.toggle.keys.lip }
    }
}

/// What spawn flags make of a button's entity.
pub open spec fn button_built(core: CoreView) -> CoreView {
    let ghostly = core.spawned_with(SF_BUTTON_NOTSOLID);
    core.with_body(
        Body {
            move_type: MoveType::Push,
            solid: if ghostly { Solid::Nothing } else { Solid::Bsp },
            solid_flags: if ghostly { core.body.solid_flags | FSOLID_NOT_SOLID } else { core.body.solid_flags },
            ..core.body
        },
    ).with_drive(
        Drive {
            speed: if core.drive.speed.same(num(ZERO)) { num(FORTY) } else { core.drive.speed },
            ..core.drive
        },
    )
}

impl Step<Button> {
    /// Off to a place, unless it is there.
    pub open spec fn under_way(self, to: Vector) -> Step<Button> {
        self.with(Button { toggle: self.me.toggle.bound_for(to), ..self.me }).with_core(
            self.core.moving(Motion::Linear { to, speed: self.core.drive.speed }),
        )
    }

    /// Arrived at a place.
    pub open spec fn landed(self, to: Vector) -> Step<Button> {
        let toggle = self.me.toggle.bound_for(to);
        self.with(Button { toggle, move_done: ButtonMoveDone::Nothing, ..self.me }).with_core(
            toggle.arrived(self.core),
        )
    }

    /// All the way in. It comes back once it has waited, unless it stays.
    pub open spec fn pushed_in(self) -> Step<Button> {
        if self.me.locked {
            self
        } else {
            let inside = self.me.in_state(ToggleState::AtTop);
            let held = if self.me.stay_pushed || self.core.spawned_with(SF_BUTTON_TOGGLE) {
                self.with(Button { think: ButtonThink::Nothing, ..inside })
            } else {
                self.with(Button { think: ButtonThink::Return, ..inside }).think(
                    Schedule::After(self.me.toggle.keys.wait),
                )
            };
            held.fire("OnIn"@, Variant::Void, self.me.activator)
        }
    }

    /// All the way out.
    pub open spec fn back_home(self) -> Step<Button> {
        self.with(self.me.in_state(ToggleState::AtBottom)).fire("OnOut"@, Variant::Void, self.me.activator)
    }

    /// On the way in.
    pub open spec fn going_in(self) -> Step<Button> {
        let to = self.me.toggle.travel.position2;
        let going = self.with(
            Button { move_done: ButtonMoveDone::TriggerAndWait, ..self.me.in_state(ToggleState::GoingUp) },
        );
        if self.me.locked {
            self
        } else if to.same(self.core.place.local_origin) {
            going.landed(to).pushed_in()
        } else {
            going.under_way(to)
        }
    }

    /// On the way out.
    pub open spec fn going_out(self) -> Step<Button> {
        let to = self.me.toggle.travel.position1;
        let going = self.with(
            Button { move_done: ButtonMoveDone::BackHome, ..self.me.in_state(ToggleState::GoingDown) },
        );
        if to.same(self.core.place.local_origin) {
            going.landed(to).back_home()
        } else {
            going.under_way(to)
        }
    }

    /// What a press comes to: nothing while locked, and nothing where the
    /// button is already doing what is asked.
    pub open spec fn pressed(self, code: ButtonCode) -> Step<Button> {
        let state = self.me.toggle.state;
        let refused = self.me.locked || match code {
            ButtonCode::Press => state == ToggleState::GoingUp || state == ToggleState::GoingDown,
            ButtonCode::Activate => state == ToggleState::GoingUp || state == ToggleState::AtTop,
            ButtonCode::Return => state == ToggleState::GoingDown || state == ToggleState::AtBottom,
        };
        let out = match code {
            ButtonCode::Press => state == ToggleState::AtTop,
            ButtonCode::Activate => false,
            ButtonCode::Return => true,
        };
        let fired = self.fire("OnPressed"@, Variant::Void, self.me.activator);
        if refused {
            self
        } else if out {
            fired.going_out()
        } else {
            fired.going_in()
        }
    }

    /// The alarm went off: the move has ended, and what was to follow follows.
    pub open spec fn rung(self) -> Step<Button> {
        let stopped = self.with(Button { move_done: ButtonMoveDone::Nothing, ..self.me }).with_core(
            self.me.toggle.arrived(self.core),
        );
        match self.me.move_done {
            ButtonMoveDone::Nothing => stopped,
            ButtonMoveDone::TriggerAndWait => stopped.pushed_in(),
            ButtonMoveDone::BackHome => stopped.back_home(),
        }
    }

    pub open spec fn thought(self) -> Step<Button> {
        let awake = self.with(Button { think: ButtonThink::Nothing, ..self.me });
        if self.me.think == ButtonThink::Return {
            awake.going_out()
        } else {
            awake
        }
    }

    /// Somebody used the button.
    pub open spec fn used(self, activator: Option<EntityId>) -> Step<Button> {
        let state = self.me.toggle.state;
        let led = self.with(Button { activator, ..self.me });
        let fired = led.fire("OnPressed"@, Variant::Void, activator);
        if state == ToggleState::GoingUp || state == ToggleState::GoingDown {
            self
        } else if self.me.locked {
            self.fire("OnUseLocked"@, Variant::Void, activator)
        } else if state == ToggleState::AtTop {
            if self.core.spawned_with(SF_BUTTON_TOGGLE) {
                fired.going_out()
            } else {
                led
            }
        } else {
            fired.going_in()
        }
    }

    pub open spec fn spawned(self, figures: ButtonFigures) -> Step<Button> {
        let keys = self.me.toggle.keys;
        let wait = if keys.wait.same(num(ZERO)) { num(ONE) } else { keys.wait };
        let here = self.core.place.local_origin;
        let still = figures.travel.less(num(ONE)) || self.core.spawned_with(SF_BUTTON_DONTMOVE);
        self.with(
            Button {
                toggle: Toggle {
                    state: ToggleState::AtBottom,
                    keys: ToggleKeys { wait, lip: self.me.measured_lip(), ..keys },
                    travel: Travel {
                        position1: here,
                        position2: if still { here } else { figures.position2 },
                        ..self.me.toggle.travel
                    },
                    ..self.me.toggle
                },
                move_dir: figures.move_dir,
                stay_pushed: wait.same(num(MINUS_ONE)),
                locked: self.me.locked || self.core.spawned_with(SF_BUTTON_LOCKED),
                ..self.me
            },
        ).with_core(
            button_built(self.core),
        )
    }

    #[verifier::opaque]
    pub open spec fn button_input(self, input: Input) -> Option<Step<Button>> {
        let name = input.name@;
        let led = self.with(Button { activator: input.activator, ..self.me });
        if same_name(name, "Lock"@) {
            Some(self.with(Button { locked: true, ..self.me }))
        } else if same_name(name, "Unlock"@) {
            Some(self.with(Button { locked: false, ..self.me }))
        } else if same_name(name, "PressIn"@) {
            Some(led.pressed(ButtonCode::Activate))
        } else if same_name(name, "PressOut"@) {
            Some(led.pressed(ButtonCode::Return))
        } else if same_name(name, "Press"@) {
            Some(led.pressed(ButtonCode::Press))
        } else {
            None
        }
    }
}

impl Button {
    pub fn create() -> (r: Button)
        ensures
            r == Button::fresh(),
    {
        Button {
            toggle: Toggle::new(),
            move_dir: origin(),
            locked: false,
            stay_pushed: false,
            sounds: 0,
            activator: None,
            move_done: ButtonMoveDone::Nothing,
            think: ButtonThink::Nothing,
        }
    }

    /// The lip that the button's travel is to be measured with.
    pub fn travel_lip(&self) -> (r: Scalar)
        ensures
            r == self.measured_lip(),
    {
        if self.toggle.keys.lip.equals(num(ZERO)) {
            num(FOUR)
        } else {
            self.toggle.keys.lip
        }
    }

    pub fn press(&mut self, entity: &mut EntityCore, code: ButtonCode, cx: &mut Context)
        ensures
            step(*final(self), final(entity)@, final(cx)@) == step(*old(self), old(entity)@, old(cx)@).pressed(code),
    {
        let state = self.toggle.state;
        if code == ButtonCode::Press && (state == ToggleState::GoingUp || state == ToggleState::GoingDown) {
            return;
        }
        if code == ButtonCode::Activate && (state == ToggleState::GoingUp || state == ToggleState::AtTop) {
            return;
        }
        if code == ButtonCode::Return && (state == ToggleState::GoingDown || state == ToggleState::AtBottom) {
            return;
        }
        if self.locked {
            return;
        }
        let me = Some(entity.id());
        entity.fire_output("OnPressed", Variant::Void, self.activator, me, num(ZERO), cx);
        if (code == ButtonCode::Press && state == ToggleState::AtTop) || code == ButtonCode::Return {
            self.button_return(entity, cx);
        } else {
            self.button_activate(entity, cx);
        }
    }

    pub fn button_activate(&mut self, entity: &mut EntityCore, cx: &mut Context)
        ensures
            step(*final(self), final(entity)@, final(cx)@) == step(*old(self), old(entity)@, old(cx)@).going_in(),
    {
        if self.locked {
            return;
        }
        self.toggle.state = ToggleState::GoingUp;
        self.move_done = ButtonMoveDone::TriggerAndWait;
        let to = self.toggle.travel.position2;
        let speed = entity.drive.speed;
        if !self.toggle.linear_move(entity, to, speed) {
            self.toggle.move_done(entity);
            self.move_done = ButtonMoveDone::Nothing;
            self.trigger_and_wait(entity, cx);
        }
    }

    pub fn trigger_and_wait(&mut self, entity: &mut EntityCore, cx: &mut Context)
        ensures
            step(*final(self), final(entity)@, final(cx)@) == step(*old(self), old(entity)@, old(cx)@).pushed_in(),
    {
        if self.locked {
            return;
        }
        self.toggle.state = ToggleState::AtTop;
        if self.stay_pushed || entity.has_spawn_flags(SF_BUTTON_TOGGLE) {
            self.think = ButtonThink::Nothing;
        } else {
            entity.set_next_think(Schedule::After(self.toggle.keys.wait));
            self.think = ButtonThink::Return;
        }
        let me = Some(entity.id());
        entity.fire_output("OnIn", Variant::Void, self.activator, me, num(ZERO), cx);
    }

    pub fn button_return(&mut self, entity: &mut EntityCore, cx: &mut Context)
        ensures
            step(*final(self), final(entity)@, final(cx)@) == step(*old(self), old(entity)@, old(cx)@).going_out(),
    {
        self.toggle.state = ToggleState::GoingDown;
        self.move_done = ButtonMoveDone::BackHome;
        let to = self.toggle.travel.position1;
        let speed = entity.drive.speed;
        if !self.toggle.linear_move(entity, to, speed) {
            self.toggle.move_done(entity);
            self.move_done = ButtonMoveDone::Nothing;
            self.button_back_home(entity, cx);
        }
    }

    pub fn button_back_home(&mut self, entity: &mut EntityCore, cx: &mut Context)
        ensures
            step(*final(self), final(entity)@, final(cx)@) == step(*old(self), old(entity)@, old(cx)@).back_home(),
    {
        self.toggle.state = ToggleState::AtBottom;
        let me = Some(entity.id());
        entity.fire_output("OnOut", Variant::Void, self.activator, me, num(ZERO), cx);
    }

    /// The alarm went off.
    pub fn move_done(&mut self, entity: &mut EntityCore, cx: &mut Context)
        ensures
            step(*final(self), final(entity)@, final(cx)@) == step(*old(self), old(entity)@, old(cx)@).rung(),
    {
        self.toggle.move_done(entity);
        let next = self.move_done;
        self.move_done = ButtonMoveDone::Nothing;
        match next {
            ButtonMoveDone::Nothing => {}
            ButtonMoveDone::TriggerAndWait => self.trigger_and_wait(entity, cx),
            ButtonMoveDone::BackHome => self.button_back_home(entity, cx),
        }
    }

    pub fn key_value(&mut self, key: &str, value: &Value) -> (r: bool)
        ensures
            r == old(self).keyed(key@, *value) is Some,
            *final(self) == old(self).keyed(key@, *value).unwrap_or(*old(self)),
    {
        reveal(Button::keyed);
        if key.eq_ignore_ascii_case("movedir") {
            self.move_dir = value.vector;
        } else if key.eq_ignore_ascii_case("sounds") {
            self.sounds = atoi(value.text.as_str());
        } else if key.eq_ignore_ascii_case("locked_sound") || key.eq_ignore_ascii_case("unlocked_sound")
            || key.eq_ignore_ascii_case("locked_sentence") || key.eq_ignore_ascii_case("unlocked_sentence")
            || key.eq_ignore_ascii_case("min_use_angle") {
        } else {
            return self.toggle.key_value(key, value);
        }
        true
    }

    /// Makes of the entity what its spawn flags make of it.
    fn stand(entity: &mut EntityCore)
        ensures
            final(entity)@ == button_built(old(entity)@),
    {
        entity.body.move_type = MoveType::Push;
        if entity.has_spawn_flags(SF_BUTTON_NOTSOLID) {
            entity.body.solid = Solid::Nothing;
            entity.body.solid_flags = entity.body.solid_flags | FSOLID_NOT_SOLID;
        } else {
            entity.body.solid = Solid::Bsp;
        }
        if entity.drive.speed.equals(num(ZERO)) {
            entity.drive.speed = num(FORTY);
        }
    }

    /// Takes its place. `figures` is its geometry.
    pub fn spawn(&mut self, entity: &mut EntityCore, figures: &ButtonFigures, cx: &mut Context) -> (r: SpawnResult)
        ensures
            r == SpawnResult::Keep,
            step(*final(self), final(entity)@, final(cx)@) == step(*old(self), old(entity)@, old(cx)@).spawned(
                *figures,
            ),
    {
        let here = entity.place.local_origin;
        Button::stand(entity);
        self.move_dir = figures.move_dir;
        if self.toggle.keys.wait.equals(num(ZERO)) {
            self.toggle.keys.wait = num(ONE);
        }
        self.toggle.keys.lip = self.travel_lip();
        self.toggle.state = ToggleState::AtBottom;
        self.toggle.travel.position1 = here;
        self.toggle.travel.position2 = figures.position2;
        if figures.travel.lt(num(ONE)) || entity.has_spawn_flags(SF_BUTTON_DONTMOVE) {
            self.toggle.travel.position2 = here;
        }
        self.stay_pushed = self.toggle.keys.wait.equals(num(MINUS_ONE));
        self.locked = self.locked || entity.has_spawn_flags(SF_BUTTON_LOCKED);
        SpawnResult::Keep
    }

    pub fn accept_input(&mut self, entity: &mut EntityCore, input: &Input<'_>, cx: &mut Context) -> (r: bool)
        ensures
            answered(
                step(*old(self), old(entity)@, old(cx)@).button_input(*input),
                step(*old(self), old(entity)@, old(cx)@),
                r,
                step(*final(self), final(entity)@, final(cx)@),
            ),
    {
        reveal(Step::<_>::button_input);
        let name = input.name;
        if name.eq_ignore_ascii_case("Lock") {
            self.locked = true;
        } else if name.eq_ignore_ascii_case("Unlock") {
            self.locked = false;
        } else if name.eq_ignore_ascii_case("PressIn") {
            self.activator = input.activator;
            self.press(entity, ButtonCode::Activate, cx);
        } else if name.eq_ignore_ascii_case("PressOut") {
            self.activator = input.activator;
            self.press(entity, ButtonCode::Return, cx);
        } else if name.eq_ignore_ascii_case("Press") {
            self.activator = input.activator;
            self.press(entity, ButtonCode::Press, cx);
        } else {
            return false;
        }
        true
    }

    pub fn think(&mut self, entity: &mut EntityCore, cx: &mut Context)
        ensures
            step(*final(self), final(entity)@, final(cx)@) == step(*old(self), old(entity)@, old(cx)@).thought(),
    {
        let think = self.think;
        self.think = ButtonThink::Nothing;
        if think == ButtonThink::Return {
            self.button_return(entity, cx);
        }
    }

    pub fn use_entity(&mut self, entity: &mut EntityCore, use_type: UseType, input: &Input<'_>, cx: &mut Context)
        ensures
            step(*final(self), final(entity)@, final(cx)@) == step(*old(self), old(entity)@, old(cx)@).used(
                input.activator,
            ),
    {
        let state = self.toggle.state;
        if state == ToggleState::GoingUp || state == ToggleState::GoingDown {
            return;
        }
        let me = Some(entity.id());
        if self.locked {
            entity.fire_output("OnUseLocked", Variant::Void, input.activator, me, num(ZERO), cx);
            return;
        }
        self.activator = input.activator;
        if state == ToggleState::AtTop {
            if entity.has_spawn_flags(SF_BUTTON_TOGGLE) {
                entity.fire_output("OnPressed", Variant::Void, self.activator, me, num(ZERO), cx);
                self.button_return(entity, cx);
            }
        } else {
            entity.fire_output("OnPressed", Variant::Void, self.activator, me, num(ZERO), cx);
            self.button_activate(entity, cx);
        }
    }
}

} // verus!
