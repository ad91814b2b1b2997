//! Pads that are stood on, and the boxes over them that notice.
use vstd::prelude::*;

use crate::behaviour::{prop_view, trigger_view, Behaviour, BehaviourView, Prop, Trigger, TriggerView};
use crate::class::{class_named, SpawnResult};
use crate::classes::trigger::{
    trigger_flags, BaseTrigger, BaseTriggerView, SF_TRIGGER_ALLOW_CLIENTS, SF_TRIGGER_ALLOW_PHYSICS,
};
use crate::context::{Context, ContextView};
use crate::entity::{
    Body, CoreView, EntityCore, EntityId, Look, ModelBounds, MoveType, Solid, EF_MARKED_FOR_FAST_REFLECTION, FL_CLIENT,
    FSOLID_NOT_SOLID, FSOLID_TRIGGER,
};
use crate::io::{Input, Value, Variant};
use crate::scalar::{num, Scalar, Vector, FOURTEEN, MINUS_TWENTY, TWENTY, ZERO};
use crate::step::{answered, step, Step};
use crate::text::{atoi, integer_of, same_name};

verus! {

// ---------------------------------------------------------------------------
// prop_floor_button
// ---------------------------------------------------------------------------

pub const BUTTON_OFF_SKIN: i32 = 0;

pub const BUTTON_ON_SKIN: i32 = 1;

/// Which of its two sequences a pad plays.
#[derive(Debug, Clone, Copy, PartialEq, Eq, Structural)]
pub enum PadSequence {
    Up,
    Down,
}

impl PadSequence {
    pub open spec fn word(self) -> Seq<char> {
        match self {
            PadSequence::Up => "up"@,
            PadSequence::Down => "down"@,
        }
    }

    pub fn label(self) -> (r: &'static str)
        ensures
            r@ == self.word(),
    {
        match self {
            PadSequence::Up => "up",
            PadSequence::Down => "down",
        }
    }
}

/// A pad that is stood on. What notices that is another entity, which the pad
/// makes for itself.
#[derive(Debug, Clone, Copy, PartialEq, Eq, Structural)]
pub struct FloorButton {
    pub trigger: Option<EntityId>,
    pub pressed: bool,
    pub skin: i32,
    pub sequence: PadSequence,
    pub anim_time: Scalar,
}

impl FloorButton {
    pub open spec fn fresh() -> FloorButton {
        FloorButton {
            trigger: None,
            pressed: false,
            skin: BUTTON_OFF_SKIN,
            sequence: PadSequence::Up,
            anim_time: num(ZERO),
        }
    }

    #[verifier::opaque]
    pub open spec fn keyed(self, key: Seq<char>, value: Value) -> Option<FloorButton> {
        if same_name(key, "skin"@) {
            Some(FloorButton { skin: integer_of(value.text@) as i32, ..self })
        } else {
            None
        }
    }
}

/// A box over a pad that knows whose it is.
pub open spec fn owned(behaviour: BehaviourView, pad: EntityId) -> BehaviourView {
    match behaviour {
        BehaviourView::Trigger(TriggerView::ButtonTrigger(b)) => BehaviourView::Trigger(TriggerView::ButtonTrigger(
            ButtonTriggerView { owner: Some(pad), ..b },
        )),
        other => other,
    }
}

/// The box over a pad, in the pad's own frame.
pub open spec fn pad_box() -> ModelBounds {
    ModelBounds {
        mins: Vector { x: num(MINUS_TWENTY), y: num(MINUS_TWENTY), z: num(ZERO) },
        maxs: Vector { x: num(TWENTY), y: num(TWENTY), z: num(FOURTEEN) },
    }
}

impl Step<FloorButton> {
    /// Down, or up again.
    pub open spec fn moved(self, down: bool, activator: Option<EntityId>) -> Step<FloorButton> {
        self.with(
            FloorButton {
                pressed: down,
                skin: if down { BUTTON_ON_SKIN } else { BUTTON_OFF_SKIN },
                sequence: if down { PadSequence::Down } else { PadSequence::Up },
                anim_time: self.cx.time.curtime,
                ..self.me
            },
        ).fire(if down { "OnPressed"@ } else { "OnUnPressed"@ }, Variant::Void, activator)
    }

    /// The box that notices whoever stands on the pad: placed over it, of its
    /// size, and told whose it is. Without a class for it there is none.
    pub open spec fn guarded(self) -> Step<FloorButton> {
        if class_named("trigger_portal_button"@) is Some {
            let id = self.cx.next_id();
            let made = self.cx.creating("trigger_portal_button"@);
            let core = (made.at(id)->0).core.abs_origin_at(self.core.place.origin).abs_angles_at(
                self.core.place.angles,
            );
            let placed = made.noting(id).with_core(id, core.with_body(Body { bounds: pad_box(), ..core.body }));
            let told = placed.noting(id).with_behaviour(id, owned((placed.at(id)->0).behaviour, self.core.id));
            self.with(FloorButton { trigger: Some(id), ..self.me }).with_cx(told)
        } else {
            self
        }
    }

    pub open spec fn spawned(self) -> Step<FloorButton> {
        self.with(FloorButton { skin: BUTTON_OFF_SKIN, ..self.me }).with_core(
            CoreView {
                model: match self.core.model {
                    Some(model) => Some(model),
                    None => Some("models/props/portal_button.mdl"@),
                },
                body: Body { solid: Solid::VPhysics, move_type: MoveType::Still, ..self.core.body },
                look: Look { effects: self.core.look.effects | EF_MARKED_FOR_FAST_REFLECTION, ..self.core.look },
                ..self.core
            },
        ).guarded()
    }

    #[verifier::opaque]
    pub open spec fn floor_button_input(self, input: Input) -> Option<Step<FloorButton>> {
        let name = input.name@;
        if same_name(name, "PressIn"@) {
            Some(self.moved(true, input.activator))
        } else if same_name(name, "PressOut"@) {
            Some(self.moved(false, input.activator))
        } else if same_name(name, "skin"@) {
            Some(self.with(FloorButton { skin: input.value.count(), ..self.me }))
        } else {
            None
        }
    }
}

impl FloorButton {
    pub fn create() -> (r: FloorButton)
        ensures
            r == FloorButton::fresh(),
    {
        FloorButton {
            trigger: None,
            pressed: false,
            skin: BUTTON_OFF_SKIN,
            sequence: PadSequence::Up,
            anim_time: num(ZERO),
        }
    }

    /// Whether a player may press this pad.
    pub fn should_player_touch(&self) -> (r: bool)
        ensures
            r,
    {
        true
    }

    /// Makes the box that notices whoever stands on the pad.
    pub fn create_triggers(&mut self, entity: &EntityCore, cx: &mut Context)
        ensures
            step(*final(self), entity@, final(cx)@) == step(*old(self), entity@, old(cx)@).guarded(),
    {
        reveal(trigger_view);
        let id = match cx.create_entity("trigger_portal_button") {
            Some(id) => id,
            None => {
                return;
            }
        };
        match cx.entity_mut(id) {
            Some(core) => {
                core.set_abs_placement(entity.place.origin, entity.place.angles);
                core.body.bounds = ModelBounds {
                    mins: Vector { x: num(MINUS_TWENTY), y: num(MINUS_TWENTY), z: num(ZERO) },
                    maxs: Vector { x: num(TWENTY), y: num(TWENTY), z: num(FOURTEEN) },
                };
            }
            None => {}
        }
        match cx.behaviour_mut(id) {
            Some(behaviour) => {
                match behaviour {
                    Behaviour::Trigger(Trigger::ButtonTrigger(trigger)) => {
                        trigger.owner = Some(entity.id());
                    }
                    _ => {}
                }
            }
            None => {}
        }
        self.trigger = Some(id);
    }

    pub fn press(&mut self, entity: &EntityCore, activator: Option<EntityId>, cx: &mut Context)
        ensures
            step(*final(self), entity@, final(cx)@) == step(*old(self), entity@, old(cx)@).moved(true, activator),
    {
        self.pressed = true;
        self.skin = BUTTON_ON_SKIN;
        self.reset_sequence(PadSequence::Down, cx);
        entity.fire_output("OnPressed", Variant::Void, activator, Some(entity.id()), num(ZERO), cx);
    }

    pub fn unpress(&mut self, entity: &EntityCore, activator: Option<EntityId>, cx: &mut Context)
        ensures
            step(*final(self), entity@, final(cx)@) == step(*old(self), entity@, old(cx)@).moved(false, activator),
    {
        self.pressed = false;
        self.skin = BUTTON_OFF_SKIN;
        self.reset_sequence(PadSequence::Up, cx);
        entity.fire_output("OnUnPressed", Variant::Void, activator, Some(entity.id()), num(ZERO), cx);
    }

    pub fn reset_sequence(&mut self, sequence: PadSequence, cx: &Context)
        ensures
            *final(self) == (FloorButton { sequence, anim_time: cx@.time.curtime, ..*old(self) }),
    {
        self.sequence = sequence;
        self.anim_time = cx.curtime();
    }

    pub fn key_value(&mut self, key: &str, value: &Value) -> (r: bool)
        ensures
            r == old(self).keyed(key@, *value) is Some,
            *final(self) == old(self).keyed(key@, *value).unwrap_or(*old(self)),
    {
        reveal(FloorButton::keyed);
        if key.eq_ignore_ascii_case("skin") {
            self.skin = atoi(value.text.as_str());
            return true;
        }
        false
    }

    pub fn spawn(&mut self, entity: &mut EntityCore, cx: &mut Context) -> (r: SpawnResult)
        ensures
            r == SpawnResult::Keep,
            step(*final(self), final(entity)@, final(cx)@) == step(*old(self), old(entity)@, old(cx)@).spawned(),
    {
        if entity.model.is_none() {
            entity.model = Some("models/props/portal_button.mdl".to_owned());
        }
        entity.body.solid = Solid::VPhysics;
        entity.body.move_type = MoveType::Still;
        self.skin = BUTTON_OFF_SKIN;
        entity.look.effects = entity.look.effects | EF_MARKED_FOR_FAST_REFLECTION;
        self.create_triggers(entity, cx);
        SpawnResult::Keep
    }

    pub fn accept_input(&mut self, entity: &EntityCore, input: &Input<'_>, cx: &mut Context) -> (r: bool)
        ensures
            answered(
                step(*old(self), entity@, old(cx)@).floor_button_input(*input),
                step(*old(self), entity@, old(cx)@),
                r,
                step(*final(self), entity@, final(cx)@),
            ),
    {
        reveal(Step::<_>::floor_button_input);
        let name = input.name;
        if name.eq_ignore_ascii_case("PressIn") {
            self.press(entity, input.activator, cx);
            return true;
        }
        if name.eq_ignore_ascii_case("PressOut") {
            self.unpress(entity, input.activator, cx);
            return true;
        }
        if name.eq_ignore_ascii_case("skin") {
            self.skin = input.value.integer();
            return true;
        }
        false
    }
}

// ---------------------------------------------------------------------------
// trigger_portal_button
// ---------------------------------------------------------------------------

/// The box over a pad.
#[derive(Debug)]
pub struct ButtonTrigger {
    pub base: BaseTrigger,
    /// The pad that it is over.
    pub owner: Option<EntityId>,
}

pub struct ButtonTriggerView {
    pub base: BaseTriggerView,
    pub owner: Option<EntityId>,
}

impl View for ButtonTrigger {
    type V = ButtonTriggerView;

    open spec fn view(&self) -> ButtonTriggerView {
        ButtonTriggerView { base: self.base@, owner: self.owner }
    }
}

impl ButtonTriggerView {
    pub open spec fn fresh() -> ButtonTriggerView {
        ButtonTriggerView { base: BaseTriggerView::fresh(), owner: None }
    }

    #[verifier::opaque]
    pub open spec fn keyed(self, key: Seq<char>, value: Seq<char>) -> Option<ButtonTriggerView> {
        match self.base.keyed(key, value) {
            Some(base) => Some(ButtonTriggerView { base, ..self }),
            None => None,
        }
    }

    /// Whether an entity may press the pad: it may set the trigger off, the pad
    /// is there, and it is a player.
    pub open spec fn lets_press(self, core: CoreView, other: EntityId, cx: ContextView) -> bool {
        &&& self.base.lets_in(core, other, cx)
        &&& self.owner matches Some(pad) && (cx.at(pad) matches Some(p) && p.behaviour.is_pad())
        &&& cx.at(other) matches Some(e) && e.core.flagged(FL_CLIENT)
    }
}

impl Step<ButtonTriggerView> {
    pub open spec fn base(self) -> Step<BaseTriggerView> {
        step(self.me.base, self.core, self.cx)
    }

    pub open spec fn after(self, base: Step<BaseTriggerView>) -> Step<ButtonTriggerView> {
        step(ButtonTriggerView { base: base.me, ..self.me }, base.core, base.cx)
    }

    /// An input sent to the pad, with whoever stands on it as the activator.
    pub open spec fn tell(self, input: Seq<char>, other: EntityId) -> Step<ButtonTriggerView> {
        match self.me.owner {
            Some(pad) => self.with_cx(
                self.cx.sent(pad, input, Variant::Void, num(ZERO), Some(other), Some(self.core.id)),
            ),
            None => self,
        }
    }

    /// Somebody came to stand on the pad. The first to do so presses it.
    pub open spec fn entered(self, other: EntityId) -> Step<ButtonTriggerView> {
        let passed = self.me.lets_press(self.core, other, self.cx);
        let started = self.after(self.base().entered(passed, other));
        if passed && self.me.base.touching.len() == 0 {
            started.tell("PressIn"@, other)
        } else {
            started
        }
    }

    /// Somebody left the pad. The last to do so releases it.
    pub open spec fn left(self, other: EntityId) -> Step<ButtonTriggerView> {
        let ended = self.after(self.base().left(other));
        if self.base().empties(other) {
            ended.tell("PressOut"@, other)
        } else {
            ended
        }
    }

    pub open spec fn spawned(self) -> Step<ButtonTriggerView> {
        let core = CoreView {
            body: Body {
                move_type: MoveType::Still,
                solid: Solid::Obb,
                solid_flags: FSOLID_NOT_SOLID | FSOLID_TRIGGER,
                ..self.core.body
            },
            spawn_flags: self.core.spawn_flags | (SF_TRIGGER_ALLOW_CLIENTS | SF_TRIGGER_ALLOW_PHYSICS),
            ..self.core
        };
        self.with_core(trigger_flags(core))
    }

    #[verifier::opaque]
    pub open spec fn button_trigger_input(self, input: Input) -> Option<Step<ButtonTriggerView>> {
        match self.base().base_trigger_input(input) {
            Some(base) => Some(self.after(base)),
            None => None,
        }
    }
}

impl ButtonTrigger {
    pub fn create() -> (r: ButtonTrigger)
        ensures
            r@ == ButtonTriggerView::fresh(),
    {
        ButtonTrigger { base: BaseTrigger::new(), owner: None }
    }

    /// Whether an entity may press the pad.
    pub fn passes_trigger_filters(&self, entity: &EntityCore, other: EntityId, cx: &Context) -> (r: bool)
        ensures
            r == self@.lets_press(entity@, other, cx@),
    {
        reveal(prop_view);
        if !self.base.passes_trigger_filters(entity, other, cx) {
            return false;
        }
        let accepts_players = match self.owner {
            Some(pad) => match cx.entity(pad) {
                Some(e) => match &e.behaviour {
                    Behaviour::Prop(Prop::FloorButton(pad)) => pad.should_player_touch(),
                    _ => false,
                },
                None => false,
            },
            None => false,
        };
        accepts_players && match cx.entity(other) {
            Some(e) => e.core.has_flags(FL_CLIENT),
            None => false,
        }
    }

    pub fn key_value(&mut self, key: &str, value: &Value) -> (r: bool)
        ensures
            r == old(self)@.keyed(key@, value.text@) is Some,
            final(self)@ == old(self)@.keyed(key@, value.text@).unwrap_or(old(self)@),
    {
        reveal(ButtonTriggerView::keyed);
        self.base.key_value(key, value.text.as_str())
    }

    pub fn spawn(&mut self, entity: &mut EntityCore, cx: &mut Context) -> (r: SpawnResult)
        ensures
            r == SpawnResult::Keep,
            step(final(self)@, final(entity)@, final(cx)@) == step(old(self)@, old(entity)@, old(cx)@).spawned(),
    {
        entity.body.move_type = MoveType::Still;
        entity.body.solid = Solid::Obb;
        entity.body.solid_flags = FSOLID_NOT_SOLID | FSOLID_TRIGGER;
        entity.spawn_flags = entity.spawn_flags | (SF_TRIGGER_ALLOW_CLIENTS | SF_TRIGGER_ALLOW_PHYSICS);
        self.base.spawn(entity);
        SpawnResult::Keep
    }

    pub fn activate(&mut self, cx: &Context)
        ensures
            final(self)@ == (ButtonTriggerView { base: old(self)@.base.activated(cx@), ..old(self)@ }),
    {
        self.base.activate(cx);
    }

    pub fn start_touch(&mut self, entity: &EntityCore, other: EntityId, cx: &mut Context)
        ensures
            step(final(self)@, entity@, final(cx)@) == step(old(self)@, entity@, old(cx)@).entered(other),
    {
        let passed = self.passes_trigger_filters(entity, other, cx);
        let touched = self.base.start_touch_passing(passed, entity, other, cx);
        if !touched.all {
            return;
        }
        match self.owner {
            Some(pad) => cx.post_entity(pad, "PressIn", Variant::Void, num(ZERO), Some(other), Some(entity.id())),
            None => {}
        }
    }

    pub fn end_touch(&mut self, entity: &EntityCore, other: EntityId, cx: &mut Context)
        ensures
            step(final(self)@, entity@, final(cx)@) == step(old(self)@, entity@, old(cx)@).left(other),
    {
        if !self.base.end_touch(entity, other, cx) {
            return;
        }
        match self.owner {
            Some(pad) => cx.post_entity(pad, "PressOut", Variant::Void, num(ZERO), Some(other), Some(entity.id())),
            None => {}
        }
    }

    pub fn accept_input(&mut self, entity: &mut EntityCore, input: &Input<'_>, cx: &mut Context) -> (r: bool)
        ensures
            answered(
                step(old(self)@, old(entity)@, old(cx)@).button_trigger_input(*input),
                step(old(self)@, old(entity)@, old(cx)@),
                r,
                step(final(self)@, final(entity)@, final(cx)@),
            ),
    {
        reveal(Step::<_>::button_trigger_input);
        self.base.accept_input(entity, input, cx)
    }
}

} // verus!
