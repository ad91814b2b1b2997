//! What every entity understands whatever its class: the inputs that all of
//! them take, use, and damage.
use vstd::prelude::*;

use crate::behaviour::{actor_view, mover_view, Actor, ActorView, Behaviour, BehaviourView, Mover, MoverView};
use crate::class::{find_input, input_place, inputs, InputDef, InputDefView, UseType};
use crate::classes::movelinear::SlideFigures;
use crate::context::{Context, ContextView};
use crate::damage::{DamageInfo, DamageMode, Damaged, LifeState, Wound};
use crate::entity::{Body, CoreView, EntityCore, EntityId, Look, MoveType, Vitals, EF_NODRAW};
use crate::io::{FieldType, Input, Value, Variant};
use crate::scalar::{num, origin, Scalar, ZERO};
use crate::step::{answered, step, Step};
use crate::text::same_name;

verus! {

// ---------------------------------------------------------------------------
// The inputs that every class has
// ---------------------------------------------------------------------------

pub open spec fn base_inputs_spec() -> Seq<InputDefView> {
    seq![
        InputDefView { name: "Kill"@, field: FieldType::Void },
        InputDefView { name: "Use"@, field: FieldType::Void },
        InputDefView { name: "SetParent"@, field: FieldType::String },
        InputDefView { name: "ClearParent"@, field: FieldType::Void },
        InputDefView { name: "SetParentAttachment"@, field: FieldType::String },
        InputDefView { name: "SetParentAttachmentMaintainOffset"@, field: FieldType::String },
        InputDefView { name: "SetDamageFilter"@, field: FieldType::String },
        InputDefView { name: "FireUser1"@, field: FieldType::String },
        InputDefView { name: "FireUser2"@, field: FieldType::String },
        InputDefView { name: "FireUser3"@, field: FieldType::String },
        InputDefView { name: "FireUser4"@, field: FieldType::String },
        InputDefView { name: "DisableDraw"@, field: FieldType::Void },
        InputDefView { name: "EnableDraw"@, field: FieldType::Void },
    ]
}

/// The inputs that every class has, with the kinds of value that they take.
pub fn base_inputs() -> (r: Vec<InputDef>)
    ensures
        inputs(r@) == base_inputs_spec(),
{
    let r = vec![
        InputDef { name: "Kill", field: FieldType::Void },
        InputDef { name: "Use", field: FieldType::Void },
        InputDef { name: "SetParent", field: FieldType::String },
        InputDef { name: "ClearParent", field: FieldType::Void },
        InputDef { name: "SetParentAttachment", field: FieldType::String },
        InputDef { name: "SetParentAttachmentMaintainOffset", field: FieldType::String },
        InputDef { name: "SetDamageFilter", field: FieldType::String },
        InputDef { name: "FireUser1", field: FieldType::String },
        InputDef { name: "FireUser2", field: FieldType::String },
        InputDef { name: "FireUser3", field: FieldType::String },
        InputDef { name: "FireUser4", field: FieldType::String },
        InputDef { name: "DisableDraw", field: FieldType::Void },
        InputDef { name: "EnableDraw", field: FieldType::Void },
    ];
    assert(inputs(r@) =~= base_inputs_spec());
    r
}

/// The kind of value that an input of every class takes, if it is one.
pub open spec fn base_takes(name: Seq<char>) -> Option<FieldType> {
    match input_place(base_inputs_spec(), name, 0) {
        Some(i) => Some(base_inputs_spec()[i].field),
        None => None,
    }
}

/// The kind of value that an input of every class takes, if it is one.
pub fn base_input(name: &str) -> (r: Option<FieldType>)
    ensures
        r == base_takes(name@),
{
    let list = base_inputs();
    match find_input(&list, name) {
        Some(i) => {
            assert(base_inputs_spec()[i as int] == list@[i as int]@);
            Some(list[i].field)
        }
        None => None,
    }
}

// ---------------------------------------------------------------------------
// The keys that every class has
// ---------------------------------------------------------------------------

/// What a key that says who and where an entity is does.
pub open spec fn base_keyed(core: CoreView, key: Seq<char>, value: Value) -> Option<CoreView> {
    if same_name(key, "targetname"@) {
        Some(CoreView { name: Some(value.text@), ..core })
    } else if same_name(key, "origin"@) {
        Some(core.abs_origin_at(value.vector))
    } else if same_name(key, "angles"@) {
        Some(core.abs_angles_at(value.vector))
    } else {
        None
    }
}

/// Reads a key that says who and where an entity is. Whether it is one.
pub fn base_key_value(core: &mut EntityCore, key: &str, value: &Value) -> (r: bool)
    ensures
        r == base_keyed(old(core)@, key@, *value) is Some,
        final(core)@ == base_keyed(old(core)@, key@, *value).unwrap_or(old(core)@),
{
    if key.eq_ignore_ascii_case("targetname") {
        core.name = Some(value.text.clone());
    } else if key.eq_ignore_ascii_case("origin") {
        core.set_abs_origin(value.vector);
    } else if key.eq_ignore_ascii_case("angles") {
        core.set_abs_angles(value.vector);
    } else {
        return false;
    }
    true
}

// ---------------------------------------------------------------------------
// Use
// ---------------------------------------------------------------------------

/// What the arithmetic of being used comes to.
#[derive(Debug, Clone, Copy)]
pub struct UseFigures {
    /// For what slides.
    pub slide: SlideFigures,
    /// For what turns: a random part of a step in time.
    pub offset: Scalar,
}

impl BehaviourView {
    /// Whether an entity of the class can be used: a brush that turns can aim
    /// at a new speed.
    pub open spec fn usable(self, core: CoreView) -> bool {
        self matches BehaviourView::Mover(MoverView::Rotating(r)) ==> r.can_aim(core)
    }
}

impl Step<MoverView> {
    #[verifier::opaque]
    pub open spec fn mover_used(self, use_type: UseType, activator: Option<EntityId>, figures: UseFigures) -> Step<MoverView> {
        match self.me {
            MoverView::Button(b) => {
                let after = step(b, self.core, self.cx).used(activator);
                step(MoverView::Button(after.me), after.core, after.cx)
            },
            MoverView::MoveLinear(m) => if use_type == UseType::SetTo {
                let after = step(m, self.core, self.cx).bound_for(figures.slide.target, figures.slide.speed);
                step(MoverView::MoveLinear(after.me), after.core, after.cx)
            } else {
                self
            },
            MoverView::Rotating(r) => {
                let after = step(r, self.core, self.cx).used(figures.offset);
                step(MoverView::Rotating(after.me), after.core, after.cx)
            },
            MoverView::Door(d) => self,
        }
    }
}

impl Step<BehaviourView> {
    /// Used. A button is pressed, a turning brush starts or stops, a sliding
    /// one goes where it is set to; nothing else minds.
    pub open spec fn used(self, use_type: UseType, activator: Option<EntityId>, figures: UseFigures) -> Step<BehaviourView> {
        match self.me {
            BehaviourView::Mover(m) => {
                let after = step(m, self.core, self.cx).mover_used(use_type, activator, figures);
                step(BehaviourView::Mover(after.me), after.core, after.cx)
            },
            _ => self,
        }
    }
}

impl Mover {
    fn use_entity(
        &mut self,
        entity: &mut EntityCore,
        use_type: UseType,
        input: &Input<'_>,
        figures: &UseFigures,
        cx: &mut Context,
    )
        requires
            BehaviourView::Mover(old(self)@).usable(old(entity)@),
        ensures
            step(final(self)@, final(entity)@, final(cx)@) == step(old(self)@, old(entity)@, old(cx)@).mover_used(
                use_type,
                input.activator,
                *figures,
            ),
    {
        reveal(mover_view);
        reveal(Step::<_>::mover_used);
        match self {
            Mover::Button(b) => b.use_entity(entity, use_type, input, cx),
            Mover::MoveLinear(m) => m.use_entity(entity, use_type, &figures.slide, cx),
            Mover::Rotating(r) => r.use_entity(entity, figures.offset, cx),
            Mover::Door(_) => {}
        }
    }
}

impl Behaviour {
    /// Whether an entity of the class can be used.
    pub fn is_usable(&self, entity: &EntityCore) -> (r: bool)
        ensures
            r == self@.usable(entity@),
    {
        reveal(mover_view);
        match self {
            Behaviour::Mover(Mover::Rotating(s)) => s.may_aim(entity),
            _ => true,
        }
    }

    /// Uses the entity.
    pub fn use_entity(
        &mut self,
        entity: &mut EntityCore,
        use_type: UseType,
        input: &Input<'_>,
        figures: &UseFigures,
        cx: &mut Context,
    )
        requires
            old(self)@.usable(old(entity)@),
        ensures
            step(final(self)@, final(entity)@, final(cx)@) == step(old(self)@, old(entity)@, old(cx)@).used(
                use_type,
                input.activator,
                *figures,
            ),
    {
        match self {
            Behaviour::Mover(m) => m.use_entity(entity, use_type, input, figures, cx),
            _ => {}
        }
    }
}

// ---------------------------------------------------------------------------
// What the inputs do
// ---------------------------------------------------------------------------

/// The filter that damage has to pass, by its name. No name, no filter.
pub open spec fn refiltered(core: CoreView, cx: ContextView, name: Seq<char>) -> CoreView {
    CoreView {
        damage_filter_name: if name.len() == 0 { None } else { Some(name) },
        vitals: Vitals {
            damage_filter: if name.len() == 0 { None } else { cx.named(name) },
            ..core.vitals
        },
        ..core
    }
}

/// The parent that a text names to an event.
pub open spec fn parent_named(cx: ContextView, name: Seq<char>, activator: Option<EntityId>) -> Option<EntityId> {
    if name.len() == 0 {
        None
    } else {
        cx.targeted(name, None, activator, None)
    }
}

/// An entity pinned where it hangs. It stays where it was, or goes onto the
/// very point.
pub open spec fn pinned(core: CoreView, maintain_offset: bool) -> CoreView {
    let still = core.with_body(Body { move_type: MoveType::Still, ..core.body });
    if maintain_offset {
        still
    } else {
        still.local_origin_at(origin()).local_angles_at(origin())
    }
}

impl<S> Step<S> {
    /// A new parent, or none.
    pub open spec fn parented(self, parent: Option<EntityId>) -> Step<S> {
        step(self.me, self.core.child_of(parent, None), self.cx.parenting(self.core.id, parent, None))
    }

    /// Hung on a point of what the parent wears. Without a parent, or such a
    /// point on it, nothing happens.
    pub open spec fn hung(self, name: Seq<char>, maintain_offset: bool) -> Step<S> {
        match self.core.place.parent {
            Some(parent) => match self.cx.attachment_on(parent, name) {
                Some(point) => step(
                    self.me,
                    pinned(self.core.child_of(Some(parent), Some(point)), maintain_offset),
                    self.cx.parenting(self.core.id, Some(parent), Some(point)),
                ),
                None => self,
            },
            None => self,
        }
    }

    pub open spec fn drawn(self, drawn: bool) -> Step<S> {
        let effects = self.core.look.effects;
        self.with_core(
            CoreView {
                look: Look {
                    effects: if drawn { effects & !EF_NODRAW } else { effects | EF_NODRAW },
                    ..self.core.look
                },
                ..self.core
            },
        )
    }
}

/// The output that one of the numbered inputs fires.
pub open spec fn user_output(name: Seq<char>) -> Option<Seq<char>> {
    if same_name(name, "FireUser1"@) {
        Some("OnUser1"@)
    } else if same_name(name, "FireUser2"@) {
        Some("OnUser2"@)
    } else if same_name(name, "FireUser3"@) {
        Some("OnUser3"@)
    } else if same_name(name, "FireUser4"@) {
        Some("OnUser4"@)
    } else {
        None
    }
}

impl Step<BehaviourView> {
    /// What an input that every class has does.
    pub open spec fn base_input(self, input: Input, figures: UseFigures) -> Option<Step<BehaviourView>> {
        let name = input.name@;
        if same_name(name, "Kill"@) {
            Some(self.remove())
        } else if same_name(name, "SetDamageFilter"@) {
            Some(self.with_core(refiltered(self.core, self.cx, input.text@)))
        } else if same_name(name, "SetParent"@) {
            Some(self.parented(parent_named(self.cx, input.text@, input.activator)))
        } else if same_name(name, "SetParentAttachment"@) || same_name(name, "SetParentAttachmentMaintainOffset"@) {
            Some(self.hung(input.text@, same_name(name, "SetParentAttachmentMaintainOffset"@)))
        } else if same_name(name, "ClearParent"@) {
            Some(self.parented(None))
        } else if same_name(name, "Use"@) {
            Some(self.used(UseType::of(input.output_id), input.activator, figures))
        } else if same_name(name, "DisableDraw"@) {
            Some(self.drawn(false))
        } else if same_name(name, "EnableDraw"@) {
            Some(self.drawn(true))
        } else {
            match user_output(name) {
                Some(output) => Some(self.fire(output, Variant::Void, input.activator)),
                None => None,
            }
        }
    }
}

/// Hangs an entity on a point of what its parent wears.
fn hang(entity: &mut EntityCore, name: &str, maintain_offset: bool, cx: &mut Context)
    ensures
        step((), final(entity)@, final(cx)@) == step((), old(entity)@, old(cx)@).hung(name@, maintain_offset),
{
    let parent = match entity.place.parent {
        Some(parent) => parent,
        None => {
            return;
        }
    };
    let point = match cx.attachment(parent, name) {
        Some(point) => point,
        None => {
            return;
        }
    };
    cx.set_parent_attachment(entity, Some(parent), Some(point));
    entity.body.move_type = MoveType::Still;
    if !maintain_offset {
        entity.set_local_origin(origin());
        entity.set_local_angles(origin());
    }
}

/// The output that one of the numbered inputs fires.
fn user_output_of(name: &str) -> (r: Option<&'static str>)
    ensures
        r is Some == user_output(name@) is Some,
        r matches Some(output) ==> user_output(name@) == Some(output@),
{
    if name.eq_ignore_ascii_case("FireUser1") {
        Some("OnUser1")
    } else if name.eq_ignore_ascii_case("FireUser2") {
        Some("OnUser2")
    } else if name.eq_ignore_ascii_case("FireUser3") {
        Some("OnUser3")
    } else if name.eq_ignore_ascii_case("FireUser4") {
        Some("OnUser4")
    } else {
        None
    }
}

/// Takes an input that every class has. It is asked once the class has
/// declined.
pub fn base_accept_input(
    entity: &mut EntityCore,
    behaviour: &mut Behaviour,
    input: &Input<'_>,
    figures: &UseFigures,
    cx: &mut Context,
) -> (r: bool)
    requires
        same_name(input.name@, "Use"@) ==> old(behaviour)@.usable(old(entity)@),
    ensures
        answered(
            step(old(behaviour)@, old(entity)@, old(cx)@).base_input(*input, *figures),
            step(old(behaviour)@, old(entity)@, old(cx)@),
            r,
            step(final(behaviour)@, final(entity)@, final(cx)@),
        ),
{
    let name = input.name;
    if name.eq_ignore_ascii_case("Kill") {
        entity.remove();
        return true;
    }
    if name.eq_ignore_ascii_case("SetDamageFilter") {
        let empty = input.text.as_str().is_empty();
        entity.damage_filter_name = if empty { None } else { Some(input.text.clone()) };
        entity.vitals.damage_filter = if empty { None } else { cx.find_by_name(input.text.as_str()) };
        return true;
    }
    if name.eq_ignore_ascii_case("SetParent") {
        let parent = if input.text.as_str().is_empty() {
            None
        } else {
            cx.find_target(input.text.as_str(), None, input.activator, None)
        };
        cx.set_parent(entity, parent);
        return true;
    }
    let maintain_offset = name.eq_ignore_ascii_case("SetParentAttachmentMaintainOffset");
    if name.eq_ignore_ascii_case("SetParentAttachment") || maintain_offset {
        hang(entity, input.text.as_str(), maintain_offset, cx);
        return true;
    }
    if name.eq_ignore_ascii_case("ClearParent") {
        cx.set_parent(entity, None);
        return true;
    }
    if name.eq_ignore_ascii_case("Use") {
        behaviour.use_entity(entity, UseType::from_output_id(input.output_id), input, figures, cx);
        return true;
    }
    if name.eq_ignore_ascii_case("DisableDraw") {
        entity.look.effects = entity.look.effects | EF_NODRAW;
        return true;
    }
    if name.eq_ignore_ascii_case("EnableDraw") {
        entity.look.effects = entity.look.effects & !EF_NODRAW;
        return true;
    }
    match user_output_of(name) {
        Some(output) => {
            entity.fire_output(output, Variant::Void, input.activator, Some(entity.id()), num(ZERO), cx);
            true
        }
        None => false,
    }
}

// ---------------------------------------------------------------------------
// Damage
// ---------------------------------------------------------------------------

/// An entity that has been killed: nothing hurts it any more, and it goes.
pub open spec fn killed(core: CoreView) -> CoreView {
    core.with_vitals(
        Vitals { take_damage: DamageMode::No, life_state: LifeState::Dead, ..core.vitals },
    ).gone()
}

/// Kills an entity.
pub fn event_killed(entity: &mut EntityCore)
    ensures
        final(entity)@ == killed(old(entity)@),
{
    entity.vitals.take_damage = DamageMode::No;
    entity.vitals.life_state = LifeState::Dead;
    entity.remove();
}

impl Step<BehaviourView> {
    /// Whether damage comes to nothing, whatever it amounts to.
    pub open spec fn spared(self, damage: Scalar) -> bool {
        self.me matches BehaviourView::Actor(ActorView::Player(p)) && step(p, self.core, self.cx).spared(damage)
    }

    /// Hurt.
    pub open spec fn hurt(self, damage: Scalar, wound: Wound) -> Step<BehaviourView> {
        match self.me {
            BehaviourView::Actor(ActorView::Player(p)) => {
                let after = step(p, self.core, self.cx).hurt(damage, wound);
                step(BehaviourView::Actor(ActorView::Player(after.me)), after.core, after.cx)
            },
            _ => {
                let wounded = self.core.with_vitals(
                    Vitals { health: wound.health, accumulator: wound.accumulator, ..self.core.vitals },
                );
                self.with_core(if wound.result == Damaged::Killed { killed(wounded) } else { wounded })
            },
        }
    }
}

impl Behaviour {
    /// Hurts the entity. `wound` is what the damage comes to on its health.
    pub fn on_take_damage(&mut self, entity: &mut EntityCore, info: &DamageInfo, wound: &Wound, cx: &Context) -> (r: Damaged)
        ensures
            r == (if step(old(self)@, old(entity)@, cx@).spared(info.damage) {
                Damaged::Refused
            } else {
                wound.result
            }),
            step(final(self)@, final(entity)@, cx@) == step(old(self)@, old(entity)@, cx@).hurt(info.damage, *wound),
    {
        reveal(actor_view);
        match self {
            Behaviour::Actor(Actor::Player(player)) => player.on_take_damage(entity, info, wound, cx),
            _ => {
                entity.vitals.health = wound.health;
                entity.vitals.accumulator = wound.accumulator;
                if wound.result == Damaged::Killed {
                    event_killed(entity);
                }
                wound.result
            }
        }
    }
}

// ---------------------------------------------------------------------------
// Laws
// ---------------------------------------------------------------------------

/// Every input that is declared for all classes is handled, and nothing else
/// is, whatever the entity is doing.
pub proof fn base_inputs_are_those_handled(state: Step<BehaviourView>, input: Input, figures: UseFigures)
    ensures
        state.base_input(input, figures) is Some <==> base_takes(input.name@) is Some,
{
    reveal_with_fuel(input_place, 14);
}

/// Taking the parent away twice is taking it away once, but for what the
/// server is told.
pub proof fn clearing_a_parent_lasts(state: Step<BehaviourView>)
    ensures
        state.parented(None).core.place.parent is None,
        state.parented(None).parented(None).core == state.parented(None).core,
{
}

/// What is drawn again after it was not is drawn as before, if it was drawn.
pub proof fn drawing_undoes_not_drawing(state: Step<BehaviourView>)
    requires
        state.core.look.effects & EF_NODRAW == 0,
    ensures
        state.drawn(false).drawn(true) == state,
        state.drawn(true) == state,
{
    let effects = state.core.look.effects;
    assert((effects | EF_NODRAW) & !EF_NODRAW == effects && effects & !EF_NODRAW == effects) by (bit_vector)
        requires
            effects & EF_NODRAW == 0,
    ;
}

/// An entity that has been killed takes no more damage.
pub proof fn the_killed_cannot_be_hurt(core: CoreView)
    ensures
        !killed(core).vitals.take_damage.open_to_damage(),
        !killed(core).alive(),
{
}

} // verus!
