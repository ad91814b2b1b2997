//! The kinds of trigger: fire, hurt, push, teleport.
use vstd::prelude::*;

use crate::class::SpawnResult;
use crate::classes::trigger::{
    trigger_body, trigger_flags, BaseTrigger, BaseTriggerView, SF_TRIG_PUSH_ONCE,
};
use crate::context::{Context, ContextView, Placement, Teleport};
use crate::damage::DMG_RADIATION;
use crate::entity::{
    text_of, CoreView, Drive, EntityCore, EntityId, MoveType, Place, Schedule, FL_BASEVELOCITY, FL_ONGROUND,
};
use crate::io::{Input, Value, Variant};
use crate::list::{contains_id, EntityView};
use crate::scalar::{num, origin, Scalar, Vector, FIFTH, HALF, HUNDRED, MINUS_ONE, QUARTER, TENTH, TWENTY, ZERO};
use crate::step::{answered, step, Step};
use crate::text::{atoi, integer_of, same_name};

verus! {

// ---------------------------------------------------------------------------
// trigger_multiple and trigger_once
// ---------------------------------------------------------------------------

/// What such a trigger does when it thinks.
#[derive(Debug, Clone, Copy, PartialEq, Eq, Structural)]
pub enum MultipleThink {
    Nothing,
    /// It can be set off again.
    WaitOver,
    /// It goes.
    Remove,
}

/// Fires when something stands in it, and then not again for a while, or never.
#[derive(Debug)]
pub struct TriggerMultiple {
    pub base: BaseTrigger,
    pub wait: Scalar,
    /// It is to fire once and go.
    pub once: bool,
    pub touch_enabled: bool,
    pub think: MultipleThink,
}

pub struct TriggerMultipleView {
    pub base: BaseTriggerView,
    pub wait: Scalar,
    pub once: bool,
    pub touch_enabled: bool,
    pub think: MultipleThink,
}

impl View for TriggerMultiple {
    type V = TriggerMultipleView;

    open spec fn view(&self) -> TriggerMultipleView {
        TriggerMultipleView {
            base: self.base@,
            wait: self.wait,
            once: self.once,
            touch_enabled: self.touch_enabled,
            think: self.think,
        }
    }
}

impl TriggerMultipleView {
    pub open spec fn fresh(once: bool) -> TriggerMultipleView {
        TriggerMultipleView {
            base: BaseTriggerView::fresh(),
            wait: num(ZERO),
            once,
            touch_enabled: true,
            think: MultipleThink::Nothing,
        }
    }

    #[verifier::opaque]
    pub open spec fn keyed(self, key: Seq<char>, value: Value) -> Option<TriggerMultipleView> {
        if !self.once && same_name(key, "wait"@) {
            Some(TriggerMultipleView { wait: value.number, ..self })
        } else {
            match self.base.keyed(key, value.text@) {
                Some(base) => Some(TriggerMultipleView { base, ..self }),
                None => None,
            }
        }
    }
}

impl Step<TriggerMultipleView> {
    pub open spec fn base(self) -> Step<BaseTriggerView> {
        step(self.me.base, self.core, self.cx)
    }

    pub open spec fn after(self, base: Step<BaseTriggerView>) -> Step<TriggerMultipleView> {
        step(TriggerMultipleView { base: base.me, ..self.me }, base.core, base.cx)
    }

    pub open spec fn spawned(self) -> Step<TriggerMultipleView> {
        let wait = if self.me.once {
            num(MINUS_ONE)
        } else if self.me.wait.same(num(ZERO)) {
            num(FIFTH)
        } else {
            self.me.wait
        };
        let base = BaseTriggerView { touching: Seq::empty(), ..self.me.base };
        self.with(TriggerMultipleView { base, wait, ..self.me }).with_core(
            trigger_body(trigger_flags(self.core), self.me.base.disabled),
        )
    }

    /// Set off, unless it was a short while ago: a think that is still to come
    /// is what keeps it from firing again.
    pub open spec fn set_off(self, activator: EntityId) -> Step<TriggerMultipleView> {
        if self.cx.time.curtime.less(self.core.agenda.next_think) {
            self
        } else {
            let fired = self.fire("OnTrigger"@, Variant::Void, Some(activator));
            if num(ZERO).less(self.me.wait) {
                fired.with(TriggerMultipleView { think: MultipleThink::WaitOver, ..self.me }).think(
                    Schedule::After(self.me.wait),
                )
            } else {
                fired.with(
                    TriggerMultipleView { touch_enabled: false, think: MultipleThink::Remove, ..self.me },
                ).think(Schedule::After(num(TENTH)))
            }
        }
    }

    pub open spec fn touched(self, other: EntityId) -> Step<TriggerMultipleView> {
        if self.me.touch_enabled && self.me.base.lets_in(self.core, other, self.cx) {
            self.set_off(other)
        } else {
            self
        }
    }

    pub open spec fn thought(self) -> Step<TriggerMultipleView> {
        let awake = self.with(TriggerMultipleView { think: MultipleThink::Nothing, ..self.me });
        if self.me.think == MultipleThink::Remove {
            awake.remove()
        } else {
            awake
        }
    }

    #[verifier::opaque]
    pub open spec fn trigger_multiple_input(self, input: Input) -> Option<Step<TriggerMultipleView>> {
        match self.base().base_trigger_input(input) {
            Some(base) => Some(self.after(base)),
            None => None,
        }
    }
}

impl TriggerMultiple {
    pub fn new(once: bool) -> (r: TriggerMultiple)
        ensures
            r@ == TriggerMultipleView::fresh(once),
    {
        TriggerMultiple {
            base: BaseTrigger::new(),
            wait: num(ZERO),
            once,
            touch_enabled: true,
            think: MultipleThink::Nothing,
        }
    }

    pub fn create() -> (r: TriggerMultiple)
        ensures
            r@ == TriggerMultipleView::fresh(false),
    {
        TriggerMultiple::new(false)
    }

    pub fn create_once() -> (r: TriggerMultiple)
        ensures
            r@ == TriggerMultipleView::fresh(true),
    {
        TriggerMultiple::new(true)
    }

    pub fn activate_multi_trigger(&mut self, entity: &mut EntityCore, activator: EntityId, cx: &mut Context)
        ensures
            step(final(self)@, final(entity)@, final(cx)@) == step(old(self)@, old(entity)@, old(cx)@).set_off(
                activator,
            ),
    {
        if cx.curtime().lt(entity.next_think()) {
            return;
        }
        let me = Some(entity.id());
        entity.fire_output("OnTrigger", Variant::Void, Some(activator), me, num(ZERO), cx);
        if num(ZERO).lt(self.wait) {
            self.think = MultipleThink::WaitOver;
            entity.set_next_think(Schedule::After(self.wait));
        } else {
            self.touch_enabled = false;
            self.think = MultipleThink::Remove;
            entity.set_next_think(Schedule::After(num(TENTH)));
        }
    }

    pub fn key_value(&mut self, key: &str, value: &Value) -> (r: bool)
        ensures
            r == old(self)@.keyed(key@, *value) is Some,
            final(self)@ == old(self)@.keyed(key@, *value).unwrap_or(old(self)@),
    {
        reveal(TriggerMultipleView::keyed);
        if !self.once && key.eq_ignore_ascii_case("wait") {
            self.wait = value.number;
            return true;
        }
        self.base.key_value(key, value.text.as_str())
    }

    pub fn spawn(&mut self, entity: &mut EntityCore, cx: &mut Context) -> (r: SpawnResult)
        ensures
            r == SpawnResult::Keep,
            step(final(self)@, final(entity)@, final(cx)@) == step(old(self)@, old(entity)@, old(cx)@).spawned(),
    {
        self.base.spawn(entity);
        self.base.init_trigger(entity);
        if self.wait.equals(num(ZERO)) {
            self.wait = num(FIFTH);
        }
        if self.once {
            self.wait = num(MINUS_ONE);
        }
        SpawnResult::Keep
    }

    pub fn activate(&mut self, cx: &Context)
        ensures
            final(self)@ == (TriggerMultipleView { base: old(self)@.base.activated(cx@), ..old(self)@ }),
    {
        self.base.activate(cx);
    }

    pub fn think(&mut self, entity: &mut EntityCore, cx: &mut Context)
        ensures
            step(final(self)@, final(entity)@, final(cx)@) == step(old(self)@, old(entity)@, old(cx)@).thought(),
    {
        let think = self.think;
        self.think = MultipleThink::Nothing;
        match think {
            MultipleThink::Nothing => {}
            MultipleThink::WaitOver => {}
            MultipleThink::Remove => entity.remove(),
        }
    }

    pub fn start_touch(&mut self, entity: &EntityCore, other: EntityId, cx: &mut Context)
        ensures
            step(final(self)@, entity@, final(cx)@) == step(old(self)@, entity@, old(cx)@).after(
                step(old(self)@, entity@, old(cx)@).base().entered(
                    old(self)@.base.lets_in(entity@, other, old(cx)@),
                    other,
                ),
            ),
    {
        self.base.start_touch(entity, other, cx);
    }

    /// Something stands in it.
    pub fn touch(&mut self, entity: &mut EntityCore, other: EntityId, cx: &mut Context)
        ensures
            step(final(self)@, final(entity)@, final(cx)@) == step(old(self)@, old(entity)@, old(cx)@).touched(other),
    {
        if !self.touch_enabled {
            return;
        }
        if self.base.passes_trigger_filters(entity, other, cx) {
            self.activate_multi_trigger(entity, other, cx);
        }
    }

    pub fn end_touch(&mut self, entity: &EntityCore, other: EntityId, cx: &mut Context)
        ensures
            step(final(self)@, entity@, final(cx)@) == step(old(self)@, entity@, old(cx)@).after(
                step(old(self)@, entity@, old(cx)@).base().left(other),
            ),
    {
        self.base.end_touch(entity, other, cx);
    }

    pub fn accept_input(&mut self, entity: &mut EntityCore, input: &Input<'_>, cx: &mut Context) -> (r: bool)
        ensures
            answered(
                step(old(self)@, old(entity)@, old(cx)@).trigger_multiple_input(*input),
                step(old(self)@, old(entity)@, old(cx)@),
                r,
                step(final(self)@, final(entity)@, final(cx)@),
            ),
    {
        reveal(Step::<_>::trigger_multiple_input);
        self.base.accept_input(entity, input, cx)
    }
}

// ---------------------------------------------------------------------------
// trigger_hurt
// ---------------------------------------------------------------------------

/// The damage doubles for as long as somebody is hurt, and is forgiven after a
/// while without.
pub const DAMAGEMODEL_DOUBLE_FORGIVENESS: i32 = 1;

/// What such a trigger does when it thinks.
#[derive(Debug, Clone, Copy, PartialEq, Eq, Structural)]
pub enum HurtThink {
    Nothing,
    /// It hurts what stands in it, twice a second.
    Hurt,
    /// It does so from a clock that never stops.
    Radiation,
}

/// What a map says of how a trigger hurts.
#[derive(Debug, Clone, Copy, PartialEq, Eq, Structural)]
pub struct HurtKeys {
    pub damage_cap: Scalar,
    pub damage_type: i32,
    pub damage_model: i32,
    pub no_damage_force: bool,
}

/// How much a trigger hurts now, and since when.
#[derive(Debug, Clone, Copy, PartialEq, Eq, Structural)]
pub struct Dose {
    pub damage: Scalar,
    pub original_damage: Scalar,
    pub last_damage_time: Scalar,
    pub damage_reset_time: Scalar,
}

/// Hurts what stands in it.
#[derive(Debug)]
pub struct TriggerHurt {
    pub base: BaseTrigger,
    pub keys: HurtKeys,
    pub dose: Dose,
    /// Who was hurt the last time that everybody in it was to be.
    pub hurt_entities: Vec<EntityId>,
    pub think: HurtThink,
}

pub struct TriggerHurtView {
    pub base: BaseTriggerView,
    pub keys: HurtKeys,
    pub dose: Dose,
    pub hurt_entities: Seq<EntityId>,
    pub think: HurtThink,
}

impl View for TriggerHurt {
    type V = TriggerHurtView;

    open spec fn view(&self) -> TriggerHurtView {
        TriggerHurtView {
            base: self.base@,
            keys: self.keys,
            dose: self.dose,
            hurt_entities: self.hurt_entities@,
            think: self.think,
        }
    }
}

/// What a hurting trigger's numbers come to.
#[derive(Debug, Clone, Copy)]
pub struct HurtFigures {
    /// Twice its damage.
    pub doubled: Scalar,
    /// Three seconds from now.
    pub forgiven_at: Scalar,
    /// How long ago it last hurt.
    pub since: Scalar,
}

impl TriggerHurtView {
    /// Whether its damage is of the kind that comes at a drawn time.
    pub open spec fn radiating(self) -> bool {
        self.keys.damage_type & DMG_RADIATION != 0
    }

    pub open spec fn fresh() -> TriggerHurtView {
        TriggerHurtView {
            base: BaseTriggerView::fresh(),
            keys: HurtKeys { damage_cap: num(TWENTY), damage_type: 0, damage_model: 0, no_damage_force: false },
            dose: Dose {
                damage: num(ZERO),
                original_damage: num(ZERO),
                last_damage_time: num(ZERO),
                damage_reset_time: num(ZERO),
            },
            hurt_entities: Seq::empty(),
            think: HurtThink::Nothing,
        }
    }

    pub open spec fn with_keys(self, keys: HurtKeys) -> TriggerHurtView {
        TriggerHurtView { keys, ..self }
    }

    #[verifier::opaque]
    pub open spec fn keyed(self, key: Seq<char>, value: Value) -> Option<TriggerHurtView> {
        let number = integer_of(value.text@);
        if same_name(key, "damage"@) {
            Some(TriggerHurtView { dose: Dose { damage: value.number, ..self.dose }, ..self })
        } else if same_name(key, "damagecap"@) {
            Some(self.with_keys(HurtKeys { damage_cap: value.number, ..self.keys }))
        } else if same_name(key, "damagetype"@) {
            Some(self.with_keys(HurtKeys { damage_type: number as i32, ..self.keys }))
        } else if same_name(key, "damagemodel"@) {
            Some(self.with_keys(HurtKeys { damage_model: number as i32, ..self.keys }))
        } else if same_name(key, "nodmgforce"@) {
            Some(self.with_keys(HurtKeys { no_damage_force: number != 0, ..self.keys }))
        } else {
            match self.base.keyed(key, value.text@) {
                Some(base) => Some(TriggerHurtView { base, ..self }),
                None => None,
            }
        }
    }
}

impl Step<TriggerHurtView> {
    pub open spec fn base(self) -> Step<BaseTriggerView> {
        step(self.me.base, self.core, self.cx)
    }

    pub open spec fn after(self, base: Step<BaseTriggerView>) -> Step<TriggerHurtView> {
        step(TriggerHurtView { base: base.me, ..self.me }, base.core, base.cx)
    }

    /// Whether an entity can be hurt by it: it takes damage, and may set it
    /// off.
    pub open spec fn hurts(self, other: EntityId) -> bool {
        self.cx.at(other) matches Some(e) && e.core.vitals.take_damage.open_to_damage()
            && self.me.base.lets_in(self.core, other, self.cx)
    }

    /// One entity hurt, if it can be. Players have an output of their own.
    pub open spec fn hurt(self, other: EntityId) -> Step<TriggerHurtView> {
        if self.hurts(other) {
            self.fire(
                if (self.cx.at(other)->0).behaviour.plays() { "OnHurtPlayer"@ } else { "OnHurt"@ },
                Variant::Void,
                Some(other),
            ).with(TriggerHurtView { hurt_entities: self.me.hurt_entities.push(other), ..self.me })
        } else {
            self
        }
    }

    /// Each of the first `n` entities hurt in turn.
    pub open spec fn hurt_each(self, others: Seq<EntityId>, n: int) -> Step<TriggerHurtView>
        decreases n,
    {
        if n <= 0 {
            self
        } else {
            self.hurt_each(others, n - 1).hurt(others[n - 1])
        }
    }

    /// The damage doubled, up to its cap, or forgiven.
    pub open spec fn dosed(self, hurt_any: bool, figures: HurtFigures) -> Step<TriggerHurtView> {
        let dose = if self.me.keys.damage_model != DAMAGEMODEL_DOUBLE_FORGIVENESS {
            self.me.dose
        } else if hurt_any {
            Dose {
                damage: if self.me.keys.damage_cap.less(figures.doubled) {
                    self.me.keys.damage_cap
                } else {
                    figures.doubled
                },
                damage_reset_time: figures.forgiven_at,
                ..self.me.dose
            }
        } else if self.me.dose.damage_reset_time.less(self.cx.time.curtime) {
            Dose { damage: self.me.dose.original_damage, ..self.me.dose }
        } else {
            self.me.dose
        };
        self.with(TriggerHurtView { dose, ..self.me })
    }

    /// Everybody in it hurt, before the damage is doubled or forgiven.
    pub open spec fn struck(self) -> Step<TriggerHurtView> {
        let links = self.core.touch_links;
        self.with(
            TriggerHurtView {
                dose: Dose { last_damage_time: self.cx.time.curtime, ..self.me.dose },
                hurt_entities: Seq::empty(),
                ..self.me
            },
        ).hurt_each(links, links.len() as int)
    }

    /// Everybody in it hurt, and what that does to the damage.
    pub open spec fn hurt_all(self, figures: HurtFigures) -> Step<TriggerHurtView> {
        self.struck().dosed(self.struck().me.hurt_entities.len() > 0, figures)
    }

    pub open spec fn spawned(self, drawn: Scalar) -> Step<TriggerHurtView> {
        let base = BaseTriggerView { touching: Seq::empty(), ..self.me.base };
        let radiates = self.me.radiating();
        self.with(
            TriggerHurtView {
                base,
                dose: Dose { original_damage: self.me.dose.damage, ..self.me.dose },
                think: if radiates { HurtThink::Radiation } else { HurtThink::Nothing },
                ..self.me
            },
        ).with_core(trigger_body(trigger_flags(self.core), self.me.base.disabled)).think(
            if radiates { Schedule::After(drawn) } else { Schedule::Never },
        )
    }

    pub open spec fn thought(self, figures: HurtFigures) -> Step<TriggerHurtView> {
        match self.me.think {
            HurtThink::Nothing => self,
            HurtThink::Hurt => {
                let done = self.hurt_all(figures);
                if done.me.hurt_entities.len() == 0 {
                    done.with(TriggerHurtView { think: HurtThink::Nothing, ..done.me })
                } else {
                    done.think(Schedule::After(num(HALF)))
                }
            },
            HurtThink::Radiation => (if num(HALF).at_most(figures.since) { self.hurt_all(figures) } else { self }).think(
                Schedule::After(num(QUARTER)),
            ),
        }
    }

    /// Somebody stands in it: it starts to hurt, unless it does already.
    pub open spec fn touched(self) -> Step<TriggerHurtView> {
        if self.me.think == HurtThink::Nothing {
            self.with(TriggerHurtView { think: HurtThink::Hurt, ..self.me }).think(Schedule::Now)
        } else {
            self
        }
    }

    /// Somebody left. Whoever has not been hurt yet is hurt on the way out.
    pub open spec fn left(self, other: EntityId) -> Step<TriggerHurtView> {
        let parted = if self.me.base.lets_in(self.core, other, self.cx) && !self.me.hurt_entities.contains(other) {
            self.hurt(other)
        } else {
            self
        };
        parted.after(parted.base().left(other))
    }

    #[verifier::opaque]
    pub open spec fn trigger_hurt_input(self, input: Input) -> Option<Step<TriggerHurtView>> {
        if same_name(input.name@, "SetDamage"@) {
            Some(
                self.with(
                    TriggerHurtView { dose: Dose { damage: input.value.number(), ..self.me.dose }, ..self.me },
                ),
            )
        } else {
            match self.base().base_trigger_input(input) {
                Some(base) => Some(self.after(base)),
                None => None,
            }
        }
    }
}

impl TriggerHurt {
    /// Whether a number is drawn when it spawns.
    pub fn radiates(&self) -> (r: bool)
        ensures
            r == self@.radiating(),
    {
        self.keys.damage_type & DMG_RADIATION != 0
    }

    pub fn create() -> (r: TriggerHurt)
        ensures
            r@ == TriggerHurtView::fresh(),
    {
        let r = TriggerHurt {
            base: BaseTrigger::new(),
            keys: HurtKeys { damage_cap: num(TWENTY), damage_type: 0, damage_model: 0, no_damage_force: false },
            dose: Dose {
                damage: num(ZERO),
                original_damage: num(ZERO),
                last_damage_time: num(ZERO),
                damage_reset_time: num(ZERO),
            },
            hurt_entities: Vec::new(),
            think: HurtThink::Nothing,
        };
        assert(r@.hurt_entities =~= Seq::empty());
        r
    }

    /// Hurts one entity. Whether it could be hurt.
    pub fn hurt_entity(&mut self, entity: &EntityCore, other: EntityId, cx: &mut Context) -> (r: bool)
        ensures
            r == step(old(self)@, entity@, old(cx)@).hurts(other),
            step(final(self)@, entity@, final(cx)@) == step(old(self)@, entity@, old(cx)@).hurt(other),
    {
        let (takes_damage, is_player) = match cx.entity(other) {
            Some(e) => (e.core.vitals.take_damage.takes_damage(), e.behaviour.is_player()),
            None => {
                return false;
            }
        };
        if !takes_damage || !self.base.passes_trigger_filters(entity, other, cx) {
            return false;
        }
        let output = if is_player {
            "OnHurtPlayer"
        } else {
            "OnHurt"
        };
        entity.fire_output(output, Variant::Void, Some(other), Some(entity.id()), num(ZERO), cx);
        self.hurt_entities.push(other);
        true
    }

    /// Hurts everybody in it. How many could be hurt.
    pub fn hurt_all_touchers(&mut self, entity: &EntityCore, figures: &HurtFigures, cx: &mut Context) -> (r: usize)
        ensures
            r == final(self)@.hurt_entities.len(),
            step(final(self)@, entity@, final(cx)@) == step(old(self)@, entity@, old(cx)@).hurt_all(*figures),
    {
        self.dose.last_damage_time = cx.curtime();
        self.hurt_entities.clear();
        assert(self.hurt_entities@ =~= Seq::empty());
        let ghost start = step(self@, entity@, cx@);
        let mut i: usize = 0;
        while i < entity.touch_links.len()
            invariant
                i <= entity.touch_links.len(),
                step(self@, entity@, cx@) == start.hurt_each(entity.touch_links@, i as int),
            decreases entity.touch_links.len() - i,
        {
            self.hurt_entity(entity, entity.touch_links[i], cx);
            i = i + 1;
        }
        let hurt_count: usize = self.hurt_entities.len();
        proof {
            hurting_keeps_the_clock(start, entity@.touch_links, entity@.touch_links.len() as int);
        }
        if self.keys.damage_model == DAMAGEMODEL_DOUBLE_FORGIVENESS {
            if hurt_count == 0 {
                if self.dose.damage_reset_time.lt(cx.curtime()) {
                    self.dose.damage = self.dose.original_damage;
                }
            } else {
                self.dose.damage = if self.keys.damage_cap.lt(figures.doubled) {
                    self.keys.damage_cap
                } else {
                    figures.doubled
                };
                self.dose.damage_reset_time = figures.forgiven_at;
            }
        }
        hurt_count
    }

    pub fn key_value(&mut self, key: &str, value: &Value) -> (r: bool)
        ensures
            r == old(self)@.keyed(key@, *value) is Some,
            final(self)@ == old(self)@.keyed(key@, *value).unwrap_or(old(self)@),
    {
        reveal(TriggerHurtView::keyed);
        if key.eq_ignore_ascii_case("damage") {
            self.dose.damage = value.number;
            return true;
        }
        if key.eq_ignore_ascii_case("damagecap") {
            self.keys.damage_cap = value.number;
            return true;
        }
        if key.eq_ignore_ascii_case("damagetype") {
            self.keys.damage_type = atoi(value.text.as_str());
            return true;
        }
        if key.eq_ignore_ascii_case("damagemodel") {
            self.keys.damage_model = atoi(value.text.as_str());
            return true;
        }
        if key.eq_ignore_ascii_case("nodmgforce") {
            self.keys.no_damage_force = atoi(value.text.as_str()) != 0;
            return true;
        }
        self.base.key_value(key, value.text.as_str())
    }

    /// Takes its place. `drawn` is a number drawn between zero and a half.
    pub fn spawn(&mut self, entity: &mut EntityCore, drawn: Scalar, cx: &mut Context) -> (r: SpawnResult)
        ensures
            r == SpawnResult::Keep,
            step(final(self)@, final(entity)@, final(cx)@) == step(old(self)@, old(entity)@, old(cx)@).spawned(drawn),
    {
        self.base.spawn(entity);
        self.base.init_trigger(entity);
        self.dose.original_damage = self.dose.damage;
        if self.radiates() {
            self.think = HurtThink::Radiation;
            entity.set_next_think(Schedule::After(drawn));
        } else {
            self.think = HurtThink::Nothing;
            entity.set_next_think(Schedule::Never);
        }
        SpawnResult::Keep
    }

    pub fn activate(&mut self, cx: &Context)
        ensures
            final(self)@ == (TriggerHurtView { base: old(self)@.base.activated(cx@), ..old(self)@ }),
    {
        self.base.activate(cx);
    }

    pub fn think(&mut self, entity: &mut EntityCore, figures: &HurtFigures, cx: &mut Context)
        ensures
            step(final(self)@, final(entity)@, final(cx)@) == step(old(self)@, old(entity)@, old(cx)@).thought(*figures),
    {
        match self.think {
            HurtThink::Nothing => {}
            HurtThink::Hurt => {
                if self.hurt_all_touchers(entity, figures, cx) > 0 {
                    entity.set_next_think(Schedule::After(num(HALF)));
                } else {
                    self.think = HurtThink::Nothing;
                }
            }
            HurtThink::Radiation => {
                if num(HALF).le(figures.since) {
                    self.hurt_all_touchers(entity, figures, cx);
                }
                entity.set_next_think(Schedule::After(num(QUARTER)));
            }
        }
    }

    pub fn start_touch(&mut self, entity: &EntityCore, other: EntityId, cx: &mut Context)
        ensures
            step(final(self)@, entity@, final(cx)@) == step(old(self)@, entity@, old(cx)@).after(
                step(old(self)@, entity@, old(cx)@).base().entered(
                    old(self)@.base.lets_in(entity@, other, old(cx)@),
                    other,
                ),
            ),
    {
        self.base.start_touch(entity, other, cx);
    }

    /// Somebody stands in it.
    pub fn touch(&mut self, entity: &mut EntityCore, cx: &mut Context)
        ensures
            step(final(self)@, final(entity)@, final(cx)@) == step(old(self)@, old(entity)@, old(cx)@).touched(),
    {
        if self.think == HurtThink::Nothing {
            self.think = HurtThink::Hurt;
            entity.set_next_think(Schedule::Now);
        }
    }

    /// Somebody left.
    pub fn end_touch(&mut self, entity: &EntityCore, other: EntityId, cx: &mut Context)
        ensures
            step(final(self)@, entity@, final(cx)@) == step(old(self)@, entity@, old(cx)@).left(other),
    {
        if self.base.passes_trigger_filters(entity, other, cx) && !contains_id(&self.hurt_entities, other) {
            self.hurt_entity(entity, other, cx);
        }
        self.base.end_touch(entity, other, cx);
    }

    pub fn accept_input(&mut self, entity: &mut EntityCore, input: &Input<'_>, cx: &mut Context) -> (r: bool)
        ensures
            answered(
                step(old(self)@, old(entity)@, old(cx)@).trigger_hurt_input(*input),
                step(old(self)@, old(entity)@, old(cx)@),
                r,
                step(final(self)@, final(entity)@, final(cx)@),
            ),
    {
        reveal(Step::<_>::trigger_hurt_input);
        if input.name.eq_ignore_ascii_case("SetDamage") {
            self.dose.damage = input.value.float();
            return true;
        }
        self.base.accept_input(entity, input, cx)
    }
}

/// Hurting changes neither the clock nor the entity.
proof fn hurting_keeps_the_clock(state: Step<TriggerHurtView>, others: Seq<EntityId>, n: int)
    ensures
        state.hurt_each(others, n).cx.time == state.cx.time,
        state.hurt_each(others, n).core == state.core,
        state.hurt_each(others, n).me.dose == state.me.dose,
        state.hurt_each(others, n).me.keys == state.me.keys,
    decreases n,
{
    if n > 0 {
        hurting_keeps_the_clock(state, others, n - 1);
    }
}

/// Damage that doubles never passes its cap.
pub proof fn doubled_damage_stays_under_its_cap(state: Step<TriggerHurtView>, figures: HurtFigures)
    requires
        state.me.keys.damage_model == DAMAGEMODEL_DOUBLE_FORGIVENESS,
        state.me.keys.damage_cap.numeric(),
        figures.doubled.numeric(),
    ensures
        state.dosed(true, figures).me.dose.damage.at_most(state.me.keys.damage_cap),
{
}

/// A trigger that hurts nobody in it stops thinking of it, and one that does
/// goes on.
pub proof fn hurting_goes_on_while_somebody_is_hurt(state: Step<TriggerHurtView>, figures: HurtFigures)
    requires
        state.me.think == HurtThink::Hurt,
    ensures
        state.hurt_all(figures).me.hurt_entities.len() == 0 <==> state.thought(figures).me.think == HurtThink::Nothing,
{
    let struck = state.struck();
    hurting_keeps_think(
        state.with(
            TriggerHurtView {
                dose: Dose { last_damage_time: state.cx.time.curtime, ..state.me.dose },
                hurt_entities: Seq::empty(),
                ..state.me
            },
        ),
        state.core.touch_links,
        state.core.touch_links.len() as int,
    );
}

proof fn hurting_keeps_think(state: Step<TriggerHurtView>, others: Seq<EntityId>, n: int)
    ensures
        state.hurt_each(others, n).me.think == state.me.think,
    decreases n,
{
    if n > 0 {
        hurting_keeps_think(state, others, n - 1);
    }
}

// ---------------------------------------------------------------------------
// trigger_push
// ---------------------------------------------------------------------------

/// Pushes what stands in it.
#[derive(Debug)]
pub struct TriggerPush {
    pub base: BaseTrigger,
    /// Angles until it spawns, and from then on a direction in the entity's
    /// own frame.
    pub push_dir: Vector,
    pub alternate_ticks_fix: Scalar,
    pub push_speed: Scalar,
}

pub struct TriggerPushView {
    pub base: BaseTriggerView,
    pub push_dir: Vector,
    pub alternate_ticks_fix: Scalar,
    pub push_speed: Scalar,
}

impl View for TriggerPush {
    type V = TriggerPushView;

    open spec fn view(&self) -> TriggerPushView {
        TriggerPushView {
            base: self.base@,
            push_dir: self.push_dir,
            alternate_ticks_fix: self.alternate_ticks_fix,
            push_speed: self.push_speed,
        }
    }
}

/// What a push comes to on the entity that is pushed.
#[derive(Debug, Clone, Copy)]
pub struct PushFigures {
    /// How far up the push points.
    pub rise: Scalar,
    /// The push: its speed in its direction.
    pub push: Vector,
    /// The push and the base velocity that there is.
    pub push_on_base: Vector,
    /// The push and the velocity that there is.
    pub velocity: Vector,
    /// One unit above where the entity is.
    pub lifted: Scalar,
}

impl TriggerPushView {
    pub open spec fn fresh() -> TriggerPushView {
        TriggerPushView {
            base: BaseTriggerView::fresh(),
            push_dir: origin(),
            alternate_ticks_fix: num(ZERO),
            push_speed: num(ZERO),
        }
    }

    #[verifier::opaque]
    pub open spec fn keyed(self, key: Seq<char>, value: Value) -> Option<TriggerPushView> {
        if same_name(key, "pushdir"@) {
            Some(TriggerPushView { push_dir: value.vector, ..self })
        } else if same_name(key, "alternateticksfix"@) {
            Some(TriggerPushView { alternate_ticks_fix: value.number, ..self })
        } else {
            match self.base.keyed(key, value.text@) {
                Some(base) => Some(TriggerPushView { base, ..self }),
                None => None,
            }
        }
    }
}

/// An entity pushed once, for good.
pub open spec fn flung(core: CoreView, figures: PushFigures) -> CoreView {
    CoreView {
        flags: if num(ZERO).less(figures.rise) { core.flags & !FL_ONGROUND } else { core.flags },
        drive: Drive { velocity: figures.velocity, ..core.drive },
        ..core
    }
}

/// An entity carried along for as long as it stands in the push. A push
/// upwards takes it off the ground.
pub open spec fn carried(core: CoreView, figures: PushFigures) -> CoreView {
    let push = if core.flagged(FL_BASEVELOCITY) { figures.push_on_base } else { figures.push };
    let lift = num(ZERO).less(push.z) && core.flagged(FL_ONGROUND);
    CoreView {
        flags: (if lift { core.flags & !FL_ONGROUND } else { core.flags }) | FL_BASEVELOCITY,
        place: if lift {
            Place { origin: Vector { z: figures.lifted, ..core.place.origin }, ..core.place }
        } else {
            core.place
        },
        drive: Drive { base_velocity: push, ..core.drive },
        ..core
    }
}

/// Whether an entity can be pushed at all.
pub open spec fn pushable(core: CoreView) -> bool {
    core.collides() && core.body.move_type != MoveType::Push && core.body.move_type != MoveType::Still
}

impl Step<TriggerPushView> {
    pub open spec fn base(self) -> Step<BaseTriggerView> {
        step(self.me.base, self.core, self.cx)
    }

    pub open spec fn after(self, base: Step<BaseTriggerView>) -> Step<TriggerPushView> {
        step(TriggerPushView { base: base.me, ..self.me }, base.core, base.cx)
    }

    pub open spec fn spawned(self, direction: Vector) -> Step<TriggerPushView> {
        let base = BaseTriggerView { touching: Seq::empty(), ..self.me.base };
        let built = trigger_body(trigger_flags(self.core), self.me.base.disabled);
        self.with(TriggerPushView { base, push_dir: direction, ..self.me }).with_core(
            built.with_drive(
                Drive {
                    speed: if built.drive.speed.same(num(ZERO)) { num(HUNDRED) } else { built.drive.speed },
                    ..built.drive
                },
            ),
        )
    }

    pub open spec fn touched(self, other: EntityId, figures: PushFigures) -> Step<TriggerPushView> {
        match self.cx.at(other) {
            Some(e) => if !pushable(e.core) || !self.me.base.lets_in(self.core, other, self.cx)
                || e.core.place.parent is Some {
                self
            } else if self.core.spawned_with(SF_TRIG_PUSH_ONCE) {
                self.with_cx(self.cx.noting(other).with_core(other, flung(e.core, figures))).remove()
            } else if e.core.body.move_type == MoveType::Noclip {
                self
            } else {
                self.with_cx(self.cx.noting(other).with_core(other, carried(e.core, figures)))
            },
            None => self,
        }
    }

    #[verifier::opaque]
    pub open spec fn trigger_push_input(self, input: Input, direction: Vector) -> Option<Step<TriggerPushView>> {
        if same_name(input.name@, "SetPushDirection"@) {
            Some(self.with(TriggerPushView { push_dir: direction, ..self.me }))
        } else {
            match self.base().base_trigger_input(input) {
                Some(base) => Some(self.after(base)),
                None => None,
            }
        }
    }
}

impl TriggerPush {
    pub fn create() -> (r: TriggerPush)
        ensures
            r@ == TriggerPushView::fresh(),
    {
        TriggerPush {
            base: BaseTrigger::new(),
            push_dir: origin(),
            alternate_ticks_fix: num(ZERO),
            push_speed: num(ZERO),
        }
    }

    pub fn key_value(&mut self, key: &str, value: &Value) -> (r: bool)
        ensures
            r == old(self)@.keyed(key@, *value) is Some,
            final(self)@ == old(self)@.keyed(key@, *value).unwrap_or(old(self)@),
    {
        reveal(TriggerPushView::keyed);
        if key.eq_ignore_ascii_case("pushdir") {
            self.push_dir = value.vector;
            return true;
        }
        if key.eq_ignore_ascii_case("alternateticksfix") {
            self.alternate_ticks_fix = value.number;
            return true;
        }
        self.base.key_value(key, value.text.as_str())
    }

    /// Takes its place. `direction` is the one that its angles point in, in its
    /// own frame.
    pub fn spawn(&mut self, entity: &mut EntityCore, direction: Vector, cx: &mut Context) -> (r: SpawnResult)
        ensures
            r == SpawnResult::Keep,
            step(final(self)@, final(entity)@, final(cx)@) == step(old(self)@, old(entity)@, old(cx)@).spawned(
                direction,
            ),
    {
        self.push_dir = direction;
        self.base.spawn(entity);
        self.base.init_trigger(entity);
        if entity.drive.speed.equals(num(ZERO)) {
            entity.drive.speed = num(HUNDRED);
        }
        SpawnResult::Keep
    }

    /// Finds its filter. `doubled` is twice the entity's speed, which is what
    /// it pushes with.
    pub fn activate(&mut self, doubled: Scalar, cx: &Context)
        ensures
            final(self)@ == (TriggerPushView {
                base: old(self)@.base.activated(cx@),
                push_speed: doubled,
                ..old(self)@
            }),
    {
        self.base.activate(cx);
        self.push_speed = doubled;
    }

    pub fn start_touch(&mut self, entity: &EntityCore, other: EntityId, cx: &mut Context)
        ensures
            step(final(self)@, entity@, final(cx)@) == step(old(self)@, entity@, old(cx)@).after(
                step(old(self)@, entity@, old(cx)@).base().entered(
                    old(self)@.base.lets_in(entity@, other, old(cx)@),
                    other,
                ),
            ),
    {
        self.base.start_touch(entity, other, cx);
    }

    /// Something stands in it. `figures` is what the push comes to on that.
    pub fn touch(&mut self, entity: &mut EntityCore, other: EntityId, figures: &PushFigures, cx: &mut Context)
        ensures
            step(final(self)@, final(entity)@, final(cx)@) == step(old(self)@, old(entity)@, old(cx)@).touched(
                other,
                *figures,
            ),
    {
        let (solid, move_type, parented) = match cx.entity(other) {
            Some(e) => (e.core.is_solid(), e.core.body.move_type, e.core.place.parent.is_some()),
            None => {
                return;
            }
        };
        if !solid || move_type == MoveType::Push || move_type == MoveType::Still {
            return;
        }
        if !self.base.passes_trigger_filters(entity, other, cx) {
            return;
        }
        if parented {
            return;
        }
        if entity.has_spawn_flags(SF_TRIG_PUSH_ONCE) {
            match cx.entity_mut(other) {
                Some(core) => {
                    core.drive.velocity = figures.velocity;
                    if num(ZERO).lt(figures.rise) {
                        core.flags = core.flags & !FL_ONGROUND;
                    }
                }
                None => {}
            }
            entity.remove();
            return;
        }
        if move_type == MoveType::Noclip {
            return;
        }
        match cx.entity_mut(other) {
            Some(core) => TriggerPush::carry(core, figures),
            None => {}
        }
    }

    fn carry(core: &mut EntityCore, figures: &PushFigures)
        ensures
            final(core)@ == carried(old(core)@, *figures),
    {
        let push = if core.has_flags(FL_BASEVELOCITY) {
            figures.push_on_base
        } else {
            figures.push
        };
        if num(ZERO).lt(push.z) && core.has_flags(FL_ONGROUND) {
            core.flags = core.flags & !FL_ONGROUND;
            core.place.origin.z = figures.lifted;
        }
        core.drive.base_velocity = push;
        core.flags = core.flags | FL_BASEVELOCITY;
    }

    pub fn end_touch(&mut self, entity: &EntityCore, other: EntityId, cx: &mut Context)
        ensures
            step(final(self)@, entity@, final(cx)@) == step(old(self)@, entity@, old(cx)@).after(
                step(old(self)@, entity@, old(cx)@).base().left(other),
            ),
    {
        self.base.end_touch(entity, other, cx);
    }

    /// Takes an input. `direction` is the one that the input's angles point in,
    /// in the entity's own frame.
    pub fn accept_input(&mut self, entity: &mut EntityCore, input: &Input<'_>, direction: Vector, cx: &mut Context) -> (r: bool)
        ensures
            answered(
                step(old(self)@, old(entity)@, old(cx)@).trigger_push_input(*input, direction),
                step(old(self)@, old(entity)@, old(cx)@),
                r,
                step(final(self)@, final(entity)@, final(cx)@),
            ),
    {
        reveal(Step::<_>::trigger_push_input);
        if input.name.eq_ignore_ascii_case("SetPushDirection") {
            self.push_dir = direction;
            return true;
        }
        self.base.accept_input(entity, input, cx)
    }
}

// ---------------------------------------------------------------------------
// trigger_teleport
// ---------------------------------------------------------------------------

/// Sends what stands in it somewhere else.
#[derive(Debug)]
pub struct TriggerTeleport {
    pub base: BaseTrigger,
    /// The place here that the target stands for there.
    pub landmark: Option<String>,
    pub use_landmark_angles: bool,
    pub check_dest_if_clear: bool,
}

pub struct TriggerTeleportView {
    pub base: BaseTriggerView,
    pub landmark: Option<Seq<char>>,
    pub use_landmark_angles: bool,
    pub check_dest_if_clear: bool,
}

impl View for TriggerTeleport {
    type V = TriggerTeleportView;

    open spec fn view(&self) -> TriggerTeleportView {
        TriggerTeleportView {
            base: self.base@,
            landmark: text_of(self.landmark),
            use_landmark_angles: self.use_landmark_angles,
            check_dest_if_clear: self.check_dest_if_clear,
        }
    }
}

pub open spec fn placement(core: CoreView) -> Placement {
    Placement { origin: core.place.origin, angles: core.place.angles }
}

impl TriggerTeleportView {
    pub open spec fn fresh() -> TriggerTeleportView {
        TriggerTeleportView {
            base: BaseTriggerView::fresh(),
            landmark: None,
            use_landmark_angles: false,
            check_dest_if_clear: false,
        }
    }

    #[verifier::opaque]
    pub open spec fn keyed(self, key: Seq<char>, value: Value) -> Option<TriggerTeleportView> {
        let flag = integer_of(value.text@) != 0;
        if same_name(key, "landmark"@) {
            Some(TriggerTeleportView { landmark: Some(value.text@), ..self })
        } else if same_name(key, "UseLandmarkAngles"@) {
            Some(TriggerTeleportView { use_landmark_angles: flag, ..self })
        } else if same_name(key, "CheckDestIfClearForPlayer"@) {
            Some(TriggerTeleportView { check_dest_if_clear: flag, ..self })
        } else {
            match self.base.keyed(key, value.text@) {
                Some(base) => Some(TriggerTeleportView { base, ..self }),
                None => None,
            }
        }
    }

    /// Where the landmark is, if there is one to be found.
    pub open spec fn landmark_place(self, cx: ContextView) -> Option<Placement> {
        match self.landmark {
            Some(name) => match cx.named(name) {
                Some(id) => match cx.at(id) {
                    Some(e) => Some(placement(e.core)),
                    None => None,
                },
                None => None,
            },
            None => None,
        }
    }

    /// The teleport of one entity to a target. Without a landmark it goes to
    /// the target and keeps its angles; with one it keeps its place relative to
    /// it.
    pub open spec fn sends(self, cx: ContextView, other: EntityView, target: CoreView) -> Teleport {
        let core = other.core;
        let there = placement(target);
        match self.landmark_place(cx) {
            Some(landmark) => Teleport::Carried {
                from: placement(core),
                velocity: core.drive.velocity,
                landmark,
                target: there,
                angles: if self.use_landmark_angles { Some(there.angles) } else { None },
            },
            None => {
                let place = Placement {
                    origin: there.origin,
                    angles: if self.use_landmark_angles { there.angles } else { core.place.angles },
                };
                if other.behaviour.plays() {
                    Teleport::Onto { place, lowest: core.body.bounds.mins.z, velocity: core.drive.velocity }
                } else {
                    Teleport::To { place, velocity: Some(core.drive.velocity) }
                }
            },
        }
    }
}

impl Step<TriggerTeleportView> {
    pub open spec fn base(self) -> Step<BaseTriggerView> {
        step(self.me.base, self.core, self.cx)
    }

    pub open spec fn after(self, base: Step<BaseTriggerView>) -> Step<TriggerTeleportView> {
        step(TriggerTeleportView { base: base.me, ..self.me }, base.core, base.cx)
    }

    /// The entity that the target's name stands for.
    pub open spec fn destination(self) -> Option<EntityView> {
        match self.core.target {
            Some(name) => match self.cx.named(name) {
                Some(id) => self.cx.at(id),
                None => None,
            },
            None => None,
        }
    }

    pub open spec fn touched(self, other: EntityId) -> Step<TriggerTeleportView> {
        match (self.cx.at(other), self.destination()) {
            (Some(e), Some(target)) => if self.me.base.lets_in(self.core, other, self.cx) {
                self.with_cx(self.cx.teleporting(other, self.me.sends(self.cx, e, target.core)))
            } else {
                self
            },
            _ => self,
        }
    }

    #[verifier::opaque]
    pub open spec fn trigger_teleport_input(self, input: Input) -> Option<Step<TriggerTeleportView>> {
        if same_name(input.name@, "SetRemoteDestination"@) {
            Some(self.with_core(CoreView { target: Some(input.text@), ..self.core }))
        } else {
            match self.base().base_trigger_input(input) {
                Some(base) => Some(self.after(base)),
                None => None,
            }
        }
    }
}

impl TriggerTeleport {
    pub fn create() -> (r: TriggerTeleport)
        ensures
            r@ == TriggerTeleportView::fresh(),
    {
        TriggerTeleport {
            base: BaseTrigger::new(),
            landmark: None,
            use_landmark_angles: false,
            check_dest_if_clear: false,
        }
    }

    pub fn key_value(&mut self, key: &str, value: &Value) -> (r: bool)
        ensures
            r == old(self)@.keyed(key@, *value) is Some,
            final(self)@ == old(self)@.keyed(key@, *value).unwrap_or(old(self)@),
    {
        reveal(TriggerTeleportView::keyed);
        if key.eq_ignore_ascii_case("landmark") {
            self.landmark = Some(value.text.clone());
            return true;
        }
        if key.eq_ignore_ascii_case("UseLandmarkAngles") {
            self.use_landmark_angles = atoi(value.text.as_str()) != 0;
            return true;
        }
        if key.eq_ignore_ascii_case("CheckDestIfClearForPlayer") {
            self.check_dest_if_clear = atoi(value.text.as_str()) != 0;
            return true;
        }
        self.base.key_value(key, value.text.as_str())
    }

    /// Takes its place. A limit on a kind does not allow the kind here.
    pub fn spawn(&mut self, entity: &mut EntityCore) -> (r: SpawnResult)
        ensures
            r == SpawnResult::Keep,
            final(self)@ == (TriggerTeleportView {
                base: BaseTriggerView { touching: Seq::empty(), ..old(self)@.base },
                ..old(self)@
            }),
            final(entity)@ == trigger_body(old(entity)@, old(self)@.base.disabled),
    {
        self.base.init_trigger(entity);
        SpawnResult::Keep
    }

    pub fn activate(&mut self, cx: &Context)
        ensures
            final(self)@ == (TriggerTeleportView { base: old(self)@.base.activated(cx@), ..old(self)@ }),
    {
        self.base.activate(cx);
    }

    pub fn start_touch(&mut self, entity: &EntityCore, other: EntityId, cx: &mut Context)
        ensures
            step(final(self)@, entity@, final(cx)@) == step(old(self)@, entity@, old(cx)@).after(
                step(old(self)@, entity@, old(cx)@).base().entered(
                    old(self)@.base.lets_in(entity@, other, old(cx)@),
                    other,
                ),
            ),
    {
        self.base.start_touch(entity, other, cx);
    }

    fn landmark_of(&self, cx: &Context) -> (r: Option<Placement>)
        ensures
            r == self@.landmark_place(cx@),
    {
        match &self.landmark {
            Some(name) => match cx.find_by_name(name.as_str()) {
                Some(id) => match cx.entity(id) {
                    Some(e) => Some(Placement { origin: e.core.place.origin, angles: e.core.place.angles }),
                    None => None,
                },
                None => None,
            },
            None => None,
        }
    }

    fn teleport_of(&self, cx: &Context, other: &crate::list::Entity, target: &EntityCore) -> (r: Teleport)
        ensures
            r == self@.sends(cx@, other@, target@),
    {
        let there = Placement { origin: target.place.origin, angles: target.place.angles };
        let velocity = other.core.drive.velocity;
        match self.landmark_of(cx) {
            Some(landmark) => Teleport::Carried {
                from: Placement { origin: other.core.place.origin, angles: other.core.place.angles },
                velocity,
                landmark,
                target: there,
                angles: if self.use_landmark_angles {
                    Some(there.angles)
                } else {
                    None
                },
            },
            None => {
                let place = Placement {
                    origin: there.origin,
                    angles: if self.use_landmark_angles {
                        there.angles
                    } else {
                        other.core.place.angles
                    },
                };
                if other.behaviour.is_player() {
                    Teleport::Onto { place, lowest: other.core.body.bounds.mins.z, velocity }
                } else {
                    Teleport::To { place, velocity: Some(velocity) }
                }
            },
        }
    }

    /// Something stands in it.
    pub fn touch(&mut self, entity: &EntityCore, other: EntityId, cx: &mut Context)
        ensures
            step(final(self)@, entity@, final(cx)@) == step(old(self)@, entity@, old(cx)@).touched(other),
    {
        if !self.base.passes_trigger_filters(entity, other, cx) {
            return;
        }
        let target = match &entity.target {
            Some(name) => cx.find_by_name(name.as_str()),
            None => None,
        };
        let teleport = match target {
            Some(target) => match (cx.entity(other), cx.entity(target)) {
                (Some(e), Some(t)) => Some(self.teleport_of(cx, e, &t.core)),
                _ => None,
            },
            None => None,
        };
        match teleport {
            Some(teleport) => cx.teleport(other, teleport),
            None => {}
        }
    }

    pub fn end_touch(&mut self, entity: &EntityCore, other: EntityId, cx: &mut Context)
        ensures
            step(final(self)@, entity@, final(cx)@) == step(old(self)@, entity@, old(cx)@).after(
                step(old(self)@, entity@, old(cx)@).base().left(other),
            ),
    {
        self.base.end_touch(entity, other, cx);
    }

    pub fn accept_input(&mut self, entity: &mut EntityCore, input: &Input<'_>, cx: &mut Context) -> (r: bool)
        ensures
            answered(
                step(old(self)@, old(entity)@, old(cx)@).trigger_teleport_input(*input),
                step(old(self)@, old(entity)@, old(cx)@),
                r,
                step(final(self)@, final(entity)@, final(cx)@),
            ),
    {
        reveal(Step::<_>::trigger_teleport_input);
        if input.name.eq_ignore_ascii_case("SetRemoteDestination") {
            entity.target = Some(input.text.clone());
            return true;
        }
        self.base.accept_input(entity, input, cx)
    }
}

} // verus!
