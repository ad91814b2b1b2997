//! The classes that decide and do nothing else: relays, branches, cases,
//! timers and counters.
use vstd::prelude::*;

use crate::class::SpawnResult;
use crate::context::{Context, PostedView};
use crate::entity::{EntityCore, EntityId, Schedule};
use crate::io::{Input, Value, Variant};
use crate::scalar::{num, Scalar, CENTI, FIFTH, ZERO};
use crate::step::{answered, step, Step};
use crate::text::{atoi, integer_of, same_name};

verus! {

// ---------------------------------------------------------------------------
// math_counter
// ---------------------------------------------------------------------------

/// A number that inputs change, kept between two bounds unless both are zero.
#[derive(Debug, Clone, Copy)]
pub struct MathCounter {
    pub value: Scalar,
    pub min: Scalar,
    pub max: Scalar,
    /// Whether the lower bound has been reported and not left since.
    pub hit_min: bool,
    /// Whether the upper bound has been reported and not left since.
    pub hit_max: bool,
    pub disabled: bool,
}

/// The counter's value and an input's number, put together.
#[derive(Debug, Clone, Copy)]
pub struct CounterFigures {
    pub sum: Scalar,
    pub difference: Scalar,
    pub product: Scalar,
    pub quotient: Scalar,
}

impl MathCounter {
    pub open spec fn fresh() -> MathCounter {
        MathCounter {
            value: num(ZERO),
            min: num(ZERO),
            max: num(ZERO),
            hit_min: false,
            hit_max: false,
            disabled: false,
        }
    }

    /// Whether the bounds are the right way round. A spawned counter's are.
    pub open spec fn ordered(self) -> bool {
        self.min.at_most(self.max)
    }

    /// Whether the bounds count: both at zero means that there are none.
    pub open spec fn bounded(self) -> bool {
        !self.min.same(num(ZERO)) || !self.max.same(num(ZERO))
    }

    /// Whether a number can be brought between the bounds: they are the right
    /// way round, or there are none.
    pub open spec fn clampable(self) -> bool {
        self.bounded() ==> self.ordered()
    }

    /// Whether an input can be taken: wherever it has a number brought between
    /// bounds, these are the right way round by then.
    pub open spec fn can_take(self, input: Input) -> bool {
        let name = input.name@;
        &&& same_name(name, "SetHitMax"@) ==> self.with_max(input.value.number()).clampable()
        &&& same_name(name, "SetHitMin"@) ==> self.with_min(input.value.number()).clampable()
        &&& !self.disabled && (same_name(name, "Add"@) || same_name(name, "Subtract"@) || same_name(
            name,
            "Multiply"@,
        ) || same_name(name, "Divide"@) || same_name(name, "SetValue"@) || same_name(name, "SetValueNoFire"@))
            ==> self.clampable()
    }

    pub open spec fn bound(self, value: Scalar) -> Scalar {
        if self.bounded() { value.clamped(self.min, self.max) } else { value }
    }

    /// The bounds as they stand once the upper one has been moved.
    pub open spec fn with_max(self, max: Scalar) -> MathCounter {
        MathCounter { max, min: if max.less(self.min) { max } else { self.min }, ..self }
    }

    /// The bounds as they stand once the lower one has been moved.
    pub open spec fn with_min(self, min: Scalar) -> MathCounter {
        MathCounter { min, max: if self.max.less(min) { min } else { self.max }, ..self }
    }

    pub open spec fn spawned(self) -> MathCounter {
        let sorted = if self.max.less(self.min) {
            MathCounter { min: self.max, max: self.min, ..self }
        } else {
            self
        };
        MathCounter { value: sorted.bound(self.value), ..sorted }
    }

    #[verifier::opaque]
    pub open spec fn keyed(self, key: Seq<char>, value: Value) -> Option<MathCounter> {
        if same_name(key, "min"@) {
            Some(MathCounter { min: value.number, ..self })
        } else if same_name(key, "max"@) {
            Some(MathCounter { max: value.number, ..self })
        } else if same_name(key, "StartDisabled"@) {
            Some(MathCounter { disabled: integer_of(value.text@) != 0, ..self })
        } else if same_name(key, "startvalue"@) {
            Some(MathCounter { value: value.whole, ..self })
        } else {
            None
        }
    }
}

impl Step<MathCounter> {
    /// What reaching or leaving the upper bound sets off.
    pub open spec fn at_max(self, new: Scalar, activator: Option<EntityId>) -> Step<MathCounter> {
        if self.me.max.at_most(new) {
            if self.me.hit_max {
                self
            } else {
                self.with(MathCounter { hit_max: true, ..self.me }).fire("OnHitMax"@, Variant::Void, activator)
            }
        } else {
            let left = self.with(MathCounter { hit_max: false, ..self.me });
            if self.me.value.same(self.me.max) {
                left.fire("OnChangedFromMax"@, Variant::Void, activator)
            } else {
                left
            }
        }
    }

    /// What reaching or leaving the lower bound sets off.
    pub open spec fn at_min(self, new: Scalar, activator: Option<EntityId>) -> Step<MathCounter> {
        if new.at_most(self.me.min) {
            if self.me.hit_min {
                self
            } else {
                self.with(MathCounter { hit_min: true, ..self.me }).fire("OnHitMin"@, Variant::Void, activator)
            }
        } else {
            let left = self.with(MathCounter { hit_min: false, ..self.me });
            if self.me.value.same(self.me.min) {
                left.fire("OnChangedFromMin"@, Variant::Void, activator)
            } else {
                left
            }
        }
    }

    /// The counter set to a number: the edges, then the number that it comes
    /// to, told to the world.
    #[verifier::opaque]
    pub open spec fn counted(self, new: Scalar, activator: Option<EntityId>) -> Step<MathCounter> {
        let edged = if self.me.bounded() {
            self.at_max(new, activator).at_min(new, activator)
        } else {
            self
        };
        let value = self.me.bound(new);
        edged.with(MathCounter { value, ..edged.me }).fire("OutValue"@, Variant::Float(value), activator)
    }

    /// An arithmetic input, on a counter that is enabled.
    pub open spec fn operated(self, input: Input, figures: CounterFigures) -> Step<MathCounter> {
        let operand = input.value.number();
        if same_name(input.name@, "Add"@) {
            self.counted(figures.sum, input.activator)
        } else if same_name(input.name@, "Subtract"@) {
            self.counted(figures.difference, input.activator)
        } else if same_name(input.name@, "Multiply"@) {
            self.counted(figures.product, input.activator)
        } else if same_name(input.name@, "Divide"@) {
            self.counted(
                if operand.same(num(ZERO)) { self.me.value } else { figures.quotient },
                input.activator,
            )
        } else if same_name(input.name@, "SetValue"@) {
            self.counted(operand, input.activator)
        } else if same_name(input.name@, "SetValueNoFire"@) {
            self.with(MathCounter { value: self.me.bound(operand), ..self.me })
        } else if same_name(input.name@, "SetMaxValueNoFire"@) {
            if self.me.min.at_most(operand) {
                let moved = MathCounter { max: operand, ..self.me };
                self.with(MathCounter { value: moved.bound(self.me.value), ..moved })
            } else {
                self
            }
        } else {
            if operand.at_most(self.me.max) {
                let moved = MathCounter { min: operand, ..self.me };
                self.with(MathCounter { value: moved.bound(self.me.value), ..moved })
            } else {
                self
            }
        }
    }

    #[verifier::opaque]
    pub open spec fn math_counter_input(self, input: Input, figures: CounterFigures) -> Option<Step<MathCounter>> {
        let name = input.name@;
        if same_name(name, "SetHitMax"@) {
            Some(self.with(self.me.with_max(input.value.number())).counted(self.me.value, input.activator))
        } else if same_name(name, "SetHitMin"@) {
            Some(self.with(self.me.with_min(input.value.number())).counted(self.me.value, input.activator))
        } else if same_name(name, "GetValue"@) {
            Some(self.fire_as("OnGetValue"@, Variant::Float(self.me.value), input.activator, input.caller))
        } else if same_name(name, "Enable"@) {
            Some(self.with(MathCounter { disabled: false, ..self.me }))
        } else if same_name(name, "Disable"@) {
            Some(self.with(MathCounter { disabled: true, ..self.me }))
        } else if same_name(name, "Add"@) || same_name(name, "Subtract"@) || same_name(name, "Multiply"@)
            || same_name(name, "Divide"@) || same_name(name, "SetValue"@) || same_name(
            name,
            "SetValueNoFire"@,
        ) || same_name(name, "SetMaxValueNoFire"@) || same_name(name, "SetMinValueNoFire"@) {
            if self.me.disabled {
                Some(self)
            } else {
                Some(self.operated(input, figures))
            }
        } else {
            None
        }
    }
}

impl MathCounter {
    pub fn create() -> (r: MathCounter)
        ensures
            r == MathCounter::fresh(),
            r.ordered(),
    {
        MathCounter {
            value: num(ZERO),
            min: num(ZERO),
            max: num(ZERO),
            hit_min: false,
            hit_max: false,
            disabled: false,
        }
    }

    /// Whether the bounds count.
    pub fn clamps(&self) -> (r: bool)
        ensures
            r == self.bounded(),
    {
        !self.min.equals(num(ZERO)) || !self.max.equals(num(ZERO))
    }

    /// Whether a number can be brought between the bounds.
    pub fn is_clampable(&self) -> (r: bool)
        ensures
            r == self.clampable(),
    {
        !self.clamps() || self.min.le(self.max)
    }

    /// Whether an input can be taken.
    pub fn takes(&self, input: &Input<'_>) -> (r: bool)
        ensures
            r == self.can_take(*input),
    {
        let name = input.name;
        let number = input.value.float();
        if name.eq_ignore_ascii_case("SetHitMax") {
            let min = if number.lt(self.min) {
                number
            } else {
                self.min
            };
            let moved = MathCounter { max: number, min, ..*self };
            if !moved.is_clampable() {
                return false;
            }
        }
        if name.eq_ignore_ascii_case("SetHitMin") {
            let max = if self.max.lt(number) {
                number
            } else {
                self.max
            };
            let moved = MathCounter { min: number, max, ..*self };
            if !moved.is_clampable() {
                return false;
            }
        }
        let counts = name.eq_ignore_ascii_case("Add") || name.eq_ignore_ascii_case("Subtract")
            || name.eq_ignore_ascii_case("Multiply") || name.eq_ignore_ascii_case("Divide")
            || name.eq_ignore_ascii_case("SetValue") || name.eq_ignore_ascii_case("SetValueNoFire");
        self.disabled || !counts || self.is_clampable()
    }

    /// A number brought between the bounds, if they count.
    pub fn clamped(&self, value: Scalar) -> (r: Scalar)
        requires
            self.clampable(),
        ensures
            r == self.bound(value),
    {
        if self.clamps() {
            value.clamp(self.min, self.max)
        } else {
            value
        }
    }

    /// Sets the counter, and sets off what that sets off.
    pub fn update(&mut self, entity: &EntityCore, new: Scalar, activator: Option<EntityId>, cx: &mut Context)
        requires
            old(self).clampable(),
        ensures
            step(*final(self), entity@, final(cx)@) == step(*old(self), entity@, old(cx)@).counted(
                new,
                activator,
            ),
            final(self).min == old(self).min,
            final(self).max == old(self).max,
    {
        reveal(Step::counted);
        let me = Some(entity.id());
        let mut new = new;
        if self.clamps() {
            if self.max.le(new) {
                if !self.hit_max {
                    self.hit_max = true;
                    entity.fire_output("OnHitMax", Variant::Void, activator, me, num(ZERO), cx);
                }
            } else {
                if self.value.equals(self.max) {
                    entity.fire_output("OnChangedFromMax", Variant::Void, activator, me, num(ZERO), cx);
                }
                self.hit_max = false;
            }
            if new.le(self.min) {
                if !self.hit_min {
                    self.hit_min = true;
                    entity.fire_output("OnHitMin", Variant::Void, activator, me, num(ZERO), cx);
                }
            } else {
                if self.value.equals(self.min) {
                    entity.fire_output("OnChangedFromMin", Variant::Void, activator, me, num(ZERO), cx);
                }
                self.hit_min = false;
            }
            new = new.clamp(self.min, self.max);
        }
        self.value = new;
        entity.fire_output("OutValue", Variant::Float(new), activator, me, num(ZERO), cx);
    }

    pub fn key_value(&mut self, key: &str, value: &Value) -> (r: bool)
        ensures
            r == old(self).keyed(key@, *value) is Some,
            *final(self) == old(self).keyed(key@, *value).unwrap_or(*old(self)),
    {
        reveal(MathCounter::keyed);
        if key.eq_ignore_ascii_case("min") {
            self.min = value.number;
        } else if key.eq_ignore_ascii_case("max") {
            self.max = value.number;
        } else if key.eq_ignore_ascii_case("StartDisabled") {
            self.disabled = atoi(value.text.as_str()) != 0;
        } else if key.eq_ignore_ascii_case("startvalue") {
            self.value = value.whole;
        } else {
            return false;
        }
        true
    }

    /// Puts the bounds the right way round and the value between them.
    pub fn spawn(&mut self) -> (r: SpawnResult)
        requires
            old(self).min.numeric(),
            old(self).max.numeric(),
        ensures
            r == SpawnResult::Keep,
            *final(self) == old(self).spawned(),
            final(self).ordered(),
    {
        if self.max.lt(self.min) {
            let min = self.min;
            self.min = self.max;
            self.max = min;
        }
        if self.clamps() {
            self.value = self.value.clamp(self.min, self.max);
        }
        SpawnResult::Keep
    }

    /// Takes an arithmetic input while enabled.
    fn operate(&mut self, entity: &EntityCore, input: &Input<'_>, figures: &CounterFigures, cx: &mut Context)
        requires
            !old(self).disabled,
            old(self).can_take(*input),
            same_name(input.name@, "Add"@) || same_name(input.name@, "Subtract"@) || same_name(
                input.name@,
                "Multiply"@,
            ) || same_name(input.name@, "Divide"@) || same_name(input.name@, "SetValue"@) || same_name(
                input.name@,
                "SetValueNoFire"@,
            ) || same_name(input.name@, "SetMaxValueNoFire"@) || same_name(input.name@, "SetMinValueNoFire"@),
        ensures
            step(*final(self), entity@, final(cx)@) == step(*old(self), entity@, old(cx)@).operated(
                *input,
                *figures,
            ),
            old(self).ordered() ==> final(self).ordered(),
    {
        let name = input.name;
        let operand = input.value.float();
        if name.eq_ignore_ascii_case("Add") {
            self.update(entity, figures.sum, input.activator, cx);
        } else if name.eq_ignore_ascii_case("Subtract") {
            self.update(entity, figures.difference, input.activator, cx);
        } else if name.eq_ignore_ascii_case("Multiply") {
            self.update(entity, figures.product, input.activator, cx);
        } else if name.eq_ignore_ascii_case("Divide") {
            let value = if operand.equals(num(ZERO)) {
                self.value
            } else {
                figures.quotient
            };
            self.update(entity, value, input.activator, cx);
        } else if name.eq_ignore_ascii_case("SetValue") {
            self.update(entity, operand, input.activator, cx);
        } else if name.eq_ignore_ascii_case("SetValueNoFire") {
            self.value = self.clamped(operand);
        } else if name.eq_ignore_ascii_case("SetMaxValueNoFire") {
            if self.min.le(operand) {
                self.max = operand;
                self.value = self.clamped(self.value);
            }
        } else {
            if operand.le(self.max) {
                self.min = operand;
                self.value = self.clamped(self.value);
            }
        }
    }

    /// Takes an input. `figures` are the counter's value and the input's
    /// number put together.
    pub fn accept_input(
        &mut self,
        entity: &EntityCore,
        input: &Input<'_>,
        figures: &CounterFigures,
        cx: &mut Context,
    ) -> (r: bool)
        requires
            old(self).can_take(*input),
        ensures
            answered(
                step(*old(self), entity@, old(cx)@).math_counter_input(*input, *figures),
                step(*old(self), entity@, old(cx)@),
                r,
                step(*final(self), entity@, final(cx)@),
            ),
            old(self).ordered() && (same_name(input.name@, "SetHitMax"@) || same_name(input.name@, "SetHitMin"@)
                ==> input.value.number().numeric()) ==> final(self).ordered(),
    {
        reveal(Step::<_>::math_counter_input);
        let name = input.name;
        if name.eq_ignore_ascii_case("SetHitMax") {
            self.max = input.value.float();
            if self.max.lt(self.min) {
                self.min = self.max;
            }
            let value = self.value;
            self.update(entity, value, input.activator, cx);
            return true;
        }
        if name.eq_ignore_ascii_case("SetHitMin") {
            self.min = input.value.float();
            if self.max.lt(self.min) {
                self.max = self.min;
            }
            let value = self.value;
            self.update(entity, value, input.activator, cx);
            return true;
        }
        if name.eq_ignore_ascii_case("GetValue") {
            let value = self.value;
            entity.fire_output(
                "OnGetValue",
                Variant::Float(value),
                input.activator,
                input.caller,
                num(ZERO),
                cx,
            );
            return true;
        }
        if name.eq_ignore_ascii_case("Enable") {
            self.disabled = false;
            return true;
        }
        if name.eq_ignore_ascii_case("Disable") {
            self.disabled = true;
            return true;
        }
        let arithmetic = name.eq_ignore_ascii_case("Add") || name.eq_ignore_ascii_case("Subtract")
            || name.eq_ignore_ascii_case("Multiply") || name.eq_ignore_ascii_case("Divide")
            || name.eq_ignore_ascii_case("SetValue") || name.eq_ignore_ascii_case("SetValueNoFire")
            || name.eq_ignore_ascii_case("SetMaxValueNoFire") || name.eq_ignore_ascii_case(
            "SetMinValueNoFire",
        );
        if !arithmetic {
            return false;
        }
        if self.disabled {
            return true;
        }
        self.operate(entity, input, figures, cx);
        true
    }
}

// ---------------------------------------------------------------------------
// logic_relay
// ---------------------------------------------------------------------------

/// The relay goes away once it has fired.
pub const SF_RELAY_REMOVE_ON_FIRE: u32 = 0x1;

/// The relay may fire again before its own delayed outputs have gone out.
pub const SF_RELAY_ALLOW_FAST_RETRIGGER: u32 = 0x2;

/// Passes a trigger on, unless it is disabled or still waiting for its last
/// one to be through.
#[derive(Debug, Clone, Copy)]
pub struct Relay {
    pub disabled: bool,
    pub wait_for_refire: bool,
}

impl Relay {
    #[verifier::opaque]
    pub open spec fn keyed(self, key: Seq<char>, value: Value) -> Option<Relay> {
        if same_name(key, "StartDisabled"@) {
            Some(Relay { disabled: integer_of(value.text@) != 0, ..self })
        } else {
            None
        }
    }
}

impl Step<Relay> {
    /// The relay's outputs, unless it is disabled or waiting. It then waits
    /// for `refire_delay`, unless it goes away or need not wait.
    pub open spec fn triggered(self, activator: Option<EntityId>, refire_delay: Scalar) -> Step<Relay> {
        if self.me.disabled || self.me.wait_for_refire {
            self
        } else {
            let fired = self.fire("OnTrigger"@, Variant::Void, activator);
            if self.core.spawned_with(SF_RELAY_REMOVE_ON_FIRE) {
                fired.remove()
            } else if self.core.spawned_with(SF_RELAY_ALLOW_FAST_RETRIGGER) {
                fired
            } else {
                let id = self.core.id;
                fired.with(Relay { wait_for_refire: true, ..self.me }).with_cx(
                    fired.cx.sent(id, "EnableRefire"@, Variant::Void, refire_delay, Some(id), Some(id)),
                )
            }
        }
    }

    #[verifier::opaque]
    pub open spec fn relay_input(self, input: Input, refire_delay: Scalar) -> Option<Step<Relay>> {
        let name = input.name@;
        if same_name(name, "Enable"@) {
            Some(self.with(Relay { disabled: false, ..self.me }))
        } else if same_name(name, "Disable"@) {
            Some(self.with(Relay { disabled: true, ..self.me }))
        } else if same_name(name, "Toggle"@) {
            Some(self.with(Relay { disabled: !self.me.disabled, ..self.me }))
        } else if same_name(name, "EnableRefire"@) {
            Some(self.with(Relay { wait_for_refire: false, ..self.me }))
        } else if same_name(name, "CancelPending"@) {
            Some(
                self.with(Relay { wait_for_refire: false, ..self.me }).with_cx(
                    self.cx.posting(PostedView::CancelFrom(self.core.id)),
                ),
            )
        } else if same_name(name, "Trigger"@) {
            Some(self.triggered(input.activator, refire_delay))
        } else {
            None
        }
    }

    pub open spec fn activated(self) -> Step<Relay> {
        if self.core.connections_on("OnSpawn"@) > 0 {
            self.think(Schedule::After(num(CENTI)))
        } else {
            self
        }
    }

    pub open spec fn thought(self) -> Step<Relay> {
        let fired = self.fire("OnSpawn"@, Variant::Void, Some(self.core.id));
        if self.core.spawned_with(SF_RELAY_REMOVE_ON_FIRE) {
            fired.remove()
        } else {
            fired
        }
    }
}

impl Relay {
    pub fn create() -> (r: Relay)
        ensures
            r == (Relay { disabled: false, wait_for_refire: false }),
    {
        Relay { disabled: false, wait_for_refire: false }
    }

    pub fn key_value(&mut self, key: &str, value: &Value) -> (r: bool)
        ensures
            r == old(self).keyed(key@, *value) is Some,
            *final(self) == old(self).keyed(key@, *value).unwrap_or(*old(self)),
    {
        reveal(Relay::keyed);
        if key.eq_ignore_ascii_case("StartDisabled") {
            self.disabled = atoi(value.text.as_str()) != 0;
            return true;
        }
        false
    }

    /// A relay with something on `OnSpawn` thinks once, right after the map
    /// starts.
    pub fn activate(&mut self, entity: &mut EntityCore, cx: &mut Context)
        ensures
            step(*final(self), final(entity)@, final(cx)@) == step(*old(self), old(entity)@, old(cx)@).activated(),
    {
        if entity.output_count("OnSpawn") > 0 {
            entity.set_next_think(Schedule::After(num(CENTI)));
        }
    }

    pub fn think(&mut self, entity: &mut EntityCore, cx: &mut Context)
        ensures
            step(*final(self), final(entity)@, final(cx)@) == step(*old(self), old(entity)@, old(cx)@).thought(),
    {
        let me = Some(entity.id());
        entity.fire_output("OnSpawn", Variant::Void, me, me, num(ZERO), cx);
        if entity.has_spawn_flags(SF_RELAY_REMOVE_ON_FIRE) {
            entity.remove();
        }
    }

    /// Sets off the relay's outputs. `refire_delay` is how long its slowest
    /// connection takes, and a little more.
    pub fn trigger(&mut self, entity: &mut EntityCore, activator: Option<EntityId>, refire_delay: Scalar, cx: &mut Context)
        ensures
            step(*final(self), final(entity)@, final(cx)@) == step(*old(self), old(entity)@, old(cx)@).triggered(
                activator,
                refire_delay,
            ),
    {
        if self.disabled || self.wait_for_refire {
            return;
        }
        let me = Some(entity.id());
        entity.fire_output("OnTrigger", Variant::Void, activator, me, num(ZERO), cx);
        if entity.has_spawn_flags(SF_RELAY_REMOVE_ON_FIRE) {
            entity.remove();
        } else if !entity.has_spawn_flags(SF_RELAY_ALLOW_FAST_RETRIGGER) {
            self.wait_for_refire = true;
            entity.post_to_self("EnableRefire", refire_delay, cx);
        }
    }

    pub fn accept_input(
        &mut self,
        entity: &mut EntityCore,
        input: &Input<'_>,
        refire_delay: Scalar,
        cx: &mut Context,
    ) -> (r: bool)
        ensures
            answered(
                step(*old(self), old(entity)@, old(cx)@).relay_input(*input, refire_delay),
                step(*old(self), old(entity)@, old(cx)@),
                r,
                step(*final(self), final(entity)@, final(cx)@),
            ),
    {
        reveal(Step::<_>::relay_input);
        let name = input.name;
        if name.eq_ignore_ascii_case("Enable") {
            self.disabled = false;
        } else if name.eq_ignore_ascii_case("Disable") {
            self.disabled = true;
        } else if name.eq_ignore_ascii_case("Toggle") {
            self.disabled = !self.disabled;
        } else if name.eq_ignore_ascii_case("EnableRefire") {
            self.wait_for_refire = false;
        } else if name.eq_ignore_ascii_case("CancelPending") {
            entity.cancel_pending(cx);
            self.wait_for_refire = false;
        } else if name.eq_ignore_ascii_case("Trigger") {
            self.trigger(entity, input.activator, refire_delay, cx);
        } else {
            return false;
        }
        true
    }
}

// ---------------------------------------------------------------------------
// logic_auto
// ---------------------------------------------------------------------------

/// It goes away once it has fired.
pub const SF_AUTO_FIREONCE: u32 = 0x1;

/// Fires when a map starts.
#[derive(Debug)]
pub struct Auto {
    pub global_state: Option<String>,
}

impl Auto {
    #[verifier::opaque]
    pub open spec fn keyed(self, key: Seq<char>, value: Value) -> Option<Auto> {
        if same_name(key, "globalstate"@) {
            Some(Auto { global_state: Some(value.text) })
        } else {
            None
        }
    }
}

impl Step<Auto> {
    pub open spec fn thought(self) -> Step<Auto> {
        if self.me.global_state is Some {
            self
        } else {
            let fired = self.fire("OnNewGame"@, Variant::Void, None).fire("OnMapSpawn"@, Variant::Void, None);
            if self.core.spawned_with(SF_AUTO_FIREONCE) {
                fired.remove()
            } else {
                fired
            }
        }
    }
}

impl Auto {
    pub fn create() -> (r: Auto)
        ensures
            r == (Auto { global_state: None }),
    {
        Auto { global_state: None }
    }

    pub fn key_value(&mut self, key: &str, value: &Value) -> (r: bool)
        ensures
            r == old(self).keyed(key@, *value) is Some,
            *final(self) == old(self).keyed(key@, *value).unwrap_or(*old(self)),
    {
        reveal(Auto::keyed);
        if key.eq_ignore_ascii_case("globalstate") {
            self.global_state = Some(value.text.clone());
            return true;
        }
        false
    }

    pub fn activate(&mut self, entity: &mut EntityCore, cx: &mut Context)
        ensures
            step(*final(self), final(entity)@, final(cx)@) == step(*old(self), old(entity)@, old(cx)@).think(
                Schedule::After(num(FIFTH)),
            ),
    {
        entity.set_next_think(Schedule::After(num(FIFTH)));
    }

    /// Fires, unless it hangs on a global state.
    pub fn think(&mut self, entity: &mut EntityCore, cx: &mut Context)
        ensures
            step(*final(self), final(entity)@, final(cx)@) == step(*old(self), old(entity)@, old(cx)@).thought(),
    {
        if self.global_state.is_some() {
            return;
        }
        let me = Some(entity.id());
        entity.fire_output("OnNewGame", Variant::Void, None, me, num(ZERO), cx);
        entity.fire_output("OnMapSpawn", Variant::Void, None, me, num(ZERO), cx);
        if entity.has_spawn_flags(SF_AUTO_FIREONCE) {
            entity.remove();
        }
    }
}

// ---------------------------------------------------------------------------
// logic_timer
// ---------------------------------------------------------------------------

/// The timer fires two outputs in turn.
pub const SF_TIMER_UPDOWN: u32 = 0x1;

/// Fires over and over.
#[derive(Debug, Clone, Copy)]
pub struct Timer {
    pub disabled: bool,
    pub refire_time: Scalar,
    pub up_down_state: bool,
    pub use_random_time: bool,
    pub lower_random_bound: Scalar,
    pub upper_random_bound: Scalar,
}

/// The clock's figures for a timer.
#[derive(Debug, Clone, Copy)]
pub struct TimerFigures {
    /// A number drawn between the timer's random bounds.
    pub drawn: Scalar,
    /// The time of the next think, and an input's number later.
    pub later: Scalar,
    /// The time of the next think, and an input's number earlier.
    pub earlier: Scalar,
    /// How long it is to the next think.
    pub remaining: Scalar,
}

impl Timer {
    pub open spec fn fresh() -> Timer {
        Timer {
            disabled: false,
            refire_time: num(ZERO),
            up_down_state: false,
            use_random_time: false,
            lower_random_bound: num(ZERO),
            upper_random_bound: num(ZERO),
        }
    }

    #[verifier::opaque]
    pub open spec fn keyed(self, key: Seq<char>, value: Value) -> Option<Timer> {
        if same_name(key, "StartDisabled"@) {
            Some(Timer { disabled: integer_of(value.text@) != 0, ..self })
        } else if same_name(key, "RefireTime"@) {
            Some(Timer { refire_time: value.number, ..self })
        } else if same_name(key, "UseRandomTime"@) {
            Some(Timer { use_random_time: integer_of(value.text@) != 0, ..self })
        } else if same_name(key, "LowerRandomBound"@) {
            Some(Timer { lower_random_bound: value.number, ..self })
        } else if same_name(key, "UpperRandomBound"@) {
            Some(Timer { upper_random_bound: value.number, ..self })
        } else {
            None
        }
    }

    /// Whether a number is drawn when the interval starts over.
    pub open spec fn is_drawn(self) -> bool {
        !self.disabled && self.use_random_time
    }

    /// Whether a number is drawn on an input: the interval starts over, and is
    /// random.
    pub open spec fn draws_on(self, input: Input) -> bool {
        let name = input.name@;
        &&& self.use_random_time
        &&& {
            ||| same_name(name, "Enable"@)
            ||| same_name(name, "Toggle"@) && self.disabled
            ||| (same_name(name, "FireTimer"@) || same_name(name, "ResetTimer"@)) && !self.disabled
            ||| same_name(name, "RefireTime"@) && !self.disabled && !self.refire_time.same(
                Timer::interval(input.value.number()),
            )
        }
    }

    /// An interval, or the shortest there is.
    pub open spec fn interval(seconds: Scalar) -> Scalar {
        if seconds.less(num(CENTI)) { num(CENTI) } else { seconds }
    }
}

impl Step<Timer> {
    /// The next think, an interval from now; the interval drawn afresh where
    /// it is random. Nothing while disabled.
    pub open spec fn restarted(self, drawn: Scalar) -> Step<Timer> {
        if self.me.disabled {
            self
        } else {
            let refire_time = if self.me.use_random_time { drawn } else { self.me.refire_time };
            self.with(Timer { refire_time, ..self.me }).think(Schedule::After(refire_time))
        }
    }

    pub open spec fn enabled(self, drawn: Scalar) -> Step<Timer> {
        self.with(Timer { disabled: false, ..self.me }).restarted(drawn)
    }

    pub open spec fn disabled(self) -> Step<Timer> {
        self.with(Timer { disabled: true, ..self.me }).think(Schedule::Never)
    }

    /// The timer's output, and the next interval.
    pub open spec fn fired(self, drawn: Scalar) -> Step<Timer> {
        let me = Some(self.core.id);
        if self.me.disabled {
            self
        } else if self.core.spawned_with(SF_TIMER_UPDOWN) {
            self.fire(
                if self.me.up_down_state { "OnTimerHigh"@ } else { "OnTimerLow"@ },
                Variant::Void,
                me,
            ).with(Timer { up_down_state: !self.me.up_down_state, ..self.me }).restarted(drawn)
        } else {
            self.fire("OnTimer"@, Variant::Void, me).restarted(drawn)
        }
    }

    pub open spec fn spawned(self, drawn: Scalar) -> Step<Timer> {
        let refire_time = if self.me.use_random_time {
            self.me.refire_time
        } else {
            Timer::interval(self.me.refire_time)
        };
        let ready = self.with(Timer { refire_time, ..self.me });
        if !self.me.disabled && (num(ZERO).less(refire_time) || self.me.use_random_time) {
            ready.enabled(drawn)
        } else {
            ready.disabled()
        }
    }

    #[verifier::opaque]
    pub open spec fn timer_input(self, input: Input, figures: TimerFigures) -> Option<Step<Timer>> {
        let name = input.name@;
        let number = input.value.number();
        if same_name(name, "Enable"@) {
            Some(self.enabled(figures.drawn))
        } else if same_name(name, "Disable"@) {
            Some(self.disabled())
        } else if same_name(name, "Toggle"@) {
            Some(if self.me.disabled { self.enabled(figures.drawn) } else { self.disabled() })
        } else if same_name(name, "FireTimer"@) {
            Some(self.fired(figures.drawn))
        } else if same_name(name, "ResetTimer"@) {
            Some(self.restarted(figures.drawn))
        } else if same_name(name, "RefireTime"@) {
            let interval = Timer::interval(number);
            Some(
                if self.me.refire_time.same(interval) {
                    self
                } else {
                    self.with(Timer { refire_time: interval, ..self.me }).restarted(figures.drawn)
                },
            )
        } else if same_name(name, "AddToTimer"@) {
            Some(if self.me.disabled { self } else { self.think(Schedule::At(figures.later)) })
        } else if same_name(name, "SubtractFromTimer"@) {
            Some(
                if self.me.disabled {
                    self
                } else if figures.remaining.at_most(number) {
                    self.think(Schedule::Now)
                } else {
                    self.think(Schedule::At(figures.earlier))
                },
            )
        } else if same_name(name, "UseRandomTime"@) {
            Some(self.with(Timer { use_random_time: input.value.count() != 0, ..self.me }))
        } else if same_name(name, "LowerRandomBound"@) {
            Some(self.with(Timer { lower_random_bound: number, ..self.me }))
        } else if same_name(name, "UpperRandomBound"@) {
            Some(self.with(Timer { upper_random_bound: number, ..self.me }))
        } else {
            None
        }
    }
}

impl Timer {
    pub fn create() -> (r: Timer)
        ensures
            r == Timer::fresh(),
    {
        Timer {
            disabled: false,
            refire_time: num(ZERO),
            up_down_state: false,
            use_random_time: false,
            lower_random_bound: num(ZERO),
            upper_random_bound: num(ZERO),
        }
    }

    /// Whether a number is drawn when the timer spawns or thinks.
    pub fn draws_anew(&self) -> (r: bool)
        ensures
            r == self.is_drawn(),
    {
        !self.disabled && self.use_random_time
    }

    /// Whether a number is drawn on an input.
    pub fn draws(&self, input: &Input<'_>) -> (r: bool)
        ensures
            r == self.draws_on(*input),
    {
        let name = input.name;
        if !self.use_random_time {
            return false;
        }
        if name.eq_ignore_ascii_case("Enable") {
            return true;
        }
        if self.disabled {
            return name.eq_ignore_ascii_case("Toggle");
        }
        if name.eq_ignore_ascii_case("FireTimer") || name.eq_ignore_ascii_case("ResetTimer") {
            return true;
        }
        let asked = input.value.float();
        let interval = if asked.lt(num(CENTI)) {
            num(CENTI)
        } else {
            asked
        };
        name.eq_ignore_ascii_case("RefireTime") && !self.refire_time.equals(interval)
    }

    /// Starts the interval over. `drawn` is a number drawn between the random
    /// bounds.
    pub fn reset(&mut self, entity: &mut EntityCore, drawn: Scalar, cx: &mut Context)
        ensures
            step(*final(self), final(entity)@, final(cx)@) == step(*old(self), old(entity)@, old(cx)@).restarted(drawn),
    {
        if self.disabled {
            return;
        }
        if self.use_random_time {
            self.refire_time = drawn;
        }
        entity.set_next_think(Schedule::After(self.refire_time));
    }

    pub fn enable(&mut self, entity: &mut EntityCore, drawn: Scalar, cx: &mut Context)
        ensures
            step(*final(self), final(entity)@, final(cx)@) == step(*old(self), old(entity)@, old(cx)@).enabled(drawn),
    {
        self.disabled = false;
        self.reset(entity, drawn, cx);
    }

    pub fn disable(&mut self, entity: &mut EntityCore, cx: &mut Context)
        ensures
            step(*final(self), final(entity)@, final(cx)@) == step(*old(self), old(entity)@, old(cx)@).disabled(),
    {
        self.disabled = true;
        entity.set_next_think(Schedule::Never);
    }

    pub fn fire(&mut self, entity: &mut EntityCore, drawn: Scalar, cx: &mut Context)
        ensures
            step(*final(self), final(entity)@, final(cx)@) == step(*old(self), old(entity)@, old(cx)@).fired(drawn),
    {
        if self.disabled {
            return;
        }
        let me = Some(entity.id());
        if entity.has_spawn_flags(SF_TIMER_UPDOWN) {
            let output = if self.up_down_state {
                "OnTimerHigh"
            } else {
                "OnTimerLow"
            };
            entity.fire_output(output, Variant::Void, me, me, num(ZERO), cx);
            self.up_down_state = !self.up_down_state;
        } else {
            entity.fire_output("OnTimer", Variant::Void, me, me, num(ZERO), cx);
        }
        self.reset(entity, drawn, cx);
    }

    pub fn key_value(&mut self, key: &str, value: &Value) -> (r: bool)
        ensures
            r == old(self).keyed(key@, *value) is Some,
            *final(self) == old(self).keyed(key@, *value).unwrap_or(*old(self)),
    {
        reveal(Timer::keyed);
        if key.eq_ignore_ascii_case("StartDisabled") {
            self.disabled = atoi(value.text.as_str()) != 0;
        } else if key.eq_ignore_ascii_case("RefireTime") {
            self.refire_time = value.number;
        } else if key.eq_ignore_ascii_case("UseRandomTime") {
            self.use_random_time = atoi(value.text.as_str()) != 0;
        } else if key.eq_ignore_ascii_case("LowerRandomBound") {
            self.lower_random_bound = value.number;
        } else if key.eq_ignore_ascii_case("UpperRandomBound") {
            self.upper_random_bound = value.number;
        } else {
            return false;
        }
        true
    }

    pub fn spawn(&mut self, entity: &mut EntityCore, drawn: Scalar, cx: &mut Context) -> (r: SpawnResult)
        ensures
            r == SpawnResult::Keep,
            step(*final(self), final(entity)@, final(cx)@) == step(*old(self), old(entity)@, old(cx)@).spawned(drawn),
    {
        if !self.use_random_time && self.refire_time.lt(num(CENTI)) {
            self.refire_time = num(CENTI);
        }
        if !self.disabled && (num(ZERO).lt(self.refire_time) || self.use_random_time) {
            self.enable(entity, drawn, cx);
        } else {
            self.disable(entity, cx);
        }
        SpawnResult::Keep
    }

    pub fn think(&mut self, entity: &mut EntityCore, drawn: Scalar, cx: &mut Context)
        ensures
            step(*final(self), final(entity)@, final(cx)@) == step(*old(self), old(entity)@, old(cx)@).fired(drawn),
    {
        self.fire(entity, drawn, cx);
    }

    pub fn accept_input(
        &mut self,
        entity: &mut EntityCore,
        input: &Input<'_>,
        figures: &TimerFigures,
        cx: &mut Context,
    ) -> (r: bool)
        ensures
            answered(
                step(*old(self), old(entity)@, old(cx)@).timer_input(*input, *figures),
                step(*old(self), old(entity)@, old(cx)@),
                r,
                step(*final(self), final(entity)@, final(cx)@),
            ),
    {
        reveal(Step::<_>::timer_input);
        let name = input.name;
        if name.eq_ignore_ascii_case("Enable") {
            self.enable(entity, figures.drawn, cx);
        } else if name.eq_ignore_ascii_case("Disable") {
            self.disable(entity, cx);
        } else if name.eq_ignore_ascii_case("Toggle") {
            if self.disabled {
                self.enable(entity, figures.drawn, cx);
            } else {
                self.disable(entity, cx);
            }
        } else if name.eq_ignore_ascii_case("FireTimer") {
            self.fire(entity, figures.drawn, cx);
        } else if name.eq_ignore_ascii_case("ResetTimer") {
            if !self.disabled {
                self.reset(entity, figures.drawn, cx);
            }
        } else if name.eq_ignore_ascii_case("RefireTime") {
            let mut interval = input.value.float();
            if interval.lt(num(CENTI)) {
                interval = num(CENTI);
            }
            if !self.refire_time.equals(interval) {
                self.refire_time = interval;
                self.reset(entity, figures.drawn, cx);
            }
        } else if name.eq_ignore_ascii_case("AddToTimer") {
            if !self.disabled {
                entity.set_next_think(Schedule::At(figures.later));
            }
        } else if name.eq_ignore_ascii_case("SubtractFromTimer") {
            if !self.disabled {
                if figures.remaining.le(input.value.float()) {
                    entity.set_next_think(Schedule::Now);
                } else {
                    entity.set_next_think(Schedule::At(figures.earlier));
                }
            }
        } else if name.eq_ignore_ascii_case("UseRandomTime") {
            self.use_random_time = input.value.integer() != 0;
        } else if name.eq_ignore_ascii_case("LowerRandomBound") {
            self.lower_random_bound = input.value.float();
        } else if name.eq_ignore_ascii_case("UpperRandomBound") {
            self.upper_random_bound = input.value.float();
        } else {
            return false;
        }
        true
    }
}

} // verus!
