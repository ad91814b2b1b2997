//! Laws of what doors, counters and portals do when they are asked to.
use vstd::prelude::*;

use crate::classes::door::Door;
use crate::classes::logic::{CounterFigures, MathCounter};
use crate::classes::portal::{PortalNumbers, PropPortal, Transit};
use crate::entity::EntityId;
use crate::io::{Input, Variant};
use crate::laws::movers::a_closing_door_ends_shut;
use crate::laws::names::{counter_names, door_names, portal_names};
use crate::laws::outputs::output;
use crate::laws::portals::a_relinked_portal_is_sound;
use crate::movement::ToggleState;
use crate::scalar::Scalar;
use crate::step::Step;
use crate::text::same_name;

verus! {

/// A portal is on after `SetActivatedState` exactly if the input's value is
/// true, and off it is linked to nobody and leads nowhere.
pub proof fn a_portal_is_switched(state: Step<PropPortal>, input: Input, numbers: PortalNumbers)
    requires
        same_name(input.name@, "SetActivatedState"@),
    ensures
        state.prop_portal_input(input, numbers) matches Some(next) && ({
            &&& next.me.activated == (input.value == Variant::Bool(true))
            &&& !next.me.activated ==> next.me.linked is None && next.me.matrix == Transit::Identity
        }),
{
    portal_names(input.name@);
    let on = input.value == Variant::Bool(true);
    let set = state.with(
        PropPortal {
            activated: on,
            old_activated: state.me.activated,
            opened_at: if on && !state.me.activated { state.cx.time.curtime } else { state.me.opened_at },
            ..state.me
        },
    );
    assert(state.prop_portal_input(input, numbers) == Some(set.relinked())) by {
        reveal(Step::<_>::prop_portal_input);
    }
    a_relinked_portal_is_sound(set);
}

/// A door told to shut is left as it is if it is shut. Otherwise it sets off
/// for its shut end, locked or not, and is there once its move has ended.
pub proof fn a_door_told_to_shut(state: Step<Door>, input: Input)
    requires
        same_name(input.name@, "Close"@),
    ensures
        ({
            let travel = state.me.toggle.travel;
            let away = if state.me.rotating {
                !travel.angle1.same(state.core.place.local_angles)
            } else {
                !travel.position1.same(state.core.place.local_origin)
            };
            state.door_input(input) matches Some(next) && ({
                &&& state.me.toggle.state == ToggleState::AtBottom ==> next == state
                &&& state.me.toggle.state != ToggleState::AtBottom && away ==> ({
                    &&& next.me.toggle.state == ToggleState::GoingDown
                    &&& next.rung().me.toggle.state == ToggleState::AtBottom
                    &&& !state.me.rotating ==> next.rung().core.place.local_origin == travel.position1
                    &&& state.me.rotating ==> next.rung().core.place.local_angles == travel.angle1
                })
            })
        }),
{
    door_names(input.name@);
    let led = state.with(Door { activator: input.activator, ..state.me });
    assert(state.door_input(input) == Some(
        if state.me.toggle.state != ToggleState::AtBottom { led.closing() } else { state },
    )) by {
        reveal(Step::<_>::door_input);
    }
    if !led.is_at(led.me.shut_end()) {
        a_closing_door_ends_shut(led);
    }
}

/// Whether a counter has come to a number, told it last, and kept its bounds.
pub open spec fn comes_to(
    before: Step<MathCounter>,
    after: Step<MathCounter>,
    value: Scalar,
    activator: Option<EntityId>,
) -> bool {
    &&& after.me == (MathCounter { value, ..before.me })
    &&& after.cx.posted.len() == before.cx.posted.len() + 1
    &&& after.cx.posted.last() == output(before.core.id, "OutValue"@, Variant::Float(value), activator)
}

proof fn counting_without_bounds(state: Step<MathCounter>, new: Scalar, activator: Option<EntityId>)
    requires
        state.me.min.same(Scalar { bits: 0 }),
        state.me.max.same(Scalar { bits: 0 }),
    ensures
        comes_to(state, state.counted(new, activator), new, activator),
{
    reveal(Step::<_>::counted);
}

/// A counter that is enabled and has no bounds comes to the sum, the difference,
/// the product or the quotient of its number and the input's, or to the input's
/// number itself, and tells it. A quotient by nothing leaves the number.
pub proof fn a_counter_does_sums(state: Step<MathCounter>, input: Input, figures: CounterFigures, operand: Scalar)
    requires
        !state.me.disabled,
        state.me.min.same(Scalar { bits: 0 }),
        state.me.max.same(Scalar { bits: 0 }),
        input.value == Variant::Float(operand),
    ensures
        ({
            let next = state.math_counter_input(input, figures);
            let name = input.name@;
            let by = input.activator;
            let nothing = operand.same(Scalar { bits: 0 });
            &&& same_name(name, "Add"@) ==> (next matches Some(n) && comes_to(state, n, figures.sum, by))
            &&& same_name(name, "Subtract"@) ==> (next matches Some(n) && comes_to(state, n, figures.difference, by))
            &&& same_name(name, "Multiply"@) ==> (next matches Some(n) && comes_to(state, n, figures.product, by))
            &&& same_name(name, "Divide"@) ==> (next matches Some(n) && comes_to(
                state,
                n,
                if nothing { state.me.value } else { figures.quotient },
                by,
            ))
            &&& same_name(name, "SetValue"@) ==> (next matches Some(n) && comes_to(state, n, operand, by))
        }),
{
    counter_names(input.name@);
    reveal(Step::<_>::math_counter_input);
    counting_without_bounds(state, figures.sum, input.activator);
    counting_without_bounds(state, figures.difference, input.activator);
    counting_without_bounds(state, figures.product, input.activator);
    counting_without_bounds(state, figures.quotient, input.activator);
    counting_without_bounds(state, state.me.value, input.activator);
    counting_without_bounds(state, operand, input.activator);
}

} // verus!
