//! Laws of what moves.
use vstd::prelude::*;

use crate::classes::button::{Button, ButtonCode};
use crate::classes::door::Door;
use crate::classes::movelinear::MoveLinear;
use crate::classes::rotating::Rotating;
use crate::context::PostedView;
use crate::entity::EntityId;
use crate::io::{Input, Variant};
use crate::movement::ToggleState;
use crate::scalar::{clamp_stays_in_bounds, num, Scalar, Vector, ZERO};
use crate::step::Step;
use crate::text::{lengths_tell_names_apart, same_name};

verus! {

// ---------------------------------------------------------------------------
// func_door
// ---------------------------------------------------------------------------

/// A sliding door that sets off open is, once its move has ended, open and at
/// its open end.
pub proof fn an_opening_door_ends_open(state: Step<Door>)
    requires
        !state.me.rotating,
        !state.is_at(state.me.open_end()),
    ensures
        state.opening().me.toggle.state == ToggleState::GoingUp,
        ({
            let after = state.opening().rung();
            &&& after.me.toggle.state == ToggleState::AtTop
            &&& after.core.place.local_origin == state.me.toggle.travel.position2
        }),
{
    reveal(Step::<_>::opening);
}

/// A turning door that sets off open is, once its move has ended, open and at
/// its open angles.
pub proof fn an_opening_turning_door_ends_open(state: Step<Door>)
    requires
        state.me.rotating,
        !state.is_at(state.me.open_end()),
    ensures
        state.opening().me.toggle.state == ToggleState::GoingUp,
        ({
            let after = state.opening().rung();
            &&& after.me.toggle.state == ToggleState::AtTop
            &&& after.core.place.local_angles == state.me.toggle.travel.angle2
        }),
{
    reveal(Step::<_>::opening);
}

/// A door that sets off shut is, once its move has ended, shut and at its shut
/// end.
pub proof fn a_closing_door_ends_shut(state: Step<Door>)
    requires
        !state.is_at(state.me.shut_end()),
    ensures
        state.closing().me.toggle.state == ToggleState::GoingDown,
        ({
            let after = state.closing().rung();
            &&& after.me.toggle.state == ToggleState::AtBottom
            &&& !state.me.rotating ==> after.core.place.local_origin == state.me.toggle.travel.position1
            &&& state.me.rotating ==> after.core.place.local_angles == state.me.toggle.travel.angle1
        }),
{
    reveal(Step::<_>::closing);
}

/// A door with nowhere to go says that it is open before it says that it
/// opens.
pub proof fn a_door_with_nowhere_to_go_arrives_first(state: Step<Door>)
    requires
        state.is_at(state.me.open_end()),
    ensures
        ({
            let posted = state.opening().cx.posted;
            let n = state.cx.posted.len() as int;
            let me = Some(state.core.id);
            &&& state.opening().me.toggle.state == ToggleState::AtTop
            &&& posted.len() == n + 2
            &&& posted[n] == (PostedView::Output {
                source: state.core.id,
                output: "OnFullyOpen"@,
                value: Variant::Void,
                activator: me,
                caller: me,
                delay: num(ZERO),
            })
            &&& posted[n + 1] == (PostedView::Output {
                source: state.core.id,
                output: "OnOpen"@,
                value: Variant::Void,
                activator: me,
                caller: me,
                delay: num(ZERO),
            })
        }),
{
    reveal(Step::<_>::opening);
}

/// A locked door neither opens nor toggles.
pub proof fn a_locked_door_is_not_opened(state: Step<Door>, input: Input)
    requires
        state.me.locked,
        same_name(input.name@, "Open"@) || same_name(input.name@, "Toggle"@),
    ensures
        state.door_input(input) == Some(state),
{
    reveal(Step::<_>::door_input);
    reveal_strlit("Open");
    reveal_strlit("Toggle");
    reveal_strlit("Close");
    if same_name(input.name@, "Toggle"@) {
        lengths_tell_names_apart(input.name@, "Toggle"@, "Open"@);
        lengths_tell_names_apart(input.name@, "Toggle"@, "Close"@);
    }
}

// ---------------------------------------------------------------------------
// func_button
// ---------------------------------------------------------------------------

/// A locked button is not pressed, whoever asks; being used, it says so.
pub proof fn a_locked_button_is_not_pressed(state: Step<Button>, code: ButtonCode, activator: Option<EntityId>)
    requires
        state.me.locked,
    ensures
        state.pressed(code) == state,
        state.used(activator).me == state.me,
        state.used(activator).core == state.core,
{
}

/// A button that is under way is not pressed again.
pub proof fn a_moving_button_is_not_pressed(state: Step<Button>, activator: Option<EntityId>)
    requires
        state.me.toggle.state == ToggleState::GoingUp || state.me.toggle.state == ToggleState::GoingDown,
    ensures
        state.pressed(ButtonCode::Press) == state,
        state.used(activator) == state,
{
}

/// A button that was pressed is, once its move has ended, in and at its inner
/// end.
pub proof fn a_pressed_button_ends_in(state: Step<Button>)
    requires
        !state.me.locked,
        state.me.toggle.state == ToggleState::AtBottom,
        !state.me.toggle.travel.position2.same(state.core.place.local_origin),
    ensures
        state.pressed(ButtonCode::Press).me.toggle.state == ToggleState::GoingUp,
        ({
            let after = state.pressed(ButtonCode::Press).rung();
            &&& after.me.toggle.state == ToggleState::AtTop
            &&& after.core.place.local_origin == state.me.toggle.travel.position2
        }),
{
}

/// A button that goes out is, once its move has ended, out and at its outer
/// end.
pub proof fn a_returning_button_ends_out(state: Step<Button>)
    requires
        !state.me.toggle.travel.position1.same(state.core.place.local_origin),
    ensures
        ({
            let after = state.going_out().rung();
            &&& after.me.toggle.state == ToggleState::AtBottom
            &&& after.core.place.local_origin == state.me.toggle.travel.position1
        }),
{
}

// ---------------------------------------------------------------------------
// func_movelinear
// ---------------------------------------------------------------------------

/// A sliding brush that is sent somewhere is there once its move has ended.
pub proof fn a_sliding_brush_ends_where_it_was_sent(state: Step<MoveLinear>, to: Vector, speed: Scalar)
    requires
        !speed.same(num(ZERO)),
        !to.same(state.core.place.local_origin),
    ensures
        state.bound_for(to, speed).rung().core.place.local_origin == to,
{
}

/// A sliding brush that arrives at its open end says so.
pub proof fn a_sliding_brush_tells_of_its_open_end(state: Step<MoveLinear>, speed: Scalar)
    requires
        !speed.same(num(ZERO)),
        !state.me.toggle.travel.position2.same(state.core.place.local_origin),
        state.me.toggle.travel.position2.same(state.me.toggle.travel.position2),
    ensures
        state.bound_for(state.me.toggle.travel.position2, speed).rung().cx.posted.last() == (PostedView::Output {
            source: state.core.id,
            output: "OnFullyOpen"@,
            value: Variant::Void,
            activator: Some(state.core.id),
            caller: Some(state.core.id),
            delay: num(ZERO),
        }),
{
}

// ---------------------------------------------------------------------------
// func_rotating
// ---------------------------------------------------------------------------

/// A turning brush that is not looking for the angle that it started at turns
/// no faster than its largest speed, either way.
pub proof fn a_turning_brush_has_a_largest_speed(state: Step<Rotating>, new: Scalar, offset: Scalar)
    requires
        state.me.wf(),
        !state.me.stop_at_start_pos,
        new.numeric(),
    ensures
        ({
            let speed = state.at_speed(new, offset).core.drive.speed;
            let largest = state.me.keys.max_speed;
            largest.negated().at_most(speed) && speed.at_most(largest)
        }),
{
    clamp_stays_in_bounds(new, state.me.keys.max_speed.negated(), state.me.keys.max_speed);
}

/// A brush that turns is switched off by being used, and one that stands is
/// switched on, up to its largest speed.
pub proof fn using_a_turning_brush_switches_it(state: Step<Rotating>, offset: Scalar)
    requires
        !state.me.reversed,
        !state.me.stop_at_start_pos,
    ensures
        state.used(offset).me.target_speed == (if state.core.drive.speed.same(num(ZERO)) {
            state.me.keys.max_speed.absolute()
        } else {
            num(ZERO).absolute()
        }),
{
    reveal(Step::<_>::aiming_at);
}

} // verus!
