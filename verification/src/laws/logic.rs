//! Laws of the classes that move nothing.
use vstd::prelude::*;

use crate::classes::branch::{
    branch_is_true, branches_come_to, told, BranchListView, BranchState, BranchView, MAX_LOGIC_BRANCH_NAMES,
};
use crate::classes::logic::{
    Auto, MathCounter, Relay, Timer, TimerFigures, SF_AUTO_FIREONCE, SF_RELAY_ALLOW_FAST_RETRIGGER,
    SF_RELAY_REMOVE_ON_FIRE,
};
use crate::context::{ContextView, PostedView};
use crate::entity::{CoreView, EntityId, Schedule};
use crate::io::{Input, Value, Variant};
use crate::list::{found_all, Search};
use crate::scalar::{clamp_stays_in_bounds, num, Scalar, CENTI, ZERO};
use crate::step::{step, Step};
use crate::text::{lengths_tell_names_apart, letters_tell_names_apart, same_name};

verus! {

// ---------------------------------------------------------------------------
// logic_relay
// ---------------------------------------------------------------------------

/// A relay that is disabled, or still waiting, passes nothing on.
pub proof fn a_closed_relay_passes_nothing_on(state: Step<Relay>, activator: Option<EntityId>, delay: Scalar)
    requires
        state.me.disabled || state.me.wait_for_refire,
    ensures
        state.triggered(activator, delay) == state,
{
}

/// A relay that has fired, stays and may not fire fast is closed to a second
/// trigger, and has sent itself what opens it again.
pub proof fn a_relay_fires_once_until_it_is_through(state: Step<Relay>, activator: Option<EntityId>, delay: Scalar)
    requires
        !state.me.disabled,
        !state.me.wait_for_refire,
        !state.core.spawned_with(SF_RELAY_REMOVE_ON_FIRE),
        !state.core.spawned_with(SF_RELAY_ALLOW_FAST_RETRIGGER),
    ensures
        ({
            let after = state.triggered(activator, delay);
            let id = state.core.id;
            &&& after.me.wait_for_refire
            &&& after.triggered(activator, delay) == after
            &&& after.cx.posted.last() == (PostedView::ToEntity {
                target: id,
                input: "EnableRefire"@,
                value: Variant::Void,
                delay,
                activator: Some(id),
                caller: Some(id),
            })
        }),
{
}

/// What a relay sends itself opens it again.
pub proof fn refiring_opens_a_relay(state: Step<Relay>, input: Input, delay: Scalar)
    requires
        same_name(input.name@, "EnableRefire"@),
    ensures
        state.relay_input(input, delay) == Some(state.with(Relay { wait_for_refire: false, ..state.me })),
{
    reveal(Step::<_>::relay_input);
    reveal_strlit("EnableRefire");
    reveal_strlit("Enable");
    reveal_strlit("Disable");
    reveal_strlit("Toggle");
    lengths_tell_names_apart(input.name@, "EnableRefire"@, "Enable"@);
    lengths_tell_names_apart(input.name@, "EnableRefire"@, "Disable"@);
    lengths_tell_names_apart(input.name@, "EnableRefire"@, "Toggle"@);
}

/// Toggling a relay twice gives it back.
pub proof fn toggling_a_relay_twice(state: Step<Relay>, input: Input, delay: Scalar)
    requires
        same_name(input.name@, "Toggle"@),
    ensures
        state.relay_input(input, delay) matches Some(once) && once.relay_input(input, delay) == Some(state),
{
    reveal(Step::<_>::relay_input);
    reveal_strlit("Toggle");
    reveal_strlit("Enable");
    reveal_strlit("Disable");
    letters_tell_names_apart(input.name@, "Toggle"@, "Enable"@, 0);
    lengths_tell_names_apart(input.name@, "Toggle"@, "Disable"@);
}

// ---------------------------------------------------------------------------
// logic_auto
// ---------------------------------------------------------------------------

/// A map start that waits for a global state fires nothing; any other fires
/// both of its outputs, and is gone if it was to fire once.
pub proof fn a_map_start_fires_both_outputs(state: Step<Auto>)
    ensures
        state.me.global_state is Some ==> state.thought() == state,
        state.me.global_state is None ==> state.thought().cx.posted.len() == state.cx.posted.len() + 2,
        state.me.global_state is None && state.core.spawned_with(SF_AUTO_FIREONCE)
            ==> state.thought().core.agenda.removed,
{
}

// ---------------------------------------------------------------------------
// logic_timer
// ---------------------------------------------------------------------------

/// A timer that is disabled neither fires nor starts over.
pub proof fn a_disabled_timer_does_nothing(state: Step<Timer>, drawn: Scalar)
    requires
        state.me.disabled,
    ensures
        state.fired(drawn) == state,
        state.restarted(drawn) == state,
{
}

/// Disabling a timer stops its thinking, and it then does nothing.
pub proof fn disabling_a_timer_stops_it(state: Step<Timer>, drawn: Scalar)
    ensures
        state.disabled().core.agenda.schedule == Schedule::Never,
        state.disabled().fired(drawn) == state.disabled(),
{
}

/// An interval is never shorter than the shortest there is.
pub proof fn an_interval_has_a_least_length(seconds: Scalar)
    requires
        seconds.numeric(),
    ensures
        num(CENTI).at_most(Timer::interval(seconds)),
{
}

// ---------------------------------------------------------------------------
// math_counter
// ---------------------------------------------------------------------------

/// However a bounded counter is set, its number is between its bounds.
pub proof fn counting_stays_in_bounds(state: Step<MathCounter>, new: Scalar, activator: Option<EntityId>)
    requires
        state.me.bounded(),
        state.me.ordered(),
        new.numeric(),
    ensures
        ({
            let after = state.counted(new, activator).me;
            &&& after.min == state.me.min && after.max == state.me.max
            &&& after.min.at_most(after.value)
            &&& after.value.at_most(after.max)
        }),
{
    reveal(Step::<_>::counted);
    clamp_stays_in_bounds(new, state.me.min, state.me.max);
}

/// However a counter is set, the last that is heard is the number that it has.
pub proof fn counting_tells_the_number(state: Step<MathCounter>, new: Scalar, activator: Option<EntityId>)
    ensures
        ({
            let after = state.counted(new, activator);
            after.cx.posted.last() == (PostedView::Output {
                source: state.core.id,
                output: "OutValue"@,
                value: Variant::Float(after.me.value),
                activator,
                caller: Some(state.core.id),
                delay: num(ZERO),
            })
        }),
{
    reveal(Step::<_>::counted);
}

/// An edge that a counter has reached is not told again while it stays there.
pub proof fn an_edge_is_told_once(state: Step<MathCounter>, new: Scalar, activator: Option<EntityId>)
    ensures
        state.me.max.at_most(new) ==> ({
            let after = state.at_max(new, activator);
            after.at_max(new, activator) == after
        }),
        new.at_most(state.me.min) ==> ({
            let after = state.at_min(new, activator);
            after.at_min(new, activator) == after
        }),
{
}

/// A counter without bounds tells of none.
pub proof fn an_unbounded_counter_has_no_edges(state: Step<MathCounter>, new: Scalar, activator: Option<EntityId>)
    requires
        !state.me.bounded(),
    ensures
        state.counted(new, activator).me == (MathCounter { value: new, ..state.me }),
        state.counted(new, activator).cx.posted.len() == state.cx.posted.len() + 1,
{
    reveal(Step::<_>::counted);
}

/// A spawned counter's bounds are the right way round.
pub proof fn a_spawned_counter_is_ordered(counter: MathCounter)
    requires
        counter.min.numeric(),
        counter.max.numeric(),
    ensures
        counter.spawned().ordered(),
{
}

// ---------------------------------------------------------------------------
// logic_branch
// ---------------------------------------------------------------------------

/// A listener that is added twice listens once.
pub proof fn listening_twice_is_listening_once(branch: BranchView, listener: EntityId)
    ensures
        branch.heard_by(listener).listeners.contains(listener),
        branch.heard_by(listener).heard_by(listener) == branch.heard_by(listener),
        branch.listeners.no_duplicates() ==> branch.heard_by(listener).listeners.no_duplicates(),
{
    if !branch.listeners.contains(listener) {
        assert(branch.heard_by(listener).listeners[branch.listeners.len() as int] == listener);
    }
}

/// Setting a branch to what it is tells nobody.
pub proof fn setting_a_branch_to_what_it_is(state: Step<BranchView>, activator: Option<EntityId>)
    ensures
        state.updated(state.me.value, false, activator) == state,
{
}

/// Every listener is told of a change, once each.
pub proof fn each_listener_is_told(cx: ContextView, listeners: Seq<EntityId>, me: EntityId, n: int)
    requires
        0 <= n <= listeners.len(),
    ensures
        told(cx, listeners, me, n).posted.len() == cx.posted.len() + n,
        forall|i: int|
            0 <= i < n ==> #[trigger] told(cx, listeners, me, n).posted[cx.posted.len() + i] == (
            PostedView::ToEntity {
                target: listeners[i],
                input: "_OnLogicBranchChanged"@,
                value: Variant::Void,
                delay: num(ZERO),
                activator: Some(me),
                caller: Some(me),
            }),
    decreases n,
{
    if n > 0 {
        each_listener_is_told(cx, listeners, me, n - 1);
        let before = told(cx, listeners, me, n - 1);
        assert forall|i: int| 0 <= i < n implies #[trigger] told(cx, listeners, me, n).posted[cx.posted.len() + i]
            == (PostedView::ToEntity {
            target: listeners[i],
            input: "_OnLogicBranchChanged"@,
            value: Variant::Void,
            delay: num(ZERO),
            activator: Some(me),
            caller: Some(me),
        }) by {
            if i < n - 1 {
                assert(told(cx, listeners, me, n).posted[cx.posted.len() + i] == before.posted[cx.posted.len() + i]);
            }
        }
    }
}

/// A branch that is set has what it was set to, and keeps its listeners.
pub proof fn a_branch_is_what_it_was_set_to(
    state: Step<BranchView>,
    new: bool,
    fire: bool,
    activator: Option<EntityId>,
)
    ensures
        state.updated(new, fire, activator).me == (BranchView { value: new, ..state.me }),
{
}

// ---------------------------------------------------------------------------
// logic_branch_listener
// ---------------------------------------------------------------------------

/// No branches at all come to a mixture.
pub proof fn no_branches_are_mixed(cx: ContextView)
    ensures
        branches_come_to(cx, Seq::empty()) == BranchState::Mixed,
{
}

/// Branches come to all true exactly if there are some and each is true, and
/// to all false exactly if there are some and none is.
pub proof fn branches_agree_or_are_mixed(cx: ContextView, branches: Seq<EntityId>)
    ensures
        branches_come_to(cx, branches) == BranchState::AllTrue <==> branches.len() > 0 && forall|i: int|
            0 <= i < branches.len() ==> branch_is_true(cx, #[trigger] branches[i]),
        branches_come_to(cx, branches) == BranchState::AllFalse <==> branches.len() > 0 && forall|i: int|
            0 <= i < branches.len() ==> !branch_is_true(cx, #[trigger] branches[i]),
{
    if branches.len() > 0 {
        let first = branches[0];
        assert(branch_is_true(cx, branches[0]) || !branch_is_true(cx, branches[0]));
    }
}

/// A number is drawn for a timer exactly where it becomes the interval:
/// elsewhere an input does the same whatever is drawn.
pub proof fn a_number_is_drawn_where_it_counts(
    state: Step<Timer>,
    input: Input,
    figures: TimerFigures,
    drawn: Scalar,
)
    ensures
        !state.me.draws_on(input) ==> state.timer_input(input, figures) == state.timer_input(
            input,
            TimerFigures { drawn, ..figures },
        ),
        state.me.draws_on(input) ==> (state.timer_input(input, figures) matches Some(next) && next.me.refire_time
            == figures.drawn),
{
    reveal(Step::<_>::timer_input);
    let name = input.name@;
    reveal_strlit("Enable");
    reveal_strlit("Disable");
    reveal_strlit("Toggle");
    reveal_strlit("FireTimer");
    reveal_strlit("ResetTimer");
    reveal_strlit("RefireTime");
    if same_name(name, "Enable"@) {
    } else if same_name(name, "Toggle"@) {
        lengths_tell_names_apart(name, "Toggle"@, "Disable"@);
        lengths_tell_names_apart(name, "Toggle"@, "FireTimer"@);
        lengths_tell_names_apart(name, "Toggle"@, "ResetTimer"@);
        lengths_tell_names_apart(name, "Toggle"@, "RefireTime"@);
    } else if same_name(name, "FireTimer"@) {
        lengths_tell_names_apart(name, "FireTimer"@, "Disable"@);
        lengths_tell_names_apart(name, "FireTimer"@, "ResetTimer"@);
        lengths_tell_names_apart(name, "FireTimer"@, "RefireTime"@);
    } else if same_name(name, "ResetTimer"@) {
        lengths_tell_names_apart(name, "ResetTimer"@, "Disable"@);
        letters_tell_names_apart(name, "ResetTimer"@, "RefireTime"@, 2);
    } else if same_name(name, "RefireTime"@) {
        lengths_tell_names_apart(name, "RefireTime"@, "Disable"@);
    }
}

/// A listener's state once it has read the first `n` of some keys.
pub open spec fn listener_with_keys(keys: Seq<(Seq<char>, Value)>, n: int) -> BranchListView
    decreases n,
{
    if n <= 0 {
        BranchListView::fresh()
    } else {
        let before = listener_with_keys(keys, n - 1);
        before.keyed(keys[n - 1].0, keys[n - 1].1).unwrap_or(before)
    }
}

proof fn keys_tell_a_listener_nothing(keys: Seq<(Seq<char>, Value)>, n: int)
    ensures
        listener_with_keys(keys, n).last == BranchState::NotInit,
    decreases n,
{
    if n > 0 {
        keys_tell_a_listener_nothing(keys, n - 1);
        reveal(BranchListView::keyed);
    }
}

proof fn hooking_on_is_silent(state: Step<BranchListView>, ids: Seq<EntityId>, n: int)
    ensures
        state.hooked(ids, n).me.last == state.me.last,
        state.hooked(ids, n).cx.posted == state.cx.posted,
    decreases n,
{
    if n > 0 {
        hooking_on_is_silent(state, ids, n - 1);
    }
}

proof fn activation_is_silent(state: Step<BranchListView>, n: int)
    ensures
        state.activated(n).me.last == state.me.last,
        state.activated(n).cx.posted == state.cx.posted,
    decreases n,
{
    if n > 0 {
        activation_is_silent(state, n - 1);
        let before = state.activated(n - 1);
        if let Some(name) = state.me.names[n - 1] {
            let ids = found_all(before.cx.entities, Search::Named(name));
            hooking_on_is_silent(before, ids, ids.len() as int);
        }
    }
}

/// A listener is silent until its first input: whatever keys it has read, and
/// whatever its branches come to once it has found them, it has compared nothing
/// and posted nothing.
pub proof fn a_listener_is_silent_at_first(keys: Seq<(Seq<char>, Value)>, core: CoreView, cx: ContextView)
    ensures
        ({
            let read = listener_with_keys(keys, keys.len() as int);
            let ready = step(read, core, cx).activated(MAX_LOGIC_BRANCH_NAMES as int);
            &&& read.last == BranchState::NotInit
            &&& ready.me.last == BranchState::NotInit
            &&& ready.me.last.word() == "not-init"@
            &&& ready.cx.posted == cx.posted
        }),
{
    keys_tell_a_listener_nothing(keys, keys.len() as int);
    activation_is_silent(
        step(listener_with_keys(keys, keys.len() as int), core, cx),
        MAX_LOGIC_BRANCH_NAMES as int,
    );
}

} // verus!
