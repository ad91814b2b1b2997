//! Laws of the volumes that notice who stands in them.
use vstd::prelude::*;

use crate::classes::floor_button::{ButtonTriggerView, FloorButton, PadSequence};
use crate::classes::trigger::{place_of, resolving, BaseTriggerView};
use crate::context::{ContextView, PostedView};
use crate::entity::EntityId;
use crate::io::Variant;
use crate::scalar::{num, ZERO};
use crate::step::Step;

verus! {

/// Those that resolve are some of those that were there.
pub proof fn resolving_keeps_only_what_was_there(cx: ContextView, ids: Seq<EntityId>, n: int)
    requires
        0 <= n <= ids.len(),
    ensures
        resolving(cx, ids, n).len() <= n,
        forall|id: EntityId| #[trigger]
            resolving(cx, ids, n).contains(id) ==> cx.holds(id) && exists|i: int| 0 <= i < n && #[trigger] ids[i] == id,
    decreases n,
{
    if n > 0 {
        resolving_keeps_only_what_was_there(cx, ids, n - 1);
        let before = resolving(cx, ids, n - 1);
        assert forall|id: EntityId| #[trigger] resolving(cx, ids, n).contains(id) implies cx.holds(id)
            && exists|i: int| 0 <= i < n && #[trigger] ids[i] == id by {
            let k = choose|k: int| 0 <= k < resolving(cx, ids, n).len() && resolving(cx, ids, n)[k] == id;
            if k < before.len() {
                assert(before[k] == id);
                assert(before.contains(id));
            } else {
                assert(ids[n - 1] == id);
            }
        }
    }
}

/// Nobody who resolves twice, if nobody is listed twice.
proof fn resolving_repeats_nobody(cx: ContextView, ids: Seq<EntityId>, n: int)
    requires
        0 <= n <= ids.len(),
        ids.no_duplicates(),
    ensures
        resolving(cx, ids, n).no_duplicates(),
    decreases n,
{
    if n > 0 {
        resolving_repeats_nobody(cx, ids, n - 1);
        resolving_keeps_only_what_was_there(cx, ids, n - 1);
        let before = resolving(cx, ids, n - 1);
        if cx.holds(ids[n - 1]) {
            assert forall|i: int, j: int|
                0 <= i < resolving(cx, ids, n).len() && 0 <= j < resolving(cx, ids, n).len() && i != j implies resolving(
                cx,
                ids,
                n,
            )[i] != resolving(cx, ids, n)[j] by {
                if i < before.len() {
                    assert(before.contains(before[i]));
                }
                if j < before.len() {
                    assert(before.contains(before[j]));
                }
            }
        }
    }
}

proof fn a_place_holds_it(ids: Seq<EntityId>, id: EntityId, i: int)
    requires
        0 <= i,
    ensures
        place_of(ids, id, i) matches Some(k) ==> i <= k < ids.len() && ids[k] == id,
    decreases ids.len() - i,
{
    if i < ids.len() {
        a_place_holds_it(ids, id, i + 1);
    }
}

/// Nobody stands in a trigger twice, however often they come and go.
pub proof fn nobody_stands_in_a_trigger_twice(state: Step<BaseTriggerView>, passed: bool, other: EntityId)
    requires
        state.me.touching.no_duplicates(),
    ensures
        state.entered(passed, other).me.touching.no_duplicates(),
        state.left(other).me.touching.no_duplicates(),
{
    a_place_holds_it(state.me.touching, other, 0);
    if let Some(i) = place_of(state.me.touching, other, 0) {
        let rest = state.me.touching.remove(i);
        assert(rest.no_duplicates());
        resolving_repeats_nobody(state.cx, rest, rest.len() as int);
    }
}

/// Who passed stands in the trigger; who did not changes nothing.
pub proof fn who_passes_stands_in_it(state: Step<BaseTriggerView>, other: EntityId)
    ensures
        state.entered(true, other).me.touching.contains(other),
        state.entered(false, other) == state,
{
    if !state.me.touching.contains(other) {
        let touching = state.me.touching.push(other);
        assert(touching[state.me.touching.len() as int] == other);
    }
}

/// Who was not counted in is not counted out.
pub proof fn who_never_entered_does_not_leave(state: Step<BaseTriggerView>, other: EntityId)
    requires
        !state.me.touching.contains(other),
    ensures
        state.left(other) == state,
{
    a_place_holds_it(state.me.touching, other, 0);
}

/// The first to stand in an empty trigger, and only the first, sets off both
/// outputs.
pub proof fn the_first_to_enter_is_told_of(state: Step<BaseTriggerView>, other: EntityId)
    ensures
        state.me.touching.len() == 0 ==> state.entered(true, other).cx.posted.len() == state.cx.posted.len() + 2,
        state.me.touching.len() > 0 ==> state.entered(true, other).cx.posted.len() == state.cx.posted.len() + 1,
{
}

/// Coming to stand in an empty trigger and leaving it empties it.
pub proof fn entering_and_leaving_empties(state: Step<BaseTriggerView>, other: EntityId)
    requires
        state.me.touching.len() == 0,
    ensures
        state.entered(true, other).empties(other),
        state.entered(true, other).left(other).me.touching.len() == 0,
{
    let inside = state.entered(true, other);
    let touching = inside.me.touching;
    assert(touching.len() == 1 && touching[0] == other);
    assert(place_of(touching, other, 0) == Some(0int));
    assert(touching.remove(0).len() == 0);
}

/// A pad that was pressed is down, and one that was released is up; each says
/// so once.
pub proof fn a_pad_shows_what_was_done_to_it(state: Step<FloorButton>, down: bool, activator: Option<EntityId>)
    ensures
        state.moved(down, activator).me.pressed == down,
        state.moved(down, activator).me.sequence == (if down { PadSequence::Down } else { PadSequence::Up }),
        state.moved(down, activator).cx.posted.len() == state.cx.posted.len() + 1,
        state.moved(down, activator).me.trigger == state.me.trigger,
{
}

/// The first to stand on a pad presses it.
pub proof fn the_first_on_a_pad_presses_it(state: Step<ButtonTriggerView>, pad: EntityId, other: EntityId)
    requires
        state.me.owner == Some(pad),
        state.me.base.touching.len() == 0,
        state.me.lets_press(state.core, other, state.cx),
    ensures
        state.entered(other).cx.posted.last() == (PostedView::ToEntity {
            target: pad,
            input: "PressIn"@,
            value: Variant::Void,
            delay: num(ZERO),
            activator: Some(other),
            caller: Some(state.core.id),
        }),
{
}

} // verus!
