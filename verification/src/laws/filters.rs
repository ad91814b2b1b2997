//! Laws of filters: who passes, and what a trigger or damage makes of it.
use vstd::prelude::*;

use crate::behaviour::{BehaviourView, FilterView};
use crate::classes::filter::{
    lets_damage_pass, lets_pass, passes_at, FilterClass, FilterDamageType, FilterModel, FilterMultiView,
    FilterName, FilterPlayerHeld,
};
use crate::classes::trigger::{admits, BaseTriggerView};
use crate::context::ContextView;
use crate::damage::{DamageInfo, DamageMode};
use crate::entity::{CoreView, EntityId};
use crate::io::{Input, Variant};
use crate::laws::outputs::{output, posts};
use crate::list::{at, found_all, Search, SlotView};
use crate::step::Step;
use crate::text::{agree, lower, name_matches, same_name};

verus! {

// ---------------------------------------------------------------------------
// Names
// ---------------------------------------------------------------------------

/// A query without a `*` names exactly the targets that are it but for case.
pub proof fn a_plain_query_names_its_like(query: Seq<char>, name: Seq<char>)
    requires
        forall|k: int| 0 <= k < query.len() ==> #[trigger] query[k] != '*',
    ensures
        name_matches(query, name) <==> same_name(query, name),
        name_matches(query, query),
{
    reveal(same_name);
}

/// A query that ends in a `*` names every target that starts as it does.
pub proof fn a_query_with_a_star_names_what_starts_so(query: Seq<char>, name: Seq<char>, k: int)
    requires
        0 <= k < query.len(),
        query[k] == '*',
        k < name.len(),
        forall|i: int| 0 <= i < k ==> lower(#[trigger] query[i]) == lower(name[i]),
        lower(name[k]) != lower('*'),
    ensures
        name_matches(query, name),
{
    assert(agree(query, name, k));
}

// ---------------------------------------------------------------------------
// Who passes a filter
// ---------------------------------------------------------------------------

/// A filter by name passes exactly the entities that its name names; of players,
/// by their role. One without a name passes what has none. Turned round, it
/// passes all others.
pub proof fn a_filter_by_name(f: FilterName, other: CoreView)
    ensures
        f.filter_name is None ==> f.lets_pass(other) == (other.name is None != f.base.negated),
        f.filter_name matches Some(want) ==> {
            &&& same_name(want@, "!player"@) ==> f.lets_pass(other) == ((other.flags & 0x100 != 0) != f.base.negated)
            &&& !same_name(want@, "!player"@) && other.name is None ==> f.lets_pass(other) == f.base.negated
            &&& !same_name(want@, "!player"@) ==> (other.name matches Some(have) ==> f.lets_pass(other) == (name_matches(
                want@,
                have,
            ) != f.base.negated))
        },
{
}

/// A filter by class passes exactly the entities of the class that it names, and
/// one that names none passes nothing. Turned round, it passes all others.
pub proof fn a_filter_by_class(f: FilterClass, other: CoreView)
    ensures
        f.filter_class is None ==> f.lets_pass(other) == f.base.negated,
        f.filter_class matches Some(want) ==> f.lets_pass(other) == (name_matches(want@, other.classname)
            != f.base.negated),
{
}

/// A filter by model passes exactly the entities of its model. Turned round, it
/// passes all others.
pub proof fn a_filter_by_model(f: FilterModel, other: CoreView)
    ensures
        (f.filter_model matches Some(want) && other.model matches Some(have)) ==> f.lets_pass(other) == (same_name(
            f.filter_model->0@,
            other.model->0,
        ) != f.base.negated),
        f.filter_model is None && other.model is None ==> f.lets_pass(other) == !f.base.negated,
        (f.filter_model matches Some(want) && want@.len() > 0 && other.model is None) ==> f.lets_pass(other)
            == f.base.negated,
{
    reveal(same_name);
    if f.filter_model is Some {
        let want = f.filter_model->0@;
        if want.len() > 0 {
            assert(crate::text::fold(want).len() != crate::text::fold(Seq::<char>::empty()).len());
        }
    }
}

/// A filter by damage passes every entity, and one for what a player holds none.
/// Turned round, it is the other way about.
pub proof fn filters_that_do_not_look(d: FilterDamageType, h: FilterPlayerHeld, other: CoreView)
    ensures
        d.lets_pass(other) == !d.base.negated,
        h.lets_pass(other) == h.base.negated,
{
}

/// A filter in the list passes what its own test passes; what is no filter, and
/// a handle that does not resolve, pass everything.
pub proof fn a_listed_filter_asks_its_own_test(list: Seq<SlotView>, filter: EntityId, other: CoreView, depth: nat)
    requires
        depth < 8,
    ensures
        match at(list, filter) {
            None => passes_at(list, filter, other, depth),
            Some(e) => match e.behaviour {
                BehaviourView::Filter(FilterView::FilterName(f)) => passes_at(list, filter, other, depth)
                    == f.lets_pass(other),
                BehaviourView::Filter(FilterView::FilterClass(f)) => passes_at(list, filter, other, depth)
                    == f.lets_pass(other),
                BehaviourView::Filter(FilterView::FilterModel(f)) => passes_at(list, filter, other, depth)
                    == f.lets_pass(other),
                BehaviourView::Filter(FilterView::FilterDamageType(f)) => passes_at(list, filter, other, depth)
                    == f.lets_pass(other),
                BehaviourView::Filter(FilterView::FilterPlayerHeld(f)) => passes_at(list, filter, other, depth)
                    == f.lets_pass(other),
                BehaviourView::Filter(FilterView::FilterMulti(f)) => true,
                _ => passes_at(list, filter, other, depth),
            },
        },
{
}

/// A filter made of others passes what all of them pass, or what one of them
/// passes, by its type. Turned round, it passes all others.
pub proof fn a_filter_of_filters(list: Seq<SlotView>, filter: EntityId, f: FilterMultiView, other: CoreView, depth: nat)
    requires
        depth < 8,
        at(list, filter) matches Some(e) && e.behaviour == BehaviourView::Filter(FilterView::FilterMulti(f)),
    ensures
        f.filter_type == 0 && !f.base.negated && passes_at(list, filter, other, depth) ==> forall|i: int|
            0 <= i < f.filters.len() ==> passes_at(list, #[trigger] f.filters[i], other, depth + 1),
        f.filter_type == 0 && (forall|i: int|
            0 <= i < f.filters.len() ==> passes_at(list, #[trigger] f.filters[i], other, depth + 1)) ==> passes_at(
            list,
            filter,
            other,
            depth,
        ) == !f.base.negated,
        f.filter_type != 0 && !f.base.negated && passes_at(list, filter, other, depth) ==> exists|i: int|
            0 <= i < f.filters.len() && passes_at(list, #[trigger] f.filters[i], other, depth + 1),
        f.filter_type != 0 && (exists|i: int|
            0 <= i < f.filters.len() && passes_at(list, #[trigger] f.filters[i], other, depth + 1)) ==> passes_at(
            list,
            filter,
            other,
            depth,
        ) == !f.base.negated,
        f.filter_type == 0 && (exists|i: int|
            0 <= i < f.filters.len() && !passes_at(list, #[trigger] f.filters[i], other, depth + 1)) ==> passes_at(
            list,
            filter,
            other,
            depth,
        ) == f.base.negated,
{
    assert(passes_at(list, filter, other, depth) == lets_pass(
        list,
        BehaviourView::Filter(FilterView::FilterMulti(f)),
        other,
        depth + 1,
    ));
}

/// Asked whether somebody passes, a filter says that they pass exactly if they
/// do, and that they fail if they are not there.
pub proof fn a_filter_tells_who_passes(state: Step<FilterName>, input: Input)
    requires
        same_name(input.name@, "TestActivator"@),
    ensures
        state.filter_name_input(input) matches Some(next) && ({
            let there = input.activator matches Some(id) && state.cx.at(id) is Some;
            &&& next.me == state.me
            &&& next.core == state.core
            &&& posts(
                state.cx,
                next.cx,
                seq![
                    output(
                        state.core.id,
                        if there && state.me.lets_pass((state.cx.at(input.activator->0)->0).core) {
                            "OnPass"@
                        } else {
                            "OnFail"@
                        },
                        Variant::Void,
                        input.activator,
                    ),
                ],
            )
        }),
{
    reveal(Step::<_>::filter_name_input);
}

/// The same of a filter by class.
pub proof fn a_class_filter_tells_who_passes(state: Step<FilterClass>, input: Input)
    requires
        same_name(input.name@, "TestActivator"@),
    ensures
        state.filter_class_input(input) matches Some(next) && ({
            let there = input.activator matches Some(id) && state.cx.at(id) is Some;
            &&& next.me == state.me
            &&& next.core == state.core
            &&& posts(
                state.cx,
                next.cx,
                seq![
                    output(
                        state.core.id,
                        if there && state.me.lets_pass((state.cx.at(input.activator->0)->0).core) {
                            "OnPass"@
                        } else {
                            "OnFail"@
                        },
                        Variant::Void,
                        input.activator,
                    ),
                ],
            )
        }),
{
    reveal(Step::<_>::filter_class_input);
}

/// The same of a filter by model.
pub proof fn a_model_filter_tells_who_passes(state: Step<FilterModel>, input: Input)
    requires
        same_name(input.name@, "TestActivator"@),
    ensures
        state.filter_model_input(input) matches Some(next) && ({
            let there = input.activator matches Some(id) && state.cx.at(id) is Some;
            &&& next.me == state.me
            &&& next.core == state.core
            &&& posts(
                state.cx,
                next.cx,
                seq![
                    output(
                        state.core.id,
                        if there && state.me.lets_pass((state.cx.at(input.activator->0)->0).core) {
                            "OnPass"@
                        } else {
                            "OnFail"@
                        },
                        Variant::Void,
                        input.activator,
                    ),
                ],
            )
        }),
{
    reveal(Step::<_>::filter_model_input);
}

/// The same of the filters that do not look at whom they are asked about.
pub proof fn a_blind_filter_tells_who_passes(
    damage: Step<FilterDamageType>,
    held: Step<FilterPlayerHeld>,
    input: Input,
)
    requires
        same_name(input.name@, "TestActivator"@),
    ensures
        ({
            let there = input.activator matches Some(id) && damage.cx.at(id) is Some;
            let said = if there && !damage.me.base.negated { "OnPass"@ } else { "OnFail"@ };
            damage.filter_damage_type_input(input) matches Some(next) && next.me == damage.me && next.core
                == damage.core && posts(
                damage.cx,
                next.cx,
                seq![output(damage.core.id, said, Variant::Void, input.activator)],
            )
        }),
        ({
            let there = input.activator matches Some(id) && held.cx.at(id) is Some;
            let said = if there && held.me.base.negated { "OnPass"@ } else { "OnFail"@ };
            held.filter_player_held_input(input) matches Some(next) && next.me == held.me && next.core == held.core
                && posts(held.cx, next.cx, seq![output(held.core.id, said, Variant::Void, input.activator)])
        }),
{
    reveal(Step::<_>::filter_damage_type_input);
    reveal(Step::<_>::filter_player_held_input);
}

/// The same of a filter made of others, which asks all of them or one of them.
pub proof fn a_filter_of_filters_tells_who_passes(state: Step<FilterMultiView>, input: Input, other: CoreView)
    requires
        same_name(input.name@, "TestActivator"@),
        !state.me.base.negated,
        input.activator matches Some(id) && (state.cx.at(id) matches Some(e) && e.core == other),
    ensures
        state.filter_multi_input(input) matches Some(next) && ({
            let all = forall|i: int|
                0 <= i < state.me.filters.len() ==> passes_at(state.cx.entities, #[trigger] state.me.filters[i], other, 0);
            let one = exists|i: int|
                0 <= i < state.me.filters.len() && passes_at(state.cx.entities, #[trigger] state.me.filters[i], other, 0);
            let passed = if state.me.filter_type == 0 { all } else { one };
            &&& next.me == state.me
            &&& next.core == state.core
            &&& posts(
                state.cx,
                next.cx,
                seq![
                    output(
                        state.core.id,
                        if passed { "OnPass"@ } else { "OnFail"@ },
                        Variant::Void,
                        input.activator,
                    ),
                ],
            )
        }),
{
    reveal(Step::<_>::filter_multi_input);
    assert(lets_pass(state.cx.entities, BehaviourView::Filter(FilterView::FilterMulti(state.me)), other, 0) == (
    if state.me.filter_type == 0 {
        forall|i: int|
            0 <= i < state.me.filters.len() ==> passes_at(state.cx.entities, #[trigger] state.me.filters[i], other, 0)
    } else {
        exists|i: int|
            0 <= i < state.me.filters.len() && passes_at(state.cx.entities, #[trigger] state.me.filters[i], other, 0)
    }));
}

// ---------------------------------------------------------------------------
// Whom a trigger lets in
// ---------------------------------------------------------------------------

/// Whether a trigger's spawn flags allow the kind that an entity is of: anybody,
/// players, characters, or brushes that can be pushed. One for players in
/// vehicles allows no player.
pub open spec fn kind_allowed(trigger: CoreView, other: CoreView) -> bool {
    let player = other.flags & 0x100 != 0;
    let asked = |flag: u32| trigger.spawn_flags & flag != 0;
    !(asked(0x20) && player) && (asked(0x40) || (asked(0x1) && player) || (asked(0x2) && other.flags & 0x4000 != 0)
        || (asked(0x4) && same_name(other.classname, "func_pushable"@)))
}

/// A trigger lets in exactly those who are there, are of a kind that it allows,
/// and pass its filter if it has one.
pub proof fn who_a_trigger_lets_in(trigger: BaseTriggerView, core: CoreView, other: EntityId, cx: ContextView)
    ensures
        cx.at(other) is None ==> !trigger.lets_in(core, other, cx),
        cx.at(other) matches Some(e) ==> {
            &&& !kind_allowed(core, e.core) ==> !trigger.lets_in(core, other, cx)
            &&& kind_allowed(core, e.core) && trigger.filter is None ==> trigger.lets_in(core, other, cx)
            &&& trigger.filter matches Some(filter) ==> {
                &&& trigger.lets_in(core, other, cx) ==> passes_at(cx.entities, filter, e.core, 0)
                &&& kind_allowed(core, e.core) && passes_at(cx.entities, filter, e.core, 0) ==> trigger.lets_in(
                    core,
                    other,
                    cx,
                )
            }
        },
{
    if let Some(e) = cx.at(other) {
        assert(admits(core, e.core) == kind_allowed(core, e.core));
    }
}

/// A trigger with a filter by name lets in exactly the entities of an allowed
/// kind that the name names, or those that it does not if the filter is turned
/// round.
pub proof fn a_trigger_with_a_filter_by_name(
    trigger: BaseTriggerView,
    core: CoreView,
    other: EntityId,
    cx: ContextView,
    f: FilterName,
    want: Seq<char>,
    have: Seq<char>,
)
    requires
        trigger.filter matches Some(filter) && (cx.at(filter) matches Some(e) && e.behaviour == BehaviourView::Filter(
            FilterView::FilterName(f),
        )),
        f.filter_name matches Some(text) && text@ == want,
        !same_name(want, "!player"@),
        cx.at(other) matches Some(e) && e.core.name == Some(have) && kind_allowed(core, e.core),
    ensures
        trigger.lets_in(core, other, cx) == (name_matches(want, have) != f.base.negated),
{
    who_a_trigger_lets_in(trigger, core, other, cx);
    let e = cx.at(other)->0;
    a_listed_filter_asks_its_own_test(cx.entities, trigger.filter->0, e.core, 0);
    a_filter_by_name(f, e.core);
}

/// A trigger's filter is the first entity that its filter's name names, if that
/// is a filter at all; a trigger that names none has the filter that it had.
pub proof fn a_trigger_finds_its_filter(trigger: BaseTriggerView, cx: ContextView)
    ensures
        ({
            let after = trigger.activated(cx);
            &&& trigger.filter_name is None ==> after == trigger
            &&& after.touching == trigger.touching && after.disabled == trigger.disabled && after.filter_name
                == trigger.filter_name
            &&& trigger.filter_name matches Some(name) ==> {
                let named = found_all(cx.entities, Search::Named(name));
                let found = named.len() > 0 && (cx.at(named[0]) matches Some(e) && e.behaviour is Filter);
                after.filter == (if found { Some(named[0]) } else { None::<EntityId> })
            }
        }),
{
}

// ---------------------------------------------------------------------------
// Damage
// ---------------------------------------------------------------------------

/// Damage reaches exactly what is there and takes damage, and whose damage
/// filter, if it has one, is there and lets the damage pass. It is then added to
/// what has been dealt, and nothing else changes.
pub proof fn whom_damage_reaches(cx: ContextView, target: EntityId, info: DamageInfo)
    ensures
        cx.at(target) is None ==> !cx.hurtable(target, info),
        cx.at(target) matches Some(e) ==> {
            &&& e.core.vitals.take_damage == DamageMode::No ==> !cx.hurtable(target, info)
            &&& e.core.vitals.take_damage != DamageMode::No && e.core.vitals.damage_filter is None ==> cx.hurtable(
                target,
                info,
            )
            &&& e.core.vitals.damage_filter matches Some(filter) ==> {
                &&& cx.at(filter) is None ==> !cx.hurtable(target, info)
                &&& cx.at(filter) matches Some(f) ==> {
                    &&& cx.hurtable(target, info) ==> lets_damage_pass(cx, f.behaviour, info)
                    &&& lets_damage_pass(cx, f.behaviour, info) && e.core.vitals.take_damage != DamageMode::No
                        ==> cx.hurtable(target, info)
                }
            }
        },
        !cx.hurtable(target, info) ==> cx.hurting(target, info) == cx,
        cx.hurtable(target, info) ==> ({
            let after = cx.hurting(target, info);
            &&& after.outbox.damage == cx.outbox.damage.push((target, info))
            &&& after.posted == cx.posted
            &&& after.entities == cx.entities
        }),
{
}

/// A filter by damage passes exactly the damage of its type, whether it is
/// direct or not. Any other filter passes the damage of whoever passes it, and
/// none that nobody dealt.
pub proof fn which_damage_passes(cx: ContextView, behaviour: BehaviourView, info: DamageInfo)
    ensures
        behaviour matches BehaviourView::Filter(FilterView::FilterDamageType(f)) ==> lets_damage_pass(
            cx,
            behaviour,
            info,
        ) == ((info.damage_type & !0x1000_0000 == f.damage_type) != f.base.negated),
        !(behaviour matches BehaviourView::Filter(FilterView::FilterDamageType(f))) ==> {
            &&& info.attacker is None ==> !lets_damage_pass(cx, behaviour, info)
            &&& info.attacker matches Some(id) ==> {
                &&& cx.at(id) is None ==> !lets_damage_pass(cx, behaviour, info)
                &&& cx.at(id) matches Some(attacker) ==> lets_damage_pass(cx, behaviour, info) == lets_pass(
                    cx.entities,
                    behaviour,
                    attacker.core,
                    0,
                )
            }
        },
{
}

} // verus!
