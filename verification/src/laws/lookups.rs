//! Laws of how things are found: entities, sequences, points and numbers.
use vstd::prelude::*;

use crate::attachment::{attached, AttachmentEntry};
use crate::context::ContextView;
use crate::entity::{connected, longest_delay, ConnectionView, EntityId};
use crate::io::Variant;
use crate::list::{at, found, found_all, holds, replaced, EntityView, Search, SlotView};
use crate::scalar::{Scalar, Vector};
use crate::sequences::{labelled, looked_up, LoadedModel, Lookup, Sequence};
use crate::text::{digits, integer_of, same_name};

verus! {

// ---------------------------------------------------------------------------
// Entities
// ---------------------------------------------------------------------------

/// A handle resolves exactly if its slot is there, holds something, and is at the
/// same tenant; and then to what the slot holds.
pub proof fn a_handle_resolves_to_its_tenant(list: Seq<SlotView>, id: EntityId)
    ensures
        at(list, id) matches Some(e) <==> (id.slot < list.len() && list[id.slot as int].serial == id.serial
            && list[id.slot as int].entity is Some),
        at(list, id) matches Some(e) ==> list[id.slot as int].entity == Some(e),
{
}

/// Changing what a handle resolves to changes that, and nothing else.
pub proof fn a_change_is_to_one_entity(list: Seq<SlotView>, id: EntityId, entity: EntityView, other: EntityId)
    requires
        holds(list, id),
    ensures
        at(replaced(list, id, entity), id) == Some(entity),
        other != id ==> at(replaced(list, id, entity), other) == at(list, other),
{
}

proof fn found_among(list: Seq<SlotView>, search: Search, n: int, id: EntityId)
    requires
        0 <= n <= list.len(),
        list.len() <= usize::MAX,
    ensures
        found(list, search, n).contains(id) <==> (id.slot < n && holds(list, id) && search.fits(at(list, id)->0)),
        forall|k: int| 0 <= k < found(list, search, n).len() ==> #[trigger] found(list, search, n)[k].slot < n,
    decreases n,
{
    if n > 0 {
        found_among(list, search, n - 1, id);
        let before = found(list, search, n - 1);
        let after = found(list, search, n);
        let here = EntityId { slot: (n - 1) as usize, serial: list[n - 1].serial };
        if search.fits_slot(list[n - 1]) {
            assert(after == before.push(here));
            assert(after.last() == here);
            if before.contains(id) {
                let k = choose|k: int| 0 <= k < before.len() && before[k] == id;
                assert(after[k] == id);
            }
            if after.contains(id) && id != here {
                let k = choose|k: int| 0 <= k < after.len() && after[k] == id;
                assert(before[k] == id);
            }
        }
    } else {
        assert(!found(list, search, n).contains(id));
    }
}

/// A search finds exactly the entities that fit it.
pub proof fn a_search_finds_what_fits(list: Seq<SlotView>, search: Search, id: EntityId)
    requires
        list.len() <= usize::MAX,
    ensures
        found_all(list, search).contains(id) <==> (holds(list, id) && search.fits(at(list, id)->0)),
{
    found_among(list, search, list.len() as int, id);
}

proof fn found_in_order(list: Seq<SlotView>, search: Search, n: int)
    requires
        0 <= n <= list.len(),
        list.len() <= usize::MAX,
    ensures
        forall|i: int, j: int|
            0 <= i < j < found(list, search, n).len() ==> (#[trigger] found(list, search, n)[i]).slot < (
            #[trigger] found(list, search, n)[j]).slot,
    decreases n,
{
    if n > 0 {
        found_in_order(list, search, n - 1);
        found_among(list, search, n - 1, EntityId { slot: 0, serial: 0 });
    }
}

/// The first that a name stands for is the one in the first slot of all that it
/// names, and there is none exactly if it names nobody.
pub proof fn the_first_of_a_name_is_found(cx: ContextView, query: Seq<char>, id: EntityId)
    requires
        cx.entities.len() <= usize::MAX,
        holds(cx.entities, id),
        Search::Named(query).fits(at(cx.entities, id)->0),
    ensures
        cx.named(query) matches Some(first) && first.slot <= id.slot && holds(cx.entities, first)
            && Search::Named(query).fits(at(cx.entities, first)->0),
{
    let search = Search::Named(query);
    let all = found_all(cx.entities, search);
    a_search_finds_what_fits(cx.entities, search, id);
    found_in_order(cx.entities, search, cx.entities.len() as int);
    let k = choose|k: int| 0 <= k < all.len() && all[k] == id;
    assert(all.contains(all[0]));
    a_search_finds_what_fits(cx.entities, search, all[0]);
    if k > 0 {
        assert(all[0].slot < all[k].slot);
    }
}

/// A query that starts with `!` stands for a role of the event, and any other for
/// the first of that name.
pub proof fn a_query_stands_for_a_role_or_a_name(
    cx: ContextView,
    query: Seq<char>,
    me: Option<EntityId>,
    activator: Option<EntityId>,
    caller: Option<EntityId>,
)
    ensures
        query.len() == 0 || query[0] != '!' ==> cx.targeted(query, me, activator, caller) == cx.named(query),
        query == "!player"@ ==> cx.targeted(query, me, activator, caller) == cx.player,
        query == "!activator"@ ==> cx.targeted(query, me, activator, caller) == activator,
        query == "!caller"@ ==> cx.targeted(query, me, activator, caller) == caller,
        query == "!self"@ ==> cx.targeted(query, me, activator, caller) == me,
{
    reveal(same_name);
    reveal_strlit("!player");
    reveal_strlit("!activator");
    reveal_strlit("!caller");
    reveal_strlit("!self");
    crate::laws::marks::marks_ignore_case();
    assert(crate::text::fold("!player"@).len() == 7);
    assert(crate::text::fold("!activator"@).len() == 10);
    assert(crate::text::fold("!caller"@).len() == 7);
    assert(crate::text::fold("!self"@).len() == 5);
    assert(crate::text::fold("!player"@)[1] != crate::text::fold("!caller"@)[1]);
}

// ---------------------------------------------------------------------------
// Connections
// ---------------------------------------------------------------------------

/// One more connection counts on its output and on no other, and makes the
/// longest delay no shorter than its own.
pub proof fn a_connection_counts_on_its_output(connections: Seq<ConnectionView>, output: Seq<char>, n: int)
    requires
        0 < n <= connections.len(),
    ensures
        ({
            let last = connections[n - 1];
            let hangs = same_name(last.output, output);
            let before = longest_delay(connections, output, n - 1);
            let after = longest_delay(connections, output, n);
            &&& connected(connections, output, n) == connected(connections, output, n - 1) + (if hangs {
                1int
            } else {
                0
            })
            &&& !hangs ==> after == before
            &&& hangs && before.less(last.delay) ==> after == last.delay
            &&& hangs && last.delay.at_most(before) ==> after == before
        }),
        connected(connections, output, 0) == 0,
        longest_delay(connections, output, 0) == (Scalar { bits: 0 }),
{
}

// ---------------------------------------------------------------------------
// Sequences and points
// ---------------------------------------------------------------------------

proof fn the_first_label(sequences: Seq<Sequence>, label: Seq<char>, i: int, k: int)
    requires
        0 <= i <= k < sequences.len(),
        same_name(sequences[k].label@, label),
        forall|j: int| i <= j < k ==> !same_name(#[trigger] sequences[j].label@, label),
    ensures
        labelled(sequences, label, i) == Lookup::Found(sequences[k].info),
    decreases k - i,
{
    if i < k {
        assert(!same_name(sequences[i].label@, label));
        the_first_label(sequences, label, i + 1, k);
    }
}

proof fn no_label(sequences: Seq<Sequence>, label: Seq<char>, i: int)
    requires
        0 <= i <= sequences.len(),
        forall|j: int| i <= j < sequences.len() ==> !same_name(#[trigger] sequences[j].label@, label),
    ensures
        labelled(sequences, label, i) == Lookup::Missing,
    decreases sequences.len() - i,
{
    if i < sequences.len() {
        no_label(sequences, label, i + 1);
    }
}

proof fn the_first_model(models: Seq<LoadedModel>, model: Seq<char>, label: Seq<char>, i: int, k: int)
    requires
        0 <= i <= k < models.len(),
        same_name(models[k].model@, model),
        forall|j: int| i <= j < k ==> !same_name(#[trigger] models[j].model@, model),
    ensures
        looked_up(models, model, label, i) == labelled(models[k].sequences@, label, 0),
    decreases k - i,
{
    if i < k {
        assert(!same_name(models[i].model@, model));
        the_first_model(models, model, label, i + 1, k);
    }
}

proof fn no_model(models: Seq<LoadedModel>, model: Seq<char>, label: Seq<char>, i: int)
    requires
        0 <= i <= models.len(),
        forall|j: int| i <= j < models.len() ==> !same_name(#[trigger] models[j].model@, model),
    ensures
        looked_up(models, model, label, i) == Lookup::Unknown,
    decreases models.len() - i,
{
    if i < models.len() {
        no_model(models, model, label, i + 1);
    }
}

/// A sequence is found as the first of its label under the first model of its
/// name; it is missing if that model has none of that label, and unknown if there
/// is no such model.
pub proof fn a_sequence_is_found_by_its_names(
    models: Seq<LoadedModel>,
    model: Seq<char>,
    label: Seq<char>,
    m: int,
    s: int,
)
    ensures
        (forall|j: int| 0 <= j < models.len() ==> !same_name(#[trigger] models[j].model@, model)) ==> looked_up(
            models,
            model,
            label,
            0,
        ) == Lookup::Unknown,
        0 <= m < models.len() && same_name(models[m].model@, model) && (forall|j: int|
            0 <= j < m ==> !same_name(#[trigger] models[j].model@, model)) ==> {
            let sequences = models[m].sequences@;
            &&& (forall|j: int| 0 <= j < sequences.len() ==> !same_name(#[trigger] sequences[j].label@, label))
                ==> looked_up(models, model, label, 0) == Lookup::Missing
            &&& 0 <= s < sequences.len() && same_name(sequences[s].label@, label) && (forall|j: int|
                0 <= j < s ==> !same_name(#[trigger] sequences[j].label@, label)) ==> looked_up(models, model, label, 0)
                == Lookup::Found(sequences[s].info)
        },
{
    if forall|j: int| 0 <= j < models.len() ==> !same_name(#[trigger] models[j].model@, model) {
        no_model(models, model, label, 0);
    }
    if 0 <= m < models.len() && same_name(models[m].model@, model) && (forall|j: int|
        0 <= j < m ==> !same_name(#[trigger] models[j].model@, model)) {
        the_first_model(models, model, label, 0, m);
        let sequences = models[m].sequences@;
        if forall|j: int| 0 <= j < sequences.len() ==> !same_name(#[trigger] sequences[j].label@, label) {
            no_label(sequences, label, 0);
        }
        if 0 <= s < sequences.len() && same_name(sequences[s].label@, label) && (forall|j: int|
            0 <= j < s ==> !same_name(#[trigger] sequences[j].label@, label)) {
            the_first_label(sequences, label, 0, s);
        }
    }
}

proof fn an_entry_from(entries: Seq<AttachmentEntry>, model: Seq<char>, name: Seq<char>, i: int)
    requires
        0 <= i <= entries.len(),
    ensures
        match attached(entries, model, name, i) {
            Some(point) => exists|k: int|
                i <= k < entries.len() && #[trigger] entries[k].index == point && same_name(entries[k].model@, model)
                    && same_name(entries[k].name@, name),
            None => forall|k: int|
                i <= k < entries.len() ==> !(same_name(#[trigger] entries[k].model@, model) && same_name(
                    entries[k].name@,
                    name,
                )),
        },
    decreases entries.len() - i,
{
    if i < entries.len() {
        if same_name(entries[i].model@, model) && same_name(entries[i].name@, name) {
            assert(entries[i].index == attached(entries, model, name, i)->0);
        } else {
            an_entry_from(entries, model, name, i + 1);
        }
    }
}

/// A point is that of an entry for its name on its model, and there is none
/// exactly if there is no such entry.
pub proof fn a_point_is_found_by_its_names(entries: Seq<AttachmentEntry>, model: Seq<char>, name: Seq<char>)
    ensures
        match attached(entries, model, name, 0) {
            Some(point) => exists|k: int|
                0 <= k < entries.len() && #[trigger] entries[k].index == point && same_name(entries[k].model@, model)
                    && same_name(entries[k].name@, name),
            None => forall|k: int|
                0 <= k < entries.len() ==> !(same_name(#[trigger] entries[k].model@, model) && same_name(
                    entries[k].name@,
                    name,
                )),
        },
{
    an_entry_from(entries, model, name, 0);
}

// ---------------------------------------------------------------------------
// Values and numbers
// ---------------------------------------------------------------------------

/// A value is worth what it carries of the kind asked for, and nothing of any
/// other kind.
pub proof fn a_value_is_worth_what_it_carries(b: bool, i: i32, x: Scalar, v: Vector)
    ensures
        Variant::Bool(b).truth() == b,
        Variant::Int(i).count() == i,
        Variant::Float(x).number() == x,
        Variant::Vector(v).arrow() == v,
        !Variant::Int(i).truth() && !Variant::Void.truth(),
        Variant::Bool(b).count() == 0 && Variant::Float(x).count() == 0 && Variant::Void.count() == 0,
        Variant::Int(i).number() == (Scalar { bits: 0 }) && Variant::Void.number() == (Scalar { bits: 0 }),
        Variant::Void.arrow().x == (Scalar { bits: 0 }) && Variant::Void.arrow().y == (Scalar { bits: 0 })
            && Variant::Void.arrow().z == (Scalar { bits: 0 }),
{
}

/// Numbers are ordered as their patterns are: those without the sign bit upwards,
/// those with it downwards and below the others. Both zeros are the same, and
/// what is no number is neither below, above nor the same as anything.
pub proof fn numbers_are_ordered(a: Scalar, b: Scalar)
    ensures
        a.bits < 0x7f80_0001 && b.bits < 0x7f80_0001 ==> a.less(b) == (a.bits < b.bits),
        0x8000_0000 < a.bits < 0xff80_0001 && b.bits < 0x7f80_0001 ==> a.less(b) && !b.less(a),
        0x8000_0000 <= a.bits < 0xff80_0001 && 0x8000_0000 <= b.bits < 0xff80_0001 ==> a.less(b) == (a.bits > b.bits),
        (Scalar { bits: 0 }).same(Scalar { bits: 0x8000_0000 }),
        0x7f80_0000 < a.bits < 0x8000_0000 || 0xff80_0000 < a.bits ==> !a.numeric() && !a.less(b) && !b.less(a)
            && !a.same(b) && !a.at_most(b) && !b.at_most(a),
        a.numeric() && b.numeric() ==> a.less(b) == !b.at_most(a),
        a.at_most(b) == (a.less(b) || a.same(b)),
        a.numeric() ==> a.same(a) && a.negated().negated() == a,
        a.less(b) ==> b.negated().less(a.negated()),
        a.numeric() ==> (Scalar { bits: 0 }).at_most(a.absolute()) && (a.absolute() == a || a.absolute()
            == a.negated()),
{
}

/// The number that a text of digits alone stands for, each digit worth ten times
/// the next.
pub open spec fn decimal(s: Seq<char>) -> int
    decreases s.len(),
{
    if s.len() == 0 { 0 } else { decimal(s.drop_last()) * 10 + (s.last() as int - 48) }
}

/// Whether a text is of digits alone.
pub open spec fn all_digits(s: Seq<char>) -> bool {
    forall|k: int| 0 <= k < s.len() ==> 48 <= #[trigger] s[k] as int <= 57
}

proof fn digits_are_decimal(s: Seq<char>, i: int)
    requires
        all_digits(s),
        0 <= i <= s.len(),
    ensures
        digits(s, i, decimal(s.take(i))) == decimal(s),
    decreases s.len() - i,
{
    if i < s.len() {
        digits_are_decimal(s, i + 1);
        let next = s.take(i + 1);
        assert(next.drop_last() =~= s.take(i));
        assert(next.last() == s[i]);
    } else {
        assert(s.take(i) =~= s);
    }
}

/// A text of digits alone reads as the number that they stand for, or as the
/// largest that there is if that is larger.
pub proof fn digits_read_as_their_number(s: Seq<char>)
    requires
        all_digits(s),
        s.len() > 0,
    ensures
        integer_of(s) == (if decimal(s) > 0x7fff_ffff { 0x7fff_ffffint } else { decimal(s) }),
{
    assert(s.take(0) =~= Seq::<char>::empty());
    digits_are_decimal(s, 0);
    assert(48 <= s[0] as int <= 57);
    decimal_is_no_debt(s);
}

proof fn decimal_is_no_debt(s: Seq<char>)
    requires
        all_digits(s),
    ensures
        decimal(s) >= 0,
    decreases s.len(),
{
    if s.len() > 0 {
        decimal_is_no_debt(s.drop_last());
        assert(48 <= s[s.len() - 1] as int <= 57);
    }
}

} // verus!
