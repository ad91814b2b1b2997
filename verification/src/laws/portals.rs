//! Laws of how portals are linked.
use vstd::prelude::*;

use crate::classes::portal::{
    edited, first_suiting, group_members, grouped, partner_of, place_at, portal_at, route, routed, suits, PortalEdit,
    PropPortal, Transit,
};
use crate::context::{ContextView, Placement};
use crate::entity::EntityId;
use crate::list::{found, found_all, Search, SlotView};
use crate::scalar::Scalar;
use crate::step::Step;

verus! {

// ---------------------------------------------------------------------------
// What a change to a portal leaves alone
// ---------------------------------------------------------------------------

/// A change to a portal changes that portal, and no other entity. Nobody moves.
proof fn an_edit_is_local(cx: ContextView, id: EntityId, edit: PortalEdit, other: EntityId)
    ensures
        portal_at(edited(cx, id, edit), id) == (match portal_at(cx, id) {
            Some(p) => Some(edit.of(p)),
            None => None,
        }),
        edited(cx, id, edit).holds(other) == cx.holds(other),
        other != id ==> edited(cx, id, edit).at(other) == cx.at(other),
        place_at(edited(cx, id, edit), other) == place_at(cx, other),
{
}

proof fn an_edit_keeps_the_searches(cx: ContextView, id: EntityId, edit: PortalEdit, search: Search, n: int)
    requires
        n <= cx.entities.len(),
    ensures
        found(edited(cx, id, edit).entities, search, n) == found(cx.entities, search, n),
        edited(cx, id, edit).entities.len() == cx.entities.len(),
    decreases n,
{
    if n > 0 {
        an_edit_keeps_the_searches(cx, id, edit, search, n - 1);
        if cx.holds(id) && id.slot == n - 1 {
            let was: SlotView = cx.entities[n - 1];
            let is: SlotView = edited(cx, id, edit).entities[n - 1];
            assert(is.serial == was.serial);
            assert(is.entity->0.core == was.entity->0.core);
        }
    }
}

proof fn an_edit_keeps_who_is_of_a_group(
    cx: ContextView,
    id: EntityId,
    edit: PortalEdit,
    ids: Seq<EntityId>,
    group: u8,
    n: int,
)
    ensures
        grouped(edited(cx, id, edit), ids, group, n) == grouped(cx, ids, group, n),
    decreases n,
{
    if n > 0 {
        an_edit_keeps_who_is_of_a_group(cx, id, edit, ids, group, n - 1);
        an_edit_is_local(cx, id, edit, ids[n - 1]);
    }
}

/// A change to a portal leaves the groups as they are.
proof fn an_edit_keeps_the_groups(cx: ContextView, id: EntityId, edit: PortalEdit, group: u8)
    ensures
        group_members(edited(cx, id, edit), group) == group_members(cx, group),
{
    let search = Search::OfClass("prop_portal"@);
    an_edit_keeps_the_searches(cx, id, edit, search, cx.entities.len() as int);
    let ids = found_all(cx.entities, search);
    an_edit_keeps_who_is_of_a_group(cx, id, edit, ids, group, ids.len() as int);
}

// ---------------------------------------------------------------------------
// Partners
// ---------------------------------------------------------------------------

/// Whoever is found as a partner would do as one, and is among those looked
/// through.
proof fn a_found_partner_suits(
    cx: ContextView,
    ids: Seq<EntityId>,
    me: EntityId,
    half_width: Scalar,
    half_height: Scalar,
    i: int,
)
    requires
        0 <= i,
    ensures
        first_suiting(cx, ids, me, half_width, half_height, i) matches Some(id) ==> suits(
            cx,
            id,
            me,
            half_width,
            half_height,
        ) && ids.contains(id),
    decreases ids.len() - i,
{
    if i < ids.len() {
        if suits(cx, ids[i], me, half_width, half_height) {
            assert(ids.contains(ids[i]));
        } else {
            a_found_partner_suits(cx, ids, me, half_width, half_height, i + 1);
        }
    }
}

/// A partner that is found is active, unlinked until now, of the same size, of
/// the group, and not oneself.
pub proof fn partners_are_free_and_of_one_size(
    cx: ContextView,
    me: EntityId,
    group: u8,
    half_width: Scalar,
    half_height: Scalar,
)
    ensures
        partner_of(cx, me, group, half_width, half_height) matches Some(id) ==> ({
            &&& id != me
            &&& portal_at(cx, id) matches Some(p) && p.activated && p.linked is None && p.half_width.same(half_width)
                && p.half_height.same(half_height)
            &&& group_members(cx, group).contains(id)
        }),
{
    a_found_partner_suits(cx, group_members(cx, group), me, half_width, half_height, 0);
}

// ---------------------------------------------------------------------------
// The link itself
// ---------------------------------------------------------------------------

/// An active portal that has seen to its link is active still, and so is its
/// partner; the link holds both ways and the two are of different colours. One
/// that had to look for a partner keeps its colour, and found it in its group.
proof fn linking_up(state: Step<PropPortal>)
    ensures
        ({
            let after = state.linked_up();
            let group = state.me.linkage_group;
            &&& after.core == state.core
            &&& after.me.activated == state.me.activated
            &&& after.me.linkage_group == group
            &&& group_members(after.cx, group) == group_members(state.cx, group)
            &&& after.me.linked matches Some(partner) ==> (portal_at(after.cx, partner) matches Some(p) && p.activated
                && p.linked == Some(state.core.id) && p.is_portal2 != after.me.is_portal2)
            &&& !state.has_live_partner() ==> after.me.is_portal2 == state.me.is_portal2
            &&& !state.has_live_partner() ==> (after.me.linked matches Some(partner) ==> group_members(
                state.cx,
                group,
            ).contains(partner))
        }),
{
    let id = state.core.id;
    let group = state.me.linkage_group;
    let sought = if state.has_live_partner() { state } else { state.sought() };
    if !state.has_live_partner() {
        let parted = match state.me.linked {
            Some(last) => edited(state.cx, last, PortalEdit::UnlinkFrom(id)),
            None => state.cx,
        };
        if let Some(last) = state.me.linked {
            an_edit_keeps_the_groups(state.cx, last, PortalEdit::UnlinkFrom(id), group);
        }
        partners_are_free_and_of_one_size(parted, id, group, state.me.half_width, state.me.half_height);
        if let Some(partner) = sought.me.linked {
            let edit = PortalEdit::LinkAs(id, !state.me.is_portal2);
            an_edit_is_local(parted, partner, edit, partner);
            an_edit_keeps_the_groups(parted, partner, edit, group);
        }
    }
    if let Some(partner) = sought.me.linked {
        an_edit_is_local(sought.cx, partner, PortalEdit::Link(id), partner);
        an_edit_keeps_the_groups(sought.cx, partner, PortalEdit::Link(id), group);
    }
}

/// A portal that lets its partner go has none, and nobody whom it was linked to
/// has it as one.
proof fn letting_go(state: Step<PropPortal>)
    ensures
        state.let_go().core == state.core,
        state.let_go().me == (PropPortal { linked: None, ..state.me }),
        !state.cx.holds(state.core.id) ==> (state.me.linked matches Some(remote) ==> (portal_at(
            state.let_go().cx,
            remote,
        ) matches Some(p) ==> p.linked != Some(state.core.id))),
{
    if let Some(remote) = state.me.linked {
        let freed = edited(state.cx, remote, PortalEdit::Unlink);
        an_edit_is_local(state.cx, remote, PortalEdit::Unlink, state.core.id);
        if let Some(p) = portal_at(state.cx, remote) {
            partners_are_free_and_of_one_size(freed, remote, p.linkage_group, p.half_width, p.half_height);
            if let Some(third) = partner_of(freed, remote, p.linkage_group, p.half_width, p.half_height) {
                an_edit_is_local(freed, third, PortalEdit::Link(remote), remote);
                let found = edited(freed, third, PortalEdit::Link(remote));
                if let Some(t) = portal_at(freed, third) {
                    an_edit_is_local(found, remote, PortalEdit::LinkAs(third, !t.is_portal2), remote);
                }
            }
        }
    }
}

// ---------------------------------------------------------------------------
// The ways that follow from the links
// ---------------------------------------------------------------------------

/// Finding the ways anew changes nothing but the ways.
proof fn routing_keeps_the_links(
    cx: ContextView,
    ids: Seq<EntityId>,
    out: EntityId,
    out_place: Placement,
    n: int,
    id: EntityId,
)
    ensures
        place_at(routed(cx, ids, out, out_place, n), id) == place_at(cx, id),
        match portal_at(cx, id) {
            Some(p) => portal_at(routed(cx, ids, out, out_place, n), id) matches Some(q) && q == (PropPortal {
                matrix: q.matrix,
                ..p
            }),
            None => portal_at(routed(cx, ids, out, out_place, n), id) is None,
        },
    decreases n,
{
    if n > 0 {
        routing_keeps_the_links(cx, ids, out, out_place, n - 1, id);
        let before = routed(cx, ids, out, out_place, n - 1);
        an_edit_is_local(before, ids[n - 1], PortalEdit::Route(route(before, ids[n - 1], out, out_place)), id);
    }
}

proof fn routing_finds_the_ways(
    cx: ContextView,
    ids: Seq<EntityId>,
    out: EntityId,
    out_place: Placement,
    n: int,
    k: int,
)
    requires
        0 <= k < n,
    ensures
        portal_at(routed(cx, ids, out, out_place, n), ids[k]) matches Some(q) ==> q.matrix == route(
            cx,
            ids[k],
            out,
            out_place,
        ),
    decreases n,
{
    let id = ids[k];
    let before = routed(cx, ids, out, out_place, n - 1);
    routing_keeps_the_links(cx, ids, out, out_place, n - 1, id);
    if let Some(p) = portal_at(cx, id) {
        if let Some(partner) = p.linked {
            routing_keeps_the_links(cx, ids, out, out_place, n - 1, partner);
        }
    }
    an_edit_is_local(before, ids[n - 1], PortalEdit::Route(route(before, ids[n - 1], out, out_place)), id);
    if id != ids[n - 1] {
        routing_finds_the_ways(cx, ids, out, out_place, n - 1, k);
    }
}

/// Once a portal has put the ways right, every portal of its group leads to
/// whomever it is linked to, and nowhere if it is linked to nobody.
pub proof fn the_ways_of_a_group_follow_its_links(state: Step<PropPortal>, id: EntityId)
    requires
        group_members(state.cx, state.me.linkage_group).contains(id),
    ensures
        portal_at(state.remapped().cx, id) matches Some(p) ==> p.matrix == route(
            state.cx,
            id,
            state.core.id,
            state.place(),
        ),
{
    let ids = group_members(state.cx, state.me.linkage_group);
    let k = choose|k: int| 0 <= k < ids.len() && ids[k] == id;
    routing_finds_the_ways(state.cx, ids, state.core.id, state.place(), ids.len() as int, k);
}

/// What holds of a portal that has put its links right. It is as active as it
/// was. Off, it is unlinked. Unlinked, it leads nowhere. Linked, its partner is
/// active, is linked back and is of the other colour, and it leads from where it
/// is to where its partner is. A partner of its group leads back. One that had
/// to look for a partner keeps its colour, and its partner is of its group.
pub proof fn a_relinked_portal_is_sound(state: Step<PropPortal>)
    ensures
        ({
            let after = state.relinked();
            let group = group_members(state.cx, state.me.linkage_group);
            &&& after.core == state.core
            &&& after.me.activated == state.me.activated
            &&& !after.me.activated ==> after.me.linked is None
            &&& after.me.linked is None ==> after.me.matrix == Transit::Identity
            &&& after.me.linked matches Some(partner) ==> (portal_at(after.cx, partner) matches Some(p) && (place_at(
                after.cx,
                partner,
            ) matches Some(there) && ({
                &&& p.activated
                &&& p.linked == Some(state.core.id)
                &&& p.is_portal2 == !after.me.is_portal2
                &&& after.me.matrix == (Transit::Between { entrance: state.place(), exit: there })
                &&& group.contains(partner) ==> p.matrix == (Transit::Between { entrance: there, exit: state.place() })
                &&& !state.has_live_partner() ==> group.contains(partner)
            })))
            &&& !state.has_live_partner() ==> after.me.is_portal2 == state.me.is_portal2
        }),
{
    reveal(Step::<_>::relinked);
    let seen_to = if state.me.activated { state.linked_up() } else { state.let_go() };
    linking_up(state);
    letting_go(state);
    if let Some(partner) = seen_to.me.linked {
        let ids = group_members(seen_to.cx, seen_to.me.linkage_group);
        routing_keeps_the_links(seen_to.cx, ids, seen_to.core.id, seen_to.place(), ids.len() as int, partner);
        if ids.contains(partner) {
            the_ways_of_a_group_follow_its_links(seen_to, partner);
        }
    }
}

/// Nobody whom a portal was linked to has it as a partner once it is off.
pub proof fn a_portal_that_is_off_is_let_go(state: Step<PropPortal>)
    requires
        !state.cx.holds(state.core.id),
        !state.me.activated,
    ensures
        state.me.linked matches Some(remote) ==> (portal_at(state.relinked().cx, remote) matches Some(p) ==> p.linked
            != Some(state.core.id)),
{
    reveal(Step::<_>::relinked);
    letting_go(state);
    if let Some(remote) = state.me.linked {
        let gone = state.let_go();
        let ids = group_members(gone.cx, gone.me.linkage_group);
        routing_keeps_the_links(gone.cx, ids, gone.core.id, gone.place(), ids.len() as int, remote);
    }
}

} // verus!
