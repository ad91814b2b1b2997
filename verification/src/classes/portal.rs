//! Portals: which two are linked, and what takes a point from one to the
//! other.
use vstd::prelude::*;

use crate::behaviour::{prop_view, Behaviour, BehaviourView, Prop, PropView};
use crate::class::SpawnResult;
use crate::context::{Context, ContextView, Placement};
use crate::entity::{
    Body, CoreView, EntityCore, EntityId, ModelBounds, MoveType, Place, Solid, FSOLID_NOT_SOLID, FSOLID_TRIGGER,
};
use crate::io::{Input, Value};
use crate::list::{at, found_all, holds, Search};
use crate::scalar::{num, Scalar, Vector, FIFTY_SIX, SIXTY_FOUR, THIRTY_TWO, ZERO};
use crate::step::{answered, step, Step};
use crate::text::{atoi, integer_of, same_name};

verus! {

/// The group of a portal that is in no group.
pub const LINKAGE_GROUP_INVALID: u8 = 255;

/// Half the width of a portal that the map gives none, as a bit pattern.
pub const DEFAULT_HALF_WIDTH: u32 = THIRTY_TWO;

/// Half the height of a portal that the map gives none, as a bit pattern.
pub const DEFAULT_HALF_HEIGHT: u32 = FIFTY_SIX;

/// How far in front of its plane a portal's box reaches, as a bit pattern.
pub const OBB_DEPTH: u32 = SIXTY_FOUR;

/// What takes a point at a portal to where it comes out.
#[derive(Debug, Clone, Copy, PartialEq, Eq, Structural)]
pub enum Transit {
    /// Nowhere: every point stays.
    Identity,
    /// Into the frame of the entrance, half a turn about up, and out of the
    /// frame of the exit.
    Between { entrance: Placement, exit: Placement },
}

/// One of a pair of portals.
#[derive(Debug, Clone, Copy, PartialEq, Eq, Structural)]
pub struct PropPortal {
    pub activated: bool,
    /// Whether it was active before the last time that was set.
    pub old_activated: bool,
    /// Its colour. It says nothing of whom it is linked to.
    pub is_portal2: bool,
    /// The group in which it finds a partner.
    pub linkage_group: u8,
    pub half_width: Scalar,
    pub half_height: Scalar,
    pub linked: Option<EntityId>,
    pub matrix: Transit,
    /// When it last opened or moved.
    pub opened_at: Scalar,
}

/// A change to another portal.
#[derive(Debug, Clone, Copy, PartialEq, Eq, Structural)]
pub enum PortalEdit {
    Unlink,
    /// Unlinked, if this is whom it was linked to.
    UnlinkFrom(EntityId),
    Link(EntityId),
    /// Linked, and of a colour.
    LinkAs(EntityId, bool),
    Route(Transit),
}

impl PortalEdit {
    pub open spec fn of(self, portal: PropPortal) -> PropPortal {
        match self {
            PortalEdit::Unlink => PropPortal { linked: None, ..portal },
            PortalEdit::UnlinkFrom(id) => if portal.linked == Some(id) {
                PropPortal { linked: None, ..portal }
            } else {
                portal
            },
            PortalEdit::Link(id) => PropPortal { linked: Some(id), ..portal },
            PortalEdit::LinkAs(id, colour) => PropPortal { linked: Some(id), is_portal2: colour, ..portal },
            PortalEdit::Route(matrix) => PropPortal { matrix, ..portal },
        }
    }

    fn apply(self, portal: &mut PropPortal)
        ensures
            *final(portal) == self.of(*old(portal)),
    {
        match self {
            PortalEdit::Unlink => {
                portal.linked = None;
            }
            PortalEdit::UnlinkFrom(id) => {
                let linked_here = match portal.linked {
                    Some(other) => other == id,
                    None => false,
                };
                if linked_here {
                    portal.linked = None;
                }
            }
            PortalEdit::Link(id) => {
                portal.linked = Some(id);
            }
            PortalEdit::LinkAs(id, colour) => {
                portal.linked = Some(id);
                portal.is_portal2 = colour;
            }
            PortalEdit::Route(matrix) => {
                portal.matrix = matrix;
            }
        }
    }
}

/// The portal that a handle resolves to.
pub open spec fn portal_at(cx: ContextView, id: EntityId) -> Option<PropPortal> {
    match cx.at(id) {
        Some(e) => match e.behaviour {
            BehaviourView::Prop(PropView::PropPortal(p)) => Some(p),
            _ => None,
        },
        None => None,
    }
}

/// Where the entity is that a handle resolves to.
pub open spec fn place_at(cx: ContextView, id: EntityId) -> Option<Placement> {
    match cx.at(id) {
        Some(e) => Some(Placement { origin: e.core.place.origin, angles: e.core.place.angles }),
        None => None,
    }
}

/// The server after a change to another portal. It hears of the change even
/// where the handle resolves to something else.
pub open spec fn edited(cx: ContextView, id: EntityId, edit: PortalEdit) -> ContextView {
    match cx.at(id) {
        Some(e) => cx.noting(id).with_behaviour(
            id,
            match e.behaviour {
                BehaviourView::Prop(PropView::PropPortal(p)) => BehaviourView::Prop(PropView::PropPortal(edit.of(p))),
                other => other,
            },
        ),
        None => cx,
    }
}

/// Those of the first `n` entities that are portals of a group.
pub open spec fn grouped(cx: ContextView, ids: Seq<EntityId>, group: u8, n: int) -> Seq<EntityId>
    decreases n,
{
    if n <= 0 {
        Seq::empty()
    } else {
        let before = grouped(cx, ids, group, n - 1);
        if portal_at(cx, ids[n - 1]) matches Some(p) && p.linkage_group == group {
            before.push(ids[n - 1])
        } else {
            before
        }
    }
}

/// The portals of a group, in spawn order.
pub open spec fn group_members(cx: ContextView, group: u8) -> Seq<EntityId> {
    if group == LINKAGE_GROUP_INVALID {
        Seq::empty()
    } else {
        let ids = found_all(cx.entities, Search::OfClass("prop_portal"@));
        grouped(cx, ids, group, ids.len() as int)
    }
}

/// Whether one portal would do as the partner of another: active, unlinked and
/// of exactly that size.
pub open spec fn suits(cx: ContextView, id: EntityId, me: EntityId, half_width: Scalar, half_height: Scalar) -> bool {
    id != me && (portal_at(cx, id) matches Some(p) && p.activated && p.linked is None && p.half_width.same(half_width)
        && p.half_height.same(half_height))
}

/// The first of some portals, from place `i` on, that would do.
pub open spec fn first_suiting(
    cx: ContextView,
    ids: Seq<EntityId>,
    me: EntityId,
    half_width: Scalar,
    half_height: Scalar,
    i: int,
) -> Option<EntityId>
    decreases ids.len() - i,
{
    if 0 <= i < ids.len() {
        if suits(cx, ids[i], me, half_width, half_height) {
            Some(ids[i])
        } else {
            first_suiting(cx, ids, me, half_width, half_height, i + 1)
        }
    } else {
        None
    }
}

/// The partner that a portal finds in a group.
pub open spec fn partner_of(
    cx: ContextView,
    me: EntityId,
    group: u8,
    half_width: Scalar,
    half_height: Scalar,
) -> Option<EntityId> {
    first_suiting(cx, group_members(cx, group), me, half_width, half_height, 0)
}

/// The way from a portal to its partner, who may be out of the list.
pub open spec fn route(cx: ContextView, id: EntityId, out: EntityId, out_place: Placement) -> Transit {
    match place_at(cx, id) {
        Some(entrance) => match portal_at(cx, id) {
            Some(p) => match p.linked {
                Some(partner) => if partner == out {
                    Transit::Between { entrance, exit: out_place }
                } else {
                    match place_at(cx, partner) {
                        Some(exit) => Transit::Between { entrance, exit },
                        None => Transit::Identity,
                    }
                },
                None => Transit::Identity,
            },
            None => Transit::Identity,
        },
        None => Transit::Identity,
    }
}

/// The server once the ways of the first `n` portals have been found anew.
pub open spec fn routed(cx: ContextView, ids: Seq<EntityId>, out: EntityId, out_place: Placement, n: int) -> ContextView
    decreases n,
{
    if n <= 0 {
        cx
    } else {
        let before = routed(cx, ids, out, out_place, n - 1);
        edited(before, ids[n - 1], PortalEdit::Route(route(before, ids[n - 1], out, out_place)))
    }
}

/// A portal's entity, as large as the portal and of its model.
pub open spec fn portal_sized(core: CoreView, portal: PropPortal) -> CoreView {
    CoreView {
        model: Some(if portal.is_portal2 { "models/portals/portal2.mdl"@ } else { "models/portals/portal1.mdl"@ }),
        body: Body {
            bounds: ModelBounds {
                mins: Vector {
                    x: num(ZERO),
                    y: portal.half_width.negated(),
                    z: portal.half_height.negated(),
                },
                maxs: Vector { x: num(OBB_DEPTH), y: portal.half_width, z: portal.half_height },
            },
            ..core.body
        },
        ..core
    }
}

impl PropPortal {
    pub open spec fn fresh() -> PropPortal {
        PropPortal {
            activated: false,
            old_activated: false,
            is_portal2: false,
            linkage_group: 0,
            half_width: num(DEFAULT_HALF_WIDTH),
            half_height: num(DEFAULT_HALF_HEIGHT),
            linked: None,
            matrix: Transit::Identity,
            opened_at: num(ZERO),
        }
    }

    #[verifier::opaque]
    pub open spec fn keyed(self, key: Seq<char>, value: Value) -> Option<PropPortal> {
        let number = integer_of(value.text@);
        if same_name(key, "LinkageGroupID"@) {
            Some(PropPortal { linkage_group: (number % 256) as u8, ..self })
        } else if same_name(key, "Activated"@) {
            Some(PropPortal { activated: number != 0, ..self })
        } else if same_name(key, "OldActivated"@) {
            Some(PropPortal { old_activated: number != 0, ..self })
        } else if same_name(key, "PortalTwo"@) {
            Some(PropPortal { is_portal2: number != 0, ..self })
        } else if same_name(key, "HalfWidth"@) {
            Some(PropPortal { half_width: value.number, ..self })
        } else if same_name(key, "HalfHeight"@) {
            Some(PropPortal { half_height: value.number, ..self })
        } else {
            None
        }
    }

    pub open spec fn set(self, active: bool) -> PropPortal {
        PropPortal { old_activated: self.activated, activated: active, ..self }
    }
}

impl Step<PropPortal> {
    /// Whether it is linked to a portal that is active.
    pub open spec fn has_live_partner(self) -> bool {
        self.me.linked matches Some(id) && (portal_at(self.cx, id) matches Some(p) && p.activated)
    }

    /// A partner looked for, the last one given up. The portal that looks keeps
    /// its colour, and the one that is found takes the other.
    pub open spec fn sought(self) -> Step<PropPortal> {
        let id = self.core.id;
        let parted = match self.me.linked {
            Some(last) => edited(self.cx, last, PortalEdit::UnlinkFrom(id)),
            None => self.cx,
        };
        let linked = partner_of(parted, id, self.me.linkage_group, self.me.half_width, self.me.half_height);
        self.with(PropPortal { linked, ..self.me }).with_cx(
            match linked {
                Some(partner) => edited(parted, partner, PortalEdit::LinkAs(id, !self.me.is_portal2)),
                None => parted,
            },
        )
    }

    /// The link made to hold both ways, and the colour the other of the
    /// partner's.
    pub open spec fn bound(self) -> Step<PropPortal> {
        match self.me.linked {
            Some(partner) => {
                let is_portal2 = match portal_at(self.cx, partner) {
                    Some(p) => !p.is_portal2,
                    None => self.me.is_portal2,
                };
                self.with(PropPortal { is_portal2, ..self.me }).with_cx(
                    edited(self.cx, partner, PortalEdit::Link(self.core.id)),
                )
            },
            None => self,
        }
    }

    /// The partner let go. If it is active it finds another.
    pub open spec fn let_go(self) -> Step<PropPortal> {
        match self.me.linked {
            Some(remote) => {
                let freed = edited(self.cx, remote, PortalEdit::Unlink);
                let cx = match portal_at(self.cx, remote) {
                    Some(p) => if p.activated {
                        match partner_of(freed, remote, p.linkage_group, p.half_width, p.half_height) {
                            Some(third) => {
                                let found = edited(freed, third, PortalEdit::Link(remote));
                                match portal_at(freed, third) {
                                    Some(t) => edited(found, remote, PortalEdit::LinkAs(third, !t.is_portal2)),
                                    None => edited(found, remote, PortalEdit::Link(third)),
                                }
                            },
                            None => freed,
                        }
                    } else {
                        freed
                    },
                    None => freed,
                };
                self.with(PropPortal { linked: None, ..self.me }).with_cx(cx)
            },
            None => self,
        }
    }

    pub open spec fn place(self) -> Placement {
        Placement { origin: self.core.place.origin, angles: self.core.place.angles }
    }

    /// The ways of this portal and of its group found anew.
    pub open spec fn remapped(self) -> Step<PropPortal> {
        let matrix = match self.me.linked {
            Some(partner) => match place_at(self.cx, partner) {
                Some(exit) => Transit::Between { entrance: self.place(), exit },
                None => Transit::Identity,
            },
            None => Transit::Identity,
        };
        let ids = group_members(self.cx, self.me.linkage_group);
        self.with(PropPortal { matrix, ..self.me }).with_cx(
            routed(self.cx, ids, self.core.id, self.place(), ids.len() as int),
        )
    }

    /// An active portal's link: the one that there is, or one that it finds.
    pub open spec fn linked_up(self) -> Step<PropPortal> {
        (if self.has_live_partner() { self } else { self.sought() }).bound()
    }

    /// The links as they are to be, and the ways that follow from them.
    #[verifier::opaque]
    pub open spec fn relinked(self) -> Step<PropPortal> {
        (if self.me.activated { self.linked_up() } else { self.let_go() }).remapped()
    }

    /// Moved somewhere, which also turns it on.
    pub open spec fn moved(self, to: Placement) -> Step<PropPortal> {
        let place = Place { origin: to.origin, angles: to.angles, ..self.core.place };
        self.with(PropPortal { opened_at: self.cx.time.curtime, ..self.me.set(true) }).with_core(
            self.core.with_place(place),
        ).relinked()
    }

    /// Made another size. A partner of any other size is let go.
    pub open spec fn resized(self, half_width: Scalar, half_height: Scalar) -> Step<PropPortal> {
        if half_width.same(self.me.half_width) && half_height.same(self.me.half_height) {
            self
        } else {
            let me = PropPortal { half_width, half_height, ..self.me };
            let sized = self.with(me).with_core(portal_sized(self.core, me));
            let parted = match self.me.linked {
                Some(partner) => if portal_at(self.cx, partner) matches Some(p) && (!p.half_width.same(half_width)
                    || !p.half_height.same(half_height)) {
                    sized.with(PropPortal { linked: None, ..me }).with_cx(
                        edited(self.cx, partner, PortalEdit::Unlink),
                    )
                } else {
                    sized
                },
                None => sized,
            };
            parted.relinked()
        }
    }

    pub open spec fn regrouped(self, group: i32) -> Step<PropPortal> {
        if !(0 <= group < 255) {
            self
        } else if !self.me.activated {
            self.with(PropPortal { linkage_group: group as u8, ..self.me })
        } else {
            let left = self.with(self.me.set(false)).relinked();
            left.with(PropPortal { linkage_group: group as u8, ..left.me }.set(true)).relinked()
        }
    }

    pub open spec fn spawned(self) -> Step<PropPortal> {
        let flat = self.me.half_width.at_most(num(ZERO)) || self.me.half_height.at_most(num(ZERO));
        let me = PropPortal {
            half_width: if flat { num(DEFAULT_HALF_WIDTH) } else { self.me.half_width },
            half_height: if flat { num(DEFAULT_HALF_HEIGHT) } else { self.me.half_height },
            matrix: Transit::Identity,
            ..self.me
        };
        let sized = portal_sized(self.core, me);
        self.with(me).with_core(
            sized.with_body(
                Body {
                    solid: Solid::Obb,
                    solid_flags: FSOLID_NOT_SOLID | FSOLID_TRIGGER,
                    move_type: MoveType::Still,
                    ..sized.body
                },
            ),
        )
    }

    #[verifier::opaque]
    pub open spec fn prop_portal_input(self, input: Input, numbers: PortalNumbers) -> Option<Step<PropPortal>> {
        let name = input.name@;
        if same_name(name, "SetActivatedState"@) {
            let active = input.value.truth();
            let set = self.me.set(active);
            let opened_at = if active && !self.me.activated { self.cx.time.curtime } else { self.me.opened_at };
            Some(self.with(PropPortal { opened_at, ..set }).relinked())
        } else if same_name(name, "Fizzle"@) {
            Some(self.with(self.me.set(false)).relinked())
        } else if same_name(name, "NewLocation"@) {
            Some(self.moved(numbers.place))
        } else if same_name(name, "Resize"@) {
            Some(self.resized(numbers.place.origin.x, numbers.place.origin.y))
        } else if same_name(name, "SetLinkageGroupId"@) {
            Some(self.regrouped(input.value.count()))
        } else {
            None
        }
    }
}

/// The numbers in an input's text: three for a place, and three for angles.
/// Missing ones are zero.
#[derive(Debug, Clone, Copy)]
pub struct PortalNumbers {
    pub place: Placement,
}

impl PropPortal {
    pub fn create() -> (r: PropPortal)
        ensures
            r == PropPortal::fresh(),
    {
        PropPortal {
            activated: false,
            old_activated: false,
            is_portal2: false,
            linkage_group: 0,
            half_width: num(DEFAULT_HALF_WIDTH),
            half_height: num(DEFAULT_HALF_HEIGHT),
            linked: None,
            matrix: Transit::Identity,
            opened_at: num(ZERO),
        }
    }

    /// Whether it is on and has a partner. Whether the partner's handle still
    /// resolves does not count.
    pub fn is_active_and_linked(&self) -> (r: bool)
        ensures
            r == (self.activated && self.linked is Some),
    {
        self.activated && self.linked.is_some()
    }

    pub fn set_active(&mut self, active: bool)
        ensures
            *final(self) == old(self).set(active),
    {
        self.old_activated = self.activated;
        self.activated = active;
    }

    /// The portal that a handle resolves to.
    pub fn read(cx: &Context, id: EntityId) -> (r: Option<PropPortal>)
        ensures
            r == portal_at(cx@, id),
    {
        reveal(prop_view);
        match cx.entity(id) {
            Some(e) => match &e.behaviour {
                Behaviour::Prop(Prop::PropPortal(p)) => Some(*p),
                _ => None,
            },
            None => None,
        }
    }

    fn place_of(cx: &Context, id: EntityId) -> (r: Option<Placement>)
        ensures
            r == place_at(cx@, id),
    {
        match cx.entity(id) {
            Some(e) => Some(Placement { origin: e.core.place.origin, angles: e.core.place.angles }),
            None => None,
        }
    }

    fn edit(cx: &mut Context, id: EntityId, edit: PortalEdit)
        ensures
            final(cx)@ == edited(old(cx)@, id, edit),
    {
        reveal(prop_view);
        match cx.behaviour_mut(id) {
            Some(behaviour) => {
                match behaviour {
                    Behaviour::Prop(Prop::PropPortal(portal)) => edit.apply(portal),
                    _ => {}
                }
            }
            None => {}
        }
    }

    /// The portals of a group, in spawn order.
    pub fn portals_in_group(cx: &Context, group: u8) -> (r: Vec<EntityId>)
        ensures
            r@ == group_members(cx@, group),
    {
        if group == LINKAGE_GROUP_INVALID {
            return Vec::new();
        }
        let ids = cx.find_all_of_class("prop_portal");
        let mut out: Vec<EntityId> = Vec::new();
        let mut i: usize = 0;
        while i < ids.len()
            invariant
                i <= ids.len(),
                out@ == grouped(cx@, ids@, group, i as int),
            decreases ids.len() - i,
        {
            match PropPortal::read(cx, ids[i]) {
                Some(p) => {
                    if p.linkage_group == group {
                        out.push(ids[i]);
                    }
                }
                None => {}
            }
            i = i + 1;
        }
        out
    }

    /// The first portal of a group that is active, unlinked and of exactly that
    /// size, other than oneself.
    pub fn find_partner(cx: &Context, me: EntityId, group: u8, half_width: Scalar, half_height: Scalar) -> (r: Option<
        EntityId,
    >)
        ensures
            r == partner_of(cx@, me, group, half_width, half_height),
    {
        let ids = PropPortal::portals_in_group(cx, group);
        let mut i: usize = 0;
        while i < ids.len()
            invariant
                i <= ids.len(),
                ids@ == group_members(cx@, group),
                first_suiting(cx@, ids@, me, half_width, half_height, 0) == first_suiting(
                    cx@,
                    ids@,
                    me,
                    half_width,
                    half_height,
                    i as int,
                ),
            decreases ids.len() - i,
        {
            let id = ids[i];
            let suited = id != me && match PropPortal::read(cx, id) {
                Some(p) => p.activated && p.linked.is_none() && p.half_width.equals(half_width)
                    && p.half_height.equals(half_height),
                None => false,
            };
            if suited {
                return Some(id);
            }
            i = i + 1;
        }
        None
    }

    fn seek(&mut self, entity: &EntityCore, cx: &mut Context)
        ensures
            step(*final(self), entity@, final(cx)@) == step(*old(self), entity@, old(cx)@).sought(),
    {
        let me = entity.id();
        match self.linked {
            Some(last) => PropPortal::edit(cx, last, PortalEdit::UnlinkFrom(me)),
            None => {}
        }
        self.linked = PropPortal::find_partner(cx, me, self.linkage_group, self.half_width, self.half_height);
        match self.linked {
            Some(partner) => PropPortal::edit(cx, partner, PortalEdit::LinkAs(me, !self.is_portal2)),
            None => {}
        }
    }

    fn bind(&mut self, entity: &EntityCore, cx: &mut Context)
        ensures
            step(*final(self), entity@, final(cx)@) == step(*old(self), entity@, old(cx)@).bound(),
    {
        match self.linked {
            Some(partner) => {
                let other = PropPortal::read(cx, partner);
                PropPortal::edit(cx, partner, PortalEdit::Link(entity.id()));
                match other {
                    Some(other) => {
                        self.is_portal2 = !other.is_portal2;
                    }
                    None => {}
                }
            }
            None => {}
        }
    }

    fn release(&mut self, entity: &EntityCore, cx: &mut Context)
        ensures
            step(*final(self), entity@, final(cx)@) == step(*old(self), entity@, old(cx)@).let_go(),
    {
        let remote = match self.linked {
            Some(remote) => remote,
            None => {
                return;
            }
        };
        self.linked = None;
        let state = PropPortal::read(cx, remote);
        PropPortal::edit(cx, remote, PortalEdit::Unlink);
        match state {
            Some(p) => {
                if p.activated {
                    match PropPortal::find_partner(cx, remote, p.linkage_group, p.half_width, p.half_height) {
                        Some(third) => {
                            let other = PropPortal::read(cx, third);
                            PropPortal::edit(cx, third, PortalEdit::Link(remote));
                            match other {
                                Some(t) => PropPortal::edit(cx, remote, PortalEdit::LinkAs(third, !t.is_portal2)),
                                None => PropPortal::edit(cx, remote, PortalEdit::Link(third)),
                            }
                        }
                        None => {}
                    }
                }
            }
            None => {}
        }
    }

    /// Puts the links right, and the ways that follow from them. An active
    /// portal without an active partner looks for one; one that is off lets its
    /// partner go.
    pub fn update_linkage(&mut self, entity: &EntityCore, cx: &mut Context)
        ensures
            step(*final(self), entity@, final(cx)@) == step(*old(self), entity@, old(cx)@).relinked(),
    {
        reveal(Step::<_>::relinked);
        if self.activated {
            let live = match self.linked {
                Some(id) => match PropPortal::read(cx, id) {
                    Some(other) => other.activated,
                    None => false,
                },
                None => false,
            };
            if !live {
                self.seek(entity, cx);
            }
            self.bind(entity, cx);
        } else {
            self.release(entity, cx);
        }
        self.update_matrices(entity, cx);
    }

    fn way(cx: &Context, id: EntityId, out: EntityId, out_place: Placement) -> (r: Transit)
        ensures
            r == route(cx@, id, out, out_place),
    {
        let entrance = match PropPortal::place_of(cx, id) {
            Some(entrance) => entrance,
            None => {
                return Transit::Identity;
            }
        };
        let linked = match PropPortal::read(cx, id) {
            Some(p) => p.linked,
            None => None,
        };
        let exit = match linked {
            Some(partner) => if partner == out {
                Some(out_place)
            } else {
                PropPortal::place_of(cx, partner)
            },
            None => None,
        };
        match exit {
            Some(exit) => Transit::Between { entrance, exit },
            None => Transit::Identity,
        }
    }

    /// Finds the ways of this portal and of its group anew.
    pub fn update_matrices(&mut self, entity: &EntityCore, cx: &mut Context)
        ensures
            step(*final(self), entity@, final(cx)@) == step(*old(self), entity@, old(cx)@).remapped(),
    {
        let me = entity.id();
        let here = Placement { origin: entity.place.origin, angles: entity.place.angles };
        let exit = match self.linked {
            Some(partner) => PropPortal::place_of(cx, partner),
            None => None,
        };
        self.matrix = match exit {
            Some(exit) => Transit::Between { entrance: here, exit },
            None => Transit::Identity,
        };
        let ids = PropPortal::portals_in_group(cx, self.linkage_group);
        let ghost start = cx@;
        let mut i: usize = 0;
        while i < ids.len()
            invariant
                i <= ids.len(),
                cx@ == routed(start, ids@, me, here, i as int),
            decreases ids.len() - i,
        {
            let matrix = PropPortal::way(cx, ids[i], me, here);
            PropPortal::edit(cx, ids[i], PortalEdit::Route(matrix));
            i = i + 1;
        }
    }

    /// Moves the portal, which also turns it on.
    pub fn new_location(&mut self, entity: &mut EntityCore, to: Placement, cx: &mut Context)
        ensures
            step(*final(self), final(entity)@, final(cx)@) == step(*old(self), old(entity)@, old(cx)@).moved(to),
    {
        entity.place.origin = to.origin;
        entity.place.angles = to.angles;
        self.set_active(true);
        self.opened_at = cx.curtime();
        self.update_linkage(entity, cx);
    }

    pub fn resize(&mut self, entity: &mut EntityCore, half_width: Scalar, half_height: Scalar, cx: &mut Context)
        ensures
            step(*final(self), final(entity)@, final(cx)@) == step(*old(self), old(entity)@, old(cx)@).resized(
                half_width,
                half_height,
            ),
    {
        if half_width.equals(self.half_width) && half_height.equals(self.half_height) {
            return;
        }
        self.half_width = half_width;
        self.half_height = half_height;
        self.apply_size(entity);
        match self.linked {
            Some(partner) => {
                let mismatched = match PropPortal::read(cx, partner) {
                    Some(o) => !o.half_width.equals(half_width) || !o.half_height.equals(half_height),
                    None => false,
                };
                if mismatched {
                    PropPortal::edit(cx, partner, PortalEdit::Unlink);
                    self.linked = None;
                }
            }
            None => {}
        }
        self.update_linkage(entity, cx);
    }

    pub fn apply_size(&self, entity: &mut EntityCore)
        ensures
            final(entity)@ == portal_sized(old(entity)@, *self),
    {
        entity.model = Some(
            if self.is_portal2 {
                "models/portals/portal2.mdl".to_owned()
            } else {
                "models/portals/portal1.mdl".to_owned()
            },
        );
        entity.body.bounds = ModelBounds {
            mins: Vector { x: num(ZERO), y: self.half_width.neg(), z: self.half_height.neg() },
            maxs: Vector { x: num(OBB_DEPTH), y: self.half_width, z: self.half_height },
        };
    }

    pub fn key_value(&mut self, key: &str, value: &Value) -> (r: bool)
        ensures
            r == old(self).keyed(key@, *value) is Some,
            *final(self) == old(self).keyed(key@, *value).unwrap_or(*old(self)),
    {
        reveal(PropPortal::keyed);
        if key.eq_ignore_ascii_case("LinkageGroupID") {
            let wide: i64 = atoi(value.text.as_str()) as i64 + 0x1_0000_0000;
            self.linkage_group = (wide % 256) as u8;
            return true;
        }
        if key.eq_ignore_ascii_case("Activated") {
            self.activated = atoi(value.text.as_str()) != 0;
            return true;
        }
        if key.eq_ignore_ascii_case("OldActivated") {
            self.old_activated = atoi(value.text.as_str()) != 0;
            return true;
        }
        if key.eq_ignore_ascii_case("PortalTwo") {
            self.is_portal2 = atoi(value.text.as_str()) != 0;
            return true;
        }
        if key.eq_ignore_ascii_case("HalfWidth") {
            self.half_width = value.number;
            return true;
        }
        if key.eq_ignore_ascii_case("HalfHeight") {
            self.half_height = value.number;
            return true;
        }
        false
    }

    pub fn spawn(&mut self, entity: &mut EntityCore, cx: &Context) -> (r: SpawnResult)
        ensures
            r == SpawnResult::Keep,
            step(*final(self), final(entity)@, cx@) == step(*old(self), old(entity)@, cx@).spawned(),
    {
        if self.half_width.le(num(ZERO)) || self.half_height.le(num(ZERO)) {
            self.half_width = num(DEFAULT_HALF_WIDTH);
            self.half_height = num(DEFAULT_HALF_HEIGHT);
        }
        self.apply_size(entity);
        entity.body.solid = Solid::Obb;
        entity.body.solid_flags = FSOLID_NOT_SOLID | FSOLID_TRIGGER;
        entity.body.move_type = MoveType::Still;
        self.matrix = Transit::Identity;
        SpawnResult::Keep
    }

    pub fn activate(&mut self, entity: &EntityCore, cx: &mut Context)
        ensures
            step(*final(self), entity@, final(cx)@) == step(*old(self), entity@, old(cx)@).relinked(),
    {
        self.update_linkage(entity, cx);
    }

    fn regroup(&mut self, entity: &EntityCore, group: i32, cx: &mut Context)
        ensures
            step(*final(self), entity@, final(cx)@) == step(*old(self), entity@, old(cx)@).regrouped(group),
    {
        if group < 0 || group >= 255 {
            return;
        }
        let was_active = self.activated;
        if was_active {
            self.set_active(false);
            self.update_linkage(entity, cx);
        }
        self.linkage_group = group as u8;
        if was_active {
            self.set_active(true);
            self.update_linkage(entity, cx);
        }
    }

    /// Takes an input. `numbers` are those in its text.
    pub fn accept_input(
        &mut self,
        entity: &mut EntityCore,
        input: &Input<'_>,
        numbers: &PortalNumbers,
        cx: &mut Context,
    ) -> (r: bool)
        ensures
            answered(
                step(*old(self), old(entity)@, old(cx)@).prop_portal_input(*input, *numbers),
                step(*old(self), old(entity)@, old(cx)@),
                r,
                step(*final(self), final(entity)@, final(cx)@),
            ),
    {
        reveal(Step::<_>::prop_portal_input);
        let name = input.name;
        if name.eq_ignore_ascii_case("SetActivatedState") {
            let active = input.value.bool();
            self.set_active(active);
            if active && !self.old_activated {
                self.opened_at = cx.curtime();
            }
            self.update_linkage(entity, cx);
            return true;
        }
        if name.eq_ignore_ascii_case("Fizzle") {
            self.set_active(false);
            self.update_linkage(entity, cx);
            return true;
        }
        if name.eq_ignore_ascii_case("NewLocation") {
            self.new_location(entity, numbers.place, cx);
            return true;
        }
        if name.eq_ignore_ascii_case("Resize") {
            self.resize(entity, numbers.place.origin.x, numbers.place.origin.y, cx);
            return true;
        }
        if name.eq_ignore_ascii_case("SetLinkageGroupId") {
            self.regroup(entity, input.value.integer(), cx);
            return true;
        }
        false
    }
}

/// Setting a portal active notes what it was before.
pub proof fn activation_remembers_the_last_state(portal: PropPortal, active: bool)
    ensures
        portal.set(active).activated == active,
        portal.set(active).old_activated == portal.activated,
{
}

} // verus!
