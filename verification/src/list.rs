//! The entity list: slots in spawn order, handles that stop resolving, and
//! searches.
use vstd::prelude::*;

use crate::behaviour::{Behaviour, BehaviourView};
use crate::entity::{CoreView, EntityCore, EntityId};
use crate::text::{name_matches, names_match, same_name};

verus! {

/// An entity: its common half, and its class's state.
pub struct Entity {
    pub core: EntityCore,
    pub behaviour: Behaviour,
}

pub struct EntityView {
    pub core: CoreView,
    pub behaviour: BehaviourView,
}

impl View for Entity {
    type V = EntityView;

    open spec fn view(&self) -> EntityView {
        EntityView { core: self.core@, behaviour: self.behaviour@ }
    }
}

/// A place in the list. Its serial tells one tenant from the next.
pub struct Slot {
    pub serial: u32,
    pub entity: Option<Entity>,
}

pub struct SlotView {
    pub serial: u32,
    pub entity: Option<EntityView>,
}

impl View for Slot {
    type V = SlotView;

    open spec fn view(&self) -> SlotView {
        SlotView {
            serial: self.serial,
            entity: match self.entity {
                Some(e) => Some(e@),
                None => None,
            },
        }
    }
}

/// Every entity of a map, in spawn order. The entity that an event is being
/// handed to is out of the list while it is.
pub struct EntityList {
    pub slots: Vec<Slot>,
}

impl View for EntityList {
    type V = Seq<SlotView>;

    open spec fn view(&self) -> Seq<SlotView> {
        self.slots@.map_values(|s: Slot| s@)
    }
}

/// Whether a handle resolves.
pub open spec fn holds(list: Seq<SlotView>, id: EntityId) -> bool {
    id.slot < list.len() && list[id.slot as int].serial == id.serial && list[id.slot as int].entity is Some
}

/// The entity that a handle resolves to.
pub open spec fn at(list: Seq<SlotView>, id: EntityId) -> Option<EntityView> {
    if holds(list, id) {
        list[id.slot as int].entity
    } else {
        None
    }
}

/// The list with another entity behind a handle that resolves.
pub open spec fn replaced(list: Seq<SlotView>, id: EntityId, entity: EntityView) -> Seq<SlotView> {
    list.update(id.slot as int, SlotView { serial: id.serial, entity: Some(entity) })
}

/// What a search asks of an entity.
pub enum Search {
    /// A target name that the query matches.
    Named(Seq<char>),
    /// Exactly this class, but for case.
    OfClass(Seq<char>),
}

impl Search {
    pub open spec fn fits(self, entity: EntityView) -> bool {
        match self {
            Search::Named(query) => entity.core.name matches Some(name) && name_matches(query, name),
            Search::OfClass(class) => same_name(entity.core.classname, class),
        }
    }

    pub open spec fn fits_slot(self, slot: SlotView) -> bool {
        slot.entity matches Some(e) && self.fits(e)
    }
}

/// The handles of the entities among the first `n` slots that fit a search, in
/// slot order.
pub open spec fn found(list: Seq<SlotView>, search: Search, n: int) -> Seq<EntityId>
    decreases n,
{
    if n <= 0 {
        Seq::empty()
    } else {
        let before = found(list, search, n - 1);
        if search.fits_slot(list[n - 1]) {
            before.push(EntityId { slot: (n - 1) as usize, serial: list[n - 1].serial })
        } else {
            before
        }
    }
}

/// The handles of all entities that fit a search, in slot order.
pub open spec fn found_all(list: Seq<SlotView>, search: Search) -> Seq<EntityId> {
    found(list, search, list.len() as int)
}

/// The first handle of a list of handles.
pub open spec fn first(ids: Seq<EntityId>) -> Option<EntityId> {
    if ids.len() > 0 {
        Some(ids[0])
    } else {
        None
    }
}

pub proof fn found_keeps_first(list: Seq<SlotView>, search: Search, m: int, n: int)
    requires
        0 <= m <= n,
        found(list, search, m).len() > 0,
    ensures
        found(list, search, n).len() > 0,
        found(list, search, n)[0] == found(list, search, m)[0],
    decreases n - m,
{
    if m < n {
        found_keeps_first(list, search, m, n - 1);
    }
}

/// Every handle that a search gives resolves, to an entity that fits.
pub proof fn found_resolves(list: Seq<SlotView>, search: Search, n: int, k: int)
    requires
        0 <= n <= list.len(),
        list.len() <= usize::MAX,
        0 <= k < found(list, search, n).len(),
    ensures
        holds(list, found(list, search, n)[k]),
        search.fits(at(list, found(list, search, n)[k])->0),
    decreases n,
{
    if n > 0 {
        let before = found(list, search, n - 1);
        if k < before.len() {
            found_resolves(list, search, n - 1, k);
        }
    }
}

impl EntityList {
    pub fn new() -> (r: EntityList)
        ensures
            r@ == Seq::<SlotView>::empty(),
    {
        let r = EntityList { slots: Vec::new() };
        assert(r@ =~= Seq::<SlotView>::empty());
        r
    }

    /// The entity that a handle resolves to.
    pub fn get(&self, id: EntityId) -> (r: Option<&Entity>)
        ensures
            r is Some == holds(self@, id),
            r matches Some(e) ==> at(self@, id) == Some(e@),
    {
        let i: usize = id.slot;
        if i < self.slots.len() && self.slots[i].serial == id.serial {
            match &self.slots[i].entity {
                Some(e) => Some(e),
                None => None,
            }
        } else {
            None
        }
    }

    /// The entity that a handle resolves to, to be changed.
    pub fn get_mut(&mut self, id: EntityId) -> (r: Option<&mut Entity>)
        ensures
            r is Some == holds(old(self)@, id),
            r matches Some(e) ==> at(old(self)@, id) == Some(e@) && final(self)@ == replaced(old(self)@, id, final(e)@),
            r is None ==> final(self)@ == old(self)@,
            final(self).slots@.len() == old(self).slots@.len(),
    {
        let i: usize = id.slot;
        if i < self.slots.len() && self.slots[i].serial == id.serial {
            match &mut self.slots[i].entity {
                Some(e) => Some(e),
                None => None,
            }
        } else {
            None
        }
    }

    /// A new tenant in a slot of its own at the end of the list. The entity
    /// learns its handle.
    pub fn insert(&mut self, entity: Entity) -> (r: EntityId)
        ensures
            r == (EntityId { slot: old(self)@.len() as usize, serial: 0 }),
            final(self)@ == old(self)@.push(SlotView { serial: 0, entity: Some(placed(entity@, r)) }),
            holds(final(self)@, r),
    {
        let id = EntityId { slot: self.slots.len(), serial: 0 };
        let mut entity = entity;
        entity.core.id = id;
        let ghost before = self@;
        self.slots.push(Slot { serial: 0, entity: Some(entity) });
        assert(self@ =~= before.push(SlotView { serial: 0, entity: Some(placed(entity@, id)) }));
        id
    }

    /// The first entity, in spawn order, whose target name the query matches.
    pub fn find_by_name(&self, query: &str) -> (r: Option<EntityId>)
        ensures
            r == first(found_all(self@, Search::Named(query@))),
    {
        let mut i: usize = 0;
        while i < self.slots.len()
            invariant
                i <= self.slots.len(),
                found(self@, Search::Named(query@), i as int).len() == 0,
            decreases self.slots.len() - i,
        {
            let matched = match &self.slots[i].entity {
                Some(e) => match &e.core.name {
                    Some(name) => names_match(query, name.as_str()),
                    None => false,
                },
                None => false,
            };
            assert(matched == Search::Named(query@).fits_slot(self@[i as int]));
            if matched {
                let id = EntityId { slot: i, serial: self.slots[i].serial };
                proof {
                    found_keeps_first(self@, Search::Named(query@), i + 1, self@.len() as int);
                }
                return Some(id);
            }
            i = i + 1;
        }
        None
    }

    /// Every entity whose target name the query matches, in spawn order.
    pub fn find_all_by_name(&self, query: &str) -> (r: Vec<EntityId>)
        ensures
            r@ == found_all(self@, Search::Named(query@)),
    {
        let mut out: Vec<EntityId> = Vec::new();
        let mut i: usize = 0;
        while i < self.slots.len()
            invariant
                i <= self.slots.len(),
                out@ == found(self@, Search::Named(query@), i as int),
            decreases self.slots.len() - i,
        {
            let matched = match &self.slots[i].entity {
                Some(e) => match &e.core.name {
                    Some(name) => names_match(query, name.as_str()),
                    None => false,
                },
                None => false,
            };
            assert(matched == Search::Named(query@).fits_slot(self@[i as int]));
            if matched {
                out.push(EntityId { slot: i, serial: self.slots[i].serial });
            }
            i = i + 1;
        }
        out
    }

    /// Every entity of a class, in spawn order.
    pub fn find_all_of_class(&self, classname: &str) -> (r: Vec<EntityId>)
        ensures
            r@ == found_all(self@, Search::OfClass(classname@)),
    {
        let mut out: Vec<EntityId> = Vec::new();
        let mut i: usize = 0;
        while i < self.slots.len()
            invariant
                i <= self.slots.len(),
                out@ == found(self@, Search::OfClass(classname@), i as int),
            decreases self.slots.len() - i,
        {
            let matched = match &self.slots[i].entity {
                Some(e) => e.core.classname.eq_ignore_ascii_case(classname),
                None => false,
            };
            assert(matched == Search::OfClass(classname@).fits_slot(self@[i as int]));
            if matched {
                out.push(EntityId { slot: i, serial: self.slots[i].serial });
            }
            i = i + 1;
        }
        out
    }

    /// Takes an entity out of its slot, which keeps its serial.
    pub fn take(&mut self, id: EntityId) -> (r: Option<Entity>)
        ensures
            r is Some == holds(old(self)@, id),
            r matches Some(e) ==> at(old(self)@, id) == Some(e@) && final(self)@ == old(self)@.update(
                id.slot as int,
                SlotView { serial: id.serial, entity: None },
            ),
            r is None ==> final(self)@ == old(self)@,
            final(self).slots@.len() == old(self).slots@.len(),
    {
        let i: usize = id.slot;
        if i < self.slots.len() && self.slots[i].serial == id.serial {
            let ghost before = self@;
            let taken = self.slots[i].entity.take();
            proof {
                if taken is None {
                    assert(self@ =~= before);
                } else {
                    assert(self@ =~= before.update(id.slot as int, SlotView { serial: id.serial, entity: None }));
                }
            }
            taken
        } else {
            None
        }
    }

    /// Puts an entity back into the slot that it was taken out of.
    pub fn put_back(&mut self, id: EntityId, entity: Entity)
        requires
            id.slot < old(self)@.len(),
            old(self)@[id.slot as int].serial == id.serial,
        ensures
            final(self)@ == replaced(old(self)@, id, entity@),
            final(self).slots@.len() == old(self).slots@.len(),
    {
        let i: usize = id.slot;
        let ghost before = self@;
        self.slots[i].entity = Some(entity);
        assert(self@ =~= replaced(before, id, entity@));
    }
}

/// An entity that has learnt its handle.
pub open spec fn placed(entity: EntityView, id: EntityId) -> EntityView {
    EntityView { core: CoreView { id, ..entity.core }, ..entity }
}

/// An entity taken out and put back unchanged leaves the list as it was.
pub proof fn put_back_undoes_take(list: Seq<SlotView>, id: EntityId)
    requires
        holds(list, id),
    ensures
        replaced(
            list.update(id.slot as int, SlotView { serial: id.serial, entity: None }),
            id,
            at(list, id)->0,
        ) == list,
{
    assert(replaced(
        list.update(id.slot as int, SlotView { serial: id.serial, entity: None }),
        id,
        at(list, id)->0,
    ) =~= list);
}

/// Whether a handle is among others.
pub fn contains_id(ids: &Vec<EntityId>, id: EntityId) -> (r: bool)
    ensures
        r == ids@.contains(id),
{
    let mut i: usize = 0;
    while i < ids.len()
        invariant
            i <= ids.len(),
            forall|k: int| 0 <= k < i ==> ids@[k] != id,
        decreases ids.len() - i,
    {
        if ids[i] == id {
            assert(ids@[i as int] == id);
            return true;
        }
        i = i + 1;
    }
    false
}

/// The first `n` handles of a list, one handle left out.
pub open spec fn without(ids: Seq<EntityId>, id: EntityId, n: int) -> Seq<EntityId>
    decreases n,
{
    if n <= 0 {
        Seq::empty()
    } else if ids[n - 1] == id {
        without(ids, id, n - 1)
    } else {
        without(ids, id, n - 1).push(ids[n - 1])
    }
}

/// Leaves a handle out of a list, wherever it occurs.
pub fn remove_id(ids: &mut Vec<EntityId>, id: EntityId)
    ensures
        final(ids)@ == without(old(ids)@, id, old(ids)@.len() as int),
{
    let mut kept: Vec<EntityId> = Vec::new();
    let mut i: usize = 0;
    while i < ids.len()
        invariant
            i <= ids.len(),
            *ids == *old(ids),
            kept@ == without(ids@, id, i as int),
        decreases ids.len() - i,
    {
        if ids[i] != id {
            kept.push(ids[i]);
        }
        i = i + 1;
    }
    *ids = kept;
}

/// A handle left out is gone, and every other one is still there.
pub proof fn without_leaves_the_others(ids: Seq<EntityId>, id: EntityId, n: int)
    requires
        0 <= n <= ids.len(),
    ensures
        !without(ids, id, n).contains(id),
        forall|k: int|
            0 <= k < n && #[trigger] ids[k] != id ==> without(ids, id, n).contains(ids[k]),
    decreases n,
{
    if n > 0 {
        without_leaves_the_others(ids, id, n - 1);
        let before = without(ids, id, n - 1);
        let after = without(ids, id, n);
        if ids[n - 1] != id {
            assert(after == before.push(ids[n - 1]));
            assert(after[before.len() as int] == ids[n - 1]);
            assert forall|k: int| 0 <= k < n && #[trigger] ids[k] != id implies after.contains(ids[k]) by {
                if k < n - 1 {
                    let j = choose|j: int| 0 <= j < before.len() && before[j] == ids[k];
                    assert(after[j] == ids[k]);
                }
            }
        }
    }
}

/// The top of the chain of parents that starts at a handle, no further up than
/// `steps` parents.
pub open spec fn root_of(list: Seq<SlotView>, id: EntityId, steps: nat) -> EntityId
    decreases steps,
{
    if steps == 0 {
        id
    } else {
        match at(list, id) {
            Some(e) => match e.core.place.parent {
                Some(parent) => if holds(list, parent) {
                    root_of(list, parent, (steps - 1) as nat)
                } else {
                    id
                },
                None => id,
            },
            None => id,
        }
    }
}

impl EntityList {
    /// The top of the chain of parents that starts at a handle.
    pub fn root_move_parent(&self, id: EntityId) -> (r: EntityId)
        ensures
            r == root_of(self@, id, self@.len()),
    {
        let mut at: EntityId = id;
        let mut steps: usize = self.slots.len();
        while steps > 0
            invariant
                steps <= self.slots.len(),
                root_of(self@, id, self@.len()) == root_of(self@, at, steps as nat),
            decreases steps,
        {
            let up = match self.get(at) {
                Some(e) => e.core.place.parent,
                None => None,
            };
            match up {
                Some(parent) => {
                    if self.get(parent).is_none() {
                        return at;
                    }
                    at = parent;
                }
                None => {
                    return at;
                }
            }
            steps = steps - 1;
        }
        at
    }
}

} // verus!
