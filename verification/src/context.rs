//! What a handler sees of the server, and what it leaves for the server to
//! do.
use vstd::prelude::*;

use crate::attachment::AttachmentTable;
use crate::behaviour::{Behaviour, BehaviourView};
use crate::classes::env::TonemapSettings;
use crate::damage::DamageInfo;
use crate::entity::{CoreView, EntityCore, EntityId};
use crate::io::Variant;
use crate::list::{at, first, found_all, holds, replaced, Entity, EntityList, EntityView, Search, SlotView};
use crate::scalar::{Scalar, Vector};
use crate::sequences::{Lookup, SequenceTable};
use crate::text::{is_procedural, procedural, same_name};

verus! {

/// The server's clock.
#[derive(Debug, Clone, Copy, PartialEq, Eq, Structural)]
pub struct Time {
    pub curtime: Scalar,
    /// The length of a tick.
    pub interval: Scalar,
}

/// What a handler asks of an entity's physics body.
#[derive(Debug, Clone, Copy, PartialEq, Eq, Structural)]
pub enum Request {
    InitNormal { asleep: bool },
    EnableMotion(bool),
    Wake,
    Sleep,
    Force { force: Vector, scale_by_mass: bool },
}

#[derive(Debug, Clone, Copy, PartialEq, Eq, Structural)]
pub struct Pending {
    pub entity: EntityId,
    pub request: Request,
}

/// Where an entity stands and how it is turned.
#[derive(Debug, Clone, Copy, PartialEq, Eq, Structural)]
pub struct Placement {
    pub origin: Vector,
    pub angles: Vector,
}

/// A teleport, to be carried out by the server.
#[derive(Debug, Clone, Copy, PartialEq, Eq, Structural)]
#[allow(inconsistent_fields)]
pub enum Teleport {
    /// To a placement, at a velocity or at the one it has.
    To { place: Placement, velocity: Option<Vector> },
    /// To a placement from which the hull's lowest point has been taken off.
    Onto { place: Placement, lowest: Scalar, velocity: Vector },
    /// From its place relative to a landmark to the same place relative to a
    /// target, its velocity turned the same way, and its angles too unless
    /// they are given.
    Carried {
        from: Placement,
        velocity: Vector,
        landmark: Placement,
        target: Placement,
        angles: Option<Vector>,
    },
}

/// One thing for the event queue, in the order in which it was asked for.
#[derive(Debug)]
#[allow(inconsistent_fields)]
pub enum Posted {
    /// An output went off; each of its connections is to be queued.
    Output {
        source: EntityId,
        output: &'static str,
        value: Variant,
        activator: Option<EntityId>,
        caller: Option<EntityId>,
        delay: Scalar,
    },
    /// An input for one entity.
    ToEntity {
        target: EntityId,
        input: &'static str,
        value: Variant,
        delay: Scalar,
        activator: Option<EntityId>,
        caller: Option<EntityId>,
    },
    /// An input for every entity of a name.
    ToName {
        target: String,
        input: String,
        value: Variant,
        delay: Scalar,
        activator: Option<EntityId>,
        caller: Option<EntityId>,
        output_id: u32,
    },
    /// Everything that an entity has sent and that has not arrived is called
    /// off.
    CancelFrom(EntityId),
}

#[allow(inconsistent_fields)]
pub enum PostedView {
    Output {
        source: EntityId,
        output: Seq<char>,
        value: Variant,
        activator: Option<EntityId>,
        caller: Option<EntityId>,
        delay: Scalar,
    },
    ToEntity {
        target: EntityId,
        input: Seq<char>,
        value: Variant,
        delay: Scalar,
        activator: Option<EntityId>,
        caller: Option<EntityId>,
    },
    ToName {
        target: Seq<char>,
        input: Seq<char>,
        value: Variant,
        delay: Scalar,
        activator: Option<EntityId>,
        caller: Option<EntityId>,
        output_id: u32,
    },
    CancelFrom(EntityId),
}

impl View for Posted {
    type V = PostedView;

    open spec fn view(&self) -> PostedView {
        match *self {
            Posted::Output { source, output, value, activator, caller, delay } => PostedView::Output {
                source,
                output: output@,
                value,
                activator,
                caller,
                delay,
            },
            Posted::ToEntity { target, input, value, delay, activator, caller } => PostedView::ToEntity {
                target,
                input: input@,
                value,
                delay,
                activator,
                caller,
            },
            Posted::ToName { target, input, value, delay, activator, caller, output_id } => PostedView::ToName {
                target: target@,
                input: input@,
                value,
                delay,
                activator,
                caller,
                output_id,
            },
            Posted::CancelFrom(id) => PostedView::CancelFrom(id),
        }
    }
}

/// What the server knows and no handler changes.
pub struct Tables {
    pub sequences: SequenceTable,
    pub attachments: AttachmentTable,
    /// What the renderer's exposure and bloom start with.
    pub tonemap: TonemapSettings,
}

/// What handlers have left for the server to do, the event queue aside.
pub struct Outbox {
    /// Who may have changed.
    pub changed: Vec<EntityId>,
    pub created: Vec<EntityId>,
    pub damage: Vec<(EntityId, DamageInfo)>,
    pub punches: Vec<EntityId>,
    pub activated_skybox: Option<EntityId>,
    pub physics: Vec<Pending>,
    pub teleports: Vec<(EntityId, Teleport)>,
    pub reparented: Vec<EntityId>,
    pub reload_level: bool,
    pub attachments_used: bool,
}

/// The server as a handler meets it.
pub struct Context {
    pub time: Time,
    pub player: Option<EntityId>,
    pub tables: Tables,
    pub entities: EntityList,
    /// Things for the event queue.
    pub posted: Vec<Posted>,
    pub outbox: Outbox,
}

/// [`Outbox`], over mathematical lists.
pub struct OutboxView {
    pub changed: Seq<EntityId>,
    pub created: Seq<EntityId>,
    pub damage: Seq<(EntityId, DamageInfo)>,
    pub punches: Seq<EntityId>,
    pub activated_skybox: Option<EntityId>,
    pub physics: Seq<Pending>,
    pub teleports: Seq<(EntityId, Teleport)>,
    pub reparented: Seq<EntityId>,
    pub reload_level: bool,
    pub attachments_used: bool,
}

impl View for Outbox {
    type V = OutboxView;

    open spec fn view(&self) -> OutboxView {
        OutboxView {
            changed: self.changed@,
            created: self.created@,
            damage: self.damage@,
            punches: self.punches@,
            activated_skybox: self.activated_skybox,
            physics: self.physics@,
            teleports: self.teleports@,
            reparented: self.reparented@,
            reload_level: self.reload_level,
            attachments_used: self.attachments_used,
        }
    }
}

/// [`Context`], over mathematical lists.
pub struct ContextView {
    pub time: Time,
    pub player: Option<EntityId>,
    pub tables: Tables,
    pub entities: Seq<SlotView>,
    pub posted: Seq<PostedView>,
    pub outbox: OutboxView,
}

impl View for Context {
    type V = ContextView;

    open spec fn view(&self) -> ContextView {
        ContextView {
            time: self.time,
            player: self.player,
            tables: self.tables,
            entities: self.entities@,
            posted: self.posted@.map_values(|p: Posted| p@),
            outbox: self.outbox@,
        }
    }
}

impl ContextView {
    pub open spec fn with_outbox(self, outbox: OutboxView) -> ContextView {
        ContextView { outbox, ..self }
    }

    pub open spec fn posting(self, post: PostedView) -> ContextView {
        ContextView { posted: self.posted.push(post), ..self }
    }

    /// The server after an output went off.
    pub open spec fn fired(
        self,
        source: EntityId,
        output: Seq<char>,
        value: Variant,
        activator: Option<EntityId>,
        caller: Option<EntityId>,
        delay: Scalar,
    ) -> ContextView {
        self.posting(PostedView::Output { source, output, value, activator, caller, delay })
    }

    /// The server after an input was sent to one entity.
    pub open spec fn sent(
        self,
        target: EntityId,
        input: Seq<char>,
        value: Variant,
        delay: Scalar,
        activator: Option<EntityId>,
        caller: Option<EntityId>,
    ) -> ContextView {
        self.posting(PostedView::ToEntity { target, input, value, delay, activator, caller })
    }

    pub open spec fn noting(self, id: EntityId) -> ContextView {
        self.with_outbox(OutboxView { changed: self.outbox.changed.push(id), ..self.outbox })
    }

    pub open spec fn holds(self, id: EntityId) -> bool {
        holds(self.entities, id)
    }

    /// The entity that a handle resolves to.
    pub open spec fn at(self, id: EntityId) -> Option<EntityView> {
        at(self.entities, id)
    }

    pub open spec fn with_core(self, id: EntityId, core: CoreView) -> ContextView {
        ContextView {
            entities: replaced(self.entities, id, EntityView { core, ..self.at(id)->0 }),
            ..self
        }
    }

    pub open spec fn with_behaviour(self, id: EntityId, behaviour: BehaviourView) -> ContextView {
        ContextView {
            entities: replaced(self.entities, id, EntityView { behaviour, ..self.at(id)->0 }),
            ..self
        }
    }

    pub open spec fn wanting(self, entity: EntityId, request: Request) -> ContextView {
        self.with_outbox(OutboxView { physics: self.outbox.physics.push(Pending { entity, request }), ..self.outbox })
    }

    pub open spec fn teleporting(self, id: EntityId, teleport: Teleport) -> ContextView {
        self.with_outbox(OutboxView { teleports: self.outbox.teleports.push((id, teleport)), ..self.outbox })
    }

    /// The first entity that a query names.
    pub open spec fn named(self, query: Seq<char>) -> Option<EntityId> {
        first(found_all(self.entities, Search::Named(query)))
    }

    /// The entity that a query stands for, roles of the event included.
    pub open spec fn targeted(
        self,
        query: Seq<char>,
        searching: Option<EntityId>,
        activator: Option<EntityId>,
        caller: Option<EntityId>,
    ) -> Option<EntityId> {
        if !procedural(query) {
            self.named(query)
        } else if same_name(query, "!player"@) {
            self.player
        } else if same_name(query, "!activator"@) {
            activator
        } else if same_name(query, "!caller"@) {
            caller
        } else if same_name(query, "!self"@) {
            searching
        } else {
            None
        }
    }

    /// The player, while its handle resolves.
    pub open spec fn living_player(self) -> Option<EntityId> {
        match self.player {
            Some(id) => if self.holds(id) { Some(id) } else { None },
            None => None,
        }
    }
}

impl Context {
    /// A server at a given time with nothing asked of it yet.
    pub fn new(time: Time, entities: EntityList, player: Option<EntityId>, tables: Tables) -> (r: Context)
        ensures
            r@ == (ContextView {
                time,
                player,
                tables,
                entities: entities@,
                posted: Seq::empty(),
                outbox: OutboxView {
                    changed: Seq::empty(),
                    created: Seq::empty(),
                    damage: Seq::empty(),
                    punches: Seq::empty(),
                    activated_skybox: None,
                    physics: Seq::empty(),
                    teleports: Seq::empty(),
                    reparented: Seq::empty(),
                    reload_level: false,
                    attachments_used: false,
                },
            }),
    {
        let r = Context {
            time,
            player,
            tables,
            entities,
            posted: Vec::new(),
            outbox: Outbox {
                changed: Vec::new(),
                created: Vec::new(),
                damage: Vec::new(),
                punches: Vec::new(),
                activated_skybox: None,
                physics: Vec::new(),
                teleports: Vec::new(),
                reparented: Vec::new(),
                reload_level: false,
                attachments_used: false,
            },
        };
        assert(r@.posted =~= Seq::empty());
        r
    }

    /// What is known of a model's sequence.
    pub fn sequence(&self, model: &str, label: &str) -> (r: Lookup)
        ensures
            r == self@.tables.sequences.entry(model@, label@),
    {
        self.tables.sequences.lookup(model, label)
    }

    /// Adds one thing for the event queue.
    pub fn post(&mut self, post: Posted)
        ensures
            final(self)@ == old(self)@.posting(post@),
    {
        self.posted.push(post);
        assert(self@.posted =~= old(self)@.posted.push(post@));
    }

    /// Sends an input to every entity of a name.
    pub fn post_named(
        &mut self,
        target: &str,
        input: &str,
        value: Variant,
        delay: Scalar,
        activator: Option<EntityId>,
        caller: Option<EntityId>,
        output_id: u32,
    )
        ensures
            final(self)@ == old(self)@.posting(
                PostedView::ToName {
                    target: target@,
                    input: input@,
                    value,
                    delay,
                    activator,
                    caller,
                    output_id,
                },
            ),
    {
        self.post(
            Posted::ToName {
                target: target.to_owned(),
                input: input.to_owned(),
                value,
                delay,
                activator,
                caller,
                output_id,
            },
        );
    }

    /// Sends an input to one entity.
    pub fn post_entity(
        &mut self,
        target: EntityId,
        input: &'static str,
        value: Variant,
        delay: Scalar,
        activator: Option<EntityId>,
        caller: Option<EntityId>,
    )
        ensures
            final(self)@ == old(self)@.sent(target, input@, value, delay, activator, caller),
    {
        self.post(Posted::ToEntity { target, input, value, delay, activator, caller });
    }

    /// Calls off everything that an entity has sent and that has not arrived.
    pub fn cancel_from(&mut self, caller: EntityId)
        ensures
            final(self)@ == old(self)@.posting(PostedView::CancelFrom(caller)),
    {
        self.post(Posted::CancelFrom(caller));
    }

    /// Asks that players standing in a portal's frame be pushed out of it.
    pub fn punch_penetrating_players(&mut self, portal: EntityId)
        ensures
            final(self)@ == old(self)@.with_outbox(OutboxView { punches: old(self)@.outbox.punches.push(portal), ..old(self)@.outbox }),
    {
        self.outbox.punches.push(portal);
    }

    /// Makes a camera the one that the 3D skybox is drawn from.
    pub fn activate_skybox(&mut self, camera: EntityId)
        ensures
            final(self)@ == old(self)@.with_outbox(OutboxView { activated_skybox: Some(camera), ..old(self)@.outbox }),
    {
        self.outbox.activated_skybox = Some(camera);
    }

    /// Asks for a physics body that moves.
    pub fn vphysics_init_normal(&mut self, entity: EntityId, asleep: bool)
        ensures
            final(self)@ == old(self)@.wanting(entity, Request::InitNormal { asleep }),
    {
        self.queue_physics(entity, Request::InitNormal { asleep });
    }

    /// Thaws or freezes a physics body.
    pub fn vphysics_enable_motion(&mut self, entity: EntityId, enable: bool)
        ensures
            final(self)@ == old(self)@.wanting(entity, Request::EnableMotion(enable)),
    {
        self.queue_physics(entity, Request::EnableMotion(enable));
    }

    pub fn vphysics_wake(&mut self, entity: EntityId)
        ensures
            final(self)@ == old(self)@.wanting(entity, Request::Wake),
    {
        self.queue_physics(entity, Request::Wake);
    }

    pub fn vphysics_sleep(&mut self, entity: EntityId)
        ensures
            final(self)@ == old(self)@.wanting(entity, Request::Sleep),
    {
        self.queue_physics(entity, Request::Sleep);
    }

    /// Pushes a physics body.
    pub fn vphysics_force(&mut self, entity: EntityId, force: Vector, scale_by_mass: bool)
        ensures
            final(self)@ == old(self)@.wanting(entity, Request::Force { force, scale_by_mass }),
    {
        self.queue_physics(entity, Request::Force { force, scale_by_mass });
    }

    fn queue_physics(&mut self, entity: EntityId, request: Request)
        ensures
            final(self)@ == old(self)@.wanting(entity, request),
    {
        self.outbox.physics.push(Pending { entity, request });
    }

    /// Asks that an entity be teleported.
    pub fn teleport(&mut self, id: EntityId, teleport: Teleport)
        ensures
            final(self)@ == old(self)@.teleporting(id, teleport),
    {
        self.outbox.teleports.push((id, teleport));
    }

    /// The entity that a handle resolves to.
    pub fn entity(&self, id: EntityId) -> (r: Option<&Entity>)
        ensures
            r is Some == self@.holds(id),
            r matches Some(e) ==> self@.at(id) == Some(e@),
    {
        self.entities.get(id)
    }

    /// The common half of another entity, to be changed. The server hears that
    /// it may have been.
    pub fn entity_mut(&mut self, id: EntityId) -> (r: Option<&mut EntityCore>)
        ensures
            r is Some == old(self)@.holds(id),
            r matches Some(core) ==> core@ == (old(self)@.at(id)->0).core && final(self)@ == old(
                self,
            )@.noting(id).with_core(id, final(core)@),
            r is None ==> final(self)@ == old(self)@,
    {
        match self.entities.get_mut(id) {
            Some(e) => {
                self.outbox.changed.push(id);
                Some(&mut e.core)
            }
            None => None,
        }
    }

    /// The class state of another entity, to be changed. The server hears that
    /// it may have been.
    pub fn behaviour_mut(&mut self, id: EntityId) -> (r: Option<&mut Behaviour>)
        ensures
            r is Some == old(self)@.holds(id),
            r matches Some(b) ==> b@ == (old(self)@.at(id)->0).behaviour && final(self)@ == old(
                self,
            )@.noting(id).with_behaviour(id, final(b)@),
            r is None ==> final(self)@ == old(self)@,
    {
        match self.entities.get_mut(id) {
            Some(e) => {
                self.outbox.changed.push(id);
                Some(&mut e.behaviour)
            }
            None => None,
        }
    }

    /// The server hears that an entity may have changed.
    pub fn note_changed(&mut self, id: EntityId)
        ensures
            final(self)@ == old(self)@.noting(id),
    {
        self.outbox.changed.push(id);
    }

    /// The first entity that a query names, in spawn order. Roles are not
    /// resolved.
    pub fn find_by_name(&self, query: &str) -> (r: Option<EntityId>)
        ensures
            r == self@.named(query@),
    {
        self.entities.find_by_name(query)
    }

    /// Every entity that a query names, in spawn order.
    pub fn find_all_by_name(&self, query: &str) -> (r: Vec<EntityId>)
        ensures
            r@ == found_all(self@.entities, Search::Named(query@)),
    {
        self.entities.find_all_by_name(query)
    }

    /// Every entity of a class, in spawn order.
    pub fn find_all_of_class(&self, classname: &str) -> (r: Vec<EntityId>)
        ensures
            r@ == found_all(self@.entities, Search::OfClass(classname@)),
    {
        self.entities.find_all_of_class(classname)
    }

    /// The entity that a query stands for: a role of the event, or the first
    /// of that name.
    pub fn find_target(
        &self,
        query: &str,
        searching: Option<EntityId>,
        activator: Option<EntityId>,
        caller: Option<EntityId>,
    ) -> (r: Option<EntityId>)
        ensures
            r == self@.targeted(query@, searching, activator, caller),
    {
        if !is_procedural(query) {
            self.find_by_name(query)
        } else if query.eq_ignore_ascii_case("!player") {
            self.player
        } else if query.eq_ignore_ascii_case("!activator") {
            activator
        } else if query.eq_ignore_ascii_case("!caller") {
            caller
        } else if query.eq_ignore_ascii_case("!self") {
            searching
        } else {
            None
        }
    }

    /// Gives an entity a parent, or takes its parent away.
    pub fn set_parent(&mut self, core: &mut EntityCore, parent: Option<EntityId>)
        ensures
            final(core)@ == old(core)@.child_of(parent, None),
            final(self)@ == old(self)@.parenting(old(core)@.id, parent, None),
    {
        self.set_parent_attachment(core, parent, None);
    }

    /// Gives an entity a parent, at one of the parent's attachment points.
    pub fn set_parent_attachment(
        &mut self,
        core: &mut EntityCore,
        parent: Option<EntityId>,
        attachment: Option<usize>,
    )
        ensures
            final(core)@ == old(core)@.child_of(parent, attachment),
            final(self)@ == old(self)@.parenting(old(core)@.id, parent, attachment),
    {
        core.place.parent = parent;
        core.place.attachment = attachment;
        self.outbox.reparented.push(core.id);
        if attachment.is_some() {
            self.outbox.attachments_used = true;
        }
        match parent {
            Some(parent) => self.outbox.changed.push(parent),
            None => {}
        }
    }

    /// Who may have changed, since this was last asked.
    pub fn take_changed(&mut self) -> (r: Vec<EntityId>)
        ensures
            r@ == old(self)@.outbox.changed,
            final(self)@ == old(self)@.with_outbox(OutboxView { changed: Seq::empty(), ..old(self)@.outbox }),
    {
        let mut out: Vec<EntityId> = Vec::new();
        out.append(&mut self.outbox.changed);
        assert(out@ =~= old(self)@.outbox.changed);
        assert(self@.outbox.changed =~= Seq::empty());
        out
    }

    /// Who was created, since this was last asked.
    pub fn take_created(&mut self) -> (r: Vec<EntityId>)
        ensures
            r@ == old(self)@.outbox.created,
            final(self)@ == old(self)@.with_outbox(OutboxView { created: Seq::empty(), ..old(self)@.outbox }),
    {
        let mut out: Vec<EntityId> = Vec::new();
        out.append(&mut self.outbox.created);
        assert(out@ =~= old(self)@.outbox.created);
        assert(self@.outbox.created =~= Seq::empty());
        out
    }

    /// The damage dealt, since this was last asked, in the order it was dealt.
    pub fn take_damage_queue(&mut self) -> (r: Vec<(EntityId, DamageInfo)>)
        ensures
            r@ == old(self)@.outbox.damage,
            final(self)@ == old(self)@.with_outbox(OutboxView { damage: Seq::empty(), ..old(self)@.outbox }),
    {
        let mut out: Vec<(EntityId, DamageInfo)> = Vec::new();
        out.append(&mut self.outbox.damage);
        assert(out@ =~= old(self)@.outbox.damage);
        assert(self@.outbox.damage =~= Seq::empty());
        out
    }

    /// The portals whose frames are to be cleared, since this was last asked.
    pub fn take_punch_queue(&mut self) -> (r: Vec<EntityId>)
        ensures
            r@ == old(self)@.outbox.punches,
            final(self)@ == old(self)@.with_outbox(OutboxView { punches: Seq::empty(), ..old(self)@.outbox }),
    {
        let mut out: Vec<EntityId> = Vec::new();
        out.append(&mut self.outbox.punches);
        assert(out@ =~= old(self)@.outbox.punches);
        assert(self@.outbox.punches =~= Seq::empty());
        out
    }

    /// The camera made the skybox's, since this was last asked.
    pub fn take_activated_skybox(&mut self) -> (r: Option<EntityId>)
        ensures
            r == old(self)@.outbox.activated_skybox,
            final(self)@ == old(self)@.with_outbox(OutboxView { activated_skybox: None, ..old(self)@.outbox }),
    {
        self.outbox.activated_skybox.take()
    }

    /// What was asked of physics bodies, since this was last asked.
    pub fn take_physics_queue(&mut self) -> (r: Vec<Pending>)
        ensures
            r@ == old(self)@.outbox.physics,
            final(self)@ == old(self)@.with_outbox(OutboxView { physics: Seq::empty(), ..old(self)@.outbox }),
    {
        let mut out: Vec<Pending> = Vec::new();
        out.append(&mut self.outbox.physics);
        assert(out@ =~= old(self)@.outbox.physics);
        assert(self@.outbox.physics =~= Seq::empty());
        out
    }

    /// Asks that the level start over.
    pub fn reload_level(&mut self)
        ensures
            final(self)@ == old(self)@.with_outbox(OutboxView { reload_level: true, ..old(self)@.outbox }),
    {
        self.outbox.reload_level = true;
    }

    /// Whether the level is to start over, since this was last asked.
    pub fn take_reload_level(&mut self) -> (r: bool)
        ensures
            r == old(self)@.outbox.reload_level,
            final(self)@ == old(self)@.with_outbox(OutboxView { reload_level: false, ..old(self)@.outbox }),
    {
        let asked = self.outbox.reload_level;
        self.outbox.reload_level = false;
        asked
    }

    /// Whether anything was hung on an attachment point.
    pub fn took_attachment(&self) -> (r: bool)
        ensures
            r == self@.outbox.attachments_used,
    {
        self.outbox.attachments_used
    }

    /// The player, while there is one.
    pub fn player(&self) -> (r: Option<EntityId>)
        ensures
            r == self@.living_player(),
    {
        match self.player {
            Some(id) => match self.entities.get(id) {
                Some(_) => Some(id),
                None => None,
            },
            None => None,
        }
    }

    pub fn curtime(&self) -> (r: Scalar)
        ensures
            r == self@.time.curtime,
    {
        self.time.curtime
    }
}

impl ContextView {
    pub open spec fn parenting(
        self,
        child: EntityId,
        parent: Option<EntityId>,
        attachment: Option<usize>,
    ) -> ContextView {
        self.with_outbox(
            OutboxView {
                reparented: self.outbox.reparented.push(child),
                attachments_used: self.outbox.attachments_used || attachment is Some,
                changed: match parent {
                    Some(id) => self.outbox.changed.push(id),
                    None => self.outbox.changed,
                },
                ..self.outbox
            },
        )
    }
}

} // verus!
