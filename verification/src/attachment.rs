//! Attachment points: the named places on a model that another entity can
//! hang on, and what it takes to find where one is.
use vstd::prelude::*;

use crate::behaviour::{prop_view, Behaviour, BehaviourView, Prop, PropView};
use crate::context::{Context, ContextView};
use crate::entity::{CoreView, EntityCore, EntityId};
use crate::list::Entity;
use crate::scalar::{num, Scalar, Vector, ONE, ZERO};
use crate::text::same_name;

verus! {

// ---------------------------------------------------------------------------
// What a model is doing
// ---------------------------------------------------------------------------

/// What an entity's model is doing: the sequence that it plays, and where in
/// it the model was when somebody last wrote it down.
#[derive(Debug, Clone, Copy)]
pub struct ModelState<'a> {
    pub sequence: &'a str,
    pub cycle: Scalar,
    pub anim_time: Scalar,
    pub playback_rate: Scalar,
    pub skin: i32,
}

pub struct ModelStateView {
    pub sequence: Seq<char>,
    pub cycle: Scalar,
    pub anim_time: Scalar,
    pub playback_rate: Scalar,
    pub skin: i32,
}

impl<'a> View for ModelState<'a> {
    type V = ModelStateView;

    open spec fn view(&self) -> ModelStateView {
        ModelStateView {
            sequence: self.sequence@,
            cycle: self.cycle,
            anim_time: self.anim_time,
            playback_rate: self.playback_rate,
            skin: self.skin,
        }
    }
}

/// What a class's model is doing, if the class draws one that can do anything.
pub open spec fn model_of(behaviour: BehaviourView) -> Option<ModelStateView> {
    match behaviour {
        BehaviourView::Prop(PropView::DynamicProp(s)) => Some(
            ModelStateView {
                sequence: s.sequence,
                cycle: s.pose.cycle,
                anim_time: s.pose.anim_time,
                playback_rate: s.pose.playback_rate,
                skin: s.keys.skin,
            },
        ),
        BehaviourView::Prop(PropView::FloorButton(s)) => Some(
            ModelStateView {
                sequence: s.sequence.word(),
                cycle: num(ZERO),
                anim_time: s.anim_time,
                playback_rate: num(ONE),
                skin: s.skin,
            },
        ),
        BehaviourView::Prop(PropView::TestChamberDoor(s)) => Some(
            ModelStateView {
                sequence: "open"@,
                cycle: s.pose.cycle,
                anim_time: s.pose.anim_time,
                playback_rate: s.pose.playback_rate,
                skin: 0,
            },
        ),
        BehaviourView::Prop(PropView::WeightedCube(s)) => Some(
            ModelStateView {
                sequence: ""@,
                cycle: num(ZERO),
                anim_time: num(ZERO),
                playback_rate: num(ZERO),
                skin: s.skin,
            },
        ),
        _ => None,
    }
}

impl Behaviour {
    /// What the entity's model is doing, if the class draws one that can do
    /// anything.
    pub fn model_state(&self) -> (r: Option<ModelState<'_>>)
        ensures
            r is Some == model_of(self@) is Some,
            r matches Some(state) ==> model_of(self@) == Some(state@),
    {
        reveal(prop_view);
        match self {
            Behaviour::Prop(Prop::DynamicProp(s)) => Some(
                ModelState {
                    sequence: s.sequence.as_str(),
                    cycle: s.pose.cycle,
                    anim_time: s.pose.anim_time,
                    playback_rate: s.pose.playback_rate,
                    skin: s.keys.skin,
                },
            ),
            Behaviour::Prop(Prop::FloorButton(s)) => Some(
                ModelState {
                    sequence: s.sequence.label(),
                    cycle: num(ZERO),
                    anim_time: s.anim_time,
                    playback_rate: num(ONE),
                    skin: s.skin,
                },
            ),
            Behaviour::Prop(Prop::TestChamberDoor(s)) => Some(
                ModelState {
                    sequence: "open",
                    cycle: s.pose.cycle,
                    anim_time: s.pose.anim_time,
                    playback_rate: s.pose.playback_rate,
                    skin: 0,
                },
            ),
            Behaviour::Prop(Prop::WeightedCube(s)) => Some(
                ModelState {
                    sequence: "",
                    cycle: num(ZERO),
                    anim_time: num(ZERO),
                    playback_rate: num(ZERO),
                    skin: s.skin,
                },
            ),
            _ => None,
        }
    }
}

// ---------------------------------------------------------------------------
// Poses
// ---------------------------------------------------------------------------

/// Enough of an entity to find one of its attachment points: the model that it
/// wears and where in its animation it is.
#[derive(Debug, Clone, Copy)]
pub struct Posed<'a> {
    pub model: &'a str,
    pub sequence: &'a str,
    pub cycle: Scalar,
    pub anim_time: Scalar,
    pub playback_rate: Scalar,
    pub now: Scalar,
}

pub struct PosedView {
    pub model: Seq<char>,
    pub sequence: Seq<char>,
    pub cycle: Scalar,
    pub anim_time: Scalar,
    pub playback_rate: Scalar,
    pub now: Scalar,
}

impl<'a> View for Posed<'a> {
    type V = PosedView;

    open spec fn view(&self) -> PosedView {
        PosedView {
            model: self.model@,
            sequence: self.sequence@,
            cycle: self.cycle,
            anim_time: self.anim_time,
            playback_rate: self.playback_rate,
            now: self.now,
        }
    }
}

/// A frame on a model: where its axes point, and where it is.
#[derive(Debug, Clone, Copy, PartialEq, Eq, Structural)]
pub struct Transform {
    pub x_axis: Vector,
    pub y_axis: Vector,
    pub z_axis: Vector,
    pub translation: Vector,
}

/// The attachment points of every model that entities wear. Whoever loaded the
/// models answers.
pub trait Attachments {
    /// Which attachment point a name is on a model.
    fn lookup(&self, model: &str, name: &str) -> Option<usize>;

    /// Where an attachment point is, in the model's own frame.
    fn attachment_to_model(&self, posed: &Posed<'_>, attachment: usize) -> Option<Transform>;
}

/// Knows no models.
pub struct NoAttachments;

impl Attachments for NoAttachments {
    fn lookup(&self, model: &str, name: &str) -> (r: Option<usize>)
        ensures
            r is None,
    {
        None
    }

    fn attachment_to_model(&self, posed: &Posed<'_>, attachment: usize) -> (r: Option<Transform>)
        ensures
            r is None,
    {
        None
    }
}

impl<'a> Posed<'a> {
    /// Where an attachment point is, in the model's own frame: what whoever
    /// loaded the models answers for this pose.
    pub fn attachment_to_model<A: Attachments>(&self, attachment: usize, attachments: &A) -> (r: Option<Transform>)
        ensures
            call_ensures(A::attachment_to_model, (attachments, self, attachment), r),
    {
        attachments.attachment_to_model(self, attachment)
    }
}

/// A named place on a model, by its number.
#[derive(Debug)]
pub struct AttachmentEntry {
    pub model: String,
    pub name: String,
    pub index: usize,
}

/// The names of the attachment points of every model that has been loaded.
#[derive(Debug)]
pub struct AttachmentTable {
    pub entries: Vec<AttachmentEntry>,
}

/// The first entry at or after place `i` for a name on a model.
pub open spec fn attached(entries: Seq<AttachmentEntry>, model: Seq<char>, name: Seq<char>, i: int) -> Option<usize>
    decreases entries.len() - i,
{
    if 0 <= i < entries.len() {
        if same_name(entries[i].model@, model) && same_name(entries[i].name@, name) {
            Some(entries[i].index)
        } else {
            attached(entries, model, name, i + 1)
        }
    } else {
        None
    }
}

impl AttachmentTable {
    /// Which attachment point a name is on a model, however the two are cased.
    pub fn lookup(&self, model: &str, name: &str) -> (r: Option<usize>)
        ensures
            r == attached(self.entries@, model@, name@, 0),
    {
        let mut i: usize = 0;
        while i < self.entries.len()
            invariant
                i <= self.entries.len(),
                attached(self.entries@, model@, name@, 0) == attached(self.entries@, model@, name@, i as int),
            decreases self.entries.len() - i,
        {
            let entry = &self.entries[i];
            if entry.model.as_str().eq_ignore_ascii_case(model) && entry.name.as_str().eq_ignore_ascii_case(name) {
                return Some(entry.index);
            }
            i = i + 1;
        }
        None
    }
}

/// The names of the attachment points, and the time.
#[derive(Clone, Copy)]
pub struct Poser<'a> {
    pub attachments: Option<&'a AttachmentTable>,
    pub now: Scalar,
}

impl<'a> Poser<'a> {
    /// A poser that knows no models, at the start of time.
    pub fn none() -> (r: Poser<'a>)
        ensures
            r.attachments is None,
            r.now == num(ZERO),
    {
        Poser { attachments: None, now: num(ZERO) }
    }
}

/// Whether a model is a piece of the map itself.
pub open spec fn is_brush_model(model: Seq<char>) -> bool {
    model.len() > 0 && model[0] == '*'
}

fn brush_model(model: &str) -> (r: bool)
    ensures
        r == is_brush_model(model@),
{
    model.unicode_len() > 0 && model.get_char(0) == '*'
}

/// What an entity is wearing and how it is posed, if it wears a model that can
/// be posed at all.
pub open spec fn pose_of(core: CoreView, behaviour: BehaviourView, now: Scalar) -> Option<PosedView> {
    match (core.model, model_of(behaviour)) {
        (Some(model), Some(state)) => if is_brush_model(model) {
            None
        } else {
            Some(
                PosedView {
                    model,
                    sequence: state.sequence,
                    cycle: state.cycle,
                    anim_time: state.anim_time,
                    playback_rate: state.playback_rate,
                    now,
                },
            )
        },
        _ => None,
    }
}

fn pose<'a>(core: &'a EntityCore, behaviour: &'a Behaviour, now: Scalar) -> (r: Option<Posed<'a>>)
    ensures
        r is Some == pose_of(core@, behaviour@, now) is Some,
        r matches Some(p) ==> pose_of(core@, behaviour@, now) == Some(p@),
{
    let model = match &core.model {
        Some(model) => model.as_str(),
        None => {
            return None;
        }
    };
    if brush_model(model) {
        return None;
    }
    match behaviour.model_state() {
        Some(state) => Some(
            Posed {
                model,
                sequence: state.sequence,
                cycle: state.cycle,
                anim_time: state.anim_time,
                playback_rate: state.playback_rate,
                now,
            },
        ),
        None => None,
    }
}

/// What an entity is wearing and how it is posed, if it wears a model that can
/// be posed at all.
pub fn posed<'a>(entity: &'a Entity, poser: Poser<'_>) -> (r: Option<Posed<'a>>)
    ensures
        r is Some == pose_of(entity@.core, entity@.behaviour, poser.now) is Some,
        r matches Some(p) ==> pose_of(entity@.core, entity@.behaviour, poser.now) == Some(p@),
{
    pose(&entity.core, &entity.behaviour, poser.now)
}

/// A pose that owns its texts, so that it outlives the entity's borrow.
#[derive(Debug)]
pub struct PosedSnapshot {
    pub model: String,
    pub sequence: String,
    pub cycle: Scalar,
    pub anim_time: Scalar,
    pub playback_rate: Scalar,
    pub now: Scalar,
}

impl View for PosedSnapshot {
    type V = PosedView;

    open spec fn view(&self) -> PosedView {
        PosedView {
            model: self.model@,
            sequence: self.sequence@,
            cycle: self.cycle,
            anim_time: self.anim_time,
            playback_rate: self.playback_rate,
            now: self.now,
        }
    }
}

impl PosedSnapshot {
    /// The pose, where something hangs on the entity to read it.
    pub fn of(core: &EntityCore, behaviour: &Behaviour, poser: Poser<'_>) -> (r: Option<PosedSnapshot>)
        ensures
            r is Some == (core@.children.len() > 0 && pose_of(core@, behaviour@, poser.now) is Some),
            r matches Some(p) ==> pose_of(core@, behaviour@, poser.now) == Some(p@),
    {
        if core.children.is_empty() {
            return None;
        }
        match pose(core, behaviour, poser.now) {
            Some(p) => Some(
                PosedSnapshot {
                    model: p.model.to_owned(),
                    sequence: p.sequence.to_owned(),
                    cycle: p.cycle,
                    anim_time: p.anim_time,
                    playback_rate: p.playback_rate,
                    now: p.now,
                },
            ),
            None => None,
        }
    }

    pub fn as_posed(&self) -> (r: Posed<'_>)
        ensures
            r@ == self@,
    {
        Posed {
            model: self.model.as_str(),
            sequence: self.sequence.as_str(),
            cycle: self.cycle,
            anim_time: self.anim_time,
            playback_rate: self.playback_rate,
            now: self.now,
        }
    }
}

// ---------------------------------------------------------------------------
// Asked of the server
// ---------------------------------------------------------------------------

impl ContextView {
    /// Which attachment point a name is on what an entity wears.
    pub open spec fn attachment_on(self, id: EntityId, name: Seq<char>) -> Option<usize> {
        match self.at(id) {
            Some(e) => match pose_of(e.core, e.behaviour, self.time.curtime) {
                Some(p) => attached(self.tables.attachments.entries@, p.model, name, 0),
                None => None,
            },
            None => None,
        }
    }
}

impl Context {
    /// The names of the attachment points, and the time.
    pub fn poser(&self) -> (r: Poser<'_>)
        ensures
            r.attachments == Some(&self@.tables.attachments),
            r.now == self@.time.curtime,
    {
        Poser { attachments: Some(&self.tables.attachments), now: self.time.curtime }
    }

    /// Which attachment point a name is on what another entity wears.
    pub fn attachment(&self, entity: EntityId, name: &str) -> (r: Option<usize>)
        ensures
            r == self@.attachment_on(entity, name@),
    {
        match self.entity(entity) {
            Some(e) => match posed(e, self.poser()) {
                Some(p) => self.tables.attachments.lookup(p.model, name),
                None => None,
            },
            None => None,
        }
    }
}

// ---------------------------------------------------------------------------
// Laws
// ---------------------------------------------------------------------------

/// An entity without a model, or with a piece of the map for one, is not posed.
pub proof fn only_a_studio_model_is_posed(core: CoreView, behaviour: BehaviourView, now: Scalar)
    ensures
        core.model is None ==> pose_of(core, behaviour, now) is None,
        core.model matches Some(model) && is_brush_model(model) ==> pose_of(core, behaviour, now) is None,
        model_of(behaviour) is None ==> pose_of(core, behaviour, now) is None,
{
}

/// Until a model is loaded nothing can hang on it.
pub proof fn nothing_hangs_on_an_unloaded_model(cx: ContextView, id: EntityId, name: Seq<char>)
    requires
        cx.tables.attachments.entries@.len() == 0,
    ensures
        cx.attachment_on(id, name) is None,
{
}

} // verus!
