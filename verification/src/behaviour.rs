//! The classes' states, as one type.
use vstd::prelude::*;

use crate::class::PointEntity;
use crate::classes::branch::{Branch, BranchList, BranchListView, BranchView};
use crate::classes::brush::{AreaPortal, Brush};
use crate::classes::button::Button;
use crate::classes::case::{Case, CaseView, InstanceIoProxy};
use crate::classes::chamber_door::TestChamberDoor;
use crate::classes::cube::WeightedCube;
use crate::classes::door::Door;
use crate::classes::dynamic_prop::{DynamicProp, DynamicPropView};
use crate::classes::env::{TonemapController, TonemapSettings};
use crate::classes::filter::{
    BaseFilter, FilterClass, FilterDamageType, FilterModel, FilterMulti, FilterMultiView, FilterName,
    FilterPlayerHeld,
};
use crate::classes::floor_button::{ButtonTrigger, ButtonTriggerView, FloorButton};
use crate::classes::light::{EnvLight, EnvLightView, Lamp, Light, SunLamp};
use crate::classes::logic::{Auto, MathCounter, Relay, Timer};
use crate::classes::movelinear::MoveLinear;
use crate::classes::player::{LogicPlayerProxy, Player, RevertSaved};
use crate::classes::point::PointTeleport;
use crate::classes::portal::PropPortal;
use crate::classes::rotating::Rotating;
use crate::classes::tables::ClassKind;
use crate::classes::trigger_kinds::{
    TriggerHurt, TriggerHurtView, TriggerMultiple, TriggerMultipleView, TriggerPush, TriggerPushView,
    TriggerTeleport, TriggerTeleportView,
};
use crate::classes::world::World;
use crate::context::Placement;
use crate::entity::{CoreView, EntityCore};
use crate::io::Value;
use crate::scalar::{ZERO, num, origin};

verus! {

/// The state of an entity's class.
pub enum Behaviour {
    Logic(Logic),
    Mover(Mover),
    Trigger(Trigger),
    Filter(Filter),
    Prop(Prop),
    Actor(Actor),
    Fixture(Fixture),
}

/// [`Behaviour`], over mathematical texts and lists.
pub enum BehaviourView {
    Logic(LogicView),
    Mover(MoverView),
    Trigger(TriggerView),
    Filter(FilterView),
    Prop(PropView),
    Actor(ActorView),
    Fixture(FixtureView),
}

impl View for Behaviour {
    type V = BehaviourView;

    open spec fn view(&self) -> BehaviourView {
        match *self {
            Behaviour::Logic(s) => BehaviourView::Logic(s@),
            Behaviour::Mover(s) => BehaviourView::Mover(s@),
            Behaviour::Trigger(s) => BehaviourView::Trigger(s@),
            Behaviour::Filter(s) => BehaviourView::Filter(s@),
            Behaviour::Prop(s) => BehaviourView::Prop(s@),
            Behaviour::Actor(s) => BehaviourView::Actor(s@),
            Behaviour::Fixture(s) => BehaviourView::Fixture(s@),
        }
    }
}

/// Logic that moves nothing itself.
pub enum Logic {
    Relay(Relay),
    Auto(Auto),
    Timer(Timer),
    MathCounter(MathCounter),
    Branch(Branch),
    BranchList(BranchList),
    Case(Case),
    InstanceIoProxy(InstanceIoProxy),
}

/// [`Logic`], over mathematical texts and lists.
pub enum LogicView {
    Relay(Relay),
    Auto(Auto),
    Timer(Timer),
    MathCounter(MathCounter),
    Branch(BranchView),
    BranchList(BranchListView),
    Case(CaseView),
    InstanceIoProxy(InstanceIoProxy),
}

impl View for Logic {
    type V = LogicView;

    open spec fn view(&self) -> LogicView {
        logic_view(*self)
    }
}

#[verifier::opaque]
pub open spec fn logic_view(state: Logic) -> LogicView {
    match state {
        Logic::Relay(s) => LogicView::Relay(s),
        Logic::Auto(s) => LogicView::Auto(s),
        Logic::Timer(s) => LogicView::Timer(s),
        Logic::MathCounter(s) => LogicView::MathCounter(s),
        Logic::Branch(s) => LogicView::Branch(s@),
        Logic::BranchList(s) => LogicView::BranchList(s@),
        Logic::Case(s) => LogicView::Case(s@),
        Logic::InstanceIoProxy(s) => LogicView::InstanceIoProxy(s),
    }
}

/// What moves.
pub enum Mover {
    Door(Door),
    MoveLinear(MoveLinear),
    Button(Button),
    Rotating(Rotating),
}

/// [`Mover`], over mathematical texts and lists.
pub enum MoverView {
    Door(Door),
    MoveLinear(MoveLinear),
    Button(Button),
    Rotating(Rotating),
}

impl View for Mover {
    type V = MoverView;

    open spec fn view(&self) -> MoverView {
        mover_view(*self)
    }
}

#[verifier::opaque]
pub open spec fn mover_view(state: Mover) -> MoverView {
    match state {
        Mover::Door(s) => MoverView::Door(s),
        Mover::MoveLinear(s) => MoverView::MoveLinear(s),
        Mover::Button(s) => MoverView::Button(s),
        Mover::Rotating(s) => MoverView::Rotating(s),
    }
}

/// Volumes that notice who stands in them.
pub enum Trigger {
    TriggerMultiple(TriggerMultiple),
    TriggerHurt(TriggerHurt),
    TriggerPush(TriggerPush),
    TriggerTeleport(TriggerTeleport),
    ButtonTrigger(ButtonTrigger),
}

/// [`Trigger`], over mathematical texts and lists.
pub enum TriggerView {
    TriggerMultiple(TriggerMultipleView),
    TriggerHurt(TriggerHurtView),
    TriggerPush(TriggerPushView),
    TriggerTeleport(TriggerTeleportView),
    ButtonTrigger(ButtonTriggerView),
}

impl View for Trigger {
    type V = TriggerView;

    open spec fn view(&self) -> TriggerView {
        trigger_view(*self)
    }
}

#[verifier::opaque]
pub open spec fn trigger_view(state: Trigger) -> TriggerView {
    match state {
        Trigger::TriggerMultiple(s) => TriggerView::TriggerMultiple(s@),
        Trigger::TriggerHurt(s) => TriggerView::TriggerHurt(s@),
        Trigger::TriggerPush(s) => TriggerView::TriggerPush(s@),
        Trigger::TriggerTeleport(s) => TriggerView::TriggerTeleport(s@),
        Trigger::ButtonTrigger(s) => TriggerView::ButtonTrigger(s@),
    }
}

/// What decides whether an entity counts.
pub enum Filter {
    FilterName(FilterName),
    FilterClass(FilterClass),
    FilterModel(FilterModel),
    FilterDamageType(FilterDamageType),
    FilterPlayerHeld(FilterPlayerHeld),
    FilterMulti(FilterMulti),
}

/// [`Filter`], over mathematical texts and lists.
pub enum FilterView {
    FilterName(FilterName),
    FilterClass(FilterClass),
    FilterModel(FilterModel),
    FilterDamageType(FilterDamageType),
    FilterPlayerHeld(FilterPlayerHeld),
    FilterMulti(FilterMultiView),
}

impl View for Filter {
    type V = FilterView;

    open spec fn view(&self) -> FilterView {
        filter_view(*self)
    }
}

#[verifier::opaque]
pub open spec fn filter_view(state: Filter) -> FilterView {
    match state {
        Filter::FilterName(s) => FilterView::FilterName(s),
        Filter::FilterClass(s) => FilterView::FilterClass(s),
        Filter::FilterModel(s) => FilterView::FilterModel(s),
        Filter::FilterDamageType(s) => FilterView::FilterDamageType(s),
        Filter::FilterPlayerHeld(s) => FilterView::FilterPlayerHeld(s),
        Filter::FilterMulti(s) => FilterView::FilterMulti(s@),
    }
}

/// What is drawn as a model.
pub enum Prop {
    DynamicProp(DynamicProp),
    FloorButton(FloorButton),
    TestChamberDoor(TestChamberDoor),
    WeightedCube(WeightedCube),
    PropPortal(PropPortal),
}

/// [`Prop`], over mathematical texts and lists.
pub enum PropView {
    DynamicProp(DynamicPropView),
    FloorButton(FloorButton),
    TestChamberDoor(TestChamberDoor),
    WeightedCube(WeightedCube),
    PropPortal(PropPortal),
}

impl View for Prop {
    type V = PropView;

    open spec fn view(&self) -> PropView {
        prop_view(*self)
    }
}

#[verifier::opaque]
pub open spec fn prop_view(state: Prop) -> PropView {
    match state {
        Prop::DynamicProp(s) => PropView::DynamicProp(s@),
        Prop::FloorButton(s) => PropView::FloorButton(s),
        Prop::TestChamberDoor(s) => PropView::TestChamberDoor(s),
        Prop::WeightedCube(s) => PropView::WeightedCube(s),
        Prop::PropPortal(s) => PropView::PropPortal(s),
    }
}

/// The player, and what stands for it.
pub enum Actor {
    Player(Player),
    LogicPlayerProxy(LogicPlayerProxy),
    RevertSaved(RevertSaved),
}

/// [`Actor`], over mathematical texts and lists.
pub enum ActorView {
    Player(Player),
    LogicPlayerProxy(LogicPlayerProxy),
    RevertSaved(RevertSaved),
}

impl View for Actor {
    type V = ActorView;

    open spec fn view(&self) -> ActorView {
        actor_view(*self)
    }
}

#[verifier::opaque]
pub open spec fn actor_view(state: Actor) -> ActorView {
    match state {
        Actor::Player(s) => ActorView::Player(s),
        Actor::LogicPlayerProxy(s) => ActorView::LogicPlayerProxy(s),
        Actor::RevertSaved(s) => ActorView::RevertSaved(s),
    }
}

/// What stays where it is.
pub enum Fixture {
    PointEntity(PointEntity),
    PointTeleport(PointTeleport),
    Brush(Brush),
    AreaPortal(AreaPortal),
    Light(Light),
    EnvLight(EnvLight),
    TonemapController(TonemapController),
    World(World),
}

/// [`Fixture`], over mathematical texts and lists.
pub enum FixtureView {
    PointEntity(PointEntity),
    PointTeleport(PointTeleport),
    Brush(Brush),
    AreaPortal(AreaPortal),
    Light(Light),
    EnvLight(EnvLightView),
    TonemapController(TonemapController),
    World(World),
}

impl View for Fixture {
    type V = FixtureView;

    open spec fn view(&self) -> FixtureView {
        fixture_view(*self)
    }
}

#[verifier::opaque]
pub open spec fn fixture_view(state: Fixture) -> FixtureView {
    match state {
        Fixture::PointEntity(s) => FixtureView::PointEntity(s),
        Fixture::PointTeleport(s) => FixtureView::PointTeleport(s),
        Fixture::Brush(s) => FixtureView::Brush(s),
        Fixture::AreaPortal(s) => FixtureView::AreaPortal(s),
        Fixture::Light(s) => FixtureView::Light(s),
        Fixture::EnvLight(s) => FixtureView::EnvLight(s@),
        Fixture::TonemapController(s) => FixtureView::TonemapController(s),
        Fixture::World(s) => FixtureView::World(s),
    }
}

/// The state that an entity of a class starts with. `tonemap` is what the
/// renderer starts with.
pub open spec fn fresh_behaviour(kind: ClassKind, tonemap: TonemapSettings) -> BehaviourView {
    match kind {
        ClassKind::PointEntity => BehaviourView::Fixture(FixtureView::PointEntity(PointEntity)),
        ClassKind::Relay => BehaviourView::Logic(LogicView::Relay(Relay { disabled: false, wait_for_refire: false })),
        ClassKind::Auto => BehaviourView::Logic(LogicView::Auto(Auto { global_state: None })),
        ClassKind::Timer => BehaviourView::Logic(LogicView::Timer(Timer::fresh())),
        ClassKind::MathCounter => BehaviourView::Logic(LogicView::MathCounter(MathCounter::fresh())),
        ClassKind::Branch => BehaviourView::Logic(
            LogicView::Branch(BranchView { value: false, listeners: Seq::empty() }),
        ),
        ClassKind::BranchList => BehaviourView::Logic(LogicView::BranchList(BranchListView::fresh())),
        ClassKind::Case => BehaviourView::Logic(LogicView::Case(CaseView::fresh())),
        ClassKind::InstanceIoProxy => BehaviourView::Logic(LogicView::InstanceIoProxy(InstanceIoProxy)),
        ClassKind::Door => BehaviourView::Mover(MoverView::Door(Door::shut(false))),
        ClassKind::MoveLinear => BehaviourView::Mover(MoverView::MoveLinear(MoveLinear::fresh())),
        ClassKind::Button => BehaviourView::Mover(MoverView::Button(Button::fresh())),
        ClassKind::Rotating => BehaviourView::Mover(MoverView::Rotating(Rotating::fresh())),
        ClassKind::Brush => BehaviourView::Fixture(FixtureView::Brush(Brush::fresh())),
        ClassKind::AreaPortal => BehaviourView::Fixture(FixtureView::AreaPortal(AreaPortal::fresh())),
        ClassKind::Light => BehaviourView::Fixture(FixtureView::Light(Light { style: 0, pattern: None })),
        ClassKind::EnvLight => BehaviourView::Fixture(FixtureView::EnvLight(EnvLightView::fresh())),
        ClassKind::TonemapController => BehaviourView::Fixture(
            FixtureView::TonemapController(TonemapController { settings: tonemap }),
        ),
        ClassKind::TriggerMultiple => BehaviourView::Trigger(
            TriggerView::TriggerMultiple(TriggerMultipleView::fresh(false)),
        ),
        ClassKind::TriggerHurt => BehaviourView::Trigger(TriggerView::TriggerHurt(TriggerHurtView::fresh())),
        ClassKind::TriggerPush => BehaviourView::Trigger(TriggerView::TriggerPush(TriggerPushView::fresh())),
        ClassKind::TriggerTeleport => BehaviourView::Trigger(
            TriggerView::TriggerTeleport(TriggerTeleportView::fresh()),
        ),
        ClassKind::FilterName => BehaviourView::Filter(
            FilterView::FilterName(FilterName { base: BaseFilter { negated: false }, filter_name: None }),
        ),
        ClassKind::FilterClass => BehaviourView::Filter(
            FilterView::FilterClass(FilterClass { base: BaseFilter { negated: false }, filter_class: None }),
        ),
        ClassKind::FilterModel => BehaviourView::Filter(
            FilterView::FilterModel(FilterModel { base: BaseFilter { negated: false }, filter_model: None }),
        ),
        ClassKind::FilterDamageType => BehaviourView::Filter(
            FilterView::FilterDamageType(FilterDamageType { base: BaseFilter { negated: false }, damage_type: 0 }),
        ),
        ClassKind::FilterPlayerHeld => BehaviourView::Filter(
            FilterView::FilterPlayerHeld(FilterPlayerHeld { base: BaseFilter { negated: false } }),
        ),
        ClassKind::FilterMulti => BehaviourView::Filter(FilterView::FilterMulti(FilterMultiView::fresh())),
        ClassKind::PointTeleport => BehaviourView::Fixture(
            FixtureView::PointTeleport(PointTeleport { saved: Placement { origin: origin(), angles: origin() } }),
        ),
        ClassKind::Player => BehaviourView::Actor(ActorView::Player(Player::fresh())),
        ClassKind::LogicPlayerProxy => BehaviourView::Actor(ActorView::LogicPlayerProxy(LogicPlayerProxy)),
        ClassKind::RevertSaved => BehaviourView::Actor(
            ActorView::RevertSaved(RevertSaved { load_time: num(ZERO), duration: num(ZERO), hold_time: num(ZERO) }),
        ),
        ClassKind::DynamicProp => BehaviourView::Prop(PropView::DynamicProp(DynamicPropView::fresh())),
        ClassKind::FloorButton => BehaviourView::Prop(PropView::FloorButton(FloorButton::fresh())),
        ClassKind::ButtonTrigger => BehaviourView::Trigger(TriggerView::ButtonTrigger(ButtonTriggerView::fresh())),
        ClassKind::TestChamberDoor => BehaviourView::Prop(PropView::TestChamberDoor(TestChamberDoor::fresh())),
        ClassKind::WeightedCube => BehaviourView::Prop(PropView::WeightedCube(WeightedCube::fresh())),
        ClassKind::PropPortal => BehaviourView::Prop(PropView::PropPortal(PropPortal::fresh())),
        ClassKind::World => BehaviourView::Fixture(FixtureView::World(World::fresh())),
        ClassKind::RotatingDoor => BehaviourView::Mover(MoverView::Door(Door::shut(true))),
        ClassKind::TriggerOnce => BehaviourView::Trigger(
            TriggerView::TriggerMultiple(TriggerMultipleView::fresh(true)),
        ),
    }
}

impl BehaviourView {
    /// Whether the class is a filter.
    pub open spec fn filters(self) -> bool {
        self is Filter
    }

    /// Whether it is the player.
    pub open spec fn plays(self) -> bool {
        self matches BehaviourView::Actor(a) && a is Player
    }

    /// Whether it is a pad that is stood on.
    pub open spec fn is_pad(self) -> bool {
        self matches BehaviourView::Prop(p) && p is FloorButton
    }

    /// Whether lists that are to be of a length are.
    pub open spec fn wf(self) -> bool {
        match self {
            BehaviourView::Logic(LogicView::BranchList(s)) => s.wf(),
            BehaviourView::Logic(LogicView::Case(s)) => s.wf(),
            BehaviourView::Filter(FilterView::FilterMulti(s)) => s.wf(),
            _ => true,
        }
    }
}

/// A class state and its entity.
pub struct Subject<S> {
    pub state: S,
    pub core: CoreView,
}

impl LogicView {
    /// What a key does to an entity of a class, if the class reads it.
    #[verifier::opaque]
    pub open spec fn keyed(self, core: CoreView, key: Seq<char>, value: Value) -> Option<Subject<LogicView>> {
        match self {
            LogicView::Relay(s) => match s.keyed(key, value) {
                Some(n) => Some(Subject { state: LogicView::Relay(n), core }),
                None => None,
            },
            LogicView::Auto(s) => match s.keyed(key, value) {
                Some(n) => Some(Subject { state: LogicView::Auto(n), core }),
                None => None,
            },
            LogicView::Timer(s) => match s.keyed(key, value) {
                Some(n) => Some(Subject { state: LogicView::Timer(n), core }),
                None => None,
            },
            LogicView::MathCounter(s) => match s.keyed(key, value) {
                Some(n) => Some(Subject { state: LogicView::MathCounter(n), core }),
                None => None,
            },
            LogicView::Branch(s) => match s.keyed(key, value) {
                Some(n) => Some(Subject { state: LogicView::Branch(n), core }),
                None => None,
            },
            LogicView::BranchList(s) => match s.keyed(key, value) {
                Some(n) => Some(Subject { state: LogicView::BranchList(n), core }),
                None => None,
            },
            LogicView::Case(s) => match s.keyed(key, value) {
                Some(n) => Some(Subject { state: LogicView::Case(n), core }),
                None => None,
            },
            LogicView::InstanceIoProxy(s) => None,
        }
    }
}

impl MoverView {
    /// What a key does to an entity of a class, if the class reads it.
    #[verifier::opaque]
    pub open spec fn keyed(self, core: CoreView, key: Seq<char>, value: Value) -> Option<Subject<MoverView>> {
        match self {
            MoverView::Door(s) => match s.keyed(key, value) {
                Some(n) => Some(Subject { state: MoverView::Door(n), core }),
                None => None,
            },
            MoverView::MoveLinear(s) => match s.keyed(key, value) {
                Some(n) => Some(Subject { state: MoverView::MoveLinear(n), core }),
                None => None,
            },
            MoverView::Button(s) => match s.keyed(key, value) {
                Some(n) => Some(Subject { state: MoverView::Button(n), core }),
                None => None,
            },
            MoverView::Rotating(s) => match s.keyed(key, value) {
                Some(n) => Some(Subject { state: MoverView::Rotating(n), core }),
                None => None,
            },
        }
    }
}

impl TriggerView {
    /// What a key does to an entity of a class, if the class reads it.
    #[verifier::opaque]
    pub open spec fn keyed(self, core: CoreView, key: Seq<char>, value: Value) -> Option<Subject<TriggerView>> {
        match self {
            TriggerView::TriggerMultiple(s) => match s.keyed(key, value) {
                Some(n) => Some(Subject { state: TriggerView::TriggerMultiple(n), core }),
                None => None,
            },
            TriggerView::TriggerHurt(s) => match s.keyed(key, value) {
                Some(n) => Some(Subject { state: TriggerView::TriggerHurt(n), core }),
                None => None,
            },
            TriggerView::TriggerPush(s) => match s.keyed(key, value) {
                Some(n) => Some(Subject { state: TriggerView::TriggerPush(n), core }),
                None => None,
            },
            TriggerView::TriggerTeleport(s) => match s.keyed(key, value) {
                Some(n) => Some(Subject { state: TriggerView::TriggerTeleport(n), core }),
                None => None,
            },
            TriggerView::ButtonTrigger(s) => match s.keyed(key, value.text@) {
                Some(n) => Some(Subject { state: TriggerView::ButtonTrigger(n), core }),
                None => None,
            },
        }
    }
}

impl FilterView {
    /// What a key does to an entity of a class, if the class reads it.
    #[verifier::opaque]
    pub open spec fn keyed(self, core: CoreView, key: Seq<char>, value: Value) -> Option<Subject<FilterView>> {
        match self {
            FilterView::FilterName(s) => match s.keyed(key, value) {
                Some(n) => Some(Subject { state: FilterView::FilterName(n), core }),
                None => None,
            },
            FilterView::FilterClass(s) => match s.keyed(key, value) {
                Some(n) => Some(Subject { state: FilterView::FilterClass(n), core }),
                None => None,
            },
            FilterView::FilterModel(s) => match s.keyed(key, value) {
                Some(n) => Some(Subject { state: FilterView::FilterModel(n), core }),
                None => None,
            },
            FilterView::FilterDamageType(s) => match s.keyed(key, value) {
                Some(n) => Some(Subject { state: FilterView::FilterDamageType(n), core }),
                None => None,
            },
            FilterView::FilterPlayerHeld(s) => match s.keyed(key, value) {
                Some(n) => Some(Subject { state: FilterView::FilterPlayerHeld(n), core }),
                None => None,
            },
            FilterView::FilterMulti(s) => match s.keyed(key, value) {
                Some(n) => Some(Subject { state: FilterView::FilterMulti(n), core }),
                None => None,
            },
        }
    }
}

impl PropView {
    /// What a key does to an entity of a class, if the class reads it.
    #[verifier::opaque]
    pub open spec fn keyed(self, core: CoreView, key: Seq<char>, value: Value) -> Option<Subject<PropView>> {
        match self {
            PropView::DynamicProp(s) => match s.keyed(core, key, value) {
                Some(n) => Some(Subject { state: PropView::DynamicProp(n), core }),
                None => None,
            },
            PropView::FloorButton(s) => match s.keyed(key, value) {
                Some(n) => Some(Subject { state: PropView::FloorButton(n), core }),
                None => None,
            },
            PropView::TestChamberDoor(s) => match s.keyed(key, value) {
                Some(n) => Some(Subject { state: PropView::TestChamberDoor(n), core }),
                None => None,
            },
            PropView::WeightedCube(s) => match s.keyed(key, value) {
                Some(n) => Some(Subject { state: PropView::WeightedCube(n), core }),
                None => None,
            },
            PropView::PropPortal(s) => match s.keyed(key, value) {
                Some(n) => Some(Subject { state: PropView::PropPortal(n), core }),
                None => None,
            },
        }
    }
}

impl ActorView {
    /// What a key does to an entity of a class, if the class reads it.
    #[verifier::opaque]
    pub open spec fn keyed(self, core: CoreView, key: Seq<char>, value: Value) -> Option<Subject<ActorView>> {
        match self {
            ActorView::Player(s) => None,
            ActorView::LogicPlayerProxy(s) => None,
            ActorView::RevertSaved(s) => match s.keyed(key, value) {
                Some(n) => Some(Subject { state: ActorView::RevertSaved(n), core }),
                None => None,
            },
        }
    }
}

impl FixtureView {
    /// What a key does to an entity of a class, if the class reads it.
    #[verifier::opaque]
    pub open spec fn keyed(self, core: CoreView, key: Seq<char>, value: Value) -> Option<Subject<FixtureView>> {
        match self {
            FixtureView::PointEntity(s) => None,
            FixtureView::PointTeleport(s) => None,
            FixtureView::Brush(s) => match s.keyed(key, value) {
                Some(n) => Some(Subject { state: FixtureView::Brush(n), core }),
                None => None,
            },
            FixtureView::AreaPortal(s) => match s.keyed(key, value) {
                Some(n) => Some(Subject { state: FixtureView::AreaPortal(n), core }),
                None => None,
            },
            FixtureView::Light(s) => match (Lamp { me: s, core }).keyed(key, value) {
                Some(l) => Some(Subject { state: FixtureView::Light(l.me), core: l.core }),
                None => None,
            },
            FixtureView::EnvLight(s) => match (SunLamp { me: s, core }).keyed(key, value) {
                Some(l) => Some(Subject { state: FixtureView::EnvLight(l.me), core: l.core }),
                None => None,
            },
            FixtureView::TonemapController(s) => None,
            FixtureView::World(s) => match s.keyed(key, value) {
                Some(n) => Some(Subject { state: FixtureView::World(n), core }),
                None => None,
            },
        }
    }
}

impl BehaviourView {
    /// What a key does to an entity of a class, if the class reads it.
    #[verifier::opaque]
    pub open spec fn keyed(self, core: CoreView, key: Seq<char>, value: Value) -> Option<Subject<BehaviourView>> {
        match self {
            BehaviourView::Logic(state) => match state.keyed(core, key, value) {
                Some(n) => Some(Subject { state: BehaviourView::Logic(n.state), core: n.core }),
                None => None,
            },
            BehaviourView::Mover(state) => match state.keyed(core, key, value) {
                Some(n) => Some(Subject { state: BehaviourView::Mover(n.state), core: n.core }),
                None => None,
            },
            BehaviourView::Trigger(state) => match state.keyed(core, key, value) {
                Some(n) => Some(Subject { state: BehaviourView::Trigger(n.state), core: n.core }),
                None => None,
            },
            BehaviourView::Filter(state) => match state.keyed(core, key, value) {
                Some(n) => Some(Subject { state: BehaviourView::Filter(n.state), core: n.core }),
                None => None,
            },
            BehaviourView::Prop(state) => match state.keyed(core, key, value) {
                Some(n) => Some(Subject { state: BehaviourView::Prop(n.state), core: n.core }),
                None => None,
            },
            BehaviourView::Actor(state) => match state.keyed(core, key, value) {
                Some(n) => Some(Subject { state: BehaviourView::Actor(n.state), core: n.core }),
                None => None,
            },
            BehaviourView::Fixture(state) => match state.keyed(core, key, value) {
                Some(n) => Some(Subject { state: BehaviourView::Fixture(n.state), core: n.core }),
                None => None,
            },
        }
    }
}

impl Logic {
    /// Offers a key to the class. Whether it reads it.
    pub fn key_value(&mut self, entity: &mut EntityCore, key: &str, value: &Value) -> (r: bool)
        requires
            BehaviourView::Logic(old(self)@).wf(),
        ensures
            r == old(self)@.keyed(old(entity)@, key@, *value) is Some,
            (Subject { state: final(self)@, core: final(entity)@ }) == old(self)@.keyed(
                old(entity)@,
                key@,
                *value,
            ).unwrap_or(Subject { state: old(self)@, core: old(entity)@ }),
            BehaviourView::Logic(final(self)@).wf(),
    {
        reveal(logic_view);
        reveal(LogicView::keyed);
        match self {
            Logic::Relay(s) => s.key_value(key, value),
            Logic::Auto(s) => s.key_value(key, value),
            Logic::Timer(s) => s.key_value(key, value),
            Logic::MathCounter(s) => s.key_value(key, value),
            Logic::Branch(s) => s.key_value(key, value),
            Logic::BranchList(s) => s.key_value(key, value),
            Logic::Case(s) => s.key_value(key, value),
            _ => false,
        }
    }
}

impl Mover {
    /// Offers a key to the class. Whether it reads it.
    pub fn key_value(&mut self, entity: &mut EntityCore, key: &str, value: &Value) -> (r: bool)
        ensures
            r == old(self)@.keyed(old(entity)@, key@, *value) is Some,
            (Subject { state: final(self)@, core: final(entity)@ }) == old(self)@.keyed(
                old(entity)@,
                key@,
                *value,
            ).unwrap_or(Subject { state: old(self)@, core: old(entity)@ }),
    {
        reveal(mover_view);
        reveal(MoverView::keyed);
        match self {
            Mover::Door(s) => s.key_value(key, value),
            Mover::MoveLinear(s) => s.key_value(key, value),
            Mover::Button(s) => s.key_value(key, value),
            Mover::Rotating(s) => s.key_value(key, value),
        }
    }
}

impl Trigger {
    /// Offers a key to the class. Whether it reads it.
    pub fn key_value(&mut self, entity: &mut EntityCore, key: &str, value: &Value) -> (r: bool)
        ensures
            r == old(self)@.keyed(old(entity)@, key@, *value) is Some,
            (Subject { state: final(self)@, core: final(entity)@ }) == old(self)@.keyed(
                old(entity)@,
                key@,
                *value,
            ).unwrap_or(Subject { state: old(self)@, core: old(entity)@ }),
    {
        reveal(trigger_view);
        reveal(TriggerView::keyed);
        match self {
            Trigger::TriggerMultiple(s) => s.key_value(key, value),
            Trigger::TriggerHurt(s) => s.key_value(key, value),
            Trigger::TriggerPush(s) => s.key_value(key, value),
            Trigger::TriggerTeleport(s) => s.key_value(key, value),
            Trigger::ButtonTrigger(s) => s.key_value(key, value),
        }
    }
}

impl Filter {
    /// Offers a key to the class. Whether it reads it.
    pub fn key_value(&mut self, entity: &mut EntityCore, key: &str, value: &Value) -> (r: bool)
        requires
            BehaviourView::Filter(old(self)@).wf(),
        ensures
            r == old(self)@.keyed(old(entity)@, key@, *value) is Some,
            (Subject { state: final(self)@, core: final(entity)@ }) == old(self)@.keyed(
                old(entity)@,
                key@,
                *value,
            ).unwrap_or(Subject { state: old(self)@, core: old(entity)@ }),
            BehaviourView::Filter(final(self)@).wf(),
    {
        reveal(filter_view);
        reveal(FilterView::keyed);
        match self {
            Filter::FilterName(s) => s.key_value(key, value),
            Filter::FilterClass(s) => s.key_value(key, value),
            Filter::FilterModel(s) => s.key_value(key, value),
            Filter::FilterDamageType(s) => s.key_value(key, value),
            Filter::FilterPlayerHeld(s) => s.key_value(key, value),
            Filter::FilterMulti(s) => s.key_value(key, value),
        }
    }
}

impl Prop {
    /// Offers a key to the class. Whether it reads it.
    pub fn key_value(&mut self, entity: &mut EntityCore, key: &str, value: &Value) -> (r: bool)
        ensures
            r == old(self)@.keyed(old(entity)@, key@, *value) is Some,
            (Subject { state: final(self)@, core: final(entity)@ }) == old(self)@.keyed(
                old(entity)@,
                key@,
                *value,
            ).unwrap_or(Subject { state: old(self)@, core: old(entity)@ }),
    {
        reveal(prop_view);
        reveal(PropView::keyed);
        match self {
            Prop::DynamicProp(s) => s.key_value(entity, key, value),
            Prop::FloorButton(s) => s.key_value(key, value),
            Prop::TestChamberDoor(s) => s.key_value(key, value),
            Prop::WeightedCube(s) => s.key_value(key, value),
            Prop::PropPortal(s) => s.key_value(key, value),
        }
    }
}

impl Actor {
    /// Offers a key to the class. Whether it reads it.
    pub fn key_value(&mut self, entity: &mut EntityCore, key: &str, value: &Value) -> (r: bool)
        ensures
            r == old(self)@.keyed(old(entity)@, key@, *value) is Some,
            (Subject { state: final(self)@, core: final(entity)@ }) == old(self)@.keyed(
                old(entity)@,
                key@,
                *value,
            ).unwrap_or(Subject { state: old(self)@, core: old(entity)@ }),
    {
        reveal(actor_view);
        reveal(ActorView::keyed);
        match self {
            Actor::RevertSaved(s) => s.key_value(key, value),
            _ => false,
        }
    }
}

impl Fixture {
    /// Offers a key to the class. Whether it reads it.
    pub fn key_value(&mut self, entity: &mut EntityCore, key: &str, value: &Value) -> (r: bool)
        ensures
            r == old(self)@.keyed(old(entity)@, key@, *value) is Some,
            (Subject { state: final(self)@, core: final(entity)@ }) == old(self)@.keyed(
                old(entity)@,
                key@,
                *value,
            ).unwrap_or(Subject { state: old(self)@, core: old(entity)@ }),
    {
        reveal(fixture_view);
        reveal(FixtureView::keyed);
        match self {
            Fixture::Brush(s) => s.key_value(key, value),
            Fixture::AreaPortal(s) => s.key_value(key, value),
            Fixture::Light(s) => s.key_value(entity, key, value),
            Fixture::EnvLight(s) => s.key_value(entity, key, value),
            Fixture::World(s) => s.key_value(key, value),
            _ => false,
        }
    }
}

impl Behaviour {
    /// The state that an entity of a class starts with. `tonemap` is what the
    /// renderer starts with.
    pub fn create(kind: ClassKind, tonemap: TonemapSettings) -> (r: Behaviour)
        ensures
            r@ == fresh_behaviour(kind, tonemap),
            r@.wf(),
    {
        reveal(logic_view);
        reveal(mover_view);
        reveal(trigger_view);
        reveal(filter_view);
        reveal(prop_view);
        reveal(actor_view);
        reveal(fixture_view);
        match kind {
            ClassKind::PointEntity => Behaviour::Fixture(Fixture::PointEntity(PointEntity::create())),
            ClassKind::Relay => Behaviour::Logic(Logic::Relay(Relay::create())),
            ClassKind::Auto => Behaviour::Logic(Logic::Auto(Auto::create())),
            ClassKind::Timer => Behaviour::Logic(Logic::Timer(Timer::create())),
            ClassKind::MathCounter => Behaviour::Logic(Logic::MathCounter(MathCounter::create())),
            ClassKind::Branch => Behaviour::Logic(Logic::Branch(Branch::create())),
            ClassKind::BranchList => Behaviour::Logic(Logic::BranchList(BranchList::create())),
            ClassKind::Case => Behaviour::Logic(Logic::Case(Case::create())),
            ClassKind::InstanceIoProxy => Behaviour::Logic(Logic::InstanceIoProxy(InstanceIoProxy::create())),
            ClassKind::Door => Behaviour::Mover(Mover::Door(Door::create())),
            ClassKind::MoveLinear => Behaviour::Mover(Mover::MoveLinear(MoveLinear::create())),
            ClassKind::Button => Behaviour::Mover(Mover::Button(Button::create())),
            ClassKind::Rotating => Behaviour::Mover(Mover::Rotating(Rotating::create())),
            ClassKind::Brush => Behaviour::Fixture(Fixture::Brush(Brush::create())),
            ClassKind::AreaPortal => Behaviour::Fixture(Fixture::AreaPortal(AreaPortal::create())),
            ClassKind::Light => Behaviour::Fixture(Fixture::Light(Light::create())),
            ClassKind::EnvLight => Behaviour::Fixture(Fixture::EnvLight(EnvLight::create())),
            ClassKind::TonemapController => Behaviour::Fixture(
                Fixture::TonemapController(TonemapController::create(tonemap)),
            ),
            ClassKind::TriggerMultiple => Behaviour::Trigger(Trigger::TriggerMultiple(TriggerMultiple::create())),
            ClassKind::TriggerHurt => Behaviour::Trigger(Trigger::TriggerHurt(TriggerHurt::create())),
            ClassKind::TriggerPush => Behaviour::Trigger(Trigger::TriggerPush(TriggerPush::create())),
            ClassKind::TriggerTeleport => Behaviour::Trigger(Trigger::TriggerTeleport(TriggerTeleport::create())),
            ClassKind::FilterName => Behaviour::Filter(Filter::FilterName(FilterName::create())),
            ClassKind::FilterClass => Behaviour::Filter(Filter::FilterClass(FilterClass::create())),
            ClassKind::FilterModel => Behaviour::Filter(Filter::FilterModel(FilterModel::create())),
            ClassKind::FilterDamageType => Behaviour::Filter(Filter::FilterDamageType(FilterDamageType::create())),
            ClassKind::FilterPlayerHeld => Behaviour::Filter(Filter::FilterPlayerHeld(FilterPlayerHeld::create())),
            ClassKind::FilterMulti => Behaviour::Filter(Filter::FilterMulti(FilterMulti::create())),
            ClassKind::PointTeleport => Behaviour::Fixture(Fixture::PointTeleport(PointTeleport::create())),
            ClassKind::Player => Behaviour::Actor(Actor::Player(Player::create())),
            ClassKind::LogicPlayerProxy => Behaviour::Actor(Actor::LogicPlayerProxy(LogicPlayerProxy::create())),
            ClassKind::RevertSaved => Behaviour::Actor(Actor::RevertSaved(RevertSaved::create())),
            ClassKind::DynamicProp => Behaviour::Prop(Prop::DynamicProp(DynamicProp::create())),
            ClassKind::FloorButton => Behaviour::Prop(Prop::FloorButton(FloorButton::create())),
            ClassKind::ButtonTrigger => Behaviour::Trigger(Trigger::ButtonTrigger(ButtonTrigger::create())),
            ClassKind::TestChamberDoor => Behaviour::Prop(Prop::TestChamberDoor(TestChamberDoor::create())),
            ClassKind::WeightedCube => Behaviour::Prop(Prop::WeightedCube(WeightedCube::create())),
            ClassKind::PropPortal => Behaviour::Prop(Prop::PropPortal(PropPortal::create())),
            ClassKind::World => Behaviour::Fixture(Fixture::World(World::create())),
            ClassKind::RotatingDoor => Behaviour::Mover(Mover::Door(Door::create_rotating())),
            ClassKind::TriggerOnce => Behaviour::Trigger(Trigger::TriggerMultiple(TriggerMultiple::create_once())),
        }
    }

    /// Offers a key to the class. Whether it reads it.
    pub fn key_value(&mut self, entity: &mut EntityCore, key: &str, value: &Value) -> (r: bool)
        requires
            old(self)@.wf(),
        ensures
            r == old(self)@.keyed(old(entity)@, key@, *value) is Some,
            (Subject { state: final(self)@, core: final(entity)@ }) == old(self)@.keyed(
                old(entity)@,
                key@,
                *value,
            ).unwrap_or(Subject { state: old(self)@, core: old(entity)@ }),
            final(self)@.wf(),
    {
        reveal(BehaviourView::keyed);
        match self {
            Behaviour::Logic(s) => s.key_value(entity, key, value),
            Behaviour::Mover(s) => s.key_value(entity, key, value),
            Behaviour::Trigger(s) => s.key_value(entity, key, value),
            Behaviour::Filter(s) => s.key_value(entity, key, value),
            Behaviour::Prop(s) => s.key_value(entity, key, value),
            Behaviour::Actor(s) => s.key_value(entity, key, value),
            Behaviour::Fixture(s) => s.key_value(entity, key, value),
        }
    }

    /// Whether this is the player.
    pub fn is_player(&self) -> (r: bool)
        ensures
            r == self@.plays(),
    {
        reveal(actor_view);
        match self {
            Behaviour::Actor(Actor::Player(_)) => true,
            _ => false,
        }
    }

    /// Whether the class is a filter.
    pub fn is_filter(&self) -> (r: bool)
        ensures
            r == self@.filters(),
    {
        match self {
            Behaviour::Filter(_) => true,
            _ => false,
        }
    }
}

} // verus!
