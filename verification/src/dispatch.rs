//! Hands an input to whatever class an entity is of.
use vstd::prelude::*;

use crate::behaviour::{
    actor_view, filter_view, fixture_view, logic_view, mover_view, prop_view, trigger_view, Actor, ActorView, Behaviour,
    BehaviourView, Filter, FilterView, Fixture, FixtureView, Logic, LogicView, Mover, MoverView, Prop, PropView, Trigger,
    TriggerView,
};
use crate::classes::brush::Switch;
use crate::classes::chamber_door::DoorPlayFigures;
use crate::classes::dynamic_prop::PlayFigures;
use crate::classes::env::TonemapController;
use crate::classes::light::{Lamp, SunLamp};
use crate::classes::logic::{CounterFigures, TimerFigures};
use crate::classes::movelinear::SlideFigures;
use crate::classes::player::HealthFigures;
use crate::classes::portal::PortalNumbers;
use crate::classes::rotating::Rotating;
use crate::context::Context;
use crate::entity::{CoreView, EntityCore};
use crate::io::Input;
use crate::scalar::{Scalar, Vector};
use crate::step::{answered, step, Step};
use crate::text::same_name;

verus! {

/// What the arithmetic of an input comes to, for logic.
#[derive(Debug, Clone, Copy)]
pub struct LogicFigures {
    pub counter: CounterFigures,
    pub timer: TimerFigures,
    /// How long a relay waits before it may fire again.
    pub refire_delay: Scalar,
    /// A case drawn among those that there are to draw from.
    pub roll: usize,
}

/// What the arithmetic of an input comes to, for what moves.
#[derive(Debug, Clone, Copy)]
pub struct MoverFigures {
    pub slide: SlideFigures,
    /// The share of its largest speed that an input asks of a turning brush.
    pub scaled: Scalar,
    /// How far a turning brush is from the angle that it spawned with.
    pub offset: Scalar,
}

/// What the arithmetic of an input comes to, for props.
#[derive(Debug, Clone, Copy)]
pub struct PropFigures {
    pub play: PlayFigures,
    pub door: DoorPlayFigures,
    pub numbers: PortalNumbers,
}

/// What the arithmetic of an input comes to, for each class that has some.
#[derive(Debug, Clone, Copy)]
pub struct Figures {
    pub logic: LogicFigures,
    pub mover: MoverFigures,
    pub prop: PropFigures,
    /// The direction that an input gives a push, in its entity's own frame.
    pub direction: Vector,
    pub health: HealthFigures,
}

impl BehaviourView {
    /// Whether an input can be handed to the class: a counter can take it, a
    /// roll is among the cases, and a turning brush can aim at a new speed.
    pub open spec fn can_take(self, core: CoreView, input: Input, figures: Figures) -> bool {
        match self {
            BehaviourView::Logic(LogicView::MathCounter(s)) => s.can_take(input),
            BehaviourView::Logic(LogicView::Case(s)) => s.can_draw(core, input.name@, figures.logic.roll as int),
            BehaviourView::Mover(MoverView::Rotating(s)) => Rotating::aims(input.name@) ==> s.can_aim(core),
            _ => true,
        }
    }
}

impl Step<LogicView> {
    #[verifier::opaque]
    pub open spec fn logic_family_input(self, input: Input, figures: Figures) -> Option<Step<LogicView>> {
        match self.me {
            LogicView::Relay(s) => match step(s, self.core, self.cx).relay_input(input, figures.logic.refire_delay) {
                Some(n) => Some(step(LogicView::Relay(n.me), n.core, n.cx)),
                None => None,
            },
            LogicView::Auto(s) => None,
            LogicView::Timer(s) => match step(s, self.core, self.cx).timer_input(input, figures.logic.timer) {
                Some(n) => Some(step(LogicView::Timer(n.me), n.core, n.cx)),
                None => None,
            },
            LogicView::MathCounter(s) => match step(s, self.core, self.cx).math_counter_input(
                input,
                figures.logic.counter,
            ) {
                Some(n) => Some(step(LogicView::MathCounter(n.me), n.core, n.cx)),
                None => None,
            },
            LogicView::Branch(s) => match step(s, self.core, self.cx).branch_input(input) {
                Some(n) => Some(step(LogicView::Branch(n.me), n.core, n.cx)),
                None => None,
            },
            LogicView::BranchList(s) => match step(s, self.core, self.cx).branch_list_input(input) {
                Some(n) => Some(step(LogicView::BranchList(n.me), n.core, n.cx)),
                None => None,
            },
            LogicView::Case(s) => match step(s, self.core, self.cx).case_input(input, figures.logic.roll as int) {
                Some(n) => Some(step(LogicView::Case(n.me), n.core, n.cx)),
                None => None,
            },
            LogicView::InstanceIoProxy(s) => match step(s, self.core, self.cx).instance_io_proxy_input(input) {
                Some(n) => Some(step(LogicView::InstanceIoProxy(n.me), n.core, n.cx)),
                None => None,
            },
        }
    }
}

impl Logic {
    #[verifier::spinoff_prover]
    fn accept_input(
        &mut self,
        entity: &mut EntityCore,
        input: &Input<'_>,
        figures: &Figures,
        cx: &mut Context,
    ) -> (r: bool)
        requires
            BehaviourView::Logic(old(self)@).wf(),
            BehaviourView::Logic(old(self)@).can_take(old(entity)@, *input, *figures),
        ensures
            answered(
                step(old(self)@, old(entity)@, old(cx)@).logic_family_input(*input, *figures),
                step(old(self)@, old(entity)@, old(cx)@),
                r,
                step(final(self)@, final(entity)@, final(cx)@),
            ),
            BehaviourView::Logic(final(self)@).wf(),
    {
        reveal(logic_view);
        reveal(Step::<_>::logic_family_input);
        match self {
            Logic::Relay(s) => s.accept_input(entity, input, figures.logic.refire_delay, cx),
            Logic::Auto(_) => false,
            Logic::Timer(s) => s.accept_input(entity, input, &figures.logic.timer, cx),
            Logic::MathCounter(s) => s.accept_input(entity, input, &figures.logic.counter, cx),
            Logic::Branch(s) => s.accept_input(entity, input, cx),
            Logic::BranchList(s) => s.accept_input(entity, input, cx),
            Logic::Case(s) => s.accept_input(entity, input, figures.logic.roll, cx),
            Logic::InstanceIoProxy(s) => s.accept_input(entity, input, cx),
        }
    }
}

impl Step<MoverView> {
    #[verifier::opaque]
    pub open spec fn mover_family_input(self, input: Input, figures: Figures) -> Option<Step<MoverView>> {
        match self.me {
            MoverView::Door(s) => match step(s, self.core, self.cx).door_input(input) {
                Some(n) => Some(step(MoverView::Door(n.me), n.core, n.cx)),
                None => None,
            },
            MoverView::MoveLinear(s) => match step(s, self.core, self.cx).move_linear_input(
                input,
                figures.mover.slide,
            ) {
                Some(n) => Some(step(MoverView::MoveLinear(n.me), n.core, n.cx)),
                None => None,
            },
            MoverView::Button(s) => match step(s, self.core, self.cx).button_input(input) {
                Some(n) => Some(step(MoverView::Button(n.me), n.core, n.cx)),
                None => None,
            },
            MoverView::Rotating(s) => match step(s, self.core, self.cx).rotating_input(
                input,
                figures.mover.scaled,
                figures.mover.offset,
            ) {
                Some(n) => Some(step(MoverView::Rotating(n.me), n.core, n.cx)),
                None => None,
            },
        }
    }
}

impl Mover {
    #[verifier::spinoff_prover]
    fn accept_input(
        &mut self,
        entity: &mut EntityCore,
        input: &Input<'_>,
        figures: &Figures,
        cx: &mut Context,
    ) -> (r: bool)
        requires
            BehaviourView::Mover(old(self)@).wf(),
            BehaviourView::Mover(old(self)@).can_take(old(entity)@, *input, *figures),
        ensures
            answered(
                step(old(self)@, old(entity)@, old(cx)@).mover_family_input(*input, *figures),
                step(old(self)@, old(entity)@, old(cx)@),
                r,
                step(final(self)@, final(entity)@, final(cx)@),
            ),
            BehaviourView::Mover(final(self)@).wf(),
    {
        reveal(mover_view);
        reveal(Step::<_>::mover_family_input);
        match self {
            Mover::Door(s) => s.accept_input(entity, input, cx),
            Mover::MoveLinear(s) => s.accept_input(entity, input, &figures.mover.slide, cx),
            Mover::Button(s) => s.accept_input(entity, input, cx),
            Mover::Rotating(s) => s.accept_input(entity, input, figures.mover.scaled, figures.mover.offset, cx),
        }
    }
}

impl Step<TriggerView> {
    #[verifier::opaque]
    pub open spec fn trigger_family_input(self, input: Input, figures: Figures) -> Option<Step<TriggerView>> {
        match self.me {
            TriggerView::TriggerMultiple(s) => match step(s, self.core, self.cx).trigger_multiple_input(input) {
                Some(n) => Some(step(TriggerView::TriggerMultiple(n.me), n.core, n.cx)),
                None => None,
            },
            TriggerView::TriggerHurt(s) => match step(s, self.core, self.cx).trigger_hurt_input(input) {
                Some(n) => Some(step(TriggerView::TriggerHurt(n.me), n.core, n.cx)),
                None => None,
            },
            TriggerView::TriggerPush(s) => match step(s, self.core, self.cx).trigger_push_input(
                input,
                figures.direction,
            ) {
                Some(n) => Some(step(TriggerView::TriggerPush(n.me), n.core, n.cx)),
                None => None,
            },
            TriggerView::TriggerTeleport(s) => match step(s, self.core, self.cx).trigger_teleport_input(input) {
                Some(n) => Some(step(TriggerView::TriggerTeleport(n.me), n.core, n.cx)),
                None => None,
            },
            TriggerView::ButtonTrigger(s) => match step(s, self.core, self.cx).button_trigger_input(input) {
                Some(n) => Some(step(TriggerView::ButtonTrigger(n.me), n.core, n.cx)),
                None => None,
            },
        }
    }
}

impl Trigger {
    #[verifier::spinoff_prover]
    fn accept_input(
        &mut self,
        entity: &mut EntityCore,
        input: &Input<'_>,
        figures: &Figures,
        cx: &mut Context,
    ) -> (r: bool)
        requires
            BehaviourView::Trigger(old(self)@).wf(),
            BehaviourView::Trigger(old(self)@).can_take(old(entity)@, *input, *figures),
        ensures
            answered(
                step(old(self)@, old(entity)@, old(cx)@).trigger_family_input(*input, *figures),
                step(old(self)@, old(entity)@, old(cx)@),
                r,
                step(final(self)@, final(entity)@, final(cx)@),
            ),
            BehaviourView::Trigger(final(self)@).wf(),
    {
        reveal(trigger_view);
        reveal(Step::<_>::trigger_family_input);
        match self {
            Trigger::TriggerMultiple(s) => s.accept_input(entity, input, cx),
            Trigger::TriggerHurt(s) => s.accept_input(entity, input, cx),
            Trigger::TriggerPush(s) => s.accept_input(entity, input, figures.direction, cx),
            Trigger::TriggerTeleport(s) => s.accept_input(entity, input, cx),
            Trigger::ButtonTrigger(s) => s.accept_input(entity, input, cx),
        }
    }
}

impl Step<FilterView> {
    #[verifier::opaque]
    pub open spec fn filter_family_input(self, input: Input, figures: Figures) -> Option<Step<FilterView>> {
        match self.me {
            FilterView::FilterName(s) => match step(s, self.core, self.cx).filter_name_input(input) {
                Some(n) => Some(step(FilterView::FilterName(n.me), n.core, n.cx)),
                None => None,
            },
            FilterView::FilterClass(s) => match step(s, self.core, self.cx).filter_class_input(input) {
                Some(n) => Some(step(FilterView::FilterClass(n.me), n.core, n.cx)),
                None => None,
            },
            FilterView::FilterModel(s) => match step(s, self.core, self.cx).filter_model_input(input) {
                Some(n) => Some(step(FilterView::FilterModel(n.me), n.core, n.cx)),
                None => None,
            },
            FilterView::FilterDamageType(s) => match step(s, self.core, self.cx).filter_damage_type_input(input) {
                Some(n) => Some(step(FilterView::FilterDamageType(n.me), n.core, n.cx)),
                None => None,
            },
            FilterView::FilterPlayerHeld(s) => match step(s, self.core, self.cx).filter_player_held_input(input) {
                Some(n) => Some(step(FilterView::FilterPlayerHeld(n.me), n.core, n.cx)),
                None => None,
            },
            FilterView::FilterMulti(s) => match step(s, self.core, self.cx).filter_multi_input(input) {
                Some(n) => Some(step(FilterView::FilterMulti(n.me), n.core, n.cx)),
                None => None,
            },
        }
    }
}

impl Filter {
    #[verifier::spinoff_prover]
    fn accept_input(
        &mut self,
        entity: &mut EntityCore,
        input: &Input<'_>,
        figures: &Figures,
        cx: &mut Context,
    ) -> (r: bool)
        requires
            BehaviourView::Filter(old(self)@).wf(),
            BehaviourView::Filter(old(self)@).can_take(old(entity)@, *input, *figures),
        ensures
            answered(
                step(old(self)@, old(entity)@, old(cx)@).filter_family_input(*input, *figures),
                step(old(self)@, old(entity)@, old(cx)@),
                r,
                step(final(self)@, final(entity)@, final(cx)@),
            ),
            BehaviourView::Filter(final(self)@).wf(),
    {
        reveal(filter_view);
        reveal(Step::<_>::filter_family_input);
        match self {
            Filter::FilterName(s) => s.accept_input(entity, input, cx),
            Filter::FilterClass(s) => s.accept_input(entity, input, cx),
            Filter::FilterModel(s) => s.accept_input(entity, input, cx),
            Filter::FilterDamageType(s) => s.accept_input(entity, input, cx),
            Filter::FilterPlayerHeld(s) => s.accept_input(entity, input, cx),
            Filter::FilterMulti(s) => s.accept_input(entity, input, cx),
        }
    }
}

impl Step<PropView> {
    #[verifier::opaque]
    pub open spec fn prop_family_input(self, input: Input, figures: Figures) -> Option<Step<PropView>> {
        match self.me {
            PropView::DynamicProp(s) => match step(s, self.core, self.cx).dynamic_prop_input(
                input,
                figures.prop.play,
            ) {
                Some(n) => Some(step(PropView::DynamicProp(n.me), n.core, n.cx)),
                None => None,
            },
            PropView::FloorButton(s) => match step(s, self.core, self.cx).floor_button_input(input) {
                Some(n) => Some(step(PropView::FloorButton(n.me), n.core, n.cx)),
                None => None,
            },
            PropView::TestChamberDoor(s) => match step(s, self.core, self.cx).test_chamber_door_input(
                input,
                figures.prop.door,
            ) {
                Some(n) => Some(step(PropView::TestChamberDoor(n.me), n.core, n.cx)),
                None => None,
            },
            PropView::WeightedCube(s) => match step(s, self.core, self.cx).weighted_cube_input(input) {
                Some(n) => Some(step(PropView::WeightedCube(n.me), n.core, n.cx)),
                None => None,
            },
            PropView::PropPortal(s) => match step(s, self.core, self.cx).prop_portal_input(
                input,
                figures.prop.numbers,
            ) {
                Some(n) => Some(step(PropView::PropPortal(n.me), n.core, n.cx)),
                None => None,
            },
        }
    }
}

impl Prop {
    #[verifier::spinoff_prover]
    fn accept_input(
        &mut self,
        entity: &mut EntityCore,
        input: &Input<'_>,
        figures: &Figures,
        cx: &mut Context,
    ) -> (r: bool)
        requires
            BehaviourView::Prop(old(self)@).wf(),
            BehaviourView::Prop(old(self)@).can_take(old(entity)@, *input, *figures),
        ensures
            answered(
                step(old(self)@, old(entity)@, old(cx)@).prop_family_input(*input, *figures),
                step(old(self)@, old(entity)@, old(cx)@),
                r,
                step(final(self)@, final(entity)@, final(cx)@),
            ),
            BehaviourView::Prop(final(self)@).wf(),
    {
        reveal(prop_view);
        reveal(Step::<_>::prop_family_input);
        match self {
            Prop::DynamicProp(s) => s.accept_input(entity, input, &figures.prop.play, cx),
            Prop::FloorButton(s) => s.accept_input(entity, input, cx),
            Prop::TestChamberDoor(s) => s.accept_input(entity, input, &figures.prop.door, cx),
            Prop::WeightedCube(s) => s.accept_input(entity, input, cx),
            Prop::PropPortal(s) => s.accept_input(entity, input, &figures.prop.numbers, cx),
        }
    }
}

impl Step<ActorView> {
    #[verifier::opaque]
    pub open spec fn actor_family_input(self, input: Input, figures: Figures) -> Option<Step<ActorView>> {
        match self.me {
            ActorView::Player(s) => match step(s, self.core, self.cx).player_input(input, figures.health) {
                Some(n) => Some(step(ActorView::Player(n.me), n.core, n.cx)),
                None => None,
            },
            ActorView::LogicPlayerProxy(s) => None,
            ActorView::RevertSaved(s) => match step(s, self.core, self.cx).revert_saved_input(input) {
                Some(n) => Some(step(ActorView::RevertSaved(n.me), n.core, n.cx)),
                None => None,
            },
        }
    }
}

impl Actor {
    #[verifier::spinoff_prover]
    fn accept_input(
        &mut self,
        entity: &mut EntityCore,
        input: &Input<'_>,
        figures: &Figures,
        cx: &mut Context,
    ) -> (r: bool)
        requires
            BehaviourView::Actor(old(self)@).wf(),
            BehaviourView::Actor(old(self)@).can_take(old(entity)@, *input, *figures),
        ensures
            answered(
                step(old(self)@, old(entity)@, old(cx)@).actor_family_input(*input, *figures),
                step(old(self)@, old(entity)@, old(cx)@),
                r,
                step(final(self)@, final(entity)@, final(cx)@),
            ),
            BehaviourView::Actor(final(self)@).wf(),
    {
        reveal(actor_view);
        reveal(Step::<_>::actor_family_input);
        match self {
            Actor::Player(s) => s.accept_input(entity, input, &figures.health, cx),
            Actor::LogicPlayerProxy(_) => false,
            Actor::RevertSaved(s) => s.accept_input(entity, input, cx),
        }
    }
}

impl Step<FixtureView> {
    #[verifier::opaque]
    pub open spec fn fixture_family_input(self, input: Input, figures: Figures) -> Option<Step<FixtureView>> {
        match self.me {
            FixtureView::PointEntity(s) => None,
            FixtureView::PointTeleport(s) => match step(s, self.core, self.cx).point_teleport_input(input) {
                Some(n) => Some(step(FixtureView::PointTeleport(n.me), n.core, n.cx)),
                None => None,
            },
            FixtureView::Brush(s) => match (Switch { me: s, core: self.core }).input(input) {
                Some(n) => Some(step(FixtureView::Brush(n.me), n.core, self.cx)),
                None => None,
            },
            FixtureView::AreaPortal(s) => match s.input(input.name@) {
                Some(n) => Some(self.with(FixtureView::AreaPortal(n))),
                None => None,
            },
            FixtureView::Light(s) => match (Lamp { me: s, core: self.core }).input(input) {
                Some(n) => Some(step(FixtureView::Light(n.me), n.core, self.cx)),
                None => None,
            },
            FixtureView::EnvLight(s) => match (SunLamp { me: s, core: self.core }).input(input) {
                Some(n) => Some(step(FixtureView::EnvLight(n.me), n.core, self.cx)),
                None => None,
            },
            FixtureView::TonemapController(s) => match s.settings.input(input.name@, input.value.number()) {
                Some(settings) => Some(self.with(FixtureView::TonemapController(TonemapController { settings }))),
                None => None,
            },
            FixtureView::World(s) => None,
        }
    }
}

impl Fixture {
    #[verifier::spinoff_prover]
    fn accept_input(
        &mut self,
        entity: &mut EntityCore,
        input: &Input<'_>,
        figures: &Figures,
        cx: &mut Context,
    ) -> (r: bool)
        requires
            BehaviourView::Fixture(old(self)@).wf(),
            BehaviourView::Fixture(old(self)@).can_take(old(entity)@, *input, *figures),
        ensures
            answered(
                step(old(self)@, old(entity)@, old(cx)@).fixture_family_input(*input, *figures),
                step(old(self)@, old(entity)@, old(cx)@),
                r,
                step(final(self)@, final(entity)@, final(cx)@),
            ),
            BehaviourView::Fixture(final(self)@).wf(),
    {
        reveal(fixture_view);
        reveal(Step::<_>::fixture_family_input);
        match self {
            Fixture::PointEntity(_) => false,
            Fixture::PointTeleport(s) => s.accept_input(entity, input, cx),
            Fixture::Brush(s) => s.accept_input(entity, input),
            Fixture::AreaPortal(s) => s.accept_input(input),
            Fixture::Light(s) => s.accept_input(entity, input),
            Fixture::EnvLight(s) => s.accept_input(entity, input),
            Fixture::TonemapController(s) => s.accept_input(input),
            Fixture::World(_) => false,
        }
    }
}

impl Step<BehaviourView> {
    /// What an input does to an entity, if its class takes it.
    #[verifier::opaque]
    pub open spec fn class_input(self, input: Input, figures: Figures) -> Option<Step<BehaviourView>> {
        match self.me {
            BehaviourView::Logic(s) => match step(s, self.core, self.cx).logic_family_input(input, figures) {
                Some(n) => Some(step(BehaviourView::Logic(n.me), n.core, n.cx)),
                None => None,
            },
            BehaviourView::Mover(s) => match step(s, self.core, self.cx).mover_family_input(input, figures) {
                Some(n) => Some(step(BehaviourView::Mover(n.me), n.core, n.cx)),
                None => None,
            },
            BehaviourView::Trigger(s) => match step(s, self.core, self.cx).trigger_family_input(input, figures) {
                Some(n) => Some(step(BehaviourView::Trigger(n.me), n.core, n.cx)),
                None => None,
            },
            BehaviourView::Filter(s) => match step(s, self.core, self.cx).filter_family_input(input, figures) {
                Some(n) => Some(step(BehaviourView::Filter(n.me), n.core, n.cx)),
                None => None,
            },
            BehaviourView::Prop(s) => match step(s, self.core, self.cx).prop_family_input(input, figures) {
                Some(n) => Some(step(BehaviourView::Prop(n.me), n.core, n.cx)),
                None => None,
            },
            BehaviourView::Actor(s) => match step(s, self.core, self.cx).actor_family_input(input, figures) {
                Some(n) => Some(step(BehaviourView::Actor(n.me), n.core, n.cx)),
                None => None,
            },
            BehaviourView::Fixture(s) => match step(s, self.core, self.cx).fixture_family_input(input, figures) {
                Some(n) => Some(step(BehaviourView::Fixture(n.me), n.core, n.cx)),
                None => None,
            },
        }
    }
}

impl Behaviour {
    /// Whether an input can be handed to the class.
    pub fn takes(&self, entity: &EntityCore, input: &Input<'_>, figures: &Figures) -> (r: bool)
        ensures
            r == self@.can_take(entity@, *input, *figures),
    {
        reveal(logic_view);
        reveal(mover_view);
        match self {
            Behaviour::Logic(Logic::MathCounter(s)) => s.takes(input),
            Behaviour::Logic(Logic::Case(s)) => {
                let choices = s.draws_from(entity, input);
                choices == 0 || figures.logic.roll < choices
            },
            Behaviour::Mover(Mover::Rotating(s)) => s.takes(entity, input),
            _ => true,
        }
    }

    /// Hands an input to the class. Whether it takes it.
    #[verifier::spinoff_prover]
    pub fn accept_input(
        &mut self,
        entity: &mut EntityCore,
        input: &Input<'_>,
        figures: &Figures,
        cx: &mut Context,
    ) -> (r: bool)
        requires
            old(self)@.wf(),
            old(self)@.can_take(old(entity)@, *input, *figures),
        ensures
            answered(
                step(old(self)@, old(entity)@, old(cx)@).class_input(*input, *figures),
                step(old(self)@, old(entity)@, old(cx)@),
                r,
                step(final(self)@, final(entity)@, final(cx)@),
            ),
            final(self)@.wf(),
    {
        reveal(Step::<_>::class_input);
        match self {
            Behaviour::Logic(s) => s.accept_input(entity, input, figures, cx),
            Behaviour::Mover(s) => s.accept_input(entity, input, figures, cx),
            Behaviour::Trigger(s) => s.accept_input(entity, input, figures, cx),
            Behaviour::Filter(s) => s.accept_input(entity, input, figures, cx),
            Behaviour::Prop(s) => s.accept_input(entity, input, figures, cx),
            Behaviour::Actor(s) => s.accept_input(entity, input, figures, cx),
            Behaviour::Fixture(s) => s.accept_input(entity, input, figures, cx),
        }
    }
}

} // verus!
