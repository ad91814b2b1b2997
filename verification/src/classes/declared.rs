//! What each class declares is what it understands.
use vstd::prelude::*;

use crate::behaviour::{
    fresh_behaviour, ActorView, BehaviourView, FilterView, FixtureView, LogicView, MoverView, PropView,
    TriggerView,
};
use crate::class::{class_of, fresh_entity, input_place, name_place};
use crate::classes::branch::{branch_slot, BranchListView, BranchView};
use crate::classes::brush::{AreaPortal, Brush, Switch};
use crate::classes::button::Button;
use crate::classes::case::{case_slot, relay_named, CaseView, InstanceIoProxy};
use crate::classes::chamber_door::{DoorPlayFigures, TestChamberDoor};
use crate::classes::cube::WeightedCube;
use crate::classes::door::Door;
use crate::classes::dynamic_prop::{DynamicPropView, PlayFigures};
use crate::classes::env::TonemapSettings;
use crate::classes::filter::{
    filter_slot, FilterClass, FilterDamageType, FilterModel, FilterMultiView, FilterName, FilterPlayerHeld,
};
use crate::classes::floor_button::{ButtonTriggerView, FloorButton};
use crate::classes::light::{Lamp, SunLamp};
use crate::classes::logic::{Auto, CounterFigures, MathCounter, Relay, Timer, TimerFigures};
use crate::classes::movelinear::{MoveLinear, SlideFigures};
use crate::classes::player::{HealthFigures, Player, RevertSaved};
use crate::classes::point::PointTeleport;
use crate::classes::portal::{PortalNumbers, PropPortal};
use crate::classes::rotating::Rotating;
use crate::classes::tables::{
    area_portal_inputs_spec, area_portal_keys_spec, auto_keys_spec, base_filter_keys_spec,
    base_trigger_inputs_spec, base_trigger_keys_spec, branch_inputs_spec, branch_keys_spec,
    branch_list_inputs_spec, branch_list_keys_spec, brush_inputs_spec, brush_keys_spec, button_inputs_spec,
    button_keys_spec, case_inputs_spec, case_keys_spec, class_list, declared_inputs, declared_keys,
    door_inputs_spec, door_keys_spec, dynamic_prop_inputs_spec, dynamic_prop_keys_spec, env_light_keys_spec,
    filter_class_keys_spec, filter_damage_type_keys_spec, filter_inputs_spec, filter_model_keys_spec,
    filter_multi_keys_spec, filter_name_keys_spec, floor_button_inputs_spec, floor_button_keys_spec,
    instance_io_proxy_inputs_spec, light_inputs_spec, light_keys_spec, math_counter_inputs_spec,
    math_counter_keys_spec, move_linear_inputs_spec, move_linear_keys_spec, player_inputs_spec,
    point_teleport_inputs_spec, prop_portal_inputs_spec, prop_portal_keys_spec, relay_inputs_spec,
    relay_keys_spec, revert_saved_inputs_spec, revert_saved_keys_spec, rotating_inputs_spec,
    rotating_keys_spec, test_chamber_door_inputs_spec, test_chamber_door_keys_spec, timer_inputs_spec,
    timer_keys_spec, tonemap_controller_inputs_spec, trigger_hurt_inputs_spec, trigger_hurt_keys_spec,
    trigger_multiple_keys_spec, trigger_push_inputs_spec, trigger_push_keys_spec,
    trigger_teleport_inputs_spec, trigger_teleport_keys_spec, weighted_cube_inputs_spec,
    weighted_cube_keys_spec, world_keys_spec, ClassKind,
};
use crate::classes::trigger_kinds::{
    TriggerHurtView, TriggerMultipleView, TriggerPushView, TriggerTeleportView,
};
use crate::classes::world::World;
use crate::context::ContextView;
use crate::dispatch::Figures;
use crate::entity::CoreView;
use crate::io::{Input, Value};
use crate::scalar::{Scalar, Vector};
use crate::step::{step, Step};
use crate::text::same_name;

verus! {

// ---------------------------------------------------------------------------
// Keys
// ---------------------------------------------------------------------------

proof fn relay_keys_agree(state: Relay, key: Seq<char>, value: Value)
    ensures
        state.keyed(key, value) is Some <==> name_place(relay_keys_spec(), key, 0) is Some,
{
    reveal(Relay::keyed);
    reveal_with_fuel(name_place, 3);
}

proof fn auto_keys_agree(state: Auto, key: Seq<char>, value: Value)
    ensures
        state.keyed(key, value) is Some <==> name_place(auto_keys_spec(), key, 0) is Some,
{
    reveal(Auto::keyed);
    reveal_with_fuel(name_place, 3);
}

proof fn timer_keys_agree(state: Timer, key: Seq<char>, value: Value)
    ensures
        state.keyed(key, value) is Some <==> name_place(timer_keys_spec(), key, 0) is Some,
{
    reveal(Timer::keyed);
    reveal_with_fuel(name_place, 7);
}

proof fn math_counter_keys_agree(state: MathCounter, key: Seq<char>, value: Value)
    ensures
        state.keyed(key, value) is Some <==> name_place(math_counter_keys_spec(), key, 0) is Some,
{
    reveal(MathCounter::keyed);
    reveal_with_fuel(name_place, 6);
}

proof fn branch_keys_agree(state: BranchView, key: Seq<char>, value: Value)
    ensures
        state.keyed(key, value) is Some <==> name_place(branch_keys_spec(), key, 0) is Some,
{
    reveal(BranchView::keyed);
    reveal_with_fuel(name_place, 3);
}

proof fn branch_list_keys_agree(state: BranchListView, key: Seq<char>, value: Value)
    ensures
        state.keyed(key, value) is Some <==> name_place(branch_list_keys_spec(), key, 0) is Some,
{
    reveal(BranchListView::keyed);
    reveal_with_fuel(branch_slot, 18);
    reveal_with_fuel(name_place, 18);
}

proof fn case_keys_agree(state: CaseView, key: Seq<char>, value: Value)
    ensures
        state.keyed(key, value) is Some <==> name_place(case_keys_spec(), key, 0) is Some,
{
    reveal(CaseView::keyed);
    reveal_with_fuel(case_slot, 18);
    reveal_with_fuel(name_place, 18);
}

proof fn door_keys_agree(state: Door, key: Seq<char>, value: Value)
    ensures
        state.keyed(key, value) is Some <==> name_place(door_keys_spec(), key, 0) is Some,
{
    reveal(Door::keyed);
    reveal_with_fuel(name_place, 20);
}

proof fn move_linear_keys_agree(state: MoveLinear, key: Seq<char>, value: Value)
    ensures
        state.keyed(key, value) is Some <==> name_place(move_linear_keys_spec(), key, 0) is Some,
{
    reveal(MoveLinear::keyed);
    reveal_with_fuel(name_place, 11);
}

proof fn button_keys_agree(state: Button, key: Seq<char>, value: Value)
    ensures
        state.keyed(key, value) is Some <==> name_place(button_keys_spec(), key, 0) is Some,
{
    reveal(Button::keyed);
    reveal_with_fuel(name_place, 12);
}

proof fn rotating_keys_agree(state: Rotating, key: Seq<char>, value: Value)
    ensures
        state.keyed(key, value) is Some <==> name_place(rotating_keys_spec(), key, 0) is Some,
{
    reveal(Rotating::keyed);
    reveal_with_fuel(name_place, 8);
}

proof fn brush_keys_agree(state: Brush, key: Seq<char>, value: Value)
    ensures
        state.keyed(key, value) is Some <==> name_place(brush_keys_spec(), key, 0) is Some,
{
    reveal(Brush::keyed);
    reveal_with_fuel(name_place, 7);
}

proof fn area_portal_keys_agree(state: AreaPortal, key: Seq<char>, value: Value)
    ensures
        state.keyed(key, value) is Some <==> name_place(area_portal_keys_spec(), key, 0) is Some,
{
    reveal(AreaPortal::keyed);
    reveal_with_fuel(name_place, 9);
}

proof fn light_keys_agree(state: Lamp, key: Seq<char>, value: Value)
    ensures
        state.keyed(key, value) is Some <==> name_place(light_keys_spec(), key, 0) is Some,
{
    reveal(Lamp::keyed);
    reveal_with_fuel(name_place, 5);
}

proof fn env_light_keys_agree(state: SunLamp, key: Seq<char>, value: Value)
    ensures
        state.keyed(key, value) is Some <==> name_place(env_light_keys_spec(), key, 0) is Some,
{
    reveal(SunLamp::keyed);
    reveal(Lamp::keyed);
    reveal_with_fuel(name_place, 7);
}

proof fn trigger_multiple_keys_agree(state: TriggerMultipleView, key: Seq<char>, value: Value)
    ensures
        !state.once ==> (state.keyed(key, value) is Some <==> name_place(trigger_multiple_keys_spec(), key, 0) is Some),
        state.once ==> (state.keyed(key, value) is Some <==> name_place(base_trigger_keys_spec(), key, 0) is Some),
{
    reveal(TriggerMultipleView::keyed);
    reveal_with_fuel(name_place, 5);
}

proof fn trigger_hurt_keys_agree(state: TriggerHurtView, key: Seq<char>, value: Value)
    ensures
        state.keyed(key, value) is Some <==> name_place(trigger_hurt_keys_spec(), key, 0) is Some,
{
    reveal(TriggerHurtView::keyed);
    reveal_with_fuel(name_place, 9);
}

proof fn trigger_push_keys_agree(state: TriggerPushView, key: Seq<char>, value: Value)
    ensures
        state.keyed(key, value) is Some <==> name_place(trigger_push_keys_spec(), key, 0) is Some,
{
    reveal(TriggerPushView::keyed);
    reveal_with_fuel(name_place, 6);
}

proof fn trigger_teleport_keys_agree(state: TriggerTeleportView, key: Seq<char>, value: Value)
    ensures
        state.keyed(key, value) is Some <==> name_place(trigger_teleport_keys_spec(), key, 0) is Some,
{
    reveal(TriggerTeleportView::keyed);
    reveal_with_fuel(name_place, 7);
}

proof fn filter_name_keys_agree(state: FilterName, key: Seq<char>, value: Value)
    ensures
        state.keyed(key, value) is Some <==> name_place(filter_name_keys_spec(), key, 0) is Some,
{
    reveal(FilterName::keyed);
    reveal_with_fuel(name_place, 4);
}

proof fn filter_class_keys_agree(state: FilterClass, key: Seq<char>, value: Value)
    ensures
        state.keyed(key, value) is Some <==> name_place(filter_class_keys_spec(), key, 0) is Some,
{
    reveal(FilterClass::keyed);
    reveal_with_fuel(name_place, 4);
}

proof fn filter_model_keys_agree(state: FilterModel, key: Seq<char>, value: Value)
    ensures
        state.keyed(key, value) is Some <==> name_place(filter_model_keys_spec(), key, 0) is Some,
{
    reveal(FilterModel::keyed);
    reveal_with_fuel(name_place, 4);
}

proof fn filter_damage_type_keys_agree(state: FilterDamageType, key: Seq<char>, value: Value)
    ensures
        state.keyed(key, value) is Some <==> name_place(filter_damage_type_keys_spec(), key, 0) is Some,
{
    reveal(FilterDamageType::keyed);
    reveal_with_fuel(name_place, 4);
}

proof fn filter_player_held_keys_agree(state: FilterPlayerHeld, key: Seq<char>, value: Value)
    ensures
        state.keyed(key, value) is Some <==> name_place(base_filter_keys_spec(), key, 0) is Some,
{
    reveal(FilterPlayerHeld::keyed);
    reveal_with_fuel(name_place, 3);
}

proof fn filter_multi_keys_agree(state: FilterMultiView, key: Seq<char>, value: Value)
    ensures
        state.keyed(key, value) is Some <==> name_place(filter_multi_keys_spec(), key, 0) is Some,
{
    reveal(FilterMultiView::keyed);
    reveal_with_fuel(filter_slot, 14);
    reveal_with_fuel(name_place, 14);
}

proof fn revert_saved_keys_agree(state: RevertSaved, key: Seq<char>, value: Value)
    ensures
        state.keyed(key, value) is Some <==> name_place(revert_saved_keys_spec(), key, 0) is Some,
{
    reveal(RevertSaved::keyed);
    reveal_with_fuel(name_place, 5);
}

proof fn dynamic_prop_keys_agree(state: DynamicPropView, core: CoreView, key: Seq<char>, value: Value)
    requires
        !same_name(key, "health"@),
    ensures
        state.keyed(core, key, value) is Some <==> name_place(dynamic_prop_keys_spec(), key, 0) is Some,
{
    reveal(DynamicPropView::keyed);
    reveal_with_fuel(name_place, 18);
}

proof fn floor_button_keys_agree(state: FloorButton, key: Seq<char>, value: Value)
    ensures
        state.keyed(key, value) is Some <==> name_place(floor_button_keys_spec(), key, 0) is Some,
{
    reveal(FloorButton::keyed);
    reveal_with_fuel(name_place, 3);
}

proof fn button_trigger_keys_agree(state: ButtonTriggerView, key: Seq<char>, value: Value)
    ensures
        state.keyed(key, value.text@) is Some <==> name_place(base_trigger_keys_spec(), key, 0) is Some,
{
    reveal(ButtonTriggerView::keyed);
    reveal_with_fuel(name_place, 4);
}

proof fn test_chamber_door_keys_agree(state: TestChamberDoor, key: Seq<char>, value: Value)
    ensures
        state.keyed(key, value) is Some <==> name_place(test_chamber_door_keys_spec(), key, 0) is Some,
{
    reveal(TestChamberDoor::keyed);
    reveal_with_fuel(name_place, 6);
}

proof fn weighted_cube_keys_agree(state: WeightedCube, key: Seq<char>, value: Value)
    ensures
        state.keyed(key, value) is Some <==> name_place(weighted_cube_keys_spec(), key, 0) is Some,
{
    reveal(WeightedCube::keyed);
    reveal_with_fuel(name_place, 8);
}

proof fn prop_portal_keys_agree(state: PropPortal, key: Seq<char>, value: Value)
    ensures
        state.keyed(key, value) is Some <==> name_place(prop_portal_keys_spec(), key, 0) is Some,
{
    reveal(PropPortal::keyed);
    reveal_with_fuel(name_place, 8);
}

proof fn world_keys_agree(state: World, key: Seq<char>, value: Value)
    ensures
        state.keyed(key, value) is Some <==> name_place(world_keys_spec(), key, 0) is Some,
{
    reveal(World::keyed);
    reveal_with_fuel(name_place, 8);
}

/// Whether a state is one of a class.
pub open spec fn of_kind(behaviour: BehaviourView, kind: ClassKind) -> bool {
    match kind {
        ClassKind::PointEntity => behaviour matches BehaviourView::Fixture(FixtureView::PointEntity(s)),
        ClassKind::Relay => behaviour matches BehaviourView::Logic(LogicView::Relay(s)),
        ClassKind::Auto => behaviour matches BehaviourView::Logic(LogicView::Auto(s)),
        ClassKind::Timer => behaviour matches BehaviourView::Logic(LogicView::Timer(s)),
        ClassKind::MathCounter => behaviour matches BehaviourView::Logic(LogicView::MathCounter(s)),
        ClassKind::Branch => behaviour matches BehaviourView::Logic(LogicView::Branch(s)),
        ClassKind::BranchList => behaviour matches BehaviourView::Logic(LogicView::BranchList(s)),
        ClassKind::Case => behaviour matches BehaviourView::Logic(LogicView::Case(s)),
        ClassKind::InstanceIoProxy => behaviour matches BehaviourView::Logic(LogicView::InstanceIoProxy(s)),
        ClassKind::Door => behaviour matches BehaviourView::Mover(MoverView::Door(s)),
        ClassKind::RotatingDoor => behaviour matches BehaviourView::Mover(MoverView::Door(s)),
        ClassKind::MoveLinear => behaviour matches BehaviourView::Mover(MoverView::MoveLinear(s)),
        ClassKind::Button => behaviour matches BehaviourView::Mover(MoverView::Button(s)),
        ClassKind::Rotating => behaviour matches BehaviourView::Mover(MoverView::Rotating(s)),
        ClassKind::Brush => behaviour matches BehaviourView::Fixture(FixtureView::Brush(s)),
        ClassKind::AreaPortal => behaviour matches BehaviourView::Fixture(FixtureView::AreaPortal(s)),
        ClassKind::Light => behaviour matches BehaviourView::Fixture(FixtureView::Light(s)),
        ClassKind::EnvLight => behaviour matches BehaviourView::Fixture(FixtureView::EnvLight(s)),
        ClassKind::TonemapController => behaviour matches BehaviourView::Fixture(FixtureView::TonemapController(s)),
        ClassKind::TriggerMultiple => behaviour matches BehaviourView::Trigger(TriggerView::TriggerMultiple(s)) && !s.once,
        ClassKind::TriggerOnce => behaviour matches BehaviourView::Trigger(TriggerView::TriggerMultiple(s)) && s.once,
        ClassKind::TriggerHurt => behaviour matches BehaviourView::Trigger(TriggerView::TriggerHurt(s)),
        ClassKind::TriggerPush => behaviour matches BehaviourView::Trigger(TriggerView::TriggerPush(s)),
        ClassKind::TriggerTeleport => behaviour matches BehaviourView::Trigger(TriggerView::TriggerTeleport(s)),
        ClassKind::FilterName => behaviour matches BehaviourView::Filter(FilterView::FilterName(s)),
        ClassKind::FilterClass => behaviour matches BehaviourView::Filter(FilterView::FilterClass(s)),
        ClassKind::FilterModel => behaviour matches BehaviourView::Filter(FilterView::FilterModel(s)),
        ClassKind::FilterDamageType => behaviour matches BehaviourView::Filter(FilterView::FilterDamageType(s)),
        ClassKind::FilterPlayerHeld => behaviour matches BehaviourView::Filter(FilterView::FilterPlayerHeld(s)),
        ClassKind::FilterMulti => behaviour matches BehaviourView::Filter(FilterView::FilterMulti(s)),
        ClassKind::PointTeleport => behaviour matches BehaviourView::Fixture(FixtureView::PointTeleport(s)),
        ClassKind::Player => behaviour matches BehaviourView::Actor(ActorView::Player(s)),
        ClassKind::LogicPlayerProxy => behaviour matches BehaviourView::Actor(ActorView::LogicPlayerProxy(s)),
        ClassKind::RevertSaved => behaviour matches BehaviourView::Actor(ActorView::RevertSaved(s)),
        ClassKind::DynamicProp => behaviour matches BehaviourView::Prop(PropView::DynamicProp(s)),
        ClassKind::FloorButton => behaviour matches BehaviourView::Prop(PropView::FloorButton(s)),
        ClassKind::ButtonTrigger => behaviour matches BehaviourView::Trigger(TriggerView::ButtonTrigger(s)),
        ClassKind::TestChamberDoor => behaviour matches BehaviourView::Prop(PropView::TestChamberDoor(s)),
        ClassKind::WeightedCube => behaviour matches BehaviourView::Prop(PropView::WeightedCube(s)),
        ClassKind::PropPortal => behaviour matches BehaviourView::Prop(PropView::PropPortal(s)),
        ClassKind::World => behaviour matches BehaviourView::Fixture(FixtureView::World(s)),
    }
}

/// A fresh state is one of its class.
pub proof fn a_fresh_state_is_of_its_class(kind: ClassKind, tonemap: TonemapSettings)
    ensures
        of_kind(fresh_behaviour(kind, tonemap), kind),
{
}

proof fn logic_keys_agree(state: LogicView, kind: ClassKind, core: CoreView, key: Seq<char>, value: Value)
    requires
        of_kind(BehaviourView::Logic(state), kind),
    ensures
        state.keyed(core, key, value) is Some <==> name_place(declared_keys(kind), key, 0) is Some,
{
    reveal(LogicView::keyed);
    match state {
        LogicView::Relay(s) => relay_keys_agree(s, key, value),
        LogicView::Auto(s) => auto_keys_agree(s, key, value),
        LogicView::Timer(s) => timer_keys_agree(s, key, value),
        LogicView::MathCounter(s) => math_counter_keys_agree(s, key, value),
        LogicView::Branch(s) => branch_keys_agree(s, key, value),
        LogicView::BranchList(s) => branch_list_keys_agree(s, key, value),
        LogicView::Case(s) => case_keys_agree(s, key, value),
        LogicView::InstanceIoProxy(_) => {},
    }
}

proof fn mover_keys_agree(state: MoverView, kind: ClassKind, core: CoreView, key: Seq<char>, value: Value)
    requires
        of_kind(BehaviourView::Mover(state), kind),
    ensures
        state.keyed(core, key, value) is Some <==> name_place(declared_keys(kind), key, 0) is Some,
{
    reveal(MoverView::keyed);
    match state {
        MoverView::Door(s) => door_keys_agree(s, key, value),
        MoverView::MoveLinear(s) => move_linear_keys_agree(s, key, value),
        MoverView::Button(s) => button_keys_agree(s, key, value),
        MoverView::Rotating(s) => rotating_keys_agree(s, key, value),
    }
}

proof fn trigger_keys_agree(state: TriggerView, kind: ClassKind, core: CoreView, key: Seq<char>, value: Value)
    requires
        of_kind(BehaviourView::Trigger(state), kind),
    ensures
        state.keyed(core, key, value) is Some <==> name_place(declared_keys(kind), key, 0) is Some,
{
    reveal(TriggerView::keyed);
    match state {
        TriggerView::TriggerMultiple(s) => trigger_multiple_keys_agree(s, key, value),
        TriggerView::TriggerHurt(s) => trigger_hurt_keys_agree(s, key, value),
        TriggerView::TriggerPush(s) => trigger_push_keys_agree(s, key, value),
        TriggerView::TriggerTeleport(s) => trigger_teleport_keys_agree(s, key, value),
        TriggerView::ButtonTrigger(s) => button_trigger_keys_agree(s, key, value),
    }
}

proof fn filter_keys_agree(state: FilterView, kind: ClassKind, core: CoreView, key: Seq<char>, value: Value)
    requires
        of_kind(BehaviourView::Filter(state), kind),
    ensures
        state.keyed(core, key, value) is Some <==> name_place(declared_keys(kind), key, 0) is Some,
{
    reveal(FilterView::keyed);
    match state {
        FilterView::FilterName(s) => filter_name_keys_agree(s, key, value),
        FilterView::FilterClass(s) => filter_class_keys_agree(s, key, value),
        FilterView::FilterModel(s) => filter_model_keys_agree(s, key, value),
        FilterView::FilterDamageType(s) => filter_damage_type_keys_agree(s, key, value),
        FilterView::FilterPlayerHeld(s) => filter_player_held_keys_agree(s, key, value),
        FilterView::FilterMulti(s) => filter_multi_keys_agree(s, key, value),
    }
}

proof fn prop_keys_agree(state: PropView, kind: ClassKind, core: CoreView, key: Seq<char>, value: Value)
    requires
        of_kind(BehaviourView::Prop(state), kind),
        kind == ClassKind::DynamicProp ==> !same_name(key, "health"@),
    ensures
        state.keyed(core, key, value) is Some <==> name_place(declared_keys(kind), key, 0) is Some,
{
    reveal(PropView::keyed);
    match state {
        PropView::DynamicProp(s) => dynamic_prop_keys_agree(s, core, key, value),
        PropView::FloorButton(s) => floor_button_keys_agree(s, key, value),
        PropView::TestChamberDoor(s) => test_chamber_door_keys_agree(s, key, value),
        PropView::WeightedCube(s) => weighted_cube_keys_agree(s, key, value),
        PropView::PropPortal(s) => prop_portal_keys_agree(s, key, value),
    }
}

proof fn actor_keys_agree(state: ActorView, kind: ClassKind, core: CoreView, key: Seq<char>, value: Value)
    requires
        of_kind(BehaviourView::Actor(state), kind),
    ensures
        state.keyed(core, key, value) is Some <==> name_place(declared_keys(kind), key, 0) is Some,
{
    reveal(ActorView::keyed);
    match state {
        ActorView::Player(_) => {},
        ActorView::LogicPlayerProxy(_) => {},
        ActorView::RevertSaved(s) => revert_saved_keys_agree(s, key, value),
    }
}

proof fn fixture_keys_agree(state: FixtureView, kind: ClassKind, core: CoreView, key: Seq<char>, value: Value)
    requires
        of_kind(BehaviourView::Fixture(state), kind),
    ensures
        state.keyed(core, key, value) is Some <==> name_place(declared_keys(kind), key, 0) is Some,
{
    reveal(FixtureView::keyed);
    match state {
        FixtureView::PointEntity(_) => {},
        FixtureView::PointTeleport(_) => {},
        FixtureView::Brush(s) => brush_keys_agree(s, key, value),
        FixtureView::AreaPortal(s) => area_portal_keys_agree(s, key, value),
        FixtureView::Light(s) => light_keys_agree(Lamp { me: s, core }, key, value),
        FixtureView::EnvLight(s) => env_light_keys_agree(SunLamp { me: s, core }, key, value),
        FixtureView::TonemapController(_) => {},
        FixtureView::World(s) => world_keys_agree(s, key, value),
    }
}

/// Every key that a class declares is read by it, and it reads no other,
/// whatever state it is in. Health is the exception: a prop takes it in and
/// drops it.
pub proof fn keys_read_are_those_declared(
    behaviour: BehaviourView,
    kind: ClassKind,
    core: CoreView,
    key: Seq<char>,
    value: Value,
)
    requires
        of_kind(behaviour, kind),
        kind == ClassKind::DynamicProp ==> !same_name(key, "health"@),
    ensures
        behaviour.keyed(core, key, value) is Some <==> name_place(declared_keys(kind), key, 0) is Some,
{
    reveal(BehaviourView::keyed);
    match behaviour {
        BehaviourView::Logic(s) => logic_keys_agree(s, kind, core, key, value),
        BehaviourView::Mover(s) => mover_keys_agree(s, kind, core, key, value),
        BehaviourView::Trigger(s) => trigger_keys_agree(s, kind, core, key, value),
        BehaviourView::Filter(s) => filter_keys_agree(s, kind, core, key, value),
        BehaviourView::Prop(s) => prop_keys_agree(s, kind, core, key, value),
        BehaviourView::Actor(s) => actor_keys_agree(s, kind, core, key, value),
        BehaviourView::Fixture(s) => fixture_keys_agree(s, kind, core, key, value),
    }
}

// ---------------------------------------------------------------------------
// Inputs
// ---------------------------------------------------------------------------

/// A relay takes the inputs that it declares and no other.
pub proof fn relay_inputs_agree(state: Step<Relay>, input: Input, refire_delay: Scalar)
    ensures
        state.relay_input(input, refire_delay) is Some <==> input_place(relay_inputs_spec(), input.name@, 0) is Some,
{
    reveal(Step::<_>::relay_input);
    reveal_with_fuel(input_place, 8);
}

/// A timer takes the inputs that it declares and no other.
pub proof fn timer_inputs_agree(state: Step<Timer>, input: Input, figures: TimerFigures)
    ensures
        state.timer_input(input, figures) is Some <==> input_place(timer_inputs_spec(), input.name@, 0) is Some,
{
    reveal(Step::<_>::timer_input);
    reveal_with_fuel(input_place, 13);
}

/// A counter takes the inputs that it declares and no other.
pub proof fn math_counter_inputs_agree(state: Step<MathCounter>, input: Input, figures: CounterFigures)
    ensures
        state.math_counter_input(input, figures) is Some <==> input_place(math_counter_inputs_spec(), input.name@, 0) is Some,
{
    reveal(Step::<_>::math_counter_input);
    reveal_with_fuel(input_place, 15);
}

/// A branch takes the inputs that it declares and no other.
pub proof fn branch_inputs_agree(state: Step<BranchView>, input: Input)
    ensures
        state.branch_input(input) is Some <==> input_place(branch_inputs_spec(), input.name@, 0) is Some,
{
    reveal(Step::<_>::branch_input);
    reveal_with_fuel(input_place, 7);
}

/// A list of branches takes the inputs that it declares and no other.
pub proof fn branch_list_inputs_agree(state: Step<BranchListView>, input: Input)
    ensures
        state.branch_list_input(input) is Some <==> input_place(branch_list_inputs_spec(), input.name@, 0) is Some,
{
    reveal(Step::<_>::branch_list_input);
    reveal_with_fuel(input_place, 5);
}

/// A case takes the inputs that it declares and no other.
pub proof fn case_inputs_agree(state: Step<CaseView>, input: Input, roll: int)
    ensures
        state.case_input(input, roll) is Some <==> input_place(case_inputs_spec(), input.name@, 0) is Some,
{
    reveal(Step::<_>::case_input);
    reveal_with_fuel(input_place, 5);
}

/// An instance proxy takes the inputs that it declares and no other.
pub proof fn instance_io_proxy_inputs_agree(state: Step<InstanceIoProxy>, input: Input)
    ensures
        state.instance_io_proxy_input(input) is Some <==> input_place(instance_io_proxy_inputs_spec(), input.name@, 0) is Some,
{
    reveal(Step::<_>::instance_io_proxy_input);
    reveal_with_fuel(input_place, 32);
    reveal_with_fuel(relay_named, 32);
}

/// A door takes the inputs that it declares and no other.
pub proof fn door_inputs_agree(state: Step<Door>, input: Input)
    ensures
        state.door_input(input) is Some <==> input_place(door_inputs_spec(), input.name@, 0) is Some,
{
    reveal(Step::<_>::door_input);
    reveal_with_fuel(input_place, 8);
}

/// A sliding brush takes the inputs that it declares and no other.
pub proof fn move_linear_inputs_agree(state: Step<MoveLinear>, input: Input, figures: SlideFigures)
    ensures
        state.move_linear_input(input, figures) is Some <==> input_place(move_linear_inputs_spec(), input.name@, 0) is Some,
{
    reveal(Step::<_>::move_linear_input);
    reveal_with_fuel(input_place, 6);
}

/// A button takes the inputs that it declares and no other.
pub proof fn button_inputs_agree(state: Step<Button>, input: Input)
    ensures
        state.button_input(input) is Some <==> input_place(button_inputs_spec(), input.name@, 0) is Some,
{
    reveal(Step::<_>::button_input);
    reveal_with_fuel(input_place, 7);
}

/// A turning brush takes the inputs that it declares and no other.
pub proof fn rotating_inputs_agree(state: Step<Rotating>, input: Input, scaled: Scalar, offset: Scalar)
    ensures
        state.rotating_input(input, scaled, offset) is Some <==> input_place(rotating_inputs_spec(), input.name@, 0) is Some,
{
    reveal(Step::<_>::rotating_input);
    reveal_with_fuel(input_place, 11);
}

/// A brush takes the inputs that it declares and no other.
pub proof fn brush_inputs_agree(state: Switch, input: Input)
    ensures
        state.input(input) is Some <==> input_place(brush_inputs_spec(), input.name@, 0) is Some,
{
    reveal(Switch::input);
    reveal_with_fuel(input_place, 7);
}

/// An area portal takes the inputs that it declares and no other.
pub proof fn area_portal_inputs_agree(state: AreaPortal, name: Seq<char>)
    ensures
        state.input(name) is Some <==> input_place(area_portal_inputs_spec(), name, 0) is Some,
{
    reveal(AreaPortal::input);
    reveal_with_fuel(input_place, 7);
}

/// A light takes the inputs that it declares and no other.
pub proof fn light_inputs_agree(state: Lamp, input: Input)
    ensures
        state.input(input) is Some <==> input_place(light_inputs_spec(), input.name@, 0) is Some,
{
    reveal(Lamp::input);
    reveal_with_fuel(input_place, 7);
}

/// The sun takes the inputs that it declares and no other.
pub proof fn env_light_inputs_agree(state: SunLamp, input: Input)
    ensures
        state.input(input) is Some <==> input_place(light_inputs_spec(), input.name@, 0) is Some,
{
    reveal(SunLamp::input);
    reveal(Lamp::input);
    reveal_with_fuel(input_place, 7);
}

/// A tone mapper takes the inputs that it declares and no other.
pub proof fn tonemap_controller_inputs_agree(state: TonemapSettings, name: Seq<char>, number: Scalar)
    ensures
        state.input(name, number) is Some <==> input_place(tonemap_controller_inputs_spec(), name, 0) is Some,
{
    reveal(TonemapSettings::input);
    reveal_with_fuel(input_place, 14);
}

/// A trigger that fires takes the inputs that it declares and no other.
pub proof fn trigger_multiple_inputs_agree(state: Step<TriggerMultipleView>, input: Input)
    ensures
        state.trigger_multiple_input(input) is Some <==> input_place(base_trigger_inputs_spec(), input.name@, 0) is Some,
{
    reveal(Step::<_>::trigger_multiple_input);
    reveal(Step::<_>::base_trigger_input);
    reveal_with_fuel(input_place, 8);
}

/// A trigger that hurts takes the inputs that it declares and no other.
pub proof fn trigger_hurt_inputs_agree(state: Step<TriggerHurtView>, input: Input)
    ensures
        state.trigger_hurt_input(input) is Some <==> input_place(trigger_hurt_inputs_spec(), input.name@, 0) is Some,
{
    reveal(Step::<_>::trigger_hurt_input);
    reveal(Step::<_>::base_trigger_input);
    reveal_with_fuel(input_place, 9);
}

/// A trigger that pushes takes the inputs that it declares and no other.
pub proof fn trigger_push_inputs_agree(state: Step<TriggerPushView>, input: Input, direction: Vector)
    ensures
        state.trigger_push_input(input, direction) is Some <==> input_place(trigger_push_inputs_spec(), input.name@, 0) is Some,
{
    reveal(Step::<_>::trigger_push_input);
    reveal(Step::<_>::base_trigger_input);
    reveal_with_fuel(input_place, 9);
}

/// A trigger that teleports takes the inputs that it declares and no other.
pub proof fn trigger_teleport_inputs_agree(state: Step<TriggerTeleportView>, input: Input)
    ensures
        state.trigger_teleport_input(input) is Some <==> input_place(trigger_teleport_inputs_spec(), input.name@, 0) is Some,
{
    reveal(Step::<_>::trigger_teleport_input);
    reveal(Step::<_>::base_trigger_input);
    reveal_with_fuel(input_place, 9);
}

/// A filter by name takes the inputs that it declares and no other.
pub proof fn filter_name_inputs_agree(state: Step<FilterName>, input: Input)
    ensures
        state.filter_name_input(input) is Some <==> input_place(filter_inputs_spec(), input.name@, 0) is Some,
{
    reveal(Step::<_>::filter_name_input);
    reveal_with_fuel(input_place, 3);
}

/// A filter by class takes the inputs that it declares and no other.
pub proof fn filter_class_inputs_agree(state: Step<FilterClass>, input: Input)
    ensures
        state.filter_class_input(input) is Some <==> input_place(filter_inputs_spec(), input.name@, 0) is Some,
{
    reveal(Step::<_>::filter_class_input);
    reveal_with_fuel(input_place, 3);
}

/// A filter by model takes the inputs that it declares and no other.
pub proof fn filter_model_inputs_agree(state: Step<FilterModel>, input: Input)
    ensures
        state.filter_model_input(input) is Some <==> input_place(filter_inputs_spec(), input.name@, 0) is Some,
{
    reveal(Step::<_>::filter_model_input);
    reveal_with_fuel(input_place, 3);
}

/// A filter by kind of damage takes the inputs that it declares and no other.
pub proof fn filter_damage_type_inputs_agree(state: Step<FilterDamageType>, input: Input)
    ensures
        state.filter_damage_type_input(input) is Some <==> input_place(filter_inputs_spec(), input.name@, 0) is Some,
{
    reveal(Step::<_>::filter_damage_type_input);
    reveal_with_fuel(input_place, 3);
}

/// A filter by who holds takes the inputs that it declares and no other.
pub proof fn filter_player_held_inputs_agree(state: Step<FilterPlayerHeld>, input: Input)
    ensures
        state.filter_player_held_input(input) is Some <==> input_place(filter_inputs_spec(), input.name@, 0) is Some,
{
    reveal(Step::<_>::filter_player_held_input);
    reveal_with_fuel(input_place, 3);
}

/// A combination of filters takes the inputs that it declares and no other.
pub proof fn filter_multi_inputs_agree(state: Step<FilterMultiView>, input: Input)
    ensures
        state.filter_multi_input(input) is Some <==> input_place(filter_inputs_spec(), input.name@, 0) is Some,
{
    reveal(Step::<_>::filter_multi_input);
    reveal_with_fuel(input_place, 3);
}

/// A teleport point takes the inputs that it declares and no other.
pub proof fn point_teleport_inputs_agree(state: Step<PointTeleport>, input: Input)
    ensures
        state.point_teleport_input(input) is Some <==> input_place(point_teleport_inputs_spec(), input.name@, 0) is Some,
{
    reveal(Step::<_>::point_teleport_input);
    reveal_with_fuel(input_place, 5);
}

/// A player takes the inputs that it declares and no other.
pub proof fn player_inputs_agree(state: Step<Player>, input: Input, figures: HealthFigures)
    ensures
        state.player_input(input, figures) is Some <==> input_place(player_inputs_spec(), input.name@, 0) is Some,
{
    reveal(Step::<_>::player_input);
    reveal_with_fuel(input_place, 3);
}

/// A level restart takes the inputs that it declares and no other.
pub proof fn revert_saved_inputs_agree(state: Step<RevertSaved>, input: Input)
    ensures
        state.revert_saved_input(input) is Some <==> input_place(revert_saved_inputs_spec(), input.name@, 0) is Some,
{
    reveal(Step::<_>::revert_saved_input);
    reveal_with_fuel(input_place, 3);
}

/// A prop takes the inputs that it declares and no other.
pub proof fn dynamic_prop_inputs_agree(state: Step<DynamicPropView>, input: Input, figures: PlayFigures)
    ensures
        state.dynamic_prop_input(input, figures) is Some <==> input_place(dynamic_prop_inputs_spec(), input.name@, 0) is Some,
{
    reveal(Step::<_>::dynamic_prop_input);
    reveal_with_fuel(input_place, 17);
}

/// A pad takes the inputs that it declares and no other.
pub proof fn floor_button_inputs_agree(state: Step<FloorButton>, input: Input)
    ensures
        state.floor_button_input(input) is Some <==> input_place(floor_button_inputs_spec(), input.name@, 0) is Some,
{
    reveal(Step::<_>::floor_button_input);
    reveal_with_fuel(input_place, 5);
}

/// The box over a pad takes the inputs that it declares and no other.
pub proof fn button_trigger_inputs_agree(state: Step<ButtonTriggerView>, input: Input)
    ensures
        state.button_trigger_input(input) is Some <==> input_place(base_trigger_inputs_spec(), input.name@, 0) is Some,
{
    reveal(Step::<_>::button_trigger_input);
    reveal(Step::<_>::base_trigger_input);
    reveal_with_fuel(input_place, 8);
}

/// A chamber door takes the inputs that it declares and no other.
pub proof fn test_chamber_door_inputs_agree(state: Step<TestChamberDoor>, input: Input, figures: DoorPlayFigures)
    ensures
        state.test_chamber_door_input(input, figures) is Some <==> input_place(test_chamber_door_inputs_spec(), input.name@, 0) is Some,
{
    reveal(Step::<_>::test_chamber_door_input);
    reveal_with_fuel(input_place, 7);
}

/// A cube takes the inputs that it declares and no other.
pub proof fn weighted_cube_inputs_agree(state: Step<WeightedCube>, input: Input)
    ensures
        state.weighted_cube_input(input) is Some <==> input_place(weighted_cube_inputs_spec(), input.name@, 0) is Some,
{
    reveal(Step::<_>::weighted_cube_input);
    reveal_with_fuel(input_place, 16);
}

/// A portal takes the inputs that it declares and no other.
pub proof fn prop_portal_inputs_agree(state: Step<PropPortal>, input: Input, numbers: PortalNumbers)
    ensures
        state.prop_portal_input(input, numbers) is Some <==> input_place(prop_portal_inputs_spec(), input.name@, 0) is Some,
{
    reveal(Step::<_>::prop_portal_input);
    reveal_with_fuel(input_place, 7);
}

proof fn logic_inputs_agree(state: Step<LogicView>, kind: ClassKind, input: Input, figures: Figures)
    requires
        of_kind(BehaviourView::Logic(state.me), kind),
    ensures
        state.logic_family_input(input, figures) is Some <==> input_place(declared_inputs(kind), input.name@, 0) is Some,
{
    reveal(Step::<_>::logic_family_input);
    match state.me {
        LogicView::Relay(s) => relay_inputs_agree(step(s, state.core, state.cx), input, figures.logic.refire_delay),
        LogicView::Auto(_) => {},
        LogicView::Timer(s) => timer_inputs_agree(step(s, state.core, state.cx), input, figures.logic.timer),
        LogicView::MathCounter(s) => math_counter_inputs_agree(step(s, state.core, state.cx), input, figures.logic.counter),
        LogicView::Branch(s) => branch_inputs_agree(step(s, state.core, state.cx), input),
        LogicView::BranchList(s) => branch_list_inputs_agree(step(s, state.core, state.cx), input),
        LogicView::Case(s) => case_inputs_agree(step(s, state.core, state.cx), input, figures.logic.roll as int),
        LogicView::InstanceIoProxy(s) => instance_io_proxy_inputs_agree(step(s, state.core, state.cx), input),
    }
}

proof fn mover_inputs_agree(state: Step<MoverView>, kind: ClassKind, input: Input, figures: Figures)
    requires
        of_kind(BehaviourView::Mover(state.me), kind),
    ensures
        state.mover_family_input(input, figures) is Some <==> input_place(declared_inputs(kind), input.name@, 0) is Some,
{
    reveal(Step::<_>::mover_family_input);
    match state.me {
        MoverView::Door(s) => door_inputs_agree(step(s, state.core, state.cx), input),
        MoverView::MoveLinear(s) => move_linear_inputs_agree(step(s, state.core, state.cx), input, figures.mover.slide),
        MoverView::Button(s) => button_inputs_agree(step(s, state.core, state.cx), input),
        MoverView::Rotating(s) => rotating_inputs_agree(step(s, state.core, state.cx), input, figures.mover.scaled, figures.mover.offset),
    }
}

proof fn trigger_inputs_agree(state: Step<TriggerView>, kind: ClassKind, input: Input, figures: Figures)
    requires
        of_kind(BehaviourView::Trigger(state.me), kind),
    ensures
        state.trigger_family_input(input, figures) is Some <==> input_place(declared_inputs(kind), input.name@, 0) is Some,
{
    reveal(Step::<_>::trigger_family_input);
    match state.me {
        TriggerView::TriggerMultiple(s) => trigger_multiple_inputs_agree(step(s, state.core, state.cx), input),
        TriggerView::TriggerHurt(s) => trigger_hurt_inputs_agree(step(s, state.core, state.cx), input),
        TriggerView::TriggerPush(s) => trigger_push_inputs_agree(step(s, state.core, state.cx), input, figures.direction),
        TriggerView::TriggerTeleport(s) => trigger_teleport_inputs_agree(step(s, state.core, state.cx), input),
        TriggerView::ButtonTrigger(s) => button_trigger_inputs_agree(step(s, state.core, state.cx), input),
    }
}

proof fn filter_inputs_agree(state: Step<FilterView>, kind: ClassKind, input: Input, figures: Figures)
    requires
        of_kind(BehaviourView::Filter(state.me), kind),
    ensures
        state.filter_family_input(input, figures) is Some <==> input_place(declared_inputs(kind), input.name@, 0) is Some,
{
    reveal(Step::<_>::filter_family_input);
    match state.me {
        FilterView::FilterName(s) => filter_name_inputs_agree(step(s, state.core, state.cx), input),
        FilterView::FilterClass(s) => filter_class_inputs_agree(step(s, state.core, state.cx), input),
        FilterView::FilterModel(s) => filter_model_inputs_agree(step(s, state.core, state.cx), input),
        FilterView::FilterDamageType(s) => filter_damage_type_inputs_agree(step(s, state.core, state.cx), input),
        FilterView::FilterPlayerHeld(s) => filter_player_held_inputs_agree(step(s, state.core, state.cx), input),
        FilterView::FilterMulti(s) => filter_multi_inputs_agree(step(s, state.core, state.cx), input),
    }
}

proof fn prop_inputs_agree(state: Step<PropView>, kind: ClassKind, input: Input, figures: Figures)
    requires
        of_kind(BehaviourView::Prop(state.me), kind),
    ensures
        state.prop_family_input(input, figures) is Some <==> input_place(declared_inputs(kind), input.name@, 0) is Some,
{
    reveal(Step::<_>::prop_family_input);
    match state.me {
        PropView::DynamicProp(s) => dynamic_prop_inputs_agree(step(s, state.core, state.cx), input, figures.prop.play),
        PropView::FloorButton(s) => floor_button_inputs_agree(step(s, state.core, state.cx), input),
        PropView::TestChamberDoor(s) => test_chamber_door_inputs_agree(step(s, state.core, state.cx), input, figures.prop.door),
        PropView::WeightedCube(s) => weighted_cube_inputs_agree(step(s, state.core, state.cx), input),
        PropView::PropPortal(s) => prop_portal_inputs_agree(step(s, state.core, state.cx), input, figures.prop.numbers),
    }
}

proof fn actor_inputs_agree(state: Step<ActorView>, kind: ClassKind, input: Input, figures: Figures)
    requires
        of_kind(BehaviourView::Actor(state.me), kind),
    ensures
        state.actor_family_input(input, figures) is Some <==> input_place(declared_inputs(kind), input.name@, 0) is Some,
{
    reveal(Step::<_>::actor_family_input);
    match state.me {
        ActorView::Player(s) => player_inputs_agree(step(s, state.core, state.cx), input, figures.health),
        ActorView::LogicPlayerProxy(_) => {},
        ActorView::RevertSaved(s) => revert_saved_inputs_agree(step(s, state.core, state.cx), input),
    }
}

proof fn fixture_inputs_agree(state: Step<FixtureView>, kind: ClassKind, input: Input, figures: Figures)
    requires
        of_kind(BehaviourView::Fixture(state.me), kind),
    ensures
        state.fixture_family_input(input, figures) is Some <==> input_place(declared_inputs(kind), input.name@, 0) is Some,
{
    reveal(Step::<_>::fixture_family_input);
    match state.me {
        FixtureView::PointEntity(_) => {},
        FixtureView::PointTeleport(s) => point_teleport_inputs_agree(step(s, state.core, state.cx), input),
        FixtureView::Brush(s) => brush_inputs_agree(Switch { me: s, core: state.core }, input),
        FixtureView::AreaPortal(s) => area_portal_inputs_agree(s, input.name@),
        FixtureView::Light(s) => light_inputs_agree(Lamp { me: s, core: state.core }, input),
        FixtureView::EnvLight(s) => env_light_inputs_agree(SunLamp { me: s, core: state.core }, input),
        FixtureView::TonemapController(s) => tonemap_controller_inputs_agree(s.settings, input.name@, input.value.number()),
        FixtureView::World(_) => {},
    }
}

/// Every input that a class declares is taken by it, and it takes no other,
/// whatever state it is in.
pub proof fn inputs_taken_are_those_declared(
    state: Step<BehaviourView>,
    kind: ClassKind,
    input: Input,
    figures: Figures,
)
    requires
        of_kind(state.me, kind),
    ensures
        state.class_input(input, figures) is Some <==> input_place(declared_inputs(kind), input.name@, 0) is Some,
{
    reveal(Step::<_>::class_input);
    match state.me {
        BehaviourView::Logic(s) => logic_inputs_agree(step(s, state.core, state.cx), kind, input, figures),
        BehaviourView::Mover(s) => mover_inputs_agree(step(s, state.core, state.cx), kind, input, figures),
        BehaviourView::Trigger(s) => trigger_inputs_agree(step(s, state.core, state.cx), kind, input, figures),
        BehaviourView::Filter(s) => filter_inputs_agree(step(s, state.core, state.cx), kind, input, figures),
        BehaviourView::Prop(s) => prop_inputs_agree(step(s, state.core, state.cx), kind, input, figures),
        BehaviourView::Actor(s) => actor_inputs_agree(step(s, state.core, state.cx), kind, input, figures),
        BehaviourView::Fixture(s) => fixture_inputs_agree(step(s, state.core, state.cx), kind, input, figures),
    }
}

/// A fresh entity of any class takes an input exactly if its class declares
/// it.
pub proof fn a_fresh_entity_takes_what_its_class_declares(
    row: int,
    cx: ContextView,
    input: Input,
    figures: Figures,
    tonemap: TonemapSettings,
)
    requires
        0 <= row < class_list().len(),
    ensures
        ({
            let (name, kind) = class_list()[row];
            let entity = fresh_entity(name, kind, tonemap);
            step(entity.behaviour, entity.core, cx).class_input(input, figures) is Some <==> class_of(name, kind).takes(
                input.name@,
            ) is Some
        }),
{
    let (name, kind) = class_list()[row];
    let entity = fresh_entity(name, kind, tonemap);
    a_fresh_state_is_of_its_class(kind, tonemap);
    inputs_taken_are_those_declared(step(entity.behaviour, entity.core, cx), kind, input, figures);
}

} // verus!
