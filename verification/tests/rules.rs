//! What the classes do, on given values.
use entity_server::attachment::{AttachmentEntry, AttachmentTable};
use entity_server::base::{base_accept_input, UseFigures};
use entity_server::behaviour::{Actor, Behaviour, Filter, Fixture, Logic, Mover, Prop, Trigger};
use entity_server::class::{lookup, SpawnResult, UseType};
use entity_server::classes::branch::{Branch, BranchList};
use entity_server::classes::brush::{AreaPortal, Brush, BRUSHSOLID_NEVER};
use entity_server::classes::button::{Button, ButtonCode, ButtonFigures, SF_BUTTON_TOGGLE};
use entity_server::classes::case::{Case, InstanceIoProxy};
use entity_server::classes::chamber_door::{DoorPlayFigures, TestChamberDoor};
use entity_server::classes::cube::{CubeType, PaintPower, WeightedCube};
use entity_server::classes::door::{Door, DoorFigures, DoorMoveDone};
use entity_server::classes::dynamic_prop::{DynamicProp, FadeFigures, PlayFigures};
use entity_server::classes::env::{Bloom, Exposure, TonemapController, TonemapSettings, SF_TONEMAP_MASTER};
use entity_server::classes::filter::{FilterDamageType, FilterMulti, FilterName};
use entity_server::classes::floor_button::PadSequence;
use entity_server::classes::light::{Light, SF_LIGHT_START_OFF};
use entity_server::classes::logic::{
    Auto, CounterFigures, MathCounter, Relay, Timer, TimerFigures, SF_AUTO_FIREONCE, SF_RELAY_ALLOW_FAST_RETRIGGER,
    SF_RELAY_REMOVE_ON_FIRE, SF_TIMER_UPDOWN,
};
use entity_server::classes::movelinear::{MoveLinear, MoveLinearFigures, SlideFigures};
use entity_server::classes::player::{DeathFigures, Player, RevertSaved, IN_JUMP, IN_USE};
use entity_server::classes::point::PointTeleport;
use entity_server::classes::portal::{PropPortal, Transit};
use entity_server::classes::rotating::{Rotating, RotatingThink, SF_BRUSH_ACCDCC, SF_BRUSH_ROTATE_BACKWARDS};
use entity_server::classes::sky::SkyCamera;
use entity_server::classes::trigger::{BaseTrigger, SF_TRIGGER_ALLOW_ALL, SF_TRIGGER_ALLOW_CLIENTS};
use entity_server::classes::trigger_kinds::{HurtFigures, TriggerHurt, TriggerMultiple, TriggerTeleport};
use entity_server::classes::world::World;
use entity_server::context::{Context, Placement, Posted, Request, Tables, Teleport, Time};
use entity_server::damage::{DamageInfo, DamageMode, Damaged, LifeState, Wound, DMG_CRUSH, DMG_DIRECT};
use entity_server::describe::Shown;
use entity_server::entity::{
    Connection, EntityCore, EntityId, Motion, MoveType, Schedule, Solid, EF_NODRAW, FL_CLIENT, FL_FROZEN, FL_GODMODE,
    FL_NOTARGET, FSOLID_NOT_SOLID, FSOLID_TRIGGER,
};
use entity_server::io::{Input, Value, Variant};
use entity_server::list::{Entity, EntityList};
use entity_server::movement::ToggleState;
use entity_server::scalar::{num, origin, Scalar, Vector, ZERO};
use entity_server::sequences::{LoadedModel, Lookup, Sequence, SequenceInfo, SequenceTable};
use entity_server::text::{atoi, is_procedural, names_match, string_to_color32};

fn number(x: f32) -> Scalar {
    num(x.to_bits())
}

fn vector(x: f32, y: f32, z: f32) -> Vector {
    Vector { x: number(x), y: number(y), z: number(z) }
}

fn value(text: &str) -> Value {
    let mut parts: Vec<f32> = text.split_whitespace().map(|p| p.parse().unwrap_or(0.0)).collect();
    parts.resize(3, 0.0);
    Value {
        text: text.to_owned(),
        number: number(parts[0]),
        tenth: number(parts[0] / 10.0),
        hundredth: number(parts[0] / 100.0),
        whole: number(parts[0].trunc()),
        vector: vector(parts[0], parts[1], parts[2]),
    }
}

fn tonemap() -> TonemapSettings {
    TonemapSettings {
        exposure: Exposure {
            use_custom_auto_exposure_min: false,
            custom_auto_exposure_min: num(ZERO),
            use_custom_auto_exposure_max: false,
            custom_auto_exposure_max: num(ZERO),
        },
        bloom: Bloom {
            use_custom_bloom_scale: false,
            custom_bloom_scale: num(ZERO),
            custom_bloom_scale_minimum: num(ZERO),
            bloom_exponent: num(ZERO),
            bloom_saturation: num(ZERO),
        },
        percent_target: num(ZERO),
        percent_bright_pixels: num(ZERO),
        min_avg_lum: num(ZERO),
        rate: num(ZERO),
    }
}

fn tables() -> Tables {
    Tables {
        sequences: SequenceTable { models: Vec::new() },
        attachments: AttachmentTable { entries: Vec::new() },
        tonemap: tonemap(),
    }
}

fn context_at(time: f32) -> Context {
    Context::new(Time { curtime: number(time), interval: number(0.015) }, EntityList::new(), None, tables())
}

fn id(slot: usize) -> EntityId {
    EntityId { slot, serial: 0 }
}

fn bare(classname: &'static str, slot: usize) -> EntityCore {
    let mut core = EntityCore::new(classname);
    core.id = id(slot);
    core
}

fn entity(classname: &str, name: Option<&str>) -> Entity {
    let mut entity = Entity::new(&lookup(classname).expect("registered"), tonemap());
    entity.core.name = name.map(str::to_owned);
    entity
}

fn input(name: &str, value: Variant) -> Input<'_> {
    Input {
        name,
        value,
        text: String::new(),
        activator: Some(id(70)),
        caller: Some(id(71)),
        output_id: 9,
    }
}

fn texted<'a>(name: &'a str, text: &str) -> Input<'a> {
    let mut sent = input(name, Variant::String(text.to_owned()));
    sent.text = text.to_owned();
    sent
}

fn connect(core: &mut EntityCore, output: &str) {
    core.connections.push(Connection { output: output.to_owned(), delay: num(ZERO) });
}

fn outputs(cx: &Context) -> Vec<&'static str> {
    cx.posted
        .iter()
        .filter_map(|p| match p {
            Posted::Output { output, .. } => Some(*output),
            _ => None,
        })
        .collect()
}

fn slide() -> SlideFigures {
    SlideFigures { target: origin(), distance: num(ZERO), speed: num(ZERO), remaining_squared: num(ZERO) }
}

// ---------------------------------------------------------------------------
// Texts and numbers
// ---------------------------------------------------------------------------

#[test]
fn numbers_are_read_as_far_as_they_go() {
    assert_eq!(atoi("42"), 42);
    assert_eq!(atoi("  -7 apples"), -7);
    assert_eq!(atoi("+9"), 9);
    assert_eq!(atoi("apples"), 0);
    assert_eq!(atoi(""), 0);
    assert_eq!(atoi("99999999999"), i32::MAX);
    assert_eq!(atoi("-99999999999"), i32::MIN);
}

#[test]
fn names_match_but_for_case_and_up_to_a_star() {
    assert!(names_match("Door_1", "door_1"));
    assert!(names_match("door*", "door_1"));
    assert!(names_match("*", "anything"));
    assert!(!names_match("door_1", "door_2"));
    assert!(!names_match("door", "door_1"));
    assert!(is_procedural("!activator"));
    assert!(!is_procedural("activator!"));
}

#[test]
fn a_colour_takes_each_part_modulo_a_byte() {
    assert_eq!(string_to_color32("255 200 150 400"), [255, 200, 150, 144]);
    assert_eq!(string_to_color32("1 2 3"), [1, 2, 3, 0]);
}

#[test]
fn numbers_compare_as_floats_do() {
    assert!(number(-1.0).lt(number(0.5)));
    assert!(!number(f32::NAN).lt(number(0.5)));
    assert!(number(0.0).equals(number(-0.0)));
    assert!(!number(f32::NAN).equals(number(f32::NAN)));
    assert_eq!(number(7.0).clamp(number(0.0), number(5.0)), number(5.0));
    assert_eq!(number(-7.0).clamp(number(0.0), number(5.0)), number(0.0));
    assert_eq!(number(3.0).neg(), number(-3.0));
    assert_eq!(number(-3.0).abs(), number(3.0));
}

// ---------------------------------------------------------------------------
// The entity list and the server
// ---------------------------------------------------------------------------

#[test]
fn entities_are_found_in_spawn_order() {
    let mut list = EntityList::new();
    let first = list.insert(entity("info_target", Some("spot")));
    let second = list.insert(entity("light", Some("Spot")));
    assert_eq!(list.find_by_name("spot"), Some(first));
    assert_eq!(list.find_all_by_name("SPOT"), vec![first, second]);
    assert_eq!(list.find_all_of_class("light"), vec![second]);
    assert_eq!(list.find_by_name("nowhere"), None);
    let taken = list.take(first).expect("there");
    assert!(list.get(first).is_none());
    assert_eq!(list.find_by_name("spot"), Some(second));
    list.put_back(first, taken);
    assert_eq!(list.find_by_name("spot"), Some(first));
}

#[test]
fn a_role_names_whoever_has_it() {
    let mut cx = context_at(0.0);
    cx.player = Some(id(5));
    assert_eq!(cx.find_target("!player", None, None, None), Some(id(5)));
    assert_eq!(cx.find_target("!ACTIVATOR", None, Some(id(1)), None), Some(id(1)));
    assert_eq!(cx.find_target("!caller", None, None, Some(id(2))), Some(id(2)));
    assert_eq!(cx.find_target("!self", Some(id(3)), None, None), Some(id(3)));
    assert_eq!(cx.find_target("!nobody", Some(id(3)), Some(id(1)), Some(id(2))), None);
}

#[test]
fn an_entity_is_made_of_a_class_that_there_is() {
    let mut cx = context_at(0.0);
    assert_eq!(cx.create_entity("no_such_class"), None);
    let made = cx.create_entity("Logic_Relay").expect("registered");
    assert_eq!(made, id(0));
    assert_eq!(cx.entity(made).expect("there").core.classname(), "logic_relay");
    assert_eq!(cx.take_created(), vec![made]);
    assert!(cx.take_created().is_empty());
}

// ---------------------------------------------------------------------------
// What every entity understands
// ---------------------------------------------------------------------------

fn base(entity: &mut Entity, sent: &Input<'_>, cx: &mut Context) -> bool {
    let figures = UseFigures { slide: slide(), offset: num(ZERO) };
    let Entity { core, behaviour } = entity;
    base_accept_input(core, behaviour, sent, &figures, cx)
}

#[test]
fn killing_removes_and_drawing_is_switched() {
    let mut cx = context_at(0.0);
    let mut target = entity("info_target", None);
    assert!(base(&mut target, &input("disabledraw", Variant::Void), &mut cx));
    assert_eq!(target.core.look.effects & EF_NODRAW, EF_NODRAW);
    assert!(base(&mut target, &input("EnableDraw", Variant::Void), &mut cx));
    assert_eq!(target.core.look.effects & EF_NODRAW, 0);
    assert!(base(&mut target, &input("Kill", Variant::Void), &mut cx));
    assert!(target.core.agenda.removed);
    assert!(!base(&mut target, &input("Explode", Variant::Void), &mut cx));
}

#[test]
fn a_user_input_fires_its_output_with_the_activator() {
    let mut cx = context_at(0.0);
    let mut target = entity("info_target", None);
    target.core.id = id(4);
    assert!(base(&mut target, &input("FireUser3", Variant::Void), &mut cx));
    match &cx.posted[0] {
        Posted::Output { source, output, activator, caller, .. } => {
            assert_eq!(*source, id(4));
            assert_eq!(*output, "OnUser3");
            assert_eq!(*activator, Some(id(70)));
            assert_eq!(*caller, Some(id(4)));
        }
        _ => panic!("an output"),
    }
}

#[test]
fn a_parent_is_set_cleared_and_hung_on() {
    let mut entities = EntityList::new();
    let mut arm = entity("prop_dynamic", Some("arm"));
    arm.core.model = Some("models/arm.mdl".to_owned());
    let arm = entities.insert(arm);
    let mut tables = tables();
    tables.attachments.entries.push(AttachmentEntry {
        model: "models/arm.mdl".to_owned(),
        name: "hand".to_owned(),
        index: 2,
    });
    let time = Time { curtime: num(ZERO), interval: number(0.015) };
    let mut cx = Context::new(time, entities, None, tables);
    let mut child = entity("info_target", None);
    child.core.place.local_origin = vector(1.0, 2.0, 3.0);

    assert!(base(&mut child, &texted("SetParentAttachment", "hand"), &mut cx));
    assert_eq!(child.core.place.attachment, None, "no parent yet");

    assert!(base(&mut child, &texted("SetParent", "arm"), &mut cx));
    assert_eq!(child.core.parent(), Some(arm));
    assert!(!cx.took_attachment());

    assert!(base(&mut child, &texted("SetParentAttachment", "foot"), &mut cx));
    assert_eq!(child.core.place.attachment, None, "no such point");

    assert!(base(&mut child, &texted("SetParentAttachmentMaintainOffset", "hand"), &mut cx));
    assert_eq!(child.core.place.attachment, Some(2));
    assert_eq!(child.core.place.local_origin, vector(1.0, 2.0, 3.0));
    assert_eq!(child.core.body.move_type, MoveType::Still);
    assert!(cx.took_attachment());

    assert!(base(&mut child, &texted("SetParentAttachment", "HAND"), &mut cx));
    assert_eq!(child.core.place.local_origin, origin());

    assert!(base(&mut child, &texted("ClearParent", ""), &mut cx));
    assert_eq!(child.core.parent(), None);
    assert_eq!(child.core.place.attachment, None);
}

#[test]
fn a_damage_filter_is_pointed_and_cleared() {
    let mut entities = EntityList::new();
    let filter = entities.insert(entity("filter_damage_type", Some("only_fire")));
    let time = Time { curtime: num(ZERO), interval: number(0.015) };
    let mut cx = Context::new(time, entities, None, tables());
    let mut target = entity("info_target", None);
    assert!(base(&mut target, &texted("SetDamageFilter", "only_fire"), &mut cx));
    assert_eq!(target.core.vitals.damage_filter, Some(filter));
    assert_eq!(target.core.damage_filter_name.as_deref(), Some("only_fire"));
    assert!(base(&mut target, &texted("SetDamageFilter", ""), &mut cx));
    assert_eq!(target.core.vitals.damage_filter, None);
    assert_eq!(target.core.damage_filter_name, None);
}

#[test]
fn using_a_button_presses_it_and_using_a_target_does_nothing() {
    let mut cx = context_at(0.0);
    let mut target = entity("info_target", None);
    assert!(base(&mut target, &input("Use", Variant::Void), &mut cx));
    assert!(cx.posted.is_empty());
    let mut button = entity("func_button", None);
    if let Behaviour::Mover(Mover::Button(b)) = &mut button.behaviour {
        b.toggle.state = ToggleState::AtBottom;
        b.toggle.travel.position2 = vector(0.0, 0.0, 8.0);
    }
    assert!(base(&mut button, &input("Use", Variant::Void), &mut cx));
    assert_eq!(outputs(&cx), vec!["OnPressed"]);
}

#[test]
fn damage_kills_what_has_no_health_left() {
    let cx = context_at(0.0);
    let mut target = entity("info_target", None);
    target.core.vitals.take_damage = DamageMode::Yes;
    let info = DamageInfo::new(None, None, number(10.0), 0);
    let hurt = Wound { result: Damaged::Hurt, health: 5, accumulator: num(ZERO) };
    assert_eq!(target.behaviour.on_take_damage(&mut target.core, &info, &hurt, &cx), Damaged::Hurt);
    assert_eq!(target.core.vitals.health, 5);
    assert!(!target.core.agenda.removed);
    let killed = Wound { result: Damaged::Killed, health: 0, accumulator: num(ZERO) };
    assert_eq!(target.behaviour.on_take_damage(&mut target.core, &info, &killed, &cx), Damaged::Killed);
    assert_eq!(target.core.vitals.life_state, LifeState::Dead);
    assert_eq!(target.core.vitals.take_damage, DamageMode::No);
    assert!(target.core.agenda.removed);
}

// ---------------------------------------------------------------------------
// Logic
// ---------------------------------------------------------------------------

#[test]
fn a_relay_fires_once_until_it_is_through() {
    let mut cx = context_at(0.0);
    let mut core = bare("logic_relay", 3);
    let mut relay = Relay::create();
    let delay = number(2.0);
    assert!(relay.accept_input(&mut core, &input("Trigger", Variant::Void), delay, &mut cx));
    assert!(relay.wait_for_refire);
    assert_eq!(cx.posted.len(), 2);
    match &cx.posted[1] {
        Posted::ToEntity { target, input, delay, .. } => {
            assert_eq!(*target, id(3));
            assert_eq!(*input, "EnableRefire");
            assert_eq!(*delay, number(2.0));
        }
        _ => panic!("an input to itself"),
    }
    assert!(relay.accept_input(&mut core, &input("Trigger", Variant::Void), delay, &mut cx));
    assert_eq!(cx.posted.len(), 2, "still waiting");
    assert!(relay.accept_input(&mut core, &input("enablerefire", Variant::Void), delay, &mut cx));
    assert!(relay.accept_input(&mut core, &input("Trigger", Variant::Void), delay, &mut cx));
    assert_eq!(outputs(&cx), vec!["OnTrigger", "OnTrigger"]);
}

#[test]
fn a_relay_may_go_away_or_fire_fast() {
    let mut cx = context_at(0.0);
    let mut once = bare("logic_relay", 3);
    once.spawn_flags = SF_RELAY_REMOVE_ON_FIRE;
    let mut relay = Relay::create();
    relay.trigger(&mut once, None, num(ZERO), &mut cx);
    assert!(once.agenda.removed);

    let mut cx = context_at(0.0);
    let mut fast = bare("logic_relay", 3);
    fast.spawn_flags = SF_RELAY_ALLOW_FAST_RETRIGGER;
    let mut relay = Relay::create();
    relay.trigger(&mut fast, None, num(ZERO), &mut cx);
    relay.trigger(&mut fast, None, num(ZERO), &mut cx);
    assert_eq!(outputs(&cx), vec!["OnTrigger", "OnTrigger"]);
}

#[test]
fn a_disabled_relay_passes_nothing_on() {
    let mut cx = context_at(0.0);
    let mut core = bare("logic_relay", 3);
    let mut relay = Relay::create();
    assert!(relay.key_value("startdisabled", &value("1")));
    relay.trigger(&mut core, None, num(ZERO), &mut cx);
    assert!(cx.posted.is_empty());
    assert!(relay.accept_input(&mut core, &input("Toggle", Variant::Void), num(ZERO), &mut cx));
    assert!(!relay.disabled);
    assert!(relay.accept_input(&mut core, &input("Toggle", Variant::Void), num(ZERO), &mut cx));
    assert!(relay.disabled);
    assert!(!relay.accept_input(&mut core, &input("Explode", Variant::Void), num(ZERO), &mut cx));
    assert!(!relay.key_value("nothing", &value("1")));
}

#[test]
fn a_map_start_fires_its_outputs_in_order() {
    let mut cx = context_at(0.0);
    let mut core = bare("logic_auto", 3);
    core.spawn_flags = SF_AUTO_FIREONCE;
    let mut auto = Auto::create();
    auto.think(&mut core, &mut cx);
    assert_eq!(outputs(&cx), vec!["OnNewGame", "OnMapSpawn"]);
    assert!(core.agenda.removed);

    let mut cx = context_at(0.0);
    let mut waiting = Auto::create();
    assert!(waiting.key_value("globalstate", &value("super_phys_gun")));
    waiting.think(&mut core, &mut cx);
    assert!(cx.posted.is_empty());
}

#[test]
fn a_timer_swings_between_its_outputs() {
    let mut cx = context_at(0.0);
    let mut core = bare("logic_timer", 3);
    core.spawn_flags = SF_TIMER_UPDOWN;
    let mut timer = Timer::create();
    assert!(timer.key_value("RefireTime", &value("0.5")));
    timer.fire(&mut core, num(ZERO), &mut cx);
    timer.fire(&mut core, num(ZERO), &mut cx);
    assert_eq!(outputs(&cx), vec!["OnTimerLow", "OnTimerHigh"]);
    assert_eq!(core.agenda.schedule, Schedule::After(number(0.5)));
    let figures = TimerFigures { drawn: num(ZERO), later: num(ZERO), earlier: num(ZERO), remaining: num(ZERO) };
    assert!(timer.accept_input(&mut core, &input("Disable", Variant::Void), &figures, &mut cx));
    assert_eq!(core.agenda.schedule, Schedule::Never);
    timer.fire(&mut core, num(ZERO), &mut cx);
    assert_eq!(cx.posted.len(), 2, "disabled");
    let short = input("RefireTime", Variant::Float(number(0.001)));
    assert!(timer.accept_input(&mut core, &short, &figures, &mut cx));
    assert_eq!(timer.refire_time, number(0.01));
}

#[test]
fn a_timer_draws_its_interval_where_it_is_random() {
    let mut cx = context_at(0.0);
    let mut core = bare("logic_timer", 3);
    let mut timer = Timer::create();
    assert!(timer.key_value("UseRandomTime", &value("1")));
    timer.enable(&mut core, number(3.25), &mut cx);
    assert_eq!(timer.refire_time, number(3.25));
    assert_eq!(core.agenda.schedule, Schedule::After(number(3.25)));
}

#[test]
fn a_timer_says_when_a_number_is_drawn() {
    let mut timer = Timer::create();
    let refire = |seconds: f32| input("RefireTime", Variant::Float(number(seconds)));
    assert!(!timer.draws_anew());
    assert!(!timer.draws(&input("Enable", Variant::Void)), "it is not random");
    timer.use_random_time = true;
    timer.refire_time = number(0.01);
    assert!(timer.draws_anew());
    for name in ["Enable", "FIRETIMER", "ResetTimer"] {
        assert!(timer.draws(&input(name, Variant::Void)), "{name}");
    }
    for name in ["Disable", "Toggle", "AddToTimer", "UseRandomTime"] {
        assert!(!timer.draws(&input(name, Variant::Void)), "{name}");
    }
    assert!(timer.draws(&refire(2.0)));
    assert!(!timer.draws(&refire(-5.0)), "the interval that it has");
    timer.disabled = true;
    assert!(!timer.draws_anew());
    assert!(timer.draws(&input("Toggle", Variant::Void)));
    assert!(timer.draws(&input("Enable", Variant::Void)));
    assert!(!timer.draws(&input("FireTimer", Variant::Void)));
    assert!(!timer.draws(&refire(2.0)));
}

#[test]
fn a_counter_stays_in_bounds_and_tells_of_its_edges() {
    let mut cx = context_at(0.0);
    let core = bare("math_counter", 3);
    let mut counter = MathCounter::create();
    assert!(counter.key_value("min", &value("0")));
    assert!(counter.key_value("max", &value("10")));
    assert_eq!(counter.spawn(), SpawnResult::Keep);
    counter.update(&core, number(25.0), None, &mut cx);
    assert_eq!(counter.value, number(10.0));
    assert_eq!(outputs(&cx), vec!["OnHitMax", "OnChangedFromMin", "OutValue"]);
    counter.update(&core, number(25.0), None, &mut cx);
    assert_eq!(outputs(&cx)[3..], ["OutValue"]);
    counter.update(&core, number(4.0), None, &mut cx);
    assert_eq!(outputs(&cx)[4..], ["OnChangedFromMax", "OutValue"]);
    counter.update(&core, number(-4.0), None, &mut cx);
    assert_eq!(counter.value, number(0.0));
    assert_eq!(outputs(&cx)[6..], ["OnHitMin", "OutValue"]);
}

#[test]
fn a_counter_without_bounds_counts_on() {
    let mut cx = context_at(0.0);
    let core = bare("math_counter", 3);
    let mut counter = MathCounter::create();
    let figures = CounterFigures {
        sum: number(1000.0),
        difference: num(ZERO),
        product: num(ZERO),
        quotient: number(7.0),
    };
    let add = input("Add", Variant::Float(number(1000.0)));
    assert!(counter.accept_input(&core, &add, &figures, &mut cx));
    assert_eq!(counter.value, number(1000.0));
    assert_eq!(outputs(&cx), vec!["OutValue"]);
    let nought = input("Divide", Variant::Float(num(ZERO)));
    assert!(counter.accept_input(&core, &nought, &figures, &mut cx));
    assert_eq!(counter.value, number(1000.0), "nothing is divided by nought");
    assert!(counter.accept_input(&core, &input("Disable", Variant::Void), &figures, &mut cx));
    let divide = input("Divide", Variant::Float(number(2.0)));
    assert!(counter.accept_input(&core, &divide, &figures, &mut cx));
    assert_eq!(counter.value, number(1000.0), "disabled");
}

#[test]
fn a_counter_spawns_with_its_bounds_the_right_way_round() {
    let mut counter = MathCounter::create();
    assert!(counter.key_value("min", &value("8")));
    assert!(counter.key_value("max", &value("2")));
    assert!(counter.key_value("startvalue", &value("5")));
    counter.spawn();
    assert_eq!((counter.min, counter.max, counter.value), (number(2.0), number(8.0), number(5.0)));
}

#[test]
fn a_branch_tells_its_listeners_of_a_change_only() {
    let mut cx = context_at(0.0);
    let core = bare("logic_branch", 3);
    let mut branch = Branch::create();
    branch.add_listener(id(8));
    branch.add_listener(id(9));
    branch.add_listener(id(8));
    assert_eq!(branch.listeners, vec![id(8), id(9)]);
    branch.update(&core, false, false, None, &mut cx);
    assert!(cx.posted.is_empty());
    branch.update(&core, true, true, None, &mut cx);
    let told: Vec<EntityId> = cx
        .posted
        .iter()
        .filter_map(|p| match p {
            Posted::ToEntity { target, input, .. } => {
                assert_eq!(*input, "_OnLogicBranchChanged");
                Some(*target)
            }
            _ => None,
        })
        .collect();
    assert_eq!(told, vec![id(8), id(9)]);
    assert_eq!(outputs(&cx), vec!["OnTrue"]);
}

#[test]
fn a_listener_is_silent_until_its_first_input() {
    let mut entities = EntityList::new();
    let mut branch = entity("logic_branch", Some("one"));
    if let Behaviour::Logic(Logic::Branch(b)) = &mut branch.behaviour {
        b.value = true;
    }
    let one = entities.insert(branch);
    let time = Time { curtime: num(ZERO), interval: number(0.015) };
    let mut cx = Context::new(time, entities, None, tables());
    let listener = bare("logic_branch_listener", 30);
    let mut list = BranchList::create();
    assert!(list.key_value("Branch01", &value("one")));
    assert!(!list.key_value("Branch17", &value("one")));
    list.activate(&listener, &mut cx);
    assert_eq!(list.branches(), &vec![one]);
    assert_eq!(list.state(), "not-init");
    assert!(cx.posted.is_empty());
    assert!(list.accept_input(&listener, &input("Test", Variant::Void), &mut cx));
    assert_eq!(list.state(), "all-true");
    assert_eq!(outputs(&cx), vec!["OnAllTrue"]);
}

#[test]
fn a_listener_tells_what_its_branches_come_to() {
    let mut entities = EntityList::new();
    let one = entities.insert(entity("logic_branch", Some("one")));
    let two = entities.insert(entity("logic_branch", Some("two")));
    let time = Time { curtime: num(ZERO), interval: number(0.015) };
    let mut cx = Context::new(time, entities, None, tables());
    let listener = bare("logic_branch_listener", 30);
    let mut list = BranchList::create();
    assert_eq!(list.state(), "not-init");
    list.do_test(&listener, None, &mut cx);
    assert_eq!(list.state(), "mixed", "no branches at all");
    assert!(list.key_value("Branch01", &value("one")));
    assert!(list.key_value("branch16", &value("two")));
    list.activate(&listener, &mut cx);
    assert_eq!(list.branches(), &vec![one, two]);
    list.do_test(&listener, None, &mut cx);
    assert_eq!(list.state(), "all-false");
    if let Some(Behaviour::Logic(Logic::Branch(branch))) = cx.behaviour_mut(one) {
        assert_eq!(branch.listeners, vec![id(30)]);
        branch.value = true;
    }
    list.do_test(&listener, None, &mut cx);
    assert_eq!(list.state(), "mixed");
    if let Some(Behaviour::Logic(Logic::Branch(branch))) = cx.behaviour_mut(two) {
        branch.value = true;
    }
    list.do_test(&listener, None, &mut cx);
    assert_eq!(list.state(), "all-true");
}

#[test]
fn a_case_is_picked_by_its_value() {
    let mut cx = context_at(0.0);
    let core = bare("logic_case", 3);
    let mut case = Case::create();
    assert!(case.key_value("Case02", &value("blue")));
    assert!(case.accept_input(&core, &texted("InValue", "BLUE"), 0, &mut cx));
    assert_eq!(outputs(&cx), vec!["OnCase02"]);
    assert!(case.accept_input(&core, &texted("InValue", "green"), 0, &mut cx));
    assert_eq!(outputs(&cx)[1], "OnDefault");
    assert_eq!(Case::output_name(15), "OnCase16");
}

#[test]
fn a_shuffle_deals_each_case_once_and_does_not_repeat_the_last() {
    let mut cx = context_at(0.0);
    let mut core = bare("logic_case", 3);
    connect(&mut core, "OnCase01");
    connect(&mut core, "OnCase03");
    connect(&mut core, "OnCase05");
    assert_eq!(Case::build_case_map(&core), vec![0, 2, 4]);
    let mut case = Case::create();
    for _ in 0..4 {
        let choices = case.shuffle_choices(&core);
        assert!(choices > 0);
        case.pick_random_shuffle(&core, None, choices - 1, &mut cx);
    }
    let dealt = outputs(&cx);
    let mut first: Vec<&str> = dealt[..3].to_vec();
    first.sort_unstable();
    assert_eq!(first, vec!["OnCase01", "OnCase03", "OnCase05"]);
    assert_ne!(dealt[2], dealt[3], "a new deck does not start with the last case");
}

#[test]
fn each_batch_of_a_shuffle_deals_every_case_once() {
    for roll in 0..3usize {
        let mut cx = context_at(0.0);
        let mut core = bare("logic_case", 3);
        connect(&mut core, "OnCase02");
        connect(&mut core, "OnCase04");
        connect(&mut core, "OnCase08");
        connect(&mut core, "OnCase16");
        let mut case = Case::create();
        for deal in 0..12usize {
            let choices = case.shuffle_choices(&core);
            case.pick_random_shuffle(&core, Some(id(deal)), (roll + deal) % choices, &mut cx);
        }
        let dealt = outputs(&cx);
        for batch in dealt.chunks(4) {
            let mut batch: Vec<&str> = batch.to_vec();
            batch.sort_unstable();
            assert_eq!(batch, vec!["OnCase02", "OnCase04", "OnCase08", "OnCase16"]);
        }
        assert_ne!(dealt[3], dealt[4]);
        assert_ne!(dealt[7], dealt[8]);
        match &cx.posted[5] {
            Posted::Output { activator, .. } => assert_eq!(*activator, Some(id(5))),
            _ => panic!("an output"),
        }
    }
    let mut cx = context_at(0.0);
    let mut case = Case::create();
    case.pick_random_shuffle(&bare("logic_case", 3), None, 0, &mut cx);
    assert!(cx.posted.is_empty(), "nothing is connected");
}

#[test]
fn a_counter_without_sound_bounds_still_answers() {
    let mut cx = context_at(0.0);
    let core = bare("math_counter", 3);
    let mut counter = MathCounter::create();
    counter.min = number(5.0);
    counter.max = number(1.0);
    let figures = CounterFigures { sum: num(ZERO), difference: num(ZERO), product: num(ZERO), quotient: num(ZERO) };
    assert!(counter.accept_input(&core, &input("GetValue", Variant::Void), &figures, &mut cx));
    assert!(counter.accept_input(&core, &input("Disable", Variant::Void), &figures, &mut cx));
    assert!(counter.accept_input(&core, &input("Add", Variant::Float(number(1.0))), &figures, &mut cx));
    assert_eq!(outputs(&cx), vec!["OnGetValue"]);
    let top = input("SetHitMax", Variant::Float(number(9.0)));
    let nonsense = input("SetHitMin", Variant::Float(number(f32::NAN)));
    let add = input("Add", Variant::Float(number(1.0)));
    assert!(counter.takes(&top));
    assert!(!counter.takes(&nonsense));
    assert!(counter.takes(&add), "disabled");
    counter.disabled = false;
    assert!(!counter.takes(&add));
    assert!(counter.takes(&input("GetValue", Variant::Void)));
    assert!(counter.accept_input(&core, &top, &figures, &mut cx), "the bounds are sound by then");
    assert_eq!((counter.min, counter.max), (number(5.0), number(9.0)));
}

#[test]
fn a_proxy_passes_an_input_on_under_its_own_name() {
    let mut cx = context_at(0.0);
    let core = bare("func_instance_io_proxy", 3);
    let mut proxy = InstanceIoProxy::create();
    assert!(proxy.accept_input(&core, &input("onproxyrelay30", Variant::Void), &mut cx));
    assert!(!proxy.accept_input(&core, &input("OnProxyRelay31", Variant::Void), &mut cx));
    match &cx.posted[0] {
        Posted::Output { output, caller, activator, .. } => {
            assert_eq!(*output, "OnProxyRelay30");
            assert_eq!(*caller, Some(id(71)));
            assert_eq!(*activator, Some(id(70)));
        }
        _ => panic!("an output"),
    }
}

// ---------------------------------------------------------------------------
// Movers
// ---------------------------------------------------------------------------

fn spawned_door(core: &mut EntityCore, cx: &mut Context) -> Door {
    let mut door = Door::create();
    assert!(door.key_value("wait", &value("3")));
    let figures = DoorFigures {
        move_dir: vector(0.0, 0.0, 1.0),
        position2: vector(0.0, 0.0, 64.0),
        angle2: origin(),
    };
    assert_eq!(door.spawn(core, &figures, cx), SpawnResult::Keep);
    door
}

#[test]
fn a_door_opens_waits_and_shuts() {
    let mut cx = context_at(0.0);
    let mut core = bare("func_door", 3);
    let mut door = spawned_door(&mut core, &mut cx);
    assert_eq!(door.toggle.state, ToggleState::AtBottom);
    assert_eq!(core.drive.speed, number(100.0));
    assert!(door.accept_input(&mut core, &input("Open", Variant::Void), &mut cx));
    assert_eq!(door.toggle.state, ToggleState::GoingUp);
    assert_eq!(core.agenda.motion, Motion::Linear { to: vector(0.0, 0.0, 64.0), speed: number(100.0) });
    door.move_done(&mut core, &mut cx);
    assert_eq!(door.toggle.state, ToggleState::AtTop);
    assert_eq!(core.place.local_origin, vector(0.0, 0.0, 64.0));
    assert_eq!(door.move_done, DoorMoveDone::GoDown);
    door.move_done(&mut core, &mut cx);
    assert_eq!(door.toggle.state, ToggleState::GoingDown);
    door.move_done(&mut core, &mut cx);
    assert_eq!(door.toggle.state, ToggleState::AtBottom);
    assert_eq!(outputs(&cx), vec!["OnOpen", "OnFullyOpen", "OnClose", "OnFullyClosed"]);
}

#[test]
fn a_locked_door_stays_shut() {
    let mut cx = context_at(0.0);
    let mut core = bare("func_door", 3);
    let mut door = spawned_door(&mut core, &mut cx);
    assert!(door.accept_input(&mut core, &input("Lock", Variant::Void), &mut cx));
    assert!(door.accept_input(&mut core, &input("Open", Variant::Void), &mut cx));
    assert!(door.accept_input(&mut core, &input("Toggle", Variant::Void), &mut cx));
    assert_eq!(door.toggle.state, ToggleState::AtBottom);
    assert!(cx.posted.is_empty());
}

#[test]
fn a_door_with_nowhere_to_go_arrives_first() {
    let mut cx = context_at(0.0);
    let mut core = bare("func_door", 3);
    let mut door = spawned_door(&mut core, &mut cx);
    core.place.local_origin = vector(0.0, 0.0, 64.0);
    door.go_up(&mut core, &mut cx);
    assert_eq!(outputs(&cx), vec!["OnFullyOpen", "OnOpen"]);
}

#[test]
fn a_blocked_door_hurts_and_turns_round() {
    let mut entities = EntityList::new();
    let mut victim = entity("info_target", None);
    victim.core.vitals.take_damage = DamageMode::Yes;
    let victim = entities.insert(victim);
    let time = Time { curtime: num(ZERO), interval: number(0.015) };
    let mut cx = Context::new(time, entities, None, tables());
    let mut core = bare("func_door", 9);
    let mut door = spawned_door(&mut core, &mut cx);
    assert!(door.key_value("dmg", &value("5")));
    door.go_up(&mut core, &mut cx);
    door.blocked(&mut core, victim, &mut cx);
    assert_eq!(door.toggle.state, ToggleState::AtBottom, "it had not left its shut end");
    let queue = cx.take_damage_queue();
    assert_eq!(queue.len(), 1);
    assert_eq!(queue[0].1.damage, number(5.0));
    assert_eq!(queue[0].1.damage_type, DMG_CRUSH);
}

#[test]
fn a_button_goes_in_and_comes_back() {
    let mut cx = context_at(0.0);
    let mut core = bare("func_button", 3);
    let mut button = Button::create();
    assert_eq!(button.travel_lip(), number(4.0));
    let figures = ButtonFigures {
        move_dir: vector(1.0, 0.0, 0.0),
        position2: vector(6.0, 0.0, 0.0),
        travel: number(6.0),
    };
    button.spawn(&mut core, &figures, &mut cx);
    button.press(&mut core, ButtonCode::Press, &mut cx);
    assert_eq!(button.toggle.state, ToggleState::GoingUp);
    button.press(&mut core, ButtonCode::Press, &mut cx);
    assert_eq!(outputs(&cx), vec!["OnPressed"], "under way");
    button.move_done(&mut core, &mut cx);
    assert_eq!(button.toggle.state, ToggleState::AtTop);
    assert_eq!(core.agenda.schedule, Schedule::After(number(1.0)));
    button.think(&mut core, &mut cx);
    button.move_done(&mut core, &mut cx);
    assert_eq!(button.toggle.state, ToggleState::AtBottom);
    assert_eq!(outputs(&cx), vec!["OnPressed", "OnIn", "OnOut"]);
}

#[test]
fn a_locked_button_says_so_when_used() {
    let mut cx = context_at(0.0);
    let mut core = bare("func_button", 3);
    core.spawn_flags = SF_BUTTON_TOGGLE;
    let mut button = Button::create();
    assert!(button.accept_input(&mut core, &input("Lock", Variant::Void), &mut cx));
    button.press(&mut core, ButtonCode::Press, &mut cx);
    assert!(cx.posted.is_empty());
    button.use_entity(&mut core, UseType::Other, &input("Use", Variant::Void), &mut cx);
    assert_eq!(outputs(&cx), vec!["OnUseLocked"]);
}

#[test]
fn a_sliding_brush_is_used_only_to_set_it() {
    let mut cx = context_at(0.0);
    let mut core = bare("func_movelinear", 3);
    let mut brush = MoveLinear::create();
    let figures = MoveLinearFigures {
        move_dir: vector(1.0, 0.0, 0.0),
        measured: number(100.0),
        position1: origin(),
        position2: vector(100.0, 0.0, 0.0),
    };
    brush.spawn(&mut core, &figures, &mut cx);
    let figures = SlideFigures {
        target: vector(50.0, 0.0, 0.0),
        distance: number(50.0),
        speed: number(10.0),
        remaining_squared: num(ZERO),
    };
    brush.use_entity(&mut core, UseType::Toggle, &figures, &mut cx);
    assert_eq!(core.agenda.motion, Motion::Keep);
    brush.use_entity(&mut core, UseType::SetTo, &figures, &mut cx);
    assert_eq!(core.agenda.motion, Motion::Linear { to: vector(50.0, 0.0, 0.0), speed: number(10.0) });
    assert_eq!(MoveLinear::used_fraction(number(7.0)), number(1.0));
}

#[test]
fn a_turning_brush_turns_about_its_axis_the_way_it_is_told() {
    let cx = context_at(0.0);
    let mut core = bare("func_rotating", 3);
    core.spawn_flags = SF_BRUSH_ROTATE_BACKWARDS;
    let mut brush = Rotating::create();
    assert!(brush.key_value("maxspeed", &value("90")));
    assert_eq!(brush.spawn(&mut core, &cx), SpawnResult::Keep);
    assert_eq!(brush.move_ang, vector(-0.0, -1.0, -0.0));
    assert_eq!(brush.check_axis(), 1);
    assert_eq!(Rotating::speed_fraction(number(-3.0)), number(1.0));
    assert_eq!(Rotating::speed_fraction(number(0.25)), number(0.25));
}

#[test]
fn a_sliding_brush_tells_of_its_ends() {
    let mut cx = context_at(0.0);
    let mut core = bare("func_movelinear", 3);
    let mut brush = MoveLinear::create();
    let figures = MoveLinearFigures {
        move_dir: vector(1.0, 0.0, 0.0),
        measured: number(100.0),
        position1: origin(),
        position2: vector(100.0, 0.0, 0.0),
    };
    brush.spawn(&mut core, &figures, &mut cx);
    assert!(brush.accept_input(&mut core, &input("Open", Variant::Void), &slide(), &mut cx));
    brush.move_done(&mut core, &mut cx);
    assert_eq!(core.place.local_origin, vector(100.0, 0.0, 0.0));
    assert!(brush.accept_input(&mut core, &input("Close", Variant::Void), &slide(), &mut cx));
    brush.move_done(&mut core, &mut cx);
    assert_eq!(core.place.local_origin, origin());
    assert_eq!(outputs(&cx), vec!["OnFullyOpen", "OnFullyClosed"]);
}

#[test]
fn a_turning_brush_has_a_largest_speed() {
    let mut cx = context_at(0.0);
    let mut core = bare("func_rotating", 3);
    let mut brush = Rotating::create();
    assert!(brush.key_value("maxspeed", &value("90")));
    brush.spawn(&mut core, &cx);
    brush.set_target_speed(&mut core, number(900.0), num(ZERO), &cx);
    assert_eq!(core.drive.speed, number(90.0));
    assert!(brush.accept_input(&mut core, &input("Stop", Variant::Void), num(ZERO), num(ZERO), &mut cx));
    assert_eq!(core.drive.speed, number(0.0));
    brush.use_entity(&mut core, num(ZERO), &cx);
    assert_eq!(core.drive.speed, number(90.0), "it stood, so it turns");
    brush.use_entity(&mut core, num(ZERO), &cx);
    assert_eq!(core.drive.speed, number(0.0));
}

// ---------------------------------------------------------------------------
// Brushes, lights and the rest that stays
// ---------------------------------------------------------------------------

#[test]
fn a_brush_is_switched_and_may_never_be_solid() {
    let mut core = bare("func_brush", 3);
    let mut brush = Brush::create();
    brush.spawn(&mut core);
    assert!(Brush::is_on(&core));
    assert!(brush.accept_input(&mut core, &input("Disable", Variant::Void)));
    assert!(!Brush::is_on(&core));
    assert_eq!(core.body.solid_flags & FSOLID_NOT_SOLID, FSOLID_NOT_SOLID);
    assert!(brush.accept_input(&mut core, &input("Toggle", Variant::Void)));
    assert!(Brush::is_on(&core));
    brush.solidity = BRUSHSOLID_NEVER;
    brush.turn_off(&mut core);
    brush.turn_on(&mut core);
    assert!(Brush::is_on(&core));
    assert_eq!(core.body.solid_flags & FSOLID_NOT_SOLID, FSOLID_NOT_SOLID);
}

#[test]
fn an_area_portal_opens_and_shuts() {
    let mut portal = AreaPortal::create();
    assert!(portal.key_value("portalnumber", &value("12")));
    assert!(portal.key_value("StartOpen", &value("0")));
    assert_eq!(portal.state(), (12, false));
    assert!(portal.accept_input(&input("Toggle", Variant::Void)));
    assert_eq!(portal.state(), (12, true));
    assert!(portal.accept_input(&input("Close", Variant::Void)));
    assert_eq!(portal.state(), (12, false));
}

#[test]
fn a_light_is_on_unless_it_was_switched_off() {
    let mut core = bare("light", 3);
    let mut light = Light::new();
    assert!(light.is_on(&core));
    assert!(light.accept_input(&mut core, &input("TurnOff", Variant::Void)));
    assert!(!light.is_on(&core));
    assert_eq!(core.spawn_flags & SF_LIGHT_START_OFF, SF_LIGHT_START_OFF);
    assert!(light.accept_input(&mut core, &texted("SetPattern", "mmnmmo")));
    assert!(light.is_on(&core));
    assert_eq!(light.pattern.as_deref(), Some("mmnmmo"));
    assert!(!light.accept_input(&mut core, &input("Explode", Variant::Void)));
}

#[test]
fn a_tone_mapper_takes_numbers() {
    let mut core = bare("env_tonemap_controller", 3);
    let mut controller = TonemapController::create(tonemap());
    assert!(controller.accept_input(&input("SetAutoExposureMax", Variant::Float(number(1.5)))));
    let settings = controller.settings();
    assert!(settings.exposure.use_custom_auto_exposure_max);
    assert_eq!(settings.exposure.custom_auto_exposure_max, number(1.5));
    assert!(!TonemapController::is_master(&core));
    core.spawn_flags = SF_TONEMAP_MASTER;
    assert!(TonemapController::is_master(&core));
}

#[test]
fn the_world_reads_its_keys() {
    let mut world = World::create();
    assert_eq!(world.max_prop_screen_width, number(-1.0));
    assert!(world.key_value("skyname", &value("sky_black_nofog")));
    assert!(world.key_value("world_mins", &value("-1 -2 -3")));
    assert!(world.key_value("maxblobcount", &value("7")));
    assert_eq!(world.sky_name.as_deref(), Some("sky_black_nofog"));
    assert_eq!(world.world_mins, vector(-1.0, -2.0, -3.0));
    assert_eq!(world.max_blob_count, 7);
    assert!(!world.key_value("classname", &value("worldspawn")));
}

#[test]
fn the_sky_camera_asks_to_be_looked_through() {
    let mut cx = context_at(0.0);
    let core = bare("sky_camera", 3);
    let mut camera = SkyCamera::create();
    assert!(camera.key_value("scale", &value("16")));
    assert_eq!(camera.params().scale, 16);
    assert!(camera.accept_input(&core, &input("ActivateSkybox", Variant::Void), &mut cx));
    assert_eq!(cx.take_activated_skybox(), Some(id(3)));
    assert!(!camera.accept_input(&core, &input("Explode", Variant::Void), &mut cx));
}

#[test]
fn a_teleport_point_sends_its_target_there() {
    let mut entities = EntityList::new();
    let crate_id = entities.insert(entity("info_target", Some("crate")));
    let time = Time { curtime: num(ZERO), interval: number(0.015) };
    let mut cx = Context::new(time, entities, None, tables());
    let mut core = bare("point_teleport", 9);
    core.target = Some("crate".to_owned());
    core.place.origin = vector(1.0, 2.0, 3.0);
    let mut point = PointTeleport::create();
    point.activate(&mut core, &mut cx);
    assert!(point.accept_input(&core, &input("Teleport", Variant::Void), &mut cx));
    assert_eq!(cx.outbox.teleports.len(), 1);
    assert_eq!(cx.outbox.teleports[0].0, crate_id);
    match cx.outbox.teleports[0].1 {
        Teleport::To { place, .. } => assert_eq!(place.origin, vector(1.0, 2.0, 3.0)),
        _ => panic!("to a place"),
    }
}

// ---------------------------------------------------------------------------
// Filters
// ---------------------------------------------------------------------------

#[test]
fn a_filter_by_name_passes_the_name_and_its_negation_the_rest() {
    let mut filter = FilterName::create();
    assert!(filter.key_value("filtername", &value("box*")));
    let mut other = bare("info_target", 4);
    other.name = Some("box_7".to_owned());
    assert!(filter.passes_filter(&other));
    other.name = Some("sphere".to_owned());
    assert!(!filter.passes_filter(&other));
    assert!(filter.key_value("Negated", &value("1")));
    assert!(filter.passes_filter(&other));
}

#[test]
fn a_combination_asks_its_filters() {
    let mut entities = EntityList::new();
    let mut by_name = FilterName::create();
    by_name.key_value("filtername", &value("box"));
    let mut first = entity("filter_activator_name", Some("f1"));
    first.behaviour = Behaviour::Filter(Filter::FilterName(by_name));
    entities.insert(first);
    let mut by_other = FilterName::create();
    by_other.key_value("filtername", &value("ball"));
    let mut second = entity("filter_activator_name", Some("f2"));
    second.behaviour = Behaviour::Filter(Filter::FilterName(by_other));
    entities.insert(second);
    let time = Time { curtime: num(ZERO), interval: number(0.015) };
    let cx = Context::new(time, entities, None, tables());
    let mut multi = FilterMulti::create();
    assert!(multi.key_value("Filter01", &value("f1")));
    assert!(multi.key_value("Filter02", &value("f2")));
    multi.activate(&cx);
    let mut other = bare("info_target", 4);
    other.name = Some("box".to_owned());
    assert!(!multi.passes_filter(&other, &cx.filters()), "both have to pass");
    assert!(multi.key_value("FilterType", &value("1")));
    assert!(multi.passes_filter(&other, &cx.filters()), "one is enough");
    assert!(cx.filters().passes(id(99), &other), "a filter that is not there passes everything");
    assert_eq!(cx.filters().find("f2"), Some(id(1)));
}

#[test]
fn a_filter_by_damage_looks_past_the_direct_bit() {
    let mut filter = FilterDamageType::create();
    assert!(filter.key_value("damagetype", &value("1")));
    assert!(filter.passes_damage_filter(&DamageInfo::new(None, None, num(ZERO), DMG_CRUSH | DMG_DIRECT)));
    assert!(!filter.passes_damage_filter(&DamageInfo::new(None, None, num(ZERO), 2)));
}

#[test]
fn damage_is_queued_for_whom_it_can_hurt() {
    let mut entities = EntityList::new();
    let immune = entities.insert(entity("info_target", None));
    let mut soft = entity("info_target", None);
    soft.core.vitals.take_damage = DamageMode::Yes;
    let soft = entities.insert(soft);
    let time = Time { curtime: num(ZERO), interval: number(0.015) };
    let mut cx = Context::new(time, entities, None, tables());
    let info = DamageInfo::new(None, None, number(3.0), 0);
    assert!(!cx.take_damage(immune, info));
    assert!(!cx.take_damage(id(40), info));
    assert!(cx.take_damage(soft, info));
    assert_eq!(cx.take_damage_queue(), vec![(soft, info)]);
}

// ---------------------------------------------------------------------------
// Triggers and pads
// ---------------------------------------------------------------------------

fn server_with_a_client() -> (Context, EntityId) {
    let mut entities = EntityList::new();
    let mut player = entity("player", None);
    player.core.flags = FL_CLIENT;
    player.core.vitals.take_damage = DamageMode::Yes;
    let player = entities.insert(player);
    let time = Time { curtime: number(10.0), interval: number(0.015) };
    (Context::new(time, entities, Some(player), tables()), player)
}

#[test]
fn a_trigger_notices_the_first_and_the_last() {
    let (mut cx, player) = server_with_a_client();
    let mut core = bare("trigger_multiple", 9);
    core.spawn_flags = SF_TRIGGER_ALLOW_CLIENTS;
    let mut trigger = BaseTrigger::new();
    assert!(trigger.start_touch(&core, player, &mut cx));
    assert!(trigger.start_touch(&core, player, &mut cx));
    assert_eq!(trigger.touching, vec![player]);
    assert!(trigger.end_touch(&core, player, &mut cx));
    assert!(!trigger.end_touch(&core, player, &mut cx));
    assert_eq!(
        outputs(&cx),
        vec!["OnStartTouch", "OnStartTouchAll", "OnStartTouch", "OnEndTouch", "OnEndTouchAll"]
    );
    core.spawn_flags = 0;
    assert!(!trigger.start_touch(&core, player, &mut cx), "not of a kind that it lets in");
    core.spawn_flags = SF_TRIGGER_ALLOW_ALL;
    assert!(trigger.passes_trigger_filters(&core, player, &cx));
}

#[test]
fn a_trigger_waits_before_it_fires_again() {
    let (mut cx, player) = server_with_a_client();
    let mut core = bare("trigger_multiple", 9);
    core.spawn_flags = SF_TRIGGER_ALLOW_CLIENTS;
    let mut trigger = TriggerMultiple::create();
    trigger.spawn(&mut core, &mut cx);
    assert_eq!(trigger.wait, number(0.2));
    assert_eq!(core.body.solid_flags & FSOLID_TRIGGER, FSOLID_TRIGGER);
    trigger.touch(&mut core, player, &mut cx);
    assert_eq!(outputs(&cx), vec!["OnTrigger"]);
    assert_eq!(core.agenda.schedule, Schedule::After(number(0.2)));
    core.agenda.next_think = number(10.2);
    trigger.touch(&mut core, player, &mut cx);
    assert_eq!(outputs(&cx), vec!["OnTrigger"]);
}

#[test]
fn a_trigger_that_fires_once_goes() {
    let (mut cx, player) = server_with_a_client();
    let mut core = bare("trigger_once", 9);
    core.spawn_flags = SF_TRIGGER_ALLOW_CLIENTS;
    let mut trigger = TriggerMultiple::create_once();
    assert!(!trigger.key_value("wait", &value("4")));
    trigger.spawn(&mut core, &mut cx);
    trigger.touch(&mut core, player, &mut cx);
    trigger.touch(&mut core, player, &mut cx);
    assert_eq!(outputs(&cx), vec!["OnTrigger"]);
    trigger.think(&mut core, &mut cx);
    assert!(core.agenda.removed);
}

#[test]
fn a_hurting_trigger_counts_whom_it_hurt() {
    let (mut cx, player) = server_with_a_client();
    let mut core = bare("trigger_hurt", 9);
    core.spawn_flags = SF_TRIGGER_ALLOW_CLIENTS;
    core.touch_links = vec![player, id(50)];
    let mut trigger = TriggerHurt::create();
    assert!(trigger.key_value("damage", &value("10")));
    let figures = HurtFigures { doubled: number(20.0), forgiven_at: number(13.0), since: number(0.5) };
    assert_eq!(trigger.hurt_all_touchers(&core, &figures, &mut cx), 1);
    assert_eq!(trigger.hurt_entities, vec![player]);
    assert_eq!(outputs(&cx), vec!["OnHurtPlayer"]);
    assert!(cx.take_damage_queue().is_empty(), "it says so, and that is all");
}

#[test]
fn a_teleport_trigger_sends_who_touches_it() {
    let mut entities = EntityList::new();
    let mut player = entity("player", None);
    player.core.flags = FL_CLIENT;
    let player = entities.insert(player);
    let mut exit = entity("info_target", Some("exit"));
    exit.core.place.origin = vector(5.0, 6.0, 7.0);
    entities.insert(exit);
    let time = Time { curtime: num(ZERO), interval: number(0.015) };
    let mut cx = Context::new(time, entities, Some(player), tables());
    let mut core = bare("trigger_teleport", 9);
    core.spawn_flags = SF_TRIGGER_ALLOW_CLIENTS;
    let mut trigger = TriggerTeleport::create();
    trigger.touch(&core, player, &mut cx);
    assert!(cx.outbox.teleports.is_empty(), "nowhere to send them");
    core.target = Some("exit".to_owned());
    trigger.touch(&core, player, &mut cx);
    assert_eq!(cx.outbox.teleports.len(), 1);
}

#[test]
fn a_pad_makes_a_box_that_presses_it() {
    let (mut cx, player) = server_with_a_client();
    let pad = cx.create_entity("prop_floor_button").expect("registered");
    let mut taken = cx.entities.take(pad).expect("there");
    let Entity { core, behaviour } = &mut taken;
    let trigger = match behaviour {
        Behaviour::Prop(Prop::FloorButton(button)) => {
            assert_eq!(button.spawn(core, &mut cx), SpawnResult::Keep);
            assert_eq!(core.model.as_deref(), Some("models/props/portal_button.mdl"));
            button.trigger.expect("made")
        }
        _ => panic!("a pad"),
    };
    cx.entities.put_back(pad, taken);
    assert_eq!(cx.take_created(), vec![pad, trigger]);

    let mut taken = cx.entities.take(trigger).expect("there");
    let Entity { core, behaviour } = &mut taken;
    match behaviour {
        Behaviour::Trigger(Trigger::ButtonTrigger(over)) => {
            assert_eq!(over.owner, Some(pad));
            over.spawn(core, &mut cx);
            assert_eq!(core.body.solid, Solid::Obb);
            assert_eq!(core.body.bounds.maxs, vector(20.0, 20.0, 14.0));
            over.start_touch(core, player, &mut cx);
            over.end_touch(core, player, &mut cx);
        }
        _ => panic!("a box"),
    }
    let pressed: Vec<&str> = cx
        .posted
        .iter()
        .filter_map(|p| match p {
            Posted::ToEntity { target, input, .. } => {
                assert_eq!(*target, pad);
                Some(*input)
            }
            _ => None,
        })
        .collect();
    assert_eq!(pressed, vec!["PressIn", "PressOut"]);
}

#[test]
fn a_pad_shows_that_it_is_pressed() {
    let mut cx = context_at(3.0);
    let core = bare("prop_floor_button", 3);
    let mut pad = entity_server::classes::floor_button::FloorButton::create();
    assert!(pad.accept_input(&core, &input("PressIn", Variant::Void), &mut cx));
    assert!(pad.pressed);
    assert_eq!((pad.skin, pad.sequence, pad.anim_time), (1, PadSequence::Down, number(3.0)));
    assert!(pad.accept_input(&core, &input("PressOut", Variant::Void), &mut cx));
    assert_eq!((pad.pressed, pad.skin, pad.sequence), (false, 0, PadSequence::Up));
    assert_eq!(outputs(&cx), vec!["OnPressed", "OnUnPressed"]);
}

// ---------------------------------------------------------------------------
// Props
// ---------------------------------------------------------------------------

#[test]
fn an_old_skin_says_what_kind_of_cube_it_is() {
    let mut cube = WeightedCube::create();
    assert!(cube.key_value("skin", &value("3")));
    cube.convert_old_skins();
    assert_eq!((cube.skin, cube.cube_type, cube.new_skins), (2, CubeType::Reflective, true));
    cube.convert_old_skins();
    assert_eq!((cube.skin, cube.cube_type), (2, CubeType::Reflective));
    let mut core = bare("prop_weighted_cube", 3);
    cube.cube_type = CubeType::Schrodinger;
    cube.set_cube_type(&mut core);
    assert_eq!(cube.cube_type, CubeType::Reflective);
    assert_eq!(core.model.as_deref(), Some(CubeType::Reflective.model()));
    assert_eq!(CubeType::from_int(1), CubeType::Companion);
    assert_eq!(CubeType::from_int(77), CubeType::Standard);
    assert_eq!(PaintPower::from_int(0), PaintPower::Bounce);
    assert_eq!(PaintPower::Unpainted.name(), "none");
}

#[test]
fn a_cube_is_painted_and_fizzled() {
    let mut cx = context_at(0.0);
    let mut core = bare("prop_weighted_cube", 3);
    let mut cube = WeightedCube::create();
    cube.new_skins = true;
    cube.spawn(&mut core, &mut cx);
    assert_eq!(cx.take_physics_queue()[0].request, Request::InitNormal { asleep: false });
    cube.paint(&core, PaintPower::Bounce, &mut cx);
    cube.paint(&core, PaintPower::Bounce, &mut cx);
    assert_eq!(cube.skin, 6);
    assert_eq!(outputs(&cx), vec!["OnPainted"]);
    cube.dissolve(&mut core, &mut cx);
    assert!(core.agenda.removed);
    assert_eq!(outputs(&cx), vec!["OnPainted", "OnFizzled"]);
}

#[test]
fn painting_a_cube_again_changes_nothing() {
    for (paint, power, told) in [
        (0, PaintPower::Bounce, 1),
        (1, PaintPower::Reflect, 1),
        (2, PaintPower::Speed, 1),
        (3, PaintPower::Portal, 1),
        (4, PaintPower::Unpainted, 0),
        (-1, PaintPower::Unpainted, 0),
    ] {
        let mut cx = context_at(0.0);
        let mut core = bare("prop_weighted_cube", 3);
        let mut cube = WeightedCube::create();
        cube.new_skins = true;
        let set = input("setpaint", Variant::Int(paint));
        assert!(cube.accept_input(&mut core, &set, &mut cx));
        assert_eq!(cube.painted_power, power);
        assert_eq!(cx.posted.len(), told);
        let first = format!("{cube:?}");
        assert!(cube.accept_input(&mut core, &set, &mut cx));
        assert_eq!(format!("{cube:?}"), first);
        assert_eq!(cx.posted.len(), told);
    }
}

fn server_with_a_model() -> Context {
    let mut tables = tables();
    tables.sequences.models.push(LoadedModel {
        model: "models/door.mdl".to_owned(),
        sequences: vec![
            Sequence { label: "open".to_owned(), info: SequenceInfo { duration: number(2.0), loops: false } },
            Sequence { label: "idle".to_owned(), info: SequenceInfo { duration: number(1.0), loops: true } },
        ],
    });
    let time = Time { curtime: number(5.0), interval: number(0.015) };
    Context::new(time, EntityList::new(), None, tables)
}

#[test]
fn a_sequence_is_found_on_a_loaded_model() {
    let cx = server_with_a_model();
    let open = SequenceInfo { duration: number(2.0), loops: false };
    assert_eq!(cx.sequence("MODELS/door.mdl", "OPEN"), Lookup::Found(open));
    assert_eq!(cx.sequence("models/door.mdl", "shut"), Lookup::Missing);
    assert_eq!(cx.sequence("models/arm.mdl", "open"), Lookup::Unknown);
}

#[test]
fn a_prop_plays_an_animation_and_fades_away() {
    let mut cx = server_with_a_model();
    let mut core = bare("prop_dynamic", 3);
    core.model = Some("models/door.mdl".to_owned());
    let mut prop = DynamicProp::create();
    assert_eq!(prop.spawn(&mut core, &mut cx), SpawnResult::Keep);
    prop.prop_set_anim(&mut core, "open", &mut cx);
    assert_eq!(prop.sequence, "open");
    assert_eq!(outputs(&cx), vec!["OnAnimationBegun"]);
    let info = SequenceInfo { duration: number(2.0), loops: false };
    let figures = PlayFigures { advanced: number(1.5), wrapped: number(0.5) };
    assert_eq!(prop.cycle_now(info, &figures), number(1.0));
    prop.fading = true;
    let figures = FadeFigures { left: number(0.0), byte: 0 };
    prop.fade_think(&mut core, &figures, &cx);
    assert!(core.agenda.removed);
}

#[test]
fn a_new_playback_rate_does_not_make_the_pose_jump() {
    let mut cx = server_with_a_model();
    let mut core = bare("prop_dynamic", 3);
    core.model = Some("models/door.mdl".to_owned());
    let mut prop = DynamicProp::create();
    prop.prop_set_anim(&mut core, "open", &mut cx);
    let posted = cx.posted.len();
    let info = SequenceInfo { duration: number(2.0), loops: false };
    cx.time.curtime = number(6.0);
    let before = PlayFigures { advanced: number(0.5), wrapped: number(0.5) };
    let cycle = prop.cycle_now(info, &before);
    let rate = input("SetPlaybackRate", Variant::Float(number(3.0)));
    assert!(prop.accept_input(&mut core, &rate, &before, &mut cx));
    assert_eq!(prop.pose.anim_time, number(6.0));
    assert_eq!(prop.pose.playback_rate, number(3.0));
    assert_eq!(prop.sequence, "open");
    assert_eq!(cx.posted.len(), posted);
    let after = PlayFigures { advanced: prop.pose.cycle, wrapped: prop.pose.cycle };
    assert_eq!(prop.cycle_now(info, &after), cycle);
    cx.time.curtime = number(7.0);
    assert!(prop.accept_input(&mut core, &rate, &before, &mut cx));
    assert_eq!(prop.pose.anim_time, number(6.0), "the rate that there is changes nothing");
}

#[test]
fn a_chamber_door_opens_once_and_not_while_locked() {
    let mut cx = server_with_a_model();
    let mut core = bare("prop_testchamber_door", 3);
    core.model = Some("models/door.mdl".to_owned());
    let mut door = TestChamberDoor::create();
    let figures = DoorPlayFigures { advanced: num(ZERO), wrapped: num(ZERO), last_visible: num(ZERO) };
    assert!(door.accept_input(&core, &input("Lock", Variant::Void), &figures, &mut cx));
    assert!(door.accept_input(&core, &input("Open", Variant::Void), &figures, &mut cx));
    assert!(!door.is_open());
    assert!(door.accept_input(&core, &input("Unlock", Variant::Void), &figures, &mut cx));
    assert!(door.accept_input(&core, &input("Open", Variant::Void), &figures, &mut cx));
    assert!(door.is_open());
    assert!(door.is_animating());
    assert_eq!(outputs(&cx), vec!["OnOpen"]);
}

#[test]
fn portals_of_a_group_find_each_other() {
    let mut entities = EntityList::new();
    let mut blue = entity("prop_portal", None);
    if let Behaviour::Prop(Prop::PropPortal(p)) = &mut blue.behaviour {
        p.activated = true;
    }
    let blue = entities.insert(blue);
    let orange = entities.insert(entity("prop_portal", None));
    let time = Time { curtime: num(ZERO), interval: number(0.015) };
    let mut cx = Context::new(time, entities, None, tables());
    let mut taken = cx.entities.take(orange).expect("there");
    let Entity { core, behaviour } = &mut taken;
    if let Behaviour::Prop(Prop::PropPortal(p)) = behaviour {
        p.activated = true;
        p.update_linkage(core, &mut cx);
        assert_eq!(p.linked, Some(blue));
        assert!(p.is_active_and_linked());
        assert!(matches!(p.matrix, Transit::Between { .. }));
    }
    let partner = PropPortal::read(&cx, blue).expect("a portal");
    assert_eq!(partner.linked, Some(orange));
    assert!(partner.activated);
    assert!(partner.is_portal2, "it takes the other colour");
    assert!(matches!(partner.matrix, Transit::Between { .. }), "it leads back");
    if let Behaviour::Prop(Prop::PropPortal(p)) = behaviour {
        assert!(!p.is_portal2, "it keeps its own");
        p.set_active(false);
        p.update_linkage(core, &mut cx);
        assert_eq!(p.linked, None);
        assert_eq!(p.matrix, Transit::Identity);
    }
    let partner = PropPortal::read(&cx, blue).expect("a portal");
    assert_eq!(partner.linked, None);
    assert_eq!(partner.matrix, Transit::Identity);
}

#[test]
fn a_brush_aims_at_a_speed_where_it_can() {
    let mut core = bare("func_rotating", 3);
    let mut brush = Rotating::create();
    brush.keys.max_speed = number(-1.0);
    assert!(!brush.may_aim(&core));
    assert!(!brush.takes(&core, &input("START", Variant::Void)));
    assert!(brush.takes(&core, &input("GetSpeed", Variant::Void)));
    assert!(brush.may_think(&core));
    brush.think = RotatingThink::CallUseToggle;
    assert!(!brush.may_think(&core));
    core.spawn_flags = SF_BRUSH_ACCDCC;
    assert!(brush.may_aim(&core));
    assert!(brush.takes(&core, &input("Start", Variant::Void)));
    assert!(brush.may_think(&core));
    assert!(!brush.is_bounded());
    brush.keys.max_speed = number(100.0);
    assert!(brush.is_bounded());
}

#[test]
fn a_portal_alone_leads_nowhere() {
    let mut cx = context_at(0.0);
    let mut core = bare("prop_portal", 3);
    let mut portal = PropPortal::create();
    portal.set_active(true);
    portal.update_linkage(&core, &mut cx);
    assert_eq!(portal.linked, None);
    assert!(!portal.is_active_and_linked());
    assert_eq!(portal.matrix, Transit::Identity);
    portal.resize(&mut core, number(10.0), number(20.0), &mut cx);
    assert_eq!(core.body.bounds.maxs, vector(64.0, 10.0, 20.0));
    assert_eq!(core.body.bounds.mins, vector(0.0, -10.0, -20.0));
    portal.new_location(&mut core, Placement { origin: vector(1.0, 0.0, 0.0), angles: origin() }, &mut cx);
    assert_eq!(core.place.origin, vector(1.0, 0.0, 0.0));
}

// ---------------------------------------------------------------------------
// The player
// ---------------------------------------------------------------------------

#[test]
fn a_button_goes_down_once() {
    let mut player = Player::create();
    player.update_button_state(IN_JUMP);
    assert_eq!(player.pressed_buttons(), IN_JUMP);
    player.update_button_state(IN_JUMP | IN_USE);
    assert_eq!(player.pressed_buttons(), IN_USE);
    assert_eq!(player.buttons(), IN_JUMP | IN_USE);
}

#[test]
fn a_player_is_hurt_spared_and_killed() {
    let cx = context_at(7.0);
    let mut core = bare("player", 3);
    let mut player = Player::create();
    assert_eq!(player.spawn(&mut core), SpawnResult::Keep);
    assert_eq!(core.vitals.health, 100);
    let info = DamageInfo::new(None, None, number(10.0), 0);
    let hurt = Wound { result: Damaged::Hurt, health: 90, accumulator: num(ZERO) };
    core.flags |= FL_GODMODE;
    assert_eq!(player.on_take_damage(&mut core, &info, &hurt, &cx), Damaged::Refused);
    assert_eq!(core.vitals.health, 100);
    core.flags &= !FL_GODMODE;
    assert_eq!(player.on_take_damage(&mut core, &info, &hurt, &cx), Damaged::Hurt);
    assert_eq!(core.vitals.health, 90);
    let killed = Wound { result: Damaged::Killed, health: -10, accumulator: num(ZERO) };
    assert_eq!(player.on_take_damage(&mut core, &info, &killed, &cx), Damaged::Killed);
    assert_eq!(core.vitals.life_state, LifeState::Dying);
    assert_eq!(player.death_time, number(7.0));
    assert_eq!(player.on_take_damage(&mut core, &info, &killed, &cx), Damaged::Refused);
}

#[test]
fn a_dead_player_starts_the_level_over() {
    let mut cx = context_at(20.0);
    let mut core = bare("player", 3);
    let mut player = Player::create();
    player.spawn(&mut core);
    assert!(player.commit_suicide(&mut core, &mut cx, false, number(25.0)));
    assert!(!player.commit_suicide(&mut core, &mut cx, false, number(25.0)), "dead already");
    let figures = DeathFigures { speed: num(ZERO), slowed: origin(), respawn_at: number(19.0) };
    player.think(&mut core, &figures, &mut cx);
    assert!(cx.take_reload_level());
    assert!(!cx.take_reload_level());
}

#[test]
fn a_restart_freezes_the_player_and_counts_it_as_dead() {
    let (mut cx, player) = server_with_a_client();
    if let Some(core) = cx.entity_mut(player) {
        core.vitals.health = 80;
        core.body.move_type = MoveType::Walk;
    }
    let mut core = bare("player_loadsaved", 9);
    let mut restart = RevertSaved::create();
    assert!(restart.key_value("loadtime", &value("2.5")));
    assert!(!restart.accept_input(&mut core, &input("Load", Variant::Void), &mut cx));
    assert_eq!(cx.entity(player).expect("there").core.vitals.life_state, LifeState::Alive);
    assert!(restart.accept_input(&mut core, &input("RELOAD", Variant::Void), &mut cx));
    assert_eq!(core.agenda.schedule, Schedule::After(number(2.5)));
    let frozen = &cx.entity(player).expect("there").core;
    assert_eq!(frozen.flags, FL_CLIENT | FL_NOTARGET | FL_FROZEN);
    assert_eq!(frozen.vitals.life_state, LifeState::Dead);
    assert_eq!(frozen.vitals.health, 80);
    assert_eq!(frozen.body.move_type, MoveType::Walk);
    restart.think(&mut cx);
    assert!(cx.take_reload_level());
}

#[test]
fn a_restart_without_a_player_only_waits() {
    let mut cx = context_at(0.0);
    let mut core = bare("player_loadsaved", 9);
    let mut restart = RevertSaved::create();
    assert!(restart.accept_input(&mut core, &input("Reload", Variant::Void), &mut cx));
    assert_eq!(core.agenda.schedule, Schedule::After(number(0.0)));
    assert!(cx.take_changed().is_empty());
}

// ---------------------------------------------------------------------------
// What an entity shows
// ---------------------------------------------------------------------------

#[test]
fn a_light_shows_its_pattern_if_it_has_one() {
    let mut light = Light::new();
    assert_eq!(light.describe().len(), 1);
    light.pattern = Some("mamama".to_owned());
    let shown = light.describe();
    assert_eq!(shown[0].0, "style");
    assert!(matches!(shown[0].1, Shown::Whole(0)));
    assert_eq!(shown[1].0, "pattern");
    match &shown[1].1 {
        Shown::Text(text) => assert_eq!(text, "mamama"),
        _ => panic!("a text"),
    }
}

#[test]
fn a_trigger_shows_who_stands_in_it() {
    let mut trigger = BaseTrigger::new();
    trigger.touching.push(id(4));
    let shown = trigger.describe();
    let labels: Vec<&str> = shown.iter().map(|l| l.0).collect();
    assert_eq!(labels, vec!["disabled", "filtername", "touching"]);
    assert!(matches!(shown[2].1, Shown::Count(1)));
}

#[test]
fn a_door_shows_its_ends() {
    let labels = |door: &Door| -> Vec<&'static str> { door.describe().iter().map(|l| l.0).collect() };
    assert_eq!(labels(&Door::create())[5..], ["position1", "position2"]);
    assert_eq!(labels(&Door::create_rotating())[5..], ["angle1", "angle2"]);
}

#[test]
fn only_the_player_is_the_player() {
    assert!(entity("player", None).behaviour.is_player());
    assert!(!entity("light", None).behaviour.is_player());
    assert!(entity("filter_multi", None).behaviour.is_filter());
    assert!(matches!(entity("light", None).behaviour, Behaviour::Fixture(Fixture::Light(_))));
    assert!(matches!(entity("player", None).behaviour, Behaviour::Actor(Actor::Player(_))));
}
