//! The class tables: what is in them, and that what a class declares is what
//! it understands.
use entity_server::attachment::AttachmentTable;
use entity_server::base::{base_accept_input, base_input, base_inputs, base_key_value, UseFigures};
use entity_server::behaviour::{Behaviour, Fixture};
use entity_server::class::{classes, lookup, ClassDef, SpawnResult, UseType};
use entity_server::classes::chamber_door::DoorPlayFigures;
use entity_server::classes::dynamic_prop::PlayFigures;
use entity_server::classes::env::{Bloom, Exposure, TonemapSettings};
use entity_server::classes::logic::{CounterFigures, TimerFigures};
use entity_server::classes::movelinear::SlideFigures;
use entity_server::classes::player::HealthFigures;
use entity_server::classes::portal::PortalNumbers;
use entity_server::classes::still;
use entity_server::context::{Context, Placement, Tables, Time};
use entity_server::damage::{Damaged, Wound};
use entity_server::dispatch::{Figures, LogicFigures, MoverFigures, PropFigures};
use entity_server::io::{FieldType, Input, Value, Variant};
use entity_server::list::{Entity, EntityList};
use entity_server::scalar::{num, origin, Scalar, Vector, ZERO};
use entity_server::sequences::SequenceTable;

fn number(x: f32) -> Scalar {
    num(x.to_bits())
}

fn vector(x: f32, y: f32, z: f32) -> Vector {
    Vector { x: number(x), y: number(y), z: number(z) }
}

fn value(text: &str) -> Value {
    let mut parts: Vec<f32> = text.split_whitespace().map(|p| p.parse().unwrap_or(0.0)).collect();
    parts.resize(3, 0.0);
    Value {
        text: text.to_owned(),
        number: number(parts[0]),
        tenth: number(parts[0] / 10.0),
        hundredth: number(parts[0] / 100.0),
        whole: number(parts[0].trunc()),
        vector: vector(parts[0], parts[1], parts[2]),
    }
}

fn tonemap() -> TonemapSettings {
    TonemapSettings {
        exposure: Exposure {
            use_custom_auto_exposure_min: false,
            custom_auto_exposure_min: num(ZERO),
            use_custom_auto_exposure_max: false,
            custom_auto_exposure_max: num(ZERO),
        },
        bloom: Bloom {
            use_custom_bloom_scale: false,
            custom_bloom_scale: num(ZERO),
            custom_bloom_scale_minimum: num(ZERO),
            bloom_exponent: num(ZERO),
            bloom_saturation: num(ZERO),
        },
        percent_target: num(ZERO),
        percent_bright_pixels: num(ZERO),
        min_avg_lum: num(ZERO),
        rate: num(ZERO),
    }
}

fn context() -> Context {
    Context::new(
        Time { curtime: num(ZERO), interval: number(0.015) },
        EntityList::new(),
        None,
        Tables {
            sequences: SequenceTable { models: Vec::new() },
            attachments: AttachmentTable { entries: Vec::new() },
            tonemap: tonemap(),
        },
    )
}

fn of_type(field: FieldType) -> Variant {
    match field {
        FieldType::Bool => Variant::Bool(true),
        FieldType::Int => Variant::Int(1),
        FieldType::Float => Variant::Float(number(1.0)),
        FieldType::String => Variant::String("1".to_owned()),
        FieldType::Vector => Variant::Vector(vector(1.0, 1.0, 1.0)),
        _ => Variant::Void,
    }
}

fn slide() -> SlideFigures {
    SlideFigures { target: origin(), distance: num(ZERO), speed: num(ZERO), remaining_squared: num(ZERO) }
}

/// Figures that are all nought.
fn nothing() -> Figures {
    let zero = num(ZERO);
    Figures {
        logic: LogicFigures {
            counter: CounterFigures { sum: zero, difference: zero, product: zero, quotient: zero },
            timer: TimerFigures { drawn: zero, later: zero, earlier: zero, remaining: zero },
            refire_delay: zero,
            roll: 0,
        },
        mover: MoverFigures { slide: slide(), scaled: zero, offset: zero },
        prop: PropFigures {
            play: PlayFigures { advanced: zero, wrapped: zero },
            door: DoorPlayFigures { advanced: zero, wrapped: zero, last_visible: zero },
            numbers: PortalNumbers { place: Placement { origin: origin(), angles: origin() } },
        },
        direction: origin(),
        health: HealthFigures {
            delta: zero,
            healed: 1,
            wound: Wound { result: Damaged::Hurt, health: 1, accumulator: zero },
        },
    }
}

fn offer_input(class: &ClassDef, name: &str, field: FieldType) -> bool {
    let mut entity = Entity::new(class, tonemap());
    let mut cx = context();
    let input = Input {
        name,
        value: of_type(field),
        text: "1".to_owned(),
        activator: None,
        caller: None,
        output_id: 0,
    };
    let Entity { core, behaviour } = &mut entity;
    behaviour.accept_input(core, &input, &nothing(), &mut cx)
}

fn count_distinct(names: &[String]) -> usize {
    let mut names = names.to_vec();
    names.sort();
    names.dedup();
    names.len()
}

fn check_names(table: &[ClassDef]) {
    let names: Vec<String> = table.iter().map(|c| c.name.to_owned()).collect();
    assert_eq!(count_distinct(&names), names.len(), "duplicate classname in the table");
    for class in table {
        let keys: Vec<String> = class.keys.iter().map(|k| k.to_ascii_lowercase()).collect();
        assert_eq!(count_distinct(&keys), keys.len(), "{}: duplicate key", class.name);
        let outputs: Vec<String> = class.outputs.iter().map(|o| o.to_ascii_lowercase()).collect();
        assert_eq!(count_distinct(&outputs), outputs.len(), "{}: duplicate output", class.name);
        let inputs: Vec<String> = class.inputs.iter().map(|i| i.name.to_ascii_lowercase()).collect();
        assert_eq!(count_distinct(&inputs), inputs.len(), "{}: duplicate input", class.name);
    }
}

fn reads(class: &ClassDef, key: &str) -> bool {
    let mut entity = Entity::new(class, tonemap());
    let Entity { core, behaviour } = &mut entity;
    behaviour.key_value(core, key, &value("1"))
}

fn check_keys(table: &[ClassDef]) {
    for class in table {
        for key in &class.keys {
            assert!(reads(class, key), "{}: declares {key} but key_value refuses it", class.name);
        }
        for other in table {
            for key in &other.keys {
                if class.declares_key(key) {
                    continue;
                }
                assert!(!reads(class, key), "{}: consumes {key} without declaring it", class.name);
            }
        }
    }
}

fn check_env_light(class: &ClassDef) {
    let mut entity = Entity::new(class, tonemap());
    base_key_value(&mut entity.core, "angles", &value("0 90 0"));
    let Entity { core, behaviour } = &mut entity;

    assert!(behaviour.key_value(core, "pitch", &value("-45")));
    assert_eq!(core.place.angles, vector(-45.0, 90.0, 0.0));
    assert!(behaviour.key_value(core, "style", &value("33")));
    assert!(behaviour.key_value(core, "_light", &value("255 200 150 400")));
    assert!(behaviour.key_value(core, "_ambient", &value("1 2 3 4")), "consumed");
    assert!(!behaviour.key_value(core, "_lightHDR", &value("1 1 1 1")), "vrad's");

    match behaviour {
        Behaviour::Fixture(Fixture::EnvLight(env)) => {
            assert_eq!(env.sun_color, [255, 200, 150, 400u32 as u8]);
            assert_eq!(env.light().style, 33);
        }
        _ => panic!("light_environment is an EnvLight"),
    }
}

fn spawn_light(entity: &mut Entity) -> SpawnResult {
    let Entity { core, behaviour } = entity;
    match behaviour {
        Behaviour::Fixture(Fixture::Light(light)) => light.spawn(core),
        _ => panic!("light is a Light"),
    }
}

fn check_light(class: &ClassDef) {
    let mut entity = Entity::new(class, tonemap());
    assert_eq!(spawn_light(&mut entity), SpawnResult::Remove);

    let mut entity = Entity::new(class, tonemap());
    base_key_value(&mut entity.core, "targetname", &value("flicker"));
    assert_eq!(spawn_light(&mut entity), SpawnResult::Keep);
}

// ---------------------------------------------------------------------------
// The classes of a map that stands still
// ---------------------------------------------------------------------------

#[test]
fn classes_lookup_is_case_insensitive_and_knows_nothing_it_was_not_given() {
    assert!(still::lookup("logic_relay").is_some());
    assert!(still::lookup("LOGIC_RELAY").is_some());
    assert!(still::lookup("prop_dynamic").is_none());
    assert_eq!(still::lookup("light_spot").map(|c| c.name), Some("light_spot"));
}

#[test]
fn classes_the_class_table_is_well_formed() {
    let table = still::classes();
    assert_eq!(table.len(), 10);
    check_names(&table);
}

#[test]
fn classes_every_declared_key_is_consumed_and_every_consumed_key_is_declared() {
    check_keys(&still::classes());
}

#[test]
fn classes_an_unnamed_light_removes_itself_and_a_named_one_does_not() {
    check_light(&still::lookup("light").expect("registered"));
}

#[test]
fn classes_env_light_inherits_the_light_keys_by_holding_one() {
    check_env_light(&still::lookup("light_environment").expect("registered"));
}

#[test]
fn classes_the_proxy_declares_thirty_distinct_relays() {
    let class = still::lookup("func_instance_io_proxy").expect("registered");
    assert_eq!(class.outputs.len(), 30);
    assert!(class.declares_output("onproxyrelay16"));
    assert!(class.declares_output("OnProxyRelay30"));
    assert!(!class.declares_output("OnProxyRelay"));
}

// ---------------------------------------------------------------------------
// All classes
// ---------------------------------------------------------------------------

#[test]
fn mod_lookup_is_case_insensitive_and_knows_nothing_it_was_not_given() {
    assert!(lookup("logic_relay").is_some());
    assert!(lookup("LOGIC_RELAY").is_some());
    assert!(lookup("ambient_generic").is_none());
    assert_eq!(lookup("light_spot").map(|c| c.name), Some("light_spot"));
}

#[test]
fn mod_the_class_table_is_well_formed() {
    let table = classes();
    assert_eq!(table.len(), 49);
    check_names(&table);
}

#[test]
fn mod_every_declared_key_is_consumed_and_every_consumed_key_is_declared() {
    check_keys(&classes());
}

#[test]
fn every_declared_input_is_handled_and_every_handled_input_is_declared() {
    let table = classes();
    for class in &table {
        for input in &class.inputs {
            assert!(
                offer_input(class, input.name, input.field),
                "{}: declares input {} but accept_input refuses it",
                class.name,
                input.name
            );
        }
        for other in &table {
            for input in &other.inputs {
                if class.input_type(input.name).is_some() {
                    continue;
                }
                assert!(
                    !offer_input(class, input.name, input.field),
                    "{}: handles input {} without declaring it",
                    class.name,
                    input.name
                );
            }
        }
    }
}

#[test]
fn no_class_shadows_a_base_input() {
    for class in classes() {
        for input in &class.inputs {
            assert!(
                base_input(input.name).is_none(),
                "{} declares {}, which every class has",
                class.name,
                input.name
            );
        }
    }
    let names: Vec<String> = base_inputs().iter().map(|i| i.name.to_ascii_lowercase()).collect();
    assert_eq!(count_distinct(&names), names.len());
}

#[test]
fn mod_an_unnamed_light_removes_itself_and_a_named_one_does_not() {
    check_light(&lookup("light").expect("registered"));
}

#[test]
fn mod_env_light_inherits_the_light_keys_by_holding_one() {
    check_env_light(&lookup("light_environment").expect("registered"));
}

#[test]
fn mod_the_proxy_declares_thirty_distinct_relays() {
    let class = lookup("func_instance_io_proxy").expect("registered");
    assert_eq!(class.outputs.len(), 30);
    assert_eq!(class.inputs.len(), 30, "the inputs share the names");
    assert!(class.declared_output("onproxyrelay16").is_some());
    assert!(class.declared_output("OnProxyRelay30").is_some());
    assert!(class.declared_output("OnProxyRelay").is_none());
    assert!(class.input_type("ProxyRelay").is_none());
}

#[test]
fn a_declared_output_is_given_back_as_it_is_declared() {
    let relay = lookup("Logic_Relay").expect("registered");
    assert_eq!(relay.name, "logic_relay");
    assert_eq!(relay.declared_output("ONTRIGGER"), Some("OnTrigger"));
    assert_eq!(relay.declared_output("OnTriggers"), None);
    assert_eq!(relay.input_type("trigger"), Some(FieldType::Void));
    assert!(relay.declares_key("startdisabled"));
}

#[test]
fn every_class_is_found_by_its_name() {
    for class in classes() {
        let found = lookup(&class.name.to_ascii_uppercase()).expect("registered");
        assert_eq!(found.name, class.name);
        assert_eq!(found.kind, class.kind);
    }
}

#[test]
fn every_base_input_is_handled() {
    for input in base_inputs() {
        assert_eq!(base_input(&input.name.to_ascii_uppercase()), Some(input.field));
        let mut entity = Entity::new(&lookup("info_target").expect("registered"), tonemap());
        let mut cx = context();
        let sent = Input {
            name: input.name,
            value: of_type(input.field),
            text: "1".to_owned(),
            activator: None,
            caller: None,
            output_id: 0,
        };
        let figures = UseFigures { slide: slide(), offset: num(ZERO) };
        let Entity { core, behaviour } = &mut entity;
        assert!(base_accept_input(core, behaviour, &sent, &figures, &mut cx), "{}", input.name);
    }
    assert_eq!(base_input("Toggle"), None);
}

#[test]
fn a_use_is_numbered_by_its_connection() {
    assert_eq!(UseType::from_output_id(0), UseType::Off);
    assert_eq!(UseType::from_output_id(1), UseType::On);
    assert_eq!(UseType::from_output_id(2), UseType::SetTo);
    assert_eq!(UseType::from_output_id(3), UseType::Toggle);
    assert_eq!(UseType::from_output_id(4), UseType::Other);
}
