//! What can hang on a model, and when.
use entity_server::attachment::{
    posed, AttachmentEntry, AttachmentTable, Attachments, NoAttachments, Posed, PosedSnapshot, Poser, Transform,
};
use entity_server::class::lookup;
use entity_server::classes::env::{Bloom, Exposure, TonemapSettings};
use entity_server::context::{Context, Tables, Time};
use entity_server::entity::EntityId;
use entity_server::list::{Entity, EntityList};
use entity_server::scalar::{num, origin, Scalar, ONE, ZERO};
use entity_server::sequences::SequenceTable;

fn tonemap() -> TonemapSettings {
    TonemapSettings {
        exposure: Exposure {
            use_custom_auto_exposure_min: false,
            custom_auto_exposure_min: num(ZERO),
            use_custom_auto_exposure_max: false,
            custom_auto_exposure_max: num(ZERO),
        },
        bloom: Bloom {
            use_custom_bloom_scale: false,
            custom_bloom_scale: num(ZERO),
            custom_bloom_scale_minimum: num(ZERO),
            bloom_exponent: num(ZERO),
            bloom_saturation: num(ZERO),
        },
        percent_target: num(ZERO),
        percent_bright_pixels: num(ZERO),
        min_avg_lum: num(ZERO),
        rate: num(ZERO),
    }
}

fn entity(classname: &str, model: Option<&str>) -> Entity {
    let class = lookup(classname).expect("registered");
    let mut entity = Entity::new(&class, tonemap());
    entity.core.model = model.map(str::to_owned);
    entity
}

fn number(x: f32) -> Scalar {
    num(x.to_bits())
}

#[test]
fn nothing_is_attached_to_a_model_nobody_loaded() {
    let posed = Posed {
        model: "models/arm.mdl",
        sequence: "idle",
        cycle: num(ZERO),
        anim_time: num(ZERO),
        playback_rate: num(ONE),
        now: num(ZERO),
    };
    assert_eq!(NoAttachments.lookup("models/arm.mdl", "muzzle"), None);
    assert_eq!(NoAttachments.attachment_to_model(&posed, 0), None);
    assert_eq!(posed.attachment_to_model(0, &NoAttachments), None);
}

#[test]
fn only_an_entity_wearing_a_studio_model_can_be_posed() {
    let poser = Poser::none();
    assert!(posed(&entity("prop_dynamic", Some("models/arm.mdl")), poser).is_some());
    assert!(
        posed(&entity("func_brush", Some("*12")), poser).is_none(),
        "a brush model is not posed"
    );
    assert!(posed(&entity("info_target", None), poser).is_none());
}

#[test]
fn a_prop_with_a_brush_model_is_not_posed_and_a_portal_never_is() {
    let poser = Poser::none();
    assert!(posed(&entity("prop_dynamic", Some("*3")), poser).is_none());
    assert!(posed(&entity("prop_dynamic", None), poser).is_none());
    assert!(posed(&entity("prop_portal", Some("models/portals/portal1.mdl")), poser).is_none());
    assert!(posed(&entity("prop_weighted_cube", Some("models/cube.mdl")), poser).is_some());
}

#[test]
fn a_snapshot_is_not_taken_for_an_entity_nothing_hangs_off() {
    let entity = entity("prop_dynamic", Some("models/arm.mdl"));
    assert!(entity.core.children().is_empty());
    assert!(
        PosedSnapshot::of(&entity.core, &entity.behaviour, Poser::none()).is_none(),
        "no children, so nothing could read it"
    );
}

#[test]
fn a_snapshot_holds_the_pose() {
    let mut entity = entity("prop_floor_button", Some("models/props/portal_button.mdl"));
    entity.core.children.push(EntityId { slot: 4, serial: 0 });
    let mut poser = Poser::none();
    poser.now = number(2.5);
    let snapshot = PosedSnapshot::of(&entity.core, &entity.behaviour, poser).expect("posed");
    let posed = snapshot.as_posed();
    assert_eq!(posed.model, "models/props/portal_button.mdl");
    assert_eq!(posed.sequence, "up");
    assert_eq!(posed.playback_rate, num(ONE));
    assert_eq!(posed.now, number(2.5));
}

struct OnePoint;

impl Attachments for OnePoint {
    fn lookup(&self, _model: &str, name: &str) -> Option<usize> {
        if name == "muzzle" {
            Some(3)
        } else {
            None
        }
    }

    fn attachment_to_model(&self, _posed: &Posed<'_>, attachment: usize) -> Option<Transform> {
        if attachment == 3 {
            Some(Transform { x_axis: origin(), y_axis: origin(), z_axis: origin(), translation: origin() })
        } else {
            None
        }
    }
}

#[test]
fn a_pose_asks_whoever_loaded_the_models() {
    let arm = entity("prop_dynamic", Some("models/arm.mdl"));
    let posed = posed(&arm, Poser::none()).expect("posed");
    assert_eq!(OnePoint.lookup("models/arm.mdl", "muzzle"), Some(3));
    assert!(posed.attachment_to_model(3, &OnePoint).is_some());
    assert!(posed.attachment_to_model(2, &OnePoint).is_none());
}

#[test]
fn a_point_is_found_by_model_and_name_however_they_are_cased() {
    let mut entities = EntityList::new();
    let arm = entities.insert(entity("prop_dynamic", Some("models/ARM.mdl")));
    let place = entities.insert(entity("info_target", None));
    let tables = Tables {
        sequences: SequenceTable { models: Vec::new() },
        attachments: AttachmentTable {
            entries: vec![
                AttachmentEntry { model: "models/leg.mdl".to_owned(), name: "muzzle".to_owned(), index: 1 },
                AttachmentEntry { model: "models/arm.mdl".to_owned(), name: "muzzle".to_owned(), index: 7 },
            ],
        },
        tonemap: tonemap(),
    };
    let time = Time { curtime: num(ZERO), interval: number(0.015) };
    let cx = Context::new(time, entities, None, tables);
    assert_eq!(cx.attachment(arm, "Muzzle"), Some(7));
    assert_eq!(cx.attachment(arm, "eyes"), None);
    assert_eq!(cx.attachment(place, "muzzle"), None);
    assert_eq!(cx.attachment(EntityId { slot: 9, serial: 0 }, "muzzle"), None);
}
