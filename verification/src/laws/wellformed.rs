//! Laws of what the classes declare: no class declares a name twice, and none
//! declares an input that every class has.
use vstd::prelude::*;

use crate::base::{base_inputs_spec, base_takes};
use crate::behaviour::{fresh_behaviour, BehaviourView};
use crate::class::{class_of, fresh_entity, input_place, name_place, InputDefView};
use crate::classes::declared::{a_fresh_state_is_of_its_class, keys_read_are_those_declared, of_kind};
use crate::classes::env::TonemapSettings;
use crate::classes::tables::{
    area_portal_inputs_spec, area_portal_keys_spec, auto_keys_spec, auto_outputs_spec, base_filter_keys_spec,
    base_trigger_inputs_spec, base_trigger_keys_spec, base_trigger_outputs_spec, branch_inputs_spec,
    branch_keys_spec, branch_list_inputs_spec, branch_list_keys_spec, branch_list_outputs_spec,
    branch_outputs_spec, brush_inputs_spec, brush_keys_spec, button_inputs_spec, button_keys_spec,
    button_outputs_spec, case_inputs_spec, case_keys_spec, case_outputs_spec, class_list, declared_inputs,
    declared_keys, declared_outputs, door_inputs_spec, door_keys_spec, door_outputs_spec,
    dynamic_prop_inputs_spec, dynamic_prop_keys_spec, dynamic_prop_outputs_spec, env_light_keys_spec,
    filter_class_keys_spec, filter_damage_type_keys_spec, filter_inputs_spec, filter_model_keys_spec,
    filter_multi_keys_spec, filter_name_keys_spec, filter_outputs_spec, floor_button_inputs_spec,
    floor_button_keys_spec, floor_button_outputs_spec, instance_io_proxy_inputs_spec,
    instance_io_proxy_outputs_spec, light_inputs_spec, light_keys_spec, logic_player_proxy_outputs_spec,
    math_counter_inputs_spec, math_counter_keys_spec, math_counter_outputs_spec, move_linear_inputs_spec,
    move_linear_keys_spec, move_linear_outputs_spec, player_inputs_spec, point_teleport_inputs_spec,
    prop_portal_inputs_spec, prop_portal_keys_spec, prop_portal_outputs_spec, relay_inputs_spec,
    relay_keys_spec, relay_outputs_spec, revert_saved_inputs_spec, revert_saved_keys_spec,
    rotating_inputs_spec, rotating_keys_spec, rotating_outputs_spec, test_chamber_door_inputs_spec,
    test_chamber_door_keys_spec, test_chamber_door_outputs_spec, timer_inputs_spec, timer_keys_spec,
    timer_outputs_spec, tonemap_controller_inputs_spec, trigger_hurt_inputs_spec, trigger_hurt_keys_spec,
    trigger_hurt_outputs_spec, trigger_multiple_keys_spec, trigger_multiple_outputs_spec,
    trigger_push_inputs_spec, trigger_push_keys_spec, trigger_teleport_inputs_spec,
    trigger_teleport_keys_spec, weighted_cube_inputs_spec, weighted_cube_keys_spec,
    weighted_cube_outputs_spec, world_keys_spec, ClassKind,
};
use crate::entity::CoreView;
use crate::io::Value;
use crate::laws::marks::{a_name_is_itself, mark, marks_ignore_case};
use crate::text::same_name;

verus! {

/// Whether each of the first `n` names is found at its own place: none of them
/// stands twice.
pub open spec fn names_once(list: Seq<Seq<char>>, n: int) -> bool
    decreases n,
{
    n <= 0 || (names_once(list, n - 1) && name_place(list, list[n - 1], 0) == Some(n - 1))
}

/// Whether each of the first `n` inputs is found at its own place, and is none
/// that every class has.
pub open spec fn inputs_once(list: Seq<InputDefView>, n: int) -> bool
    decreases n,
{
    n <= 0 || (inputs_once(list, n - 1) && input_place(list, list[n - 1].name, 0) == Some(n - 1) && base_takes(
        list[n - 1].name,
    ) is None)
}

/// A name that has the mark of no input that every class has is none.
proof fn a_base_input_has_a_known_mark()
    ensures
        forall|name: Seq<char>|
            (#[trigger] base_takes(name)) is Some ==> (mark(name) == 18586167296000000000000000000
                || mark(name) == 14695936000000000000000000000
                || mark(name) == 39229599993785699385600000000
                || mark(name) == 47094629157279844641600000000
                || mark(name) == 80189599993785699386379980910
                || mark(name) == 137533599993785699386379980910
                || mark(name) == 63805593849721441122532062800
                || mark(name) == 38963764012998500558400000000
                || mark(name) == 38963764012998500560000000000
                || mark(name) == 38963764012998500561600000000
                || mark(name) == 38963764012998500563200000000
                || mark(name) == 47114801916268896182400000000
                || mark(name) == 43039794453779236635200000000),
{
    marks_ignore_case();
    assert(mark("Kill"@) == 18586167296000000000000000000) by { reveal(mark); reveal_strlit("Kill"); }
    assert(mark("Use"@) == 14695936000000000000000000000) by { reveal(mark); reveal_strlit("Use"); }
    assert(mark("SetParent"@) == 39229599993785699385600000000) by { reveal(mark); reveal_strlit("SetParent"); }
    assert(mark("ClearParent"@) == 47094629157279844641600000000) by { reveal(mark); reveal_strlit("ClearParent"); }
    assert(mark("SetParentAttachment"@) == 80189599993785699386379980910) by { reveal(mark); reveal_strlit("SetParentAttachment"); }
    assert(mark("SetParentAttachmentMaintainOffset"@) == 137533599993785699386379980910) by { reveal(mark); reveal_strlit("SetParentAttachmentMaintainOffset"); }
    assert(mark("SetDamageFilter"@) == 63805593849721441122532062800) by { reveal(mark); reveal_strlit("SetDamageFilter"); }
    assert(mark("FireUser1"@) == 38963764012998500558400000000) by { reveal(mark); reveal_strlit("FireUser1"); }
    assert(mark("FireUser2"@) == 38963764012998500560000000000) by { reveal(mark); reveal_strlit("FireUser2"); }
    assert(mark("FireUser3"@) == 38963764012998500561600000000) by { reveal(mark); reveal_strlit("FireUser3"); }
    assert(mark("FireUser4"@) == 38963764012998500563200000000) by { reveal(mark); reveal_strlit("FireUser4"); }
    assert(mark("DisableDraw"@) == 47114801916268896182400000000) by { reveal(mark); reveal_strlit("DisableDraw"); }
    assert(mark("EnableDraw"@) == 43039794453779236635200000000) by { reveal(mark); reveal_strlit("EnableDraw"); }
    reveal_with_fuel(input_place, 15);
}

/// The mark of the `i`th input that every class has.
spec fn base_mark(i: int) -> int {
    if i == 0 {
        18586167296000000000000000000
    } else if i == 1 {
        14695936000000000000000000000
    } else if i == 2 {
        39229599993785699385600000000
    } else if i == 3 {
        47094629157279844641600000000
    } else if i == 4 {
        80189599993785699386379980910
    } else if i == 5 {
        137533599993785699386379980910
    } else if i == 6 {
        63805593849721441122532062800
    } else if i == 7 {
        38963764012998500558400000000
    } else if i == 8 {
        38963764012998500560000000000
    } else if i == 9 {
        38963764012998500561600000000
    } else if i == 10 {
        38963764012998500563200000000
    } else if i == 11 {
        47114801916268896182400000000
    } else {
        43039794453779236635200000000
    }
}

/// No two of the inputs that every class has are of one name but for case.
pub proof fn no_two_base_inputs_share_a_name()
    ensures
        forall|i: int, j: int|
            0 <= i < base_inputs_spec().len() && 0 <= j < base_inputs_spec().len() && #[trigger] same_name(
                base_inputs_spec()[i].name,
                base_inputs_spec()[j].name,
            ) ==> i == j,
{
    marks_ignore_case();
    assert(mark("Kill"@) == 18586167296000000000000000000) by { reveal(mark); reveal_strlit("Kill"); }
    assert(mark("Use"@) == 14695936000000000000000000000) by { reveal(mark); reveal_strlit("Use"); }
    assert(mark("SetParent"@) == 39229599993785699385600000000) by { reveal(mark); reveal_strlit("SetParent"); }
    assert(mark("ClearParent"@) == 47094629157279844641600000000) by { reveal(mark); reveal_strlit("ClearParent"); }
    assert(mark("SetParentAttachment"@) == 80189599993785699386379980910) by { reveal(mark); reveal_strlit("SetParentAttachment"); }
    assert(mark("SetParentAttachmentMaintainOffset"@) == 137533599993785699386379980910) by { reveal(mark); reveal_strlit("SetParentAttachmentMaintainOffset"); }
    assert(mark("SetDamageFilter"@) == 63805593849721441122532062800) by { reveal(mark); reveal_strlit("SetDamageFilter"); }
    assert(mark("FireUser1"@) == 38963764012998500558400000000) by { reveal(mark); reveal_strlit("FireUser1"); }
    assert(mark("FireUser2"@) == 38963764012998500560000000000) by { reveal(mark); reveal_strlit("FireUser2"); }
    assert(mark("FireUser3"@) == 38963764012998500561600000000) by { reveal(mark); reveal_strlit("FireUser3"); }
    assert(mark("FireUser4"@) == 38963764012998500563200000000) by { reveal(mark); reveal_strlit("FireUser4"); }
    assert(mark("DisableDraw"@) == 47114801916268896182400000000) by { reveal(mark); reveal_strlit("DisableDraw"); }
    assert(mark("EnableDraw"@) == 43039794453779236635200000000) by { reveal(mark); reveal_strlit("EnableDraw"); }
    assert forall|i: int| 0 <= i < base_inputs_spec().len() implies mark(
        (#[trigger] base_inputs_spec()[i]).name,
    ) == base_mark(i) by {}
}

proof fn relay_keys_are_distinct()
    ensures
        names_once(relay_keys_spec(), relay_keys_spec().len() as int),
        name_place(relay_keys_spec(), "health"@, 0) is None,
{
    marks_ignore_case();
    a_name_is_itself();
    assert(mark("StartDisabled"@) == 55615137066246756956000000000) by { reveal(mark); reveal_strlit("StartDisabled"); }
    assert(mark("health"@) == 26716317994291200000000000000) by { reveal(mark); reveal_strlit("health"); }
    reveal_with_fuel(names_once, 3);
    reveal_with_fuel(name_place, 3);
}

proof fn relay_inputs_are_distinct()
    ensures
        inputs_once(relay_inputs_spec(), relay_inputs_spec().len() as int),
{
    marks_ignore_case();
    a_name_is_itself();
    a_base_input_has_a_known_mark();
    assert(mark("Enable"@) == 26655794453772800000000000000) by { reveal(mark); reveal_strlit("Enable"); }
    assert(mark("EnableRefire"@) == 51231794453780128483200000000) by { reveal(mark); reveal_strlit("EnableRefire"); }
    assert(mark("Disable"@) == 30730801916268864000000000000) by { reveal(mark); reveal_strlit("Disable"); }
    assert(mark("Toggle"@) == 26963099413772800000000000000) by { reveal(mark); reveal_strlit("Toggle"); }
    assert(mark("Trigger"@) == 31059406600980096000000000000) by { reveal(mark); reveal_strlit("Trigger"); }
    assert(mark("CancelPending"@) == 55285503747949600496824000000) by { reveal(mark); reveal_strlit("CancelPending"); }
    reveal_with_fuel(inputs_once, 8);
    reveal_with_fuel(input_place, 8);
}

proof fn relay_outputs_are_distinct()
    ensures
        names_once(relay_outputs_spec(), relay_outputs_spec().len() as int),
{
    marks_ignore_case();
    a_name_is_itself();
    assert(mark("OnTrigger"@) == 39148602638125024502400000000) by { reveal(mark); reveal_strlit("OnTrigger"); }
    assert(mark("OnSpawn"@) == 30956601593850240000000000000) by { reveal(mark); reveal_strlit("OnSpawn"); }
    reveal_with_fuel(names_once, 4);
    reveal_with_fuel(name_place, 4);
}

proof fn dynamic_prop_keys_are_distinct()
    ensures
        names_once(dynamic_prop_keys_spec(), dynamic_prop_keys_spec().len() as int),
        name_place(dynamic_prop_keys_spec(), "health"@, 0) is None,
{
    marks_ignore_case();
    a_name_is_itself();
    assert(mark("DefaultAnim"@) == 47114392364909855216000000000) by { reveal(mark); reveal_strlit("DefaultAnim"); }
    assert(mark("RandomAnimation"@) == 63784704285561443368844462000) by { reveal(mark); reveal_strlit("RandomAnimation"); }
    assert(mark("MinAnimTime"@) == 47299121946951013288000000000) by { reveal(mark); reveal_strlit("MinAnimTime"); }
    assert(mark("MaxAnimTime"@) == 47298302746951013288000000000) by { reveal(mark); reveal_strlit("MaxAnimTime"); }
    assert(mark("HoldAnimation"@) == 55389337849734755036080000000) by { reveal(mark); reveal_strlit("HoldAnimation"); }
    assert(mark("AnimateEveryFrame"@) == 71629880057811296509620579400) by { reveal(mark); reveal_strlit("AnimateEveryFrame"); }
    assert(mark("DisableBoneFollowers"@) == 83978801916268895538492341701) by { reveal(mark); reveal_strlit("DisableBoneFollowers"); }
    assert(mark("StartDisabled"@) == 55615137066246756956000000000) by { reveal(mark); reveal_strlit("StartDisabled"); }
    assert(mark("skin"@) == 18750213120000000000000000000) by { reveal(mark); reveal_strlit("skin"); }
    assert(mark("SetBodyGroup"@) == 51517592861447777142400000000) by { reveal(mark); reveal_strlit("SetBodyGroup"); }
    assert(mark("LightingOrigin"@) == 59566645546311073138444400000) by { reveal(mark); reveal_strlit("LightingOrigin"); }
    assert(mark("SuppressAnimSounds"@) == 76095238437140196956124463515) by { reveal(mark); reveal_strlit("SuppressAnimSounds"); }
    assert(mark("PerformanceMode"@) == 63744154909626207216892020200) by { reveal(mark); reveal_strlit("PerformanceMode"); }
    assert(mark("ExplodeDamage"@) == 55328823581446496156008000000) by { reveal(mark); reveal_strlit("ExplodeDamage"); }
    assert(mark("ExplodeRadius"@) == 55328823581446500636120000000) by { reveal(mark); reveal_strlit("ExplodeRadius"); }
    assert(mark("PressureDelay"@) == 55553492775904928480968000000) by { reveal(mark); reveal_strlit("PressureDelay"); }
    assert(mark("health"@) == 26716317994291200000000000000) by { reveal(mark); reveal_strlit("health"); }
    reveal_with_fuel(names_once, 18);
    reveal_with_fuel(name_place, 18);
    assert(names_once(dynamic_prop_keys_spec(), 10));
}

proof fn dynamic_prop_inputs_are_distinct()
    ensures
        inputs_once(dynamic_prop_inputs_spec(), dynamic_prop_inputs_spec().len() as int),
{
    marks_ignore_case();
    a_name_is_itself();
    a_base_input_has_a_known_mark();
    assert(mark("SetAnimation"@) == 51517592346951007225600000000) by { reveal(mark); reveal_strlit("SetAnimation"); }
    assert(mark("SetAnimationNoReset"@) == 80189592346951007226484462901) by { reveal(mark); reveal_strlit("SetAnimationNoReset"); }
    assert(mark("SetDefaultAnimation"@) == 80189593859871845613644379511) by { reveal(mark); reveal_strlit("SetDefaultAnimation"); }
    assert(mark("SetPlaybackRate"@) == 63805600021729375515980660200) by { reveal(mark); reveal_strlit("SetPlaybackRate"); }
    assert(mark("TurnOn"@) == 26963717405568000000000000000) by { reveal(mark); reveal_strlit("TurnOn"); }
    assert(mark("TurnOff"@) == 31059717405472128000000000000) by { reveal(mark); reveal_strlit("TurnOff"); }
    assert(mark("Enable"@) == 26655794453772800000000000000) by { reveal(mark); reveal_strlit("Enable"); }
    assert(mark("Disable"@) == 30730801916268864000000000000) by { reveal(mark); reveal_strlit("Disable"); }
    assert(mark("EnableCollision"@) == 63519794453779171693644462000) by { reveal(mark); reveal_strlit("EnableCollision"); }
    assert(mark("DisableCollision"@) == 67594801916268895858524222200) by { reveal(mark); reveal_strlit("DisableCollision"); }
    assert(mark("BecomeRagdoll"@) == 55265439512340127205664000000) by { reveal(mark); reveal_strlit("BecomeRagdoll"); }
    assert(mark("FadeAndKill"@) == 47154944761734434408000000000) by { reveal(mark); reveal_strlit("FadeAndKill"); }
    assert(mark("Break"@) == 22498763537920000000000000000) by { reveal(mark); reveal_strlit("Break"); }
    assert(mark("SetBodyGroup"@) == 51517592861447777142400000000) by { reveal(mark); reveal_strlit("SetBodyGroup"); }
    assert(mark("skin"@) == 18750213120000000000000000000) by { reveal(mark); reveal_strlit("skin"); }
    reveal_with_fuel(inputs_once, 17);
    reveal_with_fuel(input_place, 17);
    assert(inputs_once(dynamic_prop_inputs_spec(), 10));
}

proof fn dynamic_prop_outputs_are_distinct()
    ensures
        names_once(dynamic_prop_outputs_spec(), dynamic_prop_outputs_spec().len() as int),
{
    marks_ignore_case();
    a_name_is_itself();
    assert(mark("OnAnimationBegun"@) == 67820600590201445288812143400) by { reveal(mark); reveal_strlit("OnAnimationBegun"); }
    assert(mark("OnAnimationDone"@) == 63724600590201445288892420200) by { reveal(mark); reveal_strlit("OnAnimationDone"); }
    assert(mark("OnBreak"@) == 30956602627808448000000000000) by { reveal(mark); reveal_strlit("OnBreak"); }
    reveal_with_fuel(names_once, 5);
    reveal_with_fuel(name_place, 5);
}

proof fn light_keys_are_distinct()
    ensures
        names_once(light_keys_spec(), light_keys_spec().len() as int),
        name_place(light_keys_spec(), "health"@, 0) is None,
{
    marks_ignore_case();
    a_name_is_itself();
    assert(mark("style"@) == 22847133954560000000000000000) by { reveal(mark); reveal_strlit("style"); }
    assert(mark("pattern"@) == 30975752452026240000000000000) by { reveal(mark); reveal_strlit("pattern"); }
    assert(mark("pitch"@) == 22784562954240000000000000000) by { reveal(mark); reveal_strlit("pitch"); }
    assert(mark("health"@) == 26716317994291200000000000000) by { reveal(mark); reveal_strlit("health"); }
    reveal_with_fuel(names_once, 5);
    reveal_with_fuel(name_place, 5);
}

proof fn light_inputs_are_distinct()
    ensures
        inputs_once(light_inputs_spec(), light_inputs_spec().len() as int),
{
    marks_ignore_case();
    a_name_is_itself();
    a_base_input_has_a_known_mark();
    assert(mark("SetPattern"@) == 43325599993812256502400000000) by { reveal(mark); reveal_strlit("SetPattern"); }
    assert(mark("FadeToPattern"@) == 55346944810387999226480000000) by { reveal(mark); reveal_strlit("FadeToPattern"); }
    assert(mark("Toggle"@) == 26963099413772800000000000000) by { reveal(mark); reveal_strlit("Toggle"); }
    assert(mark("TurnOn"@) == 26963717405568000000000000000) by { reveal(mark); reveal_strlit("TurnOn"); }
    assert(mark("TurnOff"@) == 31059717405472128000000000000) by { reveal(mark); reveal_strlit("TurnOff"); }
    reveal_with_fuel(inputs_once, 7);
    reveal_with_fuel(input_place, 7);
}

proof fn env_light_keys_are_distinct()
    ensures
        names_once(env_light_keys_spec(), env_light_keys_spec().len() as int),
        name_place(env_light_keys_spec(), "health"@, 0) is None,
{
    marks_ignore_case();
    a_name_is_itself();
    assert(mark("_light"@) == 26532712203724800000000000000) by { reveal(mark); reveal_strlit("_light"); }
    assert(mark("_ambient"@) == 34723583246099877120000000000) by { reveal(mark); reveal_strlit("_ambient"); }
    assert(mark("style"@) == 22847133954560000000000000000) by { reveal(mark); reveal_strlit("style"); }
    assert(mark("pattern"@) == 30975752452026240000000000000) by { reveal(mark); reveal_strlit("pattern"); }
    assert(mark("pitch"@) == 22784562954240000000000000000) by { reveal(mark); reveal_strlit("pitch"); }
    assert(mark("health"@) == 26716317994291200000000000000) by { reveal(mark); reveal_strlit("health"); }
    reveal_with_fuel(names_once, 7);
    reveal_with_fuel(name_place, 7);
}

proof fn brush_keys_are_distinct()
    ensures
        names_once(brush_keys_spec(), brush_keys_spec().len() as int),
        name_place(brush_keys_spec(), "health"@, 0) is None,
{
    marks_ignore_case();
    a_name_is_itself();
    assert(mark("StartDisabled"@) == 55615137066246756956000000000) by { reveal(mark); reveal_strlit("StartDisabled"); }
    assert(mark("Solidity"@) == 35134620417351462720000000000) by { reveal(mark); reveal_strlit("Solidity"); }
    assert(mark("solidbsp"@) == 35134620417261795840000000000) by { reveal(mark); reveal_strlit("solidbsp"); }
    assert(mark("excludednpc"@) == 47136823596806496176000000000) by { reveal(mark); reveal_strlit("excludednpc"); }
    assert(mark("invert_exclusion"@) == 67697716005330912512924222200) by { reveal(mark); reveal_strlit("invert_exclusion"); }
    assert(mark("health"@) == 26716317994291200000000000000) by { reveal(mark); reveal_strlit("health"); }
    reveal_with_fuel(names_once, 7);
    reveal_with_fuel(name_place, 7);
}

proof fn brush_inputs_are_distinct()
    ensures
        inputs_once(brush_inputs_spec(), brush_inputs_spec().len() as int),
{
    marks_ignore_case();
    a_name_is_itself();
    a_base_input_has_a_known_mark();
    assert(mark("Enable"@) == 26655794453772800000000000000) by { reveal(mark); reveal_strlit("Enable"); }
    assert(mark("Disable"@) == 30730801916268864000000000000) by { reveal(mark); reveal_strlit("Disable"); }
    assert(mark("Toggle"@) == 26963099413772800000000000000) by { reveal(mark); reveal_strlit("Toggle"); }
    assert(mark("SetExcluded"@) == 47421594420474149600000000000) by { reveal(mark); reveal_strlit("SetExcluded"); }
    assert(mark("SetInvert"@) == 39229596443116900665600000000) by { reveal(mark); reveal_strlit("SetInvert"); }
    reveal_with_fuel(inputs_once, 7);
    reveal_with_fuel(input_place, 7);
}

proof fn area_portal_keys_are_distinct()
    ensures
        names_once(area_portal_keys_spec(), area_portal_keys_spec().len() as int),
        name_place(area_portal_keys_spec(), "health"@, 0) is None,
{
    marks_ignore_case();
    a_name_is_itself();
    assert(mark("portalnumber"@) == 51457186041709477614400000000) by { reveal(mark); reveal_strlit("portalnumber"); }
    assert(mark("StartOpen"@) == 39231137066388000496000000000) by { reveal(mark); reveal_strlit("StartOpen"); }
    assert(mark("PortalVersion"@) == 55553186041709984503280000000) by { reveal(mark); reveal_strlit("PortalVersion"); }
    assert(mark("FadeStartDist"@) == 55346944807891044666528000000) by { reveal(mark); reveal_strlit("FadeStartDist"); }
    assert(mark("FadeDist"@) == 34866944769351397120000000000) by { reveal(mark); reveal_strlit("FadeDist"); }
    assert(mark("TranslucencyLimit"@) == 72019410215789919842468221800) by { reveal(mark); reveal_strlit("TranslucencyLimit"); }
    assert(mark("BackgroundBModel"@) == 67553027849146341616892020200) by { reveal(mark); reveal_strlit("BackgroundBModel"); }
    assert(mark("health"@) == 26716317994291200000000000000) by { reveal(mark); reveal_strlit("health"); }
    reveal_with_fuel(names_once, 9);
    reveal_with_fuel(name_place, 9);
}

proof fn area_portal_inputs_are_distinct()
    ensures
        inputs_once(area_portal_inputs_spec(), area_portal_inputs_spec().len() as int),
{
    marks_ignore_case();
    a_name_is_itself();
    a_base_input_has_a_known_mark();
    assert(mark("Open"@) == 18668805120000000000000000000) by { reveal(mark); reveal_strlit("Open"); }
    assert(mark("Close"@) == 22518638338560000000000000000) by { reveal(mark); reveal_strlit("Close"); }
    assert(mark("Toggle"@) == 26963099413772800000000000000) by { reveal(mark); reveal_strlit("Toggle"); }
    assert(mark("TurnOn"@) == 26963717405568000000000000000) by { reveal(mark); reveal_strlit("TurnOn"); }
    assert(mark("TurnOff"@) == 31059717405472128000000000000) by { reveal(mark); reveal_strlit("TurnOff"); }
    reveal_with_fuel(inputs_once, 7);
    reveal_with_fuel(input_place, 7);
}

proof fn instance_io_proxy_inputs_are_distinct()
    ensures
        inputs_once(instance_io_proxy_inputs_spec(), instance_io_proxy_inputs_spec().len() as int),
{
    marks_ignore_case();
    a_name_is_itself();
    a_base_input_has_a_known_mark();
    assert(mark("OnProxyRelay1"@) == 55532602653703780641992000000) by { reveal(mark); reveal_strlit("OnProxyRelay1"); }
    assert(mark("OnProxyRelay2"@) == 55532602653703780642000000000) by { reveal(mark); reveal_strlit("OnProxyRelay2"); }
    assert(mark("OnProxyRelay3"@) == 55532602653703780642008000000) by { reveal(mark); reveal_strlit("OnProxyRelay3"); }
    assert(mark("OnProxyRelay4"@) == 55532602653703780642016000000) by { reveal(mark); reveal_strlit("OnProxyRelay4"); }
    assert(mark("OnProxyRelay5"@) == 55532602653703780642024000000) by { reveal(mark); reveal_strlit("OnProxyRelay5"); }
    assert(mark("OnProxyRelay6"@) == 55532602653703780642032000000) by { reveal(mark); reveal_strlit("OnProxyRelay6"); }
    assert(mark("OnProxyRelay7"@) == 55532602653703780642040000000) by { reveal(mark); reveal_strlit("OnProxyRelay7"); }
    assert(mark("OnProxyRelay8"@) == 55532602653703780642048000000) by { reveal(mark); reveal_strlit("OnProxyRelay8"); }
    assert(mark("OnProxyRelay9"@) == 55532602653703780642056000000) by { reveal(mark); reveal_strlit("OnProxyRelay9"); }
    assert(mark("OnProxyRelay10"@) == 59628602653703780641993920000) by { reveal(mark); reveal_strlit("OnProxyRelay10"); }
    assert(mark("OnProxyRelay11"@) == 59628602653703780641993960000) by { reveal(mark); reveal_strlit("OnProxyRelay11"); }
    assert(mark("OnProxyRelay12"@) == 59628602653703780641994000000) by { reveal(mark); reveal_strlit("OnProxyRelay12"); }
    assert(mark("OnProxyRelay13"@) == 59628602653703780641994040000) by { reveal(mark); reveal_strlit("OnProxyRelay13"); }
    assert(mark("OnProxyRelay14"@) == 59628602653703780641994080000) by { reveal(mark); reveal_strlit("OnProxyRelay14"); }
    assert(mark("OnProxyRelay15"@) == 59628602653703780641994120000) by { reveal(mark); reveal_strlit("OnProxyRelay15"); }
    assert(mark("OnProxyRelay16"@) == 59628602653703780641994160000) by { reveal(mark); reveal_strlit("OnProxyRelay16"); }
    assert(mark("OnProxyRelay17"@) == 59628602653703780641994200000) by { reveal(mark); reveal_strlit("OnProxyRelay17"); }
    assert(mark("OnProxyRelay18"@) == 59628602653703780641994240000) by { reveal(mark); reveal_strlit("OnProxyRelay18"); }
    assert(mark("OnProxyRelay19"@) == 59628602653703780641994280000) by { reveal(mark); reveal_strlit("OnProxyRelay19"); }
    assert(mark("OnProxyRelay20"@) == 59628602653703780642001920000) by { reveal(mark); reveal_strlit("OnProxyRelay20"); }
    assert(mark("OnProxyRelay21"@) == 59628602653703780642001960000) by { reveal(mark); reveal_strlit("OnProxyRelay21"); }
    assert(mark("OnProxyRelay22"@) == 59628602653703780642002000000) by { reveal(mark); reveal_strlit("OnProxyRelay22"); }
    assert(mark("OnProxyRelay23"@) == 59628602653703780642002040000) by { reveal(mark); reveal_strlit("OnProxyRelay23"); }
    assert(mark("OnProxyRelay24"@) == 59628602653703780642002080000) by { reveal(mark); reveal_strlit("OnProxyRelay24"); }
    assert(mark("OnProxyRelay25"@) == 59628602653703780642002120000) by { reveal(mark); reveal_strlit("OnProxyRelay25"); }
    assert(mark("OnProxyRelay26"@) == 59628602653703780642002160000) by { reveal(mark); reveal_strlit("OnProxyRelay26"); }
    assert(mark("OnProxyRelay27"@) == 59628602653703780642002200000) by { reveal(mark); reveal_strlit("OnProxyRelay27"); }
    assert(mark("OnProxyRelay28"@) == 59628602653703780642002240000) by { reveal(mark); reveal_strlit("OnProxyRelay28"); }
    assert(mark("OnProxyRelay29"@) == 59628602653703780642002280000) by { reveal(mark); reveal_strlit("OnProxyRelay29"); }
    assert(mark("OnProxyRelay30"@) == 59628602653703780642009920000) by { reveal(mark); reveal_strlit("OnProxyRelay30"); }
    reveal_with_fuel(inputs_once, 32);
    reveal_with_fuel(input_place, 32);
    assert(inputs_once(instance_io_proxy_inputs_spec(), 10));
    assert(inputs_once(instance_io_proxy_inputs_spec(), 20));
    assert(inputs_once(instance_io_proxy_inputs_spec(), 30));
}

proof fn instance_io_proxy_outputs_are_distinct()
    ensures
        names_once(instance_io_proxy_outputs_spec(), instance_io_proxy_outputs_spec().len() as int),
{
    marks_ignore_case();
    a_name_is_itself();
    assert(mark("OnProxyRelay1"@) == 55532602653703780641992000000) by { reveal(mark); reveal_strlit("OnProxyRelay1"); }
    assert(mark("OnProxyRelay2"@) == 55532602653703780642000000000) by { reveal(mark); reveal_strlit("OnProxyRelay2"); }
    assert(mark("OnProxyRelay3"@) == 55532602653703780642008000000) by { reveal(mark); reveal_strlit("OnProxyRelay3"); }
    assert(mark("OnProxyRelay4"@) == 55532602653703780642016000000) by { reveal(mark); reveal_strlit("OnProxyRelay4"); }
    assert(mark("OnProxyRelay5"@) == 55532602653703780642024000000) by { reveal(mark); reveal_strlit("OnProxyRelay5"); }
    assert(mark("OnProxyRelay6"@) == 55532602653703780642032000000) by { reveal(mark); reveal_strlit("OnProxyRelay6"); }
    assert(mark("OnProxyRelay7"@) == 55532602653703780642040000000) by { reveal(mark); reveal_strlit("OnProxyRelay7"); }
    assert(mark("OnProxyRelay8"@) == 55532602653703780642048000000) by { reveal(mark); reveal_strlit("OnProxyRelay8"); }
    assert(mark("OnProxyRelay9"@) == 55532602653703780642056000000) by { reveal(mark); reveal_strlit("OnProxyRelay9"); }
    assert(mark("OnProxyRelay10"@) == 59628602653703780641993920000) by { reveal(mark); reveal_strlit("OnProxyRelay10"); }
    assert(mark("OnProxyRelay11"@) == 59628602653703780641993960000) by { reveal(mark); reveal_strlit("OnProxyRelay11"); }
    assert(mark("OnProxyRelay12"@) == 59628602653703780641994000000) by { reveal(mark); reveal_strlit("OnProxyRelay12"); }
    assert(mark("OnProxyRelay13"@) == 59628602653703780641994040000) by { reveal(mark); reveal_strlit("OnProxyRelay13"); }
    assert(mark("OnProxyRelay14"@) == 59628602653703780641994080000) by { reveal(mark); reveal_strlit("OnProxyRelay14"); }
    assert(mark("OnProxyRelay15"@) == 59628602653703780641994120000) by { reveal(mark); reveal_strlit("OnProxyRelay15"); }
    assert(mark("OnProxyRelay16"@) == 59628602653703780641994160000) by { reveal(mark); reveal_strlit("OnProxyRelay16"); }
    assert(mark("OnProxyRelay17"@) == 59628602653703780641994200000) by { reveal(mark); reveal_strlit("OnProxyRelay17"); }
    assert(mark("OnProxyRelay18"@) == 59628602653703780641994240000) by { reveal(mark); reveal_strlit("OnProxyRelay18"); }
    assert(mark("OnProxyRelay19"@) == 59628602653703780641994280000) by { reveal(mark); reveal_strlit("OnProxyRelay19"); }
    assert(mark("OnProxyRelay20"@) == 59628602653703780642001920000) by { reveal(mark); reveal_strlit("OnProxyRelay20"); }
    assert(mark("OnProxyRelay21"@) == 59628602653703780642001960000) by { reveal(mark); reveal_strlit("OnProxyRelay21"); }
    assert(mark("OnProxyRelay22"@) == 59628602653703780642002000000) by { reveal(mark); reveal_strlit("OnProxyRelay22"); }
    assert(mark("OnProxyRelay23"@) == 59628602653703780642002040000) by { reveal(mark); reveal_strlit("OnProxyRelay23"); }
    assert(mark("OnProxyRelay24"@) == 59628602653703780642002080000) by { reveal(mark); reveal_strlit("OnProxyRelay24"); }
    assert(mark("OnProxyRelay25"@) == 59628602653703780642002120000) by { reveal(mark); reveal_strlit("OnProxyRelay25"); }
    assert(mark("OnProxyRelay26"@) == 59628602653703780642002160000) by { reveal(mark); reveal_strlit("OnProxyRelay26"); }
    assert(mark("OnProxyRelay27"@) == 59628602653703780642002200000) by { reveal(mark); reveal_strlit("OnProxyRelay27"); }
    assert(mark("OnProxyRelay28"@) == 59628602653703780642002240000) by { reveal(mark); reveal_strlit("OnProxyRelay28"); }
    assert(mark("OnProxyRelay29"@) == 59628602653703780642002280000) by { reveal(mark); reveal_strlit("OnProxyRelay29"); }
    assert(mark("OnProxyRelay30"@) == 59628602653703780642009920000) by { reveal(mark); reveal_strlit("OnProxyRelay30"); }
    reveal_with_fuel(names_once, 32);
    reveal_with_fuel(name_place, 32);
    assert(names_once(instance_io_proxy_outputs_spec(), 10));
    assert(names_once(instance_io_proxy_outputs_spec(), 20));
    assert(names_once(instance_io_proxy_outputs_spec(), 30));
}

proof fn door_keys_are_distinct()
    ensures
        names_once(door_keys_spec(), door_keys_spec().len() as int),
        name_place(door_keys_spec(), "health"@, 0) is None,
{
    marks_ignore_case();
    a_name_is_itself();
    assert(mark("movedir"@) == 30915738369351296000000000000) by { reveal(mark); reveal_strlit("movedir"); }
    assert(mark("spawnpos"@) == 35134730011040740800000000000) by { reveal(mark); reveal_strlit("spawnpos"); }
    assert(mark("forceclosed"@) == 47156377347834147704000000000) by { reveal(mark); reveal_strlit("forceclosed"); }
    assert(mark("dmg"@) == 14347161600000000000000000000) by { reveal(mark); reveal_strlit("dmg"); }
    assert(mark("ignoredebris"@) == 51313004325139232476800000000) by { reveal(mark); reveal_strlit("ignoredebris"); }
    assert(mark("loopmovesound"@) == 55471264024468384504800000000) by { reveal(mark); reveal_strlit("loopmovesound"); }
    assert(mark("noise1"@) == 26840225539187200000000000000) by { reveal(mark); reveal_strlit("noise1"); }
    assert(mark("noise2"@) == 26840225539200000000000000000) by { reveal(mark); reveal_strlit("noise2"); }
    assert(mark("startclosesound"@) == 63807137066234147704940420000) by { reveal(mark); reveal_strlit("startclosesound"); }
    assert(mark("closesound"@) == 42998638340039141616000000000) by { reveal(mark); reveal_strlit("closesound"); }
    assert(mark("locked_sentence"@) == 63663261443846116962483980200) by { reveal(mark); reveal_strlit("locked_sentence"); }
    assert(mark("unlocked_sentence"@) == 72039481086816096152932062000) by { reveal(mark); reveal_strlit("unlocked_sentence"); }
    assert(mark("locked_sound"@) == 51375261443846116977600000000) by { reveal(mark); reveal_strlit("locked_sound"); }
    assert(mark("unlocked_sound"@) == 59751481086816096152884000000) by { reveal(mark); reveal_strlit("unlocked_sound"); }
    assert(mark("solidbsp"@) == 35134620417261795840000000000) by { reveal(mark); reveal_strlit("solidbsp"); }
    assert(mark("lip"@) == 14510592000000000000000000000) by { reveal(mark); reveal_strlit("lip"); }
    assert(mark("wait"@) == 18831112192000000000000000000) by { reveal(mark); reveal_strlit("wait"); }
    assert(mark("distance"@) == 34826811641734368320000000000) by { reveal(mark); reveal_strlit("distance"); }
    assert(mark("health"@) == 26716317994291200000000000000) by { reveal(mark); reveal_strlit("health"); }
    reveal_with_fuel(names_once, 20);
    reveal_with_fuel(name_place, 20);
    assert(names_once(door_keys_spec(), 10));
}

proof fn door_inputs_are_distinct()
    ensures
        inputs_once(door_inputs_spec(), door_inputs_spec().len() as int),
{
    marks_ignore_case();
    a_name_is_itself();
    a_base_input_has_a_known_mark();
    assert(mark("Open"@) == 18668805120000000000000000000) by { reveal(mark); reveal_strlit("Open"); }
    assert(mark("Close"@) == 22518638338560000000000000000) by { reveal(mark); reveal_strlit("Close"); }
    assert(mark("Toggle"@) == 26963099413772800000000000000) by { reveal(mark); reveal_strlit("Toggle"); }
    assert(mark("Lock"@) == 18607261184000000000000000000) by { reveal(mark); reveal_strlit("Lock"); }
    assert(mark("Unlock"@) == 26983481086809600000000000000) by { reveal(mark); reveal_strlit("Unlock"); }
    assert(mark("SetSpeed"@) == 35133601568019296000000000000) by { reveal(mark); reveal_strlit("SetSpeed"); }
    reveal_with_fuel(inputs_once, 8);
    reveal_with_fuel(input_place, 8);
}

proof fn door_outputs_are_distinct()
    ensures
        names_once(door_outputs_spec(), door_outputs_spec().len() as int),
{
    marks_ignore_case();
    a_name_is_itself();
    assert(mark("OnClose"@) == 30956599581638464000000000000) by { reveal(mark); reveal_strlit("OnClose"); }
    assert(mark("OnOpen"@) == 26860601603968000000000000000) by { reveal(mark); reveal_strlit("OnOpen"); }
    assert(mark("OnFullyClosed"@) == 55532604181870175853600000000) by { reveal(mark); reveal_strlit("OnFullyClosed"); }
    assert(mark("OnFullyOpen"@) == 47340604181870179699200000000) by { reveal(mark); reveal_strlit("OnFullyOpen"); }
    assert(mark("OnBlockedClosing"@) == 67820599581434080480924222000) by { reveal(mark); reveal_strlit("OnBlockedClosing"); }
    assert(mark("OnBlockedOpening"@) == 67820599581434080480884222000) by { reveal(mark); reveal_strlit("OnBlockedOpening"); }
    assert(mark("OnUnblockedClosing"@) == 76012600572269535852068463103) by { reveal(mark); reveal_strlit("OnUnblockedClosing"); }
    assert(mark("OnUnblockedOpening"@) == 76012600572269535852100062103) by { reveal(mark); reveal_strlit("OnUnblockedOpening"); }
    assert(mark("OnLockedUse"@) == 47340601086816096187200000000) by { reveal(mark); reveal_strlit("OnLockedUse"); }
    reveal_with_fuel(names_once, 11);
    reveal_with_fuel(name_place, 11);
}

proof fn move_linear_keys_are_distinct()
    ensures
        names_once(move_linear_keys_spec(), move_linear_keys_spec().len() as int),
        name_place(move_linear_keys_spec(), "health"@, 0) is None,
{
    marks_ignore_case();
    a_name_is_itself();
    assert(mark("movedir"@) == 30915738369351296000000000000) by { reveal(mark); reveal_strlit("movedir"); }
    assert(mark("startposition"@) == 55615137066400740968880000000) by { reveal(mark); reveal_strlit("startposition"); }
    assert(mark("movedistance"@) == 51395738369351397275200000000) by { reveal(mark); reveal_strlit("movedistance"); }
    assert(mark("blockdamage"@) == 47074150163206243035200000000) by { reveal(mark); reveal_strlit("blockdamage"); }
    assert(mark("startsound"@) == 43327137066439141616000000000) by { reveal(mark); reveal_strlit("startsound"); }
    assert(mark("stopsound"@) == 39231136039828323360000000000) by { reveal(mark); reveal_strlit("stopsound"); }
    assert(mark("lip"@) == 14510592000000000000000000000) by { reveal(mark); reveal_strlit("lip"); }
    assert(mark("wait"@) == 18831112192000000000000000000) by { reveal(mark); reveal_strlit("wait"); }
    assert(mark("distance"@) == 34826811641734368320000000000) by { reveal(mark); reveal_strlit("distance"); }
    assert(mark("health"@) == 26716317994291200000000000000) by { reveal(mark); reveal_strlit("health"); }
    reveal_with_fuel(names_once, 11);
    reveal_with_fuel(name_place, 11);
}

proof fn move_linear_inputs_are_distinct()
    ensures
        inputs_once(move_linear_inputs_spec(), move_linear_inputs_spec().len() as int),
{
    marks_ignore_case();
    a_name_is_itself();
    a_base_input_has_a_known_mark();
    assert(mark("Open"@) == 18668805120000000000000000000) by { reveal(mark); reveal_strlit("Open"); }
    assert(mark("Close"@) == 22518638338560000000000000000) by { reveal(mark); reveal_strlit("Close"); }
    assert(mark("SetPosition"@) == 47421600029638757288000000000) by { reveal(mark); reveal_strlit("SetPosition"); }
    assert(mark("SetSpeed"@) == 35133601568019296000000000000) by { reveal(mark); reveal_strlit("SetSpeed"); }
    reveal_with_fuel(inputs_once, 6);
    reveal_with_fuel(input_place, 6);
}

proof fn move_linear_outputs_are_distinct()
    ensures
        names_once(move_linear_outputs_spec(), move_linear_outputs_spec().len() as int),
{
    marks_ignore_case();
    a_name_is_itself();
    assert(mark("OnFullyOpen"@) == 47340604181870179699200000000) by { reveal(mark); reveal_strlit("OnFullyOpen"); }
    assert(mark("OnFullyClosed"@) == 55532604181870175853600000000) by { reveal(mark); reveal_strlit("OnFullyClosed"); }
    reveal_with_fuel(names_once, 4);
    reveal_with_fuel(name_place, 4);
}

proof fn button_keys_are_distinct()
    ensures
        names_once(button_keys_spec(), button_keys_spec().len() as int),
        name_place(button_keys_spec(), "health"@, 0) is None,
{
    marks_ignore_case();
    a_name_is_itself();
    assert(mark("movedir"@) == 30915738369351296000000000000) by { reveal(mark); reveal_strlit("movedir"); }
    assert(mark("sounds"@) == 26942622977472000000000000000) by { reveal(mark); reveal_strlit("sounds"); }
    assert(mark("locked_sound"@) == 51375261443846116977600000000) by { reveal(mark); reveal_strlit("locked_sound"); }
    assert(mark("unlocked_sound"@) == 59751481086816096152884000000) by { reveal(mark); reveal_strlit("unlocked_sound"); }
    assert(mark("locked_sentence"@) == 63663261443846116962483980200) by { reveal(mark); reveal_strlit("locked_sentence"); }
    assert(mark("unlocked_sentence"@) == 72039481086816096152932062000) by { reveal(mark); reveal_strlit("unlocked_sentence"); }
    assert(mark("min_use_angle"@) == 55491120940998494556008000000) by { reveal(mark); reveal_strlit("min_use_angle"); }
    assert(mark("lip"@) == 14510592000000000000000000000) by { reveal(mark); reveal_strlit("lip"); }
    assert(mark("wait"@) == 18831112192000000000000000000) by { reveal(mark); reveal_strlit("wait"); }
    assert(mark("distance"@) == 34826811641734368320000000000) by { reveal(mark); reveal_strlit("distance"); }
    assert(mark("health"@) == 26716317994291200000000000000) by { reveal(mark); reveal_strlit("health"); }
    reveal_with_fuel(names_once, 12);
    reveal_with_fuel(name_place, 12);
}

proof fn button_inputs_are_distinct()
    ensures
        inputs_once(button_inputs_spec(), button_inputs_spec().len() as int),
{
    marks_ignore_case();
    a_name_is_itself();
    a_base_input_has_a_known_mark();
    assert(mark("Lock"@) == 18607261184000000000000000000) by { reveal(mark); reveal_strlit("Lock"); }
    assert(mark("Unlock"@) == 26983481086809600000000000000) by { reveal(mark); reveal_strlit("Unlock"); }
    assert(mark("Press"@) == 22785492774400000000000000000) by { reveal(mark); reveal_strlit("Press"); }
    assert(mark("PressIn"@) == 30977492775751040000000000000) by { reveal(mark); reveal_strlit("PressIn"); }
    assert(mark("PressOut"@) == 35073492775828325120000000000) by { reveal(mark); reveal_strlit("PressOut"); }
    reveal_with_fuel(inputs_once, 7);
    reveal_with_fuel(input_place, 7);
}

proof fn button_outputs_are_distinct()
    ensures
        names_once(button_outputs_spec(), button_outputs_spec().len() as int),
{
    marks_ignore_case();
    a_name_is_itself();
    assert(mark("OnDamaged"@) == 39148593944288224480000000000) by { reveal(mark); reveal_strlit("OnDamaged"); }
    assert(mark("OnPressed"@) == 39148602628039392480000000000) by { reveal(mark); reveal_strlit("OnPressed"); }
    assert(mark("OnUseLocked"@) == 47340603139949535851200000000) by { reveal(mark); reveal_strlit("OnUseLocked"); }
    assert(mark("OnIn"@) == 18668600320000000000000000000) by { reveal(mark); reveal_strlit("OnIn"); }
    assert(mark("OnOut"@) == 22764604200960000000000000000) by { reveal(mark); reveal_strlit("OnOut"); }
    reveal_with_fuel(names_once, 7);
    reveal_with_fuel(name_place, 7);
}

proof fn rotating_keys_are_distinct()
    ensures
        names_once(rotating_keys_spec(), rotating_keys_spec().len() as int),
        name_place(rotating_keys_spec(), "health"@, 0) is None,
{
    marks_ignore_case();
    a_name_is_itself();
    assert(mark("fanfriction"@) == 47154945317190373288000000000) by { reveal(mark); reveal_strlit("fanfriction"); }
    assert(mark("volume"@) == 27004066584332800000000000000) by { reveal(mark); reveal_strlit("volume"); }
    assert(mark("maxspeed"@) == 35010311968019296000000000000) by { reveal(mark); reveal_strlit("maxspeed"); }
    assert(mark("dmg"@) == 14347161600000000000000000000) by { reveal(mark); reveal_strlit("dmg"); }
    assert(mark("message"@) == 30914721529644864000000000000) by { reveal(mark); reveal_strlit("message"); }
    assert(mark("solidbsp"@) == 35134620417261795840000000000) by { reveal(mark); reveal_strlit("solidbsp"); }
    assert(mark("health"@) == 26716317994291200000000000000) by { reveal(mark); reveal_strlit("health"); }
    reveal_with_fuel(names_once, 8);
    reveal_with_fuel(name_place, 8);
}

proof fn rotating_inputs_are_distinct()
    ensures
        inputs_once(rotating_inputs_spec(), rotating_inputs_spec().len() as int),
{
    marks_ignore_case();
    a_name_is_itself();
    a_base_input_has_a_known_mark();
    assert(mark("SetSpeed"@) == 35133601568019296000000000000) by { reveal(mark); reveal_strlit("SetSpeed"); }
    assert(mark("GetSpeed"@) == 34887841568019296000000000000) by { reveal(mark); reveal_strlit("GetSpeed"); }
    assert(mark("Start"@) == 22847137064960000000000000000) by { reveal(mark); reveal_strlit("Start"); }
    assert(mark("Stop"@) == 18751135744000000000000000000) by { reveal(mark); reveal_strlit("Stop"); }
    assert(mark("Toggle"@) == 26963099413772800000000000000) by { reveal(mark); reveal_strlit("Toggle"); }
    assert(mark("Reverse"@) == 31017114405318464000000000000) by { reveal(mark); reveal_strlit("Reverse"); }
    assert(mark("StartForward"@) == 51519137066272740670400000000) by { reveal(mark); reveal_strlit("StartForward"); }
    assert(mark("StartBackward"@) == 55615137066220639852000000000) by { reveal(mark); reveal_strlit("StartBackward"); }
    assert(mark("StopAtStartPos"@) == 59711135993812197276092600000) by { reveal(mark); reveal_strlit("StopAtStartPos"); }
    reveal_with_fuel(inputs_once, 11);
    reveal_with_fuel(input_place, 11);
}

proof fn rotating_outputs_are_distinct()
    ensures
        names_once(rotating_outputs_spec(), rotating_outputs_spec().len() as int),
{
    marks_ignore_case();
    a_name_is_itself();
    assert(mark("OnGetSpeed"@) == 43244596010439200481600000000) by { reveal(mark); reveal_strlit("OnGetSpeed"); }
    reveal_with_fuel(names_once, 3);
    reveal_with_fuel(name_place, 3);
}

proof fn auto_keys_are_distinct()
    ensures
        names_once(auto_keys_spec(), auto_keys_spec().len() as int),
        name_place(auto_keys_spec(), "health"@, 0) is None,
{
    marks_ignore_case();
    a_name_is_itself();
    assert(mark("globalstate"@) == 47176549625709797275200000000) by { reveal(mark); reveal_strlit("globalstate"); }
    assert(mark("health"@) == 26716317994291200000000000000) by { reveal(mark); reveal_strlit("health"); }
    reveal_with_fuel(names_once, 3);
    reveal_with_fuel(name_place, 3);
}

proof fn auto_outputs_are_distinct()
    ensures
        names_once(auto_outputs_spec(), auto_outputs_spec().len() as int),
{
    marks_ignore_case();
    a_name_is_itself();
    assert(mark("OnMapSpawn"@) == 43244593952199199230400000000) by { reveal(mark); reveal_strlit("OnMapSpawn"); }
    assert(mark("OnNewGame"@) == 39148596017964643041600000000) by { reveal(mark); reveal_strlit("OnNewGame"); }
    assert(mark("OnLoadGame"@) == 43244601081606623214400000000) by { reveal(mark); reveal_strlit("OnLoadGame"); }
    assert(mark("OnMapTransition"@) == 63724593952212127216844462000) by { reveal(mark); reveal_strlit("OnMapTransition"); }
    assert(mark("OnBackgroundMap"@) == 63724593918816228658475902400) by { reveal(mark); reveal_strlit("OnBackgroundMap"); }
    assert(mark("OnMultiNewMap"@) == 55532604181971555362496000000) by { reveal(mark); reveal_strlit("OnMultiNewMap"); }
    assert(mark("OnMultiNewRound"@) == 63724604181971555362540420000) by { reveal(mark); reveal_strlit("OnMultiNewRound"); }
    reveal_with_fuel(names_once, 9);
    reveal_with_fuel(name_place, 9);
}

proof fn branch_keys_are_distinct()
    ensures
        names_once(branch_keys_spec(), branch_keys_spec().len() as int),
        name_place(branch_keys_spec(), "health"@, 0) is None,
{
    marks_ignore_case();
    a_name_is_itself();
    assert(mark("InitialValue"@) == 51313723662048549915200000000) by { reveal(mark); reveal_strlit("InitialValue"); }
    assert(mark("health"@) == 26716317994291200000000000000) by { reveal(mark); reveal_strlit("health"); }
    reveal_with_fuel(names_once, 3);
    reveal_with_fuel(name_place, 3);
}

proof fn branch_inputs_are_distinct()
    ensures
        inputs_once(branch_inputs_spec(), branch_inputs_spec().len() as int),
{
    marks_ignore_case();
    a_name_is_itself();
    a_base_input_has_a_known_mark();
    assert(mark("SetValue"@) == 35133603065709920320000000000) by { reveal(mark); reveal_strlit("SetValue"); }
    assert(mark("SetValueTest"@) == 51517603065709920505600000000) by { reveal(mark); reveal_strlit("SetValueTest"); }
    assert(mark("Toggle"@) == 26963099413772800000000000000) by { reveal(mark); reveal_strlit("Toggle"); }
    assert(mark("ToggleTest"@) == 43347099413780256504000000000) by { reveal(mark); reveal_strlit("ToggleTest"); }
    assert(mark("Test"@) == 18770081792000000000000000000) by { reveal(mark); reveal_strlit("Test"); }
    reveal_with_fuel(inputs_once, 7);
    reveal_with_fuel(input_place, 7);
}

proof fn branch_outputs_are_distinct()
    ensures
        names_once(branch_outputs_spec(), branch_outputs_spec().len() as int),
{
    marks_ignore_case();
    a_name_is_itself();
    assert(mark("OnTrue"@) == 26860602668812800000000000000) by { reveal(mark); reveal_strlit("OnTrue"); }
    assert(mark("OnFalse"@) == 30956593941958464000000000000) by { reveal(mark); reveal_strlit("OnFalse"); }
    reveal_with_fuel(names_once, 4);
    reveal_with_fuel(name_place, 4);
}

proof fn branch_list_keys_are_distinct()
    ensures
        names_once(branch_list_keys_spec(), branch_list_keys_spec().len() as int),
        name_place(branch_list_keys_spec(), "health"@, 0) is None,
{
    marks_ignore_case();
    a_name_is_itself();
    assert(mark("Branch01"@) == 34786770174774287680000000000) by { reveal(mark); reveal_strlit("Branch01"); }
    assert(mark("Branch02"@) == 34786770174774288000000000000) by { reveal(mark); reveal_strlit("Branch02"); }
    assert(mark("Branch03"@) == 34786770174774288320000000000) by { reveal(mark); reveal_strlit("Branch03"); }
    assert(mark("Branch04"@) == 34786770174774288640000000000) by { reveal(mark); reveal_strlit("Branch04"); }
    assert(mark("Branch05"@) == 34786770174774288960000000000) by { reveal(mark); reveal_strlit("Branch05"); }
    assert(mark("Branch06"@) == 34786770174774289280000000000) by { reveal(mark); reveal_strlit("Branch06"); }
    assert(mark("Branch07"@) == 34786770174774289600000000000) by { reveal(mark); reveal_strlit("Branch07"); }
    assert(mark("Branch08"@) == 34786770174774289920000000000) by { reveal(mark); reveal_strlit("Branch08"); }
    assert(mark("Branch09"@) == 34786770174774290240000000000) by { reveal(mark); reveal_strlit("Branch09"); }
    assert(mark("Branch10"@) == 34786770174774351360000000000) by { reveal(mark); reveal_strlit("Branch10"); }
    assert(mark("Branch11"@) == 34786770174774351680000000000) by { reveal(mark); reveal_strlit("Branch11"); }
    assert(mark("Branch12"@) == 34786770174774352000000000000) by { reveal(mark); reveal_strlit("Branch12"); }
    assert(mark("Branch13"@) == 34786770174774352320000000000) by { reveal(mark); reveal_strlit("Branch13"); }
    assert(mark("Branch14"@) == 34786770174774352640000000000) by { reveal(mark); reveal_strlit("Branch14"); }
    assert(mark("Branch15"@) == 34786770174774352960000000000) by { reveal(mark); reveal_strlit("Branch15"); }
    assert(mark("Branch16"@) == 34786770174774353280000000000) by { reveal(mark); reveal_strlit("Branch16"); }
    assert(mark("health"@) == 26716317994291200000000000000) by { reveal(mark); reveal_strlit("health"); }
    reveal_with_fuel(names_once, 18);
    reveal_with_fuel(name_place, 18);
    assert(names_once(branch_list_keys_spec(), 10));
}

proof fn branch_list_inputs_are_distinct()
    ensures
        inputs_once(branch_list_inputs_spec(), branch_list_inputs_spec().len() as int),
{
    marks_ignore_case();
    a_name_is_itself();
    a_base_input_has_a_known_mark();
    assert(mark("Test"@) == 18770081792000000000000000000) by { reveal(mark); reveal_strlit("Test"); }
    assert(mark("_OnLogicBranchChanged"@) == 87973021981485151837596179910) by { reveal(mark); reveal_strlit("_OnLogicBranchChanged"); }
    assert(mark("_OnLogicBranchRemoved"@) == 87973021981485151837596182911) by { reveal(mark); reveal_strlit("_OnLogicBranchRemoved"); }
    reveal_with_fuel(inputs_once, 5);
    reveal_with_fuel(input_place, 5);
}

proof fn branch_list_outputs_are_distinct()
    ensures
        names_once(branch_list_outputs_spec(), branch_list_outputs_spec().len() as int),
{
    marks_ignore_case();
    a_name_is_itself();
    assert(mark("OnAllTrue"@) == 39148599573972133601600000000) by { reveal(mark); reveal_strlit("OnAllTrue"); }
    assert(mark("OnAllFalse"@) == 43244599573791842744000000000) by { reveal(mark); reveal_strlit("OnAllFalse"); }
    assert(mark("OnMixed"@) == 30956598068499200000000000000) by { reveal(mark); reveal_strlit("OnMixed"); }
    reveal_with_fuel(names_once, 5);
    reveal_with_fuel(name_place, 5);
}

proof fn timer_keys_are_distinct()
    ensures
        names_once(timer_keys_spec(), timer_keys_spec().len() as int),
        name_place(timer_keys_spec(), "health"@, 0) is None,
{
    marks_ignore_case();
    a_name_is_itself();
    assert(mark("StartDisabled"@) == 55615137066246756956000000000) by { reveal(mark); reveal_strlit("StartDisabled"); }
    assert(mark("RefireTime"@) == 43305116453140257774400000000) by { reveal(mark); reveal_strlit("RefireTime"); }
    assert(mark("UseRandomTime"@) == 55655994617734435695208000000) by { reveal(mark); reveal_strlit("UseRandomTime"); }
    assert(mark("LowerRandomBound"@) == 67759258405305443360892702000) by { reveal(mark); reveal_strlit("LowerRandomBound"); }
    assert(mark("UpperRandomBound"@) == 67943680805305443360892702000) by { reveal(mark); reveal_strlit("UpperRandomBound"); }
    assert(mark("health"@) == 26716317994291200000000000000) by { reveal(mark); reveal_strlit("health"); }
    reveal_with_fuel(names_once, 7);
    reveal_with_fuel(name_place, 7);
}

proof fn timer_inputs_are_distinct()
    ensures
        inputs_once(timer_inputs_spec(), timer_inputs_spec().len() as int),
{
    marks_ignore_case();
    a_name_is_itself();
    a_base_input_has_a_known_mark();
    assert(mark("RefireTime"@) == 43305116453140257774400000000) by { reveal(mark); reveal_strlit("RefireTime"); }
    assert(mark("FireTimer"@) == 38963764010311008502400000000) by { reveal(mark); reveal_strlit("FireTimer"); }
    assert(mark("Enable"@) == 26655794453772800000000000000) by { reveal(mark); reveal_strlit("Enable"); }
    assert(mark("Disable"@) == 30730801916268864000000000000) by { reveal(mark); reveal_strlit("Disable"); }
    assert(mark("Toggle"@) == 26963099413772800000000000000) by { reveal(mark); reveal_strlit("Toggle"); }
    assert(mark("AddToTimer"@) == 42956859677651555041600000000) by { reveal(mark); reveal_strlit("AddToTimer"); }
    assert(mark("ResetTimer"@) == 43305114410451555041600000000) by { reveal(mark); reveal_strlit("ResetTimer"); }
    assert(mark("SubtractFromTimer"@) == 71999240485087973284132221800) by { reveal(mark); reveal_strlit("SubtractFromTimer"); }
    assert(mark("UseRandomTime"@) == 55655994617734435695208000000) by { reveal(mark); reveal_strlit("UseRandomTime"); }
    assert(mark("LowerRandomBound"@) == 67759258405305443360892702000) by { reveal(mark); reveal_strlit("LowerRandomBound"); }
    assert(mark("UpperRandomBound"@) == 67943680805305443360892702000) by { reveal(mark); reveal_strlit("UpperRandomBound"); }
    reveal_with_fuel(inputs_once, 13);
    reveal_with_fuel(input_place, 13);
}

proof fn timer_outputs_are_distinct()
    ensures
        names_once(timer_outputs_spec(), timer_outputs_spec().len() as int),
{
    marks_ignore_case();
    a_name_is_itself();
    assert(mark("OnTimer"@) == 30956598040340096000000000000) by { reveal(mark); reveal_strlit("OnTimer"); }
    assert(mark("OnTimerHigh"@) == 47340598040340129448000000000) by { reveal(mark); reveal_strlit("OnTimerHigh"); }
    assert(mark("OnTimerLow"@) == 43244598040340130737600000000) by { reveal(mark); reveal_strlit("OnTimerLow"); }
    reveal_with_fuel(names_once, 5);
    reveal_with_fuel(name_place, 5);
}

proof fn math_counter_keys_are_distinct()
    ensures
        names_once(math_counter_keys_spec(), math_counter_keys_spec().len() as int),
        name_place(math_counter_keys_spec(), "health"@, 0) is None,
{
    marks_ignore_case();
    a_name_is_itself();
    assert(mark("min"@) == 14531072000000000000000000000) by { reveal(mark); reveal_strlit("min"); }
    assert(mark("max"@) == 14530252800000000000000000000) by { reveal(mark); reveal_strlit("max"); }
    assert(mark("startvalue"@) == 43327137066476642747200000000) by { reveal(mark); reveal_strlit("startvalue"); }
    assert(mark("StartDisabled"@) == 55615137066246756956000000000) by { reveal(mark); reveal_strlit("StartDisabled"); }
    assert(mark("health"@) == 26716317994291200000000000000) by { reveal(mark); reveal_strlit("health"); }
    reveal_with_fuel(names_once, 6);
    reveal_with_fuel(name_place, 6);
}

proof fn math_counter_inputs_are_distinct()
    ensures
        inputs_once(math_counter_inputs_spec(), math_counter_inputs_spec().len() as int),
{
    marks_ignore_case();
    a_name_is_itself();
    a_base_input_has_a_known_mark();
    assert(mark("Add"@) == 14284800000000000000000000000) by { reveal(mark); reveal_strlit("Add"); }
    assert(mark("Divide"@) == 26634806017292800000000000000) by { reveal(mark); reveal_strlit("Divide"); }
    assert(mark("Multiply"@) == 35012360462240550720000000000) by { reveal(mark); reveal_strlit("Multiply"); }
    assert(mark("SetValue"@) == 35133603065709920320000000000) by { reveal(mark); reveal_strlit("SetValue"); }
    assert(mark("SetValueNoFire"@) == 59709603065709920496916040000) by { reveal(mark); reveal_strlit("SetValueNoFire"); }
    assert(mark("SetMaxValueNoFire"@) == 71997598457863583213692101000) by { reveal(mark); reveal_strlit("SetMaxValueNoFire"); }
    assert(mark("SetMinValueNoFire"@) == 71997598478215583213692101000) by { reveal(mark); reveal_strlit("SetMinValueNoFire"); }
    assert(mark("Subtract"@) == 35135240485087973120000000000) by { reveal(mark); reveal_strlit("Subtract"); }
    assert(mark("SetHitMax"@) == 39229595918291807232000000000) by { reveal(mark); reveal_strlit("SetHitMax"); }
    assert(mark("SetHitMin"@) == 39229595918291809776000000000) by { reveal(mark); reveal_strlit("SetHitMin"); }
    assert(mark("GetValue"@) == 34887843065709920320000000000) by { reveal(mark); reveal_strlit("GetValue"); }
    assert(mark("Enable"@) == 26655794453772800000000000000) by { reveal(mark); reveal_strlit("Enable"); }
    assert(mark("Disable"@) == 30730801916268864000000000000) by { reveal(mark); reveal_strlit("Disable"); }
    reveal_with_fuel(inputs_once, 15);
    reveal_with_fuel(input_place, 15);
    assert(inputs_once(math_counter_inputs_spec(), 10));
}

proof fn math_counter_outputs_are_distinct()
    ensures
        names_once(math_counter_outputs_spec(), math_counter_outputs_spec().len() as int),
{
    marks_ignore_case();
    a_name_is_itself();
    assert(mark("OutValue"@) == 35053321465709920320000000000) by { reveal(mark); reveal_strlit("OutValue"); }
    assert(mark("OnHitMin"@) == 35052598058361955200000000000) by { reveal(mark); reveal_strlit("OnHitMin"); }
    assert(mark("OnHitMax"@) == 35052598058361446400000000000) by { reveal(mark); reveal_strlit("OnHitMax"); }
    assert(mark("OnChangedFromMin"@) == 67820597497734624480876381000) by { reveal(mark); reveal_strlit("OnChangedFromMin"); }
    assert(mark("OnChangedFromMax"@) == 67820597497734624480876379400) by { reveal(mark); reveal_strlit("OnChangedFromMax"); }
    assert(mark("OnGetValue"@) == 43244596010476642747200000000) by { reveal(mark); reveal_strlit("OnGetValue"); }
    reveal_with_fuel(names_once, 8);
    reveal_with_fuel(name_place, 8);
}

proof fn tonemap_controller_inputs_are_distinct()
    ensures
        inputs_once(tonemap_controller_inputs_spec(), tonemap_controller_inputs_spec().len() as int),
{
    marks_ignore_case();
    a_name_is_itself();
    a_base_input_has_a_known_mark();
    assert(mark("SetTonemapRate"@) == 59709602077574499036132040000) by { reveal(mark); reveal_strlit("SetTonemapRate"); }
    assert(mark("SetAutoExposureMin"@) == 76093592365011936512940580310) by { reveal(mark); reveal_strlit("SetAutoExposureMin"); }
    assert(mark("SetAutoExposureMax"@) == 76093592365011936512940580320) by { reveal(mark); reveal_strlit("SetAutoExposureMax"); }
    assert(mark("UseDefaultAutoExposure"@) == 92519987459871845613732460311) by { reveal(mark); reveal_strlit("UseDefaultAutoExposure"); }
    assert(mark("UseDefaultBloomScale"@) == 84327987459871845613692461897) by { reveal(mark); reveal_strlit("UseDefaultBloomScale"); }
    assert(mark("SetBloomScale"@) == 55613592853907939064808000000) by { reveal(mark); reveal_strlit("SetBloomScale"); }
    assert(mark("SetBloomScaleRange"@) == 76093592853907939064812579501) by { reveal(mark); reveal_strlit("SetBloomScaleRange"); }
    assert(mark("SetBloomExponent"@) == 67901592853907939042484062000) by { reveal(mark); reveal_strlit("SetBloomExponent"); }
    assert(mark("SetBloomSaturation"@) == 76093592853907939064915903310) by { reveal(mark); reveal_strlit("SetBloomSaturation"); }
    assert(mark("SetTonemapPercentTarget"@) == 96573602077574499036115980316) by { reveal(mark); reveal_strlit("SetTonemapPercentTarget"); }
    assert(mark("SetTonemapPercentBrightPixels"@) == 121149602077574499036115980298) by { reveal(mark); reveal_strlit("SetTonemapPercentBrightPixels"); }
    assert(mark("SetTonemapMinAvgLum"@) == 80189602077574499036083903717) by { reveal(mark); reveal_strlit("SetTonemapMinAvgLum"); }
    reveal_with_fuel(inputs_once, 14);
    reveal_with_fuel(input_place, 14);
}

proof fn case_keys_are_distinct()
    ensures
        names_once(case_keys_spec(), case_keys_spec().len() as int),
        name_place(case_keys_spec(), "health"@, 0) is None,
{
    marks_ignore_case();
    a_name_is_itself();
    assert(mark("Case01"@) == 26613504635507200000000000000) by { reveal(mark); reveal_strlit("Case01"); }
    assert(mark("Case02"@) == 26613504635520000000000000000) by { reveal(mark); reveal_strlit("Case02"); }
    assert(mark("Case03"@) == 26613504635532800000000000000) by { reveal(mark); reveal_strlit("Case03"); }
    assert(mark("Case04"@) == 26613504635545600000000000000) by { reveal(mark); reveal_strlit("Case04"); }
    assert(mark("Case05"@) == 26613504635558400000000000000) by { reveal(mark); reveal_strlit("Case05"); }
    assert(mark("Case06"@) == 26613504635571200000000000000) by { reveal(mark); reveal_strlit("Case06"); }
    assert(mark("Case07"@) == 26613504635584000000000000000) by { reveal(mark); reveal_strlit("Case07"); }
    assert(mark("Case08"@) == 26613504635596800000000000000) by { reveal(mark); reveal_strlit("Case08"); }
    assert(mark("Case09"@) == 26613504635609600000000000000) by { reveal(mark); reveal_strlit("Case09"); }
    assert(mark("Case10"@) == 26613504638054400000000000000) by { reveal(mark); reveal_strlit("Case10"); }
    assert(mark("Case11"@) == 26613504638067200000000000000) by { reveal(mark); reveal_strlit("Case11"); }
    assert(mark("Case12"@) == 26613504638080000000000000000) by { reveal(mark); reveal_strlit("Case12"); }
    assert(mark("Case13"@) == 26613504638092800000000000000) by { reveal(mark); reveal_strlit("Case13"); }
    assert(mark("Case14"@) == 26613504638105600000000000000) by { reveal(mark); reveal_strlit("Case14"); }
    assert(mark("Case15"@) == 26613504638118400000000000000) by { reveal(mark); reveal_strlit("Case15"); }
    assert(mark("Case16"@) == 26613504638131200000000000000) by { reveal(mark); reveal_strlit("Case16"); }
    assert(mark("health"@) == 26716317994291200000000000000) by { reveal(mark); reveal_strlit("health"); }
    reveal_with_fuel(names_once, 18);
    reveal_with_fuel(name_place, 18);
    assert(names_once(case_keys_spec(), 10));
}

proof fn case_inputs_are_distinct()
    ensures
        inputs_once(case_inputs_spec(), case_inputs_spec().len() as int),
{
    marks_ignore_case();
    a_name_is_itself();
    a_base_input_has_a_known_mark();
    assert(mark("InValue"@) == 30833713941984064000000000000) by { reveal(mark); reveal_strlit("InValue"); }
    assert(mark("PickRandom"@) == 43264567077088672177600000000) by { reveal(mark); reveal_strlit("PickRandom"); }
    assert(mark("PickRandomShuffle"@) == 71936567077088672178540100400) by { reveal(mark); reveal_strlit("PickRandomShuffle"); }
    reveal_with_fuel(inputs_once, 5);
    reveal_with_fuel(input_place, 5);
}

proof fn case_outputs_are_distinct()
    ensures
        names_once(case_outputs_spec(), case_outputs_spec().len() as int),
{
    marks_ignore_case();
    a_name_is_itself();
    assert(mark("OnCase01"@) == 35052593959695887680000000000) by { reveal(mark); reveal_strlit("OnCase01"); }
    assert(mark("OnCase02"@) == 35052593959695888000000000000) by { reveal(mark); reveal_strlit("OnCase02"); }
    assert(mark("OnCase03"@) == 35052593959695888320000000000) by { reveal(mark); reveal_strlit("OnCase03"); }
    assert(mark("OnCase04"@) == 35052593959695888640000000000) by { reveal(mark); reveal_strlit("OnCase04"); }
    assert(mark("OnCase05"@) == 35052593959695888960000000000) by { reveal(mark); reveal_strlit("OnCase05"); }
    assert(mark("OnCase06"@) == 35052593959695889280000000000) by { reveal(mark); reveal_strlit("OnCase06"); }
    assert(mark("OnCase07"@) == 35052593959695889600000000000) by { reveal(mark); reveal_strlit("OnCase07"); }
    assert(mark("OnCase08"@) == 35052593959695889920000000000) by { reveal(mark); reveal_strlit("OnCase08"); }
    assert(mark("OnCase09"@) == 35052593959695890240000000000) by { reveal(mark); reveal_strlit("OnCase09"); }
    assert(mark("OnCase10"@) == 35052593959695951360000000000) by { reveal(mark); reveal_strlit("OnCase10"); }
    assert(mark("OnCase11"@) == 35052593959695951680000000000) by { reveal(mark); reveal_strlit("OnCase11"); }
    assert(mark("OnCase12"@) == 35052593959695952000000000000) by { reveal(mark); reveal_strlit("OnCase12"); }
    assert(mark("OnCase13"@) == 35052593959695952320000000000) by { reveal(mark); reveal_strlit("OnCase13"); }
    assert(mark("OnCase14"@) == 35052593959695952640000000000) by { reveal(mark); reveal_strlit("OnCase14"); }
    assert(mark("OnCase15"@) == 35052593959695952960000000000) by { reveal(mark); reveal_strlit("OnCase15"); }
    assert(mark("OnCase16"@) == 35052593959695953280000000000) by { reveal(mark); reveal_strlit("OnCase16"); }
    assert(mark("OnDefault"@) == 39148595974369122745600000000) by { reveal(mark); reveal_strlit("OnDefault"); }
    reveal_with_fuel(names_once, 19);
    reveal_with_fuel(name_place, 19);
    assert(names_once(case_outputs_spec(), 10));
}

proof fn base_trigger_keys_are_distinct()
    ensures
        names_once(base_trigger_keys_spec(), base_trigger_keys_spec().len() as int),
        name_place(base_trigger_keys_spec(), "health"@, 0) is None,
{
    marks_ignore_case();
    a_name_is_itself();
    assert(mark("StartDisabled"@) == 55615137066246756956000000000) by { reveal(mark); reveal_strlit("StartDisabled"); }
    assert(mark("filtername"@) == 43059771652026271214400000000) by { reveal(mark); reveal_strlit("filtername"); }
    assert(mark("health"@) == 26716317994291200000000000000) by { reveal(mark); reveal_strlit("health"); }
    reveal_with_fuel(names_once, 4);
    reveal_with_fuel(name_place, 4);
}

proof fn base_trigger_inputs_are_distinct()
    ensures
        inputs_once(base_trigger_inputs_spec(), base_trigger_inputs_spec().len() as int),
{
    marks_ignore_case();
    a_name_is_itself();
    a_base_input_has_a_known_mark();
    assert(mark("Enable"@) == 26655794453772800000000000000) by { reveal(mark); reveal_strlit("Enable"); }
    assert(mark("Disable"@) == 30730801916268864000000000000) by { reveal(mark); reveal_strlit("Disable"); }
    assert(mark("Toggle"@) == 26963099413772800000000000000) by { reveal(mark); reveal_strlit("Toggle"); }
    assert(mark("TouchTest"@) == 39251097355731300985600000000) by { reveal(mark); reveal_strlit("TouchTest"); }
    assert(mark("StartTouch"@) == 43327137066451941598400000000) by { reveal(mark); reveal_strlit("StartTouch"); }
    assert(mark("EndTouch"@) == 34847803677663969280000000000) by { reveal(mark); reveal_strlit("EndTouch"); }
    reveal_with_fuel(inputs_once, 8);
    reveal_with_fuel(input_place, 8);
}

proof fn trigger_multiple_outputs_are_distinct()
    ensures
        names_once(trigger_multiple_outputs_spec(), trigger_multiple_outputs_spec().len() as int),
{
    marks_ignore_case();
    a_name_is_itself();
    assert(mark("OnStartTouch"@) == 51436603641786661297600000000) by { reveal(mark); reveal_strlit("OnStartTouch"); }
    assert(mark("OnStartTouchAll"@) == 63724603641786661298380341600) by { reveal(mark); reveal_strlit("OnStartTouchAll"); }
    assert(mark("OnEndTouch"@) == 43244600577491941598400000000) by { reveal(mark); reveal_strlit("OnEndTouch"); }
    assert(mark("OnEndTouchAll"@) == 55532600577491941599264000000) by { reveal(mark); reveal_strlit("OnEndTouchAll"); }
    assert(mark("OnTouching"@) == 43244601132793889776000000000) by { reveal(mark); reveal_strlit("OnTouching"); }
    assert(mark("OnNotTouching"@) == 55532601130451941599224000000) by { reveal(mark); reveal_strlit("OnNotTouching"); }
    assert(mark("OnTrigger"@) == 39148602638125024502400000000) by { reveal(mark); reveal_strlit("OnTrigger"); }
    reveal_with_fuel(names_once, 9);
    reveal_with_fuel(name_place, 9);
}

proof fn trigger_multiple_keys_are_distinct()
    ensures
        names_once(trigger_multiple_keys_spec(), trigger_multiple_keys_spec().len() as int),
        name_place(trigger_multiple_keys_spec(), "health"@, 0) is None,
{
    marks_ignore_case();
    a_name_is_itself();
    assert(mark("StartDisabled"@) == 55615137066246756956000000000) by { reveal(mark); reveal_strlit("StartDisabled"); }
    assert(mark("filtername"@) == 43059771652026271214400000000) by { reveal(mark); reveal_strlit("filtername"); }
    assert(mark("wait"@) == 18831112192000000000000000000) by { reveal(mark); reveal_strlit("wait"); }
    assert(mark("health"@) == 26716317994291200000000000000) by { reveal(mark); reveal_strlit("health"); }
    reveal_with_fuel(names_once, 5);
    reveal_with_fuel(name_place, 5);
}

proof fn trigger_hurt_keys_are_distinct()
    ensures
        names_once(trigger_hurt_keys_spec(), trigger_hurt_keys_spec().len() as int),
        name_place(trigger_hurt_keys_spec(), "health"@, 0) is None,
{
    marks_ignore_case();
    a_name_is_itself();
    assert(mark("StartDisabled"@) == 55615137066246756956000000000) by { reveal(mark); reveal_strlit("StartDisabled"); }
    assert(mark("filtername"@) == 43059771652026271214400000000) by { reveal(mark); reveal_strlit("filtername"); }
    assert(mark("damage"@) == 26633982728972800000000000000) by { reveal(mark); reveal_strlit("damage"); }
    assert(mark("damagecap"@) == 38921982728979167219200000000) by { reveal(mark); reveal_strlit("damagecap"); }
    assert(mark("damagetype"@) == 43017982728980262899200000000) by { reveal(mark); reveal_strlit("damagetype"); }
    assert(mark("damagemodel"@) == 47113982728979811680000000000) by { reveal(mark); reveal_strlit("damagemodel"); }
    assert(mark("nodmgforce"@) == 43224222472992740638400000000) by { reveal(mark); reveal_strlit("nodmgforce"); }
    assert(mark("health"@) == 26716317994291200000000000000) by { reveal(mark); reveal_strlit("health"); }
    reveal_with_fuel(names_once, 9);
    reveal_with_fuel(name_place, 9);
}

proof fn trigger_hurt_inputs_are_distinct()
    ensures
        inputs_once(trigger_hurt_inputs_spec(), trigger_hurt_inputs_spec().len() as int),
{
    marks_ignore_case();
    a_name_is_itself();
    a_base_input_has_a_known_mark();
    assert(mark("Enable"@) == 26655794453772800000000000000) by { reveal(mark); reveal_strlit("Enable"); }
    assert(mark("Disable"@) == 30730801916268864000000000000) by { reveal(mark); reveal_strlit("Disable"); }
    assert(mark("Toggle"@) == 26963099413772800000000000000) by { reveal(mark); reveal_strlit("Toggle"); }
    assert(mark("TouchTest"@) == 39251097355731300985600000000) by { reveal(mark); reveal_strlit("TouchTest"); }
    assert(mark("StartTouch"@) == 43327137066451941598400000000) by { reveal(mark); reveal_strlit("StartTouch"); }
    assert(mark("EndTouch"@) == 34847803677663969280000000000) by { reveal(mark); reveal_strlit("EndTouch"); }
    assert(mark("SetDamage"@) == 39229593849721441121600000000) by { reveal(mark); reveal_strlit("SetDamage"); }
    reveal_with_fuel(inputs_once, 9);
    reveal_with_fuel(input_place, 9);
}

proof fn trigger_hurt_outputs_are_distinct()
    ensures
        names_once(trigger_hurt_outputs_spec(), trigger_hurt_outputs_spec().len() as int),
{
    marks_ignore_case();
    a_name_is_itself();
    assert(mark("OnStartTouch"@) == 51436603641786661297600000000) by { reveal(mark); reveal_strlit("OnStartTouch"); }
    assert(mark("OnStartTouchAll"@) == 63724603641786661298380341600) by { reveal(mark); reveal_strlit("OnStartTouchAll"); }
    assert(mark("OnEndTouch"@) == 43244600577491941598400000000) by { reveal(mark); reveal_strlit("OnEndTouch"); }
    assert(mark("OnEndTouchAll"@) == 55532600577491941599264000000) by { reveal(mark); reveal_strlit("OnEndTouchAll"); }
    assert(mark("OnTouching"@) == 43244601132793889776000000000) by { reveal(mark); reveal_strlit("OnTouching"); }
    assert(mark("OnNotTouching"@) == 55532601130451941599224000000) by { reveal(mark); reveal_strlit("OnNotTouching"); }
    assert(mark("OnHurt"@) == 26860604197324800000000000000) by { reveal(mark); reveal_strlit("OnHurt"); }
    assert(mark("OnHurtPlayer"@) == 51436604197332002715200000000) by { reveal(mark); reveal_strlit("OnHurtPlayer"); }
    reveal_with_fuel(names_once, 10);
    reveal_with_fuel(name_place, 10);
}

proof fn trigger_push_keys_are_distinct()
    ensures
        names_once(trigger_push_keys_spec(), trigger_push_keys_spec().len() as int),
        name_place(trigger_push_keys_spec(), "health"@, 0) is None,
{
    marks_ignore_case();
    a_name_is_itself();
    assert(mark("StartDisabled"@) == 55615137066246756956000000000) by { reveal(mark); reveal_strlit("StartDisabled"); }
    assert(mark("filtername"@) == 43059771652026271214400000000) by { reveal(mark); reveal_strlit("filtername"); }
    assert(mark("pushdir"@) == 30977794305351296000000000000) by { reveal(mark); reveal_strlit("pushdir"); }
    assert(mark("alternateticksfix"@) == 71629671205254245282460620400) by { reveal(mark); reveal_strlit("alternateticksfix"); }
    assert(mark("health"@) == 26716317994291200000000000000) by { reveal(mark); reveal_strlit("health"); }
    reveal_with_fuel(names_once, 6);
    reveal_with_fuel(name_place, 6);
}

proof fn trigger_push_inputs_are_distinct()
    ensures
        inputs_once(trigger_push_inputs_spec(), trigger_push_inputs_spec().len() as int),
{
    marks_ignore_case();
    a_name_is_itself();
    a_base_input_has_a_known_mark();
    assert(mark("Enable"@) == 26655794453772800000000000000) by { reveal(mark); reveal_strlit("Enable"); }
    assert(mark("Disable"@) == 30730801916268864000000000000) by { reveal(mark); reveal_strlit("Disable"); }
    assert(mark("Toggle"@) == 26963099413772800000000000000) by { reveal(mark); reveal_strlit("Toggle"); }
    assert(mark("TouchTest"@) == 39251097355731300985600000000) by { reveal(mark); reveal_strlit("TouchTest"); }
    assert(mark("StartTouch"@) == 43327137066451941598400000000) by { reveal(mark); reveal_strlit("StartTouch"); }
    assert(mark("EndTouch"@) == 34847803677663969280000000000) by { reveal(mark); reveal_strlit("EndTouch"); }
    assert(mark("SetPushDirection"@) == 67901600044998688168932222200) by { reveal(mark); reveal_strlit("SetPushDirection"); }
    reveal_with_fuel(inputs_once, 9);
    reveal_with_fuel(input_place, 9);
}

proof fn base_trigger_outputs_are_distinct()
    ensures
        names_once(base_trigger_outputs_spec(), base_trigger_outputs_spec().len() as int),
{
    marks_ignore_case();
    a_name_is_itself();
    assert(mark("OnStartTouch"@) == 51436603641786661297600000000) by { reveal(mark); reveal_strlit("OnStartTouch"); }
    assert(mark("OnStartTouchAll"@) == 63724603641786661298380341600) by { reveal(mark); reveal_strlit("OnStartTouchAll"); }
    assert(mark("OnEndTouch"@) == 43244600577491941598400000000) by { reveal(mark); reveal_strlit("OnEndTouch"); }
    assert(mark("OnEndTouchAll"@) == 55532600577491941599264000000) by { reveal(mark); reveal_strlit("OnEndTouchAll"); }
    assert(mark("OnTouching"@) == 43244601132793889776000000000) by { reveal(mark); reveal_strlit("OnTouching"); }
    assert(mark("OnNotTouching"@) == 55532601130451941599224000000) by { reveal(mark); reveal_strlit("OnNotTouching"); }
    reveal_with_fuel(names_once, 8);
    reveal_with_fuel(name_place, 8);
}

proof fn trigger_teleport_keys_are_distinct()
    ensures
        names_once(trigger_teleport_keys_spec(), trigger_teleport_keys_spec().len() as int),
        name_place(trigger_teleport_keys_spec(), "health"@, 0) is None,
{
    marks_ignore_case();
    a_name_is_itself();
    assert(mark("StartDisabled"@) == 55615137066246756956000000000) by { reveal(mark); reveal_strlit("StartDisabled"); }
    assert(mark("filtername"@) == 43059771652026271214400000000) by { reveal(mark); reveal_strlit("filtername"); }
    assert(mark("landmark"@) == 34989824280288930240000000000) by { reveal(mark); reveal_strlit("landmark"); }
    assert(mark("UseLandmarkAngles"@) == 72039991545734435036084141600) by { reveal(mark); reveal_strlit("UseLandmarkAngles"); }
    assert(mark("CheckDestIfClearForPlayer"@) == 104438220563206500986468059511) by { reveal(mark); reveal_strlit("CheckDestIfClearForPlayer"); }
    assert(mark("health"@) == 26716317994291200000000000000) by { reveal(mark); reveal_strlit("health"); }
    reveal_with_fuel(names_once, 7);
    reveal_with_fuel(name_place, 7);
}

proof fn trigger_teleport_inputs_are_distinct()
    ensures
        inputs_once(trigger_teleport_inputs_spec(), trigger_teleport_inputs_spec().len() as int),
{
    marks_ignore_case();
    a_name_is_itself();
    a_base_input_has_a_known_mark();
    assert(mark("Enable"@) == 26655794453772800000000000000) by { reveal(mark); reveal_strlit("Enable"); }
    assert(mark("Disable"@) == 30730801916268864000000000000) by { reveal(mark); reveal_strlit("Disable"); }
    assert(mark("Toggle"@) == 26963099413772800000000000000) by { reveal(mark); reveal_strlit("Toggle"); }
    assert(mark("TouchTest"@) == 39251097355731300985600000000) by { reveal(mark); reveal_strlit("TouchTest"); }
    assert(mark("StartTouch"@) == 43327137066451941598400000000) by { reveal(mark); reveal_strlit("StartTouch"); }
    assert(mark("EndTouch"@) == 34847803677663969280000000000) by { reveal(mark); reveal_strlit("EndTouch"); }
    assert(mark("SetRemoteDestination"@) == 84285601027962341282532222105) by { reveal(mark); reveal_strlit("SetRemoteDestination"); }
    reveal_with_fuel(inputs_once, 9);
    reveal_with_fuel(input_place, 9);
}

proof fn filter_class_keys_are_distinct()
    ensures
        names_once(filter_class_keys_spec(), filter_class_keys_spec().len() as int),
        name_place(filter_class_keys_spec(), "health"@, 0) is None,
{
    marks_ignore_case();
    a_name_is_itself();
    assert(mark("Negated"@) == 30935192362259200000000000000) by { reveal(mark); reveal_strlit("Negated"); }
    assert(mark("filterclass"@) == 47155771652025570715200000000) by { reveal(mark); reveal_strlit("filterclass"); }
    assert(mark("health"@) == 26716317994291200000000000000) by { reveal(mark); reveal_strlit("health"); }
    reveal_with_fuel(names_once, 4);
    reveal_with_fuel(name_place, 4);
}

proof fn filter_inputs_are_distinct()
    ensures
        inputs_once(filter_inputs_spec(), filter_inputs_spec().len() as int),
{
    marks_ignore_case();
    a_name_is_itself();
    a_base_input_has_a_known_mark();
    assert(mark("TestActivator"@) == 55634082041594657789712000000) by { reveal(mark); reveal_strlit("TestActivator"); }
    reveal_with_fuel(inputs_once, 3);
    reveal_with_fuel(input_place, 3);
}

proof fn filter_outputs_are_distinct()
    ensures
        names_once(filter_outputs_spec(), filter_outputs_spec().len() as int),
{
    marks_ignore_case();
    a_name_is_itself();
    assert(mark("OnPass"@) == 26860593959872000000000000000) by { reveal(mark); reveal_strlit("OnPass"); }
    assert(mark("OnFail"@) == 26860593934182400000000000000) by { reveal(mark); reveal_strlit("OnFail"); }
    reveal_with_fuel(names_once, 4);
    reveal_with_fuel(name_place, 4);
}

proof fn filter_name_keys_are_distinct()
    ensures
        names_once(filter_name_keys_spec(), filter_name_keys_spec().len() as int),
        name_place(filter_name_keys_spec(), "health"@, 0) is None,
{
    marks_ignore_case();
    a_name_is_itself();
    assert(mark("Negated"@) == 30935192362259200000000000000) by { reveal(mark); reveal_strlit("Negated"); }
    assert(mark("filtername"@) == 43059771652026271214400000000) by { reveal(mark); reveal_strlit("filtername"); }
    assert(mark("health"@) == 26716317994291200000000000000) by { reveal(mark); reveal_strlit("health"); }
    reveal_with_fuel(names_once, 4);
    reveal_with_fuel(name_place, 4);
}

proof fn filter_multi_keys_are_distinct()
    ensures
        names_once(filter_multi_keys_spec(), filter_multi_keys_spec().len() as int),
        name_place(filter_multi_keys_spec(), "health"@, 0) is None,
{
    marks_ignore_case();
    a_name_is_itself();
    assert(mark("Negated"@) == 30935192362259200000000000000) by { reveal(mark); reveal_strlit("Negated"); }
    assert(mark("FilterType"@) == 43059771652026662899200000000) by { reveal(mark); reveal_strlit("FilterType"); }
    assert(mark("Filter01"@) == 34867771652022287680000000000) by { reveal(mark); reveal_strlit("Filter01"); }
    assert(mark("Filter02"@) == 34867771652022288000000000000) by { reveal(mark); reveal_strlit("Filter02"); }
    assert(mark("Filter03"@) == 34867771652022288320000000000) by { reveal(mark); reveal_strlit("Filter03"); }
    assert(mark("Filter04"@) == 34867771652022288640000000000) by { reveal(mark); reveal_strlit("Filter04"); }
    assert(mark("Filter05"@) == 34867771652022288960000000000) by { reveal(mark); reveal_strlit("Filter05"); }
    assert(mark("Filter06"@) == 34867771652022289280000000000) by { reveal(mark); reveal_strlit("Filter06"); }
    assert(mark("Filter07"@) == 34867771652022289600000000000) by { reveal(mark); reveal_strlit("Filter07"); }
    assert(mark("Filter08"@) == 34867771652022289920000000000) by { reveal(mark); reveal_strlit("Filter08"); }
    assert(mark("Filter09"@) == 34867771652022290240000000000) by { reveal(mark); reveal_strlit("Filter09"); }
    assert(mark("Filter10"@) == 34867771652022351360000000000) by { reveal(mark); reveal_strlit("Filter10"); }
    assert(mark("health"@) == 26716317994291200000000000000) by { reveal(mark); reveal_strlit("health"); }
    reveal_with_fuel(names_once, 14);
    reveal_with_fuel(name_place, 14);
}

proof fn base_filter_keys_are_distinct()
    ensures
        names_once(base_filter_keys_spec(), base_filter_keys_spec().len() as int),
        name_place(base_filter_keys_spec(), "health"@, 0) is None,
{
    marks_ignore_case();
    a_name_is_itself();
    assert(mark("Negated"@) == 30935192362259200000000000000) by { reveal(mark); reveal_strlit("Negated"); }
    assert(mark("health"@) == 26716317994291200000000000000) by { reveal(mark); reveal_strlit("health"); }
    reveal_with_fuel(names_once, 3);
    reveal_with_fuel(name_place, 3);
}

proof fn filter_damage_type_keys_are_distinct()
    ensures
        names_once(filter_damage_type_keys_spec(), filter_damage_type_keys_spec().len() as int),
        name_place(filter_damage_type_keys_spec(), "health"@, 0) is None,
{
    marks_ignore_case();
    a_name_is_itself();
    assert(mark("Negated"@) == 30935192362259200000000000000) by { reveal(mark); reveal_strlit("Negated"); }
    assert(mark("damagetype"@) == 43017982728980262899200000000) by { reveal(mark); reveal_strlit("damagetype"); }
    assert(mark("health"@) == 26716317994291200000000000000) by { reveal(mark); reveal_strlit("health"); }
    reveal_with_fuel(names_once, 4);
    reveal_with_fuel(name_place, 4);
}

proof fn filter_model_keys_are_distinct()
    ensures
        names_once(filter_model_keys_spec(), filter_model_keys_spec().len() as int),
        name_place(filter_model_keys_spec(), "health"@, 0) is None,
{
    marks_ignore_case();
    a_name_is_itself();
    assert(mark("Negated"@) == 30935192362259200000000000000) by { reveal(mark); reveal_strlit("Negated"); }
    assert(mark("model"@) == 22723738388480000000000000000) by { reveal(mark); reveal_strlit("model"); }
    assert(mark("health"@) == 26716317994291200000000000000) by { reveal(mark); reveal_strlit("health"); }
    reveal_with_fuel(names_once, 4);
    reveal_with_fuel(name_place, 4);
}

proof fn point_teleport_inputs_are_distinct()
    ensures
        inputs_once(point_teleport_inputs_spec(), point_teleport_inputs_spec().len() as int),
{
    marks_ignore_case();
    a_name_is_itself();
    a_base_input_has_a_known_mark();
    assert(mark("Teleport"@) == 35154074400148133120000000000) by { reveal(mark); reveal_strlit("Teleport"); }
    assert(mark("TeleportToCurrentPos"@) == 84306074400148133306516580312) by { reveal(mark); reveal_strlit("TeleportToCurrentPos"); }
    assert(mark("TeleportEntity"@) == 59730074400148133282532840000) by { reveal(mark); reveal_strlit("TeleportEntity"); }
    reveal_with_fuel(inputs_once, 5);
    reveal_with_fuel(input_place, 5);
}

proof fn player_inputs_are_distinct()
    ensures
        inputs_once(player_inputs_spec(), player_inputs_spec().len() as int),
{
    marks_ignore_case();
    a_name_is_itself();
    a_base_input_has_a_known_mark();
    assert(mark("SetHealth"@) == 39229595907808549286400000000) by { reveal(mark); reveal_strlit("SetHealth"); }
    reveal_with_fuel(inputs_once, 3);
    reveal_with_fuel(input_place, 3);
}

proof fn logic_player_proxy_outputs_are_distinct()
    ensures
        names_once(logic_player_proxy_outputs_spec(), logic_player_proxy_outputs_spec().len() as int),
{
    marks_ignore_case();
    a_name_is_itself();
    assert(mark("OnJump"@) == 26860604184473600000000000000) by { reveal(mark); reveal_strlit("OnJump"); }
    assert(mark("OnDuck"@) == 26860604158809600000000000000) by { reveal(mark); reveal_strlit("OnDuck"); }
    assert(mark("OnUnDuck"@) == 35052600577503970240000000000) by { reveal(mark); reveal_strlit("OnUnDuck"); }
    assert(mark("PlayerDied"@) == 43264881412025633761600000000) by { reveal(mark); reveal_strlit("PlayerDied"); }
    assert(mark("PlayerHealth"@) == 51456881412025888475200000000) by { reveal(mark); reveal_strlit("PlayerHealth"); }
    assert(mark("OnStartSlowingTime"@) == 76012603641786660973684143301) by { reveal(mark); reveal_strlit("OnStartSlowingTime"); }
    assert(mark("OnStopSlowingTime"@) == 71916603677600994738428661000) by { reveal(mark); reveal_strlit("OnStopSlowingTime"); }
    assert(mark("OnPrimaryPortalPlaced"@) == 88300602638201444674531901697) by { reveal(mark); reveal_strlit("OnPrimaryPortalPlaced"); }
    assert(mark("OnSecondaryPortalPlaced"@) == 96492595966867872156092583312) by { reveal(mark); reveal_strlit("OnSecondaryPortalPlaced"); }
    assert(mark("OnCoopPing"@) == 43244601117600801776000000000) by { reveal(mark); reveal_strlit("OnCoopPing"); }
    reveal_with_fuel(names_once, 12);
    reveal_with_fuel(name_place, 12);
}

proof fn revert_saved_keys_are_distinct()
    ensures
        names_once(revert_saved_keys_spec(), revert_saved_keys_spec().len() as int),
        name_place(revert_saved_keys_spec(), "health"@, 0) is None,
{
    marks_ignore_case();
    a_name_is_itself();
    assert(mark("loadtime"@) == 34991257898311008320000000000) by { reveal(mark); reveal_strlit("loadtime"); }
    assert(mark("duration"@) == 34828030762311139200000000000) by { reveal(mark); reveal_strlit("duration"); }
    assert(mark("holdtime"@) == 34909337898311008320000000000) by { reveal(mark); reveal_strlit("holdtime"); }
    assert(mark("health"@) == 26716317994291200000000000000) by { reveal(mark); reveal_strlit("health"); }
    reveal_with_fuel(names_once, 5);
    reveal_with_fuel(name_place, 5);
}

proof fn revert_saved_inputs_are_distinct()
    ensures
        inputs_once(revert_saved_inputs_spec(), revert_saved_inputs_spec().len() as int),
{
    marks_ignore_case();
    a_name_is_itself();
    a_base_input_has_a_known_mark();
    assert(mark("Reload"@) == 26921119481600000000000000000) by { reveal(mark); reveal_strlit("Reload"); }
    reveal_with_fuel(inputs_once, 3);
    reveal_with_fuel(input_place, 3);
}

proof fn floor_button_keys_are_distinct()
    ensures
        names_once(floor_button_keys_spec(), floor_button_keys_spec().len() as int),
        name_place(floor_button_keys_spec(), "health"@, 0) is None,
{
    marks_ignore_case();
    a_name_is_itself();
    assert(mark("skin"@) == 18750213120000000000000000000) by { reveal(mark); reveal_strlit("skin"); }
    assert(mark("health"@) == 26716317994291200000000000000) by { reveal(mark); reveal_strlit("health"); }
    reveal_with_fuel(names_once, 3);
    reveal_with_fuel(name_place, 3);
}

proof fn floor_button_inputs_are_distinct()
    ensures
        inputs_once(floor_button_inputs_spec(), floor_button_inputs_spec().len() as int),
{
    marks_ignore_case();
    a_name_is_itself();
    a_base_input_has_a_known_mark();
    assert(mark("PressIn"@) == 30977492775751040000000000000) by { reveal(mark); reveal_strlit("PressIn"); }
    assert(mark("PressOut"@) == 35073492775828325120000000000) by { reveal(mark); reveal_strlit("PressOut"); }
    assert(mark("skin"@) == 18750213120000000000000000000) by { reveal(mark); reveal_strlit("skin"); }
    reveal_with_fuel(inputs_once, 5);
    reveal_with_fuel(input_place, 5);
}

proof fn floor_button_outputs_are_distinct()
    ensures
        names_once(floor_button_outputs_spec(), floor_button_outputs_spec().len() as int),
{
    marks_ignore_case();
    a_name_is_itself();
    assert(mark("OnPressed"@) == 39148602628039392480000000000) by { reveal(mark); reveal_strlit("OnPressed"); }
    assert(mark("OnPressedOrange"@) == 63724602628039392480884140200) by { reveal(mark); reveal_strlit("OnPressedOrange"); }
    assert(mark("OnPressedBlue"@) == 55532602628039392480808000000) by { reveal(mark); reveal_strlit("OnPressedBlue"); }
    assert(mark("OnUnPressed"@) == 47340600608185700984000000000) by { reveal(mark); reveal_strlit("OnUnPressed"); }
    reveal_with_fuel(names_once, 6);
    reveal_with_fuel(name_place, 6);
}

proof fn test_chamber_door_keys_are_distinct()
    ensures
        names_once(test_chamber_door_keys_spec(), test_chamber_door_keys_spec().len() as int),
        name_place(test_chamber_door_keys_spec(), "health"@, 0) is None,
{
    marks_ignore_case();
    a_name_is_itself();
    assert(mark("AreaPortalWindow"@) == 67534283552148133276084022200) by { reveal(mark); reveal_strlit("AreaPortalWindow"); }
    assert(mark("UseAreaPortalFade"@) == 72039985957139044018468099400) by { reveal(mark); reveal_strlit("UseAreaPortalFade"); }
    assert(mark("AreaPortalFadeStart"@) == 79822283552148133276004063114) by { reveal(mark); reveal_strlit("AreaPortalFadeStart"); }
    assert(mark("AreaPortalFadeEnd"@) == 71630283552148133276004060200) by { reveal(mark); reveal_strlit("AreaPortalFadeEnd"); }
    assert(mark("health"@) == 26716317994291200000000000000) by { reveal(mark); reveal_strlit("health"); }
    reveal_with_fuel(names_once, 6);
    reveal_with_fuel(name_place, 6);
}

proof fn test_chamber_door_inputs_are_distinct()
    ensures
        inputs_once(test_chamber_door_inputs_spec(), test_chamber_door_inputs_spec().len() as int),
{
    marks_ignore_case();
    a_name_is_itself();
    a_base_input_has_a_known_mark();
    assert(mark("Open"@) == 18668805120000000000000000000) by { reveal(mark); reveal_strlit("Open"); }
    assert(mark("Close"@) == 22518638338560000000000000000) by { reveal(mark); reveal_strlit("Close"); }
    assert(mark("Lock"@) == 18607261184000000000000000000) by { reveal(mark); reveal_strlit("Lock"); }
    assert(mark("LockOpen"@) == 34991261469600099200000000000) by { reveal(mark); reveal_strlit("LockOpen"); }
    assert(mark("Unlock"@) == 26983481086809600000000000000) by { reveal(mark); reveal_strlit("Unlock"); }
    reveal_with_fuel(inputs_once, 7);
    reveal_with_fuel(input_place, 7);
}

proof fn test_chamber_door_outputs_are_distinct()
    ensures
        names_once(test_chamber_door_outputs_spec(), test_chamber_door_outputs_spec().len() as int),
{
    marks_ignore_case();
    a_name_is_itself();
    assert(mark("OnOpen"@) == 26860601603968000000000000000) by { reveal(mark); reveal_strlit("OnOpen"); }
    assert(mark("OnClose"@) == 30956599581638464000000000000) by { reveal(mark); reveal_strlit("OnClose"); }
    assert(mark("OnFullyOpen"@) == 47340604181870179699200000000) by { reveal(mark); reveal_strlit("OnFullyOpen"); }
    assert(mark("OnFullyClosed"@) == 55532604181870175853600000000) by { reveal(mark); reveal_strlit("OnFullyClosed"); }
    reveal_with_fuel(names_once, 6);
    reveal_with_fuel(name_place, 6);
}

proof fn weighted_cube_keys_are_distinct()
    ensures
        names_once(weighted_cube_keys_spec(), weighted_cube_keys_spec().len() as int),
        name_place(weighted_cube_keys_spec(), "health"@, 0) is None,
{
    marks_ignore_case();
    a_name_is_itself();
    assert(mark("skin"@) == 18750213120000000000000000000) by { reveal(mark); reveal_strlit("skin"); }
    assert(mark("CubeType"@) == 34807552810516000320000000000) by { reveal(mark); reveal_strlit("CubeType"); }
    assert(mark("SkinType"@) == 35134213418516000320000000000) by { reveal(mark); reveal_strlit("SkinType"); }
    assert(mark("NewSkins"@) == 35031201555271076800000000000) by { reveal(mark); reveal_strlit("NewSkins"); }
    assert(mark("PaintPower"@) == 43263749418400742241600000000) by { reveal(mark); reveal_strlit("PaintPower"); }
    assert(mark("allowfunnel"@) == 47053676337953123376000000000) by { reveal(mark); reveal_strlit("allowfunnel"); }
    assert(mark("health"@) == 26716317994291200000000000000) by { reveal(mark); reveal_strlit("health"); }
    reveal_with_fuel(names_once, 8);
    reveal_with_fuel(name_place, 8);
}

proof fn weighted_cube_inputs_are_distinct()
    ensures
        inputs_once(weighted_cube_inputs_spec(), weighted_cube_inputs_spec().len() as int),
{
    marks_ignore_case();
    a_name_is_itself();
    a_base_input_has_a_known_mark();
    assert(mark("Dissolve"@) == 34826811165549984320000000000) by { reveal(mark); reveal_strlit("Dissolve"); }
    assert(mark("SilentDissolve"@) == 59710003995091233784948040000) by { reveal(mark); reveal_strlit("SilentDissolve"); }
    assert(mark("PreDissolveJoke"@) == 63745485070279395693692300200) by { reveal(mark); reveal_strlit("PreDissolveJoke"); }
    assert(mark("DisablePortalFunnel"@) == 79882801916268900018468103501) by { reveal(mark); reveal_strlit("DisablePortalFunnel"); }
    assert(mark("EnablePortalFunnel"@) == 75807794453780003703220702108) by { reveal(mark); reveal_strlit("EnablePortalFunnel"); }
    assert(mark("ExitDisabledState"@) == 71712827649351391197724659400) by { reveal(mark); reveal_strlit("ExitDisabledState"); }
    assert(mark("SetPaint"@) == 35133599993671077120000000000) by { reveal(mark); reveal_strlit("SetPaint"); }
    assert(mark("DisablePickup"@) == 55306801916268900008896000000) by { reveal(mark); reveal_strlit("DisablePickup"); }
    assert(mark("EnablePickup"@) == 51231794453780001758400000000) by { reveal(mark); reveal_strlit("EnablePickup"); }
    assert(mark("skin"@) == 18750213120000000000000000000) by { reveal(mark); reveal_strlit("skin"); }
    assert(mark("EnableMotion"@) == 51231794453779811705600000000) by { reveal(mark); reveal_strlit("EnableMotion"); }
    assert(mark("DisableMotion"@) == 55306801916268899058480000000) by { reveal(mark); reveal_strlit("DisableMotion"); }
    assert(mark("Wake"@) == 18831104512000000000000000000) by { reveal(mark); reveal_strlit("Wake"); }
    assert(mark("Sleep"@) == 22846311198720000000000000000) by { reveal(mark); reveal_strlit("Sleep"); }
    reveal_with_fuel(inputs_once, 16);
    reveal_with_fuel(input_place, 16);
    assert(inputs_once(weighted_cube_inputs_spec(), 10));
}

proof fn weighted_cube_outputs_are_distinct()
    ensures
        names_once(weighted_cube_outputs_spec(), weighted_cube_outputs_spec().len() as int),
{
    marks_ignore_case();
    a_name_is_itself();
    assert(mark("OnFizzled"@) == 39148598073888544480000000000) by { reveal(mark); reveal_strlit("OnFizzled"); }
    assert(mark("OnOrangePickUp"@) == 59628602617734624500140480000) by { reveal(mark); reveal_strlit("OnOrangePickUp"); }
    assert(mark("OnBluePickUp"@) == 51436599596820001758400000000) by { reveal(mark); reveal_strlit("OnBluePickUp"); }
    assert(mark("OnPainted"@) == 39148593934215456480000000000) by { reveal(mark); reveal_strlit("OnPainted"); }
    assert(mark("OnPlayerPickup"@) == 59628599545875300660140480000) by { reveal(mark); reveal_strlit("OnPlayerPickup"); }
    assert(mark("OnPhysGunDrop"@) == 55532597559238629616896000000) by { reveal(mark); reveal_strlit("OnPhysGunDrop"); }
    reveal_with_fuel(names_once, 8);
    reveal_with_fuel(name_place, 8);
}

proof fn prop_portal_keys_are_distinct()
    ensures
        names_once(prop_portal_keys_spec(), prop_portal_keys_spec().len() as int),
        name_place(prop_portal_keys_spec(), "health"@, 0) is None,
{
    marks_ignore_case();
    a_name_is_itself();
    assert(mark("LinkageGroupID"@) == 59566647033644897143244000000) by { reveal(mark); reveal_strlit("LinkageGroupID"); }
    assert(mark("Activated"@) == 38860751663329056480000000000) by { reveal(mark); reveal_strlit("Activated"); }
    assert(mark("OldActivated"@) == 51436389118931557915200000000) by { reveal(mark); reveal_strlit("OldActivated"); }
    assert(mark("PortalTwo"@) == 39169186041709862257600000000) by { reveal(mark); reveal_strlit("PortalTwo"); }
    assert(mark("HalfWidth"@) == 39003905329990437286400000000) by { reveal(mark); reveal_strlit("HalfWidth"); }
    assert(mark("HalfHeight"@) == 43099905291539553126400000000) by { reveal(mark); reveal_strlit("HalfHeight"); }
    assert(mark("health"@) == 26716317994291200000000000000) by { reveal(mark); reveal_strlit("health"); }
    reveal_with_fuel(names_once, 8);
    reveal_with_fuel(name_place, 8);
}

proof fn prop_portal_inputs_are_distinct()
    ensures
        inputs_once(prop_portal_inputs_spec(), prop_portal_inputs_spec().len() as int),
{
    marks_ignore_case();
    a_name_is_itself();
    a_base_input_has_a_known_mark();
    assert(mark("SetActivatedState"@) == 71997592318931557916124659400) by { reveal(mark); reveal_strlit("SetActivatedState"); }
    assert(mark("Fizzle"@) == 26675774741772800000000000000) by { reveal(mark); reveal_strlit("Fizzle"); }
    assert(mark("NewLocation"@) == 47319197981433445288000000000) by { reveal(mark); reveal_strlit("NewLocation"); }
    assert(mark("Resize"@) == 26921116473612800000000000000) by { reveal(mark); reveal_strlit("Resize"); }
    assert(mark("SetLinkageGroupId"@) == 71997597966214879205692702400) by { reveal(mark); reveal_strlit("SetLinkageGroupId"); }
    reveal_with_fuel(inputs_once, 7);
    reveal_with_fuel(input_place, 7);
}

proof fn prop_portal_outputs_are_distinct()
    ensures
        names_once(prop_portal_outputs_spec(), prop_portal_outputs_spec().len() as int),
{
    marks_ignore_case();
    a_name_is_itself();
    assert(mark("OnPlacedSuccessfully"@) == 84204599545593696184812623108) by { reveal(mark); reveal_strlit("OnPlacedSuccessfully"); }
    assert(mark("OnEntityTeleportFromMe"@) == 92396600618311462906500462914) by { reveal(mark); reveal_strlit("OnEntityTeleportFromMe"); }
    assert(mark("OnPlayerTeleportFromMe"@) == 92396599545875300666500462914) by { reveal(mark); reveal_strlit("OnPlayerTeleportFromMe"); }
    assert(mark("OnEntityTeleportToMe"@) == 84204600618311462906500462911) by { reveal(mark); reveal_strlit("OnEntityTeleportToMe"); }
    assert(mark("OnPlayerTeleportToMe"@) == 84204599545875300666500462911) by { reveal(mark); reveal_strlit("OnPlayerTeleportToMe"); }
    reveal_with_fuel(names_once, 7);
    reveal_with_fuel(name_place, 7);
}

proof fn world_keys_are_distinct()
    ensures
        names_once(world_keys_spec(), world_keys_spec().len() as int),
        name_place(world_keys_spec(), "health"@, 0) is None,
{
    marks_ignore_case();
    a_name_is_itself();
    assert(mark("skyname"@) == 31038213369721664000000000000) by { reveal(mark); reveal_strlit("skyname"); }
    assert(mark("world_mins"@) == 43408541953223009776000000000) by { reveal(mark); reveal_strlit("world_mins"); }
    assert(mark("world_maxs"@) == 43408541953223007232000000000) by { reveal(mark); reveal_strlit("world_maxs"); }
    assert(mark("maxpropscreenwidth"@) == 75970310437268004959284781104) by { reveal(mark); reveal_strlit("maxpropscreenwidth"); }
    assert(mark("maxblobcount"@) == 51394303253907103857600000000) by { reveal(mark); reveal_strlit("maxblobcount"); }
    assert(mark("detailmaterial"@) == 59402392334189407226380320000) by { reveal(mark); reveal_strlit("detailmaterial"); }
    assert(mark("health"@) == 26716317994291200000000000000) by { reveal(mark); reveal_strlit("health"); }
    reveal_with_fuel(names_once, 8);
    reveal_with_fuel(name_place, 8);
}

/// No class declares a key twice.
pub proof fn no_class_declares_a_key_twice(kind: ClassKind)
    ensures
        names_once(declared_keys(kind), declared_keys(kind).len() as int),
{
    match kind {
        ClassKind::Relay => relay_keys_are_distinct(),
        ClassKind::DynamicProp => dynamic_prop_keys_are_distinct(),
        ClassKind::Light => light_keys_are_distinct(),
        ClassKind::EnvLight => env_light_keys_are_distinct(),
        ClassKind::Brush => brush_keys_are_distinct(),
        ClassKind::AreaPortal => area_portal_keys_are_distinct(),
        ClassKind::InstanceIoProxy => {},
        ClassKind::RotatingDoor => door_keys_are_distinct(),
        ClassKind::Door => door_keys_are_distinct(),
        ClassKind::MoveLinear => move_linear_keys_are_distinct(),
        ClassKind::Button => button_keys_are_distinct(),
        ClassKind::Rotating => rotating_keys_are_distinct(),
        ClassKind::Auto => auto_keys_are_distinct(),
        ClassKind::Branch => branch_keys_are_distinct(),
        ClassKind::BranchList => branch_list_keys_are_distinct(),
        ClassKind::Timer => timer_keys_are_distinct(),
        ClassKind::MathCounter => math_counter_keys_are_distinct(),
        ClassKind::TonemapController => {},
        ClassKind::Case => case_keys_are_distinct(),
        ClassKind::TriggerOnce => base_trigger_keys_are_distinct(),
        ClassKind::TriggerMultiple => trigger_multiple_keys_are_distinct(),
        ClassKind::TriggerHurt => trigger_hurt_keys_are_distinct(),
        ClassKind::TriggerPush => trigger_push_keys_are_distinct(),
        ClassKind::TriggerTeleport => trigger_teleport_keys_are_distinct(),
        ClassKind::FilterClass => filter_class_keys_are_distinct(),
        ClassKind::FilterName => filter_name_keys_are_distinct(),
        ClassKind::FilterMulti => filter_multi_keys_are_distinct(),
        ClassKind::FilterPlayerHeld => base_filter_keys_are_distinct(),
        ClassKind::FilterDamageType => filter_damage_type_keys_are_distinct(),
        ClassKind::FilterModel => filter_model_keys_are_distinct(),
        ClassKind::PointTeleport => {},
        ClassKind::Player => {},
        ClassKind::LogicPlayerProxy => {},
        ClassKind::RevertSaved => revert_saved_keys_are_distinct(),
        ClassKind::PointEntity => {},
        ClassKind::FloorButton => floor_button_keys_are_distinct(),
        ClassKind::TestChamberDoor => test_chamber_door_keys_are_distinct(),
        ClassKind::WeightedCube => weighted_cube_keys_are_distinct(),
        ClassKind::PropPortal => prop_portal_keys_are_distinct(),
        ClassKind::ButtonTrigger => base_trigger_keys_are_distinct(),
        ClassKind::World => world_keys_are_distinct(),
    }
}

/// No class declares an output twice.
pub proof fn no_class_declares_an_output_twice(kind: ClassKind)
    ensures
        names_once(declared_outputs(kind), declared_outputs(kind).len() as int),
{
    match kind {
        ClassKind::Relay => relay_outputs_are_distinct(),
        ClassKind::DynamicProp => dynamic_prop_outputs_are_distinct(),
        ClassKind::Light => {},
        ClassKind::EnvLight => {},
        ClassKind::Brush => {},
        ClassKind::AreaPortal => {},
        ClassKind::InstanceIoProxy => instance_io_proxy_outputs_are_distinct(),
        ClassKind::RotatingDoor => door_outputs_are_distinct(),
        ClassKind::Door => door_outputs_are_distinct(),
        ClassKind::MoveLinear => move_linear_outputs_are_distinct(),
        ClassKind::Button => button_outputs_are_distinct(),
        ClassKind::Rotating => rotating_outputs_are_distinct(),
        ClassKind::Auto => auto_outputs_are_distinct(),
        ClassKind::Branch => branch_outputs_are_distinct(),
        ClassKind::BranchList => branch_list_outputs_are_distinct(),
        ClassKind::Timer => timer_outputs_are_distinct(),
        ClassKind::MathCounter => math_counter_outputs_are_distinct(),
        ClassKind::TonemapController => {},
        ClassKind::Case => case_outputs_are_distinct(),
        ClassKind::TriggerOnce => trigger_multiple_outputs_are_distinct(),
        ClassKind::TriggerMultiple => trigger_multiple_outputs_are_distinct(),
        ClassKind::TriggerHurt => trigger_hurt_outputs_are_distinct(),
        ClassKind::TriggerPush => base_trigger_outputs_are_distinct(),
        ClassKind::TriggerTeleport => base_trigger_outputs_are_distinct(),
        ClassKind::FilterClass => filter_outputs_are_distinct(),
        ClassKind::FilterName => filter_outputs_are_distinct(),
        ClassKind::FilterMulti => filter_outputs_are_distinct(),
        ClassKind::FilterPlayerHeld => filter_outputs_are_distinct(),
        ClassKind::FilterDamageType => filter_outputs_are_distinct(),
        ClassKind::FilterModel => filter_outputs_are_distinct(),
        ClassKind::PointTeleport => {},
        ClassKind::Player => {},
        ClassKind::LogicPlayerProxy => logic_player_proxy_outputs_are_distinct(),
        ClassKind::RevertSaved => {},
        ClassKind::PointEntity => {},
        ClassKind::FloorButton => floor_button_outputs_are_distinct(),
        ClassKind::TestChamberDoor => test_chamber_door_outputs_are_distinct(),
        ClassKind::WeightedCube => weighted_cube_outputs_are_distinct(),
        ClassKind::PropPortal => prop_portal_outputs_are_distinct(),
        ClassKind::ButtonTrigger => base_trigger_outputs_are_distinct(),
        ClassKind::World => {},
    }
}

/// No class declares an input twice, or one that every class has.
pub proof fn no_class_declares_an_input_twice(kind: ClassKind)
    ensures
        inputs_once(declared_inputs(kind), declared_inputs(kind).len() as int),
{
    match kind {
        ClassKind::Relay => relay_inputs_are_distinct(),
        ClassKind::DynamicProp => dynamic_prop_inputs_are_distinct(),
        ClassKind::Light => light_inputs_are_distinct(),
        ClassKind::EnvLight => light_inputs_are_distinct(),
        ClassKind::Brush => brush_inputs_are_distinct(),
        ClassKind::AreaPortal => area_portal_inputs_are_distinct(),
        ClassKind::InstanceIoProxy => instance_io_proxy_inputs_are_distinct(),
        ClassKind::RotatingDoor => door_inputs_are_distinct(),
        ClassKind::Door => door_inputs_are_distinct(),
        ClassKind::MoveLinear => move_linear_inputs_are_distinct(),
        ClassKind::Button => button_inputs_are_distinct(),
        ClassKind::Rotating => rotating_inputs_are_distinct(),
        ClassKind::Auto => {},
        ClassKind::Branch => branch_inputs_are_distinct(),
        ClassKind::BranchList => branch_list_inputs_are_distinct(),
        ClassKind::Timer => timer_inputs_are_distinct(),
        ClassKind::MathCounter => math_counter_inputs_are_distinct(),
        ClassKind::TonemapController => tonemap_controller_inputs_are_distinct(),
        ClassKind::Case => case_inputs_are_distinct(),
        ClassKind::TriggerOnce => base_trigger_inputs_are_distinct(),
        ClassKind::TriggerMultiple => base_trigger_inputs_are_distinct(),
        ClassKind::TriggerHurt => trigger_hurt_inputs_are_distinct(),
        ClassKind::TriggerPush => trigger_push_inputs_are_distinct(),
        ClassKind::TriggerTeleport => trigger_teleport_inputs_are_distinct(),
        ClassKind::FilterClass => filter_inputs_are_distinct(),
        ClassKind::FilterName => filter_inputs_are_distinct(),
        ClassKind::FilterMulti => filter_inputs_are_distinct(),
        ClassKind::FilterPlayerHeld => filter_inputs_are_distinct(),
        ClassKind::FilterDamageType => filter_inputs_are_distinct(),
        ClassKind::FilterModel => filter_inputs_are_distinct(),
        ClassKind::PointTeleport => point_teleport_inputs_are_distinct(),
        ClassKind::Player => player_inputs_are_distinct(),
        ClassKind::LogicPlayerProxy => {},
        ClassKind::RevertSaved => revert_saved_inputs_are_distinct(),
        ClassKind::PointEntity => {},
        ClassKind::FloorButton => floor_button_inputs_are_distinct(),
        ClassKind::TestChamberDoor => test_chamber_door_inputs_are_distinct(),
        ClassKind::WeightedCube => weighted_cube_inputs_are_distinct(),
        ClassKind::PropPortal => prop_portal_inputs_are_distinct(),
        ClassKind::ButtonTrigger => base_trigger_inputs_are_distinct(),
        ClassKind::World => {},
    }
}

/// No class declares health.
pub proof fn no_class_declares_health(kind: ClassKind)
    ensures
        name_place(declared_keys(kind), "health"@, 0) is None,
{
    match kind {
        ClassKind::Relay => relay_keys_are_distinct(),
        ClassKind::DynamicProp => dynamic_prop_keys_are_distinct(),
        ClassKind::Light => light_keys_are_distinct(),
        ClassKind::EnvLight => env_light_keys_are_distinct(),
        ClassKind::Brush => brush_keys_are_distinct(),
        ClassKind::AreaPortal => area_portal_keys_are_distinct(),
        ClassKind::InstanceIoProxy => {},
        ClassKind::RotatingDoor => door_keys_are_distinct(),
        ClassKind::Door => door_keys_are_distinct(),
        ClassKind::MoveLinear => move_linear_keys_are_distinct(),
        ClassKind::Button => button_keys_are_distinct(),
        ClassKind::Rotating => rotating_keys_are_distinct(),
        ClassKind::Auto => auto_keys_are_distinct(),
        ClassKind::Branch => branch_keys_are_distinct(),
        ClassKind::BranchList => branch_list_keys_are_distinct(),
        ClassKind::Timer => timer_keys_are_distinct(),
        ClassKind::MathCounter => math_counter_keys_are_distinct(),
        ClassKind::TonemapController => {},
        ClassKind::Case => case_keys_are_distinct(),
        ClassKind::TriggerOnce => base_trigger_keys_are_distinct(),
        ClassKind::TriggerMultiple => trigger_multiple_keys_are_distinct(),
        ClassKind::TriggerHurt => trigger_hurt_keys_are_distinct(),
        ClassKind::TriggerPush => trigger_push_keys_are_distinct(),
        ClassKind::TriggerTeleport => trigger_teleport_keys_are_distinct(),
        ClassKind::FilterClass => filter_class_keys_are_distinct(),
        ClassKind::FilterName => filter_name_keys_are_distinct(),
        ClassKind::FilterMulti => filter_multi_keys_are_distinct(),
        ClassKind::FilterPlayerHeld => base_filter_keys_are_distinct(),
        ClassKind::FilterDamageType => filter_damage_type_keys_are_distinct(),
        ClassKind::FilterModel => filter_model_keys_are_distinct(),
        ClassKind::PointTeleport => {},
        ClassKind::Player => {},
        ClassKind::LogicPlayerProxy => {},
        ClassKind::RevertSaved => revert_saved_keys_are_distinct(),
        ClassKind::PointEntity => {},
        ClassKind::FloorButton => floor_button_keys_are_distinct(),
        ClassKind::TestChamberDoor => test_chamber_door_keys_are_distinct(),
        ClassKind::WeightedCube => weighted_cube_keys_are_distinct(),
        ClassKind::PropPortal => prop_portal_keys_are_distinct(),
        ClassKind::ButtonTrigger => base_trigger_keys_are_distinct(),
        ClassKind::World => world_keys_are_distinct(),
    }
}

/// A key that any class declares is read by an entity exactly if its own class
/// declares it, whatever state it is in.
pub proof fn a_declared_key_is_read_where_it_is_declared(
    behaviour: BehaviourView,
    kind: ClassKind,
    other: ClassKind,
    i: int,
    core: CoreView,
    key: Seq<char>,
    value: Value,
)
    requires
        of_kind(behaviour, kind),
        0 <= i < declared_keys(other).len(),
        same_name(key, declared_keys(other)[i]),
    ensures
        behaviour.keyed(core, key, value) is Some <==> name_place(declared_keys(kind), key, 0) is Some,
{
    no_class_declares_health(other);
    if same_name(key, "health"@) {
        assert(same_name("health"@, declared_keys(other)[i])) by {
            reveal(same_name);
        }
        a_place_is_no_later(declared_keys(other), "health"@, 0, i);
    }
    keys_read_are_those_declared(behaviour, kind, core, key, value);
}

/// A key that any class declares is read by a fresh entity of a class exactly
/// if that class declares it.
pub proof fn a_fresh_entity_reads_what_its_class_declares(
    row: int,
    other: int,
    i: int,
    value: Value,
    tonemap: TonemapSettings,
)
    requires
        0 <= row < class_list().len(),
        0 <= other < class_list().len(),
        0 <= i < declared_keys(class_list()[other].1).len(),
    ensures
        ({
            let (name, kind) = class_list()[row];
            let key = declared_keys(class_list()[other].1)[i];
            let entity = fresh_entity(name, kind, tonemap);
            entity.behaviour.keyed(entity.core, key, value) is Some <==> class_of(name, kind).reads(key)
        }),
{
    let (name, kind) = class_list()[row];
    let entity = fresh_entity(name, kind, tonemap);
    a_fresh_state_is_of_its_class(kind, tonemap);
    a_name_is_itself();
    a_declared_key_is_read_where_it_is_declared(
        entity.behaviour,
        kind,
        class_list()[other].1,
        i,
        entity.core,
        declared_keys(class_list()[other].1)[i],
        value,
    );
}

/// Names that are each found at their own place are all different.
pub proof fn found_at_their_own_places(list: Seq<Seq<char>>, n: int, i: int, j: int)
    requires
        0 <= i < j < n <= list.len(),
        names_once(list, n),
    ensures
        !same_name(list[j], list[i]),
    decreases n,
{
    if j < n - 1 {
        found_at_their_own_places(list, n - 1, i, j);
    } else if same_name(list[j], list[i]) {
        a_place_is_no_later(list, list[j], 0, i);
    }
}

proof fn a_place_is_no_later(list: Seq<Seq<char>>, name: Seq<char>, from: int, at: int)
    requires
        0 <= from <= at < list.len(),
        same_name(name, list[at]),
    ensures
        name_place(list, name, from) matches Some(k) && k <= at,
    decreases at - from,
{
    if !same_name(name, list[from]) {
        a_place_is_no_later(list, name, from + 1, at);
    }
}

} // verus!
