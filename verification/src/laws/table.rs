//! Laws of the class table.
use vstd::prelude::*;

use crate::behaviour::{BehaviourView, TriggerView};
use crate::class::{class_named, class_of, row_place};
use crate::classes::floor_button::FloorButton;
use crate::classes::tables::{class_list, ClassKind};
use crate::laws::marks::{a_name_is_itself, mark, marks_ignore_case};
use crate::step::Step;
use crate::text::same_name;

verus! {

/// Which class a mark belongs to.
spec fn ranked(mark: int) -> int {
    if mark == 47279260414663328492800000000 {
        0
    } else if mark == 51457491188487779355200000000 {
        1
    } else if mark == 88321491188487779355964463714 {
        2
    } else if mark == 51212440344390366579200000000 {
        3
    } else if mark == 71937491188487779355964141600 {
        4
    } else if mark == 22702645544960000000000000000 {
        5
    } else if mark == 43182645546183396017600000000 {
        6
    } else if mark == 71854645546182433783244462000 {
        7
    } else if mark == 51374645546182626744000000000 {
        8
    } else if mark == 71854645546182499389684380200 {
        9
    } else if mark == 43060991732461733624000000000 {
        10
    } else if mark == 63540991732448928476131901600 {
        11
    } else if mark == 88116991732448928476131901710 {
        12
    } else if mark == 92212991732551076986411821112 {
        13
    } else if mark == 75828991732487139703331903303 {
        14
    } else if mark == 38964991732487139702400000000 {
        15
    } else if mark == 63540991732602341922411902800 {
        16
    } else if mark == 47156991732461925305600000000 {
        17
    } else if mark == 55348991732666341276024000000 {
        18
    } else if mark == 43183260414662245625600000000 {
        19
    } else if mark == 51375260414662308635200000000 {
        20
    } else if mark == 88239260414662308635964341101 {
        21
    } else if mark == 47279260414663457774400000000 {
        22
    } else if mark == 51394306292474341616000000000 {
        23
    } else if mark == 92191792938387872495196462111 {
        24
    } else if mark == 43183260414662367224000000000 {
        25
    } else if mark == 51539406600980126577600000000 {
        26
    } else if mark == 67923406600980126575244501600 {
        27
    } else if mark == 51539406600980126566400000000 {
        28
    } else if mark == 51539406600980126579200000000 {
        29
    } else if mark == 67923406600980126586500462800 {
        30
    } else if mark == 92211771652025311199180662299 {
        31
    } else if mark == 88115771652025311199180662310 {
        32
    } else if mark == 51251771652025315067200000000 {
        33
    } else if mark == 75827771652025316013715820900 {
        34
    } else if mark == 75827771652025312156011823301 {
        35
    } else if mark == 92211771652025311199180662309 {
        36
    } else if mark == 59649183018183456493716640000 {
        37
    } else if mark == 26880881412019200000000000000 {
        38
    } else if mark == 71855260414663202716100582200 {
        39
    } else if mark == 67840881412025314738380740200 {
        40
    } else if mark == 47217721076691044644800000000 {
        41
    } else if mark == 71937491188512547698540663200 {
        42
    } else if mark == 88321491188691300986475940300 {
        43
    } else if mark == 76033491188729697765603819901 {
        44
    } else if mark == 47361491188640740665600000000 {
        45
    } else if mark == 88403406600980126579980339116 {
        46
    } else if mark == 71793721076640543234524659400 {
        47
    } else if mark == 43408541953479199230400000000 {
        48
    } else {
        -1
    }
}

/// Each class has a mark of its own.
proof fn each_class_has_its_mark(i: int)
    requires
        0 <= i < class_list().len(),
    ensures
        ranked(mark(class_list()[i].0)) == i,
{
    assert(mark("logic_relay"@) == 47279260414663328492800000000) by { reveal(mark); reveal_strlit("logic_relay"); }
    assert(mark("prop_dynamic"@) == 51457491188487779355200000000) by { reveal(mark); reveal_strlit("prop_dynamic"); }
    assert(mark("prop_dynamic_override"@) == 88321491188487779355964463714) by { reveal(mark); reveal_strlit("prop_dynamic_override"); }
    assert(mark("dynamic_prop"@) == 51212440344390366579200000000) by { reveal(mark); reveal_strlit("dynamic_prop"); }
    assert(mark("prop_dynamic_glow"@) == 71937491188487779355964141600) by { reveal(mark); reveal_strlit("prop_dynamic_glow"); }
    assert(mark("light"@) == 22702645544960000000000000000) by { reveal(mark); reveal_strlit("light"); }
    assert(mark("light_spot"@) == 43182645546183396017600000000) by { reveal(mark); reveal_strlit("light_spot"); }
    assert(mark("light_directional"@) == 71854645546182433783244462000) by { reveal(mark); reveal_strlit("light_directional"); }
    assert(mark("light_glspot"@) == 51374645546182626744000000000) by { reveal(mark); reveal_strlit("light_glspot"); }
    assert(mark("light_environment"@) == 71854645546182499389684380200) by { reveal(mark); reveal_strlit("light_environment"); }
    assert(mark("func_brush"@) == 43060991732461733624000000000) by { reveal(mark); reveal_strlit("func_brush"); }
    assert(mark("func_areaportal"@) == 63540991732448928476131901600) by { reveal(mark); reveal_strlit("func_areaportal"); }
    assert(mark("func_areaportalwindow"@) == 88116991732448928476131901710) by { reveal(mark); reveal_strlit("func_areaportalwindow"); }
    assert(mark("func_instance_io_proxy"@) == 92212991732551076986411821112) by { reveal(mark); reveal_strlit("func_instance_io_proxy"); }
    assert(mark("func_door_rotating"@) == 75828991732487139703331903303) by { reveal(mark); reveal_strlit("func_door_rotating"); }
    assert(mark("func_door"@) == 38964991732487139702400000000) by { reveal(mark); reveal_strlit("func_door"); }
    assert(mark("func_movelinear"@) == 63540991732602341922411902800) by { reveal(mark); reveal_strlit("func_movelinear"); }
    assert(mark("func_button"@) == 47156991732461925305600000000) by { reveal(mark); reveal_strlit("func_button"); }
    assert(mark("func_rotating"@) == 55348991732666341276024000000) by { reveal(mark); reveal_strlit("func_rotating"); }
    assert(mark("logic_auto"@) == 43183260414662245625600000000) by { reveal(mark); reveal_strlit("logic_auto"); }
    assert(mark("logic_branch"@) == 51375260414662308635200000000) by { reveal(mark); reveal_strlit("logic_branch"); }
    assert(mark("logic_branch_listener"@) == 88239260414662308635964341101) by { reveal(mark); reveal_strlit("logic_branch_listener"); }
    assert(mark("logic_timer"@) == 47279260414663457774400000000) by { reveal(mark); reveal_strlit("logic_timer"); }
    assert(mark("math_counter"@) == 51394306292474341616000000000) by { reveal(mark); reveal_strlit("math_counter"); }
    assert(mark("env_tonemap_controller"@) == 92191792938387872495196462111) by { reveal(mark); reveal_strlit("env_tonemap_controller"); }
    assert(mark("logic_case"@) == 43183260414662367224000000000) by { reveal(mark); reveal_strlit("logic_case"); }
    assert(mark("trigger_once"@) == 51539406600980126577600000000) by { reveal(mark); reveal_strlit("trigger_once"); }
    assert(mark("trigger_multiple"@) == 67923406600980126575244501600) by { reveal(mark); reveal_strlit("trigger_multiple"); }
    assert(mark("trigger_hurt"@) == 51539406600980126566400000000) by { reveal(mark); reveal_strlit("trigger_hurt"); }
    assert(mark("trigger_push"@) == 51539406600980126579200000000) by { reveal(mark); reveal_strlit("trigger_push"); }
    assert(mark("trigger_teleport"@) == 67923406600980126586500462800) by { reveal(mark); reveal_strlit("trigger_teleport"); }
    assert(mark("filter_activator_class"@) == 92211771652025311199180662299) by { reveal(mark); reveal_strlit("filter_activator_class"); }
    assert(mark("filter_activator_name"@) == 88115771652025311199180662310) by { reveal(mark); reveal_strlit("filter_activator_name"); }
    assert(mark("filter_multi"@) == 51251771652025315067200000000) by { reveal(mark); reveal_strlit("filter_multi"); }
    assert(mark("filter_player_held"@) == 75827771652025316013715820900) by { reveal(mark); reveal_strlit("filter_player_held"); }
    assert(mark("filter_damage_type"@) == 75827771652025312156011823301) by { reveal(mark); reveal_strlit("filter_damage_type"); }
    assert(mark("filter_activator_model"@) == 92211771652025311199180662309) by { reveal(mark); reveal_strlit("filter_activator_model"); }
    assert(mark("point_teleport"@) == 59649183018183456493716640000) by { reveal(mark); reveal_strlit("point_teleport"); }
    assert(mark("player"@) == 26880881412019200000000000000) by { reveal(mark); reveal_strlit("player"); }
    assert(mark("logic_playerproxy"@) == 71855260414663202716100582200) by { reveal(mark); reveal_strlit("logic_playerproxy"); }
    assert(mark("player_loadsaved"@) == 67840881412025314738380740200) by { reveal(mark); reveal_strlit("player_loadsaved"); }
    assert(mark("info_target"@) == 47217721076691044644800000000) by { reveal(mark); reveal_strlit("info_target"); }
    assert(mark("prop_floor_button"@) == 71937491188512547698540663200) by { reveal(mark); reveal_strlit("prop_floor_button"); }
    assert(mark("prop_testchamber_door"@) == 88321491188691300986475940300) by { reveal(mark); reveal_strlit("prop_testchamber_door"); }
    assert(mark("prop_weighted_cube"@) == 76033491188729697765603819901) by { reveal(mark); reveal_strlit("prop_weighted_cube"); }
    assert(mark("prop_portal"@) == 47361491188640740665600000000) by { reveal(mark); reveal_strlit("prop_portal"); }
    assert(mark("trigger_portal_button"@) == 88403406600980126579980339116) by { reveal(mark); reveal_strlit("trigger_portal_button"); }
    assert(mark("info_player_start"@) == 71793721076640543234524659400) by { reveal(mark); reveal_strlit("info_player_start"); }
    assert(mark("worldspawn"@) == 43408541953479199230400000000) by { reveal(mark); reveal_strlit("worldspawn"); }
    if i == 0 {
        assert(class_list()[0].0 == "logic_relay"@);
    } else if i == 1 {
        assert(class_list()[1].0 == "prop_dynamic"@);
    } else if i == 2 {
        assert(class_list()[2].0 == "prop_dynamic_override"@);
    } else if i == 3 {
        assert(class_list()[3].0 == "dynamic_prop"@);
    } else if i == 4 {
        assert(class_list()[4].0 == "prop_dynamic_glow"@);
    } else if i == 5 {
        assert(class_list()[5].0 == "light"@);
    } else if i == 6 {
        assert(class_list()[6].0 == "light_spot"@);
    } else if i == 7 {
        assert(class_list()[7].0 == "light_directional"@);
    } else if i == 8 {
        assert(class_list()[8].0 == "light_glspot"@);
    } else if i == 9 {
        assert(class_list()[9].0 == "light_environment"@);
    } else if i == 10 {
        assert(class_list()[10].0 == "func_brush"@);
    } else if i == 11 {
        assert(class_list()[11].0 == "func_areaportal"@);
    } else if i == 12 {
        assert(class_list()[12].0 == "func_areaportalwindow"@);
    } else if i == 13 {
        assert(class_list()[13].0 == "func_instance_io_proxy"@);
    } else if i == 14 {
        assert(class_list()[14].0 == "func_door_rotating"@);
    } else if i == 15 {
        assert(class_list()[15].0 == "func_door"@);
    } else if i == 16 {
        assert(class_list()[16].0 == "func_movelinear"@);
    } else if i == 17 {
        assert(class_list()[17].0 == "func_button"@);
    } else if i == 18 {
        assert(class_list()[18].0 == "func_rotating"@);
    } else if i == 19 {
        assert(class_list()[19].0 == "logic_auto"@);
    } else if i == 20 {
        assert(class_list()[20].0 == "logic_branch"@);
    } else if i == 21 {
        assert(class_list()[21].0 == "logic_branch_listener"@);
    } else if i == 22 {
        assert(class_list()[22].0 == "logic_timer"@);
    } else if i == 23 {
        assert(class_list()[23].0 == "math_counter"@);
    } else if i == 24 {
        assert(class_list()[24].0 == "env_tonemap_controller"@);
    } else if i == 25 {
        assert(class_list()[25].0 == "logic_case"@);
    } else if i == 26 {
        assert(class_list()[26].0 == "trigger_once"@);
    } else if i == 27 {
        assert(class_list()[27].0 == "trigger_multiple"@);
    } else if i == 28 {
        assert(class_list()[28].0 == "trigger_hurt"@);
    } else if i == 29 {
        assert(class_list()[29].0 == "trigger_push"@);
    } else if i == 30 {
        assert(class_list()[30].0 == "trigger_teleport"@);
    } else if i == 31 {
        assert(class_list()[31].0 == "filter_activator_class"@);
    } else if i == 32 {
        assert(class_list()[32].0 == "filter_activator_name"@);
    } else if i == 33 {
        assert(class_list()[33].0 == "filter_multi"@);
    } else if i == 34 {
        assert(class_list()[34].0 == "filter_player_held"@);
    } else if i == 35 {
        assert(class_list()[35].0 == "filter_damage_type"@);
    } else if i == 36 {
        assert(class_list()[36].0 == "filter_activator_model"@);
    } else if i == 37 {
        assert(class_list()[37].0 == "point_teleport"@);
    } else if i == 38 {
        assert(class_list()[38].0 == "player"@);
    } else if i == 39 {
        assert(class_list()[39].0 == "logic_playerproxy"@);
    } else if i == 40 {
        assert(class_list()[40].0 == "player_loadsaved"@);
    } else if i == 41 {
        assert(class_list()[41].0 == "info_target"@);
    } else if i == 42 {
        assert(class_list()[42].0 == "prop_floor_button"@);
    } else if i == 43 {
        assert(class_list()[43].0 == "prop_testchamber_door"@);
    } else if i == 44 {
        assert(class_list()[44].0 == "prop_weighted_cube"@);
    } else if i == 45 {
        assert(class_list()[45].0 == "prop_portal"@);
    } else if i == 46 {
        assert(class_list()[46].0 == "trigger_portal_button"@);
    } else if i == 47 {
        assert(class_list()[47].0 == "info_player_start"@);
    } else if i == 48 {
        assert(class_list()[48].0 == "worldspawn"@);
    }
}

/// No two classes have one name.
pub proof fn no_two_classes_share_a_name(i: int, j: int)
    requires
        0 <= i < class_list().len(),
        0 <= j < class_list().len(),
        same_name(class_list()[i].0, class_list()[j].0),
    ensures
        i == j,
{
    each_class_has_its_mark(i);
    each_class_has_its_mark(j);
    marks_ignore_case();
}

proof fn the_first_row_is_the_only_one(i: int, from: int)
    requires
        0 <= from <= i < class_list().len(),
    ensures
        row_place(class_list(), class_list()[i].0, from) == Some(i),
    decreases i - from,
{
    let name = class_list()[i].0;
    if same_name(name, class_list()[from].0) {
        no_two_classes_share_a_name(i, from);
    } else {
        assert(from != i) by {
            reveal(same_name);
        }
        the_first_row_is_the_only_one(i, from + 1);
    }
}

/// Every class in the table is found by its name.
pub proof fn every_class_is_found_by_its_name(i: int)
    requires
        0 <= i < class_list().len(),
    ensures
        class_named(class_list()[i].0) == Some(class_of(class_list()[i].0, class_list()[i].1)),
{
    the_first_row_is_the_only_one(i, 0);
}

/// A pad that spawns gets a box of its own, which knows whose it is.
pub proof fn a_pad_gets_its_box(state: Step<FloorButton>)
    requires
        state.cx.entities.len() < usize::MAX,
    ensures
        ({
            let after = state.guarded();
            let id = state.cx.next_id();
            &&& after.me.trigger == Some(id)
            &&& after.cx.outbox.created == state.cx.outbox.created.push(id)
            &&& after.cx.at(id) matches Some(e) && e.behaviour matches BehaviourView::Trigger(
                TriggerView::ButtonTrigger(b),
            ) && b.owner == Some(state.core.id)
        }),
{
    assert(class_list()[46] == ("trigger_portal_button"@, ClassKind::ButtonTrigger));
    every_class_is_found_by_its_name(46);
    let id = state.cx.next_id();
    let made = state.cx.creating("trigger_portal_button"@);
    assert(made.entities[state.cx.entities.len() as int].entity is Some);
    assert(made.holds(id));
}

} // verus!
