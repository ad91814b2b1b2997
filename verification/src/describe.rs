//! What an entity shows of itself: labels and values. How a value is written
//! out is for whoever prints it.
use vstd::prelude::*;

use crate::classes::branch::{Branch, BranchList, BranchListView, BranchView};
use crate::classes::brush::{AREAPORTAL_OPEN, AreaPortal, BRUSHSOLID_ALWAYS, BRUSHSOLID_NEVER, Brush};
use crate::classes::button::Button;
use crate::classes::case::{case_key, case_key_name, Case, CaseView, MAX_LOGIC_CASES};
use crate::classes::chamber_door::TestChamberDoor;
use crate::classes::cube::WeightedCube;
use crate::classes::door::{Door, DoorMoveDone};
use crate::classes::dynamic_prop::{DynamicProp, DynamicPropView};
use crate::classes::env::TonemapController;
use crate::classes::filter::{
    FILTER_AND, FilterClass, FilterDamageType, FilterModel, FilterMulti, FilterMultiView, FilterName,
    FilterPlayerHeld,
};
use crate::classes::floor_button::{ButtonTrigger, ButtonTriggerView, FloorButton};
use crate::classes::light::{EnvLight, EnvLightView, Light};
use crate::classes::logic::{Auto, MathCounter, Relay, Timer};
use crate::classes::movelinear::MoveLinear;
use crate::classes::player::{Player, RevertSaved};
use crate::classes::point::PointTeleport;
use crate::classes::portal::PropPortal;
use crate::classes::rotating::{Rotating, RotatingMoveDone};
use crate::classes::sky::{SkyCamera, SkyCameraView};
use crate::classes::trigger::{BaseTrigger, BaseTriggerView};
use crate::classes::trigger_kinds::{
    HurtThink, MultipleThink, TriggerHurt, TriggerHurtView, TriggerMultiple, TriggerMultipleView, TriggerPush,
    TriggerPushView, TriggerTeleport, TriggerTeleportView,
};
use crate::classes::world::World;
use crate::entity::{text_of, EntityId};
use crate::movement::ToggleState;
use crate::scalar::{Scalar, Vector};

verus! {

/// A value to show, and how to write it.
#[derive(Debug)]
pub enum Shown {
    Word(&'static str),
    Text(String),
    /// A text in quotes, or that there is none.
    Quoted(Option<String>),
    Flag(bool),
    /// A truth value as a digit.
    Digit(bool),
    Whole(i32),
    Count(usize),
    /// An integer by its bits.
    Bits(u32),
    /// A number in as few digits as tell it from the others.
    Number(Scalar),
    /// A number to some decimal places.
    Fixed(Scalar, u8),
    /// Two numbers with dots between them, in as few digits as tell.
    Span(Scalar, Scalar),
    /// Two numbers with dots between them, without decimal places.
    Range(Scalar, Scalar),
    /// Three numbers to some decimal places.
    Triple(Vector, u8),
    /// Three numbers, as a vector.
    Vector(Vector),
    /// How far it is from one place to another.
    Distance(Vector, Vector),
    /// Three or four bytes.
    Tint(Vec<u8>),
    /// The slot of an entity, or that there is none.
    Slot(Option<EntityId>),
    /// An entity, or that there is none.
    Handle(Option<EntityId>),
}

/// [`Shown`], over mathematical texts.
pub enum ShownView {
    Text(Seq<char>),
    Quoted(Option<Seq<char>>),
    Flag(bool),
    Digit(bool),
    Whole(i32),
    Count(nat),
    Bits(u32),
    Number(Scalar),
    Fixed(Scalar, u8),
    Span(Scalar, Scalar),
    Range(Scalar, Scalar),
    Triple(Vector, u8),
    Vector(Vector),
    Distance(Vector, Vector),
    Tint(Seq<u8>),
    Slot(Option<EntityId>),
    Handle(Option<EntityId>),
}

impl View for Shown {
    type V = ShownView;

    open spec fn view(&self) -> ShownView {
        match *self {
            Shown::Word(s) => ShownView::Text(s@),
            Shown::Text(s) => ShownView::Text(s@),
            Shown::Quoted(s) => ShownView::Quoted(text_of(s)),
            Shown::Flag(b) => ShownView::Flag(b),
            Shown::Digit(b) => ShownView::Digit(b),
            Shown::Whole(n) => ShownView::Whole(n),
            Shown::Count(n) => ShownView::Count(n as nat),
            Shown::Bits(n) => ShownView::Bits(n),
            Shown::Number(x) => ShownView::Number(x),
            Shown::Fixed(x, places) => ShownView::Fixed(x, places),
            Shown::Span(a, b) => ShownView::Span(a, b),
            Shown::Range(a, b) => ShownView::Range(a, b),
            Shown::Triple(v, places) => ShownView::Triple(v, places),
            Shown::Vector(v) => ShownView::Vector(v),
            Shown::Distance(a, b) => ShownView::Distance(a, b),
            Shown::Tint(c) => ShownView::Tint(c@),
            Shown::Slot(id) => ShownView::Slot(id),
            Shown::Handle(id) => ShownView::Handle(id),
        }
    }
}

/// Labels and values, over mathematical texts.
pub open spec fn lines(list: Seq<(&'static str, Shown)>) -> Seq<(Seq<char>, ShownView)> {
    list.map_values(|l: (&'static str, Shown)| (l.0@, l.1@))
}

/// A text, or an empty one for none.
pub open spec fn or_nothing(text: Option<Seq<char>>) -> Seq<char> {
    match text {
        Some(t) => t,
        None => ""@,
    }
}

fn text_or_nothing(text: &Option<String>) -> (r: String)
    ensures
        r@ == or_nothing(text_of(*text)),
{
    match text {
        Some(t) => t.clone(),
        None => "".to_owned(),
    }
}

fn copied(text: &Option<String>) -> (r: Option<String>)
    ensures
        r == *text,
{
    match text {
        Some(t) => Some(t.clone()),
        None => None,
    }
}

/// A number, if it is set; else that it is not.
pub open spec fn custom_spec(set: bool, number: Scalar) -> ShownView {
    if set { ShownView::Number(number) } else { ShownView::Text("(cvar)"@) }
}

fn custom(set: bool, number: Scalar) -> (r: Shown)
    ensures
        r@ == custom_spec(set, number),
{
    if set {
        Shown::Number(number)
    } else {
        Shown::Word("(cvar)")
    }
}

/// A colour without its fourth part.
pub open spec fn tint_spec(color: Seq<u8>) -> ShownView {
    ShownView::Tint(seq![color[0], color[1], color[2]])
}

fn tint(color: &[u8; 4]) -> (r: Shown)
    ensures
        r@ == tint_spec(color@),
{
    let parts = vec![color[0], color[1], color[2]];
    assert(parts@ =~= seq![color@[0], color@[1], color@[2]]);
    Shown::Tint(parts)
}

impl ToggleState {
    pub open spec fn word(self) -> Seq<char> {
        match self {
            ToggleState::AtTop => "AtTop"@,
            ToggleState::AtBottom => "AtBottom"@,
            ToggleState::GoingUp => "GoingUp"@,
            ToggleState::GoingDown => "GoingDown"@,
        }
    }

    pub fn label(self) -> (r: &'static str)
        ensures
            r@ == self.word(),
    {
        match self {
            ToggleState::AtTop => "AtTop",
            ToggleState::AtBottom => "AtBottom",
            ToggleState::GoingUp => "GoingUp",
            ToggleState::GoingDown => "GoingDown",
        }
    }
}

impl DoorMoveDone {
    pub open spec fn word(self) -> Seq<char> {
        match self {
            DoorMoveDone::Nothing => "None"@,
            DoorMoveDone::HitTop => "HitTop"@,
            DoorMoveDone::HitBottom => "HitBottom"@,
            DoorMoveDone::GoDown => "GoDown"@,
        }
    }

    pub fn label(self) -> (r: &'static str)
        ensures
            r@ == self.word(),
    {
        match self {
            DoorMoveDone::Nothing => "None",
            DoorMoveDone::HitTop => "HitTop",
            DoorMoveDone::HitBottom => "HitBottom",
            DoorMoveDone::GoDown => "GoDown",
        }
    }
}

impl RotatingMoveDone {
    pub open spec fn word(self) -> Seq<char> {
        match self {
            RotatingMoveDone::Nothing => "None"@,
            RotatingMoveDone::SpinUp => "SpinUp"@,
            RotatingMoveDone::SpinDown => "SpinDown"@,
            RotatingMoveDone::Reverse => "Reverse"@,
            RotatingMoveDone::Rotate => "Rotate"@,
        }
    }

    pub fn label(self) -> (r: &'static str)
        ensures
            r@ == self.word(),
    {
        match self {
            RotatingMoveDone::Nothing => "None",
            RotatingMoveDone::SpinUp => "SpinUp",
            RotatingMoveDone::SpinDown => "SpinDown",
            RotatingMoveDone::Reverse => "Reverse",
            RotatingMoveDone::Rotate => "Rotate",
        }
    }
}

impl MultipleThink {
    pub open spec fn word(self) -> Seq<char> {
        match self {
            MultipleThink::Nothing => "None"@,
            MultipleThink::WaitOver => "WaitOver"@,
            MultipleThink::Remove => "Remove"@,
        }
    }

    pub fn label(self) -> (r: &'static str)
        ensures
            r@ == self.word(),
    {
        match self {
            MultipleThink::Nothing => "None",
            MultipleThink::WaitOver => "WaitOver",
            MultipleThink::Remove => "Remove",
        }
    }
}

impl HurtThink {
    pub open spec fn word(self) -> Seq<char> {
        match self {
            HurtThink::Nothing => "None"@,
            HurtThink::Hurt => "Hurt"@,
            HurtThink::Radiation => "Radiation"@,
        }
    }

    pub fn label(self) -> (r: &'static str)
        ensures
            r@ == self.word(),
    {
        match self {
            HurtThink::Nothing => "None",
            HurtThink::Hurt => "Hurt",
            HurtThink::Radiation => "Radiation",
        }
    }
}

impl Brush {
    pub open spec fn solidity_word_spec(self) -> ShownView {
        ShownView::Text(
            if self.solidity == BRUSHSOLID_NEVER {
                "never"@
            } else if self.solidity == BRUSHSOLID_ALWAYS {
                "always"@
            } else {
                "toggle"@
            },
        )
    }

    fn solidity_word(&self) -> (r: Shown)
        ensures
            r@ == self.solidity_word_spec(),
    {
        if self.solidity == BRUSHSOLID_NEVER {
            Shown::Word("never")
        } else if self.solidity == BRUSHSOLID_ALWAYS {
            Shown::Word("always")
        } else {
            Shown::Word("toggle")
        }
    }
}

impl AreaPortal {
    pub open spec fn state_word_spec(self) -> ShownView {
        ShownView::Text(if self.state == AREAPORTAL_OPEN { "open"@ } else { "closed"@ })
    }

    fn state_word(&self) -> (r: Shown)
        ensures
            r@ == self.state_word_spec(),
    {
        if self.state == AREAPORTAL_OPEN {
            Shown::Word("open")
        } else {
            Shown::Word("closed")
        }
    }
}

impl FilterMultiView {
    pub open spec fn type_word_spec(self) -> ShownView {
        ShownView::Text(if self.filter_type == FILTER_AND { "AND"@ } else { "OR"@ })
    }
}

impl FilterMulti {
    fn type_word(&self) -> (r: Shown)
        ensures
            r@ == self@.type_word_spec(),
    {
        if self.filter_type == FILTER_AND {
            Shown::Word("AND")
        } else {
            Shown::Word("OR")
        }
    }
}

impl TestChamberDoor {
    pub open spec fn fade_range_spec(self) -> ShownView {
        if self.keys.use_area_portal_fade {
            ShownView::Range(self.keys.area_portal_fade_start, self.keys.area_portal_fade_end)
        } else {
            ShownView::Text("off"@)
        }
    }

    fn fade_range(&self) -> (r: Shown)
        ensures
            r@ == self.fade_range_spec(),
    {
        if self.keys.use_area_portal_fade {
            Shown::Range(self.keys.area_portal_fade_start, self.keys.area_portal_fade_end)
        } else {
            Shown::Word("off")
        }
    }
}

impl MoveLinear {
    pub open spec fn described(self) -> Seq<(Seq<char>, ShownView)> {
        seq![
            ("position1"@, ShownView::Triple(self.toggle.travel.position1, 1)),
            ("position2"@, ShownView::Triple(self.toggle.travel.position2, 1)),
            ("movedistance"@, ShownView::Number(self.keys.move_distance)),
            ("startposition"@, ShownView::Number(self.keys.start_position)),
            ("blockdamage"@, ShownView::Number(self.keys.block_damage)),
        ]
    }

    pub fn describe(&self) -> (r: Vec<(&'static str, Shown)>)
        ensures
            lines(r@) == self.described(),
    {
        let out = vec![
            ("position1", Shown::Triple(self.toggle.travel.position1, 1)),
            ("position2", Shown::Triple(self.toggle.travel.position2, 1)),
            ("movedistance", Shown::Number(self.keys.move_distance)),
            ("startposition", Shown::Number(self.keys.start_position)),
            ("blockdamage", Shown::Number(self.keys.block_damage)),
        ];
        assert(lines(out@) =~= self.described());
        out
    }
}

impl Button {
    pub open spec fn described(self) -> Seq<(Seq<char>, ShownView)> {
        seq![
            ("state"@, ShownView::Text(self.toggle.state.word())),
            ("locked"@, ShownView::Flag(self.locked)),
            ("stays pushed"@, ShownView::Flag(self.stay_pushed)),
            ("wait"@, ShownView::Number(self.toggle.keys.wait)),
            ("sounds"@, ShownView::Whole(self.sounds)),
            ("travel"@, ShownView::Distance(self.toggle.travel.position1, self.toggle.travel.position2)),
        ]
    }

    pub fn describe(&self) -> (r: Vec<(&'static str, Shown)>)
        ensures
            lines(r@) == self.described(),
    {
        let out = vec![
            ("state", Shown::Word(self.toggle.state.label())),
            ("locked", Shown::Flag(self.locked)),
            ("stays pushed", Shown::Flag(self.stay_pushed)),
            ("wait", Shown::Number(self.toggle.keys.wait)),
            ("sounds", Shown::Whole(self.sounds)),
            ("travel", Shown::Distance(self.toggle.travel.position1, self.toggle.travel.position2)),
        ];
        assert(lines(out@) =~= self.described());
        out
    }
}

impl Rotating {
    pub open spec fn described(self) -> Seq<(Seq<char>, ShownView)> {
        seq![
            ("maxspeed"@, ShownView::Number(self.keys.max_speed)),
            ("target speed"@, ShownView::Number(self.target_speed)),
            ("reversed"@, ShownView::Flag(self.reversed)),
            ("fanfriction"@, ShownView::Number(self.keys.fan_friction)),
            ("axis"@, ShownView::Triple(self.move_ang, 0)),
            ("move done"@, ShownView::Text(self.move_done.word())),
        ]
    }

    pub fn describe(&self) -> (r: Vec<(&'static str, Shown)>)
        ensures
            lines(r@) == self.described(),
    {
        let out = vec![
            ("maxspeed", Shown::Number(self.keys.max_speed)),
            ("target speed", Shown::Number(self.target_speed)),
            ("reversed", Shown::Flag(self.reversed)),
            ("fanfriction", Shown::Number(self.keys.fan_friction)),
            ("axis", Shown::Triple(self.move_ang, 0)),
            ("move done", Shown::Word(self.move_done.label())),
        ];
        assert(lines(out@) =~= self.described());
        out
    }
}

impl Brush {
    pub open spec fn described(self) -> Seq<(Seq<char>, ShownView)> {
        seq![
            ("disabled"@, ShownView::Flag(self.disabled)),
            ("solidity"@, self.solidity_word_spec()),
            ("excludednpc"@, ShownView::Text(or_nothing(text_of(self.excluded_class)))),
        ]
    }

    pub fn describe(&self) -> (r: Vec<(&'static str, Shown)>)
        ensures
            lines(r@) == self.described(),
    {
        let out = vec![
            ("disabled", Shown::Flag(self.disabled)),
            ("solidity", self.solidity_word()),
            ("excludednpc", Shown::Text(text_or_nothing(&self.excluded_class))),
        ];
        assert(lines(out@) =~= self.described());
        out
    }
}

impl AreaPortal {
    pub open spec fn described(self) -> Seq<(Seq<char>, ShownView)> {
        seq![
            ("portalnumber"@, ShownView::Whole(self.portal_number)),
            ("state"@, self.state_word_spec()),
        ]
    }

    pub fn describe(&self) -> (r: Vec<(&'static str, Shown)>)
        ensures
            lines(r@) == self.described(),
    {
        let out = vec![
            ("portalnumber", Shown::Whole(self.portal_number)),
            ("state", self.state_word()),
        ];
        assert(lines(out@) =~= self.described());
        out
    }
}

impl TonemapController {
    pub open spec fn described(self) -> Seq<(Seq<char>, ShownView)> {
        seq![
            ("AutoExposureMin"@, custom_spec(self.settings.exposure.use_custom_auto_exposure_min, self.settings.exposure.custom_auto_exposure_min)),
            ("AutoExposureMax"@, custom_spec(self.settings.exposure.use_custom_auto_exposure_max, self.settings.exposure.custom_auto_exposure_max)),
            ("TonemapRate"@, ShownView::Number(self.settings.rate)),
            ("TonemapPercentTarget"@, ShownView::Number(self.settings.percent_target)),
            ("TonemapPercentBrightPixels"@, ShownView::Number(self.settings.percent_bright_pixels)),
            ("TonemapMinAvgLum"@, ShownView::Number(self.settings.min_avg_lum)),
            ("BloomScale"@, custom_spec(self.settings.bloom.use_custom_bloom_scale, self.settings.bloom.custom_bloom_scale)),
        ]
    }

    pub fn describe(&self) -> (r: Vec<(&'static str, Shown)>)
        ensures
            lines(r@) == self.described(),
    {
        let out = vec![
            ("AutoExposureMin", custom(self.settings.exposure.use_custom_auto_exposure_min, self.settings.exposure.custom_auto_exposure_min)),
            ("AutoExposureMax", custom(self.settings.exposure.use_custom_auto_exposure_max, self.settings.exposure.custom_auto_exposure_max)),
            ("TonemapRate", Shown::Number(self.settings.rate)),
            ("TonemapPercentTarget", Shown::Number(self.settings.percent_target)),
            ("TonemapPercentBrightPixels", Shown::Number(self.settings.percent_bright_pixels)),
            ("TonemapMinAvgLum", Shown::Number(self.settings.min_avg_lum)),
            ("BloomScale", custom(self.settings.bloom.use_custom_bloom_scale, self.settings.bloom.custom_bloom_scale)),
        ];
        assert(lines(out@) =~= self.described());
        out
    }
}

impl FilterName {
    pub open spec fn described(self) -> Seq<(Seq<char>, ShownView)> {
        seq![
            ("filtername"@, ShownView::Quoted(text_of(self.filter_name))),
            ("Negated"@, ShownView::Flag(self.base.negated)),
        ]
    }

    pub fn describe(&self) -> (r: Vec<(&'static str, Shown)>)
        ensures
            lines(r@) == self.described(),
    {
        let out = vec![
            ("filtername", Shown::Quoted(copied(&self.filter_name))),
            ("Negated", Shown::Flag(self.base.negated)),
        ];
        assert(lines(out@) =~= self.described());
        out
    }
}

impl FilterClass {
    pub open spec fn described(self) -> Seq<(Seq<char>, ShownView)> {
        seq![
            ("filterclass"@, ShownView::Quoted(text_of(self.filter_class))),
            ("Negated"@, ShownView::Flag(self.base.negated)),
        ]
    }

    pub fn describe(&self) -> (r: Vec<(&'static str, Shown)>)
        ensures
            lines(r@) == self.described(),
    {
        let out = vec![
            ("filterclass", Shown::Quoted(copied(&self.filter_class))),
            ("Negated", Shown::Flag(self.base.negated)),
        ];
        assert(lines(out@) =~= self.described());
        out
    }
}

impl FilterModel {
    pub open spec fn described(self) -> Seq<(Seq<char>, ShownView)> {
        seq![
            ("model"@, ShownView::Quoted(text_of(self.filter_model))),
            ("Negated"@, ShownView::Flag(self.base.negated)),
        ]
    }

    pub fn describe(&self) -> (r: Vec<(&'static str, Shown)>)
        ensures
            lines(r@) == self.described(),
    {
        let out = vec![
            ("model", Shown::Quoted(copied(&self.filter_model))),
            ("Negated", Shown::Flag(self.base.negated)),
        ];
        assert(lines(out@) =~= self.described());
        out
    }
}

impl FilterDamageType {
    pub open spec fn described(self) -> Seq<(Seq<char>, ShownView)> {
        seq![
            ("damagetype"@, ShownView::Whole(self.damage_type)),
            ("Negated"@, ShownView::Flag(self.base.negated)),
        ]
    }

    pub fn describe(&self) -> (r: Vec<(&'static str, Shown)>)
        ensures
            lines(r@) == self.described(),
    {
        let out = vec![
            ("damagetype", Shown::Whole(self.damage_type)),
            ("Negated", Shown::Flag(self.base.negated)),
        ];
        assert(lines(out@) =~= self.described());
        out
    }
}

impl FilterPlayerHeld {
    pub open spec fn described(self) -> Seq<(Seq<char>, ShownView)> {
        seq![
            ("Negated"@, ShownView::Flag(self.base.negated)),
        ]
    }

    pub fn describe(&self) -> (r: Vec<(&'static str, Shown)>)
        ensures
            lines(r@) == self.described(),
    {
        let out = vec![
            ("Negated", Shown::Flag(self.base.negated)),
        ];
        assert(lines(out@) =~= self.described());
        out
    }
}

impl FilterMultiView {
    pub open spec fn described(self) -> Seq<(Seq<char>, ShownView)> {
        seq![
            ("FilterType"@, self.type_word_spec()),
            ("filters"@, ShownView::Count(self.filters.len())),
            ("Negated"@, ShownView::Flag(self.base.negated)),
        ]
    }
}

impl FilterMulti {
    pub fn describe(&self) -> (r: Vec<(&'static str, Shown)>)
        ensures
            lines(r@) == self@.described(),
    {
        let out = vec![
            ("FilterType", self.type_word()),
            ("filters", Shown::Count(self.filters.len())),
            ("Negated", Shown::Flag(self.base.negated)),
        ];
        assert(lines(out@) =~= self@.described());
        out
    }
}

impl Relay {
    pub open spec fn described(self) -> Seq<(Seq<char>, ShownView)> {
        seq![
            ("StartDisabled"@, ShownView::Flag(self.disabled)),
            ("waiting for refire"@, ShownView::Flag(self.wait_for_refire)),
        ]
    }

    pub fn describe(&self) -> (r: Vec<(&'static str, Shown)>)
        ensures
            lines(r@) == self.described(),
    {
        let out = vec![
            ("StartDisabled", Shown::Flag(self.disabled)),
            ("waiting for refire", Shown::Flag(self.wait_for_refire)),
        ];
        assert(lines(out@) =~= self.described());
        out
    }
}

impl BranchView {
    pub open spec fn described(self) -> Seq<(Seq<char>, ShownView)> {
        seq![
            ("value"@, ShownView::Flag(self.value)),
            ("listeners"@, ShownView::Count(self.listeners.len())),
        ]
    }
}

impl Branch {
    pub fn describe(&self) -> (r: Vec<(&'static str, Shown)>)
        ensures
            lines(r@) == self@.described(),
    {
        let out = vec![
            ("value", Shown::Flag(self.value)),
            ("listeners", Shown::Count(self.listeners.len())),
        ];
        assert(lines(out@) =~= self@.described());
        out
    }
}

impl BranchListView {
    pub open spec fn described(self) -> Seq<(Seq<char>, ShownView)> {
        seq![
            ("branches"@, ShownView::Count(self.branches.len())),
            ("state"@, ShownView::Text(self.last.word())),
        ]
    }
}

impl BranchList {
    pub fn describe(&self) -> (r: Vec<(&'static str, Shown)>)
        ensures
            lines(r@) == self@.described(),
    {
        let out = vec![
            ("branches", Shown::Count(self.branches.len())),
            ("state", Shown::Word(self.last.name())),
        ];
        assert(lines(out@) =~= self@.described());
        out
    }
}

impl MathCounter {
    pub open spec fn described(self) -> Seq<(Seq<char>, ShownView)> {
        seq![
            ("value"@, ShownView::Number(self.value)),
            ("min"@, ShownView::Number(self.min)),
            ("max"@, ShownView::Number(self.max)),
            ("StartDisabled"@, ShownView::Flag(self.disabled)),
        ]
    }

    pub fn describe(&self) -> (r: Vec<(&'static str, Shown)>)
        ensures
            lines(r@) == self.described(),
    {
        let out = vec![
            ("value", Shown::Number(self.value)),
            ("min", Shown::Number(self.min)),
            ("max", Shown::Number(self.max)),
            ("StartDisabled", Shown::Flag(self.disabled)),
        ];
        assert(lines(out@) =~= self.described());
        out
    }
}

impl Player {
    pub open spec fn described(self) -> Seq<(Seq<char>, ShownView)> {
        seq![
            ("m_nButtons"@, ShownView::Bits(self.buttons)),
            ("m_flDeathTime"@, ShownView::Fixed(self.death_time, 2)),
        ]
    }

    pub fn describe(&self) -> (r: Vec<(&'static str, Shown)>)
        ensures
            lines(r@) == self.described(),
    {
        let out = vec![
            ("m_nButtons", Shown::Bits(self.buttons)),
            ("m_flDeathTime", Shown::Fixed(self.death_time, 2)),
        ];
        assert(lines(out@) =~= self.described());
        out
    }
}

impl RevertSaved {
    pub open spec fn described(self) -> Seq<(Seq<char>, ShownView)> {
        seq![
            ("loadtime"@, ShownView::Fixed(self.load_time, 2)),
            ("duration"@, ShownView::Fixed(self.duration, 2)),
            ("holdtime"@, ShownView::Fixed(self.hold_time, 2)),
        ]
    }

    pub fn describe(&self) -> (r: Vec<(&'static str, Shown)>)
        ensures
            lines(r@) == self.described(),
    {
        let out = vec![
            ("loadtime", Shown::Fixed(self.load_time, 2)),
            ("duration", Shown::Fixed(self.duration, 2)),
            ("holdtime", Shown::Fixed(self.hold_time, 2)),
        ];
        assert(lines(out@) =~= self.described());
        out
    }
}

impl PointTeleport {
    pub open spec fn described(self) -> Seq<(Seq<char>, ShownView)> {
        seq![
            ("save_origin"@, ShownView::Vector(self.saved.origin)),
            ("save_angles"@, ShownView::Vector(self.saved.angles)),
        ]
    }

    pub fn describe(&self) -> (r: Vec<(&'static str, Shown)>)
        ensures
            lines(r@) == self.described(),
    {
        let out = vec![
            ("save_origin", Shown::Vector(self.saved.origin)),
            ("save_angles", Shown::Vector(self.saved.angles)),
        ];
        assert(lines(out@) =~= self.described());
        out
    }
}

impl PropPortal {
    pub open spec fn described(self) -> Seq<(Seq<char>, ShownView)> {
        seq![
            ("Activated"@, ShownView::Flag(self.activated)),
            ("PortalTwo"@, ShownView::Flag(self.is_portal2)),
            ("LinkageGroupID"@, ShownView::Whole(self.linkage_group as i32)),
            ("HalfWidth"@, ShownView::Number(self.half_width)),
            ("HalfHeight"@, ShownView::Number(self.half_height)),
            ("linked"@, ShownView::Slot(self.linked)),
        ]
    }

    pub fn describe(&self) -> (r: Vec<(&'static str, Shown)>)
        ensures
            lines(r@) == self.described(),
    {
        let out = vec![
            ("Activated", Shown::Flag(self.activated)),
            ("PortalTwo", Shown::Flag(self.is_portal2)),
            ("LinkageGroupID", Shown::Whole(self.linkage_group as i32)),
            ("HalfWidth", Shown::Number(self.half_width)),
            ("HalfHeight", Shown::Number(self.half_height)),
            ("linked", Shown::Slot(self.linked)),
        ];
        assert(lines(out@) =~= self.described());
        out
    }
}

impl FloorButton {
    pub open spec fn described(self) -> Seq<(Seq<char>, ShownView)> {
        seq![
            ("pressed"@, ShownView::Flag(self.pressed)),
            ("skin"@, ShownView::Whole(self.skin)),
            ("sequence"@, ShownView::Text(self.sequence.word())),
            ("anim_time"@, ShownView::Fixed(self.anim_time, 3)),
            ("trigger"@, ShownView::Handle(self.trigger)),
        ]
    }

    pub fn describe(&self) -> (r: Vec<(&'static str, Shown)>)
        ensures
            lines(r@) == self.described(),
    {
        let out = vec![
            ("pressed", Shown::Flag(self.pressed)),
            ("skin", Shown::Whole(self.skin)),
            ("sequence", Shown::Word(self.sequence.label())),
            ("anim_time", Shown::Fixed(self.anim_time, 3)),
            ("trigger", Shown::Handle(self.trigger)),
        ];
        assert(lines(out@) =~= self.described());
        out
    }
}

impl DynamicPropView {
    pub open spec fn described(self) -> Seq<(Seq<char>, ShownView)> {
        seq![
            ("sequence"@, ShownView::Text(self.sequence)),
            ("default_anim"@, ShownView::Text(self.keys.default_anim)),
            ("cycle"@, ShownView::Fixed(self.pose.cycle, 3)),
            ("anim_time"@, ShownView::Fixed(self.pose.anim_time, 3)),
            ("playback_rate"@, ShownView::Fixed(self.pose.playback_rate, 2)),
            ("animation_done"@, ShownView::Flag(self.animation_done)),
            ("hold_animation"@, ShownView::Flag(self.keys.hold_animation)),
            ("skin"@, ShownView::Whole(self.keys.skin)),
            ("body"@, ShownView::Whole(self.keys.body)),
            ("fading"@, ShownView::Flag(self.fading)),
        ]
    }
}

impl DynamicProp {
    pub fn describe(&self) -> (r: Vec<(&'static str, Shown)>)
        ensures
            lines(r@) == self@.described(),
    {
        let out = vec![
            ("sequence", Shown::Text(self.sequence.clone())),
            ("default_anim", Shown::Text(self.keys.default_anim.clone())),
            ("cycle", Shown::Fixed(self.pose.cycle, 3)),
            ("anim_time", Shown::Fixed(self.pose.anim_time, 3)),
            ("playback_rate", Shown::Fixed(self.pose.playback_rate, 2)),
            ("animation_done", Shown::Flag(self.animation_done)),
            ("hold_animation", Shown::Flag(self.keys.hold_animation)),
            ("skin", Shown::Whole(self.keys.skin)),
            ("body", Shown::Whole(self.keys.body)),
            ("fading", Shown::Flag(self.fading)),
        ];
        assert(lines(out@) =~= self@.described());
        out
    }
}

impl TestChamberDoor {
    pub open spec fn described(self) -> Seq<(Seq<char>, ShownView)> {
        seq![
            ("open"@, ShownView::Flag(self.open)),
            ("animating"@, ShownView::Flag(self.animating)),
            ("locked"@, ShownView::Flag(self.locked)),
            ("cycle"@, ShownView::Fixed(self.pose.cycle, 3)),
            ("anim_time"@, ShownView::Fixed(self.pose.anim_time, 3)),
            ("playback_rate"@, ShownView::Fixed(self.pose.playback_rate, 2)),
            ("sequence_finished"@, ShownView::Flag(self.sequence_finished)),
            ("area_portal_window"@, ShownView::Text(or_nothing(text_of(self.keys.area_portal_window)))),
            ("area_portal_fade"@, self.fade_range_spec()),
        ]
    }

    pub fn describe(&self) -> (r: Vec<(&'static str, Shown)>)
        ensures
            lines(r@) == self.described(),
    {
        let out = vec![
            ("open", Shown::Flag(self.open)),
            ("animating", Shown::Flag(self.animating)),
            ("locked", Shown::Flag(self.locked)),
            ("cycle", Shown::Fixed(self.pose.cycle, 3)),
            ("anim_time", Shown::Fixed(self.pose.anim_time, 3)),
            ("playback_rate", Shown::Fixed(self.pose.playback_rate, 2)),
            ("sequence_finished", Shown::Flag(self.sequence_finished)),
            ("area_portal_window", Shown::Text(text_or_nothing(&self.keys.area_portal_window))),
            ("area_portal_fade", self.fade_range()),
        ];
        assert(lines(out@) =~= self.described());
        out
    }
}

impl WeightedCube {
    pub open spec fn described(self) -> Seq<(Seq<char>, ShownView)> {
        seq![
            ("cube_type"@, ShownView::Text(self.cube_type.word())),
            ("rusted"@, ShownView::Flag(self.rusted)),
            ("skin"@, ShownView::Whole(self.skin)),
            ("painted_power"@, ShownView::Text(self.painted_power.word())),
            ("pre_painted_power"@, ShownView::Text(self.pre_painted_power.word())),
            ("allow_portal_funnel"@, ShownView::Flag(self.allow_portal_funnel)),
            ("pickup_disabled"@, ShownView::Flag(self.pickup_disabled)),
        ]
    }

    pub fn describe(&self) -> (r: Vec<(&'static str, Shown)>)
        ensures
            lines(r@) == self.described(),
    {
        let out = vec![
            ("cube_type", Shown::Word(self.cube_type.name())),
            ("rusted", Shown::Flag(self.rusted)),
            ("skin", Shown::Whole(self.skin)),
            ("painted_power", Shown::Word(self.painted_power.name())),
            ("pre_painted_power", Shown::Word(self.pre_painted_power.name())),
            ("allow_portal_funnel", Shown::Flag(self.allow_portal_funnel)),
            ("pickup_disabled", Shown::Flag(self.pickup_disabled)),
        ];
        assert(lines(out@) =~= self.described());
        out
    }
}

impl SkyCameraView {
    pub open spec fn described(self) -> Seq<(Seq<char>, ShownView)> {
        seq![
            ("scale"@, ShownView::Whole(self.scale)),
            ("origin"@, ShownView::Triple(self.origin, 1)),
            ("use_angles"@, ShownView::Digit(self.use_angles)),
            ("fogenable"@, ShownView::Digit(self.fog.enable)),
            ("fogblend"@, ShownView::Digit(self.fog.blend)),
            ("fogdir"@, ShownView::Triple(self.fog.dir_primary, 2)),
            ("fogcolor"@, tint_spec(self.fog.color_primary)),
            ("fogcolor2"@, tint_spec(self.fog.color_secondary)),
            ("fogstart"@, ShownView::Number(self.fog.range.start)),
            ("fogend"@, ShownView::Number(self.fog.range.end)),
            ("fogmaxdensity"@, ShownView::Number(self.fog.range.max_density)),
            ("HDRColorScale"@, ShownView::Number(self.fog.range.hdr_color_scale)),
        ]
    }
}

impl SkyCamera {
    pub fn describe(&self) -> (r: Vec<(&'static str, Shown)>)
        ensures
            lines(r@) == self@.described(),
    {
        let out = vec![
            ("scale", Shown::Whole(self.scale)),
            ("origin", Shown::Triple(self.origin, 1)),
            ("use_angles", Shown::Digit(self.use_angles)),
            ("fogenable", Shown::Digit(self.fog.enable)),
            ("fogblend", Shown::Digit(self.fog.blend)),
            ("fogdir", Shown::Triple(self.fog.dir_primary, 2)),
            ("fogcolor", tint(&self.fog.colors.color_primary)),
            ("fogcolor2", tint(&self.fog.colors.color_secondary)),
            ("fogstart", Shown::Number(self.fog.range.start)),
            ("fogend", Shown::Number(self.fog.range.end)),
            ("fogmaxdensity", Shown::Number(self.fog.range.max_density)),
            ("HDRColorScale", Shown::Number(self.fog.range.hdr_color_scale)),
        ];
        assert(lines(out@) =~= self@.described());
        out
    }
}

impl BaseTriggerView {
    pub open spec fn described(self) -> Seq<(Seq<char>, ShownView)> {
        seq![
            ("disabled"@, ShownView::Flag(self.disabled)),
            ("filtername"@, ShownView::Quoted(self.filter_name)),
            ("touching"@, ShownView::Count(self.touching.len())),
        ]
    }
}

impl BaseTrigger {
    pub fn describe(&self) -> (r: Vec<(&'static str, Shown)>)
        ensures
            lines(r@) == self@.described(),
    {
        let out = vec![
            ("disabled", Shown::Flag(self.disabled)),
            ("filtername", Shown::Quoted(copied(&self.filter_name))),
            ("touching", Shown::Count(self.touching.len())),
        ];
        assert(lines(out@) =~= self@.described());
        out
    }
}

impl TriggerMultipleView {
    pub open spec fn described(self) -> Seq<(Seq<char>, ShownView)> {
        self.base.described() + seq![
            ("wait"@, ShownView::Number(self.wait)),
            ("think"@, ShownView::Text(self.think.word())),
        ]
    }
}

impl TriggerMultiple {
    pub fn describe(&self) -> (r: Vec<(&'static str, Shown)>)
        ensures
            lines(r@) == self@.described(),
    {
        let mut out = self.base.describe();
        out.push(("wait", Shown::Number(self.wait)));
        out.push(("think", Shown::Word(self.think.label())));
        assert(lines(out@) =~= self@.described());
        out
    }
}

impl TriggerHurtView {
    pub open spec fn described(self) -> Seq<(Seq<char>, ShownView)> {
        self.base.described() + seq![
            ("damage"@, ShownView::Number(self.dose.damage)),
            ("damagecap"@, ShownView::Number(self.keys.damage_cap)),
            ("damagetype"@, ShownView::Whole(self.keys.damage_type)),
            ("think"@, ShownView::Text(self.think.word())),
        ]
    }
}

impl TriggerHurt {
    pub fn describe(&self) -> (r: Vec<(&'static str, Shown)>)
        ensures
            lines(r@) == self@.described(),
    {
        let mut out = self.base.describe();
        out.push(("damage", Shown::Number(self.dose.damage)));
        out.push(("damagecap", Shown::Number(self.keys.damage_cap)));
        out.push(("damagetype", Shown::Whole(self.keys.damage_type)));
        out.push(("think", Shown::Word(self.think.label())));
        assert(lines(out@) =~= self@.described());
        out
    }
}

impl TriggerPushView {
    pub open spec fn described(self) -> Seq<(Seq<char>, ShownView)> {
        self.base.described() + seq![
            ("pushdir (local)"@, ShownView::Vector(self.push_dir)),
            ("pushspeed"@, ShownView::Number(self.push_speed)),
        ]
    }
}

impl TriggerPush {
    pub fn describe(&self) -> (r: Vec<(&'static str, Shown)>)
        ensures
            lines(r@) == self@.described(),
    {
        let mut out = self.base.describe();
        out.push(("pushdir (local)", Shown::Vector(self.push_dir)));
        out.push(("pushspeed", Shown::Number(self.push_speed)));
        assert(lines(out@) =~= self@.described());
        out
    }
}

impl TriggerTeleportView {
    pub open spec fn described(self) -> Seq<(Seq<char>, ShownView)> {
        self.base.described() + seq![
            ("landmark"@, ShownView::Quoted(self.landmark)),
            ("UseLandmarkAngles"@, ShownView::Flag(self.use_landmark_angles)),
            ("CheckDestIfClearForPlayer"@, ShownView::Flag(self.check_dest_if_clear)),
        ]
    }
}

impl TriggerTeleport {
    pub fn describe(&self) -> (r: Vec<(&'static str, Shown)>)
        ensures
            lines(r@) == self@.described(),
    {
        let mut out = self.base.describe();
        out.push(("landmark", Shown::Quoted(copied(&self.landmark))));
        out.push(("UseLandmarkAngles", Shown::Flag(self.use_landmark_angles)));
        out.push(("CheckDestIfClearForPlayer", Shown::Flag(self.check_dest_if_clear)));
        assert(lines(out@) =~= self@.described());
        out
    }
}

impl ButtonTriggerView {
    pub open spec fn described(self) -> Seq<(Seq<char>, ShownView)> {
        seq![("owner"@, ShownView::Handle(self.owner))] + self.base.described()
    }
}

impl ButtonTrigger {
    pub fn describe(&self) -> (r: Vec<(&'static str, Shown)>)
        ensures
            lines(r@) == self@.described(),
    {
        let mut out = vec![("owner", Shown::Handle(self.owner))];
        let mut base = self.base.describe();
        let ghost common = base@;
        out.append(&mut base);
        assert(lines(out@) =~= seq![("owner"@, ShownView::Handle(self.owner))] + lines(common));
        out
    }
}

impl Door {
    /// The ends that it turns between, or slides between.
    pub open spec fn described(self) -> Seq<(Seq<char>, ShownView)> {
        let travel = self.toggle.travel;
        seq![
            ("state"@, ShownView::Text(self.toggle.state.word())),
            ("rotating"@, ShownView::Flag(self.rotating)),
            ("locked"@, ShownView::Flag(self.locked)),
            ("wait"@, ShownView::Number(self.toggle.keys.wait)),
            ("move done"@, ShownView::Text(self.move_done.word())),
            if self.rotating {
                ("angle1"@, ShownView::Triple(travel.angle1, 1))
            } else {
                ("position1"@, ShownView::Triple(travel.position1, 1))
            },
            if self.rotating {
                ("angle2"@, ShownView::Triple(travel.angle2, 1))
            } else {
                ("position2"@, ShownView::Triple(travel.position2, 1))
            },
        ]
    }

    pub fn describe(&self) -> (r: Vec<(&'static str, Shown)>)
        ensures
            lines(r@) == self.described(),
    {
        let mut out = vec![
            ("state", Shown::Word(self.toggle.state.label())),
            ("rotating", Shown::Flag(self.rotating)),
            ("locked", Shown::Flag(self.locked)),
            ("wait", Shown::Number(self.toggle.keys.wait)),
            ("move done", Shown::Word(self.move_done.label())),
        ];
        if self.rotating {
            out.push(("angle1", Shown::Triple(self.toggle.travel.angle1, 1)));
            out.push(("angle2", Shown::Triple(self.toggle.travel.angle2, 1)));
        } else {
            out.push(("position1", Shown::Triple(self.toggle.travel.position1, 1)));
            out.push(("position2", Shown::Triple(self.toggle.travel.position2, 1)));
        }
        assert(lines(out@) =~= self.described());
        out
    }
}

/// A label and a text, if there is one.
pub open spec fn if_any(label: Seq<char>, text: Option<Seq<char>>) -> Seq<(Seq<char>, ShownView)> {
    match text {
        Some(t) => seq![(label, ShownView::Text(t))],
        None => Seq::empty(),
    }
}

impl Auto {
    pub open spec fn described(self) -> Seq<(Seq<char>, ShownView)> {
        if_any("globalstate"@, text_of(self.global_state))
    }

    pub fn describe(&self) -> (r: Vec<(&'static str, Shown)>)
        ensures
            lines(r@) == self.described(),
    {
        let out = match &self.global_state {
            Some(state) => vec![("globalstate", Shown::Text(state.clone()))],
            None => Vec::new(),
        };
        assert(lines(out@) =~= self.described());
        out
    }
}

impl Light {
    pub open spec fn described(self) -> Seq<(Seq<char>, ShownView)> {
        seq![("style"@, ShownView::Whole(self.style))] + if_any("pattern"@, text_of(self.pattern))
    }

    pub fn describe(&self) -> (r: Vec<(&'static str, Shown)>)
        ensures
            lines(r@) == self.described(),
    {
        let mut out = vec![("style", Shown::Whole(self.style))];
        match &self.pattern {
            Some(pattern) => out.push(("pattern", Shown::Text(pattern.clone()))),
            None => {}
        }
        assert(lines(out@) =~= self.described());
        out
    }
}

impl EnvLightView {
    pub open spec fn described(self) -> Seq<(Seq<char>, ShownView)> {
        self.light.described().push(("_light"@, ShownView::Tint(self.sun_color)))
    }
}

impl EnvLight {
    pub fn describe(&self) -> (r: Vec<(&'static str, Shown)>)
        ensures
            lines(r@) == self@.described(),
    {
        let mut out = self.light.describe();
        let parts = vec![self.sun_color[0], self.sun_color[1], self.sun_color[2], self.sun_color[3]];
        assert(parts@ =~= self.sun_color@);
        out.push(("_light", Shown::Tint(parts)));
        assert(lines(out@) =~= self@.described());
        out
    }
}

impl Timer {
    pub open spec fn described(self) -> Seq<(Seq<char>, ShownView)> {
        let common = seq![
            ("StartDisabled"@, ShownView::Flag(self.disabled)),
            ("RefireTime"@, ShownView::Fixed(self.refire_time, 2)),
        ];
        if self.use_random_time {
            common.push(("random bounds"@, ShownView::Span(self.lower_random_bound, self.upper_random_bound)))
        } else {
            common
        }
    }

    pub fn describe(&self) -> (r: Vec<(&'static str, Shown)>)
        ensures
            lines(r@) == self.described(),
    {
        let mut out = vec![
            ("StartDisabled", Shown::Flag(self.disabled)),
            ("RefireTime", Shown::Fixed(self.refire_time, 2)),
        ];
        if self.use_random_time {
            out.push(("random bounds", Shown::Span(self.lower_random_bound, self.upper_random_bound)));
        }
        assert(lines(out@) =~= self.described());
        out
    }
}

impl World {
    pub open spec fn described(self) -> Seq<(Seq<char>, ShownView)> {
        seq![
            ("world_mins"@, ShownView::Triple(self.world_mins, 1)),
            ("world_maxs"@, ShownView::Triple(self.world_maxs, 1)),
            ("maxpropscreenwidth"@, ShownView::Number(self.max_prop_screen_width)),
            ("maxblobcount"@, ShownView::Whole(self.max_blob_count)),
        ] + if_any("skyname"@, text_of(self.sky_name)) + if_any("detailmaterial"@, text_of(self.detail_material))
    }

    pub fn describe(&self) -> (r: Vec<(&'static str, Shown)>)
        ensures
            lines(r@) == self.described(),
    {
        let mut out = vec![
            ("world_mins", Shown::Triple(self.world_mins, 1)),
            ("world_maxs", Shown::Triple(self.world_maxs, 1)),
            ("maxpropscreenwidth", Shown::Number(self.max_prop_screen_width)),
            ("maxblobcount", Shown::Whole(self.max_blob_count)),
        ];
        match &self.sky_name {
            Some(sky) => out.push(("skyname", Shown::Text(sky.clone()))),
            None => {}
        }
        match &self.detail_material {
            Some(material) => out.push(("detailmaterial", Shown::Text(material.clone()))),
            None => {}
        }
        assert(lines(out@) =~= self.described());
        out
    }
}

impl CaseView {
    /// Those of the first `n` cases that have a value.
    pub open spec fn described_to(self, n: int) -> Seq<(Seq<char>, ShownView)>
        decreases n,
    {
        if n <= 0 {
            Seq::empty()
        } else {
            self.described_to(n - 1) + if_any(case_key(n - 1), self.cases[n - 1])
        }
    }
}

impl Case {
    /// The cases that have a value.
    pub fn describe(&self) -> (r: Vec<(&'static str, Shown)>)
        requires
            self@.wf(),
        ensures
            lines(r@) == self@.described_to(MAX_LOGIC_CASES as int),
    {
        let mut out: Vec<(&'static str, Shown)> = Vec::new();
        assert(lines(out@) =~= self@.described_to(0));
        let mut i: usize = 0;
        while i < MAX_LOGIC_CASES
            invariant
                i <= MAX_LOGIC_CASES,
                self@.wf(),
                lines(out@) == self@.described_to(i as int),
            decreases MAX_LOGIC_CASES - i,
        {
            match &self.cases[i] {
                Some(case) => out.push((case_key_name(i), Shown::Text(case.clone()))),
                None => {}
            }
            i = i + 1;
            assert(lines(out@) =~= self@.described_to(i as int));
        }
        out
    }
}

} // verus!
