//! Filters: entities that say which other entities pass.
use vstd::prelude::*;

use crate::behaviour::{filter_view, Behaviour, BehaviourView, Filter, FilterView};
use crate::context::{Context, ContextView, OutboxView};
use crate::damage::{DamageInfo, DMG_DIRECT};
use crate::entity::{text_of, CoreView, EntityCore, EntityId, FL_CLIENT};
use crate::io::{Input, Value, Variant};
use crate::list::{at, first, found_all, EntityList, Search, SlotView};
use crate::scalar::{num, ZERO};
use crate::step::{answered, step, Step};
use crate::text::{atoi, integer_of, name_matches, names_match, same_name};

verus! {

/// The common half of a filter: whether its answer is turned round.
#[derive(Debug, Clone, Copy)]
pub struct BaseFilter {
    pub negated: bool,
}

impl BaseFilter {
    pub open spec fn keyed(self, key: Seq<char>, value: Seq<char>) -> Option<BaseFilter> {
        if same_name(key, "Negated"@) {
            Some(BaseFilter { negated: integer_of(value) != 0 })
        } else {
            None
        }
    }

    pub open spec fn outcome(self, matched: bool) -> bool {
        self.negated != matched
    }

    pub fn key_value(&mut self, key: &str, value: &str) -> (r: bool)
        ensures
            r == old(self).keyed(key@, value@) is Some,
            *final(self) == old(self).keyed(key@, value@).unwrap_or(*old(self)),
    {
        if key.eq_ignore_ascii_case("Negated") {
            self.negated = atoi(value) != 0;
            return true;
        }
        false
    }

    /// A filter's answer, turned round if it is to be.
    pub fn negate(&self, result: bool) -> (r: bool)
        ensures
            r == self.outcome(result),
    {
        if self.negated {
            !result
        } else {
            result
        }
    }

    /// Sets off the output that tells whether the activator passed.
    pub fn test_activator(entity: &EntityCore, passed: bool, activator: Option<EntityId>, cx: &mut Context)
        ensures
            final(cx)@ == old(cx)@.fired(
                entity@.id,
                if passed { "OnPass"@ } else { "OnFail"@ },
                Variant::Void,
                activator,
                Some(entity@.id),
                num(ZERO),
            ),
    {
        let output = if passed {
            "OnPass"
        } else {
            "OnFail"
        };
        entity.fire_output(output, Variant::Void, activator, Some(entity.id()), num(ZERO), cx);
    }
}

/// The common half of an input's activator, while its handle resolves.
pub open spec fn activator_of(cx: ContextView, input: Input) -> Option<CoreView> {
    match input.activator {
        Some(id) => match cx.at(id) {
            Some(e) => Some(e.core),
            None => None,
        },
        None => None,
    }
}

/// Passes an entity by its target name.
#[derive(Debug)]
pub struct FilterName {
    pub base: BaseFilter,
    pub filter_name: Option<String>,
}

impl FilterName {
    #[verifier::opaque]
    pub open spec fn keyed(self, key: Seq<char>, value: Value) -> Option<FilterName> {
        if same_name(key, "filtername"@) {
            Some(FilterName { filter_name: Some(value.text), ..self })
        } else {
            match self.base.keyed(key, value.text@) {
                Some(base) => Some(FilterName { base, ..self }),
                None => None,
            }
        }
    }

    pub open spec fn lets_pass(self, other: CoreView) -> bool {
        match self.filter_name {
            None => self.base.outcome(other.name is None),
            Some(want) => self.base.outcome(
                if same_name(want@, "!player"@) {
                    other.flagged(FL_CLIENT)
                } else {
                    other.name matches Some(have) && name_matches(want@, have)
                },
            ),
        }
    }
}

impl Step<FilterName> {
    #[verifier::opaque]
    pub open spec fn filter_name_input(self, input: Input) -> Option<Step<FilterName>> {
        if same_name(input.name@, "TestActivator"@) {
            let passed = activator_of(self.cx, input) matches Some(other) && self.me.lets_pass(other);
            Some(self.fire(if passed { "OnPass"@ } else { "OnFail"@ }, Variant::Void, input.activator))
        } else {
            None
        }
    }
}

impl FilterName {
    pub fn create() -> (r: FilterName)
        ensures
            r == (FilterName { base: BaseFilter { negated: false }, filter_name: None }),
    {
        FilterName { base: BaseFilter { negated: false }, filter_name: None }
    }

    pub fn key_value(&mut self, key: &str, value: &Value) -> (r: bool)
        ensures
            r == old(self).keyed(key@, *value) is Some,
            *final(self) == old(self).keyed(key@, *value).unwrap_or(*old(self)),
    {
        reveal(FilterName::keyed);
        if key.eq_ignore_ascii_case("filtername") {
            self.filter_name = Some(value.text.clone());
            return true;
        }
        self.base.key_value(key, value.text.as_str())
    }

    /// Whether an entity passes.
    pub fn passes_filter(&self, other: &EntityCore) -> (r: bool)
        ensures
            r == self.lets_pass(other@),
    {
        match &self.filter_name {
            None => self.base.negate(other.name.is_none()),
            Some(want) => {
                let matched = if want.as_str().eq_ignore_ascii_case("!player") {
                    other.has_flags(FL_CLIENT)
                } else {
                    match &other.name {
                        Some(have) => names_match(want.as_str(), have.as_str()),
                        None => false,
                    }
                };
                self.base.negate(matched)
            },
        }
    }

    pub fn accept_input(&mut self, entity: &EntityCore, input: &Input<'_>, cx: &mut Context) -> (r: bool)
        ensures
            answered(
                step(*old(self), entity@, old(cx)@).filter_name_input(*input),
                step(*old(self), entity@, old(cx)@),
                r,
                step(*final(self), entity@, final(cx)@),
            ),
    {
        reveal(Step::<_>::filter_name_input);
        if !input.name.eq_ignore_ascii_case("TestActivator") {
            return false;
        }
        let passed = match input.activator {
            Some(id) => match cx.entity(id) {
                Some(other) => self.passes_filter(&other.core),
                None => false,
            },
            None => false,
        };
        BaseFilter::test_activator(entity, passed, input.activator, cx);
        true
    }
}

/// Passes an entity by its class.
#[derive(Debug)]
pub struct FilterClass {
    pub base: BaseFilter,
    pub filter_class: Option<String>,
}

impl FilterClass {
    #[verifier::opaque]
    pub open spec fn keyed(self, key: Seq<char>, value: Value) -> Option<FilterClass> {
        if same_name(key, "filterclass"@) {
            Some(FilterClass { filter_class: Some(value.text), ..self })
        } else {
            match self.base.keyed(key, value.text@) {
                Some(base) => Some(FilterClass { base, ..self }),
                None => None,
            }
        }
    }

    pub open spec fn lets_pass(self, other: CoreView) -> bool {
        self.base.outcome(self.filter_class matches Some(want) && name_matches(want@, other.classname))
    }
}

impl Step<FilterClass> {
    #[verifier::opaque]
    pub open spec fn filter_class_input(self, input: Input) -> Option<Step<FilterClass>> {
        if same_name(input.name@, "TestActivator"@) {
            let passed = activator_of(self.cx, input) matches Some(other) && self.me.lets_pass(other);
            Some(self.fire(if passed { "OnPass"@ } else { "OnFail"@ }, Variant::Void, input.activator))
        } else {
            None
        }
    }
}

impl FilterClass {
    pub fn create() -> (r: FilterClass)
        ensures
            r == (FilterClass { base: BaseFilter { negated: false }, filter_class: None }),
    {
        FilterClass { base: BaseFilter { negated: false }, filter_class: None }
    }

    pub fn key_value(&mut self, key: &str, value: &Value) -> (r: bool)
        ensures
            r == old(self).keyed(key@, *value) is Some,
            *final(self) == old(self).keyed(key@, *value).unwrap_or(*old(self)),
    {
        reveal(FilterClass::keyed);
        if key.eq_ignore_ascii_case("filterclass") {
            self.filter_class = Some(value.text.clone());
            return true;
        }
        self.base.key_value(key, value.text.as_str())
    }

    /// Whether an entity passes.
    pub fn passes_filter(&self, other: &EntityCore) -> (r: bool)
        ensures
            r == self.lets_pass(other@),
    {
        let matched = match &self.filter_class {
            Some(want) => names_match(want.as_str(), other.classname),
            None => false,
        };
        self.base.negate(matched)
    }

    pub fn accept_input(&mut self, entity: &EntityCore, input: &Input<'_>, cx: &mut Context) -> (r: bool)
        ensures
            answered(
                step(*old(self), entity@, old(cx)@).filter_class_input(*input),
                step(*old(self), entity@, old(cx)@),
                r,
                step(*final(self), entity@, final(cx)@),
            ),
    {
        reveal(Step::<_>::filter_class_input);
        if !input.name.eq_ignore_ascii_case("TestActivator") {
            return false;
        }
        let passed = match input.activator {
            Some(id) => match cx.entity(id) {
                Some(other) => self.passes_filter(&other.core),
                None => false,
            },
            None => false,
        };
        BaseFilter::test_activator(entity, passed, input.activator, cx);
        true
    }
}

/// Passes an entity by its model, compared in full.
#[derive(Debug)]
pub struct FilterModel {
    pub base: BaseFilter,
    pub filter_model: Option<String>,
}

impl FilterModel {
    #[verifier::opaque]
    pub open spec fn keyed(self, key: Seq<char>, value: Value) -> Option<FilterModel> {
        if same_name(key, "model"@) {
            Some(FilterModel { filter_model: Some(value.text), ..self })
        } else {
            match self.base.keyed(key, value.text@) {
                Some(base) => Some(FilterModel { base, ..self }),
                None => None,
            }
        }
    }

    pub open spec fn lets_pass(self, other: CoreView) -> bool {
        let want = match self.filter_model {
            Some(model) => model@,
            None => Seq::empty(),
        };
        let have = match other.model {
            Some(model) => model,
            None => Seq::empty(),
        };
        self.base.outcome(same_name(want, have))
    }
}

impl Step<FilterModel> {
    #[verifier::opaque]
    pub open spec fn filter_model_input(self, input: Input) -> Option<Step<FilterModel>> {
        if same_name(input.name@, "TestActivator"@) {
            let passed = activator_of(self.cx, input) matches Some(other) && self.me.lets_pass(other);
            Some(self.fire(if passed { "OnPass"@ } else { "OnFail"@ }, Variant::Void, input.activator))
        } else {
            None
        }
    }
}

impl FilterModel {
    pub fn create() -> (r: FilterModel)
        ensures
            r == (FilterModel { base: BaseFilter { negated: false }, filter_model: None }),
    {
        FilterModel { base: BaseFilter { negated: false }, filter_model: None }
    }

    pub fn key_value(&mut self, key: &str, value: &Value) -> (r: bool)
        ensures
            r == old(self).keyed(key@, *value) is Some,
            *final(self) == old(self).keyed(key@, *value).unwrap_or(*old(self)),
    {
        reveal(FilterModel::keyed);
        if key.eq_ignore_ascii_case("model") {
            self.filter_model = Some(value.text.clone());
            return true;
        }
        self.base.key_value(key, value.text.as_str())
    }

    /// Whether an entity passes.
    pub fn passes_filter(&self, other: &EntityCore) -> (r: bool)
        ensures
            r == self.lets_pass(other@),
    {
        proof {
            reveal_strlit("");
            assert(""@ =~= Seq::<char>::empty());
        }
        let want: &str = match &self.filter_model {
            Some(model) => model.as_str(),
            None => "",
        };
        let have: &str = match &other.model {
            Some(model) => model.as_str(),
            None => "",
        };
        self.base.negate(want.eq_ignore_ascii_case(have))
    }

    pub fn accept_input(&mut self, entity: &EntityCore, input: &Input<'_>, cx: &mut Context) -> (r: bool)
        ensures
            answered(
                step(*old(self), entity@, old(cx)@).filter_model_input(*input),
                step(*old(self), entity@, old(cx)@),
                r,
                step(*final(self), entity@, final(cx)@),
            ),
    {
        reveal(Step::<_>::filter_model_input);
        if !input.name.eq_ignore_ascii_case("TestActivator") {
            return false;
        }
        let passed = match input.activator {
            Some(id) => match cx.entity(id) {
                Some(other) => self.passes_filter(&other.core),
                None => false,
            },
            None => false,
        };
        BaseFilter::test_activator(entity, passed, input.activator, cx);
        true
    }
}

/// Passes damage by its type, and every entity.
#[derive(Debug, Clone, Copy)]
pub struct FilterDamageType {
    pub base: BaseFilter,
    pub damage_type: i32,
}

impl FilterDamageType {
    #[verifier::opaque]
    pub open spec fn keyed(self, key: Seq<char>, value: Value) -> Option<FilterDamageType> {
        if same_name(key, "damagetype"@) {
            Some(FilterDamageType { damage_type: integer_of(value.text@) as i32, ..self })
        } else {
            match self.base.keyed(key, value.text@) {
                Some(base) => Some(FilterDamageType { base, ..self }),
                None => None,
            }
        }
    }

    pub open spec fn lets_pass(self, other: CoreView) -> bool {
        self.base.outcome(true)
    }
}

impl Step<FilterDamageType> {
    #[verifier::opaque]
    pub open spec fn filter_damage_type_input(self, input: Input) -> Option<Step<FilterDamageType>> {
        if same_name(input.name@, "TestActivator"@) {
            let passed = activator_of(self.cx, input) matches Some(other) && self.me.lets_pass(other);
            Some(self.fire(if passed { "OnPass"@ } else { "OnFail"@ }, Variant::Void, input.activator))
        } else {
            None
        }
    }
}

impl FilterDamageType {
    pub fn create() -> (r: FilterDamageType)
        ensures
            r == (FilterDamageType { base: BaseFilter { negated: false }, damage_type: 0 }),
    {
        FilterDamageType { base: BaseFilter { negated: false }, damage_type: 0 }
    }

    pub fn key_value(&mut self, key: &str, value: &Value) -> (r: bool)
        ensures
            r == old(self).keyed(key@, *value) is Some,
            *final(self) == old(self).keyed(key@, *value).unwrap_or(*old(self)),
    {
        reveal(FilterDamageType::keyed);
        if key.eq_ignore_ascii_case("damagetype") {
            self.damage_type = atoi(value.text.as_str());
            return true;
        }
        self.base.key_value(key, value.text.as_str())
    }

    /// Whether an entity passes.
    pub fn passes_filter(&self, other: &EntityCore) -> (r: bool)
        ensures
            r == self.lets_pass(other@),
    {
        self.base.negate(true)
    }

    pub fn accept_input(&mut self, entity: &EntityCore, input: &Input<'_>, cx: &mut Context) -> (r: bool)
        ensures
            answered(
                step(*old(self), entity@, old(cx)@).filter_damage_type_input(*input),
                step(*old(self), entity@, old(cx)@),
                r,
                step(*final(self), entity@, final(cx)@),
            ),
    {
        reveal(Step::<_>::filter_damage_type_input);
        if !input.name.eq_ignore_ascii_case("TestActivator") {
            return false;
        }
        let passed = match input.activator {
            Some(id) => match cx.entity(id) {
                Some(other) => self.passes_filter(&other.core),
                None => false,
            },
            None => false,
        };
        BaseFilter::test_activator(entity, passed, input.activator, cx);
        true
    }
}

/// Passes what a player holds, which is nothing.
#[derive(Debug, Clone, Copy)]
pub struct FilterPlayerHeld {
    pub base: BaseFilter,
}

impl FilterPlayerHeld {
    #[verifier::opaque]
    pub open spec fn keyed(self, key: Seq<char>, value: Value) -> Option<FilterPlayerHeld> {
        match self.base.keyed(key, value.text@) {
            Some(base) => Some(FilterPlayerHeld { base }),
            None => None,
        }
    }

    pub open spec fn lets_pass(self, other: CoreView) -> bool {
        self.base.outcome(false)
    }
}

impl Step<FilterPlayerHeld> {
    #[verifier::opaque]
    pub open spec fn filter_player_held_input(self, input: Input) -> Option<Step<FilterPlayerHeld>> {
        if same_name(input.name@, "TestActivator"@) {
            let passed = activator_of(self.cx, input) matches Some(other) && self.me.lets_pass(other);
            Some(self.fire(if passed { "OnPass"@ } else { "OnFail"@ }, Variant::Void, input.activator))
        } else {
            None
        }
    }
}

impl FilterPlayerHeld {
    pub fn create() -> (r: FilterPlayerHeld)
        ensures
            r == (FilterPlayerHeld { base: BaseFilter { negated: false } }),
    {
        FilterPlayerHeld { base: BaseFilter { negated: false } }
    }

    pub fn key_value(&mut self, key: &str, value: &Value) -> (r: bool)
        ensures
            r == old(self).keyed(key@, *value) is Some,
            *final(self) == old(self).keyed(key@, *value).unwrap_or(*old(self)),
    {
        reveal(FilterPlayerHeld::keyed);
        self.base.key_value(key, value.text.as_str())
    }

    /// Whether an entity passes.
    pub fn passes_filter(&self, other: &EntityCore) -> (r: bool)
        ensures
            r == self.lets_pass(other@),
    {
        self.base.negate(false)
    }

    pub fn accept_input(&mut self, entity: &EntityCore, input: &Input<'_>, cx: &mut Context) -> (r: bool)
        ensures
            answered(
                step(*old(self), entity@, old(cx)@).filter_player_held_input(*input),
                step(*old(self), entity@, old(cx)@),
                r,
                step(*final(self), entity@, final(cx)@),
            ),
    {
        reveal(Step::<_>::filter_player_held_input);
        if !input.name.eq_ignore_ascii_case("TestActivator") {
            return false;
        }
        let passed = match input.activator {
            Some(id) => match cx.entity(id) {
                Some(other) => self.passes_filter(&other.core),
                None => false,
            },
            None => false,
        };
        BaseFilter::test_activator(entity, passed, input.activator, cx);
        true
    }
}

/// How many filters a combined filter can name.
pub const MAX_FILTERS: usize = 10;

/// A combined filter passes what all of its filters pass. Any other type
/// passes what one of them passes.
pub const FILTER_AND: i32 = 0;

/// Passes what several other filters pass.
#[derive(Debug)]
pub struct FilterMulti {
    pub base: BaseFilter,
    pub filter_type: i32,
    /// The names that the map wrote, one to a numbered key.
    pub names: Vec<Option<String>>,
    /// The filters that the names turned out to be.
    pub filters: Vec<EntityId>,
}

pub struct FilterMultiView {
    pub base: BaseFilter,
    pub filter_type: i32,
    pub names: Seq<Option<Seq<char>>>,
    pub filters: Seq<EntityId>,
}

impl View for FilterMulti {
    type V = FilterMultiView;

    open spec fn view(&self) -> FilterMultiView {
        FilterMultiView {
            base: self.base,
            filter_type: self.filter_type,
            names: self.names@.map_values(|n: Option<String>| text_of(n)),
            filters: self.filters@,
        }
    }
}

/// The key that holds a combined filter's `i`th name.
pub open spec fn filter_key(i: int) -> Seq<char> {
    if i == 0 { "Filter01"@ } else if i == 1 { "Filter02"@ } else if i == 2 { "Filter03"@ } else if i == 3 {
        "Filter04"@
    } else if i == 4 { "Filter05"@ } else if i == 5 { "Filter06"@ } else if i == 6 { "Filter07"@ } else if i == 7 {
        "Filter08"@
    } else if i == 8 { "Filter09"@ } else { "Filter10"@ }
}

/// The key that holds a combined filter's `i`th name.
pub fn filter_key_name(i: usize) -> (r: &'static str)
    ensures
        r@ == filter_key(i as int),
{
    match i {
        0 => "Filter01",
        1 => "Filter02",
        2 => "Filter03",
        3 => "Filter04",
        4 => "Filter05",
        5 => "Filter06",
        6 => "Filter07",
        7 => "Filter08",
        8 => "Filter09",
        _ => "Filter10",
    }
}

/// The first of the keys from the `i`th on that a key is.
pub open spec fn filter_slot(key: Seq<char>, i: int) -> Option<int>
    decreases MAX_FILTERS - i,
{
    if 0 <= i < MAX_FILTERS {
        if same_name(key, filter_key(i)) {
            Some(i)
        } else {
            filter_slot(key, i + 1)
        }
    } else {
        None
    }
}

/// The first entity of a name, if it is a filter.
pub open spec fn filter_named(list: Seq<SlotView>, name: Seq<char>) -> Option<EntityId> {
    match first(found_all(list, Search::Named(name))) {
        Some(id) => match at(list, id) {
            Some(e) => if e.behaviour.filters() { Some(id) } else { None },
            None => None,
        },
        None => None,
    }
}

/// The filters that the first `n` names turn out to be.
pub open spec fn filters_named(list: Seq<SlotView>, names: Seq<Option<Seq<char>>>, n: int) -> Seq<EntityId>
    decreases n,
{
    if n <= 0 {
        Seq::empty()
    } else {
        let before = filters_named(list, names, n - 1);
        match names[n - 1] {
            Some(name) => match filter_named(list, name) {
                Some(id) => before.push(id),
                None => before,
            },
            None => before,
        }
    }
}

/// How deep a chain of filters is followed.
pub const MAX_FILTER_DEPTH: u32 = 8;

/// Whether an entity passes a filter, the filter being `depth` deep in a
/// chain. A handle that does not resolve lets everything pass, and so does a
/// chain too deep to be anything but a circle.
pub open spec fn passes_at(list: Seq<SlotView>, filter: EntityId, other: CoreView, depth: nat) -> bool
    decreases MAX_FILTER_DEPTH + 1 - depth, 0int,
{
    if depth >= MAX_FILTER_DEPTH {
        true
    } else {
        match at(list, filter) {
            Some(e) => lets_pass(list, e.behaviour, other, depth + 1),
            None => true,
        }
    }
}

/// Whether an entity passes a filter's own test. What is no filter lets
/// everything pass.
pub open spec fn lets_pass(list: Seq<SlotView>, behaviour: BehaviourView, other: CoreView, depth: nat) -> bool
    decreases MAX_FILTER_DEPTH + 1 - depth, 1int,
{
    match behaviour {
        BehaviourView::Filter(FilterView::FilterName(f)) => f.lets_pass(other),
        BehaviourView::Filter(FilterView::FilterClass(f)) => f.lets_pass(other),
        BehaviourView::Filter(FilterView::FilterModel(f)) => f.lets_pass(other),
        BehaviourView::Filter(FilterView::FilterDamageType(f)) => f.lets_pass(other),
        BehaviourView::Filter(FilterView::FilterPlayerHeld(f)) => f.lets_pass(other),
        BehaviourView::Filter(FilterView::FilterMulti(f)) => if f.filter_type == FILTER_AND {
            f.base.outcome(
                forall|i: int| 0 <= i < f.filters.len() ==> passes_at(list, #[trigger] f.filters[i], other, depth),
            )
        } else {
            f.base.outcome(
                exists|i: int| 0 <= i < f.filters.len() && passes_at(list, #[trigger] f.filters[i], other, depth),
            )
        },
        _ => true,
    }
}

/// One filter that answers otherwise decides a combined filter.
proof fn odd_one_out(list: Seq<SlotView>, f: FilterMultiView, other: CoreView, depth: nat, i: int)
    requires
        0 <= i < f.filters.len(),
        passes_at(list, f.filters[i], other, depth) != (f.filter_type == FILTER_AND),
    ensures
        lets_pass(list, BehaviourView::Filter(FilterView::FilterMulti(f)), other, depth) == f.base.outcome(
            f.filter_type != FILTER_AND,
        ),
{
    if f.filter_type == FILTER_AND {
        assert(!passes_at(list, f.filters[i], other, depth));
        assert(!(forall|k: int| 0 <= k < f.filters.len() ==> passes_at(list, #[trigger] f.filters[k], other, depth)));
    } else {
        assert(exists|k: int| 0 <= k < f.filters.len() && passes_at(list, #[trigger] f.filters[k], other, depth));
    }
}

/// The entity list, as a chain of filters reads it.
pub struct Filters<'a> {
    pub entities: &'a EntityList,
    /// How deep in a chain this is.
    pub depth: u32,
}

impl<'a> Filters<'a> {
    /// Whether an entity passes a filter.
    pub fn passes(&self, filter: EntityId, other: &EntityCore) -> (r: bool)
        ensures
            r == passes_at(self.entities@, filter, other@, self.depth as nat),
        decreases MAX_FILTER_DEPTH + 1 - self.depth, 0int,
    {
        if self.depth >= MAX_FILTER_DEPTH {
            return true;
        }
        match self.entities.get(filter) {
            Some(entity) => {
                let deeper = Filters { entities: self.entities, depth: self.depth + 1 };
                deeper.asks(&entity.behaviour, other)
            },
            None => true,
        }
    }

    /// Whether an entity passes a filter's own test.
    pub fn asks(&self, behaviour: &Behaviour, other: &EntityCore) -> (r: bool)
        ensures
            r == lets_pass(self.entities@, behaviour@, other@, self.depth as nat),
        decreases MAX_FILTER_DEPTH + 1 - self.depth, 2int,
    {
        reveal(filter_view);
        match behaviour {
            Behaviour::Filter(Filter::FilterName(f)) => f.passes_filter(other),
            Behaviour::Filter(Filter::FilterClass(f)) => f.passes_filter(other),
            Behaviour::Filter(Filter::FilterModel(f)) => f.passes_filter(other),
            Behaviour::Filter(Filter::FilterDamageType(f)) => f.passes_filter(other),
            Behaviour::Filter(Filter::FilterPlayerHeld(f)) => f.passes_filter(other),
            Behaviour::Filter(Filter::FilterMulti(f)) => f.passes_filter(other, self),
            _ => true,
        }
    }

    /// The first entity of a name, if it is a filter.
    pub fn find(&self, name: &str) -> (r: Option<EntityId>)
        ensures
            r == filter_named(self.entities@, name@),
    {
        match self.entities.find_by_name(name) {
            Some(id) => match self.entities.get(id) {
                Some(entity) => if entity.behaviour.is_filter() {
                    Some(id)
                } else {
                    None
                },
                None => None,
            },
            None => None,
        }
    }
}

impl FilterMultiView {
    pub open spec fn fresh() -> FilterMultiView {
        FilterMultiView {
            base: BaseFilter { negated: false },
            filter_type: 0,
            names: Seq::new(MAX_FILTERS as nat, |i: int| None),
            filters: Seq::empty(),
        }
    }

    pub open spec fn wf(self) -> bool {
        self.names.len() == MAX_FILTERS
    }

    #[verifier::opaque]
    pub open spec fn keyed(self, key: Seq<char>, value: Value) -> Option<FilterMultiView> {
        if same_name(key, "FilterType"@) {
            Some(FilterMultiView { filter_type: integer_of(value.text@) as i32, ..self })
        } else {
            match filter_slot(key, 0) {
                Some(i) => Some(FilterMultiView { names: self.names.update(i, Some(value.text@)), ..self }),
                None => match self.base.keyed(key, value.text@) {
                    Some(base) => Some(FilterMultiView { base, ..self }),
                    None => None,
                },
            }
        }
    }
}

impl Step<FilterMultiView> {
    #[verifier::opaque]
    pub open spec fn filter_multi_input(self, input: Input) -> Option<Step<FilterMultiView>> {
        if same_name(input.name@, "TestActivator"@) {
            let passed = activator_of(self.cx, input) matches Some(other) && lets_pass(
                self.cx.entities,
                BehaviourView::Filter(FilterView::FilterMulti(self.me)),
                other,
                0,
            );
            Some(self.fire(if passed { "OnPass"@ } else { "OnFail"@ }, Variant::Void, input.activator))
        } else {
            None
        }
    }
}

impl FilterMulti {
    pub fn create() -> (r: FilterMulti)
        ensures
            r@ == FilterMultiView::fresh(),
            r@.wf(),
    {
        let mut names: Vec<Option<String>> = Vec::new();
        let mut i: usize = 0;
        while i < MAX_FILTERS
            invariant
                i <= MAX_FILTERS,
                names@.len() == i,
                forall|k: int| 0 <= k < i ==> names@[k] is None,
            decreases MAX_FILTERS - i,
        {
            names.push(None);
            i = i + 1;
        }
        let r = FilterMulti {
            base: BaseFilter { negated: false },
            filter_type: 0,
            names,
            filters: Vec::new(),
        };
        assert(r@.names =~= FilterMultiView::fresh().names);
        assert(r@.filters =~= Seq::empty());
        r
    }

    pub fn key_value(&mut self, key: &str, value: &Value) -> (r: bool)
        requires
            old(self)@.wf(),
        ensures
            r == old(self)@.keyed(key@, *value) is Some,
            final(self)@ == old(self)@.keyed(key@, *value).unwrap_or(old(self)@),
            final(self)@.wf(),
    {
        reveal(FilterMultiView::keyed);
        if key.eq_ignore_ascii_case("FilterType") {
            self.filter_type = atoi(value.text.as_str());
            return true;
        }
        let mut i: usize = 0;
        while i < MAX_FILTERS
            invariant
                i <= MAX_FILTERS,
                *self == *old(self),
                self@.wf(),
                !same_name(key@, "FilterType"@),
                filter_slot(key@, 0) == filter_slot(key@, i as int),
            decreases MAX_FILTERS - i,
        {
            if key.eq_ignore_ascii_case(filter_key_name(i)) {
                reveal(FilterMultiView::keyed);
                self.names.set(i, Some(value.text.clone()));
                assert(self@.names =~= old(self)@.names.update(i as int, Some(value.text@)));
                return true;
            }
            i = i + 1;
        }
        self.base.key_value(key, value.text.as_str())
    }

    /// Finds the filters that it names.
    pub fn activate(&mut self, cx: &Context)
        requires
            old(self)@.wf(),
        ensures
            final(self)@ == (FilterMultiView {
                filters: filters_named(cx@.entities, old(self)@.names, MAX_FILTERS as int),
                ..old(self)@
            }),
    {
        let filters = cx.filters();
        let mut found: Vec<EntityId> = Vec::new();
        let mut n: usize = 0;
        while n < self.names.len()
            invariant
                n <= self.names.len(),
                *self == *old(self),
                self@.wf(),
                filters.entities@ == cx@.entities,
                found@ == filters_named(cx@.entities, self@.names, n as int),
            decreases self.names.len() - n,
        {
            assert(self@.names[n as int] == text_of(self.names@[n as int]));
            match &self.names[n] {
                Some(name) => {
                    match filters.find(name.as_str()) {
                        Some(id) => found.push(id),
                        None => {}
                    }
                }
                None => {}
            }
            n = n + 1;
        }
        self.filters = found;
    }

    pub fn accept_input(&mut self, entity: &EntityCore, input: &Input<'_>, cx: &mut Context) -> (r: bool)
        ensures
            answered(
                step(old(self)@, entity@, old(cx)@).filter_multi_input(*input),
                step(old(self)@, entity@, old(cx)@),
                r,
                step(final(self)@, entity@, final(cx)@),
            ),
            final(self)@ == old(self)@,
    {
        reveal(Step::<_>::filter_multi_input);
        if !input.name.eq_ignore_ascii_case("TestActivator") {
            return false;
        }
        let passed = match input.activator {
            Some(id) => match cx.entity(id) {
                Some(other) => self.passes_filter(&other.core, &cx.filters()),
                None => false,
            },
            None => false,
        };
        BaseFilter::test_activator(entity, passed, input.activator, cx);
        true
    }

    /// Whether an entity passes.
    pub fn passes_filter(&self, other: &EntityCore, filters: &Filters<'_>) -> (r: bool)
        ensures
            r == lets_pass(
                filters.entities@,
                BehaviourView::Filter(FilterView::FilterMulti(self@)),
                other@,
                filters.depth as nat,
            ),
        decreases MAX_FILTER_DEPTH + 1 - filters.depth, 1int,
    {
        let all = self.filter_type == FILTER_AND;
        let mut i: usize = 0;
        while i < self.filters.len()
            invariant
                i <= self.filters.len(),
                all == (self.filter_type == FILTER_AND),
                forall|k: int|
                    0 <= k < i ==> passes_at(
                        filters.entities@,
                        #[trigger] self.filters@[k],
                        other@,
                        filters.depth as nat,
                    ) == all,
            decreases self.filters.len() - i,
        {
            if filters.passes(self.filters[i], other) != all {
                proof {
                    odd_one_out(filters.entities@, self@, other@, filters.depth as nat, i as int);
                }
                return self.base.negate(!all);
            }
            i = i + 1;
        }
        self.base.negate(all)
    }
}

/// Whether damage passes a filter: by its type, or by who dealt it.
pub open spec fn lets_damage_pass(cx: ContextView, behaviour: BehaviourView, info: DamageInfo) -> bool {
    match behaviour {
        BehaviourView::Filter(FilterView::FilterDamageType(f)) => f.base.outcome(info.damage_type & !DMG_DIRECT == f.damage_type),
        _ => match info.attacker {
            Some(id) => match cx.at(id) {
                Some(attacker) => lets_pass(cx.entities, behaviour, attacker.core, 0),
                None => false,
            },
            None => false,
        },
    }
}

impl FilterDamageType {
    /// Whether damage is of the type that passes.
    pub fn passes_damage_filter(&self, info: &DamageInfo) -> (r: bool)
        ensures
            r == self.base.outcome(info.damage_type & !DMG_DIRECT == self.damage_type),
    {
        self.base.negate((info.damage_type & !DMG_DIRECT) == self.damage_type)
    }
}

impl Behaviour {
    /// Whether damage passes this filter.
    pub fn passes_damage_filter(&self, info: &DamageInfo, cx: &Context) -> (r: bool)
        ensures
            r == lets_damage_pass(cx@, self@, *info),
    {
        reveal(filter_view);
        match self {
            Behaviour::Filter(Filter::FilterDamageType(f)) => f.passes_damage_filter(info),
            _ => match info.attacker {
                Some(id) => match cx.entity(id) {
                    Some(attacker) => cx.filters().asks(self, &attacker.core),
                    None => false,
                },
                None => false,
            },
        }
    }
}

impl Context {
    /// The entity list, as a chain of filters reads it.
    pub fn filters(&self) -> (r: Filters<'_>)
        ensures
            r.entities@ == self@.entities,
            r.depth == 0,
    {
        Filters { entities: &self.entities, depth: 0 }
    }

    /// Deals damage to an entity, if it takes any and its filter lets it
    /// through. It is queued, not applied.
    pub fn take_damage(&mut self, target: EntityId, info: DamageInfo) -> (r: bool)
        ensures
            r == old(self)@.hurtable(target, info),
            final(self)@ == old(self)@.hurting(target, info),
    {
        match self.entities.get(target) {
            Some(entity) => {
                if !entity.core.vitals.take_damage.takes_damage() {
                    return false;
                }
                match entity.core.vitals.damage_filter {
                    Some(filter) => match self.entities.get(filter) {
                        Some(filter_entity) => {
                            if !filter_entity.behaviour.passes_damage_filter(&info, &*self) {
                                return false;
                            }
                        }
                        None => {
                            return false;
                        }
                    },
                    None => {}
                }
            }
            None => {
                return false;
            }
        }
        self.outbox.damage.push((target, info));
        true
    }
}

impl ContextView {
    /// Whether damage reaches an entity.
    pub open spec fn hurtable(self, target: EntityId, info: DamageInfo) -> bool {
        match self.at(target) {
            Some(e) => e.core.vitals.take_damage.open_to_damage() && match e.core.vitals.damage_filter {
                Some(filter) => match self.at(filter) {
                    Some(f) => lets_damage_pass(self, f.behaviour, info),
                    None => false,
                },
                None => true,
            },
            None => false,
        }
    }

    /// The server after damage was dealt: queued, if it reaches its target.
    pub open spec fn hurting(self, target: EntityId, info: DamageInfo) -> ContextView {
        if self.hurtable(target, info) {
            self.with_outbox(OutboxView { damage: self.outbox.damage.push((target, info)), ..self.outbox })
        } else {
            self
        }
    }
}

/// A filter turned round passes exactly what it did not pass.
pub proof fn negation_turns_a_filter_round(base: BaseFilter, matched: bool)
    ensures
        (BaseFilter { negated: !base.negated }).outcome(matched) == !base.outcome(matched),
{
}

/// A combined filter of no filters passes everything if all are asked for, and
/// nothing if one is; turned round, the other way about.
pub proof fn a_combination_of_nothing(list: Seq<SlotView>, f: FilterMultiView, other: CoreView, depth: nat)
    requires
        f.filters.len() == 0,
    ensures
        lets_pass(list, BehaviourView::Filter(FilterView::FilterMulti(f)), other, depth) == f.base.outcome(
            f.filter_type == FILTER_AND,
        ),
{
}

/// A handle that does not resolve, and a chain too deep, let everything pass.
pub proof fn a_missing_filter_passes_everything(list: Seq<SlotView>, filter: EntityId, other: CoreView, depth: nat)
    requires
        at(list, filter) is None || depth >= MAX_FILTER_DEPTH,
    ensures
        passes_at(list, filter, other, depth),
{
}

} // verus!
