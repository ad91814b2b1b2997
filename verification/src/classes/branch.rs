//! Branches, which hold a truth value, and the listeners that compare several
//! of them.
use vstd::prelude::*;

use crate::behaviour::{logic_view, Behaviour, BehaviourView, Logic, LogicView};
use crate::context::{Context, ContextView};
use crate::entity::{text_of, EntityCore, EntityId};
use crate::io::{Input, Value, Variant};
use crate::list::{contains_id, found_all, remove_id, without, Search};
use crate::scalar::{num, ZERO};
use crate::step::{answered, step, Step};
use crate::text::{atoi, integer_of, same_name, same_text};

verus! {

// ---------------------------------------------------------------------------
// logic_branch
// ---------------------------------------------------------------------------

/// A truth value, and who is told when it changes.
#[derive(Debug)]
pub struct Branch {
    pub value: bool,
    pub listeners: Vec<EntityId>,
}

pub struct BranchView {
    pub value: bool,
    pub listeners: Seq<EntityId>,
}

impl View for Branch {
    type V = BranchView;

    open spec fn view(&self) -> BranchView {
        BranchView { value: self.value, listeners: self.listeners@ }
    }
}

impl BranchView {
    #[verifier::opaque]
    pub open spec fn keyed(self, key: Seq<char>, value: Value) -> Option<BranchView> {
        if same_name(key, "InitialValue"@) {
            Some(BranchView { value: integer_of(value.text@) != 0, ..self })
        } else {
            None
        }
    }

    /// With one more listener, unless it listens already.
    pub open spec fn heard_by(self, listener: EntityId) -> BranchView {
        if self.listeners.contains(listener) {
            self
        } else {
            BranchView { listeners: self.listeners.push(listener), ..self }
        }
    }
}

/// The server once the first `n` listeners have been told of a change.
pub open spec fn told(cx: ContextView, listeners: Seq<EntityId>, me: EntityId, n: int) -> ContextView
    decreases n,
{
    if n <= 0 {
        cx
    } else {
        told(cx, listeners, me, n - 1).sent(
            listeners[n - 1],
            "_OnLogicBranchChanged"@,
            Variant::Void,
            num(ZERO),
            Some(me),
            Some(me),
        )
    }
}

impl Step<BranchView> {
    /// The branch set. Its listeners hear of it if that is a change; its
    /// output goes off if asked for.
    pub open spec fn updated(self, new: bool, fire: bool, activator: Option<EntityId>) -> Step<BranchView> {
        let set = if self.me.value == new {
            self
        } else {
            self.with(BranchView { value: new, ..self.me }).with_cx(
                told(self.cx, self.me.listeners, self.core.id, self.me.listeners.len() as int),
            )
        };
        if fire {
            set.fire(if new { "OnTrue"@ } else { "OnFalse"@ }, Variant::Void, activator)
        } else {
            set
        }
    }

    #[verifier::opaque]
    pub open spec fn branch_input(self, input: Input) -> Option<Step<BranchView>> {
        let name = input.name@;
        if same_name(name, "SetValue"@) {
            Some(self.updated(input.value.truth(), false, input.activator))
        } else if same_name(name, "SetValueTest"@) {
            Some(self.updated(input.value.truth(), true, input.activator))
        } else if same_name(name, "Toggle"@) {
            Some(self.updated(!self.me.value, false, input.activator))
        } else if same_name(name, "ToggleTest"@) {
            Some(self.updated(!self.me.value, true, input.activator))
        } else if same_name(name, "Test"@) {
            Some(self.updated(self.me.value, true, input.activator))
        } else {
            None
        }
    }
}

impl Branch {
    pub fn create() -> (r: Branch)
        ensures
            r@ == (BranchView { value: false, listeners: Seq::empty() }),
    {
        let r = Branch { value: false, listeners: Vec::new() };
        assert(r@.listeners =~= Seq::empty());
        r
    }

    /// Adds a listener, once.
    pub fn add_listener(&mut self, listener: EntityId)
        ensures
            final(self)@ == old(self)@.heard_by(listener),
    {
        if !contains_id(&self.listeners, listener) {
            self.listeners.push(listener);
        }
    }

    pub fn update(&mut self, entity: &EntityCore, new: bool, fire: bool, activator: Option<EntityId>, cx: &mut Context)
        ensures
            step(final(self)@, entity@, final(cx)@) == step(old(self)@, entity@, old(cx)@).updated(
                new,
                fire,
                activator,
            ),
    {
        let me = entity.id();
        if self.value != new {
            self.value = new;
            let mut i: usize = 0;
            while i < self.listeners.len()
                invariant
                    i <= self.listeners.len(),
                    me == entity@.id,
                    self.listeners == old(self).listeners,
                    self.value == new,
                    cx@ == told(old(cx)@, self.listeners@, me, i as int),
                decreases self.listeners.len() - i,
            {
                cx.post_entity(
                    self.listeners[i],
                    "_OnLogicBranchChanged",
                    Variant::Void,
                    num(ZERO),
                    Some(me),
                    Some(me),
                );
                i = i + 1;
            }
        }
        if !fire {
            return;
        }
        let output = if self.value {
            "OnTrue"
        } else {
            "OnFalse"
        };
        entity.fire_output(output, Variant::Void, activator, Some(me), num(ZERO), cx);
    }

    pub fn key_value(&mut self, key: &str, value: &Value) -> (r: bool)
        ensures
            r == old(self)@.keyed(key@, *value) is Some,
            final(self)@ == old(self)@.keyed(key@, *value).unwrap_or(old(self)@),
    {
        reveal(BranchView::keyed);
        if key.eq_ignore_ascii_case("InitialValue") {
            self.value = atoi(value.text.as_str()) != 0;
            return true;
        }
        false
    }

    pub fn accept_input(&mut self, entity: &EntityCore, input: &Input<'_>, cx: &mut Context) -> (r: bool)
        ensures
            answered(
                step(old(self)@, entity@, old(cx)@).branch_input(*input),
                step(old(self)@, entity@, old(cx)@),
                r,
                step(final(self)@, entity@, final(cx)@),
            ),
    {
        reveal(Step::<_>::branch_input);
        let name = input.name;
        if name.eq_ignore_ascii_case("SetValue") {
            let value = input.value.bool();
            self.update(entity, value, false, input.activator, cx);
        } else if name.eq_ignore_ascii_case("SetValueTest") {
            let value = input.value.bool();
            self.update(entity, value, true, input.activator, cx);
        } else if name.eq_ignore_ascii_case("Toggle") {
            let value = !self.value;
            self.update(entity, value, false, input.activator, cx);
        } else if name.eq_ignore_ascii_case("ToggleTest") {
            let value = !self.value;
            self.update(entity, value, true, input.activator, cx);
        } else if name.eq_ignore_ascii_case("Test") {
            let value = self.value;
            self.update(entity, value, true, input.activator, cx);
        } else {
            return false;
        }
        true
    }
}

// ---------------------------------------------------------------------------
// logic_branch_listener
// ---------------------------------------------------------------------------

/// How many branches a listener can name.
pub const MAX_LOGIC_BRANCH_NAMES: usize = 16;

/// What a listener's branches came to.
#[derive(Debug, Clone, Copy, PartialEq, Eq, Structural)]
pub enum BranchState {
    NotInit,
    AllTrue,
    AllFalse,
    Mixed,
}

impl BranchState {
    pub open spec fn word(self) -> Seq<char> {
        match self {
            BranchState::NotInit => "not-init"@,
            BranchState::AllTrue => "all-true"@,
            BranchState::AllFalse => "all-false"@,
            BranchState::Mixed => "mixed"@,
        }
    }

    pub fn name(self) -> (r: &'static str)
        ensures
            r@ == self.word(),
    {
        match self {
            BranchState::NotInit => "not-init",
            BranchState::AllTrue => "all-true",
            BranchState::AllFalse => "all-false",
            BranchState::Mixed => "mixed",
        }
    }

    /// The output that tells of a state.
    pub open spec fn output(self) -> Seq<char> {
        match self {
            BranchState::AllTrue => "OnAllTrue"@,
            BranchState::AllFalse => "OnAllFalse"@,
            _ => "OnMixed"@,
        }
    }
}

/// Compares branches and fires when what they come to changes.
#[derive(Debug)]
pub struct BranchList {
    /// The names that the map wrote, one to a numbered key.
    pub names: Vec<Option<String>>,
    /// The branches that the names turned out to be.
    pub branches: Vec<EntityId>,
    pub last: BranchState,
}

pub struct BranchListView {
    pub names: Seq<Option<Seq<char>>>,
    pub branches: Seq<EntityId>,
    pub last: BranchState,
}

impl View for BranchList {
    type V = BranchListView;

    open spec fn view(&self) -> BranchListView {
        BranchListView {
            names: self.names@.map_values(|n: Option<String>| text_of(n)),
            branches: self.branches@,
            last: self.last,
        }
    }
}

/// The key that holds a listener's `i`th name.
pub open spec fn branch_key(i: int) -> Seq<char> {
    if i == 0 { "Branch01"@ } else if i == 1 { "Branch02"@ } else if i == 2 { "Branch03"@ } else if i == 3 {
        "Branch04"@
    } else if i == 4 { "Branch05"@ } else if i == 5 { "Branch06"@ } else if i == 6 { "Branch07"@ } else if i == 7 {
        "Branch08"@
    } else if i == 8 { "Branch09"@ } else if i == 9 { "Branch10"@ } else if i == 10 { "Branch11"@ } else if i == 11 {
        "Branch12"@
    } else if i == 12 { "Branch13"@ } else if i == 13 { "Branch14"@ } else if i == 14 { "Branch15"@ } else {
        "Branch16"@
    }
}

/// The key that holds a listener's `i`th name.
pub fn branch_key_name(i: usize) -> (r: &'static str)
    ensures
        r@ == branch_key(i as int),
{
    match i {
        0 => "Branch01",
        1 => "Branch02",
        2 => "Branch03",
        3 => "Branch04",
        4 => "Branch05",
        5 => "Branch06",
        6 => "Branch07",
        7 => "Branch08",
        8 => "Branch09",
        9 => "Branch10",
        10 => "Branch11",
        11 => "Branch12",
        12 => "Branch13",
        13 => "Branch14",
        14 => "Branch15",
        _ => "Branch16",
    }
}

/// The first of the keys from the `i`th on that a key is.
pub open spec fn branch_slot(key: Seq<char>, i: int) -> Option<int>
    decreases MAX_LOGIC_BRANCH_NAMES - i,
{
    if 0 <= i < MAX_LOGIC_BRANCH_NAMES {
        if same_name(key, branch_key(i)) {
            Some(i)
        } else {
            branch_slot(key, i + 1)
        }
    } else {
        None
    }
}

/// Whether a handle resolves to a branch that is true.
pub open spec fn branch_is_true(cx: ContextView, id: EntityId) -> bool {
    cx.at(id) matches Some(e) && e.behaviour matches BehaviourView::Logic(LogicView::Branch(b)) && b.value
}

/// What some branches come to: all true, all false, or mixed. None at all are
/// mixed.
pub open spec fn branches_come_to(cx: ContextView, branches: Seq<EntityId>) -> BranchState {
    let one_true = exists|i: int| 0 <= i < branches.len() && branch_is_true(cx, #[trigger] branches[i]);
    let one_false = exists|i: int| 0 <= i < branches.len() && !branch_is_true(cx, #[trigger] branches[i]);
    if one_true && !one_false {
        BranchState::AllTrue
    } else if one_false && !one_true {
        BranchState::AllFalse
    } else {
        BranchState::Mixed
    }
}

impl BranchListView {
    pub open spec fn fresh() -> BranchListView {
        BranchListView {
            names: Seq::new(MAX_LOGIC_BRANCH_NAMES as nat, |i: int| None),
            branches: Seq::empty(),
            last: BranchState::NotInit,
        }
    }

    pub open spec fn wf(self) -> bool {
        self.names.len() == MAX_LOGIC_BRANCH_NAMES
    }

    #[verifier::opaque]
    pub open spec fn keyed(self, key: Seq<char>, value: Value) -> Option<BranchListView> {
        match branch_slot(key, 0) {
            Some(i) => Some(BranchListView { names: self.names.update(i, Some(value.text@)), ..self }),
            None => None,
        }
    }
}

impl Step<BranchListView> {
    /// Every branch among the first `n` handles taken in: it learns of this
    /// listener, and the listener of it.
    pub open spec fn hooked(self, ids: Seq<EntityId>, n: int) -> Step<BranchListView>
        decreases n,
    {
        if n <= 0 {
            self
        } else {
            let before = self.hooked(ids, n - 1);
            let id = ids[n - 1];
            match before.cx.at(id) {
                Some(e) => if e.core.classname == "logic_branch"@ {
                    let noted = before.cx.noting(id);
                    let cx = match e.behaviour {
                        BehaviourView::Logic(LogicView::Branch(b)) => noted.with_behaviour(
                            id,
                            BehaviourView::Logic(LogicView::Branch(b.heard_by(self.core.id))),
                        ),
                        other => noted.with_behaviour(id, other),
                    };
                    before.with_cx(cx).with(
                        BranchListView { branches: before.me.branches.push(id), ..before.me },
                    )
                } else {
                    before
                },
                None => before,
            }
        }
    }

    /// The branches of the first `n` names taken in.
    pub open spec fn activated(self, n: int) -> Step<BranchListView>
        decreases n,
    {
        if n <= 0 {
            self
        } else {
            let before = self.activated(n - 1);
            match self.me.names[n - 1] {
                Some(name) => {
                    let ids = found_all(before.cx.entities, Search::Named(name));
                    before.hooked(ids, ids.len() as int)
                },
                None => before,
            }
        }
    }

    /// The branches compared, and the output that tells of it if that is news.
    pub open spec fn tested(self, activator: Option<EntityId>) -> Step<BranchListView> {
        let state = branches_come_to(self.cx, self.me.branches);
        if state == self.me.last {
            self
        } else {
            self.with(BranchListView { last: state, ..self.me }).fire(state.output(), Variant::Void, activator)
        }
    }

    #[verifier::opaque]
    pub open spec fn branch_list_input(self, input: Input) -> Option<Step<BranchListView>> {
        let name = input.name@;
        if same_name(name, "Test"@) {
            Some(self.with(BranchListView { last: BranchState::NotInit, ..self.me }).tested(input.activator))
        } else if same_name(name, "_OnLogicBranchChanged"@) {
            Some(self.tested(input.activator))
        } else if same_name(name, "_OnLogicBranchRemoved"@) {
            let branches = match input.activator {
                Some(dead) => without(self.me.branches, dead, self.me.branches.len() as int),
                None => self.me.branches,
            };
            Some(self.with(BranchListView { branches, ..self.me }).tested(input.activator))
        } else {
            None
        }
    }
}

impl BranchList {
    pub fn create() -> (r: BranchList)
        ensures
            r@ == BranchListView::fresh(),
            r@.wf(),
    {
        let mut names: Vec<Option<String>> = Vec::new();
        let mut i: usize = 0;
        while i < MAX_LOGIC_BRANCH_NAMES
            invariant
                i <= MAX_LOGIC_BRANCH_NAMES,
                names@.len() == i,
                forall|k: int| 0 <= k < i ==> names@[k] is None,
            decreases MAX_LOGIC_BRANCH_NAMES - i,
        {
            names.push(None);
            i = i + 1;
        }
        let r = BranchList { names, branches: Vec::new(), last: BranchState::NotInit };
        assert(r@.names =~= BranchListView::fresh().names);
        assert(r@.branches =~= Seq::empty());
        r
    }

    /// The branches that it listens to.
    pub fn branches(&self) -> (r: &Vec<EntityId>)
        ensures
            r@ == self@.branches,
    {
        &self.branches
    }

    /// What the branches last came to.
    pub fn state(&self) -> (r: &'static str)
        ensures
            r@ == self@.last.word(),
    {
        self.last.name()
    }

    pub fn do_test(&mut self, entity: &EntityCore, activator: Option<EntityId>, cx: &mut Context)
        ensures
            step(final(self)@, entity@, final(cx)@) == step(old(self)@, entity@, old(cx)@).tested(activator),
    {
        let mut one_true = false;
        let mut one_false = false;
        let mut i: usize = 0;
        while i < self.branches.len()
            invariant
                i <= self.branches.len(),
                *self == *old(self),
                *cx == *old(cx),
                one_true == exists|k: int| 0 <= k < i && branch_is_true(cx@, #[trigger] self.branches@[k]),
                one_false == exists|k: int| 0 <= k < i && !branch_is_true(cx@, #[trigger] self.branches@[k]),
            decreases self.branches.len() - i,
        {
            reveal(logic_view);
            let value = match cx.entity(self.branches[i]) {
                Some(other) => match &other.behaviour {
                    Behaviour::Logic(Logic::Branch(branch)) => branch.value,
                    _ => false,
                },
                None => false,
            };
            assert(value == branch_is_true(cx@, self.branches@[i as int]));
            if value {
                one_true = true;
            } else {
                one_false = true;
            }
            i = i + 1;
        }
        let state = if one_true && !one_false {
            BranchState::AllTrue
        } else if one_false && !one_true {
            BranchState::AllFalse
        } else {
            BranchState::Mixed
        };
        assert(state == branches_come_to(cx@, self@.branches));
        if state == self.last {
            return;
        }
        self.last = state;
        let output = match state {
            BranchState::AllTrue => "OnAllTrue",
            BranchState::AllFalse => "OnAllFalse",
            _ => "OnMixed",
        };
        entity.fire_output(output, Variant::Void, activator, Some(entity.id()), num(ZERO), cx);
    }

    pub fn key_value(&mut self, key: &str, value: &Value) -> (r: bool)
        requires
            old(self)@.wf(),
        ensures
            r == old(self)@.keyed(key@, *value) is Some,
            final(self)@ == old(self)@.keyed(key@, *value).unwrap_or(old(self)@),
            final(self)@.wf(),
    {
        reveal(BranchListView::keyed);
        let mut i: usize = 0;
        while i < MAX_LOGIC_BRANCH_NAMES
            invariant
                i <= MAX_LOGIC_BRANCH_NAMES,
                *self == *old(self),
                self@.wf(),
                branch_slot(key@, 0) == branch_slot(key@, i as int),
            decreases MAX_LOGIC_BRANCH_NAMES - i,
        {
            if key.eq_ignore_ascii_case(branch_key_name(i)) {
                reveal(BranchListView::keyed);
                self.names.set(i, Some(value.text.clone()));
                assert(self@.names =~= old(self)@.names.update(i as int, Some(value.text@)));
                return true;
            }
            i = i + 1;
        }
        false
    }

    /// Finds the branches that it names, and has them tell of every change.
    pub fn activate(&mut self, entity: &EntityCore, cx: &mut Context)
        requires
            old(self)@.wf(),
        ensures
            step(final(self)@, entity@, final(cx)@) == step(old(self)@, entity@, old(cx)@).activated(
                MAX_LOGIC_BRANCH_NAMES as int,
            ),
    {
        let ghost start = step(self@, entity@, cx@);
        let mut n: usize = 0;
        while n < self.names.len()
            invariant
                n <= self.names.len(),
                self.names@.len() == MAX_LOGIC_BRANCH_NAMES,
                self.names == old(self).names,
                start.me.names == old(self)@.names,
                start.core == entity@,
                step(self@, entity@, cx@) == start.activated(n as int),
            decreases self.names.len() - n,
        {
            assert(start.me.names[n as int] == text_of(self.names@[n as int]));
            match &self.names[n] {
                Some(name) => {
                    let ids = cx.find_all_by_name(name.as_str());
                    self.hook(entity, &ids, cx);
                }
                None => {}
            }
            n = n + 1;
        }
    }

    /// Takes in the branches among some entities.
    fn hook(&mut self, entity: &EntityCore, ids: &Vec<EntityId>, cx: &mut Context)
        ensures
            step(final(self)@, entity@, final(cx)@) == step(old(self)@, entity@, old(cx)@).hooked(
                ids@,
                ids@.len() as int,
            ),
            final(self).names == old(self).names,
    {
        let ghost start = step(self@, entity@, cx@);
        let me = entity.id();
        let mut i: usize = 0;
        while i < ids.len()
            invariant
                i <= ids.len(),
                me == start.core.id,
                start.core == entity@,
                self.names == old(self).names,
                step(self@, entity@, cx@) == start.hooked(ids@, i as int),
            decreases ids.len() - i,
        {
            let id = ids[i];
            let is_branch = match cx.entity(id) {
                Some(other) => same_text(other.core.classname, "logic_branch"),
                None => false,
            };
            if is_branch {
                reveal(logic_view);
                match cx.behaviour_mut(id) {
                    Some(behaviour) => {
                        match behaviour {
                            Behaviour::Logic(Logic::Branch(branch)) => {
                                branch.add_listener(me);
                            }
                            _ => {}
                        }
                    }
                    None => {}
                }
                self.branches.push(id);
            }
            i = i + 1;
        }
    }

    pub fn accept_input(&mut self, entity: &EntityCore, input: &Input<'_>, cx: &mut Context) -> (r: bool)
        ensures
            answered(
                step(old(self)@, entity@, old(cx)@).branch_list_input(*input),
                step(old(self)@, entity@, old(cx)@),
                r,
                step(final(self)@, entity@, final(cx)@),
            ),
            final(self)@.names == old(self)@.names,
    {
        reveal(Step::<_>::branch_list_input);
        let name = input.name;
        if name.eq_ignore_ascii_case("Test") {
            self.last = BranchState::NotInit;
            self.do_test(entity, input.activator, cx);
        } else if name.eq_ignore_ascii_case("_OnLogicBranchChanged") {
            self.do_test(entity, input.activator, cx);
        } else if name.eq_ignore_ascii_case("_OnLogicBranchRemoved") {
            match input.activator {
                Some(dead) => remove_id(&mut self.branches, dead),
                None => {}
            }
            self.do_test(entity, input.activator, cx);
        } else {
            return false;
        }
        true
    }
}

} // verus!
