//! Cases, which pick one of sixteen outputs, and the proxy that passes an
//! instance's relays on.
use vstd::prelude::*;

use crate::class::SpawnResult;
use crate::context::Context;
use crate::entity::{text_of, CoreView, EntityCore, EntityId};
use crate::io::{Input, Value, Variant};
use crate::scalar::{num, ZERO};
use crate::step::{answered, step, Step};
use crate::text::same_name;

verus! {

// ---------------------------------------------------------------------------
// logic_case
// ---------------------------------------------------------------------------

/// How many cases there are.
pub const MAX_LOGIC_CASES: usize = 16;

/// Compares a value with up to sixteen texts, or picks among the cases that
/// something is connected to.
#[derive(Debug)]
pub struct Case {
    pub cases: Vec<Option<String>>,
    /// The cases that a shuffle has yet to deal.
    pub deck: Vec<u8>,
    /// The case that a shuffle dealt last.
    pub last: Option<u8>,
}

pub struct CaseView {
    pub cases: Seq<Option<Seq<char>>>,
    pub deck: Seq<u8>,
    pub last: Option<u8>,
}

impl View for Case {
    type V = CaseView;

    open spec fn view(&self) -> CaseView {
        CaseView {
            cases: self.cases@.map_values(|c: Option<String>| text_of(c)),
            deck: self.deck@,
            last: self.last,
        }
    }
}

/// The key that holds the `i`th case.
pub open spec fn case_key(i: int) -> Seq<char> {
    if i == 0 { "Case01"@ } else if i == 1 { "Case02"@ } else if i == 2 { "Case03"@ } else if i == 3 {
        "Case04"@
    } else if i == 4 { "Case05"@ } else if i == 5 { "Case06"@ } else if i == 6 { "Case07"@ } else if i == 7 {
        "Case08"@
    } else if i == 8 { "Case09"@ } else if i == 9 { "Case10"@ } else if i == 10 { "Case11"@ } else if i == 11 {
        "Case12"@
    } else if i == 12 { "Case13"@ } else if i == 13 { "Case14"@ } else if i == 14 { "Case15"@ } else { "Case16"@ }
}

/// The output that the `i`th case sets off.
pub open spec fn on_case(i: int) -> Seq<char> {
    if i == 0 { "OnCase01"@ } else if i == 1 { "OnCase02"@ } else if i == 2 { "OnCase03"@ } else if i == 3 {
        "OnCase04"@
    } else if i == 4 { "OnCase05"@ } else if i == 5 { "OnCase06"@ } else if i == 6 { "OnCase07"@ } else if i == 7 {
        "OnCase08"@
    } else if i == 8 { "OnCase09"@ } else if i == 9 { "OnCase10"@ } else if i == 10 { "OnCase11"@ } else if i == 11 {
        "OnCase12"@
    } else if i == 12 { "OnCase13"@ } else if i == 13 { "OnCase14"@ } else if i == 14 { "OnCase15"@ } else {
        "OnCase16"@
    }
}

/// The key that holds the `i`th case.
pub fn case_key_name(i: usize) -> (r: &'static str)
    ensures
        r@ == case_key(i as int),
{
    match i {
        0 => "Case01",
        1 => "Case02",
        2 => "Case03",
        3 => "Case04",
        4 => "Case05",
        5 => "Case06",
        6 => "Case07",
        7 => "Case08",
        8 => "Case09",
        9 => "Case10",
        10 => "Case11",
        11 => "Case12",
        12 => "Case13",
        13 => "Case14",
        14 => "Case15",
        _ => "Case16",
    }
}

/// The first of the keys from the `i`th on that a key is.
pub open spec fn case_slot(key: Seq<char>, i: int) -> Option<int>
    decreases MAX_LOGIC_CASES - i,
{
    if 0 <= i < MAX_LOGIC_CASES {
        if same_name(key, case_key(i)) {
            Some(i)
        } else {
            case_slot(key, i + 1)
        }
    } else {
        None
    }
}

/// The first of the cases from the `i`th on that a text is, but for case.
pub open spec fn matching_case(cases: Seq<Option<Seq<char>>>, text: Seq<char>, i: int) -> Option<int>
    decreases cases.len() - i,
{
    if 0 <= i < cases.len() {
        if cases[i] matches Some(case) && same_name(case, text) {
            Some(i)
        } else {
            matching_case(cases, text, i + 1)
        }
    } else {
        None
    }
}

/// Those of the first `n` cases whose output has a connection.
pub open spec fn connected_cases(core: CoreView, n: int) -> Seq<u8>
    decreases n,
{
    if n <= 0 {
        Seq::empty()
    } else if core.connections_on(on_case(n - 1)) > 0 {
        connected_cases(core, n - 1).push((n - 1) as u8)
    } else {
        connected_cases(core, n - 1)
    }
}

/// The place of a case in a deck, from place `i` on.
pub open spec fn place_in(deck: Seq<u8>, case: u8, i: int) -> Option<int>
    decreases deck.len() - i,
{
    if 0 <= i < deck.len() {
        if deck[i] == case { Some(i) } else { place_in(deck, case, i + 1) }
    } else {
        None
    }
}

impl CaseView {
    pub open spec fn fresh() -> CaseView {
        CaseView {
            cases: Seq::new(MAX_LOGIC_CASES as nat, |i: int| None),
            deck: Seq::empty(),
            last: None,
        }
    }

    pub open spec fn wf(self) -> bool {
        &&& self.cases.len() == MAX_LOGIC_CASES
        &&& forall|i: int| 0 <= i < self.deck.len() ==> #[trigger] self.deck[i] < MAX_LOGIC_CASES
        &&& no_repeats(self.deck)
    }

    #[verifier::opaque]
    pub open spec fn keyed(self, key: Seq<char>, value: Value) -> Option<CaseView> {
        match case_slot(key, 0) {
            Some(i) => Some(CaseView { cases: self.cases.update(i, Some(value.text@)), ..self }),
            None => None,
        }
    }

    /// Where the case dealt last lies in a fresh deck that has others too.
    pub open spec fn to_avoid(self, core: CoreView) -> Option<int> {
        let fresh = connected_cases(core, MAX_LOGIC_CASES as int);
        match self.last {
            Some(last) => if fresh.len() > 1 { place_in(fresh, last, 0) } else { None },
            None => None,
        }
    }

    /// The deck that the next deal is from. A deck that has run out is made
    /// anew from the connected cases, the one dealt last laid at its end.
    pub open spec fn dealt_from(self, core: CoreView) -> Seq<u8> {
        if self.deck.len() > 0 {
            self.deck
        } else {
            let fresh = connected_cases(core, MAX_LOGIC_CASES as int);
            match self.to_avoid(core) {
                Some(i) => fresh.update(i, fresh[fresh.len() - 1]).update(fresh.len() - 1, fresh[i]),
                None => fresh,
            }
        }
    }

    /// How many cases an input draws from.
    pub open spec fn drawn_from(self, core: CoreView, name: Seq<char>) -> nat {
        if same_name(name, "PickRandom"@) {
            connected_cases(core, MAX_LOGIC_CASES as int).len()
        } else if same_name(name, "PickRandomShuffle"@) {
            self.choices(core)
        } else {
            0
        }
    }

    /// Whether a roll is among the cases that an input draws from.
    pub open spec fn can_draw(self, core: CoreView, name: Seq<char>, roll: int) -> bool {
        self.drawn_from(core, name) > 0 ==> roll < self.drawn_from(core, name)
    }

    /// How many cards of that deck the deal is among: all, but for the one
    /// laid at the end of a deck made anew.
    pub open spec fn choices(self, core: CoreView) -> nat {
        let deck = self.dealt_from(core);
        if self.deck.len() == 0 && self.to_avoid(core) is Some {
            (deck.len() - 1) as nat
        } else {
            deck.len()
        }
    }

    /// The state once the `roll`th card has been dealt: the last card takes
    /// its place.
    pub open spec fn dealt(self, core: CoreView, roll: int) -> CaseView {
        let deck = self.dealt_from(core);
        CaseView {
            deck: deck.update(roll, deck[deck.len() - 1]).drop_last(),
            last: Some(deck[roll]),
            ..self
        }
    }
}

impl Step<CaseView> {
    /// The output of the first case that the input's text is, or the default
    /// with the value passed on.
    pub open spec fn compared(self, input: Input) -> Step<CaseView> {
        match matching_case(self.me.cases, input.text@, 0) {
            Some(i) => self.fire(on_case(i), Variant::Void, input.activator),
            None => self.fire("OnDefault"@, input.value, input.activator),
        }
    }

    /// The output of the `roll`th connected case.
    pub open spec fn picked(self, activator: Option<EntityId>, roll: int) -> Step<CaseView> {
        let deck = connected_cases(self.core, MAX_LOGIC_CASES as int);
        if deck.len() == 0 {
            self
        } else {
            self.fire(on_case(deck[roll] as int), Variant::Void, activator)
        }
    }

    /// The output of the `roll`th card of the shuffled deck.
    pub open spec fn shuffled(self, activator: Option<EntityId>, roll: int) -> Step<CaseView> {
        if self.me.choices(self.core) == 0 {
            self
        } else {
            let case = self.me.dealt_from(self.core)[roll];
            self.with(self.me.dealt(self.core, roll)).fire(on_case(case as int), Variant::Void, activator)
        }
    }

    #[verifier::opaque]
    pub open spec fn case_input(self, input: Input, roll: int) -> Option<Step<CaseView>> {
        let name = input.name@;
        if same_name(name, "InValue"@) {
            Some(self.compared(input))
        } else if same_name(name, "PickRandom"@) {
            Some(self.picked(input.activator, roll))
        } else if same_name(name, "PickRandomShuffle"@) {
            Some(self.shuffled(input.activator, roll))
        } else {
            None
        }
    }
}

/// The connected cases are in order, and so no case is among them twice.
pub proof fn connected_cases_ascend(core: CoreView, n: int)
    requires
        0 <= n <= MAX_LOGIC_CASES,
    ensures
        connected_cases(core, n).len() <= n,
        forall|i: int| 0 <= i < connected_cases(core, n).len() ==> #[trigger] connected_cases(core, n)[i] < n,
        forall|i: int, j: int|
            0 <= i < j < connected_cases(core, n).len() ==> #[trigger] connected_cases(core, n)[i]
                < #[trigger] connected_cases(core, n)[j],
    decreases n,
{
    if n > 0 {
        connected_cases_ascend(core, n - 1);
    }
}

/// A place in a deck is where the case is, and a case without one is nowhere.
pub proof fn place_in_finds(deck: Seq<u8>, case: u8, i: int)
    requires
        0 <= i <= deck.len(),
    ensures
        place_in(deck, case, i) matches Some(p) ==> i <= p < deck.len() && deck[p] == case,
        place_in(deck, case, i) is None ==> forall|k: int| i <= k < deck.len() ==> deck[k] != case,
    decreases deck.len() - i,
{
    if i < deck.len() && deck[i] != case {
        place_in_finds(deck, case, i + 1);
    }
}

/// Whether no case is in a deck twice.
pub open spec fn no_repeats(deck: Seq<u8>) -> bool {
    forall|i: int, j: int| 0 <= i < j < deck.len() ==> #[trigger] deck[i] != #[trigger] deck[j]
}

/// The deck that a deal is from has no case twice, if the deck before had
/// none, and none that does not exist.
pub proof fn dealing_deck_is_sound(state: CaseView, core: CoreView)
    requires
        state.wf(),
    ensures
        no_repeats(state.dealt_from(core)),
        forall|i: int|
            0 <= i < state.dealt_from(core).len() ==> #[trigger] state.dealt_from(core)[i] < MAX_LOGIC_CASES,
        state.choices(core) <= state.dealt_from(core).len(),
        state.choices(core) == 0 ==> state.dealt_from(core).len() == 0,
{
    let fresh = connected_cases(core, MAX_LOGIC_CASES as int);
    connected_cases_ascend(core, MAX_LOGIC_CASES as int);
    if let Some(last) = state.last {
        place_in_finds(fresh, last, 0);
    }
}

/// A shuffle deals each case of its deck once: what has been dealt is no
/// longer in the deck, everything else still is, and nothing is in it twice.
pub proof fn a_shuffle_deals_each_case_once(state: CaseView, core: CoreView, roll: int)
    requires
        state.wf(),
        0 <= roll < state.choices(core),
    ensures
        ({
            let deck = state.dealt_from(core);
            let after = state.dealt(core, roll);
            &&& after.wf()
            &&& after.deck.len() == deck.len() - 1
            &&& after.last == Some(deck[roll])
            &&& !after.deck.contains(deck[roll])
            &&& forall|i: int|
                0 <= i < deck.len() && i != roll ==> after.deck.contains(#[trigger] deck[i])
            &&& forall|i: int| 0 <= i < after.deck.len() ==> deck.contains(#[trigger] after.deck[i])
        }),
{
    dealing_deck_is_sound(state, core);
    let deck = state.dealt_from(core);
    let after = state.dealt(core, roll).deck;
    assert forall|i: int| 0 <= i < deck.len() && i != roll implies after.contains(#[trigger] deck[i]) by {
        if i == deck.len() - 1 {
            assert(after[roll] == deck[i]);
        } else {
            assert(after[i] == deck[i]);
        }
    }
    assert forall|i: int| 0 <= i < after.len() implies deck.contains(#[trigger] after[i]) by {
        if i == roll {
            assert(deck[deck.len() - 1] == after[i]);
        } else {
            assert(deck[i] == after[i]);
        }
    }
}

/// A shuffle that starts a deck over does not deal the case that it dealt
/// last, as long as there is another.
pub proof fn a_new_deck_does_not_repeat_the_last_case(state: CaseView, core: CoreView, roll: int)
    requires
        state.wf(),
        state.deck.len() == 0,
        connected_cases(core, MAX_LOGIC_CASES as int).len() > 1,
        0 <= roll < state.choices(core),
    ensures
        state.last != Some(state.dealt_from(core)[roll]),
{
    let fresh = connected_cases(core, MAX_LOGIC_CASES as int);
    connected_cases_ascend(core, MAX_LOGIC_CASES as int);
    if let Some(last) = state.last {
        place_in_finds(fresh, last, 0);
    }
}

impl Case {
    pub fn create() -> (r: Case)
        ensures
            r@ == CaseView::fresh(),
            r@.wf(),
    {
        let mut cases: Vec<Option<String>> = Vec::new();
        let mut i: usize = 0;
        while i < MAX_LOGIC_CASES
            invariant
                i <= MAX_LOGIC_CASES,
                cases@.len() == i,
                forall|k: int| 0 <= k < i ==> cases@[k] is None,
            decreases MAX_LOGIC_CASES - i,
        {
            cases.push(None);
            i = i + 1;
        }
        let r = Case { cases, deck: Vec::new(), last: None };
        assert(r@.cases =~= CaseView::fresh().cases);
        assert(r@.deck =~= Seq::empty());
        r
    }

    /// The output that a case sets off.
    pub fn output_name(index: usize) -> (r: &'static str)
        requires
            index < MAX_LOGIC_CASES,
        ensures
            r@ == on_case(index as int),
    {
        match index {
            0 => "OnCase01",
            1 => "OnCase02",
            2 => "OnCase03",
            3 => "OnCase04",
            4 => "OnCase05",
            5 => "OnCase06",
            6 => "OnCase07",
            7 => "OnCase08",
            8 => "OnCase09",
            9 => "OnCase10",
            10 => "OnCase11",
            11 => "OnCase12",
            12 => "OnCase13",
            13 => "OnCase14",
            14 => "OnCase15",
            _ => "OnCase16",
        }
    }

    /// The cases whose output has a connection, in order.
    pub fn build_case_map(entity: &EntityCore) -> (r: Vec<u8>)
        ensures
            r@ == connected_cases(entity@, MAX_LOGIC_CASES as int),
    {
        let mut map: Vec<u8> = Vec::new();
        let mut i: usize = 0;
        while i < MAX_LOGIC_CASES
            invariant
                i <= MAX_LOGIC_CASES,
                map@ == connected_cases(entity@, i as int),
            decreases MAX_LOGIC_CASES - i,
        {
            if entity.output_count(Case::output_name(i)) > 0 {
                map.push(i as u8);
            }
            i = i + 1;
        }
        map
    }

    /// How many cases an input draws from.
    pub fn draws_from(&self, entity: &EntityCore, input: &Input<'_>) -> (r: usize)
        ensures
            r == self@.drawn_from(entity@, input.name@),
    {
        if input.name.eq_ignore_ascii_case("PickRandom") {
            Case::build_case_map(entity).len()
        } else if input.name.eq_ignore_ascii_case("PickRandomShuffle") {
            self.shuffle_choices(entity)
        } else {
            0
        }
    }

    /// How many cards the next deal of a shuffle is among.
    pub fn shuffle_choices(&self, entity: &EntityCore) -> (r: usize)
        ensures
            r == self@.choices(entity@),
    {
        let (deck, choices) = self.next_deck(entity);
        choices
    }

    /// The deck that the next deal is from, and how many of its cards the deal
    /// is among.
    fn next_deck(&self, entity: &EntityCore) -> (r: (Vec<u8>, usize))
        ensures
            r.0@ == self@.dealt_from(entity@),
            r.1 == self@.choices(entity@),
    {
        if self.deck.len() > 0 {
            let mut deck: Vec<u8> = Vec::new();
            let mut i: usize = 0;
            while i < self.deck.len()
                invariant
                    i <= self.deck.len(),
                    deck@ == self.deck@.subrange(0, i as int),
                decreases self.deck.len() - i,
            {
                deck.push(self.deck[i]);
                i = i + 1;
            }
            assert(deck@ =~= self.deck@);
            let choices: usize = deck.len();
            return (deck, choices);
        }
        let mut deck = Case::build_case_map(entity);
        let count: usize = deck.len();
        match self.last {
            Some(last) => if count > 1 {
                let mut i: usize = 0;
                while i < count
                    invariant
                        i <= count,
                        count == deck.len(),
                        deck@ == connected_cases(entity@, MAX_LOGIC_CASES as int),
                        place_in(deck@, last, 0) == place_in(deck@, last, i as int),
                        self.deck@.len() == 0,
                        self.last == Some(last),
                        count > 1,
                    decreases count - i,
                {
                    if deck[i] == last {
                        let end: u8 = deck[count - 1];
                        deck.set(i, end);
                        deck.set(count - 1, last);
                        return (deck, count - 1);
                    }
                    i = i + 1;
                }
            },
            None => {}
        }
        (deck, count)
    }

    /// Sets off the output of the first case that the input's text is, or the
    /// default.
    pub fn in_value(&self, entity: &EntityCore, input: &Input<'_>, cx: &mut Context)
        requires
            self@.wf(),
        ensures
            step(self@, entity@, final(cx)@) == step(self@, entity@, old(cx)@).compared(*input),
    {
        let me = Some(entity.id());
        let mut i: usize = 0;
        while i < self.cases.len()
            invariant
                i <= self.cases.len(),
                self.cases@.len() == MAX_LOGIC_CASES,
                me == Some(entity@.id),
                *cx == *old(cx),
                matching_case(self@.cases, input.text@, 0) == matching_case(self@.cases, input.text@, i as int),
            decreases self.cases.len() - i,
        {
            assert(self@.cases[i as int] == text_of(self.cases@[i as int]));
            let matched = match &self.cases[i] {
                Some(case) => case.as_str().eq_ignore_ascii_case(input.text.as_str()),
                None => false,
            };
            if matched {
                entity.fire_output(Case::output_name(i), Variant::Void, input.activator, me, num(ZERO), cx);
                return;
            }
            i = i + 1;
        }
        entity.fire_output("OnDefault", input.value.copied(), input.activator, me, num(ZERO), cx);
    }

    /// Sets off the output of one connected case. `roll` is drawn among them.
    pub fn pick_random(&self, entity: &EntityCore, activator: Option<EntityId>, roll: usize, cx: &mut Context)
        requires
            connected_cases(entity@, MAX_LOGIC_CASES as int).len() > 0 ==> roll < connected_cases(
                entity@,
                MAX_LOGIC_CASES as int,
            ).len(),
        ensures
            step(self@, entity@, final(cx)@) == step(self@, entity@, old(cx)@).picked(activator, roll as int),
    {
        let map = Case::build_case_map(entity);
        if map.len() == 0 {
            return;
        }
        proof {
            connected_cases_ascend(entity@, MAX_LOGIC_CASES as int);
        }
        let chosen: usize = map[roll] as usize;
        entity.fire_output(
            Case::output_name(chosen),
            Variant::Void,
            activator,
            Some(entity.id()),
            num(ZERO),
            cx,
        );
    }

    /// Deals one case of the shuffled deck. `roll` is drawn among its choices.
    pub fn pick_random_shuffle(
        &mut self,
        entity: &EntityCore,
        activator: Option<EntityId>,
        roll: usize,
        cx: &mut Context,
    )
        requires
            old(self)@.wf(),
            old(self)@.choices(entity@) > 0 ==> roll < old(self)@.choices(entity@),
        ensures
            step(final(self)@, entity@, final(cx)@) == step(old(self)@, entity@, old(cx)@).shuffled(
                activator,
                roll as int,
            ),
            final(self)@.wf(),
    {
        let (mut deck, choices) = self.next_deck(entity);
        proof {
            connected_cases_ascend(entity@, MAX_LOGIC_CASES as int);
            dealing_deck_is_sound(self@, entity@);
            if choices > 0 {
                a_shuffle_deals_each_case_once(self@, entity@, roll as int);
            }
        }
        if choices == 0 {
            return;
        }
        let chosen: u8 = deck[roll];
        let end: u8 = deck[deck.len() - 1];
        entity.fire_output(
            Case::output_name(chosen as usize),
            Variant::Void,
            activator,
            Some(entity.id()),
            num(ZERO),
            cx,
        );
        deck.set(roll, end);
        deck.pop();
        self.deck = deck;
        self.last = Some(chosen);
        assert(self@.deck =~= old(self)@.dealt(entity@, roll as int).deck);
    }

    pub fn key_value(&mut self, key: &str, value: &Value) -> (r: bool)
        requires
            old(self)@.wf(),
        ensures
            r == old(self)@.keyed(key@, *value) is Some,
            final(self)@ == old(self)@.keyed(key@, *value).unwrap_or(old(self)@),
            final(self)@.wf(),
    {
        reveal(CaseView::keyed);
        let mut i: usize = 0;
        while i < MAX_LOGIC_CASES
            invariant
                i <= MAX_LOGIC_CASES,
                *self == *old(self),
                self@.wf(),
                case_slot(key@, 0) == case_slot(key@, i as int),
            decreases MAX_LOGIC_CASES - i,
        {
            if key.eq_ignore_ascii_case(case_key_name(i)) {
                reveal(CaseView::keyed);
                self.cases.set(i, Some(value.text.clone()));
                assert(self@.cases =~= old(self)@.cases.update(i as int, Some(value.text@)));
                return true;
            }
            i = i + 1;
        }
        false
    }

    /// A shuffle has dealt nothing yet.
    pub fn spawn(&mut self) -> (r: SpawnResult)
        ensures
            r == SpawnResult::Keep,
            final(self)@ == (CaseView { last: None, ..old(self)@ }),
    {
        self.last = None;
        SpawnResult::Keep
    }

    /// Takes an input. `roll` is drawn among the connected cases, or among the
    /// choices of the shuffle.
    pub fn accept_input(&mut self, entity: &EntityCore, input: &Input<'_>, roll: usize, cx: &mut Context) -> (r: bool)
        requires
            old(self)@.wf(),
            old(self)@.can_draw(entity@, input.name@, roll as int),
        ensures
            answered(
                step(old(self)@, entity@, old(cx)@).case_input(*input, roll as int),
                step(old(self)@, entity@, old(cx)@),
                r,
                step(final(self)@, entity@, final(cx)@),
            ),
            final(self)@.wf(),
    {
        reveal(Step::<_>::case_input);
        let name = input.name;
        if name.eq_ignore_ascii_case("InValue") {
            self.in_value(entity, input, cx);
        } else if name.eq_ignore_ascii_case("PickRandom") {
            self.pick_random(entity, input.activator, roll, cx);
        } else if name.eq_ignore_ascii_case("PickRandomShuffle") {
            self.pick_random_shuffle(entity, input.activator, roll, cx);
        } else {
            return false;
        }
        true
    }
}

// ---------------------------------------------------------------------------
// func_instance_io_proxy
// ---------------------------------------------------------------------------

/// How many relays a proxy has.
pub const PROXY_RELAYS: usize = 30;

/// The name that a proxy's `i`th relay has as an input and as an output.
pub open spec fn proxy_relay(i: int) -> Seq<char> {
    if i == 0 { "OnProxyRelay1"@ } else if i == 1 { "OnProxyRelay2"@ } else if
    i == 2 { "OnProxyRelay3"@ } else if i == 3 { "OnProxyRelay4"@ } else if i == 4 { "OnProxyRelay5"@ } else if
    i == 5 { "OnProxyRelay6"@ } else if i == 6 { "OnProxyRelay7"@ } else if i == 7 { "OnProxyRelay8"@ } else if
    i == 8 { "OnProxyRelay9"@ } else if i == 9 { "OnProxyRelay10"@ } else if
    i == 10 { "OnProxyRelay11"@ } else if i == 11 { "OnProxyRelay12"@ } else if
    i == 12 { "OnProxyRelay13"@ } else if i == 13 { "OnProxyRelay14"@ } else if
    i == 14 { "OnProxyRelay15"@ } else if i == 15 { "OnProxyRelay16"@ } else if
    i == 16 { "OnProxyRelay17"@ } else if i == 17 { "OnProxyRelay18"@ } else if
    i == 18 { "OnProxyRelay19"@ } else if i == 19 { "OnProxyRelay20"@ } else if
    i == 20 { "OnProxyRelay21"@ } else if i == 21 { "OnProxyRelay22"@ } else if
    i == 22 { "OnProxyRelay23"@ } else if i == 23 { "OnProxyRelay24"@ } else if
    i == 24 { "OnProxyRelay25"@ } else if i == 25 { "OnProxyRelay26"@ } else if
    i == 26 { "OnProxyRelay27"@ } else if i == 27 { "OnProxyRelay28"@ } else if
    i == 28 { "OnProxyRelay29"@ } else { "OnProxyRelay30"@ }
}

/// The name that a proxy's `i`th relay has as an input and as an output.
pub fn proxy_relay_name(i: usize) -> (r: &'static str)
    ensures
        r@ == proxy_relay(i as int),
{
    match i {
        0 => "OnProxyRelay1",
        1 => "OnProxyRelay2",
        2 => "OnProxyRelay3",
        3 => "OnProxyRelay4",
        4 => "OnProxyRelay5",
        5 => "OnProxyRelay6",
        6 => "OnProxyRelay7",
        7 => "OnProxyRelay8",
        8 => "OnProxyRelay9",
        9 => "OnProxyRelay10",
        10 => "OnProxyRelay11",
        11 => "OnProxyRelay12",
        12 => "OnProxyRelay13",
        13 => "OnProxyRelay14",
        14 => "OnProxyRelay15",
        15 => "OnProxyRelay16",
        16 => "OnProxyRelay17",
        17 => "OnProxyRelay18",
        18 => "OnProxyRelay19",
        19 => "OnProxyRelay20",
        20 => "OnProxyRelay21",
        21 => "OnProxyRelay22",
        22 => "OnProxyRelay23",
        23 => "OnProxyRelay24",
        24 => "OnProxyRelay25",
        25 => "OnProxyRelay26",
        26 => "OnProxyRelay27",
        27 => "OnProxyRelay28",
        28 => "OnProxyRelay29",
        _ => "OnProxyRelay30",
    }
}

/// The first of the relays from the `i`th on that has a name.
pub open spec fn relay_named(name: Seq<char>, i: int) -> Option<int>
    decreases PROXY_RELAYS - i,
{
    if 0 <= i < PROXY_RELAYS {
        if same_name(name, proxy_relay(i)) {
            Some(i)
        } else {
            relay_named(name, i + 1)
        }
    } else {
        None
    }
}

/// Passes each of its inputs on as the output of the same name.
#[derive(Debug, Clone, Copy)]
pub struct InstanceIoProxy;

impl Step<InstanceIoProxy> {
    /// The output of an input's name, with the input's own sender.
    #[verifier::opaque]
    pub open spec fn instance_io_proxy_input(self, input: Input) -> Option<Step<InstanceIoProxy>> {
        match relay_named(input.name@, 0) {
            Some(i) => Some(self.fire_as(proxy_relay(i), Variant::Void, input.activator, input.caller)),
            None => None,
        }
    }
}

impl InstanceIoProxy {
    pub fn create() -> (r: InstanceIoProxy)
        ensures
            r == InstanceIoProxy,
    {
        InstanceIoProxy
    }

    pub fn accept_input(&mut self, entity: &EntityCore, input: &Input<'_>, cx: &mut Context) -> (r: bool)
        ensures
            answered(
                step(*old(self), entity@, old(cx)@).instance_io_proxy_input(*input),
                step(*old(self), entity@, old(cx)@),
                r,
                step(*final(self), entity@, final(cx)@),
            ),
    {
        let mut i: usize = 0;
        while i < PROXY_RELAYS
            invariant
                i <= PROXY_RELAYS,
                *cx == *old(cx),
                *self == *old(self),
                relay_named(input.name@, 0) == relay_named(input.name@, i as int),
            decreases PROXY_RELAYS - i,
        {
            let name = proxy_relay_name(i);
            if input.name.eq_ignore_ascii_case(name) {
                reveal(Step::<_>::instance_io_proxy_input);
                entity.fire_output(name, Variant::Void, input.activator, input.caller, num(ZERO), cx);
                return true;
            }
            i = i + 1;
        }
        reveal(Step::<_>::instance_io_proxy_input);
        false
    }
}

} // verus!
