//! Laws of a whole batch of shuffled cases.
use vstd::prelude::*;

use crate::classes::case::{
    a_new_deck_does_not_repeat_the_last_case, a_shuffle_deals_each_case_once, connected_cases, connected_cases_ascend,
    dealing_deck_is_sound, no_repeats, on_case, place_in, place_in_finds, CaseView, MAX_LOGIC_CASES,
};
use crate::context::PostedView;
use crate::entity::{CoreView, EntityId};
use crate::io::Variant;
use crate::scalar::{num, ZERO};
use crate::step::Step;

verus! {

impl Step<CaseView> {
    /// After the first `k` of some deals, each with its own activator.
    pub open spec fn dealing(self, activators: Seq<Option<EntityId>>, rolls: Seq<int>, k: int) -> Step<CaseView>
        decreases k,
    {
        if k <= 0 {
            self
        } else {
            self.dealing(activators, rolls, k - 1).shuffled(activators[k - 1], rolls[k - 1])
        }
    }

    /// The cases that the first `k` deals dealt.
    pub open spec fn cards(self, activators: Seq<Option<EntityId>>, rolls: Seq<int>, k: int) -> Seq<u8>
        decreases k,
    {
        if k <= 0 {
            Seq::empty()
        } else {
            let before = self.dealing(activators, rolls, k - 1);
            self.cards(activators, rolls, k - 1).push(before.me.dealt_from(before.core)[rolls[k - 1]])
        }
    }

    /// Whether each of the first `k` rolls is among the choices that there are
    /// by then.
    pub open spec fn rolls_fit(self, activators: Seq<Option<EntityId>>, rolls: Seq<int>, k: int) -> bool
        decreases k,
    {
        if k <= 0 {
            true
        } else {
            let before = self.dealing(activators, rolls, k - 1);
            self.rolls_fit(activators, rolls, k - 1) && 0 <= rolls[k - 1] < before.me.choices(before.core)
        }
    }
}

/// The cases that have a connection.
pub open spec fn connected(core: CoreView) -> Seq<u8> {
    connected_cases(core, MAX_LOGIC_CASES as int)
}

/// What an output of a case posts.
pub open spec fn case_output(core: CoreView, case: u8, activator: Option<EntityId>) -> PostedView {
    PostedView::Output {
        source: core.id,
        output: on_case(case as int),
        value: Variant::Void,
        activator,
        caller: Some(core.id),
        delay: num(ZERO),
    }
}

/// A new deck holds the connected cases, each once, in whatever order.
proof fn a_new_deck_is_of_the_connected_cases(state: CaseView, core: CoreView)
    requires
        state.wf(),
        state.deck.len() == 0,
    ensures
        state.dealt_from(core).len() == connected(core).len(),
        forall|c: u8| connected(core).contains(c) <==> state.dealt_from(core).contains(c),
{
    let fresh = connected(core);
    let deck = state.dealt_from(core);
    connected_cases_ascend(core, MAX_LOGIC_CASES as int);
    if let Some(last) = state.last {
        place_in_finds(fresh, last, 0);
    }
    if let Some(i) = state.to_avoid(core) {
        let end = fresh.len() - 1;
        assert forall|c: u8| connected(core).contains(c) <==> deck.contains(c) by {
            if fresh.contains(c) {
                let k = choose|k: int| 0 <= k < fresh.len() && fresh[k] == c;
                if k == i {
                    assert(deck[end] == c);
                } else if k == end {
                    assert(deck[i] == c);
                } else {
                    assert(deck[k] == c);
                }
            }
            if deck.contains(c) {
                let k = choose|k: int| 0 <= k < deck.len() && deck[k] == c;
                if k == end {
                    assert(fresh[i] == c);
                } else if k == i {
                    assert(fresh[end] == c);
                } else {
                    assert(fresh[k] == c);
                }
            }
        }
    }
}

/// What holds after `k` deals of a batch: what has been dealt and what is
/// still to be dealt are the connected cases, each once.
proof fn a_batch_under_way(
    state: Step<CaseView>,
    activators: Seq<Option<EntityId>>,
    rolls: Seq<int>,
    k: int,
)
    requires
        state.me.wf(),
        state.me.deck.len() == 0,
        0 <= k <= connected(state.core).len(),
        state.rolls_fit(activators, rolls, k),
    ensures
        ({
            let now = state.dealing(activators, rolls, k);
            let cards = state.cards(activators, rolls, k);
            let pool = now.me.dealt_from(now.core);
            let n = connected(state.core).len();
            &&& now.core == state.core
            &&& now.me.wf()
            &&& now.me.deck.len() == (if k == 0 { 0 } else { n - k })
            &&& cards.len() == k
            &&& no_repeats(cards)
            &&& now.cx.posted.len() == state.cx.posted.len() + k
            &&& forall|i: int|
                0 <= i < k ==> #[trigger] now.cx.posted[state.cx.posted.len() + i] == case_output(
                    state.core,
                    cards[i],
                    activators[i],
                )
            &&& k < n ==> pool.len() == n - k && forall|c: u8|
                connected(state.core).contains(c) <==> #[trigger] cards.contains(c) || pool.contains(c)
            &&& k < n ==> forall|c: u8| !(#[trigger] cards.contains(c) && pool.contains(c))
            &&& k == n ==> forall|c: u8| connected(state.core).contains(c) <==> #[trigger] cards.contains(c)
        }),
    decreases k,
{
    let n = connected(state.core).len();
    if k == 0 {
        a_new_deck_is_of_the_connected_cases(state.me, state.core);
        assert(state.cards(activators, rolls, 0) =~= Seq::empty());
        if n == 0 {
            assert(connected(state.core) =~= Seq::empty());
        }
    } else {
        a_batch_under_way(state, activators, rolls, k - 1);
        let before = state.dealing(activators, rolls, k - 1);
        let now = state.dealing(activators, rolls, k);
        let dealt = state.cards(activators, rolls, k - 1);
        let cards = state.cards(activators, rolls, k);
        let pool = before.me.dealt_from(before.core);
        let roll = rolls[k - 1];
        dealing_deck_is_sound(before.me, before.core);
        a_shuffle_deals_each_case_once(before.me, before.core, roll);
        let case = pool[roll];
        let rest = now.me.deck;
        assert(pool.contains(case));
        assert(!dealt.contains(case));
        assert forall|c: u8| #[trigger] cards.contains(c) <==> dealt.contains(c) || c == case by {
            if dealt.contains(c) {
                let i = choose|i: int| 0 <= i < dealt.len() && dealt[i] == c;
                assert(cards[i] == c);
            }
            assert(cards[k - 1] == case);
        }
        assert forall|c: u8| pool.contains(c) <==> #[trigger] rest.contains(c) || c == case by {
            if pool.contains(c) && c != case {
                let i = choose|i: int| 0 <= i < pool.len() && pool[i] == c;
                assert(rest.contains(pool[i]));
            }
            if rest.contains(c) {
                let i = choose|i: int| 0 <= i < rest.len() && rest[i] == c;
                assert(pool.contains(rest[i]));
            }
        }
        assert(no_repeats(cards)) by {
            assert forall|i: int, j: int| 0 <= i < j < cards.len() implies #[trigger] cards[i] != #[trigger] cards[j] by {
                if j == k - 1 {
                    assert(dealt.contains(dealt[i]));
                }
            }
        }
        assert forall|i: int| 0 <= i < k implies #[trigger] now.cx.posted[state.cx.posted.len() + i] == case_output(
            state.core,
            cards[i],
            activators[i],
        ) by {
            if i < k - 1 {
                assert(now.cx.posted[state.cx.posted.len() + i] == before.cx.posted[state.cx.posted.len() + i]);
            }
        }
        if k == n {
            assert(rest =~= Seq::empty());
        }
    }
}

/// A batch of shuffled deals, one for each connected case, fires each of these
/// once, each with its own activator, and does not start with the case that
/// was dealt last before it if there is another. It leaves the deck empty.
/// Without a connected case a deal does nothing.
pub proof fn a_batch_fires_each_connected_case_once(
    state: Step<CaseView>,
    activators: Seq<Option<EntityId>>,
    rolls: Seq<int>,
)
    requires
        state.me.wf(),
        state.me.deck.len() == 0,
        state.rolls_fit(activators, rolls, connected(state.core).len() as int),
    ensures
        ({
            let n = connected(state.core).len() as int;
            let after = state.dealing(activators, rolls, n);
            let cards = state.cards(activators, rolls, n);
            &&& cards.len() == n
            &&& no_repeats(cards)
            &&& forall|c: u8| connected(state.core).contains(c) <==> #[trigger] cards.contains(c)
            &&& after.cx.posted.len() == state.cx.posted.len() + n
            &&& forall|i: int|
                0 <= i < n ==> #[trigger] after.cx.posted[state.cx.posted.len() + i] == case_output(
                    state.core,
                    cards[i],
                    activators[i],
                )
            &&& n > 1 ==> state.me.last != Some(cards[0])
            &&& after.me.deck.len() == 0
            &&& n == 0 ==> forall|activator: Option<EntityId>, roll: int| #[trigger]
                state.shuffled(activator, roll) == state
        }),
{
    let n = connected(state.core).len() as int;
    a_batch_under_way(state, activators, rolls, n);
    dealing_deck_is_sound(state.me, state.core);
    a_new_deck_is_of_the_connected_cases(state.me, state.core);
    if n > 1 {
        the_first_card_stays(state, activators, rolls, n);
        the_rolls_before_fit(state, activators, rolls, n);
        a_new_deck_does_not_repeat_the_last_case(state.me, state.core, rolls[0]);
    }
}

proof fn the_first_card_stays(state: Step<CaseView>, activators: Seq<Option<EntityId>>, rolls: Seq<int>, k: int)
    requires
        k >= 1,
    ensures
        state.cards(activators, rolls, k).len() == k,
        state.cards(activators, rolls, k)[0] == state.me.dealt_from(state.core)[rolls[0]],
    decreases k,
{
    reveal_with_fuel(Step::<_>::cards, 2);
    if k > 1 {
        the_first_card_stays(state, activators, rolls, k - 1);
    }
}

proof fn the_rolls_before_fit(state: Step<CaseView>, activators: Seq<Option<EntityId>>, rolls: Seq<int>, k: int)
    requires
        k >= 1,
        state.rolls_fit(activators, rolls, k),
    ensures
        0 <= rolls[0] < state.me.choices(state.core),
    decreases k,
{
    if k > 1 {
        the_rolls_before_fit(state, activators, rolls, k - 1);
    }
}

} // verus!
