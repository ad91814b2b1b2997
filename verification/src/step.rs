//! A handler's world: the class state, the entity and the server, before or
//! after it has run.
use vstd::prelude::*;

use crate::context::ContextView;
use crate::entity::{Alarm, CoreView, EntityId, Schedule};
use crate::io::Variant;
use crate::scalar::{num, ZERO};

verus! {

/// All that a handler reads and changes.
pub struct Step<S> {
    pub me: S,
    pub core: CoreView,
    pub cx: ContextView,
}

pub open spec fn step<S>(me: S, core: CoreView, cx: ContextView) -> Step<S> {
    Step { me, core, cx }
}

/// What a handler does that may decline: `after` is `outcome`, or nothing has
/// changed and it said so.
pub open spec fn answered<S>(
    outcome: Option<Step<S>>,
    before: Step<S>,
    answer: bool,
    after: Step<S>,
) -> bool {
    &&& answer == outcome is Some
    &&& after == match outcome {
        Some(s) => s,
        None => before,
    }
}

impl<S> Step<S> {
    pub open spec fn with(self, me: S) -> Step<S> {
        Step { me, ..self }
    }

    pub open spec fn with_core(self, core: CoreView) -> Step<S> {
        Step { core, ..self }
    }

    pub open spec fn with_cx(self, cx: ContextView) -> Step<S> {
        Step { cx, ..self }
    }

    pub open spec fn id(self) -> EntityId {
        self.core.id
    }

    /// An output of this entity went off, with this entity as the sender.
    pub open spec fn fire(self, output: Seq<char>, value: Variant, activator: Option<EntityId>) -> Step<S> {
        self.fire_as(output, value, activator, Some(self.core.id))
    }

    /// An output of this entity went off, with somebody as the sender.
    pub open spec fn fire_as(
        self,
        output: Seq<char>,
        value: Variant,
        activator: Option<EntityId>,
        caller: Option<EntityId>,
    ) -> Step<S> {
        Step { cx: self.cx.fired(self.core.id, output, value, activator, caller, num(ZERO)), ..self }
    }

    pub open spec fn think(self, schedule: Schedule) -> Step<S> {
        Step { core: self.core.scheduled(schedule), ..self }
    }

    pub open spec fn alarm(self, alarm: Alarm) -> Step<S> {
        Step { core: self.core.alarmed(alarm), ..self }
    }

    pub open spec fn remove(self) -> Step<S> {
        Step { core: self.core.gone(), ..self }
    }
}

} // verus!
