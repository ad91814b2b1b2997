//! What a handler has sent, for laws to speak of.
use vstd::prelude::*;

use crate::context::{ContextView, PostedView};
use crate::entity::EntityId;
use crate::io::Variant;
use crate::scalar::Scalar;

verus! {

/// An entity's output, sent by the entity itself and at once.
pub open spec fn output(
    source: EntityId,
    output: Seq<char>,
    value: Variant,
    activator: Option<EntityId>,
) -> PostedView {
    PostedView::Output { source, output, value, activator, caller: Some(source), delay: Scalar { bits: 0 } }
}

/// Whether some posts, and nothing else, have come to the server.
pub open spec fn posts(before: ContextView, after: ContextView, more: Seq<PostedView>) -> bool {
    &&& after.posted =~= before.posted + more
    &&& after.time == before.time
    &&& after.player == before.player
    &&& after.tables == before.tables
    &&& after.entities == before.entities
    &&& after.outbox == before.outbox
}

} // verus!
