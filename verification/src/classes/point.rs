//! Points that teleport.
use vstd::prelude::*;

use crate::context::{Context, Placement, Teleport};
use crate::entity::{CoreView, EntityCore};
use crate::io::Input;
use crate::scalar::origin;
use crate::step::{answered, step, Step};
use crate::text::same_name;

verus! {

/// It sends its target back to where that spawned.
pub const SF_TELEPORT_TO_SPAWN_POS: u32 = 0x1;

/// Sends an entity to where it is, or to a place that it has noted.
#[derive(Debug, Clone, Copy, PartialEq, Eq, Structural)]
pub struct PointTeleport {
    pub saved: Placement,
}

/// A text that may be missing, as one that may be empty.
pub open spec fn or_empty(s: Option<Seq<char>>) -> Seq<char> {
    match s {
        Some(t) => t,
        None => Seq::empty(),
    }
}

pub open spec fn placed_at(core: CoreView) -> Placement {
    Placement { origin: core.place.origin, angles: core.place.angles }
}

impl Step<PointTeleport> {
    /// Its own place noted, or its target's. A target that is not there is the
    /// end of it, and one with a parent is left alone.
    pub open spec fn activated(self) -> Step<PointTeleport> {
        let here = self.with(PointTeleport { saved: placed_at(self.core) });
        if !self.core.spawned_with(SF_TELEPORT_TO_SPAWN_POS) {
            here
        } else {
            match self.cx.named(or_empty(self.core.target)) {
                Some(target) => match self.cx.at(target) {
                    Some(e) => if e.core.place.parent is Some {
                        here
                    } else {
                        self.with(PointTeleport { saved: placed_at(e.core) })
                    },
                    None => here,
                },
                None => here.remove(),
            }
        }
    }

    /// Whoever a name stands for sent to a place, unless they have a parent.
    pub open spec fn sent(self, input: Input, name: Seq<char>, to: Placement) -> Step<PointTeleport> {
        match self.cx.targeted(name, Some(self.core.id), input.activator, input.caller) {
            Some(target) => if self.cx.at(target) matches Some(e) && e.core.place.parent is Some {
                self
            } else {
                self.with_cx(self.cx.teleporting(target, Teleport::To { place: to, velocity: None }))
            },
            None => self,
        }
    }

    #[verifier::opaque]
    pub open spec fn point_teleport_input(self, input: Input) -> Option<Step<PointTeleport>> {
        let name = input.name@;
        if same_name(name, "Teleport"@) {
            Some(self.sent(input, or_empty(self.core.target), self.me.saved))
        } else if same_name(name, "TeleportEntity"@) {
            Some(self.sent(input, input.text@, self.me.saved))
        } else if same_name(name, "TeleportToCurrentPos"@) {
            Some(self.sent(input, or_empty(self.core.target), placed_at(self.core)))
        } else {
            None
        }
    }
}

impl PointTeleport {
    pub fn create() -> (r: PointTeleport)
        ensures
            r == (PointTeleport { saved: Placement { origin: origin(), angles: origin() } }),
    {
        PointTeleport { saved: Placement { origin: origin(), angles: origin() } }
    }

    fn target_name(entity: &EntityCore) -> (r: String)
        ensures
            r@ == or_empty(entity@.target),
    {
        match &entity.target {
            Some(name) => name.clone(),
            None => String::new(),
        }
    }

    pub fn do_teleport(&self, entity: &EntityCore, input: &Input<'_>, name: &str, to: Placement, cx: &mut Context)
        ensures
            step(*self, entity@, final(cx)@) == step(*self, entity@, old(cx)@).sent(*input, name@, to),
    {
        match cx.find_target(name, Some(entity.id()), input.activator, input.caller) {
            Some(target) => {
                let parented = match cx.entity(target) {
                    Some(e) => e.core.place.parent.is_some(),
                    None => false,
                };
                if !parented {
                    cx.teleport(target, Teleport::To { place: to, velocity: None });
                }
            }
            None => {}
        }
    }

    pub fn activate(&mut self, entity: &mut EntityCore, cx: &mut Context)
        ensures
            step(*final(self), final(entity)@, final(cx)@) == step(*old(self), old(entity)@, old(cx)@).activated(),
    {
        self.saved = Placement { origin: entity.place.origin, angles: entity.place.angles };
        if !entity.has_spawn_flags(SF_TELEPORT_TO_SPAWN_POS) {
            return;
        }
        let name = PointTeleport::target_name(entity);
        match cx.find_by_name(name.as_str()) {
            Some(target) => {
                match cx.entity(target) {
                    Some(e) => {
                        if e.core.place.parent.is_none() {
                            self.saved = Placement { origin: e.core.place.origin, angles: e.core.place.angles };
                        }
                    }
                    None => {}
                }
            }
            None => entity.remove(),
        }
    }

    pub fn accept_input(&mut self, entity: &EntityCore, input: &Input<'_>, cx: &mut Context) -> (r: bool)
        ensures
            answered(
                step(*old(self), entity@, old(cx)@).point_teleport_input(*input),
                step(*old(self), entity@, old(cx)@),
                r,
                step(*final(self), entity@, final(cx)@),
            ),
    {
        reveal(Step::<_>::point_teleport_input);
        let name = input.name;
        if name.eq_ignore_ascii_case("Teleport") {
            let target = PointTeleport::target_name(entity);
            self.do_teleport(entity, input, target.as_str(), self.saved, cx);
            return true;
        }
        if name.eq_ignore_ascii_case("TeleportEntity") {
            self.do_teleport(entity, input, input.text.as_str(), self.saved, cx);
            return true;
        }
        if name.eq_ignore_ascii_case("TeleportToCurrentPos") {
            let target = PointTeleport::target_name(entity);
            let here = Placement { origin: entity.place.origin, angles: entity.place.angles };
            self.do_teleport(entity, input, target.as_str(), here, cx);
            return true;
        }
        false
    }
}

} // verus!
