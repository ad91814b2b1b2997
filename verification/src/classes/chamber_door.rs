//! The round doors of test chambers.
use vstd::prelude::*;

use crate::class::SpawnResult;
use crate::classes::dynamic_prop::{sequence_of, Pose};
use crate::context::Context;
use crate::entity::{
    Body, CoreView, EntityCore, EntityId, Look, MoveType, Schedule, Solid, EF_MARKED_FOR_FAST_REFLECTION, EF_NOSHADOW,
};
use crate::io::{Input, Value, Variant};
use crate::scalar::{num, Scalar, MINUS_ONE, ONE, TENTH, ZERO};
use crate::sequences::{Lookup, SequenceInfo};
use crate::step::{answered, step, Step};
use crate::text::{atoi, integer_of, same_name};

verus! {

/// What a map says of the window that such a door hides.
#[derive(Debug)]
pub struct AreaPortalKeys {
    pub area_portal_window: Option<String>,
    pub use_area_portal_fade: bool,
    pub area_portal_fade_start: Scalar,
    pub area_portal_fade_end: Scalar,
}

/// A chamber door. It opens by playing a sequence forwards, and shuts by
/// playing it backwards.
#[derive(Debug)]
pub struct TestChamberDoor {
    /// Where the door is going, not where it is.
    pub open: bool,
    /// Whether it still owes the output that says that it has arrived.
    pub animating: bool,
    pub locked: bool,
    pub pose: Pose,
    /// Whether the sequence has ever run out. It stays so.
    pub sequence_finished: bool,
    pub keys: AreaPortalKeys,
}

/// Where a door's pose comes to by now.
#[derive(Debug, Clone, Copy)]
pub struct DoorPlayFigures {
    /// The cycle, and what the rate adds to it over the time that has passed.
    pub advanced: Scalar,
    /// The part of that beyond whole turns of the sequence.
    pub wrapped: Scalar,
    /// The last cycle that is seen at this rate.
    pub last_visible: Scalar,
}

impl TestChamberDoor {
    pub open spec fn fresh() -> TestChamberDoor {
        TestChamberDoor {
            open: false,
            animating: false,
            locked: false,
            pose: Pose { cycle: num(ZERO), anim_time: num(ZERO), playback_rate: num(ZERO) },
            sequence_finished: false,
            keys: AreaPortalKeys {
                area_portal_window: None,
                use_area_portal_fade: false,
                area_portal_fade_start: num(ZERO),
                area_portal_fade_end: num(ZERO),
            },
        }
    }

    pub open spec fn with_keys(self, keys: AreaPortalKeys) -> TestChamberDoor {
        TestChamberDoor { keys, ..self }
    }

    #[verifier::opaque]
    pub open spec fn keyed(self, key: Seq<char>, value: Value) -> Option<TestChamberDoor> {
        if same_name(key, "AreaPortalWindow"@) {
            Some(self.with_keys(AreaPortalKeys { area_portal_window: Some(value.text), ..self.keys }))
        } else if same_name(key, "UseAreaPortalFade"@) {
            Some(self.with_keys(AreaPortalKeys { use_area_portal_fade: integer_of(value.text@) != 0, ..self.keys }))
        } else if same_name(key, "AreaPortalFadeStart"@) {
            Some(self.with_keys(AreaPortalKeys { area_portal_fade_start: value.number, ..self.keys }))
        } else if same_name(key, "AreaPortalFadeEnd"@) {
            Some(self.with_keys(AreaPortalKeys { area_portal_fade_end: value.number, ..self.keys }))
        } else {
            None
        }
    }
}

/// The cycle by now, held at either end unless the sequence loops.
pub open spec fn door_cycle(info: SequenceInfo, figures: DoorPlayFigures) -> Scalar {
    if info.loops { figures.wrapped } else { figures.advanced.clamped(num(ZERO), num(ONE)) }
}

impl Step<TestChamberDoor> {
    /// A new rate, from the cycle that there is by now.
    pub open spec fn at_rate(self, rate: Scalar, figures: DoorPlayFigures) -> Step<TestChamberDoor> {
        let cycle = match sequence_of(self.core, self.cx, "open"@) {
            Lookup::Found(info) => door_cycle(info, figures),
            _ => self.me.pose.cycle,
        };
        self.with(
            TestChamberDoor {
                pose: Pose { cycle, anim_time: self.cx.time.curtime, playback_rate: rate },
                ..self.me
            },
        )
    }

    /// Set to open, unless it is open or locked.
    pub open spec fn opened(self, activator: Option<EntityId>, figures: DoorPlayFigures) -> Step<TestChamberDoor> {
        if self.me.open || self.me.locked {
            self
        } else {
            let moving = self.at_rate(num(ONE), figures);
            moving.with(TestChamberDoor { open: true, animating: true, ..moving.me }).fire(
                "OnOpen"@,
                Variant::Void,
                activator,
            )
        }
    }

    /// Set to shut, unless it is shut or locked.
    pub open spec fn closed(self, activator: Option<EntityId>, figures: DoorPlayFigures) -> Step<TestChamberDoor> {
        if !self.me.open || self.me.locked {
            self
        } else {
            let moving = self.at_rate(num(MINUS_ONE), figures);
            moving.with(TestChamberDoor { open: false, animating: true, ..moving.me }).fire(
                "OnClose"@,
                Variant::Void,
                activator,
            )
        }
    }

    /// Whether the sequence has run off either end by now, or out of sight.
    pub open spec fn runs_out(self, figures: DoorPlayFigures) -> bool {
        sequence_of(self.core, self.cx, "open"@) is Found && (figures.advanced.less(num(ZERO)) || num(ONE).at_most(
            figures.advanced,
        ) || figures.last_visible.less(figures.advanced))
    }

    pub open spec fn advanced(self, figures: DoorPlayFigures) -> Step<TestChamberDoor> {
        if self.runs_out(figures) {
            self.with(TestChamberDoor { sequence_finished: true, ..self.me })
        } else {
            self
        }
    }

    /// The think that says that the door has arrived. It goes on for ever.
    pub open spec fn thought(self, figures: DoorPlayFigures) -> Step<TestChamberDoor> {
        let by_now = self.advanced(figures);
        (if self.me.animating && by_now.me.sequence_finished {
            by_now.with(TestChamberDoor { animating: false, ..by_now.me }).fire(
                if self.me.open { "OnFullyOpen"@ } else { "OnFullyClosed"@ },
                Variant::Void,
                None,
            )
        } else {
            by_now
        }).think(Schedule::After(num(TENTH)))
    }

    pub open spec fn spawned(self) -> Step<TestChamberDoor> {
        self.with(
            TestChamberDoor {
                pose: Pose { cycle: num(ZERO), anim_time: self.cx.time.curtime, playback_rate: num(ZERO) },
                sequence_finished: false,
                ..self.me
            },
        ).with_core(
            CoreView {
                model: Some("models/props/portal_door_combined.mdl"@),
                body: Body { move_type: MoveType::Still, solid: Solid::VPhysics, ..self.core.body },
                look: Look {
                    effects: (self.core.look.effects | EF_NOSHADOW) | EF_MARKED_FOR_FAST_REFLECTION,
                    ..self.core.look
                },
                ..self.core
            },
        )
    }

    #[verifier::opaque]
    pub open spec fn test_chamber_door_input(self, input: Input, figures: DoorPlayFigures) -> Option<Step<TestChamberDoor>> {
        let name = input.name@;
        if same_name(name, "Open"@) {
            Some(self.opened(input.activator, figures))
        } else if same_name(name, "Close"@) {
            Some(self.closed(input.activator, figures))
        } else if same_name(name, "Lock"@) {
            Some(self.with(TestChamberDoor { locked: true, ..self.me }))
        } else if same_name(name, "LockOpen"@) {
            let opened = self.opened(input.activator, figures);
            Some(opened.with(TestChamberDoor { locked: true, ..opened.me }))
        } else if same_name(name, "Unlock"@) {
            Some(self.with(TestChamberDoor { locked: false, ..self.me }))
        } else {
            None
        }
    }
}

impl TestChamberDoor {
    pub fn create() -> (r: TestChamberDoor)
        ensures
            r == TestChamberDoor::fresh(),
    {
        TestChamberDoor {
            open: false,
            animating: false,
            locked: false,
            pose: Pose { cycle: num(ZERO), anim_time: num(ZERO), playback_rate: num(ZERO) },
            sequence_finished: false,
            keys: AreaPortalKeys {
                area_portal_window: None,
                use_area_portal_fade: false,
                area_portal_fade_start: num(ZERO),
                area_portal_fade_end: num(ZERO),
            },
        }
    }

    /// What is known of the sequence that opens the door.
    pub fn current_sequence(&self, entity: &EntityCore, cx: &Context) -> (r: Lookup)
        ensures
            r == sequence_of(entity@, cx@, "open"@),
    {
        match &entity.model {
            Some(model) => cx.sequence(model.as_str(), "open"),
            None => Lookup::Unknown,
        }
    }

    pub fn set_playback_rate(&mut self, rate: Scalar, entity: &EntityCore, figures: &DoorPlayFigures, cx: &Context)
        ensures
            step(*final(self), entity@, cx@) == step(*old(self), entity@, cx@).at_rate(rate, *figures),
    {
        match self.current_sequence(entity, cx) {
            Lookup::Found(info) => {
                self.pose.cycle = if info.loops {
                    figures.wrapped
                } else {
                    figures.advanced.clamp(num(ZERO), num(ONE))
                };
            }
            _ => {}
        }
        self.pose.anim_time = cx.curtime();
        self.pose.playback_rate = rate;
    }

    pub fn open_door(&mut self, entity: &EntityCore, activator: Option<EntityId>, figures: &DoorPlayFigures, cx: &mut Context)
        ensures
            step(*final(self), entity@, final(cx)@) == step(*old(self), entity@, old(cx)@).opened(activator, *figures),
    {
        if self.open || self.locked {
            return;
        }
        self.set_playback_rate(num(ONE), entity, figures, cx);
        self.open = true;
        self.animating = true;
        entity.fire_output("OnOpen", Variant::Void, activator, Some(entity.id()), num(ZERO), cx);
    }

    pub fn close_door(&mut self, entity: &EntityCore, activator: Option<EntityId>, figures: &DoorPlayFigures, cx: &mut Context)
        ensures
            step(*final(self), entity@, final(cx)@) == step(*old(self), entity@, old(cx)@).closed(activator, *figures),
    {
        if !self.open || self.locked {
            return;
        }
        self.set_playback_rate(num(MINUS_ONE), entity, figures, cx);
        self.open = false;
        self.animating = true;
        entity.fire_output("OnClose", Variant::Void, activator, Some(entity.id()), num(ZERO), cx);
    }

    /// Takes in that the sequence has run out, once it has.
    pub fn studio_frame_advance(&mut self, entity: &EntityCore, figures: &DoorPlayFigures, cx: &Context)
        ensures
            step(*final(self), entity@, cx@) == step(*old(self), entity@, cx@).advanced(*figures),
    {
        match self.current_sequence(entity, cx) {
            Lookup::Found(_) => {
                let raw = figures.advanced;
                if raw.lt(num(ZERO)) || num(ONE).le(raw) || figures.last_visible.lt(raw) {
                    self.sequence_finished = true;
                }
            }
            _ => {}
        }
    }

    pub fn animate_think(&mut self, entity: &mut EntityCore, figures: &DoorPlayFigures, cx: &mut Context)
        ensures
            step(*final(self), final(entity)@, final(cx)@) == step(*old(self), old(entity)@, old(cx)@).thought(*figures),
    {
        self.studio_frame_advance(entity, figures, cx);
        if self.animating && self.sequence_finished {
            let output = if self.open {
                "OnFullyOpen"
            } else {
                "OnFullyClosed"
            };
            entity.fire_output(output, Variant::Void, None, Some(entity.id()), num(ZERO), cx);
            self.animating = false;
        }
        entity.set_next_think(Schedule::After(num(TENTH)));
    }

    /// Whether the door is open or opening.
    pub fn is_open(&self) -> (r: bool)
        ensures
            r == self.open,
    {
        self.open
    }

    pub fn is_animating(&self) -> (r: bool)
        ensures
            r == self.animating,
    {
        self.animating
    }

    pub fn is_locked(&self) -> (r: bool)
        ensures
            r == self.locked,
    {
        self.locked
    }

    pub fn key_value(&mut self, key: &str, value: &Value) -> (r: bool)
        ensures
            r == old(self).keyed(key@, *value) is Some,
            *final(self) == old(self).keyed(key@, *value).unwrap_or(*old(self)),
    {
        reveal(TestChamberDoor::keyed);
        if key.eq_ignore_ascii_case("AreaPortalWindow") {
            self.keys.area_portal_window = Some(value.text.clone());
            return true;
        }
        if key.eq_ignore_ascii_case("UseAreaPortalFade") {
            self.keys.use_area_portal_fade = atoi(value.text.as_str()) != 0;
            return true;
        }
        if key.eq_ignore_ascii_case("AreaPortalFadeStart") {
            self.keys.area_portal_fade_start = value.number;
            return true;
        }
        if key.eq_ignore_ascii_case("AreaPortalFadeEnd") {
            self.keys.area_portal_fade_end = value.number;
            return true;
        }
        false
    }

    /// Takes its place, shut and still.
    pub fn spawn(&mut self, entity: &mut EntityCore, cx: &Context) -> (r: SpawnResult)
        ensures
            r == SpawnResult::Keep,
            step(*final(self), final(entity)@, cx@) == step(*old(self), old(entity)@, cx@).spawned(),
    {
        entity.body.move_type = MoveType::Still;
        entity.body.solid = Solid::VPhysics;
        entity.look.effects = entity.look.effects | EF_NOSHADOW;
        entity.model = Some("models/props/portal_door_combined.mdl".to_owned());
        self.pose = Pose { cycle: num(ZERO), anim_time: cx.curtime(), playback_rate: num(ZERO) };
        self.sequence_finished = false;
        entity.look.effects = entity.look.effects | EF_MARKED_FOR_FAST_REFLECTION;
        SpawnResult::Keep
    }

    pub fn activate(&mut self, entity: &mut EntityCore, cx: &Context)
        ensures
            step(*final(self), final(entity)@, cx@) == step(*old(self), old(entity)@, cx@).think(
                Schedule::After(num(TENTH)),
            ),
    {
        entity.set_next_think(Schedule::After(num(TENTH)));
    }

    pub fn think(&mut self, entity: &mut EntityCore, figures: &DoorPlayFigures, cx: &mut Context)
        ensures
            step(*final(self), final(entity)@, final(cx)@) == step(*old(self), old(entity)@, old(cx)@).thought(*figures),
    {
        self.animate_think(entity, figures, cx);
    }

    /// Takes an input. `figures` is where the pose comes to by now.
    pub fn accept_input(
        &mut self,
        entity: &EntityCore,
        input: &Input<'_>,
        figures: &DoorPlayFigures,
        cx: &mut Context,
    ) -> (r: bool)
        ensures
            answered(
                step(*old(self), entity@, old(cx)@).test_chamber_door_input(*input, *figures),
                step(*old(self), entity@, old(cx)@),
                r,
                step(*final(self), entity@, final(cx)@),
            ),
    {
        reveal(Step::<_>::test_chamber_door_input);
        let name = input.name;
        if name.eq_ignore_ascii_case("Open") {
            self.open_door(entity, input.activator, figures, cx);
            return true;
        }
        if name.eq_ignore_ascii_case("Close") {
            self.close_door(entity, input.activator, figures, cx);
            return true;
        }
        if name.eq_ignore_ascii_case("Lock") {
            self.locked = true;
            return true;
        }
        if name.eq_ignore_ascii_case("LockOpen") {
            self.open_door(entity, input.activator, figures, cx);
            self.locked = true;
            return true;
        }
        if name.eq_ignore_ascii_case("Unlock") {
            self.locked = false;
            return true;
        }
        false
    }
}

/// A locked door neither opens nor shuts.
pub proof fn a_locked_door_stays(state: Step<TestChamberDoor>, activator: Option<EntityId>, figures: DoorPlayFigures)
    requires
        state.me.locked,
    ensures
        state.opened(activator, figures) == state,
        state.closed(activator, figures) == state,
{
}

/// Once a door's sequence has run out it counts as run out, and so every later
/// arrival is told at the first think.
pub proof fn a_finished_sequence_stays_finished(state: Step<TestChamberDoor>, figures: DoorPlayFigures)
    requires
        state.me.sequence_finished,
    ensures
        state.thought(figures).me.sequence_finished,
        state.me.animating ==> !state.thought(figures).me.animating,
{
}

} // verus!
