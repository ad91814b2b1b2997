//! Models that a map places and animates.
use vstd::prelude::*;

use crate::class::SpawnResult;
use crate::context::{Context, ContextView};
use crate::damage::DamageMode;
use crate::entity::{
    Body, CoreView, Drive, EntityCore, EntityId, Look, MoveType, Rgba, Schedule, Solid, Spin, Vitals, EF_NODRAW,
    FSOLID_NOT_SOLID,
};
use crate::io::{Input, Value, Variant};
use crate::scalar::{num, origin, Scalar, BYTE_MAX, NEARLY_ONE, ONE, TENTH, ZERO};
use crate::sequences::{Lookup, SequenceInfo};
use crate::step::{answered, step, Step};
use crate::text::{atoi, integer_of, same_name, same_text};

verus! {

pub const SF_DYNAMICPROP_DISABLE_COLLISION: u32 = 0x100;

/// Where in its sequence a model is: the cycle that it had at a time, and the
/// rate at which that goes on.
#[derive(Debug, Clone, Copy, PartialEq, Eq, Structural)]
pub struct Pose {
    pub cycle: Scalar,
    pub anim_time: Scalar,
    pub playback_rate: Scalar,
}

/// What a map says of an animated model.
#[derive(Debug)]
pub struct DynamicPropKeys {
    /// What it does when it has nothing else to do.
    pub default_anim: String,
    /// It holds the last frame, and does not go back to that.
    pub hold_animation: bool,
    pub start_disabled: bool,
    pub skin: i32,
    pub body: i32,
}

/// An animated model.
#[derive(Debug)]
pub struct DynamicProp {
    pub keys: DynamicPropKeys,
    pub sequence: String,
    pub pose: Pose,
    /// Whether the end of the sequence has been reported.
    pub animation_done: bool,
    pub fading: bool,
    pub fade_alpha: Scalar,
}

pub struct DynamicPropKeysView {
    pub default_anim: Seq<char>,
    pub hold_animation: bool,
    pub start_disabled: bool,
    pub skin: i32,
    pub body: i32,
}

pub struct DynamicPropView {
    pub keys: DynamicPropKeysView,
    pub sequence: Seq<char>,
    pub pose: Pose,
    pub animation_done: bool,
    pub fading: bool,
    pub fade_alpha: Scalar,
}

impl View for DynamicPropKeys {
    type V = DynamicPropKeysView;

    open spec fn view(&self) -> DynamicPropKeysView {
        DynamicPropKeysView {
            default_anim: self.default_anim@,
            hold_animation: self.hold_animation,
            start_disabled: self.start_disabled,
            skin: self.skin,
            body: self.body,
        }
    }
}

impl View for DynamicProp {
    type V = DynamicPropView;

    open spec fn view(&self) -> DynamicPropView {
        DynamicPropView {
            keys: self.keys@,
            sequence: self.sequence@,
            pose: self.pose,
            animation_done: self.animation_done,
            fading: self.fading,
            fade_alpha: self.fade_alpha,
        }
    }
}

/// Where a pose comes to by now.
#[derive(Debug, Clone, Copy)]
pub struct PlayFigures {
    /// The cycle, and what the rate adds to it over the time that has passed
    /// and the sequence's length.
    pub advanced: Scalar,
    /// The part of that beyond whole turns of the sequence.
    pub wrapped: Scalar,
}

/// What a tick's fading comes to.
#[derive(Debug, Clone, Copy)]
pub struct FadeFigures {
    /// The opacity, and a tick's share of it less.
    pub left: Scalar,
    /// What is left of it as a byte.
    pub byte: u8,
}

/// The cycle by now: where it was, for a sequence without length; wrapped
/// round, for one that loops; else held at either end.
pub open spec fn cycle_by_now(pose: Pose, info: SequenceInfo, figures: PlayFigures) -> Scalar {
    if info.duration.at_most(num(ZERO)) {
        pose.cycle
    } else if info.loops {
        figures.wrapped
    } else {
        figures.advanced.clamped(num(ZERO), num(ONE))
    }
}

/// Whether a class is one of the two whose unsolid models get a box.
pub open spec fn plain_dynamic(core: CoreView) -> bool {
    core.classname == "prop_dynamic"@ || core.classname == "dynamic_prop"@
}

impl DynamicPropView {
    pub open spec fn fresh() -> DynamicPropView {
        DynamicPropView {
            keys: DynamicPropKeysView {
                default_anim: Seq::empty(),
                hold_animation: false,
                start_disabled: false,
                skin: 0,
                body: 0,
            },
            sequence: Seq::empty(),
            pose: Pose { cycle: num(ZERO), anim_time: num(ZERO), playback_rate: num(ZERO) },
            animation_done: false,
            fading: false,
            fade_alpha: num(BYTE_MAX),
        }
    }

    pub open spec fn with_keys(self, keys: DynamicPropKeysView) -> DynamicPropView {
        DynamicPropView { keys, ..self }
    }

    /// Keys that a prop knows and nothing comes of.
    pub open spec fn inert_key(key: Seq<char>) -> bool {
        same_name(key, "RandomAnimation"@) || same_name(key, "MinAnimTime"@) || same_name(key, "MaxAnimTime"@)
            || same_name(key, "AnimateEveryFrame"@) || same_name(key, "DisableBoneFollowers"@) || same_name(
            key,
            "SuppressAnimSounds"@,
        ) || same_name(key, "LightingOrigin"@) || same_name(key, "PerformanceMode"@) || same_name(
            key,
            "ExplodeDamage"@,
        ) || same_name(key, "ExplodeRadius"@) || same_name(key, "PressureDelay"@)
    }

    /// Health is taken in and dropped, but for the one class that may have
    /// some.
    #[verifier::opaque]
    pub open spec fn keyed(self, core: CoreView, key: Seq<char>, value: Value) -> Option<DynamicPropView> {
        let number = integer_of(value.text@);
        if same_name(key, "DefaultAnim"@) {
            Some(self.with_keys(DynamicPropKeysView { default_anim: value.text@, ..self.keys }))
        } else if same_name(key, "HoldAnimation"@) {
            Some(self.with_keys(DynamicPropKeysView { hold_animation: number != 0, ..self.keys }))
        } else if same_name(key, "StartDisabled"@) {
            Some(self.with_keys(DynamicPropKeysView { start_disabled: number != 0, ..self.keys }))
        } else if same_name(key, "skin"@) {
            Some(self.with_keys(DynamicPropKeysView { skin: number as i32, ..self.keys }))
        } else if same_name(key, "SetBodyGroup"@) {
            Some(self.with_keys(DynamicPropKeysView { body: number as i32, ..self.keys }))
        } else if same_name(key, "health"@) && core.classname != "prop_dynamic_override"@ {
            Some(self)
        } else if DynamicPropView::inert_key(key) {
            Some(self)
        } else {
            None
        }
    }
}

/// What the class makes of a prop without a solid shape of its own.
pub open spec fn boxed(core: CoreView) -> CoreView {
    if core.body.solid == Solid::Nothing && plain_dynamic(core) {
        core.with_body(
            Body { solid: Solid::Obb, solid_flags: core.body.solid_flags | FSOLID_NOT_SOLID, ..core.body },
        )
    } else {
        core
    }
}

/// What is known of a sequence of an entity's model.
pub open spec fn sequence_of(core: CoreView, cx: ContextView, label: Seq<char>) -> Lookup {
    match core.model {
        Some(model) => cx.tables.sequences.entry(model, label),
        None => Lookup::Unknown,
    }
}

/// Whether nothing is scheduled that is still to come.
pub open spec fn idle(core: CoreView, cx: ContextView) -> bool {
    core.agenda.next_think.at_most(cx.time.curtime)
}

impl Step<DynamicPropView> {
    /// A sequence started from its beginning.
    pub open spec fn started(self, anim: Seq<char>) -> Step<DynamicPropView> {
        let playing = self.with(
            DynamicPropView {
                sequence: anim,
                pose: Pose { cycle: num(ZERO), anim_time: self.cx.time.curtime, playback_rate: num(ONE) },
                fading: false,
                ..self.me
            },
        );
        if idle(self.core, self.cx) {
            playing.think(Schedule::After(num(TENTH)))
        } else {
            playing
        }
    }

    /// A sequence asked for by name. A model that lacks it stands still.
    pub open spec fn animated(self, anim: Seq<char>) -> Step<DynamicPropView> {
        if anim.len() == 0 {
            self
        } else if sequence_of(self.core, self.cx, anim) == Lookup::Missing {
            self.with(DynamicPropView { sequence: Seq::empty(), ..self.me })
        } else {
            self.started(anim).fire("OnAnimationBegun"@, Variant::Void, None)
        }
    }

    /// Whether the sequence is one that ends, and has.
    pub open spec fn finished(self, info: SequenceInfo, figures: PlayFigures) -> bool {
        let cycle = cycle_by_now(self.me.pose, info, figures);
        if num(ZERO).at_most(self.me.pose.playback_rate) {
            num(NEARLY_ONE).at_most(cycle)
        } else {
            cycle.at_most(num(ZERO))
        }
    }

    /// The end of the sequence: reported once, and then the default sequence,
    /// unless the last frame is to be held.
    pub open spec fn ended(self) -> Step<DynamicPropView> {
        let reported = if self.me.animation_done {
            self
        } else {
            self.with(DynamicPropView { animation_done: true, ..self.me }).fire(
                "OnAnimationDone"@,
                Variant::Void,
                None,
            )
        };
        if self.me.keys.hold_animation {
            reported
        } else {
            reported.animated(self.me.keys.default_anim)
        }
    }

    /// The think that looks for the end of a sequence. It stops where there is
    /// none to be found.
    pub open spec fn watched(self, figures: PlayFigures) -> Step<DynamicPropView> {
        let unfinished = self.with(DynamicPropView { animation_done: false, ..self.me });
        match sequence_of(self.core, self.cx, self.me.sequence) {
            Lookup::Found(info) => if info.loops || info.duration.at_most(num(ZERO)) {
                unfinished
            } else if self.finished(info, figures) {
                self.ended()
            } else {
                unfinished.think(Schedule::After(num(TENTH)))
            },
            _ => unfinished,
        }
    }

    /// One tick of fading. What has faded away goes.
    pub open spec fn faded(self, figures: FadeFigures) -> Step<DynamicPropView> {
        let alpha = figures.left.larger(num(ZERO));
        let look = self.core.look;
        let dimmed = self.with(DynamicPropView { fade_alpha: alpha, ..self.me }).with_core(
            self.core.with_look(Look { color: Rgba { a: figures.byte, ..look.color }, ..look }),
        );
        if alpha.at_most(num(ZERO)) {
            dimmed.remove()
        } else {
            dimmed.think(Schedule::Now)
        }
    }

    pub open spec fn broken(self, breaker: Option<EntityId>) -> Step<DynamicPropView> {
        self.with_core(
            self.core.with_vitals(Vitals { take_damage: DamageMode::No, ..self.core.vitals }).adding_solid_flags(
                FSOLID_NOT_SOLID,
            ),
        ).fire("OnBreak"@, Variant::Void, breaker).remove()
    }

    /// A new rate, from the cycle that there is by now.
    pub open spec fn at_rate(self, rate: Scalar, figures: PlayFigures) -> Step<DynamicPropView> {
        if rate.same(self.me.pose.playback_rate) {
            self
        } else {
            let cycle = match sequence_of(self.core, self.cx, self.me.sequence) {
                Lookup::Found(info) => cycle_by_now(self.me.pose, info, figures),
                _ => self.me.pose.cycle,
            };
            let pose = Pose { cycle, anim_time: self.cx.time.curtime, playback_rate: rate };
            if idle(self.core, self.cx) {
                self.with(DynamicPropView { pose, fading: false, ..self.me }).think(Schedule::Now)
            } else {
                self.with(DynamicPropView { pose, ..self.me })
            }
        }
    }

    /// The start of a fade: fully there, in nobody's way, and not turning.
    pub open spec fn fading(self) -> Step<DynamicPropView> {
        let look = self.core.look;
        self.with(DynamicPropView { fading: true, fade_alpha: num(BYTE_MAX), ..self.me }).with_core(
            self.core.with_look(
                Look { color: Rgba { a: 255, ..look.color }, render_mode: 0, ..look },
            ).adding_solid_flags(FSOLID_NOT_SOLID).with_drive(
                Drive { angular_velocity: Spin { axis: origin(), speed: num(ZERO) }, ..self.core.drive },
            ),
        ).think(Schedule::Now)
    }

    /// The inputs that set a sequence going.
    pub open spec fn animation_input(self, input: Input, figures: PlayFigures) -> Option<Step<DynamicPropView>> {
        let name = input.name@;
        if same_name(name, "SetAnimation"@) {
            Some(self.animated(input.text@))
        } else if same_name(name, "SetAnimationNoReset"@) {
            Some(if same_name(self.me.sequence, input.text@) { self } else { self.animated(input.text@) })
        } else if same_name(name, "SetDefaultAnimation"@) {
            Some(
                self.with(self.me.with_keys(DynamicPropKeysView { default_anim: input.text@, ..self.me.keys })),
            )
        } else if same_name(name, "SetPlaybackRate"@) {
            Some(self.at_rate(input.value.number(), figures))
        } else {
            None
        }
    }

    /// The inputs that change what the prop looks like, or end it.
    pub open spec fn body_input(self, input: Input) -> Option<Step<DynamicPropView>> {
        let name = input.name@;
        let keys = self.me.keys;
        if same_name(name, "TurnOn"@) || same_name(name, "Enable"@) {
            Some(self.with_core(self.core.shown()))
        } else if same_name(name, "TurnOff"@) || same_name(name, "Disable"@) {
            Some(self.with_core(self.core.hidden()))
        } else if same_name(name, "EnableCollision"@) {
            Some(self.with_core(self.core.removing_solid_flags(FSOLID_NOT_SOLID)))
        } else if same_name(name, "DisableCollision"@) {
            Some(self.with_core(self.core.adding_solid_flags(FSOLID_NOT_SOLID)))
        } else if same_name(name, "BecomeRagdoll"@) {
            Some(self)
        } else if same_name(name, "FadeAndKill"@) {
            Some(self.fading())
        } else if same_name(name, "Break"@) {
            Some(self.broken(input.activator))
        } else if same_name(name, "skin"@) {
            Some(self.with(self.me.with_keys(DynamicPropKeysView { skin: input.value.count(), ..keys })))
        } else if same_name(name, "SetBodyGroup"@) {
            Some(self.with(self.me.with_keys(DynamicPropKeysView { body: input.value.count(), ..keys })))
        } else {
            None
        }
    }

    #[verifier::opaque]
    pub open spec fn dynamic_prop_input(self, input: Input, figures: PlayFigures) -> Option<Step<DynamicPropView>> {
        match self.animation_input(input, figures) {
            Some(s) => Some(s),
            None => self.body_input(input),
        }
    }

    /// Whether the prop has a model at all.
    pub open spec fn modelled(self) -> bool {
        self.core.model matches Some(model) && model.len() > 0
    }

    pub open spec fn spawned(self) -> Step<DynamicPropView> {
        let boxed = boxed(self.core);
        if !self.modelled() {
            self.with_core(boxed)
        } else {
            let placed = self.with(
                DynamicPropView {
                    pose: Pose { cycle: num(ZERO), anim_time: self.cx.time.curtime, playback_rate: num(ZERO) },
                    ..self.me
                },
            ).with_core(
                boxed.with_body(Body { move_type: MoveType::Push, ..boxed.body }).with_vitals(
                    Vitals { health: 0, max_health: 1, take_damage: DamageMode::EventsOnly, ..boxed.vitals },
                ),
            ).animated(self.me.keys.default_anim);
            let seen = if self.me.keys.start_disabled { placed.core.hidden() } else { placed.core };
            placed.with_core(
                if self.core.spawned_with(SF_DYNAMICPROP_DISABLE_COLLISION) {
                    seen.adding_solid_flags(FSOLID_NOT_SOLID)
                } else {
                    seen
                },
            )
        }
    }
}

impl DynamicProp {
    pub fn create() -> (r: DynamicProp)
        ensures
            r@ == DynamicPropView::fresh(),
    {
        DynamicProp {
            keys: DynamicPropKeys {
                default_anim: String::new(),
                hold_animation: false,
                start_disabled: false,
                skin: 0,
                body: 0,
            },
            sequence: String::new(),
            pose: Pose { cycle: num(ZERO), anim_time: num(ZERO), playback_rate: num(ZERO) },
            animation_done: false,
            fading: false,
            fade_alpha: num(BYTE_MAX),
        }
    }

    /// Whether the class is one of the two whose unsolid models get a box.
    pub fn is_plain_dynamic(entity: &EntityCore) -> (r: bool)
        ensures
            r == plain_dynamic(entity@),
    {
        same_text(entity.classname, "prop_dynamic") || same_text(entity.classname, "dynamic_prop")
    }

    /// Whether the class is the one that may have health.
    pub fn allows_health(entity: &EntityCore) -> (r: bool)
        ensures
            r == (entity@.classname == "prop_dynamic_override"@),
    {
        same_text(entity.classname, "prop_dynamic_override")
    }

    /// The cycle by now.
    pub fn cycle_now(&self, info: SequenceInfo, figures: &PlayFigures) -> (r: Scalar)
        ensures
            r == cycle_by_now(self.pose, info, *figures),
    {
        if info.duration.le(num(ZERO)) {
            self.pose.cycle
        } else if info.loops {
            figures.wrapped
        } else {
            figures.advanced.clamp(num(ZERO), num(ONE))
        }
    }

    /// What is known of the sequence that is playing.
    pub fn current_sequence(&self, entity: &EntityCore, cx: &Context) -> (r: Lookup)
        ensures
            r == sequence_of(entity@, cx@, self@.sequence),
    {
        match &entity.model {
            Some(model) => cx.sequence(model.as_str(), self.sequence.as_str()),
            None => Lookup::Unknown,
        }
    }

    /// Plays a sequence by name, if the model has it.
    pub fn prop_set_anim(&mut self, entity: &mut EntityCore, anim: &str, cx: &mut Context)
        ensures
            step(final(self)@, final(entity)@, final(cx)@) == step(old(self)@, old(entity)@, old(cx)@).animated(anim@),
    {
        if anim.is_empty() {
            return;
        }
        let lookup = match &entity.model {
            Some(model) => cx.sequence(model.as_str(), anim),
            None => Lookup::Unknown,
        };
        if lookup == Lookup::Missing {
            self.sequence = String::new();
            return;
        }
        self.prop_set_sequence(entity, anim, cx);
        let me = Some(entity.id());
        entity.fire_output("OnAnimationBegun", Variant::Void, None, me, num(ZERO), cx);
    }

    pub fn prop_set_sequence(&mut self, entity: &mut EntityCore, anim: &str, cx: &Context)
        ensures
            step(final(self)@, final(entity)@, cx@) == step(old(self)@, old(entity)@, cx@).started(anim@),
    {
        self.sequence = anim.to_owned();
        self.pose = Pose { cycle: num(ZERO), anim_time: cx.curtime(), playback_rate: num(ONE) };
        self.fading = false;
        if entity.next_think().le(cx.curtime()) {
            entity.set_next_think(Schedule::After(num(TENTH)));
        }
    }

    pub fn anim_think(&mut self, entity: &mut EntityCore, figures: &PlayFigures, cx: &mut Context)
        ensures
            step(final(self)@, final(entity)@, final(cx)@) == step(old(self)@, old(entity)@, old(cx)@).watched(*figures),
    {
        let info = match self.current_sequence(entity, cx) {
            Lookup::Found(info) => info,
            _ => {
                self.animation_done = false;
                return;
            }
        };
        if info.loops || info.duration.le(num(ZERO)) {
            self.animation_done = false;
            return;
        }
        let cycle = self.cycle_now(info, figures);
        let finished = if num(ZERO).le(self.pose.playback_rate) {
            num(NEARLY_ONE).le(cycle)
        } else {
            cycle.le(num(ZERO))
        };
        if !finished {
            self.animation_done = false;
            entity.set_next_think(Schedule::After(num(TENTH)));
            return;
        }
        self.end_sequence(entity, cx);
    }

    fn end_sequence(&mut self, entity: &mut EntityCore, cx: &mut Context)
        ensures
            step(final(self)@, final(entity)@, final(cx)@) == step(old(self)@, old(entity)@, old(cx)@).ended(),
    {
        if !self.animation_done {
            self.animation_done = true;
            let me = Some(entity.id());
            entity.fire_output("OnAnimationDone", Variant::Void, None, me, num(ZERO), cx);
        }
        if !self.keys.hold_animation {
            let anim = self.keys.default_anim.clone();
            self.prop_set_anim(entity, anim.as_str(), cx);
        }
    }

    pub fn fade_think(&mut self, entity: &mut EntityCore, figures: &FadeFigures, cx: &Context)
        ensures
            step(final(self)@, final(entity)@, cx@) == step(old(self)@, old(entity)@, cx@).faded(*figures),
    {
        self.fade_alpha = figures.left.max(num(ZERO));
        entity.look.color.a = figures.byte;
        if self.fade_alpha.le(num(ZERO)) {
            entity.remove();
        } else {
            entity.set_next_think(Schedule::Now);
        }
    }

    pub fn break_prop(&mut self, entity: &mut EntityCore, breaker: Option<EntityId>, cx: &mut Context)
        ensures
            step(final(self)@, final(entity)@, final(cx)@) == step(old(self)@, old(entity)@, old(cx)@).broken(breaker),
    {
        entity.vitals.take_damage = DamageMode::No;
        let me = Some(entity.id());
        entity.fire_output("OnBreak", Variant::Void, breaker, me, num(ZERO), cx);
        entity.add_solid_flags(FSOLID_NOT_SOLID);
        entity.remove();
    }

    pub fn key_value(&mut self, entity: &EntityCore, key: &str, value: &Value) -> (r: bool)
        ensures
            r == old(self)@.keyed(entity@, key@, *value) is Some,
            final(self)@ == old(self)@.keyed(entity@, key@, *value).unwrap_or(old(self)@),
    {
        reveal(DynamicPropView::keyed);
        if key.eq_ignore_ascii_case("DefaultAnim") {
            self.keys.default_anim = value.text.clone();
            return true;
        }
        if key.eq_ignore_ascii_case("HoldAnimation") {
            self.keys.hold_animation = atoi(value.text.as_str()) != 0;
            return true;
        }
        if key.eq_ignore_ascii_case("StartDisabled") {
            self.keys.start_disabled = atoi(value.text.as_str()) != 0;
            return true;
        }
        if key.eq_ignore_ascii_case("skin") {
            self.keys.skin = atoi(value.text.as_str());
            return true;
        }
        if key.eq_ignore_ascii_case("SetBodyGroup") {
            self.keys.body = atoi(value.text.as_str());
            return true;
        }
        if key.eq_ignore_ascii_case("health") && !DynamicProp::allows_health(entity) {
            return true;
        }
        key.eq_ignore_ascii_case("RandomAnimation") || key.eq_ignore_ascii_case("MinAnimTime")
            || key.eq_ignore_ascii_case("MaxAnimTime") || key.eq_ignore_ascii_case("AnimateEveryFrame")
            || key.eq_ignore_ascii_case("DisableBoneFollowers") || key.eq_ignore_ascii_case("SuppressAnimSounds")
            || key.eq_ignore_ascii_case("LightingOrigin") || key.eq_ignore_ascii_case("PerformanceMode")
            || key.eq_ignore_ascii_case("ExplodeDamage") || key.eq_ignore_ascii_case("ExplodeRadius")
            || key.eq_ignore_ascii_case("PressureDelay")
    }

    fn fit_box(entity: &mut EntityCore)
        ensures
            final(entity)@ == boxed(old(entity)@),
    {
        if entity.body.solid == Solid::Nothing && DynamicProp::is_plain_dynamic(entity) {
            entity.body.solid = Solid::Obb;
            entity.body.solid_flags = entity.body.solid_flags | FSOLID_NOT_SOLID;
        }
    }

    /// Takes its place, or goes where it has no model.
    pub fn spawn(&mut self, entity: &mut EntityCore, cx: &mut Context) -> (r: SpawnResult)
        ensures
            r == (if step(old(self)@, old(entity)@, old(cx)@).modelled() {
                SpawnResult::Keep
            } else {
                SpawnResult::Remove
            }),
            step(final(self)@, final(entity)@, final(cx)@) == step(old(self)@, old(entity)@, old(cx)@).spawned(),
    {
        DynamicProp::fit_box(entity);
        let modelled = match &entity.model {
            Some(model) => !model.as_str().is_empty(),
            None => false,
        };
        if !modelled {
            return SpawnResult::Remove;
        }
        let unsolid = entity.has_spawn_flags(SF_DYNAMICPROP_DISABLE_COLLISION);
        entity.body.move_type = MoveType::Push;
        self.pose = Pose { cycle: num(ZERO), anim_time: cx.curtime(), playback_rate: num(ZERO) };
        entity.vitals.health = 0;
        entity.vitals.max_health = 1;
        entity.vitals.take_damage = DamageMode::EventsOnly;
        let hidden = self.keys.start_disabled;
        let anim = self.keys.default_anim.clone();
        self.prop_set_anim(entity, anim.as_str(), cx);
        if hidden {
            entity.look.effects = entity.look.effects | EF_NODRAW;
        }
        if unsolid {
            entity.add_solid_flags(FSOLID_NOT_SOLID);
        }
        SpawnResult::Keep
    }

    pub fn think(&mut self, entity: &mut EntityCore, play: &PlayFigures, fade: &FadeFigures, cx: &mut Context)
        ensures
            step(final(self)@, final(entity)@, final(cx)@) == (if old(self)@.fading {
                step(old(self)@, old(entity)@, old(cx)@).faded(*fade)
            } else {
                step(old(self)@, old(entity)@, old(cx)@).watched(*play)
            }),
    {
        if self.fading {
            self.fade_think(entity, fade, cx);
        } else {
            self.anim_think(entity, play, cx);
        }
    }

    fn set_rate(&mut self, entity: &mut EntityCore, rate: Scalar, figures: &PlayFigures, cx: &Context)
        ensures
            step(final(self)@, final(entity)@, cx@) == step(old(self)@, old(entity)@, cx@).at_rate(rate, *figures),
    {
        if rate.equals(self.pose.playback_rate) {
            return;
        }
        match self.current_sequence(entity, cx) {
            Lookup::Found(info) => {
                self.pose.cycle = self.cycle_now(info, figures);
            }
            _ => {}
        }
        self.pose.anim_time = cx.curtime();
        self.pose.playback_rate = rate;
        if entity.next_think().le(cx.curtime()) {
            self.fading = false;
            entity.set_next_think(Schedule::Now);
        }
    }

    fn fade_and_kill(&mut self, entity: &mut EntityCore, cx: &Context)
        ensures
            step(final(self)@, final(entity)@, cx@) == step(old(self)@, old(entity)@, cx@).fading(),
    {
        self.fading = true;
        self.fade_alpha = num(BYTE_MAX);
        entity.look.color.a = 255;
        entity.look.render_mode = 0;
        entity.add_solid_flags(FSOLID_NOT_SOLID);
        entity.drive.angular_velocity = Spin { axis: origin(), speed: num(ZERO) };
        entity.set_next_think(Schedule::Now);
    }

    fn accept_animation_input(
        &mut self,
        entity: &mut EntityCore,
        input: &Input<'_>,
        figures: &PlayFigures,
        cx: &mut Context,
    ) -> (r: bool)
        ensures
            answered(
                step(old(self)@, old(entity)@, old(cx)@).animation_input(*input, *figures),
                step(old(self)@, old(entity)@, old(cx)@),
                r,
                step(final(self)@, final(entity)@, final(cx)@),
            ),
    {
        let name = input.name;
        if name.eq_ignore_ascii_case("SetAnimation") {
            self.prop_set_anim(entity, input.text.as_str(), cx);
            return true;
        }
        if name.eq_ignore_ascii_case("SetAnimationNoReset") {
            if !self.sequence.as_str().eq_ignore_ascii_case(input.text.as_str()) {
                self.prop_set_anim(entity, input.text.as_str(), cx);
            }
            return true;
        }
        if name.eq_ignore_ascii_case("SetDefaultAnimation") {
            self.keys.default_anim = input.text.clone();
            return true;
        }
        if name.eq_ignore_ascii_case("SetPlaybackRate") {
            self.set_rate(entity, input.value.float(), figures, cx);
            return true;
        }
        false
    }

    fn accept_body_input(&mut self, entity: &mut EntityCore, input: &Input<'_>, cx: &mut Context) -> (r: bool)
        ensures
            answered(
                step(old(self)@, old(entity)@, old(cx)@).body_input(*input),
                step(old(self)@, old(entity)@, old(cx)@),
                r,
                step(final(self)@, final(entity)@, final(cx)@),
            ),
    {
        let name = input.name;
        if name.eq_ignore_ascii_case("TurnOn") || name.eq_ignore_ascii_case("Enable") {
            entity.look.effects = entity.look.effects & !EF_NODRAW;
            return true;
        }
        if name.eq_ignore_ascii_case("TurnOff") || name.eq_ignore_ascii_case("Disable") {
            entity.look.effects = entity.look.effects | EF_NODRAW;
            return true;
        }
        if name.eq_ignore_ascii_case("EnableCollision") {
            entity.remove_solid_flags(FSOLID_NOT_SOLID);
            return true;
        }
        if name.eq_ignore_ascii_case("DisableCollision") {
            entity.add_solid_flags(FSOLID_NOT_SOLID);
            return true;
        }
        if name.eq_ignore_ascii_case("BecomeRagdoll") {
            return true;
        }
        if name.eq_ignore_ascii_case("FadeAndKill") {
            self.fade_and_kill(entity, cx);
            return true;
        }
        if name.eq_ignore_ascii_case("Break") {
            self.break_prop(entity, input.activator, cx);
            return true;
        }
        if name.eq_ignore_ascii_case("skin") {
            self.keys.skin = input.value.integer();
            return true;
        }
        if name.eq_ignore_ascii_case("SetBodyGroup") {
            self.keys.body = input.value.integer();
            return true;
        }
        false
    }

    /// Takes an input. `figures` is where the pose comes to by now.
    pub fn accept_input(
        &mut self,
        entity: &mut EntityCore,
        input: &Input<'_>,
        figures: &PlayFigures,
        cx: &mut Context,
    ) -> (r: bool)
        ensures
            answered(
                step(old(self)@, old(entity)@, old(cx)@).dynamic_prop_input(*input, *figures),
                step(old(self)@, old(entity)@, old(cx)@),
                r,
                step(final(self)@, final(entity)@, final(cx)@),
            ),
    {
        reveal(Step::<_>::dynamic_prop_input);
        if self.accept_animation_input(entity, input, figures, cx) {
            return true;
        }
        self.accept_body_input(entity, input, cx)
    }
}

/// A fade never leaves an opacity below nothing, and a prop that has faded away
/// asks to be removed.
pub proof fn a_fade_ends_in_removal(state: Step<DynamicPropView>, figures: FadeFigures)
    requires
        figures.left.numeric(),
        !state.core.agenda.removed,
    ensures
        num(ZERO).at_most(state.faded(figures).me.fade_alpha),
        state.faded(figures).core.agenda.removed <==> figures.left.at_most(num(ZERO)),
{
}

/// The end of a sequence is reported once.
pub proof fn an_ending_is_reported_once(state: Step<DynamicPropView>)
    requires
        state.me.keys.hold_animation,
    ensures
        state.ended().me.animation_done,
        state.ended().ended() == state.ended(),
{
}

} // verus!
