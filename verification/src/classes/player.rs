//! The player, and the entities that speak to it.
use vstd::prelude::*;

use crate::class::SpawnResult;
use crate::context::{Context, ContextView, OutboxView};
use crate::damage::{
    DamageInfo, DamageMode, Damaged, LifeState, Wound, DMG_GENERIC, DMG_NEVERGIB, DMG_PREVENT_PHYSICS_FORCE,
};
use crate::entity::{
    Body, CoreView, Drive, EntityCore, MoveType, Schedule, Solid, Vitals, FL_CLIENT, FL_FROZEN, FL_GODMODE, FL_NOTARGET,
    FL_ONGROUND, FSOLID_NOT_SOLID,
};
use crate::io::{Input, Value};
use crate::scalar::{num, origin, Scalar, Vector, TENTH, ZERO};
use crate::step::{answered, step, Step};
use crate::text::same_name;

verus! {

pub const IN_JUMP: u32 = 0x2;

pub const IN_DUCK: u32 = 0x4;

pub const IN_USE: u32 = 0x20;

/// What a player starts with, and can have at most.
pub const PLAYER_HEALTH: i32 = 100;

/// The player.
#[derive(Debug, Clone, Copy, PartialEq, Eq, Structural)]
pub struct Player {
    /// The buttons that are down.
    pub buttons: u32,
    /// The buttons that were down before.
    pub last_buttons: u32,
    /// The buttons that have just gone down.
    pub pressed_buttons: u32,
    pub death_time: Scalar,
    pub next_suicide_time: Scalar,
}

/// What a dead player's body comes to.
#[derive(Debug, Clone, Copy)]
pub struct DeathFigures {
    /// Its speed, and twenty less.
    pub speed: Scalar,
    /// Its velocity at that speed.
    pub slowed: Vector,
    /// When it starts over: three seconds after its death.
    pub respawn_at: Scalar,
}

/// What a change of health comes to.
#[derive(Debug, Clone, Copy)]
pub struct HealthFigures {
    /// How far the health asked for is from the health there is.
    pub delta: Scalar,
    /// The health that comes of gaining that much.
    pub healed: i32,
    /// What comes of losing that much.
    pub wound: Wound,
}

impl Player {
    pub open spec fn fresh() -> Player {
        Player {
            buttons: 0,
            last_buttons: 0,
            pressed_buttons: 0,
            death_time: num(ZERO),
            next_suicide_time: num(ZERO),
        }
    }
}

/// A player's entity once it has spawned: alive, solid, and hurtable.
pub open spec fn player_built(core: CoreView) -> CoreView {
    CoreView {
        flags: core.flags | FL_CLIENT,
        body: Body {
            solid: Solid::Bbox,
            solid_flags: core.body.solid_flags & !FSOLID_NOT_SOLID,
            move_type: MoveType::Walk,
            ..core.body
        },
        vitals: Vitals {
            life_state: LifeState::Alive,
            health: PLAYER_HEALTH,
            max_health: PLAYER_HEALTH,
            take_damage: DamageMode::Yes,
            ..core.vitals
        },
        ..core
    }
}

impl Step<Player> {
    /// Killed, as of now.
    pub open spec fn killed(self) -> Step<Player> {
        let vitals = self.core.vitals;
        self.with(Player { death_time: self.cx.time.curtime, ..self.me }).with_core(
            CoreView {
                flags: self.core.flags & !FL_ONGROUND,
                body: Body {
                    solid_flags: self.core.body.solid_flags | FSOLID_NOT_SOLID,
                    move_type: MoveType::FlyGravity,
                    ..self.core.body
                },
                vitals: Vitals {
                    health: if vitals.health < -99 { 0i32 } else { vitals.health },
                    life_state: LifeState::Dying,
                    ..vitals
                },
                ..self.core
            },
        )
    }

    pub open spec fn dying(self) -> Step<Player> {
        self.think(Schedule::After(num(TENTH)))
    }

    /// Whether damage of an amount comes to nothing, whatever the amount.
    pub open spec fn spared(self, damage: Scalar) -> bool {
        self.core.flagged(FL_GODMODE) || damage.same(num(ZERO)) || !self.core.alive()
    }

    /// Hurt, unless the player is spared.
    pub open spec fn hurt(self, damage: Scalar, wound: Wound) -> Step<Player> {
        if self.spared(damage) {
            self
        } else {
            let wounded = self.with_core(
                self.core.with_vitals(
                    Vitals { health: wound.health, accumulator: wound.accumulator, ..self.core.vitals },
                ),
            );
            if wound.result == Damaged::Killed {
                wounded.killed().dying()
            } else {
                wounded
            }
        }
    }

    /// Whether the player can die by its own hand now.
    pub open spec fn may_die(self, force: bool) -> bool {
        self.core.alive() && (force || !self.cx.time.curtime.less(self.me.next_suicide_time))
    }

    pub open spec fn suicide(self, force: bool, next_time: Scalar) -> Step<Player> {
        if self.may_die(force) {
            self.with(Player { next_suicide_time: next_time, ..self.me }).with_core(
                self.core.with_vitals(Vitals { health: 0, ..self.core.vitals }),
            ).killed().dying()
        } else {
            self
        }
    }

    pub open spec fn starting_over(self) -> Step<Player> {
        self.with(Player { buttons: 0, ..self.me }).think(Schedule::Never).with_cx(self.cx.reloading())
    }

    /// A dead player's think: the body slows down on the ground, and the level
    /// starts over when its time has come.
    pub open spec fn dead(self, figures: DeathFigures) -> Step<Player> {
        let velocity = if !self.core.flagged(FL_ONGROUND) {
            self.core.drive.velocity
        } else if figures.speed.at_most(num(ZERO)) {
            origin()
        } else {
            figures.slowed
        };
        let life_state = if self.core.vitals.life_state == LifeState::Dying {
            LifeState::Dead
        } else {
            self.core.vitals.life_state
        };
        let lain = self.with_core(
            self.core.with_drive(Drive { velocity, ..self.core.drive }).with_vitals(
                Vitals { life_state, ..self.core.vitals },
            ),
        ).think(Schedule::After(num(TENTH)));
        if figures.respawn_at.less(self.cx.time.curtime) {
            lain.starting_over()
        } else {
            lain
        }
    }

    #[verifier::opaque]
    pub open spec fn player_input(self, input: Input, figures: HealthFigures) -> Option<Step<Player>> {
        if same_name(input.name@, "SetHealth"@) {
            let target = input.value.count();
            Some(
                if target > self.core.vitals.health {
                    self.with_core(
                        self.core.with_vitals(Vitals { health: figures.healed, ..self.core.vitals }),
                    )
                } else if target < self.core.vitals.health {
                    self.hurt(figures.delta, figures.wound)
                } else {
                    self
                },
            )
        } else {
            None
        }
    }
}

impl ContextView {
    pub open spec fn reloading(self) -> ContextView {
        self.with_outbox(OutboxView { reload_level: true, ..self.outbox })
    }
}

impl Player {
    pub fn create() -> (r: Player)
        ensures
            r == Player::fresh(),
    {
        Player {
            buttons: 0,
            last_buttons: 0,
            pressed_buttons: 0,
            death_time: num(ZERO),
            next_suicide_time: num(ZERO),
        }
    }

    /// The buttons that are down.
    pub fn buttons(&self) -> (r: u32)
        ensures
            r == self.buttons,
    {
        self.buttons
    }

    /// The buttons that have just gone down.
    pub fn pressed_buttons(&self) -> (r: u32)
        ensures
            r == self.pressed_buttons,
    {
        self.pressed_buttons
    }

    /// Takes in which buttons are down now.
    pub fn update_button_state(&mut self, buttons: u32)
        ensures
            *final(self) == (Player {
                last_buttons: old(self).buttons,
                buttons,
                pressed_buttons: buttons & !old(self).buttons,
                ..*old(self)
            }),
    {
        let before: u32 = self.buttons;
        self.last_buttons = self.buttons;
        self.buttons = buttons;
        let changed: u32 = self.last_buttons ^ self.buttons;
        self.pressed_buttons = changed & self.buttons;
        assert((before ^ buttons) & buttons == buttons & !before) by (bit_vector);
    }

    /// Dies by its own hand, if it can. `next_time` is when it can again.
    pub fn commit_suicide(&mut self, entity: &mut EntityCore, cx: &mut Context, force: bool, next_time: Scalar) -> (r: bool)
        ensures
            r == step(*old(self), old(entity)@, old(cx)@).may_die(force),
            step(*final(self), final(entity)@, final(cx)@) == step(*old(self), old(entity)@, old(cx)@).suicide(
                force,
                next_time,
            ),
    {
        if !entity.is_alive() {
            return false;
        }
        if cx.curtime().lt(self.next_suicide_time) && !force {
            return false;
        }
        self.next_suicide_time = next_time;
        entity.vitals.health = 0;
        let me = Some(entity.id());
        let info = DamageInfo::new(me, me, num(ZERO), DMG_PREVENT_PHYSICS_FORCE | DMG_NEVERGIB);
        self.event_killed(entity, &info, cx);
        self.event_dying(entity, cx);
        true
    }

    pub fn event_killed(&mut self, entity: &mut EntityCore, info: &DamageInfo, cx: &Context)
        ensures
            step(*final(self), final(entity)@, cx@) == step(*old(self), old(entity)@, cx@).killed(),
    {
        if entity.vitals.health < -99 {
            entity.vitals.health = 0;
        }
        entity.vitals.life_state = LifeState::Dying;
        entity.add_solid_flags(FSOLID_NOT_SOLID);
        entity.body.move_type = MoveType::FlyGravity;
        entity.flags = entity.flags & !FL_ONGROUND;
        self.death_time = cx.curtime();
    }

    pub fn event_dying(&mut self, entity: &mut EntityCore, cx: &Context)
        ensures
            step(*final(self), final(entity)@, cx@) == step(*old(self), old(entity)@, cx@).dying(),
    {
        entity.set_next_think(Schedule::After(num(TENTH)));
    }

    pub fn player_death_think(&mut self, entity: &mut EntityCore, figures: &DeathFigures, cx: &mut Context)
        ensures
            step(*final(self), final(entity)@, final(cx)@) == step(*old(self), old(entity)@, old(cx)@).dead(*figures),
    {
        entity.set_next_think(Schedule::After(num(TENTH)));
        if entity.has_flags(FL_ONGROUND) {
            entity.drive.velocity = if figures.speed.le(num(ZERO)) {
                origin()
            } else {
                figures.slowed
            };
        }
        if entity.vitals.life_state == LifeState::Dying {
            entity.vitals.life_state = LifeState::Dead;
        }
        if figures.respawn_at.lt(cx.curtime()) {
            self.respawn_player(entity, cx);
        }
    }

    pub fn respawn_player(&mut self, entity: &mut EntityCore, cx: &mut Context)
        ensures
            step(*final(self), final(entity)@, final(cx)@) == step(*old(self), old(entity)@, old(cx)@).starting_over(),
    {
        self.buttons = 0;
        entity.set_next_think(Schedule::Never);
        cx.reload_level();
    }

    pub fn spawn(&mut self, entity: &mut EntityCore) -> (r: SpawnResult)
        ensures
            r == SpawnResult::Keep,
            *final(self) == *old(self),
            final(entity)@ == player_built(old(entity)@),
    {
        entity.body.solid = Solid::Bbox;
        entity.remove_solid_flags(FSOLID_NOT_SOLID);
        entity.flags = entity.flags | FL_CLIENT;
        entity.body.move_type = MoveType::Walk;
        entity.vitals.life_state = LifeState::Alive;
        entity.vitals.health = PLAYER_HEALTH;
        entity.vitals.max_health = PLAYER_HEALTH;
        entity.vitals.take_damage = DamageMode::Yes;
        SpawnResult::Keep
    }

    /// Takes damage. `wound` is what it comes to on the player's health.
    pub fn on_take_damage(&mut self, entity: &mut EntityCore, info: &DamageInfo, wound: &Wound, cx: &Context) -> (r: Damaged)
        ensures
            r == (if step(*old(self), old(entity)@, cx@).spared(info.damage) {
                Damaged::Refused
            } else {
                wound.result
            }),
            step(*final(self), final(entity)@, cx@) == step(*old(self), old(entity)@, cx@).hurt(info.damage, *wound),
    {
        if entity.has_flags(FL_GODMODE) {
            return Damaged::Refused;
        }
        if info.damage.equals(num(ZERO)) {
            return Damaged::Refused;
        }
        if !entity.is_alive() {
            return Damaged::Refused;
        }
        entity.vitals.health = wound.health;
        entity.vitals.accumulator = wound.accumulator;
        if wound.result == Damaged::Killed {
            self.event_killed(entity, info, cx);
            self.event_dying(entity, cx);
        }
        wound.result
    }

    pub fn think(&mut self, entity: &mut EntityCore, figures: &DeathFigures, cx: &mut Context)
        ensures
            step(*final(self), final(entity)@, final(cx)@) == (if old(entity)@.alive() {
                step(*old(self), old(entity)@, old(cx)@)
            } else {
                step(*old(self), old(entity)@, old(cx)@).dead(*figures)
            }),
    {
        if entity.is_alive() {
            return;
        }
        self.player_death_think(entity, figures, cx);
    }

    /// Takes an input. `figures` is what a change of health comes to.
    pub fn accept_input(
        &mut self,
        entity: &mut EntityCore,
        input: &Input<'_>,
        figures: &HealthFigures,
        cx: &mut Context,
    ) -> (r: bool)
        ensures
            answered(
                step(*old(self), old(entity)@, old(cx)@).player_input(*input, *figures),
                step(*old(self), old(entity)@, old(cx)@),
                r,
                step(*final(self), final(entity)@, final(cx)@),
            ),
    {
        reveal(Step::<_>::player_input);
        if input.name.eq_ignore_ascii_case("SetHealth") {
            let target: i32 = input.value.integer();
            if target > entity.vitals.health {
                entity.vitals.health = figures.healed;
            } else if target < entity.vitals.health {
                let me = Some(entity.id());
                let info = DamageInfo::new(me, me, figures.delta, DMG_GENERIC);
                self.on_take_damage(entity, &info, &figures.wound, cx);
            }
            return true;
        }
        false
    }
}

/// A player that cannot be hurt, is dead, or is dealt no damage is left as it
/// is.
pub proof fn a_spared_player_is_unchanged(state: Step<Player>, damage: Scalar, wound: Wound)
    requires
        state.core.flagged(FL_GODMODE) || damage.same(num(ZERO)) || !state.core.alive(),
    ensures
        state.hurt(damage, wound) == state,
{
}

/// A player that was killed is not alive, and cannot be killed again.
pub proof fn a_killed_player_cannot_be_killed_again(state: Step<Player>, damage: Scalar, wound: Wound, force: bool)
    ensures
        !state.killed().core.alive(),
        state.killed().dying().spared(damage),
        !state.killed().dying().may_die(force),
{
}

/// A button has just gone down if it is down and was not before.
pub proof fn a_button_goes_down_once(before: u32, now: u32, button: u32)
    ensures
        (now & !before) & button == (now & button) & !(before & button),
        now == before ==> now & !before == 0,
{
    assert((now & !before) & button == (now & button) & !(before & button)) by (bit_vector);
    assert(now == before ==> now & !before == 0) by (bit_vector);
}

// ---------------------------------------------------------------------------
// logic_playerproxy
// ---------------------------------------------------------------------------

/// Stands for the player in a map's connections.
#[derive(Debug, Clone, Copy, PartialEq, Eq, Structural)]
pub struct LogicPlayerProxy;

impl LogicPlayerProxy {
    pub fn create() -> (r: LogicPlayerProxy)
        ensures
            r == LogicPlayerProxy,
    {
        LogicPlayerProxy
    }
}

// ---------------------------------------------------------------------------
// player_loadsaved
// ---------------------------------------------------------------------------

/// Freezes the player, and starts the level over.
#[derive(Debug, Clone, Copy, PartialEq, Eq, Structural)]
pub struct RevertSaved {
    pub load_time: Scalar,
    pub duration: Scalar,
    pub hold_time: Scalar,
}

impl RevertSaved {
    #[verifier::opaque]
    pub open spec fn keyed(self, key: Seq<char>, value: Value) -> Option<RevertSaved> {
        if same_name(key, "loadtime"@) {
            Some(RevertSaved { load_time: value.number, ..self })
        } else if same_name(key, "duration"@) {
            Some(RevertSaved { duration: value.number, ..self })
        } else if same_name(key, "holdtime"@) {
            Some(RevertSaved { hold_time: value.number, ..self })
        } else {
            None
        }
    }
}

impl CoreView {
    /// Held still, not to be noticed, and counted as dead. Neither its health
    /// nor the way it moves changes.
    pub open spec fn frozen(self) -> CoreView {
        CoreView {
            flags: self.flags | (FL_NOTARGET | FL_FROZEN),
            vitals: Vitals { life_state: LifeState::Dead, ..self.vitals },
            ..self
        }
    }
}

impl Step<RevertSaved> {
    #[verifier::opaque]
    pub open spec fn revert_saved_input(self, input: Input) -> Option<Step<RevertSaved>> {
        if same_name(input.name@, "Reload"@) {
            let waiting = self.think(Schedule::After(self.me.load_time));
            Some(
                match self.cx.living_player() {
                    Some(player) => waiting.with_cx(
                        self.cx.noting(player).with_core(player, (self.cx.at(player)->0).core.frozen()),
                    ),
                    None => waiting,
                },
            )
        } else {
            None
        }
    }
}

impl RevertSaved {
    pub fn create() -> (r: RevertSaved)
        ensures
            r == (RevertSaved { load_time: num(ZERO), duration: num(ZERO), hold_time: num(ZERO) }),
    {
        RevertSaved { load_time: num(ZERO), duration: num(ZERO), hold_time: num(ZERO) }
    }

    pub fn key_value(&mut self, key: &str, value: &Value) -> (r: bool)
        ensures
            r == old(self).keyed(key@, *value) is Some,
            *final(self) == old(self).keyed(key@, *value).unwrap_or(*old(self)),
    {
        reveal(RevertSaved::keyed);
        if key.eq_ignore_ascii_case("loadtime") {
            self.load_time = value.number;
            return true;
        }
        if key.eq_ignore_ascii_case("duration") {
            self.duration = value.number;
            return true;
        }
        if key.eq_ignore_ascii_case("holdtime") {
            self.hold_time = value.number;
            return true;
        }
        false
    }

    pub fn accept_input(&mut self, entity: &mut EntityCore, input: &Input<'_>, cx: &mut Context) -> (r: bool)
        ensures
            answered(
                step(*old(self), old(entity)@, old(cx)@).revert_saved_input(*input),
                step(*old(self), old(entity)@, old(cx)@),
                r,
                step(*final(self), final(entity)@, final(cx)@),
            ),
    {
        reveal(Step::<_>::revert_saved_input);
        if !input.name.eq_ignore_ascii_case("Reload") {
            return false;
        }
        entity.set_next_think(Schedule::After(self.load_time));
        match cx.player() {
            Some(player) => {
                match cx.entity_mut(player) {
                    Some(core) => {
                        core.flags = core.flags | (FL_NOTARGET | FL_FROZEN);
                        core.vitals.life_state = LifeState::Dead;
                    }
                    None => {}
                }
            }
            None => {}
        }
        true
    }

    /// The level starts over.
    pub fn think(&mut self, cx: &mut Context)
        ensures
            *final(self) == *old(self),
            final(cx)@ == old(cx)@.reloading(),
    {
        cx.reload_level();
    }
}

} // verus!
