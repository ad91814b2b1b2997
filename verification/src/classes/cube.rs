//! The cubes that are carried about.
use vstd::prelude::*;

use crate::class::SpawnResult;
use crate::context::{Context, Request};
use crate::entity::{Body, CoreView, EntityCore, MoveType, Solid};
use crate::io::{Input, Value, Variant};
use crate::scalar::{num, ZERO};
use crate::step::{answered, step, Step};
use crate::text::{atoi, integer_of, lengths_tell_names_apart, letters_tell_names_apart, same_name};

verus! {

/// The cube's body starts asleep.
pub const SF_PHYSPROP_START_ASLEEP: u32 = 0x1;

/// The cube's body starts frozen.
pub const SF_PHYSPROP_MOTIONDISABLED: u32 = 0x8;

/// Which cube it is.
#[derive(Debug, Clone, Copy, PartialEq, Eq, Structural)]
pub enum CubeType {
    Standard,
    Companion,
    Reflective,
    Sphere,
    Antique,
    /// A reflective cube by another name.
    Schrodinger,
}

impl CubeType {
    pub open spec fn of(value: int) -> CubeType {
        if value == 1 {
            CubeType::Companion
        } else if value == 2 {
            CubeType::Reflective
        } else if value == 3 {
            CubeType::Sphere
        } else if value == 4 {
            CubeType::Antique
        } else if value == 5 {
            CubeType::Schrodinger
        } else {
            CubeType::Standard
        }
    }

    /// The cube that a number stands for. Any other is a standard one.
    pub fn from_int(value: i32) -> (r: CubeType)
        ensures
            r == CubeType::of(value as int),
    {
        match value {
            1 => CubeType::Companion,
            2 => CubeType::Reflective,
            3 => CubeType::Sphere,
            4 => CubeType::Antique,
            5 => CubeType::Schrodinger,
            _ => CubeType::Standard,
        }
    }

    pub open spec fn model_path(self) -> Seq<char> {
        match self {
            CubeType::Standard => "models/props/metal_box.mdl"@,
            CubeType::Companion => "models/props/metal_box.mdl"@,
            CubeType::Reflective => "models/props/reflection_cube.mdl"@,
            CubeType::Schrodinger => "models/props/reflection_cube.mdl"@,
            CubeType::Sphere => "models/props_gameplay/mp_ball.mdl"@,
            CubeType::Antique => "models/props_underground/underground_weighted_cube.mdl"@,
        }
    }

    /// The model that such a cube has.
    pub fn model(self) -> (r: &'static str)
        ensures
            r@ == self.model_path(),
    {
        match self {
            CubeType::Standard => "models/props/metal_box.mdl",
            CubeType::Companion => "models/props/metal_box.mdl",
            CubeType::Reflective => "models/props/reflection_cube.mdl",
            CubeType::Schrodinger => "models/props/reflection_cube.mdl",
            CubeType::Sphere => "models/props_gameplay/mp_ball.mdl",
            CubeType::Antique => "models/props_underground/underground_weighted_cube.mdl",
        }
    }

    pub open spec fn word(self) -> Seq<char> {
        match self {
            CubeType::Standard => "standard"@,
            CubeType::Companion => "companion"@,
            CubeType::Reflective => "reflective"@,
            CubeType::Sphere => "sphere"@,
            CubeType::Antique => "antique"@,
            CubeType::Schrodinger => "schrodinger"@,
        }
    }

    pub fn name(self) -> (r: &'static str)
        ensures
            r@ == self.word(),
    {
        match self {
            CubeType::Standard => "standard",
            CubeType::Companion => "companion",
            CubeType::Reflective => "reflective",
            CubeType::Sphere => "sphere",
            CubeType::Antique => "antique",
            CubeType::Schrodinger => "schrodinger",
        }
    }
}

/// What a cube is painted with.
#[derive(Debug, Clone, Copy, PartialEq, Eq, Structural)]
pub enum PaintPower {
    Bounce,
    Reflect,
    Speed,
    Portal,
    Unpainted,
}

impl PaintPower {
    pub open spec fn of(value: int) -> PaintPower {
        if value == 0 {
            PaintPower::Bounce
        } else if value == 1 {
            PaintPower::Reflect
        } else if value == 2 {
            PaintPower::Speed
        } else if value == 3 {
            PaintPower::Portal
        } else {
            PaintPower::Unpainted
        }
    }

    /// The paint that a number stands for. Any other is none.
    pub fn from_int(value: i32) -> (r: PaintPower)
        ensures
            r == PaintPower::of(value as int),
    {
        match value {
            0 => PaintPower::Bounce,
            1 => PaintPower::Reflect,
            2 => PaintPower::Speed,
            3 => PaintPower::Portal,
            _ => PaintPower::Unpainted,
        }
    }

    pub open spec fn word(self) -> Seq<char> {
        match self {
            PaintPower::Bounce => "bounce"@,
            PaintPower::Reflect => "reflect"@,
            PaintPower::Speed => "speed"@,
            PaintPower::Portal => "portal"@,
            PaintPower::Unpainted => "none"@,
        }
    }

    pub fn name(self) -> (r: &'static str)
        ensures
            r@ == self.word(),
    {
        match self {
            PaintPower::Bounce => "bounce",
            PaintPower::Reflect => "reflect",
            PaintPower::Speed => "speed",
            PaintPower::Portal => "portal",
            PaintPower::Unpainted => "none",
        }
    }
}

/// A cube that is carried about.
#[derive(Debug, Clone, Copy, PartialEq, Eq, Structural)]
pub struct WeightedCube {
    pub cube_type: CubeType,
    pub rusted: bool,
    /// Whether the type is what the map says it is, and not to be read from
    /// the skin.
    pub new_skins: bool,
    pub activated: bool,
    pub skin: i32,
    pub pre_painted_power: PaintPower,
    pub painted_power: PaintPower,
    /// The paint that it was last told it has.
    pub current_painted_type: PaintPower,
    pub allow_portal_funnel: bool,
    pub pickup_disabled: bool,
}

/// The skin of a cube by its type, its rust, its paint and whether it is on. A
/// rusted standard cube does not show its paint.
#[verifier::opaque]
pub open spec fn cube_skin(cube: WeightedCube) -> int {
    let paint = cube.painted_power;
    let on = cube.activated;
    match cube.cube_type {
        CubeType::Standard => if cube.rusted {
            if on { 5 } else { 3 }
        } else if paint == PaintPower::Bounce {
            if on { 10 } else { 6 }
        } else if paint == PaintPower::Speed {
            if on { 11 } else { 7 }
        } else {
            if on { 2 } else { 0 }
        },
        CubeType::Companion => if paint == PaintPower::Bounce {
            8
        } else if paint == PaintPower::Speed {
            9
        } else {
            if on { 4 } else { 1 }
        },
        CubeType::Reflective | CubeType::Schrodinger => if paint == PaintPower::Bounce {
            2
        } else if paint == PaintPower::Speed {
            3
        } else {
            if cube.rusted { 1 } else { 0 }
        },
        CubeType::Sphere => if paint == PaintPower::Bounce {
            2
        } else if paint == PaintPower::Speed {
            3
        } else {
            if on { 1 } else { 0 }
        },
        CubeType::Antique => if paint == PaintPower::Bounce {
            1
        } else if paint == PaintPower::Speed {
            2
        } else {
            0
        },
    }
}

impl WeightedCube {
    pub open spec fn fresh() -> WeightedCube {
        WeightedCube {
            cube_type: CubeType::Standard,
            rusted: false,
            new_skins: false,
            activated: false,
            skin: 0,
            pre_painted_power: PaintPower::Unpainted,
            painted_power: PaintPower::Unpainted,
            current_painted_type: PaintPower::Unpainted,
            allow_portal_funnel: true,
            pickup_disabled: false,
        }
    }

    #[verifier::opaque]
    pub open spec fn keyed(self, key: Seq<char>, value: Value) -> Option<WeightedCube> {
        let number = integer_of(value.text@);
        if same_name(key, "skin"@) {
            Some(WeightedCube { skin: number as i32, ..self })
        } else if same_name(key, "CubeType"@) {
            Some(WeightedCube { cube_type: CubeType::of(number), ..self })
        } else if same_name(key, "SkinType"@) {
            Some(WeightedCube { rusted: number != 0, ..self })
        } else if same_name(key, "NewSkins"@) {
            Some(WeightedCube { new_skins: number != 0, ..self })
        } else if same_name(key, "PaintPower"@) {
            Some(WeightedCube { pre_painted_power: PaintPower::of(number), ..self })
        } else if same_name(key, "allowfunnel"@) {
            Some(WeightedCube { allow_portal_funnel: number != 0, ..self })
        } else {
            None
        }
    }

    /// The type read from an old skin: every skin from the third on is the type
    /// of the one before it.
    pub open spec fn converted(self) -> WeightedCube {
        if self.new_skins {
            self
        } else {
            let skin = if self.skin > 1 { (self.skin - 1) as i32 } else { self.skin };
            WeightedCube { skin, cube_type: CubeType::of(skin as int), new_skins: true, ..self }
        }
    }

    pub open spec fn skinned(self) -> WeightedCube {
        WeightedCube { skin: cube_skin(self) as i32, ..self }
    }

    /// A cube of its type: there is no cube that is two at once.
    pub open spec fn typed(self) -> WeightedCube {
        WeightedCube {
            cube_type: if self.cube_type == CubeType::Schrodinger { CubeType::Reflective } else { self.cube_type },
            ..self
        }.skinned()
    }
}

impl Step<WeightedCube> {
    pub open spec fn typed(self) -> Step<WeightedCube> {
        let me = self.me.typed();
        self.with(me).with_core(CoreView { model: Some(me.cube_type.model_path()), ..self.core })
    }

    /// Told what it is painted with. A new paint sets off an output; no paint
    /// never does.
    pub open spec fn told_paint(self, paint: PaintPower) -> Step<WeightedCube> {
        let told = self.with(WeightedCube { current_painted_type: paint, ..self.me });
        if self.me.current_painted_type != paint && paint != PaintPower::Unpainted {
            told.fire("OnPainted"@, Variant::Void, Some(self.core.id))
        } else {
            told
        }
    }

    #[verifier::opaque]
    pub open spec fn painted(self, paint: PaintPower) -> Step<WeightedCube> {
        let told = self.with(WeightedCube { painted_power: paint, ..self.me }).told_paint(paint);
        told.with(told.me.skinned())
    }

    #[verifier::opaque]
    pub open spec fn dissolved(self) -> Step<WeightedCube> {
        self.fire("OnFizzled"@, Variant::Void, Some(self.core.id)).remove()
    }

    pub open spec fn spawned(self) -> Step<WeightedCube> {
        let ready = WeightedCube {
            current_painted_type: PaintPower::Unpainted,
            pickup_disabled: false,
            ..self.me.converted()
        };
        let typed = self.with(ready).typed();
        let id = self.core.id;
        let asked = typed.cx.wanting(
            id,
            Request::InitNormal { asleep: self.core.spawned_with(SF_PHYSPROP_START_ASLEEP) },
        );
        typed.with_core(
            typed.core.with_body(Body { solid: Solid::VPhysics, move_type: MoveType::Still, ..typed.core.body }),
        ).with_cx(
            if self.core.spawned_with(SF_PHYSPROP_MOTIONDISABLED) {
                asked.wanting(id, Request::EnableMotion(false))
            } else {
                asked
            },
        )
    }

    /// The paint that it ships with is told first, and then applied.
    pub open spec fn activated(self) -> Step<WeightedCube> {
        let paint = self.me.pre_painted_power;
        let told = self.told_paint(paint);
        if paint == PaintPower::Unpainted {
            told
        } else {
            told.painted(paint)
        }
    }

    #[verifier::opaque]
    pub open spec fn weighted_cube_input(self, input: Input) -> Option<Step<WeightedCube>> {
        let name = input.name@;
        let id = self.core.id;
        if same_name(name, "Dissolve"@) || same_name(name, "SilentDissolve"@) {
            Some(self.dissolved())
        } else if same_name(name, "PreDissolveJoke"@) {
            Some(self)
        } else if same_name(name, "DisablePortalFunnel"@) {
            Some(self.with(WeightedCube { allow_portal_funnel: false, ..self.me }))
        } else if same_name(name, "EnablePortalFunnel"@) {
            Some(self.with(WeightedCube { allow_portal_funnel: true, ..self.me }))
        } else if same_name(name, "ExitDisabledState"@) {
            Some(self)
        } else if same_name(name, "SetPaint"@) {
            Some(self.painted(PaintPower::of(input.value.count() as int)))
        } else if same_name(name, "EnableMotion"@) {
            Some(self.with_cx(self.cx.wanting(id, Request::EnableMotion(true)).wanting(id, Request::Wake)))
        } else if same_name(name, "DisableMotion"@) {
            Some(self.with_cx(self.cx.wanting(id, Request::EnableMotion(false))))
        } else if same_name(name, "Wake"@) {
            Some(self.with_cx(self.cx.wanting(id, Request::Wake)))
        } else if same_name(name, "Sleep"@) {
            Some(self.with_cx(self.cx.wanting(id, Request::Sleep)))
        } else if same_name(name, "DisablePickup"@) {
            Some(self.with(WeightedCube { pickup_disabled: true, ..self.me }))
        } else if same_name(name, "EnablePickup"@) {
            Some(self.with(WeightedCube { pickup_disabled: false, ..self.me }))
        } else if same_name(name, "skin"@) {
            Some(self.with(WeightedCube { skin: input.value.count(), ..self.me }))
        } else {
            None
        }
    }
}

impl WeightedCube {
    pub fn create() -> (r: WeightedCube)
        ensures
            r == WeightedCube::fresh(),
    {
        WeightedCube {
            cube_type: CubeType::Standard,
            rusted: false,
            new_skins: false,
            activated: false,
            skin: 0,
            pre_painted_power: PaintPower::Unpainted,
            painted_power: PaintPower::Unpainted,
            current_painted_type: PaintPower::Unpainted,
            allow_portal_funnel: true,
            pickup_disabled: false,
        }
    }

    /// Reads the type from an old skin, unless the map gave it.
    pub fn convert_old_skins(&mut self)
        ensures
            *final(self) == old(self).converted(),
    {
        if self.new_skins {
            return;
        }
        if self.skin > 1 {
            self.skin = self.skin - 1;
        }
        self.cube_type = CubeType::from_int(self.skin);
        self.new_skins = true;
    }

    /// Picks the model and the skin of its type.
    pub fn set_cube_type(&mut self, entity: &mut EntityCore)
        ensures
            *final(self) == old(self).typed(),
            final(entity)@ == (CoreView { model: Some(old(self).typed().cube_type.model_path()), ..old(entity)@ }),
    {
        if self.cube_type == CubeType::Schrodinger {
            self.cube_type = CubeType::Reflective;
        }
        entity.model = Some(self.cube_type.model().to_owned());
        self.set_cube_skin();
    }

    /// Picks the skin.
    pub fn set_cube_skin(&mut self)
        ensures
            *final(self) == old(self).skinned(),
    {
        reveal(cube_skin);
        let paint = self.painted_power;
        let on = self.activated;
        self.skin = match self.cube_type {
            CubeType::Standard => if self.rusted {
                if on {
                    5
                } else {
                    3
                }
            } else {
                match paint {
                    PaintPower::Bounce => if on {
                        10
                    } else {
                        6
                    },
                    PaintPower::Speed => if on {
                        11
                    } else {
                        7
                    },
                    _ => if on {
                        2
                    } else {
                        0
                    },
                }
            },
            CubeType::Companion => match paint {
                PaintPower::Bounce => 8,
                PaintPower::Speed => 9,
                _ => if on {
                    4
                } else {
                    1
                },
            },
            CubeType::Reflective | CubeType::Schrodinger => match paint {
                PaintPower::Bounce => 2,
                PaintPower::Speed => 3,
                _ => if self.rusted {
                    1
                } else {
                    0
                },
            },
            CubeType::Sphere => match paint {
                PaintPower::Bounce => 2,
                PaintPower::Speed => 3,
                _ => if on {
                    1
                } else {
                    0
                },
            },
            CubeType::Antique => match paint {
                PaintPower::Bounce => 1,
                PaintPower::Speed => 2,
                _ => 0,
            },
        };
    }

    pub fn set_painted_material(&mut self, entity: &EntityCore, paint: PaintPower, cx: &mut Context)
        ensures
            step(*final(self), entity@, final(cx)@) == step(*old(self), entity@, old(cx)@).told_paint(paint),
    {
        if self.current_painted_type != paint && paint != PaintPower::Unpainted {
            let me = Some(entity.id());
            entity.fire_output("OnPainted", Variant::Void, me, me, num(ZERO), cx);
        }
        self.current_painted_type = paint;
    }

    pub fn paint(&mut self, entity: &EntityCore, paint: PaintPower, cx: &mut Context)
        ensures
            step(*final(self), entity@, final(cx)@) == step(*old(self), entity@, old(cx)@).painted(paint),
    {
        reveal(Step::<_>::painted);
        self.painted_power = paint;
        self.set_painted_material(entity, paint, cx);
        self.set_cube_skin();
    }

    pub fn dissolve(&mut self, entity: &mut EntityCore, cx: &mut Context)
        ensures
            step(*final(self), final(entity)@, final(cx)@) == step(*old(self), old(entity)@, old(cx)@).dissolved(),
    {
        reveal(Step::<_>::dissolved);
        let me = Some(entity.id());
        entity.fire_output("OnFizzled", Variant::Void, me, me, num(ZERO), cx);
        entity.remove();
    }

    pub fn key_value(&mut self, key: &str, value: &Value) -> (r: bool)
        ensures
            r == old(self).keyed(key@, *value) is Some,
            *final(self) == old(self).keyed(key@, *value).unwrap_or(*old(self)),
    {
        reveal(WeightedCube::keyed);
        if key.eq_ignore_ascii_case("skin") {
            self.skin = atoi(value.text.as_str());
            return true;
        }
        if key.eq_ignore_ascii_case("CubeType") {
            self.cube_type = CubeType::from_int(atoi(value.text.as_str()));
            return true;
        }
        if key.eq_ignore_ascii_case("SkinType") {
            self.rusted = atoi(value.text.as_str()) != 0;
            return true;
        }
        if key.eq_ignore_ascii_case("NewSkins") {
            self.new_skins = atoi(value.text.as_str()) != 0;
            return true;
        }
        if key.eq_ignore_ascii_case("PaintPower") {
            self.pre_painted_power = PaintPower::from_int(atoi(value.text.as_str()));
            return true;
        }
        if key.eq_ignore_ascii_case("allowfunnel") {
            self.allow_portal_funnel = atoi(value.text.as_str()) != 0;
            return true;
        }
        false
    }

    #[verifier::spinoff_prover]
    pub fn spawn(&mut self, entity: &mut EntityCore, cx: &mut Context) -> (r: SpawnResult)
        ensures
            r == SpawnResult::Keep,
            step(*final(self), final(entity)@, final(cx)@) == step(*old(self), old(entity)@, old(cx)@).spawned(),
    {
        self.convert_old_skins();
        self.current_painted_type = PaintPower::Unpainted;
        self.pickup_disabled = false;
        self.set_cube_type(entity);
        entity.body.solid = Solid::VPhysics;
        entity.body.move_type = MoveType::Still;
        let asleep = entity.has_spawn_flags(SF_PHYSPROP_START_ASLEEP);
        cx.vphysics_init_normal(entity.id(), asleep);
        if entity.has_spawn_flags(SF_PHYSPROP_MOTIONDISABLED) {
            cx.vphysics_enable_motion(entity.id(), false);
        }
        SpawnResult::Keep
    }

    #[verifier::spinoff_prover]
    pub fn activate(&mut self, entity: &EntityCore, cx: &mut Context)
        ensures
            step(*final(self), entity@, final(cx)@) == step(*old(self), entity@, old(cx)@).activated(),
    {
        let pre = self.pre_painted_power;
        self.set_painted_material(entity, pre, cx);
        if pre != PaintPower::Unpainted {
            self.paint(entity, pre, cx);
        }
    }

    #[verifier::spinoff_prover]
    pub fn accept_input(&mut self, entity: &mut EntityCore, input: &Input<'_>, cx: &mut Context) -> (r: bool)
        ensures
            answered(
                step(*old(self), old(entity)@, old(cx)@).weighted_cube_input(*input),
                step(*old(self), old(entity)@, old(cx)@),
                r,
                step(*final(self), final(entity)@, final(cx)@),
            ),
    {
        reveal(Step::<_>::weighted_cube_input);
        let name = input.name;
        if name.eq_ignore_ascii_case("Dissolve") || name.eq_ignore_ascii_case("SilentDissolve") {
            self.dissolve(entity, cx);
        } else if name.eq_ignore_ascii_case("PreDissolveJoke") {
        } else if name.eq_ignore_ascii_case("DisablePortalFunnel") {
            self.allow_portal_funnel = false;
        } else if name.eq_ignore_ascii_case("EnablePortalFunnel") {
            self.allow_portal_funnel = true;
        } else if name.eq_ignore_ascii_case("ExitDisabledState") {
        } else if name.eq_ignore_ascii_case("SetPaint") {
            let paint = PaintPower::from_int(input.value.integer());
            self.paint(entity, paint, cx);
        } else if name.eq_ignore_ascii_case("EnableMotion") {
            cx.vphysics_enable_motion(entity.id(), true);
            cx.vphysics_wake(entity.id());
        } else if name.eq_ignore_ascii_case("DisableMotion") {
            cx.vphysics_enable_motion(entity.id(), false);
        } else if name.eq_ignore_ascii_case("Wake") {
            cx.vphysics_wake(entity.id());
        } else if name.eq_ignore_ascii_case("Sleep") {
            cx.vphysics_sleep(entity.id());
        } else if name.eq_ignore_ascii_case("DisablePickup") {
            self.pickup_disabled = true;
        } else if name.eq_ignore_ascii_case("EnablePickup") {
            self.pickup_disabled = false;
        } else if name.eq_ignore_ascii_case("skin") {
            self.skin = input.value.integer();
        } else {
            return false;
        }
        true
    }
}

/// Reading the type from an old skin twice is reading it once.
pub proof fn converting_skins_is_idempotent(cube: WeightedCube)
    ensures
        cube.converted().converted() == cube.converted(),
{
}

/// A cube that has spawned is never the one that is two at once, and has the
/// skin of its type.
pub proof fn a_spawned_cube_is_of_one_type(state: Step<WeightedCube>)
    ensures
        state.spawned().me.cube_type != CubeType::Schrodinger,
        state.spawned().me.skin == cube_skin(state.spawned().me),
        state.spawned().core.model == Some(state.spawned().me.cube_type.model_path()),
{
    reveal(cube_skin);
}

/// Painting a cube with what it is painted with sets nothing off, and neither
/// does taking paint off.
pub proof fn repainting_is_silent(state: Step<WeightedCube>, paint: PaintPower)
    requires
        state.me.current_painted_type == paint || paint == PaintPower::Unpainted,
    ensures
        state.told_paint(paint).cx == state.cx,
        state.painted(paint).cx == state.cx,
{
    reveal(Step::<_>::painted);
}

/// The skin that a cube is to have does not depend on the one that it has.
proof fn a_skin_hides_nothing(cube: WeightedCube, skin: i32)
    ensures
        cube_skin(WeightedCube { skin, ..cube }) == cube_skin(cube),
{
    reveal(cube_skin);
}

proof fn a_cube_knows_the_paint_it_is_told(state: Step<WeightedCube>, paint: PaintPower)
    ensures
        state.told_paint(paint).me == (WeightedCube { current_painted_type: paint, ..state.me }),
        state.told_paint(paint).core == state.core,
{
}

/// Painting a cube twice with one paint is painting it once.
#[verifier::spinoff_prover]
pub proof fn painting_is_idempotent(state: Step<WeightedCube>, paint: PaintPower)
    ensures
        state.painted(paint).painted(paint) == state.painted(paint),
{
    reveal(Step::<_>::painted);
    let once = state.painted(paint);
    let twice = once.painted(paint);
    let coated = state.with(WeightedCube { painted_power: paint, ..state.me });
    a_cube_knows_the_paint_it_is_told(coated, paint);
    a_cube_knows_the_paint_it_is_told(once, paint);
    a_skin_hides_nothing(coated.told_paint(paint).me, once.me.skin);
    assert(twice.me == once.me);
    assert(twice.core == once.core);
    assert(twice.cx == once.cx);
}

/// A cube that is painted by an input takes the paint that the number stands
/// for. A cube that has been told of no paint tells of a paint, and of no other
/// number. The same input again is taken and changes nothing.
#[verifier::spinoff_prover]
pub proof fn painting_again_changes_nothing(state: Step<WeightedCube>, input: Input)
    requires
        same_name(input.name@, "SetPaint"@),
    ensures
        state.weighted_cube_input(input) matches Some(first) && ({
            let p = input.value.count();
            &&& first.me.painted_power == PaintPower::of(p as int)
            &&& first.core == state.core
            &&& state.me.current_painted_type == PaintPower::Unpainted ==> first.cx == (if 0 <= p <= 3 {
                state.fire("OnPainted"@, Variant::Void, Some(state.core.id)).cx
            } else {
                state.cx
            })
            &&& first.weighted_cube_input(input) == Some(first)
        }),
{
    let name = input.name@;
    reveal_strlit("SetPaint");
    reveal_strlit("Dissolve");
    reveal_strlit("SilentDissolve");
    reveal_strlit("PreDissolveJoke");
    reveal_strlit("DisablePortalFunnel");
    reveal_strlit("EnablePortalFunnel");
    reveal_strlit("ExitDisabledState");
    letters_tell_names_apart(name, "SetPaint"@, "Dissolve"@, 0);
    lengths_tell_names_apart(name, "SetPaint"@, "SilentDissolve"@);
    lengths_tell_names_apart(name, "SetPaint"@, "PreDissolveJoke"@);
    lengths_tell_names_apart(name, "SetPaint"@, "DisablePortalFunnel"@);
    lengths_tell_names_apart(name, "SetPaint"@, "EnablePortalFunnel"@);
    lengths_tell_names_apart(name, "SetPaint"@, "ExitDisabledState"@);
    reveal(Step::<_>::weighted_cube_input);
    reveal(Step::<_>::painted);
    painting_is_idempotent(state, PaintPower::of(input.value.count() as int));
}

/// A cube that ships painted tells of it once.
pub proof fn a_painted_cube_tells_once(state: Step<WeightedCube>)
    requires
        state.me.pre_painted_power != PaintPower::Unpainted,
        state.me.current_painted_type == PaintPower::Unpainted,
    ensures
        state.activated().cx == state.fire("OnPainted"@, Variant::Void, Some(state.core.id)).cx,
{
    reveal(Step::<_>::painted);
}

} // verus!
