//! Lights.
use vstd::prelude::*;

use crate::class::SpawnResult;
use crate::entity::{CoreView, EntityCore, Place};
use crate::io::{Input, Value};
use crate::scalar::Vector;
use crate::text::{atoi, color_of, integer_of, same_name, string_to_color32};

verus! {

/// The light is off.
pub const SF_LIGHT_START_OFF: u32 = 0x1;

/// A light that can be switched.
#[derive(Debug)]
pub struct Light {
    pub style: i32,
    pub pattern: Option<String>,
}

/// A light and its entity.
pub struct Lamp {
    pub me: Light,
    pub core: CoreView,
}

impl CoreView {
    pub open spec fn pitched(self, value: Value) -> CoreView {
        self.with_place(Place { angles: Vector { x: value.number, ..self.place.angles }, ..self.place })
    }

    /// Switched on or off, as a light is.
    pub open spec fn lit(self, on: bool) -> CoreView {
        CoreView {
            spawn_flags: if on {
                self.spawn_flags & !SF_LIGHT_START_OFF
            } else {
                self.spawn_flags | SF_LIGHT_START_OFF
            },
            ..self
        }
    }
}

impl Lamp {
    #[verifier::opaque]
    pub open spec fn keyed(self, key: Seq<char>, value: Value) -> Option<Lamp> {
        if same_name(key, "pitch"@) {
            Some(Lamp { core: self.core.pitched(value), ..self })
        } else if same_name(key, "style"@) {
            Some(Lamp { me: Light { style: integer_of(value.text@) as i32, ..self.me }, ..self })
        } else if same_name(key, "pattern"@) {
            Some(Lamp { me: Light { pattern: Some(value.text), ..self.me }, ..self })
        } else {
            None
        }
    }

    #[verifier::opaque]
    pub open spec fn input(self, input: Input) -> Option<Lamp> {
        let name = input.name@;
        if same_name(name, "TurnOn"@) {
            Some(Lamp { core: self.core.lit(true), ..self })
        } else if same_name(name, "TurnOff"@) {
            Some(Lamp { core: self.core.lit(false), ..self })
        } else if same_name(name, "Toggle"@) {
            Some(
                Lamp {
                    core: CoreView { spawn_flags: self.core.spawn_flags ^ SF_LIGHT_START_OFF, ..self.core },
                    ..self
                },
            )
        } else if same_name(name, "SetPattern"@) || same_name(name, "FadeToPattern"@) {
            Some(Lamp { me: Light { pattern: Some(input.text), ..self.me }, core: self.core.lit(true) })
        } else {
            None
        }
    }
}

/// Whether a light stays: one without a name can never be switched, and goes.
pub open spec fn light_spawns(core: CoreView) -> SpawnResult {
    if core.name is Some { SpawnResult::Keep } else { SpawnResult::Remove }
}

impl Light {
    pub fn new() -> (r: Light)
        ensures
            r == (Light { style: 0, pattern: None }),
    {
        Light { style: 0, pattern: None }
    }

    pub fn create() -> (r: Light)
        ensures
            r == (Light { style: 0, pattern: None }),
    {
        Light::new()
    }

    pub fn key_value(&mut self, entity: &mut EntityCore, key: &str, value: &Value) -> (r: bool)
        ensures
            r == (Lamp { me: *old(self), core: old(entity)@ }).keyed(key@, *value) is Some,
            (Lamp { me: *final(self), core: final(entity)@ }) == (Lamp {
                me: *old(self),
                core: old(entity)@,
            }).keyed(key@, *value).unwrap_or(Lamp { me: *old(self), core: old(entity)@ }),
    {
        reveal(Lamp::keyed);
        if key.eq_ignore_ascii_case("pitch") {
            entity.place.angles.x = value.number;
        } else if key.eq_ignore_ascii_case("style") {
            self.style = atoi(value.text.as_str());
        } else if key.eq_ignore_ascii_case("pattern") {
            self.pattern = Some(value.text.clone());
        } else {
            return false;
        }
        true
    }

    /// A light without a name removes itself.
    pub fn spawn(&mut self, entity: &mut EntityCore) -> (r: SpawnResult)
        ensures
            r == light_spawns(old(entity)@),
            *final(self) == *old(self),
            final(entity)@ == old(entity)@,
    {
        if entity.name.is_some() {
            SpawnResult::Keep
        } else {
            SpawnResult::Remove
        }
    }

    pub fn key_input(&mut self, entity: &mut EntityCore, input: &Input<'_>) -> (r: bool)
        ensures
            r == (Lamp { me: *old(self), core: old(entity)@ }).input(*input) is Some,
            (Lamp { me: *final(self), core: final(entity)@ }) == (Lamp {
                me: *old(self),
                core: old(entity)@,
            }).input(*input).unwrap_or(Lamp { me: *old(self), core: old(entity)@ }),
    {
        reveal(Lamp::input);
        let name = input.name;
        if name.eq_ignore_ascii_case("TurnOn") {
            entity.spawn_flags = entity.spawn_flags & !SF_LIGHT_START_OFF;
        } else if name.eq_ignore_ascii_case("TurnOff") {
            entity.spawn_flags = entity.spawn_flags | SF_LIGHT_START_OFF;
        } else if name.eq_ignore_ascii_case("Toggle") {
            entity.spawn_flags = entity.spawn_flags ^ SF_LIGHT_START_OFF;
        } else if name.eq_ignore_ascii_case("SetPattern") || name.eq_ignore_ascii_case("FadeToPattern") {
            self.pattern = Some(input.text.clone());
            entity.spawn_flags = entity.spawn_flags & !SF_LIGHT_START_OFF;
        } else {
            return false;
        }
        true
    }

    pub fn accept_input(&mut self, entity: &mut EntityCore, input: &Input<'_>) -> (r: bool)
        ensures
            r == (Lamp { me: *old(self), core: old(entity)@ }).input(*input) is Some,
            (Lamp { me: *final(self), core: final(entity)@ }) == (Lamp {
                me: *old(self),
                core: old(entity)@,
            }).input(*input).unwrap_or(Lamp { me: *old(self), core: old(entity)@ }),
    {
        self.key_input(entity, input)
    }

    /// Whether the light is on.
    pub fn is_on(&self, entity: &EntityCore) -> (r: bool)
        ensures
            r == !entity@.spawned_with(SF_LIGHT_START_OFF),
    {
        !entity.has_spawn_flags(SF_LIGHT_START_OFF)
    }
}

/// The light of the sun: a light, and the colour that it lends the sky.
#[derive(Debug)]
pub struct EnvLight {
    pub light: Light,
    pub sun_color: [u8; 4],
}

pub struct EnvLightView {
    pub light: Light,
    pub sun_color: Seq<u8>,
}

impl View for EnvLight {
    type V = EnvLightView;

    open spec fn view(&self) -> EnvLightView {
        EnvLightView { light: self.light, sun_color: self.sun_color@ }
    }
}

/// The light of the sun and its entity.
pub struct SunLamp {
    pub me: EnvLightView,
    pub core: CoreView,
}

impl SunLamp {
    pub open spec fn lamp(self) -> Lamp {
        Lamp { me: self.me.light, core: self.core }
    }

    pub open spec fn after(self, lamp: Lamp) -> SunLamp {
        SunLamp { me: EnvLightView { light: lamp.me, ..self.me }, core: lamp.core }
    }

    /// Its own two keys, and every key of a light.
    #[verifier::opaque]
    pub open spec fn keyed(self, key: Seq<char>, value: Value) -> Option<SunLamp> {
        if same_name(key, "_light"@) {
            Some(SunLamp { me: EnvLightView { sun_color: color_of(value.text@), ..self.me }, ..self })
        } else if same_name(key, "_ambient"@) {
            Some(self)
        } else {
            match self.lamp().keyed(key, value) {
                Some(lamp) => Some(self.after(lamp)),
                None => None,
            }
        }
    }

    /// The inputs of a light.
    #[verifier::opaque]
    pub open spec fn input(self, input: Input) -> Option<SunLamp> {
        match self.lamp().input(input) {
            Some(lamp) => Some(self.after(lamp)),
            None => None,
        }
    }
}

impl EnvLightView {
    pub open spec fn fresh() -> EnvLightView {
        EnvLightView { light: Light { style: 0, pattern: None }, sun_color: seq![255u8, 255, 255, 255] }
    }
}

impl EnvLight {
    pub fn create() -> (r: EnvLight)
        ensures
            r@ == EnvLightView::fresh(),
    {
        let r = EnvLight { light: Light::new(), sun_color: [255, 255, 255, 255] };
        assert(r.sun_color@ =~= seq![255u8, 255, 255, 255]);
        r
    }

    pub fn key_value(&mut self, entity: &mut EntityCore, key: &str, value: &Value) -> (r: bool)
        ensures
            r == (SunLamp { me: old(self)@, core: old(entity)@ }).keyed(key@, *value) is Some,
            (SunLamp { me: final(self)@, core: final(entity)@ }) == (SunLamp {
                me: old(self)@,
                core: old(entity)@,
            }).keyed(key@, *value).unwrap_or(SunLamp { me: old(self)@, core: old(entity)@ }),
    {
        reveal(SunLamp::keyed);
        if key.eq_ignore_ascii_case("_light") {
            self.sun_color = string_to_color32(value.text.as_str());
            return true;
        }
        if key.eq_ignore_ascii_case("_ambient") {
            return true;
        }
        self.light.key_value(entity, key, value)
    }

    pub fn spawn(&mut self, entity: &mut EntityCore) -> (r: SpawnResult)
        ensures
            r == light_spawns(old(entity)@),
            *final(self) == *old(self),
            final(entity)@ == old(entity)@,
    {
        self.light.spawn(entity)
    }

    pub fn accept_input(&mut self, entity: &mut EntityCore, input: &Input<'_>) -> (r: bool)
        ensures
            r == (SunLamp { me: old(self)@, core: old(entity)@ }).input(*input) is Some,
            (SunLamp { me: final(self)@, core: final(entity)@ }) == (SunLamp {
                me: old(self)@,
                core: old(entity)@,
            }).input(*input).unwrap_or(SunLamp { me: old(self)@, core: old(entity)@ }),
    {
        reveal(SunLamp::input);
        self.light.key_input(entity, input)
    }

    /// The light that it is.
    pub fn light(&self) -> (r: &Light)
        ensures
            *r == self.light,
    {
        &self.light
    }
}

/// Toggling a light twice gives back its flags.
pub proof fn toggling_a_light_twice(flags: u32)
    ensures
        (flags ^ SF_LIGHT_START_OFF) ^ SF_LIGHT_START_OFF == flags,
        (flags ^ SF_LIGHT_START_OFF) & SF_LIGHT_START_OFF != 0 <==> flags & SF_LIGHT_START_OFF == 0,
{
    assert((flags ^ SF_LIGHT_START_OFF) ^ SF_LIGHT_START_OFF == flags) by (bit_vector);
    assert((flags ^ SF_LIGHT_START_OFF) & SF_LIGHT_START_OFF != 0 <==> flags & SF_LIGHT_START_OFF == 0)
        by (bit_vector);
}

/// A light that was switched on is on, and one that was switched off is not.
pub proof fn switching_a_light(core: CoreView)
    ensures
        !core.lit(true).spawned_with(SF_LIGHT_START_OFF),
        core.lit(false).spawned_with(SF_LIGHT_START_OFF),
{
    let flags = core.spawn_flags;
    assert((flags & !SF_LIGHT_START_OFF) & SF_LIGHT_START_OFF == 0) by (bit_vector);
    assert((flags | SF_LIGHT_START_OFF) & SF_LIGHT_START_OFF != 0) by (bit_vector);
}

} // verus!
