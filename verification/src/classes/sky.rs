//! The camera of the 3D skybox.
use vstd::prelude::*;

use crate::class::SpawnResult;
use crate::context::{Context, OutboxView};
use crate::entity::EntityCore;
use crate::io::{Input, Value};
use crate::scalar::{num, origin, Scalar, Vector, ONE, ZERO};
use crate::text::{atoi, color_of, integer_of, same_name, string_to_color32};

verus! {

/// How the fog of the skybox is shaded.
#[derive(Debug, Clone, Copy)]
pub struct FogColors {
    pub color_primary: [u8; 4],
    pub color_secondary: [u8; 4],
}

/// Where the fog of the skybox is, and how thick.
#[derive(Debug, Clone, Copy, PartialEq, Eq, Structural)]
pub struct FogRange {
    pub start: Scalar,
    pub end: Scalar,
    pub max_density: Scalar,
    pub hdr_color_scale: Scalar,
}

/// The fog of the skybox.
#[derive(Debug, Clone, Copy)]
pub struct SkyFog {
    pub enable: bool,
    pub blend: bool,
    pub dir_primary: Vector,
    pub colors: FogColors,
    pub range: FogRange,
}

/// The camera of the 3D skybox: where the world's origin is in it, and how much
/// smaller it is.
#[derive(Debug, Clone, Copy)]
pub struct SkyCamera {
    pub scale: i32,
    pub origin: Vector,
    /// Take the fog's direction from the entity's angles.
    pub use_angles: bool,
    pub fog: SkyFog,
}

/// Where the camera goes, and how much smaller the room is.
#[derive(Debug, Clone, Copy, PartialEq, Eq, Structural)]
pub struct Sky3d {
    pub origin: Vector,
    pub scale: i32,
}

pub struct SkyFogView {
    pub enable: bool,
    pub blend: bool,
    pub dir_primary: Vector,
    pub color_primary: Seq<u8>,
    pub color_secondary: Seq<u8>,
    pub range: FogRange,
}

pub struct SkyCameraView {
    pub scale: i32,
    pub origin: Vector,
    pub use_angles: bool,
    pub fog: SkyFogView,
}

impl View for SkyFog {
    type V = SkyFogView;

    open spec fn view(&self) -> SkyFogView {
        SkyFogView {
            enable: self.enable,
            blend: self.blend,
            dir_primary: self.dir_primary,
            color_primary: self.colors.color_primary@,
            color_secondary: self.colors.color_secondary@,
            range: self.range,
        }
    }
}

impl View for SkyCamera {
    type V = SkyCameraView;

    open spec fn view(&self) -> SkyCameraView {
        SkyCameraView {
            scale: self.scale,
            origin: self.origin,
            use_angles: self.use_angles,
            fog: self.fog@,
        }
    }
}

impl SkyCameraView {
    pub open spec fn with_fog(self, fog: SkyFogView) -> SkyCameraView {
        SkyCameraView { fog, ..self }
    }

    pub open spec fn with_range(self, range: FogRange) -> SkyCameraView {
        self.with_fog(SkyFogView { range, ..self.fog })
    }

    pub open spec fn keyed(self, key: Seq<char>, value: Value) -> Option<SkyCameraView> {
        let number = integer_of(value.text@);
        if same_name(key, "scale"@) {
            Some(SkyCameraView { scale: number as i32, ..self })
        } else if same_name(key, "use_angles"@) {
            Some(SkyCameraView { use_angles: number != 0, ..self })
        } else if same_name(key, "fogenable"@) {
            Some(self.with_fog(SkyFogView { enable: number != 0, ..self.fog }))
        } else if same_name(key, "fogblend"@) {
            Some(self.with_fog(SkyFogView { blend: number != 0, ..self.fog }))
        } else if same_name(key, "fogdir"@) {
            Some(self.with_fog(SkyFogView { dir_primary: value.vector, ..self.fog }))
        } else if same_name(key, "fogcolor"@) {
            Some(self.with_fog(SkyFogView { color_primary: color_of(value.text@), ..self.fog }))
        } else if same_name(key, "fogcolor2"@) {
            Some(self.with_fog(SkyFogView { color_secondary: color_of(value.text@), ..self.fog }))
        } else if same_name(key, "fogstart"@) {
            Some(self.with_range(FogRange { start: value.number, ..self.fog.range }))
        } else if same_name(key, "fogend"@) {
            Some(self.with_range(FogRange { end: value.number, ..self.fog.range }))
        } else if same_name(key, "fogmaxdensity"@) {
            Some(self.with_range(FogRange { max_density: value.number, ..self.fog.range }))
        } else if same_name(key, "HDRColorScale"@) {
            Some(self.with_range(FogRange { hdr_color_scale: value.number, ..self.fog.range }))
        } else {
            None
        }
    }
}

impl SkyCamera {
    pub fn create() -> (r: SkyCamera)
        ensures
            r@ == (SkyCameraView {
                scale: 0,
                origin: origin(),
                use_angles: false,
                fog: SkyFogView {
                    enable: false,
                    blend: false,
                    dir_primary: origin(),
                    color_primary: seq![0u8, 0, 0, 0],
                    color_secondary: seq![0u8, 0, 0, 0],
                    range: FogRange {
                        start: num(ZERO),
                        end: num(ZERO),
                        max_density: num(ONE),
                        hdr_color_scale: num(ONE),
                    },
                },
            }),
    {
        let r = SkyCamera {
            scale: 0,
            origin: origin(),
            use_angles: false,
            fog: SkyFog {
                enable: false,
                blend: false,
                dir_primary: origin(),
                colors: FogColors { color_primary: [0, 0, 0, 0], color_secondary: [0, 0, 0, 0] },
                range: FogRange {
                    start: num(ZERO),
                    end: num(ZERO),
                    max_density: num(ONE),
                    hdr_color_scale: num(ONE),
                },
            },
        };
        assert(r@.fog.color_primary =~= seq![0u8, 0, 0, 0]);
        assert(r@.fog.color_secondary =~= seq![0u8, 0, 0, 0]);
        r
    }

    /// What the renderer needs of the camera.
    pub fn params(&self) -> (r: Sky3d)
        ensures
            r == (Sky3d { origin: self@.origin, scale: self@.scale }),
    {
        Sky3d { origin: self.origin, scale: self.scale }
    }

    pub fn fog(&self) -> (r: SkyFog)
        ensures
            r@ == self@.fog,
    {
        self.fog
    }

    pub fn key_value(&mut self, key: &str, value: &Value) -> (r: bool)
        ensures
            r == old(self)@.keyed(key@, *value) is Some,
            final(self)@ == old(self)@.keyed(key@, *value).unwrap_or(old(self)@),
    {
        if key.eq_ignore_ascii_case("scale") {
            self.scale = atoi(value.text.as_str());
        } else if key.eq_ignore_ascii_case("use_angles") {
            self.use_angles = atoi(value.text.as_str()) != 0;
        } else if key.eq_ignore_ascii_case("fogenable") {
            self.fog.enable = atoi(value.text.as_str()) != 0;
        } else if key.eq_ignore_ascii_case("fogblend") {
            self.fog.blend = atoi(value.text.as_str()) != 0;
        } else if key.eq_ignore_ascii_case("fogdir") {
            self.fog.dir_primary = value.vector;
        } else if key.eq_ignore_ascii_case("fogcolor") {
            self.fog.colors.color_primary = string_to_color32(value.text.as_str());
        } else if key.eq_ignore_ascii_case("fogcolor2") {
            self.fog.colors.color_secondary = string_to_color32(value.text.as_str());
        } else if key.eq_ignore_ascii_case("fogstart") {
            self.fog.range.start = value.number;
        } else if key.eq_ignore_ascii_case("fogend") {
            self.fog.range.end = value.number;
        } else if key.eq_ignore_ascii_case("fogmaxdensity") {
            self.fog.range.max_density = value.number;
        } else if key.eq_ignore_ascii_case("HDRColorScale") {
            self.fog.range.hdr_color_scale = value.number;
        } else {
            return false;
        }
        true
    }

    pub fn spawn(&mut self, entity: &EntityCore) -> (r: SpawnResult)
        ensures
            r == SpawnResult::Keep,
            final(self)@ == (SkyCameraView { origin: entity@.place.local_origin, ..old(self)@ }),
    {
        self.origin = entity.place.local_origin;
        SpawnResult::Keep
    }

    /// `forward` is the direction that the entity's angles point in. The fog
    /// comes from there, if it is to.
    pub fn activate(&mut self, forward: Vector)
        ensures
            final(self)@ == (if old(self)@.use_angles {
                old(self)@.with_fog(SkyFogView { dir_primary: forward.negated(), ..old(self)@.fog })
            } else {
                old(self)@
            }),
    {
        if self.use_angles {
            self.fog.dir_primary = forward.neg();
        }
    }

    pub fn accept_input(&mut self, entity: &EntityCore, input: &Input<'_>, cx: &mut Context) -> (r: bool)
        ensures
            r == same_name(input.name@, "ActivateSkybox"@),
            final(self)@ == old(self)@,
            final(cx)@ == (if r {
                old(cx)@.with_outbox(OutboxView { activated_skybox: Some(entity@.id), ..old(cx)@.outbox })
            } else {
                old(cx)@
            }),
    {
        if !input.name.eq_ignore_ascii_case("ActivateSkybox") {
            return false;
        }
        cx.activate_skybox(entity.id());
        true
    }
}

} // verus!
