//! The controller of a map's exposure and bloom.
use vstd::prelude::*;

use crate::entity::EntityCore;
use crate::io::Input;
use crate::scalar::Scalar;
use crate::text::same_name;

verus! {

/// Among several controllers, this one counts.
pub const SF_TONEMAP_MASTER: u32 = 0x1;

/// The bounds of the automatic exposure, each with whether it counts.
#[derive(Debug, Clone, Copy, PartialEq, Eq, Structural)]
pub struct Exposure {
    pub use_custom_auto_exposure_min: bool,
    pub custom_auto_exposure_min: Scalar,
    pub use_custom_auto_exposure_max: bool,
    pub custom_auto_exposure_max: Scalar,
}

/// How strongly bright things bloom.
#[derive(Debug, Clone, Copy, PartialEq, Eq, Structural)]
pub struct Bloom {
    pub use_custom_bloom_scale: bool,
    pub custom_bloom_scale: Scalar,
    pub custom_bloom_scale_minimum: Scalar,
    pub bloom_exponent: Scalar,
    pub bloom_saturation: Scalar,
}

/// What a controller asks of the renderer.
#[derive(Debug, Clone, Copy, PartialEq, Eq, Structural)]
pub struct TonemapSettings {
    pub exposure: Exposure,
    pub bloom: Bloom,
    pub percent_target: Scalar,
    pub percent_bright_pixels: Scalar,
    pub min_avg_lum: Scalar,
    pub rate: Scalar,
}

/// Controls a map's exposure and bloom.
#[derive(Debug, Clone, Copy)]
pub struct TonemapController {
    pub settings: TonemapSettings,
}

impl TonemapSettings {
    pub open spec fn with_exposure(self, exposure: Exposure) -> TonemapSettings {
        TonemapSettings { exposure, ..self }
    }

    pub open spec fn with_bloom(self, bloom: Bloom) -> TonemapSettings {
        TonemapSettings { bloom, ..self }
    }

    #[verifier::opaque]
    pub open spec fn input(self, name: Seq<char>, number: Scalar) -> Option<TonemapSettings> {
        if same_name(name, "SetAutoExposureMin"@) {
            Some(
                self.with_exposure(
                    Exposure {
                        custom_auto_exposure_min: number,
                        use_custom_auto_exposure_min: true,
                        ..self.exposure
                    },
                ),
            )
        } else if same_name(name, "SetAutoExposureMax"@) {
            Some(
                self.with_exposure(
                    Exposure {
                        custom_auto_exposure_max: number,
                        use_custom_auto_exposure_max: true,
                        ..self.exposure
                    },
                ),
            )
        } else if same_name(name, "UseDefaultAutoExposure"@) {
            Some(
                self.with_exposure(
                    Exposure {
                        use_custom_auto_exposure_min: false,
                        use_custom_auto_exposure_max: false,
                        ..self.exposure
                    },
                ),
            )
        } else if same_name(name, "SetBloomScale"@) {
            Some(
                self.with_bloom(
                    Bloom {
                        custom_bloom_scale: number,
                        custom_bloom_scale_minimum: number,
                        use_custom_bloom_scale: true,
                        ..self.bloom
                    },
                ),
            )
        } else if same_name(name, "UseDefaultBloomScale"@) {
            Some(self.with_bloom(Bloom { use_custom_bloom_scale: false, ..self.bloom }))
        } else if same_name(name, "SetBloomExponent"@) {
            Some(self.with_bloom(Bloom { bloom_exponent: number, ..self.bloom }))
        } else if same_name(name, "SetBloomSaturation"@) {
            Some(self.with_bloom(Bloom { bloom_saturation: number, ..self.bloom }))
        } else if same_name(name, "SetTonemapPercentTarget"@) {
            Some(TonemapSettings { percent_target: number, ..self })
        } else if same_name(name, "SetTonemapPercentBrightPixels"@) {
            Some(TonemapSettings { percent_bright_pixels: number, ..self })
        } else if same_name(name, "SetTonemapMinAvgLum"@) {
            Some(TonemapSettings { min_avg_lum: number, ..self })
        } else if same_name(name, "SetTonemapRate"@) {
            Some(TonemapSettings { rate: number, ..self })
        } else if same_name(name, "SetBloomScaleRange"@) {
            Some(self)
        } else {
            None
        }
    }
}

impl TonemapController {
    /// A controller that starts from the renderer's own settings.
    pub fn create(settings: TonemapSettings) -> (r: TonemapController)
        ensures
            r.settings == settings,
    {
        TonemapController { settings }
    }

    /// What the controller asks of the renderer.
    pub fn settings(&self) -> (r: TonemapSettings)
        ensures
            r == self.settings,
    {
        self.settings
    }

    /// Whether this controller counts among several.
    pub fn is_master(entity: &EntityCore) -> (r: bool)
        ensures
            r == entity@.spawned_with(SF_TONEMAP_MASTER),
    {
        entity.has_spawn_flags(SF_TONEMAP_MASTER)
    }

    pub fn accept_input(&mut self, input: &Input<'_>) -> (r: bool)
        ensures
            r == old(self).settings.input(input.name@, input.value.number()) is Some,
            final(self).settings == old(self).settings.input(input.name@, input.value.number()).unwrap_or(
                old(self).settings,
            ),
    {
        reveal(TonemapSettings::input);
        let name = input.name;
        let number = input.value.float();
        if name.eq_ignore_ascii_case("SetAutoExposureMin") {
            self.settings.exposure.custom_auto_exposure_min = number;
            self.settings.exposure.use_custom_auto_exposure_min = true;
        } else if name.eq_ignore_ascii_case("SetAutoExposureMax") {
            self.settings.exposure.custom_auto_exposure_max = number;
            self.settings.exposure.use_custom_auto_exposure_max = true;
        } else if name.eq_ignore_ascii_case("UseDefaultAutoExposure") {
            self.settings.exposure.use_custom_auto_exposure_min = false;
            self.settings.exposure.use_custom_auto_exposure_max = false;
        } else if name.eq_ignore_ascii_case("SetBloomScale") {
            self.settings.bloom.custom_bloom_scale = number;
            self.settings.bloom.custom_bloom_scale_minimum = number;
            self.settings.bloom.use_custom_bloom_scale = true;
        } else if name.eq_ignore_ascii_case("UseDefaultBloomScale") {
            self.settings.bloom.use_custom_bloom_scale = false;
        } else if name.eq_ignore_ascii_case("SetBloomExponent") {
            self.settings.bloom.bloom_exponent = number;
        } else if name.eq_ignore_ascii_case("SetBloomSaturation") {
            self.settings.bloom.bloom_saturation = number;
        } else if name.eq_ignore_ascii_case("SetTonemapPercentTarget") {
            self.settings.percent_target = number;
        } else if name.eq_ignore_ascii_case("SetTonemapPercentBrightPixels") {
            self.settings.percent_bright_pixels = number;
        } else if name.eq_ignore_ascii_case("SetTonemapMinAvgLum") {
            self.settings.min_avg_lum = number;
        } else if name.eq_ignore_ascii_case("SetTonemapRate") {
            self.settings.rate = number;
        } else if name.eq_ignore_ascii_case("SetBloomScaleRange") {
        } else {
            return false;
        }
        true
    }
}

} // verus!
