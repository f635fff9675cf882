//! The Xor variant: an RGB pixel mask, chromatic aberration, screen
//! curvature, vignette, a pulsing animation and glow, in one pass.

use vstd::prelude::*;
use crate::executor::{plan_single_pass, planned_single, ready_at};
use crate::executor::{Buffer, Draw, FrameResources, NotReady};
use crate::graph::{register, registration};
use crate::graph::{Registration, ShaderAsset, Variant};
use crate::intensity::{accepts_all, glows_to, not_below, offset_scales_to, scales_to};
use crate::intensity::single_valued;
use crate::intensity::{scale_amount, scale_glow, scale_offset};
use crate::intensity::{less, Offset, MIN_SCALE, ONE, ZERO};
use crate::intensity::{is_finite, lemma_small_factor_clamps, lemma_unbounded_factor_clamps};
use crate::pipeline::{bind_group_layout, fullscreen, fullscreen_pass, layout};
use crate::pipeline::{PassPipeline, PipelinePlan};

verus! {

/// The handle of the shader that declares the settings.
pub const XOR_SETTINGS_SHADER_HANDLE: u128 = 0xd72b3e4dc59d492090d3c531b481c26d;

/// The handle of the fragment shader of the pass.
pub const XOR_PASS0_SHADER_HANDLE: u128 = 0x1f85bffde64d4bc0be5b3906d8d4be9c;

/// The settings of the variant, as the shader reads them.
#[derive(Clone, Copy, PartialEq, Eq, Debug, Structural)]
pub struct CrtXorSettings {
    /// The intensity of the RGB mask, from 0 to 1.
    pub mask_intensity: u32,
    /// The size of the mask, in pixels.
    pub mask_size: u32,
    /// The intensity of the mask's border, from 0 to 1.
    pub mask_border: u32,
    /// The offset of the chromatic aberration, in texels.
    pub aberration_offset: Offset,
    /// The intensity of the curvature.
    pub screen_curvature: u32,
    /// The vignette of the screen.
    pub screen_vignette: u32,
    /// The intensity of the pulsing animation.
    pub pulse_intensity: u32,
    /// The width of a pulse, in pixels.
    pub pulse_width: u32,
    /// The speed of the pulsing animation.
    pub pulse_rate: u32,
    /// What the colour is multiplied by, to make it emissive for bloom.
    pub glow_amount: u32,
}

/// The named settings of the variant.
#[derive(Clone, Copy, PartialEq, Eq, Debug, Structural)]
pub enum CrtXorPreset {
    Mild,
    Strong,
}

impl CrtXorSettings {
    /// Mask 1.0 of size 12.0 with border 0.8, aberration (2.0, 0.0),
    /// curvature 0.08, vignette 0.4, pulse 0.03 of width 60.0 at rate 20.0,
    /// glow 3.0.
    pub open spec fn strong() -> Self {
        CrtXorSettings {
            mask_intensity: 0x3f80_0000,
            mask_size: 0x4140_0000,
            mask_border: 0x3f4c_cccd,
            aberration_offset: Offset { x: 0x4000_0000, y: 0 },
            screen_curvature: 0x3da3_d70a,
            screen_vignette: 0x3ecc_cccd,
            pulse_intensity: 0x3cf5_c28f,
            pulse_width: 0x4270_0000,
            pulse_rate: 0x41a0_0000,
            glow_amount: 0x4040_0000,
        }
    }

    /// Mask 0.1 of size 2.0 with border 0.2, aberration (1.0, 0.0),
    /// curvature 0.013, vignette 0.1, pulse 0.03 of width 60.0 at rate 5.0,
    /// glow 1.7.
    pub open spec fn mild() -> Self {
        CrtXorSettings {
            mask_intensity: 0x3dcc_cccd,
            mask_size: 0x4000_0000,
            mask_border: 0x3e4c_cccd,
            aberration_offset: Offset { x: 0x3f80_0000, y: 0 },
            screen_curvature: 0x3c54_fdf4,
            screen_vignette: 0x3dcc_cccd,
            pulse_intensity: 0x3cf5_c28f,
            pulse_width: 0x4270_0000,
            pulse_rate: 0x40a0_0000,
            glow_amount: 0x3fd9_999a,
        }
    }

    /// The settings that a preset names.
    pub open spec fn preset_value(preset: CrtXorPreset) -> Self {
        match preset {
            CrtXorPreset::Mild => Self::mild(),
            CrtXorPreset::Strong => Self::strong(),
        }
    }

    /// `out` is `self` scaled by `factor`: every amount, and each axis of
    /// the aberration, is what `multiply` may return for it and the clamped
    /// factor, and the glow amount is floored at 1.0 after that.
    pub open spec fn scaled_by<F: Fn(u32, u32) -> u32>(
        self,
        factor: u32,
        multiply: F,
        out: Self,
    ) -> bool {
        &&& scales_to(multiply, self.mask_intensity, factor, out.mask_intensity)
        &&& scales_to(multiply, self.mask_size, factor, out.mask_size)
        &&& scales_to(multiply, self.mask_border, factor, out.mask_border)
        &&& offset_scales_to(multiply, self.aberration_offset, factor, out.aberration_offset)
        &&& scales_to(multiply, self.screen_curvature, factor, out.screen_curvature)
        &&& scales_to(multiply, self.screen_vignette, factor, out.screen_vignette)
        &&& scales_to(multiply, self.pulse_intensity, factor, out.pulse_intensity)
        &&& scales_to(multiply, self.pulse_width, factor, out.pulse_width)
        &&& scales_to(multiply, self.pulse_rate, factor, out.pulse_rate)
        &&& glows_to(multiply, self.glow_amount, factor, out.glow_amount)
    }

    /// The settings that `preset` names.
    pub fn new(preset: CrtXorPreset) -> (settings: Self)
        ensures
            settings == Self::preset_value(preset),
    {
        match preset {
            CrtXorPreset::Mild => CrtXorSettings {
                mask_intensity: 0x3dcc_cccd,
                mask_size: 0x4000_0000,
                mask_border: 0x3e4c_cccd,
                aberration_offset: Offset { x: 0x3f80_0000, y: 0 },
                screen_curvature: 0x3c54_fdf4,
                screen_vignette: 0x3dcc_cccd,
                pulse_intensity: 0x3cf5_c28f,
                pulse_width: 0x4270_0000,
                pulse_rate: 0x40a0_0000,
                glow_amount: 0x3fd9_999a,
            },
            CrtXorPreset::Strong => CrtXorSettings {
                mask_intensity: 0x3f80_0000,
                mask_size: 0x4140_0000,
                mask_border: 0x3f4c_cccd,
                aberration_offset: Offset { x: 0x4000_0000, y: 0 },
                screen_curvature: 0x3da3_d70a,
                screen_vignette: 0x3ecc_cccd,
                pulse_intensity: 0x3cf5_c28f,
                pulse_width: 0x4270_0000,
                pulse_rate: 0x41a0_0000,
                glow_amount: 0x4040_0000,
            },
        }
    }

    /// Scales the settings. `factor` is clamped first, so that no factor
    /// brings the amounts to zero; `multiply` gives the product of two
    /// numbers; the glow amount never falls below 1.0.
    pub fn scale_settings<F: Fn(u32, u32) -> u32>(self, factor: u32, multiply: F) -> (out: Self)
        requires
            accepts_all(multiply),
        ensures
            self.scaled_by(factor, multiply, out),
            not_below(out.glow_amount, ONE),
    {
        CrtXorSettings {
            mask_intensity: scale_amount(self.mask_intensity, factor, &multiply),
            mask_size: scale_amount(self.mask_size, factor, &multiply),
            mask_border: scale_amount(self.mask_border, factor, &multiply),
            aberration_offset: scale_offset(self.aberration_offset, factor, &multiply),
            screen_curvature: scale_amount(self.screen_curvature, factor, &multiply),
            screen_vignette: scale_amount(self.screen_vignette, factor, &multiply),
            pulse_intensity: scale_amount(self.pulse_intensity, factor, &multiply),
            pulse_width: scale_amount(self.pulse_width, factor, &multiply),
            pulse_rate: scale_amount(self.pulse_rate, factor, &multiply),
            glow_amount: scale_glow(self.glow_amount, factor, &multiply),
        }
    }

    /// The settings scaled by `scale`.
    pub fn with_scale<F: Fn(u32, u32) -> u32>(self, scale: u32, multiply: F) -> (out: Self)
        requires
            accepts_all(multiply),
        ensures
            self.scaled_by(scale, multiply, out),
            not_below(out.glow_amount, ONE),
    {
        self.scale_settings(scale, multiply)
    }

    /// Replaces the settings by those that `preset` names, scaled by
    /// `scale`, in one step.
    pub fn set_preset_scaled<F: Fn(u32, u32) -> u32>(
        &mut self,
        preset: CrtXorPreset,
        scale: u32,
        multiply: F,
    )
        requires
            accepts_all(multiply),
        ensures
            Self::preset_value(preset).scaled_by(scale, multiply, *final(self)),
            not_below(final(self).glow_amount, ONE),
    {
        *self = CrtXorSettings::new(preset).with_scale(scale, multiply);
    }

    /// Scaling by a factor that is zero, negative, below `MIN_SCALE` or no
    /// finite number is scaling by `MIN_SCALE`: what may come of the one may
    /// come of the other, and with a multiplier that has one result for each
    /// pair the two results are equal.
    pub proof fn lemma_small_scale_is_min_scale<F: Fn(u32, u32) -> u32>(
        self,
        factor: u32,
        multiply: F,
        small: Self,
        least: Self,
    )
        requires
            not_below(ZERO, factor) || less(factor, MIN_SCALE) || !is_finite(factor),
        ensures
            self.scaled_by(factor, multiply, small) <==> self.scaled_by(MIN_SCALE, multiply, small),
            single_valued(multiply) && self.scaled_by(factor, multiply, small) && self.scaled_by(
                MIN_SCALE,
                multiply,
                least,
            ) ==> small == least,
    {
        if is_finite(factor) {
            lemma_small_factor_clamps(factor);
        } else {
            lemma_unbounded_factor_clamps(factor);
        }
    }

    /// Whatever is scaled, by whatever factor and multiplier, glows with at
    /// least 1.0.
    pub proof fn lemma_scaled_glow_is_floored<F: Fn(u32, u32) -> u32>(
        self,
        factor: u32,
        multiply: F,
        out: Self,
    )
        requires
            self.scaled_by(factor, multiply, out),
        ensures
            not_below(out.glow_amount, ONE),
    {
    }
}

impl Default for CrtXorSettings {
    /// The strong preset.
    fn default() -> (settings: Self)
        ensures
            settings == Self::strong(),
    {
        CrtXorSettings::new(CrtXorPreset::Strong)
    }
}

/// The variant's part in building the application.
pub struct XorCrtPlugin;

impl XorCrtPlugin {
    /// The shaders of the variant: the settings, then the pass.
    pub open spec fn shaders() -> Seq<ShaderAsset> {
        seq![
            ShaderAsset { handle: XOR_SETTINGS_SHADER_HANDLE, path: "src/xor/settings.wgsl" },
            ShaderAsset { handle: XOR_PASS0_SHADER_HANDLE, path: "assets/shaders/xor/pass0.wgsl" },
        ]
    }

    /// Lists what the variant registers with the host: its two shaders, the
    /// extraction and the uniform buffer of its settings and, where the host
    /// has a render application, its node between the end of the main passes
    /// and bloom.
    pub fn build(&self, render_app: bool) -> (steps: Vec<Registration>)
        ensures
            steps@ == registration(Variant::Xor, Self::shaders(), render_app),
    {
        let mut shaders: Vec<ShaderAsset> = Vec::new();
        shaders.push(
            ShaderAsset { handle: XOR_SETTINGS_SHADER_HANDLE, path: "src/xor/settings.wgsl" },
        );
        shaders.push(
            ShaderAsset { handle: XOR_PASS0_SHADER_HANDLE, path: "assets/shaders/xor/pass0.wgsl" },
        );
        assert(shaders@ =~= Self::shaders());
        register(Variant::Xor, &shaders, render_app)
    }

    /// Says what to build once the application is complete: the variant's
    /// pipeline where the host has a render application, nothing otherwise.
    pub fn finish(&self, render_app: bool) -> (plan: Option<PipelinePlan>)
        ensures
            plan is Some <==> render_app,
            plan matches Some(built) ==> CrtXorPipeline::describes(built),
    {
        if render_app {
            Some(CrtXorPipeline::plan())
        } else {
            None
        }
    }
}

/// What is built once for the variant.
pub struct CrtXorPipeline;

impl CrtXorPipeline {
    /// The pipeline of the one pass.
    pub open spec fn passes() -> Seq<PassPipeline> {
        seq![fullscreen("crt_xor_pass0", "crt_xor_pass0_pipeline", XOR_PASS0_SHADER_HANDLE)]
    }

    /// `plan` is the variant's: its names, the layout with the engine's
    /// globals at the end, and the one pipeline.
    pub open spec fn describes(plan: PipelinePlan) -> bool {
        &&& plan.layout_label == "crt_xor_bind_group_layout"
        &&& plan.bind_group_label == "crt_xor_bind_group"
        &&& plan.bindings@ == layout(true)
        &&& plan.passes@ == Self::passes()
    }

    /// Describes the layout and the pipeline of the variant.
    pub fn plan() -> (plan: PipelinePlan)
        ensures
            Self::describes(plan),
            plan.passes@.len() == Variant::Xor.spec_pass_count(),
    {
        let mut passes: Vec<PassPipeline> = Vec::new();
        passes.push(
            fullscreen_pass("crt_xor_pass0", "crt_xor_pass0_pipeline", XOR_PASS0_SHADER_HANDLE),
        );
        assert(passes@ =~= Self::passes());
        PipelinePlan {
            layout_label: "crt_xor_bind_group_layout",
            bind_group_label: "crt_xor_bind_group",
            bindings: bind_group_layout(true),
            passes,
        }
    }
}

/// The variant's node in the render graph.
pub struct CrtXorNode;

impl CrtXorNode {
    /// Plans one frame of the variant on one view: its one pass, from
    /// `source` into the other buffer, or nothing when the pipeline or a
    /// binding is missing.
    pub fn run(&self, resources: &FrameResources, source: Buffer) -> (r: Result<
        Vec<Draw>,
        NotReady,
    >)
        ensures
            planned_single(resources, source, r),
            r is Ok <==> ready_at(resources.pipelines@, 0) && resources.settings_binding
                && resources.globals_binding,
    {
        plan_single_pass(resources, source)
    }
}

} // verus!
