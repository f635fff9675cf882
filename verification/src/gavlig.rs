//! The Gavlig variant: vignette, film grain and a glow that sets in above a
//! threshold, in one pass.

use vstd::prelude::*;
use crate::executor::{plan_single_pass, planned_single, ready_at};
use crate::executor::{Buffer, Draw, FrameResources, NotReady};
use crate::graph::{register, registration};
use crate::graph::{Registration, ShaderAsset, Variant};
use crate::intensity::{accepts_all, glows_to, not_below, scales_to, single_valued};
use crate::intensity::{scale_amount, scale_glow};
use crate::intensity::{less, MIN_SCALE, ONE, ZERO};
use crate::intensity::{is_finite, lemma_small_factor_clamps, lemma_unbounded_factor_clamps};
use crate::pipeline::{bind_group_layout, fullscreen, fullscreen_pass, layout};
use crate::pipeline::{PassPipeline, PipelinePlan};

verus! {

/// The handle of the shader that declares the settings.
pub const GAVLIG_SETTINGS_SHADER_HANDLE: u128 = 0x70bd17f74d8647efb71db80a90f49adf;

/// The handle of the fragment shader of the pass.
pub const GAVLIG_PASS0_SHADER_HANDLE: u128 = 0xe259305642954a56a21724ad34e39ba9;

/// The settings of the variant, as the shader reads them: five intensities
/// in this order.
#[derive(Clone, Copy, PartialEq, Eq, Debug, Structural)]
pub struct CrtGavligSettings {
    pub vignette_strength: u32,
    pub vignette_alpha: u32,
    /// The brightness above which a colour glows. Scaling leaves it alone.
    pub glow_threshold: u32,
    pub glow_strength: u32,
    pub grain_strength: u32,
}

/// The named settings of the variant.
#[derive(Clone, Copy, PartialEq, Eq, Debug, Structural)]
pub enum CrtGavligPreset {
    Mild,
}

impl CrtGavligSettings {
    /// Vignette 0.4 at alpha 1.0, glow 2.4 above 0.5, grain 0.2.
    pub open spec fn mild() -> Self {
        CrtGavligSettings {
            vignette_strength: 0x3ecc_cccd,
            vignette_alpha: 0x3f80_0000,
            glow_threshold: 0x3f00_0000,
            glow_strength: 0x4019_999a,
            grain_strength: 0x3e4c_cccd,
        }
    }

    /// The settings that a preset names.
    pub open spec fn preset_value(preset: CrtGavligPreset) -> Self {
        match preset {
            CrtGavligPreset::Mild => Self::mild(),
        }
    }

    /// `out` is `self` scaled by `factor`: the vignette and the grain are
    /// what `multiply` may return for them and the clamped factor, the glow
    /// strength is floored at 1.0 after that, and the glow threshold is
    /// unchanged.
    pub open spec fn scaled_by<F: Fn(u32, u32) -> u32>(
        self,
        factor: u32,
        multiply: F,
        out: Self,
    ) -> bool {
        &&& scales_to(multiply, self.vignette_strength, factor, out.vignette_strength)
        &&& scales_to(multiply, self.vignette_alpha, factor, out.vignette_alpha)
        &&& out.glow_threshold == self.glow_threshold
        &&& glows_to(multiply, self.glow_strength, factor, out.glow_strength)
        &&& scales_to(multiply, self.grain_strength, factor, out.grain_strength)
    }

    /// The settings that `preset` names.
    pub fn new(preset: CrtGavligPreset) -> (settings: Self)
        ensures
            settings == Self::preset_value(preset),
    {
        match preset {
            CrtGavligPreset::Mild => CrtGavligSettings {
                vignette_strength: 0x3ecc_cccd,
                vignette_alpha: 0x3f80_0000,
                glow_threshold: 0x3f00_0000,
                glow_strength: 0x4019_999a,
                grain_strength: 0x3e4c_cccd,
            },
        }
    }

    /// Scales the settings. `factor` is clamped first, so that no factor
    /// brings the amounts to zero; `multiply` gives the product of two
    /// numbers; the glow strength never falls below 1.0, and the glow
    /// threshold stays as it is.
    pub fn scale_settings<F: Fn(u32, u32) -> u32>(self, factor: u32, multiply: F) -> (out: Self)
        requires
            accepts_all(multiply),
        ensures
            self.scaled_by(factor, multiply, out),
            not_below(out.glow_strength, ONE),
    {
        CrtGavligSettings {
            vignette_strength: scale_amount(self.vignette_strength, factor, &multiply),
            vignette_alpha: scale_amount(self.vignette_alpha, factor, &multiply),
            glow_threshold: self.glow_threshold,
            glow_strength: scale_glow(self.glow_strength, factor, &multiply),
            grain_strength: scale_amount(self.grain_strength, factor, &multiply),
        }
    }

    /// The settings scaled by `scale`.
    pub fn with_scale<F: Fn(u32, u32) -> u32>(self, scale: u32, multiply: F) -> (out: Self)
        requires
            accepts_all(multiply),
        ensures
            self.scaled_by(scale, multiply, out),
            not_below(out.glow_strength, ONE),
    {
        self.scale_settings(scale, multiply)
    }

    /// Replaces the settings by those that `preset` names, scaled by
    /// `scale`, in one step.
    pub fn set_preset_scaled<F: Fn(u32, u32) -> u32>(
        &mut self,
        preset: CrtGavligPreset,
        scale: u32,
        multiply: F,
    )
        requires
            accepts_all(multiply),
        ensures
            Self::preset_value(preset).scaled_by(scale, multiply, *final(self)),
            not_below(final(self).glow_strength, ONE),
    {
        *self = CrtGavligSettings::new(preset).with_scale(scale, multiply);
    }

    /// Scaling by a factor that is zero, negative, below `MIN_SCALE` or no
    /// finite number is scaling by `MIN_SCALE`: what may come of the one may
    /// come of the other, and with a multiplier that has one result for each
    /// pair the two results are equal.
    pub proof fn lemma_small_scale_is_min_scale<F: Fn(u32, u32) -> u32>(
        self,
        factor: u32,
        multiply: F,
        small: Self,
        least: Self,
    )
        requires
            not_below(ZERO, factor) || less(factor, MIN_SCALE) || !is_finite(factor),
        ensures
            self.scaled_by(factor, multiply, small) <==> self.scaled_by(MIN_SCALE, multiply, small),
            single_valued(multiply) && self.scaled_by(factor, multiply, small) && self.scaled_by(
                MIN_SCALE,
                multiply,
                least,
            ) ==> small == least,
    {
        if is_finite(factor) {
            lemma_small_factor_clamps(factor);
        } else {
            lemma_unbounded_factor_clamps(factor);
        }
    }

    /// Whatever is scaled, by whatever factor and multiplier, glows with at
    /// least 1.0.
    pub proof fn lemma_scaled_glow_is_floored<F: Fn(u32, u32) -> u32>(
        self,
        factor: u32,
        multiply: F,
        out: Self,
    )
        requires
            self.scaled_by(factor, multiply, out),
        ensures
            not_below(out.glow_strength, ONE),
    {
    }
}

impl Default for CrtGavligSettings {
    /// The mild preset.
    fn default() -> (settings: Self)
        ensures
            settings == Self::mild(),
    {
        CrtGavligSettings::new(CrtGavligPreset::Mild)
    }
}

/// The variant's part in building the application.
pub struct GavligCrtPlugin;

impl GavligCrtPlugin {
    /// The shaders of the variant: the settings, then the pass.
    pub open spec fn shaders() -> Seq<ShaderAsset> {
        seq![
            ShaderAsset { handle: GAVLIG_SETTINGS_SHADER_HANDLE, path: "src/gavlig/settings.wgsl" },
            ShaderAsset {
                handle: GAVLIG_PASS0_SHADER_HANDLE,
                path: "assets/shaders/gavlig/pass0.wgsl",
            },
        ]
    }

    /// Lists what the variant registers with the host: its two shaders, the
    /// extraction and the uniform buffer of its settings and, where the host
    /// has a render application, its node between the end of the main passes
    /// and bloom.
    pub fn build(&self, render_app: bool) -> (steps: Vec<Registration>)
        ensures
            steps@ == registration(Variant::Gavlig, Self::shaders(), render_app),
    {
        let mut shaders: Vec<ShaderAsset> = Vec::new();
        shaders.push(
            ShaderAsset { handle: GAVLIG_SETTINGS_SHADER_HANDLE, path: "src/gavlig/settings.wgsl" },
        );
        shaders.push(
            ShaderAsset {
                handle: GAVLIG_PASS0_SHADER_HANDLE,
                path: "assets/shaders/gavlig/pass0.wgsl",
            },
        );
        assert(shaders@ =~= Self::shaders());
        register(Variant::Gavlig, &shaders, render_app)
    }

    /// Says what to build once the application is complete: the variant's
    /// pipeline where the host has a render application, nothing otherwise.
    pub fn finish(&self, render_app: bool) -> (plan: Option<PipelinePlan>)
        ensures
            plan is Some <==> render_app,
            plan matches Some(built) ==> CrtGavligPipeline::describes(built),
    {
        if render_app {
            Some(CrtGavligPipeline::plan())
        } else {
            None
        }
    }
}

/// What is built once for the variant.
pub struct CrtGavligPipeline;

impl CrtGavligPipeline {
    /// The pipeline of the one pass.
    pub open spec fn passes() -> Seq<PassPipeline> {
        seq![
            fullscreen("crt_gavlig_pass0", "crt_gavlig_pass0_pipeline", GAVLIG_PASS0_SHADER_HANDLE),
        ]
    }

    /// `plan` is the variant's: its names, the layout with the engine's
    /// globals at the end, and the one pipeline.
    pub open spec fn describes(plan: PipelinePlan) -> bool {
        &&& plan.layout_label == "crt_gavlig_bind_group_layout"
        &&& plan.bind_group_label == "crt_gavlig_bind_group"
        &&& plan.bindings@ == layout(true)
        &&& plan.passes@ == Self::passes()
    }

    /// Describes the layout and the pipeline of the variant.
    pub fn plan() -> (plan: PipelinePlan)
        ensures
            Self::describes(plan),
            plan.passes@.len() == Variant::Gavlig.spec_pass_count(),
    {
        let mut passes: Vec<PassPipeline> = Vec::new();
        passes.push(
            fullscreen_pass(
                "crt_gavlig_pass0",
                "crt_gavlig_pass0_pipeline",
                GAVLIG_PASS0_SHADER_HANDLE,
            ),
        );
        assert(passes@ =~= Self::passes());
        PipelinePlan {
            layout_label: "crt_gavlig_bind_group_layout",
            bind_group_label: "crt_gavlig_bind_group",
            bindings: bind_group_layout(true),
            passes,
        }
    }
}

/// The variant's node in the render graph.
pub struct CrtGavligNode;

impl CrtGavligNode {
    /// Plans one frame of the variant on one view: its one pass, from
    /// `source` into the other buffer, or nothing when the pipeline or a
    /// binding is missing.
    pub fn run(&self, resources: &FrameResources, source: Buffer) -> (r: Result<
        Vec<Draw>,
        NotReady,
    >)
        ensures
            planned_single(resources, source, r),
            r is Ok <==> ready_at(resources.pipelines@, 0) && resources.settings_binding
                && resources.globals_binding,
    {
        plan_single_pass(resources, source)
    }
}

} // verus!
