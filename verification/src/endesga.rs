//! The Endesga variant: chromatic aberration, noise, vignette, rounded
//! corners, a pixel mask, barrel distortion and glow, in three passes. The
//! second pass draws the pixel mask and is skipped while the mask is off.

use vstd::prelude::*;
use crate::executor::{all_ready, chain, executed, plan_frame, planned};
use crate::executor::{Buffer, Draw, FrameResources, NotReady};
use crate::graph::{register, registration};
use crate::graph::{Registration, ShaderAsset, Variant};
use crate::intensity::{accepts_all, glows_to, negligible, not_below, scales_to, single_valued};
use crate::intensity::{is_negligible, scale_amount, scale_glow};
use crate::intensity::{less, MIN_AMOUNT, MIN_SCALE, ONE, ZERO};
use crate::intensity::{is_finite, lemma_small_factor_clamps, lemma_unbounded_factor_clamps};
use crate::pipeline::{bind_group_layout, fullscreen, fullscreen_pass, layout};
use crate::pipeline::{PassPipeline, PipelinePlan};

verus! {

/// The handle of the shader that declares the settings.
pub const ENDESGA_SETTINGS_SHADER_HANDLE: u128 = 0x9a62c467e77c4d8eb486acc975a47304;

/// The handle of the fragment shader of the first pass.
pub const ENDESGA_PASS0_SHADER_HANDLE: u128 = 0xe280e380bdb74d6b85045cba17e4ba0c;

/// The handle of the fragment shader of the mask pass.
pub const ENDESGA_PASS1_SHADER_HANDLE: u128 = 0xd509e7b0ae5743db8169573727464586;

/// The handle of the fragment shader of the last pass.
pub const ENDESGA_PASS2_SHADER_HANDLE: u128 = 0xf867645387c7435db10084e000805d0d;

/// The index of the pass that draws the pixel mask.
pub const ENDESGA_MASK_PASS: usize = 1;

/// The settings of the variant, as the shader reads them: eight intensities
/// in this order.
#[derive(Clone, Copy, PartialEq, Eq, Debug, Structural)]
pub struct CrtEndesgaSettings {
    pub aberration_amount: u32,
    pub noise_amount: u32,
    pub vignette_amount: u32,
    pub rounded_amount: u32,
    pub pixelate_amount: u32,
    pub mask_amount: u32,
    pub distortion_amount: u32,
    pub glow_amount: u32,
}

/// The named settings of the variant.
#[derive(Clone, Copy, PartialEq, Eq, Debug, Structural)]
pub enum CrtEndesgaPreset {
    Mild,
    Strong,
}

impl CrtEndesgaSettings {
    /// Aberration 0.07, noise 0.7, vignette 0.7, rounded 0.07, pixelate 0.7,
    /// mask 0.7, distortion 0.07, glow 3.0.
    pub open spec fn strong() -> Self {
        CrtEndesgaSettings {
            aberration_amount: 0x3d8f_5c29,
            noise_amount: 0x3f33_3333,
            vignette_amount: 0x3f33_3333,
            rounded_amount: 0x3d8f_5c29,
            pixelate_amount: 0x3f33_3333,
            mask_amount: 0x3f33_3333,
            distortion_amount: 0x3d8f_5c29,
            glow_amount: 0x4040_0000,
        }
    }

    /// Aberration 0.003, noise 0.05, vignette 0.7, rounded 0.03, pixelate
    /// 0.01, mask 0.01, distortion 0.017, glow 1.9.
    pub open spec fn mild() -> Self {
        CrtEndesgaSettings {
            aberration_amount: 0x3b44_9ba6,
            noise_amount: 0x3d4c_cccd,
            vignette_amount: 0x3f33_3333,
            rounded_amount: 0x3cf5_c28f,
            pixelate_amount: 0x3c23_d70a,
            mask_amount: 0x3c23_d70a,
            distortion_amount: 0x3c8b_4396,
            glow_amount: 0x3ff3_3333,
        }
    }

    /// The settings that a preset names.
    pub open spec fn preset_value(preset: CrtEndesgaPreset) -> Self {
        match preset {
            CrtEndesgaPreset::Mild => Self::mild(),
            CrtEndesgaPreset::Strong => Self::strong(),
        }
    }

    /// `out` is `self` scaled by `factor`: every amount is what `multiply`
    /// may return for it and the clamped factor, and the glow amount is
    /// floored at 1.0 after that.
    pub open spec fn scaled_by<F: Fn(u32, u32) -> u32>(
        self,
        factor: u32,
        multiply: F,
        out: Self,
    ) -> bool {
        &&& scales_to(multiply, self.aberration_amount, factor, out.aberration_amount)
        &&& scales_to(multiply, self.noise_amount, factor, out.noise_amount)
        &&& scales_to(multiply, self.vignette_amount, factor, out.vignette_amount)
        &&& scales_to(multiply, self.rounded_amount, factor, out.rounded_amount)
        &&& scales_to(multiply, self.pixelate_amount, factor, out.pixelate_amount)
        &&& scales_to(multiply, self.mask_amount, factor, out.mask_amount)
        &&& scales_to(multiply, self.distortion_amount, factor, out.distortion_amount)
        &&& glows_to(multiply, self.glow_amount, factor, out.glow_amount)
    }

    /// `self` with the pixel mask switched off: both of its amounts are
    /// zero, and nothing else differs.
    pub open spec fn unmasked(self) -> Self {
        CrtEndesgaSettings { pixelate_amount: ZERO, mask_amount: ZERO, ..self }
    }

    /// The mask pass is skipped: neither of its amounts reaches
    /// `MIN_AMOUNT`.
    pub open spec fn skips_mask(self) -> bool {
        negligible(self.pixelate_amount) && negligible(self.mask_amount)
    }

    /// For each pass, whether these settings switch it off.
    pub open spec fn skip_mask(self) -> Seq<bool> {
        seq![false, self.skips_mask(), false]
    }

    /// The passes that run with these settings.
    pub open spec fn passes(self) -> Seq<usize> {
        if self.skips_mask() {
            seq![0, 2]
        } else {
            seq![0, 1, 2]
        }
    }

    /// The settings that `preset` names.
    pub fn new(preset: CrtEndesgaPreset) -> (settings: Self)
        ensures
            settings == Self::preset_value(preset),
    {
        match preset {
            CrtEndesgaPreset::Mild => CrtEndesgaSettings {
                aberration_amount: 0x3b44_9ba6,
                noise_amount: 0x3d4c_cccd,
                vignette_amount: 0x3f33_3333,
                rounded_amount: 0x3cf5_c28f,
                pixelate_amount: 0x3c23_d70a,
                mask_amount: 0x3c23_d70a,
                distortion_amount: 0x3c8b_4396,
                glow_amount: 0x3ff3_3333,
            },
            CrtEndesgaPreset::Strong => CrtEndesgaSettings {
                aberration_amount: 0x3d8f_5c29,
                noise_amount: 0x3f33_3333,
                vignette_amount: 0x3f33_3333,
                rounded_amount: 0x3d8f_5c29,
                pixelate_amount: 0x3f33_3333,
                mask_amount: 0x3f33_3333,
                distortion_amount: 0x3d8f_5c29,
                glow_amount: 0x4040_0000,
            },
        }
    }

    /// Scales the settings. `factor` is clamped first, so that no factor
    /// brings the amounts to zero; `multiply` gives the product of two
    /// numbers; the glow amount never falls below 1.0.
    pub fn scale_settings<F: Fn(u32, u32) -> u32>(self, factor: u32, multiply: F) -> (out: Self)
        requires
            accepts_all(multiply),
        ensures
            self.scaled_by(factor, multiply, out),
            not_below(out.glow_amount, ONE),
    {
        CrtEndesgaSettings {
            aberration_amount: scale_amount(self.aberration_amount, factor, &multiply),
            noise_amount: scale_amount(self.noise_amount, factor, &multiply),
            vignette_amount: scale_amount(self.vignette_amount, factor, &multiply),
            rounded_amount: scale_amount(self.rounded_amount, factor, &multiply),
            pixelate_amount: scale_amount(self.pixelate_amount, factor, &multiply),
            mask_amount: scale_amount(self.mask_amount, factor, &multiply),
            distortion_amount: scale_amount(self.distortion_amount, factor, &multiply),
            glow_amount: scale_glow(self.glow_amount, factor, &multiply),
        }
    }

    /// The settings scaled by `scale`.
    pub fn with_scale<F: Fn(u32, u32) -> u32>(self, scale: u32, multiply: F) -> (out: Self)
        requires
            accepts_all(multiply),
        ensures
            self.scaled_by(scale, multiply, out),
            not_below(out.glow_amount, ONE),
    {
        self.scale_settings(scale, multiply)
    }

    /// The settings with the pixel mask switched off. Scaling cannot do
    /// this: it never applies a factor of zero.
    pub fn without_pixelate(self) -> (out: Self)
        ensures
            out == self.unmasked(),
    {
        let mut out = self;
        out.pixelate_amount = ZERO;
        out.mask_amount = ZERO;
        out
    }

    /// Replaces the settings by those that `preset` names, scaled by
    /// `scale`, in one step.
    pub fn set_preset_scaled<F: Fn(u32, u32) -> u32>(
        &mut self,
        preset: CrtEndesgaPreset,
        scale: u32,
        multiply: F,
    )
        requires
            accepts_all(multiply),
        ensures
            Self::preset_value(preset).scaled_by(scale, multiply, *final(self)),
            not_below(final(self).glow_amount, ONE),
    {
        *self = CrtEndesgaSettings::new(preset).with_scale(scale, multiply);
    }

    /// Tells whether these settings skip the mask pass.
    pub fn skips_mask_pass(&self) -> (skips: bool)
        ensures
            skips == self.skips_mask(),
    {
        is_negligible(self.pixelate_amount) && is_negligible(self.mask_amount)
    }

    /// Scaling by a factor that is zero, negative, below `MIN_SCALE` or no
    /// finite number is scaling by `MIN_SCALE`: what may come of the one may
    /// come of the other, and with a multiplier that has one result for each
    /// pair the two results are equal.
    pub proof fn lemma_small_scale_is_min_scale<F: Fn(u32, u32) -> u32>(
        self,
        factor: u32,
        multiply: F,
        small: Self,
        least: Self,
    )
        requires
            not_below(ZERO, factor) || less(factor, MIN_SCALE) || !is_finite(factor),
        ensures
            self.scaled_by(factor, multiply, small) <==> self.scaled_by(MIN_SCALE, multiply, small),
            single_valued(multiply) && self.scaled_by(factor, multiply, small) && self.scaled_by(
                MIN_SCALE,
                multiply,
                least,
            ) ==> small == least,
    {
        if is_finite(factor) {
            lemma_small_factor_clamps(factor);
        } else {
            lemma_unbounded_factor_clamps(factor);
        }
    }

    /// Whatever is scaled, by whatever factor and multiplier, glows with at
    /// least 1.0.
    pub proof fn lemma_scaled_glow_is_floored<F: Fn(u32, u32) -> u32>(
        self,
        factor: u32,
        multiply: F,
        out: Self,
    )
        requires
            self.scaled_by(factor, multiply, out),
        ensures
            not_below(out.glow_amount, ONE),
    {
    }

    /// Switching the mask off zeroes its two amounts, keeps the other six,
    /// and makes the mask pass one that is skipped.
    pub proof fn lemma_unmasked(self)
        ensures
            self.unmasked().pixelate_amount == ZERO,
            self.unmasked().mask_amount == ZERO,
            self.unmasked().aberration_amount == self.aberration_amount,
            self.unmasked().noise_amount == self.noise_amount,
            self.unmasked().vignette_amount == self.vignette_amount,
            self.unmasked().rounded_amount == self.rounded_amount,
            self.unmasked().distortion_amount == self.distortion_amount,
            self.unmasked().glow_amount == self.glow_amount,
            self.unmasked().skips_mask(),
    {
    }

    /// The mask pass is left out when both of its amounts are less than
    /// `MIN_AMOUNT`, and runs when either reaches it. The other two passes
    /// always run.
    pub proof fn lemma_mask_pass(self)
        ensures
            executed(self.skip_mask()) == self.passes(),
            less(self.pixelate_amount, MIN_AMOUNT) && less(self.mask_amount, MIN_AMOUNT)
                ==> !self.passes().contains(ENDESGA_MASK_PASS),
            not_below(self.pixelate_amount, MIN_AMOUNT) || not_below(self.mask_amount, MIN_AMOUNT)
                ==> self.passes().contains(ENDESGA_MASK_PASS),
            self.passes().contains(0),
            self.passes().contains(2),
    {
        let mask = self.skip_mask();
        let two = mask.drop_last();
        let one = two.drop_last();
        let none = one.drop_last();
        assert(none.len() == 0);
        assert(executed(none) =~= Seq::<usize>::empty());
        assert(executed(one) =~= seq![0usize]);
        if self.skips_mask() {
            assert(executed(two) =~= seq![0usize]);
            assert(executed(mask) =~= seq![0usize, 2usize]);
            assert(self.passes()[0] == 0usize);
            assert(self.passes()[1] == 2usize);
        } else {
            assert(executed(two) =~= seq![0usize, 1usize]);
            assert(executed(mask) =~= seq![0usize, 1usize, 2usize]);
            assert(self.passes()[0] == 0usize);
            assert(self.passes()[1] == 1usize);
            assert(self.passes()[2] == 2usize);
        }
    }
}

impl Default for CrtEndesgaSettings {
    /// The strong preset.
    fn default() -> (settings: Self)
        ensures
            settings == Self::strong(),
    {
        CrtEndesgaSettings::new(CrtEndesgaPreset::Strong)
    }
}

/// The variant's part in building the application.
pub struct EndesgaCrtPlugin;

impl EndesgaCrtPlugin {
    /// The shaders of the variant: the settings, then one for each pass.
    pub open spec fn shaders() -> Seq<ShaderAsset> {
        seq![
            ShaderAsset { handle: ENDESGA_SETTINGS_SHADER_HANDLE, path: "src/endesga/settings.wgsl" },
            ShaderAsset {
                handle: ENDESGA_PASS0_SHADER_HANDLE,
                path: "assets/shaders/endesga/pass0.wgsl",
            },
            ShaderAsset {
                handle: ENDESGA_PASS1_SHADER_HANDLE,
                path: "assets/shaders/endesga/pass1.wgsl",
            },
            ShaderAsset {
                handle: ENDESGA_PASS2_SHADER_HANDLE,
                path: "assets/shaders/endesga/pass2.wgsl",
            },
        ]
    }

    /// Lists what the variant registers with the host: its four shaders,
    /// the extraction and the uniform buffer of its settings and, where the
    /// host has a render application, its node between the end of the main
    /// passes and bloom.
    pub fn build(&self, render_app: bool) -> (steps: Vec<Registration>)
        ensures
            steps@ == registration(Variant::Endesga, Self::shaders(), render_app),
    {
        let mut shaders: Vec<ShaderAsset> = Vec::new();
        shaders.push(
            ShaderAsset { handle: ENDESGA_SETTINGS_SHADER_HANDLE, path: "src/endesga/settings.wgsl" },
        );
        shaders.push(
            ShaderAsset {
                handle: ENDESGA_PASS0_SHADER_HANDLE,
                path: "assets/shaders/endesga/pass0.wgsl",
            },
        );
        shaders.push(
            ShaderAsset {
                handle: ENDESGA_PASS1_SHADER_HANDLE,
                path: "assets/shaders/endesga/pass1.wgsl",
            },
        );
        shaders.push(
            ShaderAsset {
                handle: ENDESGA_PASS2_SHADER_HANDLE,
                path: "assets/shaders/endesga/pass2.wgsl",
            },
        );
        assert(shaders@ =~= Self::shaders());
        register(Variant::Endesga, &shaders, render_app)
    }

    /// Says what to build once the application is complete: the variant's
    /// pipelines where the host has a render application, nothing
    /// otherwise.
    pub fn finish(&self, render_app: bool) -> (plan: Option<PipelinePlan>)
        ensures
            plan is Some <==> render_app,
            plan matches Some(built) ==> CrtEndesgaPipeline::describes(built),
    {
        if render_app {
            Some(CrtEndesgaPipeline::plan())
        } else {
            None
        }
    }
}

/// What is built once for the variant.
pub struct CrtEndesgaPipeline;

impl CrtEndesgaPipeline {
    /// The pipelines of the three passes.
    pub open spec fn passes() -> Seq<PassPipeline> {
        seq![
            fullscreen(
                "crt_endesga_pass0",
                "crt_endesga_pass0_pipeline",
                ENDESGA_PASS0_SHADER_HANDLE,
            ),
            fullscreen(
                "crt_endesga_pass1",
                "crt_endesga_pass1_pipeline",
                ENDESGA_PASS1_SHADER_HANDLE,
            ),
            fullscreen(
                "crt_endesga_pass2",
                "crt_endesga_pass2_pipeline",
                ENDESGA_PASS2_SHADER_HANDLE,
            ),
        ]
    }

    /// `plan` is the variant's: its names, the layout with the engine's
    /// globals at the end, and the three pipelines.
    pub open spec fn describes(plan: PipelinePlan) -> bool {
        &&& plan.layout_label == "crt_galore_bind_group_layout"
        &&& plan.bind_group_label == "crt_endesga_bind_group"
        &&& plan.bindings@ == layout(true)
        &&& plan.passes@ == Self::passes()
    }

    /// Describes the layout and the pipelines of the variant.
    pub fn plan() -> (plan: PipelinePlan)
        ensures
            Self::describes(plan),
            plan.passes@.len() == Variant::Endesga.spec_pass_count(),
    {
        let mut passes: Vec<PassPipeline> = Vec::new();
        passes.push(
            fullscreen_pass(
                "crt_endesga_pass0",
                "crt_endesga_pass0_pipeline",
                ENDESGA_PASS0_SHADER_HANDLE,
            ),
        );
        passes.push(
            fullscreen_pass(
                "crt_endesga_pass1",
                "crt_endesga_pass1_pipeline",
                ENDESGA_PASS1_SHADER_HANDLE,
            ),
        );
        passes.push(
            fullscreen_pass(
                "crt_endesga_pass2",
                "crt_endesga_pass2_pipeline",
                ENDESGA_PASS2_SHADER_HANDLE,
            ),
        );
        assert(passes@ =~= Self::passes());
        PipelinePlan {
            layout_label: "crt_galore_bind_group_layout",
            bind_group_label: "crt_endesga_bind_group",
            bindings: bind_group_layout(true),
            passes,
        }
    }
}

/// The variant's node in the render graph.
pub struct CrtEndesgaNode;

impl CrtEndesgaNode {
    /// Plans one frame of the variant on one view, from the settings
    /// snapshot of that frame. The mask pass is asked about first: while it
    /// is skipped its pipeline is not needed. Then the frame is drawn whole,
    /// or left as it is when something is missing.
    pub fn run(
        &self,
        settings: &CrtEndesgaSettings,
        resources: &FrameResources,
        source: Buffer,
    ) -> (r: Result<Vec<Draw>, NotReady>)
        ensures
            planned(settings.skip_mask(), resources, source, r),
            r is Ok <==> all_ready(settings.skip_mask(), resources.pipelines@)
                && resources.settings_binding && resources.globals_binding,
            r matches Ok(draws) ==> draws@ == chain(settings.passes(), source),
    {
        let mut skip: Vec<bool> = Vec::new();
        skip.push(false);
        skip.push(settings.skips_mask_pass());
        skip.push(false);
        proof {
            assert(skip@ =~= settings.skip_mask());
            settings.lemma_mask_pass();
        }
        plan_frame(&skip, resources, source)
    }
}

} // verus!
