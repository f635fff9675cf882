//! What the renderer builds once for an effect: one bind-group layout, one
//! sampler, and one pipeline for each pass.
//!
//! Every pipeline pairs the full-screen-triangle vertex stage, which takes no
//! buffer, with the pass's own fragment shader, and writes one colour target.

use vstd::prelude::*;

verus! {

/// What stands at one binding of an effect's bind group. The place in the
/// layout is the binding's number.
#[derive(Clone, Copy, PartialEq, Eq, Debug, Structural)]
pub enum Binding {
    /// The image so far: a sampled 2D texture of filterable floats.
    ScreenTexture,
    /// The filtering sampler that the image is read with.
    ScreenSampler,
    /// A uniform buffer of exactly the size of the effect's settings.
    Settings,
    /// The uniform buffer of the engine's globals (time, frame index).
    Globals,
}

/// The format of the colour target of every pass.
#[derive(Clone, Copy, PartialEq, Eq, Debug, Structural)]
pub enum ColorFormat {
    /// Four channels of 16-bit floats.
    Rgba16Float,
}

/// The pipeline of one pass.
#[derive(Clone, Copy, PartialEq, Eq, Debug)]
pub struct PassPipeline {
    /// The name of the render pass that the draw is recorded in.
    pub pass_label: &'static str,
    /// The name of the pipeline.
    pub pipeline_label: &'static str,
    /// The handle of the fragment shader.
    pub shader: u128,
    /// The entry point of the fragment shader.
    pub entry_point: &'static str,
    /// The format of the colour target.
    pub format: ColorFormat,
}

/// Everything that is built once for an effect.
#[derive(PartialEq, Eq, Debug)]
pub struct PipelinePlan {
    /// The name of the bind-group layout.
    pub layout_label: &'static str,
    /// The name of the bind group that each draw makes from the layout.
    pub bind_group_label: &'static str,
    /// The layout: what stands at binding 0, 1, 2 and so on. All of it is
    /// visible to the fragment stage only.
    pub bindings: Vec<Binding>,
    /// The pipelines, one for each pass, in the order of the passes.
    pub passes: Vec<PassPipeline>,
}

/// The layout that every effect has: the screen texture, its sampler and the
/// settings, and last the engine's globals where the effect reads them.
pub open spec fn layout(globals: bool) -> Seq<Binding> {
    if globals {
        seq![Binding::ScreenTexture, Binding::ScreenSampler, Binding::Settings, Binding::Globals]
    } else {
        seq![Binding::ScreenTexture, Binding::ScreenSampler, Binding::Settings]
    }
}

/// The pipeline of a pass with the given names and fragment shader.
pub open spec fn fullscreen(
    pass_label: &'static str,
    pipeline_label: &'static str,
    shader: u128,
) -> PassPipeline {
    PassPipeline {
        pass_label,
        pipeline_label,
        shader,
        entry_point: "fragment",
        format: ColorFormat::Rgba16Float,
    }
}

/// Lays the bind group out.
pub fn bind_group_layout(globals: bool) -> (bindings: Vec<Binding>)
    ensures
        bindings@ == layout(globals),
{
    let mut bindings: Vec<Binding> = Vec::new();
    bindings.push(Binding::ScreenTexture);
    bindings.push(Binding::ScreenSampler);
    bindings.push(Binding::Settings);
    if globals {
        bindings.push(Binding::Globals);
    }
    assert(bindings@ =~= layout(globals));
    bindings
}

/// Describes the pipeline of one pass.
pub fn fullscreen_pass(
    pass_label: &'static str,
    pipeline_label: &'static str,
    shader: u128,
) -> (pass: PassPipeline)
    ensures
        pass == fullscreen(pass_label, pipeline_label, shader),
{
    PassPipeline {
        pass_label,
        pipeline_label,
        shader,
        entry_point: "fragment",
        format: ColorFormat::Rgba16Float,
    }
}

} // verus!
