//! Where an effect enters the render graph, and what it registers with the
//! host when the application is built.

use vstd::prelude::*;

verus! {

/// The effect families. Each has its own settings, passes and shaders.
#[derive(Clone, Copy, PartialEq, Eq, Debug, Structural)]
pub enum Variant {
    Endesga,
    Xor,
    Gavlig,
}

/// A node of the host's 3D render graph that an effect is ordered against.
#[derive(Clone, Copy, PartialEq, Eq, Debug, Structural)]
pub enum Anchor {
    /// The end of the main passes.
    EndMainPass,
    /// Bloom extraction.
    Bloom,
    /// Tonemapping.
    Tonemapping,
    /// The marker that ends post-processing.
    EndMainPassPostProcessing,
}

/// The two places where an effect can stand. The place is fixed for each
/// variant: it decides the colour space that the effect works in and whether
/// its glow reaches bloom.
#[derive(Clone, Copy, PartialEq, Eq, Debug, Structural)]
pub enum InsertionPoint {
    /// After the main passes and before bloom extraction, for effects whose
    /// glow has to feed bloom.
    PreBloom,
    /// After tonemapping and before the end of post-processing, for effects
    /// that work on the image as it will be shown.
    PostTonemap,
}

/// A shader that an effect brings with it.
#[derive(Clone, Copy, PartialEq, Eq, Debug)]
pub struct ShaderAsset {
    /// The handle that pipelines name the shader by.
    pub handle: u128,
    /// Where the shader's source lies, from the root of the package.
    pub path: &'static str,
}

/// One thing that an effect registers with the host.
#[derive(Clone, Copy, PartialEq, Eq, Debug)]
pub enum Registration {
    /// Load a shader under its handle.
    LoadShader(ShaderAsset),
    /// Copy the variant's settings of every camera into the render world
    /// once per frame, between update and render.
    ExtractSettings(Variant),
    /// Keep a uniform buffer of the variant's extracted settings.
    UniformSettings(Variant),
    /// Add the variant's node to the 3D render graph.
    AddNode(Variant),
    /// Order the node after `after` and before `before`.
    AddEdges { after: Anchor, node: Variant, before: Anchor },
}

impl InsertionPoint {
    /// The anchor that the effect runs after.
    pub open spec fn after(self) -> Anchor {
        match self {
            InsertionPoint::PreBloom => Anchor::EndMainPass,
            InsertionPoint::PostTonemap => Anchor::Tonemapping,
        }
    }

    /// The anchor that the effect runs before.
    pub open spec fn before(self) -> Anchor {
        match self {
            InsertionPoint::PreBloom => Anchor::Bloom,
            InsertionPoint::PostTonemap => Anchor::EndMainPassPostProcessing,
        }
    }

    /// The two anchors that the effect runs between.
    pub fn anchors(self) -> (r: (Anchor, Anchor))
        ensures
            r == (self.after(), self.before()),
    {
        match self {
            InsertionPoint::PreBloom => (Anchor::EndMainPass, Anchor::Bloom),
            InsertionPoint::PostTonemap => (Anchor::Tonemapping, Anchor::EndMainPassPostProcessing),
        }
    }
}

impl Variant {
    /// Where the variant stands. All three feed bloom.
    pub open spec fn spec_insertion_point(self) -> InsertionPoint {
        InsertionPoint::PreBloom
    }

    /// How many passes the variant has.
    pub open spec fn spec_pass_count(self) -> nat {
        match self {
            Variant::Endesga => 3,
            Variant::Xor => 1,
            Variant::Gavlig => 1,
        }
    }

    /// Where the variant stands.
    pub fn insertion_point(self) -> (point: InsertionPoint)
        ensures
            point == self.spec_insertion_point(),
    {
        InsertionPoint::PreBloom
    }

    /// How many passes the variant has.
    pub fn pass_count(self) -> (count: usize)
        ensures
            count == self.spec_pass_count(),
    {
        match self {
            Variant::Endesga => 3,
            Variant::Xor => 1,
            Variant::Gavlig => 1,
        }
    }
}

/// The wiring of a variant's node: the node, then its edges. Nothing when
/// the host has no render application.
pub open spec fn wiring(variant: Variant, render_app: bool) -> Seq<Registration> {
    if render_app {
        seq![
            Registration::AddNode(variant),
            Registration::AddEdges {
                after: variant.spec_insertion_point().after(),
                node: variant,
                before: variant.spec_insertion_point().before(),
            },
        ]
    } else {
        Seq::empty()
    }
}

/// What a variant registers: its shaders in the order given, the extraction
/// and the uniform buffer of its settings, then its wiring.
pub open spec fn registration(
    variant: Variant,
    shaders: Seq<ShaderAsset>,
    render_app: bool,
) -> Seq<Registration> {
    shaders.map_values(|shader: ShaderAsset| Registration::LoadShader(shader)) + seq![
        Registration::ExtractSettings(variant),
        Registration::UniformSettings(variant),
    ] + wiring(variant, render_app)
}

/// Lists what a variant registers when the application is built.
/// `render_app` says whether the host has a render application. Without one
/// the graph is left alone, and building goes on.
pub fn register(variant: Variant, shaders: &Vec<ShaderAsset>, render_app: bool) -> (steps: Vec<
    Registration,
>)
    ensures
        steps@ == registration(variant, shaders@, render_app),
{
    let mut steps: Vec<Registration> = Vec::new();
    let count: usize = shaders.len();
    let mut next: usize = 0;
    while next < count
        invariant
            count == shaders@.len(),
            next <= count,
            steps@ == shaders@.take(next as int).map_values(
                |shader: ShaderAsset| Registration::LoadShader(shader),
            ),
        decreases count - next,
    {
        steps.push(Registration::LoadShader(shaders[next]));
        next += 1;
        assert(steps@ =~= shaders@.take(next as int).map_values(
            |shader: ShaderAsset| Registration::LoadShader(shader),
        ));
    }
    assert(shaders@.take(count as int) == shaders@);
    steps.push(Registration::ExtractSettings(variant));
    steps.push(Registration::UniformSettings(variant));
    if render_app {
        let (after, before) = variant.insertion_point().anchors();
        steps.push(Registration::AddNode(variant));
        steps.push(Registration::AddEdges { after, node: variant, before });
    }
    assert(steps@ =~= registration(variant, shaders@, render_app));
    steps
}

} // verus!
