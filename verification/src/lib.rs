//! Screen-space CRT effects for a real-time 3D renderer: chromatic
//! aberration, pixel masks, vignette, grain, distortion and glow, drawn as
//! full-screen passes after the scene and before the frame is shown.
//!
//! The library holds the rules of the effects and decides what the renderer
//! does: the settings of each variant and how they scale, what is registered
//! with the host and where each effect enters the render graph, what is
//! built once, what is copied each frame, and which passes a frame draws.
//! It draws nothing itself and talks to no device.

pub mod endesga;
pub mod executor;
pub mod extract;
pub mod gavlig;
pub mod graph;
pub mod intensity;
pub mod pipeline;
pub mod xor;

pub use endesga::{CrtEndesgaPreset, CrtEndesgaSettings, EndesgaCrtPlugin};
pub use gavlig::{CrtGavligPreset, CrtGavligSettings, GavligCrtPlugin};
pub use intensity::{MIN_AMOUNT, MIN_SCALE};
pub use xor::{CrtXorPreset, CrtXorSettings, XorCrtPlugin};

use graph::Variant;
use vstd::prelude::*;

verus! {

/// All of the variants at once.
pub struct CrtGalorePlugin;

impl CrtGalorePlugin {
    /// The variants, in the order in which they are built.
    pub open spec fn variants() -> Seq<Variant> {
        seq![Variant::Endesga, Variant::Xor, Variant::Gavlig]
    }

    /// Lists the variants whose plugins the host is to add, in order.
    pub fn build(&self) -> (variants: Vec<Variant>)
        ensures
            variants@ == Self::variants(),
    {
        let mut variants: Vec<Variant> = Vec::new();
        variants.push(Variant::Endesga);
        variants.push(Variant::Xor);
        variants.push(Variant::Gavlig);
        assert(variants@ =~= Self::variants());
        variants
    }
}

} // verus!
