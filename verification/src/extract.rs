//! The per-frame snapshot of the settings.
//!
//! Once per frame, after the update phase and before anything is drawn, the
//! settings of every camera are copied for the renderer, together with what
//! the engine knows of the frame: the size of the camera's viewport, the
//! number of the frame and the time. These values enter here and nowhere
//! else. A snapshot is the renderer's own: it cannot be changed once made,
//! and later changes of the live settings do not reach it.

use vstd::prelude::*;

verus! {

/// The size of a camera's viewport, in pixels.
#[derive(Clone, Copy, PartialEq, Eq, Debug, Structural)]
pub struct Viewport {
    pub width: u32,
    pub height: u32,
}

/// What the engine knows of a frame as a whole.
#[derive(Clone, Copy, PartialEq, Eq, Debug, Structural)]
pub struct FrameClock {
    /// The number of the frame. The host counts it up.
    pub frame: u32,
    /// The seconds since the start, a single-precision number held as its
    /// bit pattern.
    pub elapsed: u32,
}

/// A camera that carries the settings of a variant.
#[derive(Clone, Copy, PartialEq, Eq, Debug)]
pub struct Camera<S> {
    /// The camera's entity.
    pub entity: u64,
    /// The camera's viewport in this frame.
    pub viewport: Viewport,
    /// The live settings, which the host may change in every update.
    pub settings: S,
}

/// The settings of one camera as they were when a frame was extracted.
#[derive(PartialEq, Eq, Debug)]
pub struct Snapshot<S> {
    entity: u64,
    viewport: Viewport,
    clock: FrameClock,
    settings: S,
}

impl<S: Copy> Snapshot<S> {
    /// The camera that the snapshot was taken of, as it was then.
    pub closed spec fn camera(self) -> Camera<S> {
        Camera { entity: self.entity, viewport: self.viewport, settings: self.settings }
    }

    /// The frame that the snapshot was taken for.
    pub closed spec fn taken_at(self) -> FrameClock {
        self.clock
    }

    /// The entity of the camera.
    pub fn entity(&self) -> (entity: u64)
        ensures
            entity == self.camera().entity,
    {
        self.entity
    }

    /// The viewport of the camera at the time of extraction.
    pub fn viewport(&self) -> (viewport: Viewport)
        ensures
            viewport == self.camera().viewport,
    {
        self.viewport
    }

    /// The settings at the time of extraction.
    pub fn settings(&self) -> (settings: &S)
        ensures
            *settings == self.camera().settings,
    {
        &self.settings
    }

    /// The frame that the snapshot was taken for.
    pub fn clock(&self) -> (clock: FrameClock)
        ensures
            clock == self.taken_at(),
    {
        self.clock
    }
}

/// Copies one camera's settings for the renderer.
pub fn extract<S: Copy>(camera: &Camera<S>, clock: FrameClock) -> (snapshot: Snapshot<S>)
    ensures
        snapshot.camera() == *camera,
        snapshot.taken_at() == clock,
{
    Snapshot {
        entity: camera.entity,
        viewport: camera.viewport,
        clock,
        settings: camera.settings,
    }
}

/// Copies the settings of every camera that carries them, in the order
/// given, all for the same frame.
pub fn extract_all<S: Copy>(cameras: &Vec<Camera<S>>, clock: FrameClock) -> (snapshots: Vec<
    Snapshot<S>,
>)
    ensures
        snapshots@.len() == cameras@.len(),
        forall|i: int|
            0 <= i < cameras@.len() ==> (#[trigger] snapshots@[i]).camera() == cameras@[i]
                && snapshots@[i].taken_at() == clock,
{
    let mut snapshots: Vec<Snapshot<S>> = Vec::new();
    let count: usize = cameras.len();
    let mut next: usize = 0;
    while next < count
        invariant
            count == cameras@.len(),
            next <= count,
            snapshots@.len() == next,
            forall|i: int|
                0 <= i < next ==> (#[trigger] snapshots@[i]).camera() == cameras@[i]
                    && snapshots@[i].taken_at() == clock,
        decreases count - next,
    {
        snapshots.push(extract(&cameras[next], clock));
        next += 1;
    }
    snapshots
}

} // verus!
