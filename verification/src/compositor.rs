//! Off-screen compositor: one render target and camera per painting.
//!
//! Each painting's surface is a live render of a hidden sub-scene. For
//! every painting the compositor allocates a fixed-size color image,
//! backs it with a camera that renders strictly before the main pass,
//! and restricts that camera to a visibility layer disjoint from the
//! main camera's, so the sub-scene rig is only ever seen through the
//! composited texture. No two paintings share a backing image.

use vstd::prelude::*;

use crate::errors::RenderError;
use crate::math::Transform;

verus! {

/// Side length of every off-screen color image, in pixels.
pub const TARGET_SIZE: u32 = 512;

/// Render priority of the main camera; lower values render earlier.
pub const MAIN_CAMERA_PRIORITY: i32 = 0;

/// Render priority of every off-screen camera: strictly below the main
/// camera's, so a painting's texture is complete before the main pass
/// samples it.
pub const OFFSCREEN_CAMERA_PRIORITY: i32 = -1;

/// Visibility layer of the main camera and of the gallery scene.
pub const MAIN_LAYER: u32 = 0;

/// Visibility layer of the hidden sub-scenes and their cameras,
/// disjoint from `MAIN_LAYER`.
pub const HIDDEN_LAYER: u32 = 1;

/// An off-screen color target and the camera that fills it.
#[derive(Debug, Clone, PartialEq, Eq, Structural)]
pub struct RenderTarget {
    /// Handle of the backing color image; unique per target.
    pub image: u64,
    /// Width of the image, in pixels.
    pub width: u32,
    /// Height of the image, in pixels.
    pub height: u32,
    /// Render priority of the backing camera.
    pub priority: i32,
    /// Visibility layer of the backing camera.
    pub layer: u32,
    /// World placement of the backing camera inside the sub-scene.
    pub camera_transform: Transform,
}

impl RenderTarget {
    /// What every off-screen target looks like: fixed size, a camera
    /// that renders before the main pass, on the hidden layer.
    pub open spec fn wf(self) -> bool {
        &&& self.width == TARGET_SIZE
        &&& self.height == TARGET_SIZE
        &&& self.priority == OFFSCREEN_CAMERA_PRIORITY
        &&& self.priority < MAIN_CAMERA_PRIORITY
        &&& self.layer == HIDDEN_LAYER
        &&& self.layer != MAIN_LAYER
    }
}

/// Allocator of off-screen render targets. Image handles are issued in
/// order, so a compositor's history is exactly the list of images it
/// has handed out.
#[derive(Debug)]
pub struct Compositor {
    /// How many targets this compositor may allocate in total; an
    /// allocation past this budget fails.
    pub capacity: usize,
    /// Image handles issued so far, oldest first.
    pub issued: Vec<u64>,
}

impl Compositor {
    /// Reachable compositor states: the n-th issued image handle is n,
    /// so handles never repeat.
    pub open spec fn wf(self) -> bool {
        forall|i: int| 0 <= i < self.issued@.len() ==> self.issued@[i] == i
    }

    /// A fresh compositor with the given allocation budget has issued
    /// nothing.
    pub fn new(capacity: usize) -> (c: Self)
        ensures
            c.wf(),
            c.capacity == capacity,
            c.issued@.len() == 0,
    {
        Compositor { capacity, issued: Vec::new() }
    }

    /// Allocate one painting's render target: a fresh fixed-size color
    /// image and a camera bound to it, placed at `camera_transform`,
    /// rendering strictly before the main pass and restricted to the
    /// hidden layer. Every call that succeeds yields an image distinct
    /// from every image issued before; allocation fails exactly when
    /// the budget is spent, and a failure leaves the compositor
    /// unchanged.
    pub fn create_painting(&mut self, camera_transform: Transform) -> (r: Result<
        RenderTarget,
        RenderError,
    >)
        requires
            old(self).wf(),
        ensures
            final(self).wf(),
            final(self).capacity == old(self).capacity,
            old(self).issued@.len() < old(self).capacity ==> {
                &&& r matches Ok(t)
                &&& t.wf()
                &&& t.camera_transform == camera_transform
                &&& t.image == old(self).issued@.len()
                &&& forall|i: int|
                    0 <= i < old(self).issued@.len() ==> old(self).issued@[i] != t.image
                &&& final(self).issued@ == old(self).issued@.push(t.image)
            },
            old(self).issued@.len() >= old(self).capacity ==> {
                &&& r matches Err(e) && e == RenderError::RenderTargetAllocationFailed
                &&& final(self).issued@ == old(self).issued@
            },
    {
        if self.issued.len() >= self.capacity {
            return Err(RenderError::RenderTargetAllocationFailed);
        }
        let image: u64 = self.issued.len() as u64;
        self.issued.push(image);
        Ok(
            RenderTarget {
                image,
                width: TARGET_SIZE,
                height: TARGET_SIZE,
                priority: OFFSCREEN_CAMERA_PRIORITY,
                layer: HIDDEN_LAYER,
                camera_transform,
            },
        )
    }
}

/// Uniqueness law: in every reachable compositor state the issued
/// images are pairwise distinct, so k `create_painting` calls yield k
/// render targets with no shared backing image.
pub proof fn lemma_targets_distinct(c: Compositor, i: int, j: int)
    requires
        c.wf(),
        0 <= i < c.issued@.len(),
        0 <= j < c.issued@.len(),
        i != j,
    ensures
        c.issued@[i] != c.issued@[j],
{
}

/// Ordering law: every off-screen target's camera renders strictly
/// before the main camera, so the composited texture a painting
/// samples is complete for the frame before the main pass reads it.
pub proof fn lemma_offscreen_renders_first(t: RenderTarget)
    requires
        t.wf(),
    ensures
        t.priority < MAIN_CAMERA_PRIORITY,
        t.layer != MAIN_LAYER,
{
}

} // verus!
