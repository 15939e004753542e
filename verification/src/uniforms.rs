//! Shared per-frame uniform state and its draw-time injection.
//!
//! One process-wide record (the frame time) is read by every shader
//! invocation in a frame. It is advanced exactly once per frame,
//! before any draw samples it, so all draws of frame N observe the one
//! snapshot written by frame N's update — never a stale or
//! partially-updated value. A reusable bind command attaches the
//! snapshot to a draw through a fixed bind-group slot; issuing it for
//! many draws of one frame always attaches the same snapshot.

use vstd::prelude::*;

verus! {

/// Bind-group slot through which every draw receives the shared
/// uniforms.
pub const SHARED_UNIFORMS_BIND_SLOT: u32 = 1;

/// The process-wide per-frame uniform record. Time is kept in integer
/// ticks of the frame scheduler's clock.
#[derive(Debug, Clone, Copy, PartialEq, Eq, Structural)]
pub struct SharedFrameUniforms {
    /// Scene time, in ticks, as of the current frame's update.
    pub time: u64,
}

/// The single writer of `SharedFrameUniforms`: advances it once at the
/// start of every frame.
#[derive(Debug, Clone, Copy, PartialEq, Eq, Structural)]
pub struct FrameClock {
    /// Index of the current frame.
    pub frame: u64,
    /// The snapshot all of this frame's draws observe.
    pub uniforms: SharedFrameUniforms,
}

/// A draw observes exactly the snapshot its bind command carries.
pub open spec fn observes(clock: FrameClock, cmd: BindCommand) -> bool {
    cmd.time == clock.uniforms.time
}

/// The reusable render command that attaches the shared-uniform bind
/// group to one draw, at a fixed slot. It carries the snapshot it was
/// built from and decides nothing about when in the frame it runs.
#[derive(Debug, Clone, Copy, PartialEq, Eq, Structural)]
pub struct BindCommand {
    /// Bind-group slot the uniforms are attached at.
    pub slot: u32,
    /// The time snapshot this command hands to the draw.
    pub time: u64,
}

impl FrameClock {
    /// Before the first frame: frame zero, time zero.
    pub fn new() -> (clock: Self)
        ensures
            clock.frame == 0,
            clock.uniforms.time == 0,
    {
        FrameClock { frame: 0, uniforms: SharedFrameUniforms { time: 0 } }
    }

    /// The once-per-frame update: advance the scene time by this
    /// frame's delta. It runs before any draw of the new frame is
    /// bound, and nothing else ever writes the uniforms.
    pub fn begin_frame(&mut self, delta: u64)
        requires
            old(self).frame + 1 <= u64::MAX,
            old(self).uniforms.time + delta <= u64::MAX,
        ensures
            final(self).frame == old(self).frame + 1,
            final(self).uniforms.time == old(self).uniforms.time + delta,
    {
        self.frame = self.frame + 1;
        self.uniforms.time = self.uniforms.time + delta;
    }

    /// Build the bind command for one draw of the current frame. The
    /// command carries the current snapshot, so calling this for every
    /// draw of the frame is idempotent: each receives the same value.
    pub fn bind_for_draw(&self, slot: u32) -> (cmd: BindCommand)
        ensures
            cmd.slot == slot,
            observes(*self, cmd),
    {
        BindCommand { slot, time: self.uniforms.time }
    }
}

/// Single-snapshot law: any two draws bound within the same frame
/// observe the same time, the value set by that frame's single update.
pub proof fn lemma_single_snapshot(clock: FrameClock, c1: BindCommand, c2: BindCommand)
    requires
        observes(clock, c1),
        observes(clock, c2),
    ensures
        c1.time == c2.time,
        c1.time == clock.uniforms.time,
{
}

/// Freshness law: when a frame's update advanced time at all, no draw
/// bound in that frame observes the previous frame's value.
pub proof fn lemma_no_stale_snapshot(
    prev: FrameClock,
    next: FrameClock,
    delta: u64,
    cmd: BindCommand,
)
    requires
        prev.uniforms.time + delta <= u64::MAX,
        next.uniforms.time == prev.uniforms.time + delta,
        delta > 0,
        observes(next, cmd),
    ensures
        cmd.time != prev.uniforms.time,
{
}

/// One draw scheduled for a view: the entity it draws and the pipeline
/// variant that draws it.
#[derive(Debug, Clone, Copy, PartialEq, Eq, Structural)]
pub struct DrawItem {
    /// Entity being drawn.
    pub entity: u64,
    /// Pipeline variant the draw goes through.
    pub pipeline: u64,
}

/// The shadow copy of a draw item: same entity, forced through the
/// configure-shaders pipeline variant that attaches the shared-uniform
/// bind group.
pub open spec fn spec_shadow(item: DrawItem, shadow_pipeline: u64) -> DrawItem {
    DrawItem { entity: item.entity, pipeline: shadow_pipeline }
}

/// Duplicate every opaque draw item scheduled for a view: the original
/// item is kept in place and followed by one shadow copy forced
/// through `shadow_pipeline`, so the shared-uniform bind group is
/// attached at least once per visible opaque object, whatever pipeline
/// the object's own material uses.
pub fn duplicate_opaque_items(items: &Vec<DrawItem>, shadow_pipeline: u64) -> (out: Vec<
    DrawItem,
>)
    requires
        2 * items@.len() <= usize::MAX,
    ensures
        out@.len() == 2 * items@.len(),
        forall|i: int|
            0 <= i < items@.len() ==> #[trigger] out@[2 * i] == items@[i] && out@[2 * i + 1]
                == spec_shadow(items@[i], shadow_pipeline),
{
    let mut out: Vec<DrawItem> = Vec::new();
    let mut i: usize = 0;
    while i < items.len()
        invariant
            0 <= i <= items@.len(),
            2 * items@.len() <= usize::MAX,
            out@.len() == 2 * i,
            forall|j: int|
                0 <= j < i ==> #[trigger] out@[2 * j] == items@[j] && out@[2 * j + 1]
                    == spec_shadow(items@[j], shadow_pipeline),
        decreases items@.len() - i,
    {
        let item = items[i];
        out.push(item);
        out.push(DrawItem { entity: item.entity, pipeline: shadow_pipeline });
        i += 1;
    }
    out
}

} // verus!
