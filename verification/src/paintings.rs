//! Painting assembly: one decorated box per declared painting.
//!
//! After the environment reaches `Ready`, each declared painting names
//! a node of the loaded scene and a camera placement for its hidden
//! sub-scene. Assembly resolves the name (first match wins), obtains a
//! fresh off-screen render target from the compositor, builds an
//! opaque low-reflectance material bound to that target's texture, and
//! sizes an axis-aligned box from the node's bounding extents, centred
//! at the node's world-space bounding-box centre. A painting whose
//! name is absent or whose target cannot be allocated is reported by
//! its own error and assembles no geometry; the other paintings in the
//! same list are unaffected.

pub mod simple;

use vstd::prelude::*;

use crate::compositor::{Compositor, RenderTarget};
use crate::environment::EnvState;
use crate::errors::RenderError;
use crate::math::{is_world_box_of, world_box, Aabb, Transform, WorldBox};
use crate::paintings::simple::SimpleScene;

verus! {

/// Reflectance of a painting's surface material, in thousandths: a
/// barely reflective gallery canvas.
pub const PAINTING_REFLECTANCE_MILLI: u16 = 20;

/// A read-only view of one loaded scene node, as the scene-graph
/// collaborator exposes it: a (non-unique) name, the mesh it carries,
/// that mesh's local bounding box, and the node's composed world
/// transform.
#[derive(Debug, Clone, PartialEq, Eq)]
pub struct NamedNode {
    /// Stable name of the node; first match wins on lookup.
    pub name: String,
    /// Handle of the mesh the node carries.
    pub mesh: u64,
    /// Axis-aligned bounding box of the mesh's local vertex extents.
    pub local_aabb: Aabb,
    /// The node's composed (not local) world transform.
    pub world_transform: Transform,
}

impl NamedNode {
    /// A node's bounding box is well formed.
    pub open spec fn wf(self) -> bool {
        self.local_aabb.wf()
    }
}

/// Whether some node carries this name.
pub open spec fn name_present(nodes: Seq<NamedNode>, name: Seq<char>) -> bool {
    exists|i: int| 0 <= i < nodes.len() && nodes[i].name@ == name
}

/// Whether index `i` is the first node carrying this name.
pub open spec fn is_first_match(nodes: Seq<NamedNode>, name: Seq<char>, i: int) -> bool {
    &&& 0 <= i < nodes.len()
    &&& nodes[i].name@ == name
    &&& forall|j: int| 0 <= j < i ==> nodes[j].name@ != name
}

/// Find the first scene node carrying `name`. The scene graph only
/// exists once the environment is `Ready`: called earlier, the lookup
/// fails fast with `NotReady`; called on a name no node carries, it
/// fails with `NamedNodeNotFound` reporting that name.
pub fn find_node(state: EnvState, nodes: &Vec<NamedNode>, name: &String) -> (r: Result<
    usize,
    RenderError,
>)
    ensures
        state !is Ready ==> (r matches Err(e) && e == RenderError::NotReady),
        state is Ready && name_present(nodes@, name@) ==> (r matches Ok(i) && is_first_match(
            nodes@,
            name@,
            i as int,
        )),
        state is Ready && !name_present(nodes@, name@) ==> (r matches Err(e) && e matches
            RenderError::NamedNodeNotFound(n) && n@ == name@),
{
    if state != EnvState::Ready {
        return Err(RenderError::NotReady);
    }
    let mut i: usize = 0;
    while i < nodes.len()
        invariant
            state is Ready,
            0 <= i <= nodes@.len(),
            forall|j: int| 0 <= j < i ==> nodes@[j].name@ != name@,
        decreases nodes@.len() - i,
    {
        if nodes[i].name == *name {
            return Ok(i);
        }
        i += 1;
    }
    Err(RenderError::NamedNodeNotFound(name.clone()))
}

/// One declared painting: the scene node to decorate and where the
/// sub-scene camera stands for its texture.
#[derive(Debug, Clone, PartialEq, Eq)]
pub struct PaintingDescriptor {
    /// Name of the scene node whose bounds place the painting.
    pub name: String,
    /// Placement of the off-screen camera inside the sub-scene.
    pub camera_transform: Transform,
}

/// Surface material of an assembled painting: textured by the
/// composited image, lit, opaque, low reflectance.
#[derive(Debug, Clone, Copy, PartialEq, Eq, Structural)]
pub struct PaintingMaterial {
    /// Image handle of the painting's composited texture.
    pub base_color_texture: Option<u64>,
    /// Reflectance, in thousandths.
    pub reflectance_milli: u16,
    /// Whether lighting is skipped; paintings are lit.
    pub unlit: bool,
}

/// One assembled painting: its render target, the material sampling
/// that target, and the placed display geometry.
#[derive(Debug, Clone, PartialEq, Eq)]
pub struct Painting {
    /// The off-screen target whose texture the painting shows.
    pub target: RenderTarget,
    /// Material bound to the target's image.
    pub material: PaintingMaterial,
    /// The axis-aligned box spawned for the painting, in world space.
    pub geometry: WorldBox,
}

/// What a correctly assembled painting looks like for descriptor `d`:
/// a well-formed target placed at the descriptor's camera transform
/// and backed by image `image`, a material sampling exactly that
/// image, and geometry derived from the first node carrying the
/// descriptor's name.
pub open spec fn spec_assembled(
    p: Painting,
    nodes: Seq<NamedNode>,
    d: PaintingDescriptor,
    image: u64,
) -> bool {
    &&& p.target.wf()
    &&& p.target.image == image
    &&& p.target.camera_transform == d.camera_transform
    &&& p.material.base_color_texture == Some(image)
    &&& p.material.reflectance_milli == PAINTING_REFLECTANCE_MILLI
    &&& p.material.unlit == false
    &&& forall|i: int|
        is_first_match(nodes, d.name@, i) ==> is_world_box_of(
            p.geometry,
            nodes[i].local_aabb,
            nodes[i].world_transform,
        )
}

/// How many of the first `i` descriptors resolve to some scene node
/// (and therefore reach the compositor during assembly).
pub open spec fn resolved_before(
    descriptors: Seq<PaintingDescriptor>,
    nodes: Seq<NamedNode>,
    i: int,
) -> int
    decreases i,
{
    if i <= 0 {
        0
    } else {
        resolved_before(descriptors, nodes, i - 1) + if name_present(nodes, descriptors[i - 1].name@) {
            1int
        } else {
            0int
        }
    }
}

/// A prefix of length `i` has between zero and `i` resolving
/// descriptors.
pub proof fn lemma_resolved_before_bounds(
    descriptors: Seq<PaintingDescriptor>,
    nodes: Seq<NamedNode>,
    i: int,
)
    requires
        i >= 0,
    ensures
        0 <= resolved_before(descriptors, nodes, i) <= i,
    decreases i,
{
    if i > 0 {
        lemma_resolved_before_bounds(descriptors, nodes, i - 1);
    }
}

/// Resolution counts only grow along the list, and strictly past a
/// descriptor that resolves.
pub proof fn lemma_resolved_strictly_grows(
    descriptors: Seq<PaintingDescriptor>,
    nodes: Seq<NamedNode>,
    i: int,
    j: int,
)
    requires
        0 <= i < j,
        name_present(nodes, descriptors[i].name@),
    ensures
        resolved_before(descriptors, nodes, j) >= resolved_before(descriptors, nodes, i) + 1,
    decreases j,
{
    if j == i + 1 {
    } else {
        lemma_resolved_strictly_grows(descriptors, nodes, i, j - 1);
    }
}

/// Uniqueness at assembly level: within one assembled list, two
/// descriptors that both resolve receive render targets with distinct
/// backing images (the images a successful assembly reports are
/// `old_len` plus each descriptor's resolution count, and those counts
/// differ).
pub proof fn lemma_assembled_targets_distinct(
    descriptors: Seq<PaintingDescriptor>,
    nodes: Seq<NamedNode>,
    old_len: int,
    i: int,
    j: int,
)
    requires
        0 <= i < j,
        name_present(nodes, descriptors[i].name@),
        name_present(nodes, descriptors[j].name@),
    ensures
        old_len + resolved_before(descriptors, nodes, i) != old_len + resolved_before(
            descriptors,
            nodes,
            j,
        ),
{
    lemma_resolved_strictly_grows(descriptors, nodes, i, j);
}

/// Issued-image count of a compositor after assembling a list in which
/// `resolved` descriptors reached it, starting from `old_len` issued
/// images and a budget of `capacity`.
pub open spec fn spec_issued_after(old_len: int, capacity: int, resolved: int) -> int {
    if old_len + resolved <= capacity {
        old_len + resolved
    } else if old_len <= capacity {
        capacity
    } else {
        old_len
    }
}

/// The declarative painting list this gallery ships: one painting, on
/// the node named "paintingMid3", textured from the simple sub-scene.
pub fn default_paintings() -> (d: Vec<PaintingDescriptor>)
    ensures
        d@.len() == 1,
        d@[0].name@ == "paintingMid3"@,
        d@[0].camera_transform == (Transform {
            translation: crate::math::IVec3 { x: 0, y: 0, z: 15 },
            scale: crate::math::IVec3 { x: 1, y: 1, z: 1 },
        }),
{
    let mut d: Vec<PaintingDescriptor> = Vec::new();
    d.push(
        PaintingDescriptor {
            name: String::from_str("paintingMid3"),
            camera_transform: SimpleScene::camera_transform(),
        },
    );
    d
}

/// Assemble every declared painting, in order. Runs once, on the
/// `Loading` -> `Ready` transition; called while still `Loading` it
/// assembles nothing and reports `NotReady` for every painting.
///
/// Each descriptor gets its own result: `NamedNodeNotFound` naming the
/// descriptor's own name when no node carries it (such a descriptor
/// consumes no render target), `RenderTargetAllocationFailed` when the
/// compositor's budget is already spent, and otherwise the assembled
/// painting, whose target is the next image the compositor issues.
/// Distinct successful paintings always hold distinct render targets.
pub fn create_paintings(
    state: EnvState,
    descriptors: &Vec<PaintingDescriptor>,
    nodes: &Vec<NamedNode>,
    compositor: &mut Compositor,
) -> (results: Vec<Result<Painting, RenderError>>)
    requires
        old(compositor).wf(),
        forall|i: int| 0 <= i < nodes@.len() ==> (#[trigger] nodes@[i]).wf(),
    ensures
        final(compositor).wf(),
        final(compositor).capacity == old(compositor).capacity,
        results@.len() == descriptors@.len(),
        state !is Ready ==> {
            &&& final(compositor).issued@ == old(compositor).issued@
            &&& forall|i: int|
                0 <= i < results@.len() ==> ((#[trigger] results@[i]) matches Err(e) && e
                    == RenderError::NotReady)
        },
        state is Ready ==> {
            &&& final(compositor).issued@.len() == spec_issued_after(
                old(compositor).issued@.len() as int,
                old(compositor).capacity as int,
                resolved_before(descriptors@, nodes@, descriptors@.len() as int),
            )
            &&& forall|i: int|
                0 <= i < results@.len() && !name_present(nodes@, descriptors@[i].name@) ==> ((
                #[trigger] results@[i]) matches Err(e) && e matches RenderError::NamedNodeNotFound(
                    n,
                ) && n@ == descriptors@[i].name@)
            &&& forall|i: int|
                0 <= i < results@.len() && name_present(nodes@, descriptors@[i].name@) && old(
                    compositor,
                ).issued@.len() + resolved_before(descriptors@, nodes@, i) < old(
                    compositor,
                ).capacity ==> ((#[trigger] results@[i]) matches Ok(p) && spec_assembled(
                    p,
                    nodes@,
                    descriptors@[i],
                    (old(compositor).issued@.len() + resolved_before(descriptors@, nodes@, i)) as u64,
                ))
            &&& forall|i: int|
                0 <= i < results@.len() && name_present(nodes@, descriptors@[i].name@) && old(
                    compositor,
                ).issued@.len() + resolved_before(descriptors@, nodes@, i) >= old(
                    compositor,
                ).capacity ==> ((#[trigger] results@[i]) matches Err(e) && e
                    == RenderError::RenderTargetAllocationFailed)
        },
{
    let ghost old_len: int = old(compositor).issued@.len() as int;
    let ghost cap: int = old(compositor).capacity as int;
    let mut results: Vec<Result<Painting, RenderError>> = Vec::new();
    let mut i: usize = 0;
    while i < descriptors.len()
        invariant
            compositor.wf(),
            compositor.capacity == old(compositor).capacity,
            old_len == old(compositor).issued@.len() as int,
            cap == old(compositor).capacity as int,
            forall|k: int| 0 <= k < nodes@.len() ==> (#[trigger] nodes@[k]).wf(),
            0 <= i <= descriptors@.len(),
            results@.len() == i,
            state !is Ready ==> {
                &&& compositor.issued@ == old(compositor).issued@
                &&& forall|k: int|
                    0 <= k < i ==> ((#[trigger] results@[k]) matches Err(e) && e
                        == RenderError::NotReady)
            },
            state is Ready ==> {
                &&& compositor.issued@.len() == spec_issued_after(
                    old_len,
                    cap,
                    resolved_before(descriptors@, nodes@, i as int),
                )
                &&& forall|k: int|
                    0 <= k < i && !name_present(nodes@, descriptors@[k].name@) ==> ((
                    #[trigger] results@[k]) matches Err(e) && e
                        matches RenderError::NamedNodeNotFound(n) && n@ == descriptors@[k].name@)
                &&& forall|k: int|
                    0 <= k < i && name_present(nodes@, descriptors@[k].name@) && old_len
                        + resolved_before(descriptors@, nodes@, k) < cap ==> ((
                    #[trigger] results@[k]) matches Ok(p) && spec_assembled(
                        p,
                        nodes@,
                        descriptors@[k],
                        (old_len + resolved_before(descriptors@, nodes@, k)) as u64,
                    ))
                &&& forall|k: int|
                    0 <= k < i && name_present(nodes@, descriptors@[k].name@) && old_len
                        + resolved_before(descriptors@, nodes@, k) >= cap ==> ((
                    #[trigger] results@[k]) matches Err(e) && e
                        == RenderError::RenderTargetAllocationFailed)
            },
        decreases descriptors@.len() - i,
    {
        let descriptor = &descriptors[i];
        let ghost rb_i: int = resolved_before(descriptors@, nodes@, i as int);
        proof {
            lemma_resolved_before_bounds(descriptors@, nodes@, i as int);
            assert(resolved_before(descriptors@, nodes@, i as int + 1) == rb_i + (
            if name_present(nodes@, descriptors@[i as int].name@) {
                1int
            } else {
                0int
            }));
        }
        let result: Result<Painting, RenderError> = match find_node(
            state,
            nodes,
            &descriptor.name,
        ) {
            Err(e) => Err(e),
            Ok(node_index) => {
                let node = &nodes[node_index];
                match compositor.create_painting(descriptor.camera_transform) {
                    Err(e) => Err(e),
                    Ok(target) => {
                        let material = PaintingMaterial {
                            base_color_texture: Some(target.image),
                            reflectance_milli: PAINTING_REFLECTANCE_MILLI,
                            unlit: false,
                        };
                        let geometry = world_box(&node.local_aabb, &node.world_transform);
                        proof {
                            assert forall|m: int|
                                is_first_match(nodes@, descriptor.name@, m) implies is_world_box_of(
                                geometry,
                                nodes@[m].local_aabb,
                                nodes@[m].world_transform,
                            ) by {
                                if m < node_index as int {
                                    assert(nodes@[m].name@ == descriptor.name@);
                                    assert(false);
                                } else if m > node_index as int {
                                    assert(nodes@[node_index as int].name@ != descriptor.name@);
                                    assert(false);
                                }
                            }
                        }
                        Ok(Painting { target, material, geometry })
                    },
                }
            },
        };
        results.push(result);
        i += 1;
    }
    results
}

} // verus!
