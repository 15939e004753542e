//! The hidden sub-scene rendered into every painting's texture: one
//! cube drawn by the custom shader, placed on the hidden layer so the
//! main camera never sees it directly. The cube's decorative spin is
//! engine-side animation and not modeled here.

use vstd::prelude::*;

use crate::compositor::HIDDEN_LAYER;
use crate::math::{IVec3, Transform};
use crate::shader::ShaderMaterial;

verus! {

/// Edge length of the sub-scene cube, in scene units.
pub const CUBE_SIZE: i32 = 4;

/// Everything the engine needs to stand up the sub-scene: the cube's
/// size and placement, the shader material that draws it, and the
/// visibility layer that hides it from the main camera.
#[derive(Debug)]
pub struct SubScene {
    /// Edge length of the cube mesh.
    pub cube_size: i32,
    /// Material drawing the cube; selects the custom fragment variant.
    pub material: ShaderMaterial,
    /// Where the cube stands in the sub-scene.
    pub cube_translation: IVec3,
    /// Visibility layer of the cube, disjoint from the main camera's.
    pub layer: u32,
}

/// The simple sub-scene definition.
#[derive(Debug, Clone, Copy, PartialEq, Eq, Structural)]
pub struct SimpleScene;

impl SimpleScene {
    /// Where the sub-scene camera stands: pulled back along +z far
    /// enough to frame the cube, at unit scale.
    pub fn camera_transform() -> (t: Transform)
        ensures
            t.translation == (IVec3 { x: 0, y: 0, z: 15 }),
            t.scale == (IVec3 { x: 1, y: 1, z: 1 }),
    {
        Transform::from_translation(IVec3 { x: 0, y: 0, z: 15 })
    }

    /// Build the sub-scene: a cube of edge `CUBE_SIZE` just in front
    /// of the origin, drawn by the second custom fragment variant, on
    /// the hidden layer and untextured (it is the thing being rendered,
    /// not a painting surface).
    pub fn create_scene() -> (scene: SubScene)
        ensures
            scene.cube_size == CUBE_SIZE,
            scene.material.entry_point@ == "fragment1"@,
            scene.material.bound_texture is None,
            scene.cube_translation == (IVec3 { x: 0, y: 0, z: 1 }),
            scene.layer == HIDDEN_LAYER,
    {
        SubScene {
            cube_size: CUBE_SIZE,
            material: ShaderMaterial {
                entry_point: String::from_str("fragment1"),
                bound_texture: None,
            },
            cube_translation: IVec3 { x: 0, y: 0, z: 1 },
            layer: HIDDEN_LAYER,
        }
    }
}

} // verus!
