use shader_gallery::compositor::{Compositor, HIDDEN_LAYER};
use shader_gallery::environment::EnvState;
use shader_gallery::errors::RenderError;
use shader_gallery::math::{world_box, Aabb, IVec3, LVec3, Transform};
use shader_gallery::paintings::simple::{SimpleScene, CUBE_SIZE};
use shader_gallery::paintings::{
    create_paintings, default_paintings, find_node, NamedNode, PaintingDescriptor,
    PAINTING_REFLECTANCE_MILLI,
};

fn node(name: &str, half_extents: IVec3, transform: Transform) -> NamedNode {
    NamedNode {
        name: name.to_string(),
        mesh: 0,
        local_aabb: Aabb { center: IVec3::new(0, 0, 0), half_extents },
        world_transform: transform,
    }
}

fn scaled_translated(scale: i32, translation: IVec3) -> Transform {
    Transform { translation, scale: IVec3::new(scale, scale, scale) }
}

#[test]
fn bounding_box_center_and_extents() {
    // Local half-extents (1,1,1), world scale 2, world translation
    // (3,0,0): the spawned box is centred at (3,0,0) with full extents
    // (4,4,4).
    let aabb = Aabb { center: IVec3::new(0, 0, 0), half_extents: IVec3::new(1, 1, 1) };
    let transform = scaled_translated(2, IVec3::new(3, 0, 0));

    let r = world_box(&aabb, &transform);
    assert_eq!(r.center, LVec3::new(3, 0, 0));
    assert_eq!(r.full_extents, LVec3::new(4, 4, 4));
}

#[test]
fn bounding_box_scales_offset_centers() {
    let aabb = Aabb { center: IVec3::new(1, -2, 0), half_extents: IVec3::new(2, 1, 3) };
    let transform = scaled_translated(3, IVec3::new(-1, 5, 0));

    let r = world_box(&aabb, &transform);
    assert_eq!(r.center, LVec3::new(2, -1, 0));
    assert_eq!(r.full_extents, LVec3::new(12, 6, 18));
}

#[test]
fn lookup_finds_first_match() {
    let nodes = vec![
        node("wall", IVec3::new(1, 1, 1), Transform::identity()),
        node("paintingMid3", IVec3::new(2, 2, 2), Transform::identity()),
        node("paintingMid3", IVec3::new(9, 9, 9), Transform::identity()),
    ];
    let r = find_node(EnvState::Ready, &nodes, &String::from("paintingMid3"));
    assert_eq!(r, Ok(1));
}

#[test]
fn lookup_before_ready_fails_fast() {
    let nodes = vec![node("paintingMid3", IVec3::new(1, 1, 1), Transform::identity())];
    let r = find_node(EnvState::Loading, &nodes, &String::from("paintingMid3"));
    assert_eq!(r, Err(RenderError::NotReady));
}

#[test]
fn lookup_reports_the_missing_name() {
    let nodes = vec![node("wall", IVec3::new(1, 1, 1), Transform::identity())];
    let r = find_node(EnvState::Ready, &nodes, &String::from("paintingMid3"));
    assert_eq!(r, Err(RenderError::NamedNodeNotFound(String::from("paintingMid3"))));
}

#[test]
fn missing_name_fails_its_painting_only() {
    // "paintingMid3" is absent from the scene graph: its assembly step
    // reports NamedNodeNotFound for exactly that name and assembles
    // zero geometry, while the unrelated painting still assembles.
    let nodes = vec![node("paintingLeft1", IVec3::new(1, 1, 1), Transform::identity())];
    let descriptors = vec![
        PaintingDescriptor {
            name: String::from("paintingMid3"),
            camera_transform: SimpleScene::camera_transform(),
        },
        PaintingDescriptor {
            name: String::from("paintingLeft1"),
            camera_transform: SimpleScene::camera_transform(),
        },
    ];
    let mut compositor = Compositor::new(8);

    let results = create_paintings(EnvState::Ready, &descriptors, &nodes, &mut compositor);
    assert_eq!(results.len(), 2);
    assert_eq!(
        results[0],
        Err(RenderError::NamedNodeNotFound(String::from("paintingMid3")))
    );
    assert!(results[1].is_ok());
    // Only the resolved painting consumed a render target.
    assert_eq!(compositor.issued.len(), 1);
}

#[test]
fn assembled_painting_is_textured_placed_and_sized() {
    let transform = scaled_translated(2, IVec3::new(3, 0, 0));
    let nodes = vec![node("paintingMid3", IVec3::new(1, 1, 1), transform)];
    let descriptors = default_paintings();
    let mut compositor = Compositor::new(4);

    let results = create_paintings(EnvState::Ready, &descriptors, &nodes, &mut compositor);
    assert_eq!(results.len(), 1);
    let painting = results[0].as_ref().expect("assembles");

    assert_eq!(painting.material.base_color_texture, Some(painting.target.image));
    assert_eq!(painting.material.reflectance_milli, PAINTING_REFLECTANCE_MILLI);
    assert!(!painting.material.unlit);
    assert_eq!(painting.target.camera_transform, SimpleScene::camera_transform());
    assert_eq!(painting.geometry.center, LVec3::new(3, 0, 0));
    assert_eq!(painting.geometry.full_extents, LVec3::new(4, 4, 4));
}

#[test]
fn paintings_in_one_list_hold_distinct_targets() {
    let nodes = vec![
        node("paintingMid3", IVec3::new(1, 1, 1), Transform::identity()),
        node("paintingLeft1", IVec3::new(1, 1, 1), Transform::identity()),
    ];
    let descriptors = vec![
        PaintingDescriptor {
            name: String::from("paintingMid3"),
            camera_transform: SimpleScene::camera_transform(),
        },
        PaintingDescriptor {
            name: String::from("paintingLeft1"),
            camera_transform: SimpleScene::camera_transform(),
        },
    ];
    let mut compositor = Compositor::new(8);

    let results = create_paintings(EnvState::Ready, &descriptors, &nodes, &mut compositor);
    let first = results[0].as_ref().expect("assembles");
    let second = results[1].as_ref().expect("assembles");
    assert_ne!(first.target.image, second.target.image);
}

#[test]
fn spent_budget_fails_later_paintings_only() {
    let nodes = vec![
        node("paintingMid3", IVec3::new(1, 1, 1), Transform::identity()),
        node("paintingLeft1", IVec3::new(1, 1, 1), Transform::identity()),
    ];
    let descriptors = vec![
        PaintingDescriptor {
            name: String::from("paintingMid3"),
            camera_transform: SimpleScene::camera_transform(),
        },
        PaintingDescriptor {
            name: String::from("paintingLeft1"),
            camera_transform: SimpleScene::camera_transform(),
        },
    ];
    let mut compositor = Compositor::new(1);

    let results = create_paintings(EnvState::Ready, &descriptors, &nodes, &mut compositor);
    assert!(results[0].is_ok());
    assert_eq!(results[1], Err(RenderError::RenderTargetAllocationFailed));
}

#[test]
fn assembly_before_ready_assembles_nothing() {
    let nodes = vec![node("paintingMid3", IVec3::new(1, 1, 1), Transform::identity())];
    let descriptors = default_paintings();
    let mut compositor = Compositor::new(4);

    let results = create_paintings(EnvState::Loading, &descriptors, &nodes, &mut compositor);
    assert_eq!(results.len(), 1);
    assert_eq!(results[0], Err(RenderError::NotReady));
    assert_eq!(compositor.issued.len(), 0);
}

#[test]
fn declared_list_names_the_gallery_node() {
    let descriptors = default_paintings();
    assert_eq!(descriptors.len(), 1);
    assert_eq!(descriptors[0].name, "paintingMid3");
    assert_eq!(descriptors[0].camera_transform, SimpleScene::camera_transform());
}

#[test]
fn sub_scene_camera_is_pulled_back() {
    let t = SimpleScene::camera_transform();
    assert_eq!(t.translation, IVec3::new(0, 0, 15));
    assert_eq!(t.scale, IVec3::new(1, 1, 1));
}

#[test]
fn sub_scene_holds_a_hidden_shader_cube() {
    let scene = SimpleScene::create_scene();
    assert_eq!(scene.cube_size, CUBE_SIZE);
    assert_eq!(scene.cube_size, 4);
    assert_eq!(scene.material.entry_point, "fragment1");
    assert_eq!(scene.material.bound_texture, None);
    assert_eq!(scene.cube_translation, IVec3::new(0, 0, 1));
    assert_eq!(scene.layer, HIDDEN_LAYER);
}
