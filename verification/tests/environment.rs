use shader_gallery::environment::{
    environment_scene_path, AssetEvent, EnvState, LoadStateMachine,
};

#[test]
fn starts_loading() {
    let machine = LoadStateMachine::new(7);
    assert_eq!(machine.state, EnvState::Loading);
    assert_eq!(machine.handle, 7);
}

#[test]
fn events_never_touch_the_handle() {
    let mut machine = LoadStateMachine::new(7);
    machine.on_event(AssetEvent::Created);
    assert_eq!(machine.handle, 7);
}

#[test]
fn environment_scene_path_is_the_gallery_hall() {
    assert_eq!(environment_scene_path(), "models/shaderHall/shaderHall.gltf#Scene0");
}

#[test]
fn stays_loading_without_created() {
    let mut machine = LoadStateMachine::new(1);
    let events = vec![
        AssetEvent::Modified,
        AssetEvent::Removed,
        AssetEvent::Modified,
        AssetEvent::Removed,
        AssetEvent::Removed,
    ];
    let fired = machine.wait_for_load(&events);
    assert!(!fired);
    assert_eq!(machine.state, EnvState::Loading);
}

#[test]
fn empty_batch_stays_loading() {
    let mut machine = LoadStateMachine::new(1);
    let fired = machine.wait_for_load(&Vec::new());
    assert!(!fired);
    assert_eq!(machine.state, EnvState::Loading);
}

#[test]
fn created_transitions_to_ready() {
    let mut machine = LoadStateMachine::new(1);
    let fired = machine.on_event(AssetEvent::Created);
    assert!(fired);
    assert_eq!(machine.state, EnvState::Ready);
}

#[test]
fn ready_is_sticky_for_all_later_events() {
    let mut machine = LoadStateMachine::new(1);
    let events = vec![AssetEvent::Modified, AssetEvent::Created];
    let fired = machine.wait_for_load(&events);
    assert!(fired);
    assert_eq!(machine.state, EnvState::Ready);

    let later = vec![
        AssetEvent::Modified,
        AssetEvent::Removed,
        AssetEvent::Created,
        AssetEvent::Modified,
    ];
    let fired_again = machine.wait_for_load(&later);
    assert!(!fired_again);
    assert_eq!(machine.state, EnvState::Ready);
}

#[test]
fn repeated_created_fires_hooks_once() {
    let mut machine = LoadStateMachine::new(1);
    assert!(machine.on_event(AssetEvent::Created));
    assert!(!machine.on_event(AssetEvent::Created));
    assert!(!machine.on_event(AssetEvent::Created));
    assert_eq!(machine.state, EnvState::Ready);
}

#[test]
fn modified_alone_never_fires() {
    let mut machine = LoadStateMachine::new(1);
    assert!(!machine.on_event(AssetEvent::Modified));
    assert_eq!(machine.state, EnvState::Loading);
    assert!(!machine.on_event(AssetEvent::Removed));
    assert_eq!(machine.state, EnvState::Loading);
}
