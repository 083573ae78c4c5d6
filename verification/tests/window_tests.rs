use termplot::virtual_window_manager::VirtualWindowManager;

// The size of a window directly under the root.
#[test]
fn parents() {
    let mut manager = VirtualWindowManager::new();
    let id = manager.spawn_virtual_window(640, 480);
    manager.uodate();

    let (width, height) = manager.try_get_actual_size(id).unwrap();
    assert_eq!(width, 640);
    assert_eq!(height, 480);
}

// An only child shares its parent's size.
#[test]
fn single_child() {
    let mut manager = VirtualWindowManager::new();
    let id = manager.spawn_virtual_window(640, 480);
    let child_id = manager
        .spawn_virtual_window_with_parent(640, 480, id)
        .unwrap();
    manager.uodate();

    let (width, height) = manager.try_get_actual_size(id).unwrap();
    assert_eq!(width, 640);
    assert_eq!(height, 480);

    let (width, height) = manager.try_get_actual_size(child_id).unwrap();
    assert_eq!(width, 640);
    assert_eq!(height, 480);
}

// Two children split their parent's height.
#[test]
fn children() {
    let mut manager = VirtualWindowManager::new();
    let id = manager.spawn_virtual_window(640, 480);
    let child_id0 = manager
        .spawn_virtual_window_with_parent(640, 240, id)
        .unwrap();
    let child_id1 = manager
        .spawn_virtual_window_with_parent(640, 240, id)
        .unwrap();

    manager.uodate();

    let (width, height) = manager.try_get_actual_size(id).unwrap();
    assert_eq!(width, 640);
    assert_eq!(height, 480);

    let (width, height) = manager.try_get_actual_size(child_id0).unwrap();
    assert_eq!(width, 640);
    assert_eq!(height, 240);

    let (width, height) = manager.try_get_actual_size(child_id1).unwrap();
    assert_eq!(width, 640);
    assert_eq!(height, 240);
}
