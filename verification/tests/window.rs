use wayoa::compositor::surface::SurfaceId;
use wayoa::compositor::window::{Window, WindowId, WindowManager};
use wayoa::ids::IdRegistry;

#[test]
fn test_window_id_unique() {
    let mut ids = IdRegistry::new();
    let id1 = WindowId::new(&mut ids);
    let id2 = WindowId::new(&mut ids);
    assert_ne!(id1, id2);
}

#[test]
fn test_window_new() {
    let mut ids = IdRegistry::new();
    let surface_id = SurfaceId(1);
    let window = Window::new(&mut ids, surface_id);
    assert_eq!(window.surface_id, surface_id);
    assert!(window.title.is_none());
}

#[test]
fn test_window_manager() {
    let mut manager = WindowManager::new();
    let surface_id = SurfaceId(1);
    let id = manager.create_window(surface_id);
    assert!(manager.get(id).is_some());
    assert!(manager.get_by_surface(surface_id).is_some());
    manager.remove(id);
    assert!(manager.get(id).is_none());
}

#[test]
fn test_window_focus() {
    let mut manager = WindowManager::new();
    let id1 = manager.create_window(SurfaceId(1));
    let id2 = manager.create_window(SurfaceId(2));

    manager.set_focused(Some(id1));
    assert!(manager.get(id1).unwrap().state.focused);
    assert!(!manager.get(id2).unwrap().state.focused);

    manager.set_focused(Some(id2));
    assert!(!manager.get(id1).unwrap().state.focused);
    assert!(manager.get(id2).unwrap().state.focused);
}

#[test]
fn window_setters_set_what_they_name() {
    let mut ids = IdRegistry::new();
    let mut window = Window::new(&mut ids, SurfaceId(3));
    assert_eq!(window.id, WindowId(1));
    window.set_title("Title".to_string());
    window.set_app_id("org.example".to_string());
    window.set_geometry(1, 2, 300, 200);
    window.set_min_size(10, 20);
    window.set_max_size(1000, 2000);
    window.set_maximized(true);
    window.set_fullscreen(true);
    window.set_minimized(true);
    window.set_focused(true);
    window.set_activated(true);
    assert_eq!(window.title.as_deref(), Some("Title"));
    assert_eq!(window.app_id.as_deref(), Some("org.example"));
    assert_eq!((window.geometry.x, window.geometry.y), (1, 2));
    assert_eq!((window.geometry.width, window.geometry.height), (300, 200));
    assert_eq!(window.min_size, (10, 20));
    assert_eq!(window.max_size, (1000, 2000));
    assert!(window.state.maximized && window.state.fullscreen && window.state.minimized);
    assert!(window.state.focused && window.state.activated);
    assert!(!window.state.resizing && !window.state.moving);
    assert!(window.native_handle.is_none());
}

#[test]
fn focus_marks_at_most_one_window_and_leaves_with_it() {
    let mut manager = WindowManager::new();
    let id1 = manager.create_window(SurfaceId(1));
    let id2 = manager.create_window(SurfaceId(2));
    assert!(manager.focused().is_none());
    manager.set_focused(Some(id1));
    assert_eq!(manager.focused().unwrap().id, id1);
    assert!(manager.get(id1).unwrap().state.activated);
    manager.set_focused(Some(id2));
    assert!(!manager.get(id1).unwrap().state.activated);
    assert!(manager.get(id2).unwrap().state.activated);
    manager.remove(id2);
    assert!(manager.focused().is_none());
    manager.set_focused(None);
    assert!(!manager.get(id1).unwrap().state.focused);
    manager.set_focused(Some(WindowId(50)));
    assert!(manager.focused().is_none());
}

#[test]
fn window_index_follows_creation_and_removal() {
    let mut manager = WindowManager::new();
    assert!(manager.is_empty());
    let id = manager.create_window(SurfaceId(9));
    assert_eq!(manager.len(), 1);
    assert_eq!(manager.window_for_surface(SurfaceId(9)), Some(id));
    assert_eq!(manager.window_for_surface(SurfaceId(8)), None);
    manager.get_by_surface_mut(SurfaceId(9)).unwrap().set_title("x".to_string());
    assert_eq!(manager.get(id).unwrap().title.as_deref(), Some("x"));
    manager.get_mut(id).unwrap().set_app_id("y".to_string());
    assert_eq!(manager.get_by_surface(SurfaceId(9)).unwrap().app_id.as_deref(), Some("y"));
    assert!(manager.get_by_surface_mut(SurfaceId(8)).is_none());
    assert_eq!(manager.iter(), vec![id]);
    assert!(manager.remove(WindowId(40)).is_none());
    let removed = manager.remove(id).unwrap();
    assert_eq!(removed.surface_id, SurfaceId(9));
    assert_eq!(manager.window_for_surface(SurfaceId(9)), None);
    assert!(manager.is_empty());
}
