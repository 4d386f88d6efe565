use wayoa::compositor::output::{
    Output, OutputId, OutputManager, OutputMode, OutputTransform, Subpixel,
};
use wayoa::ids::IdRegistry;

#[test]
fn test_output_id_unique() {
    let mut ids = IdRegistry::new();
    let id1 = OutputId::new(&mut ids);
    let id2 = OutputId::new(&mut ids);
    assert_ne!(id1, id2);
}

#[test]
fn test_output_new() {
    let mut ids = IdRegistry::new();
    let output = Output::new(&mut ids, "test".to_string());
    assert_eq!(output.name, "test");
    assert!(output.modes.is_empty());
}

#[test]
fn test_output_mode() {
    let mut ids = IdRegistry::new();
    let mut output = Output::new(&mut ids, "test".to_string());
    output.add_mode(OutputMode {
        width: 1920,
        height: 1080,
        refresh: 60000,
        current: true,
        preferred: true,
    });
    assert_eq!(output.width(), 1920);
    assert_eq!(output.height(), 1080);
}

#[test]
fn test_output_manager() {
    let mut ids = IdRegistry::new();
    let mut manager = OutputManager::new();
    let output = Output::new(&mut ids, "test".to_string());
    let id = manager.add(output);
    assert!(manager.get(id).is_some());
    assert!(manager.primary().is_some());
    manager.remove(id);
    assert!(manager.get(id).is_none());
}

#[test]
fn transform_and_subpixel_codes() {
    let transforms = [
        OutputTransform::Normal,
        OutputTransform::Rotate90,
        OutputTransform::Rotate180,
        OutputTransform::Rotate270,
        OutputTransform::Flipped,
        OutputTransform::Flipped90,
        OutputTransform::Flipped180,
        OutputTransform::Flipped270,
    ];
    for (i, t) in transforms.iter().enumerate() {
        assert_eq!(t.to_wayland(), i as u32);
    }
    let layouts = [
        Subpixel::Unknown,
        Subpixel::NoSubpixels,
        Subpixel::HorizontalRgb,
        Subpixel::HorizontalBgr,
        Subpixel::VerticalRgb,
        Subpixel::VerticalBgr,
    ];
    for (i, s) in layouts.iter().enumerate() {
        assert_eq!(s.to_wayland(), i as u32);
    }
    assert_eq!(OutputTransform::default(), OutputTransform::Normal);
    assert_eq!(Subpixel::default(), Subpixel::Unknown);
}

#[test]
fn output_without_current_mode_has_no_size() {
    let mut ids = IdRegistry::new();
    let mut output = Output::new(&mut ids, "test".to_string());
    assert_eq!(output.scale, 120);
    assert!(output.current_mode().is_none());
    assert_eq!((output.width(), output.height()), (0, 0));
    output.add_mode(OutputMode { width: 800, height: 600, refresh: 75000, current: false, preferred: false });
    assert!(output.current_mode().is_none());
    output.add_mode(OutputMode { width: 1024, height: 768, refresh: 60000, current: true, preferred: false });
    assert_eq!(output.current_mode, Some(1));
    assert_eq!((output.width(), output.height()), (1024, 768));
    output.current_mode = Some(7);
    assert!(output.current_mode().is_none());
    assert_eq!(output.width(), 0);
}

#[test]
fn first_output_is_primary_until_reassigned() {
    let mut ids = IdRegistry::new();
    let mut manager = OutputManager::new();
    assert!(manager.is_empty());
    assert!(manager.primary().is_none());
    let a = manager.add(Output::new(&mut ids, "a".to_string()));
    let b = manager.add(Output::new(&mut ids, "b".to_string()));
    assert_eq!(manager.len(), 2);
    assert_eq!(manager.primary().unwrap().id, a);
    manager.set_primary(b);
    assert_eq!(manager.primary().unwrap().id, b);
    manager.set_primary(OutputId(99));
    assert_eq!(manager.primary().unwrap().id, b);
    manager.remove(b);
    assert_eq!(manager.primary().unwrap().id, a);
    manager.remove(a);
    assert!(manager.primary().is_none());
    assert!(manager.is_empty());
}

#[test]
fn output_manager_lists_its_outputs() {
    let mut ids = IdRegistry::new();
    let mut manager = OutputManager::new();
    let a = manager.add(Output::new(&mut ids, "a".to_string()));
    let b = manager.add(Output::new(&mut ids, "b".to_string()));
    let mut listed = manager.iter();
    listed.sort_by_key(|id| id.0);
    assert_eq!(listed, vec![a, b]);
    manager.get_mut(a).unwrap().x = 5;
    assert_eq!(manager.get(a).unwrap().x, 5);
    assert!(manager.get_mut(OutputId(77)).is_none());
}
