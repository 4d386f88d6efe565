use wayoa::compositor::output::OutputId;
use wayoa::compositor::surface::SurfaceId;
use wayoa::ids::IdRegistry;
use wayoa::protocol::layer_shell::{
    Anchor, KeyboardInteractivity, Layer, LayerShellHandler, LayerSurface, LayerSurfaceId,
};

#[test]
fn test_layer() {
    assert_eq!(Layer::from_protocol(0), Some(Layer::Background));
    assert_eq!(Layer::Top.to_protocol(), 2);
}

#[test]
fn test_layer_surface_geometry() {
    let mut ids = IdRegistry::new();
    let mut surface =
        LayerSurface::new(&mut ids, SurfaceId(1), None, Layer::Top, "test".to_string());

    // Panel at top, full width, 50px height
    surface.set_anchor(Anchor::from_bits_truncate(Anchor::TOP | Anchor::LEFT | Anchor::RIGHT));
    surface.set_size(0, 50);

    let (x, y, w, h) = surface.calculate_geometry(1920, 1080);
    assert_eq!(x, 0);
    assert_eq!(y, 0);
    assert_eq!(w, 1920);
    assert_eq!(h, 50);
}

#[test]
fn test_layer_shell_handler() {
    let mut handler = LayerShellHandler::new();

    let id = handler.get_layer_surface(SurfaceId(1), None, Layer::Top, "panel".to_string());

    assert!(handler.get(id).is_some());
    assert!(handler.get_by_surface(SurfaceId(1)).is_some());

    handler.destroy(id);
    assert!(handler.get(id).is_none());
}

#[test]
fn layers_and_interactivity_round_trip() {
    let layers = [Layer::Background, Layer::Bottom, Layer::Top, Layer::Overlay];
    for (i, layer) in layers.iter().enumerate() {
        assert_eq!(layer.to_protocol(), i as u32);
        assert_eq!(Layer::from_protocol(i as u32), Some(*layer));
    }
    assert_eq!(Layer::from_protocol(4), None);
    assert_eq!(Layer::default(), Layer::Bottom);
    assert_eq!(KeyboardInteractivity::from_protocol(0), Some(KeyboardInteractivity::NoInteractivity));
    assert_eq!(KeyboardInteractivity::from_protocol(1), Some(KeyboardInteractivity::Exclusive));
    assert_eq!(KeyboardInteractivity::from_protocol(2), Some(KeyboardInteractivity::OnDemand));
    assert_eq!(KeyboardInteractivity::from_protocol(3), None);
}

fn layer_surface(anchor: u32, size: (u32, u32), margin: (i32, i32, i32, i32)) -> LayerSurface {
    let mut ids = IdRegistry::new();
    let mut surface = LayerSurface::new(&mut ids, SurfaceId(1), None, Layer::Top, "t".to_string());
    surface.set_anchor(Anchor::from_bits_truncate(anchor));
    surface.set_size(size.0, size.1);
    surface.set_margin(margin.0, margin.1, margin.2, margin.3);
    surface
}

#[test]
fn layer_geometry_stretches_between_margins() {
    let all = Anchor::TOP | Anchor::BOTTOM | Anchor::LEFT | Anchor::RIGHT;
    let surface = layer_surface(all, (0, 0), (10, 20, 30, 40));
    assert_eq!(surface.calculate_geometry(1920, 1080), (40, 10, 1860, 1040));
    assert_eq!(surface.checked_geometry(1920, 1080), Some((40, 10, 1860, 1040)));
}

#[test]
fn layer_geometry_follows_anchor_and_centres() {
    let surface = layer_surface(0, (200, 100), (0, 0, 0, 0));
    assert_eq!(surface.calculate_geometry(1920, 1080), (860, 490, 200, 100));
    let surface = layer_surface(Anchor::RIGHT | Anchor::BOTTOM, (200, 100), (1, 2, 3, 4));
    assert_eq!(surface.calculate_geometry(1920, 1080), (1718, 977, 200, 100));
    let surface = layer_surface(Anchor::LEFT, (200, 100), (1, 2, 3, 4));
    assert_eq!(surface.calculate_geometry(1920, 1080), (4, 490, 200, 100));
    // A surface larger than the output is centred around it, rounded towards zero.
    let surface = layer_surface(0, (201, 101), (0, 0, 0, 0));
    assert_eq!(surface.calculate_geometry(100, 50), (-50, -25, 201, 101));
    // Anchored to both sides with a size of its own: the size stays.
    let surface = layer_surface(Anchor::LEFT | Anchor::RIGHT, (300, 0), (0, 0, 0, 0));
    assert_eq!(surface.calculate_geometry(1000, 500), (0, 250, 300, 0));
}

#[test]
fn layer_geometry_that_cannot_be_written_down() {
    let sides = Anchor::LEFT | Anchor::RIGHT;
    let surface = layer_surface(sides, (0, 10), (0, 600, 0, 600));
    assert_eq!(surface.checked_geometry(1000, 100), None);
    let surface = layer_surface(Anchor::RIGHT, (u32::MAX, 10), (0, i32::MAX, 0, 0));
    assert_eq!(surface.checked_geometry(0, 100), None);
    let surface = layer_surface(sides, (0, 10), (0, 500, 0, 500));
    assert_eq!(surface.checked_geometry(1000, 100), Some((500, 45, 0, 10)));
}

#[test]
fn anchors_are_sets_of_edges() {
    assert_eq!(Anchor::empty().bits(), 0);
    assert_eq!(Anchor::from_bits_truncate(0xff).bits(), 15);
    let top_left = Anchor::from_bits_truncate(Anchor::TOP).union(Anchor::from_bits_truncate(Anchor::LEFT));
    assert_eq!(top_left.bits(), 5);
    assert!(top_left.contains(Anchor::from_bits_truncate(Anchor::TOP)));
    assert!(!top_left.contains(Anchor::from_bits_truncate(Anchor::BOTTOM)));
    assert_eq!(Anchor::default(), Anchor::empty());
}

#[test]
fn layer_surface_setters_and_defaults() {
    let mut ids = IdRegistry::new();
    let mut surface =
        LayerSurface::new(&mut ids, SurfaceId(5), Some(OutputId(2)), Layer::Overlay, "osd".to_string());
    assert_eq!(surface.id, LayerSurfaceId(1));
    assert_eq!(surface.output, Some(OutputId(2)));
    assert_eq!(surface.namespace, "osd");
    assert_eq!(surface.size, (0, 0));
    assert_eq!(surface.margin, (0, 0, 0, 0));
    assert!(!surface.configured);
    assert_eq!(surface.configure_serial, 0);
    surface.set_exclusive_zone(24);
    surface.set_layer(Layer::Background);
    surface.set_keyboard_interactivity(KeyboardInteractivity::Exclusive);
    assert_eq!(surface.exclusive_zone, 24);
    assert_eq!(surface.layer, Layer::Background);
    assert_eq!(surface.keyboard_interactivity, KeyboardInteractivity::Exclusive);
}

#[test]
fn layer_surfaces_are_found_by_layer() {
    let mut handler = LayerShellHandler::new();
    assert!(handler.is_empty() && handler.has_room());
    let a = handler.get_layer_surface(SurfaceId(1), None, Layer::Top, "a".to_string());
    let b = handler.get_layer_surface(SurfaceId(2), None, Layer::Bottom, "b".to_string());
    let c = handler.get_layer_surface(SurfaceId(3), None, Layer::Top, "c".to_string());
    assert_eq!(handler.len(), 3);
    let mut top = handler.surfaces_on_layer(Layer::Top);
    top.sort_by_key(|id| id.0);
    assert_eq!(top, vec![a, c]);
    assert_eq!(handler.surfaces_on_layer(Layer::Bottom), vec![b]);
    assert!(handler.surfaces_on_layer(Layer::Overlay).is_empty());
    handler.get_mut(a).unwrap().set_layer(Layer::Overlay);
    assert_eq!(handler.surfaces_on_layer(Layer::Overlay), vec![a]);
    handler.destroy(c);
    assert!(handler.get_by_surface(SurfaceId(3)).is_none());
    assert_eq!(handler.get_by_surface(SurfaceId(2)).unwrap().id, b);
    handler.destroy(LayerSurfaceId(70));
    assert_eq!(handler.len(), 2);
}
