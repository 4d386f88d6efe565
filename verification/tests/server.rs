use wayoa::compositor::surface::{BufferInfo, SurfaceId, SurfaceRole};
use wayoa::compositor::window::{WindowId, WindowState};
use wayoa::protocol::output::{OutputGeometryEvent, OutputModeEvent};
use wayoa::protocol::seat::{ButtonState, KeyState, KeyboardEvent, PointerEvent};
use wayoa::protocol::shell::{Anchor, Gravity, PopupGeometry, XdgPositioner};
use wayoa::protocol::shm::{ShmBufferId, ShmPoolId};
use wayoa::ids::IdRegistry;
use wayoa::server::globals::{negotiate_version, Global, PositionerData};
use wayoa::server::{Effect, ProtocolError, Request, ServerState};

fn info(id: ShmBufferId, width: u32, height: u32) -> BufferInfo {
    BufferInfo { id, width, height, stride: width * 4, format: 0, offset: 0 }
}

/// A toplevel whose first configure is acknowledged: surface, window, serial.
fn toplevel(state: &mut ServerState) -> (SurfaceId, WindowId) {
    let surface = state.create_surface().unwrap();
    state.get_xdg_surface(surface).unwrap();
    let effects = state.xdg_get_toplevel(surface).unwrap();
    let (window, serial) = match (&effects[0], &effects[2]) {
        (Effect::NewToplevel { window, .. }, Effect::XdgSurfaceConfigure { serial, .. }) => {
            (*window, *serial)
        }
        _ => panic!("unexpected effects"),
    };
    state.xdg_ack_configure(surface, serial).unwrap();
    (surface, window)
}

fn buffer(state: &mut ServerState, width: i32, height: i32) -> ShmBufferId {
    let pool = state.create_pool(3, width * height * 4).unwrap();
    state.pool_create_buffer(pool, 0, width, height, width * 4, 0).unwrap()
}

#[test]
fn handshake_announces_the_two_formats() {
    let mut state = ServerState::new();
    assert_eq!(
        state.register_globals(),
        vec![Global::Compositor, Global::Shm, Global::Seat, Global::Output, Global::XdgWmBase]
    );
    assert_eq!(state.bind(Global::Compositor, 6), Ok((6, vec![])));
    assert_eq!(
        state.bind(Global::Shm, 1),
        Ok((1, vec![Effect::ShmFormat(0), Effect::ShmFormat(1)]))
    );
    assert_eq!(state.bind(Global::XdgWmBase, 6), Ok((6, vec![])));
}

#[test]
fn versions_are_clamped_to_what_the_server_offers() {
    assert_eq!(Global::Compositor.version(), 6);
    assert_eq!(Global::Shm.version(), 1);
    assert_eq!(Global::Seat.version(), 9);
    assert_eq!(Global::Output.version(), 4);
    assert_eq!(Global::XdgWmBase.version(), 6);
    assert_eq!(Global::LayerShell.version(), 4);
    assert_eq!(Global::ScreencopyManager.version(), 3);
    assert_eq!(Global::DataDeviceManager.version(), 3);
    assert_eq!(negotiate_version(6, 4), 4);
    assert_eq!(negotiate_version(6, 6), 6);
    assert_eq!(negotiate_version(6, 99), 6);
    let mut state = ServerState::new();
    assert_eq!(state.bind(Global::Compositor, 99).unwrap().0, 6);
    assert_eq!(state.bind(Global::Compositor, 4).unwrap().0, 4);
    assert_eq!(state.bind(Global::Shm, 0), Err(ProtocolError::InvalidArgument));
    assert_eq!(state.bind(Global::LayerShell, 7), Ok((4, vec![])));
    assert!(Global::LayerShell.is_optional() && !Global::Seat.is_optional());
    assert_eq!(Global::Compositor.interface(), "wl_compositor");
    assert_eq!(Global::Shm.interface(), "wl_shm");
    assert_eq!(Global::Seat.interface(), "wl_seat");
    assert_eq!(Global::Output.interface(), "wl_output");
    assert_eq!(Global::XdgWmBase.interface(), "xdg_wm_base");
    assert_eq!(Global::LayerShell.interface(), "zwlr_layer_shell_v1");
    assert_eq!(Global::ScreencopyManager.interface(), "zwlr_screencopy_manager_v1");
    assert_eq!(Global::DataDeviceManager.interface(), "wl_data_device_manager");
}

#[test]
fn the_seat_tells_its_name_from_version_two() {
    let mut state = ServerState::new();
    assert_eq!(state.bind(Global::Seat, 1), Ok((1, vec![Effect::SeatCapabilities(3)])));
    assert_eq!(
        state.bind(Global::Seat, 9),
        Ok((9, vec![Effect::SeatCapabilities(3), Effect::SeatName("seat0".to_string())]))
    );
}

#[test]
fn the_output_is_announced_by_version() {
    let mut state = ServerState::new();
    let geometry = Effect::OutputGeometry(OutputGeometryEvent {
        x: 0,
        y: 0,
        physical_width: 0,
        physical_height: 0,
        subpixel: 0,
        make: "Wayoa".to_string(),
        model: "Virtual Display".to_string(),
        transform: 0,
    });
    let mode =
        Effect::OutputMode(OutputModeEvent { flags: 3, width: 1920, height: 1080, refresh: 60000 });
    let (version, effects) = state.bind(Global::Output, 1).unwrap();
    assert_eq!(version, 1);
    assert_eq!(effects, vec![geometry, mode]);
    assert_eq!(state.compositor.outputs.len(), 1);
    assert_eq!(state.compositor.outputs.primary().unwrap().name, "default");

    let (version, effects) = state.bind(Global::Output, 3).unwrap();
    assert_eq!(version, 3);
    assert_eq!(effects.len(), 4);
    assert_eq!(effects[2], Effect::OutputScale(1));
    assert_eq!(effects[3], Effect::OutputDone);

    let (version, effects) = state.bind(Global::Output, 4).unwrap();
    assert_eq!(version, 4);
    assert_eq!(
        effects[2..],
        [
            Effect::OutputScale(1),
            Effect::OutputName("default".to_string()),
            Effect::OutputDescription("Wayoa Virtual Display".to_string()),
            Effect::OutputDone,
        ]
    );
    assert_eq!(state.compositor.outputs.len(), 1);
}

#[test]
fn a_toplevel_comes_up() {
    let mut state = ServerState::new();
    let surface = state.create_surface().unwrap();
    assert_eq!(state.get_xdg_surface(surface), Ok(()));
    let effects = state.xdg_get_toplevel(surface).unwrap();
    let window = WindowId(1);
    assert_eq!(
        effects,
        vec![
            Effect::NewToplevel { surface, window },
            Effect::ToplevelConfigure { surface, width: 0, height: 0, states: WindowState::default() },
            Effect::XdgSurfaceConfigure { surface, serial: 1 },
        ]
    );
    assert_eq!(state.toplevel_set_title(window, "T".to_string()), Ok(vec![]));
    assert_eq!(state.surface_commit(surface), Ok(vec![]));
    assert_eq!(state.xdg_ack_configure(surface, 1), Ok(()));

    let pool = state.create_pool(3, 640 * 480 * 4).unwrap();
    let buffer = state.pool_create_buffer(pool, 0, 640, 480, 640 * 4, 0).unwrap();
    assert_eq!(state.surface_attach(surface, Some(buffer)), Ok(()));
    assert_eq!(state.surface_damage(surface, 0, 0, 640, 480), Ok(()));
    assert_eq!(
        state.surface_commit(surface),
        Ok(vec![
            Effect::CreateWindow { window, width: 640, height: 480, title: "T".to_string() },
            Effect::Upload { surface, buffer: info(buffer, 640, 480) },
            Effect::Present { window, surface },
        ])
    );
    assert_eq!(state.compositor.windows.get(window).unwrap().native_handle, Some(window.0));
    assert_eq!(state.toplevel_set_title(window, "U".to_string()),
        Ok(vec![Effect::SetTitle { window, title: "U".to_string() }]));

    // The native window is made once.
    assert_eq!(
        state.surface_commit(surface),
        Ok(vec![
            Effect::Upload { surface, buffer: info(buffer, 640, 480) },
            Effect::Present { window, surface },
        ])
    );
}

#[test]
fn a_small_buffer_gets_a_window_of_the_least_size() {
    let mut state = ServerState::new();
    let (surface, window) = toplevel(&mut state);
    let small = buffer(&mut state, 100, 800);
    state.surface_attach(surface, Some(small)).unwrap();
    let effects = state.surface_commit(surface).unwrap();
    assert_eq!(
        effects[0],
        Effect::CreateWindow { window, width: 640, height: 800, title: "Wayland Window".to_string() }
    );
}

#[test]
fn a_resize_goes_round() {
    let mut state = ServerState::new();
    let (surface, window) = toplevel(&mut state);
    let first = buffer(&mut state, 640, 480);
    state.surface_attach(surface, Some(first)).unwrap();
    state.surface_commit(surface).unwrap();
    state.did_activate(window, true);

    let effects = state.did_resize(window, 800, 600);
    let serial = match &effects[1] {
        Effect::XdgSurfaceConfigure { serial, .. } => *serial,
        _ => panic!("unexpected effect"),
    };
    let states = WindowState { focused: true, activated: true, ..WindowState::default() };
    assert_eq!(
        effects,
        vec![
            Effect::ToplevelConfigure { surface, width: 800, height: 600, states },
            Effect::XdgSurfaceConfigure { surface, serial },
        ]
    );
    let geometry = state.compositor.windows.get(window).unwrap().geometry;
    assert_eq!((geometry.width, geometry.height), (800, 600));
    assert_eq!(state.xdg_ack_configure(surface, serial), Ok(()));

    let second = buffer(&mut state, 800, 600);
    state.surface_attach(surface, Some(second)).unwrap();
    assert_eq!(
        state.surface_commit(surface),
        Ok(vec![
            Effect::Release(first),
            Effect::Upload { surface, buffer: info(second, 800, 600) },
            Effect::Present { window, surface },
        ])
    );
    // The old buffer is released once.
    assert_eq!(
        state.surface_commit(surface),
        Ok(vec![
            Effect::Upload { surface, buffer: info(second, 800, 600) },
            Effect::Present { window, surface },
        ])
    );
}

#[test]
fn a_bad_stride_is_a_protocol_error() {
    let mut state = ServerState::new();
    let (surface, _) = toplevel(&mut state);
    let pool = state.create_pool(3, 1 << 20).unwrap();
    assert_eq!(
        state.pool_create_buffer(pool, 0, 100, 100, 300, 0),
        Err(ProtocolError::InvalidStride)
    );
    // Nothing has changed, and other requests go on.
    assert!(state.shm.get_buffer(ShmBufferId(1)).is_none());
    assert_eq!(state.pool_create_buffer(pool, 0, 100, 100, 400, 0), Ok(ShmBufferId(1)));
    assert_eq!(state.surface_damage(surface, 0, 0, 1, 1), Ok(()));
}

#[test]
fn buffer_requests_are_checked() {
    let mut state = ServerState::new();
    assert_eq!(state.create_pool(3, 0), Err(ProtocolError::InvalidArgument));
    assert_eq!(state.create_pool(3, -5), Err(ProtocolError::InvalidArgument));
    let pool = state.create_pool(3, 4000).unwrap();
    assert_eq!(
        state.pool_create_buffer(ShmPoolId(9), 0, 10, 10, 40, 0),
        Err(ProtocolError::InvalidObject)
    );
    for (offset, width, height, stride) in
        [(-1, 10, 10, 40), (0, 0, 10, 40), (0, 10, -1, 40), (0, 10, 10, 0), (0, 10, 10, 39)]
    {
        assert_eq!(
            state.pool_create_buffer(pool, offset, width, height, stride, 0),
            Err(ProtocolError::InvalidStride)
        );
    }
    assert_eq!(
        state.pool_create_buffer(pool, 1, 10, 100, 40, 0),
        Err(ProtocolError::BufferOutOfPool)
    );
    assert_eq!(
        state.pool_create_buffer(pool, 0, i32::MAX, i32::MAX, i32::MAX, 0),
        Err(ProtocolError::InvalidStride)
    );
    assert_eq!(state.pool_resize(pool, -1), Err(ProtocolError::InvalidArgument));
    assert_eq!(state.pool_resize(ShmPoolId(9), 1), Err(ProtocolError::InvalidObject));
    assert_eq!(state.pool_resize(pool, 4004), Ok(()));
    let id = state.pool_create_buffer(pool, 4, 10, 100, 40, 1).unwrap();
    state.pool_destroy(pool);
    assert!(state.shm.get_buffer(id).is_some());
    assert_eq!(state.surface_attach(SurfaceId(1), Some(id)), Err(ProtocolError::InvalidObject));
    let surface = state.create_surface().unwrap();
    assert_eq!(state.surface_attach(surface, Some(ShmBufferId(7))), Err(ProtocolError::InvalidObject));
    assert_eq!(state.surface_attach(surface, Some(id)), Ok(()));
    state.buffer_destroy(id);
    assert!(state.shm.get_buffer(id).is_none());
}

#[test]
fn the_host_closes_a_window() {
    let mut state = ServerState::new();
    let (surface, window) = toplevel(&mut state);
    let shown = buffer(&mut state, 640, 480);
    state.surface_attach(surface, Some(shown)).unwrap();
    state.surface_commit(surface).unwrap();

    assert_eq!(state.did_close(window), vec![Effect::ToplevelClose { surface }]);
    // Nothing is reclaimed before the client asks for it.
    assert!(state.compositor.windows.get(window).is_some());
    assert!(state.compositor.surfaces.get(surface).is_some());

    assert_eq!(state.toplevel_destroy(window), Ok(vec![Effect::CloseWindow { window }]));
    assert!(state.compositor.windows.get(window).is_none());
    assert_eq!(state.compositor.windows.window_for_surface(surface), None);
    assert_eq!(state.surface_destroy(surface), Ok(vec![Effect::Release(shown)]));
    assert!(state.compositor.surfaces.get(surface).is_none());
    assert!(state.xdg_surfaces.is_empty());
    assert_eq!(state.did_close(window), vec![]);
    assert_eq!(state.toplevel_destroy(window), Err(ProtocolError::InvalidObject));
    assert_eq!(state.surface_destroy(surface), Err(ProtocolError::InvalidObject));
}

#[test]
fn destroying_a_surface_takes_its_window_and_focus_along() {
    let mut state = ServerState::new();
    let (surface, window) = toplevel(&mut state);
    let shown = buffer(&mut state, 640, 480);
    state.surface_attach(surface, Some(shown)).unwrap();
    state.surface_commit(surface).unwrap();
    state.did_activate(window, true);
    state.did_input_pointer_motion(window, 256, 256, 1);
    assert_eq!(state.compositor.seat.keyboard_focus(), Some(surface));
    assert_eq!(state.compositor.seat.pointer_focus(), Some(surface));
    assert_eq!(
        state.surface_destroy(surface),
        Ok(vec![Effect::Release(shown), Effect::CloseWindow { window }])
    );
    assert!(state.compositor.windows.is_empty());
    assert!(state.compositor.windows.focused().is_none());
    assert_eq!(state.compositor.seat.keyboard_focus(), None);
    assert_eq!(state.compositor.seat.pointer_focus(), None);
}

#[test]
fn a_buffer_on_two_surfaces_is_released_when_the_last_lets_go() {
    let mut state = ServerState::new();
    let a = state.create_surface().unwrap();
    let b = state.create_surface().unwrap();
    let shared = buffer(&mut state, 4, 4);
    state.surface_attach(a, Some(shared)).unwrap();
    state.surface_attach(b, Some(shared)).unwrap();
    assert_eq!(state.surface_commit(a), Ok(vec![]));
    assert_eq!(state.surface_commit(b), Ok(vec![]));
    state.surface_attach(a, None).unwrap();
    assert_eq!(state.surface_commit(a), Ok(vec![]));
    state.surface_attach(b, None).unwrap();
    assert_eq!(state.surface_commit(b), Ok(vec![Effect::Release(shared)]));
    assert_eq!(state.surface_commit(b), Ok(vec![]));
}

#[test]
fn attach_commit_detach_commit_releases_once() {
    let mut state = ServerState::new();
    let surface = state.create_surface().unwrap();
    let shown = buffer(&mut state, 4, 4);
    state.surface_attach(surface, Some(shown)).unwrap();
    assert_eq!(state.surface_commit(surface), Ok(vec![]));
    state.surface_attach(surface, None).unwrap();
    assert_eq!(state.surface_commit(surface), Ok(vec![Effect::Release(shown)]));
    assert!(state.compositor.surfaces.get(surface).unwrap().buffer.is_none());
    assert_eq!(state.surface_commit(surface), Ok(vec![]));
}

#[test]
fn a_buffer_is_not_committed_before_the_first_acknowledgement() {
    let mut state = ServerState::new();
    let surface = state.create_surface().unwrap();
    state.get_xdg_surface(surface).unwrap();
    assert_eq!(state.get_xdg_surface(surface), Err(ProtocolError::RoleConflict));
    assert_eq!(state.get_xdg_surface(SurfaceId(9)), Err(ProtocolError::InvalidObject));
    state.xdg_get_toplevel(surface).unwrap();
    let shown = buffer(&mut state, 4, 4);
    state.surface_attach(surface, Some(shown)).unwrap();
    assert_eq!(state.surface_commit(surface), Err(ProtocolError::UnconfiguredBuffer));
    // The refused commit has changed nothing.
    assert!(state.compositor.surfaces.get(surface).unwrap().pending.buffer_touched);
    assert!(state.compositor.surfaces.get(surface).unwrap().buffer.is_none());
    assert_eq!(state.xdg_ack_configure(surface, 5), Err(ProtocolError::UnknownSerial));
    assert_eq!(state.xdg_ack_configure(SurfaceId(9), 1), Err(ProtocolError::InvalidObject));
    assert_eq!(state.xdg_ack_configure(surface, 1), Ok(()));
    assert_eq!(state.xdg_ack_configure(surface, 1), Err(ProtocolError::UnknownSerial));
    assert!(state.surface_commit(surface).is_ok());
    assert_eq!(state.surface_commit(SurfaceId(9)), Err(ProtocolError::InvalidObject));
}

#[test]
fn surface_requests_are_checked() {
    let mut state = ServerState::new();
    let surface = state.create_surface().unwrap();
    let missing = SurfaceId(9);
    assert_eq!(state.surface_damage(missing, 0, 0, 1, 1), Err(ProtocolError::InvalidObject));
    assert_eq!(state.surface_frame(missing, 1), Err(ProtocolError::InvalidObject));
    assert_eq!(state.surface_attach(missing, None), Err(ProtocolError::InvalidObject));
    assert_eq!(state.surface_set_scale(missing, 1), Err(ProtocolError::InvalidObject));
    assert_eq!(state.surface_set_scale(missing, 0), Err(ProtocolError::InvalidObject));
    assert_eq!(state.surface_set_transform(missing, 9), Err(ProtocolError::InvalidObject));
    assert_eq!(state.surface_set_scale(surface, 0), Err(ProtocolError::InvalidArgument));
    assert_eq!(state.surface_set_scale(surface, -2), Err(ProtocolError::InvalidArgument));
    assert_eq!(state.surface_set_transform(surface, 8), Err(ProtocolError::InvalidArgument));
    assert_eq!(state.surface_set_transform(surface, -1), Err(ProtocolError::InvalidArgument));
    assert_eq!(state.surface_set_scale(surface, 3), Ok(()));
    assert_eq!(state.surface_set_transform(surface, 7), Ok(()));
    assert_eq!(state.surface_frame(surface, 11), Ok(()));
    state.surface_commit(surface).unwrap();
    let committed = state.compositor.surfaces.get(surface).unwrap();
    assert_eq!((committed.scale, committed.transform), (3, 7));
    assert_eq!(committed.ready_callbacks, vec![11]);
}

#[test]
fn frame_callbacks_fire_when_the_frame_is_shown() {
    let mut state = ServerState::new();
    let (surface, window) = toplevel(&mut state);
    state.surface_frame(surface, 21).unwrap();
    state.surface_frame(surface, 22).unwrap();
    state.surface_damage(surface, 0, 0, 5, 5).unwrap();
    assert_eq!(state.did_present(window, 1000), vec![]);
    state.surface_commit(surface).unwrap();
    state.surface_frame(surface, 23).unwrap();
    assert_eq!(
        state.did_present(window, 1016),
        vec![
            Effect::FrameDone { surface, callback: 21, time: 1016 },
            Effect::FrameDone { surface, callback: 22, time: 1016 },
        ]
    );
    assert!(state.compositor.surfaces.get(surface).unwrap().damage.is_empty());
    assert_eq!(state.did_present(window, 1032), vec![]);
    assert_eq!(state.did_present(WindowId(9), 1), vec![]);
}

#[test]
fn keys_go_to_the_focused_surface() {
    let mut state = ServerState::new();
    let (first, first_window) = toplevel(&mut state);
    let (second, second_window) = toplevel(&mut state);
    // No focus: nothing is sent.
    assert_eq!(state.did_input_key(first_window, 0x00, true, 1), vec![]);
    state.did_activate(first_window, true);
    assert_eq!(
        state.did_input_key(first_window, 0x00, true, 2),
        vec![Effect::Keyboard {
            surface: first,
            event: KeyboardEvent::Key { time: 2, key: 30, state: KeyState::Pressed },
        }]
    );
    // A repeat, an unknown key and a key of a window without focus are dropped.
    assert_eq!(state.did_input_key(first_window, 0x00, true, 3), vec![]);
    assert_eq!(state.did_input_key(first_window, 0x0A, true, 3), vec![]);
    assert_eq!(state.did_input_key(second_window, 0x01, true, 3), vec![]);
    assert_eq!(state.did_input_key(WindowId(9), 0x01, true, 3), vec![]);
    assert_eq!(state.did_input_key(first_window, 0x01, false, 3), vec![]);

    // The focus moves while A is down.
    let effects = state.did_activate(second_window, true);
    assert_eq!(
        effects[..3],
        [
            Effect::Keyboard { surface: first, event: KeyboardEvent::Leave { surface: first } },
            Effect::Keyboard {
                surface: second,
                event: KeyboardEvent::Enter { surface: second, pressed_keys: vec![30] },
            },
            Effect::Keyboard {
                surface: second,
                event: KeyboardEvent::Modifiers { depressed: 0, latched: 0, locked: 0, group: 0 },
            },
        ]
    );
    assert_eq!(effects.len(), 5);
    assert_eq!(
        state.did_input_key(second_window, 0x00, false, 4),
        vec![Effect::Keyboard {
            surface: second,
            event: KeyboardEvent::Key { time: 4, key: 30, state: KeyState::Released },
        }]
    );
}

#[test]
fn activation_marks_the_window_and_tells_the_client() {
    let mut state = ServerState::new();
    let (surface, window) = toplevel(&mut state);
    let (_, other) = toplevel(&mut state);
    assert_eq!(state.did_activate(WindowId(9), true), vec![]);
    assert_eq!(state.did_activate(window, false), vec![]);
    let serial = state.compositor.serial;
    let effects = state.did_activate(window, true);
    let active = WindowState { focused: true, activated: true, ..WindowState::default() };
    assert_eq!(
        effects[2..],
        [
            Effect::ToplevelConfigure { surface, width: 0, height: 0, states: active },
            Effect::XdgSurfaceConfigure { surface, serial },
        ]
    );
    assert_eq!(state.compositor.serial, serial + 1);
    assert_eq!(state.compositor.windows.focused().unwrap().id, window);
    assert_eq!(state.xdg_surfaces[&surface.0].pending_configures, vec![serial]);
    assert_eq!(state.did_activate(other, false), vec![]);
    let effects = state.did_activate(window, false);
    assert_eq!(
        effects,
        vec![
            Effect::Keyboard { surface, event: KeyboardEvent::Leave { surface } },
            Effect::ToplevelConfigure { surface, width: 0, height: 0, states: WindowState::default() },
            Effect::XdgSurfaceConfigure { surface, serial: serial + 1 },
        ]
    );
    assert!(state.compositor.windows.focused().is_none());
    assert_eq!(state.compositor.seat.keyboard_focus(), None);
}

#[test]
fn modifiers_are_told_when_they_change() {
    let mut state = ServerState::new();
    let (surface, window) = toplevel(&mut state);
    assert_eq!(state.did_input_modifiers(1 << 17), vec![]);
    assert_eq!(state.compositor.seat.keyboard().modifiers().depressed, 1);
    let effects = state.did_activate(window, true);
    assert_eq!(
        effects[1],
        Effect::Keyboard {
            surface,
            event: KeyboardEvent::Modifiers { depressed: 1, latched: 0, locked: 0, group: 0 },
        }
    );
    assert_eq!(state.did_input_modifiers(1 << 17), vec![]);
    assert_eq!(
        state.did_input_modifiers((1 << 16) | (1 << 20)),
        vec![Effect::Keyboard {
            surface,
            event: KeyboardEvent::Modifiers { depressed: 64, latched: 0, locked: 2, group: 0 },
        }]
    );
}

#[test]
fn the_pointer_enters_moves_and_clicks() {
    let mut state = ServerState::new();
    let (first, first_window) = toplevel(&mut state);
    let (second, second_window) = toplevel(&mut state);
    assert_eq!(state.did_input_pointer_button(first_window, 0, true, 1), vec![]);
    assert_eq!(state.did_input_scroll(first_window, 0, 256, 1), vec![]);
    assert_eq!(
        state.did_input_pointer_motion(first_window, 256, 512, 2),
        vec![
            Effect::Pointer { surface: first, event: PointerEvent::Enter { surface: first, x: 256, y: 512 } },
            Effect::Pointer { surface: first, event: PointerEvent::Frame },
        ]
    );
    assert_eq!(
        state.did_input_pointer_motion(first_window, 300, 500, 3),
        vec![
            Effect::Pointer { surface: first, event: PointerEvent::Motion { time: 3, x: 300, y: 500 } },
            Effect::Pointer { surface: first, event: PointerEvent::Frame },
        ]
    );
    assert_eq!(state.compositor.seat.pointer().position(), (300, 500));
    assert_eq!(
        state.did_input_pointer_button(first_window, 1, true, 4),
        vec![
            Effect::Pointer {
                surface: first,
                event: PointerEvent::Button { time: 4, button: 0x111, state: ButtonState::Pressed },
            },
            Effect::Pointer { surface: first, event: PointerEvent::Frame },
        ]
    );
    assert_eq!(state.did_input_pointer_button(first_window, 1, true, 5), vec![]);
    assert_eq!(state.did_input_pointer_button(second_window, 1, false, 5), vec![]);
    assert_eq!(
        state.did_input_scroll(first_window, 0, -256, 6),
        vec![
            Effect::Pointer {
                surface: first,
                event: PointerEvent::Axis {
                    time: 6,
                    axis: wayoa::protocol::seat::AxisType::VerticalScroll,
                    value: -256,
                },
            },
            Effect::Pointer { surface: first, event: PointerEvent::Frame },
        ]
    );
    assert_eq!(
        state.did_input_pointer_motion(second_window, 0, 0, 7),
        vec![
            Effect::Pointer { surface: first, event: PointerEvent::Leave { surface: first } },
            Effect::Pointer { surface: second, event: PointerEvent::Enter { surface: second, x: 0, y: 0 } },
            Effect::Pointer { surface: second, event: PointerEvent::Frame },
        ]
    );
    assert_eq!(state.did_input_pointer_motion(WindowId(9), 0, 0, 8), vec![]);
    assert_eq!(state.did_input_scroll(first_window, 0, 256, 9), vec![]);
}

#[test]
fn toplevel_requests() {
    let mut state = ServerState::new();
    let (surface, window) = toplevel(&mut state);
    let missing = WindowId(9);
    assert_eq!(state.toplevel_set_app_id(window, "org.example".to_string()), Ok(()));
    assert_eq!(state.toplevel_set_app_id(missing, "x".to_string()), Err(ProtocolError::InvalidObject));
    assert_eq!(state.toplevel_set_title(missing, "x".to_string()), Err(ProtocolError::InvalidObject));
    assert_eq!(state.toplevel_set_parent(window, Some(missing)), Ok(()));
    assert_eq!(state.toplevel_set_min_size(window, 10, 20), Ok(()));
    assert_eq!(state.toplevel_set_max_size(window, 0, 0), Ok(()));
    assert_eq!(state.toplevel_set_min_size(window, -1, 5), Err(ProtocolError::InvalidArgument));
    assert_eq!(state.toplevel_set_max_size(window, 5, -1), Err(ProtocolError::InvalidArgument));
    assert_eq!(state.toplevel_set_max_size(missing, 5, 5), Err(ProtocolError::InvalidObject));
    assert_eq!(state.toplevel_set_minimized(window), Ok(vec![]));
    assert_eq!(state.toplevel_set_minimized(missing), Err(ProtocolError::InvalidObject));
    {
        let w = state.compositor.windows.get(window).unwrap();
        assert_eq!(w.app_id.as_deref(), Some("org.example"));
        assert_eq!(w.parent, Some(missing));
        assert_eq!((w.min_size, w.max_size), ((10, 20), (0, 0)));
        assert!(w.state.minimized);
    }
    let serial = state.compositor.serial;
    let maximized = WindowState { maximized: true, minimized: true, ..WindowState::default() };
    assert_eq!(
        state.toplevel_set_maximized(window, true),
        Ok(vec![
            Effect::ToplevelConfigure { surface, width: 0, height: 0, states: maximized },
            Effect::XdgSurfaceConfigure { surface, serial },
        ])
    );
    assert!(state.compositor.windows.get(window).unwrap().maximized);
    assert_eq!(state.toplevel_set_maximized(missing, true), Err(ProtocolError::InvalidObject));

    // With a native window the host is told as well.
    let shown = buffer(&mut state, 640, 480);
    state.surface_attach(surface, Some(shown)).unwrap();
    state.surface_commit(surface).unwrap();
    let both = WindowState { fullscreen: true, ..maximized };
    assert_eq!(
        state.toplevel_set_fullscreen(window, true),
        Ok(vec![
            Effect::SetFullscreen { window, fullscreen: true },
            Effect::ToplevelConfigure { surface, width: 0, height: 0, states: both },
            Effect::XdgSurfaceConfigure { surface, serial: serial + 1 },
        ])
    );
    assert_eq!(
        state.toplevel_set_maximized(window, false).unwrap()[0],
        Effect::SetMaximized { window, maximized: false }
    );
    assert_eq!(state.toplevel_set_minimized(window), Ok(vec![Effect::Minimize { window }]));
    assert_eq!(state.toplevel_set_fullscreen(missing, true), Err(ProtocolError::InvalidObject));
}

#[test]
fn a_popup_is_configured_with_its_place() {
    let mut state = ServerState::new();
    let (parent, _) = toplevel(&mut state);
    let surface = state.create_surface().unwrap();
    state.get_xdg_surface(surface).unwrap();
    let mut positioner = XdgPositioner::new();
    positioner.set_anchor_rect(10, 20, 100, 50);
    positioner.set_anchor(Anchor::BottomRight);
    positioner.set_gravity(Gravity::BottomRight);
    assert_eq!(
        state.xdg_get_popup(surface, parent, &positioner),
        Err(ProtocolError::InvalidArgument)
    );
    positioner.set_size(200, 100);
    let serial = state.compositor.serial;
    assert_eq!(
        state.xdg_get_popup(surface, parent, &positioner),
        Ok(vec![
            Effect::PopupConfigure {
                surface,
                geometry: PopupGeometry { x: 110, y: 70, width: 200, height: 100 },
            },
            Effect::XdgSurfaceConfigure { surface, serial },
        ])
    );
    assert_eq!(state.compositor.surfaces.get(surface).unwrap().role, SurfaceRole::XdgPopup);
    assert_eq!(state.xdg_get_popup(surface, parent, &positioner), Err(ProtocolError::RoleConflict));
    assert_eq!(state.xdg_get_toplevel(surface), Err(ProtocolError::RoleConflict));
    assert_eq!(state.xdg_get_toplevel(parent), Err(ProtocolError::RoleConflict));
    assert_eq!(state.xdg_get_toplevel(SurfaceId(9)), Err(ProtocolError::InvalidObject));
    assert_eq!(state.xdg_get_popup(SurfaceId(9), parent, &positioner), Err(ProtocolError::InvalidObject));
}

#[test]
fn shell_surface_requests() {
    let mut state = ServerState::new();
    let (surface, _) = toplevel(&mut state);
    assert_eq!(state.xdg_set_window_geometry(surface, 1, 2, 30, 40), Ok(()));
    assert_eq!(state.xdg_set_window_geometry(surface, 1, 2, 0, 40), Err(ProtocolError::InvalidArgument));
    assert_eq!(state.xdg_set_window_geometry(surface, 1, 2, 30, -1), Err(ProtocolError::InvalidArgument));
    assert_eq!(state.xdg_set_window_geometry(SurfaceId(9), 1, 2, 3, 4), Err(ProtocolError::InvalidObject));
    let g = state.xdg_surfaces[&surface.0].geometry.unwrap();
    assert_eq!((g.x, g.y, g.width, g.height), (1, 2, 30, 40));
    state.xdg_surface_destroy(surface);
    assert!(state.xdg_surfaces.is_empty());
    assert!(state.compositor.surfaces.get(surface).is_some());
    state.xdg_surface_destroy(surface);

    // A shell surface takes no geometry before it is a toplevel or a popup.
    let bare = state.create_surface().unwrap();
    state.get_xdg_surface(bare).unwrap();
    assert_eq!(state.xdg_set_window_geometry(bare, 1, 2, 3, 4), Err(ProtocolError::InvalidMethod));
    assert_eq!(state.xdg_set_window_geometry(bare, 1, 2, 0, 0), Err(ProtocolError::InvalidMethod));
}

#[test]
fn new_objects_need_an_identity() {
    let mut state = ServerState::new();
    state.compositor.output_ids = IdRegistry::starting_at(u64::MAX);
    assert!(!state.compositor.output_ids.can_allocate());
    assert_eq!(state.bind(Global::Output, 4), Err(ProtocolError::NoMemory));
    assert!(state.compositor.outputs.is_empty());
    state.compositor.output_ids = IdRegistry::starting_at(u64::MAX - 1);
    assert!(state.bind(Global::Output, 4).is_ok());
    assert_eq!(state.compositor.outputs.primary().unwrap().id.0, u64::MAX - 1);
    assert_eq!(IdRegistry::starting_at(0).allocate(), 1);
    assert_eq!(IdRegistry::starting_at(7).allocate(), 7);
}

#[test]
fn the_cursor_is_a_role() {
    let mut state = ServerState::new();
    let (toplevel_surface, _) = toplevel(&mut state);
    let cursor = state.create_surface().unwrap();
    assert_eq!(state.pointer_set_cursor(Some(SurfaceId(9)), 0, 0), Err(ProtocolError::InvalidObject));
    assert_eq!(
        state.pointer_set_cursor(Some(toplevel_surface), 0, 0),
        Err(ProtocolError::RoleConflict)
    );
    assert_eq!(state.pointer_set_cursor(Some(cursor), 3, 4), Ok(()));
    assert_eq!(state.compositor.surfaces.get(cursor).unwrap().role, SurfaceRole::Cursor);
    assert_eq!(state.compositor.seat.pointer().cursor(), Some(cursor));
    assert_eq!(state.compositor.seat.pointer().cursor_hotspot(), (3, 4));
    assert_eq!(state.pointer_set_cursor(Some(cursor), 5, 6), Ok(()));
    assert_eq!(state.pointer_set_cursor(None, 0, 0), Ok(()));
    assert_eq!(state.compositor.seat.pointer().cursor(), None);
    state.get_xdg_surface(cursor).unwrap();
    assert_eq!(state.xdg_get_toplevel(cursor), Err(ProtocolError::RoleConflict));
}

#[test]
fn positioner_data_names_anchor_and_gravity_by_number() {
    let mut data = PositionerData::default();
    data.width = 200;
    data.height = 100;
    data.anchor_rect = (10, 20, 100, 50);
    data.anchor = 8;
    data.gravity = 8;
    let positioner = data.positioner().unwrap();
    assert_eq!((positioner.anchor, positioner.gravity), (Anchor::BottomRight, Gravity::BottomRight));
    assert_eq!(
        positioner.placement(),
        Some(PopupGeometry { x: 110, y: 70, width: 200, height: 100 })
    );
    data.anchor = 6;
    data.gravity = 7;
    let positioner = data.positioner().unwrap();
    assert_eq!((positioner.anchor, positioner.gravity), (Anchor::BottomLeft, Gravity::TopRight));
    data.anchor = 9;
    assert!(data.positioner().is_none());
    data.anchor = 0;
    data.gravity = 100;
    assert!(data.positioner().is_none());
    for code in 0..9 {
        assert_eq!(Anchor::from_protocol(code).is_some(), true);
        assert_eq!(Gravity::from_protocol(code).is_some(), true);
    }
    assert_eq!(Anchor::from_protocol(5), Some(Anchor::TopLeft));
    assert_eq!(Gravity::from_protocol(3), Some(Gravity::Left));
}

#[test]
fn configures_get_serials_in_order() {
    let mut state = ServerState::new();
    let (surface, window) = toplevel(&mut state);
    let first = state.compositor.serial;
    state.did_resize(window, 100, 100);
    state.did_resize(window, 200, 200);
    state.did_resize(window, 300, 300);
    assert_eq!(state.xdg_surfaces[&surface.0].pending_configures, vec![first, first + 1, first + 2]);
    assert_eq!(state.xdg_ack_configure(surface, first + 1), Ok(()));
    assert_eq!(state.xdg_ack_configure(surface, first), Err(ProtocolError::UnknownSerial));
    assert_eq!(state.xdg_ack_configure(surface, first + 2), Ok(()));
    assert_eq!(state.did_resize(WindowId(9), 1, 1), vec![]);
    assert_eq!(state.configure_toplevel(WindowId(9), 1, 1), Err(ProtocolError::InvalidObject));
    let huge = state.did_resize(window, u32::MAX, 5);
    assert_eq!(
        huge[0],
        Effect::ToplevelConfigure {
            surface,
            width: i32::MAX,
            height: 5,
            states: WindowState::default(),
        }
    );
}

#[test]
fn a_popup_is_kept_on_the_output_of_its_parent() {
    let mut state = ServerState::new();
    let outputs = wayoa::protocol::output::enumerate_outputs(&mut state.compositor.output_ids);
    for output in outputs {
        state.compositor.outputs.add(output);
    }
    let (parent, window) = toplevel(&mut state);
    let mut positioner = XdgPositioner::new();
    positioner.set_size(200, 100);
    positioner.set_anchor_rect(1800, 1000, 100, 50);
    positioner.set_anchor(Anchor::BottomRight);
    positioner.set_gravity(Gravity::BottomRight);

    let popup = |state: &mut ServerState, positioner: &XdgPositioner| {
        let surface = state.create_surface().unwrap();
        state.get_xdg_surface(surface).unwrap();
        match &state.xdg_get_popup(surface, parent, positioner).unwrap()[0] {
            Effect::PopupConfigure { geometry, .. } => *geometry,
            _ => panic!("unexpected effect"),
        }
    };
    // Without leave to adjust, the popup reaches out of the output.
    assert_eq!(
        popup(&mut state, &positioner),
        PopupGeometry { x: 1900, y: 1050, width: 200, height: 100 }
    );
    positioner.set_constraint_adjustment(1 | 2);
    assert_eq!(
        popup(&mut state, &positioner),
        PopupGeometry { x: 1720, y: 980, width: 200, height: 100 }
    );
    positioner.set_constraint_adjustment(4 | 32);
    assert_eq!(
        popup(&mut state, &positioner),
        PopupGeometry { x: 1600, y: 1050, width: 200, height: 30 }
    );
    // The bounds are those of the output as the parent's window sees it.
    state.compositor.windows.get_mut(window).unwrap().set_geometry(100, 50, 640, 480);
    positioner.set_constraint_adjustment(1 | 2);
    assert_eq!(
        popup(&mut state, &positioner),
        PopupGeometry { x: 1620, y: 930, width: 200, height: 100 }
    );
    // A popup of a surface without a window is placed without bounds.
    let orphan = state.create_surface().unwrap();
    let surface = state.create_surface().unwrap();
    state.get_xdg_surface(surface).unwrap();
    assert_eq!(
        state.xdg_get_popup(surface, orphan, &positioner).unwrap()[0],
        Effect::PopupConfigure {
            surface,
            geometry: PopupGeometry { x: 1900, y: 1050, width: 200, height: 100 },
        }
    );
}

#[test]
fn requests_as_values() {
    let mut state = ServerState::new();
    let surface = SurfaceId(1);
    let window = WindowId(1);
    assert_eq!(state.request(Request::CreateSurface), Ok(vec![Effect::NewSurface(surface)]));
    assert_eq!(state.request(Request::GetXdgSurface { surface }), Ok(vec![]));
    assert_eq!(
        state.request(Request::SetWindowGeometry { surface, x: 0, y: 0, width: 1, height: 1 }),
        Err(ProtocolError::InvalidMethod)
    );
    assert_eq!(
        state.request(Request::GetToplevel { surface }),
        Ok(vec![
            Effect::NewToplevel { surface, window },
            Effect::ToplevelConfigure { surface, width: 0, height: 0, states: WindowState::default() },
            Effect::XdgSurfaceConfigure { surface, serial: 1 },
        ])
    );
    assert_eq!(state.request(Request::SetTitle { window, title: "T".to_string() }), Ok(vec![]));
    assert_eq!(state.request(Request::SetAppId { window, app_id: "a".to_string() }), Ok(vec![]));
    assert_eq!(state.request(Request::SetParent { window, parent: None }), Ok(vec![]));
    assert_eq!(state.request(Request::SetMinSize { window, width: 1, height: 1 }), Ok(vec![]));
    assert_eq!(
        state.request(Request::SetMaxSize { window, width: -1, height: 1 }),
        Err(ProtocolError::InvalidArgument)
    );
    assert_eq!(state.request(Request::Commit { surface }), Ok(vec![]));
    assert_eq!(state.request(Request::AckConfigure { surface, serial: 9 }), Err(ProtocolError::UnknownSerial));
    assert_eq!(state.request(Request::AckConfigure { surface, serial: 1 }), Ok(vec![]));
    assert_eq!(
        state.request(Request::SetWindowGeometry { surface, x: 0, y: 0, width: 640, height: 480 }),
        Ok(vec![])
    );

    let pool = ShmPoolId(1);
    let buffer = ShmBufferId(1);
    assert_eq!(
        state.request(Request::CreatePool { fd: 3, size: 640 * 480 * 4 }),
        Ok(vec![Effect::NewPool(pool)])
    );
    assert_eq!(
        state.request(Request::CreateBuffer {
            pool,
            offset: 0,
            width: 100,
            height: 100,
            stride: 300,
            format: 0,
        }),
        Err(ProtocolError::InvalidStride)
    );
    assert_eq!(
        state.request(Request::CreateBuffer {
            pool,
            offset: 0,
            width: 640,
            height: 480,
            stride: 2560,
            format: 0,
        }),
        Ok(vec![Effect::NewBuffer(buffer)])
    );
    assert_eq!(state.request(Request::ResizePool { pool, size: 10 }), Ok(vec![]));
    assert_eq!(state.request(Request::Attach { surface, buffer: Some(buffer) }), Ok(vec![]));
    assert_eq!(
        state.request(Request::Damage { surface, x: 0, y: 0, width: 640, height: 480 }),
        Ok(vec![])
    );
    assert_eq!(
        state.request(Request::DamageBuffer { surface, x: 0, y: 0, width: 1, height: 1 }),
        Ok(vec![])
    );
    assert_eq!(state.request(Request::Frame { surface, callback: 5 }), Ok(vec![]));
    assert_eq!(state.request(Request::SetBufferScale { surface, scale: 2 }), Ok(vec![]));
    assert_eq!(
        state.request(Request::SetBufferTransform { surface, transform: 9 }),
        Err(ProtocolError::InvalidArgument)
    );
    assert_eq!(
        state.request(Request::Commit { surface }),
        Ok(vec![
            Effect::CreateWindow { window, width: 640, height: 480, title: "T".to_string() },
            Effect::Upload { surface, buffer: info(buffer, 640, 480) },
            Effect::Present { window, surface },
        ])
    );
    {
        let committed = state.compositor.surfaces.get(surface).unwrap();
        assert_eq!(committed.damage.len(), 2);
        assert_eq!(committed.scale, 2);
        assert_eq!(committed.ready_callbacks, vec![5]);
    }
    assert_eq!(
        state.request(Request::SetMaximized { window, maximized: true }).unwrap()[0],
        Effect::SetMaximized { window, maximized: true }
    );
    assert_eq!(
        state.request(Request::SetFullscreen { window, fullscreen: true }).unwrap()[0],
        Effect::SetFullscreen { window, fullscreen: true }
    );
    assert_eq!(state.request(Request::SetMinimized { window }), Ok(vec![Effect::Minimize { window }]));
    assert_eq!(
        state.request(Request::SetCursor { surface: Some(surface), hotspot_x: 0, hotspot_y: 0 }),
        Err(ProtocolError::RoleConflict)
    );
    assert_eq!(
        state.request(Request::SetCursor { surface: None, hotspot_x: 0, hotspot_y: 0 }),
        Ok(vec![])
    );

    let popup = SurfaceId(2);
    assert_eq!(state.request(Request::CreateSurface), Ok(vec![Effect::NewSurface(popup)]));
    assert_eq!(state.request(Request::GetXdgSurface { surface: popup }), Ok(vec![]));
    let mut positioner = XdgPositioner::new();
    positioner.set_size(10, 10);
    let effects = state.request(Request::GetPopup { surface: popup, parent: surface, positioner });
    assert_eq!(effects.unwrap().len(), 2);
    assert_eq!(state.request(Request::DestroyXdgSurface { surface: popup }), Ok(vec![]));

    assert_eq!(state.request(Request::DestroyPool { pool }), Ok(vec![]));
    assert_eq!(state.request(Request::DestroyBuffer { buffer }), Ok(vec![]));
    assert_eq!(
        state.request(Request::DestroyToplevel { window }),
        Ok(vec![Effect::CloseWindow { window }])
    );
    assert_eq!(
        state.request(Request::DestroySurface { surface }),
        Ok(vec![Effect::Release(buffer)])
    );
    assert_eq!(
        state.request(Request::DestroySurface { surface }),
        Err(ProtocolError::InvalidObject)
    );
}
