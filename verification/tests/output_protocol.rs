use wayoa::compositor::output::{Output, OutputId, OutputMode, OutputTransform, Subpixel};
use wayoa::ids::IdRegistry;
use wayoa::protocol::output::{enumerate_outputs, WlOutputHandler};

#[test]
fn test_output_handler() {
    let mut ids = IdRegistry::new();
    let handler = WlOutputHandler::new();
    let mut output = Output::new(&mut ids, "test".to_string());
    output.make = "Test".to_string();
    output.model = "Monitor".to_string();
    output.scale = (2.0_f64 * 120.0) as u32;

    let geometry = handler.send_geometry(&output);
    assert_eq!(geometry.make, "Test");

    assert_eq!(handler.send_scale(&output), 2);
    assert_eq!(handler.send_description(&output), "Test Monitor");
}

#[test]
fn test_mode_event() {
    let handler = WlOutputHandler::new();
    let mode = OutputMode {
        width: 1920,
        height: 1080,
        refresh: 60000,
        current: true,
        preferred: true,
    };

    let event = handler.send_mode(&mode);
    assert_eq!(event.width, 1920);
    assert_eq!(event.height, 1080);
    assert_eq!(event.flags, 3); // CURRENT | PREFERRED
}

#[test]
fn mode_flags_of_every_kind() {
    let handler = WlOutputHandler::new();
    for (current, preferred, flags) in
        [(false, false, 0), (true, false, 1), (false, true, 2), (true, true, 3)]
    {
        let mode = OutputMode { width: 1, height: 2, refresh: 3, current, preferred };
        let event = handler.send_mode(&mode);
        assert_eq!((event.flags, event.width, event.height, event.refresh), (flags, 1, 2, 3));
    }
}

#[test]
fn scale_is_rounded_to_the_next_whole_number() {
    let mut ids = IdRegistry::new();
    let handler = WlOutputHandler::new();
    let mut output = Output::new(&mut ids, "test".to_string());
    assert_eq!(handler.send_scale(&output), 1);
    for (scale, whole) in [(0, 0), (59, 0), (60, 1), (179, 1), (180, 2), (240, 2), (299, 2), (300, 3)] {
        output.scale = scale;
        assert_eq!(handler.send_scale(&output), whole);
    }
    output.scale = u32::MAX;
    assert_eq!(handler.send_scale(&output), 35791394);
}

#[test]
fn geometry_event_carries_the_output() {
    let mut ids = IdRegistry::new();
    let handler = WlOutputHandler::new();
    let mut output = Output::new(&mut ids, "eDP-1".to_string());
    output.x = -10;
    output.y = 20;
    output.physical_width = 300;
    output.physical_height = 200;
    output.subpixel = Subpixel::HorizontalBgr;
    output.transform = OutputTransform::Flipped90;
    output.make = "Make".to_string();
    output.model = "".to_string();
    let event = handler.send_geometry(&output);
    assert_eq!((event.x, event.y), (-10, 20));
    assert_eq!((event.physical_width, event.physical_height), (300, 200));
    assert_eq!((event.subpixel, event.transform), (3, 5));
    assert_eq!((event.make.as_str(), event.model.as_str()), ("Make", ""));
    assert_eq!(handler.send_name(&output), "eDP-1");
    assert_eq!(handler.send_description(&output), "Make ");
    handler.release(OutputId(1));
}

#[test]
fn a_host_without_displays_has_one_virtual_output() {
    let mut ids = IdRegistry::new();
    let outputs = enumerate_outputs(&mut ids);
    assert_eq!(outputs.len(), 1);
    let output = &outputs[0];
    assert_eq!(output.name, "dummy-0");
    assert_eq!(output.make, "Virtual");
    assert_eq!(output.model, "Display");
    assert_eq!((output.width(), output.height()), (1920, 1080));
    assert_eq!(output.current_mode().unwrap().refresh, 60000);
    assert_eq!(output.id, OutputId(1));
}
