use wayoa::compositor::output::OutputId;
use wayoa::ids::IdRegistry;
use wayoa::protocol::screencopy::{
    FrameFlags, FrameState, ScreencopyFrame, ScreencopyFrameId, ScreencopyHandler,
};
use wayoa::protocol::shm::ShmBufferId;

#[test]
fn test_screencopy_frame() {
    let mut ids = IdRegistry::new();
    let mut frame = ScreencopyFrame::new(&mut ids, OutputId(1), false);
    assert_eq!(frame.state, FrameState::Pending);

    frame.set_buffer_info(0, 1920, 1080, 7680);
    assert_eq!(frame.state, FrameState::Ready);

    frame.copy(ShmBufferId(1));
    assert_eq!(frame.state, FrameState::Copying);

    frame.done(FrameFlags::empty(), 0, 0);
    assert_eq!(frame.state, FrameState::Done);
}

#[test]
fn test_screencopy_handler() {
    let mut handler = ScreencopyHandler::new();

    let id = handler.capture_output(OutputId(1), false);
    assert!(handler.get(id).is_some());

    handler.destroy(id);
    assert!(handler.get(id).is_none());
}

#[test]
fn test_capture_region() {
    let mut handler = ScreencopyHandler::new();
    let id = handler.capture_output_region(OutputId(1), 0, 0, 100, 100, true);
    let frame = handler.get(id).unwrap();
    assert!(frame.region.is_some());
    assert!(frame.overlay_cursor);
}

#[test]
fn frame_keeps_what_it_is_given() {
    let mut ids = IdRegistry::new();
    let mut frame = ScreencopyFrame::new(&mut ids, OutputId(3), true);
    assert_eq!(frame.id, ScreencopyFrameId(1));
    assert!(frame.region.is_none() && frame.buffer.is_none() && frame.buffer_info.is_none());
    frame.set_region(1, 2, 3, 4);
    let region = frame.region.unwrap();
    assert_eq!((region.x, region.y, region.width, region.height), (1, 2, 3, 4));
    frame.set_buffer_info(1, 640, 480, 2560);
    let info = frame.buffer_info.unwrap();
    assert_eq!((info.format, info.width, info.height, info.stride), (1, 640, 480, 2560));
    frame.copy(ShmBufferId(8));
    assert_eq!(frame.buffer, Some(ShmBufferId(8)));
    let done = frame.done(FrameFlags::from_bits_truncate(FrameFlags::Y_INVERT), 12, 34);
    assert_eq!((done.flags.bits(), done.tv_sec, done.tv_nsec), (1, 12, 34));
    assert_eq!(frame.output, OutputId(3));
    assert!(frame.overlay_cursor);
}

#[test]
fn a_frame_can_fail() {
    let mut ids = IdRegistry::new();
    let mut frame = ScreencopyFrame::new(&mut ids, OutputId(1), false);
    frame.set_buffer_info(0, 1, 1, 4);
    frame.fail();
    assert_eq!(frame.state, FrameState::Failed);
    assert_eq!(FrameState::default(), FrameState::Pending);
}

#[test]
fn frame_flags_are_a_set_of_bits() {
    assert_eq!(FrameFlags::empty().bits(), 0);
    assert_eq!(FrameFlags::from_bits_truncate(0xff).bits(), 1);
    let inverted = FrameFlags::from_bits_truncate(FrameFlags::Y_INVERT);
    assert!(inverted.contains(FrameFlags::empty()));
    assert!(inverted.contains(inverted));
    assert!(!FrameFlags::default().contains(inverted));
}

#[test]
fn screencopy_handler_counts_its_frames() {
    let mut handler = ScreencopyHandler::new();
    assert!(handler.is_empty() && handler.has_room());
    let a = handler.capture_output(OutputId(1), false);
    let b = handler.capture_output_region(OutputId(1), 5, 6, 7, 8, false);
    assert_ne!(a, b);
    assert_eq!(handler.len(), 2);
    assert!(handler.get(a).unwrap().region.is_none());
    handler.get_mut(b).unwrap().fail();
    assert_eq!(handler.get(b).unwrap().state, FrameState::Failed);
    assert_eq!(handler.get(a).unwrap().state, FrameState::Pending);
    assert!(handler.get_mut(ScreencopyFrameId(9)).is_none());
    handler.destroy(a);
    handler.destroy(a);
    assert_eq!(handler.len(), 1);
}
