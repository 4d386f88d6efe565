//! Outputs on the wire: the events that describe a display to a client.

use vstd::prelude::*;
use crate::compositor::output::{Output, OutputId, OutputMode};
use crate::ids::IdRegistry;

verus! {

/// Handler for wl_output protocol
#[derive(Debug)]
pub struct WlOutputHandler;

/// Output geometry event data
#[derive(Debug, PartialEq, Eq)]
pub struct OutputGeometryEvent {
    pub x: i32,
    pub y: i32,
    pub physical_width: i32,
    pub physical_height: i32,
    pub subpixel: i32,
    pub make: String,
    pub model: String,
    pub transform: i32,
}

/// Output mode event data
#[derive(Debug, Clone, Copy, PartialEq, Eq, Structural)]
pub struct OutputModeEvent {
    pub flags: u32,
    pub width: i32,
    pub height: i32,
    pub refresh: i32,
}

/// The mode flags of the wire: 1 for the current mode, 2 for the
/// preferred one.
pub open spec fn mode_flags(mode: OutputMode) -> u32 {
    ((if mode.current {
        1int
    } else {
        0int
    }) + (if mode.preferred {
        2int
    } else {
        0int
    })) as u32
}

/// A scale that is counted in 120ths, as the whole number next to it;
/// a half is rounded up.
pub open spec fn rounded_scale(scale: u32) -> int {
    (scale + 60) / 120
}

/// Joins two texts with one space between them, by std's `format!`
/// with the pattern `"{} {}"`, which writes out the first text, a space
/// and the second text.
#[verifier::external_body]
fn join_with_space(first: &str, second: &str) -> (joined: String)
    ensures
        joined@ == first@ + seq![' '] + second@,
{
    format!("{} {}", first, second)
}

impl WlOutputHandler {
    /// Create a new output handler
    pub fn new() -> Self {
        WlOutputHandler
    }

    /// Send output geometry event
    pub fn send_geometry(&self, output: &Output) -> (event: OutputGeometryEvent)
        ensures
            event.x == output.x,
            event.y == output.y,
            event.physical_width == output.physical_width as i32,
            event.physical_height == output.physical_height as i32,
            output.physical_width <= i32::MAX ==> event.physical_width == output.physical_width,
            output.physical_height <= i32::MAX ==> event.physical_height == output.physical_height,
            event.subpixel == output.subpixel.code(),
            event.make == output.make,
            event.model == output.model,
            event.transform == output.transform.code(),
    {
        OutputGeometryEvent {
            x: output.x,
            y: output.y,
            physical_width: output.physical_width as i32,
            physical_height: output.physical_height as i32,
            subpixel: output.subpixel.to_wayland() as i32,
            make: output.make.clone(),
            model: output.model.clone(),
            transform: output.transform.to_wayland() as i32,
        }
    }

    /// Send output mode event
    pub fn send_mode(&self, mode: &OutputMode) -> (event: OutputModeEvent)
        ensures
            event.flags == mode_flags(*mode),
            event.width == mode.width as i32,
            event.height == mode.height as i32,
            event.refresh == mode.refresh as i32,
            mode.width <= i32::MAX ==> event.width == mode.width,
            mode.height <= i32::MAX ==> event.height == mode.height,
            mode.refresh <= i32::MAX ==> event.refresh == mode.refresh,
    {
        let ghost (current, preferred) = (mode.current, mode.preferred);
        let mut flags: u32 = 0;
        if mode.current {
            flags = flags | 1;
        }
        let ghost low = flags;
        if mode.preferred {
            flags = flags | 2;
        }
        assert(flags == (if current { 1u32 } else { 0u32 }) + (if preferred { 2u32 } else { 0u32 }))
            by (bit_vector)
            requires
                low == if current { 0u32 | 1u32 } else { 0u32 },
                flags == if preferred { low | 2u32 } else { low },
        ;

        OutputModeEvent {
            flags,
            width: mode.width as i32,
            height: mode.height as i32,
            refresh: mode.refresh as i32,
        }
    }

    /// Send output scale event: the output's scale as a whole number
    pub fn send_scale(&self, output: &Output) -> (scale: i32)
        ensures
            scale == rounded_scale(output.scale),
    {
        ((output.scale as u64 + 60) / 120) as i32
    }

    /// Send output name event (wl_output version 4+)
    pub fn send_name(&self, output: &Output) -> (name: String)
        ensures
            name == output.name,
    {
        output.name.clone()
    }

    /// Send output description event (wl_output version 4+)
    pub fn send_description(&self, output: &Output) -> (description: String)
        ensures
            description@ == output.make@ + seq![' '] + output.model@,
    {
        join_with_space(output.make.as_str(), output.model.as_str())
    }

    /// Handle release request
    pub fn release(&self, _output_id: OutputId) {
    }
}

impl Default for WlOutputHandler {
    fn default() -> Self {
        WlOutputHandler
    }
}

/// The outputs of a host that reports none: one virtual display of
/// 1920 by 1080 pixels at 60 Hz.
pub fn enumerate_outputs(ids: &mut IdRegistry) -> (outputs: Vec<Output>)
    requires
        old(ids).wf(),
        old(ids).has_room(),
    ensures
        outputs@.len() == 1,
        outputs@[0].id == OutputId(old(ids).next_id()),
        outputs@[0].name@ == "dummy-0"@,
        outputs@[0].make@ == "Virtual"@,
        outputs@[0].model@ == "Display"@,
        outputs@[0].scale == 120,
        outputs@[0].modes@ == seq![
            OutputMode { width: 1920, height: 1080, refresh: 60000, current: true, preferred: true },
        ],
        outputs@[0].current_mode == Some(0usize),
        final(ids).next_id() == old(ids).next_id() + 1,
        final(ids).wf(),
{
    let mut output = Output::new(ids, "dummy-0".to_string());
    output.make = "Virtual".to_string();
    output.model = "Display".to_string();
    output.add_mode(
        OutputMode { width: 1920, height: 1080, refresh: 60000, current: true, preferred: true },
    );
    let mut outputs: Vec<Output> = Vec::new();
    outputs.push(output);
    outputs
}

} // verus!
