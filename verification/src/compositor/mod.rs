//! Compositor core: surfaces, windows, outputs and the state that ties
//! them together.

pub mod output;
pub mod state;
pub mod surface;
pub mod window;

pub use output::{Output, OutputId, OutputManager, OutputMode};
pub use state::CompositorState;
pub use surface::{Surface, SurfaceId, SurfaceManager, SurfaceRole};
pub use window::{Window, WindowId, WindowManager};
