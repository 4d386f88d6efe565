//! Protocol state machines: one module per Wayland interface family.

pub mod compositor;
pub mod data_device;
pub mod layer_shell;
pub mod output;
pub mod screencopy;
pub mod seat;
pub mod shell;
pub mod shm;

pub use compositor::WlCompositorHandler;
pub use data_device::DataDeviceHandler;
pub use layer_shell::LayerShellHandler;
pub use output::WlOutputHandler;
pub use screencopy::ScreencopyHandler;
pub use seat::WlSeatHandler;
pub use shell::XdgShellHandler;
pub use shm::WlShmHandler;
