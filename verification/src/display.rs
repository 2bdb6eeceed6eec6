pub mod capture_state;
pub mod display_state;
pub mod error;
pub mod framebuffer;
pub mod gpu_passthrough;
pub mod input_daemon;
pub mod input_handler;
pub mod pixman_4cc;
pub mod screen;
pub mod send_log;
pub mod software_rasterizer;
pub mod udma;
pub mod vm_display;

pub use self::error::{BackendNotReady, Error};
