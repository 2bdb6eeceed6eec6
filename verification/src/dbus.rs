pub mod console;
pub mod keyboard;
pub mod listener;
pub mod mouse;
pub mod multitouch;
