pub mod dbus;
pub mod display;
pub mod foreign;
pub mod keymaps;
