[package]
name = "libmks_rs"
version = "0.1.0"
edition = "2021"
publish = false

[dependencies]
kanal = "=0.1.1"
zvariant = "=5.15.1"
zbus = { version = "=5.19.0", default-features = false, features = ["tokio", "blocking-api"] }
arrayvec = "=0.7.8"
tokio = { version = "=1.54.1", features = ["rt", "rt-multi-thread", "macros", "time"] }
futures-util = "=0.3.34"
relm4 = { version = "=0.11.0", features = ["libadwaita"] }
gdk4-wayland = { version = "=0.11.5", features = ["wayland_crate"] }
wayland-client = "=0.31.15"
wayland-protocols = { version = "=0.32.13", features = ["client", "unstable", "staging"] }
rustix = { version = "=1.1.6", features = ["fs", "mm", "param"] }
thiserror = "=2.0.21"
derive_more = { version = "=2.1.1", features = ["from", "into", "deref", "as_ref", "display", "error"] }
serde = { version = "=1.0.229", features = ["derive"] }
serde_repr = "=0.1.21"
log = { version = "=0.4.35", features = ["kv"] }
