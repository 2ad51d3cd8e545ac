[package]
name = "libharuhishot"
version = "0.5.0"
edition = "2021"
publish = false

[dependencies]
wayland-client = "0.31"
wayland-protocols = { version = "0.32", features = ["client", "staging", "unstable"] }
wayland-protocols-wlr = { version = "0.3", features = ["client"] }
nix = { version = "0.30", features = ["fs", "mman"] }
memmap2 = "0.9"
image = { version = "0.25", default-features = false, features = ["png"] }
clap = { version = "4", features = ["derive"] }
dialoguer = { version = "0.11", features = ["fuzzy-select"] }
libwaysip = "*"
notify-rust = "4"
thiserror = "2"
tracing = "0.1"
tracing-subscriber = "0.3"
