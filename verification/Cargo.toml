[package]
name = "gpui_wayland"
version = "0.1.0"
edition = "2021"
publish = false

[dependencies]
slotmap = "1.0"
xkbcommon = { version = "0.7", features = ["wayland"] }
wayland-client = "0.31"
wayland-protocols = { version = "0.31", features = ["client"] }
calloop = "0.12"
calloop-wayland-source = "0.2"
parking_lot = "0.12"
raw-window-handle = "0.6"
open = "5"
time = "0.3"
async-task = "4"
