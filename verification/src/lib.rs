//! The verified core of a Wayland windowing backend: the window table and
//! its configure, frame-callback and close handling, the seat table, and
//! the routing of keyboard and pointer events to the focused window.
//!
//! The crate decides; its caller performs. Every protocol event is handed
//! to the client state, which updates itself and returns the requests and
//! callbacks that the caller is to carry out, in order.

pub mod geometry;
pub mod input;
pub mod protocol;
pub mod seat;
pub mod table;
pub mod window;
pub mod error;
pub mod model;
pub mod client;
pub mod laws;
