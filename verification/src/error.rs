//! The conditions under which the client cannot go on.

use vstd::prelude::*;

verus! {

/// Why a global could not be bound.
#[derive(Clone, Copy, Debug, PartialEq, Eq, Structural)]
pub enum BindFailure {
    /// The compositor does not advertise the global.
    NotPresent,
    /// The compositor advertises the global at too low a version.
    UnsupportedVersion,
}

/// The outcome of binding a global.
#[derive(Clone, Copy, Debug, PartialEq, Eq, Structural)]
pub enum BindOutcome {
    Bound,
    Failed(BindFailure),
}

/// A condition the client cannot recover from.
#[derive(Clone, Copy, Debug, PartialEq, Eq, Structural)]
pub enum ClientError {
    /// The surface factory could not be bound.
    CompositorUnavailable(BindFailure),
    /// The window-management base could not be bound.
    WmBaseUnavailable(BindFailure),
    /// The compositor offered a keymap in a format other than the text
    /// format.
    UnsupportedKeymapFormat,
    /// No keymap could be compiled from what the compositor delivered.
    InvalidKeymap,
    /// A key or modifier event arrived for a keyboard without a keymap.
    KeymapMissing,
    /// The window table cannot take another window.
    WindowTableFull,
    /// The seat table cannot take another seat.
    SeatTableFull,
}

/// The words for a condition the client cannot recover from.
pub open spec fn message_of(error: ClientError) -> Seq<char> {
    match error {
        ClientError::CompositorUnavailable(BindFailure::NotPresent) => "the compositor advertises no wl_compositor"@,
        ClientError::CompositorUnavailable(BindFailure::UnsupportedVersion) => "the compositor's wl_compositor is too old"@,
        ClientError::WmBaseUnavailable(BindFailure::NotPresent) => "the compositor advertises no xdg_wm_base"@,
        ClientError::WmBaseUnavailable(BindFailure::UnsupportedVersion) => "the compositor's xdg_wm_base is too old"@,
        ClientError::UnsupportedKeymapFormat => "Unsupported keymap format"@,
        ClientError::InvalidKeymap => "the keymap could not be compiled"@,
        ClientError::KeymapMissing => "a key or modifier event arrived before any keymap"@,
        ClientError::WindowTableFull => "the window table is full"@,
        ClientError::SeatTableFull => "the seat table is full"@,
    }
}

impl ClientError {
    /// Describes the condition in words.
    pub fn message(&self) -> (text: String)
        ensures
            text@ == message_of(*self),
    {
        match self {
            ClientError::CompositorUnavailable(BindFailure::NotPresent) => "the compositor advertises no wl_compositor".to_owned(),
            ClientError::CompositorUnavailable(BindFailure::UnsupportedVersion) => "the compositor's wl_compositor is too old".to_owned(),
            ClientError::WmBaseUnavailable(BindFailure::NotPresent) => "the compositor advertises no xdg_wm_base".to_owned(),
            ClientError::WmBaseUnavailable(BindFailure::UnsupportedVersion) => "the compositor's xdg_wm_base is too old".to_owned(),
            ClientError::UnsupportedKeymapFormat => "Unsupported keymap format".to_owned(),
            ClientError::InvalidKeymap => "the keymap could not be compiled".to_owned(),
            ClientError::KeymapMissing => "a key or modifier event arrived before any keymap".to_owned(),
            ClientError::WindowTableFull => "the window table is full".to_owned(),
            ClientError::SeatTableFull => "the seat table is full".to_owned(),
        }
    }
}

} // verus!
