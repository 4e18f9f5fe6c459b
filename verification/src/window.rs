//! The state kept for one window and what its operations ask of the caller.

use vstd::prelude::*;
use crate::geometry::{extent_of, initial_bounds, Bounds, Size, WindowBounds, WindowOptions, SCALE_FACTOR};
use crate::input::{text_view, InputView, PlatformInput};
use crate::protocol::WindowAction;

verus! {

/// One window: its geometry and whether a frame callback is outstanding.
#[derive(Clone, Copy, Debug, PartialEq, Eq, Structural)]
pub struct WaylandWindowState {
    /// Origin and size in whole pixels.
    pub bounds: Bounds,
    /// A frame callback has been requested and has not fired yet.
    pub frame_callback_requested: bool,
}

/// The state a window opened with `options` starts in.
pub open spec fn new_window(options: WindowOptions) -> WaylandWindowState {
    WaylandWindowState { bounds: initial_bounds(options.bounds), frame_callback_requested: false }
}

/// What creating the state of a window asks for: the request the options
/// call for, then the renderer for the initial extent.
pub open spec fn new_window_actions(options: WindowOptions) -> Seq<WindowAction> {
    let renderer = WindowAction::InitRenderer { extent: extent_of(initial_bounds(options.bounds).size) };
    match options.bounds {
        WindowBounds::Maximized => seq![WindowAction::SetMaximized, renderer],
        WindowBounds::Fullscreen => seq![WindowAction::SetFullscreen, renderer],
        WindowBounds::Fixed(_) => seq![renderer],
    }
}

/// What a resize asks for: the renderer first, then the resize callback
/// with the size and the scale factor, then the moved callback.
pub open spec fn resize_actions(size: Size) -> Seq<WindowAction> {
    seq![
        WindowAction::ResizeRenderer { size },
        WindowAction::NotifyResize { size, scale_factor: SCALE_FACTOR },
        WindowAction::NotifyMoved,
    ]
}

/// What an update asks for: the request-frame callback.
pub open spec fn update_actions() -> Seq<WindowAction> {
    seq![WindowAction::NotifyFrame]
}

/// What closing a window from the application's side asks for: the close
/// callback, then the destruction of the toplevel.
pub open spec fn close_actions() -> Seq<WindowAction> {
    seq![WindowAction::NotifyClose, WindowAction::DestroyToplevel]
}

/// The text that goes to a window's input handler after its input callback
/// has seen `input`: the text of a key press that the callback did not
/// handle.
pub open spec fn ime_fallback(input: InputView, handled: bool) -> Option<Seq<char>> {
    if handled {
        None
    } else {
        match input {
            InputView::KeyDown { keystroke, .. } => keystroke.ime_key,
            _ => None,
        }
    }
}

impl WaylandWindowState {
    /// The window with its size replaced.
    pub open spec fn resized(self, size: Size) -> WaylandWindowState {
        WaylandWindowState { bounds: Bounds { origin: self.bounds.origin, size }, ..self }
    }

    /// The window with a frame callback outstanding.
    pub open spec fn awaiting_frame(self) -> WaylandWindowState {
        WaylandWindowState { frame_callback_requested: true, ..self }
    }

    /// The state of a new window and what setting it up asks for.
    pub fn new(options: WindowOptions) -> (r: (WaylandWindowState, Vec<WindowAction>))
        ensures
            r.0 == new_window(options),
            r.1@ == new_window_actions(options),
    {
        let mut actions: Vec<WindowAction> = Vec::new();
        match options.bounds {
            WindowBounds::Maximized => {
                actions.push(WindowAction::SetMaximized);
            },
            WindowBounds::Fullscreen => {
                actions.push(WindowAction::SetFullscreen);
            },
            WindowBounds::Fixed(_) => {},
        }
        let bounds = options.bounds.initial();
        actions.push(WindowAction::InitRenderer { extent: bounds.size.extent() });
        assert(actions@ =~= new_window_actions(options));
        (WaylandWindowState { bounds, frame_callback_requested: false }, actions)
    }

    /// Asks for the request-frame callback to be invoked.
    pub fn update(&self) -> (actions: Vec<WindowAction>)
        ensures
            actions@ == update_actions(),
    {
        let mut actions: Vec<WindowAction> = Vec::new();
        actions.push(WindowAction::NotifyFrame);
        assert(actions@ =~= update_actions());
        actions
    }

    /// Takes up a new size: stores it, and asks for the renderer, the
    /// resize callback and the moved callback to be told, in that order.
    pub fn resize(&mut self, width: i32, height: i32) -> (actions: Vec<WindowAction>)
        ensures
            *final(self) == old(self).resized(Size { width, height }),
            actions@ == resize_actions(Size { width, height }),
    {
        let size = Size { width, height };
        self.bounds.size = size;
        let mut actions: Vec<WindowAction> = Vec::new();
        actions.push(WindowAction::ResizeRenderer { size });
        actions.push(WindowAction::NotifyResize { size, scale_factor: SCALE_FACTOR });
        actions.push(WindowAction::NotifyMoved);
        assert(actions@ =~= resize_actions(size));
        actions
    }

    /// Closes the window from the application's side: the close callback,
    /// then the destruction of the toplevel.
    pub fn close(&self) -> (actions: Vec<WindowAction>)
        ensures
            actions@ == close_actions(),
    {
        let mut actions: Vec<WindowAction> = Vec::new();
        actions.push(WindowAction::NotifyClose);
        actions.push(WindowAction::DestroyToplevel);
        assert(actions@ =~= close_actions());
        actions
    }

    /// Decides what follows the input callback: `handled` is what the
    /// callback returned, or false where none is registered. The result is
    /// the text that the window's input handler, if it has one, is to put
    /// in place of the selection.
    pub fn handle_input(&self, input: &PlatformInput, handled: bool) -> (text: Option<String>)
        ensures
            text_view(text) == ime_fallback(input@, handled),
    {
        if handled {
            return None;
        }
        match input {
            PlatformInput::KeyDown { keystroke, .. } => match &keystroke.ime_key {
                Some(ime_key) => Some(ime_key.clone()),
                None => None,
            },
            _ => None,
        }
    }

    /// The size of the window's content.
    pub fn content_size(&self) -> (size: Size)
        ensures
            size == self.bounds.size,
    {
        self.bounds.size
    }
}

} // verus!
