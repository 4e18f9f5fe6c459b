//! The protocol events the client consumes and the requests and callbacks
//! it asks its caller to carry out.

use vstd::prelude::*;
use crate::geometry::{Extent, Size};
use crate::input::{InputView, Modifiers, PlatformInput};
use crate::table::{WaylandSeatId, WaylandWindowId};

verus! {

/// Capability bit of a seat that has a pointer.
pub const CAPABILITY_POINTER: u32 = 1;

/// Capability bit of a seat that has a keyboard.
pub const CAPABILITY_KEYBOARD: u32 = 2;

/// Version at which seats are bound.
pub const SEAT_VERSION: u32 = 1;

/// Format of a keymap the compositor offers.
#[derive(Clone, Copy, Debug, PartialEq, Eq, Structural)]
pub enum KeymapFormat {
    /// No keymap: the client is to interpret raw keycodes.
    NoKeymap,
    /// A keymap in the text format of libxkbcommon.
    XkbV1,
}

/// Whether a key went down or up.
#[derive(Clone, Copy, Debug, PartialEq, Eq, Structural)]
pub enum KeyState {
    Released,
    Pressed,
}

/// Whether a button went down or up.
#[derive(Clone, Copy, Debug, PartialEq, Eq, Structural)]
pub enum ButtonState {
    Released,
    Pressed,
}

/// The axis of a scroll event.
#[derive(Clone, Copy, Debug, PartialEq, Eq, Structural)]
pub enum Axis {
    VerticalScroll,
    HorizontalScroll,
}

/// How the physical motion of a scroll relates to the axis values.
#[derive(Clone, Copy, Debug, PartialEq, Eq, Structural)]
pub enum AxisRelativeDirection {
    Identical,
    Inverted,
}

/// A global as the compositor advertises it.
#[derive(Clone, Debug, PartialEq, Eq)]
pub struct Global {
    pub name: u32,
    pub interface: String,
    pub version: u32,
}

/// Events of the registry.
#[derive(Clone, Debug, PartialEq, Eq)]
pub enum RegistryEvent {
    Global { name: u32, interface: String, version: u32 },
    GlobalRemove { name: u32 },
}

/// Events of a surface. None of them changes anything.
#[derive(Clone, Copy, Debug, PartialEq, Eq, Structural)]
pub enum SurfaceEvent {
    Enter,
    Leave,
    PreferredBufferScale { factor: i32 },
    PreferredBufferTransform,
}

/// Events of a frame callback.
#[derive(Clone, Copy, Debug, PartialEq, Eq, Structural)]
pub enum CallbackEvent {
    Done { callback_data: u32 },
}

/// Events of a shell surface.
#[derive(Clone, Copy, Debug, PartialEq, Eq, Structural)]
pub enum XdgSurfaceEvent {
    Configure { serial: u32 },
}

/// Events of a toplevel.
#[derive(Clone, Copy, Debug, PartialEq, Eq, Structural)]
pub enum ToplevelEvent {
    Configure { width: i32, height: i32 },
    Close,
    ConfigureBounds { width: i32, height: i32 },
    WmCapabilities,
}

/// Events of the window-management base.
#[derive(Clone, Copy, Debug, PartialEq, Eq, Structural)]
pub enum WmBaseEvent {
    Ping { serial: u32 },
}

/// Events of a seat.
#[derive(Clone, Copy, Debug, PartialEq, Eq, Structural)]
pub enum SeatEvent {
    Capabilities { capabilities: u32 },
    Name,
}

/// Events of a seat's keyboard. Where the keymap has to be consulted, the
/// event carries its answers.
#[derive(Clone, Debug, PartialEq, Eq)]
pub enum KeyboardEvent {
    /// A keymap was offered; `compiled` tells whether a keymap could be
    /// compiled from what was delivered.
    Keymap { format: KeymapFormat, compiled: bool },
    Enter { window: WaylandWindowId },
    Leave,
    /// The modifier state changed; `active` holds the four modifiers that
    /// the keymap reports as effective under the given masks.
    Modifiers { depressed: u32, latched: u32, locked: u32, group: u32, active: Modifiers },
    /// A key changed state; `sym_name`, `utf32` and `utf8` are what the
    /// keymap gives for the key's keycode.
    Key { key: u32, state: KeyState, sym_name: String, utf32: u32, utf8: String },
    RepeatInfo,
}

/// Events of a seat's pointer. Positions and axis values are in units of
/// 1/256 pixel.
#[derive(Clone, Copy, Debug, PartialEq, Eq, Structural)]
pub enum PointerEvent {
    Enter { window: WaylandWindowId, x: i32, y: i32 },
    Leave,
    Motion { x: i32, y: i32 },
    Button { button: u32, state: ButtonState },
    AxisRelativeDirection { direction: AxisRelativeDirection },
    Axis { axis: Axis, value: i32 },
    Frame,
}

/// A protocol event, tagged with the kind of object it was sent to and the
/// window or seat that object belongs to.
#[derive(Clone, Debug, PartialEq, Eq)]
pub enum Event {
    Registry(RegistryEvent),
    Surface(WaylandWindowId, SurfaceEvent),
    Callback(WaylandWindowId, CallbackEvent),
    XdgSurface(WaylandWindowId, XdgSurfaceEvent),
    Toplevel(WaylandWindowId, ToplevelEvent),
    WmBase(WmBaseEvent),
    Seat(WaylandSeatId, SeatEvent),
    Keyboard(WaylandSeatId, KeyboardEvent),
    Pointer(WaylandSeatId, PointerEvent),
}

/// What the caller is to do for one window.
#[derive(Clone, Copy, Debug, PartialEq, Eq, Structural)]
pub enum WindowAction {
    /// Create the window's surface.
    CreateSurface,
    /// Create the shell surface from the surface.
    CreateShellSurface,
    /// Create the toplevel from the shell surface.
    CreateToplevel,
    /// Ask the compositor to maximize the toplevel.
    SetMaximized,
    /// Ask the compositor to make the toplevel fullscreen.
    SetFullscreen,
    /// Set up the renderer for the surface with the given extent.
    InitRenderer { extent: Extent },
    /// Acknowledge the shell-surface configure with this serial.
    AckConfigure { serial: u32 },
    /// Request a frame callback for the surface.
    RequestFrame,
    /// Commit the surface.
    Commit,
    /// Destroy the toplevel.
    DestroyToplevel,
    /// Tell the renderer the new drawable size.
    ResizeRenderer { size: Size },
    /// Invoke the request-frame callback, if one is registered.
    NotifyFrame,
    /// Invoke the resize callback, if one is registered.
    NotifyResize { size: Size, scale_factor: u32 },
    /// Invoke the moved callback, if one is registered.
    NotifyMoved,
    /// Invoke the close callback, if one is registered.
    NotifyClose,
}

/// What the caller is to do, in the order given.
#[derive(Clone, Debug, PartialEq, Eq)]
pub enum Action {
    /// A request or callback of one window.
    Window { window: WaylandWindowId, action: WindowAction },
    /// Deliver an input event to the window.
    Input { window: WaylandWindowId, input: PlatformInput },
    /// Bind the seat global `name`, tagging the proxy with `seat`.
    BindSeat { name: u32, version: u32, seat: WaylandSeatId },
    /// Request the seat's keyboard.
    GetKeyboard { seat: WaylandSeatId },
    /// Request the seat's pointer.
    GetPointer { seat: WaylandSeatId },
    /// Answer a ping with the same serial.
    Pong { serial: u32 },
}

/// An [`Action`] with its strings as sequences of characters.
pub enum ActionView {
    Window { window: WaylandWindowId, action: WindowAction },
    Input { window: WaylandWindowId, input: InputView },
    BindSeat { name: u32, version: u32, seat: WaylandSeatId },
    GetKeyboard { seat: WaylandSeatId },
    GetPointer { seat: WaylandSeatId },
    Pong { serial: u32 },
}

impl View for Action {
    type V = ActionView;

    open spec fn view(&self) -> ActionView {
        match *self {
            Action::Window { window, action } => ActionView::Window { window, action },
            Action::Input { window, input } => ActionView::Input { window, input: input@ },
            Action::BindSeat { name, version, seat } => ActionView::BindSeat { name, version, seat },
            Action::GetKeyboard { seat } => ActionView::GetKeyboard { seat },
            Action::GetPointer { seat } => ActionView::GetPointer { seat },
            Action::Pong { serial } => ActionView::Pong { serial },
        }
    }
}

/// The views of a list of actions.
pub open spec fn action_views(actions: Seq<Action>) -> Seq<ActionView> {
    actions.map_values(|a: Action| a@)
}

/// The views of a list with one more action are the views of the list with
/// one more view.
pub proof fn lemma_action_views_push(actions: Seq<Action>, action: Action)
    ensures
        action_views(actions.push(action)) == action_views(actions).push(action@),
{
    assert(action_views(actions.push(action)) =~= action_views(actions).push(action@));
}

/// The views of two lists joined are the views of each, joined.
pub proof fn lemma_action_views_concat(first: Seq<Action>, second: Seq<Action>)
    ensures
        action_views(first + second) == action_views(first) + action_views(second),
{
    assert(action_views(first + second) =~= action_views(first) + action_views(second));
}

/// The action `action` for the window `window`.
pub open spec fn for_window(window: WaylandWindowId, action: WindowAction) -> ActionView {
    ActionView::Window { window, action }
}

/// The delivery of `input` to the window `window`.
pub open spec fn deliver(window: WaylandWindowId, input: InputView) -> ActionView {
    ActionView::Input { window, input }
}

/// Whether the capability mask of a seat announces a keyboard.
pub open spec fn has_keyboard(capabilities: u32) -> bool {
    capabilities & CAPABILITY_KEYBOARD == CAPABILITY_KEYBOARD
}

/// Whether the capability mask of a seat announces a pointer.
pub open spec fn has_pointer(capabilities: u32) -> bool {
    capabilities & CAPABILITY_POINTER == CAPABILITY_POINTER
}

/// The interface name of a seat global.
pub open spec fn seat_interface() -> Seq<char> {
    "wl_seat"@
}

} // verus!
