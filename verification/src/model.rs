//! The client's state as a mathematical value, and what each event does
//! to it.
//!
//! The functions here are the reference the executable client is verified
//! against: for a state and an event they give the next state and the list
//! of actions, in order.

use vstd::prelude::*;
use crate::error::{BindOutcome, ClientError};
use crate::geometry::{resolved_size, ScrollDelta, SurfacePoint};
use crate::input::{
    button_of, is_known_button, keycode_of, no_modifiers, resolved_keystroke, InputView,
    ModifierMasks, MouseButton, TouchPhase,
};
use crate::geometry::WindowOptions;
use crate::protocol::{
    deliver, for_window, has_keyboard, has_pointer, seat_interface, ActionView, Axis, ButtonState,
    CallbackEvent, Event, Global, KeyState, KeyboardEvent, KeymapFormat, PointerEvent, RegistryEvent,
    SeatEvent, ToplevelEvent, WindowAction, WmBaseEvent, XdgSurfaceEvent, SEAT_VERSION,
};
use crate::seat::{fresh_seat, scroll_multiplier, WaylandSeatState};
use crate::table::{WaylandSeatId, WaylandWindowId, SLOT_LIMIT};
use crate::window::{new_window, new_window_actions, resize_actions, WaylandWindowState};

verus! {

/// The client's state: both tables as maps, the pointer's cached location
/// and pressed button, the two focuses and the quit flag.
#[verifier::ext_equal]
pub struct ClientModel {
    pub windows: Map<WaylandWindowId, WaylandWindowState>,
    pub seats: Map<WaylandSeatId, WaylandSeatState>,
    pub mouse_location: Option<SurfacePoint>,
    pub button_pressed: Option<MouseButton>,
    pub mouse_focused_window: Option<WaylandWindowId>,
    pub keyboard_focused_window: Option<WaylandWindowId>,
    pub quit_requested: bool,
}

/// The actions `actions` of the window `window`, in order.
pub open spec fn window_actions(window: WaylandWindowId, actions: Seq<WindowAction>) -> Seq<ActionView> {
    actions.map_values(|action: WindowAction| for_window(window, action))
}

/// A focus after the window `window` has left the table.
pub open spec fn focus_without(focus: Option<WaylandWindowId>, window: WaylandWindowId) -> Option<
    WaylandWindowId,
> {
    if focus == Some(window) {
        None
    } else {
        focus
    }
}

impl ClientModel {
    /// The invariant of the client's state: the tables are finite and keyed
    /// by valid ids, every seat scrolls by 1 or -1, and a focus names a
    /// window of the table.
    pub open spec fn wf(self) -> bool {
        &&& self.windows.dom().finite()
        &&& self.seats.dom().finite()
        &&& forall|id: WaylandWindowId| #[trigger] self.windows.contains_key(id) ==> id.is_valid()
        &&& forall|id: WaylandSeatId| #[trigger] self.seats.contains_key(id) ==> id.is_valid() && self.seats[id].wf()
        &&& self.mouse_focused_window matches Some(w) ==> self.windows.contains_key(w)
        &&& self.keyboard_focused_window matches Some(w) ==> self.windows.contains_key(w)
    }

    /// The state with `state` stored for the window `window`.
    pub open spec fn with_window(self, window: WaylandWindowId, state: WaylandWindowState) -> ClientModel {
        ClientModel { windows: self.windows.insert(window, state), ..self }
    }

    /// The state with `state` stored for the seat `seat`.
    pub open spec fn with_seat(self, seat: WaylandSeatId, state: WaylandSeatState) -> ClientModel {
        ClientModel { seats: self.seats.insert(seat, state), ..self }
    }

    /// The state after the window `window` has been closed: it has left the
    /// table, no focus names it any longer, and the quit flag is raised if
    /// the table is left empty.
    pub open spec fn without_window(self, window: WaylandWindowId) -> ClientModel {
        ClientModel {
            windows: self.windows.remove(window),
            mouse_focused_window: focus_without(self.mouse_focused_window, window),
            keyboard_focused_window: focus_without(self.keyboard_focused_window, window),
            quit_requested: self.quit_requested || self.windows.remove(window).dom().len() == 0,
            ..self
        }
    }
}

/// The state of a client that has no window and no seat yet.
pub open spec fn initial_model() -> ClientModel {
    ClientModel {
        windows: Map::empty(),
        seats: Map::empty(),
        mouse_location: None,
        button_pressed: None,
        mouse_focused_window: None,
        keyboard_focused_window: None,
        quit_requested: false,
    }
}

/// A frame callback fired: it is re-armed at once, the request-frame
/// callback runs, and the surface is committed. An event for a window that
/// has left the table is dropped.
pub open spec fn callback_step(m: ClientModel, window: WaylandWindowId, event: CallbackEvent) -> (
    ClientModel,
    Seq<ActionView>,
) {
    if !m.windows.contains_key(window) {
        (m, Seq::empty())
    } else {
        (
            m.with_window(window, m.windows[window].awaiting_frame()),
            seq![
                for_window(window, WindowAction::RequestFrame),
                for_window(window, WindowAction::NotifyFrame),
                for_window(window, WindowAction::Commit),
            ],
        )
    }
}

/// A shell surface was configured: the configure is acknowledged first; a
/// frame callback is requested unless one is outstanding; then the
/// request-frame callback runs and the surface is committed.
pub open spec fn xdg_surface_step(m: ClientModel, window: WaylandWindowId, event: XdgSurfaceEvent) -> (
    ClientModel,
    Seq<ActionView>,
) {
    if !m.windows.contains_key(window) {
        (m, Seq::empty())
    } else {
        let XdgSurfaceEvent::Configure { serial } = event;
        let ack = for_window(window, WindowAction::AckConfigure { serial });
        let frame = for_window(window, WindowAction::NotifyFrame);
        let commit = for_window(window, WindowAction::Commit);
        (
            m.with_window(window, m.windows[window].awaiting_frame()),
            if m.windows[window].frame_callback_requested {
                seq![ack, frame, commit]
            } else {
                seq![ack, for_window(window, WindowAction::RequestFrame), frame, commit]
            },
        )
    }
}

/// A toplevel event. A configure resizes the window to the resolved size; a
/// close destroys the toplevel and takes the window out of the table; the
/// other events change nothing.
pub open spec fn toplevel_step(m: ClientModel, window: WaylandWindowId, event: ToplevelEvent) -> (
    ClientModel,
    Seq<ActionView>,
) {
    if !m.windows.contains_key(window) {
        (m, Seq::empty())
    } else {
        match event {
            ToplevelEvent::Configure { width, height } => {
                let size = resolved_size(width, height);
                (
                    m.with_window(window, m.windows[window].resized(size)),
                    window_actions(window, resize_actions(size)),
                )
            },
            ToplevelEvent::Close => (
                m.without_window(window),
                seq![for_window(window, WindowAction::DestroyToplevel)],
            ),
            _ => (m, Seq::empty()),
        }
    }
}

/// A ping is answered with a pong of the same serial.
pub open spec fn wm_base_step(m: ClientModel, event: WmBaseEvent) -> (ClientModel, Seq<ActionView>) {
    let WmBaseEvent::Ping { serial } = event;
    (m, seq![ActionView::Pong { serial }])
}

/// The seat after it has announced `capabilities`: a device once bound
/// stays bound.
pub open spec fn seat_with_capabilities(seat: WaylandSeatState, capabilities: u32) -> WaylandSeatState {
    WaylandSeatState {
        keyboard_bound: seat.keyboard_bound || has_keyboard(capabilities),
        pointer_bound: seat.pointer_bound || has_pointer(capabilities),
        ..seat
    }
}

/// The devices to request of a seat that announces `capabilities`: the
/// keyboard and the pointer, each if announced and not bound yet.
pub open spec fn capability_actions(id: WaylandSeatId, seat: WaylandSeatState, capabilities: u32) -> Seq<
    ActionView,
> {
    let keyboard = if has_keyboard(capabilities) && !seat.keyboard_bound {
        seq![ActionView::GetKeyboard { seat: id }]
    } else {
        Seq::empty()
    };
    let pointer = if has_pointer(capabilities) && !seat.pointer_bound {
        seq![ActionView::GetPointer { seat: id }]
    } else {
        Seq::empty()
    };
    keyboard + pointer
}

/// A seat event. An event for a seat that is not in the table is dropped.
pub open spec fn seat_step(m: ClientModel, seat: WaylandSeatId, event: SeatEvent) -> (
    ClientModel,
    Seq<ActionView>,
) {
    if !m.seats.contains_key(seat) {
        (m, Seq::empty())
    } else {
        match event {
            SeatEvent::Capabilities { capabilities } => (
                m.with_seat(seat, seat_with_capabilities(m.seats[seat], capabilities)),
                capability_actions(seat, m.seats[seat], capabilities),
            ),
            SeatEvent::Name => (m, Seq::empty()),
        }
    }
}

/// A keyboard event.
///
/// A keymap is installed if it has the text format and could be compiled;
/// otherwise the client cannot go on. An enter moves the keyboard focus to
/// the window, if the table holds it. A modifier update replaces the seat's
/// masks and modifiers. A key event goes to the focused window, as a key press or
/// release with the seat's modifiers, and is dropped without one. Modifier
/// and key events need a keymap.
pub open spec fn keyboard_step(m: ClientModel, seat: WaylandSeatId, event: KeyboardEvent) -> Result<
    (ClientModel, Seq<ActionView>),
    ClientError,
> {
    if !m.seats.contains_key(seat) {
        Ok((m, Seq::empty()))
    } else {
        let s = m.seats[seat];
        match event {
            KeyboardEvent::Keymap { format, compiled } => {
                if format != KeymapFormat::XkbV1 {
                    Err(ClientError::UnsupportedKeymapFormat)
                } else if !compiled {
                    Err(ClientError::InvalidKeymap)
                } else {
                    Ok((m.with_seat(seat, WaylandSeatState { keymap_installed: true, ..s }), Seq::empty()))
                }
            },
            KeyboardEvent::Enter { window } => {
                if m.windows.contains_key(window) {
                    Ok((ClientModel { keyboard_focused_window: Some(window), ..m }, Seq::empty()))
                } else {
                    Ok((m, Seq::empty()))
                }
            },
            KeyboardEvent::Modifiers { depressed, latched, locked, group, active } => {
                if !s.keymap_installed {
                    Err(ClientError::KeymapMissing)
                } else {
                    Ok(
                        (
                            m.with_seat(
                                seat,
                                WaylandSeatState {
                                    masks: ModifierMasks { depressed, latched, locked, group },
                                    modifiers: active,
                                    ..s
                                },
                            ),
                            Seq::empty(),
                        ),
                    )
                }
            },
            KeyboardEvent::Key { key, state, sym_name, utf32, utf8 } => {
                if !s.keymap_installed {
                    Err(ClientError::KeymapMissing)
                } else if keycode_of(key) is None {
                    Ok((m, Seq::empty()))
                } else {
                    match m.keyboard_focused_window {
                        None => Ok((m, Seq::empty())),
                        Some(window) => {
                            let keystroke = resolved_keystroke(s.modifiers, sym_name@, utf32, utf8@);
                            let input = match state {
                                KeyState::Pressed => InputView::KeyDown { keystroke, is_held: false },
                                KeyState::Released => InputView::KeyUp { keystroke },
                            };
                            Ok((m, seq![deliver(window, input)]))
                        },
                    }
                }
            },
            _ => Ok((m, Seq::empty())),
        }
    }
}

/// The scroll distance of an axis event: the raw value times the seat's
/// multiplier, along the event's axis.
pub open spec fn scroll_delta(seat: WaylandSeatState, axis: Axis, value: i32) -> ScrollDelta {
    match axis {
        Axis::VerticalScroll => ScrollDelta { x: 0, y: (value * seat.scroll_direction) as i64 },
        Axis::HorizontalScroll => ScrollDelta { x: (value * seat.scroll_direction) as i64, y: 0 },
    }
}

/// A pointer event.
///
/// An enter caches the location and moves the pointer focus to the window,
/// if the table holds it. A motion caches the location and tells the
/// focused window. A button event needs a focused window, a cached location
/// and a known button: a press is recorded and delivered with the seat's
/// modifiers, a release clears the record and is delivered without
/// modifiers. An axis-relative-direction event sets the seat's multiplier.
/// An axis event needs a focused window and a cached location. A leave
/// tells the focused window of a move to the origin, then clears focus and
/// location.
pub open spec fn pointer_step(m: ClientModel, seat: WaylandSeatId, event: PointerEvent) -> (
    ClientModel,
    Seq<ActionView>,
) {
    if !m.seats.contains_key(seat) {
        (m, Seq::empty())
    } else {
        let s = m.seats[seat];
        match event {
            PointerEvent::Enter { window, x, y } => (
                ClientModel {
                    mouse_focused_window: if m.windows.contains_key(window) {
                        Some(window)
                    } else {
                        m.mouse_focused_window
                    },
                    mouse_location: Some(SurfacePoint { x, y }),
                    ..m
                },
                Seq::empty(),
            ),
            PointerEvent::Leave => (
                ClientModel { mouse_focused_window: None, mouse_location: None, ..m },
                match m.mouse_focused_window {
                    Some(window) => seq![
                        deliver(
                            window,
                            InputView::MouseMove {
                                position: SurfacePoint { x: 0, y: 0 },
                                pressed_button: None,
                                modifiers: no_modifiers(),
                            },
                        ),
                    ],
                    None => Seq::empty(),
                },
            ),
            PointerEvent::Motion { x, y } => (
                ClientModel { mouse_location: Some(SurfacePoint { x, y }), ..m },
                match m.mouse_focused_window {
                    Some(window) => seq![
                        deliver(
                            window,
                            InputView::MouseMove {
                                position: SurfacePoint { x, y },
                                pressed_button: m.button_pressed,
                                modifiers: s.modifiers,
                            },
                        ),
                    ],
                    None => Seq::empty(),
                },
            ),
            PointerEvent::Button { button, state } => match (m.mouse_focused_window, m.mouse_location) {
                (Some(window), Some(position)) => if !is_known_button(button) {
                    (m, Seq::empty())
                } else {
                    match state {
                        ButtonState::Pressed => (
                            ClientModel { button_pressed: Some(button_of(button)), ..m },
                            seq![
                                deliver(
                                    window,
                                    InputView::MouseDown {
                                        button: button_of(button),
                                        position,
                                        modifiers: s.modifiers,
                                        click_count: 1,
                                    },
                                ),
                            ],
                        ),
                        ButtonState::Released => (
                            ClientModel { button_pressed: None, ..m },
                            seq![
                                deliver(
                                    window,
                                    InputView::MouseUp {
                                        button: button_of(button),
                                        position,
                                        modifiers: no_modifiers(),
                                        click_count: 1,
                                    },
                                ),
                            ],
                        ),
                    }
                },
                _ => (m, Seq::empty()),
            },
            PointerEvent::AxisRelativeDirection { direction } => (
                m.with_seat(seat, WaylandSeatState { scroll_direction: scroll_multiplier(direction), ..s }),
                Seq::empty(),
            ),
            PointerEvent::Axis { axis, value } => match (m.mouse_focused_window, m.mouse_location) {
                (Some(window), Some(position)) => (
                    m,
                    seq![
                        deliver(
                            window,
                            InputView::ScrollWheel {
                                position,
                                delta: scroll_delta(s, axis, value),
                                modifiers: s.modifiers,
                                touch_phase: TouchPhase::Started,
                            },
                        ),
                    ],
                ),
                _ => (m, Seq::empty()),
            },
            PointerEvent::Frame => (m, Seq::empty()),
        }
    }
}

/// What a registry event leaves behind.
///
/// The announcement of a seat global adds a fresh seat to the table, under
/// an id the table did not hold, and asks for the global to be bound with
/// that id; with a full table the client cannot go on. Every other
/// announcement, and every removal, changes nothing.
pub open spec fn registry_post(
    pre: ClientModel,
    event: RegistryEvent,
    post: ClientModel,
    result: Result<Seq<ActionView>, ClientError>,
) -> bool {
    match event {
        RegistryEvent::Global { name, interface, version } => {
            if interface@ != seat_interface() {
                post == pre && result == Ok::<Seq<ActionView>, ClientError>(Seq::empty())
            } else if pre.seats.dom().len() >= SLOT_LIMIT {
                post == pre && result == Err::<Seq<ActionView>, ClientError>(ClientError::SeatTableFull)
            } else {
                &&& result matches Ok(actions)
                &&& actions.len() == 1
                &&& actions[0] matches ActionView::BindSeat { name: bound, version: at, seat }
                &&& bound == name
                &&& at == SEAT_VERSION
                &&& seat.is_valid()
                &&& !pre.seats.contains_key(seat)
                &&& post == pre.with_seat(seat, fresh_seat())
            }
        },
        RegistryEvent::GlobalRemove { .. } => post == pre && result == Ok::<Seq<ActionView>, ClientError>(
            Seq::empty(),
        ),
    }
}

/// Whether `post` and `result` are the state and the actions of `step`.
pub open spec fn is_step(
    step: (ClientModel, Seq<ActionView>),
    post: ClientModel,
    result: Result<Seq<ActionView>, ClientError>,
) -> bool {
    post == step.0 && result == Ok::<Seq<ActionView>, ClientError>(step.1)
}

/// What any event leaves behind: the state and the result of the handler
/// for the kind of object the event was sent to. Where the client cannot go
/// on, the state is as it was.
pub open spec fn event_post(
    pre: ClientModel,
    event: Event,
    post: ClientModel,
    result: Result<Seq<ActionView>, ClientError>,
) -> bool {
    match event {
        Event::Registry(e) => registry_post(pre, e, post, result),
        Event::Surface(_, _) => is_step((pre, Seq::empty()), post, result),
        Event::Callback(window, e) => is_step(callback_step(pre, window, e), post, result),
        Event::XdgSurface(window, e) => is_step(xdg_surface_step(pre, window, e), post, result),
        Event::Toplevel(window, e) => is_step(toplevel_step(pre, window, e), post, result),
        Event::WmBase(e) => is_step(wm_base_step(pre, e), post, result),
        Event::Seat(seat, e) => is_step(seat_step(pre, seat, e), post, result),
        Event::Keyboard(seat, e) => match keyboard_step(pre, seat, e) {
            Ok(step) => is_step(step, post, result),
            Err(error) => post == pre && result == Err::<Seq<ActionView>, ClientError>(error),
        },
        Event::Pointer(seat, e) => is_step(pointer_step(pre, seat, e), post, result),
    }
}

/// What opening a window asks for: surface, shell surface, toplevel and a
/// first commit, then what the window's own setup asks for.
pub open spec fn open_window_actions(window: WaylandWindowId, options: WindowOptions) -> Seq<ActionView> {
    seq![
        for_window(window, WindowAction::CreateSurface),
        for_window(window, WindowAction::CreateShellSurface),
        for_window(window, WindowAction::CreateToplevel),
        for_window(window, WindowAction::Commit),
    ] + window_actions(window, new_window_actions(options))
}

/// What opening a window leaves behind: the new window stands in the table
/// under an id the table did not hold, in the state its options give, and
/// the actions of `open_window_actions` are asked for; with a full table
/// nothing changes and no window is opened.
pub open spec fn open_window_post(
    pre: ClientModel,
    options: WindowOptions,
    post: ClientModel,
    result: Result<(WaylandWindowId, Seq<ActionView>), ClientError>,
) -> bool {
    if pre.windows.dom().len() >= SLOT_LIMIT {
        post == pre && result == Err::<(WaylandWindowId, Seq<ActionView>), ClientError>(
            ClientError::WindowTableFull,
        )
    } else {
        &&& result matches Ok((window, actions))
        &&& window.is_valid()
        &&& !pre.windows.contains_key(window)
        &&& post == pre.with_window(window, new_window(options))
        &&& actions == open_window_actions(window, options)
    }
}

/// The names of the seat globals among `globals`, in order.
pub open spec fn seat_names(globals: Seq<Global>) -> Seq<u32>
    decreases globals.len(),
{
    if globals.len() == 0 {
        Seq::empty()
    } else if globals.last().interface@ == seat_interface() {
        seat_names(globals.drop_last()).push(globals.last().name)
    } else {
        seat_names(globals.drop_last())
    }
}

/// The seat an action binds.
pub open spec fn bound_seat(action: ActionView) -> WaylandSeatId {
    action->BindSeat_seat
}

/// Whether `actions` bind the seat globals `names`, one action for each
/// name and in the same order, each to a seat of its own that `seats` holds
/// in its fresh state, and `seats` holds no other seat.
pub open spec fn binds_seats(
    names: Seq<u32>,
    seats: Map<WaylandSeatId, WaylandSeatState>,
    actions: Seq<ActionView>,
) -> bool {
    &&& actions.len() == names.len()
    &&& seats.dom().finite()
    &&& seats.dom().len() == names.len()
    &&& forall|i: int|
        0 <= i < actions.len() ==> {
            &&& #[trigger] actions[i] matches ActionView::BindSeat { name, version, seat }
            &&& name == names[i]
            &&& version == SEAT_VERSION
            &&& seats.contains_key(seat)
            &&& seats[seat] == fresh_seat()
        }
    &&& forall|i: int, j: int|
        0 <= i < j < actions.len() ==> bound_seat(#[trigger] actions[i]) != bound_seat(#[trigger] actions[j])
}

/// What starting the client gives.
///
/// The client cannot start unless both the surface factory and the
/// window-management base were bound; the surface factory is looked at
/// first. Otherwise it starts without windows, focus or pending quit, with
/// one fresh seat for each seat global, and asks for each of them to be
/// bound.
pub open spec fn startup_post(
    globals: Seq<Global>,
    compositor: BindOutcome,
    wm_base: BindOutcome,
    result: Result<(ClientModel, Seq<ActionView>), ClientError>,
) -> bool {
    match (compositor, wm_base) {
        (BindOutcome::Failed(failure), _) => result == Err::<(ClientModel, Seq<ActionView>), ClientError>(
            ClientError::CompositorUnavailable(failure),
        ),
        (BindOutcome::Bound, BindOutcome::Failed(failure)) => result == Err::<
            (ClientModel, Seq<ActionView>),
            ClientError,
        >(ClientError::WmBaseUnavailable(failure)),
        (BindOutcome::Bound, BindOutcome::Bound) => if seat_names(globals).len() > SLOT_LIMIT {
            result == Err::<(ClientModel, Seq<ActionView>), ClientError>(ClientError::SeatTableFull)
        } else {
            &&& result matches Ok((m, actions))
            &&& m.wf()
            &&& m == ClientModel { seats: m.seats, ..initial_model() }
            &&& binds_seats(seat_names(globals), m.seats, actions)
        },
    }
}

} // verus!
