//! The client: its state and the handler of each kind of protocol event.

use vstd::prelude::*;
use crate::error::{BindOutcome, ClientError};
use crate::geometry::{ScrollDelta, Size, SurfacePoint, WindowBounds, WindowOptions, SCALE_FACTOR};
use crate::input::{
    keycode_from_scancode, known_button, linux_button_to_gpui, Keystroke, ModifierMasks, Modifiers,
    MouseButton, PlatformInput, TouchPhase,
};
use crate::model::{
    binds_seats, bound_seat, callback_step, event_post, initial_model, keyboard_step,
    open_window_actions, open_window_post, pointer_step, registry_post, seat_names, seat_step,
    startup_post, toplevel_step, window_actions, wm_base_step, xdg_surface_step, ClientModel,
};
use crate::protocol::{
    action_views, for_window, lemma_action_views_concat, lemma_action_views_push, Action,
    ActionView, Axis, ButtonState, CallbackEvent, Event, Global, KeyState, KeyboardEvent, KeymapFormat,
    PointerEvent, RegistryEvent, SeatEvent, SurfaceEvent, ToplevelEvent, WindowAction, WmBaseEvent,
    XdgSurfaceEvent, CAPABILITY_KEYBOARD, CAPABILITY_POINTER, SEAT_VERSION,
};
use crate::seat::{fresh_seat, WaylandSeatState};
use crate::window::{new_window, WaylandWindowState};
use crate::table::{
    seat_entries, seat_table_get, seat_table_get_mut, window_table_insert, seat_table_insert, seat_table_len, seat_table_new,
    window_entries, window_table_get, window_table_get_mut, window_table_len, window_table_new,
    window_table_remove, SeatTable, WaylandSeatId, WaylandWindowId, WindowTable, SLOT_LIMIT,
};

verus! {

/// Everything the client knows: the window table, the seat table, the
/// pointer's cached location and pressed button, which window has the
/// pointer and which the keyboard, and whether the application is to quit.
pub struct WaylandClientState {
    windows: WindowTable,
    seats: SeatTable,
    mouse_location: Option<SurfacePoint>,
    button_pressed: Option<MouseButton>,
    mouse_focused_window: Option<WaylandWindowId>,
    keyboard_focused_window: Option<WaylandWindowId>,
    quit_requested: bool,
}

impl View for WaylandClientState {
    type V = ClientModel;

    closed spec fn view(&self) -> ClientModel {
        ClientModel {
            windows: window_entries(self.windows),
            seats: seat_entries(self.seats),
            mouse_location: self.mouse_location,
            button_pressed: self.button_pressed,
            mouse_focused_window: self.mouse_focused_window,
            keyboard_focused_window: self.keyboard_focused_window,
            quit_requested: self.quit_requested,
        }
    }
}

/// Tags each action of a window with the window's id.
fn tag_window_actions(window: WaylandWindowId, actions: &Vec<WindowAction>) -> (tagged: Vec<Action>)
    ensures
        action_views(tagged@) == window_actions(window, actions@),
{
    let mut tagged: Vec<Action> = Vec::new();
    let mut i: usize = 0;
    while i < actions.len()
        invariant
            i <= actions.len(),
            action_views(tagged@) == window_actions(window, actions@.take(i as int)),
        decreases actions.len() - i,
    {
        proof {
            lemma_action_views_push(tagged@, Action::Window { window, action: actions@[i as int] });
            assert(actions@.take(i + 1) =~= actions@.take(i as int).push(actions@[i as int]));
            assert(window_actions(window, actions@.take(i as int).push(actions@[i as int]))
                =~= window_actions(window, actions@.take(i as int)).push(
                for_window(window, actions@[i as int]),
            ));
        }
        tagged.push(Action::Window { window, action: actions[i] });
        i = i + 1;
    }
    assert(actions@.take(i as int) =~= actions@);
    tagged
}

/// Adds an action to the end of a list.
fn push_action(actions: &mut Vec<Action>, action: Action)
    ensures
        action_views(final(actions)@) == action_views(old(actions)@).push(action@),
{
    proof {
        lemma_action_views_push(actions@, action);
    }
    actions.push(action);
}

/// Adds the actions of a window, tagged with its id, to the end of a list.
fn push_window_actions(actions: &mut Vec<Action>, window: WaylandWindowId, more: &Vec<WindowAction>)
    ensures
        action_views(final(actions)@) == action_views(old(actions)@) + window_actions(window, more@),
{
    let mut tagged = tag_window_actions(window, more);
    proof {
        lemma_action_views_concat(actions@, tagged@);
    }
    actions.append(&mut tagged);
}

/// The result of a handler as the model states it: the views of the
/// actions, or the error.
pub open spec fn result_views(result: Result<Vec<Action>, ClientError>) -> Result<
    Seq<ActionView>,
    ClientError,
> {
    match result {
        Ok(actions) => Ok(action_views(actions@)),
        Err(error) => Err(error),
    }
}

/// Tells whether an interface name is that of a seat global.
fn is_seat_interface(interface: &String) -> (seat: bool)
    ensures
        seat == (interface@ == crate::protocol::seat_interface()),
{
    let seat_name = "wl_seat".to_owned();
    *interface == seat_name
}

impl WaylandClientState {
    /// The invariant every operation keeps.
    pub open spec fn wf(&self) -> bool {
        self@.wf()
    }

    /// A client without windows or seats.
    pub fn new() -> (state: WaylandClientState)
        ensures
            state.wf(),
            state@ == initial_model(),
    {
        let state = WaylandClientState {
            windows: window_table_new(),
            seats: seat_table_new(),
            mouse_location: None,
            button_pressed: None,
            mouse_focused_window: None,
            keyboard_focused_window: None,
            quit_requested: false,
        };
        assert(state@ =~= initial_model());
        state
    }

    /// Handles an event of a window's frame callback.
    pub fn callback_event(&mut self, window: WaylandWindowId, event: CallbackEvent) -> (actions: Vec<Action>)
        requires
            old(self).wf(),
        ensures
            final(self).wf(),
            final(self)@ == callback_step(old(self)@, window, event).0,
            action_views(actions@) == callback_step(old(self)@, window, event).1,
    {
        let mut actions: Vec<Action> = Vec::new();
        if !window.check_valid() {
            assert(action_views(actions@) =~= Seq::empty());
            return actions;
        }
        match window_table_get_mut(&mut self.windows, window) {
            Some(w) => {
                w.frame_callback_requested = true;
                push_action(&mut actions, Action::Window { window, action: WindowAction::RequestFrame });
                push_window_actions(&mut actions, window, &w.update());
                push_action(&mut actions, Action::Window { window, action: WindowAction::Commit });
            },
            None => {},
        }
        assert(self@ =~= callback_step(old(self)@, window, event).0);
        assert(action_views(actions@) =~= callback_step(old(self)@, window, event).1);
        actions
    }

    /// Handles an event of a window's shell surface.
    pub fn xdg_surface_event(&mut self, window: WaylandWindowId, event: XdgSurfaceEvent) -> (actions: Vec<Action>)
        requires
            old(self).wf(),
        ensures
            final(self).wf(),
            final(self)@ == xdg_surface_step(old(self)@, window, event).0,
            action_views(actions@) == xdg_surface_step(old(self)@, window, event).1,
    {
        let mut actions: Vec<Action> = Vec::new();
        if !window.check_valid() {
            assert(action_views(actions@) =~= Seq::empty());
            return actions;
        }
        let XdgSurfaceEvent::Configure { serial } = event;
        match window_table_get_mut(&mut self.windows, window) {
            Some(w) => {
                push_action(&mut actions, Action::Window { window, action: WindowAction::AckConfigure { serial } });
                let frame_callback_already_requested = w.frame_callback_requested;
                w.frame_callback_requested = true;
                if !frame_callback_already_requested {
                    push_action(&mut actions, Action::Window { window, action: WindowAction::RequestFrame });
                }
                push_window_actions(&mut actions, window, &w.update());
                push_action(&mut actions, Action::Window { window, action: WindowAction::Commit });
            },
            None => {},
        }
        assert(self@ =~= xdg_surface_step(old(self)@, window, event).0);
        assert(action_views(actions@) =~= xdg_surface_step(old(self)@, window, event).1);
        actions
    }

    /// Handles an event of a window's toplevel.
    pub fn toplevel_event(&mut self, window: WaylandWindowId, event: ToplevelEvent) -> (actions: Vec<Action>)
        requires
            old(self).wf(),
        ensures
            final(self).wf(),
            final(self)@ == toplevel_step(old(self)@, window, event).0,
            action_views(actions@) == toplevel_step(old(self)@, window, event).1,
    {
        let mut actions: Vec<Action> = Vec::new();
        if !window.check_valid() {
            assert(action_views(actions@) =~= Seq::empty());
            return actions;
        }
        match event {
            ToplevelEvent::Configure { width, height } => {
                match window_table_get_mut(&mut self.windows, window) {
                    Some(w) => {
                        let size = Size::resolve(width, height);
                        push_window_actions(&mut actions, window, &w.resize(size.width, size.height));
                    },
                    None => {},
                }
            },
            ToplevelEvent::Close => {
                if window_table_remove(&mut self.windows, window).is_some() {
                    push_action(&mut actions, Action::Window { window, action: WindowAction::DestroyToplevel });
                    if self.mouse_focused_window == Some(window) {
                        self.mouse_focused_window = None;
                    }
                    if self.keyboard_focused_window == Some(window) {
                        self.keyboard_focused_window = None;
                    }
                    self.quit_requested = self.quit_requested || window_table_len(&self.windows) == 0;
                }
            },
            _ => {},
        }
        assert(self@ =~= toplevel_step(old(self)@, window, event).0);
        assert(action_views(actions@) =~= toplevel_step(old(self)@, window, event).1);
        actions
    }

    /// Handles an event of the window-management base.
    pub fn wm_base_event(&self, event: WmBaseEvent) -> (actions: Vec<Action>)
        ensures
            action_views(actions@) == wm_base_step(self@, event).1,
    {
        let WmBaseEvent::Ping { serial } = event;
        let mut actions: Vec<Action> = Vec::new();
        push_action(&mut actions, Action::Pong { serial });
        assert(action_views(actions@) =~= wm_base_step(self@, event).1);
        actions
    }

    /// Tells whether the window table holds the window.
    pub fn has_window(&self, window: WaylandWindowId) -> (held: bool)
        requires
            self.wf(),
        ensures
            held == self@.windows.contains_key(window),
    {
        window.check_valid() && window_table_get(&self.windows, window).is_some()
    }

    /// Handles an event of a seat.
    pub fn seat_event(&mut self, seat: WaylandSeatId, event: SeatEvent) -> (actions: Vec<Action>)
        requires
            old(self).wf(),
        ensures
            final(self).wf(),
            final(self)@ == seat_step(old(self)@, seat, event).0,
            action_views(actions@) == seat_step(old(self)@, seat, event).1,
    {
        let mut actions: Vec<Action> = Vec::new();
        if !seat.check_valid() {
            assert(action_views(actions@) =~= Seq::empty());
            return actions;
        }
        match event {
            SeatEvent::Capabilities { capabilities } => {
                match seat_table_get_mut(&mut self.seats, seat) {
                    Some(s) => {
                        if capabilities & CAPABILITY_KEYBOARD == CAPABILITY_KEYBOARD {
                            if !s.keyboard_bound {
                                push_action(&mut actions, Action::GetKeyboard { seat });
                            }
                            s.keyboard_bound = true;
                        }
                        if capabilities & CAPABILITY_POINTER == CAPABILITY_POINTER {
                            if !s.pointer_bound {
                                push_action(&mut actions, Action::GetPointer { seat });
                            }
                            s.pointer_bound = true;
                        }
                    },
                    None => {},
                }
            },
            SeatEvent::Name => {},
        }
        assert(self@ =~= seat_step(old(self)@, seat, event).0);
        assert(action_views(actions@) =~= seat_step(old(self)@, seat, event).1);
        actions
    }

    /// Handles an event of a seat's keyboard.
    pub fn keyboard_event(&mut self, seat: WaylandSeatId, event: KeyboardEvent) -> (r: Result<
        Vec<Action>,
        ClientError,
    >)
        requires
            old(self).wf(),
        ensures
            final(self).wf(),
            match keyboard_step(old(self)@, seat, event) {
                Ok((m, actions)) => final(self)@ == m && r is Ok && action_views(r->Ok_0@) == actions,
                Err(e) => final(self)@ == old(self)@ && r == Err::<Vec<Action>, ClientError>(e),
            },
    {
        let mut actions: Vec<Action> = Vec::new();
        assert(action_views(actions@) =~= Seq::empty());
        if !seat.check_valid() {
            return Ok(actions);
        }
        let focus = self.keyboard_focused_window;
        let ghost pre = self@;
        match event {
            KeyboardEvent::Keymap { format, compiled } => {
                match seat_table_get_mut(&mut self.seats, seat) {
                    Some(s) => {
                        match format {
                            KeymapFormat::XkbV1 => {},
                            KeymapFormat::NoKeymap => {
                                assert(self@ =~= pre);
                                return Err(ClientError::UnsupportedKeymapFormat);
                            },
                        }
                        if !compiled {
                            assert(self@ =~= pre);
                            return Err(ClientError::InvalidKeymap);
                        }
                        s.keymap_installed = true;
                    },
                    None => {},
                }
            },
            KeyboardEvent::Enter { window } => {
                let seat_known = seat_table_get_mut(&mut self.seats, seat).is_some();
                if seat_known && self.has_window(window) {
                    self.keyboard_focused_window = Some(window);
                }
            },
            KeyboardEvent::Modifiers { depressed, latched, locked, group, active } => {
                match seat_table_get_mut(&mut self.seats, seat) {
                    Some(s) => {
                        if !s.keymap_installed {
                            assert(self@ =~= pre);
                            return Err(ClientError::KeymapMissing);
                        }
                        s.masks = ModifierMasks { depressed, latched, locked, group };
                        s.modifiers = active;
                    },
                    None => {},
                }
            },
            KeyboardEvent::Key { key, state, sym_name, utf32, utf8 } => {
                match seat_table_get_mut(&mut self.seats, seat) {
                    Some(s) => {
                        if !s.keymap_installed {
                            assert(self@ =~= pre);
                            return Err(ClientError::KeymapMissing);
                        }
                        if keycode_from_scancode(key).is_some() {
                            match focus {
                                Some(window) => {
                                    let keystroke = Keystroke::resolve(s.modifiers, sym_name.as_str(), utf32, utf8);
                                    let input = match state {
                                        KeyState::Pressed => PlatformInput::KeyDown { keystroke, is_held: false },
                                        KeyState::Released => PlatformInput::KeyUp { keystroke },
                                    };
                                    push_action(&mut actions, Action::Input { window, input });
                                },
                                None => {},
                            }
                        }
                    },
                    None => {},
                }
            },
            _ => {},
        }
        assert(self@ =~= keyboard_step(pre, seat, event)->Ok_0.0);
        assert(action_views(actions@) =~= keyboard_step(pre, seat, event)->Ok_0.1);
        Ok(actions)
    }

    /// Handles an event of a seat's pointer.
    pub fn pointer_event(&mut self, seat: WaylandSeatId, event: PointerEvent) -> (actions: Vec<Action>)
        requires
            old(self).wf(),
        ensures
            final(self).wf(),
            final(self)@ == pointer_step(old(self)@, seat, event).0,
            action_views(actions@) == pointer_step(old(self)@, seat, event).1,
    {
        let mut actions: Vec<Action> = Vec::new();
        assert(action_views(actions@) =~= Seq::empty());
        if !seat.check_valid() {
            return actions;
        }
        let ghost pre = self@;
        let focus = self.mouse_focused_window;
        let location = self.mouse_location;
        let pressed = self.button_pressed;
        match event {
            PointerEvent::Enter { window, x, y } => {
                let seat_known = seat_table_get_mut(&mut self.seats, seat).is_some();
                if seat_known {
                    if self.has_window(window) {
                        self.mouse_focused_window = Some(window);
                    }
                    self.mouse_location = Some(SurfacePoint { x, y });
                }
            },
            PointerEvent::Leave => {
                let seat_known = seat_table_get_mut(&mut self.seats, seat).is_some();
                if seat_known {
                    match focus {
                        Some(window) => {
                            push_action(
                                &mut actions,
                                Action::Input {
                                    window,
                                    input: PlatformInput::MouseMove {
                                        position: SurfacePoint::origin(),
                                        pressed_button: None,
                                        modifiers: Modifiers::none(),
                                    },
                                },
                            );
                        },
                        None => {},
                    }
                    self.mouse_focused_window = None;
                    self.mouse_location = None;
                }
            },
            PointerEvent::Motion { x, y } => {
                match seat_table_get_mut(&mut self.seats, seat) {
                    Some(s) => {
                        let position = SurfacePoint { x, y };
                        self.mouse_location = Some(position);
                        match focus {
                            Some(window) => {
                                push_action(
                                    &mut actions,
                                    Action::Input {
                                        window,
                                        input: PlatformInput::MouseMove {
                                            position,
                                            pressed_button: pressed,
                                            modifiers: s.modifiers,
                                        },
                                    },
                                );
                            },
                            None => {},
                        }
                    },
                    None => {},
                }
            },
            PointerEvent::Button { button, state } => {
                match seat_table_get_mut(&mut self.seats, seat) {
                    Some(s) => {
                        match (focus, location) {
                            (Some(window), Some(position)) => {
                                if known_button(button) {
                                    let button = linux_button_to_gpui(button);
                                    match state {
                                        ButtonState::Pressed => {
                                            self.button_pressed = Some(button);
                                            push_action(
                                                &mut actions,
                                                Action::Input {
                                                    window,
                                                    input: PlatformInput::MouseDown {
                                                        button,
                                                        position,
                                                        modifiers: s.modifiers,
                                                        click_count: 1,
                                                    },
                                                },
                                            );
                                        },
                                        ButtonState::Released => {
                                            self.button_pressed = None;
                                            push_action(
                                                &mut actions,
                                                Action::Input {
                                                    window,
                                                    input: PlatformInput::MouseUp {
                                                        button,
                                                        position,
                                                        modifiers: Modifiers::none(),
                                                        click_count: 1,
                                                    },
                                                },
                                            );
                                        },
                                    }
                                }
                            },
                            _ => {},
                        }
                    },
                    None => {},
                }
            },
            PointerEvent::AxisRelativeDirection { direction } => {
                match seat_table_get_mut(&mut self.seats, seat) {
                    Some(s) => {
                        s.set_scroll_direction(direction);
                    },
                    None => {},
                }
            },
            PointerEvent::Axis { axis, value } => {
                match seat_table_get_mut(&mut self.seats, seat) {
                    Some(s) => {
                        match (focus, location) {
                            (Some(window), Some(position)) => {
                                let distance = s.scroll_distance(value);
                                let delta = match axis {
                                    Axis::VerticalScroll => ScrollDelta { x: 0, y: distance },
                                    Axis::HorizontalScroll => ScrollDelta { x: distance, y: 0 },
                                };
                                push_action(
                                    &mut actions,
                                    Action::Input {
                                        window,
                                        input: PlatformInput::ScrollWheel {
                                            position,
                                            delta,
                                            modifiers: s.modifiers,
                                            touch_phase: TouchPhase::Started,
                                        },
                                    },
                                );
                            },
                            _ => {},
                        }
                    },
                    None => {},
                }
            },
            PointerEvent::Frame => {},
        }
        assert(self@ =~= pointer_step(pre, seat, event).0);
        assert(action_views(actions@) =~= pointer_step(pre, seat, event).1);
        actions
    }

    /// Whether the last window has been closed and the application is to
    /// quit.
    pub fn quit_requested(&self) -> (quit: bool)
        ensures
            quit == self@.quit_requested,
    {
        self.quit_requested
    }

    /// The number of open windows.
    pub fn window_count(&self) -> (count: usize)
        ensures
            count == self@.windows.dom().len(),
    {
        window_table_len(&self.windows)
    }

    /// The state of a window, if the window table holds it.
    pub fn window(&self, window: WaylandWindowId) -> (state: Option<WaylandWindowState>)
        requires
            self.wf(),
        ensures
            state == (if self@.windows.contains_key(window) {
                Some(self@.windows[window])
            } else {
                None
            }),
    {
        if !window.check_valid() {
            return None;
        }
        match window_table_get(&self.windows, window) {
            Some(state) => Some(*state),
            None => None,
        }
    }

    /// The state of a seat, if the seat table holds it.
    pub fn seat(&self, seat: WaylandSeatId) -> (state: Option<WaylandSeatState>)
        requires
            self.wf(),
        ensures
            state == (if self@.seats.contains_key(seat) {
                Some(self@.seats[seat])
            } else {
                None
            }),
    {
        if !seat.check_valid() {
            return None;
        }
        match seat_table_get(&self.seats, seat) {
            Some(state) => Some(*state),
            None => None,
        }
    }

    /// The window the pointer is over.
    pub fn mouse_focused_window(&self) -> (window: Option<WaylandWindowId>)
        ensures
            window == self@.mouse_focused_window,
    {
        self.mouse_focused_window
    }

    /// The window that has the keyboard.
    pub fn keyboard_focused_window(&self) -> (window: Option<WaylandWindowId>)
        ensures
            window == self@.keyboard_focused_window,
    {
        self.keyboard_focused_window
    }

    /// The pointer's cached location.
    pub fn mouse_location(&self) -> (location: Option<SurfacePoint>)
        ensures
            location == self@.mouse_location,
    {
        self.mouse_location
    }

    /// The button recorded as pressed.
    pub fn button_pressed(&self) -> (button: Option<MouseButton>)
        ensures
            button == self@.button_pressed,
    {
        self.button_pressed
    }

    /// Handles an event of the registry.
    pub fn registry_event(&mut self, event: RegistryEvent) -> (r: Result<Vec<Action>, ClientError>)
        requires
            old(self).wf(),
        ensures
            final(self).wf(),
            registry_post(old(self)@, event, final(self)@, result_views(r)),
    {
        let mut actions: Vec<Action> = Vec::new();
        assert(action_views(actions@) =~= Seq::empty());
        match event {
            RegistryEvent::Global { name, interface, version } => {
                if is_seat_interface(&interface) {
                    if seat_table_len(&self.seats) >= SLOT_LIMIT {
                        return Err(ClientError::SeatTableFull);
                    }
                    let seat = seat_table_insert(&mut self.seats, WaylandSeatState::new());
                    push_action(&mut actions, Action::BindSeat { name, version: SEAT_VERSION, seat });
                    assert(self@ =~= old(self)@.with_seat(seat, crate::seat::fresh_seat()));
                }
            },
            RegistryEvent::GlobalRemove { name } => {},
        }
        Ok(actions)
    }

    /// Handles an event of a window's surface: nothing is to be done.
    pub fn surface_event(&self, window: WaylandWindowId, event: SurfaceEvent) -> (actions: Vec<Action>)
        ensures
            action_views(actions@) == Seq::<ActionView>::empty(),
    {
        let actions: Vec<Action> = Vec::new();
        assert(action_views(actions@) =~= Seq::empty());
        actions
    }

    /// Handles a protocol event: updates the state and returns what the
    /// caller is to do, in order. An error means that the client cannot go
    /// on; the state is then as it was.
    pub fn event(&mut self, event: Event) -> (r: Result<Vec<Action>, ClientError>)
        requires
            old(self).wf(),
        ensures
            final(self).wf(),
            event_post(old(self)@, event, final(self)@, result_views(r)),
    {
        match event {
            Event::Registry(e) => self.registry_event(e),
            Event::Surface(window, e) => Ok(self.surface_event(window, e)),
            Event::Callback(window, e) => Ok(self.callback_event(window, e)),
            Event::XdgSurface(window, e) => Ok(self.xdg_surface_event(window, e)),
            Event::Toplevel(window, e) => Ok(self.toplevel_event(window, e)),
            Event::WmBase(e) => Ok(self.wm_base_event(e)),
            Event::Seat(seat, e) => Ok(self.seat_event(seat, e)),
            Event::Keyboard(seat, e) => self.keyboard_event(seat, e),
            Event::Pointer(seat, e) => Ok(self.pointer_event(seat, e)),
        }
    }
}

/// The client as the platform holds it.
pub struct WaylandClient {
    pub state: WaylandClientState,
}

/// A display. This backend knows of none.
#[derive(Clone, Copy, Debug, PartialEq, Eq, Structural)]
pub struct WaylandDisplay {}

/// The id of a display.
#[derive(Clone, Copy, Debug, PartialEq, Eq, Structural)]
pub struct DisplayId(pub u32);

/// The handle of an open window.
#[derive(Clone, Copy, Debug, PartialEq, Eq, Structural)]
pub struct WaylandWindow {
    pub id: WaylandWindowId,
}

/// The result of `WaylandClient::new` as the model states it.
pub open spec fn startup_views(result: Result<(WaylandClient, Vec<Action>), ClientError>) -> Result<
    (ClientModel, Seq<ActionView>),
    ClientError,
> {
    match result {
        Ok((client, actions)) => Ok((client.state@, action_views(actions@))),
        Err(error) => Err(error),
    }
}

/// The result of `WaylandClient::open_window` as the model states it.
pub open spec fn opened_views(result: Result<(WaylandWindow, Vec<Action>), ClientError>) -> Result<
    (WaylandWindowId, Seq<ActionView>),
    ClientError,
> {
    match result {
        Ok((window, actions)) => Ok((window.id, action_views(actions@))),
        Err(error) => Err(error),
    }
}

impl WaylandClient {
    /// Starts the client from the globals the compositor advertises and the
    /// outcome of binding the two globals it cannot do without.
    pub fn new(globals: Vec<Global>, compositor: BindOutcome, wm_base: BindOutcome) -> (r: Result<
        (WaylandClient, Vec<Action>),
        ClientError,
    >)
        ensures
            startup_post(globals@, compositor, wm_base, startup_views(r)),
    {
        match compositor {
            BindOutcome::Failed(failure) => {
                return Err(ClientError::CompositorUnavailable(failure));
            },
            BindOutcome::Bound => {},
        }
        match wm_base {
            BindOutcome::Failed(failure) => {
                return Err(ClientError::WmBaseUnavailable(failure));
            },
            BindOutcome::Bound => {},
        }
        let mut state = WaylandClientState::new();
        let mut actions: Vec<Action> = Vec::new();
        assert(action_views(actions@) =~= Seq::empty());
        assert(globals@.take(0) =~= Seq::empty());
        let mut i: usize = 0;
        while i < globals.len()
            invariant
                i <= globals.len(),
                compositor == BindOutcome::Bound,
                wm_base == BindOutcome::Bound,
                state.wf(),
                state@ == (ClientModel { seats: state@.seats, ..initial_model() }),
                seat_names(globals@.take(i as int)).len() <= SLOT_LIMIT,
                binds_seats(seat_names(globals@.take(i as int)), state@.seats, action_views(actions@)),
            decreases globals.len() - i,
        {
            proof {
                assert(globals@.take(i + 1).drop_last() =~= globals@.take(i as int));
                assert(globals@.take(i + 1).last() == globals@[i as int]);
                lemma_seat_names_grow(globals@, i + 1);
            }
            if is_seat_interface(&globals[i].interface) {
                if seat_table_len(&state.seats) >= SLOT_LIMIT {
                    proof {
                        lemma_seat_names_prefix(globals@, i + 1);
                    }
                    return Err(ClientError::SeatTableFull);
                }
                let ghost before = state@;
                let ghost bound = action_views(actions@);
                let seat = seat_table_insert(&mut state.seats, WaylandSeatState::new());
                push_action(&mut actions, Action::BindSeat { name: globals[i].name, version: SEAT_VERSION, seat });
                proof {
                    assert(state@ =~= before.with_seat(seat, fresh_seat()));
                    assert forall|j: int| 0 <= j < bound.len() implies bound_seat(#[trigger] bound[j]) != seat by {
                        assert(before.seats.contains_key(bound_seat(bound[j])));
                    }
                }
            }
            i = i + 1;
        }
        assert(globals@.take(i as int) =~= globals@);
        Ok((WaylandClient { state }, actions))
    }

    /// The displays: none.
    pub fn displays(&self) -> (displays: Vec<WaylandDisplay>)
        ensures
            displays@.len() == 0,
    {
        Vec::new()
    }

    /// The display with the given id: there is none.
    pub fn display(&self, id: DisplayId) -> (display: Option<WaylandDisplay>)
        ensures
            display is None,
    {
        None
    }

    /// Opens a window: enters it into the window table and asks for its
    /// protocol objects to be created, in order.
    pub fn open_window(&mut self, options: WindowOptions) -> (r: Result<(WaylandWindow, Vec<Action>), ClientError>)
        requires
            old(self).state.wf(),
        ensures
            final(self).state.wf(),
            open_window_post(old(self).state@, options, final(self).state@, opened_views(r)),
    {
        if window_table_len(&self.state.windows) >= SLOT_LIMIT {
            return Err(ClientError::WindowTableFull);
        }
        let (window_state, setup) = WaylandWindowState::new(options);
        let window = window_table_insert(&mut self.state.windows, window_state);
        let mut actions: Vec<Action> = Vec::new();
        assert(action_views(actions@) =~= Seq::empty());
        push_action(&mut actions, Action::Window { window, action: WindowAction::CreateSurface });
        push_action(&mut actions, Action::Window { window, action: WindowAction::CreateShellSurface });
        push_action(&mut actions, Action::Window { window, action: WindowAction::CreateToplevel });
        push_action(&mut actions, Action::Window { window, action: WindowAction::Commit });
        push_window_actions(&mut actions, window, &setup);
        assert(self.state@ =~= old(self).state@.with_window(window, new_window(options)));
        assert(action_views(actions@) =~= open_window_actions(window, options));
        Ok((WaylandWindow { id: window }, actions))
    }
}

impl WaylandWindow {
    /// The bounds the window reports: always maximized.
    pub fn bounds(&self) -> (bounds: WindowBounds)
        ensures
            bounds == WindowBounds::Maximized,
    {
        WindowBounds::Maximized
    }

    /// The size of the window's content, while the window is open.
    pub fn content_size(&self, client: &WaylandClient) -> (size: Option<Size>)
        requires
            client.state.wf(),
        ensures
            size == (if client.state@.windows.contains_key(self.id) {
                Some(client.state@.windows[self.id].bounds.size)
            } else {
                None
            }),
    {
        match client.state.window(self.id) {
            Some(state) => Some(state.content_size()),
            None => None,
        }
    }

    /// The window's scale factor.
    pub fn scale_factor(&self) -> (factor: u32)
        ensures
            factor == SCALE_FACTOR,
    {
        SCALE_FACTOR
    }
}

/// The seat globals among the first `n` globals are those among the first
/// `n - 1`, and the last of them if it is a seat global.
proof fn lemma_seat_names_grow(globals: Seq<Global>, n: int)
    requires
        0 < n <= globals.len(),
    ensures
        seat_names(globals.take(n)) == (if globals[n - 1].interface@ == crate::protocol::seat_interface() {
            seat_names(globals.take(n - 1)).push(globals[n - 1].name)
        } else {
            seat_names(globals.take(n - 1))
        }),
{
    assert(globals.take(n).drop_last() =~= globals.take(n - 1));
    assert(globals.take(n).last() == globals[n - 1]);
}

/// A prefix of the globals holds no more seat globals than all of them.
proof fn lemma_seat_names_prefix(globals: Seq<Global>, n: int)
    requires
        0 <= n <= globals.len(),
    ensures
        seat_names(globals.take(n)).len() <= seat_names(globals).len(),
    decreases globals.len() - n,
{
    if n == globals.len() {
        assert(globals.take(n) =~= globals);
    } else {
        lemma_seat_names_grow(globals, n + 1);
        lemma_seat_names_prefix(globals, n + 1);
    }
}

} // verus!
