use gpui_wayland::client::{DisplayId, WaylandClient, WaylandWindow};
use gpui_wayland::error::{BindFailure, BindOutcome, ClientError};
use gpui_wayland::geometry::{Bounds, Extent, Point, Size, WindowBounds, WindowOptions};
use gpui_wayland::input::{Keystroke, ModifierMasks, Modifiers, MouseButton, PlatformInput};
use gpui_wayland::geometry::SurfacePoint;
use gpui_wayland::protocol::{
    Action, CallbackEvent, Event, Global, RegistryEvent, SurfaceEvent, ToplevelEvent, WindowAction,
    WmBaseEvent, XdgSurfaceEvent,
};
use gpui_wayland::table::WaylandWindowId;
use gpui_wayland::window::WaylandWindowState;

fn started() -> WaylandClient {
    match WaylandClient::new(Vec::new(), BindOutcome::Bound, BindOutcome::Bound) {
        Ok((client, actions)) => {
            assert!(actions.is_empty());
            client
        }
        Err(error) => panic!("the client did not start: {:?}", error),
    }
}

fn fixed(width: i32, height: i32) -> WindowOptions {
    WindowOptions {
        bounds: WindowBounds::Fixed(Bounds { origin: Point { x: 10, y: 20 }, size: Size { width, height } }),
    }
}

fn open(client: &mut WaylandClient, options: WindowOptions) -> (WaylandWindow, Vec<Action>) {
    match client.open_window(options) {
        Ok(opened) => opened,
        Err(error) => panic!("the window did not open: {:?}", error),
    }
}

fn for_window(window: WaylandWindowId, action: WindowAction) -> Action {
    Action::Window { window, action }
}

#[test]
fn open_window_with_fixed_bounds_creates_objects_in_order() {
    let mut client = started();
    let (window, actions) = open(&mut client, fixed(800, 600));
    let id = window.id;
    assert_eq!(
        actions,
        vec![
            for_window(id, WindowAction::CreateSurface),
            for_window(id, WindowAction::CreateShellSurface),
            for_window(id, WindowAction::CreateToplevel),
            for_window(id, WindowAction::Commit),
            for_window(id, WindowAction::InitRenderer { extent: Extent { width: 800, height: 600, depth: 1 } }),
        ]
    );
    assert_eq!(client.state.window_count(), 1);
    assert_eq!(
        client.state.window(id),
        Some(WaylandWindowState {
            bounds: Bounds { origin: Point { x: 10, y: 20 }, size: Size { width: 800, height: 600 } },
            frame_callback_requested: false,
        })
    );
    assert_eq!(window.content_size(&client), Some(Size { width: 800, height: 600 }));
    assert_eq!(window.scale_factor(), 1);
    assert_eq!(window.bounds(), WindowBounds::Maximized);
}

#[test]
fn open_window_maximized_sends_request_and_uses_placeholder() {
    let mut client = started();
    let (window, actions) = open(&mut client, WindowOptions { bounds: WindowBounds::Maximized });
    let id = window.id;
    assert_eq!(
        actions,
        vec![
            for_window(id, WindowAction::CreateSurface),
            for_window(id, WindowAction::CreateShellSurface),
            for_window(id, WindowAction::CreateToplevel),
            for_window(id, WindowAction::Commit),
            for_window(id, WindowAction::SetMaximized),
            for_window(id, WindowAction::InitRenderer { extent: Extent { width: 500, height: 500, depth: 1 } }),
        ]
    );
    assert_eq!(window.content_size(&client), Some(Size { width: 500, height: 500 }));
    assert_eq!(client.state.window(id).map(|w| w.bounds.origin), Some(Point { x: 0, y: 0 }));
}

#[test]
fn open_window_fullscreen_sends_request_and_uses_placeholder() {
    let mut client = started();
    let (window, actions) = open(&mut client, WindowOptions { bounds: WindowBounds::Fullscreen });
    let id = window.id;
    assert_eq!(actions.len(), 6);
    assert_eq!(actions[4], for_window(id, WindowAction::SetFullscreen));
    assert_eq!(
        actions[5],
        for_window(id, WindowAction::InitRenderer { extent: Extent { width: 500, height: 500, depth: 1 } })
    );
    assert_eq!(window.content_size(&client), Some(Size { width: 500, height: 500 }));
}

#[test]
fn windows_get_distinct_ids() {
    let mut client = started();
    let (first, _) = open(&mut client, fixed(1, 1));
    let (second, _) = open(&mut client, fixed(2, 2));
    assert_ne!(first.id, second.id);
    assert!(first.id.check_valid());
    assert!(second.id.check_valid());
    assert_eq!(client.state.window_count(), 2);
    assert_eq!(first.content_size(&client), Some(Size { width: 1, height: 1 }));
    assert_eq!(second.content_size(&client), Some(Size { width: 2, height: 2 }));
    assert!(client.state.has_window(first.id));
    assert!(client.state.has_window(second.id));
}

#[test]
fn scenario_configure_acks_then_requests_frame_then_commits() {
    let mut client = started();
    let (window, _) = open(&mut client, fixed(800, 600));
    let id = window.id;
    let actions = client.state.event(Event::XdgSurface(id, XdgSurfaceEvent::Configure { serial: 7 }));
    assert_eq!(
        actions,
        Ok(vec![
            for_window(id, WindowAction::AckConfigure { serial: 7 }),
            for_window(id, WindowAction::RequestFrame),
            for_window(id, WindowAction::NotifyFrame),
            for_window(id, WindowAction::Commit),
        ])
    );
    assert_eq!(client.state.window(id).map(|w| w.frame_callback_requested), Some(true));
}

#[test]
fn second_configure_does_not_request_another_frame() {
    let mut client = started();
    let (window, _) = open(&mut client, fixed(800, 600));
    let id = window.id;
    let _ = client.state.event(Event::XdgSurface(id, XdgSurfaceEvent::Configure { serial: 7 }));
    let actions = client.state.event(Event::XdgSurface(id, XdgSurfaceEvent::Configure { serial: 8 }));
    assert_eq!(
        actions,
        Ok(vec![
            for_window(id, WindowAction::AckConfigure { serial: 8 }),
            for_window(id, WindowAction::NotifyFrame),
            for_window(id, WindowAction::Commit),
        ])
    );
    assert_eq!(client.state.window(id).map(|w| w.frame_callback_requested), Some(true));
}

#[test]
fn frame_done_rearms_draws_and_commits() {
    let mut client = started();
    let (window, _) = open(&mut client, fixed(800, 600));
    let id = window.id;
    let _ = client.state.event(Event::XdgSurface(id, XdgSurfaceEvent::Configure { serial: 1 }));
    let actions = client.state.event(Event::Callback(id, CallbackEvent::Done { callback_data: 99 }));
    assert_eq!(
        actions,
        Ok(vec![
            for_window(id, WindowAction::RequestFrame),
            for_window(id, WindowAction::NotifyFrame),
            for_window(id, WindowAction::Commit),
        ])
    );
    assert_eq!(client.state.window(id).map(|w| w.frame_callback_requested), Some(true));
    let again = client.state.event(Event::XdgSurface(id, XdgSurfaceEvent::Configure { serial: 2 }));
    assert_eq!(again.map(|a| a.len()), Ok(3));
}

#[test]
fn scenario_zero_size_configure_applies_fallback() {
    let mut client = started();
    let (window, _) = open(&mut client, fixed(800, 600));
    let id = window.id;
    let actions = client.state.event(Event::Toplevel(id, ToplevelEvent::Configure { width: 0, height: 0 }));
    let fallback = Size { width: 1280, height: 720 };
    assert_eq!(
        actions,
        Ok(vec![
            for_window(id, WindowAction::ResizeRenderer { size: fallback }),
            for_window(id, WindowAction::NotifyResize { size: fallback, scale_factor: 1 }),
            for_window(id, WindowAction::NotifyMoved),
        ])
    );
    assert_eq!(window.content_size(&client), Some(fallback));
    assert_eq!(client.state.window(id).map(|w| w.bounds.origin), Some(Point { x: 10, y: 20 }));
}

#[test]
fn configure_with_one_zero_dimension_applies_fallback() {
    let mut client = started();
    let (window, _) = open(&mut client, fixed(800, 600));
    let id = window.id;
    let _ = client.state.event(Event::Toplevel(id, ToplevelEvent::Configure { width: 640, height: 0 }));
    assert_eq!(window.content_size(&client), Some(Size { width: 1280, height: 720 }));
    let _ = client.state.event(Event::Toplevel(id, ToplevelEvent::Configure { width: 0, height: 480 }));
    assert_eq!(window.content_size(&client), Some(Size { width: 1280, height: 720 }));
}

#[test]
fn configure_with_a_size_applies_it() {
    let mut client = started();
    let (window, _) = open(&mut client, fixed(800, 600));
    let id = window.id;
    let size = Size { width: 1024, height: 768 };
    let actions = client.state.event(Event::Toplevel(id, ToplevelEvent::Configure { width: 1024, height: 768 }));
    assert_eq!(
        actions,
        Ok(vec![
            for_window(id, WindowAction::ResizeRenderer { size }),
            for_window(id, WindowAction::NotifyResize { size, scale_factor: 1 }),
            for_window(id, WindowAction::NotifyMoved),
        ])
    );
    assert_eq!(window.content_size(&client), Some(size));
}

#[test]
fn size_resolution_formula() {
    assert_eq!(Size::resolve(0, 0), Size { width: 1280, height: 720 });
    assert_eq!(Size::resolve(0, 7), Size { width: 1280, height: 720 });
    assert_eq!(Size::resolve(7, 0), Size { width: 1280, height: 720 });
    assert_eq!(Size::resolve(7, 9), Size { width: 7, height: 9 });
    assert_eq!(Size::resolve(-3, 9), Size { width: -3, height: 9 });
}

#[test]
fn extent_reinterprets_each_dimension_as_unsigned() {
    assert_eq!(Size { width: 800, height: 600 }.extent(), Extent { width: 800, height: 600, depth: 1 });
    assert_eq!(Size { width: -1, height: 0 }.extent(), Extent { width: u32::MAX, height: 0, depth: 1 });
}

#[test]
fn close_removes_window_and_requests_quit_when_last() {
    let mut client = started();
    let (first, _) = open(&mut client, fixed(1, 1));
    let (second, _) = open(&mut client, fixed(2, 2));
    let actions = client.state.event(Event::Toplevel(first.id, ToplevelEvent::Close));
    assert_eq!(actions, Ok(vec![for_window(first.id, WindowAction::DestroyToplevel)]));
    assert_eq!(client.state.window_count(), 1);
    assert_eq!(client.state.window(first.id), None);
    assert!(!client.state.has_window(first.id));
    assert!(client.state.has_window(second.id));
    assert!(!client.state.quit_requested());
    let actions = client.state.event(Event::Toplevel(second.id, ToplevelEvent::Close));
    assert_eq!(actions, Ok(vec![for_window(second.id, WindowAction::DestroyToplevel)]));
    assert_eq!(client.state.window_count(), 0);
    assert!(client.state.quit_requested());
}

#[test]
fn events_for_a_closed_window_are_dropped() {
    let mut client = started();
    let (first, _) = open(&mut client, fixed(1, 1));
    let (second, _) = open(&mut client, fixed(2, 2));
    let _ = client.state.event(Event::Toplevel(first.id, ToplevelEvent::Close));
    assert_eq!(client.state.event(Event::Toplevel(first.id, ToplevelEvent::Close)), Ok(vec![]));
    assert_eq!(
        client.state.event(Event::Toplevel(first.id, ToplevelEvent::Configure { width: 5, height: 5 })),
        Ok(vec![])
    );
    assert_eq!(client.state.event(Event::XdgSurface(first.id, XdgSurfaceEvent::Configure { serial: 3 })), Ok(vec![]));
    assert_eq!(client.state.event(Event::Callback(first.id, CallbackEvent::Done { callback_data: 0 })), Ok(vec![]));
    assert_eq!(client.state.window_count(), 1);
    assert!(!client.state.quit_requested());
    assert_eq!(second.content_size(&client), Some(Size { width: 2, height: 2 }));
    assert_eq!(first.content_size(&client), None);
}

#[test]
fn a_close_for_an_unknown_window_does_not_request_quit() {
    let mut client = started();
    let unknown = WaylandWindowId { raw: (1u64 << 32) | 1 };
    assert_eq!(client.state.event(Event::Toplevel(unknown, ToplevelEvent::Close)), Ok(vec![]));
    assert!(!client.state.quit_requested());
    let malformed = WaylandWindowId { raw: 1 };
    assert!(!malformed.check_valid());
    assert_eq!(client.state.event(Event::Toplevel(malformed, ToplevelEvent::Close)), Ok(vec![]));
    assert_eq!(client.state.window(malformed), None);
    assert!(!client.state.quit_requested());
}

#[test]
fn a_window_opened_after_a_close_is_a_different_window() {
    let mut client = started();
    let (first, _) = open(&mut client, fixed(1, 1));
    let _ = client.state.event(Event::Toplevel(first.id, ToplevelEvent::Close));
    let (second, _) = open(&mut client, fixed(2, 2));
    assert_ne!(first.id, second.id);
    assert_eq!(first.content_size(&client), None);
    assert_eq!(second.content_size(&client), Some(Size { width: 2, height: 2 }));
    assert!(client.state.quit_requested());
    assert_eq!(client.state.window_count(), 1);
}

#[test]
fn ignored_toplevel_and_surface_events_change_nothing() {
    let mut client = started();
    let (window, _) = open(&mut client, fixed(800, 600));
    let id = window.id;
    let before = client.state.window(id);
    assert_eq!(
        client.state.event(Event::Toplevel(id, ToplevelEvent::ConfigureBounds { width: 0, height: 0 })),
        Ok(vec![])
    );
    assert_eq!(client.state.event(Event::Toplevel(id, ToplevelEvent::WmCapabilities)), Ok(vec![]));
    assert_eq!(client.state.event(Event::Surface(id, SurfaceEvent::Enter)), Ok(vec![]));
    assert_eq!(client.state.event(Event::Surface(id, SurfaceEvent::Leave)), Ok(vec![]));
    assert_eq!(client.state.event(Event::Surface(id, SurfaceEvent::PreferredBufferScale { factor: 2 })), Ok(vec![]));
    assert_eq!(client.state.event(Event::Surface(id, SurfaceEvent::PreferredBufferTransform)), Ok(vec![]));
    assert_eq!(client.state.event(Event::Registry(RegistryEvent::GlobalRemove { name: 4 })), Ok(vec![]));
    assert_eq!(client.state.window(id), before);
}

#[test]
fn ping_is_answered_with_the_same_serial() {
    let mut client = started();
    assert_eq!(client.state.event(Event::WmBase(WmBaseEvent::Ping { serial: 41 })), Ok(vec![Action::Pong { serial: 41 }]));
    assert_eq!(client.state.event(Event::WmBase(WmBaseEvent::Ping { serial: 0 })), Ok(vec![Action::Pong { serial: 0 }]));
}

#[test]
fn window_operations_ask_for_callbacks_in_order() {
    let (mut state, setup) = WaylandWindowState::new(fixed(30, 40));
    assert_eq!(setup, vec![WindowAction::InitRenderer { extent: Extent { width: 30, height: 40, depth: 1 } }]);
    assert_eq!(state.update(), vec![WindowAction::NotifyFrame]);
    assert_eq!(
        state.resize(50, 60),
        vec![
            WindowAction::ResizeRenderer { size: Size { width: 50, height: 60 } },
            WindowAction::NotifyResize { size: Size { width: 50, height: 60 }, scale_factor: 1 },
            WindowAction::NotifyMoved,
        ]
    );
    assert_eq!(state.content_size(), Size { width: 50, height: 60 });
    assert_eq!(state.bounds.origin, Point { x: 10, y: 20 });
    assert_eq!(state.close(), vec![WindowAction::NotifyClose, WindowAction::DestroyToplevel]);
}

#[test]
fn unhandled_key_press_gives_its_text_to_the_input_handler() {
    let (state, _) = WaylandWindowState::new(fixed(30, 40));
    let modifiers = Modifiers::none();
    let key_down = PlatformInput::KeyDown {
        keystroke: Keystroke { modifiers, key: "a".to_string(), ime_key: Some("a".to_string()) },
        is_held: false,
    };
    assert_eq!(state.handle_input(&key_down, false), Some("a".to_string()));
    assert_eq!(state.handle_input(&key_down, true), None);
    let without_text = PlatformInput::KeyDown {
        keystroke: Keystroke { modifiers, key: "escape".to_string(), ime_key: None },
        is_held: false,
    };
    assert_eq!(state.handle_input(&without_text, false), None);
    let key_up = PlatformInput::KeyUp {
        keystroke: Keystroke { modifiers, key: "a".to_string(), ime_key: Some("a".to_string()) },
    };
    assert_eq!(state.handle_input(&key_up, false), None);
    let click = PlatformInput::MouseDown {
        button: MouseButton::Left,
        position: SurfacePoint { x: 0, y: 0 },
        modifiers,
        click_count: 1,
    };
    assert_eq!(state.handle_input(&click, false), None);
}

#[test]
fn startup_fails_without_the_required_globals() {
    let seat = Global { name: 3, interface: "wl_seat".to_string(), version: 7 };
    match WaylandClient::new(vec![seat.clone()], BindOutcome::Failed(BindFailure::NotPresent), BindOutcome::Bound) {
        Err(error) => assert_eq!(error, ClientError::CompositorUnavailable(BindFailure::NotPresent)),
        Ok(_) => panic!("started without a compositor"),
    }
    match WaylandClient::new(
        vec![seat.clone()],
        BindOutcome::Bound,
        BindOutcome::Failed(BindFailure::UnsupportedVersion),
    ) {
        Err(error) => assert_eq!(error, ClientError::WmBaseUnavailable(BindFailure::UnsupportedVersion)),
        Ok(_) => panic!("started without a window-management base"),
    }
    match WaylandClient::new(
        vec![seat],
        BindOutcome::Failed(BindFailure::UnsupportedVersion),
        BindOutcome::Failed(BindFailure::NotPresent),
    ) {
        Err(error) => assert_eq!(error, ClientError::CompositorUnavailable(BindFailure::UnsupportedVersion)),
        Ok(_) => panic!("started without either global"),
    }
}

#[test]
fn startup_binds_each_seat_global_once() {
    let globals = vec![
        Global { name: 1, interface: "wl_compositor".to_string(), version: 5 },
        Global { name: 2, interface: "wl_seat".to_string(), version: 7 },
        Global { name: 3, interface: "xdg_wm_base".to_string(), version: 3 },
        Global { name: 4, interface: "wl_seat".to_string(), version: 7 },
        Global { name: 5, interface: "wl_output".to_string(), version: 4 },
    ];
    let (client, actions) = match WaylandClient::new(globals, BindOutcome::Bound, BindOutcome::Bound) {
        Ok(started) => started,
        Err(error) => panic!("the client did not start: {:?}", error),
    };
    assert_eq!(actions.len(), 2);
    let seats: Vec<_> = actions
        .iter()
        .map(|action| match action {
            Action::BindSeat { name, version, seat } => {
                assert_eq!(*version, 1);
                (*name, *seat)
            }
            other => panic!("unexpected action {:?}", other),
        })
        .collect();
    assert_eq!(seats[0].0, 2);
    assert_eq!(seats[1].0, 4);
    assert_ne!(seats[0].1, seats[1].1);
    for (_, seat) in seats {
        let state = client.state.seat(seat).expect("the seat is in the table");
        assert!(!state.keymap_installed);
        assert!(!state.keyboard_bound);
        assert!(!state.pointer_bound);
        assert_eq!(state.modifiers, Modifiers::none());
        assert_eq!(state.masks, ModifierMasks { depressed: 0, latched: 0, locked: 0, group: 0 });
        assert_eq!(state.scroll_direction, -1);
    }
    assert_eq!(client.state.window_count(), 0);
    assert!(!client.state.quit_requested());
    assert_eq!(client.state.mouse_focused_window(), None);
    assert_eq!(client.state.keyboard_focused_window(), None);
    assert_eq!(client.state.mouse_location(), None);
    assert_eq!(client.state.button_pressed(), None);
}

#[test]
fn errors_describe_themselves() {
    assert_eq!(ClientError::UnsupportedKeymapFormat.message(), "Unsupported keymap format");
    assert_eq!(
        ClientError::CompositorUnavailable(BindFailure::NotPresent).message(),
        "the compositor advertises no wl_compositor"
    );
    assert_eq!(
        ClientError::CompositorUnavailable(BindFailure::UnsupportedVersion).message(),
        "the compositor's wl_compositor is too old"
    );
    assert_eq!(
        ClientError::WmBaseUnavailable(BindFailure::NotPresent).message(),
        "the compositor advertises no xdg_wm_base"
    );
    assert_eq!(
        ClientError::WmBaseUnavailable(BindFailure::UnsupportedVersion).message(),
        "the compositor's xdg_wm_base is too old"
    );
    assert_eq!(ClientError::InvalidKeymap.message(), "the keymap could not be compiled");
    assert_eq!(ClientError::KeymapMissing.message(), "a key or modifier event arrived before any keymap");
    assert_eq!(ClientError::WindowTableFull.message(), "the window table is full");
    assert_eq!(ClientError::SeatTableFull.message(), "the seat table is full");
}

#[test]
fn this_backend_has_no_displays() {
    let client = started();
    assert!(client.displays().is_empty());
    assert_eq!(client.display(DisplayId(0)), None);
    assert_eq!(client.display(DisplayId(7)), None);
}
