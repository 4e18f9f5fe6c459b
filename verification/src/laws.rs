//! What holds of the client for every state and every event.

use vstd::prelude::*;
use crate::error::ClientError;
use crate::geometry::{Size, FALLBACK_HEIGHT, FALLBACK_WIDTH};
use crate::input::{InputView, ModifierMasks, Modifiers, TouchPhase};
use crate::model::{
    callback_step, event_post, keyboard_step, pointer_step, scroll_delta, toplevel_step,
    xdg_surface_step, ClientModel,
};
use crate::protocol::{
    deliver, for_window, ActionView, Axis, CallbackEvent, Event, KeyboardEvent, PointerEvent,
    ToplevelEvent, WindowAction, XdgSurfaceEvent,
};
use crate::table::{WaylandSeatId, WaylandWindowId};

verus! {

/// Every event leaves the invariant of the state in place: the tables stay
/// finite, every seat keeps a multiplier of 1 or -1, and a focus names a
/// window that the table holds.
pub proof fn lemma_event_keeps_invariant(
    pre: ClientModel,
    event: Event,
    post: ClientModel,
    result: Result<Seq<ActionView>, ClientError>,
)
    requires
        pre.wf(),
        event_post(pre, event, post, result),
    ensures
        post.wf(),
{
    match event {
        Event::Toplevel(window, ToplevelEvent::Close) => {
            if pre.windows.contains_key(window) {
                assert(post.windows =~= pre.windows.remove(window));
            }
        },
        _ => {},
    }
}

/// A toplevel configure never leaves a window with a zero width or height:
/// the size applied is the fallback if either dimension of the event is
/// zero, and the event's size otherwise.
pub proof fn lemma_configure_applies_resolved_size(
    m: ClientModel,
    window: WaylandWindowId,
    width: i32,
    height: i32,
)
    requires
        m.windows.contains_key(window),
    ensures
        ({
            let post = toplevel_step(m, window, ToplevelEvent::Configure { width, height }).0;
            let size = post.windows[window].bounds.size;
            &&& post.windows.contains_key(window)
            &&& size.width != 0
            &&& size.height != 0
            &&& (width == 0 || height == 0) ==> size == (Size { width: FALLBACK_WIDTH, height: FALLBACK_HEIGHT })
            &&& (width != 0 && height != 0) ==> size == (Size { width, height })
        }),
{
}

/// Closing a window that the table holds destroys its toplevel, takes
/// exactly that window out of the table, and leaves no focus on it.
pub proof fn lemma_close_removes_one_window(m: ClientModel, window: WaylandWindowId)
    requires
        m.wf(),
        m.windows.contains_key(window),
    ensures
        ({
            let (post, actions) = toplevel_step(m, window, ToplevelEvent::Close);
            &&& actions == seq![for_window(window, WindowAction::DestroyToplevel)]
            &&& post.windows.dom().len() == m.windows.dom().len() - 1
            &&& !post.windows.contains_key(window)
            &&& forall|other: WaylandWindowId|
                other != window ==> (post.windows.contains_key(other) == m.windows.contains_key(other))
            &&& post.mouse_focused_window != Some(window)
            &&& post.keyboard_focused_window != Some(window)
        }),
{
}

/// A window stays in the table, under its id, until its own close: no
/// other event takes it out.
pub proof fn lemma_windows_leave_only_by_close(
    pre: ClientModel,
    event: Event,
    post: ClientModel,
    result: Result<Seq<ActionView>, ClientError>,
    window: WaylandWindowId,
)
    requires
        pre.windows.contains_key(window),
        event_post(pre, event, post, result),
    ensures
        !post.windows.contains_key(window) ==> event == Event::Toplevel(window, ToplevelEvent::Close),
        forall|other: WaylandWindowId| #[trigger]
            post.windows.contains_key(other) ==> pre.windows.contains_key(other),
{
}

/// A close for a window that the table does not hold is dropped: nothing
/// changes and nothing is asked for.
pub proof fn lemma_stale_events_are_dropped(m: ClientModel, window: WaylandWindowId, serial: u32, width: i32, height: i32)
    requires
        !m.windows.contains_key(window),
    ensures
        toplevel_step(m, window, ToplevelEvent::Close) == (m, Seq::<ActionView>::empty()),
        toplevel_step(m, window, ToplevelEvent::Configure { width, height }) == (m, Seq::<ActionView>::empty()),
        xdg_surface_step(m, window, XdgSurfaceEvent::Configure { serial }) == (m, Seq::<ActionView>::empty()),
        callback_step(m, window, CallbackEvent::Done { callback_data: serial }) == (m, Seq::<ActionView>::empty()),
{
}

/// After a close that removed a window, and with no quit pending before it,
/// the quit flag is raised if and only if the table is empty.
pub proof fn lemma_quit_iff_last_window_closed(m: ClientModel, window: WaylandWindowId)
    requires
        m.wf(),
        m.windows.contains_key(window),
        !m.quit_requested,
    ensures
        ({
            let post = toplevel_step(m, window, ToplevelEvent::Close).0;
            &&& post.quit_requested <==> post.windows.dom().len() == 0
            &&& post.quit_requested <==> post.windows =~= Map::empty()
        }),
{
    let post = toplevel_step(m, window, ToplevelEvent::Close).0;
    if post.windows.dom().len() == 0 {
        post.windows.dom().lemma_len0_is_empty();
        assert(post.windows =~= Map::empty());
    }
}

/// The quit flag is never lowered, and it is raised only by a close that
/// empties the table.
pub proof fn lemma_quit_raised_only_by_last_close(
    pre: ClientModel,
    event: Event,
    post: ClientModel,
    result: Result<Seq<ActionView>, ClientError>,
)
    requires
        event_post(pre, event, post, result),
    ensures
        pre.quit_requested ==> post.quit_requested,
        post.quit_requested && !pre.quit_requested ==> {
            &&& event matches Event::Toplevel(window, ToplevelEvent::Close)
            &&& pre.windows.contains_key(window)
            &&& post.windows.dom().len() == 0
        },
{
}

/// Frame callbacks are gated, one per window.
///
/// Among the actions of one event no window is asked for a frame callback
/// twice. A window with a callback outstanding is asked for another only by
/// the event that tells that the outstanding one has fired. A window that
/// is asked for one has one outstanding afterwards. A callback stays
/// outstanding for as long as the window is open.
pub proof fn lemma_frame_callbacks_are_gated(
    pre: ClientModel,
    event: Event,
    post: ClientModel,
    actions: Seq<ActionView>,
    window: WaylandWindowId,
)
    requires
        event_post(pre, event, post, Ok(actions)),
    ensures
        forall|i: int, j: int|
            0 <= i < j < actions.len() ==> !(#[trigger] actions[i] == for_window(window, WindowAction::RequestFrame)
                && #[trigger] actions[j] == for_window(window, WindowAction::RequestFrame)),
        forall|i: int|
            0 <= i < actions.len() && #[trigger] actions[i] == for_window(window, WindowAction::RequestFrame) ==> {
                &&& post.windows.contains_key(window)
                &&& post.windows[window].frame_callback_requested
                &&& pre.windows.contains_key(window)
                &&& pre.windows[window].frame_callback_requested ==> event is Callback
                    && event->Callback_0 == window
            },
        pre.windows.contains_key(window) && pre.windows[window].frame_callback_requested
            && post.windows.contains_key(window) ==> post.windows[window].frame_callback_requested,
{
    match event {
        Event::Registry(e) => {},
        Event::Keyboard(seat, e) => {},
        Event::Pointer(seat, e) => {},
        _ => {},
    }
}

/// The masks and modifiers a seat holds after a modifier update are those
/// the update carries, whatever the seat and the rest of the state held
/// before. (That equal masks give equal modifiers is the keymap's part.)
pub proof fn lemma_modifiers_forget_history(
    first: ClientModel,
    second: ClientModel,
    seat: WaylandSeatId,
    depressed: u32,
    latched: u32,
    locked: u32,
    group: u32,
    active: Modifiers,
)
    requires
        first.seats.contains_key(seat),
        second.seats.contains_key(seat),
        first.seats[seat].keymap_installed,
        second.seats[seat].keymap_installed,
    ensures
        ({
            let event = KeyboardEvent::Modifiers { depressed, latched, locked, group, active };
            &&& keyboard_step(first, seat, event) matches Ok((a, _))
            &&& keyboard_step(second, seat, event) matches Ok((b, _))
            &&& a.seats[seat].modifiers == active
            &&& b.seats[seat].modifiers == active
            &&& a.seats[seat].masks == (ModifierMasks { depressed, latched, locked, group })
            &&& b.seats[seat].masks == a.seats[seat].masks
        }),
{
}

/// A scroll is delivered to the focused window as the raw axis value times
/// the seat's multiplier, along the event's axis; the multiplier is 1 or
/// -1.
pub proof fn lemma_scroll_is_value_times_direction(
    m: ClientModel,
    seat: WaylandSeatId,
    axis: Axis,
    value: i32,
)
    requires
        m.wf(),
        m.seats.contains_key(seat),
        m.mouse_focused_window is Some,
        m.mouse_location is Some,
    ensures
        ({
            let direction = m.seats[seat].scroll_direction;
            let delta = scroll_delta(m.seats[seat], axis, value);
            &&& direction == 1 || direction == -1
            &&& pointer_step(m, seat, PointerEvent::Axis { axis, value }) == (
                m,
                seq![
                    deliver(
                        m.mouse_focused_window->Some_0,
                        InputView::ScrollWheel {
                            position: m.mouse_location->Some_0,
                            delta,
                            modifiers: m.seats[seat].modifiers,
                            touch_phase: TouchPhase::Started,
                        },
                    ),
                ],
            )
            &&& axis == Axis::VerticalScroll ==> delta.x == 0 && delta.y == value * direction
            &&& axis == Axis::HorizontalScroll ==> delta.y == 0 && delta.x == value * direction
        }),
{
    let direction = m.seats[seat].scroll_direction;
    assert(direction == 1 || direction == -1);
    assert(value * direction == value || value * direction == -value) by (nonlinear_arith)
        requires
            direction == 1 || direction == -1,
    ;
}

/// A seat's scroll multiplier changes only on an axis-relative-direction
/// event of that seat's pointer, and no event takes a seat out of the
/// table.
pub proof fn lemma_scroll_direction_flips_only_on_direction_event(
    pre: ClientModel,
    event: Event,
    post: ClientModel,
    result: Result<Seq<ActionView>, ClientError>,
    seat: WaylandSeatId,
)
    requires
        pre.seats.contains_key(seat),
        event_post(pre, event, post, result),
    ensures
        post.seats.contains_key(seat),
        post.seats[seat].scroll_direction != pre.seats[seat].scroll_direction ==> {
            &&& event matches Event::Pointer(s, PointerEvent::AxisRelativeDirection { .. })
            &&& s == seat
        },
{
}

} // verus!
