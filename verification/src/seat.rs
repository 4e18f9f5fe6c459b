//! The state kept for one input seat.

use vstd::prelude::*;
use crate::input::{no_masks, no_modifiers, ModifierMasks, Modifiers};
use crate::protocol::AxisRelativeDirection;

verus! {

/// Scroll multiplier while physical motion and axis values agree.
pub const SCROLL_IDENTICAL: i32 = -1;

/// Scroll multiplier while physical motion and axis values are opposed.
pub const SCROLL_INVERTED: i32 = 1;

/// One seat: whether its devices are bound, whether a keymap is installed,
/// the modifiers in effect and the scroll direction.
#[derive(Clone, Copy, Debug, PartialEq, Eq, Structural)]
pub struct WaylandSeatState {
    /// A keymap has been compiled and installed for the seat's keyboard.
    pub keymap_installed: bool,
    /// The masks of the last modifier update.
    pub masks: ModifierMasks,
    /// The modifiers in effect under those masks.
    pub modifiers: Modifiers,
    /// Multiplier applied to scroll values: 1 or -1.
    pub scroll_direction: i32,
    /// The seat's keyboard has been requested.
    pub keyboard_bound: bool,
    /// The seat's pointer has been requested.
    pub pointer_bound: bool,
}

/// The multiplier a relative direction stands for.
pub open spec fn scroll_multiplier(direction: AxisRelativeDirection) -> i32 {
    match direction {
        AxisRelativeDirection::Identical => SCROLL_IDENTICAL,
        AxisRelativeDirection::Inverted => SCROLL_INVERTED,
    }
}

/// A seat as it is when first bound.
pub open spec fn fresh_seat() -> WaylandSeatState {
    WaylandSeatState {
        keymap_installed: false,
        masks: no_masks(),
        modifiers: no_modifiers(),
        scroll_direction: SCROLL_IDENTICAL,
        keyboard_bound: false,
        pointer_bound: false,
    }
}

impl WaylandSeatState {
    /// The scroll multiplier is 1 or -1.
    pub open spec fn wf(self) -> bool {
        self.scroll_direction == 1 || self.scroll_direction == -1
    }

    /// A seat without devices, keymap or modifiers, scrolling in the
    /// identical direction.
    pub fn new() -> (seat: WaylandSeatState)
        ensures
            seat == fresh_seat(),
            seat.wf(),
    {
        WaylandSeatState {
            keymap_installed: false,
            masks: ModifierMasks::none(),
            modifiers: Modifiers::none(),
            scroll_direction: SCROLL_IDENTICAL,
            keyboard_bound: false,
            pointer_bound: false,
        }
    }

    /// Takes up the direction of an axis-relative-direction event.
    pub fn set_scroll_direction(&mut self, direction: AxisRelativeDirection)
        ensures
            *final(self) == (WaylandSeatState { scroll_direction: scroll_multiplier(direction), ..*old(self) }),
            final(self).wf(),
    {
        self.scroll_direction = match direction {
            AxisRelativeDirection::Identical => SCROLL_IDENTICAL,
            AxisRelativeDirection::Inverted => SCROLL_INVERTED,
        };
    }

    /// The scroll distance for a raw axis value: the value times the
    /// multiplier.
    pub fn scroll_distance(&self, value: i32) -> (distance: i64)
        requires
            self.wf(),
        ensures
            distance == value * self.scroll_direction,
    {
        if self.scroll_direction == 1 {
            value as i64
        } else {
            -(value as i64)
        }
    }
}

} // verus!
