//! The window table and the seat table: slot maps with stable keys.
//!
//! Verification sees a table only through what it holds, a map from ids to
//! states, and through the contracts of the few slot-map methods the client
//! calls. Those contracts are taken on trust from the slot map's source.

use vstd::prelude::*;
use slotmap::{DefaultKey, Key, KeyData, SlotMap};
use crate::seat::WaylandSeatState;
use crate::window::WaylandWindowState;

verus! {

/// A table takes a new entry only while it holds fewer entries than this.
pub const SLOT_LIMIT: usize = 0xffff_fffe;

/// Whether `raw` is the number of a slot-map key: the key's version, the
/// upper half of the number, is odd.
pub open spec fn is_slot_key(raw: u64) -> bool {
    (raw >> 32) & 1 == 1
}

/// The stable id of a window.
#[derive(Clone, Copy, Debug, PartialEq, Eq, Hash, Structural)]
pub struct WaylandWindowId {
    pub raw: u64,
}

/// The stable id of a seat.
#[derive(Clone, Copy, Debug, PartialEq, Eq, Hash, Structural)]
pub struct WaylandSeatId {
    pub raw: u64,
}

impl WaylandWindowId {
    /// Whether the id can be a key of the window table.
    pub open spec fn is_valid(self) -> bool {
        is_slot_key(self.raw)
    }

    /// Tells whether the id can be a key of the window table.
    pub fn check_valid(&self) -> (valid: bool)
        ensures
            valid == self.is_valid(),
    {
        (self.raw >> 32) & 1 == 1
    }
}

impl WaylandSeatId {
    /// Whether the id can be a key of the seat table.
    pub open spec fn is_valid(self) -> bool {
        is_slot_key(self.raw)
    }

    /// Tells whether the id can be a key of the seat table.
    pub fn check_valid(&self) -> (valid: bool)
        ensures
            valid == self.is_valid(),
    {
        (self.raw >> 32) & 1 == 1
    }
}

/// The window table: a `slotmap::SlotMap` of window states.
#[verifier::external_body]
pub struct WindowTable {
    slots: SlotMap<DefaultKey, WaylandWindowState>,
}

/// The seat table: a `slotmap::SlotMap` of seat states.
#[verifier::external_body]
pub struct SeatTable {
    slots: SlotMap<DefaultKey, WaylandSeatState>,
}

/// What a window table holds: each key, as the number `KeyData::as_ffi`
/// gives for it, with the state stored under it.
pub uninterp spec fn window_entries(table: WindowTable) -> Map<WaylandWindowId, WaylandWindowState>;

/// What a seat table holds: each key, as the number `KeyData::as_ffi`
/// gives for it, with the state stored under it.
pub uninterp spec fn seat_entries(table: SeatTable) -> Map<WaylandSeatId, WaylandSeatState>;

/// `SlotMap::new`: the new slot map holds nothing.
#[verifier::external_body]
pub(crate) fn window_table_new() -> (table: WindowTable)
    ensures
        window_entries(table) =~= Map::empty(),
{
    WindowTable { slots: SlotMap::new() }
}

/// `SlotMap::len`: the number of entries.
#[verifier::external_body]
pub(crate) fn window_table_len(table: &WindowTable) -> (len: usize)
    ensures
        len == window_entries(*table).dom().len(),
{
    table.slots.len()
}

/// `SlotMap::insert`: stores the value under a key that the slot map does
/// not hold, and returns that key; nothing else changes. The slot map
/// panics only when a new slot is needed and `u32::MAX` slots exist, one of
/// them a sentinel; below `SLOT_LIMIT` entries that cannot be.
#[verifier::external_body]
pub(crate) fn window_table_insert(table: &mut WindowTable, window: WaylandWindowState) -> (id: WaylandWindowId)
    requires
        window_entries(*old(table)).dom().len() < SLOT_LIMIT,
    ensures
        id.is_valid(),
        !window_entries(*old(table)).contains_key(id),
        window_entries(*final(table)) == window_entries(*old(table)).insert(id, window),
{
    WaylandWindowId { raw: table.slots.insert(window).data().as_ffi() }
}

/// `SlotMap::get`: the value stored under the key, if the slot map holds
/// the key. `KeyData::from_ffi` gives back the key of a number whose
/// version half is odd.
#[verifier::external_body]
pub(crate) fn window_table_get(table: &WindowTable, id: WaylandWindowId) -> (window: Option<&WaylandWindowState>)
    requires
        id.is_valid(),
    ensures
        window is Some == window_entries(*table).contains_key(id),
        window matches Some(w) ==> *w == window_entries(*table)[id],
{
    table.slots.get(KeyData::from_ffi(id.raw).into())
}

/// `SlotMap::get_mut`: a mutable reference to the value stored under the
/// key, if the slot map holds the key; what the reference is left holding
/// is what the slot map then holds under the key, and nothing else changes.
#[verifier::external_body]
pub(crate) fn window_table_get_mut(table: &mut WindowTable, id: WaylandWindowId) -> (window: Option<&mut WaylandWindowState>)
    requires
        id.is_valid(),
    ensures
        window is Some == window_entries(*old(table)).contains_key(id),
        window matches Some(w) ==> *w == window_entries(*old(table))[id]
            && window_entries(*final(table)) == window_entries(*old(table)).insert(id, *final(w)),
        window is None ==> window_entries(*final(table)) == window_entries(*old(table)),
{
    table.slots.get_mut(KeyData::from_ffi(id.raw).into())
}

/// `SlotMap::remove`: takes the key out and returns the value that was
/// stored under it, if the slot map held the key; nothing else changes.
#[verifier::external_body]
pub(crate) fn window_table_remove(table: &mut WindowTable, id: WaylandWindowId) -> (window: Option<WaylandWindowState>)
    requires
        id.is_valid(),
    ensures
        window is Some == window_entries(*old(table)).contains_key(id),
        window matches Some(w) ==> w == window_entries(*old(table))[id],
        window_entries(*final(table)) == window_entries(*old(table)).remove(id),
{
    table.slots.remove(KeyData::from_ffi(id.raw).into())
}

/// `SlotMap::new`: the new slot map holds nothing.
#[verifier::external_body]
pub(crate) fn seat_table_new() -> (table: SeatTable)
    ensures
        seat_entries(table) =~= Map::empty(),
{
    SeatTable { slots: SlotMap::new() }
}

/// `SlotMap::len`: the number of entries.
#[verifier::external_body]
pub(crate) fn seat_table_len(table: &SeatTable) -> (len: usize)
    ensures
        len == seat_entries(*table).dom().len(),
{
    table.slots.len()
}

/// `SlotMap::insert`, as for the window table.
#[verifier::external_body]
pub(crate) fn seat_table_insert(table: &mut SeatTable, seat: WaylandSeatState) -> (id: WaylandSeatId)
    requires
        seat_entries(*old(table)).dom().len() < SLOT_LIMIT,
    ensures
        id.is_valid(),
        !seat_entries(*old(table)).contains_key(id),
        seat_entries(*final(table)) == seat_entries(*old(table)).insert(id, seat),
{
    WaylandSeatId { raw: table.slots.insert(seat).data().as_ffi() }
}

/// `SlotMap::get`, as for the window table.
#[verifier::external_body]
pub(crate) fn seat_table_get(table: &SeatTable, id: WaylandSeatId) -> (seat: Option<&WaylandSeatState>)
    requires
        id.is_valid(),
    ensures
        seat is Some == seat_entries(*table).contains_key(id),
        seat matches Some(s) ==> *s == seat_entries(*table)[id],
{
    table.slots.get(KeyData::from_ffi(id.raw).into())
}

/// `SlotMap::get_mut`, as for the window table.
#[verifier::external_body]
pub(crate) fn seat_table_get_mut(table: &mut SeatTable, id: WaylandSeatId) -> (seat: Option<&mut WaylandSeatState>)
    requires
        id.is_valid(),
    ensures
        seat is Some == seat_entries(*old(table)).contains_key(id),
        seat matches Some(s) ==> *s == seat_entries(*old(table))[id]
            && seat_entries(*final(table)) == seat_entries(*old(table)).insert(id, *final(s)),
        seat is None ==> seat_entries(*final(table)) == seat_entries(*old(table)),
{
    table.slots.get_mut(KeyData::from_ffi(id.raw).into())
}

} // verus!
