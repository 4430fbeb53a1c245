//! The stable-memory collections that the store is built on, and what is
//! taken on trust about them. Nothing in this file is proved: each contract
//! restates what `ic-stable-structures` documents of the call in the body.

use crate::model::{Booking, Show, ShowModel};
use ic_stable_structures::memory_manager::{MemoryId, MemoryManager, VirtualMemory};
use ic_stable_structures::{Cell, DefaultMemoryImpl, StableBTreeMap};
use vstd::prelude::*;

verus! {

/// The stable cell that holds the next identifier.
#[verifier::external_body]
pub struct IdCell {
    inner: Cell<u64, VirtualMemory<DefaultMemoryImpl>>,
}

/// The stable map of shows: from an identifier to the show's seven fields,
/// grouped into tuples that the map can serialise.
#[verifier::external_body]
pub struct ShowTable {
    inner: StableBTreeMap<
        u64,
        ((u64, String, String), (u64, u64), (u32, u32)),
        VirtualMemory<DefaultMemoryImpl>,
    >,
}

/// The stable map of bookings: from an identifier to the booking's four
/// fields, grouped into tuples that the map can serialise.
#[verifier::external_body]
pub struct BookingTable {
    inner: StableBTreeMap<u64, ((u64, u64), (u64, u32)), VirtualMemory<DefaultMemoryImpl>>,
}

/// The value that the cell holds.
pub uninterp spec fn cell_value(cell: &IdCell) -> u64;

/// The shows that the table holds, by key.
pub uninterp spec fn show_entries(table: &ShowTable) -> Map<u64, ShowModel>;

/// The bookings that the table holds, by key.
pub uninterp spec fn booking_entries(table: &BookingTable) -> Map<u64, Booking>;

/// The identifier of the virtual memory that the cell was opened on.
pub uninterp spec fn cell_memory(cell: &IdCell) -> u8;

/// The identifier of the virtual memory that the table of shows was opened
/// on.
pub uninterp spec fn show_table_memory(table: &ShowTable) -> u8;

/// The identifier of the virtual memory that the table of bookings was
/// opened on.
pub uninterp spec fn booking_table_memory(table: &BookingTable) -> u8;

/// Opens the three collections on the default memory, which is the
/// canister's stable memory on wasm and a fresh vector elsewhere:
/// `MemoryManager::init` divides it, `MemoryManager::get` hands out one
/// virtual memory for each of the three identifiers (`MemoryId::new` refuses
/// 255), `Cell::init` and `StableBTreeMap::init` load what each holds or
/// start anew, the cell with `first_id`. The three identifiers differ, so
/// that no collection writes into another's memory. Each collection lies in
/// the virtual memory that was named for it; nothing is claimed of what the
/// collections hold. A memory written in a layout of another version is
/// refused with a panic.
#[verifier::external_body]
pub(crate) fn open_collections(
    counter_memory: u8,
    show_memory: u8,
    booking_memory: u8,
    first_id: u64,
) -> (parts: (IdCell, ShowTable, BookingTable))
    requires
        counter_memory != 255,
        show_memory != 255,
        booking_memory != 255,
        counter_memory != show_memory,
        counter_memory != booking_memory,
        show_memory != booking_memory,
    ensures
        cell_memory(&parts.0) == counter_memory,
        show_table_memory(&parts.1) == show_memory,
        booking_table_memory(&parts.2) == booking_memory,
{
    let manager = MemoryManager::init(DefaultMemoryImpl::default());
    (
        IdCell { inner: Cell::init(manager.get(MemoryId::new(counter_memory)), first_id) },
        ShowTable { inner: StableBTreeMap::init(manager.get(MemoryId::new(show_memory))) },
        BookingTable { inner: StableBTreeMap::init(manager.get(MemoryId::new(booking_memory))) },
    )
}

/// `Cell::get`: the value that the cell holds.
#[verifier::external_body]
pub(crate) fn cell_read(cell: &IdCell) -> (value: u64)
    ensures
        value == cell_value(cell),
{
    *cell.inner.get()
}

/// `Cell::set`: the cell holds `value` afterwards; the value it held before
/// is returned. The call panics where stable memory cannot grow to take the
/// value.
#[verifier::external_body]
pub(crate) fn cell_write(cell: &mut IdCell, value: u64) -> (before: u64)
    ensures
        before == cell_value(old(cell)),
        cell_value(final(cell)) == value,
{
    cell.inner.set(value)
}

/// `StableBTreeMap::get`: the show stored under `id`, if there is one.
#[verifier::external_body]
pub(crate) fn show_table_get(table: &ShowTable, id: u64) -> (found: Option<Show>)
    ensures
        found is Some == show_entries(table).contains_key(id),
        found is Some ==> found->0@ == show_entries(table)[id],
{
    table.inner.get(&id).map(
        |((id, title, genre), (start_time, end_time), (total_tickets, available_tickets))| Show {
            id,
            title,
            genre,
            start_time,
            end_time,
            total_tickets,
            available_tickets,
        },
    )
}

/// `StableBTreeMap::insert`: afterwards the show is stored under `key`, in
/// place of what was stored there, and every other entry is as before. The
/// call panics where stable memory cannot grow to take the entry.
#[verifier::external_body]
pub(crate) fn show_table_insert(table: &mut ShowTable, key: u64, show: &Show)
    ensures
        show_entries(final(table)) == show_entries(old(table)).insert(key, show@),
{
    table.inner.insert(
        key,
        (
            (show.id, show.title.clone(), show.genre.clone()),
            (show.start_time, show.end_time),
            (show.total_tickets, show.available_tickets),
        ),
    );
}

/// `StableBTreeMap::remove`: the show stored under `id` is taken out and
/// returned, if there is one; every other entry is as before.
#[verifier::external_body]
pub(crate) fn show_table_remove(table: &mut ShowTable, id: u64) -> (taken: Option<Show>)
    ensures
        taken is Some == show_entries(old(table)).contains_key(id),
        taken is Some ==> taken->0@ == show_entries(old(table))[id],
        show_entries(final(table)) == show_entries(old(table)).remove(id),
{
    table.inner.remove(&id).map(
        |((id, title, genre), (start_time, end_time), (total_tickets, available_tickets))| Show {
            id,
            title,
            genre,
            start_time,
            end_time,
            total_tickets,
            available_tickets,
        },
    )
}

/// `StableBTreeMap::get`: the booking stored under `id`, if there is one.
#[verifier::external_body]
pub(crate) fn booking_table_get(table: &BookingTable, id: u64) -> (found: Option<Booking>)
    ensures
        found is Some == booking_entries(table).contains_key(id),
        found is Some ==> found->0 == booking_entries(table)[id],
{
    table.inner.get(&id).map(
        |((id, show_id), (user_id, num_tickets))| Booking { id, show_id, user_id, num_tickets },
    )
}

/// `StableBTreeMap::insert`: afterwards the booking is stored under `key`,
/// in place of what was stored there, and every other entry is as before.
/// The call panics where stable memory cannot grow to take the entry.
#[verifier::external_body]
pub(crate) fn booking_table_insert(table: &mut BookingTable, key: u64, booking: &Booking)
    ensures
        booking_entries(final(table)) == booking_entries(old(table)).insert(key, *booking),
{
    table.inner.insert(
        key,
        ((booking.id, booking.show_id), (booking.user_id, booking.num_tickets)),
    );
}

/// `StableBTreeMap::remove`: the booking stored under `id` is taken out and
/// returned, if there is one; every other entry is as before.
#[verifier::external_body]
pub(crate) fn booking_table_remove(table: &mut BookingTable, id: u64) -> (taken: Option<Booking>)
    ensures
        taken is Some == booking_entries(old(table)).contains_key(id),
        taken is Some ==> taken->0 == booking_entries(old(table))[id],
        booking_entries(final(table)) == booking_entries(old(table)).remove(id),
{
    table.inner.remove(&id).map(
        |((id, show_id), (user_id, num_tickets))| Booking { id, show_id, user_id, num_tickets },
    )
}

} // verus!
