//! The store: two stable tables and the identifier counter, with the
//! operations of the service on them.

use crate::ledger::{can_withdraw, id_message, withdraw, StoreModel};
use crate::model::{
    booking_outcome, count_outcome, show_option, show_outcome, Booking, BookingPayload, Error,
    ErrorModel, Show, ShowPayload,
};
use crate::tables::{
    booking_entries, booking_table_get, booking_table_insert, booking_table_memory,
    booking_table_remove, cell_memory, cell_read, cell_value, cell_write, open_collections,
    show_entries, show_table_get, show_table_insert, show_table_memory, show_table_remove,
    BookingTable, IdCell, ShowTable,
};
use crate::text::id_text;
use vstd::prelude::*;
use vstd::string::StringExecFns;

verus! {

/// The shows, the bookings and the identifier counter of one service.
pub struct Store {
    shows: ShowTable,
    bookings: BookingTable,
    counter: IdCell,
}

impl View for Store {
    type V = StoreModel;

    closed spec fn view(&self) -> StoreModel {
        StoreModel {
            shows: show_entries(&self.shows),
            bookings: booking_entries(&self.bookings),
            next_id: cell_value(&self.counter),
        }
    }
}

/// The error that says which identifier was not found.
fn not_found(before: &str, id: u64, after: &str) -> (e: Error)
    ensures
        e@ == (ErrorModel::NotFound { msg: id_message(before@, id, after@) }),
{
    let mut msg = String::from_str(before);
    let digits = id_text(id);
    msg.append(digits.as_str());
    msg.append(after);
    Error::NotFound { msg }
}

/// Withdraws `num_tickets_change` tickets from the show's availability, or
/// fails and leaves the show as it is where the change is zero or more than
/// what is available.
pub fn update_show_common(show: &mut Show, num_tickets_change: &u32) -> (r: Result<(), Error>)
    ensures
        can_withdraw(old(show)@, *num_tickets_change) ==> r is Ok && final(show)@ == withdraw(
            old(show)@,
            *num_tickets_change,
        ),
        !can_withdraw(old(show)@, *num_tickets_change) ==> r is Err && r->Err_0@
            == ErrorModel::NotEnoughTickets && final(show)@ == old(show)@,
{
    if show.available_tickets < *num_tickets_change || *num_tickets_change == 0 {
        return Err(Error::NotEnoughTickets);
    }
    show.available_tickets = show.available_tickets - *num_tickets_change;
    Ok(())
}

impl Store {
    /// The virtual memories that the store was opened on: that of the
    /// counter, that of the shows and that of the bookings.
    pub closed spec fn memories(&self) -> (u8, u8, u8) {
        (
            cell_memory(&self.counter),
            show_table_memory(&self.shows),
            booking_table_memory(&self.bookings),
        )
    }

    /// Opens the store on the default stable memory: the counter in virtual
    /// memory 0, the shows in 1, the bookings in 2. What the memory already
    /// holds is loaded, so nothing is promised of the records and the
    /// counter that the store starts with. A canister opens its store once:
    /// two stores opened on one stable memory would write into each other's
    /// records.
    pub fn new() -> (store: Store)
        ensures
            store.memories() == (0u8, 1u8, 2u8),
    {
        let (counter, shows, bookings) = open_collections(0, 1, 2, 0);
        Store { shows, bookings, counter }
    }

    /// The identifier that will be issued next.
    pub fn peek_next_id(&self) -> (id: u64)
        ensures
            id == self@.next_id,
    {
        cell_read(&self.counter)
    }

    /// Issues an identifier: returns the counter's value and raises the
    /// counter by one.
    pub fn next_id(&mut self) -> (id: u64)
        requires
            old(self)@.next_id < u64::MAX,
        ensures
            id == old(self)@.next_id,
            final(self)@ == old(self)@.advance(),
    {
        let current = cell_read(&self.counter);
        cell_write(&mut self.counter, current + 1)
    }

    /// The show stored under `id`, if there is one.
    pub fn _get_show(&self, id: &u64) -> (found: Option<Show>)
        ensures
            found is Some == self@.shows.contains_key(*id),
            found is Some ==> found->0@ == self@.shows[*id],
    {
        show_table_get(&self.shows, *id)
    }

    /// The booking stored under `id`, if there is one.
    pub fn _get_booking(&self, id: &u64) -> (found: Option<Booking>)
        ensures
            found is Some == self@.bookings.contains_key(*id),
            found is Some ==> found->0 == self@.bookings[*id],
    {
        booking_table_get(&self.bookings, *id)
    }

    /// Stores the show under its own identifier, in place of what was there.
    pub fn do_insert_show(&mut self, show: &Show)
        ensures
            final(self)@ == old(self)@.put_show(show@),
    {
        show_table_insert(&mut self.shows, show.id, show);
    }

    /// Stores the booking under its own identifier, in place of what was
    /// there.
    pub fn do_insert_booking(&mut self, booking: &Booking)
        ensures
            final(self)@ == old(self)@.put_booking(booking.id, *booking),
    {
        booking_table_insert(&mut self.bookings, booking.id, booking);
    }

    /// Looks up a show.
    pub fn get_show(&self, id: u64) -> (r: Result<Show, Error>)
        ensures
            show_outcome(r) == self@.get_show(id),
    {
        match self._get_show(&id) {
            Some(show) => Ok(show),
            None => Err(not_found("a show with id=", id, " not found")),
        }
    }

    /// Creates a show from the payload under the next identifier, with all
    /// of its tickets available. A payload without a title, without a genre
    /// or without tickets is rejected, and nothing changes.
    pub fn add_show(&mut self, show: ShowPayload) -> (r: Option<Show>)
        requires
            show@.acceptable() ==> old(self)@.next_id < u64::MAX,
        ensures
            show_option(r) == old(self)@.add_show_result(show@),
            final(self)@ == old(self)@.add_show(show@),
    {
        if show.title.as_str().is_empty() || show.genre.as_str().is_empty() || show.total_tickets
            == 0 {
            return None;
        }
        let id = self.next_id();
        let show = Show {
            id,
            title: show.title,
            genre: show.genre,
            start_time: show.start_time,
            end_time: show.end_time,
            total_tickets: show.total_tickets,
            available_tickets: show.total_tickets,
        };
        self.do_insert_show(&show);
        Some(show)
    }

    /// Withdraws the payload's ticket count from the availability of the
    /// show under `id`; the show's other fields stay as they are.
    pub fn update_show(&mut self, id: u64, payload: ShowPayload) -> (r: Result<Show, Error>)
        ensures
            show_outcome(r) == old(self)@.update_show_result(id, payload@),
            final(self)@ == old(self)@.update_show(id, payload@),
    {
        match self._get_show(&id) {
            Some(mut show) => {
                match update_show_common(&mut show, &payload.total_tickets) {
                    Ok(()) => {
                        self.do_insert_show(&show);
                        Ok(show)
                    },
                    Err(e) => Err(e),
                }
            },
            None => Err(not_found("couldn't update a show with id=", id, ". show not found")),
        }
    }

    /// Removes the show under `id` and returns it. Bookings of the show stay
    /// as they are.
    pub fn delete_show(&mut self, id: u64) -> (r: Result<Show, Error>)
        ensures
            show_outcome(r) == old(self)@.delete_show_result(id),
            final(self)@ == old(self)@.delete_show(id),
    {
        match show_table_remove(&mut self.shows, id) {
            Some(show) => Ok(show),
            None => {
                proof {
                    assert(final(self)@.shows =~= old(self)@.shows);
                }
                Err(not_found("couldn't delete a show with id=", id, ". show not found."))
            },
        }
    }

    /// Looks up a booking.
    pub fn get_booking(&self, id: u64) -> (r: Result<Booking, Error>)
        ensures
            booking_outcome(r) == self@.get_booking(id),
    {
        match self._get_booking(&id) {
            Some(booking) => Ok(booking),
            None => Err(not_found("a booking with id=", id, " not found")),
        }
    }

    /// Books tickets of a show: lowers the show's availability and stores the
    /// booking under the next identifier. A payload that asks for no ticket,
    /// names no existing show or asks for more than the show has available
    /// is rejected, and nothing changes.
    pub fn add_booking(&mut self, booking: BookingPayload) -> (r: Option<Booking>)
        requires
            old(self)@.accepts_booking(booking) ==> old(self)@.next_id < u64::MAX,
        ensures
            r == old(self)@.add_booking_result(booking),
            final(self)@ == old(self)@.add_booking(booking),
    {
        if booking.num_tickets == 0 {
            return None;
        }
        let mut updated_show = match self._get_show(&booking.show_id) {
            Some(show) => show,
            None => {
                return None;
            },
        };
        if booking.num_tickets > updated_show.available_tickets {
            return None;
        }
        let id = self.next_id();
        let booking = Booking {
            id,
            show_id: booking.show_id,
            user_id: booking.user_id,
            num_tickets: booking.num_tickets,
        };
        updated_show.available_tickets = updated_show.available_tickets - booking.num_tickets;
        self.do_insert_show(&updated_show);
        self.do_insert_booking(&booking);
        Some(booking)
    }

    /// Whether an update of the booking under `id` with `payload` can be
    /// carried out: it fails one of its checks, or the availability that it
    /// gives the show is a ticket count.
    pub fn booking_update_fits(&self, id: u64, payload: &BookingPayload) -> (fits: bool)
        ensures
            fits == self@.booking_update_fits(id, *payload),
    {
        let booking = match self._get_booking(&id) {
            Some(booking) => booking,
            None => {
                return true;
            },
        };
        let show = match self._get_show(&payload.show_id) {
            Some(show) => show,
            None => {
                return true;
            },
        };
        if payload.num_tickets == 0 {
            true
        } else if payload.num_tickets >= booking.num_tickets {
            let more: u32 = payload.num_tickets - booking.num_tickets;
            more > show.available_tickets || more <= u32::MAX - show.available_tickets
        } else {
            booking.num_tickets - payload.num_tickets <= show.available_tickets
        }
    }

    /// Whether the booking under `id` can be deleted: there is no such
    /// booking, its show is gone, or the availability that the show gets
    /// back is a ticket count.
    pub fn booking_delete_fits(&self, id: u64) -> (fits: bool)
        ensures
            fits == self@.booking_delete_fits(id),
    {
        let booking = match self._get_booking(&id) {
            Some(booking) => booking,
            None => {
                return true;
            },
        };
        match self._get_show(&booking.show_id) {
            Some(show) => booking.num_tickets <= u32::MAX - show.available_tickets,
            None => true,
        }
    }

    /// Replaces the show, the user and the ticket count of the booking under
    /// `id`, and changes the availability of the show that the payload names
    /// by the change of the count.
    pub fn update_booking(&mut self, id: u64, payload: BookingPayload) -> (r: Result<
        Booking,
        Error,
    >)
        requires
            old(self)@.booking_update_fits(id, payload),
        ensures
            booking_outcome(r) == old(self)@.update_booking_result(id, payload),
            final(self)@ == old(self)@.update_booking(id, payload),
    {
        let booking = match self._get_booking(&id) {
            Some(booking) => booking,
            None => {
                return Err(not_found("a booking with id=", id, " not found"));
            },
        };
        let mut updated_show = match self._get_show(&payload.show_id) {
            Some(show) => show,
            None => {
                return Err(not_found("a show with id=", payload.show_id, " not found"));
            },
        };
        if payload.num_tickets == 0 {
            return Err(Error::NotEnoughTickets);
        }
        if payload.num_tickets >= booking.num_tickets {
            let more: u32 = payload.num_tickets - booking.num_tickets;
            if more > updated_show.available_tickets {
                return Err(Error::NotEnoughTickets);
            }
            updated_show.available_tickets = updated_show.available_tickets + more;
        } else {
            let fewer: u32 = booking.num_tickets - payload.num_tickets;
            updated_show.available_tickets = updated_show.available_tickets - fewer;
        }
        self.do_insert_show(&updated_show);
        let updated_booking = Booking {
            id: booking.id,
            show_id: payload.show_id,
            user_id: payload.user_id,
            num_tickets: payload.num_tickets,
        };
        booking_table_insert(&mut self.bookings, id, &updated_booking);
        Ok(updated_booking)
    }

    /// Removes the booking under `id` and returns it; where its show still
    /// exists, the show gets the booking's tickets back.
    pub fn delete_booking(&mut self, id: u64) -> (r: Result<Booking, Error>)
        requires
            old(self)@.booking_delete_fits(id),
        ensures
            booking_outcome(r) == old(self)@.delete_booking_result(id),
            final(self)@ == old(self)@.delete_booking(id),
    {
        match booking_table_remove(&mut self.bookings, id) {
            Some(booking) => {
                match self._get_show(&booking.show_id) {
                    Some(mut updated_show) => {
                        updated_show.available_tickets = updated_show.available_tickets
                            + booking.num_tickets;
                        self.do_insert_show(&updated_show);
                    },
                    None => {},
                }
                Ok(booking)
            },
            None => {
                proof {
                    assert(final(self)@.bookings =~= old(self)@.bookings);
                }
                Err(not_found("a booking with id=", id, " not found"))
            },
        }
    }

    /// The number of tickets that the show under `show_id` has available.
    pub fn get_remaining_tickets(&self, show_id: u64) -> (r: Result<u32, Error>)
        ensures
            count_outcome(r) == self@.get_remaining_tickets(show_id),
    {
        match self._get_show(&show_id) {
            Some(show) => Ok(show.available_tickets),
            None => Err(not_found("a show with id=", show_id, " not found")),
        }
    }
}

} // verus!
