//! The rules of the service as functions on a mathematical state: what each
//! operation returns and what it leaves behind.

use crate::model::{Booking, BookingPayload, ErrorModel, ShowModel, ShowPayloadModel};
use crate::text::decimal;
use vstd::prelude::*;

verus! {

/// The state of the service: the shows and the bookings by key, and the
/// identifier that is issued next.
pub ghost struct StoreModel {
    pub shows: Map<u64, ShowModel>,
    pub bookings: Map<u64, Booking>,
    pub next_id: u64,
}

/// The text `before`, the decimal digits of `id`, then `after`.
pub open spec fn id_message(before: Seq<char>, id: u64, after: Seq<char>) -> Seq<char> {
    before + decimal(id as nat) + after
}

/// The error for a show that is looked up and not there.
pub open spec fn show_missing(id: u64) -> ErrorModel {
    ErrorModel::NotFound { msg: id_message("a show with id="@, id, " not found"@) }
}

/// The error for a show that is to be updated and not there.
pub open spec fn show_missing_on_update(id: u64) -> ErrorModel {
    ErrorModel::NotFound {
        msg: id_message("couldn't update a show with id="@, id, ". show not found"@),
    }
}

/// The error for a show that is to be deleted and not there.
pub open spec fn show_missing_on_delete(id: u64) -> ErrorModel {
    ErrorModel::NotFound {
        msg: id_message("couldn't delete a show with id="@, id, ". show not found."@),
    }
}

/// The error for a booking that is not there.
pub open spec fn booking_missing(id: u64) -> ErrorModel {
    ErrorModel::NotFound { msg: id_message("a booking with id="@, id, " not found"@) }
}

/// A show's availability can be lowered by `change` tickets: the change is
/// not zero and no more than what is available.
pub open spec fn can_withdraw(show: ShowModel, change: u32) -> bool {
    change > 0 && change <= show.available_tickets
}

/// The show after `change` of its available tickets were withdrawn.
pub open spec fn withdraw(show: ShowModel, change: u32) -> ShowModel {
    show.with_available((show.available_tickets - change) as u32)
}

impl StoreModel {
    /// Every show holds no more available tickets than it has in total.
    pub open spec fn within_totals(self) -> bool {
        forall|id: u64| #[trigger] self.shows.contains_key(id) ==> self.shows[id].within_total()
    }

    /// The state after one identifier was issued.
    pub open spec fn advance(self) -> StoreModel {
        StoreModel { next_id: (self.next_id + 1) as u64, ..self }
    }

    /// The state with `show` stored under its own identifier.
    pub open spec fn put_show(self, show: ShowModel) -> StoreModel {
        StoreModel { shows: self.shows.insert(show.id, show), ..self }
    }

    /// The state with `booking` stored under `key`.
    pub open spec fn put_booking(self, key: u64, booking: Booking) -> StoreModel {
        StoreModel { bookings: self.bookings.insert(key, booking), ..self }
    }

    /// What looking up a show returns.
    pub open spec fn get_show(self, id: u64) -> Result<ShowModel, ErrorModel> {
        if self.shows.contains_key(id) {
            Ok(self.shows[id])
        } else {
            Err(show_missing(id))
        }
    }

    /// What asking for a show's remaining tickets returns.
    pub open spec fn get_remaining_tickets(self, id: u64) -> Result<u32, ErrorModel> {
        if self.shows.contains_key(id) {
            Ok(self.shows[id].available_tickets)
        } else {
            Err(show_missing(id))
        }
    }

    /// What looking up a booking returns.
    pub open spec fn get_booking(self, id: u64) -> Result<Booking, ErrorModel> {
        if self.bookings.contains_key(id) {
            Ok(self.bookings[id])
        } else {
            Err(booking_missing(id))
        }
    }

    /// What adding a show returns: the new show under the next identifier,
    /// or nothing where the payload is not acceptable.
    pub open spec fn add_show_result(self, payload: ShowPayloadModel) -> Option<ShowModel> {
        if payload.acceptable() {
            Some(payload.fresh_show(self.next_id))
        } else {
            None
        }
    }

    /// The state after adding a show: the new show is stored and one
    /// identifier is used, or nothing has changed.
    pub open spec fn add_show(self, payload: ShowPayloadModel) -> StoreModel {
        if payload.acceptable() {
            self.put_show(payload.fresh_show(self.next_id)).advance()
        } else {
            self
        }
    }

    /// What updating a show returns. The payload's ticket count is the number
    /// of tickets to withdraw from the show's availability.
    pub open spec fn update_show_result(self, id: u64, payload: ShowPayloadModel) -> Result<
        ShowModel,
        ErrorModel,
    > {
        if !self.shows.contains_key(id) {
            Err(show_missing_on_update(id))
        } else if !can_withdraw(self.shows[id], payload.total_tickets) {
            Err(ErrorModel::NotEnoughTickets)
        } else {
            Ok(withdraw(self.shows[id], payload.total_tickets))
        }
    }

    /// The state after updating a show: on success the show with its lowered
    /// availability is stored under its own identifier.
    pub open spec fn update_show(self, id: u64, payload: ShowPayloadModel) -> StoreModel {
        match self.update_show_result(id, payload) {
            Ok(show) => self.put_show(show),
            Err(_) => self,
        }
    }

    /// What deleting a show returns.
    pub open spec fn delete_show_result(self, id: u64) -> Result<ShowModel, ErrorModel> {
        if self.shows.contains_key(id) {
            Ok(self.shows[id])
        } else {
            Err(show_missing_on_delete(id))
        }
    }

    /// The state after deleting a show: the show is gone; no booking is
    /// touched.
    pub open spec fn delete_show(self, id: u64) -> StoreModel {
        StoreModel { shows: self.shows.remove(id), ..self }
    }

    /// A new booking is accepted when it asks for at least one ticket, its
    /// show exists, and the show has that many tickets available.
    pub open spec fn accepts_booking(self, payload: BookingPayload) -> bool {
        &&& payload.num_tickets > 0
        &&& self.shows.contains_key(payload.show_id)
        &&& payload.num_tickets <= self.shows[payload.show_id].available_tickets
    }

    /// What adding a booking returns.
    pub open spec fn add_booking_result(self, payload: BookingPayload) -> Option<Booking> {
        if self.accepts_booking(payload) {
            Some(payload.fresh_booking(self.next_id))
        } else {
            None
        }
    }

    /// The state after adding a booking: the show's availability is lowered
    /// by the booked tickets, the booking is stored under the next
    /// identifier and that identifier is used; or nothing has changed.
    pub open spec fn add_booking(self, payload: BookingPayload) -> StoreModel {
        if self.accepts_booking(payload) {
            self.put_show(withdraw(self.shows[payload.show_id], payload.num_tickets)).put_booking(
                self.next_id,
                payload.fresh_booking(self.next_id),
            ).advance()
        } else {
            self
        }
    }

    /// By how many tickets an update changes the booking under `id`.
    pub open spec fn ticket_delta(self, id: u64, payload: BookingPayload) -> int {
        payload.num_tickets - self.bookings[id].num_tickets
    }

    /// An update of a booking passes its checks: the booking and the show
    /// that the payload names exist, the new count is not zero, and the
    /// change is no more than that show has available.
    pub open spec fn passes_booking_update(self, id: u64, payload: BookingPayload) -> bool {
        &&& self.bookings.contains_key(id)
        &&& self.shows.contains_key(payload.show_id)
        &&& payload.num_tickets > 0
        &&& self.ticket_delta(id, payload) <= self.shows[payload.show_id].available_tickets
    }

    /// The availability that an update of a booking gives the show that the
    /// payload names: its availability plus the change.
    pub open spec fn availability_after_update(self, id: u64, payload: BookingPayload) -> int {
        self.shows[payload.show_id].available_tickets + self.ticket_delta(id, payload)
    }

    /// The booking under `id` after an update with `payload`.
    pub open spec fn updated_booking(self, id: u64, payload: BookingPayload) -> Booking {
        Booking {
            id: self.bookings[id].id,
            show_id: payload.show_id,
            user_id: payload.user_id,
            num_tickets: payload.num_tickets,
        }
    }

    /// What updating a booking returns.
    pub open spec fn update_booking_result(self, id: u64, payload: BookingPayload) -> Result<
        Booking,
        ErrorModel,
    > {
        if !self.bookings.contains_key(id) {
            Err(booking_missing(id))
        } else if !self.shows.contains_key(payload.show_id) {
            Err(show_missing(payload.show_id))
        } else if !self.passes_booking_update(id, payload) {
            Err(ErrorModel::NotEnoughTickets)
        } else {
            Ok(self.updated_booking(id, payload))
        }
    }

    /// The state after updating a booking: on success the show that the
    /// payload names has its availability changed by the change of the
    /// booking's count, and the booking holds the payload's fields.
    pub open spec fn update_booking(self, id: u64, payload: BookingPayload) -> StoreModel {
        if self.passes_booking_update(id, payload) {
            self.put_show(
                self.shows[payload.show_id].with_available(
                    self.availability_after_update(id, payload) as u32,
                ),
            ).put_booking(id, self.updated_booking(id, payload))
        } else {
            self
        }
    }

    /// The new availability of an update of a booking is a ticket count.
    pub open spec fn booking_update_fits(self, id: u64, payload: BookingPayload) -> bool {
        self.passes_booking_update(id, payload) ==> 0 <= self.availability_after_update(
            id,
            payload,
        ) <= u32::MAX
    }

    /// What deleting a booking returns.
    pub open spec fn delete_booking_result(self, id: u64) -> Result<Booking, ErrorModel> {
        self.get_booking(id)
    }

    /// Deleting the booking under `id` hands tickets back to a show: the
    /// booking exists and so does the show that it names.
    pub open spec fn restores_tickets(self, id: u64) -> bool {
        self.bookings.contains_key(id) && self.shows.contains_key(self.bookings[id].show_id)
    }

    /// The availability that deleting a booking gives its show.
    pub open spec fn availability_after_delete(self, id: u64) -> int {
        self.shows[self.bookings[id].show_id].available_tickets + self.bookings[id].num_tickets
    }

    /// The state after deleting a booking: the booking is gone, and its
    /// show, where it still exists, has the booking's tickets back.
    pub open spec fn delete_booking(self, id: u64) -> StoreModel {
        let without = StoreModel { bookings: self.bookings.remove(id), ..self };
        if self.restores_tickets(id) {
            without.put_show(
                self.shows[self.bookings[id].show_id].with_available(
                    self.availability_after_delete(id) as u32,
                ),
            )
        } else {
            without
        }
    }

    /// The availability that deleting a booking restores is a ticket count.
    pub open spec fn booking_delete_fits(self, id: u64) -> bool {
        self.restores_tickets(id) ==> self.availability_after_delete(id) <= u32::MAX
    }
}

} // verus!
