//! Sequences of requests: the state that a run of requests leaves behind and
//! the identifiers that it issues.

use crate::ledger::StoreModel;
use crate::model::{Booking, BookingPayload, ShowPayloadModel};
use vstd::prelude::*;

verus! {

/// One request that changes the state of the service.
pub ghost enum Request {
    AddShow { payload: ShowPayloadModel },
    UpdateShow { id: u64, payload: ShowPayloadModel },
    DeleteShow { id: u64 },
    AddBooking { payload: BookingPayload },
    UpdateBooking { id: u64, payload: BookingPayload },
    DeleteBooking { id: u64 },
}

/// The tickets of `show` that the booking under `key` holds: none where
/// there is no such booking or it names another show.
pub open spec fn held(bookings: Map<u64, Booking>, show: u64, key: nat) -> nat {
    if key <= u64::MAX && bookings.contains_key(key as u64) && bookings[key as u64].show_id
        == show {
        bookings[key as u64].num_tickets as nat
    } else {
        0
    }
}

/// The tickets of `show` that the bookings with keys below `bound` hold
/// together.
pub open spec fn booked_below(bookings: Map<u64, Booking>, show: u64, bound: nat) -> nat
    decreases bound,
{
    if bound == 0 {
        0
    } else {
        booked_below(bookings, show, (bound - 1) as nat) + held(
            bookings,
            show,
            (bound - 1) as nat,
        )
    }
}

impl StoreModel {
    /// The state after one request.
    pub open spec fn step(self, request: Request) -> StoreModel {
        match request {
            Request::AddShow { payload } => self.add_show(payload),
            Request::UpdateShow { id, payload } => self.update_show(id, payload),
            Request::DeleteShow { id } => self.delete_show(id),
            Request::AddBooking { payload } => self.add_booking(payload),
            Request::UpdateBooking { id, payload } => self.update_booking(id, payload),
            Request::DeleteBooking { id } => self.delete_booking(id),
        }
    }

    /// The identifier that a request is given in this state, if it creates a
    /// record.
    pub open spec fn issued(self, request: Request) -> Option<u64> {
        match request {
            Request::AddShow { payload } => match self.add_show_result(payload) {
                Some(show) => Some(show.id),
                None => None,
            },
            Request::AddBooking { payload } => match self.add_booking_result(payload) {
                Some(booking) => Some(booking.id),
                None => None,
            },
            _ => None,
        }
    }

    /// The request can be carried out in this state within the limits of the
    /// machine's integers: a request that creates a record finds the counter
    /// below its last value, and one that changes an availability gives a
    /// value that is a ticket count.
    pub open spec fn admits(self, request: Request) -> bool {
        match request {
            Request::AddShow { payload } => payload.acceptable() ==> self.next_id < u64::MAX,
            Request::AddBooking { payload } => self.accepts_booking(payload) ==> self.next_id
                < u64::MAX,
            Request::UpdateBooking { id, payload } => self.booking_update_fits(id, payload),
            Request::DeleteBooking { id } => self.booking_delete_fits(id),
            _ => true,
        }
    }

    /// The request does not unsettle the accounts of a show: an update of a
    /// booking that passes its checks keeps the booking's show and does not
    /// raise its count.
    pub open spec fn settles(self, request: Request) -> bool {
        match request {
            Request::UpdateBooking { id, payload } => self.passes_booking_update(id, payload) ==> {
                &&& payload.show_id == self.bookings[id].show_id
                &&& payload.num_tickets <= self.bookings[id].num_tickets
            },
            _ => true,
        }
    }

    /// The state after a run of requests, first to last.
    pub open spec fn run(self, requests: Seq<Request>) -> StoreModel
        decreases requests.len(),
    {
        if requests.len() == 0 {
            self
        } else {
            self.run(requests.drop_last()).step(requests.last())
        }
    }

    /// Every request of the run is admitted by the state that it meets.
    pub open spec fn admits_run(self, requests: Seq<Request>) -> bool
        decreases requests.len(),
    {
        requests.len() > 0 ==> self.admits_run(requests.drop_last()) && self.run(
            requests.drop_last(),
        ).admits(requests.last())
    }

    /// Every request of the run settles in the state that it meets.
    pub open spec fn settles_run(self, requests: Seq<Request>) -> bool
        decreases requests.len(),
    {
        requests.len() > 0 ==> self.settles_run(requests.drop_last()) && self.run(
            requests.drop_last(),
        ).settles(requests.last())
    }

    /// The identifiers that a run of requests issues, in the order of the
    /// requests.
    pub open spec fn issued_by(self, requests: Seq<Request>) -> Seq<u64>
        decreases requests.len(),
    {
        if requests.len() == 0 {
            Seq::empty()
        } else {
            match self.run(requests.drop_last()).issued(requests.last()) {
                Some(id) => self.issued_by(requests.drop_last()).push(id),
                None => self.issued_by(requests.drop_last()),
            }
        }
    }

    /// The tickets of `show` that the bookings hold together.
    pub open spec fn booked(self, show: u64) -> nat {
        booked_below(self.bookings, show, self.next_id as nat)
    }

    /// The accounts are in order: every record lies under an identifier that
    /// was issued, every show lies under its own identifier, every booking
    /// names a show whose identifier was issued, and of every show the
    /// available tickets and the booked ones together are no more than its
    /// total.
    pub open spec fn conserved(self) -> bool {
        &&& forall|id: u64| #[trigger]
            self.shows.contains_key(id) ==> self.shows[id].id == id && id < self.next_id
        &&& forall|id: u64| #[trigger]
            self.bookings.contains_key(id) ==> id < self.next_id && self.bookings[id].show_id
                < self.next_id
        &&& forall|id: u64| #[trigger]
            self.shows.contains_key(id) ==> self.shows[id].available_tickets + self.booked(id)
                <= self.shows[id].total_tickets
    }
}

} // verus!
