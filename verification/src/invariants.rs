//! What holds of the rules of the service, proved of the mathematical state.

use crate::history::{booked_below, held, Request};
use crate::ledger::StoreModel;
use crate::model::{Booking, BookingPayload, ShowPayloadModel};
use vstd::prelude::*;

verus! {

/// Adding a show keeps every show within its total.
pub proof fn add_show_keeps_totals(s: StoreModel, payload: ShowPayloadModel)
    requires
        s.within_totals(),
    ensures
        s.add_show(payload).within_totals(),
{
}

/// Updating a show keeps every show within its total.
pub proof fn update_show_keeps_totals(s: StoreModel, id: u64, payload: ShowPayloadModel)
    requires
        s.within_totals(),
    ensures
        s.update_show(id, payload).within_totals(),
{
}

/// Deleting a show keeps every show within its total.
pub proof fn delete_show_keeps_totals(s: StoreModel, id: u64)
    requires
        s.within_totals(),
    ensures
        s.delete_show(id).within_totals(),
{
}

/// Adding a booking keeps every show within its total.
pub proof fn add_booking_keeps_totals(s: StoreModel, payload: BookingPayload)
    requires
        s.within_totals(),
    ensures
        s.add_booking(payload).within_totals(),
{
}

/// Updating a booking keeps every show within its total exactly when the
/// availability that it gives the show is no more than the show's total.
pub proof fn update_booking_keeps_totals(s: StoreModel, id: u64, payload: BookingPayload)
    requires
        s.within_totals(),
        s.booking_update_fits(id, payload),
    ensures
        s.update_booking(id, payload).within_totals() <==> (s.passes_booking_update(id, payload)
            ==> s.availability_after_update(id, payload)
            <= s.shows[payload.show_id].total_tickets),
{
    if s.passes_booking_update(id, payload) {
        let show = s.shows[payload.show_id];
        let after = s.update_booking(id, payload);
        assert(after.shows.contains_key(show.id));
        assert(after.shows[show.id].available_tickets == s.availability_after_update(id, payload));
    }
}

/// Deleting a booking keeps every show within its total exactly when the
/// availability that it restores is no more than the show's total.
pub proof fn delete_booking_keeps_totals(s: StoreModel, id: u64)
    requires
        s.within_totals(),
        s.booking_delete_fits(id),
    ensures
        s.delete_booking(id).within_totals() <==> (s.restores_tickets(id)
            ==> s.availability_after_delete(id) <= s.shows[s.bookings[id].show_id].total_tickets),
{
    if s.restores_tickets(id) {
        let show = s.shows[s.bookings[id].show_id];
        let after = s.delete_booking(id);
        assert(after.shows.contains_key(show.id));
        assert(after.shows[show.id].available_tickets == s.availability_after_delete(id));
    }
}

/// A show payload that is not acceptable is rejected: nothing is returned,
/// no record is made and no identifier is used.
pub proof fn rejected_show_changes_nothing(s: StoreModel, payload: ShowPayloadModel)
    requires
        !payload.acceptable(),
    ensures
        s.add_show_result(payload) is None,
        s.add_show(payload) == s,
{
}

/// A booking that asks for more tickets than its show has available is
/// rejected: nothing is returned and the state is as before.
pub proof fn overbooking_changes_nothing(s: StoreModel, payload: BookingPayload)
    requires
        s.shows.contains_key(payload.show_id),
        payload.num_tickets > s.shows[payload.show_id].available_tickets,
    ensures
        s.add_booking_result(payload) is None,
        s.add_booking(payload) == s,
{
}

/// A show that was added is found under the identifier it was given, as it
/// was returned.
pub proof fn added_show_is_found(s: StoreModel, payload: ShowPayloadModel)
    requires
        payload.acceptable(),
    ensures
        s.add_show_result(payload) is Some,
        s.add_show(payload).get_show(s.add_show_result(payload)->0.id) == Ok::<_, crate::model::ErrorModel>(
            s.add_show_result(payload)->0,
        ),
{
}

/// Deleting a show leaves every booking as it was, those of the deleted
/// show too.
pub proof fn deleted_show_leaves_bookings(s: StoreModel, show_id: u64, booking_id: u64)
    ensures
        s.delete_show(show_id).get_booking(booking_id) == s.get_booking(booking_id),
        s.delete_show(show_id).bookings == s.bookings,
        s.delete_show(show_id).get_show(show_id) is Err,
{
}

/// Two collections of bookings that hold the same tickets of a show under
/// every key below a bound hold the same tickets of it below that bound.
pub proof fn booked_below_frame(
    before: Map<u64, Booking>,
    after: Map<u64, Booking>,
    show: u64,
    bound: nat,
)
    requires
        forall|key: nat|
            key < bound ==> #[trigger] held(before, show, key) == held(after, show, key),
    ensures
        booked_below(before, show, bound) == booked_below(after, show, bound),
    decreases bound,
{
    if bound > 0 {
        booked_below_frame(before, after, show, (bound - 1) as nat);
    }
}

/// Two collections of bookings that differ under one key only differ in the
/// tickets of a show that they hold by what they hold under that key.
pub proof fn booked_below_point(
    before: Map<u64, Booking>,
    after: Map<u64, Booking>,
    show: u64,
    bound: nat,
    point: nat,
)
    requires
        point < bound,
        forall|key: nat|
            key < bound && key != point ==> #[trigger] held(before, show, key) == held(
                after,
                show,
                key,
            ),
    ensures
        booked_below(before, show, bound) - held(before, show, point) == booked_below(
            after,
            show,
            bound,
        ) - held(after, show, point),
    decreases bound,
{
    if bound - 1 == point {
        booked_below_frame(before, after, show, point);
    } else {
        booked_below_point(before, after, show, (bound - 1) as nat, point);
    }
}

/// Bookings that hold no ticket of a show under any key below a bound hold
/// none of it below that bound.
pub proof fn booked_below_none(bookings: Map<u64, Booking>, show: u64, bound: nat)
    requires
        forall|key: nat| key < bound ==> #[trigger] held(bookings, show, key) == 0,
    ensures
        booked_below(bookings, show, bound) == 0,
    decreases bound,
{
    if bound > 0 {
        booked_below_none(bookings, show, (bound - 1) as nat);
    }
}

/// Where the accounts are in order, every show is within its total.
pub proof fn conserved_within_totals(s: StoreModel)
    requires
        s.conserved(),
    ensures
        s.within_totals(),
{
}

/// Where the accounts are in order, the tickets of any booking can be handed
/// back to its show: the availability that results is no more than the
/// show's total.
pub proof fn conserved_admits_delete_booking(s: StoreModel, id: u64)
    requires
        s.conserved(),
    ensures
        s.booking_delete_fits(id),
        s.restores_tickets(id) ==> s.availability_after_delete(id)
            <= s.shows[s.bookings[id].show_id].total_tickets,
{
    if s.restores_tickets(id) {
        let show = s.bookings[id].show_id;
        let without = s.bookings.remove(id);
        assert(s.shows.contains_key(show));
        assert(s.bookings.contains_key(id));
        booked_below_point(s.bookings, without, show, s.next_id as nat, id as nat);
        assert(held(s.bookings, show, id as nat) == s.bookings[id].num_tickets);
    }
}

/// Adding a show keeps the accounts in order.
pub proof fn add_show_keeps_conserved(s: StoreModel, payload: ShowPayloadModel)
    requires
        s.conserved(),
        payload.acceptable() ==> s.next_id < u64::MAX,
    ensures
        s.add_show(payload).conserved(),
{
    let after = s.add_show(payload);
    if payload.acceptable() {
        let fresh = s.next_id;
        assert forall|id: u64| #[trigger] after.shows.contains_key(id) implies after.shows[id].available_tickets
            + after.booked(id) <= after.shows[id].total_tickets by {
            if id == fresh {
                booked_below_none(s.bookings, id, after.next_id as nat);
            } else {
                assert(s.shows.contains_key(id));
                assert(held(s.bookings, id, fresh as nat) == 0);
            }
        }
    }
}

/// Updating a show keeps the accounts in order.
pub proof fn update_show_keeps_conserved(s: StoreModel, id: u64, payload: ShowPayloadModel)
    requires
        s.conserved(),
    ensures
        s.update_show(id, payload).conserved(),
{
    let after = s.update_show(id, payload);
    assert forall|other: u64| #[trigger] after.shows.contains_key(other) implies after.shows[other].available_tickets
        + after.booked(other) <= after.shows[other].total_tickets by {
        assert(s.shows.contains_key(other));
    }
}

/// Deleting a show keeps the accounts in order.
pub proof fn delete_show_keeps_conserved(s: StoreModel, id: u64)
    requires
        s.conserved(),
    ensures
        s.delete_show(id).conserved(),
{
    let after = s.delete_show(id);
    assert forall|other: u64| #[trigger] after.shows.contains_key(other) implies after.shows[other].available_tickets
        + after.booked(other) <= after.shows[other].total_tickets by {
        assert(s.shows.contains_key(other));
    }
}

/// Adding a booking keeps the accounts in order.
pub proof fn add_booking_keeps_conserved(s: StoreModel, payload: BookingPayload)
    requires
        s.conserved(),
        s.accepts_booking(payload) ==> s.next_id < u64::MAX,
    ensures
        s.add_booking(payload).conserved(),
{
    let after = s.add_booking(payload);
    if s.accepts_booking(payload) {
        let fresh = s.next_id;
        assert(s.shows.contains_key(payload.show_id));
        assert forall|id: u64| #[trigger] after.shows.contains_key(id) implies after.shows[id].available_tickets
            + after.booked(id) <= after.shows[id].total_tickets by {
            assert(s.shows.contains_key(id));
            booked_below_frame(s.bookings, after.bookings, id, fresh as nat);
            assert(held(after.bookings, id, fresh as nat) == if id == payload.show_id {
                payload.num_tickets as nat
            } else {
                0
            });
        }
    }
}

/// Deleting a booking keeps the accounts in order.
pub proof fn delete_booking_keeps_conserved(s: StoreModel, id: u64)
    requires
        s.conserved(),
    ensures
        s.booking_delete_fits(id),
        s.delete_booking(id).conserved(),
{
    conserved_admits_delete_booking(s, id);
    let after = s.delete_booking(id);
    if s.bookings.contains_key(id) {
        let gone = s.bookings[id];
        assert forall|other: u64| #[trigger] after.shows.contains_key(other) implies after.shows[other].available_tickets
            + after.booked(other) <= after.shows[other].total_tickets by {
            assert(s.shows.contains_key(other));
            booked_below_point(s.bookings, after.bookings, other, s.next_id as nat, id as nat);
            assert(held(after.bookings, other, id as nat) == 0);
            assert(held(s.bookings, other, id as nat) == if other == gone.show_id {
                gone.num_tickets as nat
            } else {
                0
            });
        }
    } else {
        assert(after.bookings =~= s.bookings);
    }
}

/// Updating a booking keeps the accounts in order where the update keeps
/// the booking's show and does not raise its count.
pub proof fn update_booking_keeps_conserved(s: StoreModel, id: u64, payload: BookingPayload)
    requires
        s.conserved(),
        s.booking_update_fits(id, payload),
        s.settles(Request::UpdateBooking { id, payload }),
    ensures
        s.update_booking(id, payload).conserved(),
{
    let after = s.update_booking(id, payload);
    if s.passes_booking_update(id, payload) {
        let was = s.bookings[id];
        assert(s.shows.contains_key(payload.show_id));
        assert forall|other: u64| #[trigger] after.shows.contains_key(other) implies after.shows[other].available_tickets
            + after.booked(other) <= after.shows[other].total_tickets by {
            assert(s.shows.contains_key(other));
            booked_below_point(s.bookings, after.bookings, other, s.next_id as nat, id as nat);
            assert(held(after.bookings, other, id as nat) == if other == was.show_id {
                payload.num_tickets as nat
            } else {
                0
            });
            assert(held(s.bookings, other, id as nat) == if other == was.show_id {
                was.num_tickets as nat
            } else {
                0
            });
        }
    }
}

/// A request that the state admits and that settles keeps the accounts in
/// order.
pub proof fn step_keeps_conserved(s: StoreModel, request: Request)
    requires
        s.conserved(),
        s.admits(request),
        s.settles(request),
    ensures
        s.step(request).conserved(),
{
    match request {
        Request::AddShow { payload } => add_show_keeps_conserved(s, payload),
        Request::UpdateShow { id, payload } => update_show_keeps_conserved(s, id, payload),
        Request::DeleteShow { id } => delete_show_keeps_conserved(s, id),
        Request::AddBooking { payload } => add_booking_keeps_conserved(s, payload),
        Request::UpdateBooking { id, payload } => update_booking_keeps_conserved(s, id, payload),
        Request::DeleteBooking { id } => delete_booking_keeps_conserved(s, id),
    }
}

/// After any run of requests that are admitted and settle, from a state
/// whose accounts are in order, the accounts are in order and every show is
/// within its total.
pub proof fn run_keeps_conserved(s: StoreModel, requests: Seq<Request>)
    requires
        s.conserved(),
        s.admits_run(requests),
        s.settles_run(requests),
    ensures
        s.run(requests).conserved(),
        s.run(requests).within_totals(),
    decreases requests.len(),
{
    if requests.len() > 0 {
        run_keeps_conserved(s, requests.drop_last());
        step_keeps_conserved(s.run(requests.drop_last()), requests.last());
    }
    conserved_within_totals(s.run(requests));
}

/// A request never lowers the counter, and raises it by one exactly when it
/// issues an identifier, which is the counter's value before.
pub proof fn step_counts_identifiers(s: StoreModel, request: Request)
    requires
        s.admits(request),
    ensures
        s.issued(request) is Some ==> s.issued(request) == Some(s.next_id) && s.step(
            request,
        ).next_id == s.next_id + 1,
        s.issued(request) is None ==> s.step(request).next_id == s.next_id,
{
}

/// The identifiers that a run of admitted requests issues, for shows and
/// bookings alike, are strictly increasing in the order of the requests; none
/// is below the counter's value at the start and all are below its value at
/// the end.
pub proof fn issued_identifiers_increase(s: StoreModel, requests: Seq<Request>)
    requires
        s.admits_run(requests),
    ensures
        s.next_id <= s.run(requests).next_id,
        forall|i: int|
            0 <= i < s.issued_by(requests).len() ==> s.next_id <= #[trigger] s.issued_by(
                requests,
            )[i] < s.run(requests).next_id,
        forall|i: int, j: int|
            0 <= i < j < s.issued_by(requests).len() ==> s.issued_by(requests)[i] < s.issued_by(
                requests,
            )[j],
    decreases requests.len(),
{
    if requests.len() > 0 {
        let earlier = requests.drop_last();
        issued_identifiers_increase(s, earlier);
        step_counts_identifiers(s.run(earlier), requests.last());
        let ids = s.issued_by(requests);
        let ids_earlier = s.issued_by(earlier);
        assert forall|i: int| 0 <= i < ids.len() implies s.next_id <= #[trigger] ids[i] < s.run(
            requests,
        ).next_id by {
            if i < ids_earlier.len() {
                assert(ids[i] == ids_earlier[i]);
            }
        }
        assert forall|i: int, j: int| 0 <= i < j < ids.len() implies ids[i] < ids[j] by {
            assert(ids[i] == ids_earlier[i]);
            if j < ids_earlier.len() {
                assert(ids[j] == ids_earlier[j]);
            }
        }
    }
}

/// The empty state, whose counter stands at `next_id`, has its accounts in
/// order.
pub proof fn empty_is_conserved(next_id: u64)
    ensures
        (StoreModel { shows: Map::empty(), bookings: Map::empty(), next_id }).conserved(),
{
}

} // verus!
