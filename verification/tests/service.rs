use show_booking::model::{Booking, BookingPayload, Error, Show, ShowPayload};
use show_booking::store::{update_show_common, Store};

fn payload(title: &str, genre: &str, total_tickets: u32) -> ShowPayload {
    ShowPayload {
        title: title.to_string(),
        genre: genre.to_string(),
        start_time: 1_700_000_000,
        end_time: 1_700_007_200,
        total_tickets,
    }
}

fn book(show_id: u64, user_id: u64, num_tickets: u32) -> BookingPayload {
    BookingPayload { show_id, user_id, num_tickets }
}

fn not_found(msg: &str) -> Error {
    Error::NotFound { msg: msg.to_string() }
}

#[test]
fn a_new_store_issues_zero_first() {
    let mut store = Store::new();
    assert_eq!(store.peek_next_id(), 0);
    assert_eq!(store.next_id(), 0);
    assert_eq!(store.next_id(), 1);
    assert_eq!(store.peek_next_id(), 2);
}

#[test]
fn add_show_stores_the_show_with_all_tickets_available() {
    let mut store = Store::new();
    let show = store.add_show(payload("Hamlet", "drama", 10)).unwrap();
    assert_eq!(
        show,
        Show {
            id: 0,
            title: "Hamlet".to_string(),
            genre: "drama".to_string(),
            start_time: 1_700_000_000,
            end_time: 1_700_007_200,
            total_tickets: 10,
            available_tickets: 10,
        }
    );
    assert_eq!(store.get_show(show.id), Ok(show));
}

#[test]
fn add_show_round_trips_text_beyond_ascii() {
    let mut store = Store::new();
    let show = store.add_show(payload("Die Zauberfl\u{f6}te", "\u{6b4c}\u{5287}", 3)).unwrap();
    let found = store.get_show(show.id).unwrap();
    assert_eq!(found.title, "Die Zauberfl\u{f6}te");
    assert_eq!(found.genre, "\u{6b4c}\u{5287}");
    assert_eq!(found, show);
}

#[test]
fn add_show_rejects_an_empty_title() {
    let mut store = Store::new();
    assert_eq!(store.add_show(payload("", "drama", 10)), None);
    assert_eq!(store.peek_next_id(), 0);
    assert_eq!(store.get_show(0), Err(not_found("a show with id=0 not found")));
}

#[test]
fn add_show_rejects_an_empty_genre() {
    let mut store = Store::new();
    assert_eq!(store.add_show(payload("Hamlet", "", 10)), None);
    assert_eq!(store.peek_next_id(), 0);
    assert!(store._get_show(&0).is_none());
}

#[test]
fn add_show_rejects_zero_tickets() {
    let mut store = Store::new();
    assert_eq!(store.add_show(payload("Hamlet", "drama", 0)), None);
    assert_eq!(store.add_show(ShowPayload::default()), None);
    assert_eq!(store.peek_next_id(), 0);
    assert!(store._get_show(&0).is_none());
}

#[test]
fn get_show_names_the_missing_identifier() {
    let store = Store::new();
    assert_eq!(store.get_show(7), Err(not_found("a show with id=7 not found")));
    assert_eq!(store.get_show(120), Err(not_found("a show with id=120 not found")));
    assert_eq!(
        store.get_show(u64::MAX),
        Err(not_found("a show with id=18446744073709551615 not found"))
    );
}

#[test]
fn update_show_withdraws_the_payload_count_from_availability() {
    let mut store = Store::new();
    let show = store.add_show(payload("Hamlet", "drama", 10)).unwrap();
    let updated = store.update_show(show.id, payload("Macbeth", "tragedy", 3)).unwrap();
    assert_eq!(updated, Show { available_tickets: 7, ..show.clone() });
    assert_eq!(store.get_show(show.id), Ok(updated));
    assert_eq!(store.get_remaining_tickets(show.id), Ok(7));
}

#[test]
fn update_show_can_withdraw_every_available_ticket() {
    let mut store = Store::new();
    let show = store.add_show(payload("Hamlet", "drama", 10)).unwrap();
    let updated = store.update_show(show.id, payload("Hamlet", "drama", 10)).unwrap();
    assert_eq!(updated.available_tickets, 0);
    assert_eq!(updated.total_tickets, 10);
}

#[test]
fn update_show_refuses_zero_and_too_many() {
    let mut store = Store::new();
    let show = store.add_show(payload("Hamlet", "drama", 10)).unwrap();
    assert_eq!(store.update_show(show.id, payload("Hamlet", "drama", 0)), Err(Error::NotEnoughTickets));
    assert_eq!(store.update_show(show.id, payload("Hamlet", "drama", 11)), Err(Error::NotEnoughTickets));
    assert_eq!(store.get_show(show.id), Ok(show));
}

#[test]
fn update_show_names_the_missing_identifier() {
    let mut store = Store::new();
    assert_eq!(
        store.update_show(42, payload("Hamlet", "drama", 1)),
        Err(not_found("couldn't update a show with id=42. show not found"))
    );
}

#[test]
fn delete_show_returns_the_show_and_removes_it() {
    let mut store = Store::new();
    let show = store.add_show(payload("Hamlet", "drama", 10)).unwrap();
    assert_eq!(store.delete_show(show.id), Ok(show.clone()));
    assert_eq!(store.get_show(show.id), Err(not_found("a show with id=0 not found")));
    assert_eq!(
        store.delete_show(show.id),
        Err(not_found("couldn't delete a show with id=0. show not found."))
    );
}

#[test]
fn add_booking_lowers_availability() {
    let mut store = Store::new();
    let show = store.add_show(payload("Hamlet", "drama", 10)).unwrap();
    let booking = store.add_booking(book(show.id, 77, 4)).unwrap();
    assert_eq!(booking, Booking { id: 1, show_id: show.id, user_id: 77, num_tickets: 4 });
    assert_eq!(store.get_booking(booking.id), Ok(booking));
    assert_eq!(store.get_remaining_tickets(show.id), Ok(6));
    assert_eq!(store.get_show(show.id), Ok(Show { available_tickets: 6, ..show }));
}

#[test]
fn add_booking_can_take_the_last_tickets() {
    let mut store = Store::new();
    let show = store.add_show(payload("Hamlet", "drama", 10)).unwrap();
    assert!(store.add_booking(book(show.id, 1, 10)).is_some());
    assert_eq!(store.get_remaining_tickets(show.id), Ok(0));
    assert_eq!(store.add_booking(book(show.id, 2, 1)), None);
}

#[test]
fn add_booking_rejects_zero_tickets() {
    let mut store = Store::new();
    let show = store.add_show(payload("Hamlet", "drama", 10)).unwrap();
    assert_eq!(store.add_booking(book(show.id, 1, 0)), None);
    assert_eq!(store.peek_next_id(), 1);
    assert_eq!(store.get_show(show.id), Ok(show));
}

#[test]
fn add_booking_rejects_a_missing_show() {
    let mut store = Store::new();
    assert_eq!(store.add_booking(book(5, 1, 1)), None);
    assert_eq!(store.peek_next_id(), 0);
    assert!(store._get_booking(&0).is_none());
}

#[test]
fn add_booking_rejects_more_than_available() {
    let mut store = Store::new();
    let show = store.add_show(payload("Hamlet", "drama", 10)).unwrap();
    let first = store.add_booking(book(show.id, 1, 4)).unwrap();
    assert_eq!(store.add_booking(book(show.id, 2, 7)), None);
    assert_eq!(store.peek_next_id(), 2);
    assert_eq!(store.get_remaining_tickets(show.id), Ok(6));
    assert_eq!(store.get_booking(first.id), Ok(first));
    assert_eq!(store.get_booking(2), Err(not_found("a booking with id=2 not found")));
}

#[test]
fn booking_then_deleting_restores_availability() {
    let mut store = Store::new();
    let show = store.add_show(payload("Hamlet", "drama", 10)).unwrap();
    let booking = store.add_booking(book(show.id, 9, 4)).unwrap();
    assert_eq!(store.get_remaining_tickets(show.id), Ok(6));
    assert_eq!(store.delete_booking(booking.id), Ok(booking));
    assert_eq!(store.get_remaining_tickets(show.id), Ok(10));
    assert_eq!(store.get_booking(booking.id), Err(not_found("a booking with id=1 not found")));
    assert_eq!(store.delete_booking(booking.id), Err(not_found("a booking with id=1 not found")));
}

#[test]
fn update_booking_checks_the_change_against_the_named_show() {
    let mut store = Store::new();
    let show = store.add_show(payload("Hamlet", "drama", 7)).unwrap();
    let booking = store.add_booking(book(show.id, 9, 2)).unwrap();
    assert_eq!(store.get_remaining_tickets(show.id), Ok(5));
    // A change of six tickets against five available is refused.
    assert_eq!(store.update_booking(booking.id, book(show.id, 9, 8)), Err(Error::NotEnoughTickets));
    assert_eq!(store.get_booking(booking.id), Ok(booking));
    assert_eq!(store.get_remaining_tickets(show.id), Ok(5));
    // A change of four tickets passes, and the availability moves by the change.
    let updated = store.update_booking(booking.id, book(show.id, 9, 6)).unwrap();
    assert_eq!(updated, Booking { id: booking.id, show_id: show.id, user_id: 9, num_tickets: 6 });
    assert_eq!(store.get_booking(booking.id), Ok(updated));
    assert_eq!(store.get_remaining_tickets(show.id), Ok(9));
}

#[test]
fn update_booking_with_fewer_tickets_moves_availability_by_the_change() {
    let mut store = Store::new();
    let show = store.add_show(payload("Hamlet", "drama", 10)).unwrap();
    let booking = store.add_booking(book(show.id, 9, 5)).unwrap();
    let updated = store.update_booking(booking.id, book(show.id, 12, 2)).unwrap();
    assert_eq!(updated, Booking { id: booking.id, show_id: show.id, user_id: 12, num_tickets: 2 });
    assert_eq!(store.get_remaining_tickets(show.id), Ok(2));
}

#[test]
fn update_booking_to_another_show_touches_only_that_show() {
    let mut store = Store::new();
    let first = store.add_show(payload("Hamlet", "drama", 10)).unwrap();
    let second = store.add_show(payload("Tosca", "opera", 5)).unwrap();
    let booking = store.add_booking(book(first.id, 9, 2)).unwrap();
    // Against the second show the change of four tickets fits its five; against
    // the first show's eight a change of six would also fit, but is not asked.
    assert_eq!(store.update_booking(booking.id, book(second.id, 9, 8)), Err(Error::NotEnoughTickets));
    let moved = store.update_booking(booking.id, book(second.id, 9, 6)).unwrap();
    assert_eq!(moved.show_id, second.id);
    assert_eq!(store.get_remaining_tickets(first.id), Ok(8));
    assert_eq!(store.get_remaining_tickets(second.id), Ok(9));
}

#[test]
fn update_booking_refuses_zero_tickets() {
    let mut store = Store::new();
    let show = store.add_show(payload("Hamlet", "drama", 10)).unwrap();
    let booking = store.add_booking(book(show.id, 9, 2)).unwrap();
    assert_eq!(store.update_booking(booking.id, book(show.id, 9, 0)), Err(Error::NotEnoughTickets));
    assert_eq!(store.get_booking(booking.id), Ok(booking));
    assert_eq!(store.get_remaining_tickets(show.id), Ok(8));
}

#[test]
fn update_booking_names_what_is_missing() {
    let mut store = Store::new();
    let show = store.add_show(payload("Hamlet", "drama", 10)).unwrap();
    let booking = store.add_booking(book(show.id, 9, 2)).unwrap();
    assert_eq!(
        store.update_booking(30, book(show.id, 9, 1)),
        Err(not_found("a booking with id=30 not found"))
    );
    assert_eq!(
        store.update_booking(booking.id, book(31, 9, 1)),
        Err(not_found("a show with id=31 not found"))
    );
}

#[test]
fn delete_show_leaves_its_bookings_retrievable() {
    let mut store = Store::new();
    let show = store.add_show(payload("Hamlet", "drama", 10)).unwrap();
    let booking = store.add_booking(book(show.id, 9, 4)).unwrap();
    assert!(store.delete_show(show.id).is_ok());
    assert_eq!(store.get_booking(booking.id), Ok(booking));
    assert_eq!(store.get_show(booking.show_id), Err(not_found("a show with id=0 not found")));
    assert_eq!(store.get_remaining_tickets(show.id), Err(not_found("a show with id=0 not found")));
}

#[test]
fn deleting_an_orphan_booking_returns_it_and_restores_nothing() {
    let mut store = Store::new();
    let show = store.add_show(payload("Hamlet", "drama", 10)).unwrap();
    let other = store.add_show(payload("Tosca", "opera", 5)).unwrap();
    let booking = store.add_booking(book(show.id, 9, 4)).unwrap();
    assert!(store.delete_show(show.id).is_ok());
    assert_eq!(store.delete_booking(booking.id), Ok(booking));
    assert!(store._get_show(&show.id).is_none());
    assert_eq!(store.get_show(other.id), Ok(other));
}

#[test]
fn shows_and_bookings_share_one_increasing_sequence_of_identifiers() {
    let mut store = Store::new();
    let a = store.add_show(payload("Hamlet", "drama", 10)).unwrap();
    let b = store.add_booking(book(a.id, 1, 1)).unwrap();
    let c = store.add_show(payload("Tosca", "opera", 5)).unwrap();
    let d = store.add_booking(book(c.id, 2, 2)).unwrap();
    assert!(store.delete_booking(b.id).is_ok());
    assert!(store.delete_show(a.id).is_ok());
    let e = store.add_show(payload("Aida", "opera", 5)).unwrap();
    assert_eq!((a.id, b.id, c.id, d.id, e.id), (0, 1, 2, 3, 4));
    assert_eq!(store.peek_next_id(), 5);
}

#[test]
fn availability_stays_within_the_total_over_bookings_and_deletions() {
    let mut store = Store::new();
    let show = store.add_show(payload("Hamlet", "drama", 6)).unwrap();
    let first = store.add_booking(book(show.id, 1, 2)).unwrap();
    let second = store.add_booking(book(show.id, 2, 4)).unwrap();
    assert_eq!(store.get_remaining_tickets(show.id), Ok(0));
    assert!(store.delete_booking(first.id).is_ok());
    assert_eq!(store.get_remaining_tickets(show.id), Ok(2));
    assert!(store.update_show(show.id, payload("Hamlet", "drama", 1)).is_ok());
    assert!(store.delete_booking(second.id).is_ok());
    let left = store.get_show(show.id).unwrap();
    assert_eq!(left.available_tickets, 5);
    assert!(left.available_tickets <= left.total_tickets);
}

#[test]
fn update_show_common_withdraws_or_leaves_the_show() {
    let mut show = Show {
        id: 3,
        title: "Hamlet".to_string(),
        genre: "drama".to_string(),
        start_time: 1,
        end_time: 2,
        total_tickets: 10,
        available_tickets: 4,
    };
    assert_eq!(update_show_common(&mut show, &0), Err(Error::NotEnoughTickets));
    assert_eq!(update_show_common(&mut show, &5), Err(Error::NotEnoughTickets));
    assert_eq!(show.available_tickets, 4);
    assert_eq!(update_show_common(&mut show, &4), Ok(()));
    assert_eq!(show.available_tickets, 0);
    assert_eq!(show.total_tickets, 10);
}

#[test]
fn do_insert_replaces_what_is_stored_under_the_identifier() {
    let mut store = Store::new();
    let show = Show {
        id: 8,
        title: "Hamlet".to_string(),
        genre: "drama".to_string(),
        start_time: 1,
        end_time: 2,
        total_tickets: 10,
        available_tickets: 4,
    };
    store.do_insert_show(&show);
    assert_eq!(store._get_show(&8), Some(show.clone()));
    store.do_insert_show(&Show { available_tickets: 9, ..show.clone() });
    assert_eq!(store._get_show(&8), Some(Show { available_tickets: 9, ..show }));
    assert_eq!(store._get_show(&9), None);
    let booking = Booking { id: 11, show_id: 8, user_id: 5, num_tickets: 3 };
    store.do_insert_booking(&booking);
    assert_eq!(store._get_booking(&11), Some(booking));
    store.do_insert_booking(&Booking { num_tickets: 1, ..booking });
    assert_eq!(store._get_booking(&11), Some(Booking { num_tickets: 1, ..booking }));
    assert_eq!(store._get_booking(&8), None);
    assert_eq!(store.peek_next_id(), 0);
}

#[test]
fn booking_update_fits_unless_the_new_availability_is_no_ticket_count() {
    let mut store = Store::new();
    let show = store.add_show(payload("Hamlet", "drama", 10)).unwrap();
    let booking = store.add_booking(book(show.id, 9, 8)).unwrap();
    // Two tickets are available: giving six back to the booking's count would
    // leave fewer than none.
    assert!(!store.booking_update_fits(booking.id, &book(show.id, 9, 2)));
    assert!(store.booking_update_fits(booking.id, &book(show.id, 9, 6)));
    assert!(store.booking_update_fits(booking.id, &book(show.id, 9, 10)));
    assert!(store.booking_update_fits(booking.id, &book(show.id, 9, 0)));
    assert!(store.booking_update_fits(booking.id, &book(show.id, 9, 400)));
    assert!(store.booking_update_fits(99, &book(show.id, 9, 2)));
    assert!(store.booking_update_fits(booking.id, &book(99, 9, 2)));
}

#[test]
fn booking_update_does_not_fit_beyond_the_largest_count() {
    let mut store = Store::new();
    let show = store.add_show(payload("Hamlet", "drama", u32::MAX)).unwrap();
    let booking = store.add_booking(book(show.id, 9, 1)).unwrap();
    assert_eq!(store.get_remaining_tickets(show.id), Ok(u32::MAX - 1));
    assert!(store.booking_update_fits(booking.id, &book(show.id, 9, 2)));
    assert!(!store.booking_update_fits(booking.id, &book(show.id, 9, 3)));
}

#[test]
fn booking_delete_fits_unless_the_restored_availability_is_no_ticket_count() {
    let mut store = Store::new();
    let show = store.add_show(payload("Hamlet", "drama", u32::MAX)).unwrap();
    let booking = store.add_booking(book(show.id, 9, 5)).unwrap();
    assert!(store.booking_delete_fits(booking.id));
    assert!(store.booking_delete_fits(77));
    // Raising the booking's count by two raises the availability by two as well.
    assert!(store.update_booking(booking.id, book(show.id, 9, 7)).is_ok());
    assert_eq!(store.get_remaining_tickets(show.id), Ok(u32::MAX - 3));
    assert!(!store.booking_delete_fits(booking.id));
    assert!(store.delete_show(show.id).is_ok());
    assert!(store.booking_delete_fits(booking.id));
}

#[test]
fn id_text_writes_decimal_digits() {
    assert_eq!(show_booking::text::id_text(0), "0");
    assert_eq!(show_booking::text::id_text(9), "9");
    assert_eq!(show_booking::text::id_text(10), "10");
    assert_eq!(show_booking::text::id_text(1_234_567_890), "1234567890");
    assert_eq!(show_booking::text::id_text(u64::MAX), "18446744073709551615");
}
