//! The records of the service and their mathematical models.

use vstd::prelude::*;

verus! {

/// A bookable event with a fixed ticket inventory.
#[derive(Clone, Debug, PartialEq, Eq, Default)]
pub struct Show {
    pub id: u64,
    pub title: String,
    pub genre: String,
    pub start_time: u64,
    pub end_time: u64,
    pub total_tickets: u32,
    pub available_tickets: u32,
}

/// What a caller supplies to create or update a show.
#[derive(Clone, Debug, PartialEq, Eq, Default)]
pub struct ShowPayload {
    pub title: String,
    pub genre: String,
    pub start_time: u64,
    pub end_time: u64,
    pub total_tickets: u32,
}

/// A reservation of some tickets of one show. All of its fields are
/// integers, so a booking is its own model.
#[derive(Clone, Copy, Debug, PartialEq, Eq, Structural, Default)]
pub struct Booking {
    pub id: u64,
    pub show_id: u64,
    pub user_id: u64,
    pub num_tickets: u32,
}

/// What a caller supplies to create or update a booking.
#[derive(Clone, Copy, Debug, PartialEq, Eq, Structural, Default)]
pub struct BookingPayload {
    pub show_id: u64,
    pub user_id: u64,
    pub num_tickets: u32,
}

/// Why an operation failed.
#[derive(Clone, Debug, PartialEq, Eq)]
pub enum Error {
    /// No record is stored under the identifier.
    NotFound { msg: String },
    /// The requested change of a ticket count is zero or exceeds what is
    /// available.
    NotEnoughTickets,
    /// Reserved; no operation returns it.
    InvalidInput,
}

/// The model of a [`Show`]: its texts as sequences of characters.
pub ghost struct ShowModel {
    pub id: u64,
    pub title: Seq<char>,
    pub genre: Seq<char>,
    pub start_time: u64,
    pub end_time: u64,
    pub total_tickets: u32,
    pub available_tickets: u32,
}

/// The model of a [`ShowPayload`].
pub ghost struct ShowPayloadModel {
    pub title: Seq<char>,
    pub genre: Seq<char>,
    pub start_time: u64,
    pub end_time: u64,
    pub total_tickets: u32,
}

/// The model of an [`Error`].
pub ghost enum ErrorModel {
    NotFound { msg: Seq<char> },
    NotEnoughTickets,
    InvalidInput,
}

impl View for Show {
    type V = ShowModel;

    open spec fn view(&self) -> ShowModel {
        ShowModel {
            id: self.id,
            title: self.title@,
            genre: self.genre@,
            start_time: self.start_time,
            end_time: self.end_time,
            total_tickets: self.total_tickets,
            available_tickets: self.available_tickets,
        }
    }
}

impl View for ShowPayload {
    type V = ShowPayloadModel;

    open spec fn view(&self) -> ShowPayloadModel {
        ShowPayloadModel {
            title: self.title@,
            genre: self.genre@,
            start_time: self.start_time,
            end_time: self.end_time,
            total_tickets: self.total_tickets,
        }
    }
}

impl View for Error {
    type V = ErrorModel;

    open spec fn view(&self) -> ErrorModel {
        match self {
            Error::NotFound { msg } => ErrorModel::NotFound { msg: msg@ },
            Error::NotEnoughTickets => ErrorModel::NotEnoughTickets,
            Error::InvalidInput => ErrorModel::InvalidInput,
        }
    }
}

impl ShowModel {
    /// The show holds no more available tickets than it has in total.
    pub open spec fn within_total(self) -> bool {
        self.available_tickets <= self.total_tickets
    }

    /// The same show with another count of available tickets.
    pub open spec fn with_available(self, available: u32) -> ShowModel {
        ShowModel { available_tickets: available, ..self }
    }
}

impl ShowPayloadModel {
    /// A new show is accepted when it has a title, a genre and at least one
    /// ticket.
    pub open spec fn acceptable(self) -> bool {
        self.title.len() > 0 && self.genre.len() > 0 && self.total_tickets > 0
    }

    /// The show that is created from this payload under `id`: all of its
    /// tickets are available.
    pub open spec fn fresh_show(self, id: u64) -> ShowModel {
        ShowModel {
            id,
            title: self.title,
            genre: self.genre,
            start_time: self.start_time,
            end_time: self.end_time,
            total_tickets: self.total_tickets,
            available_tickets: self.total_tickets,
        }
    }
}

impl BookingPayload {
    /// The booking that is created from this payload under `id`.
    pub open spec fn fresh_booking(self, id: u64) -> Booking {
        Booking { id, show_id: self.show_id, user_id: self.user_id, num_tickets: self.num_tickets }
    }
}

/// The model of an operation's result that carries a show.
pub open spec fn show_outcome(r: Result<Show, Error>) -> Result<ShowModel, ErrorModel> {
    match r {
        Ok(show) => Ok(show@),
        Err(e) => Err(e@),
    }
}

/// The model of an operation's result that carries a booking.
pub open spec fn booking_outcome(r: Result<Booking, Error>) -> Result<Booking, ErrorModel> {
    match r {
        Ok(booking) => Ok(booking),
        Err(e) => Err(e@),
    }
}

/// The model of an operation's result that carries a ticket count.
pub open spec fn count_outcome(r: Result<u32, Error>) -> Result<u32, ErrorModel> {
    match r {
        Ok(count) => Ok(count),
        Err(e) => Err(e@),
    }
}

/// The model of a show that may be absent.
pub open spec fn show_option(r: Option<Show>) -> Option<ShowModel> {
    match r {
        Some(show) => Some(show@),
        None => None,
    }
}

} // verus!
