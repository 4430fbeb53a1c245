//! Shows, bookings and the ticket accounting that ties them together, kept in
//! stable memory.

pub mod history;
pub mod invariants;
pub mod ledger;
pub mod model;
pub mod store;
pub mod tables;
pub mod text;
