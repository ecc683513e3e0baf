//! Verified core of an account-directory service.
//!
//! The library covers the request/reply rules of the service: the opaque
//! identifier codec, the calendar-date / epoch-millisecond codec, the row
//! conversions of the account store, the decision logic of the three
//! request handlers (create, get, update), and the byte framing of every
//! reply and broadcast. Transport and database I/O live outside the
//! library and exchange plain values with it.

pub mod account;
pub mod dates;
pub mod handlers;
pub mod ids;
pub mod store;
pub mod wire;
