//! Decision logic of the request handlers.
//!
//! Every handler walks the same states: a decoded request is validated, a
//! single store operation may run, a reply goes back to the requester, and a
//! successful mutation is broadcast. The validation and the shaping of
//! replies and broadcasts are decided here, as plain functions from request
//! values to actions; the dispatch shell performs the store call and the
//! sends, and feeds each outcome back in.

pub mod create;
pub mod get;
pub mod update;
