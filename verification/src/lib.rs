//! A connection-accepting responder, as two state machines.
//!
//! `payload` holds the fixed response, `connection` decides what one accepted
//! connection does next, and `listener` decides what the accepting loop does
//! next. The caller performs the socket operations and reports their outcome.
//! `connection_laws` and `listener_laws` prove what holds of the two machines
//! over every sequence of outcomes.

pub mod payload;
pub mod connection;
pub mod connection_laws;
pub mod listener;
pub mod listener_laws;
