//! Verified core of a ground-station command-line client: parsing of the
//! operator's date and time input, normalisation of orbital element sets,
//! client configuration and the interpretation of the scheduling API's reply.

pub mod client;
pub mod datetime;
pub mod error;
