//! What holds of parsing, pseudonymizing and rendering together.

pub mod consumption;
pub mod pseudonyms;
pub mod round_trip;
pub mod well_formed;
