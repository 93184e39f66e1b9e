//! Client-side session keeping for a cloud service: a single-writer cache of
//! the access token with its refresh decisions, the client side of the
//! two-round device key exchange, and the volume records a device reports.

pub mod devices;
pub mod handshake;
pub mod text;
pub mod token;
pub mod volume;
