//! Token cache and refresh coordination for a service that hands out a
//! short-lived check-in token, as text or as a rendered QR code.

pub mod cache;
pub mod derive;
pub mod err;
pub mod laws;
pub mod outside;
pub mod request;
