//! Recording-session controller: a two-state recording session, a pointer
//! tracker fed by raw input events, click emission gated by the session
//! status, and the static device enumerations of the capture surface.

pub mod capture;
pub mod devices;
pub mod engine;
pub mod session;
