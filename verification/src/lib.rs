//! Per-owner privacy-flag manager.
//!
//! Records whether an account has opted into privacy mode, accepts a write
//! only when it changes the effective value, and couples every accepted
//! write with a change-notification event.

pub mod errors;
pub mod events;
pub mod laws;
pub mod privacy;
pub mod registry;
