//! Secret handling, one-time code generation and loopback delivery for the
//! `xlauth` launcher helper.
//!
//! The library holds the logic: validating and re-encoding a shared secret,
//! scrubbing every buffer that held it, producing the current code, framing
//! the request, and the decisions of the connect-retry loop. The credential
//! store, the network socket and the clock stay with the caller.
pub mod codec;
pub mod delivery;
pub mod scrub;
pub mod totp;
