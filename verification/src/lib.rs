//! Event model and boundary-support logic for recording game actions as an
//! ordered event chain.
//!
//! The heart of the crate is [`events::GameAction`], a single recorded player
//! action, together with its wire encoding: a tagged, length-prefixed byte
//! format whose encoder and decoder are proved to be mutual inverses.
//! [`version`] holds the byte-level checks that back the C-callable version
//! query living outside the verified core.

pub mod events;
pub mod version;
