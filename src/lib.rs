//! Fulfillment logic for a conversational agent that controls room lights.
//!
//! An inbound request names a recognized intent and carries the parameters
//! that were extracted from the user's utterance. The library checks the
//! request's shape, routes the intent to one of a fixed set of handlers and
//! builds the confirmation text that the agent relays to the user.

pub mod handlers;
pub mod params;
pub mod request;
pub mod router;
