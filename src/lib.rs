//! Client-side core of a realtime chat: the wire envelope, the dispatch of
//! inbound envelopes into the roster and message log, and the projection of
//! that state into a renderable view model.

pub mod json;
pub mod protocol;
pub mod chat;
pub mod view;
