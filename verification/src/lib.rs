//! Verified core of a client that walks a learner through the rooms of an
//! online course platform: the calendar arithmetic that bounds the query
//! window, the requests it sends, how it reads the replies, and the order in
//! which a room is worked through.

pub mod api;
pub mod config;
pub mod duration_probe;
pub mod json;
pub mod room_flow;
pub mod session;
pub mod text;
pub mod time_utils;
