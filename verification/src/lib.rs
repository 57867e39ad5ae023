//! Room registry and broadcast engine of a room-scoped chat service.
//!
//! The library holds the rooms, their participants and the protocol by which
//! joins, departures, renames and chat messages are fanned out. It performs
//! no I/O: every operation returns the envelopes to deliver and the
//! connections to deliver them to, and the caller owns the channels.

pub mod addressee;
pub mod chat_room;
pub mod clock;
pub mod controller;
pub mod entropy;
pub mod laws;
pub mod model;
pub mod post;
pub mod ws_message;
