//! The client side of the IPC protocol of a tiling window manager: frames on
//! a byte stream, and the typed replies and events that their JSON payloads
//! decode to.
//!
//! - [`frame`] writes and reads the fourteen-byte header and the payload.
//! - [`registry`] holds the type codes of requests and events, and
//!   [`sway_message_type`] the codes of the requests as constants.
//! - [`json`] parses a payload; [`decode`] reads typed values from it.
//! - [`scalar`] holds the encodings of single values: the zero sentinel and
//!   the colors.
//! - [`tree`], [`outputs`], [`inputs`] and [`bar`] hold what the window
//!   manager reports.
//! - [`replies`] resolves a payload as the reply to a request, [`events`]
//!   decodes an event, and [`message`] does the one or the other by the type
//!   code of a frame.
//! - [`session`] keeps the turns of a connection.
//!
//! Nothing here reads or writes: a caller moves the bytes.

use vstd::prelude::*;

pub mod bar;
pub mod decode;
pub mod error;
pub mod events;
pub mod frame;
pub mod inputs;
pub mod json;
pub mod message;
pub mod outputs;
pub mod registry;
pub mod replies;
pub mod scalar;
pub mod session;
pub mod sway_message_type;
pub mod text;
pub mod tree;
