//! The type codes of the requests, as the window manager numbers them.

use vstd::prelude::*;

verus! {

/// The payload is parsed and run as commands.
pub const RUN_COMMAND: u32 = 0u32;

/// No payload; asks for the list of workspaces.
pub const GET_WORKSPACES: u32 = 1u32;

/// Subscribes this connection to the event types named in the payload.
pub const SUBSCRIBE: u32 = 2u32;

/// No payload; asks for the list of outputs.
pub const GET_OUTPUTS: u32 = 3u32;

/// No payload; asks for the tree of nodes.
pub const GET_TREE: u32 = 4u32;

/// No payload; asks for the marks that are set.
pub const GET_MARKS: u32 = 5u32;

/// Without a payload, asks for the identifiers of all bars; with the
/// identifier of a bar as the payload, asks for the configuration of that bar.
pub const GET_BAR_CONFIG: u32 = 6u32;

/// No payload; asks for the version of the window manager.
pub const GET_VERSION: u32 = 7u32;

/// No payload; asks for the binding modes that are configured.
pub const GET_BINDING_MODES: u32 = 8u32;

/// No payload; asks for the text of the configuration that was loaded last.
pub const GET_CONFIG: u32 = 9u32;

/// Sends a tick event, with the payload, to every subscriber of ticks.
pub const SEND_TICK: u32 = 10u32;

/// Always answered with a failure; kept for compatibility.
pub const SYNC: u32 = 11u32;

/// No payload; asks for the binding mode that is active.
pub const GET_BINDING_STATE: u32 = 12u32;

/// No payload; asks for the input devices.
pub const GET_INPUTS: u32 = 100u32;

/// No payload; asks for the seats.
pub const GET_SEATS: u32 = 101u32;

} // verus!
