//! Core of a desktop agent that mirrors the operating system's "now playing"
//! media session onto a local rich-presence endpoint.
//!
//! - `codec`: the length-prefixed packets of the presence protocol.
//! - `json`: JSON acceptance and the protocol messages this client writes.
//! - `pipe`: where each slot's socket lives.
//! - `slot`: one connection slot as a state machine from event to action.
//! - `rpc`: the pool of slots and the fan-out of activity updates.
//! - `media`: the normalised snapshot and how each platform's observation
//!   becomes one.
//! - `activity`: the activity a snapshot is shown as.
//! - `artwork`: content-addressed artwork and the register served over HTTP.
//! - `tunnel`: the public address a tunnel sidecar announces.
//! - `state`: settings and the error the shell sees.

pub mod activity;
pub mod artwork;
pub mod codec;
pub mod json;
pub mod media;
pub mod pipe;
pub mod rpc;
pub mod slot;
pub mod state;
pub mod tunnel;
