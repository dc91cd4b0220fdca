//! A resilient connection manager for a single long-lived, authenticated
//! session to a remote studio-control service.
//!
//! The session core ([`state`]) owns the lifecycle of the one connection:
//! it classifies failures (credential rejection against everything
//! transient), drives the fixed-backoff reconnection loop, serializes
//! command execution against the current handle, and hands every lifecycle
//! transition to the observing UI. [`laws`] proves the session-wide
//! guarantees over the transition model; [`action`] maps activated tiles to
//! remote commands; [`messages`] carries the inspector protocol. The host
//! runtime, the JSON at the edges and the transport calls live outside the
//! library and drive it through the decision functions.

pub mod action;
pub mod laws;
pub mod messages;
pub mod remote;
pub mod state;
pub mod text;
