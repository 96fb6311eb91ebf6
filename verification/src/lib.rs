//! Client library for a UDP-based device-control protocol used by IR/RF
//! "universal remote" bridge devices.
//!
//! The library covers the wire-level logic of the protocol: the additive
//! packet checksum, AES-128-CBC payload encryption with zero padding, the
//! fixed-layout request framing, the session handshake that derives a
//! per-session key, the length-prefixed sub-command codec, the learning
//! state machine for IR and RF capture, and discovery-response parsing with
//! per-MAC deduplication. Socket I/O, sleeping and clock reads live in the
//! surrounding application, which feeds plain values into these functions.
//!
//! Around that core, the library also defines the typed values the
//! application's other surfaces exchange — the control-room server API, the
//! Companion control-surface client with its selector-page layout, the
//! presentation-control results, and the local OAuth callback — so that
//! every side of the application speaks in the same checked data model.

pub mod checksum;
pub mod companion;
pub mod crypto;
pub mod discovery;
pub mod error;
pub mod hexstr;
pub mod learn;
pub mod local_api;
pub mod media;
pub mod netif;
pub mod parse;
pub mod presentation;
pub mod results;
pub mod server_api;
pub mod session;
pub mod strutil;
pub mod subcmd;
