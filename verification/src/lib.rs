//! Client library for commanding ODrive motor-controller axes over a shared
//! CAN bus.
//!
//! The crate covers the request/response protocol engine: the byte and frame
//! codecs that map a typed command plus axis id onto a CAN arbitration id and
//! an 8-byte payload, the typed decoders that turn raw response payloads into
//! domain values or structured errors, the dispatcher that keeps at most one
//! in-flight request per `(axis, command)` key and routes incoming frames back
//! to the right caller, and the axis-group layer that fans a request out to a
//! whole set of axes and reassembles the results in a stable order.
//!
//! The physical transport (opening a CAN device, sending and receiving raw
//! frames) is deliberately outside this crate; callers drive the dispatcher
//! with whatever transport they own.

pub mod axis;
pub mod can_manager;
pub mod canframe;
pub mod casts;
pub mod error;
pub mod odrivegroup;
pub mod response;
pub mod state;
pub mod utils;
