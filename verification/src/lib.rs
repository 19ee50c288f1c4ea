//! An asynchronous correlation layer over a platform Bluetooth Low Energy
//! central framework.
//!
//! The platform delivers every outcome (connections, discoveries, value
//! reads and writes, RSSI updates, channel opens) through delegate callback
//! methods on a single serial dispatch queue.  This library is the bridge
//! between that callback world and linear `async`-style callers: it owns,
//! per delegate scope, the pending one-shot completion slots, the broadcast
//! and watch topics, and the demand-gated scan queue, and it decides for
//! every callback which waiter to fulfil, what to publish, and which
//! imperative platform call (if any) must be issued next.
//!
//! The platform bindings themselves (object lifetimes, dictionary
//! marshaling, the dispatch queue) are collaborators on the other side of a
//! narrow boundary: they hand events in as plain values and carry the
//! returned actions back out.  Everything on this side is verified.

pub mod advertisement_data;
pub mod assoc;
pub mod central_manager;
pub mod error;
pub mod ids;
pub mod pending;
pub mod peripheral;
pub mod relay;
pub mod scan_queue;
pub mod util;
