//! Device synchronization engine for a USB/HID macro keyboard companion
//! daemon.
//!
//! The library holds the verified core: the fixed-size binary framing
//! protocol spoken with the peripheral, the connection lifecycle state
//! machine with its bounded retry policy, the polling/diffing logic that
//! reconciles hardware state, OS audio state and routing-service state into
//! outbound records, and the event router that relays messages between the
//! core and its collaborators. All I/O (HID reads and writes, OS audio
//! queries, HTTP) lives outside the library and hands it plain values.

pub mod codec;
pub mod record;
pub mod router;
pub mod session;
pub mod sonar;
pub mod transport;
pub mod view;
pub mod volume;
