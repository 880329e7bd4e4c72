//! Wire-level codec and responder logic for a minimal NTP server.
//!
//! The crate decodes a raw 48-byte UDP payload into a structured
//! time-synchronization message and encodes a structured response back into
//! the same fixed binary layout.

pub mod clock;
pub mod error;
pub mod fields;
pub mod message;
pub mod refid;
pub mod timestamp;
pub mod wire;
