//! Session negotiation for desktop-portal screen capture.
//!
//! The crate models the three-step handshake with a desktop portal service
//! (create session, select sources, start), the decoding of the untyped
//! payloads its response signals carry, the correlation of those signals
//! with the call that requested them, and the construction of the capture
//! pipeline description handed to the media engine once a stream is known.

pub mod correlate;
pub mod decode;
pub mod negotiate;
pub mod pipeline;
pub mod value;
