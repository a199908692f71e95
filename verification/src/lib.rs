//! A local control-plane client: it locates a workspace daemon through a
//! filesystem-rooted socket namespace, decides between a live peer and a
//! deterministic offline simulator, and exchanges single-shot commands and a
//! continuous event stream over a line-delimited JSON protocol.
//!
//! Every decision the client takes — workspace cataloguing and resolution,
//! mode resolution, wire translation, response-frame classification, the
//! offline simulator, and the per-line stepping of the event stream — lives
//! here as verified code; the thin shell around it performs the socket,
//! file and clock operations and feeds their outcomes back in as plain
//! values.
pub mod codec;
pub mod events;
pub mod ids;
pub mod json;
pub mod protocol;
pub mod transport;
pub mod wire;
pub mod workspace;
