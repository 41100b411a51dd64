//! A bridge between a function-as-a-service host and one precompiled action
//! executable.
//!
//! The host hands the bridge a JSON request. The bridge answers liveness
//! probes on the spot, serialises every other request for the action's
//! standard input, and turns whatever became of the child process into the
//! one envelope the host understands: an object with a single `body` string.
//! No failure escapes as anything but an envelope.
//!
//! The modules, from the leaves up:
//!
//! - [`envelope`]: the envelope and the fixed acknowledgement of a probe;
//! - [`codec`]: reading and writing JSON, on top of `serde_json`;
//! - [`child`]: how a child process can end, and what each ending amounts to;
//! - [`bridge`]: the invocation itself.
//!
//! Starting the child and moving bytes through its pipes is left to the
//! caller, who hands the bridge a function that does it.

pub mod bridge;
pub mod child;
pub mod codec;
pub mod envelope;
