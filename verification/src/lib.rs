//! Verified core of an LSP client that infers a module interface file.
//!
//! The library holds the protocol-state logic of the client: classification
//! and routing of inbound frames, the correlation table that matches response
//! frames to pending requests, the notification dispatcher with its one-shot
//! indexing-complete signal, the deterministic text-edit applier, the
//! derivation of the interface-file path, and the workflow state machine that
//! sequences the whole run.  The surrounding process plumbing (subprocess
//! spawning, JSON framing, async I/O) lives outside the library and hands it
//! plain values.

pub mod dispatch;
pub mod paths;
pub mod workflow;
pub mod session;
pub mod text_edit;
