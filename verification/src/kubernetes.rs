//! Models of the Kubernetes-facing data the operator logic reads and writes:
//! object metadata, opaque secrets, and the shared controller vocabulary
//! (actions, events, controller state).
pub mod controller;
pub mod meta;
pub mod secrets;
