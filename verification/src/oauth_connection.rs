//! The `OAuthConnection` custom resource: one OAuth2 credential lifecycle,
//! its reconciliation state machine, and the interactive flow computations.
pub mod api;
pub mod controller;
pub mod resource;

pub use resource::{
    CredentialOptions, OAuthConnection, OAuthConnectionPhase, OAuthConnectionSpec,
    OAuthConnectionStatus, SecretRef,
};
