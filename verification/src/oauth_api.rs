//! The `OAuthApi` custom resource: an OAuth2 provider definition, its
//! derived endpoint URLs, and its (trivial) reconciliation.
pub mod api;
pub mod controller;
pub mod resource;

pub use resource::{
    AuthSpecs, AuthorizationParams, HttpApi, HttpHeaders, OAuth2Spec, OAuthApi, OAuthApiKind,
    OAuthApiPhase, OAuthApiSpec, OAuthApiStatus, TokenParams,
};
