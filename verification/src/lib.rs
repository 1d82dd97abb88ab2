//! A DNS-01 ACME challenge webhook: a certificate-issuance controller posts
//! `Present` and `CleanUp` actions, and the library decides which DNS-provider
//! operation to perform, caching the provider-assigned record identifier from
//! `Present` so that `CleanUp` removes exactly that record.

pub mod cache;
pub mod dispatch;
pub mod model;
pub mod server;
pub mod tls;
pub mod wire;
