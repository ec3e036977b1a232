//! A validated network endpoint: a (scheme, host, port) triple extracted from
//! a URI, with the formatting rules an HTTP client needs (a `Host` header that
//! omits the port exactly when it is the scheme's default) and a conversion to
//! a TLS server-name identity.

pub mod endpoint;
pub mod messages;
pub mod scheme;
pub mod text;
pub mod tls;
pub mod uri;

pub use endpoint::Endpoint;
pub use scheme::Scheme;
