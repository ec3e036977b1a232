//! Conversion of an endpoint's host into a TLS peer-identity value.

use vstd::prelude::*;

use crate::endpoint::{Endpoint, EndpointError};

verus! {

#[verifier::external_type_specification]
#[verifier::external_body]
pub struct ExServerName<'a>(rustls_pki_types::ServerName<'a>);

/// Whether this text is syntactically valid as a TLS server name: a DNS
/// name or an IP address literal.
pub uninterp spec fn valid_server_name(host: Seq<char>) -> bool;

/// Relies on `rustls_pki_types::ServerName::try_from` for `String`: it
/// returns `Ok` exactly when the string parses as a DNS name or as an IP
/// address, an outcome that depends on the string alone. On failure its
/// error's own message is passed through.
#[verifier::external_body]
fn server_name_from_host(host: &str) -> (r: Result<
    rustls_pki_types::ServerName<'static>,
    String,
>)
    ensures
        r is Ok <==> valid_server_name(host@),
{
    match rustls_pki_types::ServerName::try_from(host.to_owned()) {
        Ok(name) => Ok(name),
        Err(e) => Err(e.to_string()),
    }
}

impl Endpoint {
    /// The identity to verify a TLS server certificate against: the
    /// endpoint's host as a DNS name or IP address. Fails exactly when the
    /// host is not syntactically valid for that purpose; the validator's
    /// message is wrapped unchanged.
    pub fn server_name(&self) -> (r: Result<rustls_pki_types::ServerName<'static>, EndpointError>)
        ensures
            r is Ok <==> valid_server_name(self.spec_host()),
            r matches Err(err) ==> err is NameValidationError,
    {
        match server_name_from_host(self.host()) {
            Ok(name) => Ok(name),
            Err(message) => Err(EndpointError::NameValidationError { message }),
        }
    }
}

} // verus!
