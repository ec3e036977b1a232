//! The `Endpoint` value: a validated (scheme, host, port) triple and the
//! formatting rules built on it.

use vstd::prelude::*;
use vstd::string::StringExecFns;

use crate::scheme::{scheme_of_str, Scheme};
use crate::text::{spec_dec_digits, u16_to_dec};
use crate::uri::{parse_uri, uri_host_of, uri_port_of, uri_scheme_of, uri_well_formed, UriParts};

verus! {

/// Why constructing an endpoint, or deriving a TLS identity from one, failed.
/// Every variant carries the offending text: the source URI for validation
/// failures, the collaborating parser's own message for the rest.
#[derive(Debug, Clone, PartialEq, Eq)]
pub enum EndpointError {
    /// The URI's scheme is absent or not one of the supported two.
    SchemeError { uri: String },
    /// The URI has no host component.
    HostMissingError { uri: String },
    /// The text is not a URI at all.
    UriParseError { message: String },
    /// The host is not a syntactically valid TLS server name.
    NameValidationError { message: String },
}

impl EndpointError {
    /// The human-readable message of the error.
    pub open spec fn spec_message(self) -> Seq<char> {
        match self {
            EndpointError::SchemeError { uri } => "'"@ + uri@
                + "' has an invalid scheme, only 'http' and 'https' are supported"@,
            EndpointError::HostMissingError { uri } => "could not determine host from url '"@
                + uri@ + "'"@,
            EndpointError::UriParseError { message } => message@,
            EndpointError::NameValidationError { message } => message@,
        }
    }

    pub fn message(&self) -> (r: String)
        ensures
            r@ == self.spec_message(),
    {
        match self {
            EndpointError::SchemeError { uri } => {
                let head = "'".to_owned();
                let head = head.concat(uri.as_str());
                head.concat("' has an invalid scheme, only 'http' and 'https' are supported")
            },
            EndpointError::HostMissingError { uri } => {
                let head = "could not determine host from url '".to_owned();
                let head = head.concat(uri.as_str());
                head.concat("'")
            },
            EndpointError::UriParseError { message } => message.clone(),
            EndpointError::NameValidationError { message } => message.clone(),
        }
    }
}

/// A validated network destination: scheme, host and effective port. The
/// value is immutable after construction; a different endpoint is a new
/// value.
#[derive(Debug, Clone)]
pub struct Endpoint {
    scheme: Scheme,
    host: String,
    port: u16,
}

/// The scheme a parsed URI's optional scheme text names, if any.
pub open spec fn scheme_of_opt_str(t: Option<Seq<char>>) -> Option<Scheme> {
    match t {
        Some(s) => scheme_of_str(s),
        None => None,
    }
}

/// The effective port: the explicit one when the URI names one, the scheme's
/// default otherwise.
pub open spec fn port_or_default(p: Option<u16>, scheme: Scheme) -> u16 {
    match p {
        Some(x) => x,
        None => scheme.spec_default_port(),
    }
}

/// How an endpoint's fields relate to the URI components it was built from.
pub open spec fn parts_yield(p: UriParts, scheme: Scheme, host: Seq<char>, port: u16) -> bool {
    &&& scheme_of_opt_str(p.scheme_view()) == Some(scheme)
    &&& p.host_view() == Some(host)
    &&& port == port_or_default(p.port, scheme)
}

/// How an endpoint relates to the URI text it was built from: the text is a
/// valid URI, its scheme names the endpoint's scheme, its host is the
/// endpoint's host, and the endpoint's port is the explicit one or the
/// scheme's default.
pub open spec fn uri_yields(s: Seq<char>, e: Endpoint) -> bool {
    &&& uri_well_formed(s)
    &&& scheme_of_opt_str(uri_scheme_of(s)) == Some(e.spec_scheme())
    &&& uri_host_of(s) == Some(e.spec_host())
    &&& e.spec_port() == port_or_default(uri_port_of(s), e.spec_scheme())
}

impl Endpoint {
    pub closed spec fn spec_scheme(self) -> Scheme {
        self.scheme
    }

    pub closed spec fn spec_host(self) -> Seq<char> {
        self.host@
    }

    pub closed spec fn spec_port(self) -> u16 {
        self.port
    }

    /// The exact text of the HTTP `Host` header for this endpoint: the host
    /// alone when the port is the scheme's default, `host:port` otherwise.
    pub open spec fn spec_host_header(self) -> Seq<char> {
        if self.spec_port() == self.spec_scheme().spec_default_port() {
            self.spec_host()
        } else {
            self.spec_host() + seq![':'] + spec_dec_digits(self.spec_port() as int)
        }
    }

    /// The endpoint `new` builds from these values.
    pub closed spec fn spec_new(scheme: Scheme, host: String, port: u16) -> Endpoint {
        Endpoint { scheme, host, port }
    }

    /// The low-level constructor: no validation beyond the types, for use
    /// once upstream validation has already happened.
    pub fn new(scheme: Scheme, host: String, port: u16) -> (r: Endpoint)
        ensures
            r == Endpoint::spec_new(scheme, host, port),
            r.spec_scheme() == scheme,
            r.spec_host() == host@,
            r.spec_port() == port,
    {
        Endpoint { scheme, host, port }
    }

    pub fn scheme(&self) -> (r: Scheme)
        ensures
            r == self.spec_scheme(),
    {
        self.scheme
    }

    pub fn host(&self) -> (r: &str)
        ensures
            r@ == self.spec_host(),
    {
        self.host.as_str()
    }

    pub fn port(&self) -> (r: u16)
        ensures
            r == self.spec_port(),
    {
        self.port
    }

    /// The (host, port) pair in the form a transport-level connect call
    /// wants, without copying the host.
    pub fn socket_addr_coercable(&self) -> (r: (&str, u16))
        ensures
            r.0@ == self.spec_host(),
            r.1 == self.spec_port(),
    {
        (self.host.as_str(), self.port)
    }

    /// The validated constructor over already-extracted URI components:
    /// the scheme must be one of the supported two and a host must be
    /// present; an explicit port wins over the scheme's default. `source`
    /// is the URI text the components came from, quoted in error messages.
    pub fn from_parts(parts: &UriParts, source: &str) -> (r: Result<Endpoint, EndpointError>)
        ensures
            r is Ok <==> (scheme_of_opt_str(parts.scheme_view()) is Some
                && parts.host_view() is Some),
            r matches Ok(e) ==> parts_yield(*parts, e.spec_scheme(), e.spec_host(), e.spec_port()),
            scheme_of_opt_str(parts.scheme_view()) is None ==> (r matches Err(err)
                && err matches EndpointError::SchemeError { uri } && uri@ == source@),
            scheme_of_opt_str(parts.scheme_view()) is Some && parts.host_view() is None ==> (
            r matches Err(err) && err matches EndpointError::HostMissingError { uri } && uri@
                == source@),
    {
        let scheme = match &parts.scheme {
            Some(t) => match Scheme::from_scheme_str(t.as_str()) {
                Some(s) => s,
                None => {
                    return Err(EndpointError::SchemeError { uri: source.to_owned() });
                },
            },
            None => {
                return Err(EndpointError::SchemeError { uri: source.to_owned() });
            },
        };
        let host = match &parts.host {
            Some(h) => h.clone(),
            None => {
                return Err(EndpointError::HostMissingError { uri: source.to_owned() });
            },
        };
        let port = match parts.port {
            Some(p) => p,
            None => scheme.default_port(),
        };
        Ok(Endpoint { scheme, host, port })
    }

    /// The primary constructor: parse the text as a URI, then validate and
    /// extract as `from_parts` does.
    pub fn from_str(s: &str) -> (r: Result<Endpoint, EndpointError>)
        ensures
            r is Ok <==> (uri_well_formed(s@) && scheme_of_opt_str(uri_scheme_of(s@)) is Some
                && uri_host_of(s@) is Some),
            r matches Ok(e) ==> uri_yields(s@, e),
            !uri_well_formed(s@) ==> (r matches Err(err)
                && err matches EndpointError::UriParseError { .. }),
            uri_well_formed(s@) && scheme_of_opt_str(uri_scheme_of(s@)) is None ==> (
            r matches Err(err) && err matches EndpointError::SchemeError { uri } && uri@ == s@),
            uri_well_formed(s@) && scheme_of_opt_str(uri_scheme_of(s@)) is Some && uri_host_of(
                s@,
            ) is None ==> (r matches Err(err) && err matches EndpointError::HostMissingError { uri }
                && uri@ == s@),
    {
        match parse_uri(s) {
            Ok(parts) => Endpoint::from_parts(&parts, s),
            Err(message) => Err(EndpointError::UriParseError { message }),
        }
    }

    /// Format the value of an HTTP `Host` request header for this endpoint.
    /// When the port is the scheme's default the header must omit it, and
    /// the existing host storage is handed out without allocating; otherwise
    /// a new `host:port` string is built.
    pub fn host_header<'a>(&'a self) -> (r: HostHeader<'a>)
        ensures
            r@ == self.spec_host_header(),
            r is Borrowed <==> self.spec_port() == self.spec_scheme().spec_default_port(),
    {
        if self.port == self.scheme.default_port() {
            HostHeader::Borrowed(self.host.as_str())
        } else {
            proof {
                reveal_strlit(":");
                assert(":"@ =~= seq![':']);
            }
            let mut text = self.host.clone();
            text.append(":");
            let digits = u16_to_dec(self.port);
            text.append(digits.as_str());
            HostHeader::Owned(text)
        }
    }
}

/// A `Host` header value: either a view into the endpoint's own host
/// storage (the common, allocation-free case) or a freshly built string.
#[derive(Debug)]
pub enum HostHeader<'a> {
    Borrowed(&'a str),
    Owned(String),
}

impl<'a> View for HostHeader<'a> {
    type V = Seq<char>;

    open spec fn view(&self) -> Seq<char> {
        match self {
            HostHeader::Borrowed(s) => s@,
            HostHeader::Owned(s) => s@,
        }
    }
}

impl<'a> HostHeader<'a> {
    pub fn as_str(&self) -> (r: &str)
        ensures
            r@ == self@,
    {
        match self {
            HostHeader::Borrowed(s) => s,
            HostHeader::Owned(s) => s.as_str(),
        }
    }
}

/// Law: a valid URI with an explicit port equal to its scheme's default
/// yields an endpoint whose `Host` header is the host alone, with no port
/// suffix.
pub proof fn lemma_header_on_explicit_default_port(s: Seq<char>, e: Endpoint)
    requires
        uri_yields(s, e),
        uri_port_of(s) == Some(e.spec_scheme().spec_default_port()),
    ensures
        e.spec_host_header() == e.spec_host(),
{
}

/// Law: a valid URI with no explicit port yields an endpoint whose
/// effective port is the scheme's default, and whose `Host` header omits
/// the port.
pub proof fn lemma_header_on_absent_port(s: Seq<char>, e: Endpoint)
    requires
        uri_yields(s, e),
        uri_port_of(s) is None,
    ensures
        e.spec_port() == e.spec_scheme().spec_default_port(),
        e.spec_host_header() == e.spec_host(),
{
}

/// Law: a valid URI with an explicit port other than the scheme's default
/// yields an endpoint whose `Host` header is exactly `host:port`, with the
/// port in decimal.
pub proof fn lemma_header_on_non_default_port(s: Seq<char>, e: Endpoint, explicit: u16)
    requires
        uri_yields(s, e),
        uri_port_of(s) == Some(explicit),
        explicit != e.spec_scheme().spec_default_port(),
    ensures
        e.spec_host_header() == e.spec_host() + seq![':'] + spec_dec_digits(
            e.spec_port() as int,
        ),
{
}

/// Law: construction stores its arguments unchanged, so reading the scheme,
/// host and port of a newly built endpoint returns exactly the values it
/// was built from.
pub proof fn lemma_construct_round_trip(scheme: Scheme, host: String, port: u16)
    ensures
        Endpoint::spec_new(scheme, host, port).spec_scheme() == scheme,
        Endpoint::spec_new(scheme, host, port).spec_host() == host@,
        Endpoint::spec_new(scheme, host, port).spec_port() == port,
{
}

} // verus!
