//! The components this library reads out of a URI, and the trusted bridge to
//! the URI parser that produces them.

use vstd::prelude::*;

verus! {

/// The three URI components an endpoint is built from. A parsed URI holds
/// more (path, query, fragment); this library ignores the rest.
#[derive(Debug, Clone)]
pub struct UriParts {
    /// The scheme text, already normalized by the parser, if the URI has one.
    pub scheme: Option<String>,
    /// The host subcomponent of the authority, if the URI has one.
    pub host: Option<String>,
    /// The explicit port of the authority, if the URI names one.
    pub port: Option<u16>,
}

impl UriParts {
    pub open spec fn scheme_view(self) -> Option<Seq<char>> {
        match self.scheme {
            Some(s) => Some(s@),
            None => None,
        }
    }

    pub open spec fn host_view(self) -> Option<Seq<char>> {
        match self.host {
            Some(h) => Some(h@),
            None => None,
        }
    }
}

/// Whether the URI parser accepts this text as a URI.
pub uninterp spec fn uri_well_formed(s: Seq<char>) -> bool;

/// The scheme component the URI parser reads out of this text, in the
/// parser's own normalized form.
pub uninterp spec fn uri_scheme_of(s: Seq<char>) -> Option<Seq<char>>;

/// The host subcomponent the URI parser reads out of this text.
pub uninterp spec fn uri_host_of(s: Seq<char>) -> Option<Seq<char>>;

/// The explicit port the URI parser reads out of this text.
pub uninterp spec fn uri_port_of(s: Seq<char>) -> Option<u16>;

/// Relies on `hyper::Uri`'s `FromStr` parser and its accessors `scheme_str`,
/// `host` and `port_u16`: for a fixed input string, whether the parse
/// succeeds and which components it yields depend on that string alone.
/// On failure the parser's own message is passed through.
#[verifier::external_body]
pub(crate) fn parse_uri(s: &str) -> (r: Result<UriParts, String>)
    ensures
        r is Ok <==> uri_well_formed(s@),
        r matches Ok(p) ==> {
            &&& p.scheme_view() == uri_scheme_of(s@)
            &&& p.host_view() == uri_host_of(s@)
            &&& p.port == uri_port_of(s@)
        },
{
    match s.parse::<hyper::Uri>() {
        Ok(u) => Ok(UriParts {
            scheme: u.scheme_str().map(|t| t.to_owned()),
            host: u.host().map(|t| t.to_owned()),
            port: u.port_u16(),
        }),
        Err(e) => Err(e.to_string()),
    }
}

} // verus!
