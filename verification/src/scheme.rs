//! The closed set of supported URI schemes and their well-known defaults.

use vstd::prelude::*;

verus! {

/// A transport scheme this library supports. The set is closed: a URI with
/// any other scheme is rejected at construction time.
#[derive(Clone, Copy, Debug, PartialEq, Eq, Structural)]
pub enum Scheme {
    Http,
    Https,
}

impl Scheme {
    /// The canonical lowercase text of the scheme.
    pub open spec fn spec_as_str(self) -> Seq<char> {
        match self {
            Scheme::Http => "http"@,
            Scheme::Https => "https"@,
        }
    }

    /// The well-known default port of the scheme.
    pub open spec fn spec_default_port(self) -> u16 {
        match self {
            Scheme::Http => 80,
            Scheme::Https => 443,
        }
    }

    pub fn as_str(&self) -> (r: &str)
        ensures
            r@ == self.spec_as_str(),
    {
        match self {
            Scheme::Http => "http",
            Scheme::Https => "https",
        }
    }

    pub fn default_port(&self) -> (r: u16)
        ensures
            r == self.spec_default_port(),
    {
        match self {
            Scheme::Http => 80,
            Scheme::Https => 443,
        }
    }
}

/// The scheme a piece of URI text names, if it is one of the supported two.
/// The match is exact: no case folding is applied here, so the text must
/// already be in the lowercase form a URI parser produces.
pub open spec fn scheme_of_str(s: Seq<char>) -> Option<Scheme> {
    if s == "http"@ {
        Some(Scheme::Http)
    } else if s == "https"@ {
        Some(Scheme::Https)
    } else {
        None
    }
}

impl Scheme {
    /// Validate a scheme string against the closed set.
    pub fn from_scheme_str(s: &str) -> (r: Option<Scheme>)
        ensures
            r == scheme_of_str(s@),
    {
        if crate::text::str_eq(s, "http") {
            Some(Scheme::Http)
        } else if crate::text::str_eq(s, "https") {
            Some(Scheme::Https)
        } else {
            None
        }
    }
}

impl Default for Scheme {
    fn default() -> (r: Self)
        ensures
            r == Scheme::Http,
    {
        Scheme::Http
    }
}

} // verus!
