use endpoint::endpoint::{Endpoint, EndpointError, HostHeader};
use endpoint::scheme::Scheme;
use endpoint::uri::UriParts;

#[test]
fn test_host_header_with_default_port() {
    let endpoint = Endpoint::from_str("http://example.com:80").unwrap();

    assert!(matches!(endpoint.host_header(), HostHeader::Borrowed("example.com")));
}

#[test]
fn test_host_header_without_port() {
    let endpoint = Endpoint::from_str("http://example.com").unwrap();

    assert!(matches!(endpoint.host_header(), HostHeader::Borrowed("example.com")));
}

#[test]
fn test_host_header_custom_port() {
    let endpoint = Endpoint::from_str("http://example.com:8080").unwrap();

    assert!(matches!(
        endpoint.host_header(),
        HostHeader::Owned(ref s) if s == "example.com:8080"
    ));
}

#[test]
fn http_defaults_to_80() {
    let endpoint = Endpoint::from_str("http://example.com").unwrap();

    assert_eq!(endpoint.port(), 80);
    assert_eq!(endpoint.host_header().as_str(), "example.com");
}

#[test]
fn https_defaults_to_443() {
    let endpoint = Endpoint::from_str("https://example.com").unwrap();

    assert_eq!(endpoint.port(), 443);
    assert_eq!(endpoint.host_header().as_str(), "example.com");
}

#[test]
fn unsupported_scheme_is_rejected() {
    let err = Endpoint::from_str("ftp://example.com").unwrap_err();

    assert!(matches!(err, EndpointError::SchemeError { .. }));
    assert_eq!(
        err.message(),
        "'ftp://example.com' has an invalid scheme, only 'http' and 'https' are supported"
    );
}

#[test]
fn bare_scheme_without_host_is_rejected() {
    assert!(Endpoint::from_str("http:").is_err());
    assert!(Endpoint::from_str("http://").is_err());
}

#[test]
fn unparsable_text_is_rejected() {
    let err = Endpoint::from_str("http://exa mple.com").unwrap_err();

    assert!(matches!(err, EndpointError::UriParseError { .. }));
}

#[test]
fn missing_scheme_is_rejected() {
    let err = Endpoint::from_str("example.com:8080").unwrap_err();

    assert!(matches!(err, EndpointError::SchemeError { .. }));
}

#[test]
fn new_round_trips_its_arguments() {
    let endpoint = Endpoint::new(Scheme::Https, String::from("example.com"), 8443);

    assert_eq!(endpoint.scheme(), Scheme::Https);
    assert_eq!(endpoint.host(), "example.com");
    assert_eq!(endpoint.port(), 8443);
}

#[test]
fn from_str_round_trips_components() {
    let endpoint = Endpoint::from_str("https://example.com:8443/a/path?q=1").unwrap();

    assert_eq!(endpoint.scheme(), Scheme::Https);
    assert_eq!(endpoint.host(), "example.com");
    assert_eq!(endpoint.port(), 8443);
    assert_eq!(endpoint.socket_addr_coercable(), ("example.com", 8443));
}

#[test]
fn host_header_renders_every_digit() {
    let endpoint = Endpoint::new(Scheme::Http, String::from("h"), 65535);

    assert_eq!(endpoint.host_header().as_str(), "h:65535");
}

#[test]
fn host_header_with_non_default_port_of_other_scheme() {
    // Port 443 is not http's default, so it must be kept in the header.
    let endpoint = Endpoint::from_str("http://example.com:443").unwrap();

    assert_eq!(endpoint.host_header().as_str(), "example.com:443");
    assert!(matches!(endpoint.host_header(), HostHeader::Owned(_)));
}

#[test]
fn from_parts_uses_explicit_port() {
    let parts = UriParts {
        scheme: Some(String::from("http")),
        host: Some(String::from("example.com")),
        port: Some(81),
    };
    let endpoint = Endpoint::from_parts(&parts, "http://example.com:81").unwrap();

    assert_eq!(endpoint.scheme(), Scheme::Http);
    assert_eq!(endpoint.host(), "example.com");
    assert_eq!(endpoint.port(), 81);
}

#[test]
fn from_parts_without_host_is_rejected() {
    let parts = UriParts {
        scheme: Some(String::from("http")),
        host: None,
        port: None,
    };
    let err = Endpoint::from_parts(&parts, "http:").unwrap_err();

    assert!(matches!(err, EndpointError::HostMissingError { .. }));
    assert_eq!(err.message(), "could not determine host from url 'http:'");
}

#[test]
fn from_parts_rejects_uppercase_scheme_text() {
    // The scheme match is exact: validation applies no case folding of its
    // own, it accepts only the lowercase form the URI parser produces.
    let parts = UriParts {
        scheme: Some(String::from("HTTP")),
        host: Some(String::from("example.com")),
        port: None,
    };
    let err = Endpoint::from_parts(&parts, "HTTP://example.com").unwrap_err();

    assert!(matches!(err, EndpointError::SchemeError { .. }));
}

#[test]
fn scheme_accessors() {
    assert_eq!(Scheme::Http.as_str(), "http");
    assert_eq!(Scheme::Https.as_str(), "https");
    assert_eq!(Scheme::Http.default_port(), 80);
    assert_eq!(Scheme::Https.default_port(), 443);
    assert_eq!(Scheme::default(), Scheme::Http);
}

#[test]
fn scheme_from_scheme_str() {
    assert_eq!(Scheme::from_scheme_str("http"), Some(Scheme::Http));
    assert_eq!(Scheme::from_scheme_str("https"), Some(Scheme::Https));
    assert_eq!(Scheme::from_scheme_str("ftp"), None);
    assert_eq!(Scheme::from_scheme_str("HTTP"), None);
    assert_eq!(Scheme::from_scheme_str(""), None);
}
