use vstd::prelude::*;

use super::ProtocolResult;
use crate::text::{occurs_in, str_contains};

verus! {

/// Per-request timeout of every probe, in milliseconds.
pub const REQUEST_TIMEOUT_MS: u64 = 2000;

/// Text that only the stock nginx landing page holds.
pub const NGINX_DEFAULT_PAGE: &'static str = "<p>If you see this page, the nginx web server is successfully installed and\nworking. Further configuration is required.</p>";

/// Text of a connect error whose certificate chain is not trusted.
pub const UNTRUSTED_CERTIFICATE: &'static str = "The certificate was not trusted";

/// Text of a connect error whose certificate names another host.
pub const CERTIFICATE_NAME_MISMATCH: &'static str = "invalid peer certificate contents: invalid peer certificate: CertNotValidForName";

/// The scheme a probe uses to reach a domain.
#[derive(Copy, Clone, Debug, PartialEq, Eq, Structural)]
pub enum HttpProtocol {
    Http,
    Https,
}

impl HttpProtocol {
    /// The scheme's name as it stands in a URL.
    pub open spec fn scheme(self) -> Seq<char> {
        match self {
            HttpProtocol::Http => "http"@,
            HttpProtocol::Https => "https"@,
        }
    }

    pub fn as_str(&self) -> (r: &'static str)
        ensures
            r@ == self.scheme(),
    {
        match self {
            HttpProtocol::Http => "http",
            HttpProtocol::Https => "https",
        }
    }
}

/// How a request failed below the HTTP layer.
#[derive(Copy, Clone, Debug, PartialEq, Eq, Structural)]
pub enum FailureKind {
    /// The request ran past its time budget.
    Timeout,
    /// No connection could be set up (TCP or TLS).
    Connect,
    /// Anything else.
    Other,
}

/// What one request came back with.
#[derive(Clone, Debug, PartialEq, Eq)]
pub enum Observation {
    /// An HTTP response: its status, its `Location` header if any, and its body
    /// (read only where [`needs_body`] says so, empty otherwise).
    Response { status: u16, location: Option<String>, body: String },
    /// A transport failure and the error's text.
    Failure { kind: FailureKind, detail: String },
}

/// The root URL of `domain` over `protocol`.
pub open spec fn root_url(protocol: HttpProtocol, domain: Seq<char>) -> Seq<char> {
    protocol.scheme() + "://"@ + domain + "/"@
}

/// A redirect status that the classifier compares against the expected target.
pub open spec fn is_redirect_status(status: u16) -> bool {
    status == 301 || status == 302 || status == 308
}

/// The outcome that a request to `domain` over `protocol` is classified as.
pub open spec fn classification(
    protocol: HttpProtocol,
    domain: Seq<char>,
    obs: Observation,
) -> ProtocolResult {
    match obs {
        Observation::Response { status, location, body } => {
            if status == 200 {
                if occurs_in(NGINX_DEFAULT_PAGE@, body@) {
                    ProtocolResult::NginxDefaultPage(status)
                } else {
                    ProtocolResult::Success(status)
                }
            } else if is_redirect_status(status) && protocol == HttpProtocol::Http
                && location is Some {
                if location->0@ == root_url(HttpProtocol::Https, domain) {
                    ProtocolResult::CorrectRedirect(status)
                } else {
                    ProtocolResult::IncorrectRedirect(status)
                }
            } else {
                ProtocolResult::UnexpectedResponse(status)
            }
        },
        Observation::Failure { kind, detail } => match kind {
            FailureKind::Timeout => ProtocolResult::Timeout,
            FailureKind::Connect => {
                if protocol == HttpProtocol::Https && occurs_in(UNTRUSTED_CERTIFICATE@, detail@) {
                    ProtocolResult::UntrustedCertificate
                } else if protocol == HttpProtocol::Https && occurs_in(
                    CERTIFICATE_NAME_MISMATCH@,
                    detail@,
                ) {
                    ProtocolResult::InvalidCertificate
                } else {
                    ProtocolResult::FailedConnect
                }
            },
            FailureKind::Other => ProtocolResult::Error(detail),
        },
    }
}

/// The URL that a probe of `domain` over `protocol` requests.
pub fn probe_url(protocol: HttpProtocol, domain: &str) -> (r: String)
    ensures
        r@ == root_url(protocol, domain@),
{
    let r = String::from_str(protocol.as_str());
    let r = r.concat("://");
    let r = r.concat(domain);
    r.concat("/")
}

/// Whether the classifier looks at the body of a response with `status`.
pub fn needs_body(status: u16) -> (r: bool)
    ensures
        r == (status == 200),
{
    status == 200
}

/// Classifies what a request to `domain` over `protocol` came back with.
pub fn classify(protocol: HttpProtocol, domain: &str, obs: Observation) -> (r: ProtocolResult)
    ensures
        r == classification(protocol, domain@, obs),
{
    match obs {
        Observation::Response { status, location, body } => {
            if status == 200 {
                if str_contains(body.as_str(), NGINX_DEFAULT_PAGE) {
                    ProtocolResult::NginxDefaultPage(status)
                } else {
                    ProtocolResult::Success(status)
                }
            } else if (status == 301 || status == 302 || status == 308) && protocol
                == HttpProtocol::Http && location.is_some() {
                let target = probe_url(HttpProtocol::Https, domain);
                match location {
                    Some(l) => {
                        if l == target {
                            ProtocolResult::CorrectRedirect(status)
                        } else {
                            ProtocolResult::IncorrectRedirect(status)
                        }
                    },
                    None => ProtocolResult::UnexpectedResponse(status),
                }
            } else {
                ProtocolResult::UnexpectedResponse(status)
            }
        },
        Observation::Failure { kind, detail } => match kind {
            FailureKind::Timeout => ProtocolResult::Timeout,
            FailureKind::Connect => {
                if protocol == HttpProtocol::Https && str_contains(
                    detail.as_str(),
                    UNTRUSTED_CERTIFICATE,
                ) {
                    ProtocolResult::UntrustedCertificate
                } else if protocol == HttpProtocol::Https && str_contains(
                    detail.as_str(),
                    CERTIFICATE_NAME_MISMATCH,
                ) {
                    ProtocolResult::InvalidCertificate
                } else {
                    ProtocolResult::FailedConnect
                }
            },
            FailureKind::Other => ProtocolResult::Error(detail),
        },
    }
}

/// A response with status 200 is `Success(200)` unless its body holds the stock
/// landing-page text, and then `NginxDefaultPage(200)`, whatever the scheme,
/// the domain and the `Location` header.
pub proof fn lemma_status_ok(
    protocol: HttpProtocol,
    domain: Seq<char>,
    location: Option<String>,
    body: String,
)
    ensures
        classification(protocol, domain, Observation::Response { status: 200, location, body })
            == if occurs_in(NGINX_DEFAULT_PAGE@, body@) {
            ProtocolResult::NginxDefaultPage(200)
        } else {
            ProtocolResult::Success(200)
        },
{
}

/// A plain-HTTP response with status 301, 302 or 308 and a `Location` header is a
/// correct redirect exactly when the header reads `https://<domain>/`, and an
/// incorrect one otherwise; the status is kept either way.
pub proof fn lemma_redirect(domain: Seq<char>, status: u16, location: String, body: String)
    requires
        is_redirect_status(status),
    ensures
        classification(
            HttpProtocol::Http,
            domain,
            Observation::Response { status, location: Some(location), body },
        ) == if location@ == "https://"@ + domain + "/"@ {
            ProtocolResult::CorrectRedirect(status)
        } else {
            ProtocolResult::IncorrectRedirect(status)
        },
{
    assert(root_url(HttpProtocol::Https, domain) == "https"@ + "://"@ + domain + "/"@);
    assert("https"@ + "://"@ =~= "https://"@) by {
        reveal_strlit("https");
        reveal_strlit("://");
        reveal_strlit("https://");
    }
}

} // verus!
