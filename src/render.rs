use vstd::prelude::*;

use crate::cache::{Freshness, FRESH_MS};
use crate::status::http::{classification, HttpProtocol, Observation};
use crate::status::{ProtocolResult, TeamResult};
use crate::teams::Team;

verus! {

/// How well a domain did on one scheme.
#[derive(Copy, Clone, Debug, PartialEq, Eq, Structural)]
pub enum RequestResultStatus {
    Correct,
    NearlyCorrect,
    Incorrect,
}

impl RequestResultStatus {
    /// The style class that marks the grade on the page.
    pub open spec fn bootstrap_class(self) -> Seq<char> {
        match self {
            RequestResultStatus::Correct => "link-success"@,
            RequestResultStatus::NearlyCorrect => "link-warning"@,
            RequestResultStatus::Incorrect => "link-danger"@,
        }
    }

    /// The grade in words.
    pub open spec fn alt_text(self) -> Seq<char> {
        match self {
            RequestResultStatus::Correct => "Correct"@,
            RequestResultStatus::NearlyCorrect => "Nearly correct"@,
            RequestResultStatus::Incorrect => "Incorrect"@,
        }
    }

    pub fn to_bootstrap_class(&self) -> (r: String)
        ensures
            r@ == self.bootstrap_class(),
    {
        match self {
            RequestResultStatus::Correct => String::from_str("link-success"),
            RequestResultStatus::NearlyCorrect => String::from_str("link-warning"),
            RequestResultStatus::Incorrect => String::from_str("link-danger"),
        }
    }

    pub fn to_alt_text(&self) -> (r: String)
        ensures
            r@ == self.alt_text(),
    {
        match self {
            RequestResultStatus::Correct => String::from_str("Correct"),
            RequestResultStatus::NearlyCorrect => String::from_str("Nearly correct"),
            RequestResultStatus::Incorrect => String::from_str("Incorrect"),
        }
    }
}

/// The category a probe is shown under.
#[derive(Copy, Clone, Debug, PartialEq, Eq, Structural)]
pub enum RequestResultResponseTemplate {
    Success { status_code: u16 },
    /// Status 418, shown as a joke rather than as an error.
    Teapot,
    Redirect { status_code: u16 },
    UnexpectedResponse { status_code: u16 },
    Timeout,
    UntrustedCertificate,
    InvalidCertificate,
    FailedConnect,
    Error,
}

/// The category and grade that `result`, probed over `protocol`, is shown with.
pub open spec fn display(
    result: ProtocolResult,
    protocol: HttpProtocol,
) -> (RequestResultResponseTemplate, RequestResultStatus) {
    match result {
        ProtocolResult::Success(code) => (
            RequestResultResponseTemplate::Success { status_code: code },
            match protocol {
                HttpProtocol::Http => RequestResultStatus::NearlyCorrect,
                HttpProtocol::Https => RequestResultStatus::Correct,
            },
        ),
        ProtocolResult::NginxDefaultPage(code) => (
            RequestResultResponseTemplate::Success { status_code: code },
            RequestResultStatus::NearlyCorrect,
        ),
        ProtocolResult::CorrectRedirect(code) => (
            RequestResultResponseTemplate::Redirect { status_code: code },
            RequestResultStatus::Correct,
        ),
        ProtocolResult::IncorrectRedirect(code) => (
            RequestResultResponseTemplate::Redirect { status_code: code },
            RequestResultStatus::NearlyCorrect,
        ),
        ProtocolResult::UnexpectedResponse(code) => if code == 418 {
            (RequestResultResponseTemplate::Teapot, RequestResultStatus::NearlyCorrect)
        } else {
            (
                RequestResultResponseTemplate::UnexpectedResponse { status_code: code },
                RequestResultStatus::Incorrect,
            )
        },
        ProtocolResult::Timeout => (
            RequestResultResponseTemplate::Timeout,
            RequestResultStatus::Incorrect,
        ),
        ProtocolResult::UntrustedCertificate => (
            RequestResultResponseTemplate::UntrustedCertificate,
            RequestResultStatus::NearlyCorrect,
        ),
        ProtocolResult::InvalidCertificate => (
            RequestResultResponseTemplate::InvalidCertificate,
            RequestResultStatus::NearlyCorrect,
        ),
        ProtocolResult::FailedConnect => (
            RequestResultResponseTemplate::FailedConnect,
            RequestResultStatus::Incorrect,
        ),
        ProtocolResult::Error(_) => (
            RequestResultResponseTemplate::Error,
            RequestResultStatus::Incorrect,
        ),
    }
}

/// One probe as the page shows it.
#[derive(Clone, Debug, PartialEq, Eq)]
pub struct RequestResultTemplate {
    pub result: RequestResultResponseTemplate,
    pub bootstrap_class: String,
    pub alt_text: String,
}

impl RequestResultTemplate {
    /// Shows `result` with grade `status`.
    pub open spec fn shows(self, result: RequestResultResponseTemplate, status: RequestResultStatus) -> bool {
        &&& self.result == result
        &&& self.bootstrap_class@ == status.bootstrap_class()
        &&& self.alt_text@ == status.alt_text()
    }

    pub fn new(result: RequestResultResponseTemplate, status: RequestResultStatus) -> (r: Self)
        ensures
            r.shows(result, status),
    {
        RequestResultTemplate {
            result,
            bootstrap_class: status.to_bootstrap_class(),
            alt_text: status.to_alt_text(),
        }
    }

    /// How `request_result`, probed over `protocol`, is shown.
    pub fn from_result(request_result: ProtocolResult, protocol: HttpProtocol) -> (r: Self)
        ensures
            r.shows(display(request_result, protocol).0, display(request_result, protocol).1),
    {
        match request_result {
            ProtocolResult::Success(status_code) => Self::new(
                RequestResultResponseTemplate::Success { status_code },
                match protocol {
                    HttpProtocol::Http => RequestResultStatus::NearlyCorrect,
                    HttpProtocol::Https => RequestResultStatus::Correct,
                },
            ),
            ProtocolResult::NginxDefaultPage(status_code) => Self::new(
                RequestResultResponseTemplate::Success { status_code },
                RequestResultStatus::NearlyCorrect,
            ),
            ProtocolResult::CorrectRedirect(status_code) => Self::new(
                RequestResultResponseTemplate::Redirect { status_code },
                RequestResultStatus::Correct,
            ),
            ProtocolResult::IncorrectRedirect(status_code) => Self::new(
                RequestResultResponseTemplate::Redirect { status_code },
                RequestResultStatus::NearlyCorrect,
            ),
            ProtocolResult::UnexpectedResponse(status_code) => {
                if status_code == 418 {
                    Self::new(RequestResultResponseTemplate::Teapot, RequestResultStatus::NearlyCorrect)
                } else {
                    Self::new(
                        RequestResultResponseTemplate::UnexpectedResponse { status_code },
                        RequestResultStatus::Incorrect,
                    )
                }
            },
            ProtocolResult::Timeout => Self::new(
                RequestResultResponseTemplate::Timeout,
                RequestResultStatus::Incorrect,
            ),
            ProtocolResult::UntrustedCertificate => Self::new(
                RequestResultResponseTemplate::UntrustedCertificate,
                RequestResultStatus::NearlyCorrect,
            ),
            ProtocolResult::InvalidCertificate => Self::new(
                RequestResultResponseTemplate::InvalidCertificate,
                RequestResultStatus::NearlyCorrect,
            ),
            ProtocolResult::FailedConnect => Self::new(
                RequestResultResponseTemplate::FailedConnect,
                RequestResultStatus::Incorrect,
            ),
            ProtocolResult::Error(_) => Self::new(
                RequestResultResponseTemplate::Error,
                RequestResultStatus::Incorrect,
            ),
        }
    }
}

/// One row of the page: a team and how its two probes are shown.
#[derive(Clone, Debug, PartialEq, Eq)]
pub struct TeamResultTemplate {
    pub team: Team,
    pub http: RequestResultTemplate,
    pub https: RequestResultTemplate,
}

impl TeamResultTemplate {
    /// The row that shows `team_result`.
    pub fn from_team_result(team_result: TeamResult) -> (r: Self)
        ensures
            r.team == team_result.team,
            r.http.shows(
                display(team_result.http, HttpProtocol::Http).0,
                display(team_result.http, HttpProtocol::Http).1,
            ),
            r.https.shows(
                display(team_result.https, HttpProtocol::Https).0,
                display(team_result.https, HttpProtocol::Https).1,
            ),
    {
        TeamResultTemplate {
            team: team_result.team,
            http: RequestResultTemplate::from_result(team_result.http, HttpProtocol::Http),
            https: RequestResultTemplate::from_result(team_result.https, HttpProtocol::Https),
        }
    }
}

/// The `Cache-Control` value of a page built from a stale snapshot.
pub const STALE_CACHE_CONTROL: &'static str = "public, max-age=1, stale-if-error=86400";

/// The caching header a page carries.
#[derive(Copy, Clone, Debug, PartialEq, Eq)]
pub enum CacheHeader {
    /// `Expires` at this time, in milliseconds since the Unix epoch.
    Expires(i64),
    /// `Cache-Control` with this value.
    CacheControl(&'static str),
}

/// The caching header of a page built from a snapshot taken at `taken_at` and
/// served with `freshness`: a fresh one expires when the freshness window ends.
pub fn cache_header(freshness: Freshness, taken_at: i64) -> (r: CacheHeader)
    requires
        taken_at <= i64::MAX - FRESH_MS,
    ensures
        freshness == Freshness::Fresh ==> r == CacheHeader::Expires((taken_at + FRESH_MS) as i64),
        freshness == Freshness::Stale ==> r == CacheHeader::CacheControl(STALE_CACHE_CONTROL),
{
    match freshness {
        Freshness::Fresh => CacheHeader::Expires(taken_at + FRESH_MS),
        Freshness::Stale => CacheHeader::CacheControl(STALE_CACHE_CONTROL),
    }
}

/// A response with status 418 is shown as the teapot, over either scheme and
/// whatever its headers and body.
pub proof fn lemma_teapot_shown(
    protocol: HttpProtocol,
    domain: Seq<char>,
    location: Option<String>,
    body: String,
)
    ensures
        display(
            classification(protocol, domain, Observation::Response { status: 418, location, body }),
            protocol,
        ).0 == RequestResultResponseTemplate::Teapot,
{
}

} // verus!
