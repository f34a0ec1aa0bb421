use vstd::prelude::*;

use crate::teams::Team;

pub mod http;

pub use self::http::HttpProtocol;
use self::http::{classification, classify, Observation};

verus! {

/// What one probe of one domain over one scheme came to.
#[derive(Clone, Debug, PartialEq, Eq)]
pub enum ProtocolResult {
    /// Status 200 with a page of the site's own.
    Success(u16),
    /// Status 200 with the web server's stock landing page.
    NginxDefaultPage(u16),
    /// A redirect from plain HTTP to the domain's own HTTPS root.
    CorrectRedirect(u16),
    /// A redirect from plain HTTP to anywhere else.
    IncorrectRedirect(u16),
    /// Any other status.
    UnexpectedResponse(u16),
    Timeout,
    UntrustedCertificate,
    InvalidCertificate,
    FailedConnect,
    /// Any other transport error; the text is kept for diagnostics only.
    Error(String),
}

/// The outcome of a probe, under the name some callers know it by.
pub type RequestResult = ProtocolResult;

/// The scheme of a probe, under the name some callers know it by.
pub type Protocol = HttpProtocol;

/// The probes of one domain: one over HTTP, one over HTTPS.
#[derive(Clone, Debug, PartialEq, Eq)]
pub struct TeamResult {
    pub team: Team,
    pub http: ProtocolResult,
    pub https: ProtocolResult,
}

impl TeamResult {
    /// The result for `team`, given what its HTTP and its HTTPS request came back with.
    pub fn from_observations(team: Team, http: Observation, https: Observation) -> (r: TeamResult)
        ensures
            r.team == team,
            r.http == classification(HttpProtocol::Http, team.domain@, http),
            r.https == classification(HttpProtocol::Https, team.domain@, https),
    {
        let http = classify(HttpProtocol::Http, team.domain.as_str(), http);
        let https = classify(HttpProtocol::Https, team.domain.as_str(), https);
        TeamResult { team, http, https }
    }
}

/// Rounds of probing that one refresh may run: the first and one retry.
pub const MAX_ROUNDS: u32 = 2;

/// Pause before the retry of a round in which every probe failed, in milliseconds.
pub const RETRY_BACKOFF_MS: u64 = 1000;

/// The probe never got an HTTP answer: it timed out or could not connect.
pub open spec fn is_transport_failure(r: ProtocolResult) -> bool {
    r is Timeout || r is FailedConnect
}

/// Every probe of the round failed at the transport level, which points at the
/// local network rather than at the domains.
pub open spec fn round_failed(results: Seq<TeamResult>) -> bool {
    forall|i: int|
        0 <= i < results.len() ==> is_transport_failure(#[trigger] results[i].http)
            && is_transport_failure(results[i].https)
}

/// What to do once a round of probing is over.
#[derive(Debug)]
pub enum RoundStep {
    /// The round's results stand.
    Publish(Vec<TeamResult>),
    /// Wait, then run the whole round again.
    Retry { backoff_ms: u64 },
    /// No round got through: give up.
    Abort,
}

/// Whether `r` is a transport failure.
pub fn transport_failed(r: &ProtocolResult) -> (b: bool)
    ensures
        b == is_transport_failure(*r),
{
    match r {
        ProtocolResult::Timeout | ProtocolResult::FailedConnect => true,
        _ => false,
    }
}

/// Whether every probe of the round failed at the transport level.
pub fn every_probe_failed(results: &Vec<TeamResult>) -> (b: bool)
    ensures
        b == round_failed(results@),
{
    let mut i: usize = 0;
    while i < results.len()
        invariant
            i <= results@.len(),
            forall|j: int|
                0 <= j < i ==> is_transport_failure(#[trigger] results@[j].http)
                    && is_transport_failure(results@[j].https),
        decreases results@.len() - i,
    {
        if !transport_failed(&results[i].http) || !transport_failed(&results[i].https) {
            return false;
        }
        i = i + 1;
    }
    true
}

/// Decides what follows round number `rounds_done` (counted from 1), given its
/// results in any order: they stand unless every probe failed; then the round is
/// run again after a pause, unless it already was, and the refresh gives up.
pub fn after_round(rounds_done: u32, results: Vec<TeamResult>) -> (r: RoundStep)
    ensures
        !round_failed(results@) ==> r == RoundStep::Publish(results),
        round_failed(results@) && rounds_done < MAX_ROUNDS ==> r == (RoundStep::Retry {
            backoff_ms: RETRY_BACKOFF_MS,
        }),
        round_failed(results@) && rounds_done >= MAX_ROUNDS ==> r == RoundStep::Abort,
{
    if !every_probe_failed(&results) {
        RoundStep::Publish(results)
    } else if rounds_done < MAX_ROUNDS {
        RoundStep::Retry { backoff_ms: RETRY_BACKOFF_MS }
    } else {
        RoundStep::Abort
    }
}

} // verus!
