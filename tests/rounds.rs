use team_status::cache::ResultCache;
use team_status::status::http::{FailureKind, Observation};
use team_status::status::{
    after_round, every_probe_failed, transport_failed, ProtocolResult, RoundStep, TeamResult,
    MAX_ROUNDS, RETRY_BACKOFF_MS,
};
use team_status::teams::Team;

fn team(n: u8, domain: &str) -> Team {
    Team { team_number: n, domain: domain.to_string() }
}

fn result(n: u8, http: ProtocolResult, https: ProtocolResult) -> TeamResult {
    TeamResult { team: team(n, &format!("t{}.example", n)), http, https }
}

fn degenerate_round() -> Vec<TeamResult> {
    vec![
        result(2, ProtocolResult::Timeout, ProtocolResult::FailedConnect),
        result(1, ProtocolResult::FailedConnect, ProtocolResult::FailedConnect),
        result(3, ProtocolResult::Timeout, ProtocolResult::Timeout),
    ]
}

fn healthy_round() -> Vec<TeamResult> {
    vec![
        result(3, ProtocolResult::Timeout, ProtocolResult::Success(200)),
        result(1, ProtocolResult::CorrectRedirect(301), ProtocolResult::Success(200)),
        result(2, ProtocolResult::FailedConnect, ProtocolResult::FailedConnect),
    ]
}

#[test]
fn two_domain_round_snapshot() {
    let a = team(1, "a.example");
    let b = team(2, "b.example");
    let a_result = TeamResult::from_observations(
        a.clone(),
        Observation::Failure { kind: FailureKind::Timeout, detail: "timed out".to_string() },
        Observation::Response { status: 200, location: None, body: "welcome".to_string() },
    );
    let b_result = TeamResult::from_observations(
        b.clone(),
        Observation::Response {
            status: 301,
            location: Some("https://b.example/".to_string()),
            body: String::new(),
        },
        Observation::Response { status: 200, location: None, body: "welcome".to_string() },
    );
    // Domain 2 finished first.
    let arrived = vec![b_result, a_result];
    let published = match after_round(1, arrived) {
        RoundStep::Publish(results) => results,
        other => panic!("unexpected step {:?}", other),
    };
    let mut cache = ResultCache::new();
    cache.install_at(published, 1_000);
    let snapshot = cache.snapshot().unwrap();
    let rows = snapshot.results();
    assert_eq!(rows.len(), 2);
    assert_eq!(rows[0].team, a);
    assert_eq!(rows[0].http, ProtocolResult::Timeout);
    assert_eq!(rows[0].https, ProtocolResult::Success(200));
    assert_eq!(rows[1].team, b);
    assert_eq!(rows[1].http, ProtocolResult::CorrectRedirect(301));
    assert_eq!(rows[1].https, ProtocolResult::Success(200));
    assert_eq!(snapshot.timestamp(), 1_000);
}

#[test]
fn failed_first_round_is_retried_and_second_stands() {
    match after_round(1, degenerate_round()) {
        RoundStep::Retry { backoff_ms } => assert_eq!(backoff_ms, 1000),
        other => panic!("unexpected step {:?}", other),
    }
    match after_round(2, healthy_round()) {
        RoundStep::Publish(results) => assert_eq!(results, healthy_round()),
        other => panic!("unexpected step {:?}", other),
    }
}

#[test]
fn two_failed_rounds_abort() {
    assert!(matches!(after_round(1, degenerate_round()), RoundStep::Retry { .. }));
    assert!(matches!(after_round(2, degenerate_round()), RoundStep::Abort));
    assert_eq!(MAX_ROUNDS, 2);
    assert_eq!(RETRY_BACKOFF_MS, 1000);
}

#[test]
fn healthy_first_round_is_published_as_is() {
    match after_round(1, healthy_round()) {
        RoundStep::Publish(results) => assert_eq!(results, healthy_round()),
        other => panic!("unexpected step {:?}", other),
    }
}

#[test]
fn certificate_failures_are_not_transport_failures() {
    let round = vec![
        result(1, ProtocolResult::Timeout, ProtocolResult::UntrustedCertificate),
        result(2, ProtocolResult::FailedConnect, ProtocolResult::InvalidCertificate),
    ];
    assert!(!every_probe_failed(&round));
    assert!(matches!(after_round(2, round), RoundStep::Publish(_)));
}

#[test]
fn one_good_probe_saves_the_round() {
    let mut round = degenerate_round();
    round.push(result(4, ProtocolResult::Timeout, ProtocolResult::UnexpectedResponse(500)));
    assert!(!every_probe_failed(&round));
}

#[test]
fn errors_are_not_transport_failures() {
    assert!(transport_failed(&ProtocolResult::Timeout));
    assert!(transport_failed(&ProtocolResult::FailedConnect));
    assert!(!transport_failed(&ProtocolResult::Error("x".to_string())));
    assert!(!transport_failed(&ProtocolResult::Success(200)));
    assert!(!transport_failed(&ProtocolResult::NginxDefaultPage(200)));
    assert!(!transport_failed(&ProtocolResult::IncorrectRedirect(302)));
}

#[test]
fn empty_round_counts_as_failed() {
    assert!(every_probe_failed(&Vec::new()));
}
