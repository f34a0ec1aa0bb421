use team_status::cache::{sort_by_team, CacheRead, Freshness, ResultCache, Snapshot, FRESH_MS, MAX_STALE_MS};
use team_status::status::{ProtocolResult, TeamResult};
use team_status::teams::Team;

fn result(n: u8, http: ProtocolResult) -> TeamResult {
    TeamResult {
        team: Team { team_number: n, domain: format!("t{}.example", n) },
        http,
        https: ProtocolResult::Success(200),
    }
}

fn cache_at(taken: i64) -> ResultCache {
    let mut cache = ResultCache::new();
    cache.install_at(vec![result(2, ProtocolResult::Timeout), result(1, ProtocolResult::Success(200))], taken);
    cache
}

fn kind(read: &CacheRead) -> Option<Freshness> {
    match read {
        CacheRead::Fresh(_) => Some(Freshness::Fresh),
        CacheRead::Stale(_) => Some(Freshness::Stale),
        CacheRead::Refresh => None,
    }
}

#[test]
fn empty_cache_refreshes() {
    let cache = ResultCache::new();
    assert!(cache.snapshot().is_none());
    assert!(matches!(cache.read_at(0), CacheRead::Refresh));
    assert!(cache.refresh_due_at(0));
}

#[test]
fn window_edges() {
    let t = 1_700_000_000_000i64;
    let cache = cache_at(t);
    assert_eq!(kind(&cache.read_at(t)), Some(Freshness::Fresh));
    assert_eq!(kind(&cache.read_at(t + 59_999)), Some(Freshness::Fresh));
    assert_eq!(kind(&cache.read_at(t + 60_000)), Some(Freshness::Stale));
    assert_eq!(kind(&cache.read_at(t + 3_599_999)), Some(Freshness::Stale));
    assert_eq!(kind(&cache.read_at(t + 3_600_000)), None);
    assert_eq!(FRESH_MS, 60_000);
    assert_eq!(MAX_STALE_MS, 3_600_000);
}

#[test]
fn two_fresh_reads_agree() {
    let t = 5_000_000i64;
    let cache = cache_at(t);
    let first = match cache.read_at(t + 1_000) {
        CacheRead::Fresh(s) => s,
        _ => panic!("first read not fresh"),
    };
    let second = match cache.read_at(t + 59_000) {
        CacheRead::Fresh(s) => s,
        _ => panic!("second read not fresh"),
    };
    assert_eq!(first.results(), second.results());
    assert_eq!(first.timestamp(), second.timestamp());
}

#[test]
fn past_the_ceiling_refreshes_to_newer_snapshot() {
    let t = 5_000_000i64;
    let mut cache = cache_at(t);
    let now = t + 3_600_001;
    assert!(matches!(cache.read_at(now), CacheRead::Refresh));
    assert!(cache.refresh_due_at(now));
    cache.install_at(vec![result(1, ProtocolResult::FailedConnect)], now);
    let snapshot = cache.snapshot().unwrap();
    assert!(snapshot.timestamp() > t);
    assert_eq!(snapshot.results()[0].http, ProtocolResult::FailedConnect);
    assert_eq!(kind(&cache.read_at(now)), Some(Freshness::Fresh));
}

#[test]
fn recent_refresh_is_not_repeated() {
    let t = 5_000_000i64;
    let cache = cache_at(t);
    assert!(!cache.refresh_due_at(t + 30_000));
    assert!(cache.refresh_due_at(t + 60_000));
}

#[test]
fn stale_read_serves_old_snapshot() {
    let t = 5_000_000i64;
    let cache = cache_at(t);
    match cache.read_at(t + 120_000) {
        CacheRead::Stale(s) => assert_eq!(s.timestamp(), t),
        _ => panic!("not stale"),
    }
}

#[test]
fn snapshot_rows_ascend_for_any_arrival_order() {
    let arrived = vec![
        result(7, ProtocolResult::Timeout),
        result(3, ProtocolResult::UntrustedCertificate),
        result(12, ProtocolResult::Success(200)),
        result(1, ProtocolResult::Error("e".to_string())),
        result(5, ProtocolResult::CorrectRedirect(308)),
    ];
    let snapshot = Snapshot::new(arrived.clone(), 42);
    let numbers: Vec<u8> = snapshot.results().iter().map(|r| r.team.team_number).collect();
    assert_eq!(numbers, vec![1, 3, 5, 7, 12]);
    assert_eq!(snapshot.results().len(), arrived.len());
    for row in snapshot.results() {
        assert!(arrived.contains(row));
    }
    assert_eq!(snapshot.into_results().len(), 5);
}

#[test]
fn sort_keeps_equal_numbers() {
    let sorted = sort_by_team(vec![
        result(2, ProtocolResult::Timeout),
        result(1, ProtocolResult::Timeout),
        result(2, ProtocolResult::FailedConnect),
    ]);
    let numbers: Vec<u8> = sorted.iter().map(|r| r.team.team_number).collect();
    assert_eq!(numbers, vec![1, 2, 2]);
}

#[test]
fn sort_of_nothing_is_nothing() {
    assert!(sort_by_team(Vec::new()).is_empty());
}

#[test]
fn clock_reads_and_installs() {
    let mut cache = ResultCache::new();
    assert!(cache.is_refresh_due());
    assert!(matches!(cache.read(), CacheRead::Refresh));
    cache.install(vec![result(2, ProtocolResult::Timeout), result(1, ProtocolResult::Timeout)]);
    let snapshot = cache.snapshot().unwrap();
    // Some time after 2020-01-01.
    assert!(snapshot.timestamp() > 1_577_836_800_000);
    assert_eq!(snapshot.results()[0].team.team_number, 1);
    assert!(matches!(cache.read(), CacheRead::Fresh(_)));
    assert!(!cache.is_refresh_due());
}
