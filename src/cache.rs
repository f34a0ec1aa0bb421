use vstd::prelude::*;

use crate::status::TeamResult;
use crate::teams::Team;

verus! {

broadcast use vstd::seq_lib::group_to_multiset_ensures;

/// Age below which a snapshot is served without any refresh, in milliseconds.
pub const FRESH_MS: i64 = 60_000;

/// Age from which a read refreshes before it answers, in milliseconds.
pub const MAX_STALE_MS: i64 = 3_600_000;

/// The team numbers of `s` never decrease.
pub open spec fn sorted_by_team(s: Seq<TeamResult>) -> bool {
    forall|i: int, j: int|
        0 <= i <= j < s.len() ==> #[trigger] s[i].team.team_number <= #[trigger] s[j].team.team_number
}

/// Orders `results` by team number, keeping each of them exactly once.
pub fn sort_by_team(results: Vec<TeamResult>) -> (r: Vec<TeamResult>)
    ensures
        sorted_by_team(r@),
        r@.to_multiset() == results@.to_multiset(),
{
    let mut rest = results;
    let mut out: Vec<TeamResult> = Vec::new();
    while rest.len() > 0
        invariant
            sorted_by_team(out@),
            out@.to_multiset().add(rest@.to_multiset()) == results@.to_multiset(),
        decreases rest@.len(),
    {
        let ghost before = rest@;
        let x = match rest.pop() {
            Some(x) => x,
            None => {
                return out;
            },
        };
        assert(before =~= rest@.push(x));
        let key = x.team.team_number;
        let mut pos: usize = 0;
        while pos < out.len() && out[pos].team.team_number <= key
            invariant
                pos <= out@.len(),
                forall|k: int| 0 <= k < pos ==> #[trigger] out@[k].team.team_number <= key,
            decreases out@.len() - pos,
        {
            pos = pos + 1;
        }
        let ghost old_out = out@;
        out.insert(pos, x);
        assert(out@ == old_out.insert(pos as int, x));
        assert forall|i: int, j: int| 0 <= i <= j < out@.len() implies #[trigger] out@[i].team.team_number
            <= #[trigger] out@[j].team.team_number by {
            if i < pos && j > pos {
                assert(old_out[i].team.team_number <= key);
            }
            if i == pos && j > pos {
                assert(old_out[pos as int].team.team_number > key);
                assert(old_out[pos as int].team.team_number <= old_out[j - 1].team.team_number);
            }
        }
    }
    out
}

/// The results of one round, ordered by team number, and when they were taken
/// (milliseconds since the Unix epoch).
#[derive(Debug)]
pub struct Snapshot {
    results: Vec<TeamResult>,
    timestamp: i64,
}

impl Snapshot {
    #[verifier::type_invariant]
    spec fn ordered(self) -> bool {
        sorted_by_team(self.results@)
    }

    /// The results, in order.
    pub closed spec fn rows(self) -> Seq<TeamResult> {
        self.results@
    }

    /// When the results were taken.
    pub closed spec fn taken_at(self) -> i64 {
        self.timestamp
    }

    /// A snapshot of `results`, taken at `timestamp`, put in team-number order.
    pub fn new(results: Vec<TeamResult>, timestamp: i64) -> (r: Snapshot)
        ensures
            sorted_by_team(r.rows()),
            r.rows().to_multiset() == results@.to_multiset(),
            r.taken_at() == timestamp,
    {
        let results = sort_by_team(results);
        Snapshot { results, timestamp }
    }

    pub fn results(&self) -> (r: &Vec<TeamResult>)
        ensures
            r@ == self.rows(),
            sorted_by_team(r@),
    {
        proof {
            use_type_invariant(self);
        }
        &self.results
    }

    pub fn timestamp(&self) -> (r: i64)
        ensures
            r == self.taken_at(),
    {
        self.timestamp
    }

    /// The results, handed over in order.
    pub fn into_results(self) -> (r: Vec<TeamResult>)
        ensures
            r@ == self.rows(),
            sorted_by_team(r@),
    {
        proof {
            use_type_invariant(&self);
        }
        self.results
    }
}

/// Whether a served snapshot may still be taken as current.
#[derive(Copy, Clone, Debug, PartialEq, Eq, Structural)]
pub enum Freshness {
    Fresh,
    Stale,
}

/// What a read of the cache comes to.
#[derive(Debug)]
pub enum CacheRead<'a> {
    /// The snapshot is younger than the freshness window.
    Fresh(&'a Snapshot),
    /// The snapshot is past the freshness window but below the ceiling: the
    /// caller serves it and signals a background refresh.
    Stale(&'a Snapshot),
    /// No snapshot, or one at or past the ceiling: the caller refreshes before
    /// it answers.
    Refresh,
}

impl CacheRead<'_> {
    /// The snapshot served and how fresh it is; `None` where nothing is served.
    pub open spec fn served(self) -> Option<(Snapshot, Freshness)> {
        match self {
            CacheRead::Fresh(s) => Some((*s, Freshness::Fresh)),
            CacheRead::Stale(s) => Some((*s, Freshness::Stale)),
            CacheRead::Refresh => None,
        }
    }
}

/// How a snapshot taken at `taken_at` is served at time `now`; `None` where it is
/// too old to be served.
pub open spec fn freshness_at(taken_at: i64, now: i64) -> Option<Freshness> {
    if now - taken_at < FRESH_MS {
        Some(Freshness::Fresh)
    } else if now - taken_at < MAX_STALE_MS {
        Some(Freshness::Stale)
    } else {
        None
    }
}

/// What a read at time `now` serves from `slot`; `None` where it refreshes first.
pub open spec fn read_outcome(slot: Option<Snapshot>, now: i64) -> Option<(Snapshot, Freshness)> {
    match slot {
        None => None,
        Some(s) => match freshness_at(s.taken_at(), now) {
            Some(f) => Some((s, f)),
            None => None,
        },
    }
}

/// A refresh at time `now` runs a round, rather than keep what another refresh
/// put in place less than the freshness window ago.
pub open spec fn refresh_due(slot: Option<Snapshot>, now: i64) -> bool {
    match slot {
        None => true,
        Some(s) => now - s.taken_at() >= FRESH_MS,
    }
}

/// Relies on chrono's `Utc::now` and `DateTime::timestamp_millis`: the current
/// time in milliseconds since the Unix epoch. `Utc::now` panics rather than
/// return a time before the epoch, so the result is never negative.
#[verifier::external_body]
fn now_millis() -> (r: i64)
    ensures
        r >= 0,
{
    chrono::Utc::now().timestamp_millis()
}

/// The slot that holds the latest snapshot, if any.
#[derive(Debug)]
pub struct ResultCache {
    held: Option<Snapshot>,
}

impl ResultCache {
    /// The snapshot held.
    pub closed spec fn slot(self) -> Option<Snapshot> {
        self.held
    }

    /// An empty cache.
    pub fn new() -> (r: ResultCache)
        ensures
            r.slot() is None,
    {
        ResultCache { held: None }
    }

    pub fn snapshot(&self) -> (r: Option<&Snapshot>)
        ensures
            match r {
                Some(s) => self.slot() == Some(*s),
                None => self.slot() is None,
            },
    {
        self.held.as_ref()
    }

    /// Reads the cache at time `now` (milliseconds since the Unix epoch).
    pub fn read_at(&self, now: i64) -> (r: CacheRead<'_>)
        ensures
            r.served() == read_outcome(self.slot(), now),
    {
        match &self.held {
            None => CacheRead::Refresh,
            Some(s) => {
                let age: i128 = now as i128 - s.timestamp as i128;
                if age < FRESH_MS as i128 {
                    CacheRead::Fresh(s)
                } else if age < MAX_STALE_MS as i128 {
                    CacheRead::Stale(s)
                } else {
                    CacheRead::Refresh
                }
            },
        }
    }

    /// Reads the cache now.
    pub fn read(&self) -> (r: CacheRead<'_>)
        ensures
            exists|now: i64| now >= 0 && r.served() == read_outcome(self.slot(), now),
    {
        let now = now_millis();
        self.read_at(now)
    }

    /// Whether a refresh at time `now` runs a round.
    pub fn refresh_due_at(&self, now: i64) -> (r: bool)
        ensures
            r == refresh_due(self.slot(), now),
    {
        match &self.held {
            None => true,
            Some(s) => now as i128 - s.timestamp as i128 >= FRESH_MS as i128,
        }
    }

    /// Whether a refresh now runs a round.
    pub fn is_refresh_due(&self) -> (r: bool)
        ensures
            exists|now: i64| now >= 0 && r == refresh_due(self.slot(), now),
    {
        let now = now_millis();
        self.refresh_due_at(now)
    }

    /// Replaces the held snapshot with `results`, taken at `now`.
    pub fn install_at(&mut self, results: Vec<TeamResult>, now: i64)
        ensures
            final(self).slot() matches Some(s) && s.taken_at() == now && sorted_by_team(s.rows())
                && s.rows().to_multiset() == results@.to_multiset(),
    {
        self.held = Some(Snapshot::new(results, now));
    }

    /// Replaces the held snapshot with `results`, taken now.
    pub fn install(&mut self, results: Vec<TeamResult>)
        ensures
            final(self).slot() matches Some(s) && s.taken_at() >= 0 && sorted_by_team(s.rows())
                && s.rows().to_multiset() == results@.to_multiset(),
    {
        let now = now_millis();
        self.install_at(results, now);
    }
}

/// Two reads of an unchanged snapshot, both less than the freshness window after
/// it was taken, serve that same snapshot, as fresh, both times: neither signals
/// a refresh nor runs one.
pub proof fn lemma_fresh_reads_repeat(slot: Option<Snapshot>, first: i64, second: i64)
    requires
        slot is Some,
        first - slot->0.taken_at() < FRESH_MS,
        second - slot->0.taken_at() < FRESH_MS,
    ensures
        read_outcome(slot, first) == Some((slot->0, Freshness::Fresh)),
        read_outcome(slot, second) == read_outcome(slot, first),
{
}

/// A read of a snapshot at least the ceiling old serves nothing until a refresh,
/// and a refresh at that time or later runs a round whose snapshot, taken then,
/// is newer than the old one.
pub proof fn lemma_ceiling_forces_refresh(slot: Option<Snapshot>, read_at: i64, refreshed_at: i64)
    requires
        slot is Some,
        read_at - slot->0.taken_at() >= MAX_STALE_MS,
        refreshed_at >= read_at,
    ensures
        read_outcome(slot, read_at) is None,
        refresh_due(slot, refreshed_at),
        refreshed_at > slot->0.taken_at(),
{
}

/// `arrived` holds one result for each entry of `roster`, in any order.
pub open spec fn one_result_per_entry(roster: Seq<Team>, arrived: Seq<TeamResult>) -> bool {
    &&& arrived.len() == roster.len()
    &&& forall|k: int| 0 <= k < arrived.len() ==> roster.contains(#[trigger] arrived[k].team)
    &&& forall|k: int, l: int|
        0 <= k < arrived.len() && 0 <= l < arrived.len() && k != l
            ==> #[trigger] arrived[k].team.team_number != #[trigger] arrived[l].team.team_number
}

/// A snapshot of one result per roster entry, whatever the outcomes and whatever
/// order they arrived in, has one row per entry, each for an entry of the roster,
/// in strictly ascending team-number order.
pub proof fn lemma_snapshot_follows_roster(roster: Seq<Team>, arrived: Seq<TeamResult>, snap: Snapshot)
    requires
        one_result_per_entry(roster, arrived),
        sorted_by_team(snap.rows()),
        snap.rows().to_multiset() == arrived.to_multiset(),
    ensures
        snap.rows().len() == roster.len(),
        forall|i: int| 0 <= i < snap.rows().len() ==> roster.contains(#[trigger] snap.rows()[i].team),
        forall|i: int, j: int|
            0 <= i < j < snap.rows().len() ==> #[trigger] snap.rows()[i].team.team_number
                < #[trigger] snap.rows()[j].team.team_number,
{
    let rows = snap.rows();
    assert forall|k: int, l: int|
        0 <= k < arrived.len() && 0 <= l < arrived.len() && k != l implies #[trigger] arrived[k]
        != #[trigger] arrived[l] by {
        assert(arrived[k].team.team_number != arrived[l].team.team_number);
    }
    arrived.lemma_multiset_has_no_duplicates();
    rows.lemma_multiset_has_no_duplicates_conv();
    assert(rows.to_multiset().len() == arrived.to_multiset().len());
    assert forall|i: int| #![trigger rows[i]] 0 <= i < rows.len() implies exists|a: int|
        0 <= a < arrived.len() && #[trigger] arrived[a] == rows[i] by {
        assert(rows.to_multiset().count(rows[i]) > 0);
        assert(arrived.contains(rows[i]));
    }
    assert forall|i: int| 0 <= i < rows.len() implies roster.contains(#[trigger] rows[i].team) by {
        let a = choose|a: int| 0 <= a < arrived.len() && #[trigger] arrived[a] == rows[i];
        assert(roster.contains(arrived[a].team));
    }
    assert forall|i: int, j: int| 0 <= i < j < rows.len() implies #[trigger] rows[i].team.team_number
        < #[trigger] rows[j].team.team_number by {
        let a = choose|a: int| 0 <= a < arrived.len() && #[trigger] arrived[a] == rows[i];
        let b = choose|b: int| 0 <= b < arrived.len() && #[trigger] arrived[b] == rows[j];
        assert(rows[i] != rows[j]);
        assert(a != b);
        assert(arrived[a].team.team_number != arrived[b].team.team_number);
    }
}

} // verus!
