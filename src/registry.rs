//! The table of active connections and the health of their sessions, with
//! the monitoring flag. Callers share it behind one lock and hold that lock
//! only for the in-memory change, never across a CLI run: a monitoring tick
//! takes a plan from the table, runs the checks unlocked, then writes the
//! results back.

use vstd::prelude::*;
use crate::cli::owned;
use crate::error::BoundaryError;
use crate::json::{JsonValue, json_document, parse_json_text, str_field};
use crate::model::{BoundaryCommandResult, BoundaryConnection, SessionHealth, SessionMonitoringStats};
use crate::text::str_eq;

verus! {

/// The index of the first connection of session `id`.
pub open spec fn connection_position(s: Seq<BoundaryConnection>, id: Seq<char>) -> Option<int>
    decreases s.len(),
{
    if s.len() == 0 {
        None
    } else if s[0].session_id@ == id {
        Some(0)
    } else {
        match connection_position(s.drop_first(), id) {
            Some(k) => Some(k + 1),
            None => None,
        }
    }
}

/// The index of the first health entry of session `id`.
pub open spec fn health_position(s: Seq<SessionHealth>, id: Seq<char>) -> Option<int>
    decreases s.len(),
{
    if s.len() == 0 {
        None
    } else if s[0].session_id@ == id {
        Some(0)
    } else {
        match health_position(s.drop_first(), id) {
            Some(k) => Some(k + 1),
            None => None,
        }
    }
}

proof fn lemma_connection_position(s: Seq<BoundaryConnection>, id: Seq<char>, i: int)
    requires
        0 <= i <= s.len(),
        forall|j: int| 0 <= j < i ==> s[j].session_id@ != id,
    ensures
        i < s.len() && s[i].session_id@ == id ==> connection_position(s, id) == Some(i),
        i == s.len() ==> connection_position(s, id).is_none(),
    decreases i,
{
    if i > 0 {
        lemma_connection_position(s.drop_first(), id, i - 1);
    }
}

proof fn lemma_health_position(s: Seq<SessionHealth>, id: Seq<char>, i: int)
    requires
        0 <= i <= s.len(),
        forall|j: int| 0 <= j < i ==> s[j].session_id@ != id,
    ensures
        i < s.len() && s[i].session_id@ == id ==> health_position(s, id) == Some(i),
        i == s.len() ==> health_position(s, id).is_none(),
    decreases i,
{
    if i > 0 {
        lemma_health_position(s.drop_first(), id, i - 1);
    }
}

/// The first position in `s` is a position of `id`, and none comes before it.
pub proof fn lemma_connection_position_found(s: Seq<BoundaryConnection>, id: Seq<char>)
    ensures
        match connection_position(s, id) {
            Some(i) => 0 <= i < s.len() && s[i].session_id@ == id && forall|j: int| 0 <= j < i ==> s[j].session_id@ != id,
            None => forall|j: int| 0 <= j < s.len() ==> s[j].session_id@ != id,
        },
    decreases s.len(),
{
    if s.len() > 0 {
        lemma_connection_position_found(s.drop_first(), id);
        if s[0].session_id@ != id {
            assert forall|j: int| 1 <= j < s.len() implies s[j] == s.drop_first()[j - 1] by {}
        }
    }
}

/// The first position in `s` is a position of `id`, and none comes before it.
pub proof fn lemma_health_position_found(s: Seq<SessionHealth>, id: Seq<char>)
    ensures
        match health_position(s, id) {
            Some(i) => 0 <= i < s.len() && s[i].session_id@ == id && forall|j: int| 0 <= j < i ==> s[j].session_id@ != id,
            None => forall|j: int| 0 <= j < s.len() ==> s[j].session_id@ != id,
        },
    decreases s.len(),
{
    if s.len() > 0 {
        lemma_health_position_found(s.drop_first(), id);
        if s[0].session_id@ != id {
            assert forall|j: int| 1 <= j < s.len() implies s[j] == s.drop_first()[j - 1] by {}
        }
    }
}

fn find_connection_index(s: &Vec<BoundaryConnection>, id: &str) -> (r: Option<usize>)
    ensures
        match r {
            Some(i) => connection_position(s@, id@) == Some(i as int) && i < s@.len() && s@[i as int].session_id@ == id@,
            None => connection_position(s@, id@).is_none(),
        },
{
    let mut i: usize = 0;
    while i < s.len()
        invariant
            i <= s@.len(),
            forall|j: int| 0 <= j < i ==> s@[j].session_id@ != id@,
        decreases s@.len() - i,
    {
        if str_eq(s[i].session_id.as_str(), id) {
            proof {
                lemma_connection_position(s@, id@, i as int);
            }
            return Some(i);
        }
        i = i + 1;
    }
    proof {
        lemma_connection_position(s@, id@, i as int);
    }
    None
}

fn find_health_index(s: &Vec<SessionHealth>, id: &str) -> (r: Option<usize>)
    ensures
        match r {
            Some(i) => health_position(s@, id@) == Some(i as int) && i < s@.len() && s@[i as int].session_id@ == id@,
            None => health_position(s@, id@).is_none(),
        },
{
    let mut i: usize = 0;
    while i < s.len()
        invariant
            i <= s@.len(),
            forall|j: int| 0 <= j < i ==> s@[j].session_id@ != id@,
        decreases s@.len() - i,
    {
        if str_eq(s[i].session_id.as_str(), id) {
            proof {
                lemma_health_position(s@, id@, i as int);
            }
            return Some(i);
        }
        i = i + 1;
    }
    proof {
        lemma_health_position(s@, id@, i as int);
    }
    None
}

/// `s` with `c` in place of the connection of the same session, or `c`
/// appended when there is none.
pub open spec fn upsert_connection(s: Seq<BoundaryConnection>, c: BoundaryConnection) -> Seq<BoundaryConnection> {
    match connection_position(s, c.session_id@) {
        Some(i) => s.update(i, c),
        None => s.push(c),
    }
}

/// `s` with `h` in place of the entry of the same session, or `h` appended
/// when there is none.
pub open spec fn upsert_health(s: Seq<SessionHealth>, h: SessionHealth) -> Seq<SessionHealth> {
    match health_position(s, h.session_id@) {
        Some(i) => s.update(i, h),
        None => s.push(h),
    }
}

/// The health entry of session `id`.
pub open spec fn health_of(s: Seq<SessionHealth>, id: Seq<char>) -> Option<SessionHealth> {
    match health_position(s, id) {
        Some(i) => Some(s[i]),
        None => None,
    }
}

/// The connection of session `id`.
pub open spec fn connection_of(s: Seq<BoundaryConnection>, id: Seq<char>) -> Option<BoundaryConnection> {
    match connection_position(s, id) {
        Some(i) => Some(s[i]),
        None => None,
    }
}

/// Each session has at most one connection in `s`.
pub open spec fn unique_connections(s: Seq<BoundaryConnection>) -> bool {
    forall|i: int, j: int| 0 <= i < j < s.len() ==> #[trigger] s[i].session_id@ != #[trigger] s[j].session_id@
}

/// Each session has at most one health entry in `s`.
pub open spec fn unique_health(s: Seq<SessionHealth>) -> bool {
    forall|i: int, j: int| 0 <= i < j < s.len() ==> #[trigger] s[i].session_id@ != #[trigger] s[j].session_id@
}

/// Adding a connection keeps session ids unique.
pub proof fn lemma_upsert_connection_unique(s: Seq<BoundaryConnection>, c: BoundaryConnection)
    requires
        unique_connections(s),
    ensures
        unique_connections(upsert_connection(s, c)),
{
    lemma_connection_position_found(s, c.session_id@);
    let t = upsert_connection(s, c);
    match connection_position(s, c.session_id@) {
        Some(k) => {
            assert forall|i: int, j: int| 0 <= i < j < t.len() implies #[trigger] t[i].session_id@ != #[trigger] t[j].session_id@ by {
                assert(t[i].session_id@ == s[i].session_id@);
                assert(t[j].session_id@ == s[j].session_id@);
            }
        },
        None => {
            assert forall|i: int, j: int| 0 <= i < j < t.len() implies #[trigger] t[i].session_id@ != #[trigger] t[j].session_id@ by {
                assert(t[i] == s[i]);
                if j < s.len() {
                    assert(t[j] == s[j]);
                }
            }
        },
    }
}

/// Recording a health entry keeps session ids unique.
pub proof fn lemma_upsert_health_unique(s: Seq<SessionHealth>, h: SessionHealth)
    requires
        unique_health(s),
    ensures
        unique_health(upsert_health(s, h)),
{
    lemma_health_position_found(s, h.session_id@);
    let t = upsert_health(s, h);
    match health_position(s, h.session_id@) {
        Some(k) => {
            assert forall|i: int, j: int| 0 <= i < j < t.len() implies #[trigger] t[i].session_id@ != #[trigger] t[j].session_id@ by {
                assert(t[i].session_id@ == s[i].session_id@);
                assert(t[j].session_id@ == s[j].session_id@);
            }
        },
        None => {
            assert forall|i: int, j: int| 0 <= i < j < t.len() implies #[trigger] t[i].session_id@ != #[trigger] t[j].session_id@ by {
                assert(t[i] == s[i]);
                if j < s.len() {
                    assert(t[j] == s[j]);
                }
            }
        },
    }
}

/// Removing the connection of a session keeps ids unique, and leaves no
/// connection of that session.
pub proof fn lemma_remove_connection_unique(s: Seq<BoundaryConnection>, k: int)
    requires
        unique_connections(s),
        0 <= k < s.len(),
    ensures
        unique_connections(s.remove(k)),
        connection_position(s.remove(k), s[k].session_id@).is_none(),
{
    let t = s.remove(k);
    assert forall|i: int, j: int| 0 <= i < j < t.len() implies #[trigger] t[i].session_id@ != #[trigger] t[j].session_id@ by {
        let si = if i < k { i } else { i + 1 };
        let sj = if j < k { j } else { j + 1 };
        assert(t[i] == s[si]);
        assert(t[j] == s[sj]);
    }
    lemma_connection_position_found(t, s[k].session_id@);
    assert forall|j: int| 0 <= j < t.len() implies t[j].session_id@ != s[k].session_id@ by {
        if j < k {
            assert(t[j] == s[j]);
        } else {
            assert(t[j] == s[j + 1]);
        }
    }
}

/// `st` are the counts of a tick with monitoring off: nothing counted, and
/// monitoring reported off.
pub open spec fn idle_stats_of(st: SessionMonitoringStats, last_check: String) -> bool {
    &&& st.total_sessions == 0
    &&& st.active_sessions == 0
    &&& st.failed_sessions == 0
    &&& !st.monitoring_enabled
    &&& st.last_check == last_check
}

/// The counts of a tick with monitoring off, which checks nothing.
pub fn idle_stats(last_check: String) -> (r: SessionMonitoringStats)
    ensures
        idle_stats_of(r, last_check),
{
    SessionMonitoringStats { total_sessions: 0, active_sessions: 0, failed_sessions: 0, monitoring_enabled: false, last_check }
}

/// The result of one session's health check, before it is recorded.
#[derive(Debug)]
pub struct HealthCheck {
    pub session_id: String,
    /// `healthy`, `unhealthy`, `error` or `session_status_<remote status>`.
    pub status: String,
    /// The check itself failed (the CLI could not be run, or reported failure).
    pub failed: bool,
    pub response_time_ms: Option<u64>,
}

/// The remote status that `sessions read` output reports ("unknown" when
/// it names none).
pub open spec fn remote_status(doc: JsonValue) -> Seq<char> {
    match str_field(doc, "status"@) {
        Some(s) => s,
        None => "unknown"@,
    }
}

/// The health status of a session check, and whether the check failed: a CLI
/// that could not run gives `error`, a failed run `unhealthy`, unreadable
/// output `error`; otherwise a remote `active` is `healthy` and any other
/// remote status `x` is `session_status_x`.
pub open spec fn check_status(outcome: Result<BoundaryCommandResult, BoundaryError>) -> (Seq<char>, bool) {
    match outcome {
        Err(_) => ("error"@, true),
        Ok(res) => if !res.success {
            ("unhealthy"@, true)
        } else {
            match json_document(res.stdout@) {
                None => ("error"@, true),
                Some(doc) => if remote_status(doc) == "active"@ {
                    ("healthy"@, false)
                } else {
                    ("session_status_"@ + remote_status(doc), false)
                },
            }
        },
    }
}

/// The health status that a parsed `sessions read` document gives: `healthy`
/// for a remote `active`, else `session_status_<remote status>`.
pub fn status_from_document(doc: &JsonValue) -> (r: String)
    ensures
        r@ == (if remote_status(*doc) == "active"@ {
            "healthy"@
        } else {
            "session_status_"@ + remote_status(*doc)
        }),
{
    let remote = match doc.get_str("status") {
        Some(s) => s,
        None => owned("unknown"),
    };
    if str_eq(remote.as_str(), "active") {
        owned("healthy")
    } else {
        let mut label = owned("session_status_");
        label.append(remote.as_str());
        label
    }
}

/// The check of session `session_id` from its `sessions read` run (or the
/// failure to run it); the response time is kept only for a successful run.
pub fn health_check_from_output(
    session_id: &str,
    outcome: &Result<BoundaryCommandResult, BoundaryError>,
    response_time_ms: Option<u64>,
) -> (r: HealthCheck)
    ensures
        r.session_id@ == session_id@,
        r.status@ == check_status(*outcome).0,
        r.failed == check_status(*outcome).1,
        r.response_time_ms == (if r.failed { None } else { response_time_ms }),
{
    let (status, failed) = match outcome {
        Err(_) => (owned("error"), true),
        Ok(res) => if !res.success {
            (owned("unhealthy"), true)
        } else {
            match parse_json_text(res.stdout.as_str()) {
                None => (owned("error"), true),
                Some(doc) => (status_from_document(&doc), false),
            }
        },
    };
    HealthCheck {
        session_id: owned(session_id),
        status,
        failed,
        response_time_ms: if failed {
            None
        } else {
            response_time_ms
        },
    }
}

/// One more, short of the largest `u32`.
pub open spec fn bumped(n: u32) -> u32 {
    if n < u32::MAX {
        (n + 1) as u32
    } else {
        n
    }
}

/// The health entry after `check`, given the session's earlier entry: a
/// failed check adds one to both failure counts, a good one clears the run of
/// consecutive failures.
pub open spec fn next_health(prev: Option<SessionHealth>, check: HealthCheck, last_check: String) -> SessionHealth {
    let errors: u32 = match prev {
        Some(p) => p.error_count,
        None => 0,
    };
    let run: u32 = match prev {
        Some(p) => p.consecutive_failures,
        None => 0,
    };
    SessionHealth {
        session_id: check.session_id,
        status: check.status,
        last_check,
        response_time_ms: check.response_time_ms,
        error_count: if check.failed { bumped(errors) } else { errors },
        consecutive_failures: if check.failed { bumped(run) } else { 0 },
    }
}

/// The health table after recording `check`.
pub open spec fn recorded(s: Seq<SessionHealth>, check: HealthCheck, last_check: String) -> Seq<SessionHealth> {
    upsert_health(s, next_health(health_of(s, check.session_id@), check, last_check))
}

/// The health table after recording each of `checks` in turn.
pub open spec fn recorded_all(s: Seq<SessionHealth>, checks: Seq<HealthCheck>, last_check: String) -> Seq<SessionHealth>
    decreases checks.len(),
{
    if checks.len() == 0 {
        s
    } else {
        recorded(recorded_all(s, checks.drop_last(), last_check), checks.last(), last_check)
    }
}

/// The number of healthy entries among `checks`.
pub open spec fn healthy_checks(checks: Seq<HealthCheck>) -> nat
    decreases checks.len(),
{
    if checks.len() == 0 {
        0
    } else {
        healthy_checks(checks.drop_last()) + if checks.last().status@ == "healthy"@ {
            1nat
        } else {
            0nat
        }
    }
}

/// The number of healthy entries in a health table.
pub open spec fn healthy_entries(s: Seq<SessionHealth>) -> nat
    decreases s.len(),
{
    if s.len() == 0 {
        0
    } else {
        healthy_entries(s.drop_last()) + if s.last().status@ == "healthy"@ {
            1nat
        } else {
            0nat
        }
    }
}

proof fn lemma_healthy_entries_bound(s: Seq<SessionHealth>)
    ensures
        healthy_entries(s) <= s.len(),
    decreases s.len(),
{
    if s.len() > 0 {
        lemma_healthy_entries_bound(s.drop_last());
    }
}

proof fn lemma_healthy_checks_bound(s: Seq<HealthCheck>)
    ensures
        healthy_checks(s) <= s.len(),
    decreases s.len(),
{
    if s.len() > 0 {
        lemma_healthy_checks_bound(s.drop_last());
    }
}

/// The shared table of connections and their health.
#[derive(Debug)]
pub struct ConnectionRegistry {
    connections: Vec<BoundaryConnection>,
    health: Vec<SessionHealth>,
    monitoring_enabled: bool,
}

impl ConnectionRegistry {
    /// The connections, in the order they were added.
    pub closed spec fn connections_view(&self) -> Seq<BoundaryConnection> {
        self.connections@
    }

    /// The health entries.
    pub closed spec fn health_view(&self) -> Seq<SessionHealth> {
        self.health@
    }

    /// Whether monitoring runs.
    pub closed spec fn enabled_view(&self) -> bool {
        self.monitoring_enabled
    }

    /// Each session has at most one connection and at most one health entry.
    pub open spec fn well_formed(&self) -> bool {
        unique_connections(self.connections_view()) && unique_health(self.health_view())
    }

    /// An empty table, with monitoring off.
    pub fn new() -> (r: ConnectionRegistry)
        ensures
            r.connections_view().len() == 0,
            r.health_view().len() == 0,
            !r.enabled_view(),
            r.well_formed(),
    {
        ConnectionRegistry { connections: Vec::new(), health: Vec::new(), monitoring_enabled: false }
    }

    /// Adds a connection; one of the same session is superseded by it.
    pub fn add(&mut self, connection: BoundaryConnection)
        ensures
            final(self).connections_view() == upsert_connection(old(self).connections_view(), connection),
            final(self).health_view() == old(self).health_view(),
            final(self).enabled_view() == old(self).enabled_view(),
            old(self).well_formed() ==> final(self).well_formed(),
    {
        proof {
            if old(self).well_formed() {
                lemma_upsert_connection_unique(old(self).connections_view(), connection);
            }
        }
        match find_connection_index(&self.connections, connection.session_id.as_str()) {
            Some(i) => {
                self.connections.set(i, connection);
            },
            None => {
                self.connections.push(connection);
            },
        }
    }

    /// Removes the connection of a session, which the user ended. Its health
    /// entry stays. Not having such a connection is an error.
    pub fn remove(&mut self, session_id: &str) -> (r: Result<BoundaryConnection, BoundaryError>)
        ensures
            match connection_position(old(self).connections_view(), session_id@) {
                Some(i) => r == Ok::<BoundaryConnection, BoundaryError>(old(self).connections_view()[i])
                    && final(self).connections_view() == old(self).connections_view().remove(i),
                None => r == Err::<BoundaryConnection, BoundaryError>(BoundaryError::NotFound)
                    && final(self).connections_view() == old(self).connections_view(),
            },
            final(self).health_view() == old(self).health_view(),
            final(self).enabled_view() == old(self).enabled_view(),
            old(self).well_formed() ==> final(self).well_formed(),
            old(self).well_formed() ==> connection_position(final(self).connections_view(), session_id@).is_none(),
    {
        match find_connection_index(&self.connections, session_id) {
            Some(i) => {
                proof {
                    if old(self).well_formed() {
                        lemma_remove_connection_unique(self.connections@, i as int);
                    }
                }
                Ok(self.connections.remove(i))
            },
            None => Err(BoundaryError::NotFound),
        }
    }

    /// A copy of the connection list, to work on without holding the lock.
    pub fn snapshot(&self) -> (r: Vec<BoundaryConnection>)
        ensures
            r@ == self.connections_view(),
    {
        let mut out: Vec<BoundaryConnection> = Vec::new();
        let mut i: usize = 0;
        while i < self.connections.len()
            invariant
                i <= self.connections@.len(),
                out@ == self.connections@.subrange(0, i as int),
            decreases self.connections@.len() - i,
        {
            out.push(self.connections[i].clone());
            assert(self.connections@.subrange(0, i as int + 1) == self.connections@.subrange(0, i as int).push(self.connections@[i as int]));
            i = i + 1;
        }
        assert(self.connections@.subrange(0, i as int) == self.connections@);
        out
    }

    /// The connection of a session.
    pub fn find_connection(&self, session_id: &str) -> (r: Option<BoundaryConnection>)
        ensures
            r == connection_of(self.connections_view(), session_id@),
    {
        match find_connection_index(&self.connections, session_id) {
            Some(i) => Some(self.connections[i].clone()),
            None => None,
        }
    }

    /// The number of connections.
    pub fn connection_count(&self) -> (r: usize)
        ensures
            r == self.connections_view().len(),
    {
        self.connections.len()
    }

    /// Records a health entry, in place of the session's earlier one.
    pub fn update_health(&mut self, health: SessionHealth)
        ensures
            final(self).health_view() == upsert_health(old(self).health_view(), health),
            final(self).connections_view() == old(self).connections_view(),
            final(self).enabled_view() == old(self).enabled_view(),
            old(self).well_formed() ==> final(self).well_formed(),
    {
        proof {
            if old(self).well_formed() {
                lemma_upsert_health_unique(old(self).health_view(), health);
            }
        }
        match find_health_index(&self.health, health.session_id.as_str()) {
            Some(i) => {
                self.health.set(i, health);
            },
            None => {
                self.health.push(health);
            },
        }
    }

    /// The last health entry of a session; having none is an error.
    pub fn get_session_health(&self, session_id: &str) -> (r: Result<SessionHealth, BoundaryError>)
        ensures
            match health_of(self.health_view(), session_id@) {
                Some(h) => r == Ok::<SessionHealth, BoundaryError>(h),
                None => r == Err::<SessionHealth, BoundaryError>(BoundaryError::NotFound),
            },
    {
        match find_health_index(&self.health, session_id) {
            Some(i) => Ok(self.health[i].clone()),
            None => Err(BoundaryError::NotFound),
        }
    }

    /// Whether monitoring runs.
    pub fn is_monitoring_enabled(&self) -> (r: bool)
        ensures
            r == self.enabled_view(),
    {
        self.monitoring_enabled
    }

    /// Starts or stops monitoring; a running loop sees the change at its next
    /// tick.
    pub fn set_monitoring_enabled(&mut self, enabled: bool)
        ensures
            final(self).enabled_view() == enabled,
            final(self).connections_view() == old(self).connections_view(),
            final(self).health_view() == old(self).health_view(),
    {
        self.monitoring_enabled = enabled;
    }

    /// Records the result of one check in the health table.
    pub fn record_check(&mut self, check: HealthCheck, last_check: String)
        ensures
            final(self).connections_view() == old(self).connections_view(),
            final(self).enabled_view() == old(self).enabled_view(),
            final(self).health_view() == recorded(old(self).health_view(), check, last_check),
            old(self).well_formed() ==> final(self).well_formed(),
    {
        let (errors, run) = match find_health_index(&self.health, check.session_id.as_str()) {
            Some(i) => (self.health[i].error_count, self.health[i].consecutive_failures),
            None => (0u32, 0u32),
        };
        let error_count = if check.failed {
            if errors < u32::MAX {
                errors + 1
            } else {
                errors
            }
        } else {
            errors
        };
        let consecutive_failures = if check.failed {
            if run < u32::MAX {
                run + 1
            } else {
                run
            }
        } else {
            0
        };
        let h = SessionHealth {
            session_id: check.session_id,
            status: check.status,
            last_check,
            response_time_ms: check.response_time_ms,
            error_count,
            consecutive_failures,
        };
        self.update_health(h);
    }

    /// What a monitoring tick is to check: nothing when monitoring is off (the
    /// loop then ends), else every connection, copied so that the checks run
    /// without the lock.
    pub fn tick_plan(&self) -> (r: Option<Vec<BoundaryConnection>>)
        ensures
            !self.enabled_view() ==> r.is_none(),
            self.enabled_view() ==> r.is_some() && r.unwrap()@ == self.connections_view(),
    {
        if !self.monitoring_enabled {
            None
        } else {
            Some(self.snapshot())
        }
    }

    /// Writes a tick's checks back and counts them. When monitoring is off
    /// (turned off meanwhile, too), the results are dropped, nothing is
    /// written, and the counts are those of a tick that checked nothing.
    pub fn finish_tick(&mut self, checks: Vec<HealthCheck>, last_check: String) -> (r: SessionMonitoringStats)
        ensures
            final(self).connections_view() == old(self).connections_view(),
            final(self).enabled_view() == old(self).enabled_view(),
            old(self).well_formed() ==> final(self).well_formed(),
            !old(self).enabled_view() ==> idle_stats_of(r, last_check) && final(self).health_view() == old(self).health_view(),
            old(self).enabled_view() ==> {
                let st = r;
                &&& st.total_sessions == old(self).connections_view().len()
                &&& st.active_sessions == healthy_checks(checks@)
                &&& st.failed_sessions == checks@.len() - healthy_checks(checks@)
                &&& st.monitoring_enabled
                &&& st.last_check@ == last_check@
                &&& final(self).health_view() == recorded_all(old(self).health_view(), checks@, last_check)
            },
    {
        if !self.monitoring_enabled {
            return idle_stats(last_check);
        }
        let n = checks.len();
        let ghost all = checks@;
        let ghost start = self.health@;
        let mut rest = checks;
        let mut active: usize = 0;
        let mut k: usize = 0;
        while k < n
            invariant
                self.connections_view() == old(self).connections_view(),
                self.enabled_view() == old(self).enabled_view(),
                n == all.len(),
                k <= n,
                rest@ == all.subrange(k as int, n as int),
                self.health@ == recorded_all(start, all.subrange(0, k as int), last_check),
                old(self).well_formed() ==> self.well_formed(),
                active == healthy_checks(all.subrange(0, k as int)),
            decreases n - k,
        {
            proof {
                assert(all.subrange(0, k as int + 1).drop_last() == all.subrange(0, k as int));
                lemma_healthy_checks_bound(all.subrange(0, k as int));
            }
            let c = rest.remove(0);
            assert(c == all[k as int]);
            assert(rest@ == all.subrange(k as int + 1, n as int));
            if str_eq(c.status.as_str(), "healthy") {
                active = active + 1;
            }
            self.record_check(c, last_check.clone());
            k = k + 1;
        }
        assert(all.subrange(0, n as int) == all);
        proof {
            lemma_healthy_checks_bound(all);
        }
        SessionMonitoringStats {
            total_sessions: self.connections.len(),
            active_sessions: active,
            failed_sessions: n - active,
            monitoring_enabled: true,
            last_check,
        }
    }

    /// Counts over the connection table and the health table, as of
    /// `last_check`.
    pub fn monitoring_stats(&self, last_check: String) -> (r: SessionMonitoringStats)
        ensures
            r.total_sessions == self.connections_view().len(),
            r.active_sessions == healthy_entries(self.health_view()),
            r.failed_sessions == self.health_view().len() - healthy_entries(self.health_view()),
            r.monitoring_enabled == self.enabled_view(),
            r.last_check == last_check,
    {
        let mut active: usize = 0;
        let mut i: usize = 0;
        while i < self.health.len()
            invariant
                i <= self.health@.len(),
                active == healthy_entries(self.health@.subrange(0, i as int)),
            decreases self.health@.len() - i,
        {
            proof {
                assert(self.health@.subrange(0, i as int + 1).drop_last() == self.health@.subrange(0, i as int));
                lemma_healthy_entries_bound(self.health@.subrange(0, i as int));
            }
            if str_eq(self.health[i].status.as_str(), "healthy") {
                active = active + 1;
            }
            i = i + 1;
        }
        assert(self.health@.subrange(0, i as int) == self.health@);
        proof {
            lemma_healthy_entries_bound(self.health@);
        }
        SessionMonitoringStats {
            total_sessions: self.connections.len(),
            active_sessions: active,
            failed_sessions: self.health.len() - active,
            monitoring_enabled: self.monitoring_enabled,
            last_check,
        }
    }
}

} // verus!

verus! {

/// The application's state: its settings and the shared connection table.
#[derive(Debug)]
pub struct AppState {
    pub config: crate::settings::Config,
    pub registry: ConnectionRegistry,
}

} // verus!
