//! Pre-flight checks for HA operations: node health, roles, replication lag.

use vstd::prelude::*;
use crate::cluster::{Node, NodeRole};
use crate::ha::types::HaError;
use crate::text::{
    all_digits, chars_of, decimal, decimal_u64, digits_value, index_of_char, is_digit,
    lemma_index_of_char, owned, push_str, str_eq, string_of, trim_chars, trim_seq, decimal_i64,
    signed_decimal,
};

verus! {

/// Health status of a PostgreSQL node.
#[derive(Debug, Clone, Copy, PartialEq, Eq, Structural)]
pub enum NodeHealthStatus {
    /// Node is healthy and accepting connections.
    Healthy,
    /// Node is reachable but not accepting connections.
    Degraded,
    /// Node is not reachable.
    Unreachable,
    /// Health status is unknown.
    Unknown,
}

impl NodeHealthStatus {
    /// The lower-case name of the status.
    pub open spec fn spec_name(self) -> Seq<char> {
        match self {
            NodeHealthStatus::Healthy => "healthy"@,
            NodeHealthStatus::Degraded => "degraded"@,
            NodeHealthStatus::Unreachable => "unreachable"@,
            NodeHealthStatus::Unknown => "unknown"@,
        }
    }

    /// The lower-case name of the status, as the tool prints it.
    pub fn name(self) -> (r: String)
        ensures
            r@ == self.spec_name(),
    {
        match self {
            NodeHealthStatus::Healthy => owned("healthy"),
            NodeHealthStatus::Degraded => owned("degraded"),
            NodeHealthStatus::Unreachable => owned("unreachable"),
            NodeHealthStatus::Unknown => owned("unknown"),
        }
    }
}

/// Result of a node health check.
#[derive(Debug)]
pub struct NodeHealthCheck {
    /// Node ID.
    pub node_id: String,
    /// Node host.
    pub host: String,
    /// Node port.
    pub port: u16,
    /// Health status.
    pub status: NodeHealthStatus,
    /// Actual role detected (if reachable).
    pub detected_role: Option<NodeRole>,
    /// Error message if check failed.
    pub error: Option<String>,
    /// Response time in milliseconds.
    pub response_time_ms: Option<u64>,
}

impl NodeHealthCheck {
    /// Create a new health check result, of unknown status.
    pub fn new(node_id: &str, host: &str, port: u16) -> (r: Self)
        ensures
            r.node_id@ == node_id@,
            r.host@ == host@,
            r.port == port,
            r.status == NodeHealthStatus::Unknown,
            r.detected_role is None,
            r.error is None,
            r.response_time_ms is None,
    {
        NodeHealthCheck {
            node_id: owned(node_id),
            host: owned(host),
            port,
            status: NodeHealthStatus::Unknown,
            detected_role: None,
            error: None,
            response_time_ms: None,
        }
    }

    /// Mark as healthy.
    pub fn healthy(self, response_time_ms: u64) -> (r: Self)
        ensures
            r == (NodeHealthCheck {
                status: NodeHealthStatus::Healthy,
                response_time_ms: Some(response_time_ms),
                ..self
            }),
    {
        NodeHealthCheck {
            status: NodeHealthStatus::Healthy,
            response_time_ms: Some(response_time_ms),
            ..self
        }
    }

    /// Mark as unreachable.
    pub fn unreachable(self, error: &str) -> (r: Self)
        ensures
            r.status == NodeHealthStatus::Unreachable,
            r.error matches Some(e) && e@ == error@,
            r.node_id == self.node_id,
            r.host == self.host,
            r.port == self.port,
            r.detected_role == self.detected_role,
            r.response_time_ms == self.response_time_ms,
    {
        NodeHealthCheck { status: NodeHealthStatus::Unreachable, error: Some(owned(error)), ..self }
    }

    /// Set detected role.
    pub fn with_role(self, role: NodeRole) -> (r: Self)
        ensures
            r == (NodeHealthCheck { detected_role: Some(role), ..self }),
    {
        NodeHealthCheck { detected_role: Some(role), ..self }
    }
}

/// What running `pg_isready` against a node gave.
pub enum ProbeOutcome {
    /// The probe ran and exited successfully.
    Succeeded,
    /// The probe ran and reported failure, with its output and exit code.
    Failed { stderr: String, stdout: String, exit_code: Option<i32> },
    /// The probe could not be run; the text says why.
    NotRun(String),
}

/// The text of `{:?}` for an optional exit code.
pub open spec fn debug_exit_code(code: Option<i32>) -> Seq<char> {
    match code {
        Some(c) => "Some("@ + signed_decimal(c as int) + ")"@,
        None => "None"@,
    }
}

/// The error text recorded for an unreachable node, given the probe outcome.
pub open spec fn probe_error_text(outcome: ProbeOutcome) -> Seq<char> {
    match outcome {
        ProbeOutcome::Succeeded => Seq::empty(),
        ProbeOutcome::Failed { stderr, stdout, exit_code } => if stderr@.len() > 0 {
            stderr@
        } else if stdout@.len() > 0 {
            stdout@
        } else {
            "pg_isready exited with code "@ + debug_exit_code(exit_code)
        },
        ProbeOutcome::NotRun(e) => "Failed to run pg_isready: "@ + e@,
    }
}

/// The health check recorded for `node` after a probe that took
/// `elapsed_ms` milliseconds: healthy with that response time when the probe
/// succeeded, unreachable with the probe's error text otherwise.
pub fn health_from_probe(node: &Node, elapsed_ms: u64, outcome: ProbeOutcome) -> (r:
    NodeHealthCheck)
    ensures
        r.node_id@ == node.id@,
        r.host@ == node.host@,
        r.port == node.port,
        r.detected_role is None,
        outcome is Succeeded ==> r.status == NodeHealthStatus::Healthy && r.response_time_ms
            == Some(elapsed_ms) && r.error is None,
        !(outcome is Succeeded) ==> r.status == NodeHealthStatus::Unreachable
            && r.response_time_ms is None && (r.error matches Some(e) && e@ == probe_error_text(
            outcome,
        )),
{
    let check = NodeHealthCheck::new(node.id.as_str(), node.host.as_str(), node.port);
    match outcome {
        ProbeOutcome::Succeeded => check.healthy(elapsed_ms),
        ProbeOutcome::Failed { stderr, stdout, exit_code } => {
            let msg = if !stderr.as_str().is_empty() {
                owned(stderr.as_str())
            } else if !stdout.as_str().is_empty() {
                owned(stdout.as_str())
            } else {
                let mut m = owned("pg_isready exited with code ");
                match exit_code {
                    Some(c) => {
                        push_str(&mut m, "Some(");
                        let d = decimal_i64(c as i64);
                        push_str(&mut m, d.as_str());
                        push_str(&mut m, ")");
                    },
                    None => {
                        push_str(&mut m, "None");
                    },
                }
                m
            };
            check.unreachable(msg.as_str())
        },
        ProbeOutcome::NotRun(e) => {
            let mut m = owned("Failed to run pg_isready: ");
            push_str(&mut m, e.as_str());
            check.unreachable(m.as_str())
        },
    }
}

/// Verify that a node matches the expected role.
pub fn verify_node_role(node: &Node, expected_role: NodeRole) -> (r: Result<(), HaError>)
    ensures
        node.role == expected_role <==> r is Ok,
        r matches Err(HaError::InvalidNodeRole { node_id, actual_role, expected_role: e }) ==> node_id@
            == node.id@ && actual_role@ == node.role.spec_name() && e@ == expected_role.spec_name(),
        r is Err ==> r matches Err(HaError::InvalidNodeRole { .. }),
{
    if node.role != expected_role {
        return Err(
            HaError::InvalidNodeRole {
                node_id: owned(node.id.as_str()),
                actual_role: node.role.name(),
                expected_role: expected_role.name(),
            },
        );
    }
    Ok(())
}

/// Replication lag is acceptable when it is unknown or at most `max_lag_bytes`.
pub open spec fn spec_lag_acceptable(lag_bytes: Option<u64>, max_lag_bytes: u64) -> bool {
    match lag_bytes {
        Some(lag) => lag <= max_lag_bytes,
        None => true,
    }
}

/// Check if replication lag is acceptable; an unmeasured lag counts as acceptable.
pub fn lag_is_acceptable(lag_bytes: Option<u64>, max_lag_bytes: u64) -> (r: bool)
    ensures
        r == spec_lag_acceptable(lag_bytes, max_lag_bytes),
{
    match lag_bytes {
        Some(lag) => lag <= max_lag_bytes,
        None => true,
    }
}

/// `psql -t -A` printed a true boolean: the trimmed output is `t` or `true`.
pub open spec fn spec_is_true_flag(output: Seq<char>) -> bool {
    trim_seq(output) == "t"@ || trim_seq(output) == "true"@
}

/// Does the output of a boolean `psql -t -A` query say true?
pub fn is_true_flag(output: &str) -> (r: bool)
    ensures
        r == spec_is_true_flag(output@),
{
    let v = chars_of(output);
    let t = trim_chars(&v);
    let s = crate::text::string_of(&t);
    str_eq(s.as_str(), "t") || str_eq(s.as_str(), "true")
}

/// The libpq connection string that the checks hand to `psql`.
pub open spec fn spec_psql_conninfo(
    host: Seq<char>,
    port: u16,
    user: Seq<char>,
    password: Option<Seq<char>>,
    database: Seq<char>,
) -> Seq<char> {
    "host="@ + host + " port="@ + decimal(port as nat) + " user="@ + user + match password {
        Some(p) => ":"@ + p,
        None => Seq::empty(),
    } + " dbname="@ + database
}

/// Build the libpq connection string that the checks hand to `psql`.
pub fn psql_conninfo(host: &str, port: u16, user: &str, password: Option<&str>, database: &str) -> (r:
    String)
    ensures
        r@ == spec_psql_conninfo(
            host@,
            port,
            user@,
            match password {
                Some(p) => Some(p@),
                None => None,
            },
            database@,
        ),
{
    let mut out = owned("host=");
    push_str(&mut out, host);
    push_str(&mut out, " port=");
    let p = decimal_u64(port as u64);
    push_str(&mut out, p.as_str());
    push_str(&mut out, " user=");
    push_str(&mut out, user);
    match password {
        Some(pw) => {
            push_str(&mut out, ":");
            push_str(&mut out, pw);
        },
        None => {},
    }
    push_str(&mut out, " dbname=");
    push_str(&mut out, database);
    out
}

/// A health-check step passes only when the node is healthy; otherwise the
/// node is reported unreachable.
pub fn require_healthy(node: &Node, status: NodeHealthStatus) -> (r: Result<(), HaError>)
    ensures
        status == NodeHealthStatus::Healthy <==> r is Ok,
        r is Err ==> (r matches Err(HaError::NodeUnreachable { node_id, host, port }) && node_id@
            == node.id@ && host@ == node.host@ && port == node.port),
{
    if status != NodeHealthStatus::Healthy {
        return Err(
            HaError::NodeUnreachable {
                node_id: owned(node.id.as_str()),
                host: owned(node.host.as_str()),
                port: node.port,
            },
        );
    }
    Ok(())
}

/// A primary-down check passes only when the old primary is not healthy.
pub fn require_unreachable(status: NodeHealthStatus) -> (r: Result<(), HaError>)
    ensures
        status != NodeHealthStatus::Healthy <==> r is Ok,
        r is Err ==> r matches Err(HaError::PrimaryStillReachable),
{
    if status == NodeHealthStatus::Healthy {
        return Err(HaError::PrimaryStillReachable);
    }
    Ok(())
}

/// A replication check passes only when the node is in recovery; a node out
/// of recovery is reported as a primary where a replica was expected.
pub fn require_in_recovery(node: &Node, is_in_recovery: bool) -> (r: Result<(), HaError>)
    ensures
        is_in_recovery <==> r is Ok,
        r is Err ==> (r matches Err(HaError::InvalidNodeRole { node_id, actual_role, expected_role })
            && node_id@ == node.id@ && actual_role@ == "primary"@ && expected_role@
            == "replica"@),
{
    if !is_in_recovery {
        return Err(
            HaError::InvalidNodeRole {
                node_id: owned(node.id.as_str()),
                actual_role: owned("primary"),
                expected_role: owned("replica"),
            },
        );
    }
    Ok(())
}

/// After promotion the node must have left recovery.
pub fn require_promoted(is_in_recovery: bool) -> (r: Result<(), HaError>)
    ensures
        !is_in_recovery <==> r is Ok,
        r is Err ==> (r matches Err(HaError::StepFailed { step, reason }) && step@
            == "verify_new_primary"@ && reason@
            == "Node is still in recovery mode after promotion"@),
{
    if is_in_recovery {
        return Err(
            HaError::StepFailed {
                step: owned("verify_new_primary"),
                reason: owned("Node is still in recovery mode after promotion"),
            },
        );
    }
    Ok(())
}

/// The data directory to promote: the configured one when there is one,
/// otherwise the trimmed answer of `SHOW data_directory`; an error when
/// neither is available.
pub fn promotion_data_dir(configured: Option<&str>, queried: Option<&str>) -> (r: Result<
    String,
    HaError,
>)
    ensures
        configured matches Some(c) ==> (r matches Ok(d) && d@ == c@),
        configured is None && queried is Some ==> (r matches Ok(d) && d@ == trim_seq(
            queried->0@,
        )),
        configured is None && queried is None ==> (r matches Err(
            HaError::StepFailed { step, reason },
        ) && step@ == "promote_replica"@ && reason@
            == "Could not determine data directory. Please specify --target-data-dir"@),
{
    match configured {
        Some(c) => Ok(owned(c)),
        None => match queried {
            Some(q) => {
                let v = chars_of(q);
                let t = trim_chars(&v);
                Ok(crate::text::string_of(&t))
            },
            None => Err(
                HaError::StepFailed {
                    step: owned("promote_replica"),
                    reason: owned(
                        "Could not determine data directory. Please specify --target-data-dir",
                    ),
                },
            ),
        },
    }
}

/// What to do next while waiting for replication to catch up.
pub enum CatchupDecision {
    /// The lag is acceptable: stop waiting.
    CaughtUp,
    /// The timeout has passed with the lag still too high.
    GiveUp(HaError),
    /// Check again after the polling interval.
    KeepWaiting,
}

/// One round of waiting for replication catch-up on `node_id`: given the
/// lag just measured and whether the timeout has passed, decide whether to
/// stop, fail or keep waiting.
pub fn catchup_decision(node_id: &str, lag_bytes: Option<u64>, max_lag_bytes: u64, timed_out: bool) -> (r:
    CatchupDecision)
    ensures
        spec_lag_acceptable(lag_bytes, max_lag_bytes) ==> r is CaughtUp,
        !spec_lag_acceptable(lag_bytes, max_lag_bytes) && !timed_out ==> r is KeepWaiting,
        !spec_lag_acceptable(lag_bytes, max_lag_bytes) && timed_out ==> (r matches
            CatchupDecision::GiveUp(HaError::ReplicationLagTooHigh { node_id: n, lag_bytes: l })
            && n@ == node_id@ && l == lag_bytes.unwrap()),
{
    if lag_is_acceptable(lag_bytes, max_lag_bytes) {
        return CatchupDecision::CaughtUp;
    }
    if timed_out {
        let lag = match lag_bytes {
            Some(l) => l,
            None => 0,
        };
        return CatchupDecision::GiveUp(
            HaError::ReplicationLagTooHigh { node_id: owned(node_id), lag_bytes: lag },
        );
    }
    CatchupDecision::KeepWaiting
}

/// The lines appended to `postgresql.auto.conf` to make a node a replica.
pub open spec fn spec_replica_conf_lines(
    primary_host: Seq<char>,
    primary_port: u16,
    replication_user: Seq<char>,
) -> Seq<char> {
    "\n# Added by Warden HA orchestration\nprimary_conninfo = 'host="@ + primary_host + " port="@
        + decimal(primary_port as nat) + " user="@ + replication_user + "'\n"@
}

/// The lines appended to `postgresql.auto.conf` to make a node a replica.
pub fn replica_conf_lines(primary_host: &str, primary_port: u16, replication_user: &str) -> (r:
    String)
    ensures
        r@ == spec_replica_conf_lines(primary_host@, primary_port, replication_user@),
{
    let mut out = owned("\n# Added by Warden HA orchestration\nprimary_conninfo = 'host=");
    push_str(&mut out, primary_host);
    push_str(&mut out, " port=");
    let p = decimal_u64(primary_port as u64);
    push_str(&mut out, p.as_str());
    push_str(&mut out, " user=");
    push_str(&mut out, replication_user);
    push_str(&mut out, "'\n");
    out
}


// ---------------------------------------------------------------------------
// Reading the replication lag
// ---------------------------------------------------------------------------

/// The pieces of `s` between the occurrences of `c` (`str::split`).
pub open spec fn split_on(s: Seq<char>, c: char) -> Seq<Seq<char>>
    decreases s.len(),
{
    let k = index_of_char(s, c);
    if k >= s.len() {
        seq![s]
    } else {
        seq![s.take(k as int)] + split_on(s.skip(k as int + 1), c)
    }
}

/// Splitting a text that starts with a piece holding no `c`, followed by
/// `c`.
proof fn lemma_split_at_separator(cur: Seq<char>, rest: Seq<char>, c: char)
    requires
        forall|j: int| 0 <= j < cur.len() ==> cur[j] != c,
        rest.len() > 0,
        rest[0] == c,
    ensures
        split_on(cur + rest, c) == seq![cur] + split_on(rest.drop_first(), c),
{
    let s = cur + rest;
    assert forall|j: int| 0 <= j < cur.len() implies s[j] != c by {
        assert(s[j] == cur[j]);
    }
    assert(s[cur.len() as int] == c);
    lemma_index_of_char(s, c, cur.len() as int);
    assert(s.take(cur.len() as int) =~= cur);
    assert(s.skip(cur.len() as int + 1) =~= rest.drop_first());
}

/// A text holding no `c` is one piece.
proof fn lemma_split_without_separator(s: Seq<char>, c: char)
    requires
        forall|j: int| 0 <= j < s.len() ==> s[j] != c,
    ensures
        split_on(s, c) == seq![s],
{
    lemma_index_of_char(s, c, s.len() as int);
}

/// Splits `s` at each `c`.
pub fn split_text(s: &str, c: char) -> (r: Vec<String>)
    ensures
        texts_of(r@) == split_on(s@, c),
{
    let v = chars_of(s);
    let mut out: Vec<String> = Vec::new();
    let mut cur: Vec<char> = Vec::new();
    let mut i: usize = 0;
    proof {
        assert(cur@ + v@.skip(0) =~= v@);
        assert(texts_of(out@) =~= Seq::<Seq<char>>::empty());
    }
    while i < v.len()
        invariant
            i <= v@.len(),
            v@ == s@,
            forall|j: int| 0 <= j < cur@.len() ==> cur@[j] != c,
            texts_of(out@) + split_on(cur@ + v@.skip(i as int), c) == split_on(s@, c),
        decreases v@.len() - i,
    {
        let ghost rest = v@.skip(i as int);
        if v[i] == c {
            proof {
                lemma_split_at_separator(cur@, rest, c);
                assert(rest.drop_first() =~= v@.skip(i + 1));
                assert(Seq::<char>::empty() + v@.skip(i + 1) =~= v@.skip(i + 1));
            }
            let piece = string_of(&cur);
            let ghost before = texts_of(out@);
            out.push(piece);
            cur = Vec::new();
            proof {
                assert(texts_of(out@) =~= before.push(piece@));
                assert(before + (seq![piece@] + split_on(v@.skip(i + 1), c)) =~= texts_of(out@) + split_on(
                    v@.skip(i + 1),
                    c,
                ));
            }
        } else {
            let ghost old_cur = cur@;
            cur.push(v[i]);
            proof {
                assert(cur@ + v@.skip(i + 1) =~= old_cur + rest);
            }
        }
        i = i + 1;
    }
    proof {
        assert(cur@ + v@.skip(i as int) =~= cur@);
        lemma_split_without_separator(cur@, c);
    }
    let piece = string_of(&cur);
    let ghost before = texts_of(out@);
    out.push(piece);
    proof {
        assert(texts_of(out@) =~= before.push(piece@));
    }
    out
}

/// The texts of a list of strings.
pub open spec fn texts_of(v: Seq<String>) -> Seq<Seq<char>> {
    v.map_values(|s: String| s@)
}

/// A `u64` as `str::parse` reads it: an optional `+`, then one or more
/// ASCII digits and nothing else, of a value that fits.
pub open spec fn parse_u64(s: Seq<char>) -> Option<u64> {
    let d = if s.len() > 0 && s[0] == '+' {
        s.drop_first()
    } else {
        s
    };
    if d.len() > 0 && all_digits(d) && digits_value(d) <= u64::MAX {
        Some(digits_value(d) as u64)
    } else {
        None
    }
}

/// Reads a `u64` as `str::parse::<u64>` does.
pub fn parse_u64_text(s: &str) -> (r: Option<u64>)
    ensures
        r == parse_u64(s@),
{
    let v = chars_of(s);
    let start: usize = if v.len() > 0 && v[0] == '+' {
        1
    } else {
        0
    };
    let ghost d = if s@.len() > 0 && s@[0] == '+' {
        s@.drop_first()
    } else {
        s@
    };
    proof {
        assert(d =~= v@.skip(start as int));
    }
    if start >= v.len() {
        return None;
    }
    let mut value: u64 = 0;
    let mut i: usize = start;
    proof {
        assert(d.take(0) =~= Seq::<char>::empty());
    }
    while i < v.len()
        invariant
            start <= i <= v@.len(),
            start < v@.len(),
            v@ == s@,
            d == (if s@.len() > 0 && s@[0] == '+' {
                s@.drop_first()
            } else {
                s@
            }),
            d == v@.skip(start as int),
            all_digits(d.take(i - start)),
            value == digits_value(d.take(i - start)),
        decreases v@.len() - i,
    {
        let ch = v[i];
        proof {
            assert(d.take(i - start + 1).drop_last() =~= d.take(i - start));
            assert(d.take(i - start + 1).last() == ch);
        }
        if !('0' <= ch && ch <= '9') {
            proof {
                assert(d[i - start] == ch);
                assert(!is_digit(d[i - start]));
                assert(!all_digits(d));
            }
            return None;
        }
        let digit: u64 = (ch as u32 - 48) as u64;
        if value > (u64::MAX - digit) / 10 {
            proof {
                assert(digits_value(d.take(i - start + 1)) == value * 10 + digit);
                assert(value * 10 + digit > u64::MAX) by (nonlinear_arith)
                    requires
                        value > (u64::MAX - digit) / 10,
                        digit <= 9,
                ;
                lemma_digits_value_grows(d, i - start + 1);
                assert(all_digits(d) ==> digits_value(d) > u64::MAX);
            }
            return None;
        }
        value = value * 10 + digit;
        proof {
            assert forall|j: int| 0 <= j < d.take(i - start + 1).len() implies is_digit(
                #[trigger] d.take(i - start + 1)[j],
            ) by {
                if j < i - start {
                    assert(d.take(i - start + 1)[j] == d.take(i - start)[j]);
                }
            }
        }
        i = i + 1;
    }
    proof {
        assert(d.take(v@.len() - start) =~= d);
    }
    Some(value)
}

/// The value of a digit string is at least that of any of its prefixes.
proof fn lemma_digits_value_grows(s: Seq<char>, k: int)
    requires
        0 <= k <= s.len(),
    ensures
        all_digits(s) ==> digits_value(s.take(k)) <= digits_value(s),
    decreases s.len(),
{
    if k < s.len() {
        let t = s.drop_last();
        assert(s.take(k) =~= t.take(k));
        lemma_digits_value_grows(t, k);
        if all_digits(s) {
            assert(all_digits(t)) by {
                assert forall|i: int| 0 <= i < t.len() implies is_digit(#[trigger] t[i]) by {
                    assert(t[i] == s[i]);
                }
            }
        }
    } else {
        assert(s.take(k) =~= s);
    }
}

/// What the lag query of a replica printed: the lag in bytes (when it
/// reads as a number), and the received and replayed WAL positions.
#[derive(Debug, Clone)]
pub struct LagReading {
    pub lag_bytes: Option<u64>,
    pub received_lsn: String,
    pub replayed_lsn: String,
}

/// Reads the `|`-separated output of the lag query (`psql -t -A`): with at
/// least four fields, the first is the lag in bytes and the third and
/// fourth the received and replayed positions, each trimmed; the second,
/// the lag in seconds, is left to the caller.
pub open spec fn lag_reading(output: Seq<char>) -> Option<(Option<u64>, Seq<char>, Seq<char>)> {
    let parts = split_on(trim_seq(output), '|');
    if parts.len() >= 4 {
        Some((parse_u64(trim_seq(parts[0])), trim_seq(parts[2]), trim_seq(parts[3])))
    } else {
        None
    }
}

/// The text trimmed of whitespace.
fn trimmed(s: &str) -> (r: String)
    ensures
        r@ == trim_seq(s@),
{
    let v = chars_of(s);
    let t = trim_chars(&v);
    string_of(&t)
}

/// Reads the output of the lag query.
pub fn parse_lag_output(output: &str) -> (r: Option<LagReading>)
    ensures
        match lag_reading(output@) {
            Some((lag, received, replayed)) => r matches Some(x) && x.lag_bytes == lag && x.received_lsn@
                == received && x.replayed_lsn@ == replayed,
            None => r is None,
        },
{
    let t = trimmed(output);
    let parts = split_text(t.as_str(), '|');
    if parts.len() < 4 {
        return None;
    }
    proof {
        assert(texts_of(parts@)[0] == parts@[0]@);
        assert(texts_of(parts@)[2] == parts@[2]@);
        assert(texts_of(parts@)[3] == parts@[3]@);
    }
    let lag_text = trimmed(parts[0].as_str());
    let lag = parse_u64_text(lag_text.as_str());
    let received = trimmed(parts[2].as_str());
    let replayed = trimmed(parts[3].as_str());
    Some(LagReading { lag_bytes: lag, received_lsn: received, replayed_lsn: replayed })
}

/// The replica is streaming: the trimmed output of the WAL receiver's
/// status is `streaming`.
pub fn is_streaming_output(output: &str) -> (r: bool)
    ensures
        r == (trim_seq(output@) == "streaming"@),
{
    let t = trimmed(output);
    str_eq(t.as_str(), "streaming")
}

} // verus!
