//! Common types for HA orchestration: errors, plan steps, plans and results.

use vstd::prelude::*;
use crate::sys::io_error_text;
use crate::text::{decimal, decimal_u64, owned, push_str, texts};
use crate::timestamps::now_millis;

verus! {

/// Error type for HA operations.
#[derive(Debug)]
pub enum HaError {
    ClusterNotFound(String),
    NodeNotFound(String),
    InvalidNodeRole { node_id: String, actual_role: String, expected_role: String },
    NodeUnreachable { node_id: String, host: String, port: u16 },
    ReplicationLagTooHigh { node_id: String, lag_bytes: u64 },
    PrimaryStillReachable,
    BackupNotFound(String),
    PitrNotFeasible(String),
    TargetDirNotEmpty(String),
    Cancelled,
    StepFailed { step: String, reason: String },
    AlreadyCompleted(String),
    ConfigError(String),
    Io(std::io::Error),
    Postgres(String),
    Internal(String),
}

impl HaError {
    /// The message of every error but `Io`, whose text comes from the
    /// operating system.
    pub open spec fn spec_message(&self) -> Seq<char> {
        match self {
            HaError::ClusterNotFound(s) => "Cluster not found: "@ + s@,
            HaError::NodeNotFound(s) => "Node not found: "@ + s@,
            HaError::InvalidNodeRole { node_id, actual_role, expected_role } => "Invalid node role: "@
                + node_id@ + " is "@ + actual_role@ + ", expected "@ + expected_role@,
            HaError::NodeUnreachable { node_id, host, port } => "Node unreachable: "@ + node_id@
                + " at "@ + host@ + ":"@ + decimal(*port as nat),
            HaError::ReplicationLagTooHigh { node_id, lag_bytes } => "Replication lag too high: "@
                + decimal(*lag_bytes as nat) + " bytes on node "@ + node_id@,
            HaError::PrimaryStillReachable => "Primary still reachable (use --force to override)"@,
            HaError::BackupNotFound(s) => "Backup not found: "@ + s@,
            HaError::PitrNotFeasible(s) => "PITR not feasible: "@ + s@,
            HaError::TargetDirNotEmpty(s) => "Target directory not empty: "@ + s@,
            HaError::Cancelled => "Operation cancelled by user"@,
            HaError::StepFailed { step, reason } => "Step failed: "@ + step@ + " - "@ + reason@,
            HaError::AlreadyCompleted(s) => "Already completed: "@ + s@,
            HaError::ConfigError(s) => "Config error: "@ + s@,
            HaError::Io(_) => "IO error: "@,
            HaError::Postgres(s) => "Postgres error: "@ + s@,
            HaError::Internal(s) => "Internal error: "@ + s@,
        }
    }

    /// The message of the error, as the tool prints it. For `Io` the
    /// message is "IO error: " followed by the operating system's text.
    pub fn message(&self) -> (r: String)
        ensures
            !(self is Io) ==> r@ == self.spec_message(),
            self is Io ==> r@.subrange(0, 10) == "IO error: "@,
    {
        let mut out = String::new();
        match self {
            HaError::ClusterNotFound(s) => {
                push_str(&mut out, "Cluster not found: ");
                push_str(&mut out, s.as_str());
            },
            HaError::NodeNotFound(s) => {
                push_str(&mut out, "Node not found: ");
                push_str(&mut out, s.as_str());
            },
            HaError::InvalidNodeRole { node_id, actual_role, expected_role } => {
                push_str(&mut out, "Invalid node role: ");
                push_str(&mut out, node_id.as_str());
                push_str(&mut out, " is ");
                push_str(&mut out, actual_role.as_str());
                push_str(&mut out, ", expected ");
                push_str(&mut out, expected_role.as_str());
            },
            HaError::NodeUnreachable { node_id, host, port } => {
                push_str(&mut out, "Node unreachable: ");
                push_str(&mut out, node_id.as_str());
                push_str(&mut out, " at ");
                push_str(&mut out, host.as_str());
                push_str(&mut out, ":");
                let p = decimal_u64(*port as u64);
                push_str(&mut out, p.as_str());
            },
            HaError::ReplicationLagTooHigh { node_id, lag_bytes } => {
                push_str(&mut out, "Replication lag too high: ");
                let l = decimal_u64(*lag_bytes);
                push_str(&mut out, l.as_str());
                push_str(&mut out, " bytes on node ");
                push_str(&mut out, node_id.as_str());
            },
            HaError::PrimaryStillReachable => {
                push_str(&mut out, "Primary still reachable (use --force to override)");
            },
            HaError::BackupNotFound(s) => {
                push_str(&mut out, "Backup not found: ");
                push_str(&mut out, s.as_str());
            },
            HaError::PitrNotFeasible(s) => {
                push_str(&mut out, "PITR not feasible: ");
                push_str(&mut out, s.as_str());
            },
            HaError::TargetDirNotEmpty(s) => {
                push_str(&mut out, "Target directory not empty: ");
                push_str(&mut out, s.as_str());
            },
            HaError::Cancelled => {
                push_str(&mut out, "Operation cancelled by user");
            },
            HaError::StepFailed { step, reason } => {
                push_str(&mut out, "Step failed: ");
                push_str(&mut out, step.as_str());
                push_str(&mut out, " - ");
                push_str(&mut out, reason.as_str());
            },
            HaError::AlreadyCompleted(s) => {
                push_str(&mut out, "Already completed: ");
                push_str(&mut out, s.as_str());
            },
            HaError::ConfigError(s) => {
                push_str(&mut out, "Config error: ");
                push_str(&mut out, s.as_str());
            },
            HaError::Io(e) => {
                push_str(&mut out, "IO error: ");
                proof {
                    reveal_strlit("IO error: ");
                }
                let ghost head = out@;
                let t = io_error_text(e);
                push_str(&mut out, t.as_str());
                assert(out@.subrange(0, 10) =~= head);
            },
            HaError::Postgres(s) => {
                push_str(&mut out, "Postgres error: ");
                push_str(&mut out, s.as_str());
            },
            HaError::Internal(s) => {
                push_str(&mut out, "Internal error: ");
                push_str(&mut out, s.as_str());
            },
        }
        out
    }
}

/// Status of an HA plan step.
#[derive(Debug, Clone, Copy, PartialEq, Eq, Structural)]
pub enum HaStepStatus {
    /// Step is pending execution.
    Pending,
    /// Step is currently executing.
    InProgress,
    /// Step completed successfully.
    Completed,
    /// Step was skipped (e.g., already done).
    Skipped,
    /// Step failed.
    Failed,
}

impl HaStepStatus {
    /// The snake-case name of the status.
    pub open spec fn spec_name(self) -> Seq<char> {
        match self {
            HaStepStatus::Pending => "pending"@,
            HaStepStatus::InProgress => "in_progress"@,
            HaStepStatus::Completed => "completed"@,
            HaStepStatus::Skipped => "skipped"@,
            HaStepStatus::Failed => "failed"@,
        }
    }

    /// The snake-case name of the status, as the tool prints it.
    pub fn name(self) -> (r: String)
        ensures
            r@ == self.spec_name(),
    {
        match self {
            HaStepStatus::Pending => owned("pending"),
            HaStepStatus::InProgress => owned("in_progress"),
            HaStepStatus::Completed => owned("completed"),
            HaStepStatus::Skipped => owned("skipped"),
            HaStepStatus::Failed => owned("failed"),
        }
    }

    /// The step has finished without failing.
    pub open spec fn is_done(self) -> bool {
        self == HaStepStatus::Completed || self == HaStepStatus::Skipped
    }

    /// The step has not finished yet.
    pub open spec fn is_open(self) -> bool {
        self == HaStepStatus::Pending || self == HaStepStatus::InProgress
    }
}

/// A single step in an HA execution plan.
#[derive(Debug)]
pub struct HaPlanStep {
    /// Step number (1-indexed).
    pub number: usize,
    /// Short name for the step.
    pub name: String,
    /// Human-readable description of what this step does.
    pub description: String,
    /// Current status of the step.
    pub status: HaStepStatus,
    /// Estimated duration in seconds (if known).
    pub estimated_duration_secs: Option<u64>,
    /// Whether this step is destructive/irreversible.
    pub is_destructive: bool,
    /// Error message if step failed.
    pub error: Option<String>,
    /// When the step started (milliseconds since the Unix epoch).
    pub started_at: Option<i64>,
    /// When the step finished (milliseconds since the Unix epoch).
    pub completed_at: Option<i64>,
}

impl HaPlanStep {
    /// `self` and `other` agree on everything that describes the step.
    pub open spec fn same_definition(self, other: HaPlanStep) -> bool {
        &&& self.number == other.number
        &&& self.name == other.name
        &&& self.description == other.description
        &&& self.estimated_duration_secs == other.estimated_duration_secs
        &&& self.is_destructive == other.is_destructive
    }

    /// Create a new pending step.
    pub fn new(number: usize, name: &str, description: &str) -> (r: Self)
        ensures
            r.number == number,
            r.name@ == name@,
            r.description@ == description@,
            r.status == HaStepStatus::Pending,
            r.estimated_duration_secs is None,
            !r.is_destructive,
            r.error is None,
            r.started_at is None,
            r.completed_at is None,
    {
        HaPlanStep {
            number,
            name: owned(name),
            description: owned(description),
            status: HaStepStatus::Pending,
            estimated_duration_secs: None,
            is_destructive: false,
            error: None,
            started_at: None,
            completed_at: None,
        }
    }

    /// Mark step as destructive.
    pub fn destructive(self) -> (r: Self)
        ensures
            r == (HaPlanStep { is_destructive: true, ..self }),
    {
        HaPlanStep { is_destructive: true, ..self }
    }

    /// Set estimated duration.
    pub fn with_duration(self, secs: u64) -> (r: Self)
        ensures
            r == (HaPlanStep { estimated_duration_secs: Some(secs), ..self }),
    {
        HaPlanStep { estimated_duration_secs: Some(secs), ..self }
    }

    /// Mark step as started.
    pub fn start(&mut self)
        ensures
            final(self).same_definition(*old(self)),
            final(self).status == HaStepStatus::InProgress,
            final(self).started_at is Some,
            final(self).error == old(self).error,
            final(self).completed_at == old(self).completed_at,
    {
        self.status = HaStepStatus::InProgress;
        self.started_at = Some(now_millis());
    }

    /// Mark step as completed.
    pub fn complete(&mut self)
        ensures
            final(self).same_definition(*old(self)),
            final(self).status == HaStepStatus::Completed,
            final(self).completed_at is Some,
            final(self).error == old(self).error,
            final(self).started_at == old(self).started_at,
    {
        self.status = HaStepStatus::Completed;
        self.completed_at = Some(now_millis());
    }

    /// Mark step as skipped.
    pub fn skip(&mut self)
        ensures
            final(self).same_definition(*old(self)),
            final(self).status == HaStepStatus::Skipped,
            final(self).completed_at is Some,
            final(self).error == old(self).error,
            final(self).started_at == old(self).started_at,
    {
        self.status = HaStepStatus::Skipped;
        self.completed_at = Some(now_millis());
    }

    /// Mark step as failed.
    pub fn fail(&mut self, error: &str)
        ensures
            final(self).same_definition(*old(self)),
            final(self).status == HaStepStatus::Failed,
            final(self).error matches Some(e) && e@ == error@,
            final(self).completed_at is Some,
            final(self).started_at == old(self).started_at,
    {
        self.status = HaStepStatus::Failed;
        self.error = Some(owned(error));
        self.completed_at = Some(now_millis());
    }
}

impl HaPlanStep {
    /// A copy of the step.
    pub fn duplicate(&self) -> (r: HaPlanStep)
        ensures
            r == *self,
    {
        let error = match &self.error {
            Some(e) => Some(e.clone()),
            None => None,
        };
        HaPlanStep {
            number: self.number,
            name: self.name.clone(),
            description: self.description.clone(),
            status: self.status,
            estimated_duration_secs: self.estimated_duration_secs,
            is_destructive: self.is_destructive,
            error,
            started_at: self.started_at,
            completed_at: self.completed_at,
        }
    }
}

/// A copy of `v`.
pub fn duplicate_strings(v: &Vec<String>) -> (r: Vec<String>)
    ensures
        r@ == v@,
{
    let mut out: Vec<String> = Vec::new();
    let mut i: usize = 0;
    while i < v.len()
        invariant
            i <= v.len(),
            out@ == v@.subrange(0, i as int),
        decreases v.len() - i,
    {
        out.push(v[i].clone());
        proof {
            assert(v@.subrange(0, i + 1) =~= v@.subrange(0, i as int).push(v@[i as int]));
        }
        i = i + 1;
    }
    proof {
        assert(v@.subrange(0, v@.len() as int) =~= v@);
    }
    out
}

/// `s` is a fresh pending step with the given definition.
pub open spec fn is_planned_step(
    s: HaPlanStep,
    number: nat,
    name: Seq<char>,
    description: Seq<char>,
    secs: u64,
    destructive: bool,
) -> bool {
    &&& s.number == number
    &&& s.name@ == name
    &&& s.description@ == description
    &&& s.status == HaStepStatus::Pending
    &&& s.estimated_duration_secs == Some(secs)
    &&& s.is_destructive == destructive
    &&& s.error is None
    &&& s.started_at is None
    &&& s.completed_at is None
}

/// The definition of a planned step: name, description, estimated seconds,
/// destructive or not.
pub type StepDef = (Seq<char>, Seq<char>, u64, bool);

/// `steps` are fresh pending steps numbered from 1 with the definitions `defs`.
pub open spec fn steps_match(steps: Seq<HaPlanStep>, defs: Seq<StepDef>) -> bool {
    &&& steps.len() == defs.len()
    &&& forall|i: int|
        0 <= i < steps.len() ==> is_planned_step(
            #[trigger] steps[i],
            (i + 1) as nat,
            defs[i].0,
            defs[i].1,
            defs[i].2,
            defs[i].3,
        )
}

/// Appending the next numbered step keeps `steps_match`.
pub proof fn lemma_steps_match_push(steps: Seq<HaPlanStep>, defs: Seq<StepDef>, step: HaPlanStep, def: StepDef)
    requires
        steps_match(steps, defs),
        is_planned_step(step, (defs.len() + 1) as nat, def.0, def.1, def.2, def.3),
    ensures
        steps_match(steps.push(step), defs.push(def)),
{
    assert forall|i: int| 0 <= i < steps.push(step).len() implies is_planned_step(
        #[trigger] steps.push(step)[i],
        (i + 1) as nat,
        defs.push(def)[i].0,
        defs.push(def)[i].1,
        defs.push(def)[i].2,
        defs.push(def)[i].3,
    ) by {
        if i < steps.len() {
            assert(steps.push(step)[i] == steps[i]);
        }
    }
}

/// A fresh pending step with an estimated duration, destructive or not.
pub fn planned_step(number: usize, name: &str, description: &str, secs: u64, destructive: bool) -> (r:
    HaPlanStep)
    ensures
        is_planned_step(r, number as nat, name@, description@, secs, destructive),
{
    let step = HaPlanStep::new(number, name, description);
    let step = if destructive {
        step.destructive()
    } else {
        step
    };
    step.with_duration(secs)
}

/// Sum of the estimated durations of the steps that have one.
pub open spec fn duration_sum(steps: Seq<HaPlanStep>) -> nat
    decreases steps.len(),
{
    if steps.len() == 0 {
        0
    } else {
        duration_sum(steps.drop_last()) + match steps.last().estimated_duration_secs {
            Some(d) => d as nat,
            None => 0,
        }
    }
}

/// Some step of `steps` has an estimated duration.
pub open spec fn has_some_duration(steps: Seq<HaPlanStep>) -> bool {
    exists|i: int| 0 <= i < steps.len() && (#[trigger] steps[i]).estimated_duration_secs is Some
}

proof fn lemma_duration_sum_prefix(steps: Seq<HaPlanStep>, i: int)
    requires
        0 <= i <= steps.len(),
    ensures
        duration_sum(steps.subrange(0, i)) <= duration_sum(steps),
    decreases steps.len() - i,
{
    if i < steps.len() {
        lemma_duration_sum_prefix(steps, i + 1);
        assert(steps.subrange(0, i + 1).drop_last() =~= steps.subrange(0, i));
    } else {
        assert(steps.subrange(0, i) =~= steps);
    }
}

/// An HA execution plan containing multiple steps.
#[derive(Debug)]
pub struct HaPlan {
    /// Type of operation (switchover, failover, clone).
    pub operation: String,
    /// Cluster ID this plan applies to.
    pub cluster_id: String,
    /// Source node ID (if applicable).
    pub source_node_id: Option<String>,
    /// Target node ID.
    pub target_node_id: String,
    /// Steps in the plan.
    pub steps: Vec<HaPlanStep>,
    /// Whether this is a dry-run.
    pub dry_run: bool,
    /// Warnings to display to the user.
    pub warnings: Vec<String>,
    /// Plan creation time (milliseconds since the Unix epoch).
    pub created_at: i64,
}

impl HaPlan {
    /// Every step has finished without failing.
    pub open spec fn spec_is_complete(&self) -> bool {
        forall|i: int| 0 <= i < self.steps@.len() ==> (#[trigger] self.steps@[i]).status.is_done()
    }

    /// Some step has failed.
    pub open spec fn spec_has_failures(&self) -> bool {
        exists|i: int|
            0 <= i < self.steps@.len() && (#[trigger] self.steps@[i]).status == HaStepStatus::Failed
    }

    /// Some step has an estimated duration.
    pub open spec fn spec_has_some_duration(&self) -> bool {
        has_some_duration(self.steps@)
    }

    /// Some step is destructive.
    pub open spec fn spec_has_destructive_steps(&self) -> bool {
        exists|i: int| 0 <= i < self.steps@.len() && (#[trigger] self.steps@[i]).is_destructive
    }

    /// Create a new plan.
    pub fn new(operation: &str, cluster_id: &str, target_node_id: &str) -> (r: Self)
        ensures
            r.operation@ == operation@,
            r.cluster_id@ == cluster_id@,
            r.source_node_id is None,
            r.target_node_id@ == target_node_id@,
            r.steps@.len() == 0,
            !r.dry_run,
            r.warnings@.len() == 0,
    {
        HaPlan {
            operation: owned(operation),
            cluster_id: owned(cluster_id),
            source_node_id: None,
            target_node_id: owned(target_node_id),
            steps: Vec::new(),
            dry_run: false,
            warnings: Vec::new(),
            created_at: now_millis(),
        }
    }

    /// Set source node.
    pub fn with_source(self, source_node_id: &str) -> (r: Self)
        ensures
            r.source_node_id matches Some(s) && s@ == source_node_id@,
            r.operation == self.operation,
            r.cluster_id == self.cluster_id,
            r.target_node_id == self.target_node_id,
            r.steps == self.steps,
            r.dry_run == self.dry_run,
            r.warnings == self.warnings,
            r.created_at == self.created_at,
    {
        HaPlan { source_node_id: Some(owned(source_node_id)), ..self }
    }

    /// Mark as dry-run.
    pub fn as_dry_run(self) -> (r: Self)
        ensures
            r == (HaPlan { dry_run: true, ..self }),
    {
        HaPlan { dry_run: true, ..self }
    }

    /// Add a step to the plan.
    pub fn add_step(&mut self, step: HaPlanStep)
        ensures
            final(self).steps@ == old(self).steps@.push(step),
            final(self).operation == old(self).operation,
            final(self).cluster_id == old(self).cluster_id,
            final(self).source_node_id == old(self).source_node_id,
            final(self).target_node_id == old(self).target_node_id,
            final(self).dry_run == old(self).dry_run,
            final(self).warnings == old(self).warnings,
            final(self).created_at == old(self).created_at,
    {
        self.steps.push(step);
    }

    /// Add a warning.
    pub fn add_warning(&mut self, warning: &str)
        ensures
            final(self).warnings@.len() == old(self).warnings@.len() + 1,
            forall|i: int|
                0 <= i < old(self).warnings@.len() ==> final(self).warnings@[i] == old(
                    self,
                ).warnings@[i],
            final(self).warnings@.last()@ == warning@,
            texts(final(self).warnings@) == texts(old(self).warnings@).push(warning@),
            final(self).operation == old(self).operation,
            final(self).cluster_id == old(self).cluster_id,
            final(self).source_node_id == old(self).source_node_id,
            final(self).target_node_id == old(self).target_node_id,
            final(self).steps == old(self).steps,
            final(self).dry_run == old(self).dry_run,
            final(self).created_at == old(self).created_at,
    {
        self.warnings.push(owned(warning));
        assert(texts(self.warnings@) =~= texts(old(self).warnings@).push(warning@));
    }

    /// Check if plan has any destructive steps.
    pub fn has_destructive_steps(&self) -> (r: bool)
        ensures
            r == self.spec_has_destructive_steps(),
    {
        let mut i: usize = 0;
        while i < self.steps.len()
            invariant
                i <= self.steps.len(),
                forall|j: int| 0 <= j < i ==> !(#[trigger] self.steps@[j]).is_destructive,
            decreases self.steps.len() - i,
        {
            if self.steps[i].is_destructive {
                return true;
            }
            i = i + 1;
        }
        false
    }

    /// Get total estimated duration: `None` when no step has an estimate,
    /// otherwise the sum of the estimates.
    pub fn estimated_total_duration_secs(&self) -> (r: Option<u64>)
        requires
            duration_sum(self.steps@) <= u64::MAX,
        ensures
            r is None <==> !has_some_duration(self.steps@),
            r matches Some(t) ==> t == duration_sum(self.steps@),
    {
        let mut total: u64 = 0;
        let mut any = false;
        let mut i: usize = 0;
        while i < self.steps.len()
            invariant
                i <= self.steps.len(),
                duration_sum(self.steps@) <= u64::MAX,
                total == duration_sum(self.steps@.subrange(0, i as int)),
                any == exists|j: int|
                    0 <= j < i && (#[trigger] self.steps@[j]).estimated_duration_secs is Some,
            decreases self.steps.len() - i,
        {
            proof {
                lemma_duration_sum_prefix(self.steps@, i + 1);
                assert(self.steps@.subrange(0, i + 1).drop_last() =~= self.steps@.subrange(
                    0,
                    i as int,
                ));
            }
            match self.steps[i].estimated_duration_secs {
                Some(d) => {
                    total = total + d;
                    any = true;
                },
                None => {},
            }
            i = i + 1;
        }
        proof {
            assert(self.steps@.subrange(0, self.steps@.len() as int) =~= self.steps@);
        }
        if any {
            Some(total)
        } else {
            None
        }
    }

    /// Check if all steps are completed or skipped.
    pub fn is_complete(&self) -> (r: bool)
        ensures
            r == self.spec_is_complete(),
    {
        let mut i: usize = 0;
        while i < self.steps.len()
            invariant
                i <= self.steps.len(),
                forall|j: int| 0 <= j < i ==> (#[trigger] self.steps@[j]).status.is_done(),
            decreases self.steps.len() - i,
        {
            match self.steps[i].status {
                HaStepStatus::Completed | HaStepStatus::Skipped => {},
                _ => {
                    return false;
                },
            }
            i = i + 1;
        }
        true
    }

    /// Check if any step failed.
    pub fn has_failures(&self) -> (r: bool)
        ensures
            r == self.spec_has_failures(),
    {
        let mut i: usize = 0;
        while i < self.steps.len()
            invariant
                i <= self.steps.len(),
                forall|j: int|
                    0 <= j < i ==> (#[trigger] self.steps@[j]).status != HaStepStatus::Failed,
            decreases self.steps.len() - i,
        {
            if self.steps[i].status == HaStepStatus::Failed {
                return true;
            }
            i = i + 1;
        }
        false
    }

    /// Position of the current step: the first pending or in-progress one.
    pub fn current_step_index(&self) -> (r: Option<usize>)
        ensures
            r matches Some(i) ==> i < self.steps@.len() && self.steps@[i as int].status.is_open()
                && forall|j: int| 0 <= j < i ==> !(#[trigger] self.steps@[j]).status.is_open(),
            r is None ==> forall|j: int|
                0 <= j < self.steps@.len() ==> !(#[trigger] self.steps@[j]).status.is_open(),
    {
        let mut i: usize = 0;
        while i < self.steps.len()
            invariant
                i <= self.steps.len(),
                forall|j: int| 0 <= j < i ==> !(#[trigger] self.steps@[j]).status.is_open(),
            decreases self.steps.len() - i,
        {
            match self.steps[i].status {
                HaStepStatus::Pending | HaStepStatus::InProgress => {
                    return Some(i);
                },
                _ => {},
            }
            i = i + 1;
        }
        None
    }

    /// A copy of the plan.
    pub fn duplicate(&self) -> (r: HaPlan)
        ensures
            r.same_header(*self),
            r.steps@ == self.steps@,
    {
        let mut steps: Vec<HaPlanStep> = Vec::new();
        let mut i: usize = 0;
        while i < self.steps.len()
            invariant
                i <= self.steps.len(),
                steps@ == self.steps@.subrange(0, i as int),
            decreases self.steps.len() - i,
        {
            steps.push(self.steps[i].duplicate());
            proof {
                assert(self.steps@.subrange(0, i + 1) =~= self.steps@.subrange(0, i as int).push(
                    self.steps@[i as int],
                ));
            }
            i = i + 1;
        }
        proof {
            assert(self.steps@.subrange(0, self.steps@.len() as int) =~= self.steps@);
        }
        let source_node_id = match &self.source_node_id {
            Some(s) => Some(s.clone()),
            None => None,
        };
        let warnings = duplicate_strings(&self.warnings);
        HaPlan {
            operation: self.operation.clone(),
            cluster_id: self.cluster_id.clone(),
            source_node_id,
            target_node_id: self.target_node_id.clone(),
            steps,
            dry_run: self.dry_run,
            warnings,
            created_at: self.created_at,
        }
    }

    /// `self` and `other` agree on everything but the steps.
    pub open spec fn same_header(self, other: HaPlan) -> bool {
        &&& self.operation == other.operation
        &&& self.cluster_id == other.cluster_id
        &&& self.source_node_id == other.source_node_id
        &&& self.target_node_id == other.target_node_id
        &&& self.dry_run == other.dry_run
        &&& self.warnings@ == other.warnings@
        &&& self.created_at == other.created_at
    }

    /// Mark step `i` as started; every other step is left as it was.
    pub fn begin_step(&mut self, i: usize)
        requires
            i < old(self).steps@.len(),
        ensures
            final(self).same_header(*old(self)),
            final(self).steps@.len() == old(self).steps@.len(),
            forall|j: int|
                0 <= j < final(self).steps@.len() && j != i ==> final(self).steps@[j] == old(
                    self,
                ).steps@[j],
            final(self).steps@[i as int].same_definition(old(self).steps@[i as int]),
            final(self).steps@[i as int].status == HaStepStatus::InProgress,
            final(self).steps@[i as int].started_at is Some,
            final(self).steps@[i as int].error == old(self).steps@[i as int].error,
            final(self).steps@[i as int].completed_at == old(self).steps@[i as int].completed_at,
    {
        self.steps[i].start();
    }

    /// Record the outcome of step `i`: completed on success, failed with the
    /// error text otherwise; every other step is left as it was.
    pub fn finish_step(&mut self, i: usize, outcome: &Result<(), String>)
        requires
            i < old(self).steps@.len(),
        ensures
            final(self).same_header(*old(self)),
            final(self).steps@.len() == old(self).steps@.len(),
            forall|j: int|
                0 <= j < final(self).steps@.len() && j != i ==> final(self).steps@[j] == old(
                    self,
                ).steps@[j],
            final(self).steps@[i as int].same_definition(old(self).steps@[i as int]),
            final(self).steps@[i as int].started_at == old(self).steps@[i as int].started_at,
            final(self).steps@[i as int].completed_at is Some,
            outcome is Ok ==> final(self).steps@[i as int].status == HaStepStatus::Completed
                && final(self).steps@[i as int].error == old(self).steps@[i as int].error,
            outcome matches Err(e) ==> final(self).steps@[i as int].status == HaStepStatus::Failed
                && (final(self).steps@[i as int].error matches Some(m) && m@ == e@),
    {
        match outcome {
            Ok(()) => self.steps[i].complete(),
            Err(e) => self.steps[i].fail(e.as_str()),
        }
    }

    /// Get the current step (first pending or in-progress).
    pub fn current_step(&self) -> (r: Option<&HaPlanStep>)
        ensures
            r matches Some(s) ==> exists|i: int|
                0 <= i < self.steps@.len() && *s == self.steps@[i] && s.status.is_open()
                    && forall|j: int| 0 <= j < i ==> !(#[trigger] self.steps@[j]).status.is_open(),
            r is None ==> forall|j: int|
                0 <= j < self.steps@.len() ==> !(#[trigger] self.steps@[j]).status.is_open(),
    {
        match self.current_step_index() {
            Some(i) => Some(&self.steps[i]),
            None => None,
        }
    }
}

/// The summary message of an operation that failed at a step.
pub open spec fn failure_message(title: Seq<char>, step_name: Seq<char>, error: Seq<char>) -> Seq<
    char,
> {
    title + " failed at step '"@ + step_name + "': "@ + error
}

/// The result of executing a plan that is marked dry-run: a successful
/// result over a copy of the plan, with no step run. `None` when the plan
/// is not a dry-run and has to be executed.
pub fn dry_run_result(plan: &HaPlan) -> (r: Option<HaResult>)
    ensures
        plan.dry_run <==> r is Some,
        r matches Some(res) ==> res.success && res.message@ == "Dry-run completed successfully"@
            && res.plan.same_header(*plan) && res.plan.steps@ == plan.steps@
            && res.new_primary_id is None && res.new_replica_id is None,
{
    if plan.dry_run {
        Some(HaResult::success(plan.duplicate(), "Dry-run completed successfully"))
    } else {
        None
    }
}

/// Record the outcome of step `i` of an executing plan. On success the step
/// is marked completed and execution goes on (`None`). On failure the step is
/// marked failed and execution stops with a failed result over a copy of the
/// plan, whose message names the operation (`title`), the step and the error.
pub fn record_step_outcome(plan: &mut HaPlan, i: usize, outcome: &Result<(), String>, title: &str) -> (r:
    Option<HaResult>)
    requires
        i < old(plan).steps@.len(),
    ensures
        final(plan).same_header(*old(plan)),
        final(plan).steps@.len() == old(plan).steps@.len(),
        forall|j: int|
            0 <= j < final(plan).steps@.len() && j != i ==> final(plan).steps@[j] == old(
                plan,
            ).steps@[j],
        final(plan).steps@[i as int].same_definition(old(plan).steps@[i as int]),
        outcome is Ok ==> r is None && final(plan).steps@[i as int].status
            == HaStepStatus::Completed,
        outcome matches Err(e) ==> final(plan).steps@[i as int].status == HaStepStatus::Failed
            && (final(plan).steps@[i as int].error matches Some(m) && m@ == e@) && (r matches Some(
            res,
        ) && !res.success && res.message@ == failure_message(
            title@,
            old(plan).steps@[i as int].name@,
            e@,
        ) && res.plan.same_header(*final(plan)) && res.plan.steps@ == final(plan).steps@
            && res.new_primary_id is None && res.new_replica_id is None),
{
    plan.finish_step(i, outcome);
    match outcome {
        Ok(()) => None,
        Err(e) => {
            let mut msg = owned(title);
            push_str(&mut msg, " failed at step '");
            push_str(&mut msg, plan.steps[i].name.as_str());
            push_str(&mut msg, "': ");
            push_str(&mut msg, e.as_str());
            Some(HaResult::failure(plan.duplicate(), msg.as_str()))
        },
    }
}

/// The result of a plan whose steps all ran: successful, with the given
/// message, over a copy of the plan.
pub fn completed_result(plan: &HaPlan, message: &str) -> (r: HaResult)
    ensures
        r.success,
        r.message@ == message@,
        r.plan.same_header(*plan),
        r.plan.steps@ == plan.steps@,
        r.operation@ == plan.operation@,
        r.cluster_id@ == plan.cluster_id@,
        r.new_primary_id is None,
        r.new_replica_id is None,
{
    HaResult::success(plan.duplicate(), message)
}

/// A complete plan has no failed step.
pub proof fn lemma_complete_plan_has_no_failures(plan: HaPlan)
    ensures
        plan.spec_is_complete() ==> !plan.spec_has_failures(),
{
    if plan.spec_is_complete() {
        assert forall|i: int| 0 <= i < plan.steps@.len() implies (#[trigger] plan.steps@[i]).status
            != HaStepStatus::Failed by {
            assert(plan.steps@[i].status.is_done());
        }
    }
}

/// Result of an HA operation.
#[derive(Debug)]
pub struct HaResult {
    /// Whether the operation succeeded.
    pub success: bool,
    /// Operation type.
    pub operation: String,
    /// Cluster ID.
    pub cluster_id: String,
    /// New primary node ID (after switchover/failover).
    pub new_primary_id: Option<String>,
    /// New replica node ID (after clone).
    pub new_replica_id: Option<String>,
    /// The execution plan with final step statuses.
    pub plan: HaPlan,
    /// Summary message.
    pub message: String,
    /// Completion time (milliseconds since the Unix epoch).
    pub completed_at: i64,
}

impl HaResult {
    /// Create a successful result.
    pub fn success(plan: HaPlan, message: &str) -> (r: Self)
        ensures
            r.success,
            r.operation@ == plan.operation@,
            r.cluster_id@ == plan.cluster_id@,
            r.new_primary_id is None,
            r.new_replica_id is None,
            r.plan == plan,
            r.message@ == message@,
    {
        let operation = owned(plan.operation.as_str());
        let cluster_id = owned(plan.cluster_id.as_str());
        HaResult {
            success: true,
            operation,
            cluster_id,
            new_primary_id: None,
            new_replica_id: None,
            plan,
            message: owned(message),
            completed_at: now_millis(),
        }
    }

    /// Create a failed result.
    pub fn failure(plan: HaPlan, message: &str) -> (r: Self)
        ensures
            !r.success,
            r.operation@ == plan.operation@,
            r.cluster_id@ == plan.cluster_id@,
            r.new_primary_id is None,
            r.new_replica_id is None,
            r.plan == plan,
            r.message@ == message@,
    {
        let operation = owned(plan.operation.as_str());
        let cluster_id = owned(plan.cluster_id.as_str());
        HaResult {
            success: false,
            operation,
            cluster_id,
            new_primary_id: None,
            new_replica_id: None,
            plan,
            message: owned(message),
            completed_at: now_millis(),
        }
    }

    /// Set new primary ID.
    pub fn with_new_primary(self, node_id: &str) -> (r: Self)
        ensures
            r.new_primary_id matches Some(n) && n@ == node_id@,
            r.success == self.success,
            r.operation == self.operation,
            r.cluster_id == self.cluster_id,
            r.new_replica_id == self.new_replica_id,
            r.plan == self.plan,
            r.message == self.message,
            r.completed_at == self.completed_at,
    {
        HaResult { new_primary_id: Some(owned(node_id)), ..self }
    }

    /// Set new replica ID.
    pub fn with_new_replica(self, node_id: &str) -> (r: Self)
        ensures
            r.new_replica_id matches Some(n) && n@ == node_id@,
            r.success == self.success,
            r.operation == self.operation,
            r.cluster_id == self.cluster_id,
            r.new_primary_id == self.new_primary_id,
            r.plan == self.plan,
            r.message == self.message,
            r.completed_at == self.completed_at,
    {
        HaResult { new_replica_id: Some(owned(node_id)), ..self }
    }
}

} // verus!
