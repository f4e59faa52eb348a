//! Switchover: planned transfer of the primary role from one node to a
//! prepared replica.

use vstd::prelude::*;
use crate::cluster::{
    lemma_lookup_node_id, lookup_cluster, lookup_node, ClusterConfig, Node, NodeRole,
};
use crate::ha::checks::{verify_node_role};
use crate::ha::types::{is_planned_step, planned_step, HaError, HaPlan, HaPlanStep, HaResult};
use crate::text::{concat2, concat3, concat4, decimal, decimal_u64, owned, str_eq};

verus! {

/// Options for switchover operation.
#[derive(Debug, Clone)]
pub struct SwitchoverOptions {
    /// Cluster ID.
    pub cluster_id: String,
    /// Source node ID (current primary).
    pub from_node_id: String,
    /// Target node ID (replica to promote).
    pub to_node_id: String,
    /// Path to cluster config file.
    pub config_path: Option<String>,
    /// Dry-run mode (show plan without executing).
    pub dry_run: bool,
    /// Skip confirmation prompts.
    pub yes: bool,
    /// Maximum replication lag in bytes before switchover.
    pub max_lag_bytes: u64,
    /// Timeout for replication catchup in seconds.
    pub catchup_timeout_secs: u64,
    /// PostgreSQL user for connections.
    pub pg_user: String,
    /// PostgreSQL password.
    pub pg_password: Option<String>,
    /// Database name for connections.
    pub database: String,
    /// Data directory of the target node (for promotion).
    pub target_data_dir: Option<String>,
}

impl Default for SwitchoverOptions {
    fn default() -> (r: Self)
        ensures
            r.cluster_id@.len() == 0,
            r.from_node_id@.len() == 0,
            r.to_node_id@.len() == 0,
            r.config_path is None,
            !r.dry_run,
            !r.yes,
            r.max_lag_bytes == 1_048_576,
            r.catchup_timeout_secs == 60,
            r.pg_user@ == "postgres"@,
            r.pg_password is None,
            r.database@ == "postgres"@,
            r.target_data_dir is None,
    {
        SwitchoverOptions {
            cluster_id: String::new(),
            from_node_id: String::new(),
            to_node_id: String::new(),
            config_path: None,
            dry_run: false,
            yes: false,
            max_lag_bytes: 1_048_576,
            catchup_timeout_secs: 60,
            pg_user: owned("postgres"),
            pg_password: None,
            database: owned("postgres"),
            target_data_dir: None,
        }
    }
}

/// The eight steps of a switchover from `from` to `to`, with the given
/// catch-up limits, numbered from 1.
pub open spec fn switchover_steps_ok(
    steps: Seq<HaPlanStep>,
    from: Seq<char>,
    to: Seq<char>,
    max_lag_bytes: u64,
    catchup_timeout_secs: u64,
) -> bool {
    &&& steps.len() == 8
    &&& is_planned_step(
        steps[0],
        1,
        "check_source_health"@,
        "Verify primary node "@ + from + " is healthy"@,
        5,
        false,
    )
    &&& is_planned_step(
        steps[1],
        2,
        "check_target_health"@,
        "Verify replica node "@ + to + " is healthy"@,
        5,
        false,
    )
    &&& is_planned_step(
        steps[2],
        3,
        "check_replication"@,
        "Check replication status on "@ + to,
        5,
        false,
    )
    &&& is_planned_step(
        steps[3],
        4,
        "wait_catchup"@,
        "Wait for replication to catch up (max lag: "@ + decimal(max_lag_bytes as nat)
            + " bytes)"@,
        catchup_timeout_secs,
        false,
    )
    &&& is_planned_step(
        steps[4],
        5,
        "checkpoint_primary"@,
        "Create checkpoint on primary "@ + from,
        10,
        false,
    )
    &&& is_planned_step(
        steps[5],
        6,
        "promote_replica"@,
        "Promote "@ + to + " to primary"@,
        10,
        true,
    )
    &&& is_planned_step(
        steps[6],
        7,
        "verify_new_primary"@,
        "Verify "@ + to + " is accepting writes"@,
        10,
        false,
    )
    &&& is_planned_step(
        steps[7],
        8,
        "update_config"@,
        "Update cluster configuration with new roles"@,
        2,
        false,
    )
}

/// Every switchover plan promotes the target in a destructive step, so the
/// plan has destructive steps (and a confirmation is asked before it runs).
pub proof fn lemma_switchover_plan_is_destructive(
    plan: HaPlan,
    from: Seq<char>,
    to: Seq<char>,
    max_lag_bytes: u64,
    catchup_timeout_secs: u64,
)
    requires
        switchover_steps_ok(plan.steps@, from, to, max_lag_bytes, catchup_timeout_secs),
    ensures
        plan.spec_has_destructive_steps(),
        exists|i: int|
            0 <= i < plan.steps@.len() && (#[trigger] plan.steps@[i]).name@ == "promote_replica"@
                && plan.steps@[i].is_destructive,
{
    assert(plan.steps@[5].is_destructive);
}

/// What the front end runs for a switchover step.
#[derive(Debug, Clone, Copy, PartialEq, Eq, Structural)]
pub enum SwitchoverAction {
    CheckSourceHealth,
    CheckTargetHealth,
    CheckReplication,
    WaitCatchup,
    CheckpointPrimary,
    PromoteReplica,
    VerifyNewPrimary,
    UpdateConfig,
    /// A step name this operation does not know: nothing is run.
    Nothing,
}

/// The action of the switchover step with the given name.
pub open spec fn spec_switchover_action(name: Seq<char>) -> SwitchoverAction {
    if name == "check_source_health"@ {
        SwitchoverAction::CheckSourceHealth
    } else if name == "check_target_health"@ {
        SwitchoverAction::CheckTargetHealth
    } else if name == "check_replication"@ {
        SwitchoverAction::CheckReplication
    } else if name == "wait_catchup"@ {
        SwitchoverAction::WaitCatchup
    } else if name == "checkpoint_primary"@ {
        SwitchoverAction::CheckpointPrimary
    } else if name == "promote_replica"@ {
        SwitchoverAction::PromoteReplica
    } else if name == "verify_new_primary"@ {
        SwitchoverAction::VerifyNewPrimary
    } else if name == "update_config"@ {
        SwitchoverAction::UpdateConfig
    } else {
        SwitchoverAction::Nothing
    }
}

/// The action of the switchover step with the given name.
pub fn switchover_action(name: &str) -> (r: SwitchoverAction)
    ensures
        r == spec_switchover_action(name@),
{
    if str_eq(name, "check_source_health") {
        SwitchoverAction::CheckSourceHealth
    } else if str_eq(name, "check_target_health") {
        SwitchoverAction::CheckTargetHealth
    } else if str_eq(name, "check_replication") {
        SwitchoverAction::CheckReplication
    } else if str_eq(name, "wait_catchup") {
        SwitchoverAction::WaitCatchup
    } else if str_eq(name, "checkpoint_primary") {
        SwitchoverAction::CheckpointPrimary
    } else if str_eq(name, "promote_replica") {
        SwitchoverAction::PromoteReplica
    } else if str_eq(name, "verify_new_primary") {
        SwitchoverAction::VerifyNewPrimary
    } else if str_eq(name, "update_config") {
        SwitchoverAction::UpdateConfig
    } else {
        SwitchoverAction::Nothing
    }
}

/// Orchestrator for switchover operations.
pub struct SwitchoverOrchestrator {
    options: SwitchoverOptions,
    config: ClusterConfig,
}

impl SwitchoverOrchestrator {
    /// The options the orchestrator was made with.
    pub closed spec fn spec_options(&self) -> SwitchoverOptions {
        self.options
    }

    /// The cluster configuration the orchestrator was made with.
    pub closed spec fn spec_config(&self) -> ClusterConfig {
        self.config
    }

    /// Create a new switchover orchestrator over a loaded cluster configuration.
    pub fn new(options: SwitchoverOptions, config: ClusterConfig) -> (r: Self)
        ensures
            r.spec_options() == options,
            r.spec_config() == config,
    {
        SwitchoverOrchestrator { options, config }
    }

    /// Create an orchestrator from the outcome of loading the cluster
    /// configuration: a failed load (its error text) is a configuration
    /// error.
    pub fn from_loaded(options: SwitchoverOptions, loaded: Result<ClusterConfig, String>) -> (r: Result<Self, HaError>)
        ensures
            match loaded {
                Ok(c) => r matches Ok(o) && o.spec_options() == options && o.spec_config() == c,
                Err(e) => r matches Err(HaError::ConfigError(m)) && m == e,
            },
    {
        match loaded {
            Ok(config) => Ok(SwitchoverOrchestrator { options, config }),
            Err(e) => Err(HaError::ConfigError(e)),
        }
    }

    /// The options the orchestrator runs with.
    pub fn options(&self) -> (r: &SwitchoverOptions)
        ensures
            *r == self.spec_options(),
    {
        &self.options
    }

    /// The source and target nodes that an execution works on; an error
    /// when either is not configured (source first).
    pub fn execution_nodes(&self) -> (r: Result<(&Node, &Node), HaError>)
        ensures
            ({
                let o = self.spec_options();
                let c = self.spec_config();
                let from = lookup_node(c.nodes@, o.from_node_id@);
                let to = lookup_node(c.nodes@, o.to_node_id@);
                &&& from is None ==> (r matches Err(HaError::NodeNotFound(x)) && x@
                    == o.from_node_id@)
                &&& from is Some && to is None ==> (r matches Err(HaError::NodeNotFound(x)) && x@
                    == o.to_node_id@)
                &&& from is Some && to is Some ==> (r matches Ok((f, t)) && from == Some(*f) && to
                    == Some(*t))
            }),
    {
        let from_node = match self.config.get_node(self.options.from_node_id.as_str()) {
            Some(n) => n,
            None => {
                return Err(HaError::NodeNotFound(owned(self.options.from_node_id.as_str())));
            },
        };
        let to_node = match self.config.get_node(self.options.to_node_id.as_str()) {
            Some(n) => n,
            None => {
                return Err(HaError::NodeNotFound(owned(self.options.to_node_id.as_str())));
            },
        };
        Ok((from_node, to_node))
    }

    /// The result after every step of the plan succeeded: successful, with
    /// the target node as the new primary.
    pub fn success_result(&self, plan: &HaPlan) -> (r: HaResult)
        ensures
            r.success,
            r.message@ == "Switchover completed successfully"@,
            r.plan.same_header(*plan),
            r.plan.steps@ == plan.steps@,
            r.new_primary_id matches Some(p) && p@ == self.spec_options().to_node_id@,
            r.new_replica_id is None,
    {
        let res = crate::ha::types::completed_result(plan, "Switchover completed successfully");
        res.with_new_primary(self.options.to_node_id.as_str())
    }

    /// Create the execution plan for the switchover.
    ///
    /// The cluster, the source node and the target node must be configured
    /// (checked in that order), the source must be a primary and the target a
    /// replica; the plan then holds the eight switchover steps and two warnings.
    pub fn plan(&self) -> (r: Result<HaPlan, HaError>)
        ensures
            ({
                let o = self.spec_options();
                let c = self.spec_config();
                let cluster = lookup_cluster(c.clusters@, o.cluster_id@);
                let from = lookup_node(c.nodes@, o.from_node_id@);
                let to = lookup_node(c.nodes@, o.to_node_id@);
                &&& cluster is None ==> (r matches Err(HaError::ClusterNotFound(x)) && x@
                    == o.cluster_id@)
                &&& cluster is Some && from is None ==> (r matches Err(HaError::NodeNotFound(x))
                    && x@ == o.from_node_id@)
                &&& cluster is Some && from is Some && to is None ==> (r matches Err(
                    HaError::NodeNotFound(x),
                ) && x@ == o.to_node_id@)
                &&& cluster is Some && from is Some && to is Some && from->0.role
                    != NodeRole::Primary ==> (r matches Err(
                    HaError::InvalidNodeRole { node_id, actual_role, expected_role },
                ) && node_id@ == o.from_node_id@ && actual_role@ == from->0.role.spec_name()
                    && expected_role@ == "primary"@)
                &&& cluster is Some && from is Some && to is Some && from->0.role
                    == NodeRole::Primary && to->0.role != NodeRole::Replica ==> (r matches Err(
                    HaError::InvalidNodeRole { node_id, actual_role, expected_role },
                ) && node_id@ == o.to_node_id@ && actual_role@ == to->0.role.spec_name()
                    && expected_role@ == "replica"@)
                &&& cluster is Some && from is Some && to is Some && from->0.role
                    == NodeRole::Primary && to->0.role == NodeRole::Replica ==> (r matches Ok(plan)
                    && plan.operation@ == "switchover"@ && plan.cluster_id@ == o.cluster_id@
                    && plan.target_node_id@ == o.to_node_id@ && (plan.source_node_id matches Some(
                    s,
                ) && s@ == o.from_node_id@) && plan.dry_run == o.dry_run && switchover_steps_ok(
                    plan.steps@,
                    o.from_node_id@,
                    o.to_node_id@,
                    o.max_lag_bytes,
                    o.catchup_timeout_secs,
                ) && plan.warnings@.len() == 2 && plan.warnings@[0]@
                    == "This will transfer the primary role from "@ + o.from_node_id@ + " to "@
                    + o.to_node_id@ && plan.warnings@[1]@
                    == "Writes will be briefly interrupted during the switchover"@)
                &&& r matches Ok(plan) ==> plan.spec_has_destructive_steps()
            }),
    {
        let o = &self.options;
        if self.config.get_cluster(o.cluster_id.as_str()).is_none() {
            return Err(HaError::ClusterNotFound(owned(o.cluster_id.as_str())));
        }
        let from_node = match self.config.get_node(o.from_node_id.as_str()) {
            Some(n) => n,
            None => {
                return Err(HaError::NodeNotFound(owned(o.from_node_id.as_str())));
            },
        };
        let to_node = match self.config.get_node(o.to_node_id.as_str()) {
            Some(n) => n,
            None => {
                return Err(HaError::NodeNotFound(owned(o.to_node_id.as_str())));
            },
        };
        proof {
            lemma_lookup_node_id(self.config.nodes@, o.from_node_id@);
            lemma_lookup_node_id(self.config.nodes@, o.to_node_id@);
        }
        verify_node_role(from_node, NodeRole::Primary)?;
        verify_node_role(to_node, NodeRole::Replica)?;
        if to_node.role == NodeRole::Primary {
            let msg = concat3("Node ", o.to_node_id.as_str(), " is already the primary");
            return Err(HaError::AlreadyCompleted(msg));
        }
        let from = from_node.id.as_str();
        let to = to_node.id.as_str();
        let mut plan = HaPlan::new("switchover", o.cluster_id.as_str(), o.to_node_id.as_str()).with_source(
            o.from_node_id.as_str(),
        );
        if o.dry_run {
            plan = plan.as_dry_run();
        }
        let d1 = concat3("Verify primary node ", from, " is healthy");
        plan.add_step(planned_step(1, "check_source_health", d1.as_str(), 5, false));
        let d2 = concat3("Verify replica node ", to, " is healthy");
        plan.add_step(planned_step(2, "check_target_health", d2.as_str(), 5, false));
        let d3 = concat2("Check replication status on ", to);
        plan.add_step(planned_step(3, "check_replication", d3.as_str(), 5, false));
        let lag = decimal_u64(o.max_lag_bytes);
        let d4 = concat3("Wait for replication to catch up (max lag: ", lag.as_str(), " bytes)");
        plan.add_step(planned_step(4, "wait_catchup", d4.as_str(), o.catchup_timeout_secs, false));
        let d5 = concat2("Create checkpoint on primary ", from);
        plan.add_step(planned_step(5, "checkpoint_primary", d5.as_str(), 10, false));
        let d6 = concat3("Promote ", to, " to primary");
        plan.add_step(planned_step(6, "promote_replica", d6.as_str(), 10, true));
        let d7 = concat3("Verify ", to, " is accepting writes");
        plan.add_step(planned_step(7, "verify_new_primary", d7.as_str(), 10, false));
        plan.add_step(
            planned_step(8, "update_config", "Update cluster configuration with new roles", 2, false),
        );
        let w1 = concat4("This will transfer the primary role from ", from, " to ", to);
        plan.add_warning(w1.as_str());
        plan.add_warning("Writes will be briefly interrupted during the switchover");
        proof {
            lemma_switchover_plan_is_destructive(
                plan,
                o.from_node_id@,
                o.to_node_id@,
                o.max_lag_bytes,
                o.catchup_timeout_secs,
            );
        }
        Ok(plan)
    }
}

} // verus!
