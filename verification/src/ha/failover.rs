//! Failover: emergency promotion of a replica when the primary is down.

use vstd::prelude::*;
use crate::cluster::{
    lemma_lookup_node_id, lookup_cluster, lookup_node, lookup_primary, ClusterConfig, Node,
    NodeRole,
};
use crate::ha::checks::verify_node_role;
use crate::ha::types::{
    lemma_steps_match_push, planned_step, steps_match, HaError, HaPlan, HaResult, StepDef,
};
use crate::text::{concat3, owned, str_eq, texts};

verus! {

/// Options for failover operation.
#[derive(Debug, Clone)]
pub struct FailoverOptions {
    /// Cluster ID.
    pub cluster_id: String,
    /// Target node ID (replica to promote).
    pub to_node_id: String,
    /// Optional target time for PITR-based failover (milliseconds since the Unix epoch).
    pub target_time: Option<i64>,
    /// Path to cluster config file.
    pub config_path: Option<String>,
    /// Dry-run mode (show plan without executing).
    pub dry_run: bool,
    /// Skip confirmation prompts.
    pub yes: bool,
    /// Force failover even if primary is reachable.
    pub force: bool,
    /// PostgreSQL user for connections.
    pub pg_user: String,
    /// PostgreSQL password.
    pub pg_password: Option<String>,
    /// Database name for connections.
    pub database: String,
    /// Data directory of the target node (for promotion).
    pub target_data_dir: Option<String>,
    /// Backup directory for PITR.
    pub backup_dir: Option<String>,
}

impl Default for FailoverOptions {
    fn default() -> (r: Self)
        ensures
            r.cluster_id@.len() == 0,
            r.to_node_id@.len() == 0,
            r.target_time is None,
            r.config_path is None,
            !r.dry_run,
            !r.yes,
            !r.force,
            r.pg_user@ == "postgres"@,
            r.pg_password is None,
            r.database@ == "postgres"@,
            r.target_data_dir is None,
            r.backup_dir is None,
    {
        FailoverOptions {
            cluster_id: String::new(),
            to_node_id: String::new(),
            target_time: None,
            config_path: None,
            dry_run: false,
            yes: false,
            force: false,
            pg_user: owned("postgres"),
            pg_password: None,
            database: owned("postgres"),
            target_data_dir: None,
            backup_dir: None,
        }
    }
}

/// The steps of a failover to `to`, given the current primary of the
/// cluster (if any), whether the reachability check is forced off, and
/// whether a point-in-time recovery is requested.
pub open spec fn failover_step_defs(
    to: Seq<char>,
    primary: Option<Seq<char>>,
    force: bool,
    pitr: bool,
) -> Seq<StepDef> {
    let first: Seq<StepDef> = if !force && primary is Some {
        seq![("verify_primary_down"@, "Verify primary "@ + primary->0 + " is unreachable"@, 15u64, false)]
    } else {
        Seq::empty()
    };
    let checks: Seq<StepDef> = seq![
        ("check_target_health"@, "Verify replica node "@ + to + " is healthy"@, 5u64, false),
        ("check_replication"@, "Check replication status on "@ + to, 5u64, false),
    ];
    let recovery: Seq<StepDef> = if pitr {
        seq![
            ("validate_pitr"@, "Validate PITR feasibility for target time"@, 10u64, false),
            ("execute_pitr"@, "Execute point-in-time recovery"@, 300u64, true),
        ]
    } else {
        Seq::empty()
    };
    let last: Seq<StepDef> = seq![
        ("promote_replica"@, "Promote "@ + to + " to primary"@, 10u64, true),
        ("verify_new_primary"@, "Verify "@ + to + " is accepting writes"@, 10u64, false),
        ("update_config"@, "Update cluster configuration with new roles"@, 2u64, false),
    ];
    first + checks + recovery + last
}

/// Without `--force`, a failover plan for a cluster that has a current
/// primary starts by checking that this primary is unreachable; with
/// `--force`, or when the cluster has no primary, no step of the plan makes
/// that check.
pub proof fn lemma_failover_checks_primary_down(orchestrator: FailoverOrchestrator, plan: HaPlan)
    requires
        steps_match(
            plan.steps@,
            failover_step_defs(
                orchestrator.spec_options().to_node_id@,
                node_id_of(
                    lookup_primary(
                        orchestrator.spec_config().nodes@,
                        orchestrator.spec_options().cluster_id@,
                    ),
                ),
                orchestrator.spec_options().force,
                orchestrator.spec_options().target_time is Some,
            ),
        ),
    ensures
        ({
            let o = orchestrator.spec_options();
            let primary = lookup_primary(orchestrator.spec_config().nodes@, o.cluster_id@);
            &&& (!o.force && primary is Some) ==> plan.steps@.len() > 0
                && plan.steps@[0].name@ == "verify_primary_down"@ && plan.steps@[0].description@
                == "Verify primary "@ + primary->0.id@ + " is unreachable"@
            &&& o.force || primary is None ==> forall|i: int|
                0 <= i < plan.steps@.len() ==> (#[trigger] plan.steps@[i]).name@
                    != "verify_primary_down"@
        }),
{
    let o = orchestrator.spec_options();
    let primary = node_id_of(lookup_primary(orchestrator.spec_config().nodes@, o.cluster_id@));
    let defs = failover_step_defs(o.to_node_id@, primary, o.force, o.target_time is Some);
    let steps = plan.steps@;
    reveal_strlit("verify_primary_down");
    reveal_strlit("check_target_health");
    reveal_strlit("check_replication");
    reveal_strlit("validate_pitr");
    reveal_strlit("execute_pitr");
    reveal_strlit("promote_replica");
    reveal_strlit("verify_new_primary");
    reveal_strlit("update_config");
    let v = "verify_primary_down"@;
    assert("check_target_health"@[0] != v[0]);
    assert("check_target_health"@ != v);
    assert("check_replication"@.len() != v.len());
    assert("validate_pitr"@.len() != v.len());
    assert("execute_pitr"@.len() != v.len());
    assert("promote_replica"@.len() != v.len());
    assert("verify_new_primary"@.len() != v.len());
    assert("update_config"@.len() != v.len());
    if !o.force && primary is Some {
        assert(steps[0].name@ == defs[0].0);
    } else {
        assert forall|i: int| 0 <= i < steps.len() implies (#[trigger] steps[i]).name@ != v by {
            assert(steps[i].name@ == defs[i].0);
        }
    }
}

/// The warnings of a failover plan.
pub open spec fn failover_warnings(
    to: Seq<char>,
    primary: Option<Seq<char>>,
    force: bool,
    pitr: bool,
) -> Seq<Seq<char>> {
    let head = seq![
        "⚠️  EMERGENCY FAILOVER - This is a destructive operation"@,
        "Node "@ + to + " will be promoted to primary"@,
    ];
    let old_primary = if primary is Some {
        seq!["Previous primary "@ + primary->0 + " will be marked as 'unknown' role"@]
    } else {
        Seq::empty()
    };
    let loss = if pitr {
        seq!["PITR will be performed - data after target time will be lost"@]
    } else {
        seq!["Any transactions not yet replicated to the target node will be lost"@]
    };
    let forced = if force {
        seq!["--force specified: skipping primary reachability check"@]
    } else {
        Seq::empty()
    };
    head + old_primary + loss + forced
}

/// What the front end runs for a failover step.
#[derive(Debug, Clone, Copy, PartialEq, Eq, Structural)]
pub enum FailoverAction {
    VerifyPrimaryDown,
    CheckTargetHealth,
    CheckReplication,
    ValidatePitr,
    ExecutePitr,
    PromoteReplica,
    VerifyNewPrimary,
    UpdateConfig,
    /// A step name this operation does not know: nothing is run.
    Nothing,
}

/// The action of the failover step with the given name.
pub open spec fn spec_failover_action(name: Seq<char>) -> FailoverAction {
    if name == "verify_primary_down"@ {
        FailoverAction::VerifyPrimaryDown
    } else if name == "check_target_health"@ {
        FailoverAction::CheckTargetHealth
    } else if name == "check_replication"@ {
        FailoverAction::CheckReplication
    } else if name == "validate_pitr"@ {
        FailoverAction::ValidatePitr
    } else if name == "execute_pitr"@ {
        FailoverAction::ExecutePitr
    } else if name == "promote_replica"@ {
        FailoverAction::PromoteReplica
    } else if name == "verify_new_primary"@ {
        FailoverAction::VerifyNewPrimary
    } else if name == "update_config"@ {
        FailoverAction::UpdateConfig
    } else {
        FailoverAction::Nothing
    }
}

/// The action of the failover step with the given name.
pub fn failover_action(name: &str) -> (r: FailoverAction)
    ensures
        r == spec_failover_action(name@),
{
    if str_eq(name, "verify_primary_down") {
        FailoverAction::VerifyPrimaryDown
    } else if str_eq(name, "check_target_health") {
        FailoverAction::CheckTargetHealth
    } else if str_eq(name, "check_replication") {
        FailoverAction::CheckReplication
    } else if str_eq(name, "validate_pitr") {
        FailoverAction::ValidatePitr
    } else if str_eq(name, "execute_pitr") {
        FailoverAction::ExecutePitr
    } else if str_eq(name, "promote_replica") {
        FailoverAction::PromoteReplica
    } else if str_eq(name, "verify_new_primary") {
        FailoverAction::VerifyNewPrimary
    } else if str_eq(name, "update_config") {
        FailoverAction::UpdateConfig
    } else {
        FailoverAction::Nothing
    }
}

/// A PITR step needs a target time.
pub fn require_target_time(target_time: Option<i64>) -> (r: Result<i64, HaError>)
    ensures
        target_time matches Some(t) ==> r == Ok::<i64, HaError>(t),
        target_time is None ==> (r matches Err(HaError::PitrNotFeasible(m)) && m@
            == "No target time specified"@),
{
    match target_time {
        Some(t) => Ok(t),
        None => Err(HaError::PitrNotFeasible(owned("No target time specified"))),
    }
}

/// Orchestrator for failover operations.
pub struct FailoverOrchestrator {
    options: FailoverOptions,
    config: ClusterConfig,
}

/// The id of an optional node.
pub open spec fn node_id_of(n: Option<Node>) -> Option<Seq<char>> {
    match n {
        Some(x) => Some(x.id@),
        None => None,
    }
}

impl FailoverOrchestrator {
    /// The options the orchestrator was made with.
    pub closed spec fn spec_options(&self) -> FailoverOptions {
        self.options
    }

    /// The cluster configuration the orchestrator was made with.
    pub closed spec fn spec_config(&self) -> ClusterConfig {
        self.config
    }

    /// Create a new failover orchestrator over a loaded cluster configuration.
    pub fn new(options: FailoverOptions, config: ClusterConfig) -> (r: Self)
        ensures
            r.spec_options() == options,
            r.spec_config() == config,
    {
        FailoverOrchestrator { options, config }
    }

    /// Create an orchestrator from the outcome of loading the cluster
    /// configuration: a failed load (its error text) is a configuration
    /// error.
    pub fn from_loaded(options: FailoverOptions, loaded: Result<ClusterConfig, String>) -> (r: Result<Self, HaError>)
        ensures
            match loaded {
                Ok(c) => r matches Ok(o) && o.spec_options() == options && o.spec_config() == c,
                Err(e) => r matches Err(HaError::ConfigError(m)) && m == e,
            },
    {
        match loaded {
            Ok(config) => Ok(FailoverOrchestrator { options, config }),
            Err(e) => Err(HaError::ConfigError(e)),
        }
    }

    /// The options the orchestrator runs with.
    pub fn options(&self) -> (r: &FailoverOptions)
        ensures
            *r == self.spec_options(),
    {
        &self.options
    }

    /// The current primary of the cluster, if the configuration has one.
    pub fn current_primary(&self) -> (r: Option<&Node>)
        ensures
            r matches Some(p) ==> lookup_primary(
                self.spec_config().nodes@,
                self.spec_options().cluster_id@,
            ) == Some(*p),
            r is None ==> lookup_primary(
                self.spec_config().nodes@,
                self.spec_options().cluster_id@,
            ) is None,
    {
        self.config.get_primary_node(self.options.cluster_id.as_str())
    }

    /// The node to promote; an error when it is not configured.
    pub fn target_node(&self) -> (r: Result<&Node, HaError>)
        ensures
            ({
                let to = lookup_node(self.spec_config().nodes@, self.spec_options().to_node_id@);
                &&& to is None ==> (r matches Err(HaError::NodeNotFound(x)) && x@
                    == self.spec_options().to_node_id@)
                &&& to is Some ==> (r matches Ok(n) && to == Some(*n))
            }),
    {
        match self.config.get_node(self.options.to_node_id.as_str()) {
            Some(n) => Ok(n),
            None => Err(HaError::NodeNotFound(owned(self.options.to_node_id.as_str()))),
        }
    }

    /// The result after every step of the plan succeeded: successful, with
    /// the target node as the new primary.
    pub fn success_result(&self, plan: &HaPlan) -> (r: HaResult)
        ensures
            r.success,
            r.message@ == "Failover completed successfully"@,
            r.plan.same_header(*plan),
            r.plan.steps@ == plan.steps@,
            r.new_primary_id matches Some(p) && p@ == self.spec_options().to_node_id@,
            r.new_replica_id is None,
    {
        let res = crate::ha::types::completed_result(plan, "Failover completed successfully");
        res.with_new_primary(self.options.to_node_id.as_str())
    }

    /// Create the execution plan for the failover.
    ///
    /// The cluster and the target node must be configured, and the target
    /// must be a replica. The plan checks that the current primary is down
    /// (unless forced or there is none), checks the target, performs PITR
    /// when a target time is given, then promotes and verifies the target.
    pub fn plan(&self) -> (r: Result<HaPlan, HaError>)
        ensures
            ({
                let o = self.spec_options();
                let c = self.spec_config();
                let cluster = lookup_cluster(c.clusters@, o.cluster_id@);
                let to = lookup_node(c.nodes@, o.to_node_id@);
                let primary = node_id_of(lookup_primary(c.nodes@, o.cluster_id@));
                &&& cluster is None ==> (r matches Err(HaError::ClusterNotFound(x)) && x@
                    == o.cluster_id@)
                &&& cluster is Some && to is None ==> (r matches Err(HaError::NodeNotFound(x))
                    && x@ == o.to_node_id@)
                &&& cluster is Some && to is Some && to->0.role != NodeRole::Replica ==> (r matches Err(
                    HaError::InvalidNodeRole { node_id, actual_role, expected_role },
                ) && node_id@ == o.to_node_id@ && actual_role@ == to->0.role.spec_name()
                    && expected_role@ == "replica"@)
                &&& cluster is Some && to is Some && to->0.role == NodeRole::Replica ==> (r matches Ok(
                    plan,
                ) && plan.operation@ == "failover"@ && plan.cluster_id@ == o.cluster_id@
                    && plan.target_node_id@ == o.to_node_id@ && plan.dry_run == o.dry_run && (
                primary is None ==> plan.source_node_id is None) && (primary matches Some(p) ==> (
                plan.source_node_id matches Some(s) && s@ == p)) && steps_match(
                    plan.steps@,
                    failover_step_defs(o.to_node_id@, primary, o.force, o.target_time is Some),
                ) && texts(plan.warnings@) == failover_warnings(
                    o.to_node_id@,
                    primary,
                    o.force,
                    o.target_time is Some,
                ))
                &&& r matches Ok(plan) ==> ((!o.force && primary is Some) ==> plan.steps@.len() > 0
                    && plan.steps@[0].name@ == "verify_primary_down"@ && plan.steps@[0].description@
                    == "Verify primary "@ + primary->0 + " is unreachable"@)
                &&& r matches Ok(plan) ==> ((o.force || primary is None) ==> forall|i: int|
                    0 <= i < plan.steps@.len() ==> (#[trigger] plan.steps@[i]).name@
                        != "verify_primary_down"@)
            }),
    {
        let o = &self.options;
        if self.config.get_cluster(o.cluster_id.as_str()).is_none() {
            return Err(HaError::ClusterNotFound(owned(o.cluster_id.as_str())));
        }
        let to_node = match self.config.get_node(o.to_node_id.as_str()) {
            Some(n) => n,
            None => {
                return Err(HaError::NodeNotFound(owned(o.to_node_id.as_str())));
            },
        };
        proof {
            lemma_lookup_node_id(self.config.nodes@, o.to_node_id@);
        }
        verify_node_role(to_node, NodeRole::Replica)?;
        if to_node.role == NodeRole::Primary {
            let msg = concat3("Node ", o.to_node_id.as_str(), " is already the primary");
            return Err(HaError::AlreadyCompleted(msg));
        }
        let current_primary = self.config.get_primary_node(o.cluster_id.as_str());
        let ghost primary = node_id_of(lookup_primary(self.config.nodes@, o.cluster_id@));
        let to = to_node.id.as_str();
        let mut plan = HaPlan::new("failover", o.cluster_id.as_str(), o.to_node_id.as_str());
        match current_primary {
            Some(p) => {
                plan = plan.with_source(p.id.as_str());
            },
            None => {},
        }
        if o.dry_run {
            plan = plan.as_dry_run();
        }
        let pitr = o.target_time.is_some();
        let ghost mut defs: Seq<StepDef> = Seq::empty();
        let mut step_num: usize = 1;
        if !o.force {
            match current_primary {
                Some(p) => {
                    let d = concat3("Verify primary ", p.id.as_str(), " is unreachable");
                    let step = planned_step(step_num, "verify_primary_down", d.as_str(), 15, false);
                    proof {
                        lemma_steps_match_push(
                            plan.steps@,
                            defs,
                            step,
                            ("verify_primary_down"@, d@, 15u64, false),
                        );
                        defs = defs.push(("verify_primary_down"@, d@, 15u64, false));
                    }
                    plan.add_step(step);
                    step_num = step_num + 1;
                },
                None => {},
            }
        }
        assert(step_num == defs.len() + 1);
        let d = concat3("Verify replica node ", to, " is healthy");
        let step = planned_step(step_num, "check_target_health", d.as_str(), 5, false);
        proof {
            lemma_steps_match_push(plan.steps@, defs, step, ("check_target_health"@, d@, 5u64, false));
            defs = defs.push(("check_target_health"@, d@, 5u64, false));
        }
        plan.add_step(step);
        step_num = step_num + 1;
        let d = crate::text::concat2("Check replication status on ", to);
        let step = planned_step(step_num, "check_replication", d.as_str(), 5, false);
        proof {
            lemma_steps_match_push(plan.steps@, defs, step, ("check_replication"@, d@, 5u64, false));
            defs = defs.push(("check_replication"@, d@, 5u64, false));
        }
        plan.add_step(step);
        step_num = step_num + 1;
        if pitr {
            let step = planned_step(
                step_num,
                "validate_pitr",
                "Validate PITR feasibility for target time",
                10,
                false,
            );
            proof {
                let def = ("validate_pitr"@, "Validate PITR feasibility for target time"@, 10u64, false);
                lemma_steps_match_push(plan.steps@, defs, step, def);
                defs = defs.push(def);
            }
            plan.add_step(step);
            step_num = step_num + 1;
            let step = planned_step(step_num, "execute_pitr", "Execute point-in-time recovery", 300, true);
            proof {
                let def = ("execute_pitr"@, "Execute point-in-time recovery"@, 300u64, true);
                lemma_steps_match_push(plan.steps@, defs, step, def);
                defs = defs.push(def);
            }
            plan.add_step(step);
            step_num = step_num + 1;
        }
        let d = concat3("Promote ", to, " to primary");
        let step = planned_step(step_num, "promote_replica", d.as_str(), 10, true);
        proof {
            lemma_steps_match_push(plan.steps@, defs, step, ("promote_replica"@, d@, 10u64, true));
            defs = defs.push(("promote_replica"@, d@, 10u64, true));
        }
        plan.add_step(step);
        step_num = step_num + 1;
        let d = concat3("Verify ", to, " is accepting writes");
        let step = planned_step(step_num, "verify_new_primary", d.as_str(), 10, false);
        proof {
            lemma_steps_match_push(plan.steps@, defs, step, ("verify_new_primary"@, d@, 10u64, false));
            defs = defs.push(("verify_new_primary"@, d@, 10u64, false));
        }
        plan.add_step(step);
        step_num = step_num + 1;
        let step = planned_step(
            step_num,
            "update_config",
            "Update cluster configuration with new roles",
            2,
            false,
        );
        proof {
            let def = ("update_config"@, "Update cluster configuration with new roles"@, 2u64, false);
            lemma_steps_match_push(plan.steps@, defs, step, def);
            defs = defs.push(def);
            assert(defs =~= failover_step_defs(o.to_node_id@, primary, o.force, pitr));
        }
        plan.add_step(step);
        plan.add_warning("⚠️  EMERGENCY FAILOVER - This is a destructive operation");
        let w = concat3("Node ", to, " will be promoted to primary");
        plan.add_warning(w.as_str());
        match current_primary {
            Some(p) => {
                let w = concat3("Previous primary ", p.id.as_str(), " will be marked as 'unknown' role");
                plan.add_warning(w.as_str());
            },
            None => {},
        }
        if pitr {
            plan.add_warning("PITR will be performed - data after target time will be lost");
        } else {
            plan.add_warning("Any transactions not yet replicated to the target node will be lost");
        }
        if o.force {
            plan.add_warning("--force specified: skipping primary reachability check");
        }
        proof {
            assert(texts(plan.warnings@) =~= failover_warnings(o.to_node_id@, primary, o.force, pitr));
            lemma_failover_checks_primary_down(*self, plan);
        }
        Ok(plan)
    }
}

} // verus!
