//! Clone node: create a new replica from an existing backup or PITR point.

use vstd::prelude::*;
use crate::cluster::{lemma_lookup_node_id, lookup_cluster, lookup_node, lookup_primary, ClusterConfig, Node};
use crate::ha::types::{
    lemma_steps_match_push, planned_step, steps_match, HaError, HaPlan, HaResult, StepDef,
};
use crate::text::{concat2, concat3, has_any_prefix, latest_matching, lex_lt, owned, push_str, str_eq, texts};
use crate::timestamps::{format_utc, utc_formatted};

verus! {

/// Options for clone node operation.
#[derive(Debug, Clone)]
pub struct CloneNodeOptions {
    /// Cluster ID.
    pub cluster_id: String,
    /// Source node ID (to get backup from).
    pub source_node_id: String,
    /// Target node ID (new replica).
    pub target_node_id: String,
    /// Specific backup ID to use.
    pub backup_id: Option<String>,
    /// Optional target time for PITR-based clone (milliseconds since the Unix epoch).
    pub target_time: Option<i64>,
    /// Target directory for the new replica data.
    pub target_dir: String,
    /// Path to cluster config file.
    pub config_path: Option<String>,
    /// Dry-run mode (show plan without executing).
    pub dry_run: bool,
    /// Skip confirmation prompts.
    pub yes: bool,
    /// Backup directory.
    pub backup_dir: String,
    /// PostgreSQL user for connections.
    pub pg_user: String,
    /// PostgreSQL password.
    pub pg_password: Option<String>,
    /// Database name for connections.
    pub database: String,
    /// Use remote storage for backups.
    pub remote_storage: bool,
    /// Storage bucket.
    pub storage_bucket: Option<String>,
    /// Storage endpoint.
    pub storage_endpoint: Option<String>,
    /// Storage region.
    pub storage_region: Option<String>,
    /// Storage access key.
    pub storage_access_key: Option<String>,
    /// Storage secret key.
    pub storage_secret_key: Option<String>,
}

impl Default for CloneNodeOptions {
    fn default() -> (r: Self)
        ensures
            r.cluster_id@.len() == 0,
            r.source_node_id@.len() == 0,
            r.target_node_id@.len() == 0,
            r.backup_id is None,
            r.target_time is None,
            r.target_dir@ == "/var/lib/postgresql/data"@,
            r.config_path is None,
            !r.dry_run,
            !r.yes,
            r.backup_dir@ == "./backups"@,
            r.pg_user@ == "postgres"@,
            r.pg_password is None,
            r.database@ == "postgres"@,
            !r.remote_storage,
            r.storage_bucket is None,
            r.storage_endpoint is None,
            r.storage_region is None,
            r.storage_access_key is None,
            r.storage_secret_key is None,
    {
        CloneNodeOptions {
            cluster_id: String::new(),
            source_node_id: String::new(),
            target_node_id: String::new(),
            backup_id: None,
            target_time: None,
            target_dir: owned("/var/lib/postgresql/data"),
            config_path: None,
            dry_run: false,
            yes: false,
            backup_dir: owned("./backups"),
            pg_user: owned("postgres"),
            pg_password: None,
            database: owned("postgres"),
            remote_storage: false,
            storage_bucket: None,
            storage_endpoint: None,
            storage_region: None,
            storage_access_key: None,
            storage_secret_key: None,
        }
    }
}

/// The steps of cloning `source` into a new replica `target` at `dir`:
/// `backup` is the requested backup (if any), `remote` says whether the
/// backup comes from remote storage, `pitr` whether a target time is given
/// and `known_target` whether the target node is already configured.
pub open spec fn clone_step_defs(
    source: Seq<char>,
    target: Seq<char>,
    dir: Seq<char>,
    backup: Option<Seq<char>>,
    remote: bool,
    pitr: bool,
    known_target: bool,
) -> Seq<StepDef> {
    let validate: StepDef = (
        "validate_backup"@,
        match backup {
            Some(b) => "Validate backup "@ + b + " exists and is valid"@,
            None => "Find latest backup from source node "@ + source,
        },
        10u64,
        false,
    );
    let head: Seq<StepDef> = seq![
        validate,
        ("validate_target_dir"@, "Validate target directory "@ + dir, 2u64, false),
    ];
    let download: Seq<StepDef> = if remote {
        seq![("download_backup"@, "Download backup from remote storage"@, 300u64, false)]
    } else {
        Seq::empty()
    };
    let restore: Seq<StepDef> = seq![("restore_backup"@, "Restore backup to "@ + dir, 300u64, true)];
    let recovery: Seq<StepDef> = if pitr {
        seq![("execute_pitr"@, "Execute point-in-time recovery"@, 300u64, true)]
    } else {
        Seq::empty()
    };
    let replica: Seq<StepDef> = seq![
        (
            "configure_replica"@,
            "Configure PostgreSQL as replica (standby.signal, primary_conninfo)"@,
            5u64,
            false,
        ),
        ("start_postgres"@, "Start PostgreSQL in recovery mode"@, 30u64, false),
        ("verify_replication"@, "Verify replica is streaming from primary"@, 30u64, false),
    ];
    let config: Seq<StepDef> = if !known_target {
        seq![("update_config"@, "Add node "@ + target + " to cluster configuration"@, 2u64, false)]
    } else {
        Seq::empty()
    };
    head + download + restore + recovery + replica + config
}

/// A clone plan ends by adding the target node to the cluster configuration
/// exactly when that node is not configured yet: then its last step is
/// `update_config` for the target, otherwise no step is `update_config`.
pub proof fn lemma_clone_registers_new_node(orchestrator: CloneNodeOrchestrator, plan: HaPlan)
    requires
        ({
            let o = orchestrator.spec_options();
            steps_match(
                plan.steps@,
                clone_step_defs(
                    o.source_node_id@,
                    o.target_node_id@,
                    o.target_dir@,
                    opt_text(o.backup_id),
                    o.remote_storage,
                    o.target_time is Some,
                    lookup_node(orchestrator.spec_config().nodes@, o.target_node_id@) is Some,
                ),
            )
        }),
    ensures
        ({
            let o = orchestrator.spec_options();
            let steps = plan.steps@;
            let known = lookup_node(orchestrator.spec_config().nodes@, o.target_node_id@) is Some;
            &&& !known ==> steps.len() > 0 && steps.last().name@ == "update_config"@
                && steps.last().description@ == "Add node "@ + o.target_node_id@
                + " to cluster configuration"@
            &&& known ==> forall|i: int|
                0 <= i < steps.len() ==> (#[trigger] steps[i]).name@ != "update_config"@
        }),
{
    let o = orchestrator.spec_options();
    let known = lookup_node(orchestrator.spec_config().nodes@, o.target_node_id@) is Some;
    let defs = clone_step_defs(
        o.source_node_id@,
        o.target_node_id@,
        o.target_dir@,
        opt_text(o.backup_id),
        o.remote_storage,
        o.target_time is Some,
        known,
    );
    let steps = plan.steps@;
    reveal_strlit("update_config");
    reveal_strlit("validate_backup");
    reveal_strlit("validate_target_dir");
    reveal_strlit("download_backup");
    reveal_strlit("restore_backup");
    reveal_strlit("execute_pitr");
    reveal_strlit("configure_replica");
    reveal_strlit("start_postgres");
    reveal_strlit("verify_replication");
    if !known {
        assert(steps.last().name@ == defs.last().0);
    } else {
        assert forall|i: int| 0 <= i < steps.len() implies (#[trigger] steps[i]).name@
            != "update_config"@ by {
            assert(steps[i].name@ == defs[i].0);
        }
    }
}

/// The warnings of a clone plan.
pub open spec fn clone_warnings(dir: Seq<char>, pitr: bool) -> Seq<Seq<char>> {
    seq!["A new replica will be created at "@ + dir] + if pitr {
        seq!["PITR will be performed - replica will be at specified point in time"@]
    } else {
        Seq::empty()
    } + seq!["Ensure sufficient disk space for the backup restore"@]
}

/// What the front end runs for a clone step.
#[derive(Debug, Clone, Copy, PartialEq, Eq, Structural)]
pub enum CloneAction {
    ValidateBackup,
    ValidateTargetDir,
    DownloadBackup,
    RestoreBackup,
    ExecutePitr,
    ConfigureReplica,
    StartPostgres,
    VerifyReplication,
    UpdateConfig,
    /// A step name this operation does not know: nothing is run.
    Nothing,
}

/// The action of the clone step with the given name.
pub open spec fn spec_clone_action(name: Seq<char>) -> CloneAction {
    if name == "validate_backup"@ {
        CloneAction::ValidateBackup
    } else if name == "validate_target_dir"@ {
        CloneAction::ValidateTargetDir
    } else if name == "download_backup"@ {
        CloneAction::DownloadBackup
    } else if name == "restore_backup"@ {
        CloneAction::RestoreBackup
    } else if name == "execute_pitr"@ {
        CloneAction::ExecutePitr
    } else if name == "configure_replica"@ {
        CloneAction::ConfigureReplica
    } else if name == "start_postgres"@ {
        CloneAction::StartPostgres
    } else if name == "verify_replication"@ {
        CloneAction::VerifyReplication
    } else if name == "update_config"@ {
        CloneAction::UpdateConfig
    } else {
        CloneAction::Nothing
    }
}

/// The action of the clone step with the given name.
pub fn clone_action(name: &str) -> (r: CloneAction)
    ensures
        r == spec_clone_action(name@),
{
    if str_eq(name, "validate_backup") {
        CloneAction::ValidateBackup
    } else if str_eq(name, "validate_target_dir") {
        CloneAction::ValidateTargetDir
    } else if str_eq(name, "download_backup") {
        CloneAction::DownloadBackup
    } else if str_eq(name, "restore_backup") {
        CloneAction::RestoreBackup
    } else if str_eq(name, "execute_pitr") {
        CloneAction::ExecutePitr
    } else if str_eq(name, "configure_replica") {
        CloneAction::ConfigureReplica
    } else if str_eq(name, "start_postgres") {
        CloneAction::StartPostgres
    } else if str_eq(name, "verify_replication") {
        CloneAction::VerifyReplication
    } else if str_eq(name, "update_config") {
        CloneAction::UpdateConfig
    } else {
        CloneAction::Nothing
    }
}

/// The backup-validation step: a named backup must exist locally or be
/// fetchable from remote storage; without a name, a catalog, a backup
/// directory or remote storage must be there to search.
pub fn validate_backup_decision(
    backup_id: Option<&str>,
    backup_exists: bool,
    remote_storage: bool,
    catalog_exists: bool,
    has_backup_dirs: bool,
) -> (r: Result<(), HaError>)
    ensures
        backup_id matches Some(b) ==> (if backup_exists || remote_storage {
            r is Ok
        } else {
            r matches Err(HaError::BackupNotFound(x)) && x@ == b@
        }),
        backup_id is None ==> (if catalog_exists || has_backup_dirs || remote_storage {
            r is Ok
        } else {
            r matches Err(HaError::BackupNotFound(x)) && x@ == "No backups found in backup directory"@
        }),
{
    match backup_id {
        Some(b) => {
            if backup_exists || remote_storage {
                Ok(())
            } else {
                Err(HaError::BackupNotFound(owned(b)))
            }
        },
        None => {
            if catalog_exists || has_backup_dirs || remote_storage {
                Ok(())
            } else {
                Err(HaError::BackupNotFound(owned("No backups found in backup directory")))
            }
        },
    }
}

/// The target-directory step: an existing non-empty directory is refused
/// unless confirmation was skipped; a missing directory is to be created
/// (`Ok(true)`).
pub fn target_dir_decision(dir: &str, exists: bool, is_empty: bool, yes: bool) -> (r: Result<
    bool,
    HaError,
>)
    ensures
        !exists ==> r == Ok::<bool, HaError>(true),
        exists && (is_empty || yes) ==> r == Ok::<bool, HaError>(false),
        exists && !is_empty && !yes ==> (r matches Err(HaError::TargetDirNotEmpty(x)) && x@ == dir@),
{
    if exists {
        if !is_empty && !yes {
            return Err(HaError::TargetDirNotEmpty(owned(dir)));
        }
        Ok(false)
    } else {
        Ok(true)
    }
}

/// The backup to restore when none is named: the directory whose name is
/// greatest among those named `snapshot_backup_*` or `full_backup_*`.
pub fn restore_source(names: &Vec<String>) -> (r: Result<usize, HaError>)
    ensures
        ({
            let ps = seq!["snapshot_backup_"@, "full_backup_"@];
            &&& r is Err <==> forall|j: int|
                0 <= j < names@.len() ==> !has_any_prefix(#[trigger] names@[j]@, ps)
            &&& r is Err ==> (r matches Err(HaError::BackupNotFound(x)) && x@
                == "No backup directories found"@)
            &&& r matches Ok(i) ==> i < names@.len() && has_any_prefix(names@[i as int]@, ps)
                && forall|j: int|
                0 <= j < names@.len() && has_any_prefix(#[trigger] names@[j]@, ps) ==> !lex_lt(
                    names@[i as int]@,
                    names@[j]@,
                )
        }),
{
    let mut prefixes: Vec<&str> = Vec::new();
    prefixes.push("snapshot_backup_");
    prefixes.push("full_backup_");
    proof {
        assert(prefixes@.map_values(|p: &str| p@) =~= seq!["snapshot_backup_"@, "full_backup_"@]);
    }
    match latest_matching(names, &prefixes) {
        Some(i) => Ok(i),
        None => Err(HaError::BackupNotFound(owned("No backup directories found"))),
    }
}

/// The error when the chosen backup has no `base` directory.
pub fn base_backup_missing(base_path: &str) -> (r: HaError)
    ensures
        r matches HaError::StepFailed { step, reason } && step@ == "restore_backup"@ && reason@
            == "Base backup not found at "@ + base_path@,
{
    HaError::StepFailed {
        step: owned("restore_backup"),
        reason: concat2("Base backup not found at ", base_path),
    }
}

/// The lines appended to `postgresql.auto.conf` to recover the clone to a
/// point in time and promote it there.
pub open spec fn pitr_conf_text(target_time: i64) -> Seq<char> {
    "\n# PITR configuration added by Warden\nrecovery_target_time = '"@ + utc_formatted(
        target_time,
        "%Y-%m-%d %H:%M:%S %Z"@,
    ) + "'\nrecovery_target_action = 'promote'\n"@
}

/// The lines appended to `postgresql.auto.conf` to recover the clone to
/// `target_time` (milliseconds since the Unix epoch) and promote it there.
pub fn pitr_conf_lines(target_time: i64) -> (r: String)
    ensures
        r@ == pitr_conf_text(target_time),
{
    let mut out = owned("\n# PITR configuration added by Warden\nrecovery_target_time = '");
    let t = format_utc(target_time, "%Y-%m-%d %H:%M:%S %Z");
    push_str(&mut out, t.as_str());
    push_str(&mut out, "'\nrecovery_target_action = 'promote'\n");
    out
}

/// The text of an optional string.
pub open spec fn opt_text(s: Option<String>) -> Option<Seq<char>> {
    match s {
        Some(x) => Some(x@),
        None => None,
    }
}

/// Orchestrator for clone node operations.
pub struct CloneNodeOrchestrator {
    options: CloneNodeOptions,
    config: ClusterConfig,
}

impl CloneNodeOrchestrator {
    /// The options the orchestrator was made with.
    pub closed spec fn spec_options(&self) -> CloneNodeOptions {
        self.options
    }

    /// The cluster configuration the orchestrator was made with.
    pub closed spec fn spec_config(&self) -> ClusterConfig {
        self.config
    }

    /// Create a new clone orchestrator over a loaded cluster configuration.
    pub fn new(options: CloneNodeOptions, config: ClusterConfig) -> (r: Self)
        ensures
            r.spec_options() == options,
            r.spec_config() == config,
    {
        CloneNodeOrchestrator { options, config }
    }

    /// Create an orchestrator from the outcome of loading the cluster
    /// configuration: a failed load (its error text) is a configuration
    /// error.
    pub fn from_loaded(options: CloneNodeOptions, loaded: Result<ClusterConfig, String>) -> (r: Result<Self, HaError>)
        ensures
            match loaded {
                Ok(c) => r matches Ok(o) && o.spec_options() == options && o.spec_config() == c,
                Err(e) => r matches Err(HaError::ConfigError(m)) && m == e,
            },
    {
        match loaded {
            Ok(config) => Ok(CloneNodeOrchestrator { options, config }),
            Err(e) => Err(HaError::ConfigError(e)),
        }
    }

    /// The options the orchestrator runs with.
    pub fn options(&self) -> (r: &CloneNodeOptions)
        ensures
            *r == self.spec_options(),
    {
        &self.options
    }

    /// The node the backup comes from; an error when it is not configured.
    pub fn source_node(&self) -> (r: Result<&Node, HaError>)
        ensures
            ({
                let s = lookup_node(self.spec_config().nodes@, self.spec_options().source_node_id@);
                &&& s is None ==> (r matches Err(HaError::NodeNotFound(x)) && x@
                    == self.spec_options().source_node_id@)
                &&& s is Some ==> (r matches Ok(n) && s == Some(*n))
            }),
    {
        match self.config.get_node(self.options.source_node_id.as_str()) {
            Some(n) => Ok(n),
            None => Err(HaError::NodeNotFound(owned(self.options.source_node_id.as_str()))),
        }
    }

    /// The node the new replica follows: the cluster's primary, or the
    /// source node when the cluster has no primary.
    pub fn replication_source<'a>(&'a self, source: &'a Node) -> (r: &'a Node)
        ensures
            lookup_primary(self.spec_config().nodes@, self.spec_options().cluster_id@) matches Some(
                p,
            ) ==> *r == p,
            lookup_primary(self.spec_config().nodes@, self.spec_options().cluster_id@) is None
                ==> *r == *source,
    {
        match self.config.get_primary_node(self.options.cluster_id.as_str()) {
            Some(p) => p,
            None => source,
        }
    }

    /// The result after every step of the plan succeeded: successful, with
    /// the target node as the new replica.
    pub fn success_result(&self, plan: &HaPlan) -> (r: HaResult)
        ensures
            r.success,
            r.message@ == "Clone completed successfully"@,
            r.plan.same_header(*plan),
            r.plan.steps@ == plan.steps@,
            r.new_replica_id matches Some(p) && p@ == self.spec_options().target_node_id@,
            r.new_primary_id is None,
    {
        let res = crate::ha::types::completed_result(plan, "Clone completed successfully");
        res.with_new_replica(self.options.target_node_id.as_str())
    }

    /// Create the execution plan for the clone operation.
    ///
    /// The cluster and the source node must be configured. The plan
    /// validates the backup and the target directory, downloads the backup
    /// when it is remote, restores it, performs PITR when a target time is
    /// given, configures and starts the replica, verifies replication and,
    /// when the target node is not configured yet, adds it to the configuration.
    pub fn plan(&self) -> (r: Result<HaPlan, HaError>)
        ensures
            ({
                let o = self.spec_options();
                let c = self.spec_config();
                let cluster = lookup_cluster(c.clusters@, o.cluster_id@);
                let source = lookup_node(c.nodes@, o.source_node_id@);
                let target = lookup_node(c.nodes@, o.target_node_id@);
                &&& cluster is None ==> (r matches Err(HaError::ClusterNotFound(x)) && x@
                    == o.cluster_id@)
                &&& cluster is Some && source is None ==> (r matches Err(HaError::NodeNotFound(x))
                    && x@ == o.source_node_id@)
                &&& cluster is Some && source is Some ==> (r matches Ok(plan) && plan.operation@
                    == "clone-node"@ && plan.cluster_id@ == o.cluster_id@ && plan.target_node_id@
                    == o.target_node_id@ && (plan.source_node_id matches Some(s) && s@
                    == o.source_node_id@) && plan.dry_run == o.dry_run && steps_match(
                    plan.steps@,
                    clone_step_defs(
                        o.source_node_id@,
                        o.target_node_id@,
                        o.target_dir@,
                        opt_text(o.backup_id),
                        o.remote_storage,
                        o.target_time is Some,
                        target is Some,
                    ),
                ) && texts(plan.warnings@) == clone_warnings(o.target_dir@, o.target_time is Some))
                &&& r matches Ok(plan) ==> (target is None ==> plan.steps@.len() > 0
                    && plan.steps@.last().name@ == "update_config"@ && plan.steps@.last().description@
                    == "Add node "@ + o.target_node_id@ + " to cluster configuration"@)
                &&& r matches Ok(plan) ==> (target is Some ==> forall|i: int|
                    0 <= i < plan.steps@.len() ==> (#[trigger] plan.steps@[i]).name@
                        != "update_config"@)
            }),
    {
        let o = &self.options;
        if self.config.get_cluster(o.cluster_id.as_str()).is_none() {
            return Err(HaError::ClusterNotFound(owned(o.cluster_id.as_str())));
        }
        let source_node = match self.config.get_node(o.source_node_id.as_str()) {
            Some(n) => n,
            None => {
                return Err(HaError::NodeNotFound(owned(o.source_node_id.as_str())));
            },
        };
        proof {
            lemma_lookup_node_id(self.config.nodes@, o.source_node_id@);
        }
        let target_node = self.config.get_node(o.target_node_id.as_str());
        let mut plan = HaPlan::new("clone-node", o.cluster_id.as_str(), o.target_node_id.as_str()).with_source(
            o.source_node_id.as_str(),
        );
        if o.dry_run {
            plan = plan.as_dry_run();
        }
        let dir = o.target_dir.as_str();
        let ghost mut defs: Seq<StepDef> = Seq::empty();
        let mut step_num: usize = 1;
        let d = match &o.backup_id {
            Some(b) => concat3("Validate backup ", b.as_str(), " exists and is valid"),
            None => concat2("Find latest backup from source node ", source_node.id.as_str()),
        };
        let step = planned_step(step_num, "validate_backup", d.as_str(), 10, false);
        proof {
            lemma_steps_match_push(plan.steps@, defs, step, ("validate_backup"@, d@, 10u64, false));
            defs = defs.push(("validate_backup"@, d@, 10u64, false));
        }
        plan.add_step(step);
        step_num = step_num + 1;
        let d = concat2("Validate target directory ", dir);
        let step = planned_step(step_num, "validate_target_dir", d.as_str(), 2, false);
        proof {
            lemma_steps_match_push(plan.steps@, defs, step, ("validate_target_dir"@, d@, 2u64, false));
            defs = defs.push(("validate_target_dir"@, d@, 2u64, false));
        }
        plan.add_step(step);
        step_num = step_num + 1;
        if o.remote_storage {
            let step = planned_step(
                step_num,
                "download_backup",
                "Download backup from remote storage",
                300,
                false,
            );
            proof {
                let def = ("download_backup"@, "Download backup from remote storage"@, 300u64, false);
                lemma_steps_match_push(plan.steps@, defs, step, def);
                defs = defs.push(def);
            }
            plan.add_step(step);
            step_num = step_num + 1;
        }
        let d = concat2("Restore backup to ", dir);
        let step = planned_step(step_num, "restore_backup", d.as_str(), 300, true);
        proof {
            lemma_steps_match_push(plan.steps@, defs, step, ("restore_backup"@, d@, 300u64, true));
            defs = defs.push(("restore_backup"@, d@, 300u64, true));
        }
        plan.add_step(step);
        step_num = step_num + 1;
        if o.target_time.is_some() {
            let step = planned_step(step_num, "execute_pitr", "Execute point-in-time recovery", 300, true);
            proof {
                let def = ("execute_pitr"@, "Execute point-in-time recovery"@, 300u64, true);
                lemma_steps_match_push(plan.steps@, defs, step, def);
                defs = defs.push(def);
            }
            plan.add_step(step);
            step_num = step_num + 1;
        }
        let step = planned_step(
            step_num,
            "configure_replica",
            "Configure PostgreSQL as replica (standby.signal, primary_conninfo)",
            5,
            false,
        );
        proof {
            let def = (
                "configure_replica"@,
                "Configure PostgreSQL as replica (standby.signal, primary_conninfo)"@,
                5u64,
                false,
            );
            lemma_steps_match_push(plan.steps@, defs, step, def);
            defs = defs.push(def);
        }
        plan.add_step(step);
        step_num = step_num + 1;
        let step = planned_step(step_num, "start_postgres", "Start PostgreSQL in recovery mode", 30, false);
        proof {
            let def = ("start_postgres"@, "Start PostgreSQL in recovery mode"@, 30u64, false);
            lemma_steps_match_push(plan.steps@, defs, step, def);
            defs = defs.push(def);
        }
        plan.add_step(step);
        step_num = step_num + 1;
        let step = planned_step(
            step_num,
            "verify_replication",
            "Verify replica is streaming from primary",
            30,
            false,
        );
        proof {
            let def = ("verify_replication"@, "Verify replica is streaming from primary"@, 30u64, false);
            lemma_steps_match_push(plan.steps@, defs, step, def);
            defs = defs.push(def);
        }
        plan.add_step(step);
        step_num = step_num + 1;
        if target_node.is_none() {
            let d = concat3("Add node ", o.target_node_id.as_str(), " to cluster configuration");
            let step = planned_step(step_num, "update_config", d.as_str(), 2, false);
            proof {
                lemma_steps_match_push(plan.steps@, defs, step, ("update_config"@, d@, 2u64, false));
                defs = defs.push(("update_config"@, d@, 2u64, false));
            }
            plan.add_step(step);
        }
        proof {
            assert(defs =~= clone_step_defs(
                o.source_node_id@,
                o.target_node_id@,
                o.target_dir@,
                opt_text(o.backup_id),
                o.remote_storage,
                o.target_time is Some,
                lookup_node(self.config.nodes@, o.target_node_id@) is Some,
            ));
        }
        let w = concat2("A new replica will be created at ", dir);
        plan.add_warning(w.as_str());
        if o.target_time.is_some() {
            plan.add_warning("PITR will be performed - replica will be at specified point in time");
        }
        plan.add_warning("Ensure sufficient disk space for the backup restore");
        proof {
            assert(texts(plan.warnings@) =~= clone_warnings(o.target_dir@, o.target_time is Some));
            lemma_clone_registers_new_node(*self, plan);
        }
        Ok(plan)
    }
}

} // verus!
