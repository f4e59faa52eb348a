//! Failure simulators for PostgreSQL and disks, and the commands that the
//! simulators run against the host.

use vstd::prelude::*;
use crate::sys::io_error_text;
use crate::text::{
    concat2, decimal, decimal_i64, decimal_u64, first_line, first_line_of, join_path, owned,
    parse_i32, parse_i32_text, path_join, push_str, signed_decimal, texts,
};

verus! {

/// Errors from chaos simulators.
#[derive(Debug)]
pub enum SimulatorError {
    /// An I/O operation failed.
    Io(std::io::Error),
    /// An external command failed; the text says how.
    CommandFailed(String),
    /// A wait ran out of time.
    Timeout(String),
    /// The simulation itself could not be carried out.
    Simulation(String),
}

impl SimulatorError {
    /// The message of the error, for the variants that carry their text.
    pub open spec fn spec_message(&self) -> Seq<char> {
        match self {
            SimulatorError::Io(_) => "IO error: "@,
            SimulatorError::CommandFailed(m) => "Command failed: "@ + m@,
            SimulatorError::Timeout(m) => "Timeout: "@ + m@,
            SimulatorError::Simulation(m) => "Simulation error: "@ + m@,
        }
    }

    /// The text of the error. For an I/O error it is `IO error: ` followed
    /// by the error's own text.
    pub fn message(&self) -> (r: String)
        ensures
            !(self is Io) ==> r@ == self.spec_message(),
            self is Io ==> r@.len() >= 10 && r@.take(10) == self.spec_message(),
    {
        match self {
            SimulatorError::Io(e) => {
                let t = io_error_text(e);
                let r = concat2("IO error: ", t.as_str());
                proof {
                    reveal_strlit("IO error: ");
                    assert(r@.take(10) =~= "IO error: "@);
                }
                r
            },
            SimulatorError::CommandFailed(m) => concat2("Command failed: ", m.as_str()),
            SimulatorError::Timeout(m) => concat2("Timeout: ", m.as_str()),
            SimulatorError::Simulation(m) => concat2("Simulation error: ", m.as_str()),
        }
    }
}

/// PostgreSQL failure simulator.
#[derive(Debug, Clone)]
pub struct PostgresSimulator {
    /// Data directory for the PostgreSQL instance.
    pub data_dir: Option<String>,
    /// Host for the PostgreSQL instance.
    pub host: String,
    /// Port for the PostgreSQL instance.
    pub port: u16,
}

impl Default for PostgresSimulator {
    fn default() -> (r: Self)
        ensures
            r.data_dir is None,
            r.host@ == "localhost"@,
            r.port == 5432,
    {
        PostgresSimulator { data_dir: None, host: owned("localhost"), port: 5432 }
    }
}

/// What simulating a crash of the server comes down to.
#[derive(Debug)]
pub enum CrashAction {
    /// Kill the postmaster: run `kill` with these arguments.
    Kill { pid: i32, args: Vec<String> },
    /// Stop the server at once: run `pg_ctl` with these arguments.
    StopServer { args: Vec<String> },
    /// Nothing is known of the server's files; there is nothing to do.
    Nothing,
}

/// What a wait for PostgreSQL to come up or go down does next.
#[derive(Debug, Clone, Copy, PartialEq, Eq, Structural)]
pub enum WaitStep {
    /// The server reached the awaited state.
    Done,
    /// Not yet: sleep and probe again.
    Retry,
    /// The time allowed ran out first.
    TimedOut,
}

impl PostgresSimulator {
    /// Create a new PostgreSQL simulator.
    pub fn new(host: &str, port: u16) -> (r: Self)
        ensures
            r.data_dir is None,
            r.host@ == host@,
            r.port == port,
    {
        PostgresSimulator { data_dir: None, host: owned(host), port }
    }

    /// Set the data directory.
    pub fn with_data_dir(self, data_dir: &str) -> (r: Self)
        ensures
            r.data_dir matches Some(d) && d@ == data_dir@,
            r.host == self.host,
            r.port == self.port,
    {
        PostgresSimulator { data_dir: Some(owned(data_dir)), ..self }
    }

    /// The path of the postmaster's PID file, when the data directory is known.
    pub fn postmaster_pid_path(&self) -> (r: Option<String>)
        ensures
            match self.data_dir {
                Some(d) => r matches Some(p) && p@ == path_join(d@, "postmaster.pid"@),
                None => r is None,
            },
    {
        match &self.data_dir {
            Some(d) => Some(join_path(d.as_str(), "postmaster.pid")),
            None => None,
        }
    }

    /// The arguments of `pg_isready` that probe this server.
    pub fn pg_isready_args(&self) -> (r: Vec<String>)
        ensures
            texts(r@) == seq!["-h"@, self.host@, "-p"@, decimal(self.port as nat)],
    {
        let mut r: Vec<String> = Vec::new();
        r.push(owned("-h"));
        r.push(self.host.clone());
        r.push(owned("-p"));
        r.push(decimal_u64(self.port as u64));
        proof {
            assert(texts(r@) =~= seq!["-h"@, self.host@, "-p"@, decimal(self.port as nat)]);
        }
        r
    }

    /// Decides how to crash the server. `pid_file` is the content of the
    /// postmaster's PID file when that file exists. With a known data
    /// directory, the postmaster whose PID starts the file is killed; an
    /// unreadable PID is an error; without a PID file the server is stopped
    /// in immediate mode.
    pub fn crash_action(&self, pid_file: Option<&str>) -> (r: Result<CrashAction, SimulatorError>)
        ensures
            self.data_dir is None ==> r matches Ok(CrashAction::Nothing),
            self.data_dir matches Some(d) ==> match pid_file {
                Some(c) => match first_line(c@) {
                    Some(l) => match parse_i32(l) {
                        Some(pid) => r matches Ok(CrashAction::Kill { pid: p, args }) && p == pid
                            && texts(args@) == seq!["-9"@, signed_decimal(pid as int)],
                        None => r matches Err(SimulatorError::Simulation(m))
                            && m@ == "Could not parse PID from postmaster.pid"@,
                    },
                    None => r matches Err(SimulatorError::Simulation(m))
                        && m@ == "Could not parse PID from postmaster.pid"@,
                },
                None => r matches Ok(CrashAction::StopServer { args }) && texts(args@) == seq![
                    "stop"@,
                    "-D"@,
                    d@,
                    "-m"@,
                    "immediate"@,
                ],
            },
    {
        match &self.data_dir {
            None => Ok(CrashAction::Nothing),
            Some(d) => match pid_file {
                Some(content) => {
                    let pid = match first_line_of(content) {
                        Some(line) => parse_i32_text(line.as_str()),
                        None => None,
                    };
                    match pid {
                        Some(pid) => {
                            let mut args: Vec<String> = Vec::new();
                            args.push(owned("-9"));
                            args.push(decimal_i64(pid as i64));
                            proof {
                                assert(texts(args@) =~= seq!["-9"@, signed_decimal(pid as int)]);
                            }
                            Ok(CrashAction::Kill { pid, args })
                        },
                        None => Err(
                            SimulatorError::Simulation(
                                owned("Could not parse PID from postmaster.pid"),
                            ),
                        ),
                    }
                },
                None => {
                    let mut args: Vec<String> = Vec::new();
                    args.push(owned("stop"));
                    args.push(owned("-D"));
                    args.push(d.clone());
                    args.push(owned("-m"));
                    args.push(owned("immediate"));
                    proof {
                        assert(texts(args@) =~= seq![
                            "stop"@,
                            "-D"@,
                            d@,
                            "-m"@,
                            "immediate"@,
                        ]);
                    }
                    Ok(CrashAction::StopServer { args })
                },
            },
        }
    }

    /// The error when `kill` did not succeed on `pid`.
    pub fn kill_failed(pid: i32) -> (r: SimulatorError)
        ensures
            r matches SimulatorError::Simulation(m) && m@ == "Failed to kill process "@
                + signed_decimal(pid as int),
    {
        let d = decimal_i64(pid as i64);
        SimulatorError::Simulation(concat2("Failed to kill process ", d.as_str()))
    }

    /// The error when `pg_ctl stop` did not succeed; `stderr` is its output.
    pub fn stop_failed(stderr: &str) -> (r: SimulatorError)
        ensures
            r matches SimulatorError::CommandFailed(m) && m@ == "pg_ctl stop failed: "@ + stderr@,
    {
        SimulatorError::CommandFailed(concat2("pg_ctl stop failed: ", stderr))
    }

    /// One round of waiting for the server to become available
    /// (`want_available`) or unavailable: the time allowed is checked before
    /// the probe's answer `accepting`.
    pub fn wait_step(want_available: bool, accepting: bool, elapsed_ms: u64, timeout_ms: u64) -> (r:
        WaitStep)
        ensures
            elapsed_ms >= timeout_ms ==> r == WaitStep::TimedOut,
            elapsed_ms < timeout_ms && accepting == want_available ==> r == WaitStep::Done,
            elapsed_ms < timeout_ms && accepting != want_available ==> r == WaitStep::Retry,
    {
        if elapsed_ms >= timeout_ms {
            WaitStep::TimedOut
        } else if accepting == want_available {
            WaitStep::Done
        } else {
            WaitStep::Retry
        }
    }

    /// The error of a wait that ran out of time.
    pub fn wait_timed_out(want_available: bool) -> (r: SimulatorError)
        ensures
            r matches SimulatorError::Timeout(m) && m@ == (if want_available {
                "PostgreSQL did not become available"@
            } else {
                "PostgreSQL did not become unavailable"@
            }),
    {
        if want_available {
            SimulatorError::Timeout(owned("PostgreSQL did not become available"))
        } else {
            SimulatorError::Timeout(owned("PostgreSQL did not become unavailable"))
        }
    }

    /// Starts blocking connections to this server's port.
    pub fn connection_block(&self) -> (r: ConnectionBlockGuard)
        ensures
            r.spec_port() == self.port,
    {
        ConnectionBlockGuard { port: self.port }
    }
}

/// The `iptables` arguments that add (`add`) or delete the rule dropping TCP
/// connections to `port`.
pub open spec fn iptables_rule(add: bool, port: u16) -> Seq<Seq<char>> {
    seq![
        "iptables"@,
        if add {
            "-A"@
        } else {
            "-D"@
        },
        "INPUT"@,
        "-p"@,
        "tcp"@,
        "--dport"@,
        decimal(port as nat),
        "-j"@,
        "DROP"@,
    ]
}

/// A block of connections to a port; the rule is removed when the block ends.
#[derive(Debug)]
pub struct ConnectionBlockGuard {
    port: u16,
}

impl ConnectionBlockGuard {
    /// The blocked port.
    pub closed spec fn spec_port(&self) -> u16 {
        self.port
    }

    /// The blocked port.
    pub fn port(&self) -> (r: u16)
        ensures
            r == self.spec_port(),
    {
        self.port
    }

    /// The `iptables` arguments (run under `sudo`) that add the rule when
    /// `add` holds, and delete it otherwise.
    pub fn iptables_args(&self, add: bool) -> (r: Vec<String>)
        ensures
            texts(r@) == iptables_rule(add, self.spec_port()),
    {
        let mut r: Vec<String> = Vec::new();
        r.push(owned("iptables"));
        r.push(
            if add {
                owned("-A")
            } else {
                owned("-D")
            },
        );
        r.push(owned("INPUT"));
        r.push(owned("-p"));
        r.push(owned("tcp"));
        r.push(owned("--dport"));
        r.push(decimal_u64(self.port as u64));
        r.push(owned("-j"));
        r.push(owned("DROP"));
        proof {
            assert(texts(r@) =~= iptables_rule(add, self.port));
        }
        r
    }
}

/// Network conditions applied to an interface; they are removed when the
/// guard ends.
#[derive(Debug)]
pub struct NetworkConditionGuard {
    interface: String,
}

impl NetworkConditionGuard {
    /// The interface the conditions apply to.
    pub closed spec fn spec_interface(&self) -> Seq<char> {
        self.interface@
    }

    /// Conditions applied to `interface`.
    pub fn new(interface: &str) -> (r: Self)
        ensures
            r.spec_interface() == interface@,
    {
        NetworkConditionGuard { interface: owned(interface) }
    }

    /// The `tc` arguments (run under `sudo`) that remove the conditions.
    pub fn removal_args(&self) -> (r: Vec<String>)
        ensures
            texts(r@) == seq!["tc"@, "qdisc"@, "del"@, "dev"@, self.spec_interface(), "root"@],
    {
        let mut r: Vec<String> = Vec::new();
        r.push(owned("tc"));
        r.push(owned("qdisc"));
        r.push(owned("del"));
        r.push(owned("dev"));
        r.push(self.interface.clone());
        r.push(owned("root"));
        proof {
            assert(texts(r@) =~= seq![
                "tc"@,
                "qdisc"@,
                "del"@,
                "dev"@,
                self.interface@,
                "root"@,
            ]);
        }
        r
    }
}

/// Why a simulated write fails.
#[derive(Debug, Clone, Copy, PartialEq, Eq, Structural)]
pub enum DiskWriteFailure {
    /// Writing is not permitted.
    PermissionDenied,
    /// The filesystem is read-only.
    ReadOnly,
    /// There is not enough space left.
    DiskFull,
}

impl DiskWriteFailure {
    /// The message of the simulated I/O error.
    pub open spec fn spec_message(self) -> Seq<char> {
        match self {
            DiskWriteFailure::PermissionDenied => "Simulated permission denied"@,
            DiskWriteFailure::ReadOnly => "Simulated read-only filesystem"@,
            DiskWriteFailure::DiskFull => "Simulated disk full (no space left on device)"@,
        }
    }

    /// The message of the simulated I/O error.
    pub fn message(self) -> (r: String)
        ensures
            r@ == self.spec_message(),
    {
        match self {
            DiskWriteFailure::PermissionDenied => owned("Simulated permission denied"),
            DiskWriteFailure::ReadOnly => owned("Simulated read-only filesystem"),
            DiskWriteFailure::DiskFull => owned("Simulated disk full (no space left on device)"),
        }
    }

    /// The kind of the I/O error is `PermissionDenied` (otherwise `Other`).
    pub open spec fn is_permission_error(self) -> bool {
        self != DiskWriteFailure::DiskFull
    }

    /// The kind of the I/O error the failure stands for: `Other` for a full
    /// disk, `PermissionDenied` otherwise.
    pub open spec fn spec_kind(self) -> WriteErrorKind {
        if self.is_permission_error() {
            WriteErrorKind::PermissionDenied
        } else {
            WriteErrorKind::Other
        }
    }

    /// The kind of the I/O error the failure stands for.
    pub fn kind(self) -> (r: WriteErrorKind)
        ensures
            r == self.spec_kind(),
    {
        match self {
            DiskWriteFailure::DiskFull => WriteErrorKind::Other,
            _ => WriteErrorKind::PermissionDenied,
        }
    }
}

/// The kind of a simulated write error, as `std::io::ErrorKind` names it.
#[derive(Debug, Clone, Copy, PartialEq, Eq, Structural)]
pub enum WriteErrorKind {
    PermissionDenied,
    Other,
}

/// Disk failure simulator.
#[derive(Debug, Clone)]
pub struct DiskSimulator {
    /// Target directory for disk operations.
    pub target_dir: String,
    /// Simulated available space in bytes.
    pub available_space: Option<u64>,
    /// Whether to simulate permission errors.
    pub permission_denied: bool,
    /// Whether to simulate read-only filesystem.
    pub read_only: bool,
}

/// A tmpfs mounted to simulate a small disk; it is unmounted when the guard
/// ends.
#[derive(Debug)]
pub struct TmpfsGuard {
    mount_point: String,
}

impl TmpfsGuard {
    /// The mount point.
    pub closed spec fn spec_mount_point(&self) -> Seq<char> {
        self.mount_point@
    }

    /// The `umount` arguments (run under `sudo`) that remove the mount.
    pub fn unmount_args(&self) -> (r: Vec<String>)
        ensures
            texts(r@) == seq!["umount"@, self.spec_mount_point()],
    {
        let mut r: Vec<String> = Vec::new();
        r.push(owned("umount"));
        r.push(self.mount_point.clone());
        proof {
            assert(texts(r@) =~= seq!["umount"@, self.mount_point@]);
        }
        r
    }
}

impl DiskSimulator {
    /// Create a new disk simulator.
    pub fn new(target_dir: &str) -> (r: Self)
        ensures
            r.target_dir@ == target_dir@,
            r.available_space is None,
            !r.permission_denied,
            !r.read_only,
    {
        DiskSimulator {
            target_dir: owned(target_dir),
            available_space: None,
            permission_denied: false,
            read_only: false,
        }
    }

    /// Set simulated available space.
    pub fn with_available_space(self, bytes: u64) -> (r: Self)
        ensures
            r == (DiskSimulator { available_space: Some(bytes), ..self }),
    {
        DiskSimulator { available_space: Some(bytes), ..self }
    }

    /// Set permission denied simulation.
    pub fn with_permission_denied(self, denied: bool) -> (r: Self)
        ensures
            r == (DiskSimulator { permission_denied: denied, ..self }),
    {
        DiskSimulator { permission_denied: denied, ..self }
    }

    /// Set read-only simulation.
    pub fn with_read_only(self, read_only: bool) -> (r: Self)
        ensures
            r == (DiskSimulator { read_only: read_only, ..self }),
    {
        DiskSimulator { read_only, ..self }
    }

    /// Why writing `bytes` fails, if it does: a denied permission comes
    /// first, then a read-only filesystem, then a lack of space.
    pub open spec fn spec_write_failure(&self, bytes: u64) -> Option<DiskWriteFailure> {
        if self.permission_denied {
            Some(DiskWriteFailure::PermissionDenied)
        } else if self.read_only {
            Some(DiskWriteFailure::ReadOnly)
        } else if self.available_space matches Some(a) && bytes > a {
            Some(DiskWriteFailure::DiskFull)
        } else {
            None
        }
    }

    /// Check if a write operation should fail due to simulated conditions:
    /// why writing `bytes` fails, if it does. The I/O error the failure
    /// stands for has the failure's message and kind (`kind`).
    pub fn should_fail_write(&self, bytes_to_write: u64) -> (r: Option<DiskWriteFailure>)
        ensures
            r == self.spec_write_failure(bytes_to_write),
    {
        if self.permission_denied {
            Some(DiskWriteFailure::PermissionDenied)
        } else if self.read_only {
            Some(DiskWriteFailure::ReadOnly)
        } else {
            match self.available_space {
                Some(a) => if bytes_to_write > a {
                    Some(DiskWriteFailure::DiskFull)
                } else {
                    None
                },
                None => None,
            }
        }
    }

    /// The `mount` arguments (run under `sudo`) that mount a tmpfs of
    /// `size_mb` megabytes on the target directory.
    pub fn tmpfs_mount_args(&self, size_mb: u64) -> (r: Vec<String>)
        ensures
            texts(r@) == seq![
                "mount"@,
                "-t"@,
                "tmpfs"@,
                "-o"@,
                "size="@ + decimal(size_mb as nat) + "m"@,
                "tmpfs"@,
                self.target_dir@,
            ],
    {
        let mut size = owned("size=");
        let d = decimal_u64(size_mb);
        push_str(&mut size, d.as_str());
        push_str(&mut size, "m");
        let mut r: Vec<String> = Vec::new();
        r.push(owned("mount"));
        r.push(owned("-t"));
        r.push(owned("tmpfs"));
        r.push(owned("-o"));
        r.push(size);
        r.push(owned("tmpfs"));
        r.push(self.target_dir.clone());
        proof {
            assert(texts(r@) =~= seq![
                "mount"@,
                "-t"@,
                "tmpfs"@,
                "-o"@,
                "size="@ + decimal(size_mb as nat) + "m"@,
                "tmpfs"@,
                self.target_dir@,
            ]);
        }
        r
    }

    /// The guard of a tmpfs mounted on the target directory.
    pub fn tmpfs_guard(&self) -> (r: TmpfsGuard)
        ensures
            r.spec_mount_point() == self.target_dir@,
    {
        TmpfsGuard { mount_point: self.target_dir.clone() }
    }

    /// The file that fills the disk.
    pub fn fill_file_path(&self) -> (r: String)
        ensures
            r@ == path_join(self.target_dir@, ".chaos_fill_file"@),
    {
        join_path(self.target_dir.as_str(), ".chaos_fill_file")
    }
}

} // verus!
