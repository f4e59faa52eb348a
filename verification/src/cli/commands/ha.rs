//! The decisions of the HA commands: the target time they are given, when
//! they ask for confirmation, and what they report on failure.

use vstd::prelude::*;
use crate::text::{chars_of, concat3, trim_chars, trim_seq};
use crate::timestamps::{parse_rfc3339_millis, rfc3339_parse};

verus! {

/// What an HA command does once its plan is shown.
#[derive(Debug, Clone, Copy, PartialEq, Eq, Structural)]
pub enum HaCommandStep {
    /// A dry run (asked for, or made by the plan): report that nothing changed.
    DryRun,
    /// Ask the user to confirm first.
    Confirm,
    /// Execute the plan.
    Execute,
}

/// The error of a target time that is not RFC 3339.
pub open spec fn target_time_error(parse_error: Seq<char>) -> Seq<char> {
    "Invalid target time format: "@ + parse_error + ". Use RFC3339 format (e.g., 2025-01-15T10:30:00Z)"@
}

/// The target time given what parsing its text gave: the instant, or the
/// error naming the expected format.
pub fn target_time_from(parsed: Result<i64, String>) -> (r: Result<Option<i64>, String>)
    ensures
        match parsed {
            Ok(t) => r == Ok::<Option<i64>, String>(Some(t)),
            Err(e) => r matches Err(m) && m@ == target_time_error(e@),
        },
{
    match parsed {
        Ok(t) => Ok(Some(t)),
        Err(e) => Err(concat3(
            "Invalid target time format: ",
            e.as_str(),
            ". Use RFC3339 format (e.g., 2025-01-15T10:30:00Z)",
        )),
    }
}

/// Reads the optional `--target-time` of a failover or a clone (RFC 3339),
/// as milliseconds since the Unix epoch.
pub fn parse_target_time(target_time: Option<&str>) -> (r: Result<Option<i64>, String>)
    ensures
        match target_time {
            None => r == Ok::<Option<i64>, String>(None),
            Some(s) => match rfc3339_parse(s@) {
                Ok(t) => r == Ok::<Option<i64>, String>(Some(t)),
                Err(e) => r matches Err(m) && m@ == target_time_error(e),
            },
        },
{
    match target_time {
        None => Ok(None),
        Some(s) => target_time_from(parse_rfc3339_millis(s)),
    }
}

/// Decides what follows the plan: nothing changes in a dry run; a plan that
/// needs confirmation asks for it unless `--yes` was given.
pub fn ha_command_step(dry_run: bool, plan_dry_run: bool, yes: bool, needs_confirmation: bool) -> (r: HaCommandStep)
    ensures
        r == if dry_run || plan_dry_run {
            HaCommandStep::DryRun
        } else if !yes && needs_confirmation {
            HaCommandStep::Confirm
        } else {
            HaCommandStep::Execute
        },
{
    if dry_run || plan_dry_run {
        HaCommandStep::DryRun
    } else if !yes && needs_confirmation {
        HaCommandStep::Confirm
    } else {
        HaCommandStep::Execute
    }
}

/// The answer to `[y/N]` goes ahead: trimmed, it is `y` in either case.
pub fn ha_confirmed(input: &str) -> (r: bool)
    ensures
        r == (trim_seq(input@) == seq!['y'] || trim_seq(input@) == seq!['Y']),
{
    let v = chars_of(input);
    let t = trim_chars(&v);
    let r = t.len() == 1 && (t[0] == 'y' || t[0] == 'Y');
    proof {
        if t@.len() == 1 {
            assert(t@ == seq![t@[0]]);
        }
    }
    r
}

/// The error of an HA operation that ran and failed: the operation's name
/// (`Switchover`, `Failover`, `Clone operation`) and the result's message.
pub fn ha_failure_message(operation: &str, message: &str) -> (r: String)
    ensures
        r@ == operation@ + " failed: "@ + message@,
{
    concat3(operation, " failed: ", message)
}

} // verus!
