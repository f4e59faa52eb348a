//! Exit codes of the command-line tool and the rules that map an error to one.

use vstd::prelude::*;
use crate::text::{chars_of, contains_seq, contains_str, decimal, decimal_u64, lowercase, owned, push_str, to_lowercase};

verus! {

/// `anyhow::Error`, carried through the library opaquely.
#[verifier::external_type_specification]
#[verifier::external_body]
pub struct ExAnyhowError(anyhow::Error);

/// Exit codes of the command-line tool.
#[derive(Debug, Clone, Copy, PartialEq, Eq, Structural)]
pub enum ExitCode {
    /// Success - operation completed successfully
    Success,
    /// Usage error - bad flags, missing arguments, invalid syntax
    UsageError,
    /// Configuration error - invalid config file, missing required config
    ConfigError,
    /// Environment error - network issues, missing tools, disk full
    EnvironmentError,
    /// Remote service error - S3 failures, C2 connection issues
    RemoteServiceError,
    /// Internal error - unexpected bug, assertion failure
    InternalError,
}

impl ExitCode {
    /// The process exit status of each code.
    pub open spec fn spec_code(self) -> i32 {
        match self {
            ExitCode::Success => 0,
            ExitCode::UsageError => 1,
            ExitCode::ConfigError => 2,
            ExitCode::EnvironmentError => 3,
            ExitCode::RemoteServiceError => 4,
            ExitCode::InternalError => 5,
        }
    }

    /// The human-readable name of each code.
    pub open spec fn spec_label(self) -> Seq<char> {
        match self {
            ExitCode::Success => "Success"@,
            ExitCode::UsageError => "Usage error"@,
            ExitCode::ConfigError => "Configuration error"@,
            ExitCode::EnvironmentError => "Environment error"@,
            ExitCode::RemoteServiceError => "Remote service error"@,
            ExitCode::InternalError => "Internal error"@,
        }
    }

    /// Convert to i32 for use with `std::process::exit`.
    pub fn code(self) -> (r: i32)
        ensures
            r == self.spec_code(),
    {
        match self {
            ExitCode::Success => 0,
            ExitCode::UsageError => 1,
            ExitCode::ConfigError => 2,
            ExitCode::EnvironmentError => 3,
            ExitCode::RemoteServiceError => 4,
            ExitCode::InternalError => 5,
        }
    }

    /// The human-readable name of the code, as the tool prints it.
    pub fn label(self) -> (r: String)
        ensures
            r@ == self.spec_label(),
    {
        match self {
            ExitCode::Success => owned("Success"),
            ExitCode::UsageError => owned("Usage error"),
            ExitCode::ConfigError => owned("Configuration error"),
            ExitCode::EnvironmentError => owned("Environment error"),
            ExitCode::RemoteServiceError => owned("Remote service error"),
            ExitCode::InternalError => owned("Internal error"),
        }
    }
}

/// Distinct exit codes have distinct process exit statuses.
pub proof fn lemma_exit_codes_distinct(a: ExitCode, b: ExitCode)
    ensures
        a.spec_code() == b.spec_code() <==> a == b,
{
}

/// Every exit status lies between 0 and 5, and 0 means success.
pub proof fn lemma_exit_code_range(a: ExitCode)
    ensures
        0 <= a.spec_code() <= 5,
        a.spec_code() == 0 <==> a == ExitCode::Success,
{
}

/// The lower-cased message speaks of a usage problem.
pub open spec fn mentions_usage(s: Seq<char>) -> bool {
    contains_seq(s, "usage"@) || contains_seq(s, "invalid argument"@) || contains_seq(
        s,
        "missing required argument"@,
    ) || contains_seq(s, "unrecognized option"@) || contains_seq(s, "unrecognized argument"@)
}

/// The lower-cased message speaks of a configuration problem.
pub open spec fn mentions_config(s: Seq<char>) -> bool {
    contains_seq(s, "config"@) || contains_seq(s, "configuration"@) || contains_seq(
        s,
        "policy file"@,
    ) || contains_seq(s, "invalid format"@)
}

/// The lower-cased message speaks of a problem with the local environment.
pub open spec fn mentions_environment(s: Seq<char>) -> bool {
    contains_seq(s, "network"@) || contains_seq(s, "connection refused"@) || contains_seq(
        s,
        "timeout"@,
    ) || contains_seq(s, "disk full"@) || contains_seq(s, "no space"@) || contains_seq(
        s,
        "permission denied"@,
    ) || contains_seq(s, "pg_dump"@) || contains_seq(s, "pg_restore"@) || contains_seq(
        s,
        "pg_basebackup"@,
    ) || contains_seq(s, "ssh"@) || contains_seq(s, "tunnel"@)
}

/// The lower-cased message speaks of a problem with a remote service.
pub open spec fn mentions_remote(s: Seq<char>) -> bool {
    contains_seq(s, "s3"@) || contains_seq(s, "minio"@) || contains_seq(s, "bucket"@)
        || contains_seq(s, "access denied"@) || contains_seq(s, "not found"@) || contains_seq(
        s,
        "upload failed"@,
    ) || contains_seq(s, "download failed"@) || contains_seq(s, "storage"@)
}

/// The exit code for an error whose lower-cased message is `lower`: the
/// first matching category in the order usage, configuration, environment,
/// remote service; internal error when none matches.
pub open spec fn category_of(lower: Seq<char>) -> ExitCode {
    if mentions_usage(lower) {
        ExitCode::UsageError
    } else if mentions_config(lower) {
        ExitCode::ConfigError
    } else if mentions_environment(lower) {
        ExitCode::EnvironmentError
    } else if mentions_remote(lower) {
        ExitCode::RemoteServiceError
    } else {
        ExitCode::InternalError
    }
}

/// An error is never categorized as success.
pub proof fn lemma_category_never_success(lower: Seq<char>)
    ensures
        category_of(lower) != ExitCode::Success,
        category_of(lower).spec_code() != 0,
{
}

/// The exit code for an already lower-cased message.
pub fn categorize_lowercase(lower: &Vec<char>) -> (r: ExitCode)
    ensures
        r == category_of(lower@),
{
    if contains_str(lower, "usage") || contains_str(lower, "invalid argument") || contains_str(
        lower,
        "missing required argument",
    ) || contains_str(lower, "unrecognized option") || contains_str(lower, "unrecognized argument") {
        return ExitCode::UsageError;
    }
    if contains_str(lower, "config") || contains_str(lower, "configuration") || contains_str(
        lower,
        "policy file",
    ) || contains_str(lower, "invalid format") {
        return ExitCode::ConfigError;
    }
    if contains_str(lower, "network") || contains_str(lower, "connection refused")
        || contains_str(lower, "timeout") || contains_str(lower, "disk full") || contains_str(
        lower,
        "no space",
    ) || contains_str(lower, "permission denied") || contains_str(lower, "pg_dump")
        || contains_str(lower, "pg_restore") || contains_str(lower, "pg_basebackup")
        || contains_str(lower, "ssh") || contains_str(lower, "tunnel") {
        return ExitCode::EnvironmentError;
    }
    if contains_str(lower, "s3") || contains_str(lower, "minio") || contains_str(lower, "bucket")
        || contains_str(lower, "access denied") || contains_str(lower, "not found")
        || contains_str(lower, "upload failed") || contains_str(lower, "download failed")
        || contains_str(lower, "storage") {
        return ExitCode::RemoteServiceError;
    }
    ExitCode::InternalError
}

/// The exit code for an error with the given message: the message is
/// lower-cased and matched against the categories of `category_of`.
pub fn categorize_message(message: &str) -> (r: ExitCode)
    ensures
        r == category_of(lowercase(message@)),
{
    let lower = to_lowercase(message);
    let v = chars_of(lower.as_str());
    categorize_lowercase(&v)
}

/// `anyhow::Error`'s `Display` (`to_string`): the text of the error's
/// outermost message. An error that wraps an operating-system error shows
/// the platform's description of it, so nothing is stated of the text.
#[verifier::external_body]
fn error_text(error: &anyhow::Error) -> String {
    error.to_string()
}

/// Categorize an error and return the appropriate exit code: the category
/// (`categorize_message`) of the error's text, which is never success.
pub fn categorize_error(error: &anyhow::Error) -> (r: ExitCode)
    ensures
        exists|text: Seq<char>| r == category_of(lowercase(text)),
        r != ExitCode::Success,
{
    let text = error_text(error);
    let r = categorize_message(text.as_str());
    proof {
        lemma_category_never_success(lowercase(text@));
    }
    r
}

/// The text the tool prints for an error with message `details` and exit code `code`.
pub open spec fn error_message_text(details: Seq<char>, code: ExitCode) -> Seq<char> {
    "Error: "@ + code.spec_label() + " (exit code: "@ + decimal(code.spec_code() as nat)
        + ")\n\nDetails: "@ + details
}

/// Formats an error message with the given details for CLI output.
pub fn format_error_text(details: &str, exit_code: ExitCode) -> (r: String)
    ensures
        r@ == error_message_text(details@, exit_code),
{
    let mut out = owned("Error: ");
    let label = exit_code.label();
    push_str(&mut out, label.as_str());
    push_str(&mut out, " (exit code: ");
    let code = exit_code.code();
    let digits = decimal_u64(code as u64);
    push_str(&mut out, digits.as_str());
    push_str(&mut out, ")\n\nDetails: ");
    push_str(&mut out, details);
    out
}

/// Format an error message for CLI output, with the error's text as the
/// details (`format_error_text` on that text).
pub fn format_error_message(error: &anyhow::Error, exit_code: ExitCode) -> (r: String)
    ensures
        exists|details: Seq<char>| r@ == error_message_text(details, exit_code),
{
    let text = error_text(error);
    format_error_text(text.as_str(), exit_code)
}

/// CLI error with associated exit code.
pub struct CliError {
    pub message: String,
    pub exit_code: ExitCode,
    pub source: Option<anyhow::Error>,
}

impl CliError {
    /// A usage error with the given message.
    pub fn usage(message: &str) -> (r: Self)
        ensures
            r.message@ == message@,
            r.exit_code == ExitCode::UsageError,
            r.source.is_none(),
    {
        CliError { message: owned(message), exit_code: ExitCode::UsageError, source: None }
    }

    /// A configuration error with the given message.
    pub fn config(message: &str) -> (r: Self)
        ensures
            r.message@ == message@,
            r.exit_code == ExitCode::ConfigError,
            r.source.is_none(),
    {
        CliError { message: owned(message), exit_code: ExitCode::ConfigError, source: None }
    }

    /// An environment error with the given message.
    pub fn environment(message: &str) -> (r: Self)
        ensures
            r.message@ == message@,
            r.exit_code == ExitCode::EnvironmentError,
            r.source.is_none(),
    {
        CliError { message: owned(message), exit_code: ExitCode::EnvironmentError, source: None }
    }

    /// A remote-service error with the given message.
    pub fn remote_service(message: &str) -> (r: Self)
        ensures
            r.message@ == message@,
            r.exit_code == ExitCode::RemoteServiceError,
            r.source.is_none(),
    {
        CliError { message: owned(message), exit_code: ExitCode::RemoteServiceError, source: None }
    }

    /// An internal error with the given message.
    pub fn internal(message: &str) -> (r: Self)
        ensures
            r.message@ == message@,
            r.exit_code == ExitCode::InternalError,
            r.source.is_none(),
    {
        CliError { message: owned(message), exit_code: ExitCode::InternalError, source: None }
    }

    /// Attach the underlying error; message and exit code are kept.
    pub fn with_source(self, source: anyhow::Error) -> (r: Self)
        ensures
            r.message == self.message,
            r.exit_code == self.exit_code,
            r.source == Some(source),
    {
        CliError { message: self.message, exit_code: self.exit_code, source: Some(source) }
    }

    /// A CLI error built from an arbitrary error: its message is the error's
    /// text, its exit code the category of that text, and the error is kept
    /// as the source.
    pub fn from_error(error: anyhow::Error) -> (r: Self)
        ensures
            r.exit_code == category_of(lowercase(r.message@)),
            r.source == Some(error),
    {
        let message = error_text(&error);
        let exit_code = categorize_message(message.as_str());
        CliError { message, exit_code, source: Some(error) }
    }

    /// The text of the error as it is displayed: its message, followed by
    /// `: ` and the source's text when there is a source.
    pub fn text(&self) -> (r: String)
        ensures
            self.source is None ==> r@ == self.message@,
            self.source is Some ==> exists|source_text: Seq<char>| r@ == self.message@ + ": "@
                + source_text,
    {
        let mut out = owned(self.message.as_str());
        match &self.source {
            Some(e) => {
                push_str(&mut out, ": ");
                let t = error_text(e);
                push_str(&mut out, t.as_str());
            },
            None => {},
        }
        out
    }
}

} // verus!
