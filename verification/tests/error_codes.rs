use postgres::error_codes::{
    categorize_error, categorize_message, format_error_text, CliError, ExitCode,
};

#[test]
fn test_exit_codes_are_unique() {
    let codes = [
        ExitCode::Success,
        ExitCode::UsageError,
        ExitCode::ConfigError,
        ExitCode::EnvironmentError,
        ExitCode::RemoteServiceError,
        ExitCode::InternalError,
    ];

    for (i, code1) in codes.iter().enumerate() {
        for (j, code2) in codes.iter().enumerate() {
            if i != j {
                assert_ne!(code1.code(), code2.code());
            }
        }
    }
}

#[test]
fn test_categorize_usage_error() {
    let error = anyhow::Error::msg("Invalid argument: --foo is not recognized");
    assert_eq!(categorize_error(&error), ExitCode::UsageError);
}

#[test]
fn test_categorize_config_error() {
    let error = anyhow::Error::msg("Configuration file not found");
    assert_eq!(categorize_error(&error), ExitCode::ConfigError);
}

#[test]
fn test_categorize_environment_error() {
    let error = anyhow::Error::msg("SSH tunnel connection refused");
    assert_eq!(categorize_error(&error), ExitCode::EnvironmentError);
}

#[test]
fn test_categorize_remote_service_error() {
    let error = anyhow::Error::msg("S3 bucket not found");
    assert_eq!(categorize_error(&error), ExitCode::RemoteServiceError);
}

#[test]
fn test_categorize_internal_error() {
    let error = anyhow::Error::msg("Unexpected state in backup manager");
    assert_eq!(categorize_error(&error), ExitCode::InternalError);
}

#[test]
fn test_cli_error_constructors() {
    let usage = CliError::usage("Bad argument");
    assert_eq!(usage.exit_code, ExitCode::UsageError);

    let config = CliError::config("Invalid config");
    assert_eq!(config.exit_code, ExitCode::ConfigError);

    let env = CliError::environment("Network error");
    assert_eq!(env.exit_code, ExitCode::EnvironmentError);

    let remote = CliError::remote_service("S3 error");
    assert_eq!(remote.exit_code, ExitCode::RemoteServiceError);

    let internal = CliError::internal("Bug");
    assert_eq!(internal.exit_code, ExitCode::InternalError);
}

#[test]
fn exit_code_numbers_and_texts() {
    assert_eq!(ExitCode::Success.code(), 0);
    assert_eq!(ExitCode::InternalError.code(), 5);
    assert_eq!(
        format_error_text("disk full", ExitCode::EnvironmentError),
        "Error: Environment error (exit code: 3)\n\nDetails: disk full"
    );
    assert_eq!(categorize_message(""), ExitCode::InternalError);
}

#[test]
fn cli_error_text_shows_message_and_source() {
    let e = CliError::usage("Bad argument").with_source(anyhow::Error::msg("io failed"));
    assert_eq!(e.message, "Bad argument");
    assert_eq!(e.exit_code, ExitCode::UsageError);
    assert_eq!(e.text(), "Bad argument: io failed");
    assert_eq!(CliError::config("Missing key").text(), "Missing key");
    let f = CliError::from_error(anyhow::Error::msg("SSH host unreachable"));
    assert_eq!(f.message, "SSH host unreachable");
    assert_eq!(f.exit_code, ExitCode::EnvironmentError);
    assert_eq!(f.text(), "SSH host unreachable: SSH host unreachable");
}
