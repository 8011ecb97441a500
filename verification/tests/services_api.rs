//! The service-level enums and their wire names.

use zerg_operator::api::ApiError;
use zerg_operator::services::{Environment, LogLevel, OutputFormat};

#[test]
fn log_level_names_round_trip() {
    for level in [LogLevel::Trace, LogLevel::Debug, LogLevel::Info, LogLevel::Warn,
        LogLevel::Error] {
        assert_eq!(LogLevel::from_name(level.as_str()), Some(level));
    }
    assert_eq!(LogLevel::Info.as_str(), "info");
    assert_eq!(LogLevel::from_name("verbose"), None);
}

#[test]
fn output_format_names_round_trip() {
    for format in [OutputFormat::Json, OutputFormat::Yaml, OutputFormat::Toml,
        OutputFormat::PrettyJson, OutputFormat::CommaSeparated] {
        assert_eq!(OutputFormat::from_name(format.as_str()), Some(format));
    }
    assert_eq!(OutputFormat::CommaSeparated.as_str(), "csv");
    assert_eq!(OutputFormat::from_name("xml"), None);
}

#[test]
fn environment_names_round_trip() {
    for env in [Environment::Development, Environment::Staging, Environment::Production,
        Environment::DevelopmentShort, Environment::ProductionShort] {
        assert_eq!(Environment::from_name(env.as_str()), Some(env));
    }
    assert_eq!(Environment::Staging.as_str(), "local");
    assert_eq!(Environment::Production.as_str(), "dev");
    assert_eq!(Environment::from_name("qa"), None);
}

#[test]
fn api_error_wire_names() {
    assert_eq!(ApiError::UserNotFound.as_str(), "user_not_found");
    assert_eq!(ApiError::InvalidCredentials.as_str(), "invalid_credentials");
    assert_eq!(ApiError::InsufficientPermissions.as_str(), "insufficient_permissions");
    assert_eq!(ApiError::ValidationFailed.as_str(), "validation_failed");
    assert_eq!(ApiError::InternalServerError.as_str(), "internal_server_error");
}
