use mikupush::client::{
    ClientError, ErrorResponse, FileDeleteError, FileInfoError, FileUploadError,
    HealthCheckError, HealthCheckStatus, FILE_INFO_ERROR_NOT_EXISTS,
};
use mikupush::config::{config_value_or_default, ConfigKey, ConfigModel, ConfigurationError};
use mikupush::errors::{DbError, ParseError};
use mikupush::resources::{Resource, ResourceType};
use mikupush::status::{Status, UploadStatus};
use mikupush::theme::Theme;

fn response(code: &str, message: &str) -> ErrorResponse {
    ErrorResponse { code: code.to_string(), message: message.to_string() }
}

#[test]
fn status_wire_names_round_trip() {
    for status in [
        Status::Pending,
        Status::InProgress,
        Status::Completed,
        Status::Failed,
        Status::Aborted,
    ] {
        assert_eq!(status, Status::from(status.to_string()));
    }
    assert_eq!("inProgress", Status::InProgress.to_string());
    assert_eq!(Status::Failed, Status::from("unknown".to_string()));
    assert_eq!(UploadStatus::Aborted, UploadStatus::from("aborted".to_string()));
    assert_eq!("pending", UploadStatus::Pending.to_string());
    assert_eq!(UploadStatus::Failed, UploadStatus::from("Completed".to_string()));
}

#[test]
fn theme_names_and_default() {
    assert_eq!(Theme::Light, Theme::from_string("light".to_string()));
    assert_eq!(Theme::Dark, Theme::from_string("dark".to_string()));
    assert_eq!(Theme::System, Theme::from_string("system".to_string()));
    assert_eq!(Theme::System, Theme::from_string("blue".to_string()));
    assert_eq!(Theme::System, Theme::default());
    assert_eq!("dark", Theme::Dark.to_string());
}

#[test]
fn config_keys_round_trip_and_defaults() {
    for key in [ConfigKey::Theme, ConfigKey::StartOnSystemStartup, ConfigKey::StartMinimized] {
        assert_eq!(Some(key), ConfigKey::from_string(key.key()));
    }
    assert_eq!("start_on_system_startup", ConfigKey::StartOnSystemStartup.key());
    assert_eq!(None, ConfigKey::from_string("language".to_string()));
    assert_eq!("system", ConfigKey::Theme.default_value());
    assert_eq!("false", ConfigKey::StartMinimized.default_value());
    assert_eq!("false", ConfigKey::StartOnSystemStartup.default_value());
}

#[test]
fn config_map_takes_the_last_row_and_ignores_unknown_keys() {
    let rows = vec![
        ConfigModel { key: "theme".to_string(), value: "dark".to_string() },
        ConfigModel { key: "bogus".to_string(), value: "x".to_string() },
        ConfigModel { key: "start_minimized".to_string(), value: "true".to_string() },
        ConfigModel { key: "theme".to_string(), value: "light".to_string() },
    ];
    let map = ConfigModel::vec_to_config_map(rows);
    assert_eq!(Some("light".to_string()), map.get(ConfigKey::Theme));
    assert_eq!(Some("true".to_string()), map.get(ConfigKey::StartMinimized));
    assert_eq!(None, map.get(ConfigKey::StartOnSystemStartup));
    assert_eq!(2, map.len());
}

#[test]
fn config_rows_convert_to_settings() {
    let row = ConfigModel { key: "theme".to_string(), value: "system".to_string() };
    assert_eq!(Ok((ConfigKey::Theme, "system".to_string())), row.to_key_value());
    let bad = ConfigModel { key: "colour".to_string(), value: "red".to_string() };
    assert_eq!(Err("invalid configuration key colour".to_string()), bad.to_key_value());
    let stored = ConfigModel::from_key_value((ConfigKey::StartMinimized, "true".to_string()));
    assert_eq!("start_minimized", stored.key);
    assert_eq!("true", stored.value);
}

#[test]
fn config_value_falls_back_to_default() {
    assert_eq!(
        "dark",
        config_value_or_default(ConfigKey::Theme, Ok(Some((ConfigKey::Theme, "dark".to_string()))))
    );
    assert_eq!("system", config_value_or_default(ConfigKey::Theme, Ok(None)));
    assert_eq!(
        "false",
        config_value_or_default(ConfigKey::StartMinimized, Err("locked".to_string()))
    );
    assert_eq!(
        "boom",
        ConfigurationError::SaveError { message: "boom".to_string() }.to_string()
    );
}

#[test]
fn upload_errors_from_server_responses() {
    assert_eq!(
        FileUploadError::Exists { message: "m".to_string() },
        FileUploadError::from(response("Exists", "m"))
    );
    assert_eq!(
        FileUploadError::NotExists { message: "m".to_string() },
        FileUploadError::from(response("NotExists", "m"))
    );
    assert_eq!(
        FileUploadError::MaxFileSizeExceeded { message: "m".to_string() },
        FileUploadError::from(response("MaxFileSizeExceeded", "m"))
    );
    assert_eq!(
        FileUploadError::InternalServerError { message: "m".to_string() },
        FileUploadError::from(response("exists", "m"))
    );
    assert_eq!(
        FileDeleteError::NotExists { message: "gone".to_string() },
        FileDeleteError::from(response("NotExists", "gone"))
    );
    assert_eq!(
        FileDeleteError::InternalServerError { message: "x".to_string() },
        FileDeleteError::from(response("Exists", "x"))
    );
    assert_eq!(
        FileInfoError::NotExists { message: "gone".to_string() },
        FileInfoError::from(response("NotExists", "gone"))
    );
    assert_eq!(
        FileInfoError::InternalServerError { message: "x".to_string() },
        FileInfoError::from(response("Teapot", "x"))
    );
}

#[test]
fn error_codes_and_messages() {
    assert_eq!("exists", FileUploadError::Exists { message: "a".to_string() }.code());
    assert_eq!("not_exists", FileUploadError::NotExists { message: "a".to_string() }.code());
    assert_eq!(
        "max_file_size_exceeded",
        FileUploadError::MaxFileSizeExceeded { message: "a".to_string() }.code()
    );
    assert_eq!("not_completed", FileUploadError::NotCompleted { message: "a".to_string() }.code());
    assert_eq!("unknown_mime_type", FileUploadError::UnknownMimeType.code());
    assert_eq!("canceled", FileUploadError::Canceled.code());
    assert_eq!(
        "internal_server_error",
        FileUploadError::InternalServerError { message: "a".to_string() }.code()
    );
    assert_eq!("client_error", FileUploadError::ClientError { message: "a".to_string() }.code());
    assert_eq!(
        "unknown mime type for the provided file to upload",
        FileUploadError::UnknownMimeType.to_string()
    );
    assert_eq!("file upload has been canceled", FileUploadError::Canceled.to_string());
    assert_eq!("why", FileUploadError::NotCompleted { message: "why".to_string() }.to_string());
    assert_eq!("not_exists", FileDeleteError::NotExists { message: "a".to_string() }.code());
    assert_eq!("client_error", FileDeleteError::ClientError { message: "a".to_string() }.code());
    assert_eq!("a", FileDeleteError::ClientError { message: "a".to_string() }.to_string());
    assert_eq!(
        FILE_INFO_ERROR_NOT_EXISTS,
        FileInfoError::NotExists { message: "a".to_string() }.code()
    );
    assert!(FileInfoError::NotExists { message: "a".to_string() }.is_not_exists());
    assert!(!FileInfoError::ClientError { message: "a".to_string() }.is_not_exists());
    assert_eq!(
        "internal_server_error",
        FileInfoError::InternalServerError { message: "a".to_string() }.code()
    );
    let health = HealthCheckError { message: "timeout".to_string() };
    assert_eq!("health_check_error", health.code());
    assert_eq!("timeout", health.to_string());
}

#[test]
fn health_reports() {
    assert_eq!(Ok(HealthCheckStatus::Up), HealthCheckStatus::from_string("{\"status\":\"up\"}".to_string()));
    assert_eq!(
        Ok(HealthCheckStatus::Down),
        HealthCheckStatus::from_string("{\"status\":\"down\",\"db\":1}".to_string())
    );
    assert_eq!(Ok(HealthCheckStatus::Down), HealthCheckStatus::from_string("{}".to_string()));
    assert_eq!(
        Ok(HealthCheckStatus::Down),
        HealthCheckStatus::from_string("{\"status\":1}".to_string())
    );
    assert_eq!(
        Err("Invalid health check status: degraded".to_string()),
        HealthCheckStatus::from_string("{\"status\":\"degraded\"}".to_string())
    );
    assert!(HealthCheckStatus::from_string("not json".to_string()).is_err());
}

#[test]
fn database_and_parse_errors() {
    assert_eq!("Not found: x", DbError::NotFound { message: "x".to_string() }.to_string());
    assert_eq!("Generic error: y", DbError::Generic { message: "y".to_string() }.to_string());
    assert_eq!("Map error: z", DbError::MapError { message: "z".to_string() }.to_string());
    let parse = ParseError::new("bad date");
    assert_eq!("bad date", parse.to_string());
    match DbError::from_parse_error(parse) {
        DbError::MapError { message } => assert_eq!("bad date", message),
        other => panic!("unexpected {:?}", other),
    }
}

#[test]
fn resources_by_name() {
    assert_eq!(Some(Resource::MikupushSvg), Resource::from_string("MikuPush_SVG".to_string()));
    assert_eq!(
        Some(Resource::ThirdPartyLicenses),
        Resource::from_string("third_party_licenses".to_string())
    );
    assert_eq!(None, Resource::from_string("logo".to_string()));
    assert_eq!("mikupush.svg", Resource::MikupushSvg.file_name());
    assert_eq!("THIRD_PARTY_LICENSES.html", Resource::ThirdPartyLicenses.file_name());
    assert_eq!(ResourceType::ServerIcon, Resource::MikupushSvg.resource_type());
    assert_eq!(ResourceType::Document, Resource::ThirdPartyLicenses.resource_type());
}
