use s3_fetch::config::{validate_client_config, ConfigError, EnvConfig};
use s3_fetch::error::{DownloadError, ErrorKind};

#[test]
fn no_credentials_is_a_configuration_error() {
    let cfg = EnvConfig { has_credentials: false, region: Some("eu-west-1".to_string()) };
    assert_eq!(validate_client_config(&cfg), Err(ConfigError::MissingCredentials));
}

#[test]
fn no_region_is_a_configuration_error() {
    let cfg = EnvConfig { has_credentials: true, region: None };
    assert_eq!(validate_client_config(&cfg), Err(ConfigError::MissingRegion));
}

#[test]
fn credentials_and_region_make_a_usable_client() {
    let cfg = EnvConfig { has_credentials: true, region: Some("eu-west-1".to_string()) };
    assert_eq!(validate_client_config(&cfg), Ok(()));
}

#[test]
fn missing_credentials_win_over_missing_region() {
    let cfg = EnvConfig { has_credentials: false, region: None };
    assert_eq!(validate_client_config(&cfg), Err(ConfigError::MissingCredentials));
}

#[test]
fn config_error_context_lines() {
    assert_eq!(
        ConfigError::MissingCredentials.context_line(),
        "no usable credentials could be resolved"
    );
    assert_eq!(ConfigError::MissingRegion.context_line(), "no region could be resolved");
}

#[test]
fn download_error_kinds_and_context_lines() {
    assert_eq!(DownloadError::NotFound.kind(), ErrorKind::NotFound);
    assert_eq!(DownloadError::NotFound.context_line(), "the requested object was not found");
    assert_eq!(DownloadError::NotFound.message(), "");
    assert_eq!(DownloadError::AccessDenied.kind(), ErrorKind::AccessDenied);
    assert_eq!(
        DownloadError::AccessDenied.context_line(),
        "access to the requested object was denied"
    );
    let e = DownloadError::Stream { message: "reset".to_string() };
    assert_eq!(e.kind(), ErrorKind::Stream);
    assert_eq!(e.context_line(), "the response body stream failed mid-transfer");
    assert_eq!(e.message(), "reset");
    let e = DownloadError::Io { message: "denied".to_string() };
    assert_eq!(e.kind(), ErrorKind::Io);
    let e = DownloadError::Service { message: "slow down".to_string() };
    assert_eq!(e.kind(), ErrorKind::Service);
    assert_eq!(e.message(), "slow down");
}
