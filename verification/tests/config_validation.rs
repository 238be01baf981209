use atoma_node::config::{
    validate_country_code, validate_public_url, validation_outcome, AtomaP2pNodeConfig,
    ConfigValidationError,
};
use std::collections::HashMap;
use std::time::Duration;

fn config(country: Option<&str>, public_url: Option<&str>) -> AtomaP2pNodeConfig {
    let mut metrics_endpoints = HashMap::new();
    metrics_endpoints.insert(
        "meta-llama/Llama-3.2-3B-Instruct".to_string(),
        (
            "vllm".to_string(),
            "http://chat-completions:8000/metrics".to_string(),
        ),
    );
    AtomaP2pNodeConfig {
        country: country.map(str::to_string),
        heartbeat_interval: Duration::from_secs(30),
        idle_connection_timeout: Duration::from_secs(60),
        listen_addrs: vec!["/ip4/0.0.0.0/udp/8083/quic-v1".to_string()],
        public_url: public_url.map(str::to_string),
        node_small_id: Some(17),
        metrics_endpoints,
        bootstrap_node_addrs: vec![],
        bootstrap_node_peer_ids: None,
        local_key: "local_key".to_string(),
    }
}

#[test]
fn country_code_us_is_valid() {
    assert_eq!(validate_country_code("US"), Ok(()));
}

#[test]
fn country_code_with_three_letters_is_rejected() {
    assert_eq!(
        validate_country_code("USA"),
        Err(ConfigValidationError::InvalidCountryCode)
    );
}

#[test]
fn country_code_that_does_not_exist_is_rejected() {
    assert_eq!(
        validate_country_code("XX"),
        Err(ConfigValidationError::InvalidCountryCode)
    );
}

#[test]
fn country_code_in_lower_case_is_rejected() {
    assert_eq!(
        validate_country_code("us"),
        Err(ConfigValidationError::InvalidCountryCode)
    );
    assert_eq!(
        validate_country_code(""),
        Err(ConfigValidationError::InvalidCountryCode)
    );
}

#[test]
fn public_url_with_address_and_port_is_valid() {
    assert_eq!(validate_public_url("https://1.2.3.4:8443"), Ok(()));
}

#[test]
fn public_url_without_scheme_is_rejected() {
    assert_eq!(
        validate_public_url("not a url"),
        Err(ConfigValidationError::InvalidPublicUrl)
    );
    assert_eq!(
        validate_public_url("1.2.3.4:8443/path"),
        Err(ConfigValidationError::InvalidPublicUrl)
    );
    assert_eq!(
        validate_public_url(""),
        Err(ConfigValidationError::InvalidPublicUrl)
    );
}

#[test]
fn error_codes_name_the_field() {
    assert_eq!(
        ConfigValidationError::InvalidCountryCode.code(),
        "Country code is invalid"
    );
    assert_eq!(
        ConfigValidationError::InvalidPublicUrl.code(),
        "Public URL is invalid"
    );
}

#[test]
fn outcome_lists_what_is_invalid_country_first() {
    assert_eq!(validation_outcome(None, None), Ok(()));
    assert_eq!(validation_outcome(Some(true), Some(true)), Ok(()));
    assert_eq!(validation_outcome(Some(true), None), Ok(()));
    assert_eq!(
        validation_outcome(Some(false), Some(true)),
        Err(vec![ConfigValidationError::InvalidCountryCode])
    );
    assert_eq!(
        validation_outcome(None, Some(false)),
        Err(vec![ConfigValidationError::InvalidPublicUrl])
    );
    assert_eq!(
        validation_outcome(Some(false), Some(false)),
        Err(vec![
            ConfigValidationError::InvalidCountryCode,
            ConfigValidationError::InvalidPublicUrl
        ])
    );
}

#[test]
fn configuration_with_a_valid_identity_is_loaded_unchanged() {
    let loaded =
        AtomaP2pNodeConfig::from_file_path(config(Some("US"), Some("https://1.2.3.4:8443")))
            .unwrap();
    assert_eq!(loaded.country.as_deref(), Some("US"));
    assert_eq!(loaded.public_url.as_deref(), Some("https://1.2.3.4:8443"));
    assert_eq!(loaded.heartbeat_interval, Duration::from_secs(30));
    assert_eq!(loaded.idle_connection_timeout, Duration::from_secs(60));
    assert_eq!(loaded.listen_addrs, vec!["/ip4/0.0.0.0/udp/8083/quic-v1"]);
    assert_eq!(loaded.node_small_id, Some(17));
    assert_eq!(loaded.metrics_endpoints.len(), 1);
    assert_eq!(loaded.local_key, "local_key");
}

#[test]
fn configuration_without_identity_is_valid() {
    assert!(AtomaP2pNodeConfig::from_file_path(config(None, None)).is_ok());
    assert_eq!(config(None, None).validate(), Ok(()));
}

#[test]
fn configuration_with_an_invalid_country_is_rejected() {
    assert_eq!(
        AtomaP2pNodeConfig::from_file_path(config(Some("USA"), Some("https://1.2.3.4:8443")))
            .unwrap_err(),
        vec![ConfigValidationError::InvalidCountryCode]
    );
    assert_eq!(
        config(Some("XX"), None).validate(),
        Err(vec![ConfigValidationError::InvalidCountryCode])
    );
}

#[test]
fn configuration_with_an_invalid_url_is_rejected() {
    assert_eq!(
        AtomaP2pNodeConfig::from_file_path(config(Some("US"), Some("not a url"))).unwrap_err(),
        vec![ConfigValidationError::InvalidPublicUrl]
    );
}

#[test]
fn configuration_with_both_invalid_reports_both() {
    assert_eq!(
        AtomaP2pNodeConfig::from_file_path(config(Some("XX"), Some("not a url"))).unwrap_err(),
        vec![
            ConfigValidationError::InvalidCountryCode,
            ConfigValidationError::InvalidPublicUrl
        ]
    );
}
