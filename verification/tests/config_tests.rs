use sentrypeer::config::{
    config_from_cli, config_from_env, create_tls_cert_and_key, parse_consent, resolve,
    tls_bootstrap_action, BootstrapOutcome, Config, Consent, TlsBootstrapAction,
};

#[test]
fn test_config_default() {
    let cfg = Config::default();
    assert_eq!(cfg.cert, "cert.pem");
    assert_eq!(cfg.key, "key.pem");
    assert_eq!(cfg.tls_listen_address, "0.0.0.0:5061");
}

#[test]
fn test_config_from_env() {
    let mut config = Config {
        cert: String::from("cert.pem"),
        key: String::from("key.pem"),
        tls_listen_address: "0.0.0.0:5061".into(),
    };
    config = config_from_env(config, None, None, None);
    assert_eq!(config.cert, "cert.pem");
    assert_eq!(config.key, "key.pem");
    assert_eq!(config.tls_listen_address, "0.0.0.0:5061");
}

#[test]
fn env_layer_overrides_only_what_is_present() {
    let config = Config::default();
    let config = config_from_env(
        config,
        None,
        Some(String::from("other_key.pem")),
        Some(String::from("127.0.0.1:15061")),
    );
    assert_eq!(config.cert, "cert.pem");
    assert_eq!(config.key, "other_key.pem");
    assert_eq!(config.tls_listen_address, "127.0.0.1:15061");
}

#[test]
fn cli_layer_replaces_whole_triple_or_nothing() {
    let config = Config::default();
    let config = config_from_cli(config, None);
    assert_eq!(config.cert, "cert.pem");
    let cli = Config {
        cert: "cli_cert.pem".into(),
        key: "cli_key.pem".into(),
        tls_listen_address: "0.0.0.0:6061".into(),
    };
    let config = config_from_cli(config, Some(cli));
    assert_eq!(config.cert, "cli_cert.pem");
    assert_eq!(config.key, "cli_key.pem");
    assert_eq!(config.tls_listen_address, "0.0.0.0:6061");
}

#[test]
fn resolve_with_no_input_yields_defaults() {
    let cfg = resolve(None, None, None, None, None);
    assert_eq!(cfg.cert, "cert.pem");
    assert_eq!(cfg.key, "key.pem");
    assert_eq!(cfg.tls_listen_address, "0.0.0.0:5061");
}

#[test]
fn resolve_env_address_only_keeps_default_cert_and_key() {
    let cfg = resolve(None, None, None, Some(String::from("10.0.0.1:5061")), None);
    assert_eq!(cfg.cert, "cert.pem");
    assert_eq!(cfg.key, "key.pem");
    assert_eq!(cfg.tls_listen_address, "10.0.0.1:5061");
}

#[test]
fn resolve_layers_in_order() {
    let file = Config {
        cert: "file_cert.pem".into(),
        key: "file_key.pem".into(),
        tls_listen_address: "file:1".into(),
    };
    let cfg = resolve(
        Some(file),
        Some(String::from("env_cert.pem")),
        None,
        None,
        None,
    );
    assert_eq!(cfg.cert, "env_cert.pem");
    assert_eq!(cfg.key, "file_key.pem");
    assert_eq!(cfg.tls_listen_address, "file:1");
}

#[test]
fn bootstrap_missing_cert_offers_generation() {
    assert_eq!(
        tls_bootstrap_action(false, false),
        TlsBootstrapAction::OfferGenerate
    );
    assert_eq!(
        tls_bootstrap_action(false, true),
        TlsBootstrapAction::OfferGenerate
    );
}

#[test]
fn bootstrap_missing_key_with_present_cert_is_fatal() {
    assert_eq!(
        tls_bootstrap_action(true, false),
        TlsBootstrapAction::FailMissingKey
    );
}

#[test]
fn bootstrap_with_both_files_proceeds() {
    assert_eq!(tls_bootstrap_action(true, true), TlsBootstrapAction::Proceed);
}

#[test]
fn consent_answers() {
    assert_eq!(parse_consent(&b"y\n".to_vec()), Consent::Yes);
    assert_eq!(parse_consent(&b"YES\n".to_vec()), Consent::Yes);
    assert_eq!(parse_consent(&b"  yes  ".to_vec()), Consent::Yes);
    assert_eq!(parse_consent(&b"n\n".to_vec()), Consent::No);
    assert_eq!(parse_consent(&b"No".to_vec()), Consent::No);
    assert_eq!(parse_consent(&b"\n".to_vec()), Consent::Invalid);
    assert_eq!(parse_consent(&b"".to_vec()), Consent::Invalid);
    assert_eq!(parse_consent(&b"maybe".to_vec()), Consent::Invalid);
    assert_eq!(parse_consent(&b"yess".to_vec()), Consent::Invalid);
}

#[test]
fn refusal_and_invalid_input_do_not_generate() {
    match create_tls_cert_and_key(&b"no\n".to_vec()) {
        BootstrapOutcome::Refused => {}
        _ => panic!("refusal must be reported as refused"),
    }
    match create_tls_cert_and_key(&b"what\n".to_vec()) {
        BootstrapOutcome::InvalidInput => {}
        _ => panic!("invalid input must be reported as invalid"),
    }
}

#[test]
fn consent_generates_pem_material() {
    match create_tls_cert_and_key(&b"y\n".to_vec()) {
        BootstrapOutcome::Generated(cert_pem, key_pem) => {
            assert!(cert_pem.contains("BEGIN CERTIFICATE"));
            assert!(key_pem.contains("PRIVATE KEY"));
        }
        BootstrapOutcome::GenerationFailed => panic!("generation failed"),
        _ => panic!("consent must attempt generation"),
    }
}
