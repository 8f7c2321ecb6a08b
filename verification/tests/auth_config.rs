use observer_ward::auth::{authorize, validator};
use observer_ward::config::{merge, ObserverWardConfig};

fn base_config() -> ObserverWardConfig {
    ObserverWardConfig {
        target: vec![],
        plugin: None,
        webhook: None,
        config_dir: String::new(),
        mode: None,
        proxy: None,
        nuclei_args: None,
        token: None,
        thread: 1,
        update_fingerprint: false,
        update_service_fingerprint: false,
        update_plugin: false,
        update_self: false,
        probe_path: None,
    }
}

fn server_config() -> ObserverWardConfig {
    let mut c = base_config();
    c.config_dir = "/etc/ow".to_string();
    c.mode = Some("default".to_string());
    c.proxy = Some("socks5://127.0.0.1:1080".to_string());
    c.nuclei_args = Some("-silent".to_string());
    c.plugin = Some("server-plugins".to_string());
    c.token = Some("abc".to_string());
    c.thread = 4;
    c
}

#[test]
fn authorize_without_secret_accepts_anything() {
    assert!(authorize(&None, &"whatever".to_string()));
    assert!(authorize(&None, &String::new()));
}

#[test]
fn authorize_matches_secret_exactly() {
    let secret = Some("abc".to_string());
    assert!(authorize(&secret, &"abc".to_string()));
    assert!(!authorize(&secret, &"abd".to_string()));
    assert!(!authorize(&secret, &"ab".to_string()));
    assert!(!authorize(&secret, &String::new()));
}

#[test]
fn validator_rejects_missing_credential_when_secret_configured() {
    assert!(!validator(&Some("abc".to_string()), &None));
    assert!(validator(&Some("abc".to_string()), &Some("abc".to_string())));
    assert!(validator(&None, &None));
}

#[test]
fn merge_pins_trusted_fields_to_server_values() {
    let server = server_config();
    let mut request = base_config();
    request.config_dir = "/tmp/evil".to_string();
    request.mode = Some("malicious".to_string());
    request.proxy = Some("http://attacker:8080".to_string());
    request.nuclei_args = Some("-danger".to_string());
    request.target = vec!["https://example.com".to_string()];

    let merged = merge(&request, &server);
    assert_eq!(merged.config_dir, "/etc/ow".to_string());
    assert_eq!(merged.mode, Some("default".to_string()));
    assert_eq!(merged.proxy, Some("socks5://127.0.0.1:1080".to_string()));
    assert_eq!(merged.nuclei_args, Some("-silent".to_string()));
}

#[test]
fn merge_overrides_plugin_only_when_request_names_one() {
    let server = server_config();

    let mut with_plugin = base_config();
    with_plugin.plugin = Some("caller-plugins".to_string());
    let merged = merge(&with_plugin, &server);
    assert_eq!(merged.plugin, Some("server-plugins".to_string()));

    let without_plugin = base_config();
    let merged = merge(&without_plugin, &server);
    assert_eq!(merged.plugin, None);
}

#[test]
fn merge_keeps_caller_fields() {
    let server = server_config();
    let mut request = base_config();
    request.target = vec!["a".to_string(), "b".to_string()];
    request.webhook = Some("http://sink/hook".to_string());
    request.thread = 9;
    request.update_fingerprint = true;
    request.update_plugin = true;
    request.probe_path = Some("/tmp/probes.json".to_string());

    let merged = merge(&request, &server);
    assert_eq!(merged.target, vec!["a".to_string(), "b".to_string()]);
    assert_eq!(merged.webhook, Some("http://sink/hook".to_string()));
    assert_eq!(merged.thread, 9);
    assert!(merged.update_fingerprint);
    assert!(merged.update_plugin);
    assert!(!merged.update_service_fingerprint);
    assert_eq!(merged.probe_path, Some("/tmp/probes.json".to_string()));
}
