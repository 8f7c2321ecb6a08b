use observer_ward::api::{
    batch_delivery, collect_batch, get_config_api, set_config_api, webhook_delivery,
    webhook_pump_step, what_web_api, ConfigDecision, DeliveryEvent, ExecuteResult, MatchedResult,
    PumpAction, ScanDecision, StreamEvent,
};
use observer_ward::body_within_limit;
use observer_ward::config::ObserverWardConfig;

fn base_config() -> ObserverWardConfig {
    ObserverWardConfig {
        target: vec![],
        plugin: None,
        webhook: None,
        config_dir: String::new(),
        mode: None,
        proxy: None,
        nuclei_args: None,
        token: None,
        thread: 1,
        update_fingerprint: false,
        update_service_fingerprint: false,
        update_plugin: false,
        update_self: false,
        probe_path: None,
    }
}

fn server_config() -> ObserverWardConfig {
    let mut c = base_config();
    c.config_dir = "/etc/ow".to_string();
    c.mode = Some("default".to_string());
    c.token = Some("abc".to_string());
    c
}

fn result_for(target: &str, service: &str) -> ExecuteResult {
    ExecuteResult {
        target: target.to_string(),
        matched: vec![(
            service.to_string(),
            MatchedResult {
                detail: format!("{service} on {target}"),
            },
        )],
    }
}

#[test]
fn unauthorized_scan_never_reaches_merge_or_orchestrator() {
    let server = server_config();
    let mut request = base_config();
    request.target = vec!["https://example.com".to_string()];

    let wrong = what_web_api(&Some("wrong".to_string()), &request, &server);
    assert!(matches!(wrong, ScanDecision::Unauthorized));
    let missing = what_web_api(&None, &request, &server);
    assert!(matches!(missing, ScanDecision::Unauthorized));
}

#[test]
fn unauthorized_config_requests_change_and_reveal_nothing() {
    let server = server_config();
    let request = base_config();
    assert!(matches!(
        set_config_api(&Some("nope".to_string()), &request, &server),
        ConfigDecision::Unauthorized
    ));
    assert!(get_config_api(&None, &server).is_none());
}

#[test]
fn get_config_returns_pinned_configuration_verbatim() {
    let server = server_config();
    let got = get_config_api(&Some("abc".to_string()), &server).expect("authorized");
    assert_eq!(got, server);
}

#[test]
fn scan_with_example_request_keeps_server_mode() {
    // Server secret "abc", config_dir "/etc/ow"; the caller submits a target
    // and mode "malicious" under "Bearer abc": the effective mode is the
    // server's pinned mode, not the caller's.
    let server = server_config();
    let mut request = base_config();
    request.target = vec!["https://example.com".to_string()];
    request.mode = Some("malicious".to_string());

    match what_web_api(&Some("abc".to_string()), &request, &server) {
        ScanDecision::Batch(merged) => {
            assert_eq!(merged.mode, Some("default".to_string()));
            assert_eq!(merged.config_dir, "/etc/ow".to_string());
            assert_eq!(merged.target, vec!["https://example.com".to_string()]);
        }
        _ => panic!("expected a batch-mode scan"),
    }
}

#[test]
fn webhook_field_selects_delivery_mode() {
    let server = server_config();
    let mut request = base_config();
    request.webhook = Some("http://sink/hook".to_string());
    match what_web_api(&Some("abc".to_string()), &request, &server) {
        ScanDecision::Webhook(merged) => {
            assert_eq!(merged.webhook, Some("http://sink/hook".to_string()));
        }
        _ => panic!("expected webhook mode"),
    }
}

#[test]
fn authorized_config_update_applies_merge() {
    let server = server_config();
    let mut request = base_config();
    request.update_fingerprint = true;
    request.config_dir = "/tmp/evil".to_string();
    match set_config_api(&Some("abc".to_string()), &request, &server) {
        ConfigDecision::Apply(merged) => {
            assert!(merged.update_fingerprint);
            assert_eq!(merged.config_dir, "/etc/ow".to_string());
        }
        ConfigDecision::Unauthorized => panic!("expected the update to apply"),
    }
}

#[test]
fn batch_collects_one_entry_per_result_in_order() {
    let results = vec![
        result_for("https://a", "nginx"),
        result_for("https://b", "apache"),
        result_for("https://c", "tomcat"),
    ];
    let batch = collect_batch(&results);
    assert_eq!(batch.len(), 3);
    for (entry, result) in batch.iter().zip(results.iter()) {
        assert_eq!(entry, &result.matched);
    }
}

#[test]
fn batch_delivery_is_a_single_response() {
    let results = vec![result_for("https://a", "nginx")];
    let events = batch_delivery(&results);
    assert_eq!(events.len(), 1);
    match &events[0] {
        DeliveryEvent::BatchResponse(batch) => {
            assert_eq!(batch.len(), 1);
            assert_eq!(batch[0], results[0].matched);
        }
        _ => panic!("expected the batch response"),
    }
}

#[test]
fn webhook_acknowledgment_precedes_every_push() {
    let results = vec![
        result_for("https://a", "nginx"),
        result_for("https://b", "apache"),
    ];
    let events = webhook_delivery(&results);
    assert_eq!(events.len(), 3);
    assert_eq!(events[0], DeliveryEvent::Ack);
    for (i, event) in events.iter().enumerate() {
        if matches!(event, DeliveryEvent::Push(_)) {
            assert!(i > 0);
        }
    }
    match &events[1] {
        DeliveryEvent::Push(m) => assert_eq!(m, &results[0].matched),
        _ => panic!("expected the first result's push"),
    }
    match &events[2] {
        DeliveryEvent::Push(m) => assert_eq!(m, &results[1].matched),
        _ => panic!("expected the second result's push"),
    }
}

#[test]
fn webhook_pump_forwards_items_and_stops_on_close() {
    let r = result_for("https://a", "nginx");
    let expected = result_for("https://a", "nginx").matched;
    assert_eq!(
        webhook_pump_step(StreamEvent::Item(r)),
        PumpAction::Forward(expected)
    );
    assert_eq!(webhook_pump_step(StreamEvent::Closed), PumpAction::Stop);
}

#[test]
fn request_bodies_over_the_ceiling_are_rejected() {
    assert!(body_within_limit(0));
    assert!(body_within_limit(40960));
    assert!(!body_within_limit(40961));
}
