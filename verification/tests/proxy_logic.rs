use proxy_core::forward::{plan_upstream_request, reply_for_outcome, reply_for_unreadable_request,
    upstream_method, BackendOutcome, ForwardReply};
use proxy_core::relay::{Frame, RelayAction, RelayEvent, RelaySession};
use proxy_core::settings::{default_backend_url, default_skip_cert_validation, AppSettings};
use proxy_core::supervisor::{InstanceState, ProxyConfig, StartOutcome, Supervisor};
use proxy_core::tls::{accept_all_schemes, trust_policy_for, SignatureSchemeKind, TrustPolicy};
use proxy_core::client::UpstreamClientConfig;
use proxy_core::urls::{localhost_authority, target_url, trimmed, u16_decimal, ws_url};

fn header(name: &str, value: &str) -> (String, String) {
    (name.to_string(), value.to_string())
}

#[test]
fn default_settings_values() {
    let s = AppSettings::default();
    assert_eq!(s.backend_url, "https://assistant");
    assert!(s.skip_cert_validation);
    assert_eq!(s.proxy_port, 0);
    assert_eq!(s.ws_proxy_port, 0);
    assert_eq!(default_backend_url(), "https://assistant");
    assert!(default_skip_cert_validation());
}

#[test]
fn ws_url_rewrites_schemes() {
    assert_eq!(ws_url("https://assistant"), "wss://assistant/ws");
    assert_eq!(ws_url("http://localhost:3000"), "ws://localhost:3000/ws");
    assert_eq!(ws_url("http://localhost:3000/"), "ws://localhost:3000/ws");
    assert_eq!(ws_url("https://example.com///"), "wss://example.com/ws");
    assert_eq!(ws_url("assistant"), "assistant/ws");
}

#[test]
fn trimmed_removes_trailing_slashes() {
    assert_eq!(trimmed("https://a/"), "https://a");
    assert_eq!(trimmed("https://a"), "https://a");
    assert_eq!(trimmed("///"), "");
    assert_eq!(trimmed(""), "");
}

#[test]
fn target_url_joins_origin_and_path() {
    assert_eq!(
        target_url("https://assistant/", "/api/ping?x=1"),
        "https://assistant/api/ping?x=1"
    );
    assert_eq!(target_url("http://h", "/"), "http://h/");
}

#[test]
fn decimal_formatting() {
    assert_eq!(u16_decimal(0), "0");
    assert_eq!(u16_decimal(7), "7");
    assert_eq!(u16_decimal(8080), "8080");
    assert_eq!(u16_decimal(65535), "65535");
    assert_eq!(localhost_authority(8081), "localhost:8081");
}

#[test]
fn method_fallback_is_lenient() {
    assert_eq!(upstream_method("GET"), "GET");
    assert_eq!(upstream_method("PATCH"), "PATCH");
    assert_eq!(upstream_method("custom-token"), "custom-token");
    assert_eq!(upstream_method("BAD METHOD"), "GET");
    assert_eq!(upstream_method(""), "GET");
}

#[test]
fn plan_drops_host_and_keeps_order() {
    let headers = vec![
        header("accept", "*/*"),
        header("host", "localhost:1234"),
        header("x-a", "1"),
        header("x-b", "2"),
    ];
    let plan = plan_upstream_request(
        "https://assistant/",
        "/api/ping?q=1",
        "POST",
        &headers,
        b"hello".to_vec(),
    );
    assert_eq!(plan.url, "https://assistant/api/ping?q=1");
    assert_eq!(plan.method, "POST");
    assert_eq!(
        plan.headers,
        vec![header("accept", "*/*"), header("x-a", "1"), header("x-b", "2")]
    );
    assert_eq!(plan.body, Some(b"hello".to_vec()));
}

#[test]
fn plan_omits_empty_body() {
    let plan = plan_upstream_request("http://h", "/", "GET", &vec![], Vec::new());
    assert_eq!(plan.url, "http://h/");
    assert!(plan.body.is_none());
}

#[test]
fn backend_response_is_relayed_verbatim() {
    let outcome = BackendOutcome::Response {
        status: 200,
        headers: vec![
            header("content-type", "application/json"),
            header("transfer-encoding", "chunked"),
            header("x-extra", "yes"),
        ],
        body: Ok(b"{\"ok\":true}".to_vec()),
    };
    match reply_for_outcome(outcome) {
        ForwardReply::Relayed { status, headers, body } => {
            assert_eq!(status, 200);
            assert_eq!(
                headers,
                vec![header("content-type", "application/json"), header("x-extra", "yes")]
            );
            assert_eq!(body, b"{\"ok\":true}".to_vec());
        }
        ForwardReply::Failed { .. } => panic!("backend response must be relayed"),
    }
}

#[test]
fn unreachable_backend_yields_502_with_body() {
    let outcome = BackendOutcome::SendFailed { detail: "connection refused".to_string() };
    match reply_for_outcome(outcome) {
        ForwardReply::Failed { status, message } => {
            assert_eq!(status, 502);
            assert_eq!(message, "Proxy error: connection refused");
            assert!(!message.is_empty());
        }
        ForwardReply::Relayed { .. } => panic!("a failed send must not be relayed"),
    }
}

#[test]
fn unreadable_response_body_yields_502() {
    let outcome = BackendOutcome::Response {
        status: 200,
        headers: vec![],
        body: Err("broken pipe".to_string()),
    };
    match reply_for_outcome(outcome) {
        ForwardReply::Failed { status, message } => {
            assert_eq!(status, 502);
            assert_eq!(message, "Failed to read response");
        }
        ForwardReply::Relayed { .. } => panic!("an unread body must not be relayed"),
    }
}

#[test]
fn unreadable_request_body_yields_400() {
    match reply_for_unreadable_request() {
        ForwardReply::Failed { status, message } => {
            assert_eq!(status, 400);
            assert_eq!(message, "Failed to read request body");
        }
        ForwardReply::Relayed { .. } => panic!("a bad request must not be relayed"),
    }
}

#[test]
fn relay_forwards_frames_in_both_directions() {
    let mut session = RelaySession::begin();
    match session.step(RelayEvent::ClientFrame(Frame::Text(b"hello".to_vec()))) {
        RelayAction::ForwardToBackend(Frame::Text(b)) => assert_eq!(b, b"hello".to_vec()),
        _ => panic!("a client text frame goes to the backend unchanged"),
    }
    match session.step(RelayEvent::BackendFrame(Frame::Binary(vec![1, 2, 3]))) {
        RelayAction::ForwardToClient(Frame::Binary(b)) => assert_eq!(b, vec![1, 2, 3]),
        _ => panic!("a backend binary frame goes to the client unchanged"),
    }
    assert!(session.active);
}

#[test]
fn relay_first_failure_ends_session() {
    let mut session = RelaySession::begin();
    match session.step(RelayEvent::SendToBackendFailed) {
        RelayAction::EndSession => {}
        _ => panic!("a write failure ends the session"),
    }
    assert!(!session.active);
    match session.step(RelayEvent::ClientFrame(Frame::Text(b"late".to_vec()))) {
        RelayAction::EndSession => {}
        _ => panic!("a closed session forwards nothing"),
    }
}

#[test]
fn relay_closed_stream_ends_session() {
    let mut session = RelaySession::begin();
    match session.step(RelayEvent::BackendClosed) {
        RelayAction::EndSession => {}
        _ => panic!("a closed stream ends the session"),
    }
    assert!(!session.active);
}

#[test]
fn supervisor_lifecycle_and_single_use_signals() {
    let mut sup = Supervisor::new();
    assert_eq!(sup.stop(), (false, false));

    let config = ProxyConfig::checked("https://assistant".to_string(), true)
        .expect("an https origin is accepted");
    sup.record_started(config, 49152, 49153);
    match (&sup.http, &sup.ws) {
        (
            InstanceState::Running { port: hp, signal_available: ha },
            InstanceState::Running { port: wp, signal_available: wa },
        ) => {
            assert_eq!((*hp, *wp), (49152, 49153));
            assert!(*ha && *wa);
        }
        _ => panic!("both instances run after a start"),
    }

    assert_eq!(sup.stop(), (true, true));
    assert!(matches!(sup.http, InstanceState::Stopped));
    assert!(matches!(sup.ws, InstanceState::Stopped));
    assert_eq!(sup.stop(), (false, false));
}

#[test]
fn restart_replaces_the_generation() {
    let mut sup = Supervisor::new();
    let first = ProxyConfig::checked("https://assistant".to_string(), true).unwrap();
    sup.record_started(first, 50001, 50002);

    // restart: stop the old generation, then start one with the new origin
    assert_eq!(sup.stop(), (true, true));
    let second = ProxyConfig::checked("http://localhost:3000".to_string(), false).unwrap();
    sup.record_started(second, 50003, 50004);

    let config = sup.config.as_ref().expect("a running generation has a config");
    assert_eq!(config.backend_origin, "http://localhost:3000");
    assert!(!config.bypass_tls_validation);
    match (&sup.http, &sup.ws) {
        (
            InstanceState::Running { port: hp, .. },
            InstanceState::Running { port: wp, .. },
        ) => assert_eq!((*hp, *wp), (50003, 50004)),
        _ => panic!("the new generation must be running"),
    }
}

#[test]
fn failed_restart_is_fail_stop() {
    let mut sup = Supervisor::new();
    let config = ProxyConfig::checked("https://assistant".to_string(), true).unwrap();

    let r = sup.finish_restart(
        config,
        StartOutcome::BindFailed { detail: "address in use".to_string() },
    );
    assert_eq!(r, Err("address in use".to_string()));
    assert!(matches!(sup.http, InstanceState::Stopped));
    assert!(matches!(sup.ws, InstanceState::Stopped));

    let config = ProxyConfig::checked("https://assistant".to_string(), true).unwrap();
    let r = sup.finish_restart(config, StartOutcome::Started { http_port: 0, ws_port: 1 });
    assert!(r.is_err());
    assert!(matches!(sup.http, InstanceState::Stopped));

    let config = ProxyConfig::checked("https://assistant".to_string(), true).unwrap();
    let r = sup.finish_restart(config, StartOutcome::Started { http_port: 50001, ws_port: 50002 });
    assert_eq!(r, Ok((50001, 50002)));
    assert!(matches!(sup.http, InstanceState::Running { .. }));
    assert!(matches!(sup.ws, InstanceState::Running { .. }));
}

#[test]
fn config_rejects_other_schemes() {
    assert!(ProxyConfig::checked("ftp://x".to_string(), false).is_none());
    assert!(ProxyConfig::checked("assistant".to_string(), false).is_none());
    let c = ProxyConfig::checked("http://localhost:3000".to_string(), false).unwrap();
    assert_eq!(c.backend_origin, "http://localhost:3000");
    assert!(!c.bypass_tls_validation);
}

#[test]
fn settings_update_reports_when_restart_is_needed() {
    let mut s = AppSettings::default();
    let changed = s.apply_update(Some("http://localhost:3000".to_string()), None);
    assert!(changed);
    assert_eq!(s.backend_url, "http://localhost:3000");
    assert!(s.skip_cert_validation);

    let same = s.apply_update(Some("http://localhost:3000".to_string()), None);
    assert!(!same);

    let flag = s.apply_update(None, Some(false));
    assert!(flag);
    assert!(!s.skip_cert_validation);

    let nothing = s.apply_update(None, None);
    assert!(!nothing);
}

#[test]
fn settings_ports_and_queries() {
    let mut s = AppSettings::default();
    assert_eq!(s.get_proxy_url(), Err("Proxy not running".to_string()));
    assert_eq!(s.get_ws_proxy_port(), Err("WebSocket proxy not running".to_string()));

    s.record_ports(8080, 8081);
    assert_eq!(s.get_proxy_url(), Ok("localhost:8080".to_string()));
    assert_eq!(s.get_ws_proxy_port(), Ok(8081));
    assert_eq!(s.backend_url, "https://assistant");
}

#[test]
fn settings_backend_url_accessors() {
    let mut s = AppSettings::default();
    assert_eq!(s.get_backend_url(), "https://assistant");
    s.set_backend_url("https://other".to_string());
    assert_eq!(s.get_backend_url(), "https://other");
    assert_eq!(s.proxy_port, 0);
}

#[test]
fn client_config_fixes_timeouts_and_endpoint() {
    let c = UpstreamClientConfig::new("https://assistant".to_string(), true);
    assert_eq!(c.connect_timeout_secs, 10);
    assert_eq!(c.request_timeout_secs, 30);
    assert_eq!(c.ws_url(), "wss://assistant/ws");
    assert_eq!(c.trust_policy(), TrustPolicy::AcceptAll);

    let strict = UpstreamClientConfig::new("http://h".to_string(), false);
    assert_eq!(strict.trust_policy(), TrustPolicy::Strict);
}

#[test]
fn accept_all_verifier_scheme_list() {
    assert_eq!(trust_policy_for(true), TrustPolicy::AcceptAll);
    assert_eq!(trust_policy_for(false), TrustPolicy::Strict);
    let schemes = accept_all_schemes();
    assert_eq!(
        schemes,
        vec![
            SignatureSchemeKind::RsaPkcs1Sha256,
            SignatureSchemeKind::RsaPkcs1Sha384,
            SignatureSchemeKind::RsaPkcs1Sha512,
            SignatureSchemeKind::EcdsaNistp256Sha256,
            SignatureSchemeKind::EcdsaNistp384Sha384,
            SignatureSchemeKind::RsaPssSha256,
            SignatureSchemeKind::RsaPssSha384,
            SignatureSchemeKind::RsaPssSha512,
            SignatureSchemeKind::Ed25519,
        ]
    );
}

#[test]
fn example_round_trip_through_plans() {
    // start({backend_origin: "https://assistant", bypass_tls_validation: true})
    let mut sup = Supervisor::new();
    let config = ProxyConfig::checked("https://assistant".to_string(), true).unwrap();
    sup.record_started(config, 50001, 50002);

    // GET http://localhost:P1/api/ping forwarded to the backend
    let plan = plan_upstream_request(
        "https://assistant",
        "/api/ping",
        "GET",
        &vec![header("host", "localhost:50001")],
        Vec::new(),
    );
    assert_eq!(plan.url, "https://assistant/api/ping");
    assert_eq!(plan.method, "GET");
    assert!(plan.headers.is_empty());
    assert!(plan.body.is_none());

    // backend responds 200 {"ok":true} and the client sees it verbatim
    let outcome = BackendOutcome::Response {
        status: 200,
        headers: vec![header("content-type", "application/json")],
        body: Ok(b"{\"ok\":true}".to_vec()),
    };
    match reply_for_outcome(outcome) {
        ForwardReply::Relayed { status, body, .. } => {
            assert_eq!(status, 200);
            assert_eq!(body, b"{\"ok\":true}".to_vec());
        }
        ForwardReply::Failed { .. } => panic!("the example exchange succeeds"),
    }
}
