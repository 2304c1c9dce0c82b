use wss_harness::{
    accept_matches, advance, authority, check_count, client_accepts, connect_url, exit_status,
    first_stage, load_certificates, load_trust_roots, modes_compatible, server_accept_value,
    server_identity_from_pem, server_identity_from_pkcs12, settle, CountRequirement, EndpointConfig,
    HarnessError, Outcome, Role, RunEvent, RunState, Stage, TlsMode,
};

const RFC_KEY: &[u8] = b"dGhlIHNhbXBsZSBub25jZQ==";
const RFC_ACCEPT: &str = "s3pPLMBiTxaQ9kYGzzhZRbK+xOo=";

#[test]
fn count_exactly_one() {
    assert_eq!(check_count(CountRequirement::Exactly(1), 1), Ok(()));
    assert_eq!(
        check_count(CountRequirement::Exactly(1), 0),
        Err(HarnessError::CredentialCount { found: 0 })
    );
    assert_eq!(
        check_count(CountRequirement::Exactly(1), 2),
        Err(HarnessError::CredentialCount { found: 2 })
    );
}

#[test]
fn count_at_least_one() {
    assert_eq!(check_count(CountRequirement::AtLeast(1), 3), Ok(()));
    assert_eq!(
        check_count(CountRequirement::AtLeast(1), 0),
        Err(HarnessError::CredentialCount { found: 0 })
    );
}

#[test]
fn empty_certificate_source_has_no_certificate() {
    assert!(matches!(
        load_certificates(b"", CountRequirement::AtLeast(0)),
        Ok(v) if v.is_empty()
    ));
    assert!(matches!(
        load_trust_roots(b""),
        Err(HarnessError::CredentialCount { found: 0 })
    ));
    assert!(matches!(
        server_identity_from_pem(b"", b""),
        Err(HarnessError::CredentialCount { found: 0 })
    ));
}

#[test]
fn malformed_certificate_is_a_format_error() {
    let pem = b"-----BEGIN CERTIFICATE-----\nnot base64 at all!\n-----END CERTIFICATE-----\n";
    assert!(matches!(
        load_certificates(pem, CountRequirement::Exactly(1)),
        Err(HarnessError::CredentialFormat)
    ));
}

#[test]
fn malformed_pkcs12_is_a_format_error() {
    assert!(matches!(
        server_identity_from_pkcs12(b"not an archive", "mypass"),
        Err(HarnessError::CredentialFormat)
    ));
}

#[test]
fn authority_of_ports() {
    assert_eq!(authority(0), "127.0.0.1:0");
    assert_eq!(authority(7), "127.0.0.1:7");
    assert_eq!(authority(8443), "127.0.0.1:8443");
    assert_eq!(authority(10000), "127.0.0.1:10000");
    assert_eq!(authority(65535), "127.0.0.1:65535");
}

#[test]
fn connect_url_by_mode() {
    assert_eq!(connect_url(TlsMode::Plain, 9001), "ws://127.0.0.1:9001");
    assert_eq!(connect_url(TlsMode::TlsNative, 443), "wss://127.0.0.1:443");
    assert_eq!(connect_url(TlsMode::TlsCustomRoots, 50123), "wss://127.0.0.1:50123");
}

#[test]
fn ephemeral_endpoint_binds_port_zero() {
    let e = EndpointConfig::ephemeral(TlsMode::Plain);
    assert_eq!(e.port, 0);
    assert_eq!(e.bind_address(), "127.0.0.1:0");
}

#[test]
fn mode_compatibility() {
    assert!(modes_compatible(TlsMode::Plain, TlsMode::Plain));
    assert!(modes_compatible(TlsMode::TlsNative, TlsMode::TlsCustomRoots));
    assert!(!modes_compatible(TlsMode::Plain, TlsMode::TlsNative));
    assert!(!modes_compatible(TlsMode::TlsCustomRoots, TlsMode::Plain));
}

#[test]
fn client_stages_over_tls() {
    let m = TlsMode::TlsCustomRoots;
    let s = first_stage(Role::Client, m);
    assert_eq!(s, Stage::Connecting);
    let s = advance(s, m, true);
    assert_eq!(s, Stage::TlsHandshake);
    let s = advance(s, m, true);
    assert_eq!(s, Stage::Upgrading);
    let s = advance(s, m, true);
    assert_eq!(s, Stage::Done(Outcome::Established));
    assert_eq!(advance(s, m, false), Stage::Done(Outcome::Established));
}

#[test]
fn server_stages_without_tls() {
    let m = TlsMode::Plain;
    let s = first_stage(Role::Server, m);
    assert_eq!(s, Stage::Upgrading);
    assert_eq!(
        advance(s, m, false),
        Stage::Done(Outcome::Failed(HarnessError::WebSocketHandshake))
    );
    assert_eq!(first_stage(Role::Client, m), Stage::Connecting);
    assert_eq!(advance(Stage::Connecting, m, true), Stage::Upgrading);
}

#[test]
fn failed_steps_are_attributed() {
    let m = TlsMode::TlsNative;
    assert_eq!(first_stage(Role::Server, m), Stage::TlsHandshake);
    assert_eq!(
        advance(Stage::Connecting, m, false),
        Stage::Done(Outcome::Failed(HarnessError::TcpConnect))
    );
    let failed = advance(Stage::TlsHandshake, m, false);
    assert_eq!(failed, Stage::Done(Outcome::Failed(HarnessError::TlsHandshake)));
    assert_eq!(advance(failed, m, true), failed);
}

#[test]
fn run_result_comes_from_client() {
    let mut r = RunState::new();
    assert!(!r.is_finished());
    assert_eq!(r.exit_status(), None);
    r.on_event(RunEvent::ConnectionFinished(Outcome::Failed(HarnessError::TlsHandshake)));
    r.on_event(RunEvent::ConnectionFinished(Outcome::Established));
    assert!(!r.is_finished());
    r.on_event(RunEvent::ClientFinished(Outcome::Established));
    assert_eq!(r.result, Some(Outcome::Established));
    assert_eq!(r.exit_status(), Some(0));
    assert_eq!((r.established, r.failed), (1, 1));
    r.on_event(RunEvent::AcceptLoopEnded(HarnessError::TcpAccept));
    assert_eq!(r.result, Some(Outcome::Established));
}

#[test]
fn accept_loop_failure_ends_run() {
    let mut r = RunState::new();
    r.on_event(RunEvent::AcceptLoopEnded(HarnessError::TcpAccept));
    assert_eq!(r.result, Some(Outcome::Failed(HarnessError::TcpAccept)));
    assert_eq!(r.exit_status(), Some(1));
    r.on_event(RunEvent::ClientFinished(Outcome::Established));
    assert_eq!(r.result, Some(Outcome::Failed(HarnessError::TcpAccept)));
}

#[test]
fn handler_failures_do_not_decide_run() {
    let mut r = RunState::new();
    for _ in 0..10 {
        r.on_event(RunEvent::ConnectionFinished(Outcome::Failed(HarnessError::WebSocketHandshake)));
    }
    assert_eq!(r.result, None);
    assert_eq!(r.failed, 10);
    let mut full = RunState { established: u64::MAX, failed: 0, result: None };
    full.on_event(RunEvent::ConnectionFinished(Outcome::Established));
    assert_eq!(full.established, u64::MAX);
}

#[test]
fn exit_status_of_outcomes() {
    assert_eq!(exit_status(Outcome::Established), 0);
    assert_eq!(exit_status(Outcome::Failed(HarnessError::TlsHandshake)), 1);
}

#[test]
fn error_classes() {
    assert!(HarnessError::CredentialLoad.is_setup());
    assert!(HarnessError::CredentialCount { found: 2 }.is_setup());
    assert!(HarnessError::TlsConfig.is_setup());
    assert!(!HarnessError::TcpAccept.is_setup());
    assert!(HarnessError::TlsHandshake.is_per_connection());
    assert!(HarnessError::WebSocketHandshake.is_per_connection());
    assert!(!HarnessError::TcpConnect.is_per_connection());
}

#[test]
fn accept_value_of_known_key() {
    assert_eq!(server_accept_value(RFC_KEY), RFC_ACCEPT);
}

#[test]
fn client_accepts_matching_value_only() {
    assert!(client_accepts(RFC_KEY, RFC_ACCEPT));
    let answer = server_accept_value(RFC_KEY);
    assert!(client_accepts(RFC_KEY, &answer));
    assert!(!client_accepts(RFC_KEY, "s3pPLMBiTxaQ9kYGzzhZRbK+xOO="));
    assert!(!client_accepts(b"dGhlIHNhbXBsZSBub25jZR==", RFC_ACCEPT));
    assert!(!client_accepts(RFC_KEY, std::str::from_utf8(RFC_KEY).unwrap()));
}

#[test]
fn accept_matches_compares_text() {
    assert!(accept_matches("abc", "abc"));
    assert!(!accept_matches("abc", "abd"));
    assert!(!accept_matches("abc", "ab"));
    assert!(accept_matches("", ""));
}

#[test]
fn password_with_nul_is_a_format_error() {
    assert!(matches!(
        server_identity_from_pkcs12(b"not an archive", "my\0pass"),
        Err(HarnessError::CredentialFormat)
    ));
}

#[test]
fn settle_unfinished_stages() {
    assert_eq!(settle(Stage::Connecting), Outcome::Failed(HarnessError::TcpConnect));
    assert_eq!(settle(Stage::TlsHandshake), Outcome::Failed(HarnessError::TlsHandshake));
    assert_eq!(settle(Stage::Upgrading), Outcome::Failed(HarnessError::WebSocketHandshake));
    assert_eq!(settle(Stage::Done(Outcome::Established)), Outcome::Established);
}
