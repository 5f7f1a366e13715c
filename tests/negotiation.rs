use stn_notice::config::MailConfig;
use stn_notice::error::NegotiationError;
use stn_notice::transport::{
    config_is_complete, negotiate, probe_request, NegotiationState, Negotiator, ProbeOutcome,
    ProbeScript, TlsMode, TransportConfig,
};

fn config(host: &str, user: &str, password: &str) -> TransportConfig {
    TransportConfig {
        host: host.to_string(),
        port: None,
        username: user.to_string(),
        password: password.to_string(),
        connect_timeout_secs: None,
    }
}

#[test]
fn second_variant_is_used_when_the_first_fails() {
    let c = config("smtp.example.com", "bot@example.com", "app-password");
    let script = ProbeScript { tls: ProbeOutcome::TransportError, starttls: ProbeOutcome::Established };
    let run = negotiate(&c, script);
    assert_eq!(run.result, Ok(TlsMode::STARTTLS));
    assert_eq!(run.attempts, vec![TlsMode::TLS, TlsMode::STARTTLS]);
}

#[test]
fn first_success_ends_the_negotiation() {
    let c = config("smtp.example.com", "bot@example.com", "pw");
    let script = ProbeScript { tls: ProbeOutcome::Established, starttls: ProbeOutcome::Established };
    let run = negotiate(&c, script);
    assert_eq!(run.result, Ok(TlsMode::TLS));
    assert_eq!(run.attempts, vec![TlsMode::TLS]);
}

#[test]
fn all_variants_failing_is_all_transports_failed() {
    let c = config("smtp.example.com", "bot@example.com", "pw");
    let script = ProbeScript { tls: ProbeOutcome::NotConfirmed, starttls: ProbeOutcome::TransportError };
    let run = negotiate(&c, script);
    assert_eq!(run.result, Err(NegotiationError::AllTransportsFailed));
    assert_eq!(run.attempts.len(), 2);
    assert_eq!(run.attempts, vec![TlsMode::TLS, TlsMode::STARTTLS]);
}

#[test]
fn empty_password_is_config_invalid_without_attempts() {
    let c = config("smtp.example.com", "bot@example.com", "");
    let script = ProbeScript { tls: ProbeOutcome::Established, starttls: ProbeOutcome::Established };
    let run = negotiate(&c, script);
    assert_eq!(run.result, Err(NegotiationError::ConfigInvalid));
    assert!(run.attempts.is_empty());
}

#[test]
fn empty_host_or_username_is_config_invalid() {
    assert!(!config_is_complete(&config("", "u", "p")));
    assert!(!config_is_complete(&config("h", "", "p")));
    assert!(config_is_complete(&config("h", "u", "p")));
    let mut n = Negotiator::new();
    assert!(n.start(&config("", "u", "p")).is_none());
    assert_eq!(n.state, NegotiationState::Failed(NegotiationError::ConfigInvalid));
    assert_eq!(n.result(), Some(Err(NegotiationError::ConfigInvalid)));
}

#[test]
fn default_ports_follow_the_variant() {
    let c = config("smtp.example.com", "u", "p");
    assert_eq!(TlsMode::TLS.default_port(), 465);
    assert_eq!(TlsMode::STARTTLS.default_port(), 587);
    assert_eq!(probe_request(&c, TlsMode::TLS).port, 465);
    assert_eq!(probe_request(&c, TlsMode::STARTTLS).port, 587);
}

#[test]
fn explicit_port_and_timeout_are_kept() {
    let mut c = config("smtp.example.com", "u", "p");
    c.port = Some(2525);
    c.connect_timeout_secs = Some(10);
    let req = probe_request(&c, TlsMode::STARTTLS);
    assert_eq!(req.mode, TlsMode::STARTTLS);
    assert_eq!(req.port, 2525);
    assert_eq!(req.timeout_secs, Some(10));
    assert_eq!(req.host, "smtp.example.com");
    assert_eq!(req.username, "u");
    assert_eq!(req.password, "p");
    c.connect_timeout_secs = Some(0);
    assert_eq!(probe_request(&c, TlsMode::TLS).timeout_secs, None);
}

#[test]
fn negotiator_steps_through_the_variants() {
    let c = config("smtp.example.com", "u", "p");
    let mut n = Negotiator::new();
    assert_eq!(n.result(), None);
    let first = n.start(&c).unwrap();
    assert_eq!(first.mode, TlsMode::TLS);
    assert_eq!(n.state, NegotiationState::Trying(TlsMode::TLS));
    // a second start changes nothing
    assert!(n.start(&c).is_none());
    assert_eq!(n.state, NegotiationState::Trying(TlsMode::TLS));
    let second = n.on_outcome(&c, ProbeOutcome::NotConfirmed).unwrap();
    assert_eq!(second.mode, TlsMode::STARTTLS);
    assert!(n.on_outcome(&c, ProbeOutcome::Established).is_none());
    assert_eq!(n.state, NegotiationState::Established(TlsMode::STARTTLS));
    assert_eq!(n.result(), Some(Ok(TlsMode::STARTTLS)));
    // once ended, further outcomes are ignored
    assert!(n.on_outcome(&c, ProbeOutcome::TransportError).is_none());
    assert_eq!(n.state, NegotiationState::Established(TlsMode::STARTTLS));
}

#[test]
fn mail_config_zero_means_absent() {
    let mail = MailConfig {
        smtp_host: "smtp.example.com".to_string(),
        smtp_port: 0,
        smtp_username: "u".to_string(),
        smtp_password: "p".to_string(),
        smtp_timeout: 0,
        smtp_send_to: vec!["a@example.com".to_string()],
    };
    let t = mail.transport_config();
    assert_eq!(t.port, None);
    assert_eq!(t.connect_timeout_secs, None);
    assert_eq!(t.host, "smtp.example.com");
    let mail = MailConfig { smtp_port: 25, smtp_timeout: 30, ..mail };
    let t = mail.transport_config();
    assert_eq!(t.port, Some(25));
    assert_eq!(t.connect_timeout_secs, Some(30));
}
