use stn_notice::error::SessionError;
use stn_notice::session::SessionSlot;
use stn_notice::smtp::{envelope_recipients, session_builder};
use stn_notice::transport::{probe_request, TlsMode, TransportConfig};

#[test]
fn session_is_installed_once_and_closed_once() {
    let mut slot: SessionSlot<u32> = SessionSlot::new();
    assert_eq!(slot.get(), Err(SessionError::NotInitialized));
    assert_eq!(slot.close(), Err(SessionError::NotInitialized));
    assert_eq!(slot.install(7), Ok(()));
    assert_eq!(slot.install(8), Err(SessionError::AlreadyInitialized));
    assert_eq!(slot.get(), Ok(&7));
    assert_eq!(slot.close(), Ok(7));
    assert_eq!(slot.get(), Err(SessionError::SessionClosed));
    assert_eq!(slot.close(), Err(SessionError::SessionClosed));
    assert_eq!(slot.install(9), Err(SessionError::SessionClosed));
}

#[test]
fn bad_recipients_are_skipped_in_order() {
    let to = vec![
        "alice@example.com".to_string(),
        "not an address".to_string(),
        "Bob <bob@example.org>".to_string(),
        "".to_string(),
    ];
    let kept = envelope_recipients(&"bot@example.com".to_string(), &to).unwrap();
    assert_eq!(kept, vec!["alice@example.com".to_string(), "Bob <bob@example.org>".to_string()]);
}

#[test]
fn bad_sender_sends_nothing() {
    let to = vec!["alice@example.com".to_string()];
    assert_eq!(envelope_recipients(&"nobody".to_string(), &to), None);
}

#[test]
fn builders_are_made_for_both_variants() {
    let c = TransportConfig {
        host: "smtp.example.com".to_string(),
        port: None,
        username: "u".to_string(),
        password: "p".to_string(),
        connect_timeout_secs: Some(5),
    };
    assert!(session_builder(&probe_request(&c, TlsMode::TLS)).is_ok());
    assert!(session_builder(&probe_request(&c, TlsMode::STARTTLS)).is_ok());
}
