use ssh_client_core::client::{
    AuthMethod, Client, ConnectAction, ConnectEvent, ConnectPhase, Handler, ServerCheckPolicy,
};
use ssh_client_core::error::SshError;
use ssh_client_core::host::{Host, IpAddress};

fn test_client() -> Client {
    Client::new(
        Host::Hostname("localhost".to_string()),
        22,
        "user".to_string(),
        AuthMethod::Password("secret".to_string()),
    )
}

#[test]
fn connect_success_opens_channel() {
    let mut c = test_client();
    let r = c.connect(&vec![
        ConnectEvent::TransportUp,
        ConnectEvent::AuthAccepted,
        ConnectEvent::ChannelUp,
    ]);
    assert_eq!(r, Ok(()));
    assert!(c.is_connected());
}

#[test]
fn connect_wrong_password_fails_without_channel() {
    let mut c = test_client();
    let r = c.connect(&vec![ConnectEvent::TransportUp, ConnectEvent::AuthRejected]);
    assert_eq!(r, Err(SshError::AuthenticationFailed));
    assert!(!c.is_connected());
}

#[test]
fn connect_transport_failure() {
    let mut c = test_client();
    let r = c.connect(&vec![ConnectEvent::TransportDown]);
    assert_eq!(r, Err(SshError::ConnectionError));
    assert!(!c.is_connected());
}

#[test]
fn connect_channel_open_failure() {
    let mut c = test_client();
    let r = c.connect(&vec![
        ConnectEvent::TransportUp,
        ConnectEvent::AuthAccepted,
        ConnectEvent::ChannelDown,
    ]);
    assert_eq!(r, Err(SshError::ChannelOpenFailed));
    assert!(!c.is_connected());
}

#[test]
fn connect_silent_transport_fails() {
    let mut c = test_client();
    assert_eq!(c.connect(&vec![]), Err(SshError::ConnectionError));
    assert_eq!(
        c.connect(&vec![ConnectEvent::AuthAccepted]),
        Err(SshError::ConnectionError)
    );
}

#[test]
fn reconnect_replaces_channel() {
    let mut c = test_client();
    let up = vec![
        ConnectEvent::TransportUp,
        ConnectEvent::AuthAccepted,
        ConnectEvent::ChannelUp,
    ];
    assert_eq!(c.connect(&up), Ok(()));
    assert_eq!(c.connect(&up), Ok(()));
    assert!(c.is_connected());
}

#[test]
fn connect_step_dials_the_address() {
    let c = Client::new(
        Host::IpAddress(IpAddress::V4(127, 0, 0, 1)),
        2222,
        "root".to_string(),
        AuthMethod::Password("pw".to_string()),
    );
    let (phase, action) = c.connect_step(ConnectPhase::Start, ConnectEvent::Begin);
    assert_eq!(phase, ConnectPhase::Dialing);
    assert_eq!(action, ConnectAction::Dial("127.0.0.1:2222".to_string()));
}

#[test]
fn connect_step_authenticates_with_credentials() {
    let c = test_client();
    let (phase, action) = c.connect_step(ConnectPhase::Dialing, ConnectEvent::TransportUp);
    assert_eq!(phase, ConnectPhase::Authenticating);
    assert_eq!(
        action,
        ConnectAction::Authenticate("user".to_string(), "secret".to_string())
    );
}

#[test]
fn connect_step_failure_actions() {
    let c = test_client();
    let (_, a1) = c.connect_step(ConnectPhase::Dialing, ConnectEvent::TransportDown);
    assert_eq!(a1, ConnectAction::Fail(SshError::ConnectionError));
    let (_, a2) = c.connect_step(ConnectPhase::Authenticating, ConnectEvent::AuthRejected);
    assert_eq!(a2, ConnectAction::Fail(SshError::AuthenticationFailed));
    let (_, a3) = c.connect_step(ConnectPhase::OpeningChannel, ConnectEvent::ChannelDown);
    assert_eq!(a3, ConnectAction::Fail(SshError::ChannelOpenFailed));
    let (phase_up, action_up) = c.connect_step(ConnectPhase::OpeningChannel, ConnectEvent::ChannelUp);
    assert_eq!(phase_up, ConnectPhase::Connected);
    assert_eq!(action_up, ConnectAction::Succeed);
}

#[test]
fn accept_any_policy_accepts() {
    let h = Handler::new(ServerCheckPolicy::AcceptAny);
    assert!(h.check_server_key(&vec![1, 2, 3]));
}

#[test]
fn pinned_policy_accepts_only_pins() {
    let h = Handler::new(ServerCheckPolicy::PinnedFingerprints(vec![
        vec![1, 2, 3],
        vec![4, 5],
    ]));
    assert!(h.check_server_key(&vec![1, 2, 3]));
    assert!(h.check_server_key(&vec![4, 5]));
    assert!(!h.check_server_key(&vec![1, 2]));
    assert!(!h.check_server_key(&vec![9, 9, 9]));
}

#[test]
fn error_messages() {
    assert_eq!(SshError::NotConnected.message(), "not connected");
    assert_eq!(SshError::AuthenticationFailed.message(), "authentication failed");
    assert_eq!(SshError::CommandIncomplete.message(), "command incomplete");
    assert_eq!(SshError::ConnectionError.message(), "connection error");
    assert_eq!(SshError::ChannelOpenFailed.message(), "channel open failed");
    assert_eq!(SshError::OutputTooLarge.message(), "output too large");
    assert_eq!(SshError::Timeout.message(), "timeout");
}
