use ssh_client_core::channel::Frame;
use ssh_client_core::client::{AuthMethod, Client, ConnectEvent};
use ssh_client_core::error::SshError;
use ssh_client_core::host::Host;

fn connected_client() -> Client {
    let mut c = Client::new(
        Host::Hostname("localhost".to_string()),
        22,
        "user".to_string(),
        AuthMethod::Password("secret".to_string()),
    );
    let r = c.connect(&vec![
        ConnectEvent::TransportUp,
        ConnectEvent::AuthAccepted,
        ConnectEvent::ChannelUp,
    ]);
    assert_eq!(r, Ok(()));
    c
}

#[test]
fn execute_echo_collects_output_and_status() {
    let mut c = connected_client();
    let frames = vec![Frame::Data(b"hi\n".to_vec()), Frame::ExitStatus(0)];
    let r = c.execute("echo hi", &frames).unwrap();
    assert_eq!(r.output, "hi\n");
    assert_eq!(r.exit_status, 0);
}

#[test]
fn execute_exit_status_without_output() {
    let mut c = connected_client();
    let frames = vec![Frame::ExitStatus(7)];
    let r = c.execute("exit 7", &frames).unwrap();
    assert_eq!(r.output, "");
    assert_eq!(r.exit_status, 7);
}

#[test]
fn execute_concatenates_data_in_order() {
    let mut c = connected_client();
    let frames = vec![
        Frame::Data(b"he".to_vec()),
        Frame::Data(b"llo".to_vec()),
        Frame::Data(b" world".to_vec()),
        Frame::ExitStatus(0),
    ];
    let r = c.execute("echo hello world", &frames).unwrap();
    assert_eq!(r.output, "hello world");
}

#[test]
fn execute_stops_at_first_exit_status() {
    let mut c = connected_client();
    let frames = vec![
        Frame::Data(b"x".to_vec()),
        Frame::ExitStatus(3),
        Frame::Data(b"y".to_vec()),
        Frame::ExitStatus(9),
    ];
    let r = c.execute("true", &frames).unwrap();
    assert_eq!(r.output, "x");
    assert_eq!(r.exit_status, 3);
}

#[test]
fn execute_ignores_unknown_frames() {
    let mut c = connected_client();
    let frames = vec![
        Frame::Other,
        Frame::Data(b"a".to_vec()),
        Frame::Other,
        Frame::ExitStatus(0),
    ];
    let r = c.execute("true", &frames).unwrap();
    assert_eq!(r.output, "a");
}

#[test]
fn execute_before_connect_is_not_connected() {
    let mut c = Client::new(
        Host::Hostname("localhost".to_string()),
        22,
        "user".to_string(),
        AuthMethod::Password("secret".to_string()),
    );
    let frames = vec![Frame::ExitStatus(0)];
    assert_eq!(c.execute("true", &frames), Err(SshError::NotConnected));
}

#[test]
fn execute_after_transport_loss_is_not_connected() {
    let mut c = connected_client();
    c.on_transport_lost();
    let frames = vec![Frame::ExitStatus(0)];
    assert_eq!(c.execute("true", &frames), Err(SshError::NotConnected));
}

#[test]
fn execute_dropped_connection_is_incomplete() {
    let mut c = connected_client();
    let frames = vec![Frame::Data(b"partial".to_vec())];
    assert_eq!(c.execute("true", &frames), Err(SshError::CommandIncomplete));
    assert!(!c.is_connected());
}

#[test]
fn two_executions_are_independent() {
    let mut c = connected_client();
    let first = vec![Frame::Data(b"a".to_vec()), Frame::ExitStatus(0)];
    let second = vec![Frame::Data(b"b".to_vec()), Frame::ExitStatus(1)];
    let r1 = c.execute("one", &first).unwrap();
    let r2 = c.execute("two", &second).unwrap();
    assert_eq!(r1.output, "a");
    assert_eq!(r1.exit_status, 0);
    assert_eq!(r2.output, "b");
    assert_eq!(r2.exit_status, 1);
}

#[test]
fn output_over_the_cap_fails() {
    let mut c = Client::new(
        Host::Hostname("localhost".to_string()),
        22,
        "user".to_string(),
        AuthMethod::Password("secret".to_string()),
    );
    c.set_output_limit(4);
    let r = c.connect(&vec![
        ConnectEvent::TransportUp,
        ConnectEvent::AuthAccepted,
        ConnectEvent::ChannelUp,
    ]);
    assert_eq!(r, Ok(()));
    let frames = vec![Frame::Data(b"hello".to_vec()), Frame::ExitStatus(0)];
    assert_eq!(c.execute("true", &frames), Err(SshError::OutputTooLarge));
    assert!(!c.is_connected());
}

#[test]
fn output_at_the_cap_succeeds() {
    let mut c = Client::new(
        Host::Hostname("localhost".to_string()),
        22,
        "user".to_string(),
        AuthMethod::Password("secret".to_string()),
    );
    c.set_output_limit(4);
    let r = c.connect(&vec![
        ConnectEvent::TransportUp,
        ConnectEvent::AuthAccepted,
        ConnectEvent::ChannelUp,
    ]);
    assert_eq!(r, Ok(()));
    let frames = vec![
        Frame::Data(b"hi".to_vec()),
        Frame::Data(b"yo".to_vec()),
        Frame::ExitStatus(0),
    ];
    let res = c.execute("true", &frames).unwrap();
    assert_eq!(res.output, "hiyo");
}

#[test]
fn invalid_bytes_are_replaced_not_fatal() {
    let mut c = connected_client();
    let frames = vec![Frame::Data(vec![0xff, 0xfe]), Frame::ExitStatus(0)];
    let r = c.execute("true", &frames).unwrap();
    assert_eq!(r.output, "\u{FFFD}\u{FFFD}");
    assert_eq!(r.exit_status, 0);
}

#[test]
fn exec_request_carries_the_literal_command() {
    let mut c = connected_client();
    let req = c.begin_execute("ls -l; echo done").unwrap();
    assert!(req.want_reply);
    assert_eq!(req.command, "ls -l; echo done");
}

#[test]
fn frame_by_frame_drive_matches_execute() {
    let mut c = connected_client();
    let _req = c.begin_execute("true").unwrap();
    assert!(!c.on_frame(&Frame::Data(b"ok".to_vec())));
    assert!(!c.on_frame(&Frame::Other));
    assert!(c.on_frame(&Frame::ExitStatus(5)));
    let r = c.finish_execute().unwrap();
    assert_eq!(r.output, "ok");
    assert_eq!(r.exit_status, 5);
    assert!(c.is_connected());
}

#[test]
fn timeout_closes_the_session() {
    let mut c = connected_client();
    let e = c.on_timeout();
    assert_eq!(e, SshError::Timeout);
    assert!(!c.is_connected());
    let frames = vec![Frame::ExitStatus(0)];
    assert_eq!(c.execute("true", &frames), Err(SshError::NotConnected));
}

#[test]
fn frame_by_frame_eof_is_incomplete() {
    let mut c = connected_client();
    let _req = c.begin_execute("true").unwrap();
    assert!(!c.on_frame(&Frame::Data(b"half".to_vec())));
    c.on_channel_eof();
    assert_eq!(c.finish_execute(), Err(SshError::CommandIncomplete));
    assert!(!c.is_connected());
}
