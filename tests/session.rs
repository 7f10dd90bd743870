use lgtv_tray_remote::json::Reply;
use lgtv_tray_remote::protocol::{button_frame, handshake_payload, request_envelope, CommandResult};
use lgtv_tray_remote::session::{Action, Event, Request, Session, SessionError};

fn start(s: &mut Session, request: Request) -> Action {
    s.step(Event::Start { request })
}

fn received(s: &mut Session, text: &str) -> Action {
    s.step(Event::Received { reply: Reply::decode(text) })
}

fn outcome(a: Action) -> Result<CommandResult, SessionError> {
    match a {
        Action::Finish { outcome, .. } => outcome,
        other => panic!("expected the end of the request, got {:?}", other),
    }
}

fn sent_text(a: Action) -> String {
    match a {
        Action::SendCommand { text } => text,
        other => panic!("expected a command frame, got {:?}", other),
    }
}

const SOCKET_REPLY: &str =
    r#"{"type":"response","id":"cmd_1","payload":{"socketPath":"wss://10.0.0.5:3001/resources/abc/netinput.pointer.sock"}}"#;

/// Drives a connect against a device that registers at once and hands out
/// an input socket.
fn connected_session(credential: Option<&str>) -> Session {
    let mut s = Session::new();
    start(
        &mut s,
        Request::Connect {
            name: "living-room".to_string(),
            ip: "10.0.0.5".to_string(),
            credential: credential.map(|c| c.to_string()),
            use_ssl: true,
        },
    );
    s.step(Event::Opened);
    s.step(Event::Sent);
    received(&mut s, r#"{"type":"registered","payload":{"client-key":"abc123"}}"#);
    s.step(Event::Sent);
    received(&mut s, SOCKET_REPLY);
    let r = outcome(s.step(Event::Opened)).unwrap();
    assert!(r.success);
    s
}

#[test]
fn connect_end_to_end_without_credential() {
    let mut s = Session::new();
    let a = start(
        &mut s,
        Request::Connect {
            name: "living-room".to_string(),
            ip: "10.0.0.5".to_string(),
            credential: None,
            use_ssl: true,
        },
    );
    match a {
        Action::OpenCommand { uri, use_ssl, timeout_secs } => {
            assert_eq!(uri, "wss://10.0.0.5:3001");
            assert!(use_ssl);
            assert_eq!(timeout_secs, 5);
        }
        other => panic!("unexpected {:?}", other),
    }
    let hello = sent_text(s.step(Event::Opened));
    assert!(hello.starts_with(r#"{"type":"register","id":"register_0","payload":{"forcePairing":false,"pairingType":"PROMPT","manifest":"#));
    assert!(!hello.contains("client-key"));
    assert!(matches!(s.step(Event::Sent), Action::Receive { timeout_secs: 60 }));
    let ask = sent_text(received(&mut s, r#"{"type":"registered","payload":{"client-key":"abc123"}}"#));
    assert_eq!(
        ask,
        r#"{"type":"request","id":"cmd_1","uri":"ssap://com.webos.service.networkinput/getPointerInputSocket","payload":{}}"#
    );
    assert!(s.is_connected());
    assert!(matches!(s.step(Event::Sent), Action::Receive { timeout_secs: 3 }));
    match received(&mut s, SOCKET_REPLY) {
        Action::OpenInput { uri, use_ssl } => {
            assert_eq!(uri, "wss://10.0.0.5:3001/resources/abc/netinput.pointer.sock");
            assert!(use_ssl);
        }
        other => panic!("unexpected {:?}", other),
    }
    let r = outcome(s.step(Event::Opened)).unwrap();
    assert!(r.success);
    assert_eq!(r.client_key.as_deref(), Some("abc123"));
    assert_eq!(r.message.as_deref(), Some("Connected"));
    assert!(s.is_connected());
    assert!(s.input_open);
}

#[test]
fn connect_with_credential_uses_short_bound() {
    let mut s = Session::new();
    let a = start(
        &mut s,
        Request::Connect {
            name: "tv".to_string(),
            ip: "192.168.0.2".to_string(),
            credential: Some("k\"1".to_string()),
            use_ssl: false,
        },
    );
    match a {
        Action::OpenCommand { uri, .. } => assert_eq!(uri, "ws://192.168.0.2:3000"),
        other => panic!("unexpected {:?}", other),
    }
    let hello = sent_text(s.step(Event::Opened));
    assert!(hello.contains(r#""client-key":"k\"1","manifest":"#));
    assert_eq!(
        handshake_payload(Some("a\u{1}\n\\")),
        handshake_payload(None).replace("\"manifest\"", "\"client-key\":\"a\\u0001\\n\\\\\",\"manifest\"")
    );
    assert_eq!(hello, handshake_payload(Some("k\"1")));
    assert!(matches!(s.step(Event::Sent), Action::Receive { timeout_secs: 5 }));
}

#[test]
fn pairing_prompts_are_waited_through() {
    let mut s = Session::new();
    start(&mut s, Request::Connect { name: "t".to_string(), ip: "h".to_string(), credential: None, use_ssl: true });
    s.step(Event::Opened);
    s.step(Event::Sent);
    assert!(matches!(
        received(&mut s, r#"{"type":"response","payload":{"pairingType":"PROMPT"}}"#),
        Action::ReceiveMore
    ));
    assert!(matches!(received(&mut s, "not json"), Action::ReceiveMore));
    assert!(matches!(s.step(Event::Received { reply: None }), Action::ReceiveMore));
    assert!(!s.is_connected());
    let a = received(&mut s, r#"{"type":"registered","payload":{}}"#);
    assert!(matches!(a, Action::SendCommand { .. }));
    assert!(s.is_connected());
    assert!(s.credential.is_none());
}

#[test]
fn handshake_timeout_fails_connect() {
    let mut s = Session::new();
    start(&mut s, Request::Connect { name: "t".to_string(), ip: "h".to_string(), credential: None, use_ssl: true });
    s.step(Event::Opened);
    s.step(Event::Sent);
    match s.step(Event::TimedOut) {
        Action::Finish { close_command, outcome: Err(e), .. } => {
            assert!(close_command);
            assert!(matches!(e, SessionError::HandshakeTimeout));
            assert_eq!(e.message(), "Registration timeout - check TV for pairing prompt");
        }
        other => panic!("unexpected {:?}", other),
    }
    assert!(!s.is_connected());
    assert!(!s.command_open);
}

#[test]
fn registration_rejected() {
    let mut s = Session::new();
    start(&mut s, Request::Connect { name: "t".to_string(), ip: "h".to_string(), credential: Some("old".to_string()), use_ssl: true });
    s.step(Event::Opened);
    s.step(Event::Sent);
    let e = outcome(received(&mut s, r#"{"type":"error","error":"403 denied"}"#)).unwrap_err();
    assert_eq!(e.message(), "Registration error: 403 denied");
    let mut s = Session::new();
    start(&mut s, Request::Connect { name: "t".to_string(), ip: "h".to_string(), credential: None, use_ssl: true });
    s.step(Event::Opened);
    s.step(Event::Sent);
    let e = outcome(received(&mut s, r#"{"type":"error"}"#)).unwrap_err();
    assert_eq!(e.message(), "Registration error: Unknown");
}

#[test]
fn connect_failures() {
    let mut s = Session::new();
    start(&mut s, Request::Connect { name: "t".to_string(), ip: "h".to_string(), credential: None, use_ssl: true });
    let e = outcome(s.step(Event::TimedOut)).unwrap_err();
    assert_eq!(e.message(), "Connection timeout");
    start(&mut s, Request::Connect { name: "t".to_string(), ip: "h".to_string(), credential: None, use_ssl: true });
    let e = outcome(s.step(Event::OpenFailed { reason: "WebSocket connection failed: refused".to_string() })).unwrap_err();
    assert_eq!(e.message(), "WebSocket connection failed: refused");
    start(&mut s, Request::Connect { name: "t".to_string(), ip: "h".to_string(), credential: None, use_ssl: true });
    s.step(Event::Opened);
    match s.step(Event::SendFailed { reason: "broken pipe".to_string() }) {
        Action::Finish { close_command: true, outcome: Err(e), .. } => {
            assert_eq!(e.message(), "Failed to send handshake: broken pipe")
        }
        other => panic!("unexpected {:?}", other),
    }
    start(&mut s, Request::Connect { name: "t".to_string(), ip: "h".to_string(), credential: None, use_ssl: true });
    s.step(Event::Opened);
    s.step(Event::Sent);
    let e = outcome(s.step(Event::StreamEnded)).unwrap_err();
    assert_eq!(e.message(), "Connection closed");
    assert!(!s.is_connected());
}

#[test]
fn reconnect_closes_stale_channels_first() {
    let mut s = connected_session(None);
    let a = start(&mut s, Request::Connect { name: "b".to_string(), ip: "10.0.0.7".to_string(), credential: None, use_ssl: false });
    assert!(matches!(a, Action::Close { input: true, command: true }));
    assert!(!s.is_connected());
    match s.step(Event::Closed) {
        Action::OpenCommand { uri, use_ssl, .. } => {
            assert_eq!(uri, "ws://10.0.0.7:3000");
            assert!(!use_ssl);
        }
        other => panic!("unexpected {:?}", other),
    }
}

#[test]
fn write_failure_then_button_fails_without_io() {
    let mut s = connected_session(Some("abc123"));
    let text = sent_text(start(&mut s, Request::VolumeUp));
    assert_eq!(text, request_envelope(2, "ssap://audio/volumeUp", "{}"));
    match s.step(Event::SendFailed { reason: "reset".to_string() }) {
        Action::Finish { close_input, close_command, outcome: Err(e) } => {
            assert!(close_input && close_command);
            assert_eq!(e.message(), "Send failed (disconnected): reset");
        }
        other => panic!("unexpected {:?}", other),
    }
    assert!(!s.is_connected());
    match start(&mut s, Request::Button { name: "up".to_string() }) {
        Action::Finish { close_input: false, close_command: false, outcome: Err(SessionError::NotConnected) } => {}
        other => panic!("unexpected {:?}", other),
    }
    assert_eq!(SessionError::NotConnected.message(), "Not connected");
}

#[test]
fn input_only_failure_keeps_session_and_button_reopens() {
    let mut s = connected_session(None);
    assert!(matches!(start(&mut s, Request::RefreshInput), Action::Close { input: true, command: false }));
    let ask = sent_text(s.step(Event::Closed));
    assert_eq!(ask, request_envelope(2, "ssap://com.webos.service.networkinput/getPointerInputSocket", "{}"));
    s.step(Event::Sent);
    assert!(matches!(received(&mut s, SOCKET_REPLY), Action::OpenInput { .. }));
    let e = outcome(s.step(Event::OpenFailed { reason: "socket closed by peer".to_string() })).unwrap_err();
    assert_eq!(e.message(), "socket closed by peer");
    assert!(s.is_connected());
    assert!(!s.input_open);
    let ask = sent_text(start(&mut s, Request::Button { name: "enter".to_string() }));
    assert!(ask.contains("getPointerInputSocket"));
    s.step(Event::Sent);
    received(&mut s, SOCKET_REPLY);
    match s.step(Event::Opened) {
        Action::SendInput { text } => assert_eq!(text, "type:button\nname:ENTER\n\n"),
        other => panic!("unexpected {:?}", other),
    }
    assert!(outcome(s.step(Event::Sent)).unwrap().success);
    assert!(s.is_connected());
}

#[test]
fn button_frame_is_upper_case() {
    let mut s = connected_session(None);
    match start(&mut s, Request::Button { name: "left".to_string() }) {
        Action::SendInput { text } => assert_eq!(text, "type:button\nname:LEFT\n\n"),
        other => panic!("unexpected {:?}", other),
    }
    assert_eq!(button_frame("Home"), "type:button\nname:HOME\n\n");
}

#[test]
fn button_write_failure_drops_session() {
    let mut s = connected_session(None);
    start(&mut s, Request::Button { name: "up".to_string() });
    let e = outcome(s.step(Event::SendFailed { reason: "eof".to_string() })).unwrap_err();
    assert_eq!(e.message(), "Button send failed (disconnected): eof");
    assert!(!s.is_connected());
    assert!(!s.input_open);
}

#[test]
fn button_reopen_failure_keeps_session() {
    let mut s = connected_session(None);
    start(&mut s, Request::RefreshInput);
    s.step(Event::Closed);
    s.step(Event::Sent);
    received(&mut s, SOCKET_REPLY);
    s.step(Event::OpenFailed { reason: "x".to_string() });
    start(&mut s, Request::Button { name: "up".to_string() });
    s.step(Event::Sent);
    match received(&mut s, r#"{"type":"response","payload":{}}"#) {
        Action::Finish { close_input: false, close_command: false, outcome: Err(e) } => {
            assert_eq!(e.message(), "Failed to connect input socket: No socket path in response")
        }
        other => panic!("unexpected {:?}", other),
    }
    assert!(s.is_connected());
    assert!(s.command_open);
    start(&mut s, Request::Button { name: "up".to_string() });
    s.step(Event::Sent);
    received(&mut s, SOCKET_REPLY);
    let e = outcome(s.step(Event::OpenFailed { reason: "refused".to_string() })).unwrap_err();
    assert_eq!(e.message(), "Failed to connect input socket: refused");
    assert!(s.is_connected());
}

#[test]
fn command_reply_is_handed_back() {
    let mut s = connected_session(None);
    let t = sent_text(start(
        &mut s,
        Request::Command { uri: "ssap://tv/getChannelList".to_string(), payload: Some(r#"{"a":1}"#.to_string()) },
    ));
    assert_eq!(t, r#"{"type":"request","id":"cmd_2","uri":"ssap://tv/getChannelList","payload":{"a":1}}"#);
    s.step(Event::Sent);
    assert!(matches!(s.step(Event::Received { reply: None }), Action::ReceiveMore));
    assert!(matches!(received(&mut s, "{oops"), Action::ReceiveMore));
    let reply = r#"{"type":"response","id":"cmd_9","payload":{"channels":[]}}"#;
    let r = outcome(received(&mut s, reply)).unwrap();
    assert_eq!(r.payload.as_deref(), Some(reply));
    assert!(r.success && r.message.is_none() && r.mac.is_none());
    let t = sent_text(start(&mut s, Request::Command { uri: "ssap://x".to_string(), payload: None }));
    assert!(t.ends_with(r#""payload":{}}"#));
}

#[test]
fn status_probe_returns_first_answer_without_error() {
    let mut s = connected_session(None);
    let t = sent_text(start(&mut s, Request::NetworkStatus));
    assert!(t.contains("ssap://com.webos.service.connectionmanager/getStatus"));
    s.step(Event::Sent);
    let t = sent_text(received(&mut s, r#"{"error":"404"}"#));
    assert!(t.contains("ssap://com.webos.service.wifi/getstatus"));
    s.step(Event::Sent);
    let reply = r#"{"payload":{"wifi":{"state":"connected"}}}"#;
    let r = outcome(received(&mut s, reply)).unwrap();
    assert_eq!(r.payload.as_deref(), Some(reply));
}

#[test]
fn status_probe_reports_last_error() {
    let mut s = connected_session(None);
    start(&mut s, Request::NetworkStatus);
    s.step(Event::Sent);
    received(&mut s, r#"{"error":"first"}"#);
    s.step(Event::Sent);
    received(&mut s, r#"{"error":"second"}"#);
    s.step(Event::Sent);
    let e = outcome(received(&mut s, r#"{"error":"404 no such service"}"#)).unwrap_err();
    assert_eq!(e.message(), "404 no such service");
    assert!(s.is_connected());
    start(&mut s, Request::NetworkStatus);
    s.step(Event::Sent);
    received(&mut s, r#"{"error":1}"#);
    s.step(Event::Sent);
    received(&mut s, r#"{"error":1}"#);
    s.step(Event::Sent);
    let e = outcome(received(&mut s, r#"{"error":null}"#)).unwrap_err();
    assert_eq!(e.message(), "unknown");
}

#[test]
fn status_probe_send_failure_is_returned() {
    let mut s = connected_session(None);
    start(&mut s, Request::NetworkStatus);
    let e = outcome(s.step(Event::SendFailed { reason: "gone".to_string() })).unwrap_err();
    assert_eq!(e.message(), "Send failed (disconnected): gone");
    assert!(!s.is_connected());
}

#[test]
fn plain_results_carry_nothing_else() {
    let mut s = connected_session(None);
    start(&mut s, Request::Button { name: "up".to_string() });
    let r = outcome(s.step(Event::Sent)).unwrap();
    assert!(r.success && r.message.is_none() && r.error.is_none() && r.client_key.is_none());
    assert!(r.mac.is_none() && r.payload.is_none());
}

#[test]
fn replies_are_read_by_pointer() {
    let r = Reply::decode(
        r#"{"type":"registered","error":"e","payload":{"client-key":"k","socketPath":"p","isConnected":true,"networkInfo":{}},"status":"s"}"#,
    )
    .unwrap();
    assert_eq!(r.kind.as_deref(), Some("registered"));
    assert_eq!(r.error.as_deref(), Some("e"));
    assert!(r.has_error);
    assert_eq!(r.client_key.as_deref(), Some("k"));
    assert_eq!(r.socket_path.as_deref(), Some("p"));
    assert_eq!(r.is_connected, Some(true));
    assert_eq!(r.status.as_deref(), Some("s"));
    assert!(r.payload_network_info);
    assert!(!r.network_info);
    let r = Reply::decode(r#"{"error":{"code":3},"payload":{"client-key":7}}"#).unwrap();
    assert!(r.has_error && r.error.is_none() && r.client_key.is_none() && r.kind.is_none());
    assert!(Reply::decode("[1,").is_none());
}

#[test]
fn reply_timeout_drops_session() {
    let mut s = connected_session(None);
    start(&mut s, Request::SetMute { mute: true });
    s.step(Event::Sent);
    assert!(matches!(received(&mut s, "garbage"), Action::ReceiveMore));
    let e = outcome(s.step(Event::TimedOut)).unwrap_err();
    assert_eq!(e.message(), "Command timeout (disconnected)");
    assert!(!s.is_connected());
}

#[test]
fn mute_and_volume_requests() {
    let mut s = connected_session(None);
    let t = sent_text(start(&mut s, Request::SetMute { mute: true }));
    assert_eq!(t, r#"{"type":"request","id":"cmd_2","uri":"ssap://audio/setMute","payload":{"mute":true}}"#);
    s.step(Event::Sent);
    assert!(outcome(received(&mut s, r#"{"type":"response","id":"cmd_2","payload":{"returnValue":true}}"#)).unwrap().success);
    let t = sent_text(start(&mut s, Request::SetMute { mute: false }));
    assert!(t.ends_with(r#""payload":{"mute":false}}"#));
    s.step(Event::Sent);
    received(&mut s, "{}");
    let t = sent_text(start(&mut s, Request::VolumeDown));
    assert!(t.contains(r#""id":"cmd_4","uri":"ssap://audio/volumeDown""#));
    s.step(Event::Sent);
    received(&mut s, "{}");
    let t = sent_text(start(&mut s, Request::Keepalive));
    assert!(t.contains("ssap://com.webos.service.connectionmanager/getinfo"));
    assert!(s.is_connected());
}

#[test]
fn power_off_disconnects() {
    let mut s = connected_session(None);
    let t = sent_text(start(&mut s, Request::PowerOff));
    assert!(t.contains("ssap://system/turnOff"));
    s.step(Event::Sent);
    match received(&mut s, r#"{"type":"response","payload":{"returnValue":true}}"#) {
        Action::Finish { close_input: true, close_command: true, outcome: Ok(r) } => {
            assert_eq!(r.message.as_deref(), Some("TV powered off"))
        }
        other => panic!("unexpected {:?}", other),
    }
    assert!(!s.is_connected());
}

#[test]
fn disconnect_closes_everything() {
    let mut s = connected_session(None);
    match start(&mut s, Request::Disconnect) {
        Action::Finish { close_input: true, close_command: true, outcome: Ok(r) } => assert!(r.success),
        other => panic!("unexpected {:?}", other),
    }
    assert!(!s.is_connected());
    assert!(s.credential.is_none());
    match start(&mut s, Request::Disconnect) {
        Action::Finish { close_input: false, close_command: false, outcome: Ok(_) } => {}
        other => panic!("unexpected {:?}", other),
    }
}

#[test]
fn one_request_at_a_time() {
    let mut s = connected_session(None);
    start(&mut s, Request::VolumeUp);
    assert!(matches!(outcome(start(&mut s, Request::VolumeDown)), Err(SessionError::Busy)));
    assert!(matches!(outcome(s.step(Event::Opened)), Err(SessionError::Unexpected)));
    assert!(matches!(s.step(Event::Sent), Action::Receive { .. }));
}

#[test]
fn mac_of_wired_interface_when_connected() {
    let mut s = connected_session(None);
    let t = sent_text(start(&mut s, Request::FetchMac));
    assert!(t.contains("connectionmanager/getinfo"));
    s.step(Event::Sent);
    let t = sent_text(received(
        &mut s,
        r#"{"payload":{"wifiInfo":{"macAddress":"aa:aa:aa:aa:aa:aa"},"wiredInfo":{"macAddress":"bb:bb:bb:bb:bb:bb"}}}"#,
    ));
    assert!(t.contains("ssap://com.webos.service.connectionmanager/getStatus"));
    s.step(Event::Sent);
    let r = outcome(received(&mut s, r#"{"payload":{"wired":{"state":"connected"},"wifi":{"state":"connected"}}}"#)).unwrap();
    assert_eq!(r.mac.as_deref(), Some("bb:bb:bb:bb:bb:bb"));
}

#[test]
fn mac_status_fallback_chain() {
    let mut s = connected_session(None);
    start(&mut s, Request::FetchMac);
    s.step(Event::Sent);
    received(&mut s, r#"{"payload":{"wifiInfo":{"macAddress":"aa"},"wiredInfo":{"macAddress":"bb"}}}"#);
    s.step(Event::Sent);
    let t = sent_text(received(&mut s, r#"{"error":"404 no such service"}"#));
    assert!(t.contains("ssap://com.webos.service.wifi/getstatus"));
    s.step(Event::Sent);
    let t = sent_text(received(&mut s, r#"{"error":"404"}"#));
    assert!(t.contains("ssap://com.palm.wifi/getStatus"));
    s.step(Event::Sent);
    let r = outcome(received(&mut s, r#"{"error":"404"}"#)).unwrap();
    assert_eq!(r.mac.as_deref(), Some("aa"));
    assert!(s.is_connected());
}

#[test]
fn mac_of_wifi_by_status_shape() {
    let mut s = connected_session(None);
    start(&mut s, Request::FetchMac);
    s.step(Event::Sent);
    received(&mut s, r#"{"payload":{"wiredInfo":{"macAddress":"bb"}}}"#);
    s.step(Event::Sent);
    received(&mut s, r#"{"error":"404"}"#);
    s.step(Event::Sent);
    let r = outcome(received(&mut s, r#"{"status":"connectionStateChanged","payload":{}}"#)).unwrap();
    assert_eq!(r.mac.as_deref(), Some("bb"));
}

#[test]
fn mac_status_failure_falls_back_but_disconnects() {
    let mut s = connected_session(None);
    start(&mut s, Request::FetchMac);
    s.step(Event::Sent);
    received(&mut s, r#"{"payload":{"wifiInfo":{"macAddress":"aa"}}}"#);
    s.step(Event::Sent);
    let r = outcome(s.step(Event::TimedOut)).unwrap();
    assert_eq!(r.mac.as_deref(), Some("aa"));
    assert!(!s.is_connected());
}

#[test]
fn connect_reports_success_when_input_socket_missing() {
    let mut s = Session::new();
    start(&mut s, Request::Connect { name: "t".to_string(), ip: "h".to_string(), credential: None, use_ssl: true });
    s.step(Event::Opened);
    s.step(Event::Sent);
    received(&mut s, r#"{"type":"registered","payload":{"client-key":"new"}}"#);
    s.step(Event::Sent);
    let r = outcome(received(&mut s, r#"{"type":"response","payload":{}}"#)).unwrap();
    assert_eq!(r.client_key.as_deref(), Some("new"));
    assert!(s.is_connected());
    assert!(!s.input_open);
}

#[test]
fn commands_while_disconnected_fail_fast() {
    let mut s = Session::new();
    for r in [Request::VolumeUp, Request::PowerOff, Request::Keepalive, Request::FetchMac, Request::RefreshInput] {
        assert!(matches!(outcome(start(&mut s, r)), Err(SessionError::NotConnected)));
    }
    assert_eq!(s.msg_id, 0);
}
