use i3_ipc::dispatch::{subscribe_payload, ModeError, Session};
use i3_ipc::frame::{decode_frame, encode_frame};
use i3_ipc::types::{DecodeError, Event, Message, Response};

#[test]
fn message_wire_codes() {
    assert_eq!(Message::RunCommand.to_u32(), 0);
    assert_eq!(Message::GetWorkspace.to_u32(), 1);
    assert_eq!(Message::Subscribe.to_u32(), 2);
    assert_eq!(Message::from_u32(0), Ok(Message::RunCommand));
    assert_eq!(Message::from_u32(1), Ok(Message::GetWorkspace));
    assert_eq!(Message::from_u32(2), Ok(Message::Subscribe));
    assert_eq!(Message::from_u32(3), Err(DecodeError::UnknownKind));
    assert_eq!(Message::from_u32(0x8000_0000), Err(DecodeError::UnknownKind));
}

#[test]
fn event_names_are_canonical_and_lowercase() {
    let all = [
        (Event::Workspace, "workspace"),
        (Event::Output, "output"),
        (Event::Mode, "mode"),
        (Event::Window, "window"),
        (Event::BarConfigUpdate, "barconfigupdate"),
        (Event::Binding, "binding"),
        (Event::Shutdown, "shutdown"),
        (Event::Tick, "tick"),
    ];
    for (event, name) in all {
        assert_eq!(event.as_str(), name);
        assert_eq!(event.name_bytes(), name.as_bytes().to_vec());
    }
}

#[test]
fn subscription_payload_exact_bytes() {
    let events = vec![Event::Workspace, Event::Output];
    let payload = subscribe_payload(&events);
    assert_eq!(payload, br#"["workspace", "output"]"#.to_vec());
}

#[test]
fn subscription_payload_keeps_order_and_duplicates() {
    let events = vec![Event::Output, Event::Workspace, Event::Output];
    let payload = subscribe_payload(&events);
    assert_eq!(payload, br#"["output", "workspace", "output"]"#.to_vec());
}

#[test]
fn subscription_payload_of_no_events() {
    let payload = subscribe_payload(&Vec::new());
    assert_eq!(payload, b"[]".to_vec());
}

#[test]
fn command_round_trip_against_mock_peer() {
    // The mock peer answers a RunCommand frame carrying "workspace 8"
    // with a kind-0 frame carrying one successful command result.
    let mut session = Session::new();
    let request = session
        .request_frame(Message::RunCommand, &b"workspace 8".to_vec())
        .unwrap();

    let received = decode_frame(&request).unwrap();
    assert!(received.magic_ok);
    assert_eq!(received.kind, 0);
    assert_eq!(received.payload, b"workspace 8".to_vec());
    let reply = encode_frame(0, &br#"[{"success":true,"parse_error":false}]"#.to_vec());

    let reply_frame = decode_frame(&reply).unwrap();
    let response = session
        .accept_reply(Message::RunCommand, &reply_frame.payload)
        .unwrap();
    match response {
        Response::RunCommand(entries) => {
            assert_eq!(entries.len(), 1);
            assert!(entries[0].success);
            assert!(!entries[0].parse_error);
        }
        _ => panic!("expected a RunCommand response"),
    }
    assert!(!session.is_subscribed());
}

#[test]
fn successful_subscription_enters_event_stream_mode() {
    let mut session = Session::new();
    let request = session
        .subscribe_frame(&vec![Event::Workspace, Event::Output])
        .unwrap();
    let received = decode_frame(&request).unwrap();
    assert_eq!(received.kind, 2);
    assert_eq!(received.payload, br#"["workspace", "output"]"#.to_vec());

    let ack = session
        .accept_reply(Message::Subscribe, &br#"{"success":true}"#.to_vec())
        .unwrap();
    assert!(matches!(ack, Response::Subscribe(a) if a.success));
    assert!(session.is_subscribed());

    // Event-stream mode is terminal: no further command request is built.
    let refused = session.request_frame(Message::GetWorkspace, &Vec::new());
    assert!(matches!(refused, Err(ModeError::Subscribed)));
    let refused_sub = session.subscribe_frame(&vec![Event::Tick]);
    assert!(matches!(refused_sub, Err(ModeError::Subscribed)));
}

#[test]
fn failed_subscription_stays_in_request_mode() {
    let mut session = Session::new();
    let _ = session.subscribe_frame(&vec![Event::Tick]).unwrap();
    let ack = session
        .accept_reply(Message::Subscribe, &br#"{"success":false}"#.to_vec())
        .unwrap();
    assert!(matches!(ack, Response::Subscribe(a) if !a.success));
    assert!(!session.is_subscribed());
    assert!(session.request_frame(Message::RunCommand, &b"exit".to_vec()).is_ok());
}

#[test]
fn undecodable_reply_does_not_change_mode() {
    let mut session = Session::new();
    let r = session.accept_reply(Message::Subscribe, &b"not json".to_vec());
    assert!(matches!(r, Err(DecodeError::ShapeMismatch)));
    assert!(!session.is_subscribed());
}
