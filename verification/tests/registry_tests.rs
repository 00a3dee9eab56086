use i3_ipc::registry::{
    parse_command_reply, parse_subscribe_reply, parse_workspaces_reply, response_to_json,
};
use i3_ipc::types::{DecodeError, Message, Response, WorkspaceResponse};

#[test]
fn command_reply_single_entry() {
    let payload = br#"[{"success":true,"parse_error":false}]"#.to_vec();
    let v = parse_command_reply(&payload).unwrap();
    assert_eq!(v.len(), 1);
    assert!(v[0].success);
    assert!(!v[0].parse_error);
}

#[test]
fn command_reply_parse_error_defaults_to_false() {
    let payload = br#"[{"success":true}]"#.to_vec();
    let v = parse_command_reply(&payload).unwrap();
    assert_eq!(v.len(), 1);
    assert!(v[0].success);
    assert!(!v[0].parse_error);
}

#[test]
fn command_reply_several_entries() {
    let payload = br#"[{"success":true},{"success":false,"parse_error":true},{"success":true,"parse_error":false}]"#.to_vec();
    let v = parse_command_reply(&payload).unwrap();
    assert_eq!(v.len(), 3);
    assert!(v[0].success && !v[0].parse_error);
    assert!(!v[1].success && v[1].parse_error);
    assert!(v[2].success && !v[2].parse_error);
}

#[test]
fn command_reply_empty_array() {
    let v = parse_command_reply(&b"[]".to_vec()).unwrap();
    assert!(v.is_empty());
}

#[test]
fn command_reply_rejects_malformed_literal() {
    let r = parse_command_reply(&br#"[{"success":tru}]"#.to_vec());
    assert!(matches!(r, Err(DecodeError::ShapeMismatch)));
}

#[test]
fn command_reply_rejects_trailing_bytes() {
    let r = parse_command_reply(&br#"[{"success":true}] x"#.to_vec());
    assert!(matches!(r, Err(DecodeError::ShapeMismatch)));
}

#[test]
fn command_reply_tolerates_whitespace() {
    let payload = b" [ {\"success\" : true ,\n\t\"parse_error\" : false } , { \"success\": false } ]\r\n".to_vec();
    let v = parse_command_reply(&payload).unwrap();
    assert_eq!(v.len(), 2);
    assert!(v[0].success && !v[0].parse_error);
    assert!(!v[1].success);
}

#[test]
fn command_reply_accepts_any_key_order() {
    let payload = br#"[{"parse_error":false,"success":true}]"#.to_vec();
    let v = parse_command_reply(&payload).unwrap();
    assert_eq!(v.len(), 1);
    assert!(v[0].success && !v[0].parse_error);
}

#[test]
fn command_reply_ignores_unknown_members() {
    let payload = br#"[{"id":7,"success":true,"extra":{"a":[1,-2.5e3,null,"s"],"b":{}},"note":"x"}]"#.to_vec();
    let v = parse_command_reply(&payload).unwrap();
    assert_eq!(v.len(), 1);
    assert!(v[0].success && !v[0].parse_error);
}

#[test]
fn command_reply_rejects_duplicate_member() {
    let r = parse_command_reply(&br#"[{"success":true,"success":false}]"#.to_vec());
    assert!(matches!(r, Err(DecodeError::ShapeMismatch)));
}

#[test]
fn command_reply_rejects_missing_success() {
    let r = parse_command_reply(&br#"[{"parse_error":false}]"#.to_vec());
    assert!(matches!(r, Err(DecodeError::ShapeMismatch)));
    let r = parse_command_reply(&br#"[{}]"#.to_vec());
    assert!(matches!(r, Err(DecodeError::ShapeMismatch)));
}

#[test]
fn workspace_query_decodes_single_descriptor() {
    let payload = br#"[{"num":1,"name":"1","visible":true,"focused":true,"urgent":false,"rect":{"x":0,"y":0,"width":1920,"height":1080},"output":"eDP-1"}]"#.to_vec();
    let v = parse_workspaces_reply(&payload).unwrap();
    assert_eq!(v.len(), 1);
    let w = &v[0];
    assert_eq!(w.num, 1);
    assert_eq!(w.name, b"1".to_vec());
    assert!(w.visible);
    assert!(w.focused);
    assert!(!w.urgent);
    assert_eq!(w.rect.x, 0);
    assert_eq!(w.rect.y, 0);
    assert_eq!(w.rect.width, 1920);
    assert_eq!(w.rect.height, 1080);
    assert_eq!(w.output, b"eDP-1".to_vec());
}

#[test]
fn workspace_query_decodes_two_descriptors() {
    let payload = br#"[{"num":1,"name":"one","visible":true,"focused":false,"urgent":false,"rect":{"x":0,"y":0,"width":800,"height":600},"output":"HDMI-0"},{"num":2,"name":"two","visible":false,"focused":true,"urgent":true,"rect":{"x":800,"y":0,"width":800,"height":600},"output":"HDMI-1"}]"#.to_vec();
    let v = parse_workspaces_reply(&payload).unwrap();
    assert_eq!(v.len(), 2);
    assert_eq!(v[0].num, 1);
    assert_eq!(v[1].num, 2);
    assert_eq!(v[1].name, b"two".to_vec());
    assert!(v[1].urgent);
}

#[test]
fn workspace_query_tolerates_whitespace_order_and_extras() {
    let payload = br#" [ { "output" : "eDP-1" , "id" : 94246729644544 , "rect" : { "height" : 1080 , "x" : 0 , "width" : 1920 , "y" : 0 } , "urgent" : false , "name" : "1" , "focused" : true , "visible" : true , "num" : 1 } ] "#.to_vec();
    let v = parse_workspaces_reply(&payload).unwrap();
    assert_eq!(v.len(), 1);
    let w = &v[0];
    assert_eq!(w.num, 1);
    assert_eq!(w.name, b"1".to_vec());
    assert!(w.visible && w.focused && !w.urgent);
    assert_eq!(w.rect.width, 1920);
    assert_eq!(w.rect.height, 1080);
    assert_eq!(w.output, b"eDP-1".to_vec());
}

#[test]
fn workspace_query_rejects_missing_member() {
    // No "output" member anywhere.
    let payload = br#"[{"num":1,"name":"1","visible":true,"focused":true,"urgent":false,"rect":{"x":0,"y":0,"width":1,"height":1}}]"#.to_vec();
    assert!(parse_workspaces_reply(&payload).is_err());
}

#[test]
fn workspace_name_standard_escapes() {
    let payload = b"[{\"num\":4,\"name\":\"a\\n\\t\\/b\\u0041\\u00e9\\u20ac\\ud83d\\ude00\",\"visible\":false,\"focused\":false,\"urgent\":false,\"rect\":{\"x\":0,\"y\":0,\"width\":0,\"height\":0},\"output\":\"o\"}]".to_vec();
    let v = parse_workspaces_reply(&payload).unwrap();
    assert_eq!(v[0].name, "a\n\t/bA\u{e9}\u{20ac}\u{1f600}".as_bytes().to_vec());
}

#[test]
fn lone_surrogate_escape_is_rejected() {
    let payload = b"[{\"num\":4,\"name\":\"\\ud83d\",\"visible\":false,\"focused\":false,\"urgent\":false,\"rect\":{\"x\":0,\"y\":0,\"width\":0,\"height\":0},\"output\":\"o\"}]".to_vec();
    assert!(parse_workspaces_reply(&payload).is_err());
}

#[test]
fn workspace_name_unescapes_quotes_and_backslashes() {
    let payload = br#"[{"num":3,"name":"a\"b\\c","visible":false,"focused":false,"urgent":false,"rect":{"x":1,"y":2,"width":3,"height":4},"output":"x"}]"#.to_vec();
    let v = parse_workspaces_reply(&payload).unwrap();
    assert_eq!(v[0].name, b"a\"b\\c".to_vec());
}

#[test]
fn workspace_numbers_cover_the_full_u64_range() {
    let payload = br#"[{"num":18446744073709551615,"name":"m","visible":false,"focused":false,"urgent":false,"rect":{"x":0,"y":0,"width":0,"height":0},"output":"o"}]"#.to_vec();
    let v = parse_workspaces_reply(&payload).unwrap();
    assert_eq!(v[0].num, u64::MAX);
}

#[test]
fn workspace_number_overflow_is_rejected() {
    let payload = br#"[{"num":18446744073709551616,"name":"m","visible":false,"focused":false,"urgent":false,"rect":{"x":0,"y":0,"width":0,"height":0},"output":"o"}]"#.to_vec();
    assert!(parse_workspaces_reply(&payload).is_err());
}

#[test]
fn workspace_number_leading_zero_is_rejected() {
    let payload = br#"[{"num":01,"name":"m","visible":false,"focused":false,"urgent":false,"rect":{"x":0,"y":0,"width":0,"height":0},"output":"o"}]"#.to_vec();
    assert!(parse_workspaces_reply(&payload).is_err());
    let zero = br#"[{"num":0,"name":"m","visible":false,"focused":false,"urgent":false,"rect":{"x":0,"y":0,"width":0,"height":0},"output":"o"}]"#.to_vec();
    assert_eq!(parse_workspaces_reply(&zero).unwrap()[0].num, 0);
}

#[test]
fn unterminated_workspace_name_is_rejected() {
    let payload = br#"[{"num":3,"name":"a\"#.to_vec();
    assert!(parse_workspaces_reply(&payload).is_err());
    let payload = br#"[{"num":3,"name":"abc"#.to_vec();
    assert!(parse_workspaces_reply(&payload).is_err());
}

#[test]
fn subscribe_reply_tolerates_whitespace_and_extras() {
    let ack = parse_subscribe_reply(&br#" { "ok" : [1,2] , "success" : true } "#.to_vec()).unwrap();
    assert!(ack.success);
}

#[test]
fn dual_shaped_payload_decodes_under_both_kinds() {
    // A workspace descriptor that also carries a "success" member is
    // valid JSON of both reply shapes, so it decodes under either kind;
    // each kind still yields only its own variant.
    let payload = br#"[{"num":1,"name":"1","visible":true,"focused":true,"urgent":false,"rect":{"x":0,"y":0,"width":1,"height":1},"output":"o","success":true}]"#.to_vec();
    let ws = response_to_json(Message::GetWorkspace, &payload);
    assert!(matches!(ws, Ok(Response::GetWorkspace(_))));
    let cmd = response_to_json(Message::RunCommand, &payload);
    match cmd {
        Ok(Response::RunCommand(v)) => {
            assert_eq!(v.len(), 1);
            assert!(v[0].success);
        }
        _ => panic!("expected a RunCommand response"),
    }
}

#[test]
fn subscribe_reply_decodes_both_outcomes() {
    let ok = parse_subscribe_reply(&br#"{"success":true}"#.to_vec()).unwrap();
    assert!(ok.success);
    let no = parse_subscribe_reply(&br#"{"success":false}"#.to_vec()).unwrap();
    assert!(!no.success);
}

#[test]
fn subscribe_reply_rejects_array_shape() {
    let r = parse_subscribe_reply(&br#"[{"success":true}]"#.to_vec());
    assert!(matches!(r, Err(DecodeError::ShapeMismatch)));
}

#[test]
fn kind_locked_workspaces_payload_fails_as_run_command() {
    // A GetWorkspaces-shaped payload must never decode under RunCommand.
    let payload = br#"[{"num":1,"name":"1","visible":true,"focused":true,"urgent":false,"rect":{"x":0,"y":0,"width":1920,"height":1080},"output":"eDP-1"}]"#.to_vec();
    let r = response_to_json(Message::RunCommand, &payload);
    assert!(matches!(r, Err(DecodeError::ShapeMismatch)));
}

#[test]
fn kind_locked_command_payload_fails_as_workspaces() {
    let payload = br#"[{"success":true,"parse_error":false}]"#.to_vec();
    let r = response_to_json(Message::GetWorkspace, &payload);
    assert!(matches!(r, Err(DecodeError::ShapeMismatch)));
}

#[test]
fn response_to_json_wraps_each_kind_in_its_own_variant() {
    let cmd = response_to_json(Message::RunCommand, &br#"[{"success":true}]"#.to_vec());
    assert!(matches!(cmd, Ok(Response::RunCommand(_))));
    let ws = response_to_json(Message::GetWorkspace, &b"[]".to_vec());
    assert!(matches!(ws, Ok(Response::GetWorkspace(_))));
    let sub = response_to_json(Message::Subscribe, &br#"{"success":true}"#.to_vec());
    assert!(matches!(sub, Ok(Response::Subscribe(_))));
}

#[test]
fn workspace_response_new_is_all_empty() {
    let w = WorkspaceResponse::new();
    assert_eq!(w.num, 0);
    assert!(w.name.is_empty());
    assert!(!w.visible && !w.focused && !w.urgent);
    assert_eq!(w.rect.x, 0);
    assert_eq!(w.rect.y, 0);
    assert_eq!(w.rect.width, 0);
    assert_eq!(w.rect.height, 0);
    assert!(w.output.is_empty());
}
