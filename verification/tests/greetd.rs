use waygreet::framing::{
    byte_order_of, frame_length, frame_message, frame_native, native_byte_order, native_frame_length, u32_from_bytes,
    u32_to_bytes, ByteOrder,
};
use waygreet::greetd::{
    decode_response, encode_request, format_error, AuthFlow, AuthResult, AuthState, DemoAuthenticator,
    ErrorType, MessageType, ProtocolError, Request, Response,
};

fn json(bytes: &[u8]) -> serde_json::Value {
    serde_json::from_slice(bytes).unwrap()
}

#[test]
fn requests_encode_as_greetd_json() {
    let body = encode_request(&AuthFlow::start_request("alice")).unwrap();
    assert_eq!(json(&body), serde_json::from_str::<serde_json::Value>("{\"type\":\"create_session\",\"username\":\"alice\"}").unwrap());

    let body = encode_request(&AuthFlow::respond_request(Some("hunter2"))).unwrap();
    assert_eq!(
        json(&body),
        serde_json::from_str::<serde_json::Value>("{\"type\":\"post_auth_message_response\",\"response\":\"hunter2\"}").unwrap()
    );

    let body = encode_request(&AuthFlow::respond_request(None)).unwrap();
    assert_eq!(
        json(&body),
        serde_json::from_str::<serde_json::Value>("{\"type\":\"post_auth_message_response\",\"response\":null}").unwrap()
    );

    let cmd = vec!["sway".to_string()];
    let env = vec!["XDG_SESSION_TYPE=wayland".to_string()];
    let body = encode_request(&AuthFlow::start_session_request(&cmd, &env)).unwrap();
    assert_eq!(
        json(&body),
        serde_json::from_str::<serde_json::Value>("{\"type\":\"start_session\",\"cmd\":[\"sway\"],\"env\":[\"XDG_SESSION_TYPE=wayland\"]}")
            .unwrap()
    );

    let body = encode_request(&AuthFlow::cancel_request()).unwrap();
    assert_eq!(json(&body), serde_json::from_str::<serde_json::Value>("{\"type\":\"cancel_session\"}").unwrap());
}

#[test]
fn responses_decode_from_greetd_json() {
    assert!(matches!(decode_response(b"{\"type\":\"success\"}"), Ok(Response::Success)));
    match decode_response(b"{\"type\":\"auth_message\",\"auth_message_type\":\"secret\",\"auth_message\":\"Password: \"}") {
        Ok(Response::AuthMessage { auth_message_type, auth_message }) => {
            assert_eq!(auth_message_type, MessageType::Secret);
            assert_eq!(auth_message, "Password: ");
        }
        other => panic!("unexpected {:?}", other),
    }
    match decode_response(b"{\"type\":\"auth_message\",\"auth_message_type\":\"visible\",\"auth_message\":\"Login:\"}") {
        Ok(Response::AuthMessage { auth_message_type, .. }) => assert_eq!(auth_message_type, MessageType::Visible),
        other => panic!("unexpected {:?}", other),
    }
    match decode_response(b"{\"type\":\"auth_message\",\"auth_message_type\":\"info\",\"auth_message\":\"hi\"}") {
        Ok(Response::AuthMessage { auth_message_type, .. }) => assert_eq!(auth_message_type, MessageType::Info),
        other => panic!("unexpected {:?}", other),
    }
    match decode_response(b"{\"type\":\"auth_message\",\"auth_message_type\":\"error\",\"auth_message\":\"oops\"}") {
        Ok(Response::AuthMessage { auth_message_type, .. }) => assert_eq!(auth_message_type, MessageType::Error),
        other => panic!("unexpected {:?}", other),
    }
    match decode_response(b"{\"type\":\"error\",\"error_type\":\"auth_error\",\"description\":\"bad password\"}") {
        Ok(Response::Error { error_type, description }) => {
            assert_eq!(error_type, ErrorType::AuthError);
            assert_eq!(description, "bad password");
        }
        other => panic!("unexpected {:?}", other),
    }
    match decode_response(b"{\"type\":\"error\",\"error_type\":\"error\",\"description\":\"no\"}") {
        Ok(Response::Error { error_type, .. }) => assert_eq!(error_type, ErrorType::Error),
        other => panic!("unexpected {:?}", other),
    }
}

#[test]
fn garbage_is_not_a_response() {
    assert!(matches!(decode_response(b"not json"), Err(ProtocolError::Deserialize)));
    assert!(matches!(decode_response(b"{\"type\":\"launch_rockets\"}"), Err(ProtocolError::Deserialize)));
    assert!(matches!(decode_response(b""), Err(ProtocolError::Deserialize)));
}

#[test]
fn error_messages() {
    assert_eq!(format_error(ErrorType::AuthError, ""), "Authentication failed");
    assert_eq!(format_error(ErrorType::AuthError, "bad password"), "Authentication failed: bad password");
    assert_eq!(format_error(ErrorType::Error, ""), "An error occurred");
    assert_eq!(format_error(ErrorType::Error, "socket closed"), "socket closed");
}

#[test]
fn auth_flow_follows_greetd() {
    let mut flow = AuthFlow::new();
    assert!(matches!(flow.state(), AuthState::Idle));
    let r = flow.on_auth_response(Response::AuthMessage {
        auth_message_type: MessageType::Secret,
        auth_message: "Password:".to_string(),
    });
    match r {
        AuthResult::NeedInput { message_type, message } => {
            assert_eq!(message_type, MessageType::Secret);
            assert_eq!(message, "Password:");
        }
        other => panic!("unexpected {:?}", other),
    }
    assert!(matches!(flow.state(), AuthState::AwaitingAuth { message_type: MessageType::Secret, .. }));
    assert!(matches!(flow.on_auth_response(Response::Success), AuthResult::Success));
    assert!(matches!(flow.state(), AuthState::Authenticated));
    assert!(flow.on_start_response(Response::Success).is_ok());
    assert!(matches!(flow.state(), AuthState::SessionStarted));
    flow.cancel();
    assert!(matches!(flow.state(), AuthState::Idle));
}

#[test]
fn auth_flow_failures() {
    let mut flow = AuthFlow::new();
    match flow.on_auth_response(Response::Error { error_type: ErrorType::AuthError, description: "nope".to_string() }) {
        AuthResult::Failed(m) => assert_eq!(m, "Authentication failed: nope"),
        other => panic!("unexpected {:?}", other),
    }
    match flow.state() {
        AuthState::Error(m) => assert_eq!(m, "Authentication failed: nope"),
        other => panic!("unexpected {:?}", other),
    }
    let mut flow = AuthFlow::new();
    let _ = flow.on_auth_response(Response::Success);
    assert_eq!(
        flow.on_start_response(Response::Error { error_type: ErrorType::Error, description: String::new() }),
        Err("An error occurred".to_string())
    );
    assert!(matches!(flow.state(), AuthState::Authenticated));
    assert_eq!(
        flow.on_start_response(Response::AuthMessage { auth_message_type: MessageType::Info, auth_message: "x".to_string() }),
        Err("Unexpected response when starting session".to_string())
    );
}

#[test]
fn demo_authenticator_accepts_any_password() {
    let mut demo = DemoAuthenticator::new();
    assert!(matches!(demo.state(), AuthState::Idle));
    match demo.start("alice") {
        AuthResult::NeedInput { message_type, message } => {
            assert_eq!(message_type, MessageType::Secret);
            assert_eq!(message, "Password:");
        }
        other => panic!("unexpected {:?}", other),
    }
    match demo.respond(None) {
        AuthResult::Failed(m) => assert_eq!(m, "No password provided"),
        other => panic!("unexpected {:?}", other),
    }
    assert!(matches!(demo.respond(Some("anything")), AuthResult::Success));
    assert!(matches!(demo.state(), AuthState::Authenticated));
    demo.start_session(&["sway".to_string()], &[]);
    assert!(matches!(demo.state(), AuthState::SessionStarted));
    demo.cancel();
    assert!(matches!(demo.state(), AuthState::Idle));
}

#[test]
fn u32_bytes_in_both_orders() {
    assert_eq!(u32_to_bytes(0x0102_0304, ByteOrder::Little), vec![4, 3, 2, 1]);
    assert_eq!(u32_to_bytes(0x0102_0304, ByteOrder::Big), vec![1, 2, 3, 4]);
    assert_eq!(u32_from_bytes(&[4, 3, 2, 1], ByteOrder::Little), 0x0102_0304);
    assert_eq!(u32_from_bytes(&[1, 2, 3, 4], ByteOrder::Big), 0x0102_0304);
    for v in [0u32, 1, 255, 256, 65_535, 0xdead_beef, u32::MAX] {
        for order in [ByteOrder::Little, ByteOrder::Big] {
            assert_eq!(u32_from_bytes(&u32_to_bytes(v, order), order), v);
        }
    }
}

#[test]
fn native_order_matches_to_ne_bytes() {
    let order = native_byte_order();
    assert_eq!(u32_to_bytes(0x0102_0304, order), 0x0102_0304u32.to_ne_bytes().to_vec());
}

#[test]
fn frames_announce_their_length() {
    let order = native_byte_order();
    let body = b"{\"type\":\"cancel_session\"}";
    let frame = frame_message(body, order);
    assert_eq!(frame.len(), body.len() + 4);
    assert_eq!(frame_length(&frame[..4], order), body.len());
    assert_eq!(&frame[4..], &body[..]);
    assert_eq!(frame_message(b"", ByteOrder::Big), vec![0, 0, 0, 0]);
    assert_eq!(frame_message(b"ab", ByteOrder::Little), vec![2, 0, 0, 0, b'a', b'b']);
}

#[test]
fn request_views_keep_their_fields() {
    match AuthFlow::start_session_request(&vec!["a".to_string(), "b".to_string()], &vec![]) {
        Request::StartSession { cmd, env } => {
            assert_eq!(cmd, vec!["a", "b"]);
            assert!(env.is_empty());
        }
        other => panic!("unexpected {:?}", other),
    }
}

#[test]
fn byte_order_from_the_bytes_of_one() {
    assert_eq!(byte_order_of([1, 0, 0, 0]), ByteOrder::Little);
    assert_eq!(byte_order_of([0, 0, 0, 1]), ByteOrder::Big);
    assert_eq!(byte_order_of(1u32.to_ne_bytes()), native_byte_order());
}

#[test]
fn native_frames_use_to_ne_bytes() {
    let body = b"{\"type\":\"success\"}";
    let frame = frame_native(body);
    let mut expected = (body.len() as u32).to_ne_bytes().to_vec();
    expected.extend_from_slice(body);
    assert_eq!(frame, expected);
    assert_eq!(frame_native(b""), 0u32.to_ne_bytes().to_vec());
    assert_eq!(native_frame_length(300u32.to_ne_bytes()), 300);
    assert_eq!(native_frame_length([frame[0], frame[1], frame[2], frame[3]]), body.len());
}
