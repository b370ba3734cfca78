use ermete::greeter::{
    frame_length, frame_request, greetd_socket_path, login_error_text, login_username,
    request_frame, session_command, LoginFlow, LoginReply, LoginRequest, LoginStage, LoginStep,
};

fn run(replies: Vec<Result<LoginReply, String>>) -> (Vec<LoginRequest>, Option<Result<(), String>>) {
    let (mut flow, first) = LoginFlow::start("bob", "secret", "/usr/local/bin/ermete-session");
    let mut sent = vec![first];
    for reply in replies {
        match flow.on_reply(reply) {
            LoginStep::Continue(next, req) => {
                sent.push(req);
                flow = next;
            }
            LoginStep::Done(outcome) => return (sent, Some(outcome)),
        }
    }
    (sent, None)
}

#[test]
fn login_with_password_starts_the_session() {
    let (sent, outcome) = run(vec![Ok(LoginReply::AuthMessage), Ok(LoginReply::Success), Ok(LoginReply::Success)]);
    assert_eq!(outcome, Some(Ok(())));
    assert_eq!(
        sent,
        vec![
            LoginRequest::CreateSession { username: "bob".to_string() },
            LoginRequest::PostAuthMessageResponse { response: Some("secret".to_string()) },
            LoginRequest::StartSession {
                cmd: vec!["/usr/local/bin/ermete-session".to_string()],
                env: vec![],
            },
        ]
    );
}

#[test]
fn login_without_password_starts_the_session() {
    let (sent, outcome) = run(vec![Ok(LoginReply::Success), Ok(LoginReply::Success)]);
    assert_eq!(outcome, Some(Ok(())));
    assert_eq!(sent.len(), 2);
    assert!(matches!(sent[1], LoginRequest::StartSession { .. }));
}

#[test]
fn login_reports_greetd_errors() {
    let (_, outcome) = run(vec![
        Ok(LoginReply::AuthMessage),
        Ok(LoginReply::Error { description: "auth failed".to_string() }),
    ]);
    assert_eq!(outcome, Some(Err("auth failed".to_string())));
    let (_, outcome) = run(vec![Err("broken pipe".to_string())]);
    assert_eq!(outcome, Some(Err("broken pipe".to_string())));
}

#[test]
fn login_rejects_unexpected_replies() {
    let (_, outcome) = run(vec![Ok(LoginReply::AuthMessage), Ok(LoginReply::AuthMessage)]);
    assert_eq!(outcome, Some(Err("Unexpected response to PostAuthMessageResponse".to_string())));
    let (_, outcome) = run(vec![Ok(LoginReply::Success), Ok(LoginReply::AuthMessage)]);
    assert_eq!(outcome, Some(Err("Unexpected response to StartSession".to_string())));
}

#[test]
fn login_waits_for_replies() {
    let (sent, outcome) = run(vec![Ok(LoginReply::AuthMessage)]);
    assert_eq!(outcome, None);
    assert_eq!(sent.len(), 2);
    let (flow, _) = LoginFlow::start("a", "b", "c");
    assert_eq!(flow.stage, LoginStage::AwaitingSession);
}

#[test]
fn username_and_session_choice() {
    assert_eq!(login_username(Some("alice"), None), "alice");
    assert_eq!(login_username(Some("greeter"), None), "ermete");
    assert_eq!(login_username(Some(""), Some("carol")), "carol");
    assert_eq!(login_username(None, None), "ermete");
    assert_eq!(session_command(true, true), "/etc/greetd/ermete-session");
    assert_eq!(session_command(false, true), "/usr/local/bin/ermete-session");
    assert_eq!(session_command(false, false), "ermete-session");
    assert_eq!(greetd_socket_path(None), "/run/greetd.sock");
    assert_eq!(greetd_socket_path(Some("/tmp/s")), "/tmp/s");
    assert_eq!(login_error_text("no"), "Accesso non riuscito: no");
}

fn payload_of(frame: Vec<u8>) -> String {
    let header = [frame[0], frame[1], frame[2], frame[3]];
    assert_eq!(frame_length(header) as usize, frame.len() - 4);
    String::from_utf8(frame[4..].to_vec()).unwrap()
}

#[test]
fn requests_frame_as_greetd_json() {
    let f = request_frame(LoginRequest::CreateSession { username: "bob".to_string() }).unwrap();
    assert_eq!(payload_of(f), r#"{"type":"create_session","username":"bob"}"#);
    let f = request_frame(LoginRequest::PostAuthMessageResponse { response: Some("pw".to_string()) }).unwrap();
    assert_eq!(payload_of(f), r#"{"type":"post_auth_message_response","response":"pw"}"#);
    let f = request_frame(LoginRequest::StartSession { cmd: vec!["sh".to_string()], env: vec![] }).unwrap();
    assert_eq!(payload_of(f), r#"{"type":"start_session","cmd":["sh"],"env":[]}"#);
}

fn step_on(stage_replies: &[&[u8]], last: Result<Vec<u8>, String>) -> LoginStep {
    let (mut flow, _) = LoginFlow::start("bob", "pw", "sh");
    for r in stage_replies {
        match flow.on_reply_bytes(Ok(r.to_vec())) {
            LoginStep::Continue(next, _) => flow = next,
            LoginStep::Done(_) => panic!("finished early"),
        }
    }
    flow.on_reply_bytes(last)
}

#[test]
fn replies_decode_from_greetd_json() {
    let auth = br#"{"type":"auth_message","auth_message_type":"secret","auth_message":"Password:"}"#;
    match step_on(&[], Ok(auth.to_vec())) {
        LoginStep::Continue(flow, req) => {
            assert_eq!(flow.stage, LoginStage::AwaitingAuth);
            assert_eq!(req, LoginRequest::PostAuthMessageResponse { response: Some("pw".to_string()) });
        }
        LoginStep::Done(_) => panic!("expected the password request"),
    }
    match step_on(&[auth], Ok(br#"{"type":"error","error_type":"auth_error","description":"bad"}"#.to_vec())) {
        LoginStep::Done(outcome) => assert_eq!(outcome, Err("bad".to_string())),
        LoginStep::Continue(..) => panic!("expected the end"),
    }
    match step_on(&[auth, br#"{"type":"success"}"#], Ok(br#"{"type":"success"}"#.to_vec())) {
        LoginStep::Done(outcome) => assert_eq!(outcome, Ok(())),
        LoginStep::Continue(..) => panic!("expected the end"),
    }
    match step_on(&[], Ok(b"not json".to_vec())) {
        LoginStep::Done(outcome) => assert!(outcome.is_err()),
        LoginStep::Continue(..) => panic!("expected the end"),
    }
    match step_on(&[], Err("closed".to_string())) {
        LoginStep::Done(outcome) => assert_eq!(outcome, Err("closed".to_string())),
        LoginStep::Continue(..) => panic!("expected the end"),
    }
}

#[test]
fn frames_carry_their_length() {
    let frame = frame_request("héllo");
    assert_eq!(frame.len(), 4 + "héllo".len());
    assert_eq!(&frame[..4], &(6u32).to_le_bytes());
    assert_eq!(&frame[4..], "héllo".as_bytes());
    let header = [frame[0], frame[1], frame[2], frame[3]];
    assert_eq!(frame_length(header), 6);
}
