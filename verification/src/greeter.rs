//! The greeter's conversation with greetd: which user logs in, which session
//! starts, the messages on the wire and the login flow that answers greetd's
//! replies until the session starts or the login fails.
use vstd::prelude::*;

use crate::text::{opt_str_view, opt_view, same_text, views};
use vstd::bytes::{
    lemma_auto_spec_u32_to_from_le_bytes, spec_u32_from_le_bytes, spec_u32_to_le_bytes,
    u32_from_le_bytes, u32_to_le_bytes,
};
use vstd::utf8::encode_utf8;

verus! {

/// A request to greetd (the ones the greeter sends).
#[derive(Debug, PartialEq, Eq)]
pub enum LoginRequest {
    CreateSession { username: String },
    PostAuthMessageResponse { response: Option<String> },
    StartSession { cmd: Vec<String>, env: Vec<String> },
}

/// A request to greetd, as values.
pub enum RequestView {
    CreateSession(Seq<char>),
    PostAuthMessageResponse(Option<Seq<char>>),
    StartSession(Seq<Seq<char>>, Seq<Seq<char>>),
}

impl View for LoginRequest {
    type V = RequestView;

    open spec fn view(&self) -> RequestView {
        match self {
            LoginRequest::CreateSession { username } => RequestView::CreateSession(username@),
            LoginRequest::PostAuthMessageResponse { response } => RequestView::PostAuthMessageResponse(
                opt_view(*response),
            ),
            LoginRequest::StartSession { cmd, env } => RequestView::StartSession(
                views(cmd@),
                views(env@),
            ),
        }
    }
}

/// A reply of greetd, holding what the login flow reads of it.
#[derive(Debug, PartialEq, Eq)]
pub enum LoginReply {
    Success,
    Error { description: String },
    AuthMessage,
}

/// A reply of greetd, as values.
pub enum ReplyView {
    Success,
    Error(Seq<char>),
    AuthMessage,
}

impl View for LoginReply {
    type V = ReplyView;

    open spec fn view(&self) -> ReplyView {
        match self {
            LoginReply::Success => ReplyView::Success,
            LoginReply::Error { description } => ReplyView::Error(description@),
            LoginReply::AuthMessage => ReplyView::AuthMessage,
        }
    }
}

/// What an exchange with greetd gave: a reply, or the text of the error that
/// stopped it.
pub open spec fn answer_view(a: Result<LoginReply, String>) -> Result<ReplyView, Seq<char>> {
    match a {
        Ok(r) => Ok(r@),
        Err(e) => Err(e@),
    }
}

pub open spec fn outcome_view(o: Result<(), String>) -> Result<(), Seq<char>> {
    match o {
        Ok(()) => Ok(()),
        Err(e) => Err(e@),
    }
}

/// How far the login has come: the request whose reply is awaited.
#[derive(Debug, PartialEq, Eq, Structural, Clone, Copy)]
pub enum LoginStage {
    AwaitingSession,
    AwaitingAuth,
    AwaitingStart,
}

/// A login in progress.
pub struct LoginFlow {
    pub stage: LoginStage,
    pub password: String,
    pub session_cmd: String,
}

/// What the login does after a reply: send another request and wait, or end
/// with its outcome.
pub enum LoginStep {
    Continue(LoginFlow, LoginRequest),
    Done(Result<(), String>),
}

/// What the login does after a reply, as values.
pub enum StepView {
    Continue(LoginStage, RequestView),
    Done(Result<(), Seq<char>>),
}

pub open spec fn start_session_request(cmd: Seq<char>) -> RequestView {
    RequestView::StartSession(seq![cmd], seq![])
}

/// The step the login takes in `stage` on `answer`, for the given password and
/// session command.
pub open spec fn login_step(
    stage: LoginStage,
    answer: Result<ReplyView, Seq<char>>,
    password: Seq<char>,
    cmd: Seq<char>,
) -> StepView {
    match answer {
        Err(e) => StepView::Done(Err(e)),
        Ok(ReplyView::Error(d)) => StepView::Done(Err(d)),
        Ok(ReplyView::Success) => match stage {
            LoginStage::AwaitingStart => StepView::Done(Ok(())),
            _ => StepView::Continue(LoginStage::AwaitingStart, start_session_request(cmd)),
        },
        Ok(ReplyView::AuthMessage) => match stage {
            LoginStage::AwaitingSession => StepView::Continue(
                LoginStage::AwaitingAuth,
                RequestView::PostAuthMessageResponse(Some(password)),
            ),
            LoginStage::AwaitingAuth => StepView::Done(
                Err("Unexpected response to PostAuthMessageResponse"@),
            ),
            LoginStage::AwaitingStart => StepView::Done(Err("Unexpected response to StartSession"@)),
        },
    }
}

/// The outcome of a login that starts in `stage` and gets `answers` in turn;
/// `None` while it still waits for a reply.
pub open spec fn login_outcome(
    stage: LoginStage,
    answers: Seq<Result<ReplyView, Seq<char>>>,
    password: Seq<char>,
    cmd: Seq<char>,
) -> Option<Result<(), Seq<char>>>
    decreases answers.len(),
{
    if answers.len() == 0 {
        None
    } else {
        match login_step(stage, answers[0], password, cmd) {
            StepView::Done(r) => Some(r),
            StepView::Continue(next, _) => login_outcome(next, answers.drop_first(), password, cmd),
        }
    }
}

impl LoginFlow {
    pub open spec fn step_view(r: LoginStep, password: Seq<char>, cmd: Seq<char>) -> StepView {
        match r {
            LoginStep::Continue(flow, req) => StepView::Continue(flow.stage, req@),
            LoginStep::Done(o) => StepView::Done(outcome_view(o)),
        }
    }

    /// Starts a login of `username`: the flow, and the session creation to send.
    pub fn start(username: &str, password: &str, session_cmd: &str) -> (r: (LoginFlow, LoginRequest))
        ensures
            r.0.stage == LoginStage::AwaitingSession,
            r.0.password@ == password@,
            r.0.session_cmd@ == session_cmd@,
            r.1@ == RequestView::CreateSession(username@),
    {
        let flow = LoginFlow {
            stage: LoginStage::AwaitingSession,
            password: password.to_string(),
            session_cmd: session_cmd.to_string(),
        };
        (flow, LoginRequest::CreateSession { username: username.to_string() })
    }

    fn start_request(cmd: &String) -> (r: LoginRequest)
        ensures
            r@ == start_session_request(cmd@),
    {
        let cmds = vec![cmd.clone()];
        let env: Vec<String> = Vec::new();
        let r = LoginRequest::StartSession { cmd: cmds, env };
        assert(views(cmds@) =~= seq![cmd@]);
        assert(views(env@) =~= Seq::<Seq<char>>::empty());
        r
    }

    /// Takes greetd's answer to the last request (or the error that ended the
    /// exchange) and says what comes next.
    pub fn on_reply(self, answer: Result<LoginReply, String>) -> (r: LoginStep)
        ensures
            Self::step_view(r, self.password@, self.session_cmd@) == login_step(
                self.stage,
                answer_view(answer),
                self.password@,
                self.session_cmd@,
            ),
            r matches LoginStep::Continue(flow, _) ==> flow.password@ == self.password@
                && flow.session_cmd@ == self.session_cmd@,
    {
        match answer {
            Err(e) => LoginStep::Done(Err(e)),
            Ok(LoginReply::Error { description }) => LoginStep::Done(Err(description)),
            Ok(LoginReply::Success) => {
                if self.stage == LoginStage::AwaitingStart {
                    LoginStep::Done(Ok(()))
                } else {
                    let req = Self::start_request(&self.session_cmd);
                    LoginStep::Continue(
                        LoginFlow {
                            stage: LoginStage::AwaitingStart,
                            password: self.password,
                            session_cmd: self.session_cmd,
                        },
                        req,
                    )
                }
            },
            Ok(LoginReply::AuthMessage) => {
                match self.stage {
                    LoginStage::AwaitingSession => {
                        let req = LoginRequest::PostAuthMessageResponse {
                            response: Some(self.password.clone()),
                        };
                        LoginStep::Continue(
                            LoginFlow {
                                stage: LoginStage::AwaitingAuth,
                                password: self.password,
                                session_cmd: self.session_cmd,
                            },
                            req,
                        )
                    },
                    LoginStage::AwaitingAuth => {
                        LoginStep::Done(
                            Err("Unexpected response to PostAuthMessageResponse".to_string()),
                        )
                    },
                    LoginStage::AwaitingStart => {
                        LoginStep::Done(Err("Unexpected response to StartSession".to_string()))
                    },
                }
            },
        }
    }
}

/// The user who logs in: `USER`, unless it is unset, empty or the greeter's
/// own account, in which case `ERMETE_LOGIN_USER`, or else `ermete`.
pub open spec fn login_user(user: Option<Seq<char>>, login_user: Option<Seq<char>>) -> Seq<char> {
    let env_user = match user {
        Some(u) => u,
        None => Seq::<char>::empty(),
    };
    if env_user == "greeter"@ || env_user.len() == 0 {
        match login_user {
            Some(l) => l,
            None => "ermete"@,
        }
    } else {
        env_user
    }
}

/// The user who logs in, given `USER` and `ERMETE_LOGIN_USER`.
pub fn login_username(user: Option<&str>, login_user_var: Option<&str>) -> (r: String)
    ensures
        r@ == login_user(opt_str_view(user), opt_str_view(login_user_var)),
{
    let env_user: String = match user {
        Some(u) => u.to_string(),
        None => String::new(),
    };
    proof {
        reveal_strlit("greeter");
        reveal_strlit("ermete");
    }
    if same_text(env_user.as_str(), "greeter") || env_user.as_str().unicode_len() == 0 {
        match login_user_var {
            Some(l) => l.to_string(),
            None => "ermete".to_string(),
        }
    } else {
        env_user
    }
}

/// The session command: the installed `ermete-session` script, preferring the
/// one under `/etc/greetd`, else the bare command name.
pub open spec fn session_command_for(etc_exists: bool, local_exists: bool) -> Seq<char> {
    if etc_exists {
        "/etc/greetd/ermete-session"@
    } else if local_exists {
        "/usr/local/bin/ermete-session"@
    } else {
        "ermete-session"@
    }
}

/// The session command, given which of the two install locations exist.
pub fn session_command(etc_exists: bool, local_exists: bool) -> (r: String)
    ensures
        r@ == session_command_for(etc_exists, local_exists),
{
    if etc_exists {
        "/etc/greetd/ermete-session".to_string()
    } else if local_exists {
        "/usr/local/bin/ermete-session".to_string()
    } else {
        "ermete-session".to_string()
    }
}

/// greetd's socket: `GREETD_SOCK`, or `/run/greetd.sock` when it is unset.
pub fn greetd_socket_path(sock: Option<&str>) -> (r: String)
    ensures
        r@ == (match sock {
            Some(s) => s@,
            None => "/run/greetd.sock"@,
        }),
{
    match sock {
        Some(s) => s.to_string(),
        None => "/run/greetd.sock".to_string(),
    }
}

/// The text the greeter shows when a login fails with `e`.
pub fn login_error_text(e: &str) -> (r: String)
    ensures
        r@ == "Accesso non riuscito: "@ + e@,
{
    let mut r = "Accesso non riuscito: ".to_string();
    r.append(e);
    r
}

/// A message on greetd's socket: the payload's UTF-8 byte length as a `u32`,
/// then the payload's bytes. greetd reads the length in the machine's byte
/// order; the library writes it little-endian, the byte order of the targets
/// it supports (x86-64 and AArch64), where the two agree.
pub open spec fn frame(payload: Seq<char>) -> Seq<u8> {
    spec_u32_to_le_bytes(encode_utf8(payload).len() as u32) + encode_utf8(payload)
}

/// Frames a JSON payload for greetd's socket.
pub fn frame_request(payload: &str) -> (r: Vec<u8>)
    ensures
        r@ == frame(payload@),
        r@.len() == 4 + encode_utf8(payload@).len(),
{
    proof {
        lemma_auto_spec_u32_to_from_le_bytes();
    }
    #[verifier::truncate]
    let len = payload.len() as u32;
    let header = u32_to_le_bytes(len);
    let body = payload.as_bytes();
    let mut out: Vec<u8> = Vec::new();
    let mut i: usize = 0;
    while i < 4
        invariant
            i <= 4,
            header@.len() == 4,
            out@ == header@.take(i as int),
        decreases 4 - i,
    {
        out.push(header[i]);
        assert(header@.take(i + 1) =~= header@.take(i as int).push(header@[i as int]));
        i = i + 1;
    }
    assert(header@.take(4) =~= header@);
    let mut j: usize = 0;
    while j < body.len()
        invariant
            j <= body@.len(),
            out@ == header@ + body@.take(j as int),
        decreases body@.len() - j,
    {
        out.push(body[j]);
        assert(body@.take(j + 1) =~= body@.take(j as int).push(body@[j as int]));
        j = j + 1;
    }
    assert(body@.take(body@.len() as int) =~= body@);
    out
}

/// The payload length that a frame's four-byte header announces
/// (little-endian, see `frame`).
pub fn frame_length(header: [u8; 4]) -> (n: u32)
    ensures
        n == spec_u32_from_le_bytes(header@),
{
    u32_from_le_bytes(header.as_slice())
}

/// What `serde_json::to_string` makes of a greetd request: its JSON text, or
/// the text of the error.
pub uninterp spec fn greetd_request_json(req: RequestView) -> Result<Seq<char>, Seq<char>>;

pub open spec fn text_result(r: Result<String, String>) -> Result<Seq<char>, Seq<char>> {
    match r {
        Ok(s) => Ok(s@),
        Err(e) => Err(e@),
    }
}

/// `serde_json::to_string` on the `greetd_ipc::Request` that `req` stands for.
#[verifier::external_body]
fn encode_request(req: LoginRequest) -> (r: Result<String, String>)
    ensures
        text_result(r) == greetd_request_json(req@),
{
    let req = match req {
        LoginRequest::CreateSession { username } => greetd_ipc::Request::CreateSession { username },
        LoginRequest::PostAuthMessageResponse { response } => {
            greetd_ipc::Request::PostAuthMessageResponse { response }
        },
        LoginRequest::StartSession { cmd, env } => greetd_ipc::Request::StartSession { cmd, env },
    };
    serde_json::to_string(&req).map_err(|e| e.to_string())
}

/// What `serde_json::from_slice` makes of greetd's reply bytes: the reply, or
/// the text of the error.
pub uninterp spec fn greetd_reply_json(bytes: Seq<u8>) -> Result<ReplyView, Seq<char>>;

/// `serde_json::from_slice` into a `greetd_ipc::Response`, keeping what the
/// login flow reads of it.
#[verifier::external_body]
fn decode_reply(bytes: &[u8]) -> (r: Result<LoginReply, String>)
    ensures
        answer_view(r) == greetd_reply_json(bytes@),
{
    match serde_json::from_slice::<greetd_ipc::Response>(bytes) {
        Ok(greetd_ipc::Response::Success) => Ok(LoginReply::Success),
        Ok(greetd_ipc::Response::Error { description, .. }) => Ok(LoginReply::Error { description }),
        Ok(greetd_ipc::Response::AuthMessage { .. }) => Ok(LoginReply::AuthMessage),
        Err(e) => Err(e.to_string()),
    }
}

/// The frame that carries `req` to greetd, or the text of the error that
/// stopped its encoding.
pub fn request_frame(req: LoginRequest) -> (r: Result<Vec<u8>, String>)
    ensures
        match greetd_request_json(req@) {
            Ok(text) => r matches Ok(bytes) && bytes@ == frame(text),
            Err(e) => r matches Err(x) && x@ == e,
        },
{
    match encode_request(req) {
        Ok(text) => Ok(frame_request(text.as_str())),
        Err(e) => Err(e),
    }
}

impl LoginFlow {
    /// Takes the payload of greetd's reply to the last request (or the error
    /// that ended the exchange), decodes it and says what comes next.
    pub fn on_reply_bytes(self, payload: Result<Vec<u8>, String>) -> (r: LoginStep)
        ensures
            Self::step_view(r, self.password@, self.session_cmd@) == login_step(
                self.stage,
                match payload {
                    Ok(b) => greetd_reply_json(b@),
                    Err(e) => Err(e@),
                },
                self.password@,
                self.session_cmd@,
            ),
            r matches LoginStep::Continue(flow, _) ==> flow.password@ == self.password@
                && flow.session_cmd@ == self.session_cmd@,
    {
        let answer = match payload {
            Ok(bytes) => decode_reply(bytes.as_slice()),
            Err(e) => Err(e),
        };
        self.on_reply(answer)
    }
}

/// The header of a frame reads back as the length of its payload (modulo
/// 2^32).
pub proof fn law_frame_header_round_trip(payload: Seq<char>)
    ensures
        spec_u32_from_le_bytes(frame(payload).take(4)) == #[verifier::truncate] (encode_utf8(
            payload,
        ).len() as u32),
{
    lemma_auto_spec_u32_to_from_le_bytes();
    let len = #[verifier::truncate] (encode_utf8(payload).len() as u32);
    assert(frame(payload).take(4) =~= spec_u32_to_le_bytes(len));
}

/// A login succeeds exactly when greetd accepts the session creation, either
/// at once or after the password, and then accepts the session start.
pub proof fn law_login_success(
    answers: Seq<Result<ReplyView, Seq<char>>>,
    password: Seq<char>,
    cmd: Seq<char>,
)
    ensures
        login_outcome(LoginStage::AwaitingSession, answers, password, cmd) == Some(
            Ok::<(), Seq<char>>(()),
        ) <==> (answers.len() >= 2 && answers[0] == Ok::<ReplyView, Seq<char>>(
            ReplyView::Success,
        ) && answers[1] == Ok::<ReplyView, Seq<char>>(ReplyView::Success)) || (answers.len() >= 3
            && answers[0] == Ok::<ReplyView, Seq<char>>(ReplyView::AuthMessage) && answers[1]
            == Ok::<ReplyView, Seq<char>>(ReplyView::Success) && answers[2] == Ok::<
            ReplyView,
            Seq<char>,
        >(ReplyView::Success)),
{
    reveal_with_fuel(login_outcome, 4);
    if answers.len() >= 1 {
        let a1 = answers.drop_first();
        if a1.len() >= 1 {
            assert(a1[0] == answers[1]);
            let a2 = a1.drop_first();
            if a2.len() >= 1 {
                assert(a2[0] == answers[2]);
            }
        }
    }
}

/// The password goes to greetd only in answer to an authentication message
/// that follows the session creation.
pub proof fn law_password_only_on_auth_message(
    stage: LoginStage,
    answer: Result<ReplyView, Seq<char>>,
    password: Seq<char>,
    cmd: Seq<char>,
)
    ensures
        (login_step(stage, answer, password, cmd) matches StepView::Continue(
            _,
            RequestView::PostAuthMessageResponse(r),
        )) <==> (stage == LoginStage::AwaitingSession && answer == Ok::<ReplyView, Seq<char>>(
            ReplyView::AuthMessage,
        )),
        login_step(stage, answer, password, cmd) matches StepView::Continue(
            _,
            RequestView::PostAuthMessageResponse(r),
        ) ==> r == Some(password),
{
}

/// The requests that the login sends in answer to `answers`, one after
/// another, when it starts in `stage` (the session creation that opens a
/// login is sent before any answer and is not among them).
pub open spec fn requests_sent(
    stage: LoginStage,
    answers: Seq<Result<ReplyView, Seq<char>>>,
    password: Seq<char>,
    cmd: Seq<char>,
) -> Seq<RequestView>
    decreases answers.len(),
{
    if answers.len() == 0 {
        seq![]
    } else {
        match login_step(stage, answers[0], password, cmd) {
            StepView::Done(_) => seq![],
            StepView::Continue(next, req) => seq![req] + requests_sent(
                next,
                answers.drop_first(),
                password,
                cmd,
            ),
        }
    }
}

/// Once past the session creation, the login never sends the password.
proof fn lemma_no_password_later(
    stage: LoginStage,
    answers: Seq<Result<ReplyView, Seq<char>>>,
    password: Seq<char>,
    cmd: Seq<char>,
)
    requires
        stage != LoginStage::AwaitingSession,
    ensures
        forall|i: int|
            0 <= i < requests_sent(stage, answers, password, cmd).len() ==> !(#[trigger] requests_sent(
                stage,
                answers,
                password,
                cmd,
            )[i] is PostAuthMessageResponse),
    decreases answers.len(),
{
    if answers.len() > 0 {
        match login_step(stage, answers[0], password, cmd) {
            StepView::Done(_) => {},
            StepView::Continue(next, req) => {
                lemma_no_password_later(next, answers.drop_first(), password, cmd);
                let rest = requests_sent(next, answers.drop_first(), password, cmd);
                assert(requests_sent(stage, answers, password, cmd) =~= seq![req] + rest);
            },
        }
    }
}

/// Over any sequence of greetd's answers, the password is sent at most once:
/// only as the first request after the session creation, only when greetd
/// answered that creation with an authentication message, and then as the
/// answer to it. When the first answer is anything else the password is
/// never sent.
pub proof fn law_password_sent_at_most_once(
    answers: Seq<Result<ReplyView, Seq<char>>>,
    password: Seq<char>,
    cmd: Seq<char>,
)
    ensures
        forall|i: int|
            0 <= i < requests_sent(LoginStage::AwaitingSession, answers, password, cmd).len()
                && (#[trigger] requests_sent(
                LoginStage::AwaitingSession,
                answers,
                password,
                cmd,
            )[i] is PostAuthMessageResponse) ==> i == 0 && answers[0] == Ok::<
                ReplyView,
                Seq<char>,
            >(ReplyView::AuthMessage) && requests_sent(
                LoginStage::AwaitingSession,
                answers,
                password,
                cmd,
            )[i] == RequestView::PostAuthMessageResponse(Some(password)),
        answers.len() > 0 && answers[0] != Ok::<ReplyView, Seq<char>>(ReplyView::AuthMessage)
            ==> forall|i: int|
            0 <= i < requests_sent(LoginStage::AwaitingSession, answers, password, cmd).len()
                ==> !(#[trigger] requests_sent(
                LoginStage::AwaitingSession,
                answers,
                password,
                cmd,
            )[i] is PostAuthMessageResponse),
{
    let sent = requests_sent(LoginStage::AwaitingSession, answers, password, cmd);
    if answers.len() > 0 {
        match login_step(LoginStage::AwaitingSession, answers[0], password, cmd) {
            StepView::Done(_) => {},
            StepView::Continue(next, req) => {
                lemma_no_password_later(next, answers.drop_first(), password, cmd);
                let rest = requests_sent(next, answers.drop_first(), password, cmd);
                assert(sent =~= seq![req] + rest);
                assert forall|i: int| 0 <= i < sent.len() && (#[trigger] sent[i] is PostAuthMessageResponse) implies i == 0 by {
                    if i > 0 {
                        assert(sent[i] == rest[i - 1]);
                    }
                }
            },
        }
    }
}

/// Every session start the login asks for runs exactly the flow's session
/// command with an empty environment; in particular, when greetd accepts the
/// session creation without asking for a password, the next request starts
/// that command.
pub proof fn law_session_start_runs_the_command(
    stage: LoginStage,
    answer: Result<ReplyView, Seq<char>>,
    password: Seq<char>,
    cmd: Seq<char>,
)
    ensures
        login_step(stage, answer, password, cmd) matches StepView::Continue(
            _,
            RequestView::StartSession(c, e),
        ) ==> c == seq![cmd] && e == Seq::<Seq<char>>::empty(),
        login_step(LoginStage::AwaitingSession, Ok(ReplyView::Success), password, cmd)
            == StepView::Continue(
            LoginStage::AwaitingStart,
            RequestView::StartSession(seq![cmd], Seq::<Seq<char>>::empty()),
        ),
        login_step(LoginStage::AwaitingAuth, Ok(ReplyView::Success), password, cmd)
            == StepView::Continue(
            LoginStage::AwaitingStart,
            RequestView::StartSession(seq![cmd], Seq::<Seq<char>>::empty()),
        ),
{
}

/// Who logs in: a real `USER` (set, non-empty and not the greeter's own
/// account) is used as is; otherwise `ERMETE_LOGIN_USER` when it is set, and
/// `ermete` only when it is not.
pub proof fn law_login_user_choice(user: Option<Seq<char>>, login: Option<Seq<char>>)
    ensures
        (user is None || user == Some(Seq::<char>::empty()) || user == Some("greeter"@))
            ==> login_user(user, login) == match login {
            Some(l) => l,
            None => "ermete"@,
        },
        (user matches Some(u) && u.len() > 0 && u != "greeter"@) ==> login_user(user, login)
            == user->0,
{
}

/// Every failure ends the login with greetd's own description, and every
/// error of the exchange with its text.
pub proof fn law_errors_end_the_login(
    stage: LoginStage,
    e: Seq<char>,
    password: Seq<char>,
    cmd: Seq<char>,
)
    ensures
        login_step(stage, Ok(ReplyView::Error(e)), password, cmd) == StepView::Done(
            Err::<(), Seq<char>>(e),
        ),
        login_step(stage, Err(e), password, cmd) == StepView::Done(Err::<(), Seq<char>>(e)),
{
}

} // verus!
