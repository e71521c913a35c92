//! The sign-in session: each step says which request to send, and takes in
//! what came back.
use vstd::prelude::*;

use crate::answers::{first_value, lookup, AnswerMap};
use crate::erp::{
    is_precondition, ErpError, ALIVE_PAGE_LENGTH, ANSWER_MISMATCH_ERROR, BASE_URL, HOMEPAGE_URL,
    LOGIN_URL, OTP_MISMATCH_ERROR, OTP_SENT_MESSAGE, OTP_URL, PASSWORD_MISMATCH_ERROR,
    SECRET_QUESTION_URL, SECRET_QUES_ROLLNO_INVALID, WELCOMEPAGE_URL,
};
use crate::foreign::{
    first_attr, html_first_attr, json_field, json_string_field, opt_view, pairs_view, query_pairs,
    url_query_pairs,
};
use crate::record::{
    parse_session_record, record_fields, record_round_trip, record_text, session_record, storable,
};

verus! {

/// What the user keeps to sign in with.
pub struct ErpCreds {
    /// Student roll number.
    pub roll_number: Option<String>,
    /// ERP password.
    pub password: Option<String>,
    /// Security questions and their answers.
    pub answer_map: Option<AnswerMap>,
}

/// The view of an optional answer map.
pub open spec fn opt_map_view(o: Option<AnswerMap>) -> Option<Map<Seq<char>, Seq<char>>> {
    match o {
        Some(m) => Some(m@),
        None => None,
    }
}

/// A session as plain values: the credentials, and what each step learnt.
pub struct SessionView {
    pub roll_number: Option<Seq<char>>,
    pub password: Option<Seq<char>>,
    pub answer_map: Option<Map<Seq<char>, Seq<char>>>,
    pub question: Option<Seq<char>>,
    pub answer: Option<Seq<char>>,
    pub email_otp: Option<Seq<char>>,
    pub session_token: Option<Seq<char>>,
    pub sso_token: Option<Seq<char>>,
    /// The roll number a question was asked for, until the portal answers.
    pub pending_roll_number: Option<Seq<char>>,
    /// The password and answer of a passcode request, until the portal answers.
    pub pending_login: Option<(Seq<char>, Seq<char>)>,
    /// The passcode of a sign-in, until the portal answers.
    pub pending_otp: Option<Seq<char>>,
}

/// One sign-in to the portal.
pub struct Session {
    credentials: ErpCreds,
    /// The security question for this session.
    question: Option<String>,
    /// The answer to the security question.
    answer: Option<String>,
    /// The passcode for this session.
    email_otp: Option<String>,
    session_token: Option<String>,
    sso_token: Option<String>,
    /// What a step sent, kept until the portal's answer says whether it holds.
    pending_roll_number: Option<String>,
    pending_login: Option<(String, String)>,
    pending_otp: Option<String>,
}

/// The view of an optional pair of strings.
pub open spec fn opt_pair_view(o: Option<(String, String)>) -> Option<(Seq<char>, Seq<char>)> {
    match o {
        Some(p) => Some((p.0@, p.1@)),
        None => None,
    }
}

impl View for Session {
    type V = SessionView;

    closed spec fn view(&self) -> SessionView {
        SessionView {
            roll_number: opt_view(self.credentials.roll_number),
            password: opt_view(self.credentials.password),
            answer_map: opt_map_view(self.credentials.answer_map),
            question: opt_view(self.question),
            answer: opt_view(self.answer),
            email_otp: opt_view(self.email_otp),
            session_token: opt_view(self.session_token),
            sso_token: opt_view(self.sso_token),
            pending_roll_number: opt_view(self.pending_roll_number),
            pending_login: opt_pair_view(self.pending_login),
            pending_otp: opt_view(self.pending_otp),
        }
    }
}

/// A fresh session for `creds`: nothing learnt yet.
pub open spec fn fresh_view(creds: ErpCreds) -> SessionView {
    SessionView {
        roll_number: opt_view(creds.roll_number),
        password: opt_view(creds.password),
        answer_map: opt_map_view(creds.answer_map),
        question: None,
        answer: None,
        email_otp: None,
        session_token: None,
        sso_token: None,
        pending_roll_number: None,
        pending_login: None,
        pending_otp: None,
    }
}

/// The fields of the form that both the passcode request and the sign-in
/// post, in order; the passcode is empty until one is set. The first input
/// that is missing, in the order roll number, password, answer, session
/// token, is the error.
pub open spec fn login_form(v: SessionView) -> Result<Seq<(Seq<char>, Seq<char>)>, ErpError> {
    login_form_of(v.roll_number, v.password, v.answer, v.session_token, v.email_otp)
}

/// The login form for the given inputs.
pub open spec fn login_form_of(
    roll_number: Option<Seq<char>>,
    password: Option<Seq<char>>,
    answer: Option<Seq<char>>,
    session_token: Option<Seq<char>>,
    email_otp: Option<Seq<char>>,
) -> Result<Seq<(Seq<char>, Seq<char>)>, ErpError> {
    match (roll_number, password, answer, session_token) {
        (None, _, _, _) => Err(ErpError::RollNumberMissing),
        (Some(_), None, _, _) => Err(ErpError::PasswordMissing),
        (Some(_), Some(_), None, _) => Err(ErpError::AnswerMissing),
        (Some(_), Some(_), Some(_), None) => Err(ErpError::SessionTokenMissing),
        (Some(user), Some(password), Some(answer), Some(token)) => Ok(
            seq![
                ("user_id"@, user),
                ("password"@, password),
                ("answer"@, answer),
                ("typeee"@, "SI"@),
                ("email_otp"@, match email_otp {
                    Some(otp) => otp,
                    None => Seq::empty(),
                }),
                ("sessionToken"@, token),
                ("requestedUrl"@, HOMEPAGE_URL@),
            ],
        ),
    }
}

/// The view of a form, or of why there is none.
pub open spec fn form_result_view(r: Result<Vec<(String, String)>, ErpError>) -> Result<
    Seq<(Seq<char>, Seq<char>)>,
    ErpError,
> {
    match r {
        Ok(v) => Ok(pairs_view(v@)),
        Err(e) => Err(e),
    }
}

/// Clones an optional string.
fn clone_opt(o: &Option<String>) -> (r: Option<String>)
    ensures
        opt_view(r) == opt_view(*o),
{
    match o {
        Some(s) => Some(s.clone()),
        None => None,
    }
}

/// A pair of strings from two texts.
fn field(name: &str, value: &str) -> (r: (String, String))
    ensures
        r.0@ == name@,
        r.1@ == value@,
{
    (String::from_str(name), String::from_str(value))
}

impl Session {
    /// A session that signs in with `credentials`.
    pub fn new(credentials: ErpCreds) -> (r: Session)
        ensures
            r@ == fresh_view(credentials),
    {
        Session {
            credentials,
            question: None,
            answer: None,
            session_token: None,
            sso_token: None,
            email_otp: None,
            pending_roll_number: None,
            pending_login: None,
            pending_otp: None,
        }
    }

    /// The form that the passcode request and the sign-in post.
    pub fn get_login_details(&self) -> (r: Result<Vec<(String, String)>, ErpError>)
        ensures
            form_result_view(r) == login_form(self@),
    {
        build_form(
            &self.credentials.roll_number,
            &self.credentials.password,
            &self.answer,
            &self.session_token,
            &self.email_otp,
        )
    }
}

/// Builds the login form from its inputs.
fn build_form(
    roll_number: &Option<String>,
    password: &Option<String>,
    answer: &Option<String>,
    session_token: &Option<String>,
    email_otp: &Option<String>,
) -> (r: Result<Vec<(String, String)>, ErpError>)
    ensures
        form_result_view(r) == login_form_of(
            opt_view(*roll_number),
            opt_view(*password),
            opt_view(*answer),
            opt_view(*session_token),
            opt_view(*email_otp),
        ),
{
    let user_id = match roll_number {
        Some(s) => s,
        None => return Err(ErpError::RollNumberMissing),
    };
    let pw = match password {
        Some(s) => s,
        None => return Err(ErpError::PasswordMissing),
    };
    let ans = match answer {
        Some(s) => s,
        None => return Err(ErpError::AnswerMissing),
    };
    let token = match session_token {
        Some(s) => s,
        None => return Err(ErpError::SessionTokenMissing),
    };
    let otp = match email_otp {
        Some(s) => s.as_str(),
        None => "",
    };
    let mut form: Vec<(String, String)> = Vec::new();
    form.push(field("user_id", user_id.as_str()));
    form.push(field("password", pw.as_str()));
    form.push(field("answer", ans.as_str()));
    form.push(field("typeee", "SI"));
    form.push(field("email_otp", otp));
    form.push(field("sessionToken", token.as_str()));
    form.push(field("requestedUrl", HOMEPAGE_URL));
    proof {
        reveal_strlit("");
        assert(otp@ == match opt_view(*email_otp) {
            Some(o) => o,
            None => Seq::<char>::empty(),
        });
        let want = login_form_of(
            opt_view(*roll_number),
            opt_view(*password),
            opt_view(*answer),
            opt_view(*session_token),
            opt_view(*email_otp),
        )->Ok_0;
        assert(pairs_view(form@).len() == want.len());
        assert forall|i: int| 0 <= i < 7 implies pairs_view(form@)[i] == want[i] by {}
        assert(pairs_view(form@) =~= want);
    }
    Ok(form)
}

/// Whatever the session holds, the login form either comes out whole or
/// fails on a missing input, and it fails exactly when one of roll number,
/// password, answer and session token is missing.
pub proof fn login_form_fails_only_on_missing_input(v: SessionView)
    ensures
        login_form(v) is Err <==> (v.roll_number is None || v.password is None || v.answer is None
            || v.session_token is None),
        login_form(v) is Err ==> is_precondition(login_form(v)->Err_0),
        login_form(v) is Ok ==> login_form(v)->Ok_0.len() == 7,
{
}

#[derive(Debug, Clone, Copy, PartialEq, Eq, Structural)]
pub enum HttpMethod {
    Get,
    Post,
}

/// A request for the caller to send: a form-encoded body for a post.
pub struct HttpRequest {
    pub method: HttpMethod,
    pub url: String,
    pub form: Vec<(String, String)>,
}

pub struct RequestView {
    pub method: HttpMethod,
    pub url: Seq<char>,
    pub form: Seq<(Seq<char>, Seq<char>)>,
}

impl View for HttpRequest {
    type V = RequestView;

    open spec fn view(&self) -> RequestView {
        RequestView { method: self.method, url: self.url@, form: pairs_view(self.form@) }
    }
}

/// What to do for the session token: it is known, or the homepage is to be
/// fetched and handed to `accept_homepage`.
pub enum TokenStep {
    Cached(String),
    Fetch(HttpRequest),
}

pub enum TokenStepView {
    Cached(Seq<char>),
    Fetch(RequestView),
}

impl View for TokenStep {
    type V = TokenStepView;

    open spec fn view(&self) -> TokenStepView {
        match self {
            TokenStep::Cached(t) => TokenStepView::Cached(t@),
            TokenStep::Fetch(q) => TokenStepView::Fetch(q@),
        }
    }
}

pub open spec fn homepage_request() -> RequestView {
    RequestView { method: HttpMethod::Get, url: HOMEPAGE_URL@, form: Seq::empty() }
}

/// The session token is fetched once: once known, it is used as it is.
pub open spec fn session_token_step(v: SessionView) -> TokenStepView {
    match v.session_token {
        Some(t) => TokenStepView::Cached(t),
        None => TokenStepView::Fetch(homepage_request()),
    }
}

/// The session token that the homepage carries: the value of its element
/// with id `sessionToken`.
pub open spec fn homepage_token(html: Seq<char>) -> Option<Seq<char>> {
    match html_first_attr(html, "#sessionToken"@, "value"@) {
        Some(Some(t)) => Some(t),
        _ => None,
    }
}

/// The roll number a question is asked for: the stored one, else the given one.
pub open spec fn chosen_roll_number(v: SessionView, given: Option<Seq<char>>) -> Option<Seq<char>> {
    match v.roll_number {
        Some(r) => Some(r),
        None => given,
    }
}

pub open spec fn question_request(roll: Seq<char>) -> RequestView {
    RequestView {
        method: HttpMethod::Post,
        url: SECRET_QUESTION_URL@,
        form: seq![("user_id"@, roll)],
    }
}

/// The password used: the stored one, else the given one.
pub open spec fn chosen_password(v: SessionView, given: Option<Seq<char>>) -> Option<Seq<char>> {
    match v.password {
        Some(p) => Some(p),
        None => given,
    }
}

/// The answer used: the given one, else the one stored for the question.
pub open spec fn chosen_answer(v: SessionView, given: Option<Seq<char>>) -> Option<Seq<char>> {
    match given {
        Some(a) => Some(a),
        None => match (v.answer_map, v.question) {
            (Some(m), Some(q)) => if m.contains_key(q) {
                Some(m[q])
            } else {
                None
            },
            _ => None,
        },
    }
}

/// The session and the request after asking for a passcode, or why not. The
/// form carries the chosen password and answer and an empty passcode; the
/// session keeps them as pending.
pub open spec fn otp_request_outcome(
    v: SessionView,
    password: Option<Seq<char>>,
    answer: Option<Seq<char>>,
) -> Result<(SessionView, RequestView), ErpError> {
    match chosen_password(v, password) {
        None => Err(ErpError::PasswordMissing),
        Some(p) => match chosen_answer(v, answer) {
            None => Err(ErpError::AnswerNotFound),
            Some(a) => match login_form_of(v.roll_number, Some(p), Some(a), v.session_token, None) {
                Err(e) => Err(e),
                Ok(form) => Ok(
                    (
                        SessionView { pending_login: Some((p, a)), ..v },
                        RequestView { method: HttpMethod::Post, url: OTP_URL@, form },
                    ),
                ),
            },
        },
    }
}

impl Session {
    /// The session token if it is known, else the request that fetches the
    /// homepage that carries it.
    pub fn get_session_token(&self) -> (r: TokenStep)
        ensures
            r@ == session_token_step(self@),
    {
        match &self.session_token {
            Some(t) => TokenStep::Cached(t.clone()),
            None => {
                let form: Vec<(String, String)> = Vec::new();
                assert(pairs_view(form@) =~= Seq::empty());
                TokenStep::Fetch(
                    HttpRequest { method: HttpMethod::Get, url: String::from_str(HOMEPAGE_URL), form },
                )
            },
        }
    }

    /// Takes the session token out of the homepage and keeps it.
    pub fn accept_homepage(&mut self, html: &str) -> (r: Result<String, ErpError>)
        ensures
            match homepage_token(html@) {
                Some(t) => r is Ok && r->Ok_0@ == t && final(self)@ == (SessionView {
                    session_token: Some(t),
                    ..old(self)@
                }),
                None => r == Err::<String, ErpError>(ErpError::TokenNotFound) && final(self)@
                    == old(self)@,
            },
    {
        match first_attr(html, "#sessionToken", "value") {
            Some(Some(t)) => {
                self.session_token = Some(t.clone());
                Ok(t)
            },
            _ => Err(ErpError::TokenNotFound),
        }
    }

    /// The request for the security question of the stored roll number, or,
    /// where none is stored, of `roll_number`. The roll number is kept as
    /// pending until the portal answers.
    pub fn get_secret_question(&mut self, roll_number: Option<String>) -> (r: Result<
        HttpRequest,
        ErpError,
    >)
        ensures
            match chosen_roll_number(old(self)@, opt_view(roll_number)) {
                None => r is Err && r->Err_0 == ErpError::RollNumberMissing && final(self)@ == old(
                    self,
                )@,
                Some(roll) => r is Ok && r->Ok_0@ == question_request(roll) && final(self)@ == (
                SessionView { pending_roll_number: Some(roll), ..old(self)@ }),
            },
    {
        let roll = match &self.credentials.roll_number {
            Some(stored) => stored.clone(),
            None => match roll_number {
                Some(given) => given,
                None => return Err(ErpError::RollNumberMissing),
            },
        };
        self.pending_roll_number = Some(roll.clone());
        let mut form: Vec<(String, String)> = Vec::new();
        form.push((String::from_str("user_id"), roll));
        let q = HttpRequest {
            method: HttpMethod::Post,
            url: String::from_str(SECRET_QUESTION_URL),
            form,
        };
        assert(q@.form =~= question_request(chosen_roll_number(old(self)@, opt_view(roll_number))->Some_0).form);
        Ok(q)
    }

    /// Takes in the portal's answer to the question request: the question,
    /// which is kept with the roll number it was asked for, or the text that
    /// marks an unknown roll number, which drops that roll number.
    pub fn accept_secret_question(&mut self, body: String) -> (r: Result<String, ErpError>)
        ensures
            body@ == SECRET_QUES_ROLLNO_INVALID@ ==> r is Err && r->Err_0
                == ErpError::InvalidRollNumber && final(self)@ == question_refused(old(self)@),
            body@ != SECRET_QUES_ROLLNO_INVALID@ ==> r is Ok && r->Ok_0@ == body@ && final(self)@
                == question_accepted(old(self)@, body@),
    {
        let pending = self.pending_roll_number.take();
        if body == String::from_str(SECRET_QUES_ROLLNO_INVALID) {
            Err(ErpError::InvalidRollNumber)
        } else {
            if let Some(roll) = pending {
                self.credentials.roll_number = Some(roll);
            }
            self.question = Some(body.clone());
            Ok(body)
        }
    }

    /// The request that asks the portal to mail a passcode, with the
    /// passcode field empty. The password is the stored one, else
    /// `password`; the answer is `answer`, else the one stored for the
    /// question. Both are kept as pending until the portal answers. On an
    /// error the session is left as it was.
    pub fn request_otp(&mut self, password: Option<String>, answer: Option<String>) -> (r: Result<
        HttpRequest,
        ErpError,
    >)
        ensures
            match otp_request_outcome(old(self)@, opt_view(password), opt_view(answer)) {
                Err(e) => r is Err && r->Err_0 == e && final(self)@ == old(self)@,
                Ok((next, q)) => r is Ok && r->Ok_0@ == q && final(self)@ == next
                    && q.form[4] == ("email_otp"@, Seq::<char>::empty()),
            },
    {
        let p = match &self.credentials.password {
            Some(stored) => stored.clone(),
            None => match password {
                Some(given) => given,
                None => return Err(ErpError::PasswordMissing),
            },
        };
        let a = match answer {
            Some(given) => given,
            None => {
                let found = match (&self.credentials.answer_map, &self.question) {
                    (Some(m), Some(q)) => m.get(q.as_str()),
                    _ => None,
                };
                match found {
                    Some(f) => f,
                    None => return Err(ErpError::AnswerNotFound),
                }
            },
        };
        let form = match build_form(
            &self.credentials.roll_number,
            &Some(p.clone()),
            &Some(a.clone()),
            &self.session_token,
            &None,
        ) {
            Err(e) => return Err(e),
            Ok(form) => form,
        };
        proof {
            reveal_strlit("");
        }
        self.pending_login = Some((p, a));
        Ok(HttpRequest { method: HttpMethod::Post, url: String::from_str(OTP_URL), form })
    }

    /// Reads the portal's answer to a passcode request: a JSON object whose
    /// `msg` says whether the passcode was sent. Only then are the pending
    /// password and answer kept; on any error they are dropped.
    pub fn accept_otp_response(&mut self, body: &str) -> (r: Result<(), ErpError>)
        ensures
            match json_string_field(body@, "msg"@) {
                None => r == Err::<(), ErpError>(ErpError::ResponseNotJson),
                Some(None) => r == Err::<(), ErpError>(ErpError::MalformedResponse),
                Some(Some(msg)) => otp_message_verdict(r, msg),
            },
            r is Ok ==> final(self)@ == otp_request_accepted(old(self)@),
            r is Err ==> final(self)@ == otp_request_refused(old(self)@),
    {
        let pending = self.pending_login.take();
        let verdict = match json_field(body, "msg") {
            None => Err(ErpError::ResponseNotJson),
            Some(None) => Err(ErpError::MalformedResponse),
            Some(Some(msg)) => check_otp_message(msg),
        };
        if verdict.is_ok() {
            if let Some((p, a)) = pending {
                self.credentials.password = Some(p);
                self.answer = Some(a);
            }
        }
        verdict
    }
}

/// The session after the portal refused the roll number.
pub open spec fn question_refused(v: SessionView) -> SessionView {
    SessionView { pending_roll_number: None, ..v }
}

/// The session after the portal gave the security question `q`.
pub open spec fn question_accepted(v: SessionView, q: Seq<char>) -> SessionView {
    SessionView {
        roll_number: match v.pending_roll_number {
            Some(r) => Some(r),
            None => v.roll_number,
        },
        question: Some(q),
        pending_roll_number: None,
        ..v
    }
}

/// The session after the portal refused a passcode request.
pub open spec fn otp_request_refused(v: SessionView) -> SessionView {
    SessionView { pending_login: None, ..v }
}

/// The session after the portal sent the passcode.
pub open spec fn otp_request_accepted(v: SessionView) -> SessionView {
    match v.pending_login {
        Some((p, a)) => SessionView {
            password: Some(p),
            answer: Some(a),
            pending_login: None,
            ..v
        },
        None => v,
    }
}

/// `r` is what the portal's message `msg` means.
pub open spec fn otp_message_verdict(r: Result<(), ErpError>, msg: Seq<char>) -> bool {
    if msg == ANSWER_MISMATCH_ERROR@ {
        r == Err::<(), ErpError>(ErpError::WrongAnswer)
    } else if msg == PASSWORD_MISMATCH_ERROR@ {
        r == Err::<(), ErpError>(ErpError::WrongPassword)
    } else if msg == OTP_SENT_MESSAGE@ {
        r is Ok
    } else {
        r matches Err(ErpError::OtpRequestFailed(m)) && m@ == msg
    }
}

/// What the portal's message on a passcode request means: sent, one of the
/// known refusals, or any other text, which is passed on.
pub fn check_otp_message(msg: String) -> (r: Result<(), ErpError>)
    ensures
        otp_message_verdict(r, msg@),
{
    if msg == String::from_str(ANSWER_MISMATCH_ERROR) {
        Err(ErpError::WrongAnswer)
    } else if msg == String::from_str(PASSWORD_MISMATCH_ERROR) {
        Err(ErpError::WrongPassword)
    } else if msg == String::from_str(OTP_SENT_MESSAGE) {
        Ok(())
    } else {
        Err(ErpError::OtpRequestFailed(msg))
    }
}

/// The session and the request after setting the passcode, or why not.
pub open spec fn signin_outcome(v: SessionView, otp: Seq<char>) -> Result<(SessionView, RequestView), ErpError> {
    match login_form(SessionView { email_otp: Some(otp), ..v }) {
        Err(e) => Err(e),
        Ok(form) => Ok(
            (
                SessionView { pending_otp: Some(otp), ..v },
                RequestView { method: HttpMethod::Post, url: LOGIN_URL@, form },
            ),
        ),
    }
}

/// The session after the portal refused a sign-in.
pub open spec fn signin_refused(v: SessionView) -> SessionView {
    SessionView { pending_otp: None, ..v }
}

/// The session after a sign-in that gave the SSO token `t`.
pub open spec fn signin_accepted(v: SessionView, t: Seq<char>) -> SessionView {
    SessionView {
        email_otp: match v.pending_otp {
            Some(o) => Some(o),
            None => v.email_otp,
        },
        sso_token: Some(t),
        pending_otp: None,
        ..v
    }
}

/// The SSO token that the address a sign-in ended on carries, in its query
/// pair `ssoToken`.
pub open spec fn redirect_sso_token(final_url: Seq<char>) -> Option<Seq<char>> {
    match url_query_pairs(final_url) {
        None => None,
        Some(pairs) => first_value(pairs, "ssoToken"@),
    }
}

/// The address to open for `target` (the homepage by default) as the
/// signed-in user.
pub open spec fn login_url(target: Seq<char>, sso: Seq<char>) -> Seq<char> {
    target + "?ssoToken="@ + sso
}

/// The SSO token among the query pairs of an address: the value of the first
/// pair named `ssoToken`.
pub fn sso_token_in(pairs: &Vec<(String, String)>) -> (r: Option<String>)
    ensures
        opt_view(r) == first_value(pairs_view(pairs@), "ssoToken"@),
{
    lookup(pairs, "ssoToken")
}

impl Session {
    /// The sign-in request with the passcode `otp`, which is kept as pending
    /// until the portal answers. On an error the session is left as it was.
    pub fn signin(&mut self, otp: String) -> (r: Result<HttpRequest, ErpError>)
        ensures
            match signin_outcome(old(self)@, otp@) {
                Err(e) => r is Err && r->Err_0 == e && final(self)@ == old(self)@,
                Ok((next, q)) => r is Ok && r->Ok_0@ == q && final(self)@ == next,
            },
    {
        let form = match build_form(
            &self.credentials.roll_number,
            &self.credentials.password,
            &self.answer,
            &self.session_token,
            &Some(otp.clone()),
        ) {
            Err(e) => return Err(e),
            Ok(form) => form,
        };
        self.pending_otp = Some(otp);
        Ok(HttpRequest { method: HttpMethod::Post, url: String::from_str(LOGIN_URL), form })
    }

    /// Takes in how the sign-in ended: the address it was redirected to, and
    /// the page there. The SSO token it carries is kept and returned, with
    /// the pending passcode; on an error the pending passcode is dropped.
    pub fn accept_signin(&mut self, final_url: &str, body: &str) -> (r: Result<String, ErpError>)
        ensures
            body@ == OTP_MISMATCH_ERROR@ ==> r == Err::<String, ErpError>(ErpError::OtpMismatch)
                && final(self)@ == signin_refused(old(self)@),
            body@ != OTP_MISMATCH_ERROR@ ==> match redirect_sso_token(final_url@) {
                None => r == Err::<String, ErpError>(ErpError::SsoTokenNotFound) && final(self)@
                    == signin_refused(old(self)@),
                Some(t) => r is Ok && r->Ok_0@ == t && final(self)@ == signin_accepted(
                    old(self)@,
                    t,
                ),
            },
    {
        let pending = self.pending_otp.take();
        if String::from_str(body) == String::from_str(OTP_MISMATCH_ERROR) {
            return Err(ErpError::OtpMismatch);
        }
        let found = match query_pairs(final_url) {
            None => None,
            Some(pairs) => sso_token_in(&pairs),
        };
        match found {
            None => Err(ErpError::SsoTokenNotFound),
            Some(t) => {
                if let Some(o) = pending {
                    self.email_otp = Some(o);
                }
                self.sso_token = Some(t.clone());
                Ok(t)
            },
        }
    }

    /// The address that opens `url` (the homepage by default) signed in.
    pub fn get_login_url(&self, url: Option<&str>) -> (r: Result<String, ErpError>)
        ensures
            match self@.sso_token {
                None => r == Err::<String, ErpError>(ErpError::NotSignedIn),
                Some(t) => r is Ok && r->Ok_0@ == login_url(
                    match url {
                        Some(u) => u@,
                        None => HOMEPAGE_URL@,
                    },
                    t,
                ),
            },
    {
        match &self.sso_token {
            None => Err(ErpError::NotSignedIn),
            Some(t) => {
                let target = match url {
                    Some(u) => u,
                    None => HOMEPAGE_URL,
                };
                let mut link = String::from_str(target);
                link.append("?ssoToken=");
                link.append(t.as_str());
                Ok(link)
            },
        }
    }

    /// The request whose answer tells whether the session is alive.
    pub fn liveness_request() -> (r: HttpRequest)
        ensures
            r@ == (RequestView { method: HttpMethod::Get, url: WELCOMEPAGE_URL@, form: Seq::empty() }),
    {
        let form: Vec<(String, String)> = Vec::new();
        assert(pairs_view(form@) =~= Seq::empty());
        HttpRequest { method: HttpMethod::Get, url: String::from_str(WELCOMEPAGE_URL), form }
    }

    /// Whether the answer to the liveness request, of `content_length`
    /// bytes where the response gave one, shows a live session: the page has
    /// one known length while the session is alive.
    pub fn is_alive(content_length: Option<u64>) -> (r: bool)
        ensures
            r == (content_length == Some(ALIVE_PAGE_LENGTH)),
    {
        match content_length {
            Some(len) => len == ALIVE_PAGE_LENGTH,
            None => false,
        }
    }
}

/// A step that the portal refuses leaves the session as it was before the
/// step's request was made: what the request carried stays pending until
/// the portal's answer, and a refusal drops it.
pub proof fn refused_steps_leave_session_unchanged(
    v: SessionView,
    roll_number: Option<Seq<char>>,
    password: Option<Seq<char>>,
    answer: Option<Seq<char>>,
    otp: Seq<char>,
)
    requires
        v.pending_roll_number is None,
        v.pending_login is None,
        v.pending_otp is None,
    ensures
        chosen_roll_number(v, roll_number) matches Some(r) ==> question_refused(
            SessionView { pending_roll_number: Some(r), ..v },
        ) == v,
        otp_request_outcome(v, password, answer) matches Ok((w, _)) ==> otp_request_refused(w) == v,
        signin_outcome(v, otp) matches Ok((w, _)) ==> signin_refused(w) == v,
{
}

/// Once the homepage has given a session token, asking again for the token
/// needs no request and gives the same token.
pub proof fn session_token_fetched_once(v: SessionView, html: Seq<char>)
    ensures
        v.session_token matches Some(t) ==> session_token_step(v) == TokenStepView::Cached(t),
        homepage_token(html) matches Some(t) ==> session_token_step(
            SessionView { session_token: Some(t), ..v },
        ) == TokenStepView::Cached(t),
{
}

/// The cookie that a restored session puts in the cookie jar, after clearing
/// it: the SSO token, for the portal's origin.
pub struct SsoCookie {
    pub name: String,
    pub value: String,
    pub url: String,
}

/// The session after reading a record: both tokens as the record gives them.
pub open spec fn restored_view(v: SessionView, text: Seq<char>) -> SessionView {
    SessionView {
        session_token: record_fields(text).0,
        sso_token: record_fields(text).1,
        ..v
    }
}

impl Session {
    /// The record that keeps this session's tokens.
    pub fn save_session(&self) -> (r: String)
        ensures
            r@ == record_text(self@.session_token, self@.sso_token),
    {
        let session_token = match &self.session_token {
            Some(t) => Some(t.as_str()),
            None => None,
        };
        let sso_token = match &self.sso_token {
            Some(t) => Some(t.as_str()),
            None => None,
        };
        session_record(session_token, sso_token)
    }

    /// Takes both tokens from a record. Where it holds an SSO token, the
    /// cookie that carries it is returned, for the caller to put in a
    /// cleared cookie jar.
    pub fn read_session(&mut self, record: &str) -> (r: Option<SsoCookie>)
        ensures
            final(self)@ == restored_view(old(self)@, record@),
            match record_fields(record@).1 {
                None => r is None,
                Some(t) => r matches Some(c) && c.name@ == "ssoToken"@ && c.value@ == t && c.url@
                    == BASE_URL@,
            },
    {
        let (session_token, sso_token) = parse_session_record(record);
        self.session_token = session_token;
        self.sso_token = sso_token;
        match &self.sso_token {
            None => None,
            Some(t) => Some(
                SsoCookie {
                    name: String::from_str("ssoToken"),
                    value: t.clone(),
                    url: String::from_str(BASE_URL),
                },
            ),
        }
    }
}

/// Saving a session and reading the record into any session restores both
/// tokens exactly, absent ones included, for tokens that a record can keep.
pub proof fn saved_session_restores(saved: SessionView, target: SessionView)
    requires
        storable(saved.session_token),
        storable(saved.sso_token),
    ensures
        restored_view(target, record_text(saved.session_token, saved.sso_token)).session_token
            == saved.session_token,
        restored_view(target, record_text(saved.session_token, saved.sso_token)).sso_token
            == saved.sso_token,
{
    record_round_trip(saved.session_token, saved.sso_token);
}

impl Default for Session {
    fn default() -> (r: Session)
        ensures
            r@ == fresh_view(ErpCreds { roll_number: None, password: None, answer_map: None }),
    {
        Session::new(ErpCreds { roll_number: None, password: None, answer_map: None })
    }
}

impl Session {
    /// The roll number in use.
    pub fn roll_number(&self) -> (r: Option<String>)
        ensures
            opt_view(r) == self@.roll_number,
    {
        clone_opt(&self.credentials.roll_number)
    }

    /// The password in use.
    pub fn password(&self) -> (r: Option<String>)
        ensures
            opt_view(r) == self@.password,
    {
        clone_opt(&self.credentials.password)
    }

    /// The security question, once the portal gave it.
    pub fn question(&self) -> (r: Option<String>)
        ensures
            opt_view(r) == self@.question,
    {
        clone_opt(&self.question)
    }

    /// The answer in use.
    pub fn answer(&self) -> (r: Option<String>)
        ensures
            opt_view(r) == self@.answer,
    {
        clone_opt(&self.answer)
    }

    /// The passcode, once set.
    pub fn email_otp(&self) -> (r: Option<String>)
        ensures
            opt_view(r) == self@.email_otp,
    {
        clone_opt(&self.email_otp)
    }

    /// The session token, once known.
    pub fn session_token(&self) -> (r: Option<String>)
        ensures
            opt_view(r) == self@.session_token,
    {
        clone_opt(&self.session_token)
    }

    /// The SSO token, once signed in.
    pub fn sso_token(&self) -> (r: Option<String>)
        ensures
            opt_view(r) == self@.sso_token,
    {
        clone_opt(&self.sso_token)
    }
}

} // verus!
