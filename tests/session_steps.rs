use iitkgp_erp_login::erp::{
    ALIVE_PAGE_LENGTH, ANSWER_MISMATCH_ERROR, BASE_URL, HOMEPAGE_URL, LOGIN_URL,
    OTP_MISMATCH_ERROR, OTP_SENT_MESSAGE, OTP_URL, PASSWORD_MISMATCH_ERROR, SECRET_QUESTION_URL,
    WELCOMEPAGE_URL,
};
use iitkgp_erp_login::answers::lookup;
use iitkgp_erp_login::session::{check_otp_message, sso_token_in};
use iitkgp_erp_login::{AnswerMap, ErpCreds, ErpError, HttpMethod, HttpRequest, Session, TokenStep};

const HOMEPAGE: &str =
    r#"<html><body><form><input type="hidden" id="sessionToken" value="tok123"></form></body></html>"#;

fn s(x: &str) -> String {
    x.to_string()
}

fn creds(roll: Option<&str>, password: Option<&str>, answers: Option<Vec<(&str, &str)>>) -> ErpCreds {
    ErpCreds {
        roll_number: roll.map(s),
        password: password.map(s),
        answer_map: answers.map(|v| {
            let mut m = AnswerMap::new();
            for (q, a) in v {
                m.insert(s(q), s(a));
            }
            m
        }),
    }
}

fn sent() -> String {
    format!("{{\"msg\": {:?}}}", OTP_SENT_MESSAGE)
}

fn form(q: &HttpRequest) -> Vec<(&str, &str)> {
    q.form.iter().map(|(k, v)| (k.as_str(), v.as_str())).collect()
}

/// A session that has its token, its question and its answer.
fn ready_session() -> Session {
    let mut session = Session::new(creds(
        Some("21CS1000"),
        Some("pw"),
        Some(vec![("Favorite color?", "blue")]),
    ));
    session.accept_homepage(HOMEPAGE).unwrap();
    session.get_secret_question(None).unwrap();
    session.accept_secret_question(s("Favorite color?")).unwrap();
    session
}

#[test]
fn session_token_is_fetched_then_cached() {
    let mut session = Session::default();
    match session.get_session_token() {
        TokenStep::Fetch(q) => {
            assert_eq!(q.method, HttpMethod::Get);
            assert_eq!(q.url, HOMEPAGE_URL);
            assert!(q.form.is_empty());
        }
        TokenStep::Cached(_) => panic!("no token was known"),
    }
    assert_eq!(session.accept_homepage(HOMEPAGE), Ok(s("tok123")));
    for _ in 0..2 {
        match session.get_session_token() {
            TokenStep::Cached(t) => assert_eq!(t, "tok123"),
            TokenStep::Fetch(_) => panic!("the token is known"),
        }
    }
    assert_eq!(session.session_token(), Some(s("tok123")));
}

#[test]
fn homepage_without_token_is_an_error() {
    let mut session = Session::default();
    assert_eq!(session.accept_homepage("<html><body></body></html>"), Err(ErpError::TokenNotFound));
    assert_eq!(
        session.accept_homepage(r#"<html><body><input id="sessionToken"></body></html>"#),
        Err(ErpError::TokenNotFound)
    );
    assert_eq!(session.session_token(), None);
}

#[test]
fn secret_question_needs_a_roll_number() {
    let mut session = Session::default();
    assert_eq!(session.get_secret_question(None).err(), Some(ErpError::RollNumberMissing));
    assert_eq!(session.roll_number(), None);
    let q = session.get_secret_question(Some(s("21CS1000"))).unwrap();
    assert_eq!(q.method, HttpMethod::Post);
    assert_eq!(q.url, SECRET_QUESTION_URL);
    assert_eq!(form(&q), vec![("user_id", "21CS1000")]);
    assert_eq!(session.roll_number(), None);
    assert_eq!(session.accept_secret_question(s("Pet?")), Ok(s("Pet?")));
    assert_eq!(session.roll_number(), Some(s("21CS1000")));
}

#[test]
fn stored_roll_number_wins() {
    let mut session = Session::new(creds(Some("21CS1000"), None, None));
    let q = session.get_secret_question(Some(s("99XX9999"))).unwrap();
    assert_eq!(form(&q), vec![("user_id", "21CS1000")]);
}

#[test]
fn unknown_roll_number_is_refused() {
    let mut session = Session::new(creds(Some("21CS1000"), None, None));
    assert_eq!(session.accept_secret_question(s("FALSE")), Err(ErpError::InvalidRollNumber));
    assert_eq!(session.question(), None);
    assert_eq!(session.accept_secret_question(s("Pet?")), Ok(s("Pet?")));
    assert_eq!(session.question(), Some(s("Pet?")));
}

#[test]
fn login_details_need_every_input() {
    let session = Session::default();
    assert_eq!(session.get_login_details().err(), Some(ErpError::RollNumberMissing));
    let session = Session::new(creds(Some("21CS1000"), None, None));
    assert_eq!(session.get_login_details().err(), Some(ErpError::PasswordMissing));
    let session = Session::new(creds(Some("21CS1000"), Some("pw"), None));
    assert_eq!(session.get_login_details().err(), Some(ErpError::AnswerMissing));
    let mut session = Session::new(creds(Some("21CS1000"), Some("pw"), None));
    session.accept_secret_question(s("Pet?")).unwrap();
    assert!(session.request_otp(None, Some(s("cat"))).err().unwrap().is_precondition());
    let mut session = Session::new(creds(Some("21CS1000"), Some("pw"), None));
    assert_eq!(session.request_otp(None, Some(s("cat"))).err(), Some(ErpError::SessionTokenMissing));
    assert_eq!(session.answer(), None);
}

#[test]
fn login_details_in_order() {
    let session = ready_session();
    let mut session = session;
    session.request_otp(None, None).unwrap();
    session.accept_otp_response(&sent()).unwrap();
    let details = session.get_login_details().unwrap();
    let details: Vec<(&str, &str)> = details.iter().map(|(k, v)| (k.as_str(), v.as_str())).collect();
    assert_eq!(
        details,
        vec![
            ("user_id", "21CS1000"),
            ("password", "pw"),
            ("answer", "blue"),
            ("typeee", "SI"),
            ("email_otp", ""),
            ("sessionToken", "tok123"),
            ("requestedUrl", HOMEPAGE_URL),
        ]
    );
}

#[test]
fn precondition_errors_are_told_apart() {
    assert!(ErpError::RollNumberMissing.is_precondition());
    assert!(ErpError::PasswordMissing.is_precondition());
    assert!(ErpError::AnswerNotFound.is_precondition());
    assert!(ErpError::AnswerMissing.is_precondition());
    assert!(ErpError::SessionTokenMissing.is_precondition());
    assert!(!ErpError::WrongPassword.is_precondition());
    assert!(!ErpError::TokenNotFound.is_precondition());
    assert!(!ErpError::OtpRequestFailed(s("x")).is_precondition());
}

#[test]
fn otp_request_needs_a_password() {
    let mut session = Session::new(creds(Some("21CS1000"), None, None));
    assert_eq!(session.request_otp(None, Some(s("blue"))).err(), Some(ErpError::PasswordMissing));
    assert_eq!(session.answer(), None);
    assert_eq!(session.password(), None);
}

#[test]
fn otp_request_needs_an_answer() {
    let mut session = Session::new(creds(Some("21CS1000"), Some("pw"), Some(vec![("Pet?", "cat")])));
    assert_eq!(session.request_otp(None, None).err(), Some(ErpError::AnswerNotFound));
    session.accept_secret_question(s("Favorite color?")).unwrap();
    assert_eq!(session.request_otp(None, None).err(), Some(ErpError::AnswerNotFound));
    let mut session = Session::new(creds(Some("21CS1000"), Some("pw"), None));
    session.accept_secret_question(s("Pet?")).unwrap();
    assert_eq!(session.request_otp(None, None).err(), Some(ErpError::AnswerNotFound));
}

#[test]
fn given_answer_and_stored_password_are_used() {
    let mut session = Session::new(creds(Some("21CS1000"), Some("pw"), None));
    session.accept_homepage(HOMEPAGE).unwrap();
    let q = session.request_otp(Some(s("other")), Some(s("dog"))).unwrap();
    assert_eq!(q.method, HttpMethod::Post);
    assert_eq!(q.url, OTP_URL);
    assert_eq!(form(&q)[1], ("password", "pw"));
    assert_eq!(form(&q)[2], ("answer", "dog"));
    assert_eq!(session.answer(), None);
    assert_eq!(session.accept_otp_response(&sent()), Ok(()));
    assert_eq!(session.answer(), Some(s("dog")));
}

#[test]
fn otp_response_messages() {
    let session = ready_session();
    let body = |msg: &str| format!("{{\"msg\": {:?}}}", msg);
    let mut session = session;
    assert_eq!(session.accept_otp_response(&body(OTP_SENT_MESSAGE)), Ok(()));
    assert_eq!(session.accept_otp_response(&body(ANSWER_MISMATCH_ERROR)), Err(ErpError::WrongAnswer));
    assert_eq!(
        session.accept_otp_response(&body("Try later.")),
        Err(ErpError::OtpRequestFailed(s("Try later.")))
    );
    assert_eq!(session.accept_otp_response("{\"status\": \"ok\"}"), Err(ErpError::MalformedResponse));
    assert_eq!(session.accept_otp_response("<html>"), Err(ErpError::ResponseNotJson));
}

#[test]
fn wrong_password_stops_the_sign_in() {
    let mut session = Session::new(creds(None, None, Some(vec![("Favorite color?", "blue")])));
    session.accept_homepage(HOMEPAGE).unwrap();
    session.get_secret_question(Some(s("21CS1000"))).unwrap();
    session.accept_secret_question(s("Favorite color?")).unwrap();
    session.request_otp(Some(s("pw")), None).unwrap();
    let r = session.accept_otp_response(r#"{"msg": "Unable to send OTP due to password mismatch."}"#);
    assert_eq!(r, Err(ErpError::WrongPassword));
    assert_eq!(session.password(), None);
    assert_eq!(session.answer(), None);
    assert_eq!(session.signin(s("482913")).err(), Some(ErpError::PasswordMissing));
    assert_eq!(session.email_otp(), None);
    assert_eq!(session.sso_token(), None);
    assert_eq!(session.get_login_url(None), Err(ErpError::NotSignedIn));
}

#[test]
fn otp_messages_checked_directly() {
    assert_eq!(check_otp_message(s(PASSWORD_MISMATCH_ERROR)), Err(ErpError::WrongPassword));
    assert_eq!(check_otp_message(s(OTP_SENT_MESSAGE)), Ok(()));
    assert_eq!(check_otp_message(s("")), Err(ErpError::OtpRequestFailed(s(""))));
}

#[test]
fn full_sign_in() {
    let mut session = Session::new(creds(
        Some("21CS1000"),
        Some("pw"),
        Some(vec![("Favorite color?", "blue")]),
    ));
    assert_eq!(session.accept_homepage(HOMEPAGE), Ok(s("tok123")));
    let q = session.get_secret_question(None).unwrap();
    assert_eq!(form(&q), vec![("user_id", "21CS1000")]);
    assert_eq!(session.accept_secret_question(s("Favorite color?")), Ok(s("Favorite color?")));
    let q = session.request_otp(None, None).unwrap();
    assert_eq!(form(&q)[2], ("answer", "blue"));
    assert_eq!(form(&q)[4], ("email_otp", ""));
    assert_eq!(session.accept_otp_response(&sent()), Ok(()));
    let q = session.signin(s("482913")).unwrap();
    assert_eq!(q.method, HttpMethod::Post);
    assert_eq!(q.url, LOGIN_URL);
    assert_eq!(form(&q)[4], ("email_otp", "482913"));
    let token = session.accept_signin("https://erp.iitkgp.ac.in/IIT_ERP3/?ssoToken=abc123", "<html>");
    assert_eq!(token, Ok(s("abc123")));
    assert_eq!(
        session.get_login_url(None),
        Ok(format!("{}?ssoToken=abc123", HOMEPAGE_URL))
    );
    assert_eq!(
        session.get_login_url(Some("https://erp.iitkgp.ac.in/x")),
        Ok(s("https://erp.iitkgp.ac.in/x?ssoToken=abc123"))
    );
}

#[test]
fn signin_needs_the_form() {
    let mut session = Session::default();
    assert_eq!(session.signin(s("482913")).err(), Some(ErpError::RollNumberMissing));
    assert_eq!(session.email_otp(), None);
}

#[test]
fn signin_refusals() {
    let mut session = ready_session();
    session.request_otp(None, None).unwrap();
    session.accept_otp_response(&sent()).unwrap();
    session.signin(s("000000")).unwrap();
    assert_eq!(
        session.accept_signin("https://erp.iitkgp.ac.in/?ssoToken=abc", OTP_MISMATCH_ERROR),
        Err(ErpError::OtpMismatch)
    );
    assert_eq!(
        session.accept_signin("https://erp.iitkgp.ac.in/IIT_ERP3/?a=b", "<html>"),
        Err(ErpError::SsoTokenNotFound)
    );
    assert_eq!(session.accept_signin("not a url", "<html>"), Err(ErpError::SsoTokenNotFound));
    assert_eq!(session.sso_token(), None);
}

#[test]
fn sso_token_is_decoded_from_the_query() {
    let mut session = ready_session();
    let r = session.accept_signin("https://erp.iitkgp.ac.in/?x=1&ssoToken=a%2Bb&ssoToken=c", "");
    assert_eq!(r, Ok(s("a+b")));
}

#[test]
fn pair_lookup_takes_the_first() {
    let pairs = vec![(s("a"), s("1")), (s("ssoToken"), s("t1")), (s("ssoToken"), s("t2"))];
    assert_eq!(sso_token_in(&pairs), Some(s("t1")));
    assert_eq!(lookup(&pairs, "a"), Some(s("1")));
    assert_eq!(lookup(&pairs, "b"), None);
    assert_eq!(sso_token_in(&vec![]), None);
}

#[test]
fn liveness_goes_by_page_length() {
    let q = Session::liveness_request();
    assert_eq!(q.method, HttpMethod::Get);
    assert_eq!(q.url, WELCOMEPAGE_URL);
    assert!(Session::is_alive(Some(ALIVE_PAGE_LENGTH)));
    assert!(Session::is_alive(Some(1034)));
    assert!(!Session::is_alive(Some(1033)));
    assert!(!Session::is_alive(None));
}

#[test]
fn saved_session_is_restored() {
    let mut session = ready_session();
    session.request_otp(None, None).unwrap();
    session.accept_otp_response(&sent()).unwrap();
    session.signin(s("482913")).unwrap();
    session.accept_signin("https://erp.iitkgp.ac.in/IIT_ERP3/?ssoToken=abc123", "").unwrap();
    let record = session.save_session();
    assert_eq!(record, "tok123\nabc123\n");
    let mut restored = Session::default();
    let cookie = restored.read_session(&record).unwrap();
    assert_eq!(cookie.name, "ssoToken");
    assert_eq!(cookie.value, "abc123");
    assert_eq!(cookie.url, BASE_URL);
    assert_eq!(restored.session_token(), Some(s("tok123")));
    assert_eq!(restored.sso_token(), Some(s("abc123")));
    assert_eq!(restored.get_login_url(None), Ok(format!("{}?ssoToken=abc123", HOMEPAGE_URL)));
}

#[test]
fn empty_session_round_trips() {
    let session = Session::default();
    let record = session.save_session();
    assert_eq!(record, "\n\n");
    let mut restored = ready_session();
    assert!(restored.read_session(&record).is_none());
    assert_eq!(restored.session_token(), None);
    assert_eq!(restored.sso_token(), None);
}

#[test]
fn answer_map_keeps_one_answer_per_question() {
    let mut m = AnswerMap::new();
    assert_eq!(m.get("Pet?"), None);
    m.insert(s("Pet?"), s("cat"));
    m.insert(s("Favorite color?"), s("blue"));
    assert_eq!(m.get("Pet?"), Some(s("cat")));
    m.insert(s("Pet?"), s("dog"));
    assert_eq!(m.get("Pet?"), Some(s("dog")));
    assert_eq!(m.get("Favorite color?"), Some(s("blue")));
    assert_eq!(m.get("pet?"), None);
}

#[test]
fn replaced_answer_is_used() {
    let mut session = Session::new(creds(
        Some("21CS1000"),
        Some("pw"),
        Some(vec![("Pet?", "cat"), ("Pet?", "dog")]),
    ));
    session.accept_homepage(HOMEPAGE).unwrap();
    session.accept_secret_question(s("Pet?")).unwrap();
    let q = session.request_otp(None, None).unwrap();
    assert_eq!(form(&q)[2], ("answer", "dog"));
}

#[test]
fn answer_map_lists_its_entries() {
    let mut m = AnswerMap::new();
    m.insert(s("Pet?"), s("cat"));
    m.insert(s("City?"), s("Kharagpur"));
    m.insert(s("Pet?"), s("dog"));
    let mut entries = m.entries();
    entries.sort();
    assert_eq!(entries, vec![(s("City?"), s("Kharagpur")), (s("Pet?"), s("dog"))]);
}

#[test]
fn refused_roll_number_is_not_kept() {
    let mut session = Session::default();
    session.get_secret_question(Some(s("99XX9999"))).unwrap();
    assert_eq!(session.accept_secret_question(s("FALSE")), Err(ErpError::InvalidRollNumber));
    assert_eq!(session.roll_number(), None);
    let q = session.get_secret_question(Some(s("21CS1000"))).unwrap();
    assert_eq!(form(&q), vec![("user_id", "21CS1000")]);
}

#[test]
fn otp_request_after_signin_sends_no_passcode() {
    let mut session = ready_session();
    session.request_otp(None, None).unwrap();
    session.accept_otp_response(&sent()).unwrap();
    session.signin(s("482913")).unwrap();
    session.accept_signin("https://erp.iitkgp.ac.in/IIT_ERP3/?ssoToken=abc123", "").unwrap();
    assert_eq!(session.email_otp(), Some(s("482913")));
    let q = session.request_otp(None, None).unwrap();
    assert_eq!(form(&q)[4], ("email_otp", ""));
}

#[test]
fn refused_signin_keeps_no_passcode() {
    let mut session = ready_session();
    session.request_otp(None, None).unwrap();
    session.accept_otp_response(&sent()).unwrap();
    session.signin(s("000000")).unwrap();
    assert_eq!(session.accept_signin("https://erp.iitkgp.ac.in/", OTP_MISMATCH_ERROR), Err(ErpError::OtpMismatch));
    assert_eq!(session.email_otp(), None);
    let q = session.signin(s("482913")).unwrap();
    assert_eq!(form(&q)[4], ("email_otp", "482913"));
}

#[test]
fn refused_otp_request_keeps_no_answer() {
    let mut session = Session::new(creds(Some("21CS1000"), None, None));
    session.accept_homepage(HOMEPAGE).unwrap();
    session.request_otp(Some(s("pw")), Some(s("red"))).unwrap();
    let msg = format!("{{\"msg\": {:?}}}", ANSWER_MISMATCH_ERROR);
    assert_eq!(session.accept_otp_response(&msg), Err(ErpError::WrongAnswer));
    assert_eq!(session.password(), None);
    assert_eq!(session.answer(), None);
    session.request_otp(Some(s("pw")), Some(s("blue"))).unwrap();
    assert_eq!(session.accept_otp_response("<html>"), Err(ErpError::ResponseNotJson));
    assert_eq!(session.answer(), None);
}
