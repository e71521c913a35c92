//! The portal's addresses, the texts it answers with, and what can go wrong
//! while signing in.
use vstd::prelude::*;

verus! {

pub const BASE_URL: &'static str = "https://erp.iitkgp.ac.in";

pub const HOMEPAGE_URL: &'static str = "https://erp.iitkgp.ac.in/IIT_ERP3/";

/// Only reachable while a session is alive.
pub const WELCOMEPAGE_URL: &'static str = "https://erp.iitkgp.ac.in/IIT_ERP3/welcome.jsp";

pub const LOGIN_URL: &'static str = "https://erp.iitkgp.ac.in/SSOAdministration/auth.htm";

pub const SECRET_QUESTION_URL: &'static str =
    "https://erp.iitkgp.ac.in/SSOAdministration/getSecurityQues.htm";

/// The portal spells it this way.
pub const OTP_URL: &'static str = "https://erp.iitkgp.ac.in/SSOAdministration/getEmilOTP.htm";

/// The secret-question endpoint's answer to an unknown roll number.
pub const SECRET_QUES_ROLLNO_INVALID: &'static str = "FALSE";

pub const ANSWER_MISMATCH_ERROR: &'static str =
    "Unable to send OTP due to security question's answare mismatch .";

pub const PASSWORD_MISMATCH_ERROR: &'static str = "Unable to send OTP due to password mismatch.";

pub const OTP_SENT_MESSAGE: &'static str = "An OTP(valid for a short time) has been sent to your email id registered with ERP, IIT Kharagpur. Please use that OTP for further processing. ";

pub const OTP_MISMATCH_ERROR: &'static str = "ERROR:Email OTP mismatch";

/// The length, in bytes, of the welcome page as a live session sees it.
pub const ALIVE_PAGE_LENGTH: u64 = 1034;

/// Why a sign-in step failed.
#[derive(Debug, PartialEq, Eq)]
pub enum ErpError {
    /// No roll number, given or stored.
    RollNumberMissing,
    /// No password, given or stored.
    PasswordMissing,
    /// No answer to the security question, given or found for the question.
    AnswerNotFound,
    /// The login form needs an answer and none is set.
    AnswerMissing,
    /// The login form needs the session token and none is set.
    SessionTokenMissing,
    /// The homepage holds no session token.
    TokenNotFound,
    /// The portal knows no such roll number.
    InvalidRollNumber,
    /// The portal rejected the answer to the security question.
    WrongAnswer,
    /// The portal rejected the password.
    WrongPassword,
    /// The portal did not send the passcode, and said this.
    OtpRequestFailed(String),
    /// The answer to the passcode request is no JSON object of strings.
    ResponseNotJson,
    /// The answer to the passcode request has no `msg` field.
    MalformedResponse,
    /// The portal rejected the passcode.
    OtpMismatch,
    /// The sign-in did not end on an address that carries an SSO token.
    SsoTokenNotFound,
    /// The session holds no SSO token.
    NotSignedIn,
}

/// A step was tried before what it needs was there.
pub open spec fn is_precondition(e: ErpError) -> bool {
    match e {
        ErpError::RollNumberMissing | ErpError::PasswordMissing | ErpError::AnswerNotFound
        | ErpError::AnswerMissing | ErpError::SessionTokenMissing => true,
        _ => false,
    }
}

impl ErpError {
    /// Whether the error is a missing input rather than a refusal by the
    /// portal or a change in what it sends.
    pub fn is_precondition(&self) -> (r: bool)
        ensures
            r == is_precondition(*self),
    {
        match self {
            ErpError::RollNumberMissing | ErpError::PasswordMissing | ErpError::AnswerNotFound
            | ErpError::AnswerMissing | ErpError::SessionTokenMissing => true,
            _ => false,
        }
    }
}

} // verus!
