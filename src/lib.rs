//! Sign-in to the IIT Kharagpur ERP portal as a sequence of verified steps.
//!
//! The library decides; the caller performs the HTTP exchanges it asks for
//! and hands the responses back.
pub mod answers;
pub mod erp;
pub mod foreign;
pub mod otp;
pub mod record;
pub mod session;

pub use answers::AnswerMap;
pub use erp::ErpError;
pub use otp::{get_otp_from_sub, is_otp, MessageHeader, OtpError, OtpWait};
pub use record::{parse_session_record, session_record};
pub use session::{ErpCreds, HttpMethod, HttpRequest, Session, SsoCookie, TokenStep};
