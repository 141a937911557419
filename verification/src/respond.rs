//! Interpreting the status of an API response.
//!
//! Every response carries a `status` field and may carry a `message`. Any
//! status other than the literal `SUCCESS` is a failure, whatever the HTTP
//! status was; the provider's message is passed through when present.
use vstd::prelude::*;
use vstd::string::StringExecFns;
use crate::model::ApiError;

verus! {

/// Relies on std's `str` equality: true exactly when the two strings hold
/// the same characters.
#[verifier::external_body]
fn str_eq(a: &str, b: &str) -> (r: bool)
    ensures
        r == (a@ == b@),
{
    a == b
}

/// The text reported for a failed response: the provider's message, or a
/// placeholder when it sent none.
pub open spec fn error_message_text(message: Option<String>) -> Seq<char> {
    match message {
        Some(m) => m@,
        None => "unknown error"@,
    }
}

/// Accept a response exactly when its status is the success marker; any
/// other status fails with the provider's message (or a placeholder).
pub fn check_status(status: &str, message: &Option<String>) -> (r: Result<(), ApiError>)
    ensures
        r is Ok <==> status@ == "SUCCESS"@,
        r matches Err(e) ==> e.message@ == "API error: "@ + error_message_text(*message),
{
    if str_eq(status, "SUCCESS") {
        Ok(())
    } else {
        let mut m = String::from_str("API error: ");
        match message {
            Some(msg) => m.append(msg.as_str()),
            None => m.append("unknown error"),
        }
        Err(ApiError { message: m })
    }
}

} // verus!
