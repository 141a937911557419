//! The value types that one API round trip passes around.
use vstd::prelude::*;

verus! {

/// API credentials: an opaque key pair supplied by the caller.
pub struct Credentials {
    pub api_key: String,
    pub secret_key: String,
}

/// The caller-supplied fields for creating or editing a DNS record.
///
/// `name`, `ttl` and `prio` are optional: an absent field is omitted from the
/// request body entirely, so the provider applies its own default.
pub struct RecordInput {
    pub record_type: String,
    pub content: String,
    pub name: Option<String>,
    pub ttl: Option<String>,
    pub prio: Option<String>,
}

/// One domain as the provider lists it.
pub struct DomainInfo {
    pub domain: String,
    pub status: String,
    pub create_date: String,
    pub expire_date: String,
}

/// One DNS record as the provider returns it. All fields are kept as the
/// provider's text; `name` is the fully qualified name, and `prio` and
/// `notes` may be absent.
pub struct DnsRecord {
    pub id: String,
    pub name: String,
    pub record_type: String,
    pub content: String,
    pub ttl: String,
    pub prio: Option<String>,
    pub notes: Option<String>,
}

/// The provider reported a non-success status; `message` holds the full
/// text to report to the operator.
#[derive(Debug)]
pub struct ApiError {
    pub message: String,
}

impl ApiError {
    /// The error text, for printing.
    pub fn text(&self) -> (r: &str)
        ensures
            r@ == self.message@,
    {
        self.message.as_str()
    }
}

} // verus!
