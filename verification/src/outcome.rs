//! One function per operation: interpret the decoded response and produce
//! the text to print, or the error to fail with.
//!
//! Whatever the HTTP status was, a response whose `status` field is not the
//! success marker fails the operation, and nothing is rendered for it; the
//! printed text exists only in the success case.
use vstd::prelude::*;
use crate::message::create_confirmation;
use crate::message::create_confirmation_text;
use crate::message::delete_by_name_type_confirmation;
use crate::message::delete_by_name_type_confirmation_text;
use crate::message::delete_confirmation;
use crate::message::delete_confirmation_text;
use crate::message::edit_confirmation;
use crate::message::edit_confirmation_text;
use crate::model::ApiError;
use crate::model::DnsRecord;
use crate::model::DomainInfo;
use crate::render::domains_listing;
use crate::render::domains_listing_text;
use crate::render::records_listing;
use crate::render::records_listing_text;
use crate::render::OutputMode;
use crate::respond::check_status;
use crate::respond::error_message_text;

verus! {

/// Interpret a domain-list response: on success, the rendered listing of
/// the domains in the provider's order; on any other status, the error.
pub fn domains_outcome(
    status: &str,
    message: &Option<String>,
    domains: &Vec<DomainInfo>,
    mode: OutputMode,
) -> (r: Result<String, ApiError>)
    ensures
        r is Ok <==> status@ == "SUCCESS"@,
        r matches Ok(out) ==> out@ == domains_listing_text(domains@, mode),
        r matches Err(e) ==> e.message@ == "API error: "@ + error_message_text(*message),
{
    match check_status(status, message) {
        Ok(()) => Ok(domains_listing(domains, mode)),
        Err(e) => Err(e),
    }
}

/// Interpret a record-list response for a domain: on success, the rendered
/// listing of the records in the provider's order; on any other status, the
/// error.
pub fn records_outcome(
    status: &str,
    message: &Option<String>,
    domain: &str,
    records: &Vec<DnsRecord>,
    mode: OutputMode,
) -> (r: Result<String, ApiError>)
    ensures
        r is Ok <==> status@ == "SUCCESS"@,
        r matches Ok(out) ==> out@ == records_listing_text(domain@, records@, mode),
        r matches Err(e) ==> e.message@ == "API error: "@ + error_message_text(*message),
{
    match check_status(status, message) {
        Ok(()) => Ok(records_listing(domain, records, mode)),
        Err(e) => Err(e),
    }
}

/// Interpret a create response: on success, the confirmation line with the
/// provider's id (or a placeholder when the response carried none); on any
/// other status, the error.
pub fn create_outcome(
    status: &str,
    message: &Option<String>,
    record_type: &str,
    name: &Option<String>,
    domain: &str,
    content: &str,
    id: &Option<String>,
) -> (r: Result<String, ApiError>)
    ensures
        r is Ok <==> status@ == "SUCCESS"@,
        r matches Ok(out) ==> out@ == create_confirmation_text(
            record_type@,
            *name,
            domain@,
            content@,
            *id,
        ),
        r matches Err(e) ==> e.message@ == "API error: "@ + error_message_text(*message),
{
    match check_status(status, message) {
        Ok(()) => Ok(create_confirmation(record_type, name, domain, content, id)),
        Err(e) => Err(e),
    }
}

/// Interpret an edit response: on success, the confirmation line; on any
/// other status, the error.
pub fn edit_outcome(status: &str, message: &Option<String>, domain: &str, id: &str) -> (r: Result<
    String,
    ApiError,
>)
    ensures
        r is Ok <==> status@ == "SUCCESS"@,
        r matches Ok(out) ==> out@ == edit_confirmation_text(domain@, id@),
        r matches Err(e) ==> e.message@ == "API error: "@ + error_message_text(*message),
{
    match check_status(status, message) {
        Ok(()) => Ok(edit_confirmation(domain, id)),
        Err(e) => Err(e),
    }
}

/// Interpret a delete-by-id response: on success, the confirmation line; on
/// any other status, the error.
pub fn delete_outcome(status: &str, message: &Option<String>, domain: &str, id: &str) -> (r:
    Result<String, ApiError>)
    ensures
        r is Ok <==> status@ == "SUCCESS"@,
        r matches Ok(out) ==> out@ == delete_confirmation_text(domain@, id@),
        r matches Err(e) ==> e.message@ == "API error: "@ + error_message_text(*message),
{
    match check_status(status, message) {
        Ok(()) => Ok(delete_confirmation(domain, id)),
        Err(e) => Err(e),
    }
}

/// Interpret a delete-by-name-and-type response: on success, the
/// confirmation line; on any other status, the error.
pub fn delete_by_name_type_outcome(
    status: &str,
    message: &Option<String>,
    domain: &str,
    record_type: &str,
    name: &Option<String>,
) -> (r: Result<String, ApiError>)
    ensures
        r is Ok <==> status@ == "SUCCESS"@,
        r matches Ok(out) ==> out@ == delete_by_name_type_confirmation_text(
            domain@,
            record_type@,
            *name,
        ),
        r matches Err(e) ==> e.message@ == "API error: "@ + error_message_text(*message),
{
    match check_status(status, message) {
        Ok(()) => Ok(delete_by_name_type_confirmation(domain, record_type, name)),
        Err(e) => Err(e),
    }
}

} // verus!
