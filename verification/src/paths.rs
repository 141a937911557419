//! Endpoint paths: each operation posts to a fixed template under the API
//! base URL.
use vstd::prelude::*;
use vstd::string::StrSliceExecFns;
use vstd::string::StringExecFns;
use crate::BASE_URL;

verus! {

/// The subdomain text an optional `name` argument stands for: the given
/// value, or empty when absent.
pub open spec fn subdomain_text(name: Option<String>) -> Seq<char> {
    match name {
        Some(s) => s@,
        None => Seq::<char>::empty(),
    }
}

/// The full URL for a path: the fixed base followed by the path.
pub fn api_url(path: &str) -> (r: String)
    ensures
        r@ == BASE_URL@ + path@,
{
    String::from_str(BASE_URL).concat(path)
}

/// The path that lists every domain of the account.
pub fn list_domains_path() -> (r: String)
    ensures
        r@ == "/domain/listAll"@,
{
    String::from_str("/domain/listAll")
}

/// The path that lists the DNS records of a domain.
pub fn retrieve_path(domain: &str) -> (r: String)
    ensures
        r@ == "/dns/retrieve/"@ + domain@,
{
    String::from_str("/dns/retrieve/").concat(domain)
}

/// The path that creates a record on a domain.
pub fn create_path(domain: &str) -> (r: String)
    ensures
        r@ == "/dns/create/"@ + domain@,
{
    String::from_str("/dns/create/").concat(domain)
}

/// The path that edits one record of a domain, by record id.
pub fn edit_path(domain: &str, id: &str) -> (r: String)
    ensures
        r@ == "/dns/edit/"@ + domain@ + "/"@ + id@,
{
    let mut r = String::from_str("/dns/edit/");
    r.append(domain);
    r.append("/");
    r.append(id);
    r
}

/// The path that deletes one record of a domain, by record id.
pub fn delete_path(domain: &str, id: &str) -> (r: String)
    ensures
        r@ == "/dns/delete/"@ + domain@ + "/"@ + id@,
{
    let mut r = String::from_str("/dns/delete/");
    r.append(domain);
    r.append("/");
    r.append(id);
    r
}

/// The path that deletes every record of one name and type. With no
/// subdomain (absent or empty) the path ends after the type segment; with a
/// subdomain it carries one further segment.
pub fn delete_by_name_type_path(domain: &str, record_type: &str, name: &Option<String>) -> (r:
    String)
    ensures
        subdomain_text(*name).len() == 0 ==> r@ == "/dns/deleteByNameType/"@ + domain@ + "/"@
            + record_type@,
        subdomain_text(*name).len() > 0 ==> r@ == "/dns/deleteByNameType/"@ + domain@ + "/"@
            + record_type@ + "/"@ + subdomain_text(*name),
{
    let mut r = String::from_str("/dns/deleteByNameType/");
    r.append(domain);
    r.append("/");
    r.append(record_type);
    match name {
        Some(sub) => {
            if !sub.as_str().is_empty() {
                r.append("/");
                r.append(sub.as_str());
            }
        },
        None => (),
    }
    r
}

} // verus!
