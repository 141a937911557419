//! Human-readable confirmation lines for the operations that change a
//! record, each a fixed template over the caller's arguments.
use vstd::prelude::*;
use vstd::string::StringExecFns;
use crate::paths::subdomain_text;

verus! {

/// The name a confirmation displays for a record: the given subdomain, or
/// the literal root marker when none was given.
pub open spec fn display_name_text(name: Option<String>) -> Seq<char> {
    match name {
        Some(s) => s@,
        None => "(root)"@,
    }
}

/// The id a creation displays: the provider's id as text, or a placeholder
/// when the response carried none.
pub open spec fn id_display_text(id: Option<String>) -> Seq<char> {
    match id {
        Some(s) => s@,
        None => "unknown"@,
    }
}

/// The confirmation for a created record: its type, the displayed name
/// joined to the domain with a dot, the content, and the assigned id.
pub open spec fn create_confirmation_text(
    record_type: Seq<char>,
    name: Option<String>,
    domain: Seq<char>,
    content: Seq<char>,
    id: Option<String>,
) -> Seq<char> {
    "Created "@ + record_type + " record for "@ + display_name_text(name) + "."@ + domain
        + " -> "@ + content + " (id: "@ + id_display_text(id) + ")"@
}

/// Render the confirmation for a created record.
pub fn create_confirmation(
    record_type: &str,
    name: &Option<String>,
    domain: &str,
    content: &str,
    id: &Option<String>,
) -> (r: String)
    ensures
        r@ == create_confirmation_text(record_type@, *name, domain@, content@, *id),
{
    let mut out = String::from_str("Created ");
    out.append(record_type);
    out.append(" record for ");
    match name {
        Some(n) => out.append(n.as_str()),
        None => out.append("(root)"),
    }
    out.append(".");
    out.append(domain);
    out.append(" -> ");
    out.append(content);
    out.append(" (id: ");
    match id {
        Some(s) => out.append(s.as_str()),
        None => out.append("unknown"),
    }
    out.append(")");
    proof {
        assert(out@ =~= create_confirmation_text(record_type@, *name, domain@, content@, *id));
    }
    out
}

/// The confirmation for an edited record.
pub open spec fn edit_confirmation_text(domain: Seq<char>, id: Seq<char>) -> Seq<char> {
    "Updated record "@ + id + " on "@ + domain + "."@
}

/// Render the confirmation for an edited record.
pub fn edit_confirmation(domain: &str, id: &str) -> (r: String)
    ensures
        r@ == edit_confirmation_text(domain@, id@),
{
    let mut out = String::from_str("Updated record ");
    out.append(id);
    out.append(" on ");
    out.append(domain);
    out.append(".");
    proof {
        assert(out@ =~= edit_confirmation_text(domain@, id@));
    }
    out
}

/// The confirmation for a record deleted by id.
pub open spec fn delete_confirmation_text(domain: Seq<char>, id: Seq<char>) -> Seq<char> {
    "Deleted record "@ + id + " from "@ + domain + "."@
}

/// Render the confirmation for a record deleted by id.
pub fn delete_confirmation(domain: &str, id: &str) -> (r: String)
    ensures
        r@ == delete_confirmation_text(domain@, id@),
{
    let mut out = String::from_str("Deleted record ");
    out.append(id);
    out.append(" from ");
    out.append(domain);
    out.append(".");
    proof {
        assert(out@ =~= delete_confirmation_text(domain@, id@));
    }
    out
}

/// What a delete-by-name-and-type names: the subdomain and the type, with
/// "root" standing for an absent or empty subdomain.
pub open spec fn name_type_display_text(record_type: Seq<char>, name: Option<String>) -> Seq<
    char,
> {
    if subdomain_text(name).len() == 0 {
        "root "@ + record_type
    } else {
        subdomain_text(name) + " "@ + record_type
    }
}

/// The confirmation for records deleted by name and type.
pub open spec fn delete_by_name_type_confirmation_text(
    domain: Seq<char>,
    record_type: Seq<char>,
    name: Option<String>,
) -> Seq<char> {
    "Deleted "@ + name_type_display_text(record_type, name) + " records from "@ + domain + "."@
}

/// Render the confirmation for records deleted by name and type.
pub fn delete_by_name_type_confirmation(domain: &str, record_type: &str, name: &Option<String>) -> (r:
    String)
    ensures
        r@ == delete_by_name_type_confirmation_text(domain@, record_type@, *name),
{
    let mut out = String::from_str("Deleted ");
    let mut named = false;
    match name {
        Some(sub) => {
            if !sub.as_str().is_empty() {
                out.append(sub.as_str());
                out.append(" ");
                named = true;
            }
        },
        None => (),
    }
    if !named {
        out.append("root ");
    }
    out.append(record_type);
    out.append(" records from ");
    out.append(domain);
    out.append(".");
    proof {
        assert(out@ =~= delete_by_name_type_confirmation_text(domain@, record_type@, *name));
    }
    out
}

} // verus!
