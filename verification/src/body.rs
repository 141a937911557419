//! Request bodies for the provider's API.
//!
//! Every operation's body starts from the two credential fields; create and
//! edit add the record fields, and each optional field is omitted entirely
//! when the caller did not supply it (never sent as null or empty).
use vstd::prelude::*;
use vstd::string::StringExecFns;
use crate::json::object_string;
use crate::json::object_text;
use crate::model::Credentials;
use crate::model::RecordInput;

verus! {

/// The two credential pairs that open every request body.
pub open spec fn auth_pairs(c: Credentials) -> Seq<(Seq<char>, Seq<char>)> {
    seq![("apikey"@, c.api_key@), ("secretapikey"@, c.secret_key@)]
}

/// The pair for one optional field: present exactly when the caller supplied
/// a value.
pub open spec fn opt_pair(key: Seq<char>, v: Option<String>) -> Seq<(Seq<char>, Seq<char>)> {
    match v {
        Some(s) => seq![(key, s@)],
        None => Seq::<(Seq<char>, Seq<char>)>::empty(),
    }
}

/// Every pair of a create or edit body, in the order they are serialized.
pub open spec fn create_edit_pairs(c: Credentials, r: RecordInput) -> Seq<
    (Seq<char>, Seq<char>),
> {
    auth_pairs(c) + opt_pair("name"@, r.name) + seq![
        ("type"@, r.record_type@),
        ("content"@, r.content@),
    ] + opt_pair("ttl"@, r.ttl) + opt_pair("prio"@, r.prio)
}

/// The keys of a pair sequence.
pub open spec fn pair_keys(ps: Seq<(Seq<char>, Seq<char>)>) -> Seq<Seq<char>> {
    ps.map(|i: int, p: (Seq<char>, Seq<char>)| p.0)
}

/// The body for operations that carry nothing beyond identity: exactly
/// `{"apikey":...,"secretapikey":...}`.
pub fn auth_body(c: &Credentials) -> (r: String)
    ensures
        r@ == object_text(auth_pairs(*c)),
{
    let mut pairs: Vec<(String, String)> = Vec::new();
    pairs.push((String::from_str("apikey"), c.api_key.clone()));
    pairs.push((String::from_str("secretapikey"), c.secret_key.clone()));
    proof {
        assert(pairs.deep_view() =~~= auth_pairs(*c));
    }
    object_string(&pairs)
}

/// The body for create and edit: credentials, then `name` if supplied, then
/// `type` and `content`, then `ttl` and `prio` if supplied.
pub fn create_edit_body(c: &Credentials, r: &RecordInput) -> (body: String)
    ensures
        body@ == object_text(create_edit_pairs(*c, *r)),
{
    let mut pairs: Vec<(String, String)> = Vec::new();
    pairs.push((String::from_str("apikey"), c.api_key.clone()));
    pairs.push((String::from_str("secretapikey"), c.secret_key.clone()));
    match &r.name {
        Some(n) => pairs.push((String::from_str("name"), n.clone())),
        None => (),
    }
    pairs.push((String::from_str("type"), r.record_type.clone()));
    pairs.push((String::from_str("content"), r.content.clone()));
    match &r.ttl {
        Some(t) => pairs.push((String::from_str("ttl"), t.clone())),
        None => (),
    }
    match &r.prio {
        Some(p) => pairs.push((String::from_str("prio"), p.clone())),
        None => (),
    }
    proof {
        assert(pairs.deep_view() =~~= create_edit_pairs(*c, *r));
    }
    object_string(&pairs)
}

/// An optional field that was not supplied is omitted from the body: no pair
/// carries its key. One that was supplied appears with exactly the supplied
/// value. This holds for each of `name`, `ttl` and `prio`.
pub proof fn lemma_optional_fields_omitted(c: Credentials, r: RecordInput)
    ensures
        r.name is None ==> !pair_keys(create_edit_pairs(c, r)).contains("name"@),
        r.ttl is None ==> !pair_keys(create_edit_pairs(c, r)).contains("ttl"@),
        r.prio is None ==> !pair_keys(create_edit_pairs(c, r)).contains("prio"@),
        r.name matches Some(n) ==> create_edit_pairs(c, r).contains(("name"@, n@)),
        r.ttl matches Some(t) ==> create_edit_pairs(c, r).contains(("ttl"@, t@)),
        r.prio matches Some(p) ==> create_edit_pairs(c, r).contains(("prio"@, p@)),
{
    reveal_strlit("apikey");
    reveal_strlit("secretapikey");
    reveal_strlit("name");
    reveal_strlit("type");
    reveal_strlit("content");
    reveal_strlit("ttl");
    reveal_strlit("prio");
    assert("apikey"@.len() == 6);
    assert("secretapikey"@.len() == 12);
    assert("name"@.len() == 4 && "name"@[0] == 'n');
    assert("type"@.len() == 4 && "type"@[0] == 't');
    assert("content"@.len() == 7);
    assert("ttl"@.len() == 3);
    assert("prio"@.len() == 4 && "prio"@[0] == 'p');
    let ps = create_edit_pairs(c, r);
    let nshift: int = if r.name is Some {
        1
    } else {
        0
    };
    let tshift: int = if r.ttl is Some {
        1
    } else {
        0
    };
    let pshift: int = if r.prio is Some {
        1
    } else {
        0
    };
    assert(ps.len() == 4 + nshift + tshift + pshift);
    assert(ps[0].0 == "apikey"@);
    assert(ps[1].0 == "secretapikey"@);
    if r.name is Some {
        assert(ps[2] == ("name"@, r.name->0@));
    }
    assert(ps[2 + nshift].0 == "type"@);
    assert(ps[3 + nshift].0 == "content"@);
    if r.ttl is Some {
        assert(ps[4 + nshift] == ("ttl"@, r.ttl->0@));
    }
    if r.prio is Some {
        assert(ps[4 + nshift + tshift] == ("prio"@, r.prio->0@));
    }
    assert forall|i: int| 0 <= i < ps.len() implies #[trigger] pair_keys(ps)[i] == ps[i].0 by {}
    assert forall|i: int|
        0 <= i < ps.len() implies (r.name is None ==> (#[trigger] ps[i]).0 != "name"@) && (r.ttl
            is None ==> ps[i].0 != "ttl"@) && (r.prio is None ==> ps[i].0 != "prio"@) by {
        assert(i == 0 || i == 1 || i == 2 + nshift || i == 3 + nshift || (r.name is Some && i == 2)
            || (r.ttl is Some && i == 4 + nshift) || (r.prio is Some && i == 4 + nshift + tshift));
    }
}

} // verus!
