//! Unit tests for the request builders, endpoint paths and renderers.
use porkbun::body::auth_body;
use porkbun::body::create_edit_body;
use porkbun::json::object_string;
use porkbun::model::Credentials;
use porkbun::model::DnsRecord;
use porkbun::model::DomainInfo;
use porkbun::model::RecordInput;
use porkbun::paths::api_url;
use porkbun::paths::create_path;
use porkbun::paths::delete_by_name_type_path;
use porkbun::paths::delete_path;
use porkbun::paths::edit_path;
use porkbun::paths::list_domains_path;
use porkbun::paths::retrieve_path;
use porkbun::render::dns_row;
use porkbun::render::domain_row;
use porkbun::render::domains_listing;
use porkbun::render::records_listing;
use porkbun::render::OutputMode;
use porkbun::BASE_URL;

fn creds() -> Credentials {
    Credentials { api_key: "pk".to_string(), secret_key: "sk".to_string() }
}

fn record(prio: Option<&str>, notes: Option<&str>) -> DnsRecord {
    DnsRecord {
        id: "106926659".to_string(),
        name: "www.example.com".to_string(),
        record_type: "A".to_string(),
        content: "1.2.3.4".to_string(),
        ttl: "600".to_string(),
        prio: prio.map(|s| s.to_string()),
        notes: notes.map(|s| s.to_string()),
    }
}

#[test]
fn auth_body_is_exactly_the_two_keys() {
    let body = auth_body(&creds());
    assert_eq!(body, "{\"apikey\":\"pk\",\"secretapikey\":\"sk\"}");
}

#[test]
fn create_body_omits_absent_optional_fields() {
    let input = RecordInput {
        record_type: "A".to_string(),
        content: "1.2.3.4".to_string(),
        name: None,
        ttl: None,
        prio: None,
    };
    let body = create_edit_body(&creds(), &input);
    assert_eq!(
        body,
        "{\"apikey\":\"pk\",\"secretapikey\":\"sk\",\"type\":\"A\",\"content\":\"1.2.3.4\"}"
    );
    assert!(!body.contains("ttl"));
    assert!(!body.contains("prio"));
    assert!(!body.contains("name"));
    let v: serde_json::Value = serde_json::from_str(&body).unwrap();
    let obj = v.as_object().unwrap();
    assert!(!obj.contains_key("ttl"));
    assert!(!obj.contains_key("prio"));
    assert!(!obj.contains_key("name"));
    assert_eq!(obj.get("type").unwrap().as_str().unwrap(), "A");
}

#[test]
fn create_body_keeps_supplied_optional_fields() {
    let input = RecordInput {
        record_type: "MX".to_string(),
        content: "mail.example.com".to_string(),
        name: Some("mail".to_string()),
        ttl: Some("900".to_string()),
        prio: Some("10".to_string()),
    };
    let body = create_edit_body(&creds(), &input);
    let v: serde_json::Value = serde_json::from_str(&body).unwrap();
    assert_eq!(v.get("name").unwrap().as_str().unwrap(), "mail");
    assert_eq!(v.get("ttl").unwrap().as_str().unwrap(), "900");
    assert_eq!(v.get("prio").unwrap().as_str().unwrap(), "10");
    assert_eq!(v.get("apikey").unwrap().as_str().unwrap(), "pk");
    assert_eq!(v.get("secretapikey").unwrap().as_str().unwrap(), "sk");
}

#[test]
fn body_escapes_special_characters_as_json() {
    let tricky = "a\"b\\c\nd\te\u{1}f";
    let input = RecordInput {
        record_type: "TXT".to_string(),
        content: tricky.to_string(),
        name: None,
        ttl: None,
        prio: None,
    };
    let body = create_edit_body(&creds(), &input);
    assert!(body.contains("\\u0001"));
    let v: serde_json::Value = serde_json::from_str(&body).unwrap();
    assert_eq!(v.get("content").unwrap().as_str().unwrap(), tricky);
}

#[test]
fn object_string_escapes_keys_too() {
    let pairs = vec![("a\"b".to_string(), "v".to_string())];
    let body = object_string(&pairs);
    let v: serde_json::Value = serde_json::from_str(&body).unwrap();
    assert_eq!(v.get("a\"b").unwrap().as_str().unwrap(), "v");
}

#[test]
fn endpoint_paths_follow_the_templates() {
    assert_eq!(list_domains_path(), "/domain/listAll");
    assert_eq!(retrieve_path("example.com"), "/dns/retrieve/example.com");
    assert_eq!(create_path("example.com"), "/dns/create/example.com");
    assert_eq!(edit_path("example.com", "42"), "/dns/edit/example.com/42");
    assert_eq!(delete_path("example.com", "42"), "/dns/delete/example.com/42");
    assert_eq!(
        api_url("/domain/listAll"),
        "https://api.porkbun.com/api/json/v3/domain/listAll"
    );
    assert_eq!(BASE_URL, "https://api.porkbun.com/api/json/v3");
}

#[test]
fn delete_by_name_type_path_has_two_segments_without_subdomain() {
    assert_eq!(
        delete_by_name_type_path("example.com", "A", &None),
        "/dns/deleteByNameType/example.com/A"
    );
    assert_eq!(
        delete_by_name_type_path("example.com", "A", &Some(String::new())),
        "/dns/deleteByNameType/example.com/A"
    );
}

#[test]
fn delete_by_name_type_path_has_three_segments_with_subdomain() {
    assert_eq!(
        delete_by_name_type_path("example.com", "A", &Some("www".to_string())),
        "/dns/deleteByNameType/example.com/A/www"
    );
}

#[test]
fn dns_row_preserves_every_field_verbatim() {
    let row = dns_row(record(Some("10"), Some("a note")));
    assert_eq!(row.id, "106926659");
    assert_eq!(row.name, "www.example.com");
    assert_eq!(row.record_type, "A");
    assert_eq!(row.content, "1.2.3.4");
    assert_eq!(row.ttl, "600");
    assert_eq!(row.prio, "10");
    assert_eq!(row.notes, "a note");
}

#[test]
fn dns_row_blanks_absent_optional_fields() {
    let row = dns_row(record(None, None));
    assert_eq!(row.prio, "");
    assert_eq!(row.notes, "");
}

#[test]
fn domain_row_preserves_every_field_verbatim() {
    let row = domain_row(DomainInfo {
        domain: "example.com".to_string(),
        status: "ACTIVE".to_string(),
        create_date: "2020-01-01 00:00:00".to_string(),
        expire_date: "2030-01-01 00:00:00".to_string(),
    });
    assert_eq!(row.domain, "example.com");
    assert_eq!(row.status, "ACTIVE");
    assert_eq!(row.created, "2020-01-01 00:00:00");
    assert_eq!(row.expires, "2030-01-01 00:00:00");
}

#[test]
fn empty_record_listing_is_a_plain_line() {
    let out = records_listing("example.com", &Vec::new(), OutputMode::Table);
    assert_eq!(out, "No DNS records found for example.com.");
}

#[test]
fn record_listing_tsv_preserves_fields_verbatim() {
    let records = vec![record(None, None)];
    let out = records_listing("example.com", &records, OutputMode::Tsv { header: true });
    let lines: Vec<&str> = out.split('\n').collect();
    assert_eq!(lines.len(), 2);
    assert_eq!(lines[0], "ID\tName\tType\tContent\tTTL\tPrio\tNotes");
    assert_eq!(lines[1], "106926659\twww.example.com\tA\t1.2.3.4\t600\t\t");
}

#[test]
fn record_listing_tsv_without_header_is_rows_only() {
    let records = vec![record(Some("10"), None)];
    let out = records_listing("example.com", &records, OutputMode::Tsv { header: false });
    assert_eq!(out, "106926659\twww.example.com\tA\t1.2.3.4\t600\t10\t");
}

#[test]
fn record_listing_table_shows_headers_and_cells() {
    let records = vec![record(Some("10"), None)];
    let out = records_listing("example.com", &records, OutputMode::Table);
    assert!(out.contains("ID"));
    assert!(out.contains("Name"));
    assert!(out.contains("106926659"));
    assert!(out.contains("www.example.com"));
    assert!(out.contains("1.2.3.4"));
}

#[test]
fn domain_listing_table_is_identical_on_repeat() {
    let domains = vec![
        DomainInfo {
            domain: "example.com".to_string(),
            status: "ACTIVE".to_string(),
            create_date: "2020-01-01 00:00:00".to_string(),
            expire_date: "2030-01-01 00:00:00".to_string(),
        },
        DomainInfo {
            domain: "example.org".to_string(),
            status: "ACTIVE".to_string(),
            create_date: "2021-02-02 00:00:00".to_string(),
            expire_date: "2031-02-02 00:00:00".to_string(),
        },
    ];
    let first = domains_listing(&domains, OutputMode::Table);
    let second = domains_listing(&domains, OutputMode::Table);
    assert_eq!(first, second);
    assert!(first.contains("example.com"));
    assert!(first.contains("example.org"));
    assert!(first.contains("Domain"));
    assert!(first.contains("Expires"));
}

#[test]
fn domain_listing_tsv_is_identical_on_repeat() {
    let domains = vec![DomainInfo {
        domain: "example.com".to_string(),
        status: "ACTIVE".to_string(),
        create_date: "2020-01-01 00:00:00".to_string(),
        expire_date: "2030-01-01 00:00:00".to_string(),
    }];
    let mode = OutputMode::Tsv { header: true };
    let first = domains_listing(&domains, mode);
    let second = domains_listing(&domains, mode);
    assert_eq!(first, second);
    assert_eq!(
        first,
        "Domain\tStatus\tCreated\tExpires\nexample.com\tACTIVE\t2020-01-01 00:00:00\t2030-01-01 00:00:00"
    );
}
