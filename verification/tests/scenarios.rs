//! Whole-round-trip scenarios: a fixture response body is decoded with
//! serde_json, as the program decodes real responses, and handed to the
//! response interpreters.
use porkbun::model::DnsRecord;
use porkbun::model::DomainInfo;
use porkbun::outcome::create_outcome;
use porkbun::outcome::delete_by_name_type_outcome;
use porkbun::outcome::delete_outcome;
use porkbun::outcome::domains_outcome;
use porkbun::outcome::edit_outcome;
use porkbun::outcome::records_outcome;
use porkbun::render::OutputMode;
use porkbun::respond::check_status;

fn status_of(v: &serde_json::Value) -> String {
    v.get("status").unwrap().as_str().unwrap().to_string()
}

fn message_of(v: &serde_json::Value) -> Option<String> {
    v.get("message").and_then(|m| m.as_str()).map(|m| m.to_string())
}

fn opt_str(v: &serde_json::Value, key: &str) -> Option<String> {
    v.get(key).and_then(|x| x.as_str()).map(|x| x.to_string())
}

fn req_str(v: &serde_json::Value, key: &str) -> String {
    v.get(key).unwrap().as_str().unwrap().to_string()
}

#[test]
fn empty_domain_list_prints_the_none_found_line() {
    let fixture: serde_json::Value =
        serde_json::from_str("{\"status\":\"SUCCESS\",\"domains\":[]}").unwrap();
    let domains: Vec<DomainInfo> = fixture
        .get("domains")
        .unwrap()
        .as_array()
        .unwrap()
        .iter()
        .map(|d| DomainInfo {
            domain: req_str(d, "domain"),
            status: req_str(d, "status"),
            create_date: req_str(d, "createDate"),
            expire_date: req_str(d, "expireDate"),
        })
        .collect();
    let out = domains_outcome(
        &status_of(&fixture),
        &message_of(&fixture),
        &domains,
        OutputMode::Table,
    );
    assert_eq!(out.unwrap(), "No domains found.");
}

#[test]
fn error_status_fails_every_command_with_the_provider_message() {
    let fixture: serde_json::Value =
        serde_json::from_str("{\"status\":\"ERROR\",\"message\":\"Invalid API key\"}").unwrap();
    let status = status_of(&fixture);
    let message = message_of(&fixture);

    let domains = domains_outcome(&status, &message, &Vec::new(), OutputMode::Table);
    let e = domains.unwrap_err();
    assert!(e.message.contains("Invalid API key"));
    assert_eq!(e.text(), "API error: Invalid API key");

    let records =
        records_outcome(&status, &message, "example.com", &Vec::new(), OutputMode::Table);
    assert!(records.unwrap_err().message.contains("Invalid API key"));

    let create = create_outcome(&status, &message, "A", &None, "example.com", "1.2.3.4", &None);
    assert!(create.unwrap_err().message.contains("Invalid API key"));

    let edit = edit_outcome(&status, &message, "example.com", "42");
    assert!(edit.unwrap_err().message.contains("Invalid API key"));

    let delete = delete_outcome(&status, &message, "example.com", "42");
    assert!(delete.unwrap_err().message.contains("Invalid API key"));

    let dbnt = delete_by_name_type_outcome(&status, &message, "example.com", "A", &None);
    assert!(dbnt.unwrap_err().message.contains("Invalid API key"));
}

#[test]
fn error_status_without_message_gets_the_placeholder() {
    let r = check_status("ERROR", &None);
    assert_eq!(r.unwrap_err().message, "API error: unknown error");
}

#[test]
fn success_status_passes_check() {
    assert!(check_status("SUCCESS", &None).is_ok());
    assert!(check_status("success", &None).is_err());
    assert!(check_status("", &Some("m".to_string())).is_err());
}

#[test]
fn create_confirmation_uses_the_root_marker_without_a_name() {
    let fixture: serde_json::Value =
        serde_json::from_str("{\"status\":\"SUCCESS\",\"id\":12345}").unwrap();
    let id = fixture.get("id").map(|v| v.to_string());
    let out = create_outcome(
        &status_of(&fixture),
        &message_of(&fixture),
        "A",
        &None,
        "example.com",
        "1.2.3.4",
        &id,
    );
    assert_eq!(
        out.unwrap(),
        "Created A record for (root).example.com -> 1.2.3.4 (id: 12345)"
    );
}

#[test]
fn create_confirmation_joins_subdomain_and_domain() {
    let out = create_outcome(
        "SUCCESS",
        &None,
        "A",
        &Some("www".to_string()),
        "example.com",
        "1.2.3.4",
        &Some("9".to_string()),
    );
    assert_eq!(out.unwrap(), "Created A record for www.example.com -> 1.2.3.4 (id: 9)");
}

#[test]
fn create_confirmation_without_id_shows_the_placeholder() {
    let out = create_outcome("SUCCESS", &None, "A", &None, "example.com", "1.2.3.4", &None);
    assert_eq!(out.unwrap(), "Created A record for (root).example.com -> 1.2.3.4 (id: unknown)");
}

#[test]
fn edit_and_delete_confirmations_name_the_record() {
    let edited = edit_outcome("SUCCESS", &None, "example.com", "42");
    assert_eq!(edited.unwrap(), "Updated record 42 on example.com.");
    let deleted = delete_outcome("SUCCESS", &None, "example.com", "42");
    assert_eq!(deleted.unwrap(), "Deleted record 42 from example.com.");
}

#[test]
fn delete_by_name_type_confirmation_says_root_without_a_subdomain() {
    let out = delete_by_name_type_outcome("SUCCESS", &None, "example.com", "TXT", &None);
    assert_eq!(out.unwrap(), "Deleted root TXT records from example.com.");
    let named = delete_by_name_type_outcome(
        "SUCCESS",
        &None,
        "example.com",
        "TXT",
        &Some("www".to_string()),
    );
    assert_eq!(named.unwrap(), "Deleted www TXT records from example.com.");
}

#[test]
fn decoded_record_round_trips_through_the_tsv_renderer() {
    let fixture: serde_json::Value = serde_json::from_str(
        "{\"status\":\"SUCCESS\",\"records\":[{\"id\":\"106926659\",\"name\":\"www.example.com\",\
         \"type\":\"A\",\"content\":\"1.2.3.4\",\"ttl\":\"600\",\"prio\":\"0\",\
         \"notes\":\"web server\"}]}",
    )
    .unwrap();
    let records: Vec<DnsRecord> = fixture
        .get("records")
        .unwrap()
        .as_array()
        .unwrap()
        .iter()
        .map(|r| DnsRecord {
            id: req_str(r, "id"),
            name: req_str(r, "name"),
            record_type: req_str(r, "type"),
            content: req_str(r, "content"),
            ttl: req_str(r, "ttl"),
            prio: opt_str(r, "prio"),
            notes: opt_str(r, "notes"),
        })
        .collect();
    let out = records_outcome(
        &status_of(&fixture),
        &message_of(&fixture),
        "example.com",
        &records,
        OutputMode::Tsv { header: false },
    );
    assert_eq!(out.unwrap(), "106926659\twww.example.com\tA\t1.2.3.4\t600\t0\tweb server");
}
