use marge::domains::Domains;
use marge::lists::Lists;
use marge::members::Members;
use marge::messages::Messages;
use marge::response::{Response, ResponseType};
use marge::{Action, Marge};

#[test]
fn domains_page_parses_entries_in_order() {
    let body = "{\"entries\": [\
        {\"alias_domain\": \"alias.one\", \"description\": null, \"http_etag\": \"e1\", \
         \"mail_host\": \"one.example\", \"self_link\": \"l1\"}, \
        {\"http_etag\": \"e2\", \"mail_host\": \"two.example\", \"self_link\": \"l2\"}], \
        \"http_etag\": \"p\", \"start\": 0, \"total_size\": 2}";
    let page = Domains::from_text(body).expect("parse");
    let rows = page.list_vec();
    assert_eq!(rows, vec!["one.example".to_string(), "two.example".to_string()]);
    let entries = page.entries().clone().expect("entries");
    assert_eq!(entries.len(), 2);
    assert_eq!(entries[0].alias_domain, Some("alias.one".to_string()));
    assert_eq!(entries[0].description, None);
    assert_eq!(entries[1].alias_domain, None);
    assert_eq!(page.http_etag, "p".to_string());
    assert_eq!(page.start, 0);
    assert_eq!(page.total_size, 2);
}

#[test]
fn domains_page_without_entry_list_has_no_rows() {
    let body = "{\"http_etag\": \"p\", \"start\": 0, \"total_size\": 0}";
    let page = Domains::from_text(body).expect("parse");
    assert!(page.entries().is_none());
    assert!(page.list_vec().is_empty());
}

#[test]
fn domains_page_rejects_missing_required_field() {
    // mail_host is absent from the only entry
    let body = "{\"entries\": [{\"http_etag\": \"e1\", \"self_link\": \"l1\"}], \
        \"http_etag\": \"p\", \"start\": 0, \"total_size\": 1}";
    assert!(Domains::from_text(body).is_err());
}

#[test]
fn domains_page_rejects_malformed_json() {
    assert!(Domains::from_text("not json at all").is_err());
    assert!(Domains::from_text("").is_err());
    assert!(Domains::from_text("[1, 2, 3]").is_err());
}

#[test]
fn lists_page_rejects_wrong_field_type() {
    // member_count must be an unsigned number
    let body = "{\"entries\": [{\"advertised\": true, \"display_name\": \"T\", \
        \"fqdn_listname\": \"t@e\", \"http_etag\": \"e\", \"list_id\": \"t.e\", \
        \"mail_host\": \"e\", \"member_count\": -4, \"self_link\": \"l\", \"volume\": 1}], \
        \"http_etag\": \"p\", \"start\": 0, \"total_size\": 1}";
    assert!(Lists::from_text(body).is_err());
    let body_frac = body.replace("-4", "4.5");
    assert!(Lists::from_text(&body_frac).is_err());
    let body_ok = body.replace("-4", "4");
    assert!(Lists::from_text(&body_ok).is_ok());
}

#[test]
fn page_rejects_counter_beyond_range() {
    let body = "{\"http_etag\": \"p\", \"start\": 0, \"total_size\": 5000000000}";
    assert!(Domains::from_text(body).is_err());
    let ok = "{\"http_etag\": \"p\", \"start\": 0, \"total_size\": 4294967295}";
    assert!(Domains::from_text(ok).is_ok());
}

#[test]
fn members_page_parses_and_projects_emails() {
    let body = "{\"entries\": [{\"address\": \"a\", \"bounce_score\": 0, \
        \"delivery_mode\": \"regular\", \"display_name\": \"A\", \
        \"email\": \"a@example.com\", \"http_etag\": \"e\", \"last_warning_sent\": \"\", \
        \"list_id\": \"t.e\", \"member_id\": \"m1\", \"role\": \"member\", \
        \"self_link\": \"l\", \"subscription_mode\": \"as_address\", \
        \"total_warnings_sent\": 0, \"user\": \"u\"}], \
        \"http_etag\": \"p\", \"start\": 0, \"total_size\": 1}";
    let page = Members::from_text(body).expect("parse");
    assert_eq!(page.list_vec(), vec!["a@example.com".to_string()]);
    let entries = page.entries().clone().expect("entries");
    assert_eq!(entries[0].member_id(), "m1".to_string());
}

#[test]
fn messages_page_without_entries_shows_placeholder() {
    let body = "{\"http_etag\": \"p\", \"start\": 0, \"total_size\": 0}";
    let page = Messages::from_text(body).expect("parse");
    assert_eq!(page.list_vec(), vec!["No held messages ".to_string()]);
}

#[test]
fn message_description_is_sender_and_subject() {
    let body = "{\"entries\": [{\"hold_date\": \"2024-01-01\", \"http_etag\": \"e\", \
        \"message_id\": \"<id>\", \"msg\": \"body\", \"original_subject\": \"Hello\", \
        \"reason\": \"moderated\", \"request_id\": 7, \"self_link\": \"l\", \
        \"sender\": \"bob@example.com\", \"subject\": \"Hello\"}], \
        \"http_etag\": \"p\", \"start\": 0, \"total_size\": 1}";
    let page = Messages::from_text(body).expect("parse");
    assert_eq!(page.list_vec(), vec!["bob@example.com: Hello".to_string()]);
    let entries = page.entries().clone().expect("entries");
    assert_eq!(entries[0].request_id(), 7);
    assert_eq!(entries[0].description(), "bob@example.com: Hello".to_string());
}

#[test]
fn members_diagnostic_dumps_structured_body() {
    let mut m = Marge::new();
    // well-formed JSON that is not a members page
    let act = Action::RequestResponse(Response::new(
        ResponseType::Members,
        "200: OK".to_string(),
        "{\"unexpected\": 1}".to_string(),
    ));
    let _ = m.update(act);
    assert!(m.members.is_none());
    let rows = m.ui.list_vec();
    assert_eq!(rows.len(), 2);
    assert!(rows[0].starts_with("Error: "));
    assert!(rows[1].starts_with("Original response value: "));
}

#[test]
fn members_diagnostic_echoes_raw_text() {
    let mut m = Marge::new();
    let act = Action::RequestResponse(Response::new(
        ResponseType::Members,
        "200: OK".to_string(),
        "<html>oops</html>".to_string(),
    ));
    let _ = m.update(act);
    assert!(m.members.is_none());
    let rows = m.ui.list_vec();
    assert_eq!(rows.len(), 2);
    assert!(rows[0].starts_with("Error: "));
    assert_eq!(rows[1], "Original response text: <html>oops</html>".to_string());
}

#[test]
fn empty_entry_array_means_no_selection() {
    let mut m = Marge::new();
    let act = Action::RequestResponse(Response::new(
        ResponseType::Domains,
        "200: OK".to_string(),
        "{\"entries\": [], \"http_etag\": \"p\", \"start\": 0, \"total_size\": 0}".to_string(),
    ));
    let _ = m.update(act);
    let page = m.domains.as_ref().expect("page stored");
    assert_eq!(page.entries().clone().expect("entries").len(), 0);
    assert_eq!(m.ui.selected(), None);
    assert!(m.config.domain().is_none());
}
