use marge::config::Config;
use marge::events::{Event, Key};
use marge::popup::Method;
use marge::request::{resolve, ReqType};
use marge::response::{Response, ResponseType};
use marge::ui::MenuItem;
use marge::{Action, Marge};

fn domains_body_one_entry() -> &'static str {
    "{\"entries\": [{\"alias_domain\": null, \"description\": \"Main domain\", \
     \"http_etag\": \"etag-d\", \"mail_host\": \"example.com\", \
     \"self_link\": \"http://localhost:8001/3.1/domains/example.com\"}], \
     \"http_etag\": \"etag-page\", \"start\": 0, \"total_size\": 1}"
}

fn lists_body_one_entry() -> &'static str {
    "{\"entries\": [{\"advertised\": true, \"description\": null, \
     \"display_name\": \"Test\", \"fqdn_listname\": \"test@example.com\", \
     \"http_etag\": \"etag-l\", \"list_id\": \"test.example.com\", \
     \"mail_host\": \"example.com\", \"member_count\": 3, \
     \"self_link\": \"http://localhost:8001/3.1/lists/test.example.com\", \
     \"volume\": 1}], \"http_etag\": \"etag-page\", \"start\": 0, \"total_size\": 1}"
}

fn members_body_empty() -> &'static str {
    "{\"http_etag\": \"etag-page\", \"start\": 0, \"total_size\": 0}"
}

fn loaded(kind: ResponseType, status: &str, body: &str) -> Action {
    Action::RequestResponse(Response::new(kind, status.to_string(), body.to_string()))
}

#[test]
fn resource_loaded_domains_selects_first_entry() {
    let mut m = Marge::new();
    let job = m.update(loaded(ResponseType::Domains, "200: OK", domains_body_one_entry()));
    assert!(job.is_none());
    assert_eq!(m.ui.list_vec().len(), 1);
    assert_eq!(m.ui.list_vec()[0], "example.com".to_string());
    assert_eq!(m.ui.selected(), Some(0));
    let domain = m.config.domain().clone().expect("domain pinned");
    assert_eq!(domain.mail_host(), "example.com".to_string());
    assert_eq!(m.ui.status(), &"200: OK".to_string());
    assert_eq!(m.ui.sel_domain(), &Some("example.com".to_string()));
}

#[test]
fn resource_loaded_lists_error_clears_entries() {
    let mut m = Marge::new();
    // a stored page from a prior successful fetch
    let _ = m.update(loaded(ResponseType::Lists, "200: OK", lists_body_one_entry()));
    assert!(m.lists.is_some());
    let _ = m.update(loaded(ResponseType::Lists, "404: Not Found", ""));
    assert_eq!(m.ui.status(), &"404: Not Found".to_string());
    assert!(m.lists.is_none());
    assert_eq!(m.ui.list_vec().len(), 1);
    assert!(m.ui.list_vec()[0].starts_with("Error: "));
}

#[test]
fn add_on_messages_view_is_refused_without_popup() {
    let mut m = Marge::new();
    let _ = m.update(loaded(ResponseType::Lists, "200: OK", lists_body_one_entry()));
    let _ = m.update(loaded(ResponseType::Messages, "200: OK", members_body_empty()));
    let rows_before = m.ui.list_vec().clone();
    let selected_before = m.ui.selected();
    let list_before = m.config.list().clone();
    let job = m.update(Action::Add);
    assert!(job.is_none());
    assert!(m.popup.is_none());
    assert_eq!(m.ui.list_vec(), &rows_before);
    assert_eq!(m.ui.selected(), selected_before);
    assert_eq!(
        m.config.list().clone().map(|l| l.list_id()),
        list_before.map(|l| l.list_id())
    );
    assert_eq!(
        m.ui.status(),
        &"Sorry, don't know yet how to add new items here...".to_string()
    );
}

#[test]
fn unselect_clears_cursor_and_pinned_entry() {
    let mut m = Marge::new();
    let _ = m.update(loaded(ResponseType::Domains, "200: OK", domains_body_one_entry()));
    assert!(m.config.domain().is_some());
    assert_eq!(m.ui.selected(), Some(0));
    let job = m.update(Action::Unselect);
    assert!(job.is_none());
    assert_eq!(m.ui.selected(), None);
    assert!(m.config.domain().is_none());
    assert!(m.ui.sel_domain().is_none());
}

#[test]
fn fetch_messages_end_to_end_scenario() {
    let mut m = Marge::new();
    // no list pinned: the dispatcher is never spawned
    let job = m.update(Action::Messages);
    assert!(job.is_none());
    assert_eq!(
        m.ui.status(),
        &"Can't fetch messages: No list selected!".to_string()
    );
    // pin a list by delivering a lists page with one entry
    let _ = m.update(loaded(ResponseType::Lists, "200: OK", lists_body_one_entry()));
    assert!(m.config.list().is_some());
    assert_eq!(m.ui.selected(), Some(0));
    // now the fetch is dispatched, scoped to that list
    let job = m.update(Action::Messages).expect("dispatch expected");
    assert!(matches!(job.req, ReqType::Messages));
    let (method, url, fields) = resolve(job.req, &job.config);
    assert_eq!(method, Method::Get);
    assert_eq!(url, "http://localhost:8001/3.1/lists/test@example.com/held".to_string());
    assert!(fields.is_empty());
}

#[test]
fn fetch_domains_sets_tab_and_snapshots_config() {
    let mut m = Marge::new();
    let job = m.update(Action::Domains).expect("dispatch expected");
    assert!(matches!(job.req, ReqType::Domains));
    assert!(matches!(job.response_type, ResponseType::Domains));
    assert!(job.refresh.is_none());
    assert_eq!(job.config.host(), &"localhost".to_string());
    assert!(matches!(m.ui.active_menu_item(), MenuItem::Domains));
    let (_, url, _) = resolve(job.req, &job.config);
    assert_eq!(url, "http://localhost:8001/3.1/domains".to_string());
}

#[test]
fn members_endpoint_depends_on_pinned_list() {
    let mut m = Marge::new();
    let job = m.update(Action::Members).expect("dispatch expected");
    let (_, url, _) = resolve(job.req, &job.config);
    assert_eq!(url, "http://localhost:8001/3.1/members".to_string());
    let _ = m.update(loaded(ResponseType::Lists, "200: OK", lists_body_one_entry()));
    let job = m.update(Action::Members).expect("dispatch expected");
    let (_, url, _) = resolve(job.req, &job.config);
    assert_eq!(
        url,
        "http://localhost:8001/3.1/lists/test@example.com/roster/member".to_string()
    );
}

#[test]
fn quit_sets_exit_flag() {
    let mut m = Marge::new();
    assert!(!m.should_quit);
    let job = m.update(Action::Quit);
    assert!(job.is_none());
    assert!(m.should_quit);
}

#[test]
fn key_mapping_outside_popup() {
    let m = Marge::new();
    assert!(matches!(m.get_action(Event::Key(Key::Char('q'))), Action::Quit));
    assert!(matches!(m.get_action(Event::Key(Key::Char('D'))), Action::Domains));
    assert!(matches!(m.get_action(Event::Key(Key::Char('l'))), Action::Lists));
    assert!(matches!(m.get_action(Event::Key(Key::Char('s'))), Action::Messages));
    assert!(matches!(m.get_action(Event::Key(Key::Down)), Action::Down));
    assert!(matches!(m.get_action(Event::Key(Key::Char('k'))), Action::Up));
    assert!(matches!(m.get_action(Event::Key(Key::Backspace)), Action::Delete));
    assert!(matches!(m.get_action(Event::Key(Key::Enter)), Action::Open));
    assert!(matches!(m.get_action(Event::Key(Key::Char('?'))), Action::Nop));
    assert!(matches!(m.get_action(Event::Tick), Action::Tick));
    assert!(matches!(m.get_action(Event::Render), Action::Render));
    assert!(matches!(m.get_action(Event::Error), Action::Nop));
}

#[test]
fn popup_status_is_preserved_through_refresh() {
    let mut m = Marge::new();
    let _ = m.update(loaded(ResponseType::Popup, "201: Created", ""));
    assert_eq!(m.ui.status(), &"201: Created".to_string());
    // the mechanical follow-up refresh must not overwrite the popup's status
    let _ = m.update(loaded(ResponseType::Lists, "200: OK", lists_body_one_entry()));
    assert_eq!(m.ui.status(), &"201: Created".to_string());
    // but a later, ordinary fetch does
    let _ = m.update(loaded(ResponseType::Lists, "200: OK", lists_body_one_entry()));
    assert_eq!(m.ui.status(), &"200: OK".to_string());
}

#[test]
fn config_defaults_and_setters() {
    let mut c = Config::new();
    assert_eq!(c.username(), &"restadmin".to_string());
    assert_eq!(c.password(), &"restpass".to_string());
    assert_eq!(c.protocol(), &"http".to_string());
    assert_eq!(c.host(), &"localhost".to_string());
    assert_eq!(c.port(), 8001);
    assert!(c.domain().is_none());
    assert!(c.list().is_none());
    c.set_username("admin".to_string());
    c.set_password("secret".to_string());
    c.set_protocol("https".to_string());
    c.set_host("mail.example.com".to_string());
    c.set_port(443);
    assert_eq!(c.username(), &"admin".to_string());
    assert_eq!(c.password(), &"secret".to_string());
    assert_eq!(c.protocol(), &"https".to_string());
    assert_eq!(c.host(), &"mail.example.com".to_string());
    assert_eq!(c.port(), 443);
}
