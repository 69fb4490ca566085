use marge::events::{Event, Key};
use marge::popup::{Method, Popup, PopupStatus};
use marge::request::ReqType;
use marge::response::{Response, ResponseType};
use marge::{Action, Marge};

fn lists_body_one_entry() -> &'static str {
    "{\"entries\": [{\"advertised\": true, \"description\": null, \
     \"display_name\": \"Test\", \"fqdn_listname\": \"test@example.com\", \
     \"http_etag\": \"etag-l\", \"list_id\": \"test.example.com\", \
     \"mail_host\": \"example.com\", \"member_count\": 3, \
     \"self_link\": \"http://localhost:8001/3.1/lists/test.example.com\", \
     \"volume\": 1}], \"http_etag\": \"etag-page\", \"start\": 0, \"total_size\": 1}"
}

fn members_body_one_entry() -> &'static str {
    "{\"entries\": [{\"address\": \"a\", \"bounce_score\": 0, \
     \"delivery_mode\": \"regular\", \"display_name\": \"A\", \
     \"email\": \"a@example.com\", \"http_etag\": \"e\", \"last_warning_sent\": \"\", \
     \"list_id\": \"test.example.com\", \"member_id\": \"member-1\", \"role\": \"member\", \
     \"self_link\": \"l\", \"subscription_mode\": \"as_address\", \
     \"total_warnings_sent\": 0, \"user\": \"u\"}], \
     \"http_etag\": \"p\", \"start\": 0, \"total_size\": 1}"
}

fn loaded(kind: ResponseType, status: &str, body: &str) -> Action {
    Action::RequestResponse(Response::new(kind, status.to_string(), body.to_string()))
}

fn member_view_with_list() -> Marge {
    let mut m = Marge::new();
    let _ = m.update(loaded(ResponseType::Lists, "200: OK", lists_body_one_entry()));
    let _ = m.update(loaded(ResponseType::Members, "200: OK", members_body_one_entry()));
    m
}

#[test]
fn add_on_members_opens_text_popup() {
    let mut m = member_view_with_list();
    let job = m.update(Action::Add);
    assert!(job.is_none());
    assert!(matches!(m.popup, Some(Popup::MemberAdd { .. })));
}

#[test]
fn cancel_closes_popup_with_no_action() {
    let mut m = member_view_with_list();
    let _ = m.update(Action::Add);
    assert!(m.popup.is_some());
    let out = m.on_event(Event::Key(Key::Esc));
    assert!(out.is_none());
    assert!(m.popup.is_none());
}

#[test]
fn submit_enqueues_exactly_one_popup_submit() {
    let mut m = member_view_with_list();
    let _ = m.update(Action::Add);
    // type an address, then confirm
    for c in "bob@example.com".chars() {
        let out = m.on_event(Event::Key(Key::Char(c)));
        assert!(out.is_none());
    }
    let out = m.on_event(Event::Key(Key::Enter));
    assert!(matches!(out, Some(Action::PopupSubmit)));
    assert!(m.popup.is_some());
}

#[test]
fn popup_submit_builds_subscription_request() {
    let mut m = member_view_with_list();
    let _ = m.update(Action::Add);
    for c in "bob@example.com".chars() {
        let _ = m.on_event(Event::Key(Key::Char(c)));
    }
    let _ = m.on_event(Event::Key(Key::Enter));
    let job = m.update(Action::PopupSubmit).expect("dispatch expected");
    assert!(m.popup.is_none());
    assert!(matches!(job.response_type, ResponseType::Popup));
    assert_eq!(job.refresh, Some(ResponseType::Members));
    let params = match job.req {
        ReqType::Popup(p) => p,
        _ => panic!("popup request expected"),
    };
    assert_eq!(params.method(), Method::Post);
    assert_eq!(params.url(), &"http://localhost:8001/3.1/members".to_string());
    let map = params.map();
    assert_eq!(map.len(), 7);
    assert_eq!(map[0], ("list_id".to_string(), "test.example.com".to_string()));
    assert_eq!(map[1], ("subscriber".to_string(), "bob@example.com".to_string()));
    assert_eq!(map[2], ("display_name".to_string(), "".to_string()));
    assert_eq!(map[3], ("pre_verified".to_string(), "true".to_string()));
    assert_eq!(map[4], ("pre_confirmed".to_string(), "true".to_string()));
    assert_eq!(map[5], ("pre_approved".to_string(), "true".to_string()));
    assert_eq!(map[6], ("send_welcome_message".to_string(), "false".to_string()));
}

#[test]
fn text_popup_backspace_edits_buffer() {
    let mut m = member_view_with_list();
    let _ = m.update(Action::Add);
    for c in "ab".chars() {
        let _ = m.on_event(Event::Key(Key::Char(c)));
    }
    let _ = m.on_event(Event::Key(Key::Backspace));
    let _ = m.on_event(Event::Key(Key::Char('c')));
    match &m.popup {
        Some(Popup::MemberAdd { buffer, .. }) => assert_eq!(buffer, &"ac".to_string()),
        _ => panic!("text popup expected"),
    }
}

#[test]
fn confirmation_ignores_unrelated_keys() {
    let mut m = member_view_with_list();
    let _ = m.update(Action::Delete);
    let out = m.on_event(Event::Key(Key::Char('z')));
    assert!(out.is_none());
    assert!(m.popup.is_some());
    let out = m.on_event(Event::Key(Key::Up));
    assert!(out.is_none());
    assert!(m.popup.is_some());
}

#[test]
fn delete_on_members_opens_confirmation() {
    let mut m = member_view_with_list();
    let job = m.update(Action::Delete);
    assert!(job.is_none());
    assert!(matches!(m.popup, Some(Popup::MemberDel { .. })));
    // 'n' answers no
    let out = m.on_event(Event::Key(Key::Char('n')));
    assert!(out.is_none());
    assert!(m.popup.is_none());
}

#[test]
fn member_delete_targets_pinned_member() {
    let mut m = member_view_with_list();
    let _ = m.update(Action::Delete);
    let out = m.on_event(Event::Key(Key::Char('y')));
    assert!(matches!(out, Some(Action::PopupSubmit)));
    let job = m.update(Action::PopupSubmit).expect("dispatch expected");
    let params = match job.req {
        ReqType::Popup(p) => p,
        _ => panic!("popup request expected"),
    };
    assert_eq!(params.method(), Method::Delete);
    assert_eq!(params.url(), &"http://localhost:8001/3.1/members/member-1".to_string());
    assert!(params.map().is_empty());
}

#[test]
fn delete_without_member_sets_status() {
    let mut m = Marge::new();
    let _ = m.update(loaded(
        ResponseType::Members,
        "200: OK",
        "{\"http_etag\": \"p\", \"start\": 0, \"total_size\": 0}",
    ));
    assert!(m.config.member().is_none());
    let job = m.update(Action::Delete);
    assert!(job.is_none());
    assert!(m.popup.is_none());
    assert_eq!(m.ui.status(), &"Sorry, no member to delete selected".to_string());
}

#[test]
fn moderation_popup_picks_action_and_submits() {
    let mut m = Marge::new();
    let _ = m.update(loaded(ResponseType::Lists, "200: OK", lists_body_one_entry()));
    let messages_body = "{\"entries\": [{\"hold_date\": \"d\", \"http_etag\": \"e\", \
        \"message_id\": \"<id>\", \"msg\": \"b\", \"original_subject\": \"S\", \
        \"reason\": \"r\", \"request_id\": 42, \"self_link\": \"l\", \
        \"sender\": \"bob@example.com\", \"subject\": \"S\"}], \
        \"http_etag\": \"p\", \"start\": 0, \"total_size\": 1}";
    let _ = m.update(loaded(ResponseType::Messages, "200: OK", messages_body));
    let _ = m.update(Action::Open);
    assert!(matches!(m.popup, Some(Popup::MessageMod { .. })));
    let out = m.on_event(Event::Key(Key::Char('d')));
    assert!(matches!(out, Some(Action::PopupSubmit)));
    let job = m.update(Action::PopupSubmit).expect("dispatch expected");
    let params = match job.req {
        ReqType::Popup(p) => p,
        _ => panic!("popup request expected"),
    };
    assert_eq!(params.method(), Method::Post);
    assert_eq!(
        params.url(),
        &"http://localhost:8001/3.1/lists/test@example.com/held/42".to_string()
    );
    assert_eq!(params.map()[0], ("action".to_string(), "discard".to_string()));
}

#[test]
fn moderation_escape_defers_by_cancelling() {
    let mut m = Marge::new();
    let _ = m.update(loaded(ResponseType::Lists, "200: OK", lists_body_one_entry()));
    let messages_body = "{\"entries\": [{\"hold_date\": \"d\", \"http_etag\": \"e\", \
        \"message_id\": \"<id>\", \"msg\": \"b\", \"original_subject\": \"S\", \
        \"reason\": \"r\", \"request_id\": 42, \"self_link\": \"l\", \
        \"sender\": \"bob@example.com\", \"subject\": \"S\"}], \
        \"http_etag\": \"p\", \"start\": 0, \"total_size\": 1}";
    let _ = m.update(loaded(ResponseType::Messages, "200: OK", messages_body));
    let _ = m.update(Action::Open);
    let out = m.on_event(Event::Key(Key::Esc));
    assert!(out.is_none());
    assert!(m.popup.is_none());
}

#[test]
fn render_passes_through_while_popup_is_open() {
    let mut m = member_view_with_list();
    let _ = m.update(Action::Add);
    let out = m.on_event(Event::Render);
    assert!(matches!(out, Some(Action::Render)));
    assert!(m.popup.is_some());
}
