//! A keyboard-driven client for a mailing-list administration service.
//!
//! The crate holds the whole control loop as verified code: the mapping
//! from keystrokes to commands, the reducer that consumes one command at a
//! time, the cursor and selection model behind the list view, the popup
//! state machine that captures input while a mutating request is being
//! built, and the reading of response bodies into typed entry pages. What
//! cannot be verified - the terminal, the HTTP client, the configuration
//! file - lives outside and talks to the library through plain values:
//! events in, dispatch jobs and responses back.

use vstd::prelude::*;

pub mod config;
pub mod domains;
pub mod events;
pub mod json;
pub mod laws;
pub mod lists;
pub mod members;
pub mod messages;
pub mod numfmt;
pub mod popup;
pub mod request;
pub mod response;
pub mod strops;
pub mod ui;

use crate::config::Config;
use crate::domains::Domains;
use crate::events::{Event, Key};
use crate::json::json_of;
use crate::lists::Lists;
use crate::members::Members;
use crate::messages::Messages;
use crate::popup::{spec_input_rel, spec_input_status, spec_submit_rel, Popup, PopupStatus};
use crate::request::ReqType;
use crate::response::{Response, ResponseType};
use crate::ui::{down_index, up_index, MenuItem, Ui};

verus! {

/// One command for the reducer: something a keystroke, a timer or a
/// finished call asks the application state to do.
pub enum Action {
    Tick,
    Quit,
    Render,
    Domains,
    Lists,
    Members,
    Messages,
    PopupSubmit,
    Unselect,
    Up,
    Down,
    Add,
    Delete,
    Open,
    RequestResponse(Response),
    Nop,
}

/// One outbound call the reducer asks for: the request, a frozen snapshot of
/// the configuration to resolve and authenticate it with, the kind the
/// answer will be delivered as, and the kind to fetch again afterwards.
pub struct DispatchJob {
    pub req: ReqType,
    pub config: Config,
    pub response_type: ResponseType,
    pub refresh: Option<ResponseType>,
}

impl DispatchJob {
    /// A held-messages fetch is only ever asked for with a list pinned.
    pub open spec fn wf(self) -> bool {
        self.req is Messages ==> self.config.list is Some
    }
}

/// The whole application state the reducer works on.
pub struct Marge {
    pub config: Config,
    pub config_changed: bool,
    pub domains: Option<Domains>,
    pub lists: Option<Lists>,
    pub members: Option<Members>,
    pub messages: Option<Messages>,
    pub should_quit: bool,
    pub ui: Ui,
    pub response_t: Option<ResponseType>,
    pub popup: Option<Popup>,
}

/// The displayed rows of the active kind line up with its stored entries,
/// so a cursor index is also a valid entry index.
pub open spec fn rows_match(m: Marge) -> bool {
    &&& (m.response_t == Some(ResponseType::Domains) ==> (m.domains matches Some(d) ==> (d.entries
        matches Some(es) ==> m.ui.list_vec@.len() == es@.len())))
    &&& (m.response_t == Some(ResponseType::Lists) ==> (m.lists matches Some(d) ==> (d.entries
        matches Some(es) ==> m.ui.list_vec@.len() == es@.len())))
    &&& (m.response_t == Some(ResponseType::Members) ==> (m.members matches Some(d) ==> (d.entries
        matches Some(es) ==> m.ui.list_vec@.len() == es@.len())))
    &&& (m.response_t == Some(ResponseType::Messages) ==> (m.messages matches Some(d) ==> (
    d.entries matches Some(es) ==> m.ui.list_vec@.len() == es@.len())))
}

/// The state as a whole is sound: the cursor is in bounds, the rows fit the
/// stored entries, and an open popup still has what it needs pinned.
pub open spec fn marge_wf(m: Marge) -> bool {
    &&& m.ui.wf()
    &&& rows_match(m)
    &&& (m.popup matches Some(p) ==> p.wf())
}

/// The same state with another cursor.
pub open spec fn spec_with_cursor(m: Marge, sel: Option<usize>) -> Marge {
    Marge { ui: Ui { selected: sel, ..m.ui }, ..m }
}

/// Where a downward step puts the cursor.
pub open spec fn spec_cursor_down(u: Ui) -> Option<usize> {
    if u.list_vec@.len() == 0 {
        None
    } else {
        Some(
            (match u.selected {
                Some(i) => down_index(i as nat, u.list_vec@.len()),
                None => 0,
            }) as usize,
        )
    }
}

/// Where an upward step puts the cursor.
pub open spec fn spec_cursor_up(u: Ui) -> Option<usize> {
    if u.list_vec@.len() == 0 {
        None
    } else {
        Some(
            (match u.selected {
                Some(i) => up_index(i as nat, u.list_vec@.len()),
                None => 0,
            }) as usize,
        )
    }
}

/// Re-derives the pinned entry of the active kind from the cursor: the entry
/// under the cursor is pinned, and for domains and lists its display name is
/// shown in the header. A kind whose page or entry list is missing pins
/// nothing new.
pub open spec fn spec_apply_selection(m: Marge) -> Marge {
    match m.ui.selected {
        None => m,
        Some(i) => match m.response_t {
            Some(ResponseType::Domains) => match m.domains {
                Some(d) => match d.entries {
                    Some(es) => if (i as int) < es@.len() {
                        Marge {
                            config: Config { domain: Some(es@[i as int]), ..m.config },
                            ui: Ui { sel_domain: Some(es@[i as int].mail_host), ..m.ui },
                            ..m
                        }
                    } else {
                        m
                    },
                    None => Marge {
                        config: Config { domain: None, ..m.config },
                        ui: Ui { sel_domain: None, ..m.ui },
                        ..m
                    },
                },
                None => m,
            },
            Some(ResponseType::Lists) => match m.lists {
                Some(d) => match d.entries {
                    Some(es) => if (i as int) < es@.len() {
                        Marge {
                            config: Config { list: Some(es@[i as int]), ..m.config },
                            ui: Ui { sel_list: Some(es@[i as int].display_name), ..m.ui },
                            ..m
                        }
                    } else {
                        m
                    },
                    None => Marge {
                        config: Config { list: None, ..m.config },
                        ui: Ui { sel_list: None, ..m.ui },
                        ..m
                    },
                },
                None => m,
            },
            Some(ResponseType::Members) => match m.members {
                Some(d) => match d.entries {
                    Some(es) => if (i as int) < es@.len() {
                        Marge { config: Config { member: Some(es@[i as int]), ..m.config }, ..m }
                    } else {
                        m
                    },
                    None => Marge { config: Config { member: None, ..m.config }, ..m },
                },
                None => m,
            },
            Some(ResponseType::Messages) => match m.messages {
                Some(d) => match d.entries {
                    Some(es) => if (i as int) < es@.len() {
                        Marge { config: Config { message: Some(es@[i as int]), ..m.config }, ..m }
                    } else {
                        m
                    },
                    None => Marge { config: Config { message: None, ..m.config }, ..m },
                },
                None => m,
            },
            _ => m,
        },
    }
}

/// What clearing the selection leaves behind: no cursor, and the active
/// kind's pinned entry (with its header name, where one is shown) gone.
pub open spec fn spec_apply_unselect(m: Marge) -> Marge {
    match m.response_t {
        Some(ResponseType::Domains) => Marge {
            config: Config { domain: None, ..m.config },
            ui: Ui { selected: None, sel_domain: None, ..m.ui },
            ..m
        },
        Some(ResponseType::Lists) => Marge {
            config: Config { list: None, ..m.config },
            ui: Ui { selected: None, sel_list: None, ..m.ui },
            ..m
        },
        Some(ResponseType::Members) => Marge {
            config: Config { member: None, ..m.config },
            ui: Ui { selected: None, ..m.ui },
            ..m
        },
        Some(ResponseType::Messages) => Marge {
            config: Config { message: None, ..m.config },
            ui: Ui { selected: None, ..m.ui },
            ..m
        },
        _ => Marge { ui: Ui { selected: None, ..m.ui }, ..m },
    }
}

/// The state is unchanged but for a new status line with the given words.
pub open spec fn only_status_set(pre: Marge, post: Marge, words: Seq<char>) -> bool {
    &&& post.ui.status@ == words
    &&& post == (Marge { ui: Ui { status: post.ui.status, ..pre.ui }, ..pre })
}

/// The state is unchanged but for the popup slot.
pub open spec fn only_popup_changed(pre: Marge, post: Marge) -> bool {
    post == (Marge { popup: post.popup, ..pre })
}

/// What a fetch of one resource kind does: the matching menu tab becomes
/// active and one dispatch is asked for, carrying a snapshot of the
/// configuration, no follow-up, and the kind the answer will bear.
pub open spec fn fetch_post(
    pre: Marge,
    post: Marge,
    r: Option<DispatchJob>,
    item: MenuItem,
    req: ReqType,
    rt: ResponseType,
) -> bool {
    &&& post == (Marge { ui: Ui { active_menu_item: item, ..pre.ui }, ..pre })
    &&& r == Some(DispatchJob { req, config: pre.config, response_type: rt, refresh: None })
}


/// What all four loads share: the answered kind becomes active, the status
/// line takes the response's status unless the previous response was a
/// popup's (whose status is kept through the mechanical follow-up refresh),
/// and the rest of the frame stays.
pub open spec fn loaded_frame(pre: Marge, post: Marge, status: String, rt: ResponseType) -> bool {
    &&& post.response_t == Some(rt)
    &&& post.should_quit == pre.should_quit
    &&& post.config_changed == pre.config_changed
    &&& post.popup == pre.popup
    &&& post.ui.menu_titles == pre.ui.menu_titles
    &&& post.ui.active_menu_item == pre.ui.active_menu_item
    &&& (pre.response_t != Some(ResponseType::Popup) ==> post.ui.status == status)
    &&& (pre.response_t == Some(ResponseType::Popup) ==> post.ui.status == pre.ui.status)
    &&& post.config.username == pre.config.username
    &&& post.config.password == pre.config.password
    &&& post.config.protocol == pre.config.protocol
    &&& post.config.host == pre.config.host
    &&& post.config.port == pre.config.port
}

/// What delivering a domains response does: on a body that parses, the page
/// is stored, its rows are shown with the cursor on top, and the first entry
/// (if any) becomes the pinned domain; on any other body the page is
/// cleared, a one-line diagnostic is shown, and the pinned domain stays.
pub open spec fn loaded_domains_post(
    pre: Marge,
    status: String,
    text: Seq<char>,
    post: Marge,
) -> bool {
    &&& loaded_frame(pre, post, status, ResponseType::Domains)
    &&& post.lists == pre.lists
    &&& post.members == pre.members
    &&& post.messages == pre.messages
    &&& post.config.list == pre.config.list
    &&& post.config.member == pre.config.member
    &&& post.config.message == pre.config.message
    &&& post.ui.sel_list == pre.ui.sel_list
    &&& (match crate::domains::spec_of_text(text) {
        Some(pv) => post.domains matches Some(d) && {
            &&& crate::domains::domains_view(d) == pv
            &&& post.ui.list_vec@.map_values(|s: String| s@) == crate::domains::spec_list_vec(d)
            &&& post.ui.selected == (if crate::domains::spec_list_vec(d).len() > 0 {
                Some(0usize)
            } else {
                None::<usize>
            })
            &&& (match d.entries {
                Some(es) => if es@.len() > 0 {
                    post.config.domain == Some(es@[0]) && post.ui.sel_domain == Some(
                        es@[0].mail_host,
                    )
                } else {
                    post.config.domain is None && post.ui.sel_domain is None
                },
                None => post.config.domain is None && post.ui.sel_domain is None,
            })
        },
        None => {
            &&& post.domains is None
            &&& post.config.domain == pre.config.domain
            &&& post.ui.sel_domain == pre.ui.sel_domain
            &&& post.ui.list_vec@.len() == 1
            &&& (exists|m: Seq<char>| post.ui.list_vec@[0]@ == "Error: "@ + m)
            &&& post.ui.selected == Some(0usize)
        },
    })
}

/// What delivering a lists response does, in the same shape as for domains.
pub open spec fn loaded_lists_post(
    pre: Marge,
    status: String,
    text: Seq<char>,
    post: Marge,
) -> bool {
    &&& loaded_frame(pre, post, status, ResponseType::Lists)
    &&& post.domains == pre.domains
    &&& post.members == pre.members
    &&& post.messages == pre.messages
    &&& post.config.domain == pre.config.domain
    &&& post.config.member == pre.config.member
    &&& post.config.message == pre.config.message
    &&& post.ui.sel_domain == pre.ui.sel_domain
    &&& (match crate::lists::spec_of_text(text) {
        Some(pv) => post.lists matches Some(d) && {
            &&& crate::lists::lists_view(d) == pv
            &&& post.ui.list_vec@.map_values(|s: String| s@) == crate::lists::spec_list_vec(d)
            &&& post.ui.selected == (if crate::lists::spec_list_vec(d).len() > 0 {
                Some(0usize)
            } else {
                None::<usize>
            })
            &&& (match d.entries {
                Some(es) => if es@.len() > 0 {
                    post.config.list == Some(es@[0]) && post.ui.sel_list == Some(
                        es@[0].display_name,
                    )
                } else {
                    post.config.list is None && post.ui.sel_list is None
                },
                None => post.config.list is None && post.ui.sel_list is None,
            })
        },
        None => {
            &&& post.lists is None
            &&& post.config.list == pre.config.list
            &&& post.ui.sel_list == pre.ui.sel_list
            &&& post.ui.list_vec@.len() == 1
            &&& (exists|m: Seq<char>| post.ui.list_vec@[0]@ == "Error: "@ + m)
            &&& post.ui.selected == Some(0usize)
        },
    })
}

/// What delivering a members response does. A body that does not parse as a
/// members page leaves a two-line diagnostic: the error, then a structured
/// dump when the body is at least well-formed JSON and the raw text
/// otherwise.
pub open spec fn loaded_members_post(
    pre: Marge,
    status: String,
    text: Seq<char>,
    post: Marge,
) -> bool {
    &&& loaded_frame(pre, post, status, ResponseType::Members)
    &&& post.domains == pre.domains
    &&& post.lists == pre.lists
    &&& post.messages == pre.messages
    &&& post.config.domain == pre.config.domain
    &&& post.config.list == pre.config.list
    &&& post.config.message == pre.config.message
    &&& post.ui.sel_domain == pre.ui.sel_domain
    &&& post.ui.sel_list == pre.ui.sel_list
    &&& (match crate::members::spec_of_text(text) {
        Some(pv) => post.members matches Some(d) && {
            &&& crate::members::members_view(d) == pv
            &&& post.ui.list_vec@.map_values(|s: String| s@) == crate::members::spec_list_vec(d)
            &&& post.ui.selected == (if crate::members::spec_list_vec(d).len() > 0 {
                Some(0usize)
            } else {
                None::<usize>
            })
            &&& (match d.entries {
                Some(es) => if es@.len() > 0 {
                    post.config.member == Some(es@[0])
                } else {
                    post.config.member is None
                },
                None => post.config.member is None,
            })
        },
        None => {
            &&& post.members is None
            &&& post.config.member == pre.config.member
            &&& post.ui.list_vec@.len() == 2
            &&& (exists|m: Seq<char>| post.ui.list_vec@[0]@ == "Error: "@ + m)
            &&& (if json_of(text) is Some {
                exists|d2: Seq<char>| post.ui.list_vec@[1]@ == "Original response value: "@ + d2
            } else {
                post.ui.list_vec@[1]@ == "Original response text: "@ + text
            })
            &&& post.ui.selected == Some(0usize)
        },
    })
}

/// What delivering a held-messages response does, in the same shape as for
/// members; a page without entries keeps the previously pinned message.
pub open spec fn loaded_messages_post(
    pre: Marge,
    status: String,
    text: Seq<char>,
    post: Marge,
) -> bool {
    &&& loaded_frame(pre, post, status, ResponseType::Messages)
    &&& post.domains == pre.domains
    &&& post.lists == pre.lists
    &&& post.members == pre.members
    &&& post.config.domain == pre.config.domain
    &&& post.config.list == pre.config.list
    &&& post.config.member == pre.config.member
    &&& post.ui.sel_domain == pre.ui.sel_domain
    &&& post.ui.sel_list == pre.ui.sel_list
    &&& (match crate::messages::spec_of_text(text) {
        Some(pv) => post.messages matches Some(d) && {
            &&& crate::messages::messages_view(d) == pv
            &&& post.ui.list_vec@.map_values(|s: String| s@) == crate::messages::spec_list_vec(d)
            &&& post.ui.selected == (if crate::messages::spec_list_vec(d).len() > 0 {
                Some(0usize)
            } else {
                None::<usize>
            })
            &&& (match d.entries {
                Some(es) => if es@.len() > 0 {
                    post.config.message == Some(es@[0])
                } else {
                    post.config.message == pre.config.message
                },
                None => post.config.message == pre.config.message,
            })
        },
        None => {
            &&& post.messages is None
            &&& post.config.message == pre.config.message
            &&& post.ui.list_vec@.len() == 2
            &&& (exists|m: Seq<char>| post.ui.list_vec@[0]@ == "Error: "@ + m)
            &&& (if json_of(text) is Some {
                exists|d2: Seq<char>| post.ui.list_vec@[1]@ == "Original response value: "@ + d2
            } else {
                post.ui.list_vec@[1]@ == "Original response text: "@ + text
            })
            &&& post.ui.selected == Some(0usize)
        },
    })
}

/// What delivering a popup submission's own response does: only the status
/// line (under the usual rule) and the answered kind change.
pub open spec fn loaded_popup_post(pre: Marge, status: String, post: Marge) -> bool {
    &&& (pre.response_t != Some(ResponseType::Popup) ==> post == (Marge {
        response_t: Some(ResponseType::Popup),
        ui: Ui { status, ..pre.ui },
        ..pre
    }))
    &&& (pre.response_t == Some(ResponseType::Popup) ==> post == (Marge {
        response_t: Some(ResponseType::Popup),
        ..pre
    }))
}

/// The key-to-command table outside a popup.
pub open spec fn spec_key_action(k: Key) -> Action {
    match k {
        Key::Char('q') | Key::Char('Q') => Action::Quit,
        Key::Char('d') | Key::Char('D') => Action::Domains,
        Key::Char('l') | Key::Char('L') => Action::Lists,
        Key::Char('m') | Key::Char('M') => Action::Members,
        Key::Char('s') | Key::Char('S') => Action::Messages,
        Key::Char('j') | Key::Char('J') | Key::Down => Action::Down,
        Key::Char('k') | Key::Char('K') | Key::Up => Action::Up,
        Key::Char('u') | Key::Char('U') => Action::Unselect,
        Key::Char('a') | Key::Char('A') => Action::Add,
        Key::Char('x') | Key::Char('X') | Key::Backspace => Action::Delete,
        Key::Enter => Action::Open,
        _ => Action::Nop,
    }
}

/// The event-to-command table: timers pass through, keys go by the table
/// above, everything else does nothing.
pub open spec fn spec_get_action(event: Event) -> Action {
    match event {
        Event::Error => Action::Nop,
        Event::Tick => Action::Tick,
        Event::Render => Action::Render,
        Event::Key(k) => spec_key_action(k),
        _ => Action::Nop,
    }
}

/// What one event does before the reducer sees it: a render request passes
/// through; with a popup open a key goes to the popup, whose answer either
/// keeps it, closes it silently, or closes it towards one submission; with
/// no popup a key becomes its mapped command. Nothing else changes.
pub open spec fn spec_on_event_post(
    pre: Marge,
    event: Event,
    post: Marge,
    r: Option<Action>,
) -> bool {
    match event {
        Event::Key(k) => match pre.popup {
            Some(p) => {
                let st = spec_input_status(p, k);
                &&& only_popup_changed(pre, post)
                &&& (st == PopupStatus::Cancel ==> post.popup is None && r is None)
                &&& (st == PopupStatus::Submit ==> (post.popup matches Some(q) && spec_input_rel(
                    p,
                    k,
                    q,
                )) && r == Some(Action::PopupSubmit))
                &&& (st == PopupStatus::Continue ==> (post.popup matches Some(q)
                    && spec_input_rel(p, k, q)) && r is None)
            },
            None => post == pre && r == Some(spec_key_action(k)),
        },
        Event::Render => post == pre && r == Some(Action::Render),
        _ => post == pre && r is None,
    }
}

/// The reducer's whole transition relation, one case per command.
pub open spec fn spec_update_post(
    pre: Marge,
    action: Action,
    post: Marge,
    r: Option<DispatchJob>,
) -> bool {
    match action {
        Action::Tick | Action::Render | Action::Nop => post == pre && r is None,
        Action::Quit => post == (Marge { should_quit: true, ..pre }) && r is None,
        Action::Domains => fetch_post(
            pre,
            post,
            r,
            MenuItem::Domains,
            ReqType::Domains,
            ResponseType::Domains,
        ),
        Action::Lists => fetch_post(
            pre,
            post,
            r,
            MenuItem::Lists,
            ReqType::Lists,
            ResponseType::Lists,
        ),
        Action::Members => fetch_post(
            pre,
            post,
            r,
            MenuItem::Members,
            ReqType::Members,
            ResponseType::Members,
        ),
        Action::Messages => match pre.config.list {
            Some(_) => fetch_post(
                pre,
                post,
                r,
                MenuItem::Messages,
                ReqType::Messages,
                ResponseType::Messages,
            ),
            None => only_status_set(pre, post, "Can't fetch messages: No list selected!"@) && r
                is None,
        },
        Action::PopupSubmit => match pre.popup {
            Some(p) => {
                &&& post == (Marge { popup: None, ..pre })
                &&& r matches Some(job) && {
                    &&& job.response_type == ResponseType::Popup
                    &&& job.config == pre.config
                    &&& job.refresh == (match pre.response_t {
                        Some(ResponseType::Popup) => None::<ResponseType>,
                        x => x,
                    })
                    &&& job.req matches ReqType::Popup(params) && spec_submit_rel(p, params)
                }
            },
            None => post == pre && r is None,
        },
        Action::Down => post == spec_apply_selection(
            spec_with_cursor(pre, spec_cursor_down(pre.ui)),
        ) && r is None,
        Action::Up => post == spec_apply_selection(
            spec_with_cursor(pre, spec_cursor_up(pre.ui)),
        ) && r is None,
        Action::Unselect => post == spec_apply_unselect(pre) && r is None,
        Action::Add => r is None && (match pre.response_t {
            Some(ResponseType::Members) => match pre.config.list {
                Some(_) => {
                    &&& only_popup_changed(pre, post)
                    &&& post.popup matches Some(q) && q matches Popup::MemberAdd {
                        config: c2,
                        buffer: b2,
                    } && c2 == pre.config && b2@ == Seq::<char>::empty()
                },
                None => only_status_set(
                    pre,
                    post,
                    "You must select a list before I can add members."@,
                ),
            },
            Some(_) => only_status_set(
                pre,
                post,
                "Sorry, don't know yet how to add new items here..."@,
            ),
            None => only_status_set(pre, post, "Sorry, nothing to add here"@),
        }),
        Action::Delete => r is None && (match pre.response_t {
            Some(ResponseType::Members) => match pre.config.member {
                Some(_) => {
                    &&& only_popup_changed(pre, post)
                    &&& post.popup == Some(Popup::MemberDel { config: pre.config })
                },
                None => only_status_set(pre, post, "Sorry, no member to delete selected"@),
            },
            Some(_) => only_status_set(
                pre,
                post,
                "Sorry, don't know how to delete items hier..."@,
            ),
            None => only_status_set(pre, post, "Sorry, nothing to delete here"@),
        }),
        Action::Open => r is None && (match pre.response_t {
            Some(ResponseType::Messages) => if pre.config.message is Some && pre.config.list
                is Some {
                &&& only_popup_changed(pre, post)
                &&& post.popup == Some(
                    Popup::MessageMod {
                        config: pre.config,
                        action: crate::popup::ModAction::Defer,
                    },
                )
            } else {
                only_status_set(pre, post, "Sorry, no item to open selected"@)
            },
            Some(_) => only_status_set(pre, post, "Sorry, don't know how to open items here..."@),
            None => only_status_set(pre, post, "Sorry, nothing to open here"@),
        }),
        Action::RequestResponse(resp) => r is None && (match resp.response_type {
            ResponseType::Domains => loaded_domains_post(pre, resp.status, resp.text@, post),
            ResponseType::Lists => loaded_lists_post(pre, resp.status, resp.text@, post),
            ResponseType::Members => loaded_members_post(pre, resp.status, resp.text@, post),
            ResponseType::Messages => loaded_messages_post(pre, resp.status, resp.text@, post),
            ResponseType::Popup => loaded_popup_post(pre, resp.status, post),
        }),
    }
}

fn key_action(k: Key) -> (a: Action)
    ensures
        a == spec_key_action(k),
{
    match k {
        Key::Char(c) => {
            if c == 'q' || c == 'Q' {
                Action::Quit
            } else if c == 'd' || c == 'D' {
                Action::Domains
            } else if c == 'l' || c == 'L' {
                Action::Lists
            } else if c == 'm' || c == 'M' {
                Action::Members
            } else if c == 's' || c == 'S' {
                Action::Messages
            } else if c == 'j' || c == 'J' {
                Action::Down
            } else if c == 'k' || c == 'K' {
                Action::Up
            } else if c == 'u' || c == 'U' {
                Action::Unselect
            } else if c == 'a' || c == 'A' {
                Action::Add
            } else if c == 'x' || c == 'X' {
                Action::Delete
            } else {
                Action::Nop
            }
        },
        Key::Down => Action::Down,
        Key::Up => Action::Up,
        Key::Backspace => Action::Delete,
        Key::Enter => Action::Open,
        _ => Action::Nop,
    }
}

impl Marge {
    /// A fresh session: default configuration, nothing fetched, nothing
    /// pinned, no popup, and a waiting screen.
    pub fn new() -> (m: Marge)
        ensures
            marge_wf(m),
            m.config.domain is None,
            m.config.list is None,
            m.config.member is None,
            m.config.message is None,
            m.config_changed == false,
            m.domains is None,
            m.lists is None,
            m.members is None,
            m.messages is None,
            m.should_quit == false,
            m.response_t is None,
            m.popup is None,
            m.ui.selected == Some(0usize),
            m.ui.list_vec@.len() == 1,
            m.ui.status@ == Seq::<char>::empty(),
            m.ui.active_menu_item == MenuItem::Domains,
            m.ui.sel_domain is None,
            m.ui.sel_list is None,
    {
        Marge {
            config: Config::new(),
            config_changed: false,
            domains: None,
            lists: None,
            members: None,
            messages: None,
            should_quit: false,
            ui: Ui::new(),
            response_t: None,
            popup: None,
        }
    }

    /// Maps one raw event to the command it stands for.
    pub fn get_action(&self, event: Event) -> (a: Action)
        ensures
            a == spec_get_action(event),
    {
        match event {
            Event::Error => Action::Nop,
            Event::Tick => Action::Tick,
            Event::Render => Action::Render,
            Event::Key(k) => key_action(k),
            _ => Action::Nop,
        }
    }

    /// Routes one event: to the open popup when there is one, to the key
    /// table otherwise; returns the command to enqueue, if any.
    pub fn on_event(&mut self, event: Event) -> (r: Option<Action>)
        requires
            marge_wf(*old(self)),
        ensures
            marge_wf(*final(self)),
            spec_on_event_post(*old(self), event, *final(self), r),
    {
        match event {
            Event::Key(k) => match &mut self.popup {
                Some(p) => match p.input(k) {
                    PopupStatus::Cancel => {
                        self.popup = None;
                        None
                    },
                    PopupStatus::Submit => Some(Action::PopupSubmit),
                    PopupStatus::Continue => None,
                },
                None => Some(key_action(k)),
            },
            Event::Render => Some(Action::Render),
            _ => None,
        }
    }

    fn load_domains(&mut self, status: String, text: &String)
        requires
            marge_wf(*old(self)),
        ensures
            marge_wf(*final(self)),
            loaded_domains_post(*old(self), status, text@, *final(self)),
    {
        let set_st = match self.response_t {
            Some(ResponseType::Popup) => false,
            _ => true,
        };
        if set_st {
            self.ui.set_status(status);
        }
        self.response_t = Some(ResponseType::Domains);
        match Domains::from_text(text.as_str()) {
            Ok(page) => {
                match &page.entries {
                    Some(es) => {
                        if es.len() > 0 {
                            let e0 = es[0].clone();
                            let host = e0.mail_host();
                            self.config.set_domain(Some(e0));
                            self.ui.set_sel_domain(Some(host));
                        } else {
                            self.config.set_domain(None);
                            self.ui.set_sel_domain(None);
                        }
                    },
                    None => {
                        self.config.set_domain(None);
                        self.ui.set_sel_domain(None);
                    },
                }
                let rows = page.list_vec();
                self.ui.set_list_vec(rows);
                proof {
                    assert(rows@.map_values(|s: String| s@).len() == rows@.len());
                    assert(page.entries matches Some(es) ==> crate::domains::spec_list_vec(page).len()
                        == es@.len());
                }
                self.domains = Some(page);
            },
            Err(e) => {
                self.domains = None;
                let mut line = String::from_str("Error: ");
                line.append(e.as_str());
                let mut rows: Vec<String> = Vec::new();
                rows.push(line);
                proof {
                    assert(exists|m: Seq<char>| rows@[0]@ == "Error: "@ + m) by {
                        assert(rows@[0]@ == "Error: "@ + e@);
                    }
                }
                self.ui.set_list_vec(rows);
            },
        }
    }

    fn load_lists(&mut self, status: String, text: &String)
        requires
            marge_wf(*old(self)),
        ensures
            marge_wf(*final(self)),
            loaded_lists_post(*old(self), status, text@, *final(self)),
    {
        let set_st = match self.response_t {
            Some(ResponseType::Popup) => false,
            _ => true,
        };
        if set_st {
            self.ui.set_status(status);
        }
        self.response_t = Some(ResponseType::Lists);
        match Lists::from_text(text.as_str()) {
            Ok(page) => {
                match &page.entries {
                    Some(es) => {
                        if es.len() > 0 {
                            let e0 = es[0].clone();
                            let name = e0.display_name();
                            self.config.set_list(Some(e0));
                            self.ui.set_sel_list(Some(name));
                        } else {
                            self.config.set_list(None);
                            self.ui.set_sel_list(None);
                        }
                    },
                    None => {
                        self.config.set_list(None);
                        self.ui.set_sel_list(None);
                    },
                }
                let rows = page.list_vec();
                self.ui.set_list_vec(rows);
                proof {
                    assert(rows@.map_values(|s: String| s@).len() == rows@.len());
                    assert(page.entries matches Some(es) ==> crate::lists::spec_list_vec(page).len()
                        == es@.len());
                }
                self.lists = Some(page);
            },
            Err(e) => {
                self.lists = None;
                let mut line = String::from_str("Error: ");
                line.append(e.as_str());
                let mut rows: Vec<String> = Vec::new();
                rows.push(line);
                proof {
                    assert(exists|m: Seq<char>| rows@[0]@ == "Error: "@ + m) by {
                        assert(rows@[0]@ == "Error: "@ + e@);
                    }
                }
                self.ui.set_list_vec(rows);
            },
        }
    }

    fn load_members(&mut self, status: String, text: &String)
        requires
            marge_wf(*old(self)),
        ensures
            marge_wf(*final(self)),
            loaded_members_post(*old(self), status, text@, *final(self)),
    {
        let set_st = match self.response_t {
            Some(ResponseType::Popup) => false,
            _ => true,
        };
        if set_st {
            self.ui.set_status(status);
        }
        self.response_t = Some(ResponseType::Members);
        match Members::from_text(text.as_str()) {
            Ok(page) => {
                match &page.entries {
                    Some(es) => {
                        if es.len() > 0 {
                            let e0 = es[0].clone();
                            self.config.set_member(Some(e0));
                        } else {
                            self.config.set_member(None);
                        }
                    },
                    None => {
                        self.config.set_member(None);
                    },
                }
                let rows = page.list_vec();
                self.ui.set_list_vec(rows);
                proof {
                    assert(rows@.map_values(|s: String| s@).len() == rows@.len());
                    assert(page.entries matches Some(es) ==> crate::members::spec_list_vec(page).len()
                        == es@.len());
                }
                self.members = Some(page);
            },
            Err(e) => {
                self.members = None;
                let mut line = String::from_str("Error: ");
                line.append(e.as_str());
                let mut rows: Vec<String> = Vec::new();
                rows.push(line);
                match crate::json::reparse_value(text.as_str()) {
                    Some(v) => {
                        let dumped = crate::json::dump_value(&v);
                        let mut line2 = String::from_str("Original response value: ");
                        line2.append(dumped.as_str());
                        rows.push(line2);
                        proof {
                            assert(exists|d2: Seq<char>|
                                rows@[1]@ == "Original response value: "@ + d2) by {
                                assert(rows@[1]@ == "Original response value: "@ + dumped@);
                            }
                        }
                    },
                    None => {
                        let mut line2 = String::from_str("Original response text: ");
                        line2.append(text.as_str());
                        rows.push(line2);
                    },
                }
                proof {
                    assert(exists|m: Seq<char>| rows@[0]@ == "Error: "@ + m) by {
                        assert(rows@[0]@ == "Error: "@ + e@);
                    }
                }
                self.ui.set_list_vec(rows);
            },
        }
    }

    fn load_messages(&mut self, status: String, text: &String)
        requires
            marge_wf(*old(self)),
        ensures
            marge_wf(*final(self)),
            loaded_messages_post(*old(self), status, text@, *final(self)),
    {
        let set_st = match self.response_t {
            Some(ResponseType::Popup) => false,
            _ => true,
        };
        if set_st {
            self.ui.set_status(status);
        }
        self.response_t = Some(ResponseType::Messages);
        match Messages::from_text(text.as_str()) {
            Ok(page) => {
                match &page.entries {
                    Some(es) => {
                        if es.len() > 0 {
                            let e0 = es[0].clone();
                            self.config.set_message(Some(e0));
                        }
                    },
                    None => {},
                }
                let rows = page.list_vec();
                self.ui.set_list_vec(rows);
                proof {
                    assert(rows@.map_values(|s: String| s@).len() == rows@.len());
                    assert(page.entries matches Some(es) ==> crate::messages::spec_list_vec(page).len()
                        == es@.len());
                }
                self.messages = Some(page);
            },
            Err(e) => {
                self.messages = None;
                let mut line = String::from_str("Error: ");
                line.append(e.as_str());
                let mut rows: Vec<String> = Vec::new();
                rows.push(line);
                match crate::json::reparse_value(text.as_str()) {
                    Some(v) => {
                        let dumped = crate::json::dump_value(&v);
                        let mut line2 = String::from_str("Original response value: ");
                        line2.append(dumped.as_str());
                        rows.push(line2);
                        proof {
                            assert(exists|d2: Seq<char>|
                                rows@[1]@ == "Original response value: "@ + d2) by {
                                assert(rows@[1]@ == "Original response value: "@ + dumped@);
                            }
                        }
                    },
                    None => {
                        let mut line2 = String::from_str("Original response text: ");
                        line2.append(text.as_str());
                        rows.push(line2);
                    },
                }
                proof {
                    assert(exists|m: Seq<char>| rows@[0]@ == "Error: "@ + m) by {
                        assert(rows@[0]@ == "Error: "@ + e@);
                    }
                }
                self.ui.set_list_vec(rows);
            },
        }
    }

    fn reselect(&mut self)
        requires
            marge_wf(*old(self)),
        ensures
            marge_wf(*final(self)),
            *final(self) == spec_apply_selection(*old(self)),
    {
        let i = match self.ui.selected() {
            Some(i) => i,
            None => {
                return ;
            },
        };
        match self.response_t {
            Some(ResponseType::Domains) => {
                let decision: Option<Option<(crate::domains::Entry, String)>> = match &self
                    .domains {
                    Some(d) => match &d.entries {
                        Some(es) => if i < es.len() {
                            let e = es[i].clone();
                            let h = e.mail_host();
                            Some(Some((e, h)))
                        } else {
                            None
                        },
                        None => Some(None),
                    },
                    None => None,
                };
                match decision {
                    Some(Some((e, h))) => {
                        self.config.set_domain(Some(e));
                        self.ui.set_sel_domain(Some(h));
                    },
                    Some(None) => {
                        self.config.set_domain(None);
                        self.ui.set_sel_domain(None);
                    },
                    None => {},
                }
            },
            Some(ResponseType::Lists) => {
                let decision: Option<Option<(crate::lists::Entry, String)>> = match &self.lists {
                    Some(d) => match &d.entries {
                        Some(es) => if i < es.len() {
                            let e = es[i].clone();
                            let n = e.display_name();
                            Some(Some((e, n)))
                        } else {
                            None
                        },
                        None => Some(None),
                    },
                    None => None,
                };
                match decision {
                    Some(Some((e, n))) => {
                        self.config.set_list(Some(e));
                        self.ui.set_sel_list(Some(n));
                    },
                    Some(None) => {
                        self.config.set_list(None);
                        self.ui.set_sel_list(None);
                    },
                    None => {},
                }
            },
            Some(ResponseType::Members) => {
                let decision: Option<Option<crate::members::Entry>> = match &self.members {
                    Some(d) => match &d.entries {
                        Some(es) => if i < es.len() {
                            Some(Some(es[i].clone()))
                        } else {
                            None
                        },
                        None => Some(None),
                    },
                    None => None,
                };
                match decision {
                    Some(Some(e)) => {
                        self.config.set_member(Some(e));
                    },
                    Some(None) => {
                        self.config.set_member(None);
                    },
                    None => {},
                }
            },
            Some(ResponseType::Messages) => {
                let decision: Option<Option<crate::messages::Entry>> = match &self.messages {
                    Some(d) => match &d.entries {
                        Some(es) => if i < es.len() {
                            Some(Some(es[i].clone()))
                        } else {
                            None
                        },
                        None => Some(None),
                    },
                    None => None,
                };
                match decision {
                    Some(Some(e)) => {
                        self.config.set_message(Some(e));
                    },
                    Some(None) => {
                        self.config.set_message(None);
                    },
                    None => {},
                }
            },
            _ => {},
        }
    }

    /// Consumes one command: mutates the state and may ask for one dispatch.
    /// The reducer never blocks and never performs the call itself.
    pub fn update(&mut self, action: Action) -> (r: Option<DispatchJob>)
        requires
            marge_wf(*old(self)),
        ensures
            marge_wf(*final(self)),
            spec_update_post(*old(self), action, *final(self), r),
            r matches Some(job) ==> job.wf(),
    {
        match action {
            Action::Tick | Action::Render | Action::Nop => None,
            Action::Quit => {
                self.should_quit = true;
                None
            },
            Action::Domains => {
                self.ui.set_active_menu_item(MenuItem::Domains);
                Some(
                    DispatchJob {
                        req: ReqType::Domains,
                        config: self.config.clone(),
                        response_type: ResponseType::Domains,
                        refresh: None,
                    },
                )
            },
            Action::Lists => {
                self.ui.set_active_menu_item(MenuItem::Lists);
                Some(
                    DispatchJob {
                        req: ReqType::Lists,
                        config: self.config.clone(),
                        response_type: ResponseType::Lists,
                        refresh: None,
                    },
                )
            },
            Action::Members => {
                self.ui.set_active_menu_item(MenuItem::Members);
                Some(
                    DispatchJob {
                        req: ReqType::Members,
                        config: self.config.clone(),
                        response_type: ResponseType::Members,
                        refresh: None,
                    },
                )
            },
            Action::Messages => {
                match self.config.list() {
                    Some(_) => {
                        self.ui.set_active_menu_item(MenuItem::Messages);
                        Some(
                            DispatchJob {
                                req: ReqType::Messages,
                                config: self.config.clone(),
                                response_type: ResponseType::Messages,
                                refresh: None,
                            },
                        )
                    },
                    None => {
                        self.ui.set_status(
                            String::from_str("Can't fetch messages: No list selected!"),
                        );
                        None
                    },
                }
            },
            Action::PopupSubmit => {
                match &self.popup {
                    Some(p) => {
                        let params = p.submit();
                        let refresh = match self.response_t {
                            Some(ResponseType::Domains) => Some(ResponseType::Domains),
                            Some(ResponseType::Lists) => Some(ResponseType::Lists),
                            Some(ResponseType::Members) => Some(ResponseType::Members),
                            Some(ResponseType::Messages) => Some(ResponseType::Messages),
                            _ => None,
                        };
                        let job = DispatchJob {
                            req: ReqType::Popup(params),
                            config: self.config.clone(),
                            response_type: ResponseType::Popup,
                            refresh,
                        };
                        self.popup = None;
                        Some(job)
                    },
                    None => None,
                }
            },
            Action::Down => {
                self.ui.down();
                self.reselect();
                None
            },
            Action::Up => {
                self.ui.up();
                self.reselect();
                None
            },
            Action::Unselect => {
                self.ui.select(None);
                match self.response_t {
                    Some(ResponseType::Domains) => {
                        self.config.set_domain(None);
                        self.ui.select(None);
                        self.ui.set_sel_domain(None);
                    },
                    Some(ResponseType::Lists) => {
                        self.config.set_list(None);
                        self.ui.select(None);
                        self.ui.set_sel_list(None);
                    },
                    Some(ResponseType::Members) => {
                        self.config.set_member(None);
                        self.ui.select(None);
                    },
                    Some(ResponseType::Messages) => {
                        self.config.set_message(None);
                        self.ui.select(None);
                    },
                    _ => {},
                }
                None
            },
            Action::Add => {
                match self.response_t {
                    Some(ResponseType::Members) => {
                        match self.config.list() {
                            Some(_) => {
                                self.popup = Some(Popup::member_add(self.config.clone()));
                            },
                            None => {
                                self.ui.set_status(
                                    String::from_str(
                                        "You must select a list before I can add members.",
                                    ),
                                );
                            },
                        }
                    },
                    Some(_) => {
                        self.ui.set_status(
                            String::from_str("Sorry, don't know yet how to add new items here..."),
                        );
                    },
                    None => {
                        self.ui.set_status(String::from_str("Sorry, nothing to add here"));
                    },
                }
                None
            },
            Action::Delete => {
                match self.response_t {
                    Some(ResponseType::Members) => {
                        match self.config.member() {
                            Some(_) => {
                                self.popup = Some(Popup::member_del(self.config.clone()));
                            },
                            None => {
                                self.ui.set_status(
                                    String::from_str("Sorry, no member to delete selected"),
                                );
                            },
                        }
                    },
                    Some(_) => {
                        self.ui.set_status(
                            String::from_str("Sorry, don't know how to delete items hier..."),
                        );
                    },
                    None => {
                        self.ui.set_status(String::from_str("Sorry, nothing to delete here"));
                    },
                }
                None
            },
            Action::Open => {
                match self.response_t {
                    Some(ResponseType::Messages) => {
                        let both = match (self.config.message(), self.config.list()) {
                            (Some(_), Some(_)) => true,
                            _ => false,
                        };
                        if both {
                            self.popup = Some(Popup::message_mod(self.config.clone()));
                        } else {
                            self.ui.set_status(
                                String::from_str("Sorry, no item to open selected"),
                            );
                        }
                    },
                    Some(_) => {
                        self.ui.set_status(
                            String::from_str("Sorry, don't know how to open items here..."),
                        );
                    },
                    None => {
                        self.ui.set_status(String::from_str("Sorry, nothing to open here"));
                    },
                }
                None
            },
            Action::RequestResponse(resp) => {
                let Response { response_type, status, text } = resp;
                match response_type {
                    ResponseType::Domains => self.load_domains(status, &text),
                    ResponseType::Lists => self.load_lists(status, &text),
                    ResponseType::Members => self.load_members(status, &text),
                    ResponseType::Messages => self.load_messages(status, &text),
                    ResponseType::Popup => {
                        let set_st = match self.response_t {
                            Some(ResponseType::Popup) => false,
                            _ => true,
                        };
                        if set_st {
                            self.ui.set_status(status);
                        }
                        self.response_t = Some(ResponseType::Popup);
                    },
                }
                None
            },
        }
    }
}

} // verus!
