use vstd::prelude::*;

use crate::config::Config;
use crate::events::Key;
use crate::numfmt::{spec_udec, u64_dec};
use crate::request::{base_url, spec_base_url};
use crate::strops::{pop_char, push_char};

verus! {

/// What an active popup reports after one keystroke.
#[derive(Clone, Copy, PartialEq, Eq, Structural, Debug)]
pub enum PopupStatus {
    Continue,
    Cancel,
    Submit,
}

/// The verb of an outbound request.
#[derive(Clone, Copy, PartialEq, Eq, Structural, Debug)]
pub enum Method {
    Get,
    Post,
    Delete,
}

/// What a held message is to be done with.
#[derive(Clone, Copy, PartialEq, Eq, Structural, Debug)]
pub enum ModAction {
    Discard,
    Reject,
    Defer,
    Accept,
}

/// The request a popup submits: verb, target, and an ordered field map.
pub struct PopupReqParam {
    pub method: Method,
    pub url: String,
    pub map: Vec<(String, String)>,
}

/// The field map as pairs of character sequences.
pub open spec fn pairs_view(v: Seq<(String, String)>) -> Seq<(Seq<char>, Seq<char>)> {
    v.map_values(|p: (String, String)| (p.0@, p.1@))
}

impl PopupReqParam {
    pub fn new(method: Method, url: String, map: Vec<(String, String)>) -> (r: Self)
        ensures
            r == (PopupReqParam { method, url, map }),
    {
        PopupReqParam { method, url, map }
    }

    pub fn method(&self) -> (r: Method)
        ensures
            r == self.method,
    {
        self.method
    }

    pub fn url(&self) -> (r: &String)
        ensures
            r == self.url,
    {
        &self.url
    }

    pub fn map(&self) -> (r: &Vec<(String, String)>)
        ensures
            r == self.map,
    {
        &self.map
    }
}

/// The modal that captures every keystroke while it is open. Each variant
/// keeps the configuration snapshot it was opened with, so the entries it
/// needs at submission cannot be taken away underneath it.
pub enum Popup {
    MemberAdd { config: Config, buffer: String },
    ListAdd { config: Config, buffer: String },
    ListDel { config: Config },
    MemberDel { config: Config },
    MessageMod { config: Config, action: ModAction },
}

/// The field map a member subscription submits.
pub open spec fn spec_member_add_map(list_id: Seq<char>, buffer: Seq<char>) -> Seq<
    (Seq<char>, Seq<char>),
> {
    seq![
        ("list_id"@, list_id),
        ("subscriber"@, buffer),
        ("display_name"@, ""@),
        ("pre_verified"@, "true"@),
        ("pre_confirmed"@, "true"@),
        ("pre_approved"@, "true"@),
        ("send_welcome_message"@, "false"@),
    ]
}


/// What the popup answers to one keystroke.
pub open spec fn spec_input_status(p: Popup, key: Key) -> PopupStatus {
    match p {
        Popup::MemberAdd { .. } | Popup::ListAdd { .. } => match key {
            Key::Esc => PopupStatus::Cancel,
            Key::Enter => PopupStatus::Submit,
            _ => PopupStatus::Continue,
        },
        Popup::ListDel { .. } | Popup::MemberDel { .. } => match key {
            Key::Esc | Key::Char('n') | Key::Char('N') => PopupStatus::Cancel,
            Key::Enter | Key::Char('y') | Key::Char('Y') => PopupStatus::Submit,
            _ => PopupStatus::Continue,
        },
        Popup::MessageMod { .. } => match key {
            Key::Char('d') | Key::Char('D') | Key::Char('r') | Key::Char('R') | Key::Char('a')
                | Key::Char('A') | Key::Enter => PopupStatus::Submit,
            Key::Esc => PopupStatus::Cancel,
            _ => PopupStatus::Continue,
        },
    }
}

/// A single-line buffer after one keystroke: characters append, backspace
/// removes the last one, anything else leaves it alone.
pub open spec fn spec_text_after(b: Seq<char>, key: Key) -> Seq<char> {
    match key {
        Key::Char(c) => b.push(c),
        Key::Backspace => if b.len() > 0 {
            b.drop_last()
        } else {
            b
        },
        _ => b,
    }
}

/// The moderation choice after one keystroke.
pub open spec fn spec_mod_after(a: ModAction, key: Key) -> ModAction {
    match key {
        Key::Char('d') | Key::Char('D') => ModAction::Discard,
        Key::Char('r') | Key::Char('R') => ModAction::Reject,
        Key::Char('a') | Key::Char('A') | Key::Enter => ModAction::Accept,
        _ => a,
    }
}

/// How one keystroke carries a popup from one state to the next.
pub open spec fn spec_input_rel(p: Popup, key: Key, q: Popup) -> bool {
    match p {
        Popup::MemberAdd { config, buffer } => q matches Popup::MemberAdd {
            config: c2,
            buffer: b2,
        } && c2 == config && b2@ == spec_text_after(buffer@, key),
        Popup::ListAdd { config, buffer } => q matches Popup::ListAdd { config: c2, buffer: b2 }
            && c2 == config && b2@ == spec_text_after(buffer@, key),
        Popup::ListDel { .. } | Popup::MemberDel { .. } => q == p,
        Popup::MessageMod { config, action } => q == (Popup::MessageMod {
            config,
            action: spec_mod_after(action, key),
        }),
    }
}

/// The request that a popup in a given state submits.
pub open spec fn spec_submit_rel(p: Popup, r: PopupReqParam) -> bool {
    match p {
        Popup::MemberAdd { config, buffer } => {
            &&& r.method == Method::Post
            &&& r.url@ == spec_base_url(config) + "/3.1/members"@
            &&& pairs_view(r.map@) == spec_member_add_map(config.list->0.list_id@, buffer@)
        },
        Popup::ListAdd { config, buffer } => {
            &&& r.method == Method::Post
            &&& r.url@ == spec_base_url(config) + "/3.1/lists"@
            &&& pairs_view(r.map@) == seq![("fqdn_listname"@, buffer@)]
        },
        Popup::ListDel { config } => {
            &&& r.method == Method::Delete
            &&& r.url@ == spec_base_url(config) + "/3.1/lists/"@ + config.list->0.list_id@
            &&& r.map@.len() == 0
        },
        Popup::MemberDel { config } => {
            &&& r.method == Method::Delete
            &&& r.url@ == spec_base_url(config) + "/3.1/members/"@ + config.member->0.member_id@
            &&& r.map@.len() == 0
        },
        Popup::MessageMod { config, action } => {
            &&& r.method == Method::Post
            &&& r.url@ == spec_base_url(config) + "/3.1/lists/"@ + config.list->0.fqdn_listname@
                + "/held/"@ + spec_udec(config.message->0.request_id as nat)
            &&& pairs_view(r.map@) == seq![
                ("action"@, (match action {
                    ModAction::Discard => "discard"@,
                    ModAction::Reject => "reject"@,
                    ModAction::Defer => "defer"@,
                    ModAction::Accept => "accept"@,
                })),
            ]
        },
    }
}

impl Popup {
    /// Each popup was opened only with the entries it will read still pinned.
    pub open spec fn wf(self) -> bool {
        match self {
            Popup::MemberAdd { config, .. } => config.list is Some,
            Popup::ListAdd { .. } => true,
            Popup::ListDel { config } => config.list is Some,
            Popup::MemberDel { config } => config.member is Some,
            Popup::MessageMod { config, .. } => config.list is Some && config.message is Some,
        }
    }

    pub fn member_add(config: Config) -> (p: Popup)
        requires
            config.list is Some,
        ensures
            p matches Popup::MemberAdd { config: c2, buffer: b2 } && c2 == config && b2@
                == Seq::<char>::empty(),
            p.wf(),
    {
        Popup::MemberAdd { config, buffer: String::new() }
    }

    pub fn list_add(config: Config) -> (p: Popup)
        ensures
            p matches Popup::ListAdd { config: c2, buffer: b2 } && c2 == config && b2@
                == Seq::<char>::empty(),
            p.wf(),
    {
        Popup::ListAdd { config, buffer: String::new() }
    }

    pub fn list_del(config: Config) -> (p: Popup)
        requires
            config.list is Some,
        ensures
            p == (Popup::ListDel { config }),
            p.wf(),
    {
        Popup::ListDel { config }
    }

    pub fn member_del(config: Config) -> (p: Popup)
        requires
            config.member is Some,
        ensures
            p == (Popup::MemberDel { config }),
            p.wf(),
    {
        Popup::MemberDel { config }
    }

    pub fn message_mod(config: Config) -> (p: Popup)
        requires
            config.list is Some,
            config.message is Some,
        ensures
            p == (Popup::MessageMod { config, action: ModAction::Defer }),
            p.wf(),
    {
        Popup::MessageMod { config, action: ModAction::Defer }
    }

    /// Routes one keystroke. Escape cancels and Enter submits the text
    /// popups, which otherwise collect printable characters; the yes/no
    /// popups answer to y/n; the moderation menu picks its action and
    /// submits at once.
    pub fn input(&mut self, key: Key) -> (r: PopupStatus)
        requires
            old(self).wf(),
        ensures
            final(self).wf(),
            r == spec_input_status(*old(self), key),
            spec_input_rel(*old(self), key, *final(self)),
    {
        match self {
            Popup::MemberAdd { config: _, buffer } => match key {
                Key::Esc => PopupStatus::Cancel,
                Key::Enter => PopupStatus::Submit,
                Key::Char(c) => {
                    push_char(buffer, c);
                    PopupStatus::Continue
                },
                Key::Backspace => {
                    let _ = pop_char(buffer);
                    PopupStatus::Continue
                },
                _ => PopupStatus::Continue,
            },
            Popup::ListAdd { config: _, buffer } => match key {
                Key::Esc => PopupStatus::Cancel,
                Key::Enter => PopupStatus::Submit,
                Key::Char(c) => {
                    push_char(buffer, c);
                    PopupStatus::Continue
                },
                Key::Backspace => {
                    let _ = pop_char(buffer);
                    PopupStatus::Continue
                },
                _ => PopupStatus::Continue,
            },
            Popup::ListDel { .. } | Popup::MemberDel { .. } => match key {
                Key::Esc => PopupStatus::Cancel,
                Key::Char(c) => {
                    if c == 'n' || c == 'N' {
                        PopupStatus::Cancel
                    } else if c == 'y' || c == 'Y' {
                        PopupStatus::Submit
                    } else {
                        PopupStatus::Continue
                    }
                },
                Key::Enter => PopupStatus::Submit,
                _ => PopupStatus::Continue,
            },
            Popup::MessageMod { config: _, action } => match key {
                Key::Char(c) => {
                    if c == 'd' || c == 'D' {
                        *action = ModAction::Discard;
                        PopupStatus::Submit
                    } else if c == 'r' || c == 'R' {
                        *action = ModAction::Reject;
                        PopupStatus::Submit
                    } else if c == 'a' || c == 'A' {
                        *action = ModAction::Accept;
                        PopupStatus::Submit
                    } else {
                        PopupStatus::Continue
                    }
                },
                Key::Esc => PopupStatus::Cancel,
                Key::Enter => {
                    *action = ModAction::Accept;
                    PopupStatus::Submit
                },
                _ => PopupStatus::Continue,
            },
        }
    }

    /// The request this popup stands for, built from its frozen
    /// configuration snapshot and, for the text popups, the collected line.
    pub fn submit(&self) -> (r: PopupReqParam)
        requires
            self.wf(),
        ensures
            spec_submit_rel(*self, r),
    {
        match self {
            Popup::MemberAdd { config, buffer } => {
                let mut url = base_url(config);
                url.append("/3.1/members");
                let list = match config.list() {
                    Some(l) => l,
                    None => unreached(),
                };
                let mut map: Vec<(String, String)> = Vec::new();
                map.push((String::from_str("list_id"), list.list_id()));
                map.push((String::from_str("subscriber"), buffer.clone()));
                map.push((String::from_str("display_name"), String::from_str("")));
                map.push((String::from_str("pre_verified"), String::from_str("true")));
                map.push((String::from_str("pre_confirmed"), String::from_str("true")));
                map.push((String::from_str("pre_approved"), String::from_str("true")));
                map.push((String::from_str("send_welcome_message"), String::from_str("false")));
                proof {
                    assert(pairs_view(map@) =~= spec_member_add_map(
                        config.list->0.list_id@,
                        buffer@,
                    ));
                }
                PopupReqParam { method: Method::Post, url, map }
            },
            Popup::ListAdd { config, buffer } => {
                let mut url = base_url(config);
                url.append("/3.1/lists");
                let mut map: Vec<(String, String)> = Vec::new();
                map.push((String::from_str("fqdn_listname"), buffer.clone()));
                proof {
                    assert(pairs_view(map@) =~= seq![("fqdn_listname"@, buffer@)]);
                }
                PopupReqParam { method: Method::Post, url, map }
            },
            Popup::ListDel { config } => {
                let mut url = base_url(config);
                url.append("/3.1/lists/");
                let list = match config.list() {
                    Some(l) => l,
                    None => unreached(),
                };
                url.append(list.list_id().as_str());
                PopupReqParam { method: Method::Delete, url, map: Vec::new() }
            },
            Popup::MemberDel { config } => {
                let mut url = base_url(config);
                url.append("/3.1/members/");
                let member = match config.member() {
                    Some(m) => m,
                    None => unreached(),
                };
                url.append(member.member_id().as_str());
                PopupReqParam { method: Method::Delete, url, map: Vec::new() }
            },
            Popup::MessageMod { config, action } => {
                let mut url = base_url(config);
                url.append("/3.1/lists/");
                let list = match config.list() {
                    Some(l) => l,
                    None => unreached(),
                };
                url.append(list.fqdn_listname().as_str());
                url.append("/held/");
                let message = match config.message() {
                    Some(m) => m,
                    None => unreached(),
                };
                url.append(u64_dec(message.request_id() as u64).as_str());
                let mut map: Vec<(String, String)> = Vec::new();
                let verb = match action {
                    ModAction::Discard => String::from_str("discard"),
                    ModAction::Reject => String::from_str("reject"),
                    ModAction::Defer => String::from_str("defer"),
                    ModAction::Accept => String::from_str("accept"),
                };
                map.push((String::from_str("action"), verb));
                proof {
                    assert(pairs_view(map@) =~= seq![
                        ("action"@, (match action {
                            ModAction::Discard => "discard"@,
                            ModAction::Reject => "reject"@,
                            ModAction::Defer => "defer"@,
                            ModAction::Accept => "accept"@,
                        })),
                    ]);
                }
                PopupReqParam { method: Method::Post, url, map }
            },
        }
    }
}

} // verus!
