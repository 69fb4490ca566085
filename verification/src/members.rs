use vstd::prelude::*;

use crate::json::{
    json_of, jview, jview_seq, lemma_jview_seq, opt_arr, parse_json, req_str, req_u32, s_opt_arr, s_req_str, s_req_u32, Json, JsonV,
};

verus! {

/// One list member as the server reports it.
pub struct Entry {
    pub address: String,
    pub bounce_score: u32,
    pub delivery_mode: String,
    pub display_name: String,
    pub email: String,
    pub http_etag: String,
    pub last_warning_sent: String,
    pub list_id: String,
    pub member_id: String,
    pub role: String,
    pub self_link: String,
    pub subscription_mode: String,
    pub total_warnings_sent: u32,
    pub user: String,
}

impl Clone for Entry {
    fn clone(&self) -> (r: Self)
        ensures
            r == *self,
    {
        Entry {
            address: self.address.clone(),
            bounce_score: self.bounce_score,
            delivery_mode: self.delivery_mode.clone(),
            display_name: self.display_name.clone(),
            email: self.email.clone(),
            http_etag: self.http_etag.clone(),
            last_warning_sent: self.last_warning_sent.clone(),
            list_id: self.list_id.clone(),
            member_id: self.member_id.clone(),
            role: self.role.clone(),
            self_link: self.self_link.clone(),
            subscription_mode: self.subscription_mode.clone(),
            total_warnings_sent: self.total_warnings_sent,
            user: self.user.clone(),
        }
    }
}

impl Entry {
    pub fn email(&self) -> (r: String)
        ensures
            r == self.email,
    {
        self.email.clone()
    }

    pub fn member_id(&self) -> (r: String)
        ensures
            r == self.member_id,
    {
        self.member_id.clone()
    }
}

/// One page of members: the entry list plus the paging envelope.
pub struct Members {
    pub entries: Option<Vec<Entry>>,
    pub http_etag: String,
    pub start: u32,
    pub total_size: u32,
}

/// What the rows of a members page display: one e-mail address per entry,
/// nothing when the page carries no entry list.
pub open spec fn spec_list_vec(d: Members) -> Seq<Seq<char>> {
    match d.entries {
        Some(v) => v@.map_values(|e: Entry| e.email@),
        None => Seq::empty(),
    }
}

impl Members {
    /// The display line of each entry, in server order.
    pub fn list_vec(&self) -> (r: Vec<String>)
        ensures
            r@.map_values(|s: String| s@) == spec_list_vec(*self),
    {
        match &self.entries {
            Some(v) => {
                let mut out: Vec<String> = Vec::new();
                let mut k: usize = 0;
                while k < v.len()
                    invariant
                        k <= v.len(),
                        out@.len() == k as nat,
                        forall|j: int| 0 <= j < k ==> out@[j]@ == v@[j].email@,
                    decreases v.len() - k,
                {
                    out.push(v[k].email());
                    k = k + 1;
                }
                proof {
                    assert(out@.map_values(|s: String| s@) =~= spec_list_vec(*self));
                }
                out
            },
            None => {
                let out: Vec<String> = Vec::new();
                proof {
                    assert(out@.map_values(|s: String| s@) =~= spec_list_vec(*self));
                }
                out
            },
        }
    }

    pub fn entries(&self) -> (r: &Option<Vec<Entry>>)
        ensures
            r == self.entries,
    {
        &self.entries
    }
}


/// The shape of one parsed entry.
pub ghost struct EntryV {
    pub address: Seq<char>,
    pub bounce_score: u32,
    pub delivery_mode: Seq<char>,
    pub display_name: Seq<char>,
    pub email: Seq<char>,
    pub http_etag: Seq<char>,
    pub last_warning_sent: Seq<char>,
    pub list_id: Seq<char>,
    pub member_id: Seq<char>,
    pub role: Seq<char>,
    pub self_link: Seq<char>,
    pub subscription_mode: Seq<char>,
    pub total_warnings_sent: u32,
    pub user: Seq<char>,
}

/// The shape of a held entry.
pub open spec fn entry_view(e: Entry) -> EntryV {
    EntryV {
        address: e.address@,
        bounce_score: e.bounce_score,
        delivery_mode: e.delivery_mode@,
        display_name: e.display_name@,
        email: e.email@,
        http_etag: e.http_etag@,
        last_warning_sent: e.last_warning_sent@,
        list_id: e.list_id@,
        member_id: e.member_id@,
        role: e.role@,
        self_link: e.self_link@,
        subscription_mode: e.subscription_mode@,
        total_warnings_sent: e.total_warnings_sent,
        user: e.user@,
    }
}

/// What one entry of the wire format means: an object whose required fields
/// hold values of the right type and whose optional ones may be absent or
/// null.
pub open spec fn s_entry(j: JsonV) -> Option<EntryV> {
    match j {
        JsonV::Obj(o) => {
            let address = s_req_str(o, "address"@);
            let bounce_score = s_req_u32(o, "bounce_score"@);
            let delivery_mode = s_req_str(o, "delivery_mode"@);
            let display_name = s_req_str(o, "display_name"@);
            let email = s_req_str(o, "email"@);
            let http_etag = s_req_str(o, "http_etag"@);
            let last_warning_sent = s_req_str(o, "last_warning_sent"@);
            let list_id = s_req_str(o, "list_id"@);
            let member_id = s_req_str(o, "member_id"@);
            let role = s_req_str(o, "role"@);
            let self_link = s_req_str(o, "self_link"@);
            let subscription_mode = s_req_str(o, "subscription_mode"@);
            let total_warnings_sent = s_req_u32(o, "total_warnings_sent"@);
            let user = s_req_str(o, "user"@);
            if address is Some && bounce_score is Some && delivery_mode is Some && display_name is Some && email is Some && http_etag is Some && last_warning_sent is Some && list_id is Some && member_id is Some && role is Some && self_link is Some && subscription_mode is Some && total_warnings_sent is Some && user is Some {
                Some(EntryV {
                    address: address->0,
                    bounce_score: bounce_score->0,
                    delivery_mode: delivery_mode->0,
                    display_name: display_name->0,
                    email: email->0,
                    http_etag: http_etag->0,
                    last_warning_sent: last_warning_sent->0,
                    list_id: list_id->0,
                    member_id: member_id->0,
                    role: role->0,
                    self_link: self_link->0,
                    subscription_mode: subscription_mode->0,
                    total_warnings_sent: total_warnings_sent->0,
                    user: user->0,
                })
            } else {
                None
            }
        },
        _ => None,
    }
}

/// The entry list parses when each of its elements does.
pub open spec fn s_entry_seq(a: Seq<JsonV>) -> Option<Seq<EntryV>> {
    if forall|i: int| 0 <= i < a.len() ==> s_entry(a[i]) is Some {
        Some(Seq::new(a.len(), |i: int| s_entry(a[i])->0))
    } else {
        None
    }
}

/// The shape of a parsed page.
pub ghost struct MembersV {
    pub entries: Option<Seq<EntryV>>,
    pub http_etag: Seq<char>,
    pub start: u32,
    pub total_size: u32,
}

/// The shape of a held page.
pub open spec fn members_view(d: Members) -> MembersV {
    MembersV {
        entries: match d.entries {
            Some(v) => Some(v@.map_values(|e: Entry| entry_view(e))),
            None => None,
        },
        http_etag: d.http_etag@,
        start: d.start,
        total_size: d.total_size,
    }
}

/// What a whole page of the wire format means.
pub open spec fn s_page(j: JsonV) -> Option<MembersV> {
    match j {
        JsonV::Obj(o) => {
            let ent = s_opt_arr(o, "entries"@);
            let http_etag = s_req_str(o, "http_etag"@);
            let start = s_req_u32(o, "start"@);
            let total_size = s_req_u32(o, "total_size"@);
            if ent is Some && http_etag is Some && start is Some && total_size is Some {
                match ent->0 {
                    Some(a) => match s_entry_seq(a) {
                        Some(es) => Some(MembersV {
                            entries: Some(es),
                            http_etag: http_etag->0,
                            start: start->0,
                            total_size: total_size->0,
                        }),
                        None => None,
                    },
                    None => Some(MembersV {
                        entries: None,
                        http_etag: http_etag->0,
                        start: start->0,
                        total_size: total_size->0,
                    }),
                }
            } else {
                None
            }
        },
        _ => None,
    }
}

/// What a body text means as a page of this kind: nothing when it is not
/// well-formed JSON or not a page of the right shape.
pub open spec fn spec_of_text(t: Seq<char>) -> Option<MembersV> {
    match json_of(t) {
        Some(j) => s_page(j),
        None => None,
    }
}

fn entry_from(j: &Json) -> (r: Result<Entry, String>)
    ensures
        (r matches Ok(e) ==> s_entry(jview(*j)) == Some(entry_view(e))),
        (r is Err <==> s_entry(jview(*j)) is None),
{
    match j {
        Json::Obj(o) => {
            let address = match req_str(o, &String::from_str("address")) {
                Ok(x) => x,
                Err(e) => {
                    return Err(e);
                },
            };
            let bounce_score = match req_u32(o, &String::from_str("bounce_score")) {
                Ok(x) => x,
                Err(e) => {
                    return Err(e);
                },
            };
            let delivery_mode = match req_str(o, &String::from_str("delivery_mode")) {
                Ok(x) => x,
                Err(e) => {
                    return Err(e);
                },
            };
            let display_name = match req_str(o, &String::from_str("display_name")) {
                Ok(x) => x,
                Err(e) => {
                    return Err(e);
                },
            };
            let email = match req_str(o, &String::from_str("email")) {
                Ok(x) => x,
                Err(e) => {
                    return Err(e);
                },
            };
            let http_etag = match req_str(o, &String::from_str("http_etag")) {
                Ok(x) => x,
                Err(e) => {
                    return Err(e);
                },
            };
            let last_warning_sent = match req_str(o, &String::from_str("last_warning_sent")) {
                Ok(x) => x,
                Err(e) => {
                    return Err(e);
                },
            };
            let list_id = match req_str(o, &String::from_str("list_id")) {
                Ok(x) => x,
                Err(e) => {
                    return Err(e);
                },
            };
            let member_id = match req_str(o, &String::from_str("member_id")) {
                Ok(x) => x,
                Err(e) => {
                    return Err(e);
                },
            };
            let role = match req_str(o, &String::from_str("role")) {
                Ok(x) => x,
                Err(e) => {
                    return Err(e);
                },
            };
            let self_link = match req_str(o, &String::from_str("self_link")) {
                Ok(x) => x,
                Err(e) => {
                    return Err(e);
                },
            };
            let subscription_mode = match req_str(o, &String::from_str("subscription_mode")) {
                Ok(x) => x,
                Err(e) => {
                    return Err(e);
                },
            };
            let total_warnings_sent = match req_u32(o, &String::from_str("total_warnings_sent")) {
                Ok(x) => x,
                Err(e) => {
                    return Err(e);
                },
            };
            let user = match req_str(o, &String::from_str("user")) {
                Ok(x) => x,
                Err(e) => {
                    return Err(e);
                },
            };
            Ok(Entry { address, bounce_score, delivery_mode, display_name, email, http_etag, last_warning_sent, list_id, member_id, role, self_link, subscription_mode, total_warnings_sent, user })
        },
        _ => Err(String::from_str("entry is not an object")),
    }
}

fn entries_from(a: &Vec<Json>) -> (r: Result<Vec<Entry>, String>)
    ensures
        (r matches Ok(v) ==> s_entry_seq(jview_seq(a@)) == Some(
            v@.map_values(|e: Entry| entry_view(e)),
        )),
        (r is Err <==> s_entry_seq(jview_seq(a@)) is None),
{
    proof {
        lemma_jview_seq(a@);
    }
    let mut out: Vec<Entry> = Vec::new();
    let mut k: usize = 0;
    while k < a.len()
        invariant
            k <= a.len(),
            out@.len() == k as nat,
            jview_seq(a@).len() == a@.len(),
            forall|i: int|
                0 <= i < a@.len() ==> #[trigger] jview_seq(a@)[i] == jview(a@[i]),
            forall|i: int|
                0 <= i < k ==> #[trigger] s_entry(jview_seq(a@)[i]) == Some(entry_view(out@[i])),
        decreases a.len() - k,
    {
        match entry_from(&a[k]) {
            Ok(e) => {
                out.push(e);
            },
            Err(e) => {
                proof {
                    assert(s_entry(jview_seq(a@)[k as int]) is None);
                }
                return Err(e);
            },
        }
        k = k + 1;
    }
    proof {
        assert(s_entry_seq(jview_seq(a@)) == Some(out@.map_values(|e: Entry| entry_view(e))))
            by {
            assert(forall|i: int|
                0 <= i < jview_seq(a@).len() ==> s_entry(#[trigger] jview_seq(a@)[i]) is Some);
            assert(Seq::new(jview_seq(a@).len(), |i: int| s_entry(jview_seq(a@)[i])->0) =~= out@
                .map_values(|e: Entry| entry_view(e)));
        }
    }
    Ok(out)
}

impl Members {
    /// Reads one page out of a parsed body.
    pub fn from_json(j: &Json) -> (r: Result<Members, String>)
        ensures
            (r matches Ok(d) ==> s_page(jview(*j)) == Some(members_view(d))),
            (r is Err <==> s_page(jview(*j)) is None),
    {
        match j {
            Json::Obj(o) => {
                let ent = match opt_arr(o, &String::from_str("entries")) {
                    Ok(x) => x,
                    Err(e) => {
                        return Err(e);
                    },
                };
                let http_etag = match req_str(o, &String::from_str("http_etag")) {
                    Ok(x) => x,
                    Err(e) => {
                        return Err(e);
                    },
                };
                let start = match req_u32(o, &String::from_str("start")) {
                    Ok(x) => x,
                    Err(e) => {
                        return Err(e);
                    },
                };
                let total_size = match req_u32(o, &String::from_str("total_size")) {
                    Ok(x) => x,
                    Err(e) => {
                        return Err(e);
                    },
                };
                let entries = match ent {
                    Some(a) => match entries_from(a) {
                        Ok(v) => Some(v),
                        Err(e) => {
                            return Err(e);
                        },
                    },
                    None => None,
                };
                Ok(Members { entries, http_etag, start, total_size })
            },
            _ => Err(String::from_str("body is not an object")),
        }
    }

    /// Reads one page out of a raw body text.
    pub fn from_text(text: &str) -> (r: Result<Members, String>)
        ensures
            (r matches Ok(d) ==> spec_of_text(text@) == Some(members_view(d))),
            (r is Err <==> spec_of_text(text@) is None),
    {
        match parse_json(text) {
            Ok(j) => Members::from_json(&j),
            Err(e) => Err(e),
        }
    }
}

} // verus!
