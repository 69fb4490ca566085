use vstd::prelude::*;

use crate::json::{
    json_of, jview, jview_seq, lemma_jview_seq, opt_arr, opt_u32, parse_json, req_str, req_u32, s_opt_arr, s_opt_u32, s_req_str, s_req_u32, Json, JsonV,
};

verus! {

/// One held message as the server reports it.
pub struct Entry {
    pub extra: Option<u32>,
    pub hold_date: String,
    pub http_etag: String,
    pub message_id: String,
    pub msg: String,
    pub original_subject: String,
    pub reason: String,
    pub request_id: u32,
    pub self_link: String,
    pub sender: String,
    pub subject: String,
}

impl Clone for Entry {
    fn clone(&self) -> (r: Self)
        ensures
            r == *self,
    {
        Entry {
            extra: self.extra,
            hold_date: self.hold_date.clone(),
            http_etag: self.http_etag.clone(),
            message_id: self.message_id.clone(),
            msg: self.msg.clone(),
            original_subject: self.original_subject.clone(),
            reason: self.reason.clone(),
            request_id: self.request_id,
            self_link: self.self_link.clone(),
            sender: self.sender.clone(),
            subject: self.subject.clone(),
        }
    }
}

/// The line a held message shows: its sender, then its original subject.
pub open spec fn spec_description(e: Entry) -> Seq<char> {
    e.sender@ + ": "@ + e.original_subject@
}

impl Entry {
    pub fn description(&self) -> (r: String)
        ensures
            r@ == spec_description(*self),
    {
        let mut out = self.sender.clone();
        out.append(": ");
        out.append(self.original_subject.as_str());
        out
    }

    pub fn request_id(&self) -> (r: u32)
        ensures
            r == self.request_id,
    {
        self.request_id
    }
}

/// One page of held messages: the entry list plus the paging envelope.
pub struct Messages {
    pub entries: Option<Vec<Entry>>,
    pub http_etag: String,
    pub start: u32,
    pub total_size: u32,
}

/// What the rows of a held-messages page display: one description per entry;
/// a page without an entry list shows a single placeholder line.
pub open spec fn spec_list_vec(d: Messages) -> Seq<Seq<char>> {
    match d.entries {
        Some(v) => v@.map_values(|e: Entry| spec_description(e)),
        None => seq!["No held messages "@],
    }
}

impl Messages {
    /// The display line of each entry, in server order.
    pub fn list_vec(&self) -> (r: Vec<String>)
        ensures
            r@.map_values(|s: String| s@) == spec_list_vec(*self),
    {
        match &self.entries {
            Some(v) => {
                let mut out: Vec<String> = Vec::new();
                let mut k: usize = 0;
                while k < v.len()
                    invariant
                        k <= v.len(),
                        out@.len() == k as nat,
                        forall|j: int| 0 <= j < k ==> out@[j]@ == spec_description(v@[j]),
                    decreases v.len() - k,
                {
                    out.push(v[k].description());
                    k = k + 1;
                }
                proof {
                    assert(out@.map_values(|s: String| s@) =~= spec_list_vec(*self));
                }
                out
            },
            None => {
                let mut out: Vec<String> = Vec::new();
                out.push(String::from_str("No held messages "));
                proof {
                    assert(out@.map_values(|s: String| s@) =~= spec_list_vec(*self));
                }
                out
            },
        }
    }

    pub fn entries(&self) -> (r: &Option<Vec<Entry>>)
        ensures
            r == self.entries,
    {
        &self.entries
    }
}


/// The shape of one parsed entry.
pub ghost struct EntryV {
    pub extra: Option<u32>,
    pub hold_date: Seq<char>,
    pub http_etag: Seq<char>,
    pub message_id: Seq<char>,
    pub msg: Seq<char>,
    pub original_subject: Seq<char>,
    pub reason: Seq<char>,
    pub request_id: u32,
    pub self_link: Seq<char>,
    pub sender: Seq<char>,
    pub subject: Seq<char>,
}

/// The shape of a held entry.
pub open spec fn entry_view(e: Entry) -> EntryV {
    EntryV {
        extra: e.extra,
        hold_date: e.hold_date@,
        http_etag: e.http_etag@,
        message_id: e.message_id@,
        msg: e.msg@,
        original_subject: e.original_subject@,
        reason: e.reason@,
        request_id: e.request_id,
        self_link: e.self_link@,
        sender: e.sender@,
        subject: e.subject@,
    }
}

/// What one entry of the wire format means: an object whose required fields
/// hold values of the right type and whose optional ones may be absent or
/// null.
pub open spec fn s_entry(j: JsonV) -> Option<EntryV> {
    match j {
        JsonV::Obj(o) => {
            let extra = s_opt_u32(o, "extra"@);
            let hold_date = s_req_str(o, "hold_date"@);
            let http_etag = s_req_str(o, "http_etag"@);
            let message_id = s_req_str(o, "message_id"@);
            let msg = s_req_str(o, "msg"@);
            let original_subject = s_req_str(o, "original_subject"@);
            let reason = s_req_str(o, "reason"@);
            let request_id = s_req_u32(o, "request_id"@);
            let self_link = s_req_str(o, "self_link"@);
            let sender = s_req_str(o, "sender"@);
            let subject = s_req_str(o, "subject"@);
            if extra is Some && hold_date is Some && http_etag is Some && message_id is Some && msg is Some && original_subject is Some && reason is Some && request_id is Some && self_link is Some && sender is Some && subject is Some {
                Some(EntryV {
                    extra: extra->0,
                    hold_date: hold_date->0,
                    http_etag: http_etag->0,
                    message_id: message_id->0,
                    msg: msg->0,
                    original_subject: original_subject->0,
                    reason: reason->0,
                    request_id: request_id->0,
                    self_link: self_link->0,
                    sender: sender->0,
                    subject: subject->0,
                })
            } else {
                None
            }
        },
        _ => None,
    }
}

/// The entry list parses when each of its elements does.
pub open spec fn s_entry_seq(a: Seq<JsonV>) -> Option<Seq<EntryV>> {
    if forall|i: int| 0 <= i < a.len() ==> s_entry(a[i]) is Some {
        Some(Seq::new(a.len(), |i: int| s_entry(a[i])->0))
    } else {
        None
    }
}

/// The shape of a parsed page.
pub ghost struct MessagesV {
    pub entries: Option<Seq<EntryV>>,
    pub http_etag: Seq<char>,
    pub start: u32,
    pub total_size: u32,
}

/// The shape of a held page.
pub open spec fn messages_view(d: Messages) -> MessagesV {
    MessagesV {
        entries: match d.entries {
            Some(v) => Some(v@.map_values(|e: Entry| entry_view(e))),
            None => None,
        },
        http_etag: d.http_etag@,
        start: d.start,
        total_size: d.total_size,
    }
}

/// What a whole page of the wire format means.
pub open spec fn s_page(j: JsonV) -> Option<MessagesV> {
    match j {
        JsonV::Obj(o) => {
            let ent = s_opt_arr(o, "entries"@);
            let http_etag = s_req_str(o, "http_etag"@);
            let start = s_req_u32(o, "start"@);
            let total_size = s_req_u32(o, "total_size"@);
            if ent is Some && http_etag is Some && start is Some && total_size is Some {
                match ent->0 {
                    Some(a) => match s_entry_seq(a) {
                        Some(es) => Some(MessagesV {
                            entries: Some(es),
                            http_etag: http_etag->0,
                            start: start->0,
                            total_size: total_size->0,
                        }),
                        None => None,
                    },
                    None => Some(MessagesV {
                        entries: None,
                        http_etag: http_etag->0,
                        start: start->0,
                        total_size: total_size->0,
                    }),
                }
            } else {
                None
            }
        },
        _ => None,
    }
}

/// What a body text means as a page of this kind: nothing when it is not
/// well-formed JSON or not a page of the right shape.
pub open spec fn spec_of_text(t: Seq<char>) -> Option<MessagesV> {
    match json_of(t) {
        Some(j) => s_page(j),
        None => None,
    }
}

fn entry_from(j: &Json) -> (r: Result<Entry, String>)
    ensures
        (r matches Ok(e) ==> s_entry(jview(*j)) == Some(entry_view(e))),
        (r is Err <==> s_entry(jview(*j)) is None),
{
    match j {
        Json::Obj(o) => {
            let extra = match opt_u32(o, &String::from_str("extra")) {
                Ok(x) => x,
                Err(e) => {
                    return Err(e);
                },
            };
            let hold_date = match req_str(o, &String::from_str("hold_date")) {
                Ok(x) => x,
                Err(e) => {
                    return Err(e);
                },
            };
            let http_etag = match req_str(o, &String::from_str("http_etag")) {
                Ok(x) => x,
                Err(e) => {
                    return Err(e);
                },
            };
            let message_id = match req_str(o, &String::from_str("message_id")) {
                Ok(x) => x,
                Err(e) => {
                    return Err(e);
                },
            };
            let msg = match req_str(o, &String::from_str("msg")) {
                Ok(x) => x,
                Err(e) => {
                    return Err(e);
                },
            };
            let original_subject = match req_str(o, &String::from_str("original_subject")) {
                Ok(x) => x,
                Err(e) => {
                    return Err(e);
                },
            };
            let reason = match req_str(o, &String::from_str("reason")) {
                Ok(x) => x,
                Err(e) => {
                    return Err(e);
                },
            };
            let request_id = match req_u32(o, &String::from_str("request_id")) {
                Ok(x) => x,
                Err(e) => {
                    return Err(e);
                },
            };
            let self_link = match req_str(o, &String::from_str("self_link")) {
                Ok(x) => x,
                Err(e) => {
                    return Err(e);
                },
            };
            let sender = match req_str(o, &String::from_str("sender")) {
                Ok(x) => x,
                Err(e) => {
                    return Err(e);
                },
            };
            let subject = match req_str(o, &String::from_str("subject")) {
                Ok(x) => x,
                Err(e) => {
                    return Err(e);
                },
            };
            Ok(Entry { extra, hold_date, http_etag, message_id, msg, original_subject, reason, request_id, self_link, sender, subject })
        },
        _ => Err(String::from_str("entry is not an object")),
    }
}

fn entries_from(a: &Vec<Json>) -> (r: Result<Vec<Entry>, String>)
    ensures
        (r matches Ok(v) ==> s_entry_seq(jview_seq(a@)) == Some(
            v@.map_values(|e: Entry| entry_view(e)),
        )),
        (r is Err <==> s_entry_seq(jview_seq(a@)) is None),
{
    proof {
        lemma_jview_seq(a@);
    }
    let mut out: Vec<Entry> = Vec::new();
    let mut k: usize = 0;
    while k < a.len()
        invariant
            k <= a.len(),
            out@.len() == k as nat,
            jview_seq(a@).len() == a@.len(),
            forall|i: int|
                0 <= i < a@.len() ==> #[trigger] jview_seq(a@)[i] == jview(a@[i]),
            forall|i: int|
                0 <= i < k ==> #[trigger] s_entry(jview_seq(a@)[i]) == Some(entry_view(out@[i])),
        decreases a.len() - k,
    {
        match entry_from(&a[k]) {
            Ok(e) => {
                out.push(e);
            },
            Err(e) => {
                proof {
                    assert(s_entry(jview_seq(a@)[k as int]) is None);
                }
                return Err(e);
            },
        }
        k = k + 1;
    }
    proof {
        assert(s_entry_seq(jview_seq(a@)) == Some(out@.map_values(|e: Entry| entry_view(e))))
            by {
            assert(forall|i: int|
                0 <= i < jview_seq(a@).len() ==> s_entry(#[trigger] jview_seq(a@)[i]) is Some);
            assert(Seq::new(jview_seq(a@).len(), |i: int| s_entry(jview_seq(a@)[i])->0) =~= out@
                .map_values(|e: Entry| entry_view(e)));
        }
    }
    Ok(out)
}

impl Messages {
    /// Reads one page out of a parsed body.
    pub fn from_json(j: &Json) -> (r: Result<Messages, String>)
        ensures
            (r matches Ok(d) ==> s_page(jview(*j)) == Some(messages_view(d))),
            (r is Err <==> s_page(jview(*j)) is None),
    {
        match j {
            Json::Obj(o) => {
                let ent = match opt_arr(o, &String::from_str("entries")) {
                    Ok(x) => x,
                    Err(e) => {
                        return Err(e);
                    },
                };
                let http_etag = match req_str(o, &String::from_str("http_etag")) {
                    Ok(x) => x,
                    Err(e) => {
                        return Err(e);
                    },
                };
                let start = match req_u32(o, &String::from_str("start")) {
                    Ok(x) => x,
                    Err(e) => {
                        return Err(e);
                    },
                };
                let total_size = match req_u32(o, &String::from_str("total_size")) {
                    Ok(x) => x,
                    Err(e) => {
                        return Err(e);
                    },
                };
                let entries = match ent {
                    Some(a) => match entries_from(a) {
                        Ok(v) => Some(v),
                        Err(e) => {
                            return Err(e);
                        },
                    },
                    None => None,
                };
                Ok(Messages { entries, http_etag, start, total_size })
            },
            _ => Err(String::from_str("body is not an object")),
        }
    }

    /// Reads one page out of a raw body text.
    pub fn from_text(text: &str) -> (r: Result<Messages, String>)
        ensures
            (r matches Ok(d) ==> spec_of_text(text@) == Some(messages_view(d))),
            (r is Err <==> spec_of_text(text@) is None),
    {
        match parse_json(text) {
            Ok(j) => Messages::from_json(&j),
            Err(e) => Err(e),
        }
    }
}

} // verus!
