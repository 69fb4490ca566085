use vstd::prelude::*;

use crate::json::{
    json_of, jview, jview_seq, lemma_jview_seq, opt_arr, opt_str, parse_json, req_bool, req_str, req_u32, s_opt_arr, s_opt_str, s_req_bool, s_req_str, s_req_u32, Json, JsonV,
};

verus! {

/// One mailing list as the server reports it.
pub struct Entry {
    pub advertised: bool,
    pub description: Option<String>,
    pub display_name: String,
    pub fqdn_listname: String,
    pub http_etag: String,
    pub list_id: String,
    pub mail_host: String,
    pub member_count: u32,
    pub self_link: String,
    pub volume: u32,
}

impl Clone for Entry {
    fn clone(&self) -> (r: Self)
        ensures
            r == *self,
    {
        Entry {
            advertised: self.advertised,
            description: match &self.description {
                Some(s) => Some(s.clone()),
                None => None,
            },
            display_name: self.display_name.clone(),
            fqdn_listname: self.fqdn_listname.clone(),
            http_etag: self.http_etag.clone(),
            list_id: self.list_id.clone(),
            mail_host: self.mail_host.clone(),
            member_count: self.member_count,
            self_link: self.self_link.clone(),
            volume: self.volume,
        }
    }
}

impl Entry {
    pub fn display_name(&self) -> (r: String)
        ensures
            r == self.display_name,
    {
        self.display_name.clone()
    }

    pub fn fqdn_listname(&self) -> (r: String)
        ensures
            r == self.fqdn_listname,
    {
        self.fqdn_listname.clone()
    }

    pub fn list_id(&self) -> (r: String)
        ensures
            r == self.list_id,
    {
        self.list_id.clone()
    }
}

/// One page of mailing lists: the entry list plus the paging envelope.
pub struct Lists {
    pub entries: Option<Vec<Entry>>,
    pub http_etag: String,
    pub start: u32,
    pub total_size: u32,
}

/// What the rows of a lists page display: one fully qualified list name per
/// entry, nothing when the page carries no entry list.
pub open spec fn spec_list_vec(d: Lists) -> Seq<Seq<char>> {
    match d.entries {
        Some(v) => v@.map_values(|e: Entry| e.fqdn_listname@),
        None => Seq::empty(),
    }
}

impl Lists {
    /// The display line of each entry, in server order.
    pub fn list_vec(&self) -> (r: Vec<String>)
        ensures
            r@.map_values(|s: String| s@) == spec_list_vec(*self),
    {
        match &self.entries {
            Some(v) => {
                let mut out: Vec<String> = Vec::new();
                let mut k: usize = 0;
                while k < v.len()
                    invariant
                        k <= v.len(),
                        out@.len() == k as nat,
                        forall|j: int| 0 <= j < k ==> out@[j]@ == v@[j].fqdn_listname@,
                    decreases v.len() - k,
                {
                    out.push(v[k].fqdn_listname());
                    k = k + 1;
                }
                proof {
                    assert(out@.map_values(|s: String| s@) =~= spec_list_vec(*self));
                }
                out
            },
            None => {
                let out: Vec<String> = Vec::new();
                proof {
                    assert(out@.map_values(|s: String| s@) =~= spec_list_vec(*self));
                }
                out
            },
        }
    }

    pub fn entries(&self) -> (r: &Option<Vec<Entry>>)
        ensures
            r == self.entries,
    {
        &self.entries
    }
}


/// The shape of one parsed entry.
pub ghost struct EntryV {
    pub advertised: bool,
    pub description: Option<Seq<char>>,
    pub display_name: Seq<char>,
    pub fqdn_listname: Seq<char>,
    pub http_etag: Seq<char>,
    pub list_id: Seq<char>,
    pub mail_host: Seq<char>,
    pub member_count: u32,
    pub self_link: Seq<char>,
    pub volume: u32,
}

/// The shape of a held entry.
pub open spec fn entry_view(e: Entry) -> EntryV {
    EntryV {
        advertised: e.advertised,
        description: match e.description {
            Some(s) => Some(s@),
            None => None,
        },
        display_name: e.display_name@,
        fqdn_listname: e.fqdn_listname@,
        http_etag: e.http_etag@,
        list_id: e.list_id@,
        mail_host: e.mail_host@,
        member_count: e.member_count,
        self_link: e.self_link@,
        volume: e.volume,
    }
}

/// What one entry of the wire format means: an object whose required fields
/// hold values of the right type and whose optional ones may be absent or
/// null.
pub open spec fn s_entry(j: JsonV) -> Option<EntryV> {
    match j {
        JsonV::Obj(o) => {
            let advertised = s_req_bool(o, "advertised"@);
            let description = s_opt_str(o, "description"@);
            let display_name = s_req_str(o, "display_name"@);
            let fqdn_listname = s_req_str(o, "fqdn_listname"@);
            let http_etag = s_req_str(o, "http_etag"@);
            let list_id = s_req_str(o, "list_id"@);
            let mail_host = s_req_str(o, "mail_host"@);
            let member_count = s_req_u32(o, "member_count"@);
            let self_link = s_req_str(o, "self_link"@);
            let volume = s_req_u32(o, "volume"@);
            if advertised is Some && description is Some && display_name is Some && fqdn_listname is Some && http_etag is Some && list_id is Some && mail_host is Some && member_count is Some && self_link is Some && volume is Some {
                Some(EntryV {
                    advertised: advertised->0,
                    description: description->0,
                    display_name: display_name->0,
                    fqdn_listname: fqdn_listname->0,
                    http_etag: http_etag->0,
                    list_id: list_id->0,
                    mail_host: mail_host->0,
                    member_count: member_count->0,
                    self_link: self_link->0,
                    volume: volume->0,
                })
            } else {
                None
            }
        },
        _ => None,
    }
}

/// The entry list parses when each of its elements does.
pub open spec fn s_entry_seq(a: Seq<JsonV>) -> Option<Seq<EntryV>> {
    if forall|i: int| 0 <= i < a.len() ==> s_entry(a[i]) is Some {
        Some(Seq::new(a.len(), |i: int| s_entry(a[i])->0))
    } else {
        None
    }
}

/// The shape of a parsed page.
pub ghost struct ListsV {
    pub entries: Option<Seq<EntryV>>,
    pub http_etag: Seq<char>,
    pub start: u32,
    pub total_size: u32,
}

/// The shape of a held page.
pub open spec fn lists_view(d: Lists) -> ListsV {
    ListsV {
        entries: match d.entries {
            Some(v) => Some(v@.map_values(|e: Entry| entry_view(e))),
            None => None,
        },
        http_etag: d.http_etag@,
        start: d.start,
        total_size: d.total_size,
    }
}

/// What a whole page of the wire format means.
pub open spec fn s_page(j: JsonV) -> Option<ListsV> {
    match j {
        JsonV::Obj(o) => {
            let ent = s_opt_arr(o, "entries"@);
            let http_etag = s_req_str(o, "http_etag"@);
            let start = s_req_u32(o, "start"@);
            let total_size = s_req_u32(o, "total_size"@);
            if ent is Some && http_etag is Some && start is Some && total_size is Some {
                match ent->0 {
                    Some(a) => match s_entry_seq(a) {
                        Some(es) => Some(ListsV {
                            entries: Some(es),
                            http_etag: http_etag->0,
                            start: start->0,
                            total_size: total_size->0,
                        }),
                        None => None,
                    },
                    None => Some(ListsV {
                        entries: None,
                        http_etag: http_etag->0,
                        start: start->0,
                        total_size: total_size->0,
                    }),
                }
            } else {
                None
            }
        },
        _ => None,
    }
}

/// What a body text means as a page of this kind: nothing when it is not
/// well-formed JSON or not a page of the right shape.
pub open spec fn spec_of_text(t: Seq<char>) -> Option<ListsV> {
    match json_of(t) {
        Some(j) => s_page(j),
        None => None,
    }
}

fn entry_from(j: &Json) -> (r: Result<Entry, String>)
    ensures
        (r matches Ok(e) ==> s_entry(jview(*j)) == Some(entry_view(e))),
        (r is Err <==> s_entry(jview(*j)) is None),
{
    match j {
        Json::Obj(o) => {
            let advertised = match req_bool(o, &String::from_str("advertised")) {
                Ok(x) => x,
                Err(e) => {
                    return Err(e);
                },
            };
            let description = match opt_str(o, &String::from_str("description")) {
                Ok(x) => x,
                Err(e) => {
                    return Err(e);
                },
            };
            let display_name = match req_str(o, &String::from_str("display_name")) {
                Ok(x) => x,
                Err(e) => {
                    return Err(e);
                },
            };
            let fqdn_listname = match req_str(o, &String::from_str("fqdn_listname")) {
                Ok(x) => x,
                Err(e) => {
                    return Err(e);
                },
            };
            let http_etag = match req_str(o, &String::from_str("http_etag")) {
                Ok(x) => x,
                Err(e) => {
                    return Err(e);
                },
            };
            let list_id = match req_str(o, &String::from_str("list_id")) {
                Ok(x) => x,
                Err(e) => {
                    return Err(e);
                },
            };
            let mail_host = match req_str(o, &String::from_str("mail_host")) {
                Ok(x) => x,
                Err(e) => {
                    return Err(e);
                },
            };
            let member_count = match req_u32(o, &String::from_str("member_count")) {
                Ok(x) => x,
                Err(e) => {
                    return Err(e);
                },
            };
            let self_link = match req_str(o, &String::from_str("self_link")) {
                Ok(x) => x,
                Err(e) => {
                    return Err(e);
                },
            };
            let volume = match req_u32(o, &String::from_str("volume")) {
                Ok(x) => x,
                Err(e) => {
                    return Err(e);
                },
            };
            Ok(Entry { advertised, description, display_name, fqdn_listname, http_etag, list_id, mail_host, member_count, self_link, volume })
        },
        _ => Err(String::from_str("entry is not an object")),
    }
}

fn entries_from(a: &Vec<Json>) -> (r: Result<Vec<Entry>, String>)
    ensures
        (r matches Ok(v) ==> s_entry_seq(jview_seq(a@)) == Some(
            v@.map_values(|e: Entry| entry_view(e)),
        )),
        (r is Err <==> s_entry_seq(jview_seq(a@)) is None),
{
    proof {
        lemma_jview_seq(a@);
    }
    let mut out: Vec<Entry> = Vec::new();
    let mut k: usize = 0;
    while k < a.len()
        invariant
            k <= a.len(),
            out@.len() == k as nat,
            jview_seq(a@).len() == a@.len(),
            forall|i: int|
                0 <= i < a@.len() ==> #[trigger] jview_seq(a@)[i] == jview(a@[i]),
            forall|i: int|
                0 <= i < k ==> #[trigger] s_entry(jview_seq(a@)[i]) == Some(entry_view(out@[i])),
        decreases a.len() - k,
    {
        match entry_from(&a[k]) {
            Ok(e) => {
                out.push(e);
            },
            Err(e) => {
                proof {
                    assert(s_entry(jview_seq(a@)[k as int]) is None);
                }
                return Err(e);
            },
        }
        k = k + 1;
    }
    proof {
        assert(s_entry_seq(jview_seq(a@)) == Some(out@.map_values(|e: Entry| entry_view(e))))
            by {
            assert(forall|i: int|
                0 <= i < jview_seq(a@).len() ==> s_entry(#[trigger] jview_seq(a@)[i]) is Some);
            assert(Seq::new(jview_seq(a@).len(), |i: int| s_entry(jview_seq(a@)[i])->0) =~= out@
                .map_values(|e: Entry| entry_view(e)));
        }
    }
    Ok(out)
}

impl Lists {
    /// Reads one page out of a parsed body.
    pub fn from_json(j: &Json) -> (r: Result<Lists, String>)
        ensures
            (r matches Ok(d) ==> s_page(jview(*j)) == Some(lists_view(d))),
            (r is Err <==> s_page(jview(*j)) is None),
    {
        match j {
            Json::Obj(o) => {
                let ent = match opt_arr(o, &String::from_str("entries")) {
                    Ok(x) => x,
                    Err(e) => {
                        return Err(e);
                    },
                };
                let http_etag = match req_str(o, &String::from_str("http_etag")) {
                    Ok(x) => x,
                    Err(e) => {
                        return Err(e);
                    },
                };
                let start = match req_u32(o, &String::from_str("start")) {
                    Ok(x) => x,
                    Err(e) => {
                        return Err(e);
                    },
                };
                let total_size = match req_u32(o, &String::from_str("total_size")) {
                    Ok(x) => x,
                    Err(e) => {
                        return Err(e);
                    },
                };
                let entries = match ent {
                    Some(a) => match entries_from(a) {
                        Ok(v) => Some(v),
                        Err(e) => {
                            return Err(e);
                        },
                    },
                    None => None,
                };
                Ok(Lists { entries, http_etag, start, total_size })
            },
            _ => Err(String::from_str("body is not an object")),
        }
    }

    /// Reads one page out of a raw body text.
    pub fn from_text(text: &str) -> (r: Result<Lists, String>)
        ensures
            (r matches Ok(d) ==> spec_of_text(text@) == Some(lists_view(d))),
            (r is Err <==> spec_of_text(text@) is None),
    {
        match parse_json(text) {
            Ok(j) => Lists::from_json(&j),
            Err(e) => Err(e),
        }
    }
}

} // verus!
