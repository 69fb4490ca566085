use vstd::prelude::*;

use crate::json::{
    jview, jview_seq, lemma_jview_seq, opt_arr, opt_str, parse_json, req_str, req_u32, json_of,
    s_opt_arr, s_opt_str, s_req_str, s_req_u32, Json, JsonV,
};

verus! {

/// One mail domain as the server reports it.
pub struct Entry {
    pub alias_domain: Option<String>,
    pub description: Option<String>,
    pub http_etag: String,
    pub mail_host: String,
    pub self_link: String,
}

impl Clone for Entry {
    fn clone(&self) -> (r: Self)
        ensures
            r == *self,
    {
        Entry {
            alias_domain: match &self.alias_domain {
                Some(s) => Some(s.clone()),
                None => None,
            },
            description: match &self.description {
                Some(s) => Some(s.clone()),
                None => None,
            },
            http_etag: self.http_etag.clone(),
            mail_host: self.mail_host.clone(),
            self_link: self.self_link.clone(),
        }
    }
}

impl Entry {
    pub fn mail_host(&self) -> (r: String)
        ensures
            r == self.mail_host,
    {
        self.mail_host.clone()
    }
}

/// One page of domains: the entry list plus the paging envelope.
pub struct Domains {
    pub entries: Option<Vec<Entry>>,
    pub http_etag: String,
    pub start: u32,
    pub total_size: u32,
}

/// What the rows of a domains page display: one mail host per entry,
/// nothing when the page carries no entry list.
pub open spec fn spec_list_vec(d: Domains) -> Seq<Seq<char>> {
    match d.entries {
        Some(v) => v@.map_values(|e: Entry| e.mail_host@),
        None => Seq::empty(),
    }
}

impl Domains {
    /// The display line of each entry, in server order.
    pub fn list_vec(&self) -> (r: Vec<String>)
        ensures
            r@.map_values(|s: String| s@) == spec_list_vec(*self),
    {
        match &self.entries {
            Some(v) => {
                let mut out: Vec<String> = Vec::new();
                let mut k: usize = 0;
                while k < v.len()
                    invariant
                        k <= v.len(),
                        out@.len() == k as nat,
                        forall|j: int| 0 <= j < k ==> out@[j]@ == v@[j].mail_host@,
                    decreases v.len() - k,
                {
                    out.push(v[k].mail_host());
                    k = k + 1;
                }
                proof {
                    assert(out@.map_values(|s: String| s@) =~= spec_list_vec(*self));
                }
                out
            },
            None => {
                let out: Vec<String> = Vec::new();
                proof {
                    assert(out@.map_values(|s: String| s@) =~= spec_list_vec(*self));
                }
                out
            },
        }
    }

    pub fn entries(&self) -> (r: &Option<Vec<Entry>>)
        ensures
            r == self.entries,
    {
        &self.entries
    }
}


/// The shape of one parsed domain entry.
pub ghost struct EntryV {
    pub alias_domain: Option<Seq<char>>,
    pub description: Option<Seq<char>>,
    pub http_etag: Seq<char>,
    pub mail_host: Seq<char>,
    pub self_link: Seq<char>,
}

/// The shape of a held domain entry.
pub open spec fn entry_view(e: Entry) -> EntryV {
    EntryV {
        alias_domain: match e.alias_domain {
            Some(s) => Some(s@),
            None => None,
        },
        description: match e.description {
            Some(s) => Some(s@),
            None => None,
        },
        http_etag: e.http_etag@,
        mail_host: e.mail_host@,
        self_link: e.self_link@,
    }
}

/// What one entry of the wire format means: an object whose required fields
/// are texts and whose optional ones may be absent or null.
pub open spec fn s_entry(j: JsonV) -> Option<EntryV> {
    match j {
        JsonV::Obj(o) => {
            let alias_domain = s_opt_str(o, "alias_domain"@);
            let description = s_opt_str(o, "description"@);
            let http_etag = s_req_str(o, "http_etag"@);
            let mail_host = s_req_str(o, "mail_host"@);
            let self_link = s_req_str(o, "self_link"@);
            if alias_domain is Some && description is Some && http_etag is Some && mail_host
                is Some && self_link is Some {
                Some(EntryV {
                    alias_domain: alias_domain->0,
                    description: description->0,
                    http_etag: http_etag->0,
                    mail_host: mail_host->0,
                    self_link: self_link->0,
                })
            } else {
                None
            }
        },
        _ => None,
    }
}

/// The entry list parses when each of its elements does.
pub open spec fn s_entry_seq(a: Seq<JsonV>) -> Option<Seq<EntryV>> {
    if forall|i: int| 0 <= i < a.len() ==> s_entry(a[i]) is Some {
        Some(Seq::new(a.len(), |i: int| s_entry(a[i])->0))
    } else {
        None
    }
}

/// The shape of a parsed domains page.
pub ghost struct DomainsV {
    pub entries: Option<Seq<EntryV>>,
    pub http_etag: Seq<char>,
    pub start: u32,
    pub total_size: u32,
}

/// The shape of a held domains page.
pub open spec fn domains_view(d: Domains) -> DomainsV {
    DomainsV {
        entries: match d.entries {
            Some(v) => Some(v@.map_values(|e: Entry| entry_view(e))),
            None => None,
        },
        http_etag: d.http_etag@,
        start: d.start,
        total_size: d.total_size,
    }
}

/// What a whole page of the wire format means.
pub open spec fn s_page(j: JsonV) -> Option<DomainsV> {
    match j {
        JsonV::Obj(o) => {
            let ent = s_opt_arr(o, "entries"@);
            let http_etag = s_req_str(o, "http_etag"@);
            let start = s_req_u32(o, "start"@);
            let total_size = s_req_u32(o, "total_size"@);
            if ent is Some && http_etag is Some && start is Some && total_size is Some {
                match ent->0 {
                    Some(a) => match s_entry_seq(a) {
                        Some(es) => Some(DomainsV {
                            entries: Some(es),
                            http_etag: http_etag->0,
                            start: start->0,
                            total_size: total_size->0,
                        }),
                        None => None,
                    },
                    None => Some(DomainsV {
                        entries: None,
                        http_etag: http_etag->0,
                        start: start->0,
                        total_size: total_size->0,
                    }),
                }
            } else {
                None
            }
        },
        _ => None,
    }
}

/// What a body text means as a domains page: nothing when it is not
/// well-formed JSON or not a page of the right shape.
pub open spec fn spec_of_text(t: Seq<char>) -> Option<DomainsV> {
    match json_of(t) {
        Some(j) => s_page(j),
        None => None,
    }
}

fn entry_from(j: &Json) -> (r: Result<Entry, String>)
    ensures
        (r matches Ok(e) ==> s_entry(jview(*j)) == Some(entry_view(e))),
        (r is Err <==> s_entry(jview(*j)) is None),
{
    match j {
        Json::Obj(o) => {
            let alias_domain = match opt_str(o, &String::from_str("alias_domain")) {
                Ok(x) => x,
                Err(e) => {
                    return Err(e);
                },
            };
            let description = match opt_str(o, &String::from_str("description")) {
                Ok(x) => x,
                Err(e) => {
                    return Err(e);
                },
            };
            let http_etag = match req_str(o, &String::from_str("http_etag")) {
                Ok(x) => x,
                Err(e) => {
                    return Err(e);
                },
            };
            let mail_host = match req_str(o, &String::from_str("mail_host")) {
                Ok(x) => x,
                Err(e) => {
                    return Err(e);
                },
            };
            let self_link = match req_str(o, &String::from_str("self_link")) {
                Ok(x) => x,
                Err(e) => {
                    return Err(e);
                },
            };
            Ok(Entry { alias_domain, description, http_etag, mail_host, self_link })
        },
        _ => Err(String::from_str("entry is not an object")),
    }
}

fn entries_from(a: &Vec<Json>) -> (r: Result<Vec<Entry>, String>)
    ensures
        (r matches Ok(v) ==> s_entry_seq(jview_seq(a@)) == Some(
            v@.map_values(|e: Entry| entry_view(e)),
        )),
        (r is Err <==> s_entry_seq(jview_seq(a@)) is None),
{
    proof {
        lemma_jview_seq(a@);
    }
    let mut out: Vec<Entry> = Vec::new();
    let mut k: usize = 0;
    while k < a.len()
        invariant
            k <= a.len(),
            out@.len() == k as nat,
            jview_seq(a@).len() == a@.len(),
            forall|i: int|
                0 <= i < a@.len() ==> #[trigger] jview_seq(a@)[i] == jview(a@[i]),
            forall|i: int|
                0 <= i < k ==> #[trigger] s_entry(jview_seq(a@)[i]) == Some(entry_view(out@[i])),
        decreases a.len() - k,
    {
        match entry_from(&a[k]) {
            Ok(e) => {
                out.push(e);
            },
            Err(e) => {
                proof {
                    assert(s_entry(jview_seq(a@)[k as int]) is None);
                }
                return Err(e);
            },
        }
        k = k + 1;
    }
    proof {
        assert(s_entry_seq(jview_seq(a@)) == Some(out@.map_values(|e: Entry| entry_view(e))))
            by {
            assert(forall|i: int|
                0 <= i < jview_seq(a@).len() ==> s_entry(#[trigger] jview_seq(a@)[i]) is Some);
            assert(Seq::new(jview_seq(a@).len(), |i: int| s_entry(jview_seq(a@)[i])->0) =~= out@
                .map_values(|e: Entry| entry_view(e)));
        }
    }
    Ok(out)
}

impl Domains {
    /// Reads one page out of a parsed body.
    pub fn from_json(j: &Json) -> (r: Result<Domains, String>)
        ensures
            (r matches Ok(d) ==> s_page(jview(*j)) == Some(domains_view(d))),
            (r is Err <==> s_page(jview(*j)) is None),
    {
        match j {
            Json::Obj(o) => {
                let ent = match opt_arr(o, &String::from_str("entries")) {
                    Ok(x) => x,
                    Err(e) => {
                        return Err(e);
                    },
                };
                let http_etag = match req_str(o, &String::from_str("http_etag")) {
                    Ok(x) => x,
                    Err(e) => {
                        return Err(e);
                    },
                };
                let start = match req_u32(o, &String::from_str("start")) {
                    Ok(x) => x,
                    Err(e) => {
                        return Err(e);
                    },
                };
                let total_size = match req_u32(o, &String::from_str("total_size")) {
                    Ok(x) => x,
                    Err(e) => {
                        return Err(e);
                    },
                };
                let entries = match ent {
                    Some(a) => match entries_from(a) {
                        Ok(v) => Some(v),
                        Err(e) => {
                            return Err(e);
                        },
                    },
                    None => None,
                };
                Ok(Domains { entries, http_etag, start, total_size })
            },
            _ => Err(String::from_str("body is not an object")),
        }
    }

    /// Reads one page out of a raw body text.
    pub fn from_text(text: &str) -> (r: Result<Domains, String>)
        ensures
            (r matches Ok(d) ==> spec_of_text(text@) == Some(domains_view(d))),
            (r is Err <==> spec_of_text(text@) is None),
    {
        match parse_json(text) {
            Ok(j) => Domains::from_json(&j),
            Err(e) => Err(e),
        }
    }
}

} // verus!
