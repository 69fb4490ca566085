use vstd::prelude::*;

use crate::config::Config;
use crate::numfmt::{i32_dec, spec_idec};
use crate::popup::{Method, PopupReqParam};

verus! {

/// What one dispatcher invocation is asked to do: fetch one resource kind,
/// or send the request a popup built.
pub enum ReqType {
    Domains,
    Lists,
    Members,
    Messages,
    Popup(PopupReqParam),
}

/// Scheme, host and port in front of every endpoint.
pub open spec fn spec_base_url(c: Config) -> Seq<char> {
    c.protocol@ + "://"@ + c.host@ + ":"@ + spec_idec(c.port as int)
}

pub fn base_url(config: &Config) -> (r: String)
    ensures
        r@ == spec_base_url(*config),
{
    let mut url = config.protocol().clone();
    url.append("://");
    url.append(config.host().as_str());
    url.append(":");
    url.append(i32_dec(config.port()).as_str());
    proof {
        assert(url@ =~= spec_base_url(*config));
    }
    url
}

/// The endpoint a fetch resolves to. Domains and lists have fixed
/// collection endpoints; members come from the pinned list's roster when one
/// is pinned and from the global collection otherwise; held messages come
/// from the pinned list; a popup submission carries its target verbatim.
pub open spec fn spec_resolved_url(req: ReqType, c: Config) -> Seq<char> {
    match req {
        ReqType::Domains => spec_base_url(c) + "/3.1/domains"@,
        ReqType::Lists => spec_base_url(c) + "/3.1/lists"@,
        ReqType::Members => if c.list is Some {
            spec_base_url(c) + "/3.1/lists/"@ + c.list->0.fqdn_listname@ + "/roster/member"@
        } else {
            spec_base_url(c) + "/3.1/members"@
        },
        ReqType::Messages => spec_base_url(c) + "/3.1/lists/"@ + c.list->0.fqdn_listname@
            + "/held"@,
        ReqType::Popup(p) => p.url@,
    }
}

/// Turns one request into the verb, target and field map to send. Fetches
/// are GET requests with no fields; a popup submission keeps what it built.
pub fn resolve(req: ReqType, config: &Config) -> (r: (Method, String, Vec<(String, String)>))
    requires
        req is Messages ==> config.list is Some,
    ensures
        r.1@ == spec_resolved_url(req, *config),
        (match req {
            ReqType::Popup(p) => r.0 == p.method && r.2 == p.map,
            _ => r.0 == Method::Get && r.2@.len() == 0,
        }),
{
    match req {
        ReqType::Domains => {
            let mut url = base_url(config);
            url.append("/3.1/domains");
            (Method::Get, url, Vec::new())
        },
        ReqType::Lists => {
            let mut url = base_url(config);
            url.append("/3.1/lists");
            (Method::Get, url, Vec::new())
        },
        ReqType::Members => {
            match config.list() {
                Some(list) => {
                    let mut url = base_url(config);
                    url.append("/3.1/lists/");
                    url.append(list.fqdn_listname().as_str());
                    url.append("/roster/member");
                    (Method::Get, url, Vec::new())
                },
                None => {
                    let mut url = base_url(config);
                    url.append("/3.1/members");
                    (Method::Get, url, Vec::new())
                },
            }
        },
        ReqType::Messages => {
            let list = match config.list() {
                Some(l) => l,
                None => unreached(),
            };
            let mut url = base_url(config);
            url.append("/3.1/lists/");
            url.append(list.fqdn_listname().as_str());
            url.append("/held");
            (Method::Get, url, Vec::new())
        },
        ReqType::Popup(p) => {
            let PopupReqParam { method, url, map } = p;
            (method, url, map)
        },
    }
}

} // verus!
