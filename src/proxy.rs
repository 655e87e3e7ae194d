use vstd::prelude::*;

use crate::context::{RequestContext, Version};
use crate::credentials::ProxyCredentials;
use crate::string_filter::{filter_accepts, StringFilter};

verus! {

/// One upstream proxy of the pool.
#[derive(Debug, PartialEq, Eq)]
pub struct Proxy {
    /// The unique key of the record.
    pub id: String,
    /// Whether the proxy can carry TCP traffic.
    pub tcp: bool,
    /// Whether the proxy can carry UDP traffic.
    pub udp: bool,
    /// Whether the proxy speaks SOCKS5.
    pub socks5: bool,
    /// Whether the proxy is hosted in a datacenter.
    pub datacenter: bool,
    /// Whether the proxy is a residential one.
    pub residential: bool,
    /// Whether the proxy is a mobile one.
    pub mobile: bool,
    /// The pool the proxy belongs to; absent means any.
    pub pool_id: Option<StringFilter>,
    /// The country of the proxy; absent means any.
    pub country: Option<StringFilter>,
    /// The city of the proxy; absent means any.
    pub city: Option<StringFilter>,
    /// The mobile carrier of the proxy; absent means any.
    pub carrier: Option<StringFilter>,
    /// The credentials with which to authenticate with the proxy.
    pub credentials: Option<ProxyCredentials>,
}

/// What a caller asks of the proxy to select; every field is optional.
///
/// With an `id` the other fields validate the one record of that id;
/// without one they narrow the pool from which a record is drawn.
#[derive(Debug, Default, PartialEq)]
pub struct ProxyFilter {
    /// The id of the proxy to select.
    pub id: Option<String>,
    /// The pool from which to select the proxy.
    pub pool_id: Option<StringFilter>,
    /// The country of the proxy.
    pub country: Option<StringFilter>,
    /// The city of the proxy.
    pub city: Option<StringFilter>,
    /// Whether a datacenter proxy is wanted.
    pub datacenter: Option<bool>,
    /// Whether a residential proxy is wanted.
    pub residential: Option<bool>,
    /// Whether a mobile proxy is wanted.
    pub mobile: Option<bool>,
    /// The mobile carrier wanted.
    pub carrier: Option<StringFilter>,
}

/// The constraints of one query over the store; `None` imposes nothing.
#[derive(Debug)]
pub struct ProxyQuery {
    /// The pool, matched against the record's as in [`StringFilter::matches`].
    pub pool_id: Option<StringFilter>,
    /// The country, matched in the same way.
    pub country: Option<StringFilter>,
    /// The city, matched in the same way.
    pub city: Option<StringFilter>,
    /// The mobile carrier, matched in the same way.
    pub carrier: Option<StringFilter>,
    /// The required value of the datacenter flag.
    pub datacenter: Option<bool>,
    /// The required value of the residential flag.
    pub residential: Option<bool>,
    /// The required value of the mobile flag.
    pub mobile: Option<bool>,
    /// The required value of the TCP flag.
    pub tcp: Option<bool>,
    /// The required value of the UDP flag.
    pub udp: Option<bool>,
    /// The required value of the SOCKS5 flag.
    pub socks5: Option<bool>,
}

/// A record's optional categorical attribute meets an optional constraint.
pub open spec fn attribute_ok(stored: Option<StringFilter>, wanted: Option<StringFilter>) -> bool {
    match wanted {
        None => true,
        Some(w) => match stored {
            None => true,
            Some(s) => filter_accepts(s, w),
        },
    }
}

/// A record's flag meets an optional constraint.
pub open spec fn flag_ok(value: bool, wanted: Option<bool>) -> bool {
    match wanted {
        None => true,
        Some(w) => value == w,
    }
}

/// The record meets every constraint of the query.
pub open spec fn query_accepts(q: ProxyQuery, p: Proxy) -> bool {
    &&& attribute_ok(p.pool_id, q.pool_id)
    &&& attribute_ok(p.country, q.country)
    &&& attribute_ok(p.city, q.city)
    &&& attribute_ok(p.carrier, q.carrier)
    &&& flag_ok(p.datacenter, q.datacenter)
    &&& flag_ok(p.residential, q.residential)
    &&& flag_ok(p.mobile, q.mobile)
    &&& flag_ok(p.tcp, q.tcp)
    &&& flag_ok(p.udp, q.udp)
    &&& flag_ok(p.socks5, q.socks5)
}

/// The transport that a request of this context needs: HTTP/3 needs UDP over
/// SOCKS5, every other version needs TCP.
pub open spec fn protocol_ok(ctx: RequestContext, p: Proxy) -> bool {
    if ctx.http_version == Version::HTTP_3 {
        p.udp && p.socks5
    } else {
        p.tcp
    }
}

/// The query that a context and a filter stand for (the filter's id aside).
pub open spec fn filter_query(ctx: RequestContext, f: ProxyFilter) -> ProxyQuery {
    let h3 = ctx.http_version == Version::HTTP_3;
    ProxyQuery {
        pool_id: f.pool_id,
        country: f.country,
        city: f.city,
        carrier: f.carrier,
        datacenter: f.datacenter,
        residential: f.residential,
        mobile: f.mobile,
        tcp: if h3 { None } else { Some(true) },
        udp: if h3 { Some(true) } else { None },
        socks5: if h3 { Some(true) } else { None },
    }
}

/// The record is eligible for the context and the filter's attribute and flag fields.
pub open spec fn proxy_eligible(ctx: RequestContext, f: ProxyFilter, p: Proxy) -> bool {
    query_accepts(filter_query(ctx, f), p)
}

fn attribute_matches(stored: &Option<StringFilter>, wanted: &Option<StringFilter>) -> (r: bool)
    ensures
        r == attribute_ok(*stored, *wanted),
{
    match wanted {
        None => true,
        Some(w) => match stored {
            None => true,
            Some(s) => s.matches(w),
        },
    }
}

fn flag_matches(value: bool, wanted: Option<bool>) -> (r: bool)
    ensures
        r == flag_ok(value, wanted),
{
    match wanted {
        None => true,
        Some(w) => value == w,
    }
}

fn clone_filter_value(v: &Option<StringFilter>) -> (r: Option<StringFilter>)
    ensures
        r == *v,
{
    match v {
        Some(s) => Some(s.clone()),
        None => None,
    }
}

impl ProxyQuery {
    /// A query without constraints.
    pub fn new() -> (r: ProxyQuery)
        ensures
            forall|p: Proxy| query_accepts(r, p),
    {
        ProxyQuery {
            pool_id: None,
            country: None,
            city: None,
            carrier: None,
            datacenter: None,
            residential: None,
            mobile: None,
            tcp: None,
            udp: None,
            socks5: None,
        }
    }

    /// Whether the record meets every constraint of this query.
    pub fn matches(&self, p: &Proxy) -> (r: bool)
        ensures
            r == query_accepts(*self, *p),
    {
        attribute_matches(&p.pool_id, &self.pool_id) && attribute_matches(&p.country, &self.country)
            && attribute_matches(&p.city, &self.city) && attribute_matches(
            &p.carrier,
            &self.carrier,
        ) && flag_matches(p.datacenter, self.datacenter) && flag_matches(
            p.residential,
            self.residential,
        ) && flag_matches(p.mobile, self.mobile) && flag_matches(p.tcp, self.tcp) && flag_matches(
            p.udp,
            self.udp,
        ) && flag_matches(p.socks5, self.socks5)
    }

    /// The query for a context and a filter: the filter's attribute and flag
    /// fields, and the transport that the context's HTTP version needs.
    pub fn from_filter(ctx: &RequestContext, filter: &ProxyFilter) -> (r: ProxyQuery)
        ensures
            r == filter_query(*ctx, *filter),
    {
        let h3 = ctx.http_version == Version::HTTP_3;
        ProxyQuery {
            pool_id: clone_filter_value(&filter.pool_id),
            country: clone_filter_value(&filter.country),
            city: clone_filter_value(&filter.city),
            carrier: clone_filter_value(&filter.carrier),
            datacenter: filter.datacenter,
            residential: filter.residential,
            mobile: filter.mobile,
            tcp: if h3 { None } else { Some(true) },
            udp: if h3 { Some(true) } else { None },
            socks5: if h3 { Some(true) } else { None },
        }
    }
}

impl Proxy {
    /// Whether this record is eligible for the context and the filter's
    /// attribute and flag fields (the filter's id is not consulted).
    pub fn is_match(&self, ctx: &RequestContext, filter: &ProxyFilter) -> (r: bool)
        ensures
            r == proxy_eligible(*ctx, *filter, *self),
    {
        let q = ProxyQuery::from_filter(ctx, filter);
        q.matches(self)
    }
}

impl Clone for Proxy {
    fn clone(&self) -> (r: Proxy)
        ensures
            r == *self,
    {
        Proxy {
            id: self.id.clone(),
            tcp: self.tcp,
            udp: self.udp,
            socks5: self.socks5,
            datacenter: self.datacenter,
            residential: self.residential,
            mobile: self.mobile,
            pool_id: clone_filter_value(&self.pool_id),
            country: clone_filter_value(&self.country),
            city: clone_filter_value(&self.city),
            carrier: clone_filter_value(&self.carrier),
            credentials: match &self.credentials {
                Some(c) => Some(c.clone()),
                None => None,
            },
        }
    }
}

impl Clone for ProxyFilter {
    fn clone(&self) -> (r: ProxyFilter)
        ensures
            r == *self,
    {
        ProxyFilter {
            id: match &self.id {
                Some(i) => Some(i.clone()),
                None => None,
            },
            pool_id: clone_filter_value(&self.pool_id),
            country: clone_filter_value(&self.country),
            city: clone_filter_value(&self.city),
            datacenter: self.datacenter,
            residential: self.residential,
            mobile: self.mobile,
            carrier: clone_filter_value(&self.carrier),
        }
    }
}

} // verus!
