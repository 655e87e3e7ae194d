//! Properties of selection that relate several inputs or calls.
use vstd::prelude::*;

use crate::context::RequestContext;
use crate::credentials::{credentials_text, parse_credentials, CredentialsView};
use crate::memory_db::{
    admissible, admissible_if, candidates, drawn_outcome, has_id, ids_unique,
    MemoryProxyDBQueryErrorKind,
};
use crate::proxy::{protocol_ok, proxy_eligible, Proxy, ProxyFilter};
use crate::string_filter::StringFilter;
use crate::text::{is_first_pos, split_once};

verus! {

broadcast use vstd::seq_lib::group_filter_ensures;

/// A record looked up by its own id, with every other filter field set to the
/// record's own attributes, is the one selection returned, provided the
/// request's transport is one the record offers.
pub proof fn lemma_identity_found(records: Seq<Proxy>, i: int, ctx: RequestContext, f: ProxyFilter)
    requires
        ids_unique(records),
        0 <= i < records.len(),
        f.id matches Some(id) && id@ == records[i].id@,
        f.pool_id == records[i].pool_id,
        f.country == records[i].country,
        f.city == records[i].city,
        f.carrier == records[i].carrier,
        f.datacenter == Some(records[i].datacenter),
        f.residential == Some(records[i].residential),
        f.mobile == Some(records[i].mobile),
        protocol_ok(ctx, records[i]),
    ensures
        forall|r: Result<Proxy, MemoryProxyDBQueryErrorKind>|
            admissible(records, ctx, f, r) <==> r == Ok::<Proxy, MemoryProxyDBQueryErrorKind>(
                records[i],
            ),
{
    let id = records[i].id@;
    assert(has_id(records, id));
    let k = choose|k: int| 0 <= k < records.len() && records[k].id@ == id;
    if k != i {
        if k < i {
            assert(records[k].id@ != records[i].id@);
        } else {
            assert(records[i].id@ != records[k].id@);
        }
    }
    assert(k == i);
}

/// A record looked up by its id that is not eligible for the request and the
/// filter's other fields gives `Mismatch`.
pub proof fn lemma_identity_mismatch(records: Seq<Proxy>, i: int, ctx: RequestContext, f: ProxyFilter)
    requires
        ids_unique(records),
        0 <= i < records.len(),
        f.id matches Some(id) && id@ == records[i].id@,
        !proxy_eligible(ctx, f, records[i]),
    ensures
        forall|r: Result<Proxy, MemoryProxyDBQueryErrorKind>|
            admissible(records, ctx, f, r) <==> r == Err::<Proxy, MemoryProxyDBQueryErrorKind>(
                MemoryProxyDBQueryErrorKind::Mismatch,
            ),
{
    let id = records[i].id@;
    assert(has_id(records, id));
    let k = choose|k: int| 0 <= k < records.len() && records[k].id@ == id;
    if k != i {
        if k < i {
            assert(records[k].id@ != records[i].id@);
        } else {
            assert(records[i].id@ != records[k].id@);
        }
    }
    assert(k == i);
}

/// A lookup by an id that no record has gives `NotFound`.
pub proof fn lemma_identity_not_found(records: Seq<Proxy>, ctx: RequestContext, f: ProxyFilter)
    requires
        f.id matches Some(id) && !has_id(records, id@),
    ensures
        forall|r: Result<Proxy, MemoryProxyDBQueryErrorKind>|
            admissible(records, ctx, f, r) <==> r == Err::<Proxy, MemoryProxyDBQueryErrorKind>(
                MemoryProxyDBQueryErrorKind::NotFound,
            ),
{
}

/// A record whose country is the wildcard is a candidate for any queried
/// country, when it meets the rest of the query.
pub proof fn lemma_wildcard_country(
    records: Seq<Proxy>,
    i: int,
    ctx: RequestContext,
    f: ProxyFilter,
)
    requires
        0 <= i < records.len(),
        records[i].country == Some(StringFilter::Wildcard),
        proxy_eligible(ctx, (ProxyFilter { country: None, ..f }), records[i]),
    ensures
        proxy_eligible(ctx, f, records[i]),
        candidates(records, ctx, f).contains(records[i]),
{
}

/// Whatever is selected offers the transport the request needs: UDP and
/// SOCKS5 for HTTP/3, TCP for every other version.
pub proof fn lemma_protocol_constraint(
    records: Seq<Proxy>,
    ctx: RequestContext,
    f: ProxyFilter,
    verdict: spec_fn(Proxy, bool) -> bool,
    p: Proxy,
)
    ensures
        admissible(records, ctx, f, Ok(p)) ==> protocol_ok(ctx, p),
        admissible_if(records, ctx, f, verdict, Ok(p)) ==> protocol_ok(ctx, p),
{
    let c = candidates(records, ctx, f);
    if f.id is None && c.contains(p) {
        let k = choose|k: int| 0 <= k < c.len() && c[k] == p;
        assert(proxy_eligible(ctx, f, c[k]));
    }
}

/// Every candidate is reached by some random number: the number equal to its
/// position among the candidates selects it.
pub proof fn lemma_every_candidate_reachable(
    records: Seq<Proxy>,
    ctx: RequestContext,
    f: ProxyFilter,
    k: int,
)
    requires
        records.len() <= usize::MAX,
        f.id is None,
        0 <= k < candidates(records, ctx, f).len(),
    ensures
        drawn_outcome(records, ctx, f, k as u64) == Ok::<Proxy, MemoryProxyDBQueryErrorKind>(
            candidates(records, ctx, f)[k],
        ),
{
    let c = candidates(records, ctx, f);
    assert(c.len() <= records.len());
    assert((k as u64) as int == k);
    assert(k % (c.len() as int) == k) by (nonlinear_arith)
        requires
            0 <= k < c.len(),
    ;
}

/// A predicate that accepts nothing leaves nothing to select: without an id
/// the selection gives `NotFound`, however many records meet the filter.
pub proof fn lemma_rejecting_predicate(
    records: Seq<Proxy>,
    ctx: RequestContext,
    f: ProxyFilter,
    verdict: spec_fn(Proxy, bool) -> bool,
    r: Result<Proxy, MemoryProxyDBQueryErrorKind>,
)
    requires
        f.id is None,
        forall|p: Proxy| !#[trigger] verdict(p, true),
        admissible_if(records, ctx, f, verdict, r),
    ensures
        r == Err::<Proxy, MemoryProxyDBQueryErrorKind>(MemoryProxyDBQueryErrorKind::NotFound),
{
}

/// Parsing the text of bearer credentials gives back the same token, for
/// every token.
pub proof fn lemma_bearer_round_trip(token: Seq<char>)
    ensures
        parse_credentials(credentials_text(CredentialsView::Bearer(token))) == Some(
            CredentialsView::Bearer(token),
        ),
{
    reveal_strlit("Bearer ");
    reveal_strlit("Bearer");
    reveal_strlit("Basic");
    let s = credentials_text(CredentialsView::Bearer(token));
    assert(s == "Bearer "@ + token);
    assert(is_first_pos(s, ' ', 6));
    let i = choose|i: int| is_first_pos(s, ' ', i);
    assert(i == 6);
    assert(s.take(6) =~= "Bearer"@);
    assert(s.skip(7) =~= token);
    assert("Bearer"@.len() != "Basic"@.len());
}

/// A text without a space names no scheme and parameter, so it never parses
/// as credentials.
pub proof fn lemma_no_space_never_parses(s: Seq<char>)
    requires
        !s.contains(' '),
    ensures
        parse_credentials(s) is None,
{
    assert forall|i: int| !is_first_pos(s, ' ', i) by {
        if 0 <= i < s.len() && s[i] == ' ' {
            assert(s.contains(' '));
        }
    }
    assert(split_once(s, ' ') is None);
}

} // verus!
