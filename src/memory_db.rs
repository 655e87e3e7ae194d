use std::hash::BuildHasher;
use vstd::hash_map::StringHashMap;
use vstd::prelude::*;

use crate::context::RequestContext;
use crate::proxy::{filter_query, proxy_eligible, query_accepts, Proxy, ProxyFilter, ProxyQuery};

verus! {

/// The kind of error that a [`MemoryProxyDBQueryError`] represents.
#[derive(Debug, Clone, Copy, PartialEq, Eq, Structural)]
pub enum MemoryProxyDBQueryErrorKind {
    /// No proxy match could be found.
    NotFound,
    /// The proxy looked up by id did not meet the filter or the request's needs.
    Mismatch,
}

/// The error returned when no proxy could be selected.
#[derive(Debug)]
pub struct MemoryProxyDBQueryError {
    kind: MemoryProxyDBQueryErrorKind,
}

impl View for MemoryProxyDBQueryError {
    type V = MemoryProxyDBQueryErrorKind;

    closed spec fn view(&self) -> MemoryProxyDBQueryErrorKind {
        self.kind
    }
}

impl MemoryProxyDBQueryError {
    fn not_found() -> (r: MemoryProxyDBQueryError)
        ensures
            r@ == MemoryProxyDBQueryErrorKind::NotFound,
    {
        MemoryProxyDBQueryError { kind: MemoryProxyDBQueryErrorKind::NotFound }
    }

    fn mismatch() -> (r: MemoryProxyDBQueryError)
        ensures
            r@ == MemoryProxyDBQueryErrorKind::Mismatch,
    {
        MemoryProxyDBQueryError { kind: MemoryProxyDBQueryErrorKind::Mismatch }
    }

    /// The kind of error.
    pub fn kind(&self) -> (r: MemoryProxyDBQueryErrorKind)
        ensures
            r == self@,
    {
        self.kind
    }

    /// A human readable description of the error.
    pub fn message(&self) -> (r: &'static str) {
        match self.kind {
            MemoryProxyDBQueryErrorKind::NotFound => "No proxy match could be found",
            MemoryProxyDBQueryErrorKind::Mismatch => "Proxy config did not match the given filters/requirements",
        }
    }
}

/// The kind of error that a [`MemoryProxyDBInsertError`] represents.
#[derive(Debug, Clone, Copy, PartialEq, Eq, Structural)]
pub enum MemoryProxyDBInsertErrorKind {
    /// Two proxies of the batch share an id.
    DuplicateKey,
    /// A proxy of the batch is invalid; reserved, not produced yet.
    InvalidProxy,
}

/// The error returned when a batch of proxies cannot make a store; it hands
/// the whole batch back.
#[derive(Debug)]
pub struct MemoryProxyDBInsertError {
    kind: MemoryProxyDBInsertErrorKind,
    proxies: Vec<Proxy>,
}

impl View for MemoryProxyDBInsertError {
    type V = (MemoryProxyDBInsertErrorKind, Seq<Proxy>);

    closed spec fn view(&self) -> (MemoryProxyDBInsertErrorKind, Seq<Proxy>) {
        (self.kind, self.proxies@)
    }
}

impl MemoryProxyDBInsertError {
    fn duplicate_key(proxies: Vec<Proxy>) -> (r: MemoryProxyDBInsertError)
        ensures
            r@ == (MemoryProxyDBInsertErrorKind::DuplicateKey, proxies@),
    {
        MemoryProxyDBInsertError { kind: MemoryProxyDBInsertErrorKind::DuplicateKey, proxies }
    }

    /// The kind of error.
    pub fn kind(&self) -> (r: MemoryProxyDBInsertErrorKind)
        ensures
            r == self@.0,
    {
        self.kind
    }

    /// The proxies that were not inserted.
    pub fn proxies(&self) -> (r: &[Proxy])
        ensures
            r@ == self@.1,
    {
        self.proxies.as_slice()
    }

    /// Consumes the error into the proxies that were not inserted.
    pub fn into_proxies(self) -> (r: Vec<Proxy>)
        ensures
            r@ == self@.1,
    {
        self.proxies
    }

    /// A human readable description of the error.
    pub fn message(&self) -> (r: &'static str) {
        match self.kind {
            MemoryProxyDBInsertErrorKind::DuplicateKey => "A proxy with the same key already exists in the database",
            MemoryProxyDBInsertErrorKind::InvalidProxy => "A proxy in the list is invalid for some reason",
        }
    }
}

/// No two records share an id.
pub open spec fn ids_unique(records: Seq<Proxy>) -> bool {
    forall|i: int, j: int| 0 <= i < j < records.len() ==> records[i].id@ != records[j].id@
}

/// The records that meet every constraint of the query, in store order.
pub open spec fn query_candidates(records: Seq<Proxy>, q: ProxyQuery) -> Seq<Proxy> {
    records.filter(|p: Proxy| query_accepts(q, p))
}

/// The records eligible for a context and a filter's attribute and flag fields.
pub open spec fn candidates(records: Seq<Proxy>, ctx: RequestContext, f: ProxyFilter) -> Seq<Proxy> {
    query_candidates(records, filter_query(ctx, f))
}

/// Some record has this id.
pub open spec fn has_id(records: Seq<Proxy>, id: Seq<char>) -> bool {
    exists|i: int| 0 <= i < records.len() && records[i].id@ == id
}

/// The record with this id, if any.
pub open spec fn record_with_id(records: Seq<Proxy>, id: Seq<char>) -> Option<Proxy> {
    if has_id(records, id) {
        Some(records[choose|i: int| 0 <= i < records.len() && records[i].id@ == id])
    } else {
        None
    }
}

/// The outcome of a lookup that pins an id.
pub open spec fn identity_outcome(
    records: Seq<Proxy>,
    ctx: RequestContext,
    f: ProxyFilter,
    id: Seq<char>,
) -> Result<Proxy, MemoryProxyDBQueryErrorKind> {
    match record_with_id(records, id) {
        None => Err(MemoryProxyDBQueryErrorKind::NotFound),
        Some(p) => if proxy_eligible(ctx, f, p) {
            Ok(p)
        } else {
            Err(MemoryProxyDBQueryErrorKind::Mismatch)
        },
    }
}

/// The outcome of a selection, given the random number `draw` that picks among
/// the candidates.
pub open spec fn drawn_outcome(
    records: Seq<Proxy>,
    ctx: RequestContext,
    f: ProxyFilter,
    draw: u64,
) -> Result<Proxy, MemoryProxyDBQueryErrorKind> {
    match f.id {
        Some(id) => identity_outcome(records, ctx, f, id@),
        None => {
            let c = candidates(records, ctx, f);
            if c.len() == 0 {
                Err(MemoryProxyDBQueryErrorKind::NotFound)
            } else {
                Ok(c[(draw as int) % (c.len() as int)])
            }
        },
    }
}

/// What a selection may return, whichever candidate chance picks.
pub open spec fn admissible(
    records: Seq<Proxy>,
    ctx: RequestContext,
    f: ProxyFilter,
    r: Result<Proxy, MemoryProxyDBQueryErrorKind>,
) -> bool {
    match f.id {
        Some(id) => r == identity_outcome(records, ctx, f, id@),
        None => {
            let c = candidates(records, ctx, f);
            match r {
                Ok(p) => c.contains(p),
                Err(k) => k == MemoryProxyDBQueryErrorKind::NotFound && c.len() == 0,
            }
        },
    }
}

/// What a selection narrowed by a predicate may return; `verdict(p, b)` holds
/// when the predicate may answer `b` for `p`.
pub open spec fn admissible_if(
    records: Seq<Proxy>,
    ctx: RequestContext,
    f: ProxyFilter,
    verdict: spec_fn(Proxy, bool) -> bool,
    r: Result<Proxy, MemoryProxyDBQueryErrorKind>,
) -> bool {
    match f.id {
        Some(id) => match record_with_id(records, id@) {
            None => r == Err::<Proxy, MemoryProxyDBQueryErrorKind>(
                MemoryProxyDBQueryErrorKind::NotFound,
            ),
            Some(p) => match r {
                Ok(q) => q == p && proxy_eligible(ctx, f, p) && verdict(p, true),
                Err(k) => k == MemoryProxyDBQueryErrorKind::Mismatch && (!proxy_eligible(ctx, f, p)
                    || verdict(p, false)),
            },
        },
        None => {
            let c = candidates(records, ctx, f);
            match r {
                Ok(p) => c.contains(p) && verdict(p, true),
                Err(k) => k == MemoryProxyDBQueryErrorKind::NotFound && forall|i: int|
                    0 <= i < c.len() ==> verdict(#[trigger] c[i], false),
            }
        },
    }
}

/// The error kind of a selection result.
pub open spec fn outcome_of(r: Result<Proxy, MemoryProxyDBQueryError>) -> Result<
    Proxy,
    MemoryProxyDBQueryErrorKind,
> {
    match r {
        Ok(p) => Ok(p),
        Err(e) => Err(e@),
    }
}

/// Relies on std's `RandomState::new`, documented to be initialized with
/// random keys, and `BuildHasher::hash_one`: hashing a fixed value under fresh
/// keys gives a pseudo-random number. Nothing is promised of the number.
#[verifier::external_body]
fn random_draw() -> (r: u64) {
    std::collections::hash_map::RandomState::new().hash_one(0u8)
}

proof fn lemma_filter_step(s: Seq<Proxy>, q: ProxyQuery, i: int)
    requires
        0 <= i < s.len(),
    ensures
        query_candidates(s.take(i + 1), q) == if query_accepts(q, s[i]) {
            query_candidates(s.take(i), q).push(s[i])
        } else {
            query_candidates(s.take(i), q)
        },
{
    reveal(Seq::filter);
    assert(s.take(i + 1).drop_last() =~= s.take(i));
}

/// The candidate at `draw` modulo the number of candidates, if there is any.
fn pick(cands: &Vec<Proxy>, draw: u64) -> (r: Option<Proxy>)
    ensures
        cands@.len() == 0 ==> r is None,
        cands@.len() > 0 ==> r == Some(cands@[(draw as int) % (cands@.len() as int)]),
{
    let n = cands.len();
    if n == 0 {
        None
    } else {
        let k = (draw % (n as u64)) as usize;
        Some(cands[k].clone())
    }
}

/// The candidates for which the predicate answers `true`.
fn narrow<F: Fn(&Proxy) -> bool>(cands: &Vec<Proxy>, predicate: &F) -> (r: Vec<Proxy>)
    requires
        forall|p: &Proxy| predicate.requires((p,)),
    ensures
        forall|k: int| 0 <= k < r@.len() ==> cands@.contains(#[trigger] r@[k]) && predicate.ensures((&r@[k],), true),
        r@.len() == 0 ==> forall|k: int| 0 <= k < cands@.len() ==> predicate.ensures((&cands@[k],), false),
{
    let mut out: Vec<Proxy> = Vec::new();
    let n = cands.len();
    let mut i: usize = 0;
    while i < n
        invariant
            n == cands@.len(),
            i <= n,
            forall|p: &Proxy| predicate.requires((p,)),
            forall|k: int| 0 <= k < out@.len() ==> cands@.contains(#[trigger] out@[k]) && predicate.ensures((&out@[k],), true),
            out@.len() == 0 ==> forall|k: int| 0 <= k < i ==> predicate.ensures((&cands@[k],), false),
        decreases n - i,
    {
        let p = &cands[i];
        if predicate(p) {
            let c = p.clone();
            assert(cands@.contains(c)) by {
                assert(cands@[i as int] == c);
            }
            out.push(c);
        }
        i = i + 1;
    }
    out
}

/// The interface of a proxy database: select a proxy for a request context
/// and a filter, optionally narrowed further by a predicate.
pub trait ProxyDB {
    /// The error returned when no proxy can be selected.
    type Error;

    /// Selects a proxy for the context and the filter.
    fn get_proxy(&self, ctx: RequestContext, filter: ProxyFilter) -> Result<Proxy, Self::Error>;

    /// Selects a proxy for the context and the filter that the predicate also accepts.
    fn get_proxy_if<F: Fn(&Proxy) -> bool>(
        &self,
        ctx: RequestContext,
        filter: ProxyFilter,
        predicate: F,
    ) -> Result<Proxy, Self::Error>
        requires
            forall|p: &Proxy| predicate.requires((p,)),
    ;
}

/// The index maps each record's id to its position among the records.
pub open spec fn indexes(index: Map<Seq<char>, usize>, records: Seq<Proxy>) -> bool {
    &&& forall|k: Seq<char>| #[trigger]
        index.contains_key(k) ==> index[k] < records.len() && records[index[k] as int].id@ == k
    &&& forall|i: int| 0 <= i < records.len() ==> index.contains_key(#[trigger] records[i].id@)
}

/// A fast in-memory proxy database: an immutable set of records with unique
/// ids, indexed by id.
pub struct MemoryProxyDB {
    data: Vec<Proxy>,
    index: StringHashMap<usize>,
}

impl View for MemoryProxyDB {
    type V = Seq<Proxy>;

    closed spec fn view(&self) -> Seq<Proxy> {
        self.data@
    }
}

/// The index of a batch of records, or `None` when two of them share an id.
fn build_index(records: &Vec<Proxy>) -> (r: Option<StringHashMap<usize>>)
    ensures
        r is Some <==> ids_unique(records@),
        r matches Some(index) ==> indexes(index@, records@),
{
    let n = records.len();
    let mut index: StringHashMap<usize> = StringHashMap::new();
    let mut i: usize = 0;
    while i < n
        invariant
            n == records@.len(),
            i <= n,
            forall|a: int, b: int| 0 <= a < b < i ==> records@[a].id@ != records@[b].id@,
            forall|k: Seq<char>| #[trigger]
                index@.contains_key(k) ==> index@[k] < i && records@[index@[k] as int].id@ == k,
            forall|j: int| 0 <= j < i ==> index@.contains_key(#[trigger] records@[j].id@),
        decreases n - i,
    {
        let id = &records[i].id;
        if index.contains_key(id.as_str()) {
            proof {
                let j = index@[id@] as int;
                assert(records@[j].id@ == records@[i as int].id@);
            }
            return None;
        }
        let ghost before = index@;
        index.insert(id.clone(), i);
        proof {
            assert forall|a: int, b: int| 0 <= a < b < i + 1 implies records@[a].id@
                != records@[b].id@ by {
                if b == i as int {
                    assert(before.contains_key(records@[a].id@));
                }
            }
        }
        i = i + 1;
    }
    Some(index)
}

impl MemoryProxyDB {
    #[verifier::type_invariant]
    spec fn inv(&self) -> bool {
        &&& ids_unique(self.data@)
        &&& indexes(self.index@, self.data@)
    }

    /// Creates a store from a batch of records; a batch with a duplicate id is
    /// refused as a whole and handed back in the error.
    pub fn try_from_rows(proxies: Vec<Proxy>) -> (r: Result<MemoryProxyDB, MemoryProxyDBInsertError>)
        ensures
            r is Ok <==> ids_unique(proxies@),
            r matches Ok(db) ==> db@ == proxies@ && ids_unique(db@),
            r matches Err(e) ==> e@ == (MemoryProxyDBInsertErrorKind::DuplicateKey, proxies@),
    {
        match build_index(&proxies) {
            Some(index) => Ok(MemoryProxyDB { data: proxies, index }),
            None => Err(MemoryProxyDBInsertError::duplicate_key(proxies)),
        }
    }

    /// The number of records.
    pub fn len(&self) -> (r: usize)
        ensures
            r == self@.len(),
    {
        self.data.len()
    }

    /// Whether the store holds no record.
    pub fn is_empty(&self) -> (r: bool)
        ensures
            r == (self@.len() == 0),
    {
        self.data.len() == 0
    }

    /// The record with the given id, if any.
    pub fn get_by_id(&self, id: &String) -> (r: Option<&Proxy>)
        ensures
            match record_with_id(self@, id@) {
                Some(p) => r matches Some(q) && *q == p,
                None => r is None,
            },
    {
        proof {
            use_type_invariant(self);
        }
        match self.index.get(id.as_str()) {
            Some(k) => {
                let k = *k;
                proof {
                    assert(has_id(self.data@, id@));
                    let c = choose|c: int| 0 <= c < self.data@.len() && self.data@[c].id@ == id@;
                    if c < k as int {
                        assert(self.data@[c].id@ != self.data@[k as int].id@);
                    } else if c > k as int {
                        assert(self.data@[k as int].id@ != self.data@[c].id@);
                    }
                }
                Some(&self.data[k])
            },
            None => {
                proof {
                    if has_id(self.data@, id@) {
                        let c = choose|c: int| 0 <= c < self.data@.len() && self.data@[c].id@ == id@;
                        assert(self.index@.contains_key(self.data@[c].id@));
                    }
                }
                None
            },
        }
    }

    /// The records that meet every constraint of the query, in store order.
    pub fn query(&self, q: &ProxyQuery) -> (r: Vec<Proxy>)
        ensures
            r@ == query_candidates(self@, *q),
    {
        let n = self.data.len();
        let mut out: Vec<Proxy> = Vec::new();
        let mut i: usize = 0;
        proof {
            reveal(Seq::filter);
            assert(self.data@.take(0) =~= Seq::<Proxy>::empty());
        }
        while i < n
            invariant
                n == self.data@.len(),
                i <= n,
                out@ == query_candidates(self.data@.take(i as int), *q),
            decreases n - i,
        {
            proof {
                lemma_filter_step(self.data@, *q, i as int);
            }
            if q.matches(&self.data[i]) {
                out.push(self.data[i].clone());
            }
            i = i + 1;
        }
        assert(self.data@.take(n as int) =~= self.data@);
        out
    }

    /// Selects with a given random number: the record of the filter's id if it
    /// is eligible, else the candidate at `draw` modulo the number of candidates.
    pub fn get_proxy_drawn(&self, ctx: &RequestContext, filter: &ProxyFilter, draw: u64) -> (r: Result<
        Proxy,
        MemoryProxyDBQueryError,
    >)
        ensures
            outcome_of(r) == drawn_outcome(self@, *ctx, *filter, draw),
    {
        match &filter.id {
            Some(id) => match self.get_by_id(id) {
                None => Err(MemoryProxyDBQueryError::not_found()),
                Some(proxy) => if proxy.is_match(ctx, filter) {
                    Ok(proxy.clone())
                } else {
                    Err(MemoryProxyDBQueryError::mismatch())
                },
            },
            None => {
                let q = ProxyQuery::from_filter(ctx, filter);
                let cands = self.query(&q);
                match pick(&cands, draw) {
                    Some(p) => Ok(p),
                    None => Err(MemoryProxyDBQueryError::not_found()),
                }
            },
        }
    }
}

impl ProxyDB for MemoryProxyDB {
    type Error = MemoryProxyDBQueryError;

    /// Selects a proxy: by id when the filter has one (`NotFound` when absent,
    /// `Mismatch` when not eligible), else a random candidate (`NotFound` when
    /// there is none).
    fn get_proxy(&self, ctx: RequestContext, filter: ProxyFilter) -> (r: Result<
        Proxy,
        MemoryProxyDBQueryError,
    >)
        ensures
            admissible(self@, ctx, filter, outcome_of(r)),
    {
        let draw = random_draw();
        let r = self.get_proxy_drawn(&ctx, &filter, draw);
        proof {
            lemma_drawn_is_admissible(self@, ctx, filter, draw);
        }
        r
    }

    /// As `get_proxy`, with the predicate as a further condition: on the id
    /// path the record must also be accepted, else `Mismatch`; otherwise the
    /// predicate narrows the candidates before the random pick.
    fn get_proxy_if<F: Fn(&Proxy) -> bool>(
        &self,
        ctx: RequestContext,
        filter: ProxyFilter,
        predicate: F,
    ) -> (r: Result<Proxy, MemoryProxyDBQueryError>)
        ensures
            admissible_if(
                self@,
                ctx,
                filter,
                |p: Proxy, b: bool| predicate.ensures((&p,), b),
                outcome_of(r),
            ),
    {
        match &filter.id {
            Some(id) => match self.get_by_id(id) {
                None => Err(MemoryProxyDBQueryError::not_found()),
                Some(proxy) => {
                    if proxy.is_match(&ctx, &filter) {
                        let accepted = predicate(proxy);
                        if accepted {
                            Ok(proxy.clone())
                        } else {
                            Err(MemoryProxyDBQueryError::mismatch())
                        }
                    } else {
                        Err(MemoryProxyDBQueryError::mismatch())
                    }
                },
            },
            None => {
                let q = ProxyQuery::from_filter(&ctx, &filter);
                let cands = self.query(&q);
                let accepted = narrow(&cands, &predicate);
                let draw = random_draw();
                match pick(&accepted, draw) {
                    Some(p) => {
                        proof {
                            let k = (draw as int) % (accepted@.len() as int);
                            assert(cands@.contains(accepted@[k]));
                        }
                        Ok(p)
                    },
                    None => {
                        proof {
                            assert forall|i: int| 0 <= i < cands@.len() implies predicate.ensures(
                                (&cands@[i],),
                                false,
                            ) by {}
                        }
                        Err(MemoryProxyDBQueryError::not_found())
                    },
                }
            },
        }
    }
}

/// A selection made with any given random number is one that the random
/// selection may return.
pub proof fn lemma_drawn_is_admissible(
    records: Seq<Proxy>,
    ctx: RequestContext,
    f: ProxyFilter,
    draw: u64,
)
    ensures
        admissible(records, ctx, f, drawn_outcome(records, ctx, f, draw)),
{
    let c = candidates(records, ctx, f);
    if f.id is None && c.len() > 0 {
        let k = (draw as int) % (c.len() as int);
        assert(c.contains(c[k]));
    }
}

} // verus!
