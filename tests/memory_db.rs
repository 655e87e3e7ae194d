use proxydb::{
    MemoryProxyDB, MemoryProxyDBInsertErrorKind, MemoryProxyDBQueryErrorKind, Proxy,
    ProxyCredentials, ProxyDB, ProxyFilter, ProxyQuery, RequestContext, Scheme, StringFilter,
    Version,
};

const H2_IDS: &str = "1043547900,1333564166,1393984890,1549558402,1629940602,17693162,2012271852,2339597854,2436687663,2503805829,2503885092,260229916,2692540368,295238804,2998884635,3012515011,3400641131,35672966,3813409672,3904077149,3916451868,393695089,4064485987,4076081397,4077606290,4157991939,838438595,878701584,913889340,915185154";
const H3_IDS: &str = "1333564166,2012271852,2432027317,2503805829,2800824798,2862707252,2865590509,3012515011,3439682932,3813409672,3904077149,4064485987,777999237,878701584";
const ANY_COUNTRY_IDS: &str = "2012271852,2436687663,2503885092,260229916,35672966";

fn exact(s: &str) -> Option<StringFilter> {
    Some(StringFilter::new(s))
}

fn plain_proxy(id: &str, n: usize) -> Proxy {
    let countries = ["US", "FR", "DE", "AU", "NL"];
    Proxy {
        id: id.to_owned(),
        tcp: false,
        udp: false,
        socks5: false,
        datacenter: n % 3 == 0,
        residential: n % 3 == 1,
        mobile: n % 3 == 2,
        pool_id: if n % 2 == 0 { exact("poolA") } else { exact("poolB") },
        country: exact(countries[n % countries.len()]),
        city: None,
        carrier: None,
        credentials: if n % 4 == 0 {
            Some(ProxyCredentials::Basic {
                username: format!("user{}", n),
                password: Some("secret".to_owned()),
            })
        } else {
            None
        },
    }
}

/// Sixty-four records: thirty that offer TCP, fourteen that offer UDP over
/// SOCKS5 (eight of them both), and twenty-eight that offer neither.
fn rows() -> Vec<Proxy> {
    let h2: Vec<&str> = H2_IDS.split(',').collect();
    let h3: Vec<&str> = H3_IDS.split(',').collect();
    let any: Vec<&str> = ANY_COUNTRY_IDS.split(',').collect();
    let mut ids: Vec<String> = Vec::new();
    for id in h2.iter().chain(h3.iter()) {
        if !ids.iter().any(|x| x == id) {
            ids.push(id.to_string());
        }
    }
    let mut n = 0;
    while ids.len() < 64 {
        ids.push(format!("50000{}", n));
        n += 1;
    }
    let mut rows = Vec::new();
    for (n, id) in ids.iter().enumerate() {
        let mut p = plain_proxy(id, n);
        p.tcp = h2.contains(&id.as_str());
        p.udp = true;
        p.socks5 = h3.contains(&id.as_str());
        if any.contains(&id.as_str()) {
            p.country = Some(StringFilter::wildcard());
        }
        if id == "2012271852" {
            p.mobile = true;
            p.residential = true;
        }
        if id == "1549558402" {
            p.udp = false;
            p.socks5 = false;
            p.pool_id = exact("poolA");
            p.country = exact("AU");
            p.city = exact("Adelaide");
            p.carrier = exact("AT&T");
            p.datacenter = false;
            p.residential = false;
            p.mobile = true;
        }
        rows.push(p);
    }
    rows
}

fn memproxydb() -> MemoryProxyDB {
    MemoryProxyDB::try_from_rows(rows()).unwrap()
}

fn h2_req_context() -> RequestContext {
    RequestContext {
        http_version: Version::HTTP_2,
        scheme: Scheme::Https,
        host: Some("example.com".to_owned()),
        port: None,
    }
}

fn h3_req_context() -> RequestContext {
    RequestContext {
        http_version: Version::HTTP_3,
        scheme: Scheme::Https,
        host: Some("example.com".to_owned()),
        port: Some(8443),
    }
}

fn sorted_join(mut ids: Vec<String>) -> String {
    ids.sort();
    ids.join(",")
}

#[test]
fn test_load_memproxydb_from_rows() {
    let db = memproxydb();
    assert_eq!(db.len(), 64);
    assert!(!db.is_empty());
}

#[test]
fn test_memproxydb_get_proxy_by_id_found() {
    let db = memproxydb();
    let ctx = h2_req_context();
    let filter = ProxyFilter {
        id: Some("1549558402".to_owned()),
        ..Default::default()
    };
    let proxy = db.get_proxy(ctx, filter).unwrap();
    assert_eq!(proxy.id, "1549558402");
}

#[test]
fn test_memproxydb_get_proxy_by_id_found_correct_filters() {
    let db = memproxydb();
    let ctx = h2_req_context();
    let filter = ProxyFilter {
        id: Some("1549558402".to_owned()),
        pool_id: Some(StringFilter::new("poolA")),
        country: Some(StringFilter::new("AU")),
        city: Some(StringFilter::new("Adelaide")),
        datacenter: Some(false),
        residential: Some(false),
        mobile: Some(true),
        carrier: Some(StringFilter::new("AT&T")),
    };
    let proxy = db.get_proxy(ctx, filter).unwrap();
    assert_eq!(proxy.id, "1549558402");
}

#[test]
fn test_memproxydb_get_proxy_by_id_not_found() {
    let db = memproxydb();
    let ctx = h2_req_context();
    let filter = ProxyFilter {
        id: Some("notfound".to_owned()),
        ..Default::default()
    };
    let err = db.get_proxy(ctx, filter).unwrap_err();
    assert_eq!(err.kind(), MemoryProxyDBQueryErrorKind::NotFound);
}

#[test]
fn test_memproxydb_get_proxy_by_id_mismatch_filter() {
    let db = memproxydb();
    let ctx = h2_req_context();
    let filters = [
        ProxyFilter {
            id: Some("1549558402".to_owned()),
            pool_id: Some(StringFilter::new("poolB")),
            ..Default::default()
        },
        ProxyFilter {
            id: Some("1549558402".to_owned()),
            country: Some(StringFilter::new("US")),
            ..Default::default()
        },
        ProxyFilter {
            id: Some("1549558402".to_owned()),
            city: Some(StringFilter::new("New York")),
            ..Default::default()
        },
        ProxyFilter {
            id: Some("1549558402".to_owned()),
            datacenter: Some(true),
            ..Default::default()
        },
        ProxyFilter {
            id: Some("1549558402".to_owned()),
            residential: Some(true),
            ..Default::default()
        },
        ProxyFilter {
            id: Some("1549558402".to_owned()),
            mobile: Some(false),
            ..Default::default()
        },
        ProxyFilter {
            id: Some("1549558402".to_owned()),
            carrier: Some(StringFilter::new("Verizon")),
            ..Default::default()
        },
    ];
    for filter in filters.iter() {
        let err = db.get_proxy(ctx.clone(), filter.clone()).unwrap_err();
        assert_eq!(err.kind(), MemoryProxyDBQueryErrorKind::Mismatch);
    }
}

#[test]
fn test_memproxydb_get_proxy_by_id_mismatch_req_context() {
    let db = memproxydb();
    let ctx = h3_req_context();
    let filter = ProxyFilter {
        id: Some("1549558402".to_owned()),
        ..Default::default()
    };
    // this proxy does not support socks5 UDP, which is what we need
    let err = db.get_proxy(ctx, filter).unwrap_err();
    assert_eq!(err.kind(), MemoryProxyDBQueryErrorKind::Mismatch);
}

#[test]
fn test_memorydb_get_h3_capable_proxies() {
    let db = memproxydb();
    let ctx = h3_req_context();
    let filter = ProxyFilter::default();
    let mut found_ids = Vec::new();
    for _ in 0..5000 {
        let proxy = db.get_proxy(ctx.clone(), filter.clone()).unwrap();
        if found_ids.contains(&proxy.id) {
            continue;
        }
        assert!(proxy.udp);
        assert!(proxy.socks5);
        found_ids.push(proxy.id);
    }
    assert_eq!(found_ids.len(), 14);
    assert_eq!(
        sorted_join(found_ids),
        "1333564166,2012271852,2432027317,2503805829,2800824798,2862707252,2865590509,3012515011,3439682932,3813409672,3904077149,4064485987,777999237,878701584"
    );
}

#[test]
fn test_memorydb_get_h2_capable_proxies() {
    let db = memproxydb();
    let ctx = h2_req_context();
    let filter = ProxyFilter::default();
    let mut found_ids = Vec::new();
    for _ in 0..5000 {
        let proxy = db.get_proxy(ctx.clone(), filter.clone()).unwrap();
        if found_ids.contains(&proxy.id) {
            continue;
        }
        assert!(proxy.tcp);
        found_ids.push(proxy.id);
    }
    assert_eq!(found_ids.len(), 30);
    assert_eq!(
        sorted_join(found_ids),
        "1043547900,1333564166,1393984890,1549558402,1629940602,17693162,2012271852,2339597854,2436687663,2503805829,2503885092,260229916,2692540368,295238804,2998884635,3012515011,3400641131,35672966,3813409672,3904077149,3916451868,393695089,4064485987,4076081397,4077606290,4157991939,838438595,878701584,913889340,915185154",
    );
}

#[test]
fn test_memorydb_get_any_country_proxies() {
    let db = memproxydb();
    let ctx = h2_req_context();
    let filter = ProxyFilter {
        // there are no explicit BE proxies,
        // so these will only match the proxies that have a wildcard country
        country: Some("BE".into()),
        ..Default::default()
    };
    let mut found_ids = Vec::new();
    for _ in 0..5000 {
        let proxy = db.get_proxy(ctx.clone(), filter.clone()).unwrap();
        if found_ids.contains(&proxy.id) {
            continue;
        }
        found_ids.push(proxy.id);
    }
    assert_eq!(found_ids.len(), 5);
    assert_eq!(
        sorted_join(found_ids),
        "2012271852,2436687663,2503885092,260229916,35672966",
    );
}

#[test]
fn test_memorydb_get_h3_capable_mobile_residential_be_asterix_proxies() {
    let db = memproxydb();
    let ctx = h3_req_context();
    let filter = ProxyFilter {
        country: Some("BE".into()),
        mobile: Some(true),
        residential: Some(true),
        ..Default::default()
    };
    for _ in 0..50 {
        let proxy = db.get_proxy(ctx.clone(), filter.clone()).unwrap();
        assert_eq!(proxy.id, "2012271852");
    }
}

#[test]
fn duplicate_ids_refuse_the_whole_batch() {
    let mut batch = rows();
    let mut dup = plain_proxy("1549558402", 7);
    dup.tcp = true;
    batch.push(dup);
    let expected = batch.clone();
    let err = match MemoryProxyDB::try_from_rows(batch) {
        Ok(_) => panic!("a batch with a duplicate id was accepted"),
        Err(err) => err,
    };
    assert_eq!(err.kind(), MemoryProxyDBInsertErrorKind::DuplicateKey);
    assert_eq!(err.proxies(), expected.as_slice());
    assert_eq!(err.into_proxies(), expected);
}

#[test]
fn empty_store_finds_nothing() {
    let db = MemoryProxyDB::try_from_rows(Vec::new()).unwrap();
    assert!(db.is_empty());
    assert_eq!(db.len(), 0);
    let err = db.get_proxy(h2_req_context(), ProxyFilter::default()).unwrap_err();
    assert_eq!(err.kind(), MemoryProxyDBQueryErrorKind::NotFound);
}

#[test]
fn unmatched_filter_without_id_is_not_found() {
    let db = memproxydb();
    let filter = ProxyFilter {
        country: Some(StringFilter::new("BE")),
        residential: Some(false),
        ..Default::default()
    };
    let err = db.get_proxy(h3_req_context(), filter).unwrap_err();
    assert_eq!(err.kind(), MemoryProxyDBQueryErrorKind::NotFound);
}

#[test]
fn rejecting_predicate_yields_not_found() {
    let db = memproxydb();
    let err = db
        .get_proxy_if(h2_req_context(), ProxyFilter::default(), |_: &Proxy| false)
        .unwrap_err();
    assert_eq!(err.kind(), MemoryProxyDBQueryErrorKind::NotFound);
}

#[test]
fn predicate_narrows_candidates() {
    let db = memproxydb();
    for _ in 0..200 {
        let proxy = db
            .get_proxy_if(h2_req_context(), ProxyFilter::default(), |p: &Proxy| {
                p.country == Some(StringFilter::wildcard())
            })
            .unwrap();
        assert!(ANY_COUNTRY_IDS.split(',').any(|id| id == proxy.id));
    }
}

#[test]
fn predicate_on_id_path_gives_mismatch() {
    let db = memproxydb();
    let filter = ProxyFilter {
        id: Some("1549558402".to_owned()),
        ..Default::default()
    };
    let err = db
        .get_proxy_if(h2_req_context(), filter.clone(), |_: &Proxy| false)
        .unwrap_err();
    assert_eq!(err.kind(), MemoryProxyDBQueryErrorKind::Mismatch);
    let proxy = db
        .get_proxy_if(h2_req_context(), filter, |_: &Proxy| true)
        .unwrap();
    assert_eq!(proxy.id, "1549558402");
    let missing = ProxyFilter {
        id: Some("nope".to_owned()),
        ..Default::default()
    };
    let err = db
        .get_proxy_if(h2_req_context(), missing, |_: &Proxy| true)
        .unwrap_err();
    assert_eq!(err.kind(), MemoryProxyDBQueryErrorKind::NotFound);
}

#[test]
fn drawn_selection_picks_by_position() {
    let db = memproxydb();
    let ctx = h3_req_context();
    let filter = ProxyFilter::default();
    let query = ProxyQuery::from_filter(&ctx, &filter);
    let cands = db.query(&query);
    assert_eq!(cands.len(), 14);
    for k in 0..14u64 {
        let p = db.get_proxy_drawn(&ctx, &filter, k).unwrap();
        assert_eq!(p, cands[k as usize]);
        let q = db.get_proxy_drawn(&ctx, &filter, k + 14).unwrap();
        assert_eq!(q, cands[k as usize]);
    }
}

#[test]
fn carrier_constrains_the_query_path() {
    let db = memproxydb();
    let filter = ProxyFilter {
        carrier: Some(StringFilter::new("AT&T")),
        city: Some(StringFilter::new("Adelaide")),
        ..Default::default()
    };
    // records without city or carrier accept any value; the one with
    // both set accepts only its own
    let proxy = db.get_proxy(h2_req_context(), filter).unwrap();
    assert!(proxy.tcp);
    let filter = ProxyFilter {
        id: Some("1549558402".to_owned()),
        carrier: Some(StringFilter::new("AT&T")),
        ..Default::default()
    };
    assert!(db.get_proxy(h2_req_context(), filter).is_ok());
}

#[test]
fn get_by_id_returns_the_record() {
    let db = memproxydb();
    let p = db.get_by_id(&"2012271852".to_owned()).unwrap();
    assert!(p.mobile && p.residential && p.udp && p.socks5 && p.tcp);
    assert!(db.get_by_id(&"0".to_owned()).is_none());
    let ctx = h2_req_context();
    assert!(p.is_match(&ctx, &ProxyFilter::default()));
}
