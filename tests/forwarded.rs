use proxydb::{ForwardedAuthority, XForwardedHost};

fn decode(values: &[&str]) -> Option<XForwardedHost> {
    let owned: Vec<String> = values.iter().map(|s| s.to_string()).collect();
    XForwardedHost::decode(&owned)
}

fn header(host: &str, port: Option<u16>) -> XForwardedHost {
    XForwardedHost::new(ForwardedAuthority::new(host, port))
}

#[test]
fn decode_domain() {
    assert_eq!(
        decode(&["id42.example-cdn.com"]),
        Some(header("id42.example-cdn.com", None))
    );
}

#[test]
fn decode_ignores_later_values() {
    assert_eq!(
        decode(&["id42.example-cdn.com", "example.com"]),
        Some(header("id42.example-cdn.com", None))
    );
}

#[test]
fn decode_domain_with_port() {
    let h = decode(&["id42.example-cdn.com:443"]).unwrap();
    assert_eq!(h.host().as_str(), "id42.example-cdn.com");
    assert_eq!(h.port(), Some(443));
}

#[test]
fn decode_ipv4() {
    assert_eq!(decode(&["203.0.113.195"]), Some(header("203.0.113.195", None)));
}

#[test]
fn decode_ipv4_with_port() {
    assert_eq!(
        decode(&["203.0.113.195:80"]),
        Some(header("203.0.113.195", Some(80)))
    );
}

#[test]
fn decode_bare_ipv6() {
    assert_eq!(
        decode(&["2001:db8:85a3:8d3:1319:8a2e:370:7348"]),
        Some(header("2001:db8:85a3:8d3:1319:8a2e:370:7348", None))
    );
}

#[test]
fn decode_bracketed_ipv6_with_port() {
    let h = decode(&["[2001:db8:85a3:8d3:1319:8a2e:370:7348]:8080"]).unwrap();
    assert_eq!(h.host().as_str(), "2001:db8:85a3:8d3:1319:8a2e:370:7348");
    assert_eq!(h.port(), Some(8080));
    assert_eq!(h.encode(), "[2001:db8:85a3:8d3:1319:8a2e:370:7348]:8080");
    let inner = h.clone().into_inner();
    assert_eq!(&inner, h.inner());
}

#[test]
fn decode_rejects_bad_values() {
    assert_eq!(decode(&[]), None);
    assert_eq!(decode(&[""]), None);
    assert_eq!(decode(&["example.com:"]), None);
    assert_eq!(decode(&["example.com:65536"]), None);
    assert_eq!(decode(&["example.com:8a"]), None);
    assert_eq!(decode(&[":80"]), None);
    assert_eq!(decode(&["[]:80"]), None);
    assert_eq!(decode(&["[::1]x"]), None);
    assert_eq!(decode(&["exa\u{7f}mple.com"]), None);
}

#[test]
fn encode_writes_host_and_port() {
    assert_eq!(header("example.com", Some(65535)).encode(), "example.com:65535");
    assert_eq!(header("example.com", Some(0)).encode(), "example.com:0");
    assert_eq!(header("example.com", None).encode(), "example.com");
    assert_eq!(XForwardedHost::name(), "x-forwarded-host");
}
