use vstd::prelude::*;
use vstd::string::*;

use crate::text::{find_char, split_once, split_once_str};

verus! {

/// The host of an authority as written: a domain name or an IP address
/// (an IPv6 address without its brackets).
#[derive(Debug, Clone, PartialEq, Eq)]
pub struct Host(String);

impl View for Host {
    type V = Seq<char>;

    closed spec fn view(&self) -> Seq<char> {
        self.0@
    }
}

impl Host {
    /// The host text.
    pub fn as_str(&self) -> (r: &str)
        ensures
            r@ == self@,
    {
        self.0.as_str()
    }
}

/// A host with an optional port, as carried by forwarding headers.
#[derive(Debug, Clone, PartialEq, Eq)]
pub struct ForwardedAuthority {
    host: Host,
    port: Option<u16>,
}

impl View for ForwardedAuthority {
    type V = (Seq<char>, Option<u16>);

    closed spec fn view(&self) -> (Seq<char>, Option<u16>) {
        (self.host@, self.port)
    }
}

/// A decimal digit.
pub open spec fn is_digit(c: char) -> bool {
    '0' <= c && c <= '9'
}

/// The number that a string of decimal digits stands for.
pub open spec fn digits_value(s: Seq<char>) -> int
    decreases s.len(),
{
    if s.len() == 0 {
        0
    } else {
        digits_value(s.drop_last()) * 10 + (s.last() as int - '0' as int)
    }
}

/// Ten to the power `n`.
pub open spec fn pow10(n: nat) -> int
    decreases n,
{
    if n == 0 {
        1
    } else {
        10 * pow10((n - 1) as nat)
    }
}

/// The port that a text stands for: one to five decimal digits, at most 65535.
pub open spec fn port_of(s: Seq<char>) -> Option<u16> {
    if 0 < s.len() <= 5 && (forall|i: int| 0 <= i < s.len() ==> is_digit(#[trigger] s[i]))
        && digits_value(s) <= 65535 {
        Some(digits_value(s) as u16)
    } else {
        None
    }
}

/// The host and port that an authority text stands for: `[v6]`, `[v6]:port`,
/// `host`, `host:port`, or a bare IPv6 address (two colons or more, no port).
pub open spec fn authority_of(s: Seq<char>) -> Option<(Seq<char>, Option<u16>)> {
    if s.len() == 0 {
        None
    } else if s[0] == '[' {
        match split_once(s.skip(1), ']') {
            None => None,
            Some((h, after)) => if h.len() == 0 {
                None
            } else if after.len() == 0 {
                Some((h, None))
            } else if after[0] == ':' {
                match port_of(after.skip(1)) {
                    Some(p) => Some((h, Some(p))),
                    None => None,
                }
            } else {
                None
            },
        }
    } else {
        match split_once(s, ':') {
            None => Some((s, None)),
            Some((h, rest)) => if rest.contains(':') {
                Some((s, None))
            } else if h.len() == 0 {
                None
            } else {
                match port_of(rest) {
                    Some(p) => Some((h, Some(p))),
                    None => None,
                }
            },
        }
    }
}

/// A header value byte that is visible ASCII or a tab.
pub open spec fn header_char(c: char) -> bool {
    c == '\t' || (' ' <= c && c <= '~')
}

/// The header value is text: visible ASCII characters and tabs only.
pub open spec fn header_text(s: Seq<char>) -> bool {
    forall|i: int| 0 <= i < s.len() ==> header_char(#[trigger] s[i])
}

/// The decimal text of a number.
pub open spec fn decimal_text(n: nat) -> Seq<char>
    decreases n,
{
    if n < 10 {
        seq![(n + '0' as nat) as char]
    } else {
        decimal_text(n / 10).push(((n % 10) + '0' as nat) as char)
    }
}

/// The text of an authority: the host, in brackets when it holds a colon,
/// then `:` and the port when there is one.
pub open spec fn authority_text(host: Seq<char>, port: Option<u16>) -> Seq<char> {
    let h = if host.contains(':') {
        "["@ + host + "]"@
    } else {
        host
    };
    match port {
        Some(p) => h + ":"@ + decimal_text(p as nat),
        None => h,
    }
}

/// Relies on std's `ToString` for `u16`, whose text is the number in decimal digits.
#[verifier::external_body]
fn port_text(p: u16) -> (r: String)
    ensures
        r@ == decimal_text(p as nat),
{
    p.to_string()
}

proof fn lemma_digits_step(s: Seq<char>, i: int)
    requires
        0 <= i < s.len(),
    ensures
        digits_value(s.take(i + 1)) == digits_value(s.take(i)) * 10 + (s[i] as int - '0' as int),
{
    assert(s.take(i + 1).drop_last() =~= s.take(i));
}

/// Reads one to five decimal digits as a port number.
fn parse_port(s: &str) -> (r: Option<u16>)
    ensures
        r == port_of(s@),
{
    let n = s.unicode_len();
    if n == 0 || n > 5 {
        return None;
    }
    let mut v: u32 = 0;
    let mut i: usize = 0;
    assert(s@.take(0) =~= Seq::<char>::empty());
    while i < n
        invariant
            n == s@.len(),
            0 < n <= 5,
            i <= n,
            v as int == digits_value(s@.take(i as int)),
            v < pow10(i as nat),
            pow10(i as nat) <= 100000,
            forall|j: int| 0 <= j < i ==> is_digit(#[trigger] s@[j]),
        decreases n - i,
    {
        let c = s.get_char(i);
        if !('0' <= c && c <= '9') {
            return None;
        }
        proof {
            lemma_digits_step(s@, i as int);
            let d = c as int - '0' as int;
            let p = pow10(i as nat);
            assert(pow10((i + 1) as nat) == 10 * p);
            assert(v * 10 + d < 10 * p) by (nonlinear_arith)
                requires
                    v < p,
                    0 <= d <= 9,
            ;
            assert(pow10((i + 1) as nat) <= 100000) by {
                reveal_with_fuel(pow10, 6);
            };
        }
        v = v * 10 + (c as u32 - '0' as u32);
        i = i + 1;
    }
    assert(s@.take(n as int) =~= s@);
    if v > 65535 {
        None
    } else {
        Some(v as u16)
    }
}

fn authority(host: &str, port: Option<u16>) -> (r: ForwardedAuthority)
    ensures
        r@ == (host@, port),
{
    ForwardedAuthority { host: Host(host.to_string()), port }
}

/// Whether every character of `s` may stand in a header value.
fn is_header_text(s: &str) -> (r: bool)
    ensures
        r == header_text(s@),
{
    let n = s.unicode_len();
    let mut i: usize = 0;
    while i < n
        invariant
            n == s@.len(),
            i <= n,
            forall|j: int| 0 <= j < i ==> header_char(#[trigger] s@[j]),
        decreases n - i,
    {
        let c = s.get_char(i);
        if !(c == '\t' || (' ' <= c && c <= '~')) {
            return false;
        }
        i = i + 1;
    }
    true
}

impl ForwardedAuthority {
    /// An authority of `host` and `port`.
    pub fn new(host: &str, port: Option<u16>) -> (r: ForwardedAuthority)
        ensures
            r@ == (host@, port),
    {
        authority(host, port)
    }

    /// The host.
    pub fn host(&self) -> (r: &Host)
        ensures
            r@ == self@.0,
    {
        &self.host
    }

    /// The port, if one was given.
    pub fn port(&self) -> (r: Option<u16>)
        ensures
            r == self@.1,
    {
        self.port
    }

    /// Parses an authority text; see [`authority_of`] for the forms accepted.
    pub fn parse(s: &str) -> (r: Option<ForwardedAuthority>)
        ensures
            match authority_of(s@) {
                Some(a) => r matches Some(v) && v@ == a,
                None => r is None,
            },
    {
        let n = s.unicode_len();
        if n == 0 {
            return None;
        }
        if s.get_char(0) == '[' {
            let inner = s.substring_char(1, n);
            assert(inner@ =~= s@.skip(1));
            match split_once_str(inner, ']') {
                None => None,
                Some((h, after)) => {
                    let m = after.unicode_len();
                    if h.unicode_len() == 0 {
                        None
                    } else if m == 0 {
                        Some(authority(h, None))
                    } else if after.get_char(0) == ':' {
                        let digits = after.substring_char(1, m);
                        assert(digits@ =~= after@.skip(1));
                        match parse_port(digits) {
                            Some(p) => Some(authority(h, Some(p))),
                            None => None,
                        }
                    } else {
                        None
                    }
                },
            }
        } else {
            match split_once_str(s, ':') {
                None => Some(authority(s, None)),
                Some((h, rest)) => match find_char(rest, ':') {
                    Some(i) => {
                        assert(rest@[i as int] == ':');
                        Some(authority(s, None))
                    },
                    None => {
                        if h.unicode_len() == 0 {
                            None
                        } else {
                            match parse_port(rest) {
                                Some(p) => Some(authority(h, Some(p))),
                                None => None,
                            }
                        }
                    },
                },
            }
        }
    }

    /// The authority as text: see [`authority_text`].
    pub fn to_text(&self) -> (r: String)
        ensures
            r@ == authority_text(self@.0, self@.1),
    {
        let h = self.host.as_str();
        let mut out = match find_char(h, ':') {
            Some(i) => {
                assert(h@[i as int] == ':');
                let mut t = String::from_str("[");
                t.append(h);
                t.append("]");
                t
            },
            None => String::from_str(h),
        };
        match self.port {
            Some(p) => {
                out.append(":");
                let digits = port_text(p);
                out.append(digits.as_str());
            },
            None => {},
        }
        out
    }
}

/// The X-Forwarded-Host header: the host that the client originally asked
/// for, with an optional port.
#[derive(Debug, Clone, PartialEq, Eq)]
pub struct XForwardedHost(ForwardedAuthority);

impl View for XForwardedHost {
    type V = (Seq<char>, Option<u16>);

    closed spec fn view(&self) -> (Seq<char>, Option<u16>) {
        self.0@
    }
}

impl XForwardedHost {
    /// The header carrying `authority`.
    pub fn new(authority: ForwardedAuthority) -> (r: XForwardedHost)
        ensures
            r@ == authority@,
    {
        XForwardedHost(authority)
    }

    /// The header's name.
    pub fn name() -> (r: &'static str) {
        "x-forwarded-host"
    }

    /// Reads the header from its values: the first one must be header text
    /// holding an authority; any further values are ignored.
    pub fn decode(values: &[String]) -> (r: Option<XForwardedHost>)
        ensures
            values@.len() == 0 ==> r is None,
            values@.len() > 0 ==> match (if header_text(values@[0]@) {
                authority_of(values@[0]@)
            } else {
                None
            }) {
                Some(a) => r matches Some(v) && v@ == a,
                None => r is None,
            },
    {
        if values.len() == 0 {
            return None;
        }
        let first = values[0].as_str();
        if !is_header_text(first) {
            return None;
        }
        match ForwardedAuthority::parse(first) {
            Some(a) => Some(XForwardedHost(a)),
            None => None,
        }
    }

    /// The header's value.
    pub fn encode(&self) -> (r: String)
        ensures
            r@ == authority_text(self@.0, self@.1),
    {
        self.0.to_text()
    }

    /// The host.
    pub fn host(&self) -> (r: &Host)
        ensures
            r@ == self@.0,
    {
        self.0.host()
    }

    /// The port, if one was given.
    pub fn port(&self) -> (r: Option<u16>)
        ensures
            r == self@.1,
    {
        self.0.port()
    }

    /// The authority this header carries.
    pub fn inner(&self) -> (r: &ForwardedAuthority)
        ensures
            r@ == self@,
    {
        &self.0
    }

    /// Consumes the header into the authority it carries.
    pub fn into_inner(self) -> (r: ForwardedAuthority)
        ensures
            r@ == self@,
    {
        self.0
    }
}

} // verus!
