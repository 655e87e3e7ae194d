use base64::Engine;
use vstd::prelude::*;
use vstd::string::*;
use vstd::utf8::*;

use crate::text::{split_once, split_once_str, str_equals};

verus! {

/// The credentials used to authenticate with a proxy.
#[derive(Debug, PartialEq, Eq)]
pub enum ProxyCredentials {
    /// Basic authentication (RFC 7617).
    Basic {
        /// The user name.
        username: String,
        /// The optional password that goes with the user name.
        password: Option<String>,
    },
    /// Bearer token authentication (RFC 6750); the token is opaque.
    Bearer(String),
}

/// The mathematical value of a [`ProxyCredentials`].
pub enum CredentialsView {
    /// A user name and an optional password.
    Basic { username: Seq<char>, password: Option<Seq<char>> },
    /// A bearer token.
    Bearer(Seq<char>),
}

impl View for ProxyCredentials {
    type V = CredentialsView;

    open spec fn view(&self) -> CredentialsView {
        match self {
            ProxyCredentials::Basic { username, password } => CredentialsView::Basic {
                username: username@,
                password: match password {
                    Some(p) => Some(p@),
                    None => None,
                },
            },
            ProxyCredentials::Bearer(token) => CredentialsView::Bearer(token@),
        }
    }
}

/// The error returned when a credentials string cannot be parsed.
#[derive(Debug)]
#[non_exhaustive]
pub struct InvalidProxyCredentialsString;

impl InvalidProxyCredentialsString {
    /// A human readable description of the error.
    pub fn message(&self) -> (r: &'static str) {
        "Invalid proxy credentials string"
    }
}

/// The padded, standard-alphabet base64 text of `bytes`.
pub uninterp spec fn base64_encoding(bytes: Seq<u8>) -> Seq<char>;

/// The bytes that a padded, standard-alphabet base64 text stands for, if it is valid.
pub uninterp spec fn base64_decoding(text: Seq<char>) -> Option<Seq<u8>>;

/// Relies on `base64::engine::general_purpose::STANDARD.encode`, which returns the
/// padded standard-alphabet encoding of its input; it panics only when the output
/// length overflows `usize`, which the bound rules out.
#[verifier::external_body]
fn encode_base64(bytes: &[u8]) -> (r: String)
    requires
        bytes@.len() <= usize::MAX / 2,
    ensures
        r@ == base64_encoding(bytes@),
{
    base64::engine::general_purpose::STANDARD.encode(bytes)
}

/// Relies on `base64::engine::general_purpose::STANDARD.decode`, which returns the
/// decoded bytes or an error for text that is not valid padded base64.
#[verifier::external_body]
fn decode_base64(text: &str) -> (r: Option<Vec<u8>>)
    ensures
        match r {
            Some(b) => base64_decoding(text@) == Some(b@),
            None => base64_decoding(text@) is None,
        },
{
    base64::engine::general_purpose::STANDARD.decode(text).ok()
}

/// Relies on `String::from_utf8`, which accepts exactly the valid UTF-8 byte
/// sequences and keeps the characters they encode.
#[verifier::external_body]
fn utf8_string(bytes: Vec<u8>) -> (r: Option<String>)
    ensures
        r is Some <==> valid_utf8(bytes@),
        r matches Some(s) ==> s@ == decode_utf8(bytes@),
{
    String::from_utf8(bytes).ok()
}

/// The text that is base64-encoded for basic credentials.
pub open spec fn basic_plain(username: Seq<char>, password: Option<Seq<char>>) -> Seq<char> {
    match password {
        Some(p) => username + ":"@ + p,
        None => username,
    }
}

/// The header-style text of credentials.
pub open spec fn credentials_text(c: CredentialsView) -> Seq<char> {
    match c {
        CredentialsView::Basic { username, password } => "Basic "@ + base64_encoding(
            encode_utf8(basic_plain(username, password)),
        ),
        CredentialsView::Bearer(token) => "Bearer "@ + token,
    }
}

/// Credentials whose header-style text can be produced within machine limits.
pub open spec fn credentials_fit(c: CredentialsView) -> bool {
    match c {
        CredentialsView::Basic { username, password } => encode_utf8(
            basic_plain(username, password),
        ).len() <= usize::MAX / 2,
        CredentialsView::Bearer(_) => true,
    }
}

/// The credentials that a header-style text stands for, if any.
pub open spec fn parse_credentials(s: Seq<char>) -> Option<CredentialsView> {
    match split_once(s, ' ') {
        None => None,
        Some((scheme, rest)) => if scheme == "Basic"@ {
            match base64_decoding(rest) {
                None => None,
                Some(bytes) => if valid_utf8(bytes) {
                    let text = decode_utf8(bytes);
                    match split_once(text, ':') {
                        None => Some(CredentialsView::Basic { username: text, password: None }),
                        Some((u, p)) => Some(CredentialsView::Basic { username: u, password: Some(p) }),
                    }
                } else {
                    None
                },
            }
        } else if scheme == "Bearer"@ {
            Some(CredentialsView::Bearer(rest))
        } else {
            None
        },
    }
}

impl ProxyCredentials {
    /// The user name, for basic credentials.
    pub fn username(&self) -> (r: Option<&str>)
        ensures
            match self@ {
                CredentialsView::Basic { username, .. } => r matches Some(u) && u@ == username,
                CredentialsView::Bearer(_) => r is None,
            },
    {
        match self {
            ProxyCredentials::Basic { username, .. } => Some(username.as_str()),
            ProxyCredentials::Bearer(_) => None,
        }
    }

    /// The password, for basic credentials that have one.
    pub fn password(&self) -> (r: Option<&str>)
        ensures
            match self@ {
                CredentialsView::Basic { password: Some(p), .. } => r matches Some(s) && s@ == p,
                _ => r is None,
            },
    {
        match self {
            ProxyCredentials::Basic { password: Some(p), .. } => Some(p.as_str()),
            _ => None,
        }
    }

    /// The token, for bearer credentials.
    pub fn bearer(&self) -> (r: Option<&str>)
        ensures
            match self@ {
                CredentialsView::Bearer(t) => r matches Some(s) && s@ == t,
                _ => r is None,
            },
    {
        match self {
            ProxyCredentials::Bearer(token) => Some(token.as_str()),
            ProxyCredentials::Basic { .. } => None,
        }
    }

    /// The header-style text: `Basic <base64 of user[:password]>` or `Bearer <token>`.
    pub fn to_string(&self) -> (r: String)
        requires
            credentials_fit(self@),
        ensures
            r@ == credentials_text(self@),
    {
        match self {
            ProxyCredentials::Basic { username, password } => {
                let mut plain = username.clone();
                match password {
                    Some(p) => {
                        plain.append(":");
                        plain.append(p.as_str());
                    },
                    None => {},
                }
                assert(plain@ == basic_plain(username@, match password {
                    Some(p) => Some(p@),
                    None => None,
                }));
                let bytes = plain.as_str().as_bytes();
                let encoded = encode_base64(bytes);
                let mut out = String::from_str("Basic ");
                out.append(encoded.as_str());
                out
            },
            ProxyCredentials::Bearer(token) => {
                let mut out = String::from_str("Bearer ");
                out.append(token.as_str());
                out
            },
        }
    }

    /// Parses a header-style credentials text.
    pub fn parse_text(s: &str) -> (r: Result<ProxyCredentials, InvalidProxyCredentialsString>)
        ensures
            match parse_credentials(s@) {
                Some(c) => r matches Ok(v) && v@ == c,
                None => r is Err,
            },
    {
        let (scheme, rest) = match split_once_str(s, ' ') {
            Some(parts) => parts,
            None => return Err(InvalidProxyCredentialsString),
        };
        if str_equals(scheme, "Basic") {
            let bytes = match decode_base64(rest) {
                Some(b) => b,
                None => return Err(InvalidProxyCredentialsString),
            };
            let text = match utf8_string(bytes) {
                Some(t) => t,
                None => return Err(InvalidProxyCredentialsString),
            };
            match split_once_str(text.as_str(), ':') {
                Some((u, p)) => Ok(
                    ProxyCredentials::Basic { username: u.to_owned(), password: Some(p.to_owned()) },
                ),
                None => Ok(ProxyCredentials::Basic { username: text, password: None }),
            }
        } else if str_equals(scheme, "Bearer") {
            Ok(ProxyCredentials::Bearer(rest.to_owned()))
        } else {
            Err(InvalidProxyCredentialsString)
        }
    }
}

impl Clone for ProxyCredentials {
    fn clone(&self) -> (r: ProxyCredentials)
        ensures
            r == *self,
    {
        match self {
            ProxyCredentials::Basic { username, password } => ProxyCredentials::Basic {
                username: username.clone(),
                password: match password {
                    Some(p) => Some(p.clone()),
                    None => None,
                },
            },
            ProxyCredentials::Bearer(token) => ProxyCredentials::Bearer(token.clone()),
        }
    }
}

impl std::str::FromStr for ProxyCredentials {
    type Err = InvalidProxyCredentialsString;

    fn from_str(s: &str) -> (r: Result<ProxyCredentials, InvalidProxyCredentialsString>)
        ensures
            match parse_credentials(s@) {
                Some(c) => r matches Ok(v) && v@ == c,
                None => r is Err,
            },
    {
        ProxyCredentials::parse_text(s)
    }
}

} // verus!
