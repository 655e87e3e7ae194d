use vstd::prelude::*;

verus! {

/// The HTTP version of an inbound request.
#[allow(non_camel_case_types)]
#[derive(Debug, Clone, Copy, PartialEq, Eq, Structural)]
pub enum Version {
    /// HTTP/0.9
    HTTP_09,
    /// HTTP/1.0
    HTTP_10,
    /// HTTP/1.1
    HTTP_11,
    /// HTTP/2
    HTTP_2,
    /// HTTP/3, which runs over UDP
    HTTP_3,
}

/// The scheme of an inbound request.
#[derive(Debug, Clone, Copy, PartialEq, Eq, Structural)]
pub enum Scheme {
    /// `http`
    Http,
    /// `https`
    Https,
}

/// What the selection engine is told of the inbound request.
#[derive(Debug)]
pub struct RequestContext {
    /// The HTTP version, from which the transport a proxy must offer is derived.
    pub http_version: Version,
    /// The scheme of the request.
    pub scheme: Scheme,
    /// The target host, if known.
    pub host: Option<String>,
    /// The target port, if given explicitly.
    pub port: Option<u16>,
}

impl Clone for RequestContext {
    fn clone(&self) -> (r: RequestContext)
        ensures
            r == *self,
    {
        RequestContext {
            http_version: self.http_version,
            scheme: self.scheme,
            host: match &self.host {
                Some(h) => Some(h.clone()),
                None => None,
            },
            port: self.port,
        }
    }
}

} // verus!
