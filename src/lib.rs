//! Proxy selection: an in-memory store of upstream proxy records and the
//! engine that picks one of them for a request, with the credential codec
//! and the request-side types it works with.

pub mod context;
pub mod credentials;
pub mod forwarded;
pub mod laws;
pub mod matcher;
pub mod memory_db;
pub mod proxy;
pub mod retry_body;
pub mod string_filter;
pub mod text;

pub use context::{RequestContext, Scheme, Version};
pub use credentials::{CredentialsView, InvalidProxyCredentialsString, ProxyCredentials};
pub use forwarded::{ForwardedAuthority, Host, XForwardedHost};
pub use matcher::{Matcher, Not};
pub use memory_db::{
    MemoryProxyDB, MemoryProxyDBInsertError, MemoryProxyDBInsertErrorKind, MemoryProxyDBQueryError,
    MemoryProxyDBQueryErrorKind, ProxyDB,
};
pub use proxy::{Proxy, ProxyFilter, ProxyQuery};
pub use retry_body::RetryBody;
pub use string_filter::StringFilter;
