use vstd::prelude::*;

verus! {

/// A categorical attribute value, used both on stored records and in queries.
///
/// A stored `Wildcard` accepts any queried value; a stored `Exact` value accepts
/// only the identical exact value. No case folding or trimming is applied.
#[derive(Debug, PartialEq, Eq, Hash)]
pub enum StringFilter {
    /// Exactly this string.
    Exact(String),
    /// Any value of the attribute.
    Wildcard,
}

/// Whether a stored attribute value accepts a queried one.
pub open spec fn filter_accepts(stored: StringFilter, query: StringFilter) -> bool {
    match stored {
        StringFilter::Wildcard => true,
        StringFilter::Exact(s) => match query {
            StringFilter::Exact(q) => s@ == q@,
            StringFilter::Wildcard => false,
        },
    }
}

impl StringFilter {
    /// An exact filter value holding `value` as is (never a wildcard).
    pub fn new(value: &str) -> (r: StringFilter)
        ensures
            r matches StringFilter::Exact(s) && s@ == value@,
    {
        StringFilter::Exact(value.to_string())
    }

    /// The wildcard value, which accepts any queried value.
    pub fn wildcard() -> (r: StringFilter)
        ensures
            r is Wildcard,
    {
        StringFilter::Wildcard
    }

    /// Whether this value is the wildcard.
    pub fn is_wildcard(&self) -> (r: bool)
        ensures
            r == (*self is Wildcard),
    {
        match self {
            StringFilter::Wildcard => true,
            StringFilter::Exact(_) => false,
        }
    }

    /// The exact string, or `None` for the wildcard.
    pub fn as_str(&self) -> (r: Option<&str>)
        ensures
            match *self {
                StringFilter::Exact(s) => r matches Some(t) && t@ == s@,
                StringFilter::Wildcard => r is None,
            },
    {
        match self {
            StringFilter::Exact(s) => Some(s.as_str()),
            StringFilter::Wildcard => None,
        }
    }

    /// Whether this value, stored on a record, accepts the queried value `query`.
    pub fn matches(&self, query: &StringFilter) -> (r: bool)
        ensures
            r == filter_accepts(*self, *query),
    {
        match self {
            StringFilter::Wildcard => true,
            StringFilter::Exact(s) => match query {
                StringFilter::Exact(q) => *s == *q,
                StringFilter::Wildcard => false,
            },
        }
    }
}

impl Clone for StringFilter {
    fn clone(&self) -> (r: StringFilter)
        ensures
            r == *self,
    {
        match self {
            StringFilter::Exact(s) => StringFilter::Exact(s.clone()),
            StringFilter::Wildcard => StringFilter::Wildcard,
        }
    }
}

impl vstd::std_specs::convert::FromSpecImpl<&str> for StringFilter {
    open spec fn obeys_from_spec() -> bool {
        false
    }

    open spec fn from_spec(v: &str) -> StringFilter {
        arbitrary()
    }
}

impl From<&str> for StringFilter {
    fn from(value: &str) -> (r: StringFilter)
        ensures
            r matches StringFilter::Exact(s) && s@ == value@,
    {
        StringFilter::new(value)
    }
}

} // verus!
