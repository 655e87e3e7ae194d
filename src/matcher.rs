use vstd::prelude::*;

verus! {

/// A condition over requests of type `Request`.
pub trait Matcher<Request> {
    /// Whether the condition holds of `req`.
    spec fn spec_matches(&self, req: Request) -> bool;

    /// Decides the condition for `req`.
    fn matches(&self, req: &Request) -> (r: bool)
        ensures
            r == self.spec_matches(*req),
    ;
}

/// A matcher that matches exactly when the inner matcher does not.
#[derive(Debug, Clone, Hash)]
pub struct Not<T>(T);

impl<T> View for Not<T> {
    type V = T;

    closed spec fn view(&self) -> T {
        self.0
    }
}

impl<T> Not<T> {
    /// Creates a matcher that negates `inner`.
    pub fn new(inner: T) -> (r: Not<T>)
        ensures
            r@ == inner,
    {
        Not(inner)
    }

    /// The negated matcher.
    pub fn inner(&self) -> (r: &T)
        ensures
            *r == self@,
    {
        &self.0
    }
}

impl<Request, T: Matcher<Request>> Matcher<Request> for Not<T> {
    open spec fn spec_matches(&self, req: Request) -> bool {
        !self@.spec_matches(req)
    }

    fn matches(&self, req: &Request) -> (r: bool) {
        !self.0.matches(req)
    }
}

} // verus!
