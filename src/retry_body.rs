use vstd::prelude::*;

verus! {

/// Declares `bytes::Bytes`, a cheaply cloneable byte buffer, to the verifier.
#[verifier::external_type_specification]
#[verifier::external_body]
pub struct ExBytes(bytes::Bytes);

/// A request body kept in memory so that it can be sent again on a retry.
#[derive(Debug, Clone)]
pub struct RetryBody {
    bytes: Option<bytes::Bytes>,
}

impl View for RetryBody {
    type V = Option<bytes::Bytes>;

    closed spec fn view(&self) -> Option<bytes::Bytes> {
        self.bytes
    }
}

impl RetryBody {
    /// A body holding `bytes`, not yet handed out.
    pub fn new(bytes: bytes::Bytes) -> (r: RetryBody)
        ensures
            r@ == Some(bytes),
    {
        RetryBody { bytes: Some(bytes) }
    }

    /// Turns this body into its bytes, if they were not handed out yet.
    pub fn into_bytes(self) -> (r: Option<bytes::Bytes>)
        ensures
            r == self@,
    {
        self.bytes
    }

    /// Hands out the bytes as the body's one data frame; afterwards the body
    /// is at its end.
    pub fn take_frame(&mut self) -> (r: Option<bytes::Bytes>)
        ensures
            r == old(self)@,
            final(self)@ is None,
    {
        self.bytes.take()
    }

    /// The body is a single frame, so it never waits for more data.
    pub fn is_end_stream(&self) -> (r: bool)
        ensures
            r,
    {
        true
    }
}

} // verus!
