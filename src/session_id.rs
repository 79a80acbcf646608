use vstd::prelude::*;

verus! {

/// Identifies a session by a 128-bit value, such as the bits of a UUID.
#[derive(Debug, Clone, Copy, PartialEq, Eq, Hash)]
pub struct SessionId(u128);

impl View for SessionId {
    type V = nat;

    closed spec fn view(&self) -> nat {
        self.0 as nat
    }
}

impl SessionId {
    /// Two identifiers with the same view are the same value.
    pub proof fn lemma_view_determines(a: SessionId, b: SessionId)
        requires
            a@ == b@,
        ensures
            a == b,
    {
    }

    /// Wraps the 128 bits of an identifier.
    pub fn new(id: u128) -> (r: Self)
        ensures
            r@ == id,
    {
        SessionId(id)
    }

    /// The 128 bits of the identifier.
    pub fn value(self) -> (r: u128)
        ensures
            r == self@,
    {
        self.0
    }

    /// Whether every bit of the identifier is zero.
    pub fn is_nil(&self) -> (r: bool)
        ensures
            r == (self@ == 0),
    {
        self.0 == 0
    }
}

} // verus!
