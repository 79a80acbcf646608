use vstd::prelude::*;

verus! {

/// A `u64` that never exceeds the ceiling `MAX`.
#[derive(Debug, Clone, Copy, PartialEq, Eq)]
pub struct BoundedU64<const MAX: u64>(u64);

impl<const MAX: u64> View for BoundedU64<MAX> {
    type V = nat;

    closed spec fn view(&self) -> nat {
        self.0 as nat
    }
}

impl<const MAX: u64> BoundedU64<MAX> {
    #[verifier::type_invariant]
    spec fn within_ceiling(self) -> bool {
        self.0 <= MAX
    }

    /// Wraps `value` when it is at most `MAX`.
    pub fn new(value: u64) -> (r: Option<Self>)
        ensures
            value <= MAX <==> r is Some,
            r matches Some(b) ==> b@ == value,
    {
        if value <= MAX {
            Some(BoundedU64(value))
        } else {
            None
        }
    }

    /// The wrapped number, which is at most `MAX`.
    pub fn get(self) -> (r: u64)
        ensures
            r == self@,
            r <= MAX,
    {
        proof {
            use_type_invariant(&self);
        }
        self.0
    }
}

impl<const MAX: u64> From<BoundedU64<MAX>> for u64 {
    fn from(value: BoundedU64<MAX>) -> (r: u64)
        ensures
            r == value@,
    {
        value.get()
    }
}

impl<const MAX: u64> vstd::std_specs::convert::FromSpecImpl<BoundedU64<MAX>> for u64 {
    open spec fn obeys_from_spec() -> bool {
        true
    }

    open spec fn from_spec(value: BoundedU64<MAX>) -> u64 {
        value@ as u64
    }
}

} // verus!
