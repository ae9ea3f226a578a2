use vstd::prelude::*;

verus! {

/// Typed wrapper around a numeric primary key, so that an identifier cannot
/// be mixed up with other numeric request parameters.
#[derive(Clone, Copy, PartialEq, Eq, Structural, Debug)]
pub struct Id(pub u64);

impl Id {
    pub fn new(value: u64) -> (r: Id)
        ensures
            r.0 == value,
    {
        Id(value)
    }

    pub fn value(self) -> (r: u64)
        ensures
            r == self.0,
    {
        self.0
    }
}

impl From<u64> for Id {
    fn from(value: u64) -> (r: Id) {
        Id(value)
    }
}

impl vstd::std_specs::convert::FromSpecImpl<u64> for Id {
    open spec fn obeys_from_spec() -> bool {
        true
    }

    open spec fn from_spec(value: u64) -> Id {
        Id(value)
    }
}

} // verus!
