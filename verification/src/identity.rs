use vstd::prelude::*;

verus! {

/// An account identity: an opaque reference to a participant that can hold
/// funds and authorize calls. Two identities are the same participant exactly
/// when their handles are equal.
#[derive(Clone, Copy, Debug, PartialEq, Eq, Structural, Hash)]
pub struct Address {
    pub id: u64,
}

} // verus!
