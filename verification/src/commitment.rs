//! Commitment roots.

use vstd::prelude::*;

verus! {

/// The root of the state commitment of a chain at one height: the bytes
/// against which membership proofs are checked.
#[derive(Clone, Debug, PartialEq, Eq)]
pub struct CommitmentRoot {
    pub bytes: Vec<u8>,
}

impl View for CommitmentRoot {
    type V = Seq<u8>;

    open spec fn view(&self) -> Seq<u8> {
        self.bytes@
    }
}

impl CommitmentRoot {
    pub fn from_bytes(bytes: Vec<u8>) -> (root: CommitmentRoot)
        ensures
            root.bytes == bytes,
    {
        CommitmentRoot { bytes }
    }

    /// The root that commits to nothing.
    pub fn empty() -> (root: CommitmentRoot)
        ensures
            root@ == Seq::<u8>::empty(),
    {
        CommitmentRoot { bytes: Vec::new() }
    }

    pub fn is_empty(&self) -> (e: bool)
        ensures
            e == (self@.len() == 0),
    {
        self.bytes.len() == 0
    }

    /// A copy of the root, byte for byte.
    pub fn duplicate(&self) -> (root: CommitmentRoot)
        ensures
            root@ == self@,
    {
        CommitmentRoot { bytes: self.bytes.clone() }
    }
}

} // verus!
