//! Why an operation on client data was refused.

use vstd::prelude::*;
use crate::height::Height;
use crate::identifier::ClientId;

verus! {

/// The reasons for which the library refuses a message or an operation on a
/// client record. None of them is fatal: the offending message or operation is
/// rejected and the caller goes on.
#[derive(Debug, Clone, PartialEq, Eq)]
pub enum Error {
    /// A raw header lacks its height.
    InvalidRawHeader,
    /// A raw consensus state lacks a required part.
    InvalidRawConsensusState,
    /// A raw client state lacks a required part.
    InvalidRawClientState,
    /// The text is the wire name of no client type.
    UnknownClientType(String),
    /// A consensus state commits to nothing: its root is empty.
    EmptyCommitmentRoot,
    /// No client state is stored under the identifier.
    ClientNotFound(ClientId),
    /// A record is already stored under the identifier.
    ClientAlreadyExists(ClientId),
    /// The client is frozen and accepts no further update.
    ClientFrozen(ClientId),
    /// The client type of the data differs from the client type of the record.
    ClientTypeMismatch(ClientId),
    /// The client has accepted no consensus state at the height.
    ConsensusStateNotFound(ClientId, Height),
    /// The latest height of a new client denotes no block.
    InvalidHeight(ClientId),
    /// The update does not move the client past its latest height.
    HeightNotAdvanced(ClientId),
}

} // verus!
