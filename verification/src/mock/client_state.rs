//! The client state and the consensus state of the mock client. Both are a
//! mock header and nothing more.

use vstd::prelude::*;
use vstd::std_specs::convert::FromSpecImpl;
use vstd::std_specs::convert::TryFromSpecImpl;
use crate::client_type::ClientType;
use crate::commitment::CommitmentRoot;
use crate::error::Error;
use crate::height::Height;
use crate::identifier::ChainId;
use crate::mock::header::MockHeader;
use crate::mock::header::RawMockHeader;

verus! {

/// The state of a mock client: the latest header it has seen.
#[derive(Copy, Clone, Debug, PartialEq, Eq, Structural)]
pub struct MockClientState(pub MockHeader);

/// A mock client state on the wire. The header is a sub-message and may be
/// missing.
#[derive(Copy, Clone, Debug, PartialEq, Eq)]
pub struct RawMockClientState {
    pub header: Option<RawMockHeader>,
}

/// The consensus state of a mock client at one height: the header of that
/// height.
#[derive(Copy, Clone, Debug, PartialEq, Eq, Structural)]
pub struct MockConsensusState(pub MockHeader);

/// A mock consensus state on the wire. The header is a sub-message and may
/// be missing.
#[derive(Copy, Clone, Debug, PartialEq, Eq)]
pub struct RawMockConsensusState {
    pub header: Option<RawMockHeader>,
}

impl MockClientState {
    /// What decoding a raw client state gives: `InvalidRawClientState` where
    /// the header is missing, `InvalidRawHeader` where the header lacks its
    /// height, and the state otherwise.
    pub open spec fn decode(raw: RawMockClientState) -> Result<MockClientState, Error> {
        match raw.header {
            None => Err(Error::InvalidRawClientState),
            Some(h) => match MockHeader::decode(h) {
                Ok(header) => Ok(MockClientState(header)),
                Err(e) => Err(e),
            },
        }
    }

    /// The wire form of a client state.
    pub open spec fn encode(self) -> RawMockClientState {
        RawMockClientState { header: Some(self.0.encode()) }
    }

    /// The identifier that every mock client reports for its chain.
    pub open spec fn mock_chain_id() -> Seq<char> {
        "mock-0"@
    }

    pub fn latest_height(&self) -> (h: Height)
        ensures
            h == self.0.height,
    {
        self.0.height
    }

    /// A mock client follows no real chain: it reports the fixed identifier
    /// `mock-0`.
    pub fn chain_id(&self) -> (id: ChainId)
        ensures
            id@ == MockClientState::mock_chain_id(),
    {
        ChainId::from_str("mock-0")
    }

    pub fn client_type(&self) -> (t: ClientType)
        ensures
            t == ClientType::Mock,
    {
        ClientType::Mock
    }

    /// A mock client is never frozen: its wire form has no place for a
    /// frozen height.
    pub fn is_frozen(&self) -> (f: bool)
        ensures
            !f,
    {
        false
    }
}

impl TryFrom<RawMockClientState> for MockClientState {
    type Error = Error;

    /// Reads a client state from its wire form. A raw state without a header
    /// is rejected with `InvalidRawClientState`, one whose header lacks its
    /// height with `InvalidRawHeader`; nothing else is rejected.
    fn try_from(raw: RawMockClientState) -> (r: Result<MockClientState, Error>)
        ensures
            r == MockClientState::decode(raw),
            r is Ok <==> (raw.header matches Some(h) && h.height is Some),
    {
        match raw.header {
            None => Err(Error::InvalidRawClientState),
            Some(h) => match MockHeader::try_from(h) {
                Ok(header) => Ok(MockClientState(header)),
                Err(e) => Err(e),
            },
        }
    }
}

impl TryFromSpecImpl<RawMockClientState> for MockClientState {
    open spec fn obeys_try_from_spec() -> bool {
        true
    }

    open spec fn try_from_spec(raw: RawMockClientState) -> Result<MockClientState, Error> {
        MockClientState::decode(raw)
    }
}

impl From<MockClientState> for RawMockClientState {
    fn from(value: MockClientState) -> (raw: RawMockClientState)
        ensures
            raw == value.encode(),
    {
        RawMockClientState { header: Some(RawMockHeader::from(value.0)) }
    }
}

impl FromSpecImpl<MockClientState> for RawMockClientState {
    open spec fn obeys_from_spec() -> bool {
        true
    }

    open spec fn from_spec(value: MockClientState) -> RawMockClientState {
        value.encode()
    }
}

impl From<MockConsensusState> for MockClientState {
    /// The client state that has seen exactly the header of a consensus
    /// state.
    fn from(cs: MockConsensusState) -> (s: MockClientState)
        ensures
            s.0 == cs.0,
    {
        MockClientState(cs.0)
    }
}

impl FromSpecImpl<MockConsensusState> for MockClientState {
    open spec fn obeys_from_spec() -> bool {
        true
    }

    open spec fn from_spec(cs: MockConsensusState) -> MockClientState {
        MockClientState(cs.0)
    }
}

impl MockConsensusState {
    /// What decoding a raw consensus state gives: `InvalidRawConsensusState`
    /// where the header is missing, `InvalidRawHeader` where the header lacks
    /// its height, and the state otherwise.
    pub open spec fn decode(raw: RawMockConsensusState) -> Result<MockConsensusState, Error> {
        match raw.header {
            None => Err(Error::InvalidRawConsensusState),
            Some(h) => match MockHeader::decode(h) {
                Ok(header) => Ok(MockConsensusState(header)),
                Err(e) => Err(e),
            },
        }
    }

    /// The wire form of a consensus state.
    pub open spec fn encode(self) -> RawMockConsensusState {
        RawMockConsensusState { header: Some(self.0.encode()) }
    }

    pub fn timestamp(&self) -> (t: u64)
        ensures
            t == self.0.timestamp,
    {
        self.0.timestamp
    }

    pub fn client_type(&self) -> (t: ClientType)
        ensures
            t == ClientType::Mock,
    {
        ClientType::Mock
    }

    /// A mock consensus state commits to nothing: its root is empty.
    pub fn root(&self) -> (root: CommitmentRoot)
        ensures
            root@ == Seq::<u8>::empty(),
    {
        CommitmentRoot::empty()
    }

    /// There is nothing in a mock consensus state that could be invalid.
    pub fn validate_basic(&self) -> (r: Result<(), Error>)
        ensures
            r == Ok::<(), Error>(()),
    {
        Ok(())
    }
}

impl TryFrom<RawMockConsensusState> for MockConsensusState {
    type Error = Error;

    /// Reads a consensus state from its wire form. A raw state without a
    /// header is rejected with `InvalidRawConsensusState`, one whose header
    /// lacks its height with `InvalidRawHeader`; nothing else is rejected.
    fn try_from(raw: RawMockConsensusState) -> (r: Result<MockConsensusState, Error>)
        ensures
            r == MockConsensusState::decode(raw),
            r is Ok <==> (raw.header matches Some(h) && h.height is Some),
    {
        match raw.header {
            None => Err(Error::InvalidRawConsensusState),
            Some(h) => match MockHeader::try_from(h) {
                Ok(header) => Ok(MockConsensusState(header)),
                Err(e) => Err(e),
            },
        }
    }
}

impl TryFromSpecImpl<RawMockConsensusState> for MockConsensusState {
    open spec fn obeys_try_from_spec() -> bool {
        true
    }

    open spec fn try_from_spec(raw: RawMockConsensusState) -> Result<MockConsensusState, Error> {
        MockConsensusState::decode(raw)
    }
}

impl From<MockConsensusState> for RawMockConsensusState {
    fn from(value: MockConsensusState) -> (raw: RawMockConsensusState)
        ensures
            raw == value.encode(),
    {
        RawMockConsensusState { header: Some(RawMockHeader::from(value.0)) }
    }
}

impl FromSpecImpl<MockConsensusState> for RawMockConsensusState {
    open spec fn obeys_from_spec() -> bool {
        true
    }

    open spec fn from_spec(value: MockConsensusState) -> RawMockConsensusState {
        value.encode()
    }
}

/// Decoding the wire form of a mock client state gives the state back.
pub proof fn lemma_mock_client_state_roundtrip(s: MockClientState)
    ensures
        MockClientState::decode(s.encode()) == Ok::<MockClientState, Error>(s),
{
}

/// Decoding the wire form of a mock consensus state gives the state back.
pub proof fn lemma_mock_consensus_state_roundtrip(s: MockConsensusState)
    ensures
        MockConsensusState::decode(s.encode()) == Ok::<MockConsensusState, Error>(s),
{
}

} // verus!
