//! The closed unions over the supported client types. Code that stores,
//! compares or forwards light-client data holds one of these and need not
//! know which consensus algorithm is behind it.

use vstd::prelude::*;
use vstd::std_specs::convert::FromSpecImpl;
use crate::client_type::ClientType;
use crate::commitment::CommitmentRoot;
use crate::error::Error;
use crate::height::Height;
use crate::identifier::ChainId;
use crate::mock::client_state::MockClientState;
use crate::mock::client_state::MockConsensusState;
use crate::mock::header::MockHeader;
use crate::tendermint::TendermintClientState;
use crate::tendermint::TendermintConsensusState;
use crate::tendermint::TendermintHeader;

verus! {

/// A header of any supported client type.
#[derive(Copy, Clone, Debug, PartialEq, Eq, Structural)]
pub enum AnyHeader {
    Tendermint(TendermintHeader),
    Mock(MockHeader),
}

/// A consensus state of any supported client type.
#[derive(Clone, Debug, PartialEq, Eq)]
pub enum AnyConsensusState {
    Tendermint(TendermintConsensusState),
    Mock(MockConsensusState),
}

/// A client state of any supported client type.
#[derive(Debug, PartialEq, Eq)]
pub enum AnyClientState {
    Tendermint(TendermintClientState),
    Mock(MockClientState),
}

impl AnyHeader {
    /// The tag of the variant.
    pub open spec fn kind(self) -> ClientType {
        match self {
            AnyHeader::Tendermint(_) => ClientType::Tendermint,
            AnyHeader::Mock(_) => ClientType::Mock,
        }
    }

    /// The height that the header is for.
    pub open spec fn at(self) -> Height {
        match self {
            AnyHeader::Tendermint(h) => h.height,
            AnyHeader::Mock(h) => h.height,
        }
    }

    /// The time of the header's block, in seconds since the Unix epoch.
    pub open spec fn time(self) -> u64 {
        match self {
            AnyHeader::Tendermint(h) => h.timestamp,
            AnyHeader::Mock(h) => h.timestamp,
        }
    }

    #[verifier::when_used_as_spec(kind)]
    pub fn client_type(self) -> (t: ClientType)
        ensures
            t == self.kind(),
    {
        match self {
            AnyHeader::Tendermint(h) => h.client_type(),
            AnyHeader::Mock(h) => h.client_type(),
        }
    }

    #[verifier::when_used_as_spec(at)]
    pub fn height(self) -> (h: Height)
        ensures
            h == self.at(),
    {
        match self {
            AnyHeader::Tendermint(header) => header.height(),
            AnyHeader::Mock(header) => header.height(),
        }
    }

    #[verifier::when_used_as_spec(time)]
    pub fn timestamp(self) -> (t: u64)
        ensures
            t == self.time(),
    {
        match self {
            AnyHeader::Tendermint(h) => h.timestamp,
            AnyHeader::Mock(h) => h.timestamp,
        }
    }
}

impl AnyConsensusState {
    /// The tag of the variant.
    pub open spec fn kind(&self) -> ClientType {
        match self {
            AnyConsensusState::Tendermint(_) => ClientType::Tendermint,
            AnyConsensusState::Mock(_) => ClientType::Mock,
        }
    }

    /// The bytes of the commitment root; none for a mock state.
    pub open spec fn root_bytes(&self) -> Seq<u8> {
        match self {
            AnyConsensusState::Tendermint(s) => s.root@,
            AnyConsensusState::Mock(_) => Seq::<u8>::empty(),
        }
    }

    /// The time of the state, in seconds since the Unix epoch.
    pub open spec fn time(&self) -> u64 {
        match self {
            AnyConsensusState::Tendermint(s) => s.timestamp,
            AnyConsensusState::Mock(s) => s.0.timestamp,
        }
    }

    /// The state is fit to be stored.
    pub open spec fn valid(&self) -> bool {
        match self {
            AnyConsensusState::Tendermint(s) => s.valid(),
            AnyConsensusState::Mock(_) => true,
        }
    }

    #[verifier::when_used_as_spec(kind)]
    pub fn client_type(&self) -> (t: ClientType)
        ensures
            t == self.kind(),
    {
        match self {
            AnyConsensusState::Tendermint(s) => s.client_type(),
            AnyConsensusState::Mock(s) => s.client_type(),
        }
    }

    pub fn root(&self) -> (root: CommitmentRoot)
        ensures
            root@ == self.root_bytes(),
    {
        match self {
            AnyConsensusState::Tendermint(s) => s.root().duplicate(),
            AnyConsensusState::Mock(s) => s.root(),
        }
    }

    #[verifier::when_used_as_spec(time)]
    pub fn timestamp(&self) -> (t: u64)
        ensures
            t == self.time(),
    {
        match self {
            AnyConsensusState::Tendermint(s) => s.timestamp(),
            AnyConsensusState::Mock(s) => s.timestamp(),
        }
    }

    /// Accepts every mock state and every Tendermint state that commits to
    /// something; refuses a Tendermint state with an empty root.
    pub fn validate_basic(&self) -> (r: Result<(), Error>)
        ensures
            r == if self.valid() {
                Ok::<(), Error>(())
            } else {
                Err::<(), Error>(Error::EmptyCommitmentRoot)
            },
    {
        match self {
            AnyConsensusState::Tendermint(s) => s.validate_basic(),
            AnyConsensusState::Mock(s) => s.validate_basic(),
        }
    }
}

impl AnyClientState {
    /// The tag of the variant.
    pub open spec fn kind(&self) -> ClientType {
        match self {
            AnyClientState::Tendermint(_) => ClientType::Tendermint,
            AnyClientState::Mock(_) => ClientType::Mock,
        }
    }

    /// The latest height that the client trusts.
    pub open spec fn latest(&self) -> Height {
        match self {
            AnyClientState::Tendermint(s) => s.latest_height,
            AnyClientState::Mock(s) => s.0.height,
        }
    }

    /// Misbehaviour has frozen the client. A mock client never is.
    pub open spec fn frozen(&self) -> bool {
        match self {
            AnyClientState::Tendermint(s) => s.frozen(),
            AnyClientState::Mock(_) => false,
        }
    }

    /// The identifier of the chain that the client follows.
    pub open spec fn chain(&self) -> Seq<char> {
        match self {
            AnyClientState::Tendermint(s) => s.chain_id@,
            AnyClientState::Mock(_) => MockClientState::mock_chain_id(),
        }
    }

    pub fn chain_id(&self) -> (id: ChainId)
        ensures
            id@ == self.chain(),
    {
        match self {
            AnyClientState::Tendermint(s) => s.chain_id(),
            AnyClientState::Mock(s) => s.chain_id(),
        }
    }

    #[verifier::when_used_as_spec(kind)]
    pub fn client_type(&self) -> (t: ClientType)
        ensures
            t == self.kind(),
    {
        match self {
            AnyClientState::Tendermint(s) => s.client_type(),
            AnyClientState::Mock(s) => s.client_type(),
        }
    }

    #[verifier::when_used_as_spec(latest)]
    pub fn latest_height(&self) -> (h: Height)
        ensures
            h == self.latest(),
    {
        match self {
            AnyClientState::Tendermint(s) => s.latest_height(),
            AnyClientState::Mock(s) => s.latest_height(),
        }
    }

    #[verifier::when_used_as_spec(frozen)]
    pub fn is_frozen(&self) -> (f: bool)
        ensures
            f == self.frozen(),
    {
        match self {
            AnyClientState::Tendermint(s) => s.is_frozen(),
            AnyClientState::Mock(s) => s.is_frozen(),
        }
    }
}

impl Clone for AnyClientState {
    fn clone(&self) -> (s: AnyClientState)
        ensures
            s == *self,
    {
        match self {
            AnyClientState::Tendermint(state) => AnyClientState::Tendermint(state.clone()),
            AnyClientState::Mock(state) => AnyClientState::Mock(*state),
        }
    }
}

impl From<TendermintHeader> for AnyHeader {
    fn from(h: TendermintHeader) -> (any: AnyHeader)
        ensures
            any == AnyHeader::Tendermint(h),
    {
        AnyHeader::Tendermint(h)
    }
}

impl FromSpecImpl<TendermintHeader> for AnyHeader {
    open spec fn obeys_from_spec() -> bool {
        true
    }

    open spec fn from_spec(h: TendermintHeader) -> AnyHeader {
        AnyHeader::Tendermint(h)
    }
}

impl From<MockHeader> for AnyHeader {
    fn from(mh: MockHeader) -> (any: AnyHeader)
        ensures
            any == AnyHeader::Mock(mh),
    {
        AnyHeader::Mock(mh)
    }
}

impl FromSpecImpl<MockHeader> for AnyHeader {
    open spec fn obeys_from_spec() -> bool {
        true
    }

    open spec fn from_spec(mh: MockHeader) -> AnyHeader {
        AnyHeader::Mock(mh)
    }
}

impl From<TendermintConsensusState> for AnyConsensusState {
    fn from(s: TendermintConsensusState) -> (any: AnyConsensusState)
        ensures
            any == AnyConsensusState::Tendermint(s),
    {
        AnyConsensusState::Tendermint(s)
    }
}

impl FromSpecImpl<TendermintConsensusState> for AnyConsensusState {
    open spec fn obeys_from_spec() -> bool {
        true
    }

    open spec fn from_spec(s: TendermintConsensusState) -> AnyConsensusState {
        AnyConsensusState::Tendermint(s)
    }
}

impl From<MockConsensusState> for AnyConsensusState {
    fn from(mcs: MockConsensusState) -> (any: AnyConsensusState)
        ensures
            any == AnyConsensusState::Mock(mcs),
    {
        AnyConsensusState::Mock(mcs)
    }
}

impl FromSpecImpl<MockConsensusState> for AnyConsensusState {
    open spec fn obeys_from_spec() -> bool {
        true
    }

    open spec fn from_spec(mcs: MockConsensusState) -> AnyConsensusState {
        AnyConsensusState::Mock(mcs)
    }
}

impl From<MockHeader> for AnyConsensusState {
    /// The consensus state that a mock chain has at the height of a header:
    /// the header itself.
    fn from(h: MockHeader) -> (any: AnyConsensusState)
        ensures
            any == AnyConsensusState::Mock(MockConsensusState(h)),
    {
        AnyConsensusState::Mock(MockConsensusState(h))
    }
}

impl FromSpecImpl<MockHeader> for AnyConsensusState {
    open spec fn obeys_from_spec() -> bool {
        true
    }

    open spec fn from_spec(h: MockHeader) -> AnyConsensusState {
        AnyConsensusState::Mock(MockConsensusState(h))
    }
}

impl From<TendermintClientState> for AnyClientState {
    fn from(s: TendermintClientState) -> (any: AnyClientState)
        ensures
            any == AnyClientState::Tendermint(s),
    {
        AnyClientState::Tendermint(s)
    }
}

impl FromSpecImpl<TendermintClientState> for AnyClientState {
    open spec fn obeys_from_spec() -> bool {
        true
    }

    open spec fn from_spec(s: TendermintClientState) -> AnyClientState {
        AnyClientState::Tendermint(s)
    }
}

impl From<MockClientState> for AnyClientState {
    fn from(mcs: MockClientState) -> (any: AnyClientState)
        ensures
            any == AnyClientState::Mock(mcs),
    {
        AnyClientState::Mock(mcs)
    }
}

impl FromSpecImpl<MockClientState> for AnyClientState {
    open spec fn obeys_from_spec() -> bool {
        true
    }

    open spec fn from_spec(mcs: MockClientState) -> AnyClientState {
        AnyClientState::Mock(mcs)
    }
}

impl TendermintHeader {
    /// The header inside the union. The union reports the header's own
    /// client type and height.
    pub fn wrap_any(self) -> (any: AnyHeader)
        ensures
            any == AnyHeader::Tendermint(self),
            any.kind() == ClientType::Tendermint,
            any.at() == self.height,
    {
        AnyHeader::Tendermint(self)
    }
}

impl MockHeader {
    /// The header inside the union. The union reports the header's own
    /// client type and height.
    pub fn wrap_any(self) -> (any: AnyHeader)
        ensures
            any == AnyHeader::Mock(self),
            any.kind() == ClientType::Mock,
            any.at() == self.height,
    {
        AnyHeader::Mock(self)
    }
}

impl TendermintConsensusState {
    /// The state inside the union. The union reports the state's own client
    /// type.
    pub fn wrap_any(self) -> (any: AnyConsensusState)
        ensures
            any == AnyConsensusState::Tendermint(self),
            any.kind() == ClientType::Tendermint,
    {
        AnyConsensusState::Tendermint(self)
    }
}

impl MockConsensusState {
    /// The state inside the union. The union reports the state's own client
    /// type.
    pub fn wrap_any(self) -> (any: AnyConsensusState)
        ensures
            any == AnyConsensusState::Mock(self),
            any.kind() == ClientType::Mock,
    {
        AnyConsensusState::Mock(self)
    }
}

impl TendermintClientState {
    /// The state inside the union. The union reports the state's own client
    /// type, latest height and frozen flag.
    pub fn wrap_any(self) -> (any: AnyClientState)
        ensures
            any == AnyClientState::Tendermint(self),
            any.kind() == ClientType::Tendermint,
            any.latest() == self.latest_height,
            any.frozen() == self.frozen(),
    {
        AnyClientState::Tendermint(self)
    }
}

impl MockClientState {
    /// The state inside the union. The union reports the state's own client
    /// type and latest height, and that it is not frozen.
    pub fn wrap_any(self) -> (any: AnyClientState)
        ensures
            any == AnyClientState::Mock(self),
            any.kind() == ClientType::Mock,
            any.latest() == self.0.height,
            !any.frozen(),
    {
        AnyClientState::Mock(self)
    }
}

} // verus!
