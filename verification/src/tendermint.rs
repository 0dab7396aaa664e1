//! The Tendermint client: the data that the relayer reads from the headers,
//! consensus states and client states of a Tendermint chain.

use vstd::prelude::*;
use vstd::std_specs::convert::FromSpecImpl;
use vstd::std_specs::convert::TryFromSpecImpl;
use crate::client_type::ClientType;
use crate::commitment::CommitmentRoot;
use crate::error::Error;
use crate::height::Height;
use crate::height::RawHeight;
use crate::identifier::ChainId;

verus! {

/// A Tendermint header: the height it is for, and the time of its block in
/// seconds since the Unix epoch.
#[derive(Copy, Clone, Debug, PartialEq, Eq, Structural)]
pub struct TendermintHeader {
    pub height: Height,
    pub timestamp: u64,
}

/// A Tendermint header on the wire.
#[derive(Copy, Clone, Debug, PartialEq, Eq)]
pub struct RawTendermintHeader {
    pub height: Option<RawHeight>,
    pub timestamp: u64,
}

/// What a Tendermint chain had committed to at one height.
#[derive(Clone, Debug, PartialEq, Eq)]
pub struct TendermintConsensusState {
    pub root: CommitmentRoot,
    /// Seconds since the Unix epoch.
    pub timestamp: u64,
}

/// The root of a Merkle tree on the wire.
#[derive(Clone, Debug, PartialEq, Eq)]
pub struct RawMerkleRoot {
    pub hash: Vec<u8>,
}

/// A Tendermint consensus state on the wire. The root is a sub-message and
/// may be missing.
#[derive(Clone, Debug, PartialEq, Eq)]
pub struct RawTendermintConsensusState {
    pub root: Option<RawMerkleRoot>,
    pub timestamp: u64,
}

/// The latest trusted summary of a Tendermint chain.
#[derive(Debug, PartialEq, Eq)]
pub struct TendermintClientState {
    pub chain_id: ChainId,
    pub latest_height: Height,
    /// The height at which misbehaviour froze the client; the zero height
    /// while the client is live.
    pub frozen_height: Height,
}

/// A Tendermint client state on the wire. The two heights are sub-messages
/// and may be missing.
#[derive(Clone, Debug, PartialEq, Eq)]
pub struct RawTendermintClientState {
    pub chain_id: String,
    pub latest_height: Option<RawHeight>,
    pub frozen_height: Option<RawHeight>,
}

impl TendermintHeader {
    /// What decoding a raw header gives: the header, or `InvalidRawHeader`
    /// where the height is missing.
    pub open spec fn decode(raw: RawTendermintHeader) -> Result<TendermintHeader, Error> {
        match raw.height {
            Some(h) => Ok(TendermintHeader { height: h.height(), timestamp: raw.timestamp }),
            None => Err(Error::InvalidRawHeader),
        }
    }

    /// The wire form of a header.
    pub open spec fn encode(self) -> RawTendermintHeader {
        RawTendermintHeader {
            height: Some(RawHeight::of(self.height)),
            timestamp: self.timestamp,
        }
    }

    pub fn height(&self) -> (h: Height)
        ensures
            h == self.height,
    {
        self.height
    }

    pub fn client_type(&self) -> (t: ClientType)
        ensures
            t == ClientType::Tendermint,
    {
        ClientType::Tendermint
    }
}

impl TryFrom<RawTendermintHeader> for TendermintHeader {
    type Error = Error;

    /// Reads a header from its wire form. A raw header without a height is
    /// rejected with `InvalidRawHeader`; nothing else is.
    fn try_from(raw: RawTendermintHeader) -> (r: Result<TendermintHeader, Error>)
        ensures
            r == TendermintHeader::decode(raw),
            r is Err <==> raw.height is None,
    {
        match raw.height {
            Some(h) => Ok(TendermintHeader { height: Height::from(h), timestamp: raw.timestamp }),
            None => Err(Error::InvalidRawHeader),
        }
    }
}

impl TryFromSpecImpl<RawTendermintHeader> for TendermintHeader {
    open spec fn obeys_try_from_spec() -> bool {
        true
    }

    open spec fn try_from_spec(raw: RawTendermintHeader) -> Result<TendermintHeader, Error> {
        TendermintHeader::decode(raw)
    }
}

impl From<TendermintHeader> for RawTendermintHeader {
    fn from(value: TendermintHeader) -> (raw: RawTendermintHeader)
        ensures
            raw == value.encode(),
    {
        RawTendermintHeader {
            height: Some(RawHeight::from(value.height)),
            timestamp: value.timestamp,
        }
    }
}

impl FromSpecImpl<TendermintHeader> for RawTendermintHeader {
    open spec fn obeys_from_spec() -> bool {
        true
    }

    open spec fn from_spec(value: TendermintHeader) -> RawTendermintHeader {
        value.encode()
    }
}

impl TendermintConsensusState {
    /// What decoding a raw consensus state gives: the state, or
    /// `InvalidRawConsensusState` where the root is missing.
    pub open spec fn decode(raw: RawTendermintConsensusState) -> Result<
        TendermintConsensusState,
        Error,
    > {
        match raw.root {
            Some(root) => Ok(
                TendermintConsensusState {
                    root: CommitmentRoot { bytes: root.hash },
                    timestamp: raw.timestamp,
                },
            ),
            None => Err(Error::InvalidRawConsensusState),
        }
    }

    /// The wire form of a consensus state.
    pub open spec fn encode(self) -> RawTendermintConsensusState {
        RawTendermintConsensusState {
            root: Some(RawMerkleRoot { hash: self.root.bytes }),
            timestamp: self.timestamp,
        }
    }

    /// The state is fit to be stored: it commits to something.
    pub open spec fn valid(&self) -> bool {
        self.root@.len() > 0
    }

    pub fn client_type(&self) -> (t: ClientType)
        ensures
            t == ClientType::Tendermint,
    {
        ClientType::Tendermint
    }

    pub fn root(&self) -> (root: &CommitmentRoot)
        ensures
            *root == self.root,
    {
        &self.root
    }

    pub fn timestamp(&self) -> (t: u64)
        ensures
            t == self.timestamp,
    {
        self.timestamp
    }

    /// Accepts the state if it commits to something, and refuses one with an
    /// empty root.
    pub fn validate_basic(&self) -> (r: Result<(), Error>)
        ensures
            r == if self.valid() {
                Ok::<(), Error>(())
            } else {
                Err::<(), Error>(Error::EmptyCommitmentRoot)
            },
    {
        if self.root.is_empty() {
            Err(Error::EmptyCommitmentRoot)
        } else {
            Ok(())
        }
    }
}

impl TryFrom<RawTendermintConsensusState> for TendermintConsensusState {
    type Error = Error;

    /// Reads a consensus state from its wire form. A raw state without a root
    /// is rejected with `InvalidRawConsensusState`; nothing else is.
    fn try_from(raw: RawTendermintConsensusState) -> (r: Result<TendermintConsensusState, Error>)
        ensures
            r == TendermintConsensusState::decode(raw),
            r is Err <==> raw.root is None,
    {
        match raw.root {
            Some(root) => Ok(
                TendermintConsensusState {
                    root: CommitmentRoot { bytes: root.hash },
                    timestamp: raw.timestamp,
                },
            ),
            None => Err(Error::InvalidRawConsensusState),
        }
    }
}

impl TryFromSpecImpl<RawTendermintConsensusState> for TendermintConsensusState {
    open spec fn obeys_try_from_spec() -> bool {
        true
    }

    open spec fn try_from_spec(raw: RawTendermintConsensusState) -> Result<
        TendermintConsensusState,
        Error,
    > {
        TendermintConsensusState::decode(raw)
    }
}

impl From<TendermintConsensusState> for RawTendermintConsensusState {
    fn from(value: TendermintConsensusState) -> (raw: RawTendermintConsensusState)
        ensures
            raw == value.encode(),
    {
        RawTendermintConsensusState {
            root: Some(RawMerkleRoot { hash: value.root.bytes }),
            timestamp: value.timestamp,
        }
    }
}

impl FromSpecImpl<TendermintConsensusState> for RawTendermintConsensusState {
    open spec fn obeys_from_spec() -> bool {
        true
    }

    open spec fn from_spec(value: TendermintConsensusState) -> RawTendermintConsensusState {
        value.encode()
    }
}

impl TendermintClientState {
    /// What decoding a raw client state gives: the state, or
    /// `InvalidRawClientState` where one of its two heights is missing.
    pub open spec fn decode(raw: RawTendermintClientState) -> Result<TendermintClientState, Error> {
        match (raw.latest_height, raw.frozen_height) {
            (Some(latest), Some(frozen)) => Ok(
                TendermintClientState {
                    chain_id: ChainId { id: raw.chain_id },
                    latest_height: latest.height(),
                    frozen_height: frozen.height(),
                },
            ),
            _ => Err(Error::InvalidRawClientState),
        }
    }

    /// The wire form of a client state.
    pub open spec fn encode(self) -> RawTendermintClientState {
        RawTendermintClientState {
            chain_id: self.chain_id.id,
            latest_height: Some(RawHeight::of(self.latest_height)),
            frozen_height: Some(RawHeight::of(self.frozen_height)),
        }
    }

    /// Misbehaviour has frozen the client.
    pub open spec fn frozen(&self) -> bool {
        !self.frozen_height.zero_spec()
    }

    /// A live client state for `chain_id` at `latest_height`.
    pub fn new(chain_id: ChainId, latest_height: Height) -> (s: TendermintClientState)
        ensures
            s.chain_id == chain_id,
            s.latest_height == latest_height,
            !s.frozen(),
    {
        TendermintClientState { chain_id, latest_height, frozen_height: Height::zero() }
    }

    pub fn chain_id(&self) -> (id: ChainId)
        ensures
            id == self.chain_id,
    {
        self.chain_id.clone()
    }

    pub fn client_type(&self) -> (t: ClientType)
        ensures
            t == ClientType::Tendermint,
    {
        ClientType::Tendermint
    }

    pub fn latest_height(&self) -> (h: Height)
        ensures
            h == self.latest_height,
    {
        self.latest_height
    }

    #[verifier::when_used_as_spec(frozen)]
    pub fn is_frozen(&self) -> (f: bool)
        ensures
            f == self.frozen(),
    {
        !self.frozen_height.is_zero()
    }

    /// The same client state with `height` as its frozen height. The state
    /// is frozen if the height denotes a block: the zero height marks a live
    /// client.
    pub fn with_frozen_height(self, height: Height) -> (s: TendermintClientState)
        ensures
            s.chain_id == self.chain_id,
            s.latest_height == self.latest_height,
            s.frozen_height == height,
            s.frozen() == !height.zero_spec(),
    {
        TendermintClientState {
            chain_id: self.chain_id,
            latest_height: self.latest_height,
            frozen_height: height,
        }
    }
}

impl Clone for TendermintClientState {
    fn clone(&self) -> (s: TendermintClientState)
        ensures
            s == *self,
    {
        TendermintClientState {
            chain_id: self.chain_id.clone(),
            latest_height: self.latest_height,
            frozen_height: self.frozen_height,
        }
    }
}

impl TryFrom<RawTendermintClientState> for TendermintClientState {
    type Error = Error;

    /// Reads a client state from its wire form. A raw state that lacks its
    /// latest height or its frozen height is rejected with
    /// `InvalidRawClientState`; nothing else is.
    fn try_from(raw: RawTendermintClientState) -> (r: Result<TendermintClientState, Error>)
        ensures
            r == TendermintClientState::decode(raw),
            r is Err <==> (raw.latest_height is None || raw.frozen_height is None),
    {
        match (raw.latest_height, raw.frozen_height) {
            (Some(latest), Some(frozen)) => Ok(
                TendermintClientState {
                    chain_id: ChainId { id: raw.chain_id },
                    latest_height: Height::from(latest),
                    frozen_height: Height::from(frozen),
                },
            ),
            _ => Err(Error::InvalidRawClientState),
        }
    }
}

impl TryFromSpecImpl<RawTendermintClientState> for TendermintClientState {
    open spec fn obeys_try_from_spec() -> bool {
        true
    }

    open spec fn try_from_spec(raw: RawTendermintClientState) -> Result<
        TendermintClientState,
        Error,
    > {
        TendermintClientState::decode(raw)
    }
}

impl From<TendermintClientState> for RawTendermintClientState {
    fn from(value: TendermintClientState) -> (raw: RawTendermintClientState)
        ensures
            raw == value.encode(),
    {
        RawTendermintClientState {
            chain_id: value.chain_id.id,
            latest_height: Some(RawHeight::from(value.latest_height)),
            frozen_height: Some(RawHeight::from(value.frozen_height)),
        }
    }
}

impl FromSpecImpl<TendermintClientState> for RawTendermintClientState {
    open spec fn obeys_from_spec() -> bool {
        true
    }

    open spec fn from_spec(value: TendermintClientState) -> RawTendermintClientState {
        value.encode()
    }
}

/// Decoding the wire form of a Tendermint header gives the header back.
pub proof fn lemma_tendermint_header_roundtrip(h: TendermintHeader)
    ensures
        TendermintHeader::decode(h.encode()) == Ok::<TendermintHeader, Error>(h),
{
}

/// Decoding the wire form of a Tendermint consensus state gives the state
/// back.
pub proof fn lemma_tendermint_consensus_state_roundtrip(s: TendermintConsensusState)
    ensures
        TendermintConsensusState::decode(s.encode()) == Ok::<TendermintConsensusState, Error>(s),
{
}

/// Decoding the wire form of a Tendermint client state gives the state back.
pub proof fn lemma_tendermint_client_state_roundtrip(s: TendermintClientState)
    ensures
        TendermintClientState::decode(s.encode()) == Ok::<TendermintClientState, Error>(s),
{
}

} // verus!
