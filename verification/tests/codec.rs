use ibc_monitor::any::AnyClientState;
use ibc_monitor::any::AnyConsensusState;
use ibc_monitor::any::AnyHeader;
use ibc_monitor::client_type::ClientType;
use ibc_monitor::commitment::CommitmentRoot;
use ibc_monitor::error::Error;
use ibc_monitor::height::Height;
use ibc_monitor::height::RawHeight;
use ibc_monitor::identifier::ChainId;
use ibc_monitor::mock::client_state::MockClientState;
use ibc_monitor::mock::client_state::MockConsensusState;
use ibc_monitor::mock::client_state::RawMockClientState;
use ibc_monitor::mock::client_state::RawMockConsensusState;
use ibc_monitor::mock::header::MockHeader;
use ibc_monitor::mock::header::RawMockHeader;
use ibc_monitor::tendermint::RawMerkleRoot;
use ibc_monitor::tendermint::RawTendermintClientState;
use ibc_monitor::tendermint::RawTendermintConsensusState;
use ibc_monitor::tendermint::RawTendermintHeader;
use ibc_monitor::tendermint::TendermintClientState;
use ibc_monitor::tendermint::TendermintConsensusState;
use ibc_monitor::tendermint::TendermintHeader;

#[test]
fn mock_header_new_has_zero_timestamp() {
    let h = MockHeader::new(Height::new(2, 9));
    assert_eq!(h.height(), Height::new(2, 9));
    assert_eq!(h.timestamp, 0);
    assert_eq!(MockHeader::default(), MockHeader::new(Height::zero()));
}

#[test]
fn mock_header_encodes_with_its_height_present() {
    let h = MockHeader { height: Height::new(1, 42), timestamp: 1_600_000_000 };
    let raw = RawMockHeader::from(h);
    assert_eq!(
        raw,
        RawMockHeader {
            height: Some(RawHeight { revision_number: 1, revision_height: 42 }),
            timestamp: 1_600_000_000,
        }
    );
}

#[test]
fn mock_header_roundtrip() {
    let h = MockHeader { height: Height::new(1, 42), timestamp: 1_600_000_000 };
    assert_eq!(MockHeader::try_from(RawMockHeader::from(h)), Ok(h));
    let raw: RawMockHeader = h.into();
    let back: Result<MockHeader, Error> = raw.try_into();
    assert_eq!(back, Ok(h));
}

#[test]
fn mock_header_without_height_is_rejected() {
    let raw = RawMockHeader { height: None, timestamp: 5 };
    assert_eq!(MockHeader::try_from(raw), Err(Error::InvalidRawHeader));
}

#[test]
fn mock_client_state_roundtrip() {
    let s = MockClientState(MockHeader { height: Height::new(0, 10), timestamp: 77 });
    let raw = RawMockClientState::from(s);
    assert_eq!(
        raw,
        RawMockClientState {
            header: Some(RawMockHeader {
                height: Some(RawHeight { revision_number: 0, revision_height: 10 }),
                timestamp: 77,
            }),
        }
    );
    assert_eq!(MockClientState::try_from(raw), Ok(s));
}

#[test]
fn mock_client_state_without_header_is_rejected() {
    let raw = RawMockClientState { header: None };
    assert_eq!(MockClientState::try_from(raw), Err(Error::InvalidRawClientState));
}

#[test]
fn mock_client_state_whose_header_lacks_height_is_rejected() {
    let raw = RawMockClientState { header: Some(RawMockHeader { height: None, timestamp: 1 }) };
    assert_eq!(MockClientState::try_from(raw), Err(Error::InvalidRawHeader));
}

#[test]
fn mock_consensus_state_roundtrip() {
    let s = MockConsensusState(MockHeader { height: Height::new(3, 1), timestamp: 12 });
    let raw = RawMockConsensusState::from(s);
    assert_eq!(raw.header.unwrap().timestamp, 12);
    assert_eq!(MockConsensusState::try_from(raw), Ok(s));
    assert_eq!(s.timestamp(), 12);
}

#[test]
fn mock_consensus_state_without_header_is_rejected() {
    let raw = RawMockConsensusState { header: None };
    assert_eq!(MockConsensusState::try_from(raw), Err(Error::InvalidRawConsensusState));
}

#[test]
fn mock_consensus_state_whose_header_lacks_height_is_rejected() {
    let raw = RawMockConsensusState { header: Some(RawMockHeader { height: None, timestamp: 1 }) };
    assert_eq!(MockConsensusState::try_from(raw), Err(Error::InvalidRawHeader));
}

#[test]
fn mock_client_state_from_consensus_state() {
    let header = MockHeader { height: Height::new(1, 8), timestamp: 3 };
    let client_state = MockClientState::from(MockConsensusState(header));
    assert_eq!(client_state, MockClientState(header));
    assert_eq!(client_state.latest_height(), Height::new(1, 8));
}

#[test]
fn mock_client_state_capabilities() {
    let s = MockClientState(MockHeader::new(Height::new(1, 8)));
    assert_eq!(s.client_type(), ClientType::Mock);
    assert_eq!(s.latest_height(), Height::new(1, 8));
    assert!(!s.is_frozen());
    assert_eq!(s.chain_id(), ChainId::from_str("mock-0"));
}

#[test]
fn mock_consensus_state_capabilities() {
    let s = MockConsensusState(MockHeader::new(Height::new(1, 8)));
    assert_eq!(s.client_type(), ClientType::Mock);
    assert_eq!(s.root(), CommitmentRoot::empty());
    assert_eq!(s.validate_basic(), Ok(()));
}

#[test]
fn tendermint_header_roundtrip_and_reject() {
    let h = TendermintHeader { height: Height::new(4, 100), timestamp: 9 };
    let raw = RawTendermintHeader::from(h);
    assert_eq!(raw.height, Some(RawHeight { revision_number: 4, revision_height: 100 }));
    assert_eq!(TendermintHeader::try_from(raw), Ok(h));
    assert_eq!(
        TendermintHeader::try_from(RawTendermintHeader { height: None, timestamp: 9 }),
        Err(Error::InvalidRawHeader)
    );
}

#[test]
fn tendermint_consensus_state_roundtrip_and_reject() {
    let s = TendermintConsensusState {
        root: CommitmentRoot::from_bytes(vec![1, 2, 3]),
        timestamp: 1_600_000_000,
    };
    let raw = RawTendermintConsensusState::from(s.clone());
    assert_eq!(raw.root, Some(RawMerkleRoot { hash: vec![1, 2, 3] }));
    assert_eq!(raw.timestamp, 1_600_000_000);
    assert_eq!(TendermintConsensusState::try_from(raw), Ok(s));
    assert_eq!(
        TendermintConsensusState::try_from(RawTendermintConsensusState {
            root: None,
            timestamp: 1
        }),
        Err(Error::InvalidRawConsensusState)
    );
}

#[test]
fn tendermint_client_state_roundtrip() {
    let live = TendermintClientState::new(ChainId::from_str("ibc-1"), Height::new(1, 20));
    let raw = RawTendermintClientState::from(live.clone());
    assert_eq!(raw.chain_id, "ibc-1");
    assert_eq!(raw.latest_height, Some(RawHeight { revision_number: 1, revision_height: 20 }));
    assert_eq!(raw.frozen_height, Some(RawHeight { revision_number: 0, revision_height: 0 }));
    assert_eq!(TendermintClientState::try_from(raw), Ok(live.clone()));

    let frozen = live.with_frozen_height(Height::new(1, 15));
    let raw = RawTendermintClientState::from(frozen.clone());
    assert_eq!(raw.frozen_height, Some(RawHeight { revision_number: 1, revision_height: 15 }));
    assert_eq!(TendermintClientState::try_from(raw), Ok(frozen));
}

#[test]
fn tendermint_client_state_without_a_height_is_rejected() {
    let height = Some(RawHeight { revision_number: 1, revision_height: 20 });
    let no_latest = RawTendermintClientState {
        chain_id: String::from("ibc-1"),
        latest_height: None,
        frozen_height: height,
    };
    assert_eq!(TendermintClientState::try_from(no_latest), Err(Error::InvalidRawClientState));
    let no_frozen = RawTendermintClientState {
        chain_id: String::from("ibc-1"),
        latest_height: height,
        frozen_height: None,
    };
    assert_eq!(TendermintClientState::try_from(no_frozen), Err(Error::InvalidRawClientState));
}

#[test]
fn tendermint_client_state_freezes_for_good() {
    let live = TendermintClientState::new(ChainId::from_str("ibc-1"), Height::new(1, 20));
    assert!(!live.is_frozen());
    assert_eq!(live.chain_id(), ChainId::from_str("ibc-1"));
    assert_eq!(live.latest_height(), Height::new(1, 20));
    let frozen = live.clone().with_frozen_height(Height::new(1, 15));
    assert!(frozen.is_frozen());
    assert_eq!(frozen.latest_height(), Height::new(1, 20));
    assert!(!live.with_frozen_height(Height::new(1, 0)).is_frozen());
}

#[test]
fn tendermint_consensus_state_must_commit_to_something() {
    let good = TendermintConsensusState { root: CommitmentRoot::from_bytes(vec![9]), timestamp: 1 };
    assert_eq!(good.validate_basic(), Ok(()));
    assert_eq!(good.root(), &CommitmentRoot::from_bytes(vec![9]));
    assert_eq!(good.timestamp(), 1);
    let empty = TendermintConsensusState { root: CommitmentRoot::empty(), timestamp: 1 };
    assert_eq!(empty.validate_basic(), Err(Error::EmptyCommitmentRoot));
    assert!(CommitmentRoot::empty().is_empty());
}

#[test]
fn wrapped_header_keeps_its_client_type_and_height() {
    let mock = MockHeader { height: Height::new(1, 2), timestamp: 3 };
    let any = mock.wrap_any();
    assert_eq!(any, AnyHeader::Mock(mock));
    assert_eq!(any.client_type(), mock.client_type());
    assert_eq!(any.height(), Height::new(1, 2));
    assert_eq!(any.timestamp(), 3);
    assert_eq!(AnyHeader::from(mock), any);

    let real = TendermintHeader { height: Height::new(5, 6), timestamp: 7 };
    let any = real.wrap_any();
    assert_eq!(any, AnyHeader::Tendermint(real));
    assert_eq!(any.client_type(), ClientType::Tendermint);
    assert_eq!(any.height(), Height::new(5, 6));
    assert_eq!(any.timestamp(), 7);
    assert_eq!(AnyHeader::from(real), any);
}

#[test]
fn wrapped_consensus_state_keeps_its_client_type() {
    let mock = MockConsensusState(MockHeader { height: Height::new(1, 2), timestamp: 3 });
    let any = mock.wrap_any();
    assert_eq!(any, AnyConsensusState::Mock(mock));
    assert_eq!(any.client_type(), ClientType::Mock);
    assert_eq!(any.timestamp(), 3);
    assert_eq!(any.root(), CommitmentRoot::empty());
    assert_eq!(any.validate_basic(), Ok(()));
    assert_eq!(AnyConsensusState::from(mock), any);
    assert_eq!(AnyConsensusState::from(mock.0), any);

    let real = TendermintConsensusState { root: CommitmentRoot::from_bytes(vec![4, 5]), timestamp: 6 };
    let any = real.clone().wrap_any();
    assert_eq!(any.client_type(), ClientType::Tendermint);
    assert_eq!(any.timestamp(), 6);
    assert_eq!(any.root(), CommitmentRoot::from_bytes(vec![4, 5]));
    assert_eq!(any.validate_basic(), Ok(()));
    assert_eq!(AnyConsensusState::from(real), any);
    let empty = TendermintConsensusState { root: CommitmentRoot::empty(), timestamp: 6 };
    assert_eq!(empty.wrap_any().validate_basic(), Err(Error::EmptyCommitmentRoot));
}

#[test]
fn wrapped_client_state_keeps_its_capabilities() {
    let mock = MockClientState(MockHeader { height: Height::new(1, 2), timestamp: 3 });
    let any = mock.wrap_any();
    assert_eq!(any, AnyClientState::Mock(mock));
    assert_eq!(any.client_type(), ClientType::Mock);
    assert_eq!(any.latest_height(), Height::new(1, 2));
    assert!(!any.is_frozen());
    assert_eq!(any.chain_id(), ChainId::from_str("mock-0"));
    assert_eq!(AnyClientState::from(mock), any);

    let real = TendermintClientState::new(ChainId::from_str("ibc-0"), Height::new(0, 30));
    let any = real.clone().wrap_any();
    assert_eq!(any.client_type(), ClientType::Tendermint);
    assert_eq!(any.latest_height(), Height::new(0, 30));
    assert!(!any.is_frozen());
    assert_eq!(any.chain_id(), ChainId::from_str("ibc-0"));
    assert_eq!(any.clone(), any);
    assert_eq!(AnyClientState::from(real.clone()), any);
    let frozen = real.with_frozen_height(Height::new(0, 29)).wrap_any();
    assert!(frozen.is_frozen());
}

#[test]
fn client_type_wire_names() {
    assert_eq!(ClientType::Tendermint.as_str(), "07-tendermint");
    assert_eq!(ClientType::Mock.as_str(), "9999-mock");
    assert_eq!(ClientType::from_str("07-tendermint"), Ok(ClientType::Tendermint));
    assert_eq!(ClientType::from_str("9999-mock"), Ok(ClientType::Mock));
    assert_eq!(
        ClientType::from_str("06-solomachine"),
        Err(Error::UnknownClientType(String::from("06-solomachine")))
    );
    assert_eq!(ClientType::from_str(""), Err(Error::UnknownClientType(String::new())));
    for t in [ClientType::Tendermint, ClientType::Mock].iter() {
        assert_eq!(ClientType::from_str(t.as_str()), Ok(*t));
    }
}
