//! The header of the mock client.

use vstd::prelude::*;
use vstd::std_specs::convert::FromSpecImpl;
use vstd::std_specs::convert::TryFromSpecImpl;
use crate::client_type::ClientType;
use crate::error::Error;
use crate::height::Height;
use crate::height::RawHeight;

verus! {

/// A mock header: the height it is for, and the time of its block in seconds
/// since the Unix epoch.
#[derive(Copy, Clone, Debug, PartialEq, Eq, Structural)]
pub struct MockHeader {
    pub height: Height,
    pub timestamp: u64,
}

/// A mock header as it travels on the wire. The height is a sub-message and
/// may be missing.
#[derive(Copy, Clone, Debug, PartialEq, Eq)]
pub struct RawMockHeader {
    pub height: Option<RawHeight>,
    pub timestamp: u64,
}

impl MockHeader {
    /// What decoding a raw header gives: the header, or `InvalidRawHeader`
    /// where the height is missing.
    pub open spec fn decode(raw: RawMockHeader) -> Result<MockHeader, Error> {
        match raw.height {
            Some(h) => Ok(MockHeader { height: h.height(), timestamp: raw.timestamp }),
            None => Err(Error::InvalidRawHeader),
        }
    }

    /// The wire form of a header. Every header has one.
    pub open spec fn encode(self) -> RawMockHeader {
        RawMockHeader { height: Some(RawHeight::of(self.height)), timestamp: self.timestamp }
    }

    pub fn height(&self) -> (h: Height)
        ensures
            h == self.height,
    {
        self.height
    }

    /// A header for `height` with the timestamp zero.
    pub fn new(height: Height) -> (h: MockHeader)
        ensures
            h == (MockHeader { height, timestamp: 0 }),
    {
        MockHeader { height, timestamp: 0 }
    }

    pub fn client_type(&self) -> (t: ClientType)
        ensures
            t == ClientType::Mock,
    {
        ClientType::Mock
    }
}

impl TryFrom<RawMockHeader> for MockHeader {
    type Error = Error;

    /// Reads a header from its wire form. A raw header without a height is
    /// rejected with `InvalidRawHeader`; nothing else is.
    fn try_from(raw: RawMockHeader) -> (r: Result<MockHeader, Error>)
        ensures
            r == MockHeader::decode(raw),
            r is Err <==> raw.height is None,
    {
        match raw.height {
            Some(h) => Ok(MockHeader { height: Height::from(h), timestamp: raw.timestamp }),
            None => Err(Error::InvalidRawHeader),
        }
    }
}

impl TryFromSpecImpl<RawMockHeader> for MockHeader {
    open spec fn obeys_try_from_spec() -> bool {
        true
    }

    open spec fn try_from_spec(raw: RawMockHeader) -> Result<MockHeader, Error> {
        MockHeader::decode(raw)
    }
}

impl From<MockHeader> for RawMockHeader {
    /// Writes a header in its wire form.
    fn from(value: MockHeader) -> (raw: RawMockHeader)
        ensures
            raw == value.encode(),
    {
        RawMockHeader { height: Some(RawHeight::from(value.height)), timestamp: value.timestamp }
    }
}

impl FromSpecImpl<MockHeader> for RawMockHeader {
    open spec fn obeys_from_spec() -> bool {
        true
    }

    open spec fn from_spec(value: MockHeader) -> RawMockHeader {
        value.encode()
    }
}

impl Default for MockHeader {
    fn default() -> (h: MockHeader)
        ensures
            h.height == (Height { revision_number: 0, revision_height: 0 }),
            h.timestamp == 0,
    {
        MockHeader { height: Height::zero(), timestamp: 0 }
    }
}

/// Decoding the wire form of a mock header gives the header back.
pub proof fn lemma_mock_header_roundtrip(h: MockHeader)
    ensures
        MockHeader::decode(h.encode()) == Ok::<MockHeader, Error>(h),
{
}

} // verus!
