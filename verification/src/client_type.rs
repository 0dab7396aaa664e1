//! The consensus algorithms that a client can follow.

use vstd::prelude::*;
use crate::error::Error;

verus! {

/// The tag of a consensus algorithm. Every header, consensus state and client
/// state carries exactly one of these, and a client keeps its tag for life.
#[derive(Copy, Clone, Debug, PartialEq, Eq, Hash, Structural)]
pub enum ClientType {
    /// The Tendermint light client.
    Tendermint,
    /// The client used to test handlers: it trusts every header.
    Mock,
}

impl ClientType {
    /// The tag as it is written on the wire and at the front of client
    /// identifiers.
    pub open spec fn wire_name(self) -> Seq<char> {
        match self {
            ClientType::Tendermint => "07-tendermint"@,
            ClientType::Mock => "9999-mock"@,
        }
    }

    /// The tag that a wire name denotes, if it denotes one.
    pub open spec fn of_wire_name(name: Seq<char>) -> Option<ClientType> {
        if name == "07-tendermint"@ {
            Some(ClientType::Tendermint)
        } else if name == "9999-mock"@ {
            Some(ClientType::Mock)
        } else {
            None
        }
    }

    pub fn as_str(self) -> (name: &'static str)
        ensures
            name@ == self.wire_name(),
    {
        match self {
            ClientType::Tendermint => "07-tendermint",
            ClientType::Mock => "9999-mock",
        }
    }

    /// Reads a tag from its wire name. A text that is the wire name of no
    /// client type is rejected with `UnknownClientType`.
    pub fn from_str(name: &str) -> (r: Result<ClientType, Error>)
        ensures
            match ClientType::of_wire_name(name@) {
                Some(t) => r == Ok::<ClientType, Error>(t),
                None => r matches Err(Error::UnknownClientType(text)) && text@ == name@,
            },
    {
        let text = name.to_owned();
        if text == "07-tendermint".to_owned() {
            Ok(ClientType::Tendermint)
        } else if text == "9999-mock".to_owned() {
            Ok(ClientType::Mock)
        } else {
            Err(Error::UnknownClientType(text))
        }
    }
}

/// The two wire names are different texts, so reading back the wire name of a
/// tag gives that tag.
pub proof fn lemma_client_type_wire_name_roundtrip(t: ClientType)
    ensures
        ClientType::of_wire_name(t.wire_name()) == Some(t),
{
    reveal_strlit("07-tendermint");
    reveal_strlit("9999-mock");
    assert("07-tendermint"@.len() == 13);
    assert("9999-mock"@.len() == 9);
}

} // verus!
