//! Identifiers of chains and of the clients that track them.

use vstd::prelude::*;
use vstd::std_specs::cmp::PartialEqSpecImpl;

verus! {

/// The identifier of a chain, such as `ibc-0`.
#[derive(Debug, Eq, Hash)]
pub struct ChainId {
    pub id: String,
}

/// The identifier under which a chain stores one client, such as
/// `07-tendermint-5`.
#[derive(Debug, Eq, Hash)]
pub struct ClientId {
    pub id: String,
}

impl View for ChainId {
    type V = Seq<char>;

    open spec fn view(&self) -> Seq<char> {
        self.id@
    }
}

impl View for ClientId {
    type V = Seq<char>;

    open spec fn view(&self) -> Seq<char> {
        self.id@
    }
}

impl ChainId {
    pub fn new(id: String) -> (c: ChainId)
        ensures
            c.id == id,
    {
        ChainId { id }
    }

    pub fn from_str(id: &str) -> (c: ChainId)
        ensures
            c@ == id@,
    {
        ChainId { id: id.to_owned() }
    }

    pub fn as_str(&self) -> (s: &str)
        ensures
            s@ == self@,
    {
        self.id.as_str()
    }
}

impl ClientId {
    pub fn new(id: String) -> (c: ClientId)
        ensures
            c.id == id,
    {
        ClientId { id }
    }

    pub fn from_str(id: &str) -> (c: ClientId)
        ensures
            c@ == id@,
    {
        ClientId { id: id.to_owned() }
    }

    pub fn as_str(&self) -> (s: &str)
        ensures
            s@ == self@,
    {
        self.id.as_str()
    }
}

impl Clone for ChainId {
    fn clone(&self) -> (c: ChainId)
        ensures
            c == *self,
    {
        ChainId { id: self.id.clone() }
    }
}

impl Clone for ClientId {
    fn clone(&self) -> (c: ClientId)
        ensures
            c == *self,
    {
        ClientId { id: self.id.clone() }
    }
}

impl PartialEq for ChainId {
    fn eq(&self, other: &ChainId) -> (r: bool) {
        self.id == other.id
    }
}

impl PartialEqSpecImpl for ChainId {
    open spec fn obeys_eq_spec() -> bool {
        true
    }

    open spec fn eq_spec(&self, other: &ChainId) -> bool {
        self@ == other@
    }
}

impl PartialEq for ClientId {
    fn eq(&self, other: &ClientId) -> (r: bool) {
        self.id == other.id
    }
}

impl PartialEqSpecImpl for ClientId {
    open spec fn obeys_eq_spec() -> bool {
        true
    }

    open spec fn eq_spec(&self, other: &ClientId) -> bool {
        self@ == other@
    }
}

} // verus!
