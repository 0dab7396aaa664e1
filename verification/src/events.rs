//! The events of a chain that concern its clients.

use vstd::prelude::*;
use crate::client_type::ClientType;
use crate::height::Height;
use crate::identifier::ClientId;

verus! {

/// What every client event says: the chain height at which it was emitted,
/// the client it is about, the type of that client and the height of the
/// consensus state involved.
#[derive(Debug, PartialEq, Eq)]
pub struct Attributes {
    pub height: Height,
    pub client_id: ClientId,
    pub client_type: ClientType,
    pub consensus_height: Height,
}

/// A client was created.
#[derive(Debug, PartialEq, Eq)]
pub struct CreateClient(pub Attributes);

/// A client accepted a new header.
#[derive(Debug, PartialEq, Eq)]
pub struct UpdateClient(pub Attributes);

/// A chain accepted evidence of misbehaviour against a client.
#[derive(Debug, PartialEq, Eq)]
pub struct ClientMisbehaviour(pub Attributes);

/// An event of a chain, as far as the monitor tells events apart.
#[derive(Debug, PartialEq, Eq)]
pub enum IbcEvent {
    NewBlock(Height),
    CreateClient(CreateClient),
    UpdateClient(UpdateClient),
    ClientMisbehaviour(ClientMisbehaviour),
    ChainError(String),
}

impl Clone for Attributes {
    fn clone(&self) -> (a: Attributes)
        ensures
            a == *self,
    {
        Attributes {
            height: self.height,
            client_id: self.client_id.clone(),
            client_type: self.client_type,
            consensus_height: self.consensus_height,
        }
    }
}

impl CreateClient {
    pub fn client_id(&self) -> (id: &ClientId)
        ensures
            *id == self.0.client_id,
    {
        &self.0.client_id
    }
}

impl Clone for CreateClient {
    fn clone(&self) -> (e: CreateClient)
        ensures
            e == *self,
    {
        CreateClient(self.0.clone())
    }
}

impl UpdateClient {
    pub fn client_id(&self) -> (id: &ClientId)
        ensures
            *id == self.0.client_id,
    {
        &self.0.client_id
    }

    pub fn consensus_height(&self) -> (h: Height)
        ensures
            h == self.0.consensus_height,
    {
        self.0.consensus_height
    }
}

impl Clone for UpdateClient {
    fn clone(&self) -> (e: UpdateClient)
        ensures
            e == *self,
    {
        UpdateClient(self.0.clone())
    }
}

impl ClientMisbehaviour {
    pub fn client_id(&self) -> (id: &ClientId)
        ensures
            *id == self.0.client_id,
    {
        &self.0.client_id
    }
}

impl Clone for ClientMisbehaviour {
    fn clone(&self) -> (e: ClientMisbehaviour)
        ensures
            e == *self,
    {
        ClientMisbehaviour(self.0.clone())
    }
}

impl Clone for IbcEvent {
    fn clone(&self) -> (e: IbcEvent)
        ensures
            e == *self,
    {
        match self {
            IbcEvent::NewBlock(h) => IbcEvent::NewBlock(*h),
            IbcEvent::CreateClient(c) => IbcEvent::CreateClient(c.clone()),
            IbcEvent::UpdateClient(u) => IbcEvent::UpdateClient(u.clone()),
            IbcEvent::ClientMisbehaviour(m) => IbcEvent::ClientMisbehaviour(m.clone()),
            IbcEvent::ChainError(text) => IbcEvent::ChainError(text.clone()),
        }
    }
}

} // verus!
