//! The client records of one chain, held in memory.
//!
//! The store answers what the current state of a client is and which
//! consensus state was accepted at a height, and it takes the two changes
//! that a chain makes to its clients: the creation of a client, and the
//! update of a client to a higher height.

use vstd::prelude::*;
use crate::any::AnyClientState;
use crate::any::AnyConsensusState;
use crate::client_type::ClientType;
use crate::error::Error;
use crate::height::Height;
use crate::identifier::ClientId;
use crate::record::lemma_last_height_is_maximum;
use crate::record::ConsensusEntry;
use crate::record::MockClientRecord;

verus! {

/// A client record under its identifier.
#[derive(Debug, PartialEq, Eq)]
pub struct ClientEntry {
    pub client_id: ClientId,
    pub record: MockClientRecord,
}

/// How much of the clients of a chain to list. The store holds every client
/// in memory and lists them all at once, so it has no use for a page
/// request; the field is kept for callers that pass one on.
#[derive(Debug, PartialEq, Eq)]
pub struct QueryClientStatesRequest {
    pub pagination: Option<PageRequest>,
}

/// The part of a listing that a caller asks for.
#[derive(Debug, PartialEq, Eq)]
pub struct PageRequest {
    pub offset: u64,
    pub limit: u64,
}

/// The client records of one chain, in the order in which the clients were
/// created.
#[derive(Debug, PartialEq, Eq)]
pub struct ClientStore {
    pub clients: Vec<ClientEntry>,
}

impl ClientStore {
    /// Entry `i` is the first entry under the identifier `id`.
    pub open spec fn is_first(&self, i: int, id: Seq<char>) -> bool {
        &&& 0 <= i < self.clients@.len()
        &&& self.clients@[i].client_id@ == id
        &&& forall|j: int| 0 <= j < i ==> (#[trigger] self.clients@[j]).client_id@ != id
    }

    /// A record is stored under the identifier `id`.
    pub open spec fn contains(&self, id: Seq<char>) -> bool {
        exists|i: int| 0 <= i < self.clients@.len() && (#[trigger] self.clients@[i]).client_id@ == id
    }

    /// The place of the record stored under `id`, where there is one.
    pub open spec fn position(&self, id: Seq<char>) -> int {
        choose|i: int| self.is_first(i, id)
    }

    /// The record stored under `id`, where there is one.
    pub open spec fn record(&self, id: Seq<char>) -> MockClientRecord {
        self.clients@[self.position(id)].record
    }

    /// The current state of the client `id`: none where no record is stored
    /// under `id`, and none where the client has not been initialised.
    pub open spec fn client_state_of(&self, id: Seq<char>) -> Option<AnyClientState> {
        if self.contains(id) {
            self.record(id).client_state
        } else {
            None
        }
    }

    /// The identifiers of the stored clients, in the order of their creation.
    pub open spec fn ids(&self) -> Seq<ClientId> {
        Seq::new(self.clients@.len(), |i: int| self.clients@[i].client_id)
    }

    /// The store is well formed: every record is, and no identifier is used
    /// twice.
    pub open spec fn wf(&self) -> bool {
        &&& forall|i: int| 0 <= i < self.clients@.len() ==> (#[trigger] self.clients@[i]).record.wf()
        &&& forall|i: int, j: int|
            0 <= i < j < self.clients@.len() ==> (#[trigger] self.clients@[i]).client_id@ != (
            #[trigger] self.clients@[j]).client_id@
    }

    /// Whether a client may be created, and if not, why not.
    ///
    /// The identifier must be free, the two states must be of the client
    /// type given, the latest height of the client state must be the height
    /// of a block, and the consensus state must be valid. The first of these
    /// that fails gives the error.
    pub open spec fn create_verdict(
        &self,
        client_id: ClientId,
        client_type: ClientType,
        client_state: AnyClientState,
        consensus_state: AnyConsensusState,
    ) -> Result<(), Error> {
        if self.contains(client_id@) {
            Err(Error::ClientAlreadyExists(client_id))
        } else if client_state.kind() != client_type || consensus_state.kind() != client_type {
            Err(Error::ClientTypeMismatch(client_id))
        } else if client_state.latest().zero_spec() {
            Err(Error::InvalidHeight(client_id))
        } else if !consensus_state.valid() {
            Err(Error::EmptyCommitmentRoot)
        } else {
            Ok(())
        }
    }

    /// Whether a client may be updated, and if not, why not.
    ///
    /// The client must exist and be initialised, it must not be frozen, the
    /// two new states must be of its client type, the consensus state must be
    /// valid, and the latest height of the new client state must be the
    /// height of a block and come after the client's latest. The first of
    /// these that fails gives the error.
    pub open spec fn update_verdict(
        &self,
        client_id: ClientId,
        client_state: AnyClientState,
        consensus_state: AnyConsensusState,
    ) -> Result<(), Error> {
        match self.client_state_of(client_id@) {
            None => Err(Error::ClientNotFound(client_id)),
            Some(current) => {
                let client_type = self.record(client_id@).client_type;
                if current.frozen() {
                    Err(Error::ClientFrozen(client_id))
                } else if client_state.kind() != client_type || consensus_state.kind()
                    != client_type {
                    Err(Error::ClientTypeMismatch(client_id))
                } else if !consensus_state.valid() {
                    Err(Error::EmptyCommitmentRoot)
                } else if client_state.latest().zero_spec() {
                    Err(Error::InvalidHeight(client_id))
                } else if !current.latest().precedes(client_state.latest()) {
                    Err(Error::HeightNotAdvanced(client_id))
                } else {
                    Ok(())
                }
            },
        }
    }

    /// `self` is `before` with one client more: the client `client_id`, of
    /// the given type and state, with the consensus state stored under the
    /// latest height of the client state. The new client comes last, and
    /// every other client is as it was.
    pub open spec fn created_from(
        &self,
        before: ClientStore,
        client_id: ClientId,
        client_type: ClientType,
        client_state: AnyClientState,
        consensus_state: AnyConsensusState,
    ) -> bool {
        &&& self.ids() == before.ids().push(client_id)
        &&& forall|other: Seq<char>| #[trigger]
            self.contains(other) == (before.contains(other) || other == client_id@)
        &&& forall|other: Seq<char>|
            before.contains(other) ==> #[trigger] self.record(other) == before.record(other)
        &&& self.record(client_id@).client_type == client_type
        &&& self.record(client_id@).client_state == Some(client_state)
        &&& self.record(client_id@).consensus_states@ == seq![
            ConsensusEntry { height: client_state.latest(), state: consensus_state },
        ]
    }

    /// `self` is `before` with the client `id` updated: its state replaced by
    /// `client_state`, and `consensus_state` added under the latest height of
    /// that state, after every consensus state that the client had. Nothing
    /// else differs: the client keeps its type, and every other client is as
    /// it was.
    pub open spec fn updated_from(
        &self,
        before: ClientStore,
        id: Seq<char>,
        client_state: AnyClientState,
        consensus_state: AnyConsensusState,
    ) -> bool {
        &&& self.ids() == before.ids()
        &&& forall|other: Seq<char>| #[trigger] self.contains(other) == before.contains(other)
        &&& forall|other: Seq<char>|
            before.contains(other) && other != id ==> #[trigger] self.record(other)
                == before.record(other)
        &&& self.record(id).client_type == before.record(id).client_type
        &&& self.record(id).client_state == Some(client_state)
        &&& self.record(id).consensus_states@ == before.record(id).consensus_states@.push(
            ConsensusEntry { height: client_state.latest(), state: consensus_state },
        )
    }

    /// A store without clients.
    pub fn new() -> (store: ClientStore)
        ensures
            store.clients@.len() == 0,
            store.wf(),
    {
        ClientStore { clients: Vec::new() }
    }

    /// The place of the first record under the identifier, if there is one.
    fn find(&self, client_id: &ClientId) -> (found: Option<usize>)
        ensures
            found is Some <==> self.contains(client_id@),
            found matches Some(i) ==> self.is_first(i as int, client_id@) && self.position(
                client_id@,
            ) == i,
    {
        let mut i: usize = 0;
        while i < self.clients.len()
            invariant
                i <= self.clients@.len(),
                forall|j: int| 0 <= j < i ==> (#[trigger] self.clients@[j]).client_id@ != client_id@,
            decreases self.clients.len() - i,
        {
            if self.clients[i].client_id == *client_id {
                proof {
                    assert(self.is_first(i as int, client_id@));
                    let k = self.position(client_id@);
                    assert(self.is_first(k, client_id@));
                    assert(self.clients@[k].client_id@ == client_id@);
                    assert(k == i);
                }
                return Some(i);
            }
            i = i + 1;
        }
        None
    }

    /// The type of the client, if a record is stored under the identifier.
    pub fn client_type(&self, client_id: &ClientId) -> (found: Option<ClientType>)
        ensures
            found == if self.contains(client_id@) {
                Some(self.record(client_id@).client_type)
            } else {
                None
            },
    {
        match self.find(client_id) {
            Some(i) => Some(self.clients[i].record.client_type),
            None => None,
        }
    }

    /// The current state of a client.
    ///
    /// The store keeps the current state of each client and no earlier one,
    /// so it answers every height with the current state: the zero height,
    /// which asks for the latest, and any other. Where no state is stored
    /// under the identifier the answer is `ClientNotFound`.
    pub fn query_client_state(&self, client_id: &ClientId, height: Height) -> (r: Result<
        AnyClientState,
        Error,
    >)
        ensures
            r == match self.client_state_of(client_id@) {
                Some(state) => Ok::<AnyClientState, Error>(state),
                None => Err::<AnyClientState, Error>(Error::ClientNotFound(*client_id)),
            },
    {
        match self.find(client_id) {
            Some(i) => match &self.clients[i].record.client_state {
                Some(state) => Ok(state.clone()),
                None => Err(Error::ClientNotFound(client_id.clone())),
            },
            None => Err(Error::ClientNotFound(client_id.clone())),
        }
    }

    /// The consensus state that the client accepted at `height`.
    ///
    /// Where no record is stored under the identifier the answer is
    /// `ClientNotFound`; where the client has accepted no consensus state at
    /// that height it is `ConsensusStateNotFound`.
    pub fn query_consensus_state(&self, client_id: &ClientId, height: Height) -> (r: Result<
        &AnyConsensusState,
        Error,
    >)
        ensures
            !self.contains(client_id@) ==> r == Err::<&AnyConsensusState, Error>(
                Error::ClientNotFound(*client_id),
            ),
            self.contains(client_id@) && !self.record(client_id@).has_height(height) ==> r == Err::<
                &AnyConsensusState,
                Error,
            >(Error::ConsensusStateNotFound(*client_id, height)),
            self.contains(client_id@) && self.record(client_id@).has_height(height) ==> r is Ok,
            r matches Ok(state) ==> exists|i: int|
                0 <= i < self.record(client_id@).consensus_states@.len() && (
                #[trigger] self.record(client_id@).consensus_states@[i]).height == height
                    && self.record(client_id@).consensus_states@[i].state == *state,
            self.record(client_id@).ascending() && r is Ok ==> *r->Ok_0 == self.record(
                client_id@,
            ).state_at(height),
    {
        match self.find(client_id) {
            Some(i) => match self.clients[i].record.consensus_state(height) {
                Some(state) => Ok(state),
                None => Err(Error::ConsensusStateNotFound(client_id.clone(), height)),
            },
            None => Err(Error::ClientNotFound(client_id.clone())),
        }
    }

    /// The identifiers of all clients, in the order of their creation. The
    /// whole list is made at each call, and the call never fails.
    pub fn query_clients(&self, request: &QueryClientStatesRequest) -> (r: Result<
        Vec<ClientId>,
        Error,
    >)
        ensures
            r is Ok,
            r->Ok_0@ == self.ids(),
    {
        let mut ids: Vec<ClientId> = Vec::new();
        let mut i: usize = 0;
        while i < self.clients.len()
            invariant
                i <= self.clients@.len(),
                ids@.len() == i,
                forall|j: int| 0 <= j < i ==> ids@[j] == (#[trigger] self.clients@[j]).client_id,
            decreases self.clients.len() - i,
        {
            ids.push(self.clients[i].client_id.clone());
            i = i + 1;
        }
        assert(ids@ =~= self.ids());
        Ok(ids)
    }

    /// Creates a client.
    ///
    /// On success the store holds one record more, under `client_id`, with
    /// `client_state` as its state and `consensus_state` under the latest
    /// height of that state. Where the creation is refused the store is
    /// unchanged.
    pub fn create_client(
        &mut self,
        client_id: ClientId,
        client_type: ClientType,
        client_state: AnyClientState,
        consensus_state: AnyConsensusState,
    ) -> (r: Result<(), Error>)
        requires
            old(self).wf(),
        ensures
            final(self).wf(),
            r == old(self).create_verdict(client_id, client_type, client_state, consensus_state),
            r is Err ==> *final(self) == *old(self),
            r is Ok ==> final(self).created_from(
                *old(self),
                client_id,
                client_type,
                client_state,
                consensus_state,
            ),
    {
        if self.find(&client_id).is_some() {
            return Err(Error::ClientAlreadyExists(client_id));
        }
        if client_state.client_type() != client_type || consensus_state.client_type()
            != client_type {
            return Err(Error::ClientTypeMismatch(client_id));
        }
        let height = client_state.latest_height();
        if height.is_zero() {
            return Err(Error::InvalidHeight(client_id));
        }
        if consensus_state.validate_basic().is_err() {
            return Err(Error::EmptyCommitmentRoot);
        }
        let mut consensus_states: Vec<ConsensusEntry> = Vec::new();
        consensus_states.push(ConsensusEntry { height, state: consensus_state });
        let record = MockClientRecord {
            client_type,
            client_state: Some(client_state),
            consensus_states,
        };
        self.clients.push(ClientEntry { client_id, record });
        proof {
            let n = old(self).clients@.len() as int;
            assert(self.ids() =~= old(self).ids().push(client_id));
            assert(self.is_first(n, client_id@));
            lemma_first_is_position(*self, n, client_id@);
            assert forall|other: Seq<char>| #[trigger]
                self.contains(other) == (old(self).contains(other) || other
                    == client_id@) by {
                if old(self).contains(other) {
                    lemma_position_is_first(*old(self), other);
                    let k = old(self).position(other);
                    assert(self.clients@[k].client_id@ == other);
                }
                if self.contains(other) && other != client_id@ {
                    let k = choose|k: int|
                        0 <= k < self.clients@.len() && (#[trigger] self.clients@[k]).client_id@
                            == other;
                    assert(old(self).clients@[k].client_id@ == other);
                }
            }
            assert forall|other: Seq<char>| old(self).contains(other) implies #[trigger]
                self.record(other) == old(self).record(other) by {
                lemma_position_is_first(*old(self), other);
                let k = old(self).position(other);
                assert forall|j: int| 0 <= j < k implies (#[trigger] self.clients@[j]).client_id@
                    != other by {
                    assert(self.clients@[j] == old(self).clients@[j]);
                }
                assert(self.clients@[k] == old(self).clients@[k]);
                lemma_first_is_position(*self, k, other);
            }
            assert(self.record(client_id@).consensus_states@ =~= seq![
                ConsensusEntry { height: client_state.latest(), state: consensus_state },
            ]);
            assert(self.created_from(
                *old(self),
                client_id,
                client_type,
                client_state,
                consensus_state,
            ));
            lemma_accepted_change_keeps_store(*old(self), *self);
        }
        Ok(())
    }

    /// Updates a client.
    ///
    /// On success the client has `client_state` as its state and has
    /// `consensus_state` stored under the latest height of that state, after
    /// every consensus state it had. The client keeps its type, and no other
    /// client changes. Where the update is refused the store is unchanged.
    pub fn update_client(
        &mut self,
        client_id: &ClientId,
        client_state: AnyClientState,
        consensus_state: AnyConsensusState,
    ) -> (r: Result<(), Error>)
        requires
            old(self).wf(),
        ensures
            final(self).wf(),
            r == old(self).update_verdict(*client_id, client_state, consensus_state),
            r is Err ==> *final(self) == *old(self),
            r is Ok ==> final(self).updated_from(
                *old(self),
                client_id@,
                client_state,
                consensus_state,
            ),
    {
        let at = match self.find(client_id) {
            Some(at) => at,
            None => {
                return Err(Error::ClientNotFound(client_id.clone()));
            },
        };
        let client_type = self.clients[at].record.client_type;
        match &self.clients[at].record.client_state {
            None => {
                return Err(Error::ClientNotFound(client_id.clone()));
            },
            Some(current) => {
                if current.is_frozen() {
                    return Err(Error::ClientFrozen(client_id.clone()));
                }
                if client_state.client_type() != client_type || consensus_state.client_type()
                    != client_type {
                    return Err(Error::ClientTypeMismatch(client_id.clone()));
                }
                if consensus_state.validate_basic().is_err() {
                    return Err(Error::EmptyCommitmentRoot);
                }
                if client_state.latest_height().is_zero() {
                    return Err(Error::InvalidHeight(client_id.clone()));
                }
                if !(current.latest_height() < client_state.latest_height()) {
                    return Err(Error::HeightNotAdvanced(client_id.clone()));
                }
            },
        }
        let height = client_state.latest_height();
        let entry = &mut self.clients[at];
        entry.record.client_state = Some(client_state);
        entry.record.consensus_states.push(ConsensusEntry { height, state: consensus_state });
        proof {
            lemma_same_ids_same_places(*old(self), *self);
            assert(self.ids() =~= old(self).ids());
            assert forall|other: Seq<char>|
                old(self).contains(other) && other != client_id@ implies #[trigger] self.record(
                other,
            ) == old(self).record(other) by {
                lemma_position_is_first(*old(self), other);
                assert(self.clients@[old(self).position(other)] == old(self).clients@[old(
                    self,
                ).position(other)]);
            }
            assert(self.updated_from(*old(self), client_id@, client_state, consensus_state));
            lemma_accepted_change_keeps_store(*old(self), *self);
        }
        Ok(())
    }
}

/// One change that the store accepts leads from `before` to `after`: the
/// creation of a client, or the update of one.
pub open spec fn accepted_change(before: ClientStore, after: ClientStore) -> bool {
    ||| exists|
        client_id: ClientId,
        client_type: ClientType,
        client_state: AnyClientState,
        consensus_state: AnyConsensusState,
    |
        before.create_verdict(client_id, client_type, client_state, consensus_state) is Ok
            && #[trigger] after.created_from(
            before,
            client_id,
            client_type,
            client_state,
            consensus_state,
        )
    ||| exists|client_id: ClientId, client_state: AnyClientState, consensus_state: AnyConsensusState|
        before.update_verdict(client_id, client_state, consensus_state) is Ok
            && #[trigger] after.updated_from(before, client_id@, client_state, consensus_state)
}

/// The stores are the states of one store over time: the first is well
/// formed, and each of the others follows from the one before it by one
/// accepted change.
pub open spec fn is_history(history: Seq<ClientStore>) -> bool {
    &&& history.len() > 0 ==> history[0].wf()
    &&& forall|i: int|
        0 <= i < history.len() - 1 ==> accepted_change(#[trigger] history[i], history[i + 1])
}

/// The client type of a client never changes. Through the whole history of
/// a store, a client that exists stays, keeps the client type of its record,
/// and has that client type reported by its client state and by every
/// consensus state stored for it.
pub proof fn lemma_client_type_is_kept_for_life(
    history: Seq<ClientStore>,
    id: Seq<char>,
    i: int,
    j: int,
)
    requires
        is_history(history),
        0 <= i <= j < history.len(),
        history[i].contains(id),
    ensures
        history[j].contains(id),
        history[j].record(id).client_type == history[i].record(id).client_type,
        history[j].record(id).client_state matches Some(state) ==> state.kind()
            == history[i].record(id).client_type,
        forall|height: Height| #[trigger]
            history[j].record(id).has_height(height) ==> history[j].record(id).state_at(
                height,
            ).kind() == history[i].record(id).client_type,
    decreases j - i,
{
    lemma_history_is_well_formed(history, j);
    if i < j {
        lemma_client_type_is_kept_for_life(history, id, i, j - 1);
        lemma_history_is_well_formed(history, j - 1);
        assert(accepted_change(history[j - 1], history[j]));
        lemma_accepted_change_keeps_store(history[j - 1], history[j]);
    }
    lemma_stored_record_is_well_formed(history[j], id);
}

/// After every accepted change, the latest height of a client's state is the
/// highest height under which the client has a consensus state.
pub proof fn lemma_latest_height_stays_maximal(history: Seq<ClientStore>, id: Seq<char>, j: int)
    requires
        is_history(history),
        0 <= j < history.len(),
        history[j].contains(id),
        history[j].record(id).client_state is Some,
    ensures
        history[j].record(id).is_max_height(history[j].record(id).client_state->0.latest()),
{
    lemma_history_is_well_formed(history, j);
    lemma_stored_record_is_well_formed(history[j], id);
    lemma_last_height_is_maximum(history[j].record(id));
}

/// A consensus state that a client has accepted stays: after an accepted
/// change the client still has every consensus state it had, under the same
/// height.
pub proof fn lemma_consensus_states_are_kept(
    before: ClientStore,
    after: ClientStore,
    id: Seq<char>,
    k: int,
)
    requires
        before.wf(),
        accepted_change(before, after),
        before.contains(id),
        0 <= k < before.record(id).consensus_states@.len(),
    ensures
        k < after.record(id).consensus_states@.len(),
        after.record(id).consensus_states@[k] == before.record(id).consensus_states@[k],
{
}

/// Every store of a history is well formed.
pub proof fn lemma_history_is_well_formed(history: Seq<ClientStore>, j: int)
    requires
        is_history(history),
        0 <= j < history.len(),
    ensures
        history[j].wf(),
    decreases j,
{
    if j > 0 {
        lemma_history_is_well_formed(history, j - 1);
        assert(accepted_change(history[j - 1], history[j]));
        lemma_accepted_change_keeps_store(history[j - 1], history[j]);
    }
}

/// An accepted change leaves the store well formed, keeps every client, and
/// keeps the client type of every client.
pub proof fn lemma_accepted_change_keeps_store(before: ClientStore, after: ClientStore)
    requires
        before.wf(),
        accepted_change(before, after),
    ensures
        after.wf(),
        forall|id: Seq<char>|
            before.contains(id) ==> #[trigger] after.contains(id) && after.record(id).client_type
                == before.record(id).client_type,
{
    assert forall|id: Seq<char>| #[trigger] after.contains(id) implies after.record(id).wf() by {
        if exists|client_id: ClientId, client_state: AnyClientState, consensus_state: AnyConsensusState|
            before.update_verdict(client_id, client_state, consensus_state) is Ok
                && #[trigger] after.updated_from(
                before,
                client_id@,
                client_state,
                consensus_state,
            ) {
            let (client_id, client_state, consensus_state) = choose|
                client_id: ClientId,
                client_state: AnyClientState,
                consensus_state: AnyConsensusState,
            |
                before.update_verdict(client_id, client_state, consensus_state) is Ok
                    && #[trigger] after.updated_from(
                    before,
                    client_id@,
                    client_state,
                    consensus_state,
                );
            if id == client_id@ {
                lemma_update_keeps_invariants(
                    before,
                    after,
                    client_id,
                    client_state,
                    consensus_state,
                );
            } else {
                assert(before.contains(id));
                assert(after.record(id) == before.record(id));
                lemma_stored_record_is_well_formed(before, id);
            }
        } else {
            let (client_id, client_type, client_state, consensus_state) = choose|
                client_id: ClientId,
                client_type: ClientType,
                client_state: AnyClientState,
                consensus_state: AnyConsensusState,
            |
                before.create_verdict(client_id, client_type, client_state, consensus_state) is Ok
                    && #[trigger] after.created_from(
                    before,
                    client_id,
                    client_type,
                    client_state,
                    consensus_state,
                );
            if id == client_id@ {
                lemma_create_establishes_invariants(
                    before,
                    after,
                    client_id,
                    client_type,
                    client_state,
                    consensus_state,
                );
            } else {
                assert(before.contains(id));
                assert(after.record(id) == before.record(id));
                lemma_stored_record_is_well_formed(before, id);
            }
        }
    }
    lemma_accepted_change_keeps_ids_apart(before, after);
    lemma_well_formed_by_records(after);
}

/// After an accepted change, still no identifier is used twice.
proof fn lemma_accepted_change_keeps_ids_apart(before: ClientStore, after: ClientStore)
    requires
        before.wf(),
        accepted_change(before, after),
    ensures
        forall|i: int, j: int|
            0 <= i < j < after.clients@.len() ==> (#[trigger] after.clients@[i]).client_id@ != (
            #[trigger] after.clients@[j]).client_id@,
{
    let n = before.clients@.len() as int;
    assert(after.ids().len() == after.clients@.len());
    assert(before.ids().len() == n);
    assert forall|i: int, j: int| 0 <= i < j < after.clients@.len() implies (
    #[trigger] after.clients@[i]).client_id@ != (#[trigger] after.clients@[j]).client_id@ by {
        assert(after.ids()[i] == after.clients@[i].client_id);
        assert(after.ids()[j] == after.clients@[j].client_id);
        if exists|client_id: ClientId, client_state: AnyClientState, consensus_state: AnyConsensusState|
            before.update_verdict(client_id, client_state, consensus_state) is Ok
                && #[trigger] after.updated_from(
                before,
                client_id@,
                client_state,
                consensus_state,
            ) {
            assert(after.ids() == before.ids());
            assert(before.ids()[i] == before.clients@[i].client_id);
            assert(before.ids()[j] == before.clients@[j].client_id);
        } else {
            let (client_id, client_type, client_state, consensus_state) = choose|
                client_id: ClientId,
                client_type: ClientType,
                client_state: AnyClientState,
                consensus_state: AnyConsensusState,
            |
                before.create_verdict(client_id, client_type, client_state, consensus_state) is Ok
                    && #[trigger] after.created_from(
                    before,
                    client_id,
                    client_type,
                    client_state,
                    consensus_state,
                );
            assert(after.ids() == before.ids().push(client_id));
            assert(after.clients@.len() == n + 1);
            assert(before.ids()[i] == before.clients@[i].client_id);
            if j < n {
                assert(before.ids()[j] == before.clients@[j].client_id);
            } else {
                assert(after.clients@[j].client_id == client_id);
                assert(before.contains(before.clients@[i].client_id@));
                assert(!before.contains(client_id@));
            }
        }
    }
}

/// In a well-formed store, the record stored under an identifier is well
/// formed.
pub proof fn lemma_stored_record_is_well_formed(store: ClientStore, id: Seq<char>)
    requires
        store.wf(),
        store.contains(id),
    ensures
        store.record(id).wf(),
{
    lemma_position_is_first(store, id);
}

/// A store in which no identifier is used twice and every identifier leads
/// to a well-formed record is well formed.
pub proof fn lemma_well_formed_by_records(store: ClientStore)
    requires
        forall|i: int, j: int|
            0 <= i < j < store.clients@.len() ==> (#[trigger] store.clients@[i]).client_id@ != (
            #[trigger] store.clients@[j]).client_id@,
        forall|id: Seq<char>| #[trigger] store.contains(id) ==> store.record(id).wf(),
    ensures
        store.wf(),
{
    assert forall|i: int| 0 <= i < store.clients@.len() implies (
    #[trigger] store.clients@[i]).record.wf() by {
        let id = store.clients@[i].client_id@;
        assert forall|j: int| 0 <= j < i implies (#[trigger] store.clients@[j]).client_id@ != id by {
            assert(store.clients@[j].client_id@ != store.clients@[i].client_id@);
        }
        lemma_first_is_position(store, i, id);
        assert(store.contains(id));
    }
}

/// An update that the store accepts leaves the latest height of the client
/// equal to the highest height under which the client has a consensus state,
/// and leaves the client type of the client, and of every state stored for
/// it, what it was.
pub proof fn lemma_update_keeps_invariants(
    before: ClientStore,
    after: ClientStore,
    client_id: ClientId,
    client_state: AnyClientState,
    consensus_state: AnyConsensusState,
)
    requires
        before.wf(),
        before.update_verdict(client_id, client_state, consensus_state) is Ok,
        after.updated_from(before, client_id@, client_state, consensus_state),
    ensures
        after.contains(client_id@),
        after.record(client_id@).wf(),
        after.record(client_id@).client_type == before.record(client_id@).client_type,
        after.record(client_id@).client_state == Some(client_state),
        client_state.kind() == before.record(client_id@).client_type,
        after.record(client_id@).is_max_height(client_state.latest()),
{
    let id = client_id@;
    lemma_position_is_first(before, id);
    let old_record = before.record(id);
    let new_record = after.record(id);
    assert(old_record.wf());
    lemma_last_height_is_maximum(old_record);
    assert forall|i: int, j: int| 0 <= i < j < new_record.consensus_states@.len() implies (
    #[trigger] new_record.consensus_states@[i]).height.precedes(
        (#[trigger] new_record.consensus_states@[j]).height,
    ) by {
        if j < old_record.consensus_states@.len() {
            assert(old_record.consensus_states@[i].height.precedes(
                old_record.consensus_states@[j].height,
            ));
        } else {
            assert(old_record.consensus_states@[i].height.at_or_before(
                old_record.client_state->0.latest(),
            ));
        }
    }
    assert forall|i: int| 0 <= i < new_record.consensus_states@.len() implies {
        &&& (#[trigger] new_record.consensus_states@[i]).state.kind() == new_record.client_type
        &&& !new_record.consensus_states@[i].height.zero_spec()
    } by {
        if i < old_record.consensus_states@.len() {
            assert(new_record.consensus_states@[i] == old_record.consensus_states@[i]);
        }
    }
    assert(new_record.wf());
    lemma_last_height_is_maximum(new_record);
}

/// A client that the store accepts for creation has, once created, a
/// well-formed record: its latest height is the one height under which it
/// has a consensus state, and its states are of its client type.
pub proof fn lemma_create_establishes_invariants(
    before: ClientStore,
    after: ClientStore,
    client_id: ClientId,
    client_type: ClientType,
    client_state: AnyClientState,
    consensus_state: AnyConsensusState,
)
    requires
        before.create_verdict(client_id, client_type, client_state, consensus_state) is Ok,
        after.created_from(before, client_id, client_type, client_state, consensus_state),
    ensures
        after.contains(client_id@),
        after.record(client_id@).wf(),
        after.record(client_id@).is_max_height(client_state.latest()),
{
    let record = after.record(client_id@);
    assert(record.consensus_states@[0].height == client_state.latest());
    assert(record.wf());
    lemma_last_height_is_maximum(record);
}

/// Where a record is stored under an identifier, its place is that of the
/// first entry under the identifier.
pub proof fn lemma_position_is_first(store: ClientStore, id: Seq<char>)
    requires
        store.contains(id),
    ensures
        store.is_first(store.position(id), id),
{
    let k = choose|k: int| 0 <= k < store.clients@.len() && (#[trigger] store.clients@[k]).client_id@
        == id;
    lemma_first_exists(store, id, k);
}

/// The first entry under an identifier is the place of that identifier.
pub proof fn lemma_first_is_position(store: ClientStore, i: int, id: Seq<char>)
    requires
        store.is_first(i, id),
    ensures
        store.contains(id),
        store.position(id) == i,
{
    let k = store.position(id);
    assert(store.is_first(k, id));
    assert(store.clients@[i].client_id@ == id);
    assert(store.clients@[k].client_id@ == id);
}

/// Two stores that hold the same identifiers at the same places find every
/// identifier at the same place.
pub proof fn lemma_same_ids_same_places(a: ClientStore, b: ClientStore)
    requires
        a.clients@.len() == b.clients@.len(),
        forall|i: int|
            0 <= i < a.clients@.len() ==> (#[trigger] a.clients@[i]).client_id
                == b.clients@[i].client_id,
    ensures
        forall|id: Seq<char>| #[trigger] a.contains(id) == b.contains(id),
        forall|id: Seq<char>| a.contains(id) ==> #[trigger] a.position(id) == b.position(id),
{
    assert forall|id: Seq<char>| #[trigger] a.contains(id) == b.contains(id) by {
        if a.contains(id) {
            let k = choose|k: int|
                0 <= k < a.clients@.len() && (#[trigger] a.clients@[k]).client_id@ == id;
            assert(b.clients@[k].client_id@ == id);
        }
        if b.contains(id) {
            let k = choose|k: int|
                0 <= k < b.clients@.len() && (#[trigger] b.clients@[k]).client_id@ == id;
            assert(a.clients@[k].client_id == b.clients@[k].client_id);
        }
    }
    assert forall|id: Seq<char>| a.contains(id) implies #[trigger] a.position(id) == b.position(
        id,
    ) by {
        lemma_position_is_first(a, id);
        let k = a.position(id);
        assert(b.clients@[k].client_id@ == id);
        assert forall|j: int| 0 <= j < k implies (#[trigger] b.clients@[j]).client_id@ != id by {
            assert(a.clients@[j].client_id == b.clients@[j].client_id);
        }
        lemma_first_is_position(b, k, id);
    }
}

proof fn lemma_first_exists(store: ClientStore, id: Seq<char>, k: int)
    requires
        0 <= k < store.clients@.len(),
        store.clients@[k].client_id@ == id,
    ensures
        exists|i: int| store.is_first(i, id),
    decreases k,
{
    if exists|j: int| 0 <= j < k && (#[trigger] store.clients@[j]).client_id@ == id {
        let j = choose|j: int| 0 <= j < k && (#[trigger] store.clients@[j]).client_id@ == id;
        lemma_first_exists(store, id, j);
    } else {
        assert(store.is_first(k, id));
    }
}

} // verus!
