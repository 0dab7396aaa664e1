//! The record that a chain keeps of one client.

use vstd::prelude::*;
use crate::any::AnyClientState;
use crate::any::AnyConsensusState;
use crate::client_type::ClientType;
use crate::height::Height;

verus! {

/// A consensus state together with the height at which it was accepted.
#[derive(Clone, Debug, PartialEq, Eq)]
pub struct ConsensusEntry {
    pub height: Height,
    pub state: AnyConsensusState,
}

/// The record of one client: its type, its current state, and the consensus
/// states it has accepted, each under its height.
///
/// The consensus states stand in the order of their heights, lowest first,
/// so no height occurs twice and the last entry is the highest. A record
/// without a client state is one that has not been initialised, and holds no
/// consensus state either.
#[derive(Clone, Debug, PartialEq, Eq)]
pub struct MockClientRecord {
    /// The type of this client.
    pub client_type: ClientType,
    /// The client state; absent before the client is initialised.
    pub client_state: Option<AnyClientState>,
    /// The consensus states of this client, by ascending height.
    pub consensus_states: Vec<ConsensusEntry>,
}

impl MockClientRecord {
    /// A consensus state is stored under `height`.
    pub open spec fn has_height(&self, height: Height) -> bool {
        exists|i: int|
            0 <= i < self.consensus_states@.len() && (#[trigger] self.consensus_states@[i]).height
                == height
    }

    /// The consensus state stored under `height`, where there is one.
    pub open spec fn state_at(&self, height: Height) -> AnyConsensusState {
        let i = choose|i: int|
            0 <= i < self.consensus_states@.len() && (#[trigger] self.consensus_states@[i]).height
                == height;
        self.consensus_states@[i].state
    }

    /// `height` is the highest height under which a consensus state is
    /// stored.
    pub open spec fn is_max_height(&self, height: Height) -> bool {
        &&& self.has_height(height)
        &&& forall|i: int|
            0 <= i < self.consensus_states@.len() ==> (
            #[trigger] self.consensus_states@[i]).height.at_or_before(height)
    }

    /// The consensus states stand by strictly ascending height.
    pub open spec fn ascending(&self) -> bool {
        forall|i: int, j: int|
            0 <= i < j < self.consensus_states@.len() ==> (
            #[trigger] self.consensus_states@[i]).height.precedes(
                (#[trigger] self.consensus_states@[j]).height,
            )
    }

    /// The record is well formed.
    ///
    /// Its consensus states ascend by height, each under the height of a
    /// block. The client state and every consensus state are of the record's
    /// client type. The latest height of the client state is the height of
    /// the last consensus state; without a client state there is no
    /// consensus state.
    pub open spec fn wf(&self) -> bool {
        &&& self.ascending()
        &&& forall|i: int|
            0 <= i < self.consensus_states@.len() ==> {
                &&& (#[trigger] self.consensus_states@[i]).state.kind() == self.client_type
                &&& !self.consensus_states@[i].height.zero_spec()
            }
        &&& match self.client_state {
            Some(state) => {
                &&& state.kind() == self.client_type
                &&& self.consensus_states@.len() > 0
                &&& self.consensus_states@[self.consensus_states@.len() - 1].height
                    == state.latest()
            },
            None => self.consensus_states@.len() == 0,
        }
    }

    /// The record of a client that has not been initialised.
    pub fn new(client_type: ClientType) -> (record: MockClientRecord)
        ensures
            record.client_type == client_type,
            record.client_state is None,
            record.consensus_states@.len() == 0,
            record.wf(),
    {
        MockClientRecord { client_type, client_state: None, consensus_states: Vec::new() }
    }

    /// The consensus state that was accepted at `height`, if one was.
    pub fn consensus_state(&self, height: Height) -> (found: Option<&AnyConsensusState>)
        ensures
            found is Some <==> self.has_height(height),
            found matches Some(state) ==> exists|i: int|
                0 <= i < self.consensus_states@.len() && (
                #[trigger] self.consensus_states@[i]).height == height
                    && self.consensus_states@[i].state == *state,
            self.ascending() && found is Some ==> *found->0 == self.state_at(height),
    {
        let mut i: usize = 0;
        while i < self.consensus_states.len()
            invariant
                i <= self.consensus_states@.len(),
                forall|j: int| 0 <= j < i ==> (#[trigger] self.consensus_states@[j]).height != height,
            decreases self.consensus_states.len() - i,
        {
            if self.consensus_states[i].height == height {
                proof {
                    if self.ascending() {
                        let k = choose|k: int|
                            0 <= k < self.consensus_states@.len() && (
                            #[trigger] self.consensus_states@[k]).height == height;
                        assert(self.consensus_states@[i as int].height == height);
                        if k < i {
                            assert(self.consensus_states@[k].height.precedes(
                                self.consensus_states@[i as int].height,
                            ));
                        }
                        if i < k {
                            assert(self.consensus_states@[i as int].height.precedes(
                                self.consensus_states@[k].height,
                            ));
                        }
                        assert(k == i);
                    }
                }
                return Some(&self.consensus_states[i].state);
            }
            i = i + 1;
        }
        None
    }

    /// The highest height under which a consensus state is stored, if any is
    /// stored.
    pub fn latest_consensus_height(&self) -> (latest: Option<Height>)
        ensures
            latest is Some <==> self.consensus_states@.len() > 0,
            self.ascending() && latest is Some ==> self.is_max_height(latest->0),
    {
        let n = self.consensus_states.len();
        if n == 0 {
            None
        } else {
            let height = self.consensus_states[n - 1].height;
            proof {
                if self.ascending() {
                    lemma_last_height_is_maximum(*self);
                }
            }
            Some(height)
        }
    }
}

/// Where the consensus states ascend, the last of them has the highest
/// height.
pub proof fn lemma_last_height_is_maximum(record: MockClientRecord)
    requires
        record.ascending(),
        record.consensus_states@.len() > 0,
    ensures
        record.is_max_height(
            record.consensus_states@[record.consensus_states@.len() - 1].height,
        ),
{
    let last = record.consensus_states@.len() - 1;
    let top = record.consensus_states@[last].height;
    assert(record.consensus_states@[last].height == top);
    assert forall|i: int| 0 <= i < record.consensus_states@.len() implies (
    #[trigger] record.consensus_states@[i]).height.at_or_before(top) by {
        if i < last {
            assert(record.consensus_states@[i].height.precedes(
                record.consensus_states@[last].height,
            ));
        }
    }
}

/// In a well-formed record with a client state, the latest height of the
/// client state is the highest height under which a consensus state is
/// stored.
pub proof fn lemma_latest_height_is_maximum(record: MockClientRecord)
    requires
        record.wf(),
        record.client_state is Some,
    ensures
        record.is_max_height(record.client_state->0.latest()),
{
    lemma_last_height_is_maximum(record);
}

/// In a well-formed record, the client state and every stored consensus
/// state report the client type of the record.
pub proof fn lemma_stored_states_share_client_type(record: MockClientRecord, height: Height)
    requires
        record.wf(),
    ensures
        record.client_state matches Some(state) ==> state.kind() == record.client_type,
        record.has_height(height) ==> record.state_at(height).kind() == record.client_type,
{
}

} // verus!
