//! Registry of connected hot-reload clients and fan-out of build news.

use vstd::prelude::*;
use crate::protocol::{BuildResult, HmrMessage, MessageView};

verus! {

/// One connected client: its id and the generation it was last sent.
#[derive(Clone, Copy, Debug, PartialEq, Eq, Structural)]
pub struct ClientConnection {
    pub id: u64,
    pub last_generation: u64,
}

/// The set of connected clients, keyed by id.
#[derive(Debug)]
pub struct HmrHub {
    pub clients: Vec<ClientConnection>,
    /// The id the next client will get.
    pub next_id: u64,
    /// The generation of the latest build announced.
    pub generation: u64,
}

pub open spec fn ids_of(clients: Seq<ClientConnection>) -> Seq<u64> {
    clients.map_values(|c: ClientConnection| c.id)
}

/// The clients after each was sent news of `generation`.
pub open spec fn advanced(clients: Seq<ClientConnection>, generation: u64) -> Seq<ClientConnection> {
    clients.map_values(|c: ClientConnection| ClientConnection { id: c.id, last_generation: generation })
}

impl HmrHub {
    /// Ids are unique and already handed out, and no client was sent a
    /// generation the hub has not announced.
    pub open spec fn wf(&self) -> bool {
        &&& forall|i: int|
            0 <= i < self.clients@.len() ==> {
                &&& (#[trigger] self.clients@[i]).id < self.next_id
                &&& self.clients@[i].last_generation <= self.generation
            }
        &&& forall|i: int, j: int|
            0 <= i < j < self.clients@.len() ==> (#[trigger] self.clients@[i]).id
                != (#[trigger] self.clients@[j]).id
    }

    pub open spec fn has(&self, id: u64) -> bool {
        exists|i: int| 0 <= i < self.clients@.len() && (#[trigger] self.clients@[i]).id == id
    }

    /// A hub with no clients, whose latest announced build is `generation`.
    pub fn new(generation: u64) -> (h: HmrHub)
        ensures
            h.wf(),
            h.clients@.len() == 0,
            h.generation == generation,
            h.next_id == 0,
    {
        HmrHub { clients: Vec::new(), next_id: 0, generation }
    }

    /// How many clients are connected.
    pub fn client_count(&self) -> (n: usize)
        ensures
            n == self.clients@.len(),
    {
        self.clients.len()
    }

    /// Registers a new client. Returns its id and the one message it is
    /// sent: the latest generation, with no backlog of earlier ones.
    pub fn register(&mut self) -> (r: (u64, HmrMessage))
        requires
            old(self).wf(),
            old(self).next_id < u64::MAX,
        ensures
            final(self).wf(),
            r.0 == old(self).next_id,
            !old(self).has(r.0),
            r.1@ == (MessageView::Connected { generation: old(self).generation }),
            final(self).clients@ == old(self).clients@.push(
                ClientConnection { id: r.0, last_generation: old(self).generation },
            ),
            final(self).next_id == old(self).next_id + 1,
            final(self).generation == old(self).generation,
    {
        let id = self.next_id;
        let generation = self.generation;
        self.clients.push(ClientConnection { id, last_generation: generation });
        self.next_id = id + 1;
        proof {
            assert forall|i: int| 0 <= i < old(self).clients@.len() implies (#[trigger] old(self).clients@[i]).id != id by {}
        }
        (id, HmrMessage::Connected { generation })
    }

    /// Removes a client, as on disconnect or a failed or timed-out send.
    /// Returns whether it was connected; removing it again changes nothing.
    /// The other clients stay as they were.
    pub fn unregister(&mut self, id: u64) -> (removed: bool)
        requires
            old(self).wf(),
        ensures
            final(self).wf(),
            removed == old(self).has(id),
            !final(self).has(id),
            removed ==> exists|i: int|
                0 <= i < old(self).clients@.len() && old(self).clients@[i].id == id
                    && final(self).clients@ == old(self).clients@.remove(i),
            !removed ==> final(self).clients@ == old(self).clients@,
            final(self).next_id == old(self).next_id,
            final(self).generation == old(self).generation,
    {
        let mut i: usize = 0;
        while i < self.clients.len()
            invariant
                0 <= i <= self.clients@.len(),
                old(self).wf(),
                self.clients@ == old(self).clients@,
                self.next_id == old(self).next_id,
                self.generation == old(self).generation,
                forall|j: int| 0 <= j < i ==> (#[trigger] self.clients@[j]).id != id,
            decreases self.clients@.len() - i,
        {
            if self.clients[i].id == id {
                let ghost before = self.clients@;
                self.clients.remove(i);
                proof {
                    assert(self.clients@ == before.remove(i as int));
                    assert forall|k: int| 0 <= k < self.clients@.len() implies (#[trigger] self.clients@[k]).id != id by {
                        if k < i {
                        } else {
                            assert(self.clients@[k] == before[k + 1]);
                            assert(before[i as int].id != before[k + 1].id);
                        }
                    }
                    assert forall|a: int, b: int| 0 <= a < b < self.clients@.len() implies (#[trigger] self.clients@[a]).id
                        != (#[trigger] self.clients@[b]).id by {
                        let a0 = if a < i { a } else { a + 1 };
                        let b0 = if b < i { b } else { b + 1 };
                        assert(self.clients@[a] == before[a0]);
                        assert(self.clients@[b] == before[b0]);
                        assert(before[a0].id != before[b0].id);
                    }
                    assert forall|k: int| 0 <= k < self.clients@.len() implies {
                        &&& (#[trigger] self.clients@[k]).id < self.next_id
                        &&& self.clients@[k].last_generation <= self.generation
                    } by {
                        let k0 = if k < i { k } else { k + 1 };
                        assert(self.clients@[k] == before[k0]);
                    }
                }
                return true;
            }
            i = i + 1;
        }
        false
    }

    /// Announces a completed build to every client. Returns the message and
    /// the ids it goes to, a snapshot taken before any send so that clients
    /// dropped meanwhile do not disturb the fan-out. No client is sent a
    /// generation older than one it was already sent.
    pub fn announce(&mut self, result: &BuildResult) -> (r: (HmrMessage, Vec<u64>))
        requires
            old(self).wf(),
            result.generation >= old(self).generation,
        ensures
            final(self).wf(),
            r.0@ == result.spec_announcement(),
            r.1@ == ids_of(old(self).clients@),
            forall|i: int|
                0 <= i < old(self).clients@.len() ==> (#[trigger] old(self).clients@[i]).last_generation
                    <= r.0@.generation(),
            final(self).clients@ == advanced(old(self).clients@, result.generation),
            final(self).generation == result.generation,
            final(self).next_id == old(self).next_id,
    {
        let message = result.announcement();
        let mut ids: Vec<u64> = Vec::new();
        let mut updated: Vec<ClientConnection> = Vec::new();
        let mut i: usize = 0;
        while i < self.clients.len()
            invariant
                0 <= i <= self.clients@.len(),
                self.clients@ == old(self).clients@,
                ids@ == ids_of(self.clients@.take(i as int)),
                updated@ == advanced(self.clients@.take(i as int), result.generation),
            decreases self.clients@.len() - i,
        {
            let c = self.clients[i];
            ids.push(c.id);
            updated.push(ClientConnection { id: c.id, last_generation: result.generation });
            proof {
                assert(self.clients@.take(i as int + 1) == self.clients@.take(i as int).push(c));
                assert(ids@ =~= ids_of(self.clients@.take(i as int + 1)));
                assert(updated@ =~= advanced(self.clients@.take(i as int + 1), result.generation));
            }
            i = i + 1;
        }
        proof {
            assert(self.clients@.take(i as int) =~= self.clients@);
        }
        self.clients = updated;
        self.generation = result.generation;
        (message, ids)
    }

    /// Disconnects every client, as on shutdown. Returns the ids to close.
    pub fn close_all(&mut self) -> (ids: Vec<u64>)
        requires
            old(self).wf(),
        ensures
            final(self).wf(),
            ids@ == ids_of(old(self).clients@),
            final(self).clients@.len() == 0,
            final(self).next_id == old(self).next_id,
            final(self).generation == old(self).generation,
    {
        let mut ids: Vec<u64> = Vec::new();
        let mut i: usize = 0;
        while i < self.clients.len()
            invariant
                0 <= i <= self.clients@.len(),
                self.clients@ == old(self).clients@,
                ids@ == ids_of(self.clients@.take(i as int)),
            decreases self.clients@.len() - i,
        {
            ids.push(self.clients[i].id);
            proof {
                assert(self.clients@.take(i as int + 1) == self.clients@.take(i as int).push(self.clients@[i as int]));
                assert(ids@ =~= ids_of(self.clients@.take(i as int + 1)));
            }
            i = i + 1;
        }
        proof {
            assert(self.clients@.take(i as int) =~= self.clients@);
        }
        self.clients = Vec::new();
        ids
    }
}

} // verus!
