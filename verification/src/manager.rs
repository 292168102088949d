//! Connection manager: tracks live logical connections by identity through
//! their handshake/disconnect lifecycle.

use vstd::prelude::*;

use crate::connection::{Connection, ConnectionId};
use crate::events::TcpEvent;

verus! {

/// Most connections tracked at once.
pub const MAX_CONNECTIONS: usize = 8;

/// Error code of a successful response.
pub const SUCCESS: u16 = 0;

/// Error code of a failed response.
pub const SYSTEM_ERROR: u16 = 1;

/// Some tracked entry carries the identity.
pub open spec fn spec_tracks(s: Seq<(u32, Connection)>, id: u32) -> bool {
    exists|i: int| 0 <= i < s.len() && (#[trigger] s[i]).0 == id
}

/// How an insert changes the tracked entries: a fresh identity is appended;
/// an already-tracked one has its entry replaced in place.
pub open spec fn spec_insert_effect(
    old_s: Seq<(u32, Connection)>,
    new_s: Seq<(u32, Connection)>,
    conn: Connection,
) -> bool {
    &&& !spec_tracks(old_s, conn.id.0) ==> new_s == old_s.push((conn.id.0, conn))
    &&& spec_tracks(old_s, conn.id.0) ==> exists|i: int|
        0 <= i < old_s.len() && (#[trigger] old_s[i]).0 == conn.id.0 && new_s == old_s.update(
            i,
            (conn.id.0, conn),
        )
}

/// How a removal changes the tracked entries: an untracked identity changes
/// nothing; a tracked one has its entry taken out.
pub open spec fn spec_remove_effect(
    old_s: Seq<(u32, Connection)>,
    new_s: Seq<(u32, Connection)>,
    id: u32,
) -> bool {
    &&& !spec_tracks(old_s, id) ==> new_s == old_s
    &&& spec_tracks(old_s, id) ==> exists|i: int|
        0 <= i < old_s.len() && (#[trigger] old_s[i]).0 == id && new_s == old_s.remove(i)
}

/// Registry of live connections, keyed by identity.
pub struct ConnectionManager {
    /// The tracked connections, each under its identity.
    pub connections: Vec<(u32, Connection)>,
    /// Most connections accepted at once.
    pub max_clients: usize,
}

impl ConnectionManager {
    /// Well-formedness: capacity respected and no identity tracked twice.
    pub open spec fn wf(&self) -> bool {
        &&& self.connections@.len() <= self.max_clients
        &&& forall|i: int, j: int|
            0 <= i < j < self.connections@.len() ==> (#[trigger] self.connections@[i]).0 != (
            #[trigger] self.connections@[j]).0
    }

    /// Creates a manager tracking no connections.
    pub fn new() -> (m: Self)
        ensures
            m.wf(),
            m.connections@ == Seq::<(u32, Connection)>::empty(),
            m.max_clients == MAX_CONNECTIONS,
    {
        Self { connections: Vec::new(), max_clients: MAX_CONNECTIONS }
    }

    /// Tracks a connection under its identity, replacing any entry already
    /// tracked under it; refused when the manager is full.
    pub fn add_connection(&mut self, conn: Connection) -> (r: Result<(), ()>)
        requires
            old(self).wf(),
        ensures
            final(self).wf(),
            final(self).max_clients == old(self).max_clients,
            old(self).connections@.len() >= old(self).max_clients ==> {
                &&& r == Err::<(), ()>(())
                &&& final(self).connections@ == old(self).connections@
            },
            old(self).connections@.len() < old(self).max_clients ==> {
                &&& r == Ok::<(), ()>(())
                &&& spec_insert_effect(old(self).connections@, final(self).connections@, conn)
            },
    {
        if self.connections.len() >= self.max_clients {
            return Err(());
        }

        let mut i: usize = 0;
        while i < self.connections.len()
            invariant
                i <= self.connections@.len(),
                self.connections@ == old(self).connections@,
                self.max_clients == old(self).max_clients,
                old(self).wf(),
                old(self).connections@.len() < old(self).max_clients,
                forall|k: int| 0 <= k < i ==> (#[trigger] self.connections@[k]).0 != conn.id.0,
            decreases self.connections@.len() - i,
        {
            let entry = &self.connections[i];
            if entry.0 == conn.id.0 {
                let ghost pre = self.connections@;
                self.connections[i] = (conn.id.0, conn);
                proof {
                    assert(self.connections@ == pre.update(i as int, (conn.id.0, conn)));
                    assert(spec_tracks(pre, conn.id.0)) by {
                        assert(pre[i as int].0 == conn.id.0);
                    };
                    assert(forall|a: int, b: int|
                        0 <= a < b < self.connections@.len() ==> (
                        #[trigger] self.connections@[a]).0 != (
                        #[trigger] self.connections@[b]).0) by {
                        assert(forall|k: int|
                            0 <= k < self.connections@.len() ==> (
                            #[trigger] self.connections@[k]).0 == pre[k].0);
                    };
                }
                return Ok(());
            }
            i += 1;
        }
        let ghost pre = self.connections@;
        self.connections.push((conn.id.0, conn));
        proof {
            assert(!spec_tracks(pre, conn.id.0));
            assert(forall|a: int, b: int|
                0 <= a < b < self.connections@.len() ==> (#[trigger] self.connections@[a]).0 != (
                #[trigger] self.connections@[b]).0) by {
                assert(forall|k: int|
                    0 <= k < pre.len() ==> #[trigger] self.connections@[k] == pre[k]);
                assert(self.connections@[pre.len() as int].0 == conn.id.0);
            };
        }
        Ok(())
    }

    /// Forgets the connection tracked under the identity, if any.
    pub fn remove_connection(&mut self, id: ConnectionId)
        requires
            old(self).wf(),
        ensures
            final(self).wf(),
            final(self).max_clients == old(self).max_clients,
            spec_remove_effect(old(self).connections@, final(self).connections@, id.0),
    {
        let mut i: usize = 0;
        while i < self.connections.len()
            invariant
                i <= self.connections@.len(),
                self.connections@ == old(self).connections@,
                self.max_clients == old(self).max_clients,
                old(self).wf(),
                forall|k: int| 0 <= k < i ==> (#[trigger] self.connections@[k]).0 != id.0,
            decreases self.connections@.len() - i,
        {
            let entry = &self.connections[i];
            if entry.0 == id.0 {
                let ghost pre = self.connections@;
                self.connections.remove(i);
                proof {
                    assert(spec_tracks(pre, id.0)) by {
                        assert(pre[i as int].0 == id.0);
                    };
                    assert(self.connections@.len() == pre.len() - 1);
                    assert(forall|k: int|
                        0 <= k < i as int ==> #[trigger] self.connections@[k] == pre[k]);
                    assert(forall|k: int|
                        i as int <= k < self.connections@.len() ==> #[trigger] self.connections@[k]
                            == pre[k + 1]);
                    assert(forall|a: int, b: int|
                        0 <= a < b < self.connections@.len() ==> (
                        #[trigger] self.connections@[a]).0 != (
                        #[trigger] self.connections@[b]).0);
                }
                return ;
            }
            i += 1;
        }
    }

    /// How many connections are tracked.
    pub fn connection_count(&self) -> (r: usize)
        ensures
            r == self.connections@.len(),
    {
        self.connections.len()
    }

    /// Whether a connection is tracked under the identity.
    pub fn has_connection(&self, id: ConnectionId) -> (r: bool)
        ensures
            r == spec_tracks(self.connections@, id.0),
    {
        let mut i: usize = 0;
        while i < self.connections.len()
            invariant
                i <= self.connections@.len(),
                forall|k: int| 0 <= k < i ==> (#[trigger] self.connections@[k]).0 != id.0,
            decreases self.connections@.len() - i,
        {
            let entry = &self.connections[i];
            if entry.0 == id.0 {
                return true;
            }
            i += 1;
        }
        false
    }
}

impl Default for ConnectionManager {
    /// A manager tracking no connections, identical to
    /// [`ConnectionManager::new`].
    fn default() -> (m: Self)
        ensures
            m.wf(),
            m.connections@ == Seq::<(u32, Connection)>::empty(),
            m.max_clients == MAX_CONNECTIONS,
    {
        Self::new()
    }
}

/// The manager's decision for one lifecycle event: a handshake tracks the
/// connection (refused only at capacity), a disconnect forgets it, and a
/// broadcast — reserved for future fan-out — changes nothing.
pub fn handle_tcp_event(manager: &mut ConnectionManager, event: TcpEvent) -> (r: Result<(), ()>)
    requires
        old(manager).wf(),
    ensures
        final(manager).wf(),
        final(manager).max_clients == old(manager).max_clients,
        (match event {
            TcpEvent::Handshake(_, conn) => {
                &&& old(manager).connections@.len() >= old(manager).max_clients ==> r == Err::<
                    (),
                    (),
                >(()) && final(manager).connections@ == old(manager).connections@
                &&& old(manager).connections@.len() < old(manager).max_clients ==> r == Ok::<
                    (),
                    (),
                >(()) && spec_insert_effect(
                    old(manager).connections@,
                    final(manager).connections@,
                    conn,
                )
            },
            TcpEvent::Disconnect(id) => r == Ok::<(), ()>(()) && spec_remove_effect(
                old(manager).connections@,
                final(manager).connections@,
                id.0,
            ),
            TcpEvent::Broadcast { .. } => r == Ok::<(), ()>(()) && final(manager).connections@
                == old(manager).connections@,
        }),
{
    match event {
        TcpEvent::Handshake(_conn_id, conn) => manager.add_connection(conn),
        TcpEvent::Disconnect(conn_id) => {
            manager.remove_connection(conn_id);
            Ok(())
        },
        TcpEvent::Broadcast { .. } => {
            // Reserved for future multi-connection fan-out: no mechanism
            // reaches other connections' write halves, so only record it.
            Ok(())
        },
    }
}

} // verus!
