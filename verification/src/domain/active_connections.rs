//! The connection registry: one active connection for each remote address.

use std::cmp::Ordering;
use vstd::prelude::*;
use vstd::std_specs::cmp::PartialEqSpecImpl;
use vstd::std_specs::cmp::PartialOrdSpecImpl;

use crate::identity::id::ContactId;
use crate::identity::{Identity, IdentityView};
use crate::net::address::SocketAddress;

verus! {

/// Names a secure connection that the transport holds open.
#[derive(Debug, Clone, Copy, PartialEq, Eq, Structural, Hash)]
pub struct Connection {
    pub handle: u64,
}

/// An active connection and the authenticated identity of its peer.
#[derive(Debug, Eq)]
pub struct ConnectionData {
    pub conn: Connection,
    pub iden: Identity,
}

/// What a connection entry holds.
pub struct ConnectionDataView {
    pub conn: Connection,
    pub iden: IdentityView,
}

impl View for ConnectionData {
    type V = ConnectionDataView;

    open spec fn view(&self) -> ConnectionDataView {
        ConnectionDataView { conn: self.conn, iden: self.iden@ }
    }
}

impl Clone for ConnectionData {
    fn clone(&self) -> (copy: ConnectionData)
        ensures
            copy@ == self@,
    {
        ConnectionData { conn: self.conn, iden: self.iden.clone() }
    }
}

impl PartialEq for ConnectionData {
    /// Two entries are equal when their peers are the same contact.
    fn eq(&self, other: &Self) -> (same: bool) {
        let mine = self.iden.id();
        let theirs = other.iden.id();
        proof {
            ContactId::lemma_bytes(mine, theirs);
        }
        mine == theirs
    }
}

impl PartialEqSpecImpl for ConnectionData {
    open spec fn obeys_eq_spec() -> bool {
        true
    }

    open spec fn eq_spec(&self, other: &Self) -> bool {
        self.iden@.verified.identity_key == other.iden@.verified.identity_key
    }
}

impl PartialOrd for ConnectionData {
    /// Entries are ordered as the identifiers of their peers are.
    fn partial_cmp(&self, other: &Self) -> (order: Option<Ordering>) {
        let mine = self.iden.id();
        let theirs = other.iden.id();
        mine.partial_cmp(&theirs)
    }
}

impl PartialOrdSpecImpl for ConnectionData {
    open spec fn obeys_partial_cmp_spec() -> bool {
        true
    }

    open spec fn partial_cmp_spec(&self, other: &Self) -> Option<Ordering> {
        Some(peer_ordering(self.iden@.verified.identity_key, other.iden@.verified.identity_key))
    }
}

/// How two peers stand to each other: as their key bytes do, byte by byte.
pub open spec fn peer_ordering(mine: Seq<u8>, theirs: Seq<u8>) -> Ordering {
    if mine == theirs {
        Ordering::Equal
    } else if crate::identity::id::precedes(mine, theirs) {
        Ordering::Less
    } else {
        Ordering::Greater
    }
}

/// A remote address and the connection that reaches it.
pub type ConnectionEntry = (SocketAddress, ConnectionDataView);

/// The active connections, in the order in which they were established. No
/// two entries have the same remote address.
#[derive(Debug)]
pub struct ActiveConnections {
    inner: Vec<(SocketAddress, ConnectionData)>,
}

/// What connection entries hold, one by one.
pub open spec fn connection_views(entries: Seq<(SocketAddress, ConnectionData)>) -> Seq<ConnectionEntry> {
    entries.map_values(|e: (SocketAddress, ConnectionData)| (e.0, e.1@))
}

/// No two entries have the same remote address.
pub open spec fn distinct_addresses(entries: Seq<ConnectionEntry>) -> bool {
    forall|i: int, j: int|
        0 <= i < entries.len() && 0 <= j < entries.len() && i != j ==> (#[trigger] entries[i]).0 != (
        #[trigger] entries[j]).0
}

/// Whether a connection to the remote address is active.
pub open spec fn connected(entries: Seq<ConnectionEntry>, remote: SocketAddress) -> bool {
    exists|i: int| 0 <= i < entries.len() && (#[trigger] entries[i]).0 == remote
}

/// The place of the connection to a remote address, where there is one.
pub open spec fn connection_position(entries: Seq<ConnectionEntry>, remote: SocketAddress) -> int {
    choose|i: int| 0 <= i < entries.len() && (#[trigger] entries[i]).0 == remote
}

/// Whether the entry at place `i` reaches the contact with the given key.
pub open spec fn reaches(entries: Seq<ConnectionEntry>, i: int, id: Seq<u8>) -> bool {
    0 <= i < entries.len() && entries[i].1.iden.verified.identity_key == id
}

/// The address that reaches a contact: that of the earliest connection whose
/// peer is the contact.
pub open spec fn address_of_contact(entries: Seq<ConnectionEntry>, id: Seq<u8>) -> Option<
    SocketAddress,
>
    decreases entries.len(),
{
    if entries.len() == 0 {
        None
    } else if entries.first().1.iden.verified.identity_key == id {
        Some(entries.first().0)
    } else {
        address_of_contact(entries.drop_first(), id)
    }
}

/// An address is found for a contact exactly when some connection reaches
/// the contact, and the address found is that of such a connection.
pub proof fn lemma_address_of_contact(entries: Seq<ConnectionEntry>, id: Seq<u8>)
    ensures
        address_of_contact(entries, id) is Some <==> exists|i: int| reaches(entries, i, id),
        address_of_contact(entries, id) matches Some(remote) ==> exists|i: int|
            reaches(entries, i, id) && entries[i].0 == remote,
    decreases entries.len(),
{
    if entries.len() == 0 {
    } else if entries.first().1.iden.verified.identity_key == id {
        assert(reaches(entries, 0, id));
    } else {
        let rest = entries.drop_first();
        lemma_address_of_contact(rest, id);
        if address_of_contact(rest, id) is Some {
            let i = choose|i: int|
                reaches(rest, i, id) && rest[i].0 == address_of_contact(rest, id)->Some_0;
            assert(reaches(entries, i + 1, id));
        }
        if exists|i: int| reaches(entries, i, id) {
            let i = choose|i: int| reaches(entries, i, id);
            assert(reaches(rest, i - 1, id));
        }
    }
}

/// Where no two entries have one address, an entry is at its address's place.
pub proof fn lemma_connection_position(entries: Seq<ConnectionEntry>, i: int)
    requires
        distinct_addresses(entries),
        0 <= i < entries.len(),
    ensures
        connected(entries, entries[i].0),
        connection_position(entries, entries[i].0) == i,
{
    let remote = entries[i].0;
    let p = connection_position(entries, remote);
    assert(0 <= p < entries.len() && entries[p].0 == remote);
}

/// Adding a connection to an address that has none, and removing a
/// connection, keep the addresses distinct.
pub proof fn lemma_distinct_addresses(entries: Seq<ConnectionEntry>, entry: ConnectionEntry, i: int)
    requires
        distinct_addresses(entries),
    ensures
        !connected(entries, entry.0) ==> distinct_addresses(entries.push(entry)),
        0 <= i < entries.len() ==> distinct_addresses(entries.remove(i)) && !connected(
            entries.remove(i),
            entries[i].0,
        ),
{
    if !connected(entries, entry.0) {
        let after = entries.push(entry);
        assert forall|a: int, b: int|
            0 <= a < after.len() && 0 <= b < after.len() && a != b implies (
        #[trigger] after[a]).0 != (#[trigger] after[b]).0 by {
            if a < entries.len() {
                assert(after[a] == entries[a]);
            }
            if b < entries.len() {
                assert(after[b] == entries[b]);
            }
        }
    }
    if 0 <= i < entries.len() {
        let after = entries.remove(i);
        assert forall|a: int| 0 <= a < after.len() implies (#[trigger] after[a]) == entries[if a
            < i {
            a
        } else {
            a + 1
        }] by {}
        assert forall|a: int, b: int|
            0 <= a < after.len() && 0 <= b < after.len() && a != b implies (
        #[trigger] after[a]).0 != (#[trigger] after[b]).0 by {
            let a0 = if a < i {
                a
            } else {
                a + 1
            };
            let b0 = if b < i {
                b
            } else {
                b + 1
            };
            assert(after[a] == entries[a0]);
            assert(after[b] == entries[b0]);
        }
        if connected(after, entries[i].0) {
            let p = connection_position(after, entries[i].0);
            let p0 = if p < i {
                p
            } else {
                p + 1
            };
            assert(after[p] == entries[p0]);
            assert(false);
        }
    }
}

impl View for ActiveConnections {
    type V = Seq<ConnectionEntry>;

    closed spec fn view(&self) -> Seq<ConnectionEntry> {
        connection_views(self.inner@)
    }
}

impl Default for ActiveConnections {
    fn default() -> (registry: ActiveConnections)
        ensures
            registry@ == Seq::<ConnectionEntry>::empty(),
    {
        ActiveConnections::new()
    }
}

impl ActiveConnections {
    /// Holds of every registry that exists at run time: no two entries have
    /// the same remote address.
    #[verifier::type_invariant]
    pub closed spec fn well_formed(&self) -> bool {
        distinct_addresses(self@)
    }

    /// A registry without connections.
    pub fn new() -> (registry: ActiveConnections)
        ensures
            registry@ == Seq::<ConnectionEntry>::empty(),
    {
        let registry = ActiveConnections { inner: Vec::new() };
        assert(registry@ =~= Seq::<ConnectionEntry>::empty());
        registry
    }

    /// Number of active connections.
    pub fn len(&self) -> (n: usize)
        ensures
            n == self@.len(),
    {
        self.inner.len()
    }

    /// The entries, in the order in which they were established.
    pub fn entries(&self) -> (entries: &[(SocketAddress, ConnectionData)])
        ensures
            connection_views(entries@) == self@,
            distinct_addresses(self@),
    {
        proof {
            use_type_invariant(self);
        }
        self.inner.as_slice()
    }

    /// Which address currently reaches a contact: that of the earliest
    /// connection whose peer is the contact.
    pub fn find_socket_addr_for_contact(&self, id: &ContactId) -> (res: Option<SocketAddress>)
        ensures
            res == address_of_contact(self@, id.bytes()),
            res is Some <==> exists|i: int| reaches(self@, i, id.bytes()),
    {
        let mut i: usize = 0;
        assert(self@.skip(0) =~= self@);
        while i < self.inner.len()
            invariant
                i <= self.inner@.len(),
                self@.len() == self.inner@.len(),
                address_of_contact(self@, id.bytes()) == address_of_contact(
                    self@.skip(i as int),
                    id.bytes(),
                ),
            decreases self.inner@.len() - i,
        {
            let peer = self.inner[i].1.iden.id();
            let ghost rest = self@.skip(i as int);
            assert(rest.first() == (self.inner@[i as int].0, self.inner@[i as int].1@));
            assert(rest.drop_first() =~= self@.skip(i + 1));
            proof {
                ContactId::lemma_bytes(peer, *id);
            }
            if peer == *id {
                proof {
                    lemma_address_of_contact(self@, id.bytes());
                }
                return Some(self.inner[i].0);
            }
            i += 1;
        }
        proof {
            lemma_address_of_contact(self@, id.bytes());
        }
        None
    }

    /// The place of the connection to a remote address.
    fn position(&self, remote: &SocketAddress) -> (res: Option<usize>)
        ensures
            match res {
                Some(i) => i < self@.len() && connected(self@, *remote) && connection_position(
                    self@,
                    *remote,
                ) == i && self@[i as int].0 == *remote,
                None => !connected(self@, *remote),
            },
            distinct_addresses(self@),
    {
        proof {
            use_type_invariant(self);
        }
        let mut i: usize = 0;
        while i < self.inner.len()
            invariant
                i <= self.inner@.len(),
                self@.len() == self.inner@.len(),
                distinct_addresses(self@),
                forall|j: int| 0 <= j < i ==> (#[trigger] self@[j]).0 != *remote,
            decreases self.inner@.len() - i,
        {
            assert(self@[i as int].0 == self.inner@[i as int].0);
            if self.inner[i].0 == *remote {
                proof {
                    lemma_connection_position(self@, i as int);
                }
                return Some(i);
            }
            i += 1;
        }
        None
    }

    /// Whether a connection to the remote address is active.
    pub fn contains_key(&self, remote: &SocketAddress) -> (active: bool)
        ensures
            active == connected(self@, *remote),
    {
        self.position(remote).is_some()
    }

    /// The connection to a remote address.
    pub fn get(&self, remote: &SocketAddress) -> (res: Option<&ConnectionData>)
        ensures
            match res {
                Some(data) => connected(self@, *remote) && data@ == self@[connection_position(
                    self@,
                    *remote,
                )].1,
                None => !connected(self@, *remote),
            },
    {
        match self.position(remote) {
            Some(i) => {
                assert(self@[i as int].1 == self.inner@[i as int].1@);
                Some(&self.inner[i].1)
            },
            None => None,
        }
    }

    /// Enters a connection for a remote address that has none. Where the
    /// address has a connection already, the registry stays as it is and the
    /// new entry is handed back.
    pub fn try_insert(&mut self, remote: SocketAddress, data: ConnectionData) -> (res: Result<
        (),
        ConnectionData,
    >)
        ensures
            match res {
                Ok(_) => !connected(old(self)@, remote) && final(self)@ == old(self)@.push(
                    (remote, data@),
                ),
                Err(back) => connected(old(self)@, remote) && final(self)@ == old(self)@ && back
                    == data,
            },
    {
        let found = self.position(&remote);
        let ghost before = self@;
        proof {
            lemma_distinct_addresses(before, (remote, data@), 0);
        }
        if found.is_some() {
            return Err(data);
        }
        let mut inner: Vec<(SocketAddress, ConnectionData)> = Vec::new();
        assert(connection_views(inner@) =~= Seq::<ConnectionEntry>::empty());
        core::mem::swap(&mut self.inner, &mut inner);
        inner.push((remote, data));
        assert(connection_views(inner@) =~= before.push(
            (remote, data@),
        ));
        self.inner = inner;
        Ok(())
    }

    /// Takes the connection to a remote address out of the registry.
    pub fn remove(&mut self, remote: &SocketAddress) -> (res: Option<ConnectionData>)
        ensures
            match res {
                Some(data) => connected(old(self)@, *remote) && data@ == old(
                    self,
                )@[connection_position(old(self)@, *remote)].1 && final(self)@ == old(
                    self,
                )@.remove(connection_position(old(self)@, *remote)),
                None => !connected(old(self)@, *remote) && final(self)@ == old(self)@,
            },
            !connected(final(self)@, *remote),
    {
        let found = self.position(remote);
        let ghost before = self@;
        match found {
            Some(i) => {
                proof {
                    lemma_distinct_addresses(before, before[0], i as int);
                }
                let mut inner: Vec<(SocketAddress, ConnectionData)> = Vec::new();
                assert(connection_views(inner@) =~= Seq::<ConnectionEntry>::empty());
                core::mem::swap(&mut self.inner, &mut inner);
                let entry = inner.remove(i);
                assert(connection_views(inner@) =~= before.remove(i as int));
                self.inner = inner;
                Some(entry.1)
            },
            None => None,
        }
    }
}

} // verus!
