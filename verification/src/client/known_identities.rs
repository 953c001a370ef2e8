//! The trust registry: every identity observed so far, with the trust the
//! operator places in it.

use vstd::prelude::*;

use crate::client::error::ClientResult;
use crate::identity::contact::{ContactIdentity, ContactIdentityView};
use crate::identity::id::ContactId;
use crate::identity::trust::Trust;
use crate::identity::{Identity, IdentityView};
use crate::time::Timestamp;

verus! {

/// A contact as the registry hands it out.
pub type SharedContact = ContactIdentity;

/// The identities known locally, in the order of their first observation.
/// No two entries speak for the same contact.
#[derive(Debug, PartialEq, Eq)]
pub struct KnownIdentities {
    inner: Vec<ContactIdentity>,
}

/// What contacts hold, one by one.
pub open spec fn contact_views(entries: Seq<ContactIdentity>) -> Seq<ContactIdentityView> {
    entries.map_values(|c: ContactIdentity| c@)
}

/// The key bytes that identify the contact of an entry.
pub open spec fn key_of(contact: ContactIdentityView) -> Seq<u8> {
    contact.identity.verified.identity_key
}

/// No two entries speak for the same contact.
pub open spec fn distinct_contacts(entries: Seq<ContactIdentityView>) -> bool {
    forall|i: int, j: int|
        0 <= i < entries.len() && 0 <= j < entries.len() && i != j ==> key_of(
            #[trigger] entries[i],
        ) != key_of(#[trigger] entries[j])
}

/// Whether an entry speaks for the contact with the given key bytes.
pub open spec fn knows(entries: Seq<ContactIdentityView>, id: Seq<u8>) -> bool {
    exists|i: int| 0 <= i < entries.len() && key_of(#[trigger] entries[i]) == id
}

/// The place of the entry that speaks for the contact, where there is one.
pub open spec fn position_of(entries: Seq<ContactIdentityView>, id: Seq<u8>) -> int {
    choose|i: int| 0 <= i < entries.len() && key_of(#[trigger] entries[i]) == id
}

/// The entry that a first observation creates.
pub open spec fn first_contact(document: IdentityView, now: Timestamp) -> ContactIdentityView {
    ContactIdentityView { identity: document, trust: Trust::Unknown, first_seen: now, last_seen: now }
}

/// The registry after a document was observed at `now`. A contact not known
/// before is entered with unknown trust. Of a known contact only the time it
/// was last seen changes.
pub open spec fn observe(
    entries: Seq<ContactIdentityView>,
    document: IdentityView,
    now: Timestamp,
) -> Seq<ContactIdentityView> {
    let id = document.verified.identity_key;
    if knows(entries, id) {
        let i = position_of(entries, id);
        entries.update(i, ContactIdentityView { last_seen: now, ..entries[i] })
    } else {
        entries.push(first_contact(document, now))
    }
}

/// The registry after the operator decided on a contact. A decision on a
/// contact that was never observed changes nothing.
pub open spec fn with_trust(entries: Seq<ContactIdentityView>, id: Seq<u8>, trust: Trust) -> Seq<
    ContactIdentityView,
> {
    if knows(entries, id) {
        let i = position_of(entries, id);
        entries.update(i, ContactIdentityView { trust, ..entries[i] })
    } else {
        entries
    }
}

/// The registry after an entry was put in: it takes the place of the entry
/// for the same contact, or goes to the end if there is none.
pub open spec fn entered(entries: Seq<ContactIdentityView>, contact: ContactIdentityView) -> Seq<
    ContactIdentityView,
> {
    if knows(entries, key_of(contact)) {
        entries.update(position_of(entries, key_of(contact)), contact)
    } else {
        entries.push(contact)
    }
}

/// Putting an entry in keeps the entries distinct.
pub proof fn lemma_entered(entries: Seq<ContactIdentityView>, contact: ContactIdentityView)
    requires
        distinct_contacts(entries),
    ensures
        distinct_contacts(entered(entries, contact)),
        knows(entered(entries, contact), key_of(contact)),
{
    let after = entered(entries, contact);
    if knows(entries, key_of(contact)) {
        let i = position_of(entries, key_of(contact));
        assert(key_of(after[i]) == key_of(contact));
        assert forall|a: int, b: int|
            0 <= a < after.len() && 0 <= b < after.len() && a != b implies key_of(
            #[trigger] after[a],
        ) != key_of(#[trigger] after[b]) by {
            assert(key_of(after[a]) == key_of(entries[a]));
            assert(key_of(after[b]) == key_of(entries[b]));
        }
    } else {
        assert(key_of(after[entries.len() as int]) == key_of(contact));
        assert forall|a: int, b: int|
            0 <= a < after.len() && 0 <= b < after.len() && a != b implies key_of(
            #[trigger] after[a],
        ) != key_of(#[trigger] after[b]) by {
            if a < entries.len() {
                assert(after[a] == entries[a]);
            }
            if b < entries.len() {
                assert(after[b] == entries[b]);
            }
        }
    }
}

/// Where no two entries speak for one contact, an entry for a contact is at
/// the contact's place.
pub proof fn lemma_position(entries: Seq<ContactIdentityView>, i: int)
    requires
        distinct_contacts(entries),
        0 <= i < entries.len(),
    ensures
        knows(entries, key_of(entries[i])),
        position_of(entries, key_of(entries[i])) == i,
{
    let id = key_of(entries[i]);
    let p = position_of(entries, id);
    assert(0 <= p < entries.len() && key_of(entries[p]) == id);
}

/// Observing keeps the entries distinct, and afterwards the contact of the
/// document is known.
pub proof fn lemma_observe_keeps_distinct(
    entries: Seq<ContactIdentityView>,
    document: IdentityView,
    now: Timestamp,
)
    requires
        distinct_contacts(entries),
    ensures
        distinct_contacts(observe(entries, document, now)),
        knows(observe(entries, document, now), document.verified.identity_key),
{
    let id = document.verified.identity_key;
    let after = observe(entries, document, now);
    if knows(entries, id) {
        let i = position_of(entries, id);
        assert(key_of(after[i]) == id);
        assert forall|a: int, b: int|
            0 <= a < after.len() && 0 <= b < after.len() && a != b implies key_of(
            #[trigger] after[a],
        ) != key_of(#[trigger] after[b]) by {
            assert(key_of(after[a]) == key_of(entries[a]));
            assert(key_of(after[b]) == key_of(entries[b]));
        }
    } else {
        assert(key_of(after[entries.len() as int]) == id);
        assert forall|a: int, b: int|
            0 <= a < after.len() && 0 <= b < after.len() && a != b implies key_of(
            #[trigger] after[a],
        ) != key_of(#[trigger] after[b]) by {
            if a < entries.len() {
                assert(after[a] == entries[a]);
            }
            if b < entries.len() {
                assert(after[b] == entries[b]);
            }
        }
    }
}

/// Observing the same document a second time changes, of the whole registry,
/// only the time the contact was last seen: its trust, its document and the
/// time it was first seen stay, and so does every other entry.
pub proof fn lemma_observe_twice(
    entries: Seq<ContactIdentityView>,
    document: IdentityView,
    first: Timestamp,
    second: Timestamp,
)
    requires
        distinct_contacts(entries),
    ensures
        ({
            let once = observe(entries, document, first);
            let twice = observe(once, document, second);
            let i = position_of(once, document.verified.identity_key);
            &&& 0 <= i < once.len()
            &&& key_of(once[i]) == document.verified.identity_key
            &&& twice == once.update(i, ContactIdentityView { last_seen: second, ..once[i] })
            &&& twice[i].trust == once[i].trust
            &&& twice[i].first_seen == once[i].first_seen
            &&& twice[i].identity == once[i].identity
        }),
{
    lemma_observe_keeps_distinct(entries, document, first);
}

/// A decision on trust changes the trust of the one contact and nothing
/// else; on a contact that was never observed it changes nothing.
pub proof fn lemma_with_trust(entries: Seq<ContactIdentityView>, id: Seq<u8>, trust: Trust)
    requires
        distinct_contacts(entries),
    ensures
        distinct_contacts(with_trust(entries, id, trust)),
        with_trust(entries, id, trust).len() == entries.len(),
        !knows(entries, id) ==> with_trust(entries, id, trust) == entries,
        forall|i: int|
            0 <= i < entries.len() ==> (#[trigger] with_trust(entries, id, trust)[i]) == (if key_of(
                entries[i],
            ) == id {
                ContactIdentityView { trust, ..entries[i] }
            } else {
                entries[i]
            }),
{
    let after = with_trust(entries, id, trust);
    if knows(entries, id) {
        let p = position_of(entries, id);
        assert forall|i: int| 0 <= i < entries.len() implies (#[trigger] after[i]) == (if key_of(
            entries[i],
        ) == id {
            ContactIdentityView { trust, ..entries[i] }
        } else {
            entries[i]
        }) by {
            if key_of(entries[i]) == id {
                lemma_position(entries, i);
            }
        }
        assert forall|a: int, b: int|
            0 <= a < after.len() && 0 <= b < after.len() && a != b implies key_of(
            #[trigger] after[a],
        ) != key_of(#[trigger] after[b]) by {
            assert(key_of(after[a]) == key_of(entries[a]));
            assert(key_of(after[b]) == key_of(entries[b]));
        }
    } else {
        assert forall|i: int| 0 <= i < entries.len() implies key_of(#[trigger] entries[i])
            != id by {}
    }
}

impl View for KnownIdentities {
    type V = Seq<ContactIdentityView>;

    closed spec fn view(&self) -> Seq<ContactIdentityView> {
        contact_views(self.inner@)
    }
}

impl Clone for KnownIdentities {
    fn clone(&self) -> (copy: KnownIdentities)
        ensures
            copy@ == self@,
    {
        proof {
            use_type_invariant(self);
        }
        let mut inner: Vec<ContactIdentity> = Vec::new();
        let mut i: usize = 0;
        while i < self.inner.len()
            invariant
                i <= self.inner@.len(),
                inner@.len() == i,
                forall|j: int| 0 <= j < i ==> inner@[j]@ == self.inner@[j]@,
            decreases self.inner@.len() - i,
        {
            inner.push(self.inner[i].clone());
            i += 1;
        }
        assert(contact_views(inner@) =~= self@);
        KnownIdentities { inner }
    }
}

impl Default for KnownIdentities {
    fn default() -> (registry: KnownIdentities)
        ensures
            registry@ == Seq::<ContactIdentityView>::empty(),
    {
        KnownIdentities::new()
    }
}

impl KnownIdentities {
    /// Holds of every registry that exists at run time: no two entries speak
    /// for the same contact.
    #[verifier::type_invariant]
    pub closed spec fn well_formed(&self) -> bool {
        distinct_contacts(self@)
    }

    /// A registry that knows nobody.
    pub fn new() -> (registry: KnownIdentities)
        ensures
            registry@ == Seq::<ContactIdentityView>::empty(),
    {
        let registry = KnownIdentities { inner: Vec::new() };
        assert(registry@ =~= Seq::<ContactIdentityView>::empty());
        registry
    }

    /// Number of contacts known.
    pub fn len(&self) -> (n: usize)
        ensures
            n == self@.len(),
    {
        self.inner.len()
    }

    /// The entries, in the order of their first observation.
    pub fn entries(&self) -> (entries: &[ContactIdentity])
        ensures
            contact_views(entries@) == self@,
            distinct_contacts(self@),
    {
        proof {
            use_type_invariant(self);
        }
        self.inner.as_slice()
    }

    /// The place of the entry for a contact.
    fn position(&self, id: &ContactId) -> (res: Option<usize>)
        ensures
            match res {
                Some(i) => i < self@.len() && knows(self@, id.bytes()) && position_of(
                    self@,
                    id.bytes(),
                ) == i && key_of(self@[i as int]) == id.bytes(),
                None => !knows(self@, id.bytes()),
            },
            distinct_contacts(self@),
    {
        proof {
            use_type_invariant(self);
        }
        let mut i: usize = 0;
        while i < self.inner.len()
            invariant
                i <= self.inner@.len(),
                self@.len() == self.inner@.len(),
                distinct_contacts(self@),
                forall|j: int| 0 <= j < i ==> key_of(#[trigger] self@[j]) != id.bytes(),
            decreases self.inner@.len() - i,
        {
            let entry_id = self.inner[i].identity.id();
            assert(self@[i as int] == self.inner@[i as int]@);
            if entry_id == *id {
                proof {
                    lemma_position(self@, i as int);
                }
                return Some(i);
            }
            proof {
                ContactId::lemma_bytes(entry_id, *id);
            }
            i += 1;
        }
        None
    }

    /// Whether the contact was observed before.
    pub fn contains_key(&self, id: &ContactId) -> (known: bool)
        ensures
            known == knows(self@, id.bytes()),
    {
        self.position(id).is_some()
    }

    /// What is known of a contact.
    pub fn get(&self, id: &ContactId) -> (res: Option<&ContactIdentity>)
        ensures
            match res {
                Some(contact) => knows(self@, id.bytes()) && contact@ == self@[position_of(
                    self@,
                    id.bytes(),
                )],
                None => !knows(self@, id.bytes()),
            },
    {
        match self.position(id) {
            Some(i) => {
                assert(self@[i as int] == self.inner@[i as int]@);
                Some(&self.inner[i])
            },
            None => None,
        }
    }

    /// Puts an entry in, as it is. It takes the place of the entry for the
    /// same contact, which is handed back, or goes to the end if there is
    /// none.
    pub fn insert(&mut self, contact: ContactIdentity) -> (res: Option<ContactIdentity>)
        ensures
            final(self)@ == entered(old(self)@, contact@),
            match res {
                Some(replaced) => knows(old(self)@, key_of(contact@)) && replaced@ == old(
                    self,
                )@[position_of(old(self)@, key_of(contact@))],
                None => !knows(old(self)@, key_of(contact@)),
            },
    {
        let id = contact.identity.id();
        let found = self.position(&id);
        let ghost before = self@;
        proof {
            lemma_entered(before, contact@);
        }
        let mut inner: Vec<ContactIdentity> = Vec::new();
        assert(contact_views(inner@) =~= Seq::<ContactIdentityView>::empty());
        core::mem::swap(&mut self.inner, &mut inner);
        let replaced = match found {
            Some(i) => {
                let replaced = inner[i].clone();
                inner.set(i, contact);
                Some(replaced)
            },
            None => {
                inner.push(contact);
                None
            },
        };
        assert(contact_views(inner@) =~= entered(before, contact@));
        self.inner = inner;
        replaced
    }

    /// Observes a document now: see `create_or_update_at`.
    pub fn create_or_update(&mut self, iden: &Identity) -> (res: ClientResult<SharedContact>)
        ensures
            res matches Ok(contact) && final(self)@ == observe(
                old(self)@,
                iden@,
                contact.last_seen,
            ) && contact@ == final(self)@[position_of(
                final(self)@,
                iden@.verified.identity_key,
            )],
    {
        Ok(self.create_or_update_at(iden, Timestamp::now()))
    }

    /// Observes a document at `now`. A contact not known before is entered
    /// with unknown trust, first and last seen at `now`. Of a known contact
    /// the time it was last seen becomes `now`, and nothing else changes.
    /// Returns the contact's entry as it is afterwards.
    pub fn create_or_update_at(&mut self, iden: &Identity, now: Timestamp) -> (contact:
        SharedContact)
        ensures
            final(self)@ == observe(old(self)@, iden@, now),
            knows(final(self)@, iden@.verified.identity_key),
            contact@ == final(self)@[position_of(final(self)@, iden@.verified.identity_key)],
            contact.last_seen == now,
            !knows(old(self)@, iden@.verified.identity_key) ==> contact@ == first_contact(
                iden@,
                now,
            ),
    {
        let id = iden.id();
        let found = self.position(&id);
        let ghost before = self@;
        proof {
            lemma_observe_keeps_distinct(before, iden@, now);
        }
        let mut inner: Vec<ContactIdentity> = Vec::new();
        assert(contact_views(inner@) =~= Seq::<ContactIdentityView>::empty());
        core::mem::swap(&mut self.inner, &mut inner);
        let contact = match found {
            Some(i) => {
                let mut contact = inner[i].clone();
                contact.set_last_seen(now);
                inner.set(i, contact.clone());
                contact
            },
            None => {
                let contact = ContactIdentity::from_peer_identity_at(
                    iden.clone(),
                    Trust::Unknown,
                    now,
                );
                inner.push(contact.clone());
                contact
            },
        };
        assert(contact_views(inner@) =~= observe(before, iden@, now));
        self.inner = inner;
        proof {
            let after = observe(before, iden@, now);
            let p = position_of(after, iden@.verified.identity_key);
            match found {
                Some(i) => {
                    lemma_position(after, i as int);
                },
                None => {
                    lemma_position(after, before.len() as int);
                },
            }
        }
        contact
    }

    /// Records the operator's decision on a contact. A decision on a contact
    /// that was never observed changes nothing. Returns whether the contact
    /// was known.
    pub fn set_trust(&mut self, id: &ContactId, trust: Trust) -> (known: bool)
        ensures
            known == knows(old(self)@, id.bytes()),
            final(self)@ == with_trust(old(self)@, id.bytes(), trust),
    {
        let found = self.position(id);
        let ghost before = self@;
        proof {
            lemma_with_trust(before, id.bytes(), trust);
        }
        match found {
            Some(i) => {
                let mut inner: Vec<ContactIdentity> = Vec::new();
                assert(contact_views(inner@) =~= Seq::<ContactIdentityView>::empty());
                core::mem::swap(&mut self.inner, &mut inner);
                let mut nc = inner[i].clone();
                nc.trust = trust;
                inner.set(i, nc);
                assert(contact_views(inner@) =~= with_trust(before, id.bytes(), trust));
                self.inner = inner;
                true
            },
            None => false,
        }
    }
}

} // verus!
