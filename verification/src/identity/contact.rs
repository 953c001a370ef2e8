//! A remote identity and what is known of it locally.

use vstd::prelude::*;

use crate::error::{CoreError, CoreResult};
use crate::identity::trust::Trust;
use crate::identity::user::UserIdentity;
use crate::identity::{Identity, IdentityView};
use crate::time::Timestamp;

verus! {

/// An identity document as the local operator knows it: with the trust
/// placed in it and the times it was first and last observed.
#[derive(Debug, PartialEq, Eq)]
pub struct ContactIdentity {
    pub identity: Identity,
    pub trust: Trust,
    pub first_seen: Timestamp,
    pub last_seen: Timestamp,
}

/// What a contact identity holds.
pub struct ContactIdentityView {
    pub identity: IdentityView,
    pub trust: Trust,
    pub first_seen: Timestamp,
    pub last_seen: Timestamp,
}

impl View for ContactIdentity {
    type V = ContactIdentityView;

    open spec fn view(&self) -> ContactIdentityView {
        ContactIdentityView {
            identity: self.identity@,
            trust: self.trust,
            first_seen: self.first_seen,
            last_seen: self.last_seen,
        }
    }
}

impl Clone for ContactIdentity {
    fn clone(&self) -> (copy: ContactIdentity)
        ensures
            copy@ == self@,
    {
        ContactIdentity {
            identity: self.identity.clone(),
            trust: self.trust,
            first_seen: self.first_seen,
            last_seen: self.last_seen,
        }
    }
}

impl ContactIdentity {
    /// Creates the contact of a peer's document, first seen now.
    pub fn from_peer_identity(identity: Identity, trust: Trust) -> (res: CoreResult<
        ContactIdentity,
    >)
        ensures
            res matches Ok(contact) && contact@ == (ContactIdentityView {
                identity: identity@,
                trust,
                first_seen: contact.first_seen,
                last_seen: contact.first_seen,
            }),
    {
        Ok(Self::from_peer_identity_at(identity, trust, Timestamp::now()))
    }

    /// Creates the contact of a peer's document, first seen at `now`.
    pub fn from_peer_identity_at(identity: Identity, trust: Trust, now: Timestamp) -> (contact:
        ContactIdentity)
        ensures
            contact@ == (ContactIdentityView {
                identity: identity@,
                trust,
                first_seen: now,
                last_seen: now,
            }),
    {
        ContactIdentity { identity, trust, first_seen: now, last_seen: now }
    }

    /// Creates the contact that stands for the local user, who is trusted.
    pub fn from_user_identity(user: &UserIdentity) -> (contact: ContactIdentity)
        ensures
            contact@ == (ContactIdentityView {
                identity: user.identity@,
                trust: Trust::Trusted,
                first_seen: contact.first_seen,
                last_seen: contact.first_seen,
            }),
    {
        Self::from_peer_identity_at(user.identity.clone(), Trust::Trusted, Timestamp::now())
    }

    /// Sets the last-seen time of this contact to now.
    pub fn seen(&mut self)
        ensures
            final(self)@ == (ContactIdentityView {
                last_seen: final(self).last_seen,
                ..old(self)@
            }),
    {
        self.set_last_seen(Timestamp::now())
    }

    /// Sets the last-seen time of this contact.
    pub fn set_last_seen(&mut self, last_seen: Timestamp)
        ensures
            final(self)@ == (ContactIdentityView { last_seen, ..old(self)@ }),
    {
        self.last_seen = last_seen;
    }

    /// The document of this contact.
    pub fn identity(&self) -> (identity: &Identity)
        ensures
            identity@ == self.identity@,
    {
        &self.identity
    }
}

} // verus!
