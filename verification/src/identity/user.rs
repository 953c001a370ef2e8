//! The local user's identity.

use vstd::prelude::*;
use vstd::string::StringExecFns;

use crate::error::{CoreError, CoreResult};
use crate::identity::crypto;
use crate::identity::{authentic, initial_data, sealed, valid_username};
use crate::identity::{Identity, IdentityView, SecretKey, VerifiedDataView};
use crate::text::hex_upper;
use crate::time::Timestamp;

verus! {

/// An identity document together with the private keys that belong to it.
/// The private keys stay with the local actor.
#[derive(PartialEq, Eq)]
pub struct UserIdentity {
    pub identity: Identity,
    pub identity_key: SecretKey,
    pub noise_key: SecretKey,
}

/// What a user identity holds.
pub struct UserIdentityView {
    pub identity: IdentityView,
    pub identity_key: Seq<u8>,
    pub noise_key: Seq<u8>,
}

impl View for UserIdentity {
    type V = UserIdentityView;

    open spec fn view(&self) -> UserIdentityView {
        UserIdentityView {
            identity: self.identity@,
            identity_key: self.identity_key@,
            noise_key: self.noise_key@,
        }
    }
}

impl Clone for UserIdentity {
    fn clone(&self) -> (copy: UserIdentity)
        ensures
            copy@ == self@,
    {
        UserIdentity {
            identity: self.identity.clone(),
            identity_key: self.identity_key,
            noise_key: self.noise_key,
        }
    }
}

/// The user identity that `create` makes of a username, two private keys and
/// a date: a fresh document for the public halves of the keys, signed with
/// the private signing key.
pub open spec fn fresh_user(
    username: Seq<char>,
    identity_key: Seq<u8>,
    noise_key: Seq<u8>,
    created: Timestamp,
) -> UserIdentityView {
    UserIdentityView {
        identity: sealed(
            initial_data(
                username,
                crypto::ed25519_public_key(identity_key),
                crypto::x25519_public_key(noise_key),
                created,
            ),
            identity_key,
        ),
        identity_key,
        noise_key,
    }
}

impl UserIdentity {
    /// Creates a new user identity with freshly drawn keys.
    pub fn create(username: &str) -> (res: CoreResult<UserIdentity>)
        ensures
            !valid_username(username@) ==> res == Err::<UserIdentity, CoreError>(
                CoreError::InvalidUsername,
            ),
            valid_username(username@) ==> match res {
                Ok(user) => user@ == fresh_user(
                    username@,
                    user.identity_key@,
                    user.noise_key@,
                    user.identity@.verified.created,
                ) && !crypto::ed25519_is_weak(user.identity_key@),
                Err(e) => e == CoreError::KeyGeneration || e == CoreError::MessagePackEncode,
            },
    {
        match Identity::validate_username(username) {
            Ok(_) => {},
            Err(e) => {
                return Err(e);
            },
        }
        let identity_key = match crypto::generate_good_key_ed25519() {
            Some(key) => key,
            None => {
                return Err(CoreError::KeyGeneration);
            },
        };
        let noise_key = crypto::generate_good_key_x25519();
        Self::from_keys(username, identity_key, noise_key, Timestamp::now())
    }

    /// Creates the user identity of the given private keys, dated `created`.
    pub fn from_keys(
        username: &str,
        identity_key: SecretKey,
        noise_key: SecretKey,
        created: Timestamp,
    ) -> (res: CoreResult<UserIdentity>)
        ensures
            !valid_username(username@) ==> res == Err::<UserIdentity, CoreError>(
                CoreError::InvalidUsername,
            ),
            valid_username(username@) ==> match res {
                Ok(user) => user@ == fresh_user(username@, identity_key@, noise_key@, created),
                Err(e) => e == CoreError::MessagePackEncode,
            },
    {
        let noise_pkey = crypto::derive_noise_public_key(&noise_key);
        match Identity::create_at(username, &identity_key, noise_pkey, created) {
            Ok(identity) => Ok(UserIdentity { identity, identity_key, noise_key }),
            Err(e) => Err(e),
        }
    }

    /// Creates a new user identity with freshly drawn keys, as `create` does,
    /// and hands it out only if `verify` accepts its document.
    pub fn create_checked(username: &str) -> (res: CoreResult<UserIdentity>)
        ensures
            !valid_username(username@) ==> res == Err::<UserIdentity, CoreError>(
                CoreError::InvalidUsername,
            ),
            valid_username(username@) ==> match res {
                Ok(user) => user@ == fresh_user(
                    username@,
                    user.identity_key@,
                    user.noise_key@,
                    user.identity@.verified.created,
                ) && !crypto::ed25519_is_weak(user.identity_key@) && authentic(user@.identity),
                Err(e) => e == CoreError::KeyGeneration || e == CoreError::MessagePackEncode || e
                    == CoreError::SignatureEd25519,
            },
    {
        match Identity::validate_username(username) {
            Ok(_) => {},
            Err(e) => {
                return Err(e);
            },
        }
        let identity_key = match crypto::generate_good_key_ed25519() {
            Some(key) => key,
            None => {
                return Err(CoreError::KeyGeneration);
            },
        };
        let noise_key = crypto::generate_good_key_x25519();
        Self::from_keys_checked(username, identity_key, noise_key, Timestamp::now())
    }

    /// Creates the user identity of the given private keys, as `from_keys`
    /// does, and hands it out only if `verify` accepts its document.
    pub fn from_keys_checked(
        username: &str,
        identity_key: SecretKey,
        noise_key: SecretKey,
        created: Timestamp,
    ) -> (res: CoreResult<UserIdentity>)
        ensures
            !valid_username(username@) ==> res == Err::<UserIdentity, CoreError>(
                CoreError::InvalidUsername,
            ),
            valid_username(username@) ==> match res {
                Ok(user) => user@ == fresh_user(username@, identity_key@, noise_key@, created)
                    && authentic(user@.identity),
                Err(e) => e == CoreError::MessagePackEncode || (e == CoreError::SignatureEd25519
                    && !authentic(fresh_user(username@, identity_key@, noise_key@, created).identity)),
            },
    {
        let noise_pkey = crypto::derive_noise_public_key(&noise_key);
        match Identity::create_checked_at(username, &identity_key, noise_pkey, created) {
            Ok(identity) => Ok(UserIdentity { identity, identity_key, noise_key }),
            Err(e) => Err(e),
        }
    }

    /// The text shown for a user identity in diagnostic output: the
    /// identifier and the username. The private keys are not shown.
    pub open spec fn text(&self) -> Seq<char> {
        "UserIdentity { identity: "@ + hex_upper(self@.identity.verified.identity_key) + " ("@
            + self@.identity.verified.username
            + "), identity_key: {redacted}, noise_key: {redacted} }"@
    }

    /// The text shown for this user identity in diagnostic output.
    pub fn to_text(&self) -> (text: String)
        ensures
            text@ == self.text(),
    {
        let mut text = String::from_str("UserIdentity { identity: ");
        text.append(self.identity.id().to_text().as_str());
        text.append(" (");
        text.append(self.identity.username());
        text.append("), identity_key: {redacted}, noise_key: {redacted} }");
        text
    }

    /// Returns the private signing key of this user.
    pub fn private_key(&self) -> (key: &SecretKey)
        ensures
            key@ == self.identity_key@,
    {
        &self.identity_key
    }

    /// Returns the private signing key of this user.
    pub fn identity_private_key(&self) -> (key: &SecretKey)
        ensures
            key@ == self.identity_key@,
    {
        &self.identity_key
    }

    /// Returns the private key-exchange key of this user.
    pub fn noise_private_key(&self) -> (key: &SecretKey)
        ensures
            key@ == self.noise_key@,
    {
        &self.noise_key
    }

    /// Draws a new private key-exchange key, holds it in place of the old one
    /// and publishes its public half in the document, signed with the
    /// private signing key held.
    pub fn rotate_noise_private_key(&mut self) -> (res: CoreResult<()>)
        requires
            old(self)@.identity.verified.version < u64::MAX,
        ensures
            final(self).identity_key == old(self).identity_key,
            final(self)@.identity.verified == (VerifiedDataView {
                noise_key: crypto::x25519_public_key(final(self).noise_key@),
                version: (old(self)@.identity.verified.version + 1) as u64,
                ..old(self)@.identity.verified
            }),
            match res {
                Ok(_) => final(self)@.identity == sealed(
                    final(self)@.identity.verified,
                    old(self).identity_key@,
                ),
                Err(e) => e == CoreError::MessagePackEncode
                    && final(self)@.identity.signature == old(self)@.identity.signature,
            },
    {
        let noise_priv = crypto::generate_good_key_x25519();
        self.set_noise_private_key(noise_priv)
    }

    /// Holds the given private key-exchange key in place of the old one and
    /// publishes its public half in the document, signed with the private
    /// signing key held.
    pub fn set_noise_private_key(&mut self, noise_priv: SecretKey) -> (res: CoreResult<()>)
        requires
            old(self)@.identity.verified.version < u64::MAX,
        ensures
            final(self).identity_key == old(self).identity_key,
            final(self).noise_key == noise_priv,
            final(self)@.identity.verified == (VerifiedDataView {
                noise_key: crypto::x25519_public_key(noise_priv@),
                version: (old(self)@.identity.verified.version + 1) as u64,
                ..old(self)@.identity.verified
            }),
            match res {
                Ok(_) => final(self)@.identity == sealed(
                    final(self)@.identity.verified,
                    old(self).identity_key@,
                ),
                Err(e) => e == CoreError::MessagePackEncode
                    && final(self)@.identity.signature == old(self)@.identity.signature,
            },
    {
        let noise_pub = crypto::derive_noise_public_key(&noise_priv);
        let id_priv = self.identity_key;
        self.noise_key = noise_priv;
        self.identity.set_noise_key(noise_pub, &id_priv)
    }
}

} // verus!
