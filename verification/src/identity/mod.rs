//! Self-certifying identities and what the local operator knows of them.

use vstd::prelude::*;
use vstd::string::StrSliceExecFns;
use vstd::string::StringExecFns;

use crate::error::{CoreError, CoreResult};
use crate::time::Timestamp;

pub mod contact;
pub mod crypto;
pub mod id;
pub mod trust;
pub mod user;

pub use contact::ContactIdentity;
pub use id::{format_key, ContactId};
pub use trust::Trust;
pub use user::UserIdentity;

verus! {

/// The 32 bytes of a private key.
pub type SecretKey = [u8; 32];

/// The 32 bytes of a public key.
pub type PublicKey = [u8; 32];

/// The 64 bytes of a signature.
pub type Signature = [u8; 64];

/// Fewest characters a username may have.
pub const USERNAME_MIN_CHARS: usize = 1;

/// Most characters a username may have.
pub const USERNAME_MAX_CHARS: usize = 40;

/// What a participant declares about itself.
#[derive(Debug, Copy, Clone, PartialEq, Eq, Structural)]
pub struct Flags {
    pub uses_relay: bool,
    pub is_machine_account: bool,
    pub is_relay_server: bool,
    pub prefers_async: bool,
}

impl Default for Flags {
    fn default() -> (flags: Flags)
        ensures
            flags == Flags::none(),
    {
        Flags {
            uses_relay: false,
            is_machine_account: false,
            is_relay_server: false,
            prefers_async: false,
        }
    }
}

impl Flags {
    /// No flag set.
    pub open spec fn none() -> Flags {
        Flags {
            uses_relay: false,
            is_machine_account: false,
            is_relay_server: false,
            prefers_async: false,
        }
    }
}

/// Optional additions to an identity document: a profile picture and
/// further metadata by name. No name occurs twice; the entries stand in the
/// order in which their names were first set.
#[derive(Debug, PartialEq, Eq)]
pub struct Extensions {
    profile_picture: Option<Vec<u8>>,
    additional_metadata: Vec<(String, Vec<u8>)>,
}

/// What an `Extensions` value holds.
pub struct ExtensionsView {
    pub profile_picture: Option<Seq<u8>>,
    pub additional_metadata: Seq<(Seq<char>, Seq<u8>)>,
}

/// No name occurs twice.
pub open spec fn distinct_names(metadata: Seq<(Seq<char>, Seq<u8>)>) -> bool {
    forall|i: int, j: int|
        0 <= i < metadata.len() && 0 <= j < metadata.len() && i != j ==> (
        #[trigger] metadata[i]).0 != (#[trigger] metadata[j]).0
}

/// Whether the metadata hold an entry of the given name.
pub open spec fn has_name(metadata: Seq<(Seq<char>, Seq<u8>)>, name: Seq<char>) -> bool {
    exists|i: int| 0 <= i < metadata.len() && (#[trigger] metadata[i]).0 == name
}

/// The place of the entry of the given name, where there is one.
pub open spec fn name_position(metadata: Seq<(Seq<char>, Seq<u8>)>, name: Seq<char>) -> int {
    choose|i: int| 0 <= i < metadata.len() && (#[trigger] metadata[i]).0 == name
}

/// The metadata after a value was set for a name: the value of a name that
/// is present is replaced, a new name is added at the end.
pub open spec fn with_metadata(
    metadata: Seq<(Seq<char>, Seq<u8>)>,
    name: Seq<char>,
    value: Seq<u8>,
) -> Seq<(Seq<char>, Seq<u8>)> {
    if has_name(metadata, name) {
        metadata.update(name_position(metadata, name), (name, value))
    } else {
        metadata.push((name, value))
    }
}

/// Setting a value keeps the names distinct.
pub proof fn lemma_with_metadata(
    metadata: Seq<(Seq<char>, Seq<u8>)>,
    name: Seq<char>,
    value: Seq<u8>,
)
    requires
        distinct_names(metadata),
    ensures
        distinct_names(with_metadata(metadata, name, value)),
        has_name(with_metadata(metadata, name, value), name),
{
    let after = with_metadata(metadata, name, value);
    if has_name(metadata, name) {
        let p = name_position(metadata, name);
        assert(after[p].0 == name);
        assert forall|i: int, j: int|
            0 <= i < after.len() && 0 <= j < after.len() && i != j implies (#[trigger] after[i]).0
            != (#[trigger] after[j]).0 by {
            assert(after[i].0 == metadata[i].0);
            assert(after[j].0 == metadata[j].0);
        }
    } else {
        assert(after[metadata.len() as int].0 == name);
        assert forall|i: int, j: int|
            0 <= i < after.len() && 0 <= j < after.len() && i != j implies (#[trigger] after[i]).0
            != (#[trigger] after[j]).0 by {
            if i < metadata.len() {
                assert(after[i] == metadata[i]);
            }
            if j < metadata.len() {
                assert(after[j] == metadata[j]);
            }
        }
    }
}

impl View for Extensions {
    type V = ExtensionsView;

    closed spec fn view(&self) -> ExtensionsView {
        ExtensionsView {
            profile_picture: match self.profile_picture {
                Some(picture) => Some(picture@),
                None => None,
            },
            additional_metadata: Seq::new(
                self.additional_metadata@.len(),
                |i: int| (self.additional_metadata@[i].0@, self.additional_metadata@[i].1@),
            ),
        }
    }
}

impl Default for Extensions {
    fn default() -> (extensions: Extensions)
        ensures
            extensions@ == (ExtensionsView {
                profile_picture: None,
                additional_metadata: Seq::empty(),
            }),
    {
        Extensions::new(None)
    }
}

impl Clone for Extensions {
    fn clone(&self) -> (copy: Extensions)
        ensures
            copy@ == self@,
    {
        proof {
            use_type_invariant(self);
        }
        let profile_picture = match &self.profile_picture {
            Some(picture) => {
                let bytes = picture.clone();
                assert(bytes@ =~= picture@);
                Some(bytes)
            },
            None => None,
        };
        let mut additional_metadata: Vec<(String, Vec<u8>)> = Vec::new();
        let mut i: usize = 0;
        while i < self.additional_metadata.len()
            invariant
                i <= self.additional_metadata@.len(),
                additional_metadata@.len() == i,
                forall|j: int|
                    0 <= j < i ==> additional_metadata@[j].0@ == self.additional_metadata@[j].0@
                        && additional_metadata@[j].1@ == self.additional_metadata@[j].1@,
            decreases self.additional_metadata@.len() - i,
        {
            let key = self.additional_metadata[i].0.clone();
            let value = self.additional_metadata[i].1.clone();
            assert(value@ =~= self.additional_metadata@[i as int].1@);
            additional_metadata.push((key, value));
            i += 1;
        }
        let ghost copied = Seq::new(
            additional_metadata@.len(),
            |i: int| (additional_metadata@[i].0@, additional_metadata@[i].1@),
        );
        assert(copied =~= self@.additional_metadata);
        Extensions { profile_picture, additional_metadata }
    }
}

impl Extensions {
    /// Holds of all extensions that exist at run time: no name occurs twice.
    #[verifier::type_invariant]
    pub closed spec fn well_formed(&self) -> bool {
        distinct_names(self@.additional_metadata)
    }

    /// Extensions with the given profile picture and no further metadata.
    pub fn new(profile_picture: Option<Vec<u8>>) -> (extensions: Extensions)
        ensures
            extensions@ == (ExtensionsView {
                profile_picture: match profile_picture {
                    Some(picture) => Some(picture@),
                    None => None,
                },
                additional_metadata: Seq::empty(),
            }),
    {
        let additional_metadata: Vec<(String, Vec<u8>)> = Vec::new();
        let ghost none = Seq::new(
            additional_metadata@.len(),
            |i: int| (additional_metadata@[i].0@, additional_metadata@[i].1@),
        );
        assert(none =~= Seq::empty());
        Extensions { profile_picture, additional_metadata }
    }

    /// The profile picture, if there is one.
    pub fn profile_picture(&self) -> (picture: Option<&Vec<u8>>)
        ensures
            match picture {
                Some(bytes) => self@.profile_picture == Some(bytes@),
                None => self@.profile_picture is None,
            },
    {
        self.profile_picture.as_ref()
    }

    /// The further metadata: names and values, in the order in which the
    /// names were first set.
    pub fn additional_metadata(&self) -> (metadata: &[(String, Vec<u8>)])
        ensures
            metadata@.len() == self@.additional_metadata.len(),
            forall|i: int|
                0 <= i < metadata@.len() ==> (#[trigger] metadata@[i]).0@
                    == self@.additional_metadata[i].0 && metadata@[i].1@
                    == self@.additional_metadata[i].1,
            distinct_names(self@.additional_metadata),
    {
        proof {
            use_type_invariant(self);
        }
        self.additional_metadata.as_slice()
    }

    /// Sets the value of a name in the further metadata: the value of a name
    /// that is present is replaced, a new name is added at the end.
    pub fn set_metadata(&mut self, name: String, value: Vec<u8>)
        ensures
            final(self)@ == (ExtensionsView {
                additional_metadata: with_metadata(old(self)@.additional_metadata, name@, value@),
                ..old(self)@
            }),
    {
        proof {
            use_type_invariant(&*self);
            lemma_with_metadata(self@.additional_metadata, name@, value@);
        }
        let ghost before = self@.additional_metadata;
        let mut found: Option<usize> = None;
        let mut i: usize = 0;
        while i < self.additional_metadata.len()
            invariant_except_break
                found is None,
                forall|j: int| 0 <= j < i ==> (#[trigger] before[j]).0 != name@,
            invariant
                i <= self.additional_metadata@.len(),
                before == self@.additional_metadata,
                before.len() == self.additional_metadata@.len(),
                distinct_names(before),
            ensures
                match found {
                    Some(p) => p < before.len() && before[p as int].0 == name@,
                    None => !has_name(before, name@),
                },
            decreases self.additional_metadata@.len() - i,
        {
            assert(before[i as int].0 == self.additional_metadata@[i as int].0@);
            if self.additional_metadata[i].0 == name {
                found = Some(i);
                break ;
            }
            i += 1;
        }
        let mut metadata: Vec<(String, Vec<u8>)> = Vec::new();
        let ghost none = Seq::new(metadata@.len(), |i: int| (metadata@[i].0@, metadata@[i].1@));
        assert(none =~= Seq::empty());
        core::mem::swap(&mut self.additional_metadata, &mut metadata);
        match found {
            Some(p) => {
                proof {
                    let q = name_position(before, name@);
                    assert(before[q].0 == name@);
                    assert(q == p);
                }
                metadata.set(p, (name, value));
            },
            None => {
                metadata.push((name, value));
            },
        }
        let ghost after = Seq::new(metadata@.len(), |i: int| (metadata@[i].0@, metadata@[i].1@));
        assert(after =~= with_metadata(before, name@, value@));
        self.additional_metadata = metadata;
    }
}

/// The signed part of an identity document: every field but the signature.
#[derive(Debug, PartialEq, Eq)]
pub struct IdentityVerifiedData {
    username: String,
    identity_key: PublicKey,
    noise_key: PublicKey,
    flags: Flags,
    extensions: Option<Extensions>,
    version: u64,
    created: Timestamp,
}

/// What the signed part of an identity document holds.
pub struct VerifiedDataView {
    pub username: Seq<char>,
    pub identity_key: Seq<u8>,
    pub noise_key: Seq<u8>,
    pub flags: Flags,
    pub extensions: Option<ExtensionsView>,
    pub version: u64,
    pub created: Timestamp,
}

impl View for IdentityVerifiedData {
    type V = VerifiedDataView;

    closed spec fn view(&self) -> VerifiedDataView {
        VerifiedDataView {
            username: self.username@,
            identity_key: self.identity_key@,
            noise_key: self.noise_key@,
            flags: self.flags,
            extensions: match self.extensions {
                Some(extensions) => Some(extensions@),
                None => None,
            },
            version: self.version,
            created: self.created,
        }
    }
}

/// A signed, versioned attestation that binds a username to a signing key
/// and a key-exchange key.
#[derive(Debug, PartialEq, Eq)]
pub struct Identity {
    verified: IdentityVerifiedData,
    signature: Signature,
}

/// What an identity document holds.
pub struct IdentityView {
    pub verified: VerifiedDataView,
    pub signature: Seq<u8>,
}

impl View for Identity {
    type V = IdentityView;

    closed spec fn view(&self) -> IdentityView {
        IdentityView { verified: self.verified@, signature: self.signature@ }
    }
}

/// A username is valid when it has 1 to 40 characters.
pub open spec fn valid_username(username: Seq<char>) -> bool {
    USERNAME_MIN_CHARS <= username.len() <= USERNAME_MAX_CHARS
}

/// The signed part of a document as `create` fills it: no flag set, no
/// extensions, version 0.
pub open spec fn initial_data(
    username: Seq<char>,
    identity_key: Seq<u8>,
    noise_key: Seq<u8>,
    created: Timestamp,
) -> VerifiedDataView {
    VerifiedDataView {
        username,
        identity_key,
        noise_key,
        flags: Flags::none(),
        extensions: None,
        version: 0,
        created,
    }
}

/// The document that results when the holder of `secret` signs `data`.
pub open spec fn sealed(data: VerifiedDataView, secret: Seq<u8>) -> IdentityView {
    IdentityView {
        verified: data,
        signature: crypto::ed25519_signature(secret, crypto::msgpack_encoding(data)),
    }
}

/// The signature of a document verifies, under the document's own signing
/// key, over the canonical encoding of every other field.
pub open spec fn signature_verifies(document: IdentityView) -> bool {
    crypto::ed25519_verifies(
        document.verified.identity_key,
        crypto::msgpack_encoding(document.verified),
        document.signature,
    )
}

/// What `verify` accepts: the signature verifies and the username is valid.
pub open spec fn authentic(document: IdentityView) -> bool {
    signature_verifies(document) && valid_username(document.verified.username)
}

impl Clone for IdentityVerifiedData {
    fn clone(&self) -> (copy: IdentityVerifiedData)
        ensures
            copy@ == self@,
    {
        let extensions = match &self.extensions {
            Some(extensions) => Some(extensions.clone()),
            None => None,
        };
        IdentityVerifiedData {
            username: self.username.clone(),
            identity_key: self.identity_key,
            noise_key: self.noise_key,
            flags: self.flags,
            extensions,
            version: self.version,
            created: self.created,
        }
    }
}

impl Clone for Identity {
    fn clone(&self) -> (copy: Identity)
        ensures
            copy@ == self@,
    {
        Identity { verified: self.verified.clone(), signature: self.signature }
    }
}

impl IdentityVerifiedData {
    /// Puts the signed part of a document together from its fields, as they
    /// were received or stored. Nothing is checked.
    pub fn from_parts(
        username: String,
        identity_key: PublicKey,
        noise_key: PublicKey,
        flags: Flags,
        extensions: Option<Extensions>,
        version: u64,
        created: Timestamp,
    ) -> (data: IdentityVerifiedData)
        ensures
            data@ == (VerifiedDataView {
                username: username@,
                identity_key: identity_key@,
                noise_key: noise_key@,
                flags,
                extensions: match extensions {
                    Some(e) => Some(e@),
                    None => None,
                },
                version,
                created,
            }),
    {
        IdentityVerifiedData {
            username,
            identity_key,
            noise_key,
            flags,
            extensions,
            version,
            created,
        }
    }
}

impl Identity {
    /// Puts a document together from its signed part and a signature, as
    /// they were received or stored. Nothing is checked: such a document is
    /// untrusted until `verify` accepts it.
    pub fn from_parts(verified: IdentityVerifiedData, signature: Signature) -> (document: Identity)
        ensures
            document@ == (IdentityView { verified: verified@, signature: signature@ }),
    {
        Identity { verified, signature }
    }

    /// Creates a new document at version 0 for the holder of the given
    /// private signing key, dated with the clock's reading.
    pub fn create(
        username: &str,
        identity_private_key: &SecretKey,
        noise_public_key: PublicKey,
    ) -> (res: CoreResult<Identity>)
        ensures
            !valid_username(username@) ==> res == Err::<Identity, CoreError>(
                CoreError::InvalidUsername,
            ),
            valid_username(username@) ==> match res {
                Ok(document) => document@ == sealed(
                    initial_data(
                        username@,
                        crypto::ed25519_public_key(identity_private_key@),
                        noise_public_key@,
                        document@.verified.created,
                    ),
                    identity_private_key@,
                ),
                Err(e) => e == CoreError::MessagePackEncode,
            },
    {
        Self::create_at(username, identity_private_key, noise_public_key, Timestamp::now())
    }

    /// Creates a new document at version 0 for the holder of the given
    /// private signing key, dated `created`.
    pub fn create_at(
        username: &str,
        identity_private_key: &SecretKey,
        noise_public_key: PublicKey,
        created: Timestamp,
    ) -> (res: CoreResult<Identity>)
        ensures
            !valid_username(username@) ==> res == Err::<Identity, CoreError>(
                CoreError::InvalidUsername,
            ),
            valid_username(username@) ==> match res {
                Ok(document) => document@ == sealed(
                    initial_data(
                        username@,
                        crypto::ed25519_public_key(identity_private_key@),
                        noise_public_key@,
                        created,
                    ),
                    identity_private_key@,
                ),
                Err(e) => e == CoreError::MessagePackEncode,
            },
    {
        match Self::validate_username(username) {
            Ok(_) => {},
            Err(e) => {
                return Err(e);
            },
        }
        let vd = Self::initial(username, identity_private_key, noise_public_key, created);
        let signed = vd.sign(identity_private_key);
        Self::seal(vd, signed)
    }

    /// Creates a new document as `create_at` does and hands it out only if
    /// `verify` accepts it: a private key whose own signature does not
    /// verify under its public half is refused.
    pub fn create_checked_at(
        username: &str,
        identity_private_key: &SecretKey,
        noise_public_key: PublicKey,
        created: Timestamp,
    ) -> (res: CoreResult<Identity>)
        ensures
            !valid_username(username@) ==> res == Err::<Identity, CoreError>(
                CoreError::InvalidUsername,
            ),
            valid_username(username@) ==> match res {
                Ok(document) => document@ == sealed(
                    initial_data(
                        username@,
                        crypto::ed25519_public_key(identity_private_key@),
                        noise_public_key@,
                        created,
                    ),
                    identity_private_key@,
                ) && authentic(document@),
                Err(e) => e == CoreError::MessagePackEncode || (e == CoreError::SignatureEd25519
                    && !crypto::signature_checks(
                    identity_private_key@,
                    crypto::msgpack_encoding(
                        initial_data(
                            username@,
                            crypto::ed25519_public_key(identity_private_key@),
                            noise_public_key@,
                            created,
                        ),
                    ),
                )),
            },
    {
        match Self::validate_username(username) {
            Ok(_) => {},
            Err(e) => {
                return Err(e);
            },
        }
        let vd = Self::initial(username, identity_private_key, noise_public_key, created);
        Self::seal_checked(vd, identity_private_key)
    }

    /// The signed part of a new document.
    fn initial(
        username: &str,
        identity_private_key: &SecretKey,
        noise_public_key: PublicKey,
        created: Timestamp,
    ) -> (vd: IdentityVerifiedData)
        ensures
            vd@ == initial_data(
                username@,
                crypto::ed25519_public_key(identity_private_key@),
                noise_public_key@,
                created,
            ),
    {
        IdentityVerifiedData {
            username: String::from_str(username),
            identity_key: crypto::derive_verifying_key(identity_private_key),
            noise_key: noise_public_key,
            flags: Flags::default(),
            extensions: None,
            version: 0,
            created,
        }
    }

    /// Checks the length of a username, counted in characters.
    pub fn validate_username(username: &str) -> (res: CoreResult<()>)
        ensures
            valid_username(username@) ==> res == Ok::<(), CoreError>(()),
            !valid_username(username@) ==> res == Err::<(), CoreError>(CoreError::InvalidUsername),
    {
        let chars_len = username.unicode_len();
        if chars_len < USERNAME_MIN_CHARS || chars_len > USERNAME_MAX_CHARS {
            Err(CoreError::InvalidUsername)
        } else {
            Ok(())
        }
    }

    /// Returns the username of this document.
    pub fn username(&self) -> (name: &str)
        ensures
            name@ == self@.verified.username,
    {
        self.verified.username.as_str()
    }

    /// The identifier of the contact that this document speaks for: its
    /// public signing key.
    pub fn id(&self) -> (id: ContactId)
        ensures
            id.bytes() == self@.verified.identity_key,
    {
        ContactId::from_key(self.verified.identity_key)
    }

    pub fn identity_key(&self) -> (key: PublicKey)
        ensures
            key@ == self@.verified.identity_key,
    {
        self.verified.identity_key
    }

    pub fn noise_key(&self) -> (key: PublicKey)
        ensures
            key@ == self@.verified.noise_key,
    {
        self.verified.noise_key
    }

    pub fn flags(&self) -> (flags: Flags)
        ensures
            flags == self@.verified.flags,
    {
        self.verified.flags
    }

    pub fn extensions(&self) -> (extensions: Option<&Extensions>)
        ensures
            match extensions {
                Some(e) => self@.verified.extensions == Some(e@),
                None => self@.verified.extensions is None,
            },
    {
        self.verified.extensions.as_ref()
    }

    pub fn version(&self) -> (version: u64)
        ensures
            version == self@.verified.version,
    {
        self.verified.version
    }

    pub fn created(&self) -> (created: Timestamp)
        ensures
            created == self@.verified.created,
    {
        self.verified.created
    }

    /// Renames the holder. An invalid username is refused and leaves the
    /// document as it was.
    pub fn set_username(&mut self, username: &str, private_key: &SecretKey) -> (res: CoreResult<()>)
        requires
            valid_username(username@) ==> old(self)@.verified.version < u64::MAX,
        ensures
            !valid_username(username@) ==> res == Err::<(), CoreError>(CoreError::InvalidUsername)
                && final(self)@ == old(self)@,
            valid_username(username@) ==> final(self)@.verified == (VerifiedDataView {
                username: username@,
                version: (old(self)@.verified.version + 1) as u64,
                ..old(self)@.verified
            }) && match res {
                Ok(_) => final(self)@ == sealed(final(self)@.verified, private_key@),
                Err(e) => e == CoreError::MessagePackEncode
                    && final(self)@.signature == old(self)@.signature,
            },
    {
        match Self::validate_username(username) {
            Ok(_) => {},
            Err(e) => {
                return Err(e);
            },
        }
        self.verified.username = String::from_str(username);
        self.post_update(private_key)
    }

    /// Replaces the key-exchange key.
    pub fn set_noise_key(&mut self, noise_key: PublicKey, private_key: &SecretKey) -> (res:
        CoreResult<()>)
        requires
            old(self)@.verified.version < u64::MAX,
        ensures
            final(self)@.verified == (VerifiedDataView {
                noise_key: noise_key@,
                version: (old(self)@.verified.version + 1) as u64,
                ..old(self)@.verified
            }),
            match res {
                Ok(_) => final(self)@ == sealed(final(self)@.verified, private_key@),
                Err(e) => e == CoreError::MessagePackEncode
                    && final(self)@.signature == old(self)@.signature,
            },
    {
        self.verified.noise_key = noise_key;
        self.post_update(private_key)
    }

    /// Replaces the flags.
    pub fn set_flags(&mut self, flags: Flags, private_key: &SecretKey) -> (res: CoreResult<()>)
        requires
            old(self)@.verified.version < u64::MAX,
        ensures
            final(self)@.verified == (VerifiedDataView {
                flags,
                version: (old(self)@.verified.version + 1) as u64,
                ..old(self)@.verified
            }),
            match res {
                Ok(_) => final(self)@ == sealed(final(self)@.verified, private_key@),
                Err(e) => e == CoreError::MessagePackEncode
                    && final(self)@.signature == old(self)@.signature,
            },
    {
        self.verified.flags = flags;
        self.post_update(private_key)
    }

    /// Replaces the extensions.
    pub fn set_extensions(&mut self, extensions: Option<Extensions>, private_key: &SecretKey) -> (res:
        CoreResult<()>)
        requires
            old(self)@.verified.version < u64::MAX,
        ensures
            final(self)@.verified == (VerifiedDataView {
                extensions: match extensions {
                    Some(e) => Some(e@),
                    None => None,
                },
                version: (old(self)@.verified.version + 1) as u64,
                ..old(self)@.verified
            }),
            match res {
                Ok(_) => final(self)@ == sealed(final(self)@.verified, private_key@),
                Err(e) => e == CoreError::MessagePackEncode
                    && final(self)@.signature == old(self)@.signature,
            },
    {
        self.verified.extensions = extensions;
        self.post_update(private_key)
    }

    pub fn signature(&self) -> (signature: Signature)
        ensures
            signature@ == self@.signature,
    {
        self.signature
    }
}

} // verus!
