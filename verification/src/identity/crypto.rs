//! Signing and verification of identity documents, and key generation.

use vstd::prelude::*;

use crate::error::{CoreError, CoreResult};
use crate::identity::{authentic, initial_data, sealed, signature_verifies, valid_username};
use crate::identity::{Identity, IdentityVerifiedData, IdentityView, VerifiedDataView};
use crate::identity::{PublicKey, SecretKey, Signature};
use crate::time::Timestamp;

verus! {

/// `ed25519_dalek::SignatureError`, carried from a wrapper to the function
/// that maps it; nothing is known of what it holds.
#[verifier::external_type_specification]
#[verifier::external_body]
pub struct ExSignatureError(ed25519_dalek::SignatureError);

/// `rmp_serde::encode::Error`, carried from a wrapper to the function that
/// maps it; nothing is known of what it holds.
#[verifier::external_type_specification]
#[verifier::external_body]
pub struct ExEncodeError(rmp_serde::encode::Error);

/// The public signing key that belongs to a private signing key.
pub uninterp spec fn ed25519_public_key(secret: Seq<u8>) -> Seq<u8>;

/// The signature that a private signing key makes over a message.
pub uninterp spec fn ed25519_signature(secret: Seq<u8>, message: Seq<u8>) -> Seq<u8>;

/// Whether strict verification accepts a signature over a message under a
/// public signing key.
pub uninterp spec fn ed25519_verifies(public: Seq<u8>, message: Seq<u8>, signature: Seq<u8>) -> bool;

/// Whether the public key of a private signing key is of small order.
pub uninterp spec fn ed25519_is_weak(secret: Seq<u8>) -> bool;

/// The public key-exchange key that belongs to a private key-exchange key.
pub uninterp spec fn x25519_public_key(secret: Seq<u8>) -> Seq<u8>;

/// The canonical encoding of the signed part of a document.
pub uninterp spec fn msgpack_encoding(data: VerifiedDataView) -> Seq<u8>;

/// Strict verification accepts, under the public half of a private signing
/// key, the signature that the key makes over the message. `seal_checked`
/// tests this of the one signature it makes.
pub open spec fn signature_checks(secret: Seq<u8>, message: Seq<u8>) -> bool {
    ed25519_verifies(ed25519_public_key(secret), message, ed25519_signature(secret, message))
}

/// `ed25519_dalek::SigningKey::verifying_key`, on the key that
/// `SigningKey::from_bytes` makes of the secret: the public key is computed
/// from the secret alone.
#[verifier::external_body]
pub(crate) fn derive_verifying_key(secret: &SecretKey) -> (public: PublicKey)
    ensures
        public@ == ed25519_public_key(secret@),
{
    ed25519_dalek::SigningKey::from_bytes(secret).verifying_key().to_bytes()
}

/// `ed25519_dalek::Signer::try_sign` for `SigningKey`: it returns `Ok` on
/// every secret and message, and the signature is computed from the two
/// alone, without randomness.
#[verifier::external_body]
pub(crate) fn sign_message(secret: &SecretKey, message: &[u8]) -> (res: Result<
    Signature,
    ed25519_dalek::SignatureError,
>)
    ensures
        res is Ok,
        res matches Ok(signature) ==> signature@ == ed25519_signature(secret@, message@),
{
    let key = ed25519_dalek::SigningKey::from_bytes(secret);
    let signature = ed25519_dalek::Signer::try_sign(&key, message)?;
    Ok(signature.to_bytes())
}

/// `ed25519_dalek::VerifyingKey::verify_strict`, on the key that
/// `VerifyingKey::from_bytes` makes of the public bytes: the outcome depends
/// on the three byte strings alone. Bytes that are no key are an error too.
#[verifier::external_body]
pub(crate) fn verify_strict(public: &PublicKey, message: &[u8], signature: &Signature) -> (res:
    Result<(), ed25519_dalek::SignatureError>)
    ensures
        res is Ok <==> ed25519_verifies(public@, message@, signature@),
{
    let key = ed25519_dalek::VerifyingKey::from_bytes(public)?;
    key.verify_strict(message, &ed25519_dalek::Signature::from_bytes(signature))
}

/// `ed25519_dalek::VerifyingKey::is_weak`, on the public key of the secret.
#[verifier::external_body]
pub(crate) fn secret_is_weak(secret: &SecretKey) -> (weak: bool)
    ensures
        weak == ed25519_is_weak(secret@),
{
    ed25519_dalek::SigningKey::from_bytes(secret).verifying_key().is_weak()
}

/// `ed25519_dalek::SigningKey::generate` with the system's random source.
/// Nothing is claimed of the key drawn.
#[verifier::external_body]
pub(crate) fn random_ed25519_secret() -> SecretKey {
    ed25519_dalek::SigningKey::generate(&mut rand::rngs::OsRng).to_bytes()
}

/// `x25519_dalek::StaticSecret::random_from_rng` with the system's random
/// source. Nothing is claimed of the key drawn.
#[verifier::external_body]
pub(crate) fn generate_good_key_x25519() -> SecretKey {
    x25519_dalek::StaticSecret::random_from_rng(rand::rngs::OsRng).to_bytes()
}

/// `x25519_dalek::PublicKey::from` a `StaticSecret`: the public key is
/// computed from the secret alone.
#[verifier::external_body]
pub(crate) fn derive_noise_public_key(secret: &SecretKey) -> (public: PublicKey)
    ensures
        public@ == x25519_public_key(secret@),
{
    x25519_dalek::PublicKey::from(&x25519_dalek::StaticSecret::from(*secret)).to_bytes()
}

/// `rmp_serde::to_vec` on the fields of the signed part, in their order, as
/// one tuple of plain values. The bytes depend on those values alone. What is
/// claimed is what an `Ok` holds: the call fails when no memory is left.
#[verifier::external_body]
pub(crate) fn msgpack_encode(data: &IdentityVerifiedData) -> (res: Result<
    Vec<u8>,
    rmp_serde::encode::Error,
>)
    ensures
        res matches Ok(bytes) ==> bytes@ == msgpack_encoding(data@),
{
    let f = data.flags;
    let flags = (f.uses_relay, f.is_machine_account, f.is_relay_server, f.prefers_async);
    let extensions = data.extensions.as_ref().map(|e| (&e.profile_picture, &e.additional_metadata));
    let created = (data.created.secs, data.created.nanos);
    let keys = (&data.identity_key, &data.noise_key);
    rmp_serde::to_vec(&(&data.username, keys.0, keys.1, flags, extensions, data.version, created))
}

/// How many weak keys in a row key generation puts up with.
pub const TOLERATED_WEAK_KEYS: u8 = 10;

/// What key generation does with a key that was drawn.
#[derive(Debug, Clone, Copy, PartialEq, Eq)]
pub enum Draw {
    /// The key is kept.
    Keep(SecretKey),
    /// The key was weak; another is drawn after that many weak keys.
    Again(u8),
    /// Too many weak keys were drawn in a row.
    GiveUp,
}

/// Decides on a key that was drawn after `failures` weak keys in a row: a
/// key that is not weak is kept; after a weak key another is drawn, unless
/// more than ten were weak.
pub fn after_draw(candidate: SecretKey, weak: bool, failures: u8) -> (draw: Draw)
    ensures
        draw == (if !weak {
            Draw::Keep(candidate)
        } else if failures + 1 > TOLERATED_WEAK_KEYS {
            Draw::GiveUp
        } else {
            Draw::Again((failures + 1) as u8)
        }),
{
    if !weak {
        Draw::Keep(candidate)
    } else if failures >= TOLERATED_WEAK_KEYS {
        Draw::GiveUp
    } else {
        Draw::Again(failures + 1)
    }
}

/// Draws private signing keys until one has a public key that is not weak.
/// Gives up after eleven weak keys in a row.
pub fn generate_good_key_ed25519() -> (res: Option<SecretKey>)
    ensures
        res matches Some(secret) ==> !ed25519_is_weak(secret@),
{
    let mut guard: u8 = 0;
    loop
        invariant
            guard <= TOLERATED_WEAK_KEYS,
        decreases TOLERATED_WEAK_KEYS - guard,
    {
        let candidate = random_ed25519_secret();
        match after_draw(candidate, secret_is_weak(&candidate), guard) {
            Draw::Keep(secret) => {
                return Some(secret);
            },
            Draw::Again(failures) => {
                guard = failures;
            },
            Draw::GiveUp => {
                return None;
            },
        }
    }
}

/// A document that `create` makes for a valid username is what `verify`
/// accepts, where the signature that was made over it checks.
pub proof fn lemma_created_document_verifies(
    username: Seq<char>,
    secret: Seq<u8>,
    noise_key: Seq<u8>,
    created: Timestamp,
)
    requires
        valid_username(username),
        signature_checks(
            secret,
            msgpack_encoding(
                initial_data(username, ed25519_public_key(secret), noise_key, created),
            ),
        ),
    ensures
        authentic(
            sealed(initial_data(username, ed25519_public_key(secret), noise_key, created), secret),
        ),
{
    lemma_sealed_document_verifies(
        initial_data(username, ed25519_public_key(secret), noise_key, created),
        secret,
    );
}

/// The signature that a mutation makes verifies: a document sealed by the
/// private half of its own signing key carries a signature that verifies,
/// whatever its other fields, where the signature that was made checks.
pub proof fn lemma_sealed_document_verifies(data: VerifiedDataView, secret: Seq<u8>)
    requires
        data.identity_key == ed25519_public_key(secret),
        signature_checks(secret, msgpack_encoding(data)),
    ensures
        signature_verifies(sealed(data, secret)),
        valid_username(data.username) ==> authentic(sealed(data, secret)),
{
}

/// Turns the outcome of encoding the signed part into a signature over it:
/// bytes that were encoded are signed, and a failure to encode is passed on.
pub fn sign_encoded(encoded: CoreResult<Vec<u8>>, private_key: &SecretKey) -> (res: CoreResult<
    Signature,
>)
    ensures
        match encoded {
            Err(e) => res == Err::<Signature, CoreError>(e),
            Ok(bytes) => res matches Ok(signature) && signature@ == ed25519_signature(
                private_key@,
                bytes@,
            ),
        },
{
    match encoded {
        Err(e) => Err(e),
        Ok(bytes) => match sign_message(private_key, bytes.as_slice()) {
            Ok(signature) => Ok(signature),
            Err(_) => Err(CoreError::SignatureEd25519),
        },
    }
}

impl IdentityVerifiedData {
    /// The canonical encoding of the signed part: what is signed and what a
    /// signature is verified over. It is not the representation in memory.
    pub fn bytes(&self) -> (res: CoreResult<Vec<u8>>)
        ensures
            match res {
                Ok(bytes) => bytes@ == msgpack_encoding(self@),
                Err(e) => e == CoreError::MessagePackEncode,
            },
    {
        match msgpack_encode(self) {
            Ok(bytes) => Ok(bytes),
            Err(_) => Err(CoreError::MessagePackEncode),
        }
    }

    /// Signs the canonical encoding with the given private key.
    pub fn sign(&self, private_key: &SecretKey) -> (res: CoreResult<Signature>)
        ensures
            match res {
                Ok(signature) => signature@ == ed25519_signature(
                    private_key@,
                    msgpack_encoding(self@),
                ),
                Err(e) => e == CoreError::MessagePackEncode,
            },
    {
        let encoded = self.bytes();
        sign_encoded(encoded, private_key)
    }
}

impl Identity {
    /// Joins the signed part with the outcome of signing it.
    pub fn seal(verified: IdentityVerifiedData, signed: CoreResult<Signature>) -> (res: CoreResult<
        Identity,
    >)
        ensures
            match signed {
                Ok(signature) => res matches Ok(document) && document@ == (IdentityView {
                    verified: verified@,
                    signature: signature@,
                }),
                Err(e) => res == Err::<Identity, CoreError>(e),
            },
    {
        match signed {
            Ok(signature) => Ok(Identity { verified, signature }),
            Err(e) => Err(e),
        }
    }

    /// Signs the signed part with the private key and hands the document out
    /// only if strict verification accepts the signature under the
    /// document's own signing key.
    pub fn seal_checked(verified: IdentityVerifiedData, private_key: &SecretKey) -> (res:
        CoreResult<Identity>)
        ensures
            match res {
                Ok(document) => document@ == sealed(verified@, private_key@) && signature_verifies(
                    document@,
                ),
                Err(e) => e == CoreError::MessagePackEncode || (e == CoreError::SignatureEd25519
                    && !signature_verifies(sealed(verified@, private_key@))),
            },
    {
        let bytes = match verified.bytes() {
            Ok(bytes) => bytes,
            Err(e) => {
                return Err(e);
            },
        };
        let signature = match sign_message(private_key, bytes.as_slice()) {
            Ok(signature) => signature,
            Err(_) => {
                return Err(CoreError::SignatureEd25519);
            },
        };
        match verify_strict(&verified.identity_key, bytes.as_slice(), &signature) {
            Ok(_) => Ok(Identity { verified, signature }),
            Err(_) => Err(CoreError::SignatureEd25519),
        }
    }

    /// Replaces the signature by the outcome of signing the document anew.
    /// Where signing failed the document keeps the signature it had.
    pub fn apply_signature(&mut self, signed: CoreResult<Signature>) -> (res: CoreResult<()>)
        ensures
            final(self)@.verified == old(self)@.verified,
            match signed {
                Ok(signature) => res is Ok && final(self)@.signature == signature@,
                Err(e) => res == Err::<(), CoreError>(e) && final(self)@.signature == old(
                    self,
                )@.signature,
            },
    {
        match signed {
            Ok(signature) => {
                self.signature = signature;
                Ok(())
            },
            Err(e) => Err(e),
        }
    }

    /// Closes a mutation: the version goes up by one and the document is
    /// signed anew. A version that cannot go up is left out.
    pub(super) fn post_update(&mut self, private_key: &SecretKey) -> (res: CoreResult<()>)
        requires
            old(self)@.verified.version < u64::MAX,
        ensures
            final(self)@.verified == (VerifiedDataView {
                version: (old(self)@.verified.version + 1) as u64,
                ..old(self)@.verified
            }),
            match res {
                Ok(_) => final(self)@ == sealed(final(self)@.verified, private_key@),
                Err(e) => e == CoreError::MessagePackEncode
                    && final(self)@.signature == old(self)@.signature,
            },
    {
        self.verified.version = self.verified.version + 1;
        let signed = self.verified.sign(private_key);
        self.apply_signature(signed)
    }

    /// Checks a document: the signature must verify under the document's own
    /// signing key, and the username must be valid.
    pub fn verify(&self) -> (res: CoreResult<()>)
        ensures
            match res {
                Ok(_) => authentic(self@),
                Err(e) => e == CoreError::MessagePackEncode || (e == CoreError::SignatureEd25519
                    && !signature_verifies(self@)) || (e == CoreError::InvalidUsername
                    && signature_verifies(self@) && !valid_username(self@.verified.username)),
            },
    {
        let encoded = self.verified.bytes();
        self.verify_encoded(encoded)
    }

    /// Checks a document against the outcome of encoding its signed part.
    pub fn verify_encoded(&self, encoded: CoreResult<Vec<u8>>) -> (res: CoreResult<()>)
        ensures
            match encoded {
                Err(e) => res == Err::<(), CoreError>(e),
                Ok(bytes) => if !ed25519_verifies(
                    self@.verified.identity_key,
                    bytes@,
                    self@.signature,
                ) {
                    res == Err::<(), CoreError>(CoreError::SignatureEd25519)
                } else if !valid_username(self@.verified.username) {
                    res == Err::<(), CoreError>(CoreError::InvalidUsername)
                } else {
                    res == Ok::<(), CoreError>(())
                },
            },
    {
        let bytes = match encoded {
            Ok(bytes) => bytes,
            Err(e) => {
                return Err(e);
            },
        };
        match verify_strict(&self.verified.identity_key, bytes.as_slice(), &self.signature) {
            Ok(_) => {},
            Err(_) => {
                return Err(CoreError::SignatureEd25519);
            },
        }
        Self::validate_username(self.verified.username.as_str())
    }
}

} // verus!
