//! Authentication of the peer at the end of the encrypted handshake.

use vstd::prelude::*;

use crate::error::{CoreError, CoreResult};
use crate::identity::{authentic, Identity};
use crate::net::address::SocketAddress;

verus! {

/// What authentication makes of the static key that the key exchange showed
/// for the peer, of the document that the peer presented, and of the outcome
/// of verifying that document. The peer must have shown a key of 32 bytes,
/// the document must have verified, and the document's key-exchange key must
/// be the key shown.
pub open spec fn authentication(
    remote: SocketAddress,
    remote_static: Option<Seq<u8>>,
    noise_key: Seq<u8>,
    verified: bool,
) -> Result<(), CoreError> {
    match remote_static {
        None => Err(CoreError::NoisePeerHasNoPublicKey(remote)),
        Some(key) => if key.len() != 32 {
            Err(CoreError::PeerKeyIsMalformed(remote))
        } else if !verified || key != noise_key {
            Err(CoreError::PeerKeyIsInvalid { remote })
        } else {
            Ok(())
        },
    }
}

/// Whether two byte strings are equal.
pub fn same_bytes(a: &[u8], b: &[u8]) -> (same: bool)
    ensures
        same == (a@ == b@),
{
    if a.len() != b.len() {
        return false;
    }
    let mut i: usize = 0;
    while i < a.len()
        invariant
            i <= a@.len(),
            a@.len() == b@.len(),
            forall|j: int| 0 <= j < i ==> a@[j] == b@[j],
        decreases a@.len() - i,
    {
        if a[i] != b[i] {
            return false;
        }
        i += 1;
    }
    assert(a@ =~= b@);
    true
}

/// Authenticates the peer at `remote`: verifies the document it presented
/// and holds it against the static key that the key exchange showed.
pub fn authenticate_peer(remote: SocketAddress, remote_static: Option<&[u8]>, document: Identity) -> (res:
    CoreResult<Identity>)
    ensures
        match res {
            Ok(peer) => peer@ == document@ && authentic(document@) && (remote_static matches Some(
                key,
            ) && key@ == document@.verified.noise_key),
            Err(e) => match remote_static {
                None => e == CoreError::NoisePeerHasNoPublicKey(remote),
                Some(key) => if key@.len() != 32 {
                    e == CoreError::PeerKeyIsMalformed(remote)
                } else {
                    e == (CoreError::PeerKeyIsInvalid { remote })
                },
            },
        },
{
    let verified = document.verify();
    authenticate_verified(remote, remote_static, document, verified)
}

/// Decides on the peer at `remote`, given the outcome of verifying the
/// document it presented: see `authentication`.
pub fn authenticate_verified(
    remote: SocketAddress,
    remote_static: Option<&[u8]>,
    document: Identity,
    verified: CoreResult<()>,
) -> (res: CoreResult<Identity>)
    ensures
        match authentication(
            remote,
            match remote_static {
                Some(key) => Some(key@),
                None => None,
            },
            document@.verified.noise_key,
            verified is Ok,
        ) {
            Ok(_) => res matches Ok(peer) && peer@ == document@,
            Err(e) => res == Err::<Identity, CoreError>(e),
        },
{
    let key = match remote_static {
        Some(key) => key,
        None => {
            return Err(CoreError::NoisePeerHasNoPublicKey(remote));
        },
    };
    if key.len() != 32 {
        return Err(CoreError::PeerKeyIsMalformed(remote));
    }
    if verified.is_err() {
        return Err(CoreError::PeerKeyIsInvalid { remote });
    }
    let noise_key = document.noise_key();
    if !same_bytes(key, noise_key.as_slice()) {
        return Err(CoreError::PeerKeyIsInvalid { remote });
    }
    Ok(document)
}

} // verus!
