//! The length-prefixed frame: a version header and an opaque payload.

use vstd::prelude::*;

use crate::error::CoreError;
use crate::net::version_header::VersionHeader;

verus! {

/// Largest number of bytes that may follow the length prefix.
pub const MAX_FRAME_SIZE: usize = 65535;

/// Largest payload a frame can carry.
pub const MAX_FRAME_PAYLOAD_SIZE: usize = 65521;

/// One unit of wire transmission. A frame never holds more than
/// `MAX_FRAME_PAYLOAD_SIZE` payload bytes.
#[derive(Debug, PartialEq, Eq)]
#[must_use]
pub struct Frame {
    version: VersionHeader,
    data: Vec<u8>,
}

/// The two bytes that spell `n` in network order.
pub open spec fn be16(n: int) -> Seq<u8> {
    seq![(n / 256) as u8, (n % 256) as u8]
}

/// The wire image of a frame with the given header and payload.
pub open spec fn wire_image(version: VersionHeader, payload: Seq<u8>) -> Seq<u8> {
    be16(VersionHeader::BYTE_LENGTH + payload.len()) + version.wire() + payload
}

/// What `Frame::decode` makes of a buffer: the header and payload of the one
/// frame it holds, or the reason why it holds none.
pub open spec fn decode_spec(wire: Seq<u8>) -> Result<(VersionHeader, Seq<u8>), CoreError> {
    if wire.len() < 2 {
        Err(CoreError::FrameIncomplete(wire.len() as usize))
    } else {
        let total = wire[0] as int * 256 + wire[1] as int;
        if total < VersionHeader::BYTE_LENGTH {
            Err(CoreError::FrameTooShort(total as usize))
        } else if wire.len() < 2 + VersionHeader::BYTE_LENGTH {
            Err(CoreError::FrameIncomplete(wire.len() as usize))
        } else {
            match VersionHeader::parse(wire.subrange(2, 16)) {
                Err(e) => Err(e),
                Ok(header) => if wire.len() != 2 + total {
                    Err(CoreError::FrameIncomplete(wire.len() as usize))
                } else {
                    Ok((header, wire.subrange(16, 2 + total)))
                },
            }
        }
    }
}

/// Frame round trip: decoding the wire image of a header and a payload that
/// fits a frame gives that header and that payload back.
pub proof fn lemma_decode_encode(version: VersionHeader, payload: Seq<u8>)
    requires
        version.well_formed(),
        payload.len() <= MAX_FRAME_PAYLOAD_SIZE,
    ensures
        decode_spec(wire_image(version, payload)) == Ok::<(VersionHeader, Seq<u8>), CoreError>(
            (version, payload),
        ),
{
    let wire = wire_image(version, payload);
    let total = VersionHeader::BYTE_LENGTH + payload.len();
    version.lemma_parse_wire();
    assert(wire.len() == 2 + total);
    assert(wire[0] == (total / 256) as u8);
    assert(wire[1] == (total % 256) as u8);
    assert(wire[0] as int * 256 + wire[1] as int == total);
    assert(wire.subrange(2, 16) =~= version.wire());
    assert(wire.subrange(16, 2 + total) =~= payload);
}

/// A buffer that decodes is the wire image of what it decodes to: no two
/// frames share an encoding.
pub proof fn lemma_encode_decode(wire: Seq<u8>)
    requires
        decode_spec(wire) is Ok,
    ensures
        wire == wire_image(decode_spec(wire)->Ok_0.0, decode_spec(wire)->Ok_0.1),
        decode_spec(wire)->Ok_0.1.len() <= MAX_FRAME_PAYLOAD_SIZE,
{
    let (header, payload) = decode_spec(wire)->Ok_0;
    let total = wire[0] as int * 256 + wire[1] as int;
    VersionHeader::lemma_parse_is_wire(wire.subrange(2, 16));
    assert(wire =~= wire_image(header, payload));
}

impl Frame {
    /// Holds of every frame that exists at run time: the payload fits.
    #[verifier::type_invariant]
    pub closed spec fn well_formed(&self) -> bool {
        self.data@.len() <= MAX_FRAME_PAYLOAD_SIZE && self.version.well_formed()
    }

    /// The payload carried.
    pub closed spec fn payload(&self) -> Seq<u8> {
        self.data@
    }

    /// The header carried.
    pub closed spec fn header(&self) -> VersionHeader {
        self.version
    }

    /// The bytes that `encode` produces.
    pub open spec fn wire(&self) -> Seq<u8> {
        wire_image(self.header(), self.payload())
    }

    /// Wraps a payload into a frame of the current protocol revision, or
    /// rejects it when it is too long to be framed.
    pub fn from_payload(payload: &[u8]) -> (res: Result<Frame, CoreError>)
        ensures
            payload@.len() <= MAX_FRAME_PAYLOAD_SIZE ==> (res matches Ok(f) && f.payload()
                == payload@ && f.header() == VersionHeader::spec_current()),
            payload@.len() > MAX_FRAME_PAYLOAD_SIZE ==> res == Err::<Frame, CoreError>(
                CoreError::FrameTooLarge(payload.len()),
            ),
    {
        Self::from_parts(VersionHeader::current(), vstd::slice::slice_to_vec(payload))
    }

    /// Puts a received header and payload together, checking the payload's
    /// length once more.
    pub fn from_parts(version: VersionHeader, payload: Vec<u8>) -> (res: Result<Frame, CoreError>)
        ensures
            payload@.len() <= MAX_FRAME_PAYLOAD_SIZE ==> (res matches Ok(f) && f.payload()
                == payload@ && f.header() == version),
            payload@.len() > MAX_FRAME_PAYLOAD_SIZE ==> res == Err::<Frame, CoreError>(
                CoreError::FrameTooLarge(payload.len()),
            ),
    {
        if payload.len() > MAX_FRAME_PAYLOAD_SIZE {
            return Err(CoreError::FrameTooLarge(payload.len()));
        }
        proof {
            use_type_invariant(&version);
        }
        Ok(Frame { version, data: payload })
    }

    /// The length prefix that the frame of a stream announces is turned into
    /// the number of payload bytes to read after the header.
    pub fn payload_length(total_length: u16) -> (res: Result<usize, CoreError>)
        ensures
            total_length >= VersionHeader::BYTE_LENGTH ==> res == Ok::<usize, CoreError>(
                (total_length - VersionHeader::BYTE_LENGTH) as usize,
            ),
            total_length < VersionHeader::BYTE_LENGTH ==> res == Err::<usize, CoreError>(
                CoreError::FrameTooShort(total_length as usize),
            ),
    {
        let total = total_length as usize;
        if total > MAX_FRAME_SIZE {
            return Err(CoreError::FrameTooLarge(total));
        }
        if total < VersionHeader::BYTE_LENGTH {
            return Err(CoreError::FrameTooShort(total));
        }
        Ok(total - VersionHeader::BYTE_LENGTH)
    }

    /// The length prefix: the number of bytes that follow it, in network
    /// order.
    pub fn length_prefix(&self) -> (prefix: [u8; 2])
        ensures
            prefix@ == be16(VersionHeader::BYTE_LENGTH + self.payload().len()),
    {
        let total = self.len();
        let prefix: [u8; 2] = [(total / 256) as u8, (total % 256) as u8];
        assert(prefix@ =~= be16(total as int));
        prefix
    }

    /// The bytes to put on the wire: the length prefix in network order, the
    /// version header, the payload.
    pub fn encode(&self) -> (wire: Vec<u8>)
        ensures
            wire@ == self.wire(),
            wire@.len() == 2 + VersionHeader::BYTE_LENGTH + self.payload().len(),
            decode_spec(wire@) == Ok::<(VersionHeader, Seq<u8>), CoreError>(
                (self.header(), self.payload()),
            ),
    {
        proof {
            use_type_invariant(self);
            lemma_decode_encode(self.version, self.data@);
        }
        let total = self.len();
        let header = self.version.as_bytes();
        let mut wire: Vec<u8> = Vec::new();
        wire.push((total / 256) as u8);
        wire.push((total % 256) as u8);
        let mut i: usize = 0;
        while i < 14
            invariant
                i <= 14,
                wire@ == be16(total as int) + header@.subrange(0, i as int),
            decreases 14 - i,
        {
            wire.push(header[i]);
            assert(header@.subrange(0, i + 1) =~= header@.subrange(0, i as int).push(
                header@[i as int],
            ));
            i += 1;
        }
        assert(header@.subrange(0, 14) =~= header@);
        let mut k: usize = 0;
        while k < self.data.len()
            invariant
                k <= self.data@.len(),
                wire@ == be16(total as int) + header@ + self.data@.subrange(0, k as int),
            decreases self.data@.len() - k,
        {
            wire.push(self.data[k]);
            assert(self.data@.subrange(0, k + 1) =~= self.data@.subrange(0, k as int).push(
                self.data@[k as int],
            ));
            k += 1;
        }
        assert(self.data@.subrange(0, self.data@.len() as int) =~= self.data@);
        wire
    }

    /// Reads the one frame that a buffer holds. The buffer must hold the
    /// length prefix, a header of this protocol and exactly as many payload
    /// bytes as the prefix announces.
    pub fn decode(wire: &[u8]) -> (res: Result<Frame, CoreError>)
        ensures
            match decode_spec(wire@) {
                Ok((header, payload)) => res matches Ok(f) && f.header() == header && f.payload()
                    == payload,
                Err(e) => res == Err::<Frame, CoreError>(e),
            },
    {
        if wire.len() < 2 {
            return Err(CoreError::FrameIncomplete(wire.len()));
        }
        let total_length: u16 = (wire[0] as u16) * 256 + (wire[1] as u16);
        let payload_len = match Self::payload_length(total_length) {
            Ok(n) => n,
            Err(e) => {
                return Err(e);
            },
        };
        if wire.len() < 2 + VersionHeader::BYTE_LENGTH {
            return Err(CoreError::FrameIncomplete(wire.len()));
        }
        let mut raw: [u8; 14] = [0u8; 14];
        let mut i: usize = 0;
        while i < 14
            invariant
                i <= 14,
                wire@.len() >= 16,
                forall|j: int| 0 <= j < i ==> raw@[j] == wire@[2 + j],
            decreases 14 - i,
        {
            raw[i] = wire[2 + i];
            i += 1;
        }
        assert(raw@ =~= wire@.subrange(2, 16));
        let version = match VersionHeader::from_raw(&raw) {
            Ok(v) => v,
            Err(e) => {
                return Err(e);
            },
        };
        if wire.len() != 2 + total_length as usize {
            return Err(CoreError::FrameIncomplete(wire.len()));
        }
        let mut payload: Vec<u8> = Vec::new();
        let mut k: usize = 0;
        while k < payload_len
            invariant
                k <= payload_len <= MAX_FRAME_SIZE,
                wire@.len() == 16 + payload_len,
                payload@ == wire@.subrange(16, 16 + k as int),
            decreases payload_len - k,
        {
            payload.push(wire[16 + k]);
            assert(wire@.subrange(16, 16 + k as int + 1) =~= wire@.subrange(16, 16 + k as int).push(
                wire@[16 + k as int],
            ));
            k += 1;
        }
        Self::from_parts(version, payload)
    }

    /// Number of bytes that follow the length prefix on the wire.
    pub fn len(&self) -> (n: u16)
        ensures
            n == VersionHeader::BYTE_LENGTH + self.payload().len(),
    {
        proof {
            use_type_invariant(self);
        }
        (VersionHeader::BYTE_LENGTH + self.data.len()) as u16
    }

    pub fn data(&self) -> (d: &[u8])
        ensures
            d@ == self.payload(),
            d@.len() <= MAX_FRAME_PAYLOAD_SIZE,
    {
        proof {
            use_type_invariant(self);
        }
        self.data.as_slice()
    }

    pub fn version(&self) -> (v: &VersionHeader)
        ensures
            *v == self.header(),
    {
        &self.version
    }
}

impl Clone for Frame {
    fn clone(&self) -> (copy: Self)
        ensures
            copy.payload() == self.payload(),
            copy.header() == self.header(),
    {
        proof {
            use_type_invariant(self);
        }
        let data = self.data.clone();
        assert(data@ =~= self.data@);
        Frame { version: self.version, data }
    }
}

} // verus!
