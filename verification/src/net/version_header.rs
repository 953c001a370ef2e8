//! The fixed 14-byte header that opens every frame.

use vstd::prelude::*;
use vstd::string::StringExecFns;

use crate::error::CoreError;
use crate::text::{decimal, push_decimal};
use crate::PROTOCOL_DIRECT_NAME;

verus! {

/// Protocol name and revision. The byte layout is part of the wire contract:
/// twelve name bytes, then the major and the minor revision.
#[derive(Debug, Clone, Copy, PartialEq, Eq)]
pub struct VersionHeader {
    name: [u8; 12],
    major: u8,
    minor: u8,
}

/// Major revision of the protocol that this library speaks.
pub const PROTOCOL_DIRECT_MAJOR: u8 = 0;

/// Minor revision of the protocol that this library speaks.
pub const PROTOCOL_DIRECT_MINOR: u8 = 1;

impl VersionHeader {
    /// Number of bytes a header occupies on the wire.
    pub const BYTE_LENGTH: usize = 14;

    /// Holds of every header that exists at run time: it names this protocol.
    #[verifier::type_invariant]
    pub closed spec fn well_formed(&self) -> bool {
        self.name@ == PROTOCOL_DIRECT_NAME@
    }

    pub closed spec fn spec_name(&self) -> Seq<u8> {
        self.name@
    }

    pub closed spec fn spec_major(&self) -> u8 {
        self.major
    }

    pub closed spec fn spec_minor(&self) -> u8 {
        self.minor
    }

    /// The wire image of a header.
    pub open spec fn wire(&self) -> Seq<u8> {
        self.spec_name() + seq![self.spec_major(), self.spec_minor()]
    }

    /// Header of the protocol revision that this library speaks.
    pub fn current() -> (header: VersionHeader)
        ensures
            header == Self::spec_current(),
            header.well_formed(),
    {
        VersionHeader {
            name: PROTOCOL_DIRECT_NAME,
            major: PROTOCOL_DIRECT_MAJOR,
            minor: PROTOCOL_DIRECT_MINOR,
        }
    }

    /// The protocol name carried, which is always that of this protocol.
    pub fn name(&self) -> (n: [u8; 12])
        ensures
            n@ == self.spec_name(),
            n == PROTOCOL_DIRECT_NAME,
    {
        proof {
            use_type_invariant(self);
            assert(self.name@ =~= PROTOCOL_DIRECT_NAME@);
        }
        self.name
    }

    pub fn major(&self) -> (r: u8)
        ensures
            r == self.spec_major(),
    {
        self.major
    }

    pub fn minor(&self) -> (r: u8)
        ensures
            r == self.spec_minor(),
    {
        self.minor
    }

    /// What `from_raw` makes of fourteen received bytes.
    pub open spec fn parse(data: Seq<u8>) -> Result<VersionHeader, CoreError>
        recommends
            data.len() == 14,
    {
        if data.subrange(0, 12) == PROTOCOL_DIRECT_NAME@ {
            Ok(Self::spec_new(data[12], data[13]))
        } else {
            Err(CoreError::BadProtocolName(Self::name_of(data)))
        }
    }

    /// The header of this protocol with the given revision.
    pub closed spec fn spec_new(major: u8, minor: u8) -> VersionHeader {
        VersionHeader { name: PROTOCOL_DIRECT_NAME, major, minor }
    }

    /// The header of the revision that this library speaks.
    pub open spec fn spec_current() -> VersionHeader {
        Self::spec_new(PROTOCOL_DIRECT_MAJOR, PROTOCOL_DIRECT_MINOR)
    }

    /// A header built by `spec_new` carries this protocol's name and the
    /// revision given.
    pub proof fn lemma_spec_new(major: u8, minor: u8)
        ensures
            Self::spec_new(major, minor).spec_name() == PROTOCOL_DIRECT_NAME@,
            Self::spec_new(major, minor).spec_major() == major,
            Self::spec_new(major, minor).spec_minor() == minor,
    {
    }

    /// The first twelve bytes of a raw header, as an array.
    pub closed spec fn name_of(data: Seq<u8>) -> [u8; 12] {
        choose|name: [u8; 12]| name@ == data.subrange(0, 12)
    }

    /// Reads a header from its wire image. The name must be that of this
    /// protocol; any revision is accepted.
    pub fn from_raw(data: &[u8; 14]) -> (res: Result<VersionHeader, CoreError>)
        ensures
            res == Self::parse(data@),
            res matches Ok(h) ==> h.wire() == data@ && h.well_formed(),
            res matches Err(e) ==> (e matches CoreError::BadProtocolName(n) && n@ == data@.subrange(
                0,
                12,
            )),
            res is Ok <==> data@.subrange(0, 12) == PROTOCOL_DIRECT_NAME@,
    {
        let mut name: [u8; 12] = [0u8; 12];
        let mut same = true;
        let mut i: usize = 0;
        while i < 12
            invariant
                i <= 12,
                forall|j: int| 0 <= j < i ==> name@[j] == data@[j],
                same <==> forall|j: int| 0 <= j < i ==> data@[j] == PROTOCOL_DIRECT_NAME@[j],
            decreases 12 - i,
        {
            name[i] = data[i];
            if data[i] != PROTOCOL_DIRECT_NAME[i] {
                same = false;
            }
            i += 1;
        }
        assert(name@ =~= data@.subrange(0, 12));
        if !same {
            proof {
                let j = choose|j: int| 0 <= j < 12 && data@[j] != PROTOCOL_DIRECT_NAME@[j];
                assert(data@.subrange(0, 12)[j] == data@[j]);
                let n = Self::name_of(data@);
                assert(n@ == data@.subrange(0, 12));
                assert(n@ =~= name@);
                assert(n == name);
            }
            return Err(CoreError::BadProtocolName(name));
        }
        assert(data@.subrange(0, 12) =~= PROTOCOL_DIRECT_NAME@);
        let header = VersionHeader { name: PROTOCOL_DIRECT_NAME, major: data[12], minor: data[13] };
        assert(header.wire() =~= data@);
        Ok(header)
    }

    /// What parses as a header is that header's wire image.
    pub proof fn lemma_parse_is_wire(data: Seq<u8>)
        requires
            data.len() == 14,
            Self::parse(data) is Ok,
        ensures
            Self::parse(data)->Ok_0.wire() == data,
            Self::parse(data)->Ok_0.well_formed(),
    {
        let header = Self::parse(data)->Ok_0;
        assert(header.wire() =~= data.subrange(0, 12) + seq![data[12], data[13]]);
        assert(data.subrange(0, 12) + seq![data[12], data[13]] =~= data);
    }

    /// Headers differ in their revision only, and reading a header's wire
    /// image gives the header back.
    pub proof fn lemma_parse_wire(self)
        requires
            self.well_formed(),
        ensures
            self == Self::spec_new(self.spec_major(), self.spec_minor()),
            self.wire().len() == 14,
            Self::parse(self.wire()) == Ok::<VersionHeader, CoreError>(self),
    {
        assert(self.name@ =~= PROTOCOL_DIRECT_NAME@);
        assert(self.name == PROTOCOL_DIRECT_NAME);
        assert(self.wire().subrange(0, 12) =~= PROTOCOL_DIRECT_NAME@);
    }

    /// The text shown for a header: the protocol's name and the revision.
    pub open spec fn text(&self) -> Seq<char> {
        "SREMP_DIRECT v"@ + decimal(self.spec_major() as nat) + "."@ + decimal(
            self.spec_minor() as nat,
        )
    }

    /// The text shown for this header.
    pub fn to_text(&self) -> (text: String)
        ensures
            text@ == self.text(),
    {
        let mut text = String::from_str("SREMP_DIRECT v");
        push_decimal(&mut text, self.major as u64);
        text.append(".");
        push_decimal(&mut text, self.minor as u64);
        text
    }

    pub fn as_bytes(&self) -> (out: [u8; 14])
        ensures
            out@ == self.wire(),
            Self::parse(out@) == Ok::<VersionHeader, CoreError>(*self),
    {
        proof {
            use_type_invariant(self);
            self.lemma_parse_wire();
        }
        let mut out: [u8; 14] = [0u8; 14];
        let mut i: usize = 0;
        while i < 12
            invariant
                i <= 12,
                forall|j: int| 0 <= j < i ==> out@[j] == self.name@[j],
            decreases 12 - i,
        {
            out[i] = self.name[i];
            i += 1;
        }
        out[12] = self.major;
        out[13] = self.minor;
        assert(out@ =~= self.wire());
        out
    }
}

} // verus!
