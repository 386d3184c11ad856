//! The file header: a fixed 108-byte prefix followed by an optional
//! message-definition payload. All integers are little-endian.
use crate::codec::{
    append_bytes, append_name_field, canonical_name_field, name_field, name_of, read_name_field,
};
use vstd::bytes::*;
use vstd::prelude::*;
use vstd::utf8::*;

verus! {

/// Size of the fixed part of the header.
pub const FIXED_HEADER_SIZE: usize = 108;

/// Size of the fixed part of the message definition.
pub const DEFINITION_SIZE: usize = 46;

/// The only file format version this codec reads and writes.
pub const FILE_FORMAT_VERSION: u32 = 1;

/// Why a header cannot be read or written.
#[derive(Debug, Clone, Copy, PartialEq, Eq, Structural)]
pub enum HeaderError {
    /// Fewer than 108 bytes are available.
    TooShort,
    /// Fewer definition-payload bytes than the header declares.
    DefinitionsTruncated,
    /// The definition payload type is not 0, 1 or 2.
    InvalidPayloadType,
    /// The definitions are given as a list of URLs, which is not supported.
    UnsupportedUrlDefinitions,
    /// The definitions are given as inline XML, which is not supported.
    UnsupportedXmlDefinitions,
    /// The file format version is not 1.
    UnsupportedFormatVersion,
    /// The MAVLink major version is neither 1 nor 2.
    UnsupportedMavlinkVersion,
    /// The application id or the dialect takes more than 32 bytes.
    NameTooLong,
}

/// Options that change the layout of every record in a file.
#[derive(Debug, Clone, Copy, PartialEq, Eq, Structural)]
pub struct FormatFlags {
    /// Every record is a MAVLink frame: no entry-type tag and no length prefix.
    pub mavlink_only: bool,
    /// Records carry no timestamp.
    pub not_timestamped: bool,
}

impl FormatFlags {
    /// The 16-bit value that stores these flags: bit 0 and bit 1.
    pub open spec fn bits(self) -> u16 {
        ((if self.mavlink_only { 1int } else { 0int }) + (if self.not_timestamped { 2int } else { 0int })) as u16
    }

    /// The flags that a stored 16-bit value stands for; higher bits are ignored.
    pub open spec fn from_bits(packed: u16) -> FormatFlags {
        FormatFlags { mavlink_only: packed % 2 == 1, not_timestamped: (packed / 2) % 2 == 1 }
    }

    pub fn unpack(packed_data: u16) -> (r: Self)
        ensures
            r == Self::from_bits(packed_data),
    {
        proof {
            assert((packed_data & 1u16 != 0) == (packed_data % 2 == 1)) by (bit_vector);
            assert((packed_data & 2u16 != 0) == ((packed_data / 2) % 2 == 1)) by (bit_vector);
        }
        FormatFlags { mavlink_only: packed_data & 0x01 != 0, not_timestamped: packed_data & 0x02 != 0 }
    }

    /// The two little-endian bytes that store these flags.
    pub fn pack(&self) -> (r: [u8; 2])
        ensures
            r@ == spec_u16_to_le_bytes(self.bits()),
    {
        let m: u16 = if self.mavlink_only { 1 } else { 0 };
        let t: u16 = if self.not_timestamped { 2 } else { 0 };
        let v = u16_to_le_bytes(m + t);
        let r = [v[0], v[1]];
        assert(r@ =~= v@);
        r
    }
}

impl Default for FormatFlags {
    fn default() -> (r: Self)
        ensures
            !r.mavlink_only && !r.not_timestamped,
    {
        FormatFlags { mavlink_only: false, not_timestamped: false }
    }
}

/// Packing then unpacking the flags gives them back, and unpacking keeps
/// exactly the low two bits of the stored value.
pub proof fn lemma_flags_round_trip(flags: FormatFlags, packed: u16)
    ensures
        FormatFlags::from_bits(flags.bits()) == flags,
        FormatFlags::from_bits(packed).bits() == packed % 4,
{
}

/// How the message definitions of a file are given.
#[derive(Debug, Clone, Copy, PartialEq, Eq, Structural)]
pub enum MavlinkDefinitionPayloadType {
    /// No payload: the built-in message set is used.
    NoPayload,
    /// A space-delimited list of URLs of XML definition files.
    Utf8SpaceDelimitedUrlsForXMLFiles,
    /// Inline XML.
    Utf8Xml,
}

/// The stored code of a payload type.
pub open spec fn payload_type_code(t: MavlinkDefinitionPayloadType) -> u16 {
    match t {
        MavlinkDefinitionPayloadType::NoPayload => 0,
        MavlinkDefinitionPayloadType::Utf8SpaceDelimitedUrlsForXMLFiles => 1,
        MavlinkDefinitionPayloadType::Utf8Xml => 2,
    }
}

/// The payload type that a stored code stands for, if any.
pub open spec fn payload_type_of(code: u16) -> Option<MavlinkDefinitionPayloadType> {
    if code == 0 {
        Some(MavlinkDefinitionPayloadType::NoPayload)
    } else if code == 1 {
        Some(MavlinkDefinitionPayloadType::Utf8SpaceDelimitedUrlsForXMLFiles)
    } else if code == 2 {
        Some(MavlinkDefinitionPayloadType::Utf8Xml)
    } else {
        None
    }
}

impl MavlinkDefinitionPayloadType {
    /// The payload type stored as `value`; values other than 0, 1, 2 are refused.
    pub fn try_from(value: u16) -> (r: Result<Self, ()>)
        ensures
            r matches Ok(t) ==> payload_type_of(value) == Some(t),
            r is Err <==> payload_type_of(value) is None,
    {
        match value {
            0 => Ok(MavlinkDefinitionPayloadType::NoPayload),
            1 => Ok(MavlinkDefinitionPayloadType::Utf8SpaceDelimitedUrlsForXMLFiles),
            2 => Ok(MavlinkDefinitionPayloadType::Utf8Xml),
            _ => Err(()),
        }
    }

    /// The stored code of this payload type.
    pub fn code(&self) -> (r: u16)
        ensures
            r == payload_type_code(*self),
    {
        match self {
            MavlinkDefinitionPayloadType::NoPayload => 0,
            MavlinkDefinitionPayloadType::Utf8SpaceDelimitedUrlsForXMLFiles => 1,
            MavlinkDefinitionPayloadType::Utf8Xml => 2,
        }
    }
}

/// Protocol dialect metadata stored in the header.
pub struct MavlinkMessageDefinition {
    /// MAVLink major version: 1 or 2 selects the wire version of every frame.
    pub version_major: u32,
    /// MAVLink minor version.
    pub version_minor: u32,
    /// Dialect name, stored in a NUL-padded 32-byte field.
    pub dialect: String,
    /// How the message definitions are given.
    pub payload_type: MavlinkDefinitionPayloadType,
    /// Number of definition-payload bytes that follow the fixed 46 bytes.
    pub size: u32,
    /// The definition payload, when one was read or is to be written.
    pub payload: Option<Vec<u8>>,
}

/// The fields that the fixed 46 definition bytes `b` describe.
pub open spec fn definition_described_by(d: MavlinkMessageDefinition, b: Seq<u8>) -> bool {
    &&& d.version_major == spec_u32_from_le_bytes(b.subrange(0, 4))
    &&& d.version_minor == spec_u32_from_le_bytes(b.subrange(4, 8))
    &&& d.dialect@ == name_of(b.subrange(8, 40))
    &&& payload_type_of(spec_u16_from_le_bytes(b.subrange(40, 42))) == Some(d.payload_type)
    &&& d.size == spec_u32_from_le_bytes(b.subrange(42, 46))
}

impl MavlinkMessageDefinition {
    /// Dialect used when none is given.
    pub const DEFAULT_DIALECT: &'static str = "common";

    /// The dialect name fits its 32-byte field.
    pub open spec fn dialect_fits(&self) -> bool {
        encode_utf8(self.dialect@).len() <= 32
    }

    /// The payload bytes that follow the fixed part when packed.
    pub open spec fn payload_bytes(&self) -> Seq<u8> {
        if self.payload_type != MavlinkDefinitionPayloadType::NoPayload {
            match self.payload {
                Some(p) => p@,
                None => Seq::empty(),
            }
        } else {
            Seq::empty()
        }
    }

    /// The packed form: the fixed 46 bytes, then the payload bytes.
    pub open spec fn spec_pack(&self) -> Seq<u8> {
        spec_u32_to_le_bytes(self.version_major) + spec_u32_to_le_bytes(self.version_minor)
            + name_field(encode_utf8(self.dialect@)) + spec_u16_to_le_bytes(
            payload_type_code(self.payload_type),
        ) + spec_u32_to_le_bytes(self.size) + self.payload_bytes()
    }

    fn unpack_from(b: &[u8]) -> (r: Result<Self, HeaderError>)
        requires
            b@.len() == 46,
        ensures
            r is Ok <==> payload_type_of(spec_u16_from_le_bytes(b@.subrange(40, 42))) is Some,
            r matches Ok(d) ==> definition_described_by(d, b@) && d.payload is None,
            r matches Err(e) ==> e == HeaderError::InvalidPayloadType,
    {
        let code = u16_from_le_bytes(&b[40..42]);
        let payload_type = match MavlinkDefinitionPayloadType::try_from(code) {
            Ok(t) => t,
            Err(_) => {
                return Err(HeaderError::InvalidPayloadType);
            },
        };
        Ok(
            MavlinkMessageDefinition {
                version_major: u32_from_le_bytes(&b[0..4]),
                version_minor: u32_from_le_bytes(&b[4..8]),
                dialect: read_name_field(&b[8..40]),
                payload_type,
                size: u32_from_le_bytes(&b[42..46]),
                payload: None,
            },
        )
    }

    /// Reads the fixed 46 definition bytes. The payload is read separately.
    /// The payload type code must be 0, 1 or 2 (test it with
    /// `MavlinkDefinitionPayloadType::try_from`): any other is fatal.
    pub fn unpack(packed_data: &[u8; 46]) -> (r: Self)
        requires
            payload_type_of(spec_u16_from_le_bytes(packed_data@.subrange(40, 42))) is Some,
        ensures
            definition_described_by(r, packed_data@),
            r.payload is None,
    {
        match Self::unpack_from(packed_data.as_slice()) {
            Ok(d) => d,
            Err(_) => vstd::pervasive::unreached(),
        }
    }

    /// Keeps the definition payload when the payload type carries one.
    pub fn unpack_payload(&mut self, packed_data: &[u8])
        ensures
            old(self).payload_type != MavlinkDefinitionPayloadType::NoPayload ==> (final(self).payload matches Some(p) && p@ == packed_data@),
            old(self).payload_type == MavlinkDefinitionPayloadType::NoPayload ==> final(self).payload == old(self).payload,
            final(self).version_major == old(self).version_major,
            final(self).version_minor == old(self).version_minor,
            final(self).dialect == old(self).dialect,
            final(self).payload_type == old(self).payload_type,
            final(self).size == old(self).size,
    {
        if self.payload_type != MavlinkDefinitionPayloadType::NoPayload {
            let mut p: Vec<u8> = Vec::new();
            append_bytes(&mut p, packed_data);
            self.payload = Some(p);
        }
    }

    /// The packed definition: the fixed 46 bytes, then the payload when the
    /// payload type carries one.
    pub fn pack(&self) -> (r: Vec<u8>)
        requires
            self.dialect_fits(),
        ensures
            r@ == self.spec_pack(),
    {
        let mut packed: Vec<u8> = Vec::new();
        append_bytes(&mut packed, u32_to_le_bytes(self.version_major).as_slice());
        append_bytes(&mut packed, u32_to_le_bytes(self.version_minor).as_slice());
        append_name_field(&mut packed, self.dialect.as_str());
        append_bytes(&mut packed, u16_to_le_bytes(self.payload_type.code()).as_slice());
        append_bytes(&mut packed, u32_to_le_bytes(self.size).as_slice());
        if self.payload_type != MavlinkDefinitionPayloadType::NoPayload {
            match &self.payload {
                Some(p) => append_bytes(&mut packed, p.as_slice()),
                None => {},
            }
        }
        packed
    }
}

impl Default for MavlinkMessageDefinition {
    fn default() -> (r: Self)
        ensures
            r.version_major == 2,
            r.version_minor == 0,
            r.dialect@ == Self::DEFAULT_DIALECT@,
            r.payload_type == MavlinkDefinitionPayloadType::NoPayload,
            r.size == 0,
            r.payload is None,
    {
        MavlinkMessageDefinition {
            version_major: 2,
            version_minor: 0,
            dialect: Self::DEFAULT_DIALECT.to_owned(),
            payload_type: MavlinkDefinitionPayloadType::NoPayload,
            size: 0,
            payload: None,
        }
    }
}

/// Metadata written once at the start of a log file.
pub struct FileHeader {
    /// Unique identifier of the file.
    pub uuid: [u8; 16],
    /// Microseconds since the Unix epoch when the file was created.
    pub timestamp_us: u64,
    /// Identifier of the writing application, stored in a NUL-padded 32-byte field.
    pub src_application_id: String,
    /// Format version; only 1 is supported.
    pub format_version: u32,
    /// Record layout options.
    pub format_flags: FormatFlags,
    /// Protocol dialect metadata.
    pub message_definition: MavlinkMessageDefinition,
}

impl FileHeader {
    /// Size of the fixed part of a header; the definition payload may follow.
    pub const MIN_SIZE: usize = 108;

    /// Format version written by this codec.
    pub const FILE_FORMAT_VERSION: u32 = 1;

    /// Application id written by this codec.
    pub const SRC_APPLICATION_ID: &'static str = "mavlink_logger";

    /// Both text fields fit their 32-byte fields.
    pub open spec fn names_fit(&self) -> bool {
        encode_utf8(self.src_application_id@).len() <= 32 && self.message_definition.dialect_fits()
    }

    /// The packed header: 108 fixed bytes, then the definition payload.
    pub open spec fn spec_pack(&self) -> Seq<u8> {
        self.uuid@ + spec_u64_to_le_bytes(self.timestamp_us) + name_field(
            encode_utf8(self.src_application_id@),
        ) + spec_u32_to_le_bytes(self.format_version) + spec_u16_to_le_bytes(self.format_flags.bits())
            + self.message_definition.spec_pack()
    }

    /// The fields that the fixed 108 header bytes `b` describe.
    pub open spec fn described_by(&self, b: Seq<u8>) -> bool {
        &&& self.uuid@ == b.subrange(0, 16)
        &&& self.timestamp_us == spec_u64_from_le_bytes(b.subrange(16, 24))
        &&& self.src_application_id@ == name_of(b.subrange(24, 56))
        &&& self.format_version == spec_u32_from_le_bytes(b.subrange(56, 60))
        &&& self.format_flags == FormatFlags::from_bits(spec_u16_from_le_bytes(b.subrange(60, 62)))
        &&& definition_described_by(self.message_definition, b.subrange(62, 108))
    }

    /// A header with the given identity, stamped with this codec's
    /// application id and format version.
    pub fn new(
        format_flags: FormatFlags,
        message_definition: MavlinkMessageDefinition,
        uuid: [u8; 16],
        timestamp_us: u64,
    ) -> (r: FileHeader)
        ensures
            r.uuid == uuid,
            r.timestamp_us == timestamp_us,
            r.src_application_id@ == Self::SRC_APPLICATION_ID@,
            r.format_version == FILE_FORMAT_VERSION,
            r.format_flags == format_flags,
            r.message_definition == message_definition,
    {
        FileHeader {
            uuid,
            timestamp_us,
            src_application_id: Self::SRC_APPLICATION_ID.to_owned(),
            format_version: Self::FILE_FORMAT_VERSION,
            format_flags,
            message_definition,
        }
    }

    pub(crate) fn unpack_from(b: &[u8]) -> (r: Result<Self, HeaderError>)
        requires
            b@.len() == 108,
        ensures
            r is Ok <==> payload_type_of(spec_u16_from_le_bytes(b@.subrange(102, 104))) is Some,
            r matches Ok(h) ==> h.described_by(b@) && h.message_definition.payload is None,
            r matches Err(e) ==> e == HeaderError::InvalidPayloadType,
    {
        let d = MavlinkMessageDefinition::unpack_from(&b[62..108]);
        assert(b@.subrange(62, 108).subrange(40, 42) =~= b@.subrange(102, 104));
        let message_definition = match d {
            Ok(d) => d,
            Err(e) => {
                return Err(e);
            },
        };
        let uuid: [u8; 16] = [
            b[0], b[1], b[2], b[3], b[4], b[5], b[6], b[7], b[8], b[9], b[10], b[11], b[12], b[13],
            b[14], b[15],
        ];
        assert(uuid@ =~= b@.subrange(0, 16));
        Ok(
            FileHeader {
                uuid,
                timestamp_us: u64_from_le_bytes(&b[16..24]),
                src_application_id: read_name_field(&b[24..56]),
                format_version: u32_from_le_bytes(&b[56..60]),
                format_flags: FormatFlags::unpack(u16_from_le_bytes(&b[60..62])),
                message_definition,
            },
        )
    }

    /// Reads the fixed 108 header bytes. The definition payload is read
    /// separately. The payload type code (bytes 102..104) must be 0, 1 or 2
    /// (test it with `MavlinkDefinitionPayloadType::try_from`): any other is fatal.
    pub fn unpack(packed_data: &[u8; 108]) -> (r: Self)
        requires
            payload_type_of(spec_u16_from_le_bytes(packed_data@.subrange(102, 104))) is Some,
        ensures
            r.described_by(packed_data@),
            r.message_definition.payload is None,
    {
        match Self::unpack_from(packed_data.as_slice()) {
            Ok(h) => h,
            Err(_) => vstd::pervasive::unreached(),
        }
    }

    /// The packed header: uuid, timestamp, application id, format version,
    /// flags, then the packed definition.
    pub fn pack(&self) -> (r: Vec<u8>)
        requires
            self.names_fit(),
        ensures
            r@ == self.spec_pack(),
    {
        let mut packed: Vec<u8> = Vec::new();
        append_bytes(&mut packed, self.uuid.as_slice());
        append_bytes(&mut packed, u64_to_le_bytes(self.timestamp_us).as_slice());
        append_name_field(&mut packed, self.src_application_id.as_str());
        append_bytes(&mut packed, u32_to_le_bytes(self.format_version).as_slice());
        let flags = self.format_flags.pack();
        append_bytes(&mut packed, flags.as_slice());
        let definition = self.message_definition.pack();
        append_bytes(&mut packed, definition.as_slice());
        packed
    }
}

/// Unpacking the fixed 108-byte prefix of a packed header gives back every
/// field: the uuid, timestamp, versions, flags, payload type and size
/// exactly, and the application id and dialect whenever their bytes hold no NUL.
pub proof fn lemma_header_round_trip(h: FileHeader)
    requires
        h.names_fit(),
        !encode_utf8(h.src_application_id@).contains(0u8),
        !encode_utf8(h.message_definition.dialect@).contains(0u8),
    ensures
        h.spec_pack().len() >= 108,
        h.described_by(h.spec_pack().subrange(0, 108)),
{
    lemma_auto_spec_u16_to_from_le_bytes();
    lemma_auto_spec_u32_to_from_le_bytes();
    lemma_auto_spec_u64_to_from_le_bytes();
    crate::codec::lemma_name_field_round_trip(h.src_application_id@);
    crate::codec::lemma_name_field_round_trip(h.message_definition.dialect@);
    let d = h.message_definition;
    let p = h.spec_pack();
    let b = p.subrange(0, 108);
    let app = name_field(encode_utf8(h.src_application_id@));
    let dia = name_field(encode_utf8(d.dialect@));
    assert(b.subrange(0, 16) =~= h.uuid@);
    assert(b.subrange(16, 24) =~= spec_u64_to_le_bytes(h.timestamp_us));
    assert(b.subrange(24, 56) =~= app);
    assert(b.subrange(56, 60) =~= spec_u32_to_le_bytes(h.format_version));
    assert(b.subrange(60, 62) =~= spec_u16_to_le_bytes(h.format_flags.bits()));
    let db = b.subrange(62, 108);
    assert(db.subrange(0, 4) =~= spec_u32_to_le_bytes(d.version_major));
    assert(db.subrange(4, 8) =~= spec_u32_to_le_bytes(d.version_minor));
    assert(db.subrange(8, 40) =~= dia);
    assert(db.subrange(40, 42) =~= spec_u16_to_le_bytes(payload_type_code(d.payload_type)));
    assert(db.subrange(42, 46) =~= spec_u32_to_le_bytes(d.size));
    lemma_flags_round_trip(h.format_flags, 0);
}

/// Conversely, packing the header that 108 bytes describe gives those bytes
/// back, when they are laid out as the writer lays them out: canonical text
/// fields and no flag bits beyond the low two.
pub proof fn lemma_header_bytes_round_trip(h: FileHeader, b: Seq<u8>)
    requires
        b.len() == 108,
        h.described_by(b),
        canonical_name_field(b.subrange(24, 56)),
        canonical_name_field(b.subrange(70, 102)),
        spec_u16_from_le_bytes(b.subrange(60, 62)) < 4,
    ensures
        h.names_fit(),
        h.spec_pack().len() >= 108,
        h.spec_pack().subrange(0, 108) == b,
{
    lemma_auto_spec_u16_to_from_le_bytes();
    lemma_auto_spec_u32_to_from_le_bytes();
    lemma_auto_spec_u64_to_from_le_bytes();
    crate::codec::lemma_canonical_name_field(b.subrange(24, 56));
    crate::codec::lemma_canonical_name_field(b.subrange(70, 102));
    let d = h.message_definition;
    let db = b.subrange(62, 108);
    assert(db.subrange(8, 40) =~= b.subrange(70, 102));
    assert(payload_type_code(d.payload_type) == spec_u16_from_le_bytes(db.subrange(40, 42)));
    assert(spec_u16_to_le_bytes(h.format_flags.bits()) == b.subrange(60, 62));
    assert(db =~= spec_u32_to_le_bytes(d.version_major) + spec_u32_to_le_bytes(d.version_minor)
        + name_field(encode_utf8(d.dialect@)) + spec_u16_to_le_bytes(payload_type_code(d.payload_type))
        + spec_u32_to_le_bytes(d.size));
    assert(h.spec_pack().subrange(0, 108) =~= b);
}

} // verus!
