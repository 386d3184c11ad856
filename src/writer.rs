//! The record writer: frames raw bytes, text and MAVLink frames exactly as
//! the decoder of the file's layout expects them.
use crate::codec::append_bytes;
use crate::entry::{tag_of, EntryType, MavFrame};
use crate::header::{
    FileHeader, FormatFlags, HeaderError, MavlinkDefinitionPayloadType, MavlinkMessageDefinition,
};
use crate::wire::{serialize_frame, serialized_frame};
use vstd::bytes::*;
use vstd::prelude::*;
use vstd::utf8::*;

verus! {

/// Why a record was not written.
#[derive(Debug, Clone, Copy, PartialEq, Eq, Structural)]
pub enum WriteError {
    /// A raw or text record was given to a MAVLink-only file.
    MavlinkOnlyFile,
    /// The payload does not fit the 2-byte length field.
    PayloadTooLarge,
}

/// The bytes of one record: tag (mixed files only), timestamp (timestamped
/// files only), 2-byte length (mixed files only), then the data.
pub open spec fn record_bytes(flags: FormatFlags, entry_type: EntryType, timestamp: u64, data: Seq<u8>) -> Seq<u8> {
    (if flags.mavlink_only { Seq::empty() } else { seq![tag_of(entry_type)] }) + (if flags.not_timestamped {
        Seq::empty()
    } else {
        spec_u64_to_le_bytes(timestamp)
    }) + (if flags.mavlink_only { Seq::empty() } else { spec_u16_to_le_bytes(data.len() as u16) }) + data
}

/// Why a record of `len` bytes cannot be written, if it cannot.
pub open spec fn write_refusal(flags: FormatFlags, entry_type: EntryType, len: nat) -> Option<WriteError> {
    if flags.mavlink_only && entry_type != EntryType::Mavlink {
        Some(WriteError::MavlinkOnlyFile)
    } else if !flags.mavlink_only && len > 0xFFFF {
        Some(WriteError::PayloadTooLarge)
    } else {
        None
    }
}

/// `r` is the framed record, or the refusal when there is one.
pub open spec fn framed(
    flags: FormatFlags,
    entry_type: EntryType,
    timestamp: u64,
    data: Seq<u8>,
    r: Result<Vec<u8>, WriteError>,
) -> bool {
    match write_refusal(flags, entry_type, data.len()) {
        Some(e) => r == Err::<Vec<u8>, WriteError>(e),
        None => r matches Ok(b) && b@ == record_bytes(flags, entry_type, timestamp, data),
    }
}

/// Frames one record for a file with the given flags.
pub fn encode_record(flags: FormatFlags, entry_type: EntryType, timestamp_us: u64, data: &[u8]) -> (r: Result<
    Vec<u8>,
    WriteError,
>)
    ensures
        framed(flags, entry_type, timestamp_us, data@, r),
{
    if entry_type != EntryType::Mavlink && flags.mavlink_only {
        return Err(WriteError::MavlinkOnlyFile);
    }
    if !flags.mavlink_only && data.len() > 0xFFFF {
        return Err(WriteError::PayloadTooLarge);
    }
    let mut record: Vec<u8> = Vec::new();
    if !flags.mavlink_only {
        record.push(entry_type.tag());
    }
    if !flags.not_timestamped {
        append_bytes(&mut record, u64_to_le_bytes(timestamp_us).as_slice());
    }
    if !flags.mavlink_only {
        append_bytes(&mut record, u16_to_le_bytes(data.len() as u16).as_slice());
    }
    append_bytes(&mut record, data);
    assert(record@ =~= record_bytes(flags, entry_type, timestamp_us, data@));
    Ok(record)
}

/// Relies on `uuid::Uuid::new_v4`: random bytes, with the version nibble set
/// to 4 and the variant bits to binary 10.
#[verifier::external_body]
fn random_uuid() -> (r: [u8; 16])
    ensures
        r[6] / 16 == 4,
        r[8] / 64 == 2,
{
    uuid::Uuid::new_v4().into_bytes()
}

/// Frames records for one file; holds the file's header.
pub struct MavLogWriter {
    header: FileHeader,
}

impl MavLogWriter {
    pub closed spec fn spec_header(&self) -> FileHeader {
        self.header
    }

    /// Both text fields of the header fit their 32-byte fields, so the
    /// header can be packed.
    pub closed spec fn wf(&self) -> bool {
        self.header.names_fit()
    }

    /// A writer for a new file with the given identity; missing flags and
    /// definitions take their defaults. A dialect over 32 bytes is refused.
    pub fn new(
        format_flags: Option<FormatFlags>,
        mavlink_definitions: Option<MavlinkMessageDefinition>,
        uuid: [u8; 16],
        timestamp_us: u64,
    ) -> (r: Result<MavLogWriter, HeaderError>)
        ensures
            Self::built(format_flags, mavlink_definitions, timestamp_us, r),
            r matches Ok(w) ==> w.spec_header().uuid == uuid,
    {
        let flags = match format_flags {
            Some(f) => f,
            None => FormatFlags::default(),
        };
        let definition = match mavlink_definitions {
            Some(d) => d,
            None => {
                let d = MavlinkMessageDefinition::default();
                proof {
                    reveal_strlit("common");
                    vstd::utf8::is_ascii_chars_encode_utf8(d.dialect@);
                }
                d
            },
        };
        if definition.dialect.as_str().as_bytes().len() > 32 {
            return Err(HeaderError::NameTooLong);
        }
        let header = FileHeader::new(flags, definition, uuid, timestamp_us);
        proof {
            reveal_strlit("mavlink_logger");
        }
        assert(encode_utf8(header.src_application_id@).len() <= 32) by {
            vstd::utf8::is_ascii_chars_encode_utf8(header.src_application_id@);
        }
        Ok(MavLogWriter { header })
    }

    /// `r` is a writer for a new file with these settings, or the refusal of
    /// a dialect over 32 bytes.
    pub open spec fn built(
        format_flags: Option<FormatFlags>,
        mavlink_definitions: Option<MavlinkMessageDefinition>,
        timestamp_us: u64,
        r: Result<MavLogWriter, HeaderError>,
    ) -> bool {
        &&& match mavlink_definitions {
            Some(d) => r is Err <==> !d.dialect_fits(),
            None => r is Ok,
        }
        &&& r matches Err(e) ==> e == HeaderError::NameTooLong
        &&& r matches Ok(w) ==> {
            &&& w.wf()
            &&& w.spec_header().timestamp_us == timestamp_us
            &&& w.spec_header().src_application_id@ == FileHeader::SRC_APPLICATION_ID@
            &&& w.spec_header().format_version == FileHeader::FILE_FORMAT_VERSION
            &&& w.spec_header().format_flags == match format_flags {
                Some(f) => f,
                None => FormatFlags { mavlink_only: false, not_timestamped: false },
            }
            &&& match mavlink_definitions {
                Some(d) => w.spec_header().message_definition == d,
                None => {
                    &&& w.spec_header().message_definition.dialect@ == MavlinkMessageDefinition::DEFAULT_DIALECT@
                    &&& w.spec_header().message_definition.version_major == 2
                    &&& w.spec_header().message_definition.version_minor == 0
                    &&& w.spec_header().message_definition.payload_type == MavlinkDefinitionPayloadType::NoPayload
                    &&& w.spec_header().message_definition.size == 0
                    &&& w.spec_header().message_definition.payload is None
                },
            }
        }
    }

    /// A writer for a new file with a random (version 4) uuid.
    pub fn create(
        format_flags: Option<FormatFlags>,
        mavlink_definitions: Option<MavlinkMessageDefinition>,
        timestamp_us: u64,
    ) -> (r: Result<MavLogWriter, HeaderError>)
        ensures
            Self::built(format_flags, mavlink_definitions, timestamp_us, r),
            r matches Ok(w) ==> w.spec_header().uuid[6] / 16 == 4 && w.spec_header().uuid[8] / 64 == 2,
    {
        Self::new(format_flags, mavlink_definitions, random_uuid(), timestamp_us)
    }

    /// The header of the file.
    pub fn header(&self) -> (r: &FileHeader)
        ensures
            *r == self.spec_header(),
    {
        &self.header
    }

    /// The packed header, written once at the start of the file.
    pub fn header_bytes(&self) -> (r: Vec<u8>)
        requires
            self.wf(),
        ensures
            r@ == self.spec_header().spec_pack(),
    {
        self.header.pack()
    }

    /// Frames one record with the given timestamp.
    pub fn write(&self, entry_type: EntryType, data: &[u8], timestamp_us: u64) -> (r: Result<Vec<u8>, WriteError>)
        ensures
            framed(self.spec_header().format_flags, entry_type, timestamp_us, data@, r),
    {
        encode_record(self.header.format_flags, entry_type, timestamp_us, data)
    }

    /// Frames a text record.
    pub fn write_text(&self, text: &str, timestamp_us: u64) -> (r: Result<Vec<u8>, WriteError>)
        ensures
            framed(self.spec_header().format_flags, EntryType::Utf8Text, timestamp_us, encode_utf8(text@), r),
    {
        self.write(EntryType::Utf8Text, text.as_bytes(), timestamp_us)
    }

    /// Frames a raw record.
    pub fn write_raw(&self, data: &[u8], timestamp_us: u64) -> (r: Result<Vec<u8>, WriteError>)
        ensures
            framed(self.spec_header().format_flags, EntryType::Raw, timestamp_us, data@, r),
    {
        self.write(EntryType::Raw, data, timestamp_us)
    }

    /// Serializes a MAVLink frame and frames it as a record.
    pub fn write_mavlink(&self, frame: &MavFrame, timestamp_us: u64) -> (r: Result<Vec<u8>, WriteError>)
        ensures
            exists|bytes: Seq<u8>|
                {
                    &&& serialized_frame(bytes, frame.header, frame.protocol_version)
                    &&& #[trigger] framed(self.spec_header().format_flags, EntryType::Mavlink, timestamp_us, bytes, r)
                },
            r is Ok,
    {
        let bytes = serialize_frame(frame.header, &frame.msg, frame.protocol_version);
        self.write(EntryType::Mavlink, bytes.as_slice(), timestamp_us)
    }
}

/// A telemetry-log record: the 8-byte timestamp, then the serialized frame.
pub fn tlog_record(timestamp_us: u64, frame: &MavFrame) -> (r: Vec<u8>)
    ensures
        exists|bytes: Seq<u8>|
            serialized_frame(bytes, frame.header, frame.protocol_version) && r@ == spec_u64_to_le_bytes(
                timestamp_us,
            ) + bytes,
{
    let mut record = u64_to_le_bytes(timestamp_us);
    let bytes = serialize_frame(frame.header, &frame.msg, frame.protocol_version);
    append_bytes(&mut record, bytes.as_slice());
    record
}

/// The timestamp of a record from the writer's clock: the elapsed
/// microseconds, or 0 together with a request to restart the clock's
/// reference when the clock could not be read (it went backwards).
pub fn clock_timestamp(elapsed_us: Option<u64>) -> (r: (u64, bool))
    ensures
        r == (match elapsed_us {
            Some(t) => (t, false),
            None => (0u64, true),
        }),
{
    match elapsed_us {
        Some(t) => (t, false),
        None => (0, true),
    }
}

} // verus!
