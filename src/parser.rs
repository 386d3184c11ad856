//! The record decoder: one of four layouts, chosen once from the header
//! flags, reads one record per call from the bytes after the header.
use crate::codec::{append_bytes, name_of, utf8_string};
use crate::entry::{entry_has_body, FrameHeader, LogEntry, MavlinkVersion, RecordBody};
use crate::header::{
    payload_type_of, FileHeader, FormatFlags, HeaderError, MavlinkDefinitionPayloadType,
    FILE_FORMAT_VERSION,
};
use crate::wire::{mavlink_read, read_frame};
use vstd::bytes::*;
use vstd::prelude::*;
use vstd::utf8::*;

verus! {

/// Record layout of a file, selected by its two format flags.
#[derive(Debug, Clone, Copy, PartialEq, Eq, Structural)]
pub enum RecordLayout {
    /// MAVLink frames only, no timestamps: no outer framing at all.
    MavlinkOnly,
    /// MAVLink frames, each after an 8-byte timestamp.
    TimestampedMavlinkOnly,
    /// Tag byte, 2-byte length, payload.
    Mixed,
    /// Tag byte, 8-byte timestamp, 2-byte length, payload.
    TimestampedMixed,
}

/// The layout that a pair of format flags selects.
pub open spec fn layout_of(flags: FormatFlags) -> RecordLayout {
    if flags.mavlink_only {
        if flags.not_timestamped {
            RecordLayout::MavlinkOnly
        } else {
            RecordLayout::TimestampedMavlinkOnly
        }
    } else if flags.not_timestamped {
        RecordLayout::Mixed
    } else {
        RecordLayout::TimestampedMixed
    }
}

impl RecordLayout {
    /// The layout that a pair of format flags selects.
    pub fn from_flags(flags: FormatFlags) -> (r: RecordLayout)
        ensures
            r == layout_of(flags),
    {
        if flags.mavlink_only {
            if flags.not_timestamped {
                RecordLayout::MavlinkOnly
            } else {
                RecordLayout::TimestampedMavlinkOnly
            }
        } else if flags.not_timestamped {
            RecordLayout::Mixed
        } else {
            RecordLayout::TimestampedMixed
        }
    }
}

/// What the decoder does when a MAVLink frame is not where the outer
/// framing says it starts.
#[derive(Debug, Clone, Copy, PartialEq, Eq, Structural)]
pub enum ResyncPolicy {
    /// Let the MAVLink decoder scan forward to the next valid frame; in the
    /// timestamped MAVLink-only layout, drop the timestamp when the byte
    /// after it is not a start-of-frame marker. A coincidental marker can pair
    /// a timestamp with the wrong frame.
    Lenient,
    /// Fail, consuming nothing, when the frame does not start with the
    /// start-of-frame marker exactly where it is expected.
    Strict,
}

/// Why a record could not be read.
#[derive(Debug, Clone, Copy, PartialEq, Eq, Structural)]
pub enum ReadError {
    /// The data ends inside a record.
    Truncated,
    /// A text record's payload is not valid UTF-8.
    InvalidUtf8,
    /// The MAVLink decoder found no valid frame.
    MavlinkDecode,
    /// Under the strict policy: no start-of-frame marker where a frame must start.
    FrameStartMissing,
}

/// Outcome of reading one record from the remaining bytes.
pub enum Step {
    /// No bytes remain: a clean end at a record boundary.
    End,
    /// A record, and how many bytes it took.
    Record { timestamp: Option<u64>, body: RecordBody, used: nat },
    /// A failure, and how many bytes were consumed before it.
    Failed { error: ReadError, used: nat },
}

/// Reading a MAVLink frame that starts at `off` in `rest`, after outer
/// framing that already gave `timestamp`.
pub open spec fn frame_step(
    rest: Seq<u8>,
    off: int,
    timestamp: Option<u64>,
    version: MavlinkVersion,
    policy: ResyncPolicy,
) -> Step {
    let frame = rest.subrange(off, rest.len() as int);
    if policy == ResyncPolicy::Strict && frame.len() > 0 && frame[0] != version.start_marker() {
        Step::Failed { error: ReadError::FrameStartMissing, used: 0 }
    } else {
        let (decoded, used) = mavlink_read(frame, version.number());
        match decoded {
            Some((s, c, q)) => Step::Record {
                timestamp,
                body: RecordBody::Mavlink(FrameHeader { system_id: s, component_id: c, sequence: q }),
                used: (off + used) as nat,
            },
            None => Step::Failed { error: ReadError::MavlinkDecode, used: (off + used) as nat },
        }
    }
}

/// Reading one record of a mixed layout: tag, optional timestamp, length,
/// then the payload (or a MAVLink frame, whose length field is not used).
pub open spec fn mixed_step(
    rest: Seq<u8>,
    timestamped: bool,
    version: MavlinkVersion,
    policy: ResyncPolicy,
) -> Step {
    let head: int = if timestamped { 11 } else { 3 };
    if rest.len() < head {
        Step::Failed { error: ReadError::Truncated, used: 0 }
    } else {
        let tag = rest[0];
        let timestamp = if timestamped {
            Some(spec_u64_from_le_bytes(rest.subrange(1, 9)))
        } else {
            None
        };
        let len = spec_u16_from_le_bytes(rest.subrange(head - 2, head));
        if tag == 1 {
            frame_step(rest, head, timestamp, version, policy)
        } else if rest.len() < head + len {
            Step::Failed { error: ReadError::Truncated, used: 0 }
        } else {
            let payload = rest.subrange(head, head + len);
            if tag == 2 {
                if valid_utf8(payload) {
                    Step::Record {
                        timestamp,
                        body: RecordBody::Text(decode_utf8(payload)),
                        used: (head + len) as nat,
                    }
                } else {
                    Step::Failed { error: ReadError::InvalidUtf8, used: (head + len) as nat }
                }
            } else {
                Step::Record { timestamp, body: RecordBody::Raw(payload), used: (head + len) as nat }
            }
        }
    }
}

/// Reading one record from `rest` under the given layout.
pub open spec fn next_step(
    layout: RecordLayout,
    version: MavlinkVersion,
    policy: ResyncPolicy,
    rest: Seq<u8>,
) -> Step {
    if rest.len() == 0 {
        Step::End
    } else {
        match layout {
            RecordLayout::MavlinkOnly => frame_step(rest, 0, None, version, policy),
            RecordLayout::TimestampedMavlinkOnly => {
                if rest.len() < 9 {
                    Step::Failed { error: ReadError::Truncated, used: 0 }
                } else if rest[8] == version.start_marker() {
                    frame_step(rest, 8, Some(spec_u64_from_le_bytes(rest.subrange(0, 8))), version, policy)
                } else if policy == ResyncPolicy::Strict {
                    Step::Failed { error: ReadError::FrameStartMissing, used: 0 }
                } else {
                    frame_step(rest, 0, None, version, policy)
                }
            },
            RecordLayout::Mixed => mixed_step(rest, false, version, policy),
            RecordLayout::TimestampedMixed => mixed_step(rest, true, version, policy),
        }
    }
}

/// `r` is what the step promises, and `after` is what remains of `before`.
pub open spec fn step_taken(
    step: Step,
    r: Result<Option<LogEntry>, ReadError>,
    before: Seq<u8>,
    after: Seq<u8>,
) -> bool {
    match step {
        Step::End => r matches Ok(None) && after == before,
        Step::Record { timestamp, body, used } => {
            &&& r matches Ok(Some(e)) && e.timestamp == timestamp && entry_has_body(e, body)
            &&& used <= before.len() && after == before.subrange(used as int, before.len() as int)
        },
        Step::Failed { error, used } => {
            &&& r == Err::<Option<LogEntry>, ReadError>(error)
            &&& used <= before.len() && after == before.subrange(used as int, before.len() as int)
        },
    }
}

/// What opening `data` gives: the layout, the MAVLink version and where the
/// records start, or the fatal header problem, checked in this order. Only
/// files without a definition payload open, so records start at byte 108.
pub open spec fn open_outcome(data: Seq<u8>) -> Result<(RecordLayout, MavlinkVersion, nat), HeaderError> {
    if data.len() < 108 {
        Err(HeaderError::TooShort)
    } else {
        let code = spec_u16_from_le_bytes(data.subrange(102, 104));
        let size = spec_u32_from_le_bytes(data.subrange(104, 108));
        match payload_type_of(code) {
            None => Err(HeaderError::InvalidPayloadType),
            Some(t) => {
                if t != MavlinkDefinitionPayloadType::NoPayload && data.len() < 108 + size {
                    Err(HeaderError::DefinitionsTruncated)
                } else if t == MavlinkDefinitionPayloadType::Utf8SpaceDelimitedUrlsForXMLFiles {
                    Err(HeaderError::UnsupportedUrlDefinitions)
                } else if t == MavlinkDefinitionPayloadType::Utf8Xml {
                    Err(HeaderError::UnsupportedXmlDefinitions)
                } else if spec_u32_from_le_bytes(data.subrange(56, 60)) != 1 {
                    Err(HeaderError::UnsupportedFormatVersion)
                } else {
                    let major = spec_u32_from_le_bytes(data.subrange(62, 66));
                    let flags = FormatFlags::from_bits(spec_u16_from_le_bytes(data.subrange(60, 62)));
                    if major == 1 {
                        Ok((layout_of(flags), MavlinkVersion::V1, 108))
                    } else if major == 2 {
                        Ok((layout_of(flags), MavlinkVersion::V2, 108))
                    } else {
                        Err(HeaderError::UnsupportedMavlinkVersion)
                    }
                }
            },
        }
    }
}

/// Sequential decoder over the bytes of one log file.
pub struct MavLogParser {
    header: FileHeader,
    data: Vec<u8>,
    pos: usize,
    layout: RecordLayout,
    version: MavlinkVersion,
    policy: ResyncPolicy,
}

impl MavLogParser {
    /// The cursor lies within the data.
    pub closed spec fn wf(&self) -> bool {
        self.pos <= self.data@.len()
    }

    /// The bytes not yet read.
    pub closed spec fn remaining(&self) -> Seq<u8> {
        self.data@.subrange(self.pos as int, self.data@.len() as int)
    }

    pub closed spec fn spec_layout(&self) -> RecordLayout {
        self.layout
    }

    pub closed spec fn spec_version(&self) -> MavlinkVersion {
        self.version
    }

    pub closed spec fn spec_policy(&self) -> ResyncPolicy {
        self.policy
    }

    pub closed spec fn spec_header(&self) -> FileHeader {
        self.header
    }

    /// `h` is the header that the first 108 bytes of `data` describe, as
    /// opening keeps it: no definition payload, so a size of 0.
    pub open spec fn header_read(h: FileHeader, data: Seq<u8>) -> bool {
        &&& h.uuid@ == data.subrange(0, 16)
        &&& h.timestamp_us == spec_u64_from_le_bytes(data.subrange(16, 24))
        &&& h.src_application_id@ == name_of(data.subrange(24, 56))
        &&& h.format_version == spec_u32_from_le_bytes(data.subrange(56, 60))
        &&& h.format_flags == FormatFlags::from_bits(spec_u16_from_le_bytes(data.subrange(60, 62)))
        &&& h.message_definition.version_major == spec_u32_from_le_bytes(data.subrange(62, 66))
        &&& h.message_definition.version_minor == spec_u32_from_le_bytes(data.subrange(66, 70))
        &&& h.message_definition.dialect@ == name_of(data.subrange(70, 102))
        &&& h.message_definition.payload_type == MavlinkDefinitionPayloadType::NoPayload
        &&& h.message_definition.size == 0
        &&& h.message_definition.payload is None
    }

    /// Reads and checks the header of a log file, in the order of `open_outcome`.
    fn read_header(data: &[u8]) -> (r: Result<(FileHeader, MavlinkVersion, RecordLayout), HeaderError>)
        ensures
            match open_outcome(data@) {
                Err(e) => r == Err::<(FileHeader, MavlinkVersion, RecordLayout), HeaderError>(e),
                Ok((layout, version, start)) => {
                    &&& r matches Ok((h, v, l))
                    &&& v == version && l == layout
                    &&& Self::header_read(h, data@)
                },
            },
    {
        if data.len() < FileHeader::MIN_SIZE {
            return Err(HeaderError::TooShort);
        }
        let header = match FileHeader::unpack_from(&data[0..108]) {
            Ok(h) => h,
            Err(e) => {
                assert(data@.subrange(0, 108).subrange(102, 104) =~= data@.subrange(102, 104));
                return Err(e);
            },
        };
        let ghost b = data@.subrange(0, 108);
        assert(b.subrange(102, 104) =~= data@.subrange(102, 104));
        assert(b.subrange(62, 108).subrange(40, 42) =~= data@.subrange(102, 104));
        assert(b.subrange(62, 108).subrange(42, 46) =~= data@.subrange(104, 108));
        assert(b.subrange(62, 108).subrange(0, 4) =~= data@.subrange(62, 66));
        assert(b.subrange(56, 60) =~= data@.subrange(56, 60));
        assert(b.subrange(60, 62) =~= data@.subrange(60, 62));
        let payload_type = header.message_definition.payload_type;
        if payload_type != MavlinkDefinitionPayloadType::NoPayload {
            let size = header.message_definition.size;
            if ((data.len() - FileHeader::MIN_SIZE) as u64) < size as u64 {
                return Err(HeaderError::DefinitionsTruncated);
            }
        }
        match payload_type {
            MavlinkDefinitionPayloadType::NoPayload => {},
            MavlinkDefinitionPayloadType::Utf8SpaceDelimitedUrlsForXMLFiles => {
                return Err(HeaderError::UnsupportedUrlDefinitions);
            },
            MavlinkDefinitionPayloadType::Utf8Xml => {
                return Err(HeaderError::UnsupportedXmlDefinitions);
            },
        }
        if header.format_version != FILE_FORMAT_VERSION {
            return Err(HeaderError::UnsupportedFormatVersion);
        }
        let version = match header.message_definition.version_major {
            1 => MavlinkVersion::V1,
            2 => MavlinkVersion::V2,
            _ => {
                return Err(HeaderError::UnsupportedMavlinkVersion);
            },
        };
        let layout = RecordLayout::from_flags(header.format_flags);
        let mut header = header;
        header.message_definition.size = 0;
        assert(b.subrange(62, 108).subrange(4, 8) =~= data@.subrange(66, 70));
        assert(b.subrange(62, 108).subrange(8, 40) =~= data@.subrange(70, 102));
        assert(b.subrange(16, 24) =~= data@.subrange(16, 24));
        assert(b.subrange(24, 56) =~= data@.subrange(24, 56));
        assert(b.subrange(0, 16) =~= data@.subrange(0, 16));
        Ok((header, version, layout))
    }

    /// Tells whether `data` opens as a log file, and if not, why: the test
    /// that a caller makes before `new` or `with_policy`.
    pub fn check_header(data: &[u8]) -> (r: Result<(), HeaderError>)
        ensures
            match open_outcome(data@) {
                Err(e) => r == Err::<(), HeaderError>(e),
                Ok(_) => r is Ok,
            },
    {
        match Self::read_header(data) {
            Ok(_) => Ok(()),
            Err(e) => Err(e),
        }
    }

    /// `p` is what opening `data` under `policy` gives.
    pub open spec fn opened(data: Seq<u8>, policy: ResyncPolicy, p: MavLogParser) -> bool {
        match open_outcome(data) {
            Err(_) => false,
            Ok((layout, version, start)) => {
                &&& p.wf()
                &&& p.remaining() == data.subrange(start as int, data.len() as int)
                &&& p.spec_layout() == layout
                &&& p.spec_version() == version
                &&& p.spec_policy() == policy
                &&& Self::header_read(p.spec_header(), data)
            },
        }
    }

    /// Opens the bytes of a log file with the lenient resync policy. The
    /// header must open (see `check_header`): a bad header is fatal.
    pub fn new(data: Vec<u8>) -> (p: MavLogParser)
        requires
            open_outcome(data@) is Ok,
        ensures
            Self::opened(data@, ResyncPolicy::Lenient, p),
    {
        Self::with_policy(data, ResyncPolicy::Lenient)
    }

    /// Opens the bytes of a log file: reads the header, then selects the
    /// record layout once from its flags. The header must open (see
    /// `check_header`): a bad header is fatal.
    pub fn with_policy(data: Vec<u8>, policy: ResyncPolicy) -> (p: MavLogParser)
        requires
            open_outcome(data@) is Ok,
        ensures
            Self::opened(data@, policy, p),
    {
        match Self::read_header(data.as_slice()) {
            Ok((header, version, layout)) => MavLogParser {
                header,
                data,
                pos: FileHeader::MIN_SIZE,
                layout,
                version,
                policy,
            },
            Err(_) => vstd::pervasive::unreached(),
        }
    }

    /// The record layout selected when the file was opened.
    pub fn layout(&self) -> (r: RecordLayout)
        ensures
            r == self.spec_layout(),
    {
        self.layout
    }

    /// The header read when the file was opened.
    pub fn header(&self) -> (r: &FileHeader)
        ensures
            *r == self.spec_header(),
    {
        &self.header
    }
}

impl MavLogParser {
    /// Reads the MAVLink frame that starts `off` bytes into the remaining data.
    fn frame_record(&mut self, off: usize, timestamp: Option<u64>) -> (r: Result<Option<LogEntry>, ReadError>)
        requires
            old(self).wf(),
            off <= old(self).remaining().len(),
        ensures
            final(self).wf(),
            final(self).data == old(self).data,
            final(self).header == old(self).header,
            final(self).layout == old(self).layout,
            final(self).version == old(self).version,
            final(self).policy == old(self).policy,
            step_taken(
                frame_step(old(self).remaining(), off as int, timestamp, old(self).version, old(self).policy),
                r,
                old(self).remaining(),
                final(self).remaining(),
            ),
    {
        let n = self.data.len();
        let start = self.pos + off;
        let ghost rest = self.data@.subrange(self.pos as int, n as int);
        assert(rest.subrange(off as int, rest.len() as int) =~= self.data@.subrange(start as int, n as int));
        if self.policy == ResyncPolicy::Strict && start < n && self.data[start] != self.version.marker() {
            assert(rest.subrange(0, rest.len() as int) =~= rest);
            return Err(ReadError::FrameStartMissing);
        }
        let (decoded, unread, buffered) = read_frame(&self.data[start..n], self.version);
        let used = (n - start) - unread - buffered;
        self.pos = start + used;
        assert(self.data@.subrange(self.pos as int, n as int) =~= rest.subrange((off + used) as int, rest.len() as int));
        match decoded {
            Some((h, m)) => Ok(
                Some(
                    LogEntry {
                        timestamp,
                        mav_header: Some(h),
                        mav_message: Some(m),
                        text: None,
                        raw: None,
                    },
                ),
            ),
            None => Err(ReadError::MavlinkDecode),
        }
    }

    /// Reads one record of a mixed layout.
    fn mixed_record(&mut self, timestamped: bool) -> (r: Result<Option<LogEntry>, ReadError>)
        requires
            old(self).wf(),
            old(self).remaining().len() > 0,
        ensures
            final(self).wf(),
            final(self).data == old(self).data,
            final(self).header == old(self).header,
            final(self).layout == old(self).layout,
            final(self).version == old(self).version,
            final(self).policy == old(self).policy,
            step_taken(
                mixed_step(old(self).remaining(), timestamped, old(self).version, old(self).policy),
                r,
                old(self).remaining(),
                final(self).remaining(),
            ),
    {
        let n = self.data.len();
        let p = self.pos;
        let ghost rest = self.data@.subrange(p as int, n as int);
        assert(rest.subrange(0, rest.len() as int) =~= rest);
        let head: usize = if timestamped { 11 } else { 3 };
        if n - p < head {
            return Err(ReadError::Truncated);
        }
        let tag = self.data[p];
        let timestamp = if timestamped {
            assert(self.data@.subrange(p + 1, p + 9) =~= rest.subrange(1, 9));
            Some(u64_from_le_bytes(&self.data[p + 1..p + 9]))
        } else {
            None
        };
        assert(self.data@.subrange(p + head - 2, p + head) =~= rest.subrange(head - 2, head as int));
        let len = u16_from_le_bytes(&self.data[p + head - 2..p + head]) as usize;
        if tag == 1 {
            return self.frame_record(head, timestamp);
        }
        if n - p - head < len {
            return Err(ReadError::Truncated);
        }
        let mut payload: Vec<u8> = Vec::new();
        append_bytes(&mut payload, &self.data[p + head..p + head + len]);
        assert(payload@ =~= rest.subrange(head as int, head + len));
        self.pos = p + head + len;
        assert(self.data@.subrange(self.pos as int, n as int) =~= rest.subrange(head + len, rest.len() as int));
        if tag == 2 {
            match utf8_string(payload) {
                Some(s) => Ok(
                    Some(LogEntry { timestamp, mav_header: None, mav_message: None, text: Some(s), raw: None }),
                ),
                None => Err(ReadError::InvalidUtf8),
            }
        } else {
            Ok(Some(LogEntry { timestamp, mav_header: None, mav_message: None, text: None, raw: Some(payload) }))
        }
    }

    /// Reads the next record. `Ok(None)` is the clean end: no byte of a new
    /// record remains. Truncation, invalid text and MAVLink decoding failures
    /// are errors.
    pub fn next(&mut self) -> (r: Result<Option<LogEntry>, ReadError>)
        requires
            old(self).wf(),
        ensures
            final(self).wf(),
            final(self).spec_layout() == old(self).spec_layout(),
            final(self).spec_version() == old(self).spec_version(),
            final(self).spec_policy() == old(self).spec_policy(),
            final(self).spec_header() == old(self).spec_header(),
            step_taken(
                next_step(
                    old(self).spec_layout(),
                    old(self).spec_version(),
                    old(self).spec_policy(),
                    old(self).remaining(),
                ),
                r,
                old(self).remaining(),
                final(self).remaining(),
            ),
    {
        let n = self.data.len();
        let p = self.pos;
        let ghost rest = self.data@.subrange(p as int, n as int);
        assert(rest.subrange(0, rest.len() as int) =~= rest);
        if p == n {
            return Ok(None);
        }
        match self.layout {
            RecordLayout::MavlinkOnly => self.frame_record(0, None),
            RecordLayout::TimestampedMavlinkOnly => {
                if n - p < 9 {
                    return Err(ReadError::Truncated);
                }
                if self.data[p + 8] == self.version.marker() {
                    assert(self.data@.subrange(p as int, p + 8) =~= rest.subrange(0, 8));
                    let timestamp = u64_from_le_bytes(&self.data[p..p + 8]);
                    self.frame_record(8, Some(timestamp))
                } else if self.policy == ResyncPolicy::Strict {
                    Err(ReadError::FrameStartMissing)
                } else {
                    self.frame_record(0, None)
                }
            },
            RecordLayout::Mixed => self.mixed_record(false),
            RecordLayout::TimestampedMixed => self.mixed_record(true),
        }
    }
}

} // verus!
