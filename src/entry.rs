//! Records as the codec hands them out and takes them in.
use mavlink::ardupilotmega::MavMessage;
use vstd::prelude::*;

verus! {

#[verifier::external_type_specification]
#[verifier::external_body]
/// MAVLink message of the ardupilotmega dialect (which includes the common
/// set), carried through the codec unopened.
pub struct ExMavMessage(mavlink::ardupilotmega::MavMessage);

/// MAVLink wire version of every frame in a file.
#[derive(Debug, Clone, Copy, PartialEq, Eq, Structural)]
pub enum MavlinkVersion {
    V1,
    V2,
}

impl MavlinkVersion {
    /// The major version number: 1 or 2.
    pub open spec fn number(self) -> u8 {
        match self {
            MavlinkVersion::V1 => 1,
            MavlinkVersion::V2 => 2,
        }
    }

    /// The start-of-frame marker of this wire version.
    pub open spec fn start_marker(self) -> u8 {
        match self {
            MavlinkVersion::V1 => 0xFE,
            MavlinkVersion::V2 => 0xFD,
        }
    }

    /// The start-of-frame marker of this wire version.
    pub fn marker(&self) -> (r: u8)
        ensures
            r == self.start_marker(),
    {
        match self {
            MavlinkVersion::V1 => 0xFE,
            MavlinkVersion::V2 => 0xFD,
        }
    }
}

/// Sender metadata of a MAVLink frame.
#[derive(Debug, Clone, Copy, PartialEq, Eq, Structural)]
pub struct FrameHeader {
    pub system_id: u8,
    pub component_id: u8,
    pub sequence: u8,
}

/// A MAVLink message with its sender metadata and wire version.
pub struct MavFrame {
    pub header: FrameHeader,
    pub msg: MavMessage,
    pub protocol_version: MavlinkVersion,
}

/// Kind of a record in a mixed file, stored as its tag byte.
#[derive(Debug, Clone, Copy, PartialEq, Eq, Structural)]
pub enum EntryType {
    Raw,
    Mavlink,
    Utf8Text,
}

/// The tag byte of an entry type.
pub open spec fn tag_of(t: EntryType) -> u8 {
    match t {
        EntryType::Raw => 0,
        EntryType::Mavlink => 1,
        EntryType::Utf8Text => 2,
    }
}

/// The entry type a tag byte stands for; unknown tags are read as raw.
pub open spec fn entry_type_of(tag: u8) -> EntryType {
    if tag == 1 {
        EntryType::Mavlink
    } else if tag == 2 {
        EntryType::Utf8Text
    } else {
        EntryType::Raw
    }
}

impl EntryType {
    /// The entry type of a tag byte; any unknown value is read as raw.
    pub fn from_tag(tag: u8) -> (r: EntryType)
        ensures
            r == entry_type_of(tag),
    {
        match tag {
            1 => EntryType::Mavlink,
            2 => EntryType::Utf8Text,
            _ => EntryType::Raw,
        }
    }

    /// The tag byte of this entry type.
    pub fn tag(&self) -> (r: u8)
        ensures
            r == tag_of(*self),
    {
        match self {
            EntryType::Raw => 0,
            EntryType::Mavlink => 1,
            EntryType::Utf8Text => 2,
        }
    }
}

/// One decoded record. Exactly one of `mav_message`, `text` and `raw` is
/// present, and `mav_header` goes with `mav_message`.
pub struct LogEntry {
    pub timestamp: Option<u64>,
    pub mav_header: Option<FrameHeader>,
    pub mav_message: Option<MavMessage>,
    pub text: Option<String>,
    pub raw: Option<Vec<u8>>,
}

impl Default for LogEntry {
    /// An entry with every field absent.
    fn default() -> (r: Self)
        ensures
            r.timestamp is None,
            r.mav_header is None,
            r.mav_message is None,
            r.text is None,
            r.raw is None,
    {
        LogEntry { timestamp: None, mav_header: None, mav_message: None, text: None, raw: None }
    }
}

/// The content of a record, as the codec models it.
pub enum RecordBody {
    Raw(Seq<u8>),
    Text(Seq<char>),
    Mavlink(FrameHeader),
}

/// `e` holds exactly the content `body`.
pub open spec fn entry_has_body(e: LogEntry, body: RecordBody) -> bool {
    match body {
        RecordBody::Raw(b) => {
            &&& e.raw matches Some(v) && v@ == b
            &&& e.text is None && e.mav_header is None && e.mav_message is None
        },
        RecordBody::Text(t) => {
            &&& e.text matches Some(s) && s@ == t
            &&& e.raw is None && e.mav_header is None && e.mav_message is None
        },
        RecordBody::Mavlink(h) => {
            &&& e.mav_header == Some(h) && e.mav_message is Some
            &&& e.text is None && e.raw is None
        },
    }
}

} // verus!
