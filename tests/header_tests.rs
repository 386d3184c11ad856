use mavlog::header::{
    FileHeader, FormatFlags, HeaderError, MavlinkDefinitionPayloadType, MavlinkMessageDefinition,
};
use mavlog::parser::MavLogParser;
use uuid::Uuid;

#[test]
fn test_format_flags_unpack() {
    let packed_data: u16 = 0b11;
    let flags = FormatFlags::unpack(packed_data);
    assert!(flags.mavlink_only);
    assert!(flags.not_timestamped);

    let packed_data: u16 = 0b01;
    let flags = FormatFlags::unpack(packed_data);
    assert!(flags.mavlink_only);
    assert!(!flags.not_timestamped);

    let packed_data: u16 = 0b10;
    let flags = FormatFlags::unpack(packed_data);
    assert!(!flags.mavlink_only);
    assert!(flags.not_timestamped);

    let packed_data: u16 = 0b00;
    let flags = FormatFlags::unpack(packed_data);
    assert!(!flags.mavlink_only);
    assert!(!flags.not_timestamped);
}

#[test]
fn test_mavlink_definition_payload_type_try_from() {
    assert_eq!(
        MavlinkDefinitionPayloadType::try_from(0).unwrap(),
        MavlinkDefinitionPayloadType::NoPayload
    );
    assert_eq!(
        MavlinkDefinitionPayloadType::try_from(1).unwrap(),
        MavlinkDefinitionPayloadType::Utf8SpaceDelimitedUrlsForXMLFiles
    );
    assert_eq!(
        MavlinkDefinitionPayloadType::try_from(2).unwrap(),
        MavlinkDefinitionPayloadType::Utf8Xml
    );
    assert!(MavlinkDefinitionPayloadType::try_from(3).is_err());
}

#[test]
fn test_mavlink_message_definition_unpack() {
    let packed_data: [u8; 46] = [
        1, 0, 0, 0, // version_major
        2, 0, 0, 0, // version_minor
        b't', b'e', b's', b't', 0, 0, 0, 0, 0, 0, 0, 0, 0, 0, 0, 0, 0, 0, 0, 0, 0, 0, 0, 0, 0,
        0, 0, 0, 0, 0, 0, 0, // dialect
        0, 0, // payload_type
        0, 0, 0, 0, // size
    ];
    let definition = MavlinkMessageDefinition::unpack(&packed_data);
    assert_eq!(definition.version_major, 1);
    assert_eq!(definition.version_minor, 2);
    assert_eq!(definition.dialect, "test");
    assert_eq!(definition.payload_type, MavlinkDefinitionPayloadType::NoPayload);
    assert_eq!(definition.size, 0);
    assert!(definition.payload.is_none());

    let mut packed_data: [u8; 46] = [
        1, 0, 0, 2, // version_major
        2, 0, 0, 1, // version_minor
        b't', b'e', b's', b't', b' ', b'1', 0, 0, 0, 0, 0, 0, 0, 0, 0, 0, 0, 0, 0, 0, 0, 0, 0,
        0, 0, 0, 0, 0, 0, 0, 0, 0, // dialect
        1, 0, // payload_type
        0, 0, 0, 0, // size
    ];
    let urls_str: String = String::from("http://example.com http://example.2.com");
    let encoded_urls: &[u8] = urls_str.as_bytes();
    packed_data[42..46].copy_from_slice(&(encoded_urls.len() as u32).to_le_bytes());
    let mut definition = MavlinkMessageDefinition::unpack(&packed_data);
    assert_eq!(definition.version_major, 0x02000001);
    assert_eq!(definition.version_minor, 0x01000002);
    assert_eq!(definition.dialect, "test 1");
    assert_eq!(
        definition.payload_type,
        MavlinkDefinitionPayloadType::Utf8SpaceDelimitedUrlsForXMLFiles
    );
    assert_eq!(definition.size, encoded_urls.len() as u32);
    assert!(definition.payload.is_none());
    definition.unpack_payload(encoded_urls);
    assert_eq!(definition.payload, Some(encoded_urls.to_vec()));
}

#[test]
fn test_file_header_unpack() {
    let packed_data: [u8; 108] = [
        // file header
        0, 1, 2, 3, 4, 5, 6, 7, 8, 9, 10, 11, 12, 13, 14, 15, // uuid
        16, 0, 0, 0, 0, 0, 0, 17, // timestamp_us
        b'a', b'p', b'p', 0, 0, 0, 0, 0, 0, 0, 0, 0, 0, 0, 0, 0, 0, 0, 0, 0, 0, 0, 0, 0, 0, 0,
        0, 0, 0, 0, 0, 0, // src_application_id
        1, 0, 0, 2, // format_version
        3, 4, // format_flags
        // message_definition
        4, 0, 0, 5, // version_major
        6, 0, 0, 7, // version_minor
        b't', b'e', b's', b't', 0, 0, 0, 0, 0, 0, 0, 0, 0, 0, 0, 0, 0, 0, 0, 0, 0, 0, 0, 0, 0,
        0, 0, 0, 0, 0, 0, 0, // dialect
        2, 0, // payload_type
        10, 0, 0, 0, // size
    ];
    let header = FileHeader::unpack(&packed_data);
    assert_eq!(
        Uuid::from_bytes(header.uuid),
        Uuid::from_bytes([0, 1, 2, 3, 4, 5, 6, 7, 8, 9, 10, 11, 12, 13, 14, 15])
    );
    assert_eq!(header.timestamp_us, 0x1100000000000010);
    assert_eq!(header.src_application_id, "app");
    assert_eq!(header.format_version, 0x02000001);
    assert!(header.format_flags.mavlink_only);
    assert!(header.format_flags.not_timestamped);
    assert_eq!(header.message_definition.version_major, 0x05000004);
    assert_eq!(header.message_definition.version_minor, 0x07000006);
    assert_eq!(header.message_definition.dialect, "test");
    assert_eq!(
        header.message_definition.payload_type,
        MavlinkDefinitionPayloadType::Utf8Xml
    );
    assert_eq!(header.message_definition.size, 10);
    assert!(header.message_definition.payload.is_none());
}

#[test]
fn test_format_flags_pack() {
    let flags = FormatFlags {
        mavlink_only: false,
        not_timestamped: false,
    };
    assert_eq!(flags.pack(), [0, 0]);

    let flags = FormatFlags {
        mavlink_only: true,
        not_timestamped: false,
    };
    assert_eq!(flags.pack(), [1, 0]);

    let flags = FormatFlags {
        mavlink_only: false,
        not_timestamped: true,
    };
    assert_eq!(flags.pack(), [2, 0]);

    let flags = FormatFlags {
        mavlink_only: true,
        not_timestamped: true,
    };
    assert_eq!(flags.pack(), [3, 0]);
}

#[test]
fn test_mavlink_message_definition_pack() {
    let definition = MavlinkMessageDefinition {
        version_major: 2,
        version_minor: 0,
        dialect: String::from(MavlinkMessageDefinition::DEFAULT_DIALECT),
        payload_type: MavlinkDefinitionPayloadType::NoPayload,
        size: 0,
        payload: None,
    };
    let packed = definition.pack();
    assert_eq!(packed.len(), 46);
    assert_eq!(&packed[0..4], &[2, 0, 0, 0]);
    assert_eq!(&packed[4..8], &[0, 0, 0, 0]);
    assert_eq!(
        String::from_utf8(packed[8..40].to_vec()).unwrap(),
        "common\0\0\0\0\0\0\0\0\0\0\0\0\0\0\0\0\0\0\0\0\0\0\0\0\0\0"
    );
    assert_eq!(&packed[40..42], &[0, 0]);
    assert_eq!(&packed[42..46], &[0, 0, 0, 0]);

    let definition = MavlinkMessageDefinition {
        version_major: 0x01020304,
        version_minor: 0x04050607,
        dialect: String::from(MavlinkMessageDefinition::DEFAULT_DIALECT),
        payload_type: MavlinkDefinitionPayloadType::Utf8Xml,
        size: 5,
        payload: Some(b"hello".to_vec()),
    };
    let packed = definition.pack();
    assert_eq!(packed.len(), 51);
    assert_eq!(&packed[0..4], &[4, 3, 2, 1]);
    assert_eq!(&packed[4..8], &[7, 6, 5, 4]);
    assert_eq!(
        String::from_utf8(packed[8..40].to_vec()).unwrap(),
        "common\0\0\0\0\0\0\0\0\0\0\0\0\0\0\0\0\0\0\0\0\0\0\0\0\0\0"
    );
    assert_eq!(&packed[40..42], &[2, 0]);
    assert_eq!(&packed[42..46], &[5, 0, 0, 0]);
    assert_eq!(&packed[46..51], b"hello");
}

#[test]
fn test_file_header_pack() {
    let format_flags = FormatFlags {
        mavlink_only: true,
        not_timestamped: false,
    };
    let message_definition = MavlinkMessageDefinition {
        version_major: 2,
        version_minor: 0,
        dialect: String::from(MavlinkMessageDefinition::DEFAULT_DIALECT),
        payload_type: MavlinkDefinitionPayloadType::Utf8Xml,
        size: 5,
        payload: Some(b"hello".to_vec()),
    };
    let header = FileHeader::new(
        format_flags,
        message_definition,
        *Uuid::new_v4().as_bytes(),
        1_700_000_000_000_000,
    );
    let packed = header.pack();
    assert_eq!(packed.len(), 113);
    assert_eq!(&packed[16..24], &header.timestamp_us.to_le_bytes()); // timestamp
    assert_eq!(
        String::from_utf8(packed[24..56].to_vec()).unwrap(),
        "mavlink_logger\0\0\0\0\0\0\0\0\0\0\0\0\0\0\0\0\0\0"
    ); // src application id
    assert_eq!(&packed[56..60], &[1, 0, 0, 0]); // file version
    assert_eq!(&packed[60..62], &[1, 0]); // format flags
    assert_eq!(&packed[62..113], &header.message_definition.pack()[..]);
}

#[test]
fn format_flags_keep_only_low_two_bits() {
    for x in [0u16, 1, 2, 3, 4, 5, 0xFFFC, 0xFFFF, 0x8002] {
        let flags = FormatFlags::unpack(x);
        let packed = u16::from_le_bytes(flags.pack());
        assert_eq!(packed, x % 4);
    }
}

fn sample_header(app: &str, dialect: &str) -> FileHeader {
    FileHeader {
        uuid: [9, 8, 7, 6, 5, 4, 3, 2, 1, 0, 11, 12, 13, 14, 15, 16],
        timestamp_us: 0x0123_4567_89AB_CDEF,
        src_application_id: String::from(app),
        format_version: 1,
        format_flags: FormatFlags {
            mavlink_only: false,
            not_timestamped: true,
        },
        message_definition: MavlinkMessageDefinition {
            version_major: 2,
            version_minor: 3,
            dialect: String::from(dialect),
            payload_type: MavlinkDefinitionPayloadType::NoPayload,
            size: 0,
            payload: None,
        },
    }
}

#[test]
fn header_pack_unpack_round_trip() {
    let header = sample_header("recorder", "ardupilotmega");
    let packed = header.pack();
    assert_eq!(packed.len(), 108);
    let prefix: [u8; 108] = packed[0..108].try_into().unwrap();
    let back = FileHeader::unpack(&prefix);
    assert_eq!(back.uuid, header.uuid);
    assert_eq!(back.timestamp_us, header.timestamp_us);
    assert_eq!(back.src_application_id, "recorder");
    assert_eq!(back.format_version, 1);
    assert_eq!(back.format_flags, header.format_flags);
    assert_eq!(back.message_definition.version_major, 2);
    assert_eq!(back.message_definition.version_minor, 3);
    assert_eq!(back.message_definition.dialect, "ardupilotmega");
    assert_eq!(
        back.message_definition.payload_type,
        MavlinkDefinitionPayloadType::NoPayload
    );
    assert_eq!(back.message_definition.size, 0);
}

#[test]
fn names_of_exactly_thirty_two_bytes_round_trip() {
    let app = "a".repeat(32);
    let dialect = "d".repeat(32);
    let header = sample_header(&app, &dialect);
    let packed = header.pack();
    let prefix: [u8; 108] = packed[0..108].try_into().unwrap();
    let back = FileHeader::unpack(&prefix);
    assert_eq!(back.src_application_id, app);
    assert_eq!(back.message_definition.dialect, dialect);
}

#[test]
fn name_field_with_invalid_utf8_reads_empty() {
    let mut packed = sample_header("app", "common").pack();
    packed[24] = 0xFF;
    packed[25] = 0xFE;
    let prefix: [u8; 108] = packed[0..108].try_into().unwrap();
    let back = FileHeader::unpack(&prefix);
    assert_eq!(back.src_application_id, "");
    assert_eq!(back.message_definition.dialect, "common");
}

#[test]
fn definition_with_unknown_payload_type_is_refused() {
    let mut packed = sample_header("app", "common").pack();
    packed[102] = 3;
    let code = u16::from_le_bytes([packed[102], packed[103]]);
    assert!(MavlinkDefinitionPayloadType::try_from(code).is_err());
    assert!(matches!(
        MavLogParser::check_header(&packed),
        Err(HeaderError::InvalidPayloadType)
    ));
}

#[test]
fn default_definition_and_flags() {
    let d = MavlinkMessageDefinition::default();
    assert_eq!(d.version_major, 2);
    assert_eq!(d.version_minor, 0);
    assert_eq!(d.dialect, "common");
    assert_eq!(d.payload_type, MavlinkDefinitionPayloadType::NoPayload);
    assert_eq!(d.size, 0);
    assert!(d.payload.is_none());
    let f = FormatFlags::default();
    assert!(!f.mavlink_only && !f.not_timestamped);
}

#[test]
fn payload_type_codes() {
    assert_eq!(MavlinkDefinitionPayloadType::NoPayload.code(), 0);
    assert_eq!(
        MavlinkDefinitionPayloadType::Utf8SpaceDelimitedUrlsForXMLFiles.code(),
        1
    );
    assert_eq!(MavlinkDefinitionPayloadType::Utf8Xml.code(), 2);
}
