use eventstore_tcp::auth::UsernamePassword;
use eventstore_tcp::codec::PackageCodec;
use eventstore_tcp::errors::DecodeError;
use eventstore_tcp::message::Liveness;
use eventstore_tcp::message::LivenessCatalog;
use eventstore_tcp::message::RawCatalog;
use eventstore_tcp::message::RawMessage;
use eventstore_tcp::package::CorrelationId;
use eventstore_tcp::package::Package;
use eventstore_tcp::write_events::outcome_from_record;
use eventstore_tcp::write_events::MalformedResponse;
use eventstore_tcp::write_events::OperationResult;
use eventstore_tcp::write_events::WriteEventsCompleted;
use eventstore_tcp::write_events::WriteEventsCompletedRecord;
use eventstore_tcp::write_events::WriteEventsFailure;
use uuid::Uuid;

fn from_hex(text: &str) -> Vec<u8> {
    let digits: Vec<u8> = text
        .chars()
        .map(|c| c.to_digit(16).unwrap() as u8)
        .collect();
    digits.chunks(2).map(|pair| pair[0] * 16 + pair[1]).collect()
}

fn correlation(text: &str) -> CorrelationId {
    CorrelationId { bytes: *Uuid::parse_str(text).unwrap().as_bytes() }
}

/// Messages of the two kinds that the recorded frames hold.
#[derive(Debug, Clone, PartialEq)]
enum Message {
    Ping,
    WriteEventsCompleted(Result<WriteEventsCompleted, WriteEventsFailure>),
}

fn read_varint(bytes: &[u8], pos: &mut usize) -> Option<u64> {
    let mut value: u64 = 0;
    let mut shift: u32 = 0;
    loop {
        let byte = *bytes.get(*pos)?;
        *pos += 1;
        if shift < 64 {
            value |= ((byte & 0x7f) as u64) << shift;
        }
        if byte & 0x80 == 0 {
            return Some(value);
        }
        shift += 7;
        if shift > 70 {
            return None;
        }
    }
}

fn write_varint(mut value: u64, out: &mut Vec<u8>) {
    while value >= 0x80 {
        out.push((value as u8 & 0x7f) | 0x80);
        value >>= 7;
    }
    out.push(value as u8);
}

fn code_number(code: OperationResult) -> u64 {
    match code {
        OperationResult::Success => 0,
        OperationResult::PrepareTimeout => 1,
        OperationResult::CommitTimeout => 2,
        OperationResult::ForwardTimeout => 3,
        OperationResult::WrongExpectedVersion => 4,
        OperationResult::StreamDeleted => 5,
        OperationResult::InvalidTransaction => 6,
        OperationResult::AccessDenied => 7,
    }
}

fn number_code(n: u64) -> Option<OperationResult> {
    Some(match n {
        0 => OperationResult::Success,
        1 => OperationResult::PrepareTimeout,
        2 => OperationResult::CommitTimeout,
        3 => OperationResult::ForwardTimeout,
        4 => OperationResult::WrongExpectedVersion,
        5 => OperationResult::StreamDeleted,
        6 => OperationResult::InvalidTransaction,
        7 => OperationResult::AccessDenied,
        _ => return None,
    })
}

fn read_record(body: &[u8]) -> Option<WriteEventsCompletedRecord> {
    let mut record = WriteEventsCompletedRecord {
        result: None,
        first_event_number: 0,
        last_event_number: 0,
        prepare_position: None,
        commit_position: None,
    };
    let mut pos: usize = 0;
    while pos < body.len() {
        let key = read_varint(body, &mut pos)?;
        if key & 7 != 0 {
            return None;
        }
        let value = read_varint(body, &mut pos)?;
        match key >> 3 {
            1 => record.result = Some(number_code(value)?),
            3 => record.first_event_number = value as i32,
            4 => record.last_event_number = value as i32,
            5 => record.prepare_position = Some(value as i64),
            6 => record.commit_position = Some(value as i64),
            _ => return None,
        }
    }
    Some(record)
}

fn write_record(record: &WriteEventsCompletedRecord, out: &mut Vec<u8>) {
    if let Some(code) = record.result {
        out.push(0x08);
        write_varint(code_number(code), out);
    }
    out.push(0x18);
    write_varint(record.first_event_number as i64 as u64, out);
    out.push(0x20);
    write_varint(record.last_event_number as i64 as u64, out);
    if let Some(position) = record.prepare_position {
        out.push(0x28);
        write_varint(position as u64, out);
    }
    if let Some(position) = record.commit_position {
        out.push(0x30);
        write_varint(position as u64, out);
    }
}

fn interpret(raw: &RawMessage) -> Result<Message, DecodeError> {
    match raw.discriminator {
        0x03 => Ok(Message::Ping),
        0x83 => {
            let record = read_record(&raw.body).unwrap();
            match outcome_from_record(&record) {
                Ok(outcome) => Ok(Message::WriteEventsCompleted(outcome)),
                Err(e) => panic!("malformed response: {:?}", e),
            }
        }
        other => Err(DecodeError::UnsupportedDiscriminator(other)),
    }
}

fn written(message: &Message) -> RawMessage {
    let mut body = Vec::new();
    let discriminator: u8 = match message {
        Message::Ping => 0x03,
        Message::WriteEventsCompleted(Ok(completed)) => {
            write_record(&completed.as_message_write(), &mut body);
            0x83
        }
        Message::WriteEventsCompleted(Err(failure)) => {
            write_record(&failure.as_message_write(), &mut body);
            0x83
        }
    };
    RawMessage { discriminator, body }
}

/// The frame codec over raw bodies, with the bodies interpreted above it.
struct Typed;

impl Typed {
    fn decode(&self, buf: &mut Vec<u8>) -> Result<Option<Package<Message>>, DecodeError> {
        match PackageCodec::new(RawCatalog).decode(buf)? {
            None => Ok(None),
            Some(package) => Ok(Some(Package {
                correlation_id: package.correlation_id,
                authentication: package.authentication,
                message: interpret(&package.message)?,
            })),
        }
    }

    fn encode(&self, package: Package<Message>, buf: &mut Vec<u8>) {
        let raw = Package {
            correlation_id: package.correlation_id,
            authentication: package.authentication,
            message: written(&package.message),
        };
        PackageCodec::new(RawCatalog).encode(raw, buf).unwrap();
    }
}

fn liveness(buf: &mut Vec<u8>) -> Result<Option<Package<Liveness>>, DecodeError> {
    PackageCodec::new(LivenessCatalog).decode(buf)
}

fn typed(buf: &mut Vec<u8>) -> Result<Option<Package<Message>>, DecodeError> {
    Typed.decode(buf)
}

fn decode_one<M>(
    decode: fn(&mut Vec<u8>) -> Result<Option<Package<M>>, DecodeError>,
    buf: &mut Vec<u8>,
) -> Option<Package<M>> {
    match decode(buf) {
        Ok(item) => item,
        Err(e) => panic!("decoding failed: {:?}", e),
    }
}

fn test_decoding<M: PartialEq>(
    input: Vec<u8>,
    decode: fn(&mut Vec<u8>) -> Result<Option<Package<M>>, DecodeError>,
    expected: Package<M>,
) {
    // decode whole buffer
    {
        let mut buf = input.clone();
        let item = decode_one(decode, &mut buf).unwrap();
        assert!(item == expected);
        assert_eq!(buf.len(), 0, "decoding correctly sized buffer left bytes");
    }

    // decoding partial buffer consumes no bytes
    for len in 1..(input.len() - 1) {
        let mut part = input.clone();
        part.truncate(len);

        let mut buf = part;
        assert!(decode_one(decode, &mut buf).is_none());
        assert_eq!(buf.len(), len, "decoding partial buffer consumed bytes");
    }

    // decoding a too long buffer consumes no extra bytes
    {
        let mut input = input.clone();
        let len = input.len();
        input.extend(vec![0u8; len]);
        let mut buf = input;
        let item = decode_one(decode, &mut buf).unwrap();
        assert!(item == expected);
        assert_eq!(buf.len(), len, "decoding oversized buffer overused bytes");
    }
}

fn test_decoding_hex<M: PartialEq>(
    input: &str,
    decode: fn(&mut Vec<u8>) -> Result<Option<Package<M>>, DecodeError>,
    expected: Package<M>,
) {
    test_decoding(from_hex(input), decode, expected);
}

fn test_encoding_hex(input: &str, expected: Package<Message>) {
    let mut buf = Vec::new();
    Typed.encode(expected, &mut buf);
    assert_eq!(buf.as_slice(), from_hex(input).as_slice(), "encoding did not yield same");
}

fn test_liveness_encoding_hex(input: &str, expected: Package<Liveness>) {
    let mut buf = Vec::new();
    PackageCodec::new(LivenessCatalog).encode(expected, &mut buf).unwrap();
    assert_eq!(buf.as_slice(), from_hex(input).as_slice(), "encoding did not yield same");
}

fn completed_30_40() -> Message {
    Message::WriteEventsCompleted(Ok(WriteEventsCompleted {
        event_numbers: 30..40,
        prepare_position: Some(181349124),
        commit_position: Some(181349124),
    }))
}

#[test]
fn decode_ping() {
    test_decoding_hex(
        "1200000003007b50a1b034b9224e8f9d708c394fab2d",
        typed,
        Package {
            authentication: None,
            correlation_id: correlation("7b50a1b0-34b9-224e-8f9d-708c394fab2d"),
            message: Message::Ping,
        },
    );
}

#[test]
fn decode_ping_with_junk() {
    test_decoding_hex(
        "1300000003007b50a1b034b9224e8f9d708c394fab2d00",
        typed,
        Package {
            authentication: None,
            correlation_id: correlation("7b50a1b0-34b9-224e-8f9d-708c394fab2d"),
            message: Message::Ping,
        },
    );
}

#[test]
fn encode_ping() {
    test_encoding_hex(
        "1200000003007b50a1b034b9224e8f9d708c394fab2d",
        Package {
            authentication: None,
            correlation_id: correlation("7b50a1b0-34b9-224e-8f9d-708c394fab2d"),
            message: Message::Ping,
        },
    );
}

#[test]
fn decode_unknown_discriminator() {
    let mut buf = from_hex("12000000ff007b50a1b034b9224e8f9d708c394fab2d");
    match PackageCodec::new(LivenessCatalog).decode(&mut buf) {
        Err(DecodeError::UnsupportedDiscriminator(0xff)) => { /* good */ }
        Err(x) => panic!("unexpected errorkind: {:?}", x),
        Ok(_) => panic!("unexpected success"),
    }
    assert_eq!(buf.len(), 0);
}

#[test]
fn decode_write_events_completed() {
    let input = "2200000083009b59d8734e9fd84eb8a421f2666a3aa40800181e20272884d6bc563084d6bc56";
    test_decoding_hex(
        input,
        typed,
        Package {
            authentication: None,
            correlation_id: correlation("9b59d873-4e9f-d84e-b8a4-21f2666a3aa4"),
            message: completed_30_40(),
        },
    );
}

#[test]
fn encode_write_events_completed() {
    test_encoding_hex(
        "2200000083009b59d8734e9fd84eb8a421f2666a3aa40800181e20272884d6bc563084d6bc56",
        Package {
            authentication: None,
            correlation_id: correlation("9b59d873-4e9f-d84e-b8a4-21f2666a3aa4"),
            message: completed_30_40(),
        },
    );
}

#[test]
fn liveness_catalog_decodes_ping() {
    test_decoding_hex(
        "1200000003007b50a1b034b9224e8f9d708c394fab2d",
        liveness,
        Package {
            authentication: None,
            correlation_id: correlation("7b50a1b0-34b9-224e-8f9d-708c394fab2d"),
            message: Liveness::Ping,
        },
    );
}

#[test]
fn liveness_catalog_encodes_ping() {
    test_liveness_encoding_hex(
        "1200000003007b50a1b034b9224e8f9d708c394fab2d",
        Package {
            authentication: None,
            correlation_id: correlation("7b50a1b0-34b9-224e-8f9d-708c394fab2d"),
            message: Liveness::Ping,
        },
    );
}

#[test]
fn raw_catalog_carries_any_body() {
    let codec = PackageCodec::new(RawCatalog);
    let mut buf = from_hex("15000000ff007b50a1b034b9224e8f9d708c394fab2d010203");
    buf.push(0x99);
    let package = match codec.decode(&mut buf) {
        Ok(Some(package)) => package,
        _ => panic!("a whole frame was there"),
    };
    assert_eq!(package.message, RawMessage { discriminator: 0xff, body: vec![1, 2, 3] });
    assert_eq!(buf, vec![0x99]);
    let mut out = Vec::new();
    codec.encode(package, &mut out).unwrap();
    assert_eq!(out, from_hex("15000000ff007b50a1b034b9224e8f9d708c394fab2d010203"));
}

#[test]
fn liveness_catalog_refuses_other_discriminators() {
    let mut buf = from_hex("1200000083007b50a1b034b9224e8f9d708c394fab2d");
    let r = PackageCodec::new(LivenessCatalog).decode(&mut buf);
    assert!(matches!(r, Err(DecodeError::UnsupportedDiscriminator(0x83))));
}

fn authenticated_ping() -> Package<Liveness> {
    Package {
        authentication: Some(
            UsernamePassword::new("admin".to_string(), "changeit".to_string()).unwrap(),
        ),
        correlation_id: correlation("7b50a1b0-34b9-224e-8f9d-708c394fab2d"),
        message: Liveness::Ping,
    }
}

const AUTHENTICATED_PING: &str =
    "2100000003017b50a1b034b9224e8f9d708c394fab2d0561646d696e086368616e67656974";

#[test]
fn encode_with_credentials_sets_flag_and_length() {
    test_liveness_encoding_hex(AUTHENTICATED_PING, authenticated_ping());
}

#[test]
fn decode_with_credentials_round_trips() {
    test_decoding_hex(AUTHENTICATED_PING, liveness, authenticated_ping());
}

#[test]
fn encode_appends_to_what_the_sink_holds() {
    let mut buf = vec![0xaa, 0xbb];
    PackageCodec::new(LivenessCatalog).encode(authenticated_ping(), &mut buf).unwrap();
    let mut expected = vec![0xaa, 0xbb];
    expected.extend(from_hex(AUTHENTICATED_PING));
    assert_eq!(buf, expected);
}

#[test]
fn round_trip_of_a_failure_message() {
    let package = Package {
        authentication: Some(UsernamePassword::new("u".to_string(), "".to_string()).unwrap()),
        correlation_id: correlation("9b59d873-4e9f-d84e-b8a4-21f2666a3aa4"),
        message: Message::WriteEventsCompleted(Err(WriteEventsFailure::WrongExpectedVersion)),
    };
    let mut buf = Vec::new();
    Typed.encode(package.clone(), &mut buf);
    let back = decode_one(typed, &mut buf).unwrap();
    assert!(back == package);
    assert!(buf.is_empty());
}

#[test]
fn over_long_buffer_keeps_the_next_frame() {
    let codec = PackageCodec::new(LivenessCatalog);
    let mut buf = from_hex(AUTHENTICATED_PING);
    buf.extend(from_hex("1200000003007b50a1b034b9224e8f9d708c394fab2d"));
    let first = decode_one(liveness, &mut buf).unwrap();
    assert!(first == authenticated_ping());
    assert_eq!(buf, from_hex("1200000003007b50a1b034b9224e8f9d708c394fab2d"));
    let second = decode_one(liveness, &mut buf).unwrap();
    assert!(second.authentication.is_none());
    assert!(buf.is_empty());
    assert!(decode_one(liveness, &mut buf).is_none());
}

#[test]
fn unknown_flag_bits_are_refused_and_the_frame_dropped() {
    let codec = PackageCodec::new(LivenessCatalog);
    let mut buf = from_hex("1200000003027b50a1b034b9224e8f9d708c394fab2d");
    buf.extend(from_hex("1200000003007b50a1b034b9224e8f9d708c394fab2d"));
    assert!(matches!(codec.decode(&mut buf), Err(DecodeError::InvalidFlags(0x02))));
    assert_eq!(buf, from_hex("1200000003007b50a1b034b9224e8f9d708c394fab2d"));
    assert!(decode_one(liveness, &mut buf).is_some());

    let mut buf = from_hex("1200000003ff7b50a1b034b9224e8f9d708c394fab2d");
    assert!(matches!(codec.decode(&mut buf), Err(DecodeError::InvalidFlags(0xff))));
}

#[test]
fn length_below_the_header_is_an_error_and_consumes_nothing() {
    let codec = PackageCodec::new(LivenessCatalog);
    let input = from_hex("1100000003007b50a1b034b9224e8f9d708c394fab2d");
    let mut buf = input.clone();
    assert!(matches!(codec.decode(&mut buf), Err(DecodeError::FrameTooShort(17))));
    assert_eq!(buf, input);

    let mut buf = from_hex("0000000003007b50a1b034b9224e8f9d708c394fab2d");
    assert!(matches!(codec.decode(&mut buf), Err(DecodeError::FrameTooShort(0))));
}

#[test]
fn short_buffers_are_incomplete_whatever_they_hold() {
    let codec = PackageCodec::new(LivenessCatalog);
    let mut empty: Vec<u8> = Vec::new();
    assert!(decode_one(liveness, &mut empty).is_none());
    // 21 bytes with a length prefix that is too small: not looked at yet
    let mut buf = vec![0u8; 21];
    assert!(decode_one(liveness, &mut buf).is_none());
    assert_eq!(buf.len(), 21);
    // the prefix is read little-endian: 0x0100 bytes are announced, not 1
    let mut buf = from_hex("0001000003007b50a1b034b9224e8f9d708c394fab2d");
    assert!(decode_one(liveness, &mut buf).is_none());
    assert_eq!(buf.len(), 22);
}

#[test]
fn credentials_that_are_not_utf8_are_refused() {
    let codec = PackageCodec::new(LivenessCatalog);
    // username of one byte, 0xff
    let mut buf = from_hex("1500000003017b50a1b034b9224e8f9d708c394fab2d01ff00");
    assert!(matches!(codec.decode(&mut buf), Err(DecodeError::InvalidEncoding)));
    assert!(buf.is_empty());
}

#[test]
fn credentials_that_run_past_the_frame_are_refused() {
    let codec = PackageCodec::new(LivenessCatalog);
    // flag set, no credential block at all
    let mut buf = from_hex("1200000003017b50a1b034b9224e8f9d708c394fab2d");
    assert!(matches!(codec.decode(&mut buf), Err(DecodeError::Truncated)));
    // username announces five bytes, two are there
    let mut buf = from_hex("1500000003017b50a1b034b9224e8f9d708c394fab2d056162");
    assert!(matches!(codec.decode(&mut buf), Err(DecodeError::Truncated)));
    // username complete, password length missing
    let mut buf = from_hex("1400000003017b50a1b034b9224e8f9d708c394fab2d0161");
    assert!(matches!(codec.decode(&mut buf), Err(DecodeError::Truncated)));
}

#[test]
fn record_without_result_code_is_reported() {
    let codec = PackageCodec::new(RawCatalog);
    // write-events answer without a result code
    let mut buf = from_hex("1600000083009b59d8734e9fd84eb8a421f2666a3aa4181e2027");
    let package = match codec.decode(&mut buf) {
        Ok(Some(package)) => package,
        _ => panic!("a whole frame was there"),
    };
    let record = read_record(&package.message.body).unwrap();
    assert_eq!(record.first_event_number, 30);
    assert_eq!(outcome_from_record(&record), Err(MalformedResponse::MissingResult));
}
