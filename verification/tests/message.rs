use slimbus::connection::{ReadStep, SocketReader};
use slimbus::message::header::MAX_MESSAGE_SIZE;
use slimbus::message::{Builder, EndianSig, Flags, Header, Message, SerialCounter, Type};
use slimbus::{Error, ErrorKind};

const SIGNAL: [u8; 144] = [
    0x6c, 0x04, 0x01, 0x01, 0x28, 0x00, 0x00, 0x00, 0x07, 0x00, 0x00, 0x00, 0x56, 0x00, 0x00, 0x00,
    0x01, 0x01, 0x6f, 0x00, 0x0d, 0x00, 0x00, 0x00, 0x2f, 0x73, 0x65, 0x74, 0x74, 0x69, 0x6e, 0x67,
    0x73, 0x2f, 0x61, 0x70, 0x70, 0x00, 0x00, 0x00, 0x02, 0x01, 0x73, 0x00, 0x0d, 0x00, 0x00, 0x00,
    0x6f, 0x72, 0x67, 0x2e, 0x65, 0x78, 0x2e, 0x43, 0x6f, 0x6e, 0x66, 0x69, 0x67, 0x00, 0x00, 0x00,
    0x03, 0x01, 0x73, 0x00, 0x0e, 0x00, 0x00, 0x00, 0x53, 0x65, 0x74, 0x74, 0x69, 0x6e, 0x67, 0x43,
    0x68, 0x61, 0x6e, 0x67, 0x65, 0x64, 0x00, 0x00, 0x07, 0x01, 0x73, 0x00, 0x05, 0x00, 0x00, 0x00,
    0x3a, 0x31, 0x2e, 0x34, 0x32, 0x00, 0x00, 0x00, 0x00, 0x01, 0x02, 0x03, 0x04, 0x05, 0x06, 0x07,
    0x08, 0x09, 0x0a, 0x0b, 0x0c, 0x0d, 0x0e, 0x0f, 0x10, 0x11, 0x12, 0x13, 0x14, 0x15, 0x16, 0x17,
    0x18, 0x19, 0x1a, 0x1b, 0x1c, 0x1d, 0x1e, 0x1f, 0x20, 0x21, 0x22, 0x23, 0x24, 0x25, 0x26, 0x27,
];

fn hello(serials: &mut SerialCounter) -> Message {
    Message::method("/org/freedesktop/DBus", "Hello", serials)
        .unwrap()
        .interface("org.freedesktop.DBus")
        .unwrap()
        .destination("org.freedesktop.DBus")
        .unwrap()
        .endian(EndianSig::Little)
        .build_raw_body(&[], "", vec![])
        .unwrap()
}

fn read_all(reader: &mut SocketReader, mut stream: &[u8], chunk: usize) -> Message {
    loop {
        match reader.read_socket().unwrap() {
            ReadStep::Message(message) => return message,
            ReadStep::Recv(n) => {
                assert!(n > 0);
                let take = n.min(chunk).min(stream.len());
                assert!(take > 0, "the reader asks for bytes that the stream lacks");
                reader.received(&stream[..take], &[]).unwrap();
                stream = &stream[take..];
            }
        }
    }
}

#[test]
fn hello_round_trip() {
    let mut serials = SerialCounter::new();
    let message = hello(&mut serials);
    let header = message.header();
    assert_eq!(message.primary_header().body_len(), 0);
    assert_eq!(message.primary_header().serial_num(), 1);
    assert_eq!(message.message_type(), Type::MethodCall);
    assert_eq!(header.signature(), None);
    assert_eq!(header.unix_fds(), None);
    assert_eq!(header.path().unwrap(), "/org/freedesktop/DBus");
    assert_eq!(header.interface().unwrap(), "org.freedesktop.DBus");
    assert_eq!(header.member().unwrap(), "Hello");
    assert_eq!(header.destination().unwrap(), "org.freedesktop.DBus");
    assert_eq!(header.sender(), None);
    assert_eq!(message.body(), &[] as &[u8]);
    assert_eq!(message.body_offset(), message.data().len());
    assert_eq!(message.recv_position().recv_seq, 0);
}

#[test]
fn hello_bytes_are_exact() {
    let mut serials = SerialCounter::new();
    let message = hello(&mut serials);
    let mut expected: Vec<u8> = vec![b'l', 1, 0, 1, 0, 0, 0, 0, 1, 0, 0, 0, 109, 0, 0, 0];
    expected.extend_from_slice(&[1, 1, b'o', 0, 21, 0, 0, 0]);
    expected.extend_from_slice(b"/org/freedesktop/DBus\0\0\0");
    expected.extend_from_slice(&[2, 1, b's', 0, 20, 0, 0, 0]);
    expected.extend_from_slice(b"org.freedesktop.DBus\0\0\0\0");
    expected.extend_from_slice(&[3, 1, b's', 0, 5, 0, 0, 0]);
    expected.extend_from_slice(b"Hello\0\0\0");
    expected.extend_from_slice(&[6, 1, b's', 0, 20, 0, 0, 0]);
    expected.extend_from_slice(b"org.freedesktop.DBus\0");
    expected.extend_from_slice(&[0, 0, 0]);
    assert_eq!(message.data(), &expected[..]);
    assert_eq!(message.body_offset(), 128);
}

#[test]
fn header_bytes_match_the_value_codec() {
    let mut serials = SerialCounter::new();
    for endian in [EndianSig::Little, EndianSig::Big] {
        let message = Message::signal("/a/b", "a.b.C", "Changed", &mut serials)
            .unwrap()
            .sender(":1.7")
            .unwrap()
            .destination("a.b")
            .unwrap()
            .endian(endian)
            .build_raw_body(&[0, 0, 0, 42, 1, 2, 3, 4], "(uu)", vec![])
            .unwrap();
        let serial = message.primary_header().serial_num();
        let fields: Vec<(u8, zvariant::Value)> = vec![
            (
                1,
                zvariant::Value::ObjectPath(zvariant::ObjectPath::try_from("/a/b").unwrap()),
            ),
            (2, zvariant::Value::Str("a.b.C".into())),
            (3, zvariant::Value::Str("Changed".into())),
            (6, zvariant::Value::Str("a.b".into())),
            (7, zvariant::Value::Str(":1.7".into())),
            (
                8,
                zvariant::Value::Signature(zvariant::Signature::try_from("uu").unwrap()),
            ),
        ];
        let (mark, zendian) = match endian {
            EndianSig::Little => (b'l', zvariant::Endian::Little),
            EndianSig::Big => (b'B', zvariant::Endian::Big),
        };
        let context = zvariant::serialized::Context::new_dbus(zendian, 0);
        let header = (mark, 4u8, 0u8, 1u8, 8u32, serial, fields);
        let encoded = zvariant::to_bytes(context, &header).unwrap();
        assert_eq!(&message.data()[..encoded.bytes().len()], encoded.bytes());
        assert_eq!(message.header().signature().unwrap(), "uu");
    }
}

#[test]
fn framing_round_trip() {
    let mut serials = SerialCounter::new();
    let body: Vec<u8> = (0..37u8).collect();
    let built = Message::signal("/com/example/Obj", "com.example.Iface", "Tick", &mut serials)
        .unwrap()
        .sender(":1.5")
        .unwrap()
        .with_flags(Flags::NoAutoStart)
        .unwrap()
        .build_raw_body(&body, "ay", vec![])
        .unwrap();
    for chunk in [1, 3, 16, 64, 1000] {
        let mut reader = SocketReader::new(Vec::new());
        let read = read_all(&mut reader, built.data(), chunk);
        assert_eq!(read.primary_header(), built.primary_header());
        assert_eq!(read.header().fields(), built.header().fields());
        assert_eq!(read.body(), built.body());
        assert_eq!(read.body(), &body[..]);
        assert_eq!(read.data(), built.data());
        assert_eq!(read.fds().len(), built.fds().len());
        assert_eq!(read.recv_position().recv_seq, 1);
    }
}

#[test]
fn framing_round_trip_with_fds() {
    let mut serials = SerialCounter::new();
    let built = Message::method("/a", "Take", &mut serials)
        .unwrap()
        .build_raw_body(&[0, 0, 0, 0], "h", vec![5, 9])
        .unwrap();
    assert_eq!(built.header().unix_fds(), Some(2));
    assert_eq!(built.fds(), &[5, 9]);
    let mut reader = SocketReader::new(Vec::new());
    assert!(matches!(reader.read_socket(), Ok(ReadStep::Recv(16))));
    reader.received(built.data(), &[11, 12]).unwrap();
    let read = match reader.read_socket().unwrap() {
        ReadStep::Message(m) => m,
        ReadStep::Recv(_) => panic!("the message is complete"),
    };
    assert_eq!(read.header().unix_fds(), Some(2));
    assert_eq!(read.fds(), &[11, 12]);
    assert_eq!(read.header().fields(), built.header().fields());
}

#[test]
fn signal_receive() {
    let mut stream = SIGNAL.to_vec();
    stream.extend_from_slice(&SIGNAL);
    let mut reader = SocketReader::new(Vec::new());
    let first = read_all(&mut reader, &stream, 64);
    let header = first.header();
    assert_eq!(first.message_type(), Type::Signal);
    assert_eq!(header.path().unwrap(), "/settings/app");
    assert_eq!(header.interface().unwrap(), "org.ex.Config");
    assert_eq!(header.member().unwrap(), "SettingChanged");
    assert_eq!(header.sender().unwrap(), ":1.42");
    assert_eq!(first.body_offset(), 104);
    assert_eq!(first.body().len(), 40);
    assert_eq!(first.data(), &SIGNAL[..]);
    assert_eq!(first.recv_position().recv_seq, 1);
    assert_eq!(first.primary_header().serial_num(), 7);
    let taken = first.data().len();
    let second = read_all(&mut reader, &stream[taken..], 64);
    assert_eq!(second.recv_position().recv_seq, 2);
    assert_eq!(second.data(), &SIGNAL[..]);
}

#[test]
fn excess_bytes_seed_the_next_message() {
    let mut stream = SIGNAL.to_vec();
    stream.extend_from_slice(&SIGNAL[..20]);
    let mut reader = SocketReader::new(stream);
    let first = match reader.read_socket().unwrap() {
        ReadStep::Message(m) => m,
        ReadStep::Recv(_) => panic!("a whole message was buffered"),
    };
    assert_eq!(first.recv_position().recv_seq, 1);
    match reader.read_socket().unwrap() {
        ReadStep::Recv(n) => assert_eq!(n, 124),
        ReadStep::Message(_) => panic!("the second message is incomplete"),
    }
    reader.received(&SIGNAL[20..], &[]).unwrap();
    let second = match reader.read_socket().unwrap() {
        ReadStep::Message(m) => m,
        ReadStep::Recv(_) => panic!("the second message is complete"),
    };
    assert_eq!(second.recv_position().recv_seq, 2);
    assert!(matches!(reader.read_socket(), Ok(ReadStep::Recv(16))));
}

#[test]
fn reader_asks_for_exactly_what_is_missing() {
    let mut reader = SocketReader::new(SIGNAL[..5].to_vec());
    assert!(matches!(reader.read_socket(), Ok(ReadStep::Recv(11))));
    reader.received(&SIGNAL[5..16], &[]).unwrap();
    assert!(matches!(reader.read_socket(), Ok(ReadStep::Recv(128))));
}

#[test]
fn end_of_stream_is_an_error() {
    let mut reader = SocketReader::new(Vec::new());
    assert_eq!(
        reader.received(&[], &[]),
        Err(Error::InputOutput(slimbus::IoKind::UnexpectedEof))
    );
}

#[test]
fn reader_rejects_bad_frames() {
    let mut bad = SIGNAL.to_vec();
    bad[0] = b'x';
    let mut reader = SocketReader::new(bad);
    assert!(matches!(reader.read_socket(), Err(Error::IncorrectEndian)));

    let mut huge = SIGNAL.to_vec();
    huge[4..8].copy_from_slice(&(128u32 * 1024 * 1024).to_le_bytes());
    let mut reader = SocketReader::new(huge);
    assert!(matches!(reader.read_socket(), Err(Error::ExcessData)));

    let mut unknown_type = SIGNAL.to_vec();
    unknown_type[1] = 9;
    let mut reader = SocketReader::new(unknown_type);
    assert!(matches!(reader.read_socket(), Err(Error::Type(_))));
}

#[test]
fn from_bytes_errors() {
    let kind = |bytes: Vec<u8>| Message::from_bytes(bytes, vec![]).unwrap_err().kind();
    assert_eq!(kind(vec![]), ErrorKind::Type);
    assert_eq!(kind(SIGNAL[..15].to_vec()), ErrorKind::Type);
    assert_eq!(kind(SIGNAL[..143].to_vec()), ErrorKind::Type);
    let mut longer = SIGNAL.to_vec();
    longer.push(0);
    assert_eq!(kind(longer), ErrorKind::Type);
    let mut m = SIGNAL.to_vec();
    m[0] = b'L';
    assert_eq!(kind(m), ErrorKind::IncorrectEndian);
    let mut m = SIGNAL.to_vec();
    m[1] = 0;
    assert_eq!(kind(m), ErrorKind::Type);
    let mut m = SIGNAL.to_vec();
    m[2] = 8;
    assert_eq!(kind(m), ErrorKind::Type);
    let mut m = SIGNAL.to_vec();
    m[3] = 2;
    assert_eq!(kind(m), ErrorKind::Type);
    let mut m = SIGNAL.to_vec();
    m[8..12].copy_from_slice(&[0, 0, 0, 0]);
    assert_eq!(kind(m), ErrorKind::Type);
    // an unknown field code
    let mut m = SIGNAL.to_vec();
    m[16] = 10;
    assert_eq!(kind(m), ErrorKind::Type);
    // a field with the signature of another type
    let mut m = SIGNAL.to_vec();
    m[18] = b's';
    assert_eq!(kind(m), ErrorKind::Type);
    // padding that is not zero
    let mut m = SIGNAL.to_vec();
    m[38] = 1;
    assert_eq!(kind(m), ErrorKind::Type);
    // a text that runs past the field array
    let mut m = SIGNAL.to_vec();
    m[96] = 200;
    assert_eq!(kind(m), ErrorKind::Type);
    // a text that is not UTF-8
    let mut m = SIGNAL.to_vec();
    m[97] = 0xff;
    assert_eq!(kind(m), ErrorKind::Type);
    // an object path that is none
    let mut m = SIGNAL.to_vec();
    m[24] = b'x';
    assert_eq!(kind(m), ErrorKind::Type);
    // an interface name that is none
    let mut m = SIGNAL.to_vec();
    m[51] = b'/';
    assert_eq!(kind(m), ErrorKind::Name);
    // a member name that is none
    let mut m = SIGNAL.to_vec();
    m[72] = b'.';
    assert_eq!(kind(m), ErrorKind::Name);
    // a sender that is no unique name
    let mut m = SIGNAL.to_vec();
    m[96] = b'x';
    assert_eq!(kind(m), ErrorKind::Name);
    assert!(Message::from_bytes(SIGNAL.to_vec(), vec![]).is_ok());
}

#[test]
fn from_bytes_reads_big_endian() {
    let mut serials = SerialCounter::new();
    let built = Message::method("/a", "Ping", &mut serials)
        .unwrap()
        .endian(EndianSig::Big)
        .build_raw_body(&[1, 2, 3], "ay", vec![])
        .unwrap();
    assert_eq!(built.data()[0], b'B');
    assert_eq!(&built.data()[4..8], &[0, 0, 0, 3]);
    assert_eq!(&built.data()[8..12], &[0, 0, 0, 1]);
    let read = Message::from_bytes(built.data().to_vec(), vec![]).unwrap();
    assert_eq!(read.primary_header().endian_sig(), EndianSig::Big);
    assert_eq!(read.header().fields(), built.header().fields());
    assert_eq!(read.body(), &[1, 2, 3]);
}

#[test]
fn a_repeated_field_replaces_the_earlier_one() {
    // two member fields: the later one counts
    let mut fields: Vec<u8> = Vec::new();
    fields.extend_from_slice(&[3, 1, b's', 0, 1, 0, 0, 0, b'a', 0]);
    fields.extend_from_slice(&[0; 6]);
    fields.extend_from_slice(&[3, 1, b's', 0, 1, 0, 0, 0, b'b', 0]);
    let mut m: Vec<u8> = vec![b'l', 2, 0, 1, 0, 0, 0, 0, 9, 0, 0, 0, 26, 0, 0, 0];
    m.extend_from_slice(&fields);
    m.extend_from_slice(&[0; 6]);
    let message = Message::from_bytes(m, vec![]).unwrap();
    assert_eq!(message.header().member().unwrap(), "b");
    assert_eq!(message.body_offset(), 48);
}

#[test]
fn alignment() {
    let mut serials = SerialCounter::new();
    for member in ["A", "Ab", "Abc", "Abcd", "Abcde", "Abcdef", "Abcdefg", "Abcdefgh"] {
        let message = Message::method("/", member, &mut serials)
            .unwrap()
            .endian(EndianSig::Little)
            .build_raw_body(&[7], "y", vec![])
            .unwrap();
        let fields_len = u32::from_le_bytes(message.data()[12..16].try_into().unwrap()) as usize;
        let header_len = 16 + fields_len;
        assert_eq!(message.body_offset() % 8, 0);
        assert!(message.body_offset() >= header_len);
        assert!(message.body_offset() - header_len < 8);
        assert_eq!(
            message.body_offset(),
            header_len + slimbus::padding_for_8_bytes(header_len)
        );
        assert_eq!(message.body_offset() + 1, message.data().len());
    }
}

#[test]
fn padding_formula() {
    let expected = [0usize, 7, 6, 5, 4, 3, 2, 1, 0, 7];
    for (value, padding) in expected.iter().enumerate() {
        assert_eq!(slimbus::padding_for_8_bytes(value), *padding);
    }
    assert_eq!(slimbus::padding_for_8_bytes(102), 2);
    assert_eq!(slimbus::padding_for_8_bytes(usize::MAX), 1);
}

#[test]
fn frame_len_formula() {
    assert_eq!(slimbus::message::frame_len(&SIGNAL[..16]), Ok(144));
    assert_eq!(slimbus::message::frame_len(&SIGNAL), Ok(144));
    let mut largest = SIGNAL[..16].to_vec();
    largest[4..8].copy_from_slice(&((MAX_MESSAGE_SIZE - 104) as u32).to_le_bytes());
    assert_eq!(slimbus::message::frame_len(&largest), Ok(MAX_MESSAGE_SIZE));
    largest[4..8].copy_from_slice(&((MAX_MESSAGE_SIZE - 103) as u32).to_le_bytes());
    assert_eq!(slimbus::message::frame_len(&largest), Err(Error::ExcessData));
    assert!(matches!(
        slimbus::message::frame_len(&SIGNAL[..15]),
        Err(Error::Type(_))
    ));
}

#[test]
fn serial_monotonicity() {
    let mut serials = SerialCounter::new();
    let mut last = 0;
    for _ in 0..50 {
        let message = hello(&mut serials);
        let serial = message.primary_header().serial_num();
        assert!(serial > last);
        assert_eq!(serial, last + 1);
        last = serial;
    }
}

#[test]
fn serial_counter_hands_out_each_number_once() {
    let mut serials = SerialCounter::new();
    assert!(!serials.is_exhausted());
    assert_eq!(serials.next(), Some(1));
    assert_eq!(serials.next(), Some(2));
    assert_eq!(serials.next(), Some(3));
}

#[test]
fn recv_ordering() {
    let mut stream = Vec::new();
    for _ in 0..5 {
        stream.extend_from_slice(&SIGNAL);
    }
    let mut reader = SocketReader::new(stream);
    let mut last = 0;
    for _ in 0..5 {
        match reader.read_socket().unwrap() {
            ReadStep::Message(m) => {
                assert!(m.recv_position().recv_seq > last);
                last = m.recv_position().recv_seq;
            }
            ReadStep::Recv(_) => panic!("five messages were buffered"),
        }
    }
    assert_eq!(last, 5);
}

#[test]
fn a_message_that_fails_to_parse_is_still_counted_and_consumed() {
    let mut bad = SIGNAL.to_vec();
    bad[16] = 10;
    bad.extend_from_slice(&SIGNAL);
    let mut reader = SocketReader::new(bad);
    assert!(matches!(reader.read_socket(), Err(Error::Type(_))));
    match reader.read_socket().unwrap() {
        ReadStep::Message(m) => assert_eq!(m.recv_position().recv_seq, 2),
        ReadStep::Recv(_) => panic!("a whole message was buffered"),
    }
}

#[test]
fn size_bound() {
    let mut serials = SerialCounter::new();
    let body = vec![0u8; MAX_MESSAGE_SIZE];
    let builder = || {
        Message::method("/", "M", &mut SerialCounter::new())
            .unwrap()
            .endian(EndianSig::Little)
    };
    // the header of this message takes 56 bytes with its signature field
    let fits = builder()
        .build_raw_body(&body[..MAX_MESSAGE_SIZE - 56], "ay", vec![])
        .unwrap();
    assert_eq!(fits.data().len(), MAX_MESSAGE_SIZE);
    assert_eq!(fits.body_offset(), 56);
    assert!(matches!(
        builder().build_raw_body(&body[..MAX_MESSAGE_SIZE - 55], "ay", vec![]),
        Err(Error::ExcessData)
    ));
    assert!(matches!(
        builder().build_raw_body(&body, "ay", vec![]),
        Err(Error::ExcessData)
    ));
    let _ = hello(&mut serials);
}

#[test]
fn struct_signature_loses_its_parentheses() {
    let mut serials = SerialCounter::new();
    let build = |signature: &str, serials: &mut SerialCounter| {
        Message::method("/", "M", serials)
            .unwrap()
            .build_raw_body(&[0; 8], signature, vec![])
    };
    let message = build("(us)", &mut serials).unwrap();
    assert_eq!(message.header().signature().unwrap(), "us");
    assert_eq!(message.body_signature().unwrap(), "us");
    let message = build("us", &mut serials).unwrap();
    assert_eq!(message.header().signature().unwrap(), "us");
    let message = build("a(us)", &mut serials).unwrap();
    assert_eq!(message.header().signature().unwrap(), "a(us)");
    let message = build("()", &mut serials);
    assert!(matches!(message, Err(Error::Signature(_))));
    assert!(matches!(build("(u)(s)", &mut serials), Err(Error::Signature(_))));
    assert!(matches!(build("!", &mut serials), Err(Error::Signature(_))));
    assert!(matches!(build("(", &mut serials), Err(Error::Signature(_))));
    assert!(matches!(build("(u", &mut serials), Err(Error::Signature(_))));
    let long = "u".repeat(256);
    assert!(matches!(build(&long, &mut serials), Err(Error::Signature(_))));
    let longest = "u".repeat(255);
    assert_eq!(
        build(&longest, &mut serials).unwrap().header().signature().unwrap(),
        &longest
    );
}

#[test]
fn fds_need_a_signature() {
    let mut serials = SerialCounter::new();
    let r = Message::method("/", "M", &mut serials)
        .unwrap()
        .build_raw_body(&[], "", vec![3]);
    assert!(matches!(r, Err(Error::InvalidField)));
}

#[test]
fn names_are_checked() {
    let mut serials = SerialCounter::new();
    let kind = |r: Result<Builder, Error>| r.unwrap_err().kind();
    assert_eq!(
        kind(Message::method("no/slash", "M", &mut serials)),
        ErrorKind::Type
    );
    assert_eq!(kind(Message::method("/a/", "M", &mut serials)), ErrorKind::Type);
    assert_eq!(kind(Message::method("/a//b", "M", &mut serials)), ErrorKind::Type);
    assert_eq!(kind(Message::method("", "M", &mut serials)), ErrorKind::Type);
    assert_eq!(kind(Message::method("/a-b", "M", &mut serials)), ErrorKind::Type);
    assert_eq!(kind(Message::method("/a", "", &mut serials)), ErrorKind::Name);
    assert_eq!(kind(Message::method("/a", "1M", &mut serials)), ErrorKind::Name);
    assert_eq!(kind(Message::method("/a", "M.N", &mut serials)), ErrorKind::Name);
    assert_eq!(
        kind(Message::method("/a", &"M".repeat(256), &mut serials)),
        ErrorKind::Name
    );
    assert!(Message::method("/a", &"M".repeat(255), &mut serials).is_ok());
    assert!(Message::method("/", "_m9", &mut serials).is_ok());
    assert!(Message::method("/a_1/B", "M", &mut serials).is_ok());
    assert_eq!(
        kind(Message::signal("/a", "nodots", "M", &mut serials)),
        ErrorKind::Name
    );
    assert_eq!(
        kind(Message::signal("/a", "a.b", "9", &mut serials)),
        ErrorKind::Name
    );
    let builder = || Message::method("/a", "M", &mut SerialCounter::new()).unwrap();
    assert_eq!(kind(builder().interface("a..b")), ErrorKind::Name);
    assert_eq!(kind(builder().destination("a b")), ErrorKind::Name);
    assert_eq!(kind(builder().sender("org.example.Name")), ErrorKind::Name);
    assert!(builder().sender(":1.1").is_ok());
    assert!(builder().sender("org.freedesktop.DBus").is_ok());
    assert!(builder().destination(":1.1").is_ok());
    assert!(builder().destination("org.example.Name").is_ok());
    assert_eq!(kind(builder().error_name("nodots")), ErrorKind::Name);
    assert!(builder().error_name("org.example.Error").is_ok());
}

#[test]
fn setters_replace() {
    let mut serials = SerialCounter::new();
    let message = Message::method("/a", "M", &mut serials)
        .unwrap()
        .path("/b")
        .unwrap()
        .member("N")
        .unwrap()
        .destination("a.b")
        .unwrap()
        .destination("c.d")
        .unwrap()
        .build_raw_body(&[], "", vec![])
        .unwrap();
    let header = message.header();
    assert_eq!(header.path().unwrap(), "/b");
    assert_eq!(header.member().unwrap(), "N");
    assert_eq!(header.destination().unwrap(), "c.d");
}

#[test]
fn flags() {
    let mut serials = SerialCounter::new();
    let call = Message::method("/a", "M", &mut serials)
        .unwrap()
        .with_flags(Flags::NoReplyExpected)
        .unwrap()
        .with_flags(Flags::AllowInteractiveAuth)
        .unwrap()
        .build_raw_body(&[], "", vec![])
        .unwrap();
    let set = call.primary_header().flags();
    assert!(set.contains(Flags::NoReplyExpected));
    assert!(!set.contains(Flags::NoAutoStart));
    assert!(set.contains(Flags::AllowInteractiveAuth));
    assert_eq!(set.bits(), 5);
    assert_eq!(call.data()[2], 5);
    let signal = Message::signal("/a", "a.b", "S", &mut serials).unwrap();
    assert!(matches!(
        signal.with_flags(Flags::NoReplyExpected),
        Err(Error::InvalidField)
    ));
    let signal = Message::signal("/a", "a.b", "S", &mut serials).unwrap();
    assert!(signal.with_flags(Flags::NoAutoStart).is_ok());
}

#[test]
fn replies() {
    let mut serials = SerialCounter::new();
    let mut call = SIGNAL.to_vec();
    call[0] = b'l';
    let call = Message::from_bytes(call, vec![]).unwrap();
    let reply = Message::method_reply(&call, &mut serials)
        .unwrap()
        .build_raw_body(&[], "", vec![])
        .unwrap();
    assert_eq!(reply.message_type(), Type::MethodReturn);
    assert_eq!(reply.header().reply_serial(), Some(7));
    assert_eq!(reply.header().destination().unwrap(), ":1.42");
    assert_eq!(reply.primary_header().endian_sig(), EndianSig::Little);
    assert_eq!(reply.primary_header().serial_num(), 1);
    let error = Message::method_error(&call, "org.example.Failed", &mut serials)
        .unwrap()
        .build_raw_body(&[2, 0, 0, 0, b'n', b'o', 0], "s", vec![])
        .unwrap();
    assert_eq!(error.message_type(), Type::Error);
    assert_eq!(error.header().reply_serial(), Some(7));
    assert_eq!(error.header().error_name().unwrap(), "org.example.Failed");
    assert_eq!(error.primary_header().serial_num(), 2);
    assert!(matches!(
        Message::method_error(&call, "no dots", &mut serials),
        Err(Error::Name(_))
    ));
    // a reply mirrors the byte order of the call
    let big = Message::method("/a", "M", &mut serials)
        .unwrap()
        .endian(EndianSig::Big)
        .build_raw_body(&[], "", vec![])
        .unwrap();
    let reply = Builder::method_return(&big.header(), &mut serials).unwrap();
    let reply = reply.build_raw_body(&[], "", vec![]).unwrap();
    assert_eq!(reply.primary_header().endian_sig(), EndianSig::Big);
    assert_eq!(reply.header().destination(), None);
}

#[test]
fn builder_from_header() {
    // a signal that is marked as expecting no reply can be read, but not built
    let message = Message::from_bytes(SIGNAL.to_vec(), vec![]).unwrap();
    assert!(message.primary_header().flags().contains(Flags::NoReplyExpected));
    assert!(matches!(
        Builder::from_header(message.header()),
        Err(Error::InvalidField)
    ));
    let mut plain = SIGNAL.to_vec();
    plain[2] = 0;
    let message = Message::from_bytes(plain, vec![]).unwrap();
    let builder = Builder::from_header(message.header()).unwrap();
    let rebuilt = builder.build_raw_body(message.body(), "", vec![]).unwrap();
    assert_eq!(rebuilt.data(), message.data());
    let mut primary = *message.primary_header();
    primary.set_protocol_version(2);
    let header = Header::new(primary, message.header().into_fields());
    assert!(matches!(Builder::from_header(header), Err(Error::InvalidField)));
    let mut fields = message.header().into_fields();
    fields.interface = None;
    let header = Header::new(*message.primary_header(), fields);
    assert!(matches!(Builder::from_header(header), Err(Error::InvalidField)));
    let mut primary = *message.primary_header();
    let mut flags = primary.flags();
    flags.insert(Flags::NoReplyExpected);
    primary.set_flags(flags);
    let header = Header::new(primary, message.header().into_fields());
    assert!(matches!(Builder::from_header(header), Err(Error::InvalidField)));
    let mut fields = message.header().into_fields();
    fields.reply_serial = Some(0);
    let header = Header::new(*message.primary_header(), fields);
    assert!(matches!(Builder::from_header(header), Err(Error::InvalidField)));
    let mut fields = message.header().into_fields();
    fields.member = Some("not a member".to_string());
    let header = Header::new(*message.primary_header(), fields);
    assert!(matches!(Builder::from_header(header), Err(Error::Name(_))));
}

#[test]
fn describe() {
    let mut serials = SerialCounter::new();
    let call = hello(&mut serials);
    assert_eq!(call.to_string(), "Method call Hello");
    let signal = Message::from_bytes(SIGNAL.to_vec(), vec![]).unwrap();
    assert_eq!(signal.to_string(), "Signal SettingChanged from :1.42");
    let reply = Message::method_reply(&signal, &mut serials)
        .unwrap()
        .sender(":1.1")
        .unwrap()
        .build_raw_body(&[], "", vec![])
        .unwrap();
    assert_eq!(reply.to_string(), "Method return from :1.1");
    let error = Message::method_error(&signal, "org.example.Failed", &mut serials)
        .unwrap()
        .endian(EndianSig::Little)
        .build_raw_body(&[2, 0, 0, 0, b'n', b'o', 0], "s", vec![])
        .unwrap();
    assert_eq!(error.first_text(), Some("no".to_string()));
    assert_eq!(error.to_string(), "Error org.example.Failed: no");
    let error = Message::method_error(&signal, "org.example.Failed", &mut serials)
        .unwrap()
        .endian(EndianSig::Little)
        .build_raw_body(&[9, 0, 0, 0, b'n', b'o', 0], "s", vec![])
        .unwrap();
    assert_eq!(error.first_text(), None);
    assert_eq!(error.to_string(), "Error org.example.Failed");
    let error = Message::method_error(&signal, "org.example.Failed", &mut serials)
        .unwrap()
        .endian(EndianSig::Little)
        .build_raw_body(&[1, b'u', 0], "g", vec![])
        .unwrap();
    assert_eq!(error.first_text(), Some("u".to_string()));
    let error = Message::method_error(&signal, "org.example.Failed", &mut serials)
        .unwrap()
        .endian(EndianSig::Little)
        .build_raw_body(&[7, 0, 0, 0], "u", vec![])
        .unwrap();
    assert_eq!(error.first_text(), None);
}

#[test]
fn error_messages() {
    assert_eq!(Error::IncorrectEndian.to_string(), "incorrect endian");
    assert_eq!(Error::ExcessData.to_string(), "excess data");
    assert_eq!(
        Error::Address("bad".to_string()).to_string(),
        "address error: bad"
    );
    assert_eq!(
        Error::InputOutput(slimbus::IoKind::BrokenPipe).to_string(),
        "I/O error: broken pipe"
    );
    assert_eq!(Error::Unsupported.kind(), ErrorKind::Unsupported);
    assert_eq!(
        Error::of_kind(ErrorKind::Name, "x"),
        Error::Name("x".to_string())
    );
}
