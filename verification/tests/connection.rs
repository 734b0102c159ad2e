use slimbus::connection::handshake::Authenticated;
use slimbus::connection::{Connection, ReadStep, SendProgress, SendStep};
use slimbus::fdo::ConnectionCredentials;
use slimbus::message::header::{PrimaryHeader, MIN_MESSAGE_SIZE, PRIMARY_HEADER_SIZE};
use slimbus::message::{
    EndianSig, Field, FieldCode, Fields, FlagSet, Flags, Message, SerialCounter, Type,
};
use slimbus::{Error, IoKind};

fn connection(cap_unix_fd: bool) -> Connection {
    let auth = Authenticated {
        cap_unix_fd,
        already_received_bytes: Vec::new(),
    };
    Connection::new(auth, 3).0
}

fn message(fds: Vec<i32>) -> Message {
    let mut serials = SerialCounter::new();
    let signature = if fds.is_empty() { "" } else { "h" };
    let body: &[u8] = if fds.is_empty() { &[] } else { &[0, 0, 0, 0] };
    Message::method("/a", "M", &mut serials)
        .unwrap()
        .build_raw_body(body, signature, fds)
        .unwrap()
}

/// Sends with writes of at most `chunk` bytes; returns what each write
/// carried.
fn send(connection: &Connection, msg: &Message, chunk: usize) -> Vec<(Vec<u8>, bool)> {
    let mut progress = connection.send(msg).unwrap();
    let mut writes = Vec::new();
    loop {
        match progress.next_step() {
            SendStep::Done => return writes,
            SendStep::Write { offset, attach_fds } => {
                let rest = &msg.data()[offset..];
                let n = rest.len().min(chunk);
                writes.push((rest[..n].to_vec(), attach_fds));
                progress.written(n).unwrap();
            }
        }
    }
}

#[test]
fn fd_attach_locality() {
    let connection = connection(true);
    let msg = message(vec![4, 5]);
    for chunk in [1, 7, 1000] {
        let writes = send(&connection, &msg, chunk);
        let attached: Vec<usize> = writes
            .iter()
            .enumerate()
            .filter(|(_, w)| w.1)
            .map(|(i, _)| i)
            .collect();
        assert_eq!(attached, vec![0]);
        let bytes: Vec<u8> = writes.iter().flat_map(|w| w.0.clone()).collect();
        assert_eq!(bytes, msg.data());
    }
    let plain = message(vec![]);
    let writes = send(&connection, &plain, 5);
    assert!(writes.iter().all(|w| !w.1));
}

#[test]
fn fds_need_the_capability() {
    let without = connection(false);
    assert!(matches!(
        without.send(&message(vec![4])),
        Err(Error::Unsupported)
    ));
    assert!(without.send(&message(vec![])).is_ok());
    assert!(!without.cap_unix_fd());
    assert!(connection(true).send(&message(vec![4])).is_ok());
}

#[test]
fn send_progress() {
    let mut progress = SendProgress {
        len: 10,
        has_fds: true,
        pos: 0,
    };
    assert_eq!(
        progress.next_step(),
        SendStep::Write {
            offset: 0,
            attach_fds: true
        }
    );
    assert_eq!(
        progress.written(0),
        Err(Error::InputOutput(IoKind::WriteZero))
    );
    assert_eq!(
        progress.written(11),
        Err(Error::InputOutput(IoKind::InvalidInput))
    );
    assert_eq!(progress.pos, 0);
    progress.written(4).unwrap();
    assert_eq!(
        progress.next_step(),
        SendStep::Write {
            offset: 4,
            attach_fds: false
        }
    );
    progress.written(6).unwrap();
    assert_eq!(progress.next_step(), SendStep::Done);
    assert_eq!(
        progress.written(1),
        Err(Error::InputOutput(IoKind::InvalidInput))
    );
}

#[test]
fn closed_connection() {
    let mut connection = connection(true);
    assert!(!connection.is_closed());
    assert_eq!(connection.as_raw_fd(), 3);
    connection.close();
    assert!(connection.is_closed());
    assert_eq!(
        connection.send(&message(vec![])).unwrap_err(),
        Error::InputOutput(IoKind::BrokenPipe)
    );
}

#[test]
fn unique_name_is_set_once() {
    let mut connection = connection(true);
    assert_eq!(connection.unique_name(), None);
    assert!(matches!(
        connection.set_unique_name("not unique"),
        Err(Error::Name(_))
    ));
    assert_eq!(connection.set_unique_name(":1.5"), Ok(true));
    assert_eq!(connection.set_unique_name(":1.6"), Ok(false));
    assert_eq!(connection.unique_name().unwrap(), ":1.5");
}

#[test]
fn reader_starts_with_the_leftover_bytes() {
    let msg = message(vec![]);
    let auth = Authenticated {
        cap_unix_fd: false,
        already_received_bytes: msg.data().to_vec(),
    };
    let (_, mut reader) = Connection::new(auth, 3);
    match reader.read_socket().unwrap() {
        ReadStep::Message(m) => {
            assert_eq!(m.data(), msg.data());
            assert_eq!(m.recv_position().recv_seq, 1);
        }
        ReadStep::Recv(_) => panic!("the message was left over by the handshake"),
    }
}

#[test]
fn credentials() {
    let credentials = ConnectionCredentials::default();
    assert_eq!(credentials.unix_user_id(), None);
    assert_eq!(credentials.unix_group_ids(), None);
    assert_eq!(credentials.process_id(), None);
    assert_eq!(credentials.windows_sid(), None);
    assert_eq!(credentials.linux_security_label(), None);
    let credentials = credentials
        .set_unix_user_id(1000)
        .set_process_id(77)
        .add_unix_group_id(5)
        .add_unix_group_id(6)
        .set_windows_sid("S-1-5-18".to_string())
        .set_linux_security_label(b"unconfined\0".to_vec());
    assert_eq!(credentials.unix_user_id(), Some(1000));
    assert_eq!(credentials.process_id(), Some(77));
    assert_eq!(credentials.unix_group_ids(), Some(&vec![5, 6]));
    assert_eq!(credentials.windows_sid(), Some(&"S-1-5-18".to_string()));
    assert_eq!(
        credentials.linux_security_label(),
        Some(&b"unconfined\0".to_vec())
    );
    assert_eq!(
        ConnectionCredentials::default()
            .add_unix_group_id(1)
            .into_unix_group_ids(),
        Some(vec![1])
    );
    assert_eq!(
        ConnectionCredentials::default()
            .set_windows_sid("x".to_string())
            .into_windows_sid(),
        Some("x".to_string())
    );
    assert_eq!(
        ConnectionCredentials::default()
            .set_linux_security_label(vec![1, 0])
            .into_linux_security_label(),
        Some(vec![1, 0])
    );
    assert_eq!(ConnectionCredentials::default().into_unix_group_ids(), None);
}

#[test]
fn primary_header_codec() {
    assert_eq!(PRIMARY_HEADER_SIZE, 12);
    assert_eq!(MIN_MESSAGE_SIZE, 16);
    let mut serials = SerialCounter::new();
    let mut primary = PrimaryHeader::new(Type::Signal, 258, &mut serials);
    assert_eq!(primary.msg_type(), Type::Signal);
    assert_eq!(primary.body_len(), 258);
    assert_eq!(primary.serial_num(), 1);
    assert_eq!(primary.protocol_version(), 1);
    assert_eq!(primary.flags(), FlagSet::empty());
    primary.set_endian_sig(EndianSig::Little);
    primary.set_serial_num(0x01020304);
    let mut flags = FlagSet::empty();
    flags.insert(Flags::NoAutoStart);
    primary.set_flags(flags);
    let mut out = vec![9];
    primary.write(0x0a0b, &mut out);
    assert_eq!(
        out,
        [9, b'l', 4, 2, 1, 2, 1, 0, 0, 4, 3, 2, 1, 0x0b, 0x0a, 0, 0]
    );
    assert_eq!(PrimaryHeader::read(&out[1..]), Ok((primary, 0x0a0b)));
    primary.set_endian_sig(EndianSig::Big);
    primary.set_msg_type(Type::Error);
    primary.set_body_len(1);
    let mut out = Vec::new();
    primary.write(0x0a0b, &mut out);
    assert_eq!(
        out,
        [b'B', 3, 2, 1, 0, 0, 0, 1, 1, 2, 3, 4, 0, 0, 0x0a, 0x0b]
    );
    assert_eq!(PrimaryHeader::read(&out), Ok((primary, 0x0a0b)));
    assert_eq!(primary.endian_sig(), EndianSig::Big);
}

#[test]
fn header_accessors() {
    let mut serials = SerialCounter::new();
    let message = slimbus::Message::method("/a", "M", &mut serials)
        .unwrap()
        .build_raw_body(&[], "", vec![])
        .unwrap();
    let mut header = message.header();
    assert_eq!(header.message_type(), Type::MethodCall);
    header.primary_mut().set_msg_type(Type::Signal);
    header.primary_mut().set_body_len(9);
    assert_eq!(header.message_type(), Type::Signal);
    assert_eq!(header.primary().body_len(), 9);
    assert_eq!(header.primary().serial_num(), 1);
    let fields = Fields::new();
    header.set_fields(fields);
    assert_eq!(header.path(), None);
    let copy = header.duplicate();
    assert_eq!(copy.into_primary(), *header.primary());
    let again = message.clone();
    assert_eq!(again.data(), message.data());
    assert_eq!(again.header().fields(), message.header().fields());
}

#[test]
fn codes() {
    for (t, code) in [
        (Type::MethodCall, 1u8),
        (Type::MethodReturn, 2),
        (Type::Error, 3),
        (Type::Signal, 4),
    ] {
        assert_eq!(t.to_u8(), code);
        assert_eq!(Type::from_u8(code), Some(t));
    }
    assert_eq!(Type::from_u8(0), None);
    assert_eq!(Type::from_u8(5), None);
    assert_eq!(EndianSig::Big.to_u8(), b'B');
    assert_eq!(EndianSig::Little.to_u8(), b'l');
    assert_eq!(EndianSig::try_from(b'B'), Ok(EndianSig::Big));
    assert_eq!(EndianSig::try_from(b'l'), Ok(EndianSig::Little));
    assert_eq!(EndianSig::try_from(b'b'), Err(Error::IncorrectEndian));
    assert_eq!(Flags::NoReplyExpected.bit(), 1);
    assert_eq!(Flags::NoAutoStart.bit(), 2);
    assert_eq!(Flags::AllowInteractiveAuth.bit(), 4);
    for bits in 0..8u8 {
        assert_eq!(FlagSet::from_bits(bits).unwrap().bits(), bits);
    }
    assert_eq!(FlagSet::from_bits(8), None);
    assert_eq!(FlagSet::from_bits(0xff), None);
    let codes = [
        (FieldCode::Path, b'o'),
        (FieldCode::Interface, b's'),
        (FieldCode::Member, b's'),
        (FieldCode::ErrorName, b's'),
        (FieldCode::ReplySerial, b'u'),
        (FieldCode::Destination, b's'),
        (FieldCode::Sender, b's'),
        (FieldCode::Signature, b'g'),
        (FieldCode::UnixFDs, b'u'),
    ];
    for (i, (code, signature)) in codes.iter().enumerate() {
        assert_eq!(code.to_u8(), i as u8 + 1);
        assert_eq!(FieldCode::from_u8(i as u8 + 1), Some(*code));
        assert_eq!(code.signature_char(), *signature);
        assert_eq!(code.is_number(), *signature == b'u');
    }
    assert_eq!(FieldCode::from_u8(0), None);
    assert_eq!(FieldCode::from_u8(10), None);
}

#[test]
fn field_array_codec() {
    let mut fields = Fields::new();
    fields.replace(Field::ReplySerial(0x01020304));
    fields.replace(Field::Signature("su".to_string()));
    fields.replace(Field::UnixFDs(2));
    fields.replace(Field::Sender(":1.9".to_string()));
    assert_eq!(Field::UnixFDs(2).code(), FieldCode::UnixFDs);
    let bytes = fields.to_bytes(EndianSig::Big).unwrap();
    let mut expected: Vec<u8> = Vec::new();
    expected.extend_from_slice(&[5, 1, b'u', 0, 1, 2, 3, 4]);
    expected.extend_from_slice(&[7, 1, b's', 0, 0, 0, 0, 4, b':', b'1', b'.', b'9', 0, 0, 0, 0]);
    expected.extend_from_slice(&[8, 1, b'g', 0, 2, b's', b'u', 0]);
    expected.extend_from_slice(&[9, 1, b'u', 0, 0, 0, 0, 2]);
    assert_eq!(bytes, expected);
    let mut message = vec![0u8; 16];
    message.extend_from_slice(&bytes);
    let read = Fields::read(&message, message.len(), EndianSig::Big).unwrap();
    assert_eq!(read, fields);
    assert_eq!(read.text_of(FieldCode::Sender), Some(&":1.9".to_string()));
    assert_eq!(read.number_of(FieldCode::UnixFDs), Some(2));
    assert_eq!(read.number_of(FieldCode::Sender), None);
    assert_eq!(read.text_of(FieldCode::Path), None);
    assert!(read.validate().is_ok());
    // a reply serial of zero is refused
    message[20..24].copy_from_slice(&[0, 0, 0, 0]);
    assert!(matches!(
        Fields::read(&message, message.len(), EndianSig::Big),
        Err(Error::Type(_))
    ));
    let mut removed = fields.duplicate();
    removed.remove(FieldCode::Sender);
    assert_eq!(removed.sender, None);
    assert_eq!(removed.unix_fds, Some(2));
    assert_eq!(Fields::new().to_bytes(EndianSig::Little).unwrap(), Vec::<u8>::new());
}
