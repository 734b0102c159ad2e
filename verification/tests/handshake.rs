use slimbus::connection::command::{
    bytes_to_hex, hex_decode, split_words, write_decimal, write_hex, AuthMechanism, Command,
};
use slimbus::connection::cookie::{
    check_client_challenge, check_context, cookie_response, digest_input, find_cookie,
    keyring_is_private, parse_challenge, parse_decimal,
};
use slimbus::connection::handshake::{Action, Authenticated, ClientHandshake, HandshakeCommon, Phase};
use slimbus::{Error, Guid, IoKind};

const GUID: &str = "0123456789abcdef0123456789abcdef";

/// Plays the server: each write is taken whole, each read gets the next
/// scripted reply.
fn converse(
    handshake: &mut ClientHandshake,
    replies: &[&[u8]],
) -> (Vec<u8>, Result<Authenticated, Error>) {
    let mut sent = Vec::new();
    let mut replies = replies.iter();
    let mut action = handshake.start();
    loop {
        action = match action {
            Err(e) => return (sent, Err(e)),
            Ok(Action::Done(auth)) => return (sent, Ok(auth)),
            Ok(Action::Write(bytes)) => {
                sent.extend_from_slice(&bytes);
                handshake.written(bytes.len())
            }
            Ok(Action::Read(n)) => {
                assert_eq!(n, 64);
                match replies.next() {
                    Some(reply) => handshake.received(reply, 0),
                    None => handshake.received(&[], 0),
                }
            }
            Ok(Action::ReadKeyring(_)) | Ok(Action::Digest(_)) => {
                panic!("no cookie was expected")
            }
        };
    }
}

#[test]
fn external_handshake() {
    let mut handshake = ClientHandshake::new(None, 1000);
    assert_eq!(handshake.phase(), Phase::Init);
    let ok = format!("OK {GUID}\r\n");
    let (sent, result) = converse(&mut handshake, &[ok.as_bytes(), b"AGREE_UNIX_FD\r\n"]);
    assert_eq!(
        sent,
        b"\0AUTH EXTERNAL 31303030\r\nNEGOTIATE_UNIX_FD\r\nBEGIN\r\n"
    );
    let auth = result.unwrap();
    assert!(auth.cap_unix_fd);
    assert!(auth.already_received_bytes.is_empty());
    assert_eq!(handshake.phase(), Phase::Done);
    assert_eq!(handshake.server_guid().unwrap().as_bytes(), GUID.as_bytes());
}

#[test]
fn handshake_step_by_step() {
    let mut handshake = ClientHandshake::new(None, 1000);
    match handshake.start().unwrap() {
        Action::Write(bytes) => assert_eq!(bytes, b"\0"),
        _ => panic!("the zero byte goes first"),
    }
    assert_eq!(handshake.phase(), Phase::SendingNul);
    let auth = b"AUTH EXTERNAL 31303030\r\n";
    match handshake.written(1).unwrap() {
        Action::Write(bytes) => assert_eq!(bytes, auth),
        _ => panic!("AUTH follows the zero byte"),
    }
    assert_eq!(handshake.phase(), Phase::WaitingForOk);
    // a partial write: the rest is asked for again
    match handshake.written(10).unwrap() {
        Action::Write(bytes) => assert_eq!(bytes, &auth[10..]),
        _ => panic!("the rest of AUTH is pending"),
    }
    assert!(matches!(
        handshake.written(auth.len() - 10),
        Ok(Action::Read(64))
    ));
    // a line that arrives in pieces
    assert!(matches!(handshake.received(b"OK 0123", 0), Ok(Action::Read(64))));
    let rest = format!("{}\r\n", &GUID[4..]);
    match handshake.received(rest.as_bytes(), 0).unwrap() {
        Action::Write(bytes) => assert_eq!(bytes, b"NEGOTIATE_UNIX_FD\r\n"),
        _ => panic!("the negotiation follows OK"),
    }
    assert_eq!(handshake.phase(), Phase::WaitingForAgreeUnixFd);
    assert!(matches!(handshake.written(19), Ok(Action::Read(64))));
    match handshake.received(b"AGREE_UNIX_FD\r\n", 0).unwrap() {
        Action::Write(bytes) => assert_eq!(bytes, b"BEGIN\r\n"),
        _ => panic!("BEGIN follows the agreement"),
    }
    assert_eq!(handshake.phase(), Phase::SendingBegin);
    match handshake.written(7).unwrap() {
        Action::Done(auth) => {
            assert!(auth.cap_unix_fd);
            assert!(auth.already_received_bytes.is_empty());
        }
        _ => panic!("the handshake is done"),
    }
    assert!(matches!(handshake.written(1), Err(Error::Handshake(_))));
    assert!(matches!(handshake.start(), Err(Error::Handshake(_))));
}

#[test]
fn cap_unix_fd_follows_the_reply() {
    let ok = format!("OK {GUID}\r\n");
    let mut handshake = ClientHandshake::new(None, 0);
    let (sent, result) = converse(
        &mut handshake,
        &[ok.as_bytes(), b"ERROR not supported\r\n"],
    );
    assert_eq!(sent, b"\0AUTH EXTERNAL 30\r\nNEGOTIATE_UNIX_FD\r\nBEGIN\r\n");
    assert!(!result.unwrap().cap_unix_fd);

    let mut handshake = ClientHandshake::new(None, 0);
    let (_, result) = converse(&mut handshake, &[ok.as_bytes(), b"AGREE_UNIX_FD\r\n"]);
    assert!(result.unwrap().cap_unix_fd);

    for reply in [&b"OK\r\n"[..], b"BEGIN\r\n", b"REJECTED EXTERNAL\r\n", b"DATA\r\n"] {
        let mut handshake = ClientHandshake::new(None, 0);
        let (_, result) = converse(&mut handshake, &[ok.as_bytes(), reply]);
        assert!(matches!(result, Err(Error::Handshake(_))));
    }
}

#[test]
fn without_fd_passing_begin_follows_ok() {
    let ok = format!("OK {GUID}\r\n");
    let mut handshake =
        ClientHandshake::with_mechanisms(None, 1000, vec![AuthMechanism::External], false);
    let (sent, result) = converse(&mut handshake, &[ok.as_bytes()]);
    assert_eq!(sent, b"\0AUTH EXTERNAL 31303030\r\nBEGIN\r\n");
    assert!(!result.unwrap().cap_unix_fd);
}

#[test]
fn leftover_bytes_are_kept() {
    let mut handshake = ClientHandshake::new(None, 1000);
    let replies = format!("OK {GUID}\r\nAGREE_UNIX_FD\r\nl\x01\x00\x01rest");
    let (_, result) = converse(&mut handshake, &[replies.as_bytes()]);
    let auth = result.unwrap();
    assert!(auth.cap_unix_fd);
    assert_eq!(auth.already_received_bytes, b"l\x01\x00\x01rest");
}

#[test]
fn rejected_moves_to_the_next_mechanism() {
    let ok = format!("OK {GUID}\r\n");
    let mut handshake = ClientHandshake::with_mechanisms(
        None,
        1000,
        vec![AuthMechanism::External, AuthMechanism::Anonymous],
        true,
    );
    let (sent, result) = converse(
        &mut handshake,
        &[
            b"REJECTED EXTERNAL DBUS_COOKIE_SHA1 ANONYMOUS\r\n",
            ok.as_bytes(),
            b"AGREE_UNIX_FD\r\n",
        ],
    );
    assert_eq!(
        sent,
        b"\0AUTH EXTERNAL 31303030\r\nAUTH ANONYMOUS 7a627573\r\nNEGOTIATE_UNIX_FD\r\nBEGIN\r\n"
    );
    assert!(result.unwrap().cap_unix_fd);
}

#[test]
fn exhausted_mechanisms_fail() {
    let mut handshake = ClientHandshake::new(None, 1000);
    let (sent, result) = converse(&mut handshake, &[b"REJECTED ANONYMOUS\r\n"]);
    assert_eq!(sent, b"\0AUTH EXTERNAL 31303030\r\n");
    assert!(matches!(result, Err(Error::Handshake(_))));

    let mut handshake = ClientHandshake::with_mechanisms(
        None,
        1000,
        vec![AuthMechanism::External, AuthMechanism::Anonymous],
        true,
    );
    let (sent, result) = converse(
        &mut handshake,
        &[b"REJECTED\r\n", b"REJECTED EXTERNAL\r\n"],
    );
    assert_eq!(
        sent,
        b"\0AUTH EXTERNAL 31303030\r\nAUTH ANONYMOUS 7a627573\r\n"
    );
    assert!(matches!(result, Err(Error::Handshake(_))));

    let mut handshake = ClientHandshake::with_mechanisms(None, 1000, vec![], true);
    let (sent, result) = converse(&mut handshake, &[]);
    assert_eq!(sent, b"\0");
    assert!(matches!(result, Err(Error::Handshake(_))));
}

#[test]
fn line_framing_is_strict() {
    for reply in [
        &b"OK 0123456789abcdef0123456789abcdef\n"[..],
        b"\n",
        b"\r\n",
        b"OK\r\n",
        b"OK 0123\r\n",
        b"WHAT\r\n",
        b"AUTH EXTERNAL\r\n",
        b"REJECTED KERBEROS\r\n",
        b"\xff\xfe\r\n",
        b"AGREE_UNIX_FD\r\n",
        b"ERROR\r\n",
        b"DATA 00\r\n",
    ] {
        let mut handshake = ClientHandshake::new(None, 1000);
        let (_, result) = converse(&mut handshake, &[reply]);
        assert!(matches!(result, Err(Error::Handshake(_))), "{reply:?}");
    }
}

#[test]
fn fds_and_eof_fail_the_handshake() {
    let mut handshake = ClientHandshake::new(None, 1000);
    handshake.start().unwrap();
    handshake.written(1).unwrap();
    handshake.written(24).unwrap();
    assert!(matches!(
        handshake.received(b"OK 0123456789abcdef0123456789abcdef\r\n", 1),
        Err(Error::Handshake(_))
    ));
    let mut handshake = ClientHandshake::new(None, 1000);
    let (_, result) = converse(&mut handshake, &[]);
    assert!(matches!(result, Err(Error::Handshake(_))));
}

#[test]
fn the_zero_byte_must_be_written_alone() {
    for n in [0, 2] {
        let mut handshake = ClientHandshake::new(None, 1000);
        handshake.start().unwrap();
        assert!(matches!(handshake.written(n), Err(Error::Handshake(_))));
    }
    let mut handshake = ClientHandshake::new(None, 1000);
    handshake.start().unwrap();
    handshake.written(1).unwrap();
    assert_eq!(
        handshake.written(0).unwrap_err(),
        Error::InputOutput(IoKind::WriteZero)
    );
    assert!(matches!(handshake.written(25), Err(Error::Handshake(_))));
}

#[test]
fn server_guid_must_match() {
    let ok = format!("OK {GUID}\r\n");
    let expected = Guid::from_str(GUID).unwrap();
    let mut handshake = ClientHandshake::new(Some(expected), 1000);
    let (_, result) = converse(&mut handshake, &[ok.as_bytes(), b"AGREE_UNIX_FD\r\n"]);
    assert!(result.is_ok());
    let other = Guid::from_str("ffffffffffffffffffffffffffffffff").unwrap();
    let mut handshake = ClientHandshake::new(Some(other), 1000);
    let (sent, result) = converse(&mut handshake, &[ok.as_bytes(), b"AGREE_UNIX_FD\r\n"]);
    assert_eq!(sent, b"\0AUTH EXTERNAL 31303030\r\n");
    assert!(matches!(result, Err(Error::Handshake(_))));
}

fn cookie_handshake() -> ClientHandshake {
    let mut handshake =
        ClientHandshake::with_mechanisms(None, 1000, vec![AuthMechanism::Cookie], true);
    match handshake.start().unwrap() {
        Action::Write(bytes) => assert_eq!(bytes, b"\0"),
        _ => panic!("the zero byte goes first"),
    }
    let auth = b"AUTH DBUS_COOKIE_SHA1 31303030\r\n";
    match handshake.written(1).unwrap() {
        Action::Write(bytes) => assert_eq!(bytes, auth),
        _ => panic!("AUTH follows the zero byte"),
    }
    assert_eq!(handshake.phase(), Phase::WaitingForData);
    assert!(matches!(handshake.written(auth.len()), Ok(Action::Read(64))));
    let mut data = b"DATA ".to_vec();
    write_hex(&mut data, b"org_freedesktop_general 42 0f1e2d");
    data.extend_from_slice(b"\r\n");
    match handshake.received(&data, 0).unwrap() {
        Action::ReadKeyring(context) => assert_eq!(context, b"org_freedesktop_general"),
        _ => panic!("the keyring is asked for"),
    }
    assert_eq!(handshake.phase(), Phase::WaitingForKeyring);
    handshake
}

const KEYRING: &[u8] = b"7 1700000000 aaaa\n\n42 1700000001 c00c1e\r\n43 1700000002 bbbb";

#[test]
fn cookie_conversation() {
    let mut handshake = cookie_handshake();
    let input = match handshake.keyring(0o100600, KEYRING, b"abcdefghijklmnop").unwrap() {
        Action::Digest(input) => input,
        _ => panic!("the digest is asked for"),
    };
    assert_eq!(input, b"0f1e2d:abcdefghijklmnop:c00c1e");
    assert_eq!(handshake.phase(), Phase::WaitingForDigest);
    let digest: Vec<u8> = (0..20u8).collect();
    let sent = match handshake.digest(&digest).unwrap() {
        Action::Write(bytes) => bytes,
        _ => panic!("the answer is sent"),
    };
    let mut expected = b"DATA ".to_vec();
    write_hex(
        &mut expected,
        b"abcdefghijklmnop 000102030405060708090a0b0c0d0e0f10111213",
    );
    expected.extend_from_slice(b"\r\n");
    assert_eq!(sent, expected);
    assert_eq!(handshake.phase(), Phase::WaitingForOk);
    assert!(matches!(handshake.written(sent.len()), Ok(Action::Read(64))));
    let ok = format!("OK {GUID}\r\n");
    assert!(matches!(
        handshake.received(ok.as_bytes(), 0),
        Ok(Action::Write(_))
    ));
}

#[test]
fn keyring_must_be_private() {
    for mode in [0o644, 0o660, 0o606, 0o602, 0o640, 0o100664, 0o777] {
        let mut handshake = cookie_handshake();
        assert!(matches!(
            handshake.keyring(mode, KEYRING, b"abcdefghijklmnop"),
            Err(Error::Handshake(_))
        ));
        assert!(!keyring_is_private(mode));
    }
    for mode in [0o600, 0o400, 0o700, 0o100600, 0o711] {
        assert!(keyring_is_private(mode));
        let mut handshake = cookie_handshake();
        assert!(handshake.keyring(mode, KEYRING, b"abcdefghijklmnop").is_ok());
    }
}

#[test]
fn cookie_failures() {
    let mut handshake = cookie_handshake();
    assert!(matches!(
        handshake.keyring(0o600, b"1 2 three\n", b"abcdefghijklmnop"),
        Err(Error::Handshake(_))
    ));
    let mut handshake = cookie_handshake();
    assert!(matches!(
        handshake.keyring(0o600, b"42 1700000001\n", b"abcdefghijklmnop"),
        Err(Error::Handshake(_))
    ));
    let mut handshake = cookie_handshake();
    assert!(matches!(
        handshake.keyring(0o600, KEYRING, b"too short"),
        Err(Error::Handshake(_))
    ));
    let mut handshake = cookie_handshake();
    assert!(matches!(
        handshake.keyring(0o600, KEYRING, b"abcdefghijklmno!"),
        Err(Error::Handshake(_))
    ));
    let mut handshake = cookie_handshake();
    assert!(matches!(handshake.digest(&[0; 20]), Err(Error::Handshake(_))));
    let mut handshake = cookie_handshake();
    handshake.keyring(0o600, KEYRING, b"abcdefghijklmnop").unwrap();
    assert!(matches!(handshake.digest(&[0; 19]), Err(Error::Handshake(_))));
    let mut handshake = ClientHandshake::new(None, 1);
    assert!(matches!(
        handshake.keyring(0o600, KEYRING, b"abcdefghijklmnop"),
        Err(Error::Handshake(_))
    ));
}

#[test]
fn challenge_parsing() {
    let challenge = parse_challenge(b"ctx 12 abc extra").unwrap();
    assert_eq!(challenge.context, b"ctx");
    assert_eq!(challenge.id, 12);
    assert_eq!(challenge.server_challenge, b"abc");
    assert!(parse_challenge(b"ctx 12").is_none());
    assert!(parse_challenge(b"").is_none());
    assert!(parse_challenge(b"ctx x abc").is_none());
    assert!(parse_challenge(b"a/b 1 abc").is_none());
    assert!(parse_challenge(b"a.b 1 abc").is_none());
    assert!(parse_challenge(b"a\\b 1 abc").is_none());
    assert!(parse_challenge(b"\xc3\xa9 1 abc").is_none());
    assert!(check_context(b"org_freedesktop_general"));
    assert!(!check_context(b""));
    assert!(!check_context(b"a b"));
}

#[test]
fn decimal_numbers() {
    assert_eq!(parse_decimal(b"0"), Some(0));
    assert_eq!(parse_decimal(b"007"), Some(7));
    assert_eq!(parse_decimal(b"18446744073709551615"), Some(u64::MAX));
    assert_eq!(parse_decimal(b"18446744073709551616"), None);
    assert_eq!(parse_decimal(b"99999999999999999999999"), None);
    assert_eq!(parse_decimal(b""), None);
    assert_eq!(parse_decimal(b"-1"), None);
    assert_eq!(parse_decimal(b"1a"), None);
    for (n, text) in [(0u32, "0"), (9, "9"), (10, "10"), (1000, "1000"), (u32::MAX, "4294967295")] {
        let mut out = b"x".to_vec();
        write_decimal(&mut out, n);
        assert_eq!(out, format!("x{text}").as_bytes());
    }
}

#[test]
fn cookie_lookup() {
    assert_eq!(find_cookie(KEYRING, 42), Ok(Some(b"c00c1e".to_vec())));
    assert_eq!(find_cookie(KEYRING, 7), Ok(Some(b"aaaa".to_vec())));
    assert_eq!(find_cookie(KEYRING, 43), Ok(Some(b"bbbb".to_vec())));
    assert_eq!(find_cookie(KEYRING, 1), Ok(None));
    assert_eq!(find_cookie(b"", 1), Ok(None));
    assert_eq!(find_cookie(b"\n\n  \n", 1), Ok(None));
    assert_eq!(find_cookie(b"1 2 first\n1 3 second\n", 1), Ok(Some(b"first".to_vec())));
    assert_eq!(find_cookie(b"1 2 first\nbroken\n", 1), Err(()));
    assert_eq!(find_cookie(b"x 2 first\n", 1), Err(()));
    assert_eq!(
        digest_input(b"server", b"client", b"cookie"),
        b"server:client:cookie"
    );
    assert_eq!(cookie_response(b"client", &[0xab, 0x01]), b"client ab01");
    assert!(check_client_challenge(b"ABCDEFGHIJKLMNO9"));
    assert!(!check_client_challenge(b"ABCDEFGHIJKLMNO"));
    assert!(!check_client_challenge(b"ABCDEFGHIJKLMNO_"));
}

#[test]
fn hex() {
    assert_eq!(bytes_to_hex(&[]), "");
    assert_eq!(bytes_to_hex(&[0x00, 0x0f, 0xa3, 0xff]), "000fa3ff");
    assert_eq!(bytes_to_hex(b"1000"), "31303030");
    let mut out = Vec::new();
    write_hex(&mut out, &[0x00, 0x0f, 0xa3, 0xff]);
    assert_eq!(out, b"000fa3ff");
    assert_eq!(hex_decode(b"000fA3Ff"), Some(vec![0x00, 0x0f, 0xa3, 0xff]));
    assert_eq!(hex_decode(b""), Some(vec![]));
    assert_eq!(hex_decode(b"0"), None);
    assert_eq!(hex_decode(b"000"), None);
    assert_eq!(hex_decode(b"0g"), None);
    assert_eq!(hex_decode(b"g0"), None);
    assert_eq!(hex_decode(b"zz00"), None);
}

#[test]
fn words() {
    assert_eq!(split_words(b""), vec![]);
    assert_eq!(split_words(b" \t\r\n"), vec![]);
    assert_eq!(split_words(b"OK abc\r\n"), vec![(0, 2), (3, 6)]);
    assert_eq!(split_words(b"  a  bc\x0cd"), vec![(2, 3), (5, 7), (8, 9)]);
}

#[test]
fn commands_as_text() {
    let text = |command: Command| String::from_utf8(command.to_bytes()).unwrap();
    assert_eq!(
        text(Command::Auth(
            Some(AuthMechanism::External),
            Some(b"1000".to_vec())
        )),
        "AUTH EXTERNAL 31303030\r\n"
    );
    assert_eq!(
        text(Command::Auth(Some(AuthMechanism::Cookie), None)),
        "AUTH DBUS_COOKIE_SHA1\r\n"
    );
    assert_eq!(text(Command::Auth(None, Some(vec![1]))), "AUTH\r\n");
    assert_eq!(text(Command::Cancel), "CANCEL\r\n");
    assert_eq!(text(Command::Begin), "BEGIN\r\n");
    assert_eq!(text(Command::Data(Some(vec![0xab]))), "DATA ab\r\n");
    assert_eq!(text(Command::Data(None)), "DATA\r\n");
    assert_eq!(text(Command::Error("why".to_string())), "ERROR why\r\n");
    assert_eq!(text(Command::NegotiateUnixFD), "NEGOTIATE_UNIX_FD\r\n");
    assert_eq!(
        text(Command::Rejected(vec![
            AuthMechanism::External,
            AuthMechanism::Anonymous
        ])),
        "REJECTED EXTERNAL ANONYMOUS\r\n"
    );
    assert_eq!(text(Command::Rejected(vec![])), "REJECTED\r\n");
    assert_eq!(
        text(Command::Okay(Guid::from_str(GUID).unwrap())),
        format!("OK {GUID}\r\n")
    );
    assert_eq!(text(Command::AgreeUnixFD), "AGREE_UNIX_FD\r\n");
}

#[test]
fn commands_from_text() {
    assert!(matches!(Command::from_str("CANCEL\r\n"), Ok(Command::Cancel)));
    assert!(matches!(Command::from_str("  BEGIN x y\r\n"), Ok(Command::Begin)));
    assert!(matches!(
        Command::from_str("NEGOTIATE_UNIX_FD"),
        Ok(Command::NegotiateUnixFD)
    ));
    assert!(matches!(
        Command::from_str("AGREE_UNIX_FD\r\n"),
        Ok(Command::AgreeUnixFD)
    ));
    match Command::from_str("ERROR some reason\r\n").unwrap() {
        Command::Error(text) => assert_eq!(text, "ERROR some reason\r\n"),
        _ => panic!("an error was sent"),
    }
    match Command::from_str("REJECTED EXTERNAL DBUS_COOKIE_SHA1 ANONYMOUS\r\n").unwrap() {
        Command::Rejected(m) => assert_eq!(
            m,
            vec![
                AuthMechanism::External,
                AuthMechanism::Cookie,
                AuthMechanism::Anonymous
            ]
        ),
        _ => panic!("a rejection was sent"),
    }
    match Command::from_str("DATA 6869\r\n").unwrap() {
        Command::Data(d) => assert_eq!(d, Some(b"hi".to_vec())),
        _ => panic!("data was sent"),
    }
    assert!(matches!(Command::from_str("DATA\r\n"), Ok(Command::Data(None))));
    match Command::parse(format!("OK {GUID} more\r\n").as_bytes()).unwrap() {
        Command::Okay(guid) => assert_eq!(guid.as_bytes(), GUID.as_bytes()),
        _ => panic!("the client was accepted"),
    }
    for line in ["", "\r\n", "OK", "OK short", "DATA xyz", "REJECTED NOPE", "AUTH", "begin"] {
        assert!(
            matches!(Command::from_str(line), Err(Error::Handshake(_))),
            "{line}"
        );
    }
    assert!(matches!(
        Command::parse(b"BEGIN \xff\r\n"),
        Err(Error::Handshake(_))
    ));
}

#[test]
fn mechanisms() {
    assert_eq!(AuthMechanism::External.as_str(), "EXTERNAL");
    assert_eq!(AuthMechanism::Cookie.to_string(), "DBUS_COOKIE_SHA1");
    assert_eq!(AuthMechanism::Anonymous.to_string(), "ANONYMOUS");
    assert_eq!(AuthMechanism::from_str("EXTERNAL"), Ok(AuthMechanism::External));
    assert_eq!(
        AuthMechanism::from_str("DBUS_COOKIE_SHA1"),
        Ok(AuthMechanism::Cookie)
    );
    assert_eq!(AuthMechanism::from_str("ANONYMOUS"), Ok(AuthMechanism::Anonymous));
    assert!(matches!(
        AuthMechanism::from_str("external"),
        Err(Error::Handshake(_))
    ));
}

#[test]
fn common_buffers() {
    let mut common = HandshakeCommon::new();
    assert!(matches!(common.read_command(), Ok(None)));
    common.write_command(Command::Begin);
}

#[test]
fn guids() {
    assert!(Guid::from_str(GUID).is_ok());
    assert!(Guid::from_str("0123456789ABCDEF0123456789abcdef").is_ok());
    assert!(matches!(Guid::from_str(""), Err(Error::Address(_))));
    assert!(matches!(Guid::from_str(&GUID[1..]), Err(Error::Address(_))));
    assert!(matches!(
        Guid::from_str("0123456789abcdef0123456789abcdeg"),
        Err(Error::Address(_))
    ));
    let a = Guid::from_str(GUID).unwrap();
    let b = a.clone();
    assert!(a.same_as(&b));
    assert!(!a.same_as(&Guid::from_str("0123456789ABCDEF0123456789abcdef").unwrap()));
}
