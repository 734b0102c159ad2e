use slimbus::message::{Builder, Message, SerialCounter};
use slimbus::{Error, ErrorKind};

/// Every text of at most `len` characters over the alphabet.
fn texts(alphabet: &[char], len: usize) -> Vec<String> {
    let mut all = vec![String::new()];
    let mut last = vec![String::new()];
    for _ in 0..len {
        let mut next = Vec::new();
        for text in &last {
            for c in alphabet {
                let mut longer = text.clone();
                longer.push(*c);
                next.push(longer);
            }
        }
        all.extend(next.iter().cloned());
        last = next;
    }
    all
}

fn builder(serials: &mut SerialCounter) -> Builder {
    Message::method("/", "M", serials).unwrap()
}

fn is_alphanumeric(c: char) -> bool {
    c.is_ascii_digit() || c.is_ascii_uppercase() || c.is_ascii_lowercase()
}

/// The object path grammar, written out.
fn is_object_path(path: &str) -> bool {
    let chars: Vec<char> = path.chars().collect();
    !chars.is_empty()
        && chars[0] == '/'
        && chars.iter().all(|c| is_alphanumeric(*c) || *c == '/' || *c == '_')
        && (1..chars.len()).all(|i| !(chars[i] == '/' && chars[i - 1] == '/'))
        && (chars.len() == 1 || chars[chars.len() - 1] != '/')
}

/// The member name grammar, written out.
fn is_member_name(name: &str) -> bool {
    let chars: Vec<char> = name.chars().collect();
    !chars.is_empty()
        && chars.len() <= 255
        && !chars[0].is_ascii_digit()
        && chars.iter().all(|c| is_alphanumeric(*c) || *c == '_')
}

#[test]
fn object_paths_follow_the_grammar() {
    let mut serials = SerialCounter::new();
    for text in texts(&['/', 'a', 'Z', '_', '7', '-', '.', 'é', '\0'], 4) {
        let result = builder(&mut serials).path(&text);
        match result {
            Ok(b) => {
                assert!(is_object_path(&text), "{text:?}");
                let message = b.build_raw_body(&[], "", vec![]).unwrap();
                assert_eq!(message.header().path().unwrap(), &text);
            }
            Err(e) => {
                assert!(!is_object_path(&text), "{text:?}");
                assert_eq!(e.kind(), ErrorKind::Type);
            }
        }
    }
    assert!(builder(&mut serials).path(&format!("/{}", "a".repeat(5000))).is_ok());
}

#[test]
fn member_names_follow_the_grammar() {
    let mut serials = SerialCounter::new();
    for text in texts(&['a', 'Z', '_', '7', '-', '.', ' ', 'é', '\0'], 4) {
        let result = builder(&mut serials).member(&text);
        match result {
            Ok(b) => {
                assert!(is_member_name(&text), "{text:?}");
                let message = b.build_raw_body(&[], "", vec![]).unwrap();
                assert_eq!(message.header().member().unwrap(), &text);
            }
            Err(e) => {
                assert!(!is_member_name(&text), "{text:?}");
                assert_eq!(e.kind(), ErrorKind::Name);
            }
        }
    }
    // the limit counts bytes: 128 characters of two bytes each are too long,
    // and are refused for their characters anyway
    assert!(builder(&mut serials).member(&"é".repeat(128)).is_err());
    assert!(builder(&mut serials).member(&"a".repeat(255)).is_ok());
    assert!(builder(&mut serials).member(&"a".repeat(256)).is_err());
}

/// The grammar of dotted names, written out.
fn is_dotted_name(name: &str, hyphen: bool) -> bool {
    let chars: Vec<char> = name.chars().collect();
    let element = |c: char| is_alphanumeric(c) || c == '_' || (hyphen && c == '-');
    (3..=255).contains(&chars.len())
        && chars.iter().all(|c| *c == '.' || element(*c))
        && (0..chars.len()).all(|i| chars[i] != '.' || (i > 0 && chars[i - 1] != '.'))
        && (0..chars.len())
            .all(|i| !chars[i].is_ascii_digit() || (i > 0 && chars[i - 1] != '.'))
        && chars.contains(&'.')
}

/// The grammar of unique names, written out.
fn is_unique_name(name: &str) -> bool {
    let chars: Vec<char> = name.chars().collect();
    let element = |c: char| is_alphanumeric(c) || c == '_' || c == '-';
    name == "org.freedesktop.DBus"
        || ((1..=255).contains(&chars.len())
            && chars[0] == ':'
            && chars[1..].iter().all(|c| *c == '.' || element(*c))
            && (1..chars.len()).all(|i| chars[i] != '.' || chars[i - 1] != '.')
            && chars[1..].contains(&'.'))
}

#[test]
fn dotted_names_follow_the_grammar() {
    let mut serials = SerialCounter::new();
    let call = builder(&mut serials).build_raw_body(&[], "", vec![]).unwrap();
    let mut names = texts(&[':', '.', 'a', 'Z', '_', '1', '-', ' ', 'é'], 5);
    for text in [
        "org.freedesktop.DBus",
        "org.freedesktop.DBus.",
        "org.freedesktop.dbus",
        ":org.freedesktop.DBus",
        "a.b\0",
        "a.b.c-d",
        "a.b.9",
        "a.b9",
        "com.example.Name_1",
    ] {
        names.push(text.to_string());
    }
    for len in [253usize, 254, 255, 256] {
        names.push(format!("a.{}", "b".repeat(len - 2)));
        names.push(format!(":.{}", "b".repeat(len - 2)));
        names.push(format!(":{}.", "b".repeat(len - 2)));
    }
    names.push("é.".repeat(64));
    names.push(format!(":{}", "é.".repeat(64)));
    for text in names {
        let interface = builder(&mut serials).interface(&text).is_ok();
        assert_eq!(interface, is_dotted_name(&text, false), "interface {text:?}");
        let error = Message::method_error(&call, &text, &mut serials).is_ok();
        assert_eq!(error, is_dotted_name(&text, false), "error {text:?}");
        let sender = builder(&mut serials).sender(&text).is_ok();
        assert_eq!(sender, is_unique_name(&text), "sender {text:?}");
        let destination = builder(&mut serials).destination(&text).is_ok();
        assert_eq!(
            destination,
            is_unique_name(&text) || is_dotted_name(&text, true),
            "destination {text:?}"
        );
    }
}

#[test]
fn other_names_are_checked_without_surprises() {
    let mut serials = SerialCounter::new();
    let alphabet = [':', '.', 'a', 'Z', '_', '1', '-', ' ', 'é'];
    let mut accepted = [0usize; 4];
    for text in texts(&alphabet, 5) {
        let checks: [Result<Builder, Error>; 4] = [
            builder(&mut serials).interface(&text),
            builder(&mut serials).destination(&text),
            builder(&mut serials).sender(&text),
            Message::method_error(
                &builder(&mut serials).build_raw_body(&[], "", vec![]).unwrap(),
                &text,
                &mut serials,
            ),
        ];
        for (i, check) in checks.into_iter().enumerate() {
            match check {
                Ok(b) => {
                    accepted[i] += 1;
                    // what was accepted is written and read back
                    let message = b.build_raw_body(&[], "", vec![]).unwrap();
                    let header = message.header();
                    let field = match i {
                        0 => header.interface(),
                        1 => header.destination(),
                        2 => header.sender(),
                        _ => header.error_name(),
                    };
                    assert_eq!(field.unwrap(), &text);
                    assert!(text.is_ascii());
                    assert!(text.contains('.'));
                }
                Err(e) => assert_eq!(e.kind(), ErrorKind::Name),
            }
        }
    }
    assert!(accepted.iter().all(|n| *n > 0));
    // a unique name is a bus name
    assert!(builder(&mut serials).destination(":1.2").is_ok());
    assert!(builder(&mut serials).sender(":1.2").is_ok());
    assert!(builder(&mut serials).interface(":1.2").is_err());
}

#[test]
fn signatures_are_checked_without_surprises() {
    let mut serials = SerialCounter::new();
    let alphabet = ['(', ')', '{', '}', 'a', 's', 'v', 'u', 'h', 'z', ' '];
    let mut accepted = 0;
    for text in texts(&alphabet, 4) {
        let fds = if text.is_empty() { vec![] } else { vec![1] };
        match builder(&mut serials).build_raw_body(&[0; 8], &text, fds) {
            Ok(message) => {
                accepted += 1;
                let stripped = if text.len() >= 2 && text.starts_with('(') {
                    &text[1..text.len() - 1]
                } else {
                    &text[..]
                };
                if text.is_empty() {
                    assert_eq!(message.header().signature(), None);
                } else {
                    assert_eq!(message.header().signature().unwrap(), stripped);
                }
            }
            Err(e) => assert_eq!(e.kind(), ErrorKind::Signature, "{text:?}"),
        }
    }
    assert!(accepted > 10);
    for text in ["a{sv}", "(a{sv}as)", "aaaaau", "a(ii)", "(i(ii))"] {
        assert!(builder(&mut serials)
            .build_raw_body(&[0; 8], text, vec![])
            .is_ok());
    }
    for text in ["é", "a", "a{", "a{s", "a{sv", "(((", "u\0"] {
        assert!(
            matches!(
                builder(&mut serials).build_raw_body(&[0; 8], text, vec![]),
                Err(Error::Signature(_))
            ),
            "{text:?}"
        );
    }
    // whatever the answer is, it is an answer
    for text in ["{sv}", "a{vs}", "a{{ss}s}", "a{(s)s}"] {
        if let Err(e) = builder(&mut serials).build_raw_body(&[0; 8], text, vec![]) {
            assert_eq!(e.kind(), ErrorKind::Signature, "{text:?}");
        }
    }
    assert!(builder(&mut serials)
        .build_raw_body(&[0; 8], &"a".repeat(254), vec![])
        .is_err());
    let nested = format!("{}u", "a".repeat(200));
    let _ = builder(&mut serials).build_raw_body(&[0; 8], &nested, vec![]);
}
