use slimbus::address::{Address, SocketName, UnixSocket};
use slimbus::Error;

#[test]
fn parse_session_default() {
    let address = Address::session(None, Some("/run/user/1000"), 1000).unwrap();
    assert_eq!(
        address.transport().unix().path(),
        &UnixSocket::File(b"/run/user/1000/bus".to_vec())
    );
    assert!(address.guid().is_none());
}

#[test]
fn parse_session_without_runtime_dir() {
    let address = Address::session(None, None, 1000).unwrap();
    assert_eq!(
        address.transport().unix().path(),
        &UnixSocket::File(b"/run/user/1000/bus".to_vec())
    );
}

#[test]
fn parse_session_from_environment() {
    let address = Address::session(Some("unix:abstract=/tmp/dbus-x"), Some("/run/user/1"), 7).unwrap();
    assert_eq!(
        address.transport().unix().path(),
        &UnixSocket::Abstract(b"/tmp/dbus-x".to_vec())
    );
}

#[test]
fn parse_system_default() {
    let address = Address::system(None).unwrap();
    assert_eq!(
        address.transport().unix().path(),
        &UnixSocket::File(b"/var/run/dbus/system_bus_socket".to_vec())
    );
}

#[test]
fn address_with_guid() {
    let address =
        Address::from_str("unix:path=/tmp/bus,guid=0123456789abcdef0123456789abcdef").unwrap();
    assert_eq!(
        address.transport().unix().path(),
        &UnixSocket::File(b"/tmp/bus".to_vec())
    );
    assert_eq!(
        address.guid().unwrap().as_bytes(),
        b"0123456789abcdef0123456789abcdef"
    );
}

#[test]
fn reject_duplicate_keys() {
    assert!(matches!(
        Address::from_str("unix:path=/a,path=/b"),
        Err(Error::Address(_))
    ));
}

#[test]
fn reject_malformed_addresses() {
    for text in [
        "",
        "unix",
        "unix:",
        "unix:path",
        "unix:path=/a,",
        "unix:path=/a,abstract=b",
        "unix:foo=bar",
        "tcp:host=localhost,port=1",
        "unix:path=/a b",
        "unix:path=/a%2",
        "unix:path=/a%zz",
        "unix:path=/a,guid=1234",
        "unix:path=/a,guid=0123456789abcdef0123456789abcdeg",
    ] {
        assert!(
            matches!(Address::from_str(text), Err(Error::Address(_))),
            "{text}"
        );
    }
}

#[test]
fn percent_decoding() {
    let address = Address::from_str("unix:path=/tmp/a%20b%2Fc%2fd").unwrap();
    assert_eq!(
        address.transport().unix().path(),
        &UnixSocket::File(b"/tmp/a b/c/d".to_vec())
    );
    let address = Address::from_str("unix:path=/A-z_0.9*\\").unwrap();
    assert_eq!(
        address.transport().unix().path(),
        &UnixSocket::File(b"/A-z_0.9*\\".to_vec())
    );
}

#[test]
fn unknown_keys_are_passed_over() {
    let address = Address::from_str("unix:dir=/tmp,runtime=yes").unwrap();
    assert_eq!(
        address.transport().unix().path(),
        &UnixSocket::Dir(b"/tmp".to_vec())
    );
}

#[test]
fn only_files_and_abstract_sockets_connect() {
    let name = Address::from_str("unix:path=/tmp/bus")
        .unwrap()
        .into_transport()
        .socket_name();
    assert_eq!(name, Ok(SocketName::Pathname(b"/tmp/bus".to_vec())));
    let name = Address::from_str("unix:abstract=bus")
        .unwrap()
        .into_transport()
        .socket_name();
    assert_eq!(name, Ok(SocketName::Abstract(b"bus".to_vec())));
    for text in ["unix:dir=/tmp", "unix:tmpdir=/tmp"] {
        let name = Address::from_str(text).unwrap().into_transport().socket_name();
        assert_eq!(name, Err(Error::Unsupported));
    }
}

#[test]
fn set_guid_checks_the_text() {
    let address = Address::from_str("unix:path=/tmp/bus").unwrap();
    let address = address.set_guid("0123456789ABCDEF0123456789abcdef").unwrap();
    assert_eq!(
        address.guid().unwrap().as_bytes(),
        b"0123456789ABCDEF0123456789abcdef"
    );
    assert!(matches!(address.set_guid("xyz"), Err(Error::Address(_))));
}
