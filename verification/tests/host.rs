//! The host's side: connectors, the qualifier's command line, and cards.
use p256::elliptic_curve::sec1::ToSec1Point;
use virtual_yubihsm::connector::{
    parse_http_response, ConnectorHttpTransport, TransportErrorKind,
};
use virtual_yubihsm::qualification::Profile;
use virtual_yubihsm::qualifier::{
    authentication_key_id, chain, choose_card, continues, credential_source, ephemeral_secret,
    is_asked_reader, is_point, parse_arguments, split_response, split_session_keys, AgreementError,
    CredentialSource, SelectionError, Target, UsageError,
};

fn texts(arguments: &[&str]) -> Vec<String> {
    arguments.iter().map(|value| (*value).to_owned()).collect()
}

#[test]
fn qualifiers_read_their_command_line() {
    assert_eq!(
        parse_arguments(&texts(&["core"])),
        Ok((Target::Core, Profile::Ephemeral))
    );
    assert_eq!(
        parse_arguments(&texts(&["core", "managed"])),
        Ok((Target::Core, Profile::Managed))
    );
    let connector = Target::Connector {
        url: "http://localhost".to_owned(),
        serial: "7".to_owned(),
    };
    assert_eq!(
        parse_arguments(&texts(&["connector", "http://localhost", "7"])),
        Ok((connector.clone(), Profile::Smoke))
    );
    assert_eq!(
        parse_arguments(&texts(&["connector", "http://localhost", "7", "extensions"])),
        Ok((connector, Profile::Extensions))
    );
    assert_eq!(
        parse_arguments(&texts(&["connector", "http://localhost", "7", "ephemeral"])),
        Err(UsageError::Ephemeral)
    );
    assert_eq!(
        parse_arguments(&texts(&["core", "everything"])),
        Err(UsageError::Usage)
    );
    assert_eq!(parse_arguments(&[]), Err(UsageError::Usage));
}

#[test]
fn credentials_come_from_the_first_source_there_is() {
    assert_eq!(authentication_key_id(None), Some(1));
    assert_eq!(authentication_key_id(Some("23")), Some(23));
    assert_eq!(authentication_key_id(Some("65536")), None);
    assert_eq!(
        credential_source(Profile::Smoke, false, true, true, true),
        CredentialSource::NotNeeded
    );
    assert_eq!(
        credential_source(Profile::Managed, true, true, true, true),
        CredentialSource::Factory
    );
    assert_eq!(
        credential_source(Profile::Managed, false, true, true, true),
        CredentialSource::HsmAuth
    );
    assert_eq!(
        credential_source(Profile::Managed, false, false, true, true),
        CredentialSource::Platform
    );
    assert_eq!(
        credential_source(Profile::Extensions, false, false, false, true),
        CredentialSource::Password
    );
    assert_eq!(
        credential_source(Profile::Extensions, false, false, false, false),
        CredentialSource::Missing
    );
}

#[test]
fn session_keys_are_four_parts() {
    let keys: Vec<u8> = (0..64).collect();
    let split = split_session_keys(&keys).unwrap();
    assert_eq!(split.receipt, keys[..16]);
    assert_eq!(split.encryption, keys[16..32]);
    assert_eq!(split.mac, keys[32..48]);
    assert_eq!(split.response_mac, keys[48..]);
    assert_eq!(split_session_keys(&keys[1..]), Err(63));
}

#[test]
fn hosts_and_devices_agree_on_a_secret() {
    let public = |byte: u8| {
        let secret = p256::SecretKey::from_slice(&[byte; 32]).unwrap();
        secret.public_key().to_sec1_point(false).as_bytes().to_vec()
    };
    let context = [public(3), public(4)].concat();
    let shared = ephemeral_secret(&[3; 32], &public(3), &context).unwrap();
    let back = [public(4), public(3)].concat();
    assert_eq!(
        ephemeral_secret(&[4; 32], &public(4), &back).unwrap(),
        shared
    );
    assert_eq!(
        ephemeral_secret(&[3; 32], &public(4), &context),
        Err(AgreementError::HostKey)
    );
    assert_eq!(
        ephemeral_secret(&[3; 32], &public(3), &context[..129]),
        Err(AgreementError::HostKey)
    );
    let mut broken = context.clone();
    broken[66] ^= 1;
    assert_eq!(
        ephemeral_secret(&[3; 32], &public(3), &broken),
        Err(AgreementError::DeviceKey)
    );
    assert!(is_point(&public(3)));
    assert!(!is_point(&public(3)[1..]));
}

#[test]
fn one_card_has_to_hold_the_credential() {
    let point = Some([vec![4], vec![7; 64]].concat());
    let other = Some(vec![4; 64]);
    assert_eq!(choose_card(&[]), Err(SelectionError::Missing));
    assert_eq!(choose_card(&[None, other.clone()]), Err(SelectionError::Missing));
    assert_eq!(choose_card(&[None, other, point.clone()]), Ok(2));
    assert_eq!(choose_card(&[point.clone(), None, point]), Err(SelectionError::Ambiguous));
    assert!(is_asked_reader("Yubico YubiKey 01", None));
    assert!(is_asked_reader("Yubico YubiKey 01", Some("YubiKey")));
    assert!(is_asked_reader("Yubico YubiKey 01", Some("")));
    assert!(is_asked_reader("Yubico YubiKey 01", Some("01")));
    assert!(!is_asked_reader("Yubico YubiKey 01", Some("02")));
    assert!(!is_asked_reader("01", Some("Yubico YubiKey 01")));
}

#[test]
fn cards_take_long_data_in_pieces() {
    assert_eq!(chain(0x80, 1, 2, 3, &[]), [vec![0x80, 1, 2, 3, 0]]);
    let data: Vec<u8> = (0..600).map(|byte| byte as u8).collect();
    let commands = chain(0x00, 1, 2, 3, &data);
    assert_eq!(commands.len(), 3);
    assert_eq!(commands[0][..5], [0x10, 1, 2, 3, 255]);
    assert_eq!(commands[1][..5], [0x10, 1, 2, 3, 255]);
    assert_eq!(commands[2][..5], [0x00, 1, 2, 3, 90]);
    let carried: Vec<u8> = commands
        .iter()
        .flat_map(|command| command[5..].to_vec())
        .collect();
    assert_eq!(carried, data);
    assert_eq!(split_response(&[7, 0x90, 0]), Some((vec![7], 0x9000)));
    assert_eq!(split_response(&[0x90]), None);
    assert!(continues(&[], 0x9000));
    assert!(!continues(&[7], 0x9000));
    assert!(!continues(&[], 0x6a80));
}

#[test]
fn connectors_are_found_by_their_address() {
    let transport = ConnectorHttpTransport::new("http://hsm.example/", "7").unwrap();
    assert_eq!(transport.host, "hsm.example");
    assert_eq!(transport.port, 80);
    assert_eq!(transport.path, "/v1/devices/7/commands");
    let Err(error) = ConnectorHttpTransport::new("https://hsm.example", "7") else {
        panic!("a connector without TLS took an address with it");
    };
    assert_eq!(error.kind(), TransportErrorKind::Other);
    assert!(ConnectorHttpTransport::new("http://hsm.example:99999", "7").is_err());
}

#[test]
fn connector_addresses_may_name_a_port_and_a_path() {
    let transport = ConnectorHttpTransport::new("http://[::1]:8080/hsm/", "AB12").unwrap();
    assert_eq!(transport.host, "::1");
    assert_eq!(transport.port, 8080);
    assert_eq!(transport.path, "/hsm/v1/devices/AB12/commands");
    assert_eq!(transport.timeout, 120_000);
    let message = |url: &str, serial: &str| match ConnectorHttpTransport::new(url, serial) {
        Ok(_) => panic!("accepted {url} {serial}"),
        Err(error) => error.message().to_owned(),
    };
    assert_eq!(
        message("ftp://host", "7"),
        "connector URL must start with http://"
    );
    assert_eq!(message("http:///path", "7"), "connector URL has no host");
    assert_eq!(
        message("http://[::1", "7"),
        "invalid bracketed IPv6 connector host"
    );
    assert_eq!(message("http://[::1]x", "7"), "invalid connector authority");
    assert_eq!(
        message("http://host", "7/8"),
        "serial must contain only ASCII letters and digits"
    );
    let transport = ConnectorHttpTransport::new("http://host:1234", "7")
        .unwrap()
        .with_timeout(5);
    assert_eq!(transport.timeout, 5);
    assert_eq!(transport.description(), "connector http://host:1234 serial 7");
    let head = transport.request_head(12);
    assert!(head.starts_with("POST /v1/devices/7/commands HTTP/1.1\r\n"));
    assert!(head.contains("Content-Length: 12\r\n"));
    assert!(head.ends_with("\r\n\r\n"));
}

#[test]
fn connector_responses_are_read_by_length_or_in_chunks() {
    let body = |text: &[u8]| parse_http_response(text).map_err(|error| error.message().to_owned());
    assert_eq!(
        body(b"HTTP/1.1 200 OK\r\nContent-Length: 3\r\n\r\nabc").unwrap(),
        b"abc"
    );
    assert_eq!(
        body(b"HTTP/1.1 200 OK\r\nTransfer-Encoding: chunked\r\n\r\n2\r\nab\r\n1\r\nc\r\n0\r\n\r\n")
            .unwrap(),
        b"abc"
    );
    assert_eq!(body(b"HTTP/1.1 200 OK\r\n\r\nabc").unwrap(), b"abc");
    for (response, message) in [
        (
            &b"HTTP/1.1 200 OK\r\nContent-Length: 4\r\n\r\nabc"[..],
            "connector response body was 3 bytes, expected 4",
        ),
        (
            b"HTTP/1.1 200 OK\r\ncontent-length: x\r\n\r\nabc",
            "connector returned invalid Content-Length",
        ),
        (
            b"HTTP/1.1 500 Oops\r\n\r\nbroken",
            "connector returned HTTP 500: broken",
        ),
        (
            b"HTTP/1.1\r\n\r\n",
            "connector returned an invalid HTTP status",
        ),
        (
            b"HTTP/1.1 200 \xff\r\n\r\n",
            "connector returned non-UTF-8 HTTP headers",
        ),
        (
            b"nonsense",
            "connector returned an invalid HTTP response (8 bytes)",
        ),
        (
            b"HTTP/1.1 200 OK\r\nTransfer-Encoding: CHUNKED\r\n\r\nzz\r\nab\r\n",
            "invalid chunk length",
        ),
        (
            b"HTTP/1.1 200 OK\r\nTransfer-Encoding: chunked\r\n\r\n3\r\nab\r\n",
            "truncated chunked connector response",
        ),
        (
            b"HTTP/1.1 200 OK\r\nTransfer-Encoding: chunked\r\n\r\n3",
            "invalid chunked connector response",
        ),
    ] {
        assert_eq!(body(response), Err(message.to_owned()));
    }
    let refused = parse_http_response(
        b"HTTP/1.1 400 Bad\r\n\r\n{\"code\":\"invalid_command_frame\"}",
    )
    .unwrap_err();
    assert_eq!(refused.kind(), TransportErrorKind::InvalidCommandFrame);
}
