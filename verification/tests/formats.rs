//! Registries, permissions, frames and request layouts.
use virtual_yubihsm::algorithm::Algorithm;
use virtual_yubihsm::authorization::SessionAuthorization;
use virtual_yubihsm::capability::{Capability, CapabilitySet};
use virtual_yubihsm::connector::ConnectorHttpTransport;
use virtual_yubihsm::error::DeviceError;
use virtual_yubihsm::frame::Frame;
use virtual_yubihsm::history::SequenceHistory;
use virtual_yubihsm::object::{ObjectInfo, ObjectMaterial, ObjectRecord, ObjectType};
use virtual_yubihsm::request::{ByteRequest, DeriveEcdhKdfRequest, ObjectRequest, SetOptionRequest};
use virtual_yubihsm::session::{pad, secure_response_data_fits, unpad};
use virtual_yubihsm::wire::{decode, Reader};

#[test]
fn official_registry_is_contiguous_and_x25519_is_the_first_extension() {
    assert_eq!(Algorithm::OFFICIAL.len(), 55);
    for (index, algorithm) in Algorithm::OFFICIAL.into_iter().enumerate() {
        assert_eq!(algorithm.to_byte() as usize, index + 1);
        assert_eq!(Algorithm::from_byte(algorithm.to_byte()), Some(algorithm));
    }
    assert_eq!(Algorithm::X25519.to_byte(), 56);
    assert_eq!(Algorithm::from_byte(56), Some(Algorithm::X25519));
    assert_eq!(Algorithm::from_byte(57), Some(Algorithm::EcdhKdf));
    assert_eq!(Algorithm::from_byte(58), None);
}

#[test]
fn asymmetric_wire_material_and_internal_object_sizes_are_distinct() {
    for (algorithm, material_length, object_length) in [
        (Algorithm::Rsa2048, 256, 896),
        (Algorithm::Rsa3072, 384, 1_344),
        (Algorithm::Rsa4096, 512, 1_792),
        (Algorithm::EcP224, 28, 84),
        (Algorithm::EcP256, 32, 96),
        (Algorithm::EcP384, 48, 144),
        (Algorithm::EcP521, 66, 198),
        (Algorithm::EcBrainpoolP512, 64, 192),
        (Algorithm::Ed25519, 32, 128),
        (Algorithm::X25519, 32, 64),
    ] {
        assert_eq!(algorithm.asymmetric_key_length(), Some(material_length));
        assert_eq!(algorithm.asymmetric_object_length(), Some(object_length));
    }
}

fn info(domains: u16, capabilities: CapabilitySet) -> ObjectInfo {
    ObjectInfo {
        capabilities,
        id: 2,
        length: 1,
        domains,
        object_type: ObjectType::Opaque,
        algorithm: 30,
        sequence: 1,
        origin: 1,
        label: b"test".to_vec(),
        delegated_capabilities: CapabilitySet::none(),
    }
}

fn session() -> SessionAuthorization {
    SessionAuthorization {
        authentication_key_id: 1,
        capabilities: CapabilitySet::from_capabilities([
            Capability::PutOpaque,
            Capability::GetOpaque,
        ]),
        delegated_capabilities: CapabilitySet::from_capabilities([Capability::GetOpaque]),
        domains: 0b0011,
    }
}

#[test]
fn existing_object_use_requires_session_object_and_domain_permissions() {
    let allowed = info(
        0b0010,
        CapabilitySet::from_capabilities([Capability::GetOpaque]),
    );
    session()
        .authorize_use(&allowed, Capability::GetOpaque, Capability::GetOpaque)
        .unwrap();

    let hidden = info(0b0100, allowed.capabilities);
    assert_eq!(
        session().authorize_use(&hidden, Capability::GetOpaque, Capability::GetOpaque),
        Err(DeviceError::ObjectNotFound)
    );

    let unusable = info(0b0001, CapabilitySet::none());
    assert_eq!(
        session().authorize_use(&unusable, Capability::GetOpaque, Capability::GetOpaque),
        Err(DeviceError::InsufficientPermissions)
    );
}

#[test]
fn creation_is_bounded_by_session_domains_and_delegated_capabilities() {
    let allowed = info(
        0b0011,
        CapabilitySet::from_capabilities([Capability::GetOpaque]),
    );
    session()
        .authorize_create(&allowed, Capability::PutOpaque)
        .unwrap();

    let too_many_domains = info(0b0101, allowed.capabilities);
    assert_eq!(
        session().authorize_create(&too_many_domains, Capability::PutOpaque),
        Err(DeviceError::InsufficientPermissions)
    );

    let too_many_capabilities = info(
        0b0001,
        CapabilitySet::from_capabilities([Capability::GetOpaque, Capability::SignEcdsa]),
    );
    assert_eq!(
        session().authorize_create(&too_many_capabilities, Capability::PutOpaque),
        Err(DeviceError::InsufficientPermissions)
    );
}

#[test]
fn deletion_requires_session_capability_and_domain_but_not_object_capability() {
    let object = info(0b0010, CapabilitySet::none());
    let authorized = SessionAuthorization {
        capabilities: CapabilitySet::from_capabilities([Capability::DeleteOpaque]),
        ..session()
    };
    authorized.authorize_delete(&object).unwrap();

    assert_eq!(
        session().authorize_delete(&object),
        Err(DeviceError::InsufficientPermissions)
    );

    let hidden = info(0b0100, CapabilitySet::none());
    assert_eq!(
        authorized.authorize_delete(&hidden),
        Err(DeviceError::ObjectNotFound)
    );
}

#[test]
fn wrapping_applies_both_delegated_capability_ceiling_and_domains() {
    let object = ObjectRecord {
        info: info(
            1,
            CapabilitySet::from_capabilities([
                Capability::GetOpaque,
                Capability::ExportableUnderWrap,
            ]),
        ),
        material: ObjectMaterial::Opaque(vec![1]),
    };
    let wrap_key = ObjectRecord {
        info: ObjectInfo {
            capabilities: CapabilitySet::from_capabilities([Capability::ExportWrapped]),
            delegated_capabilities: object.info.capabilities,
            object_type: ObjectType::WrapKey,
            ..info(1, CapabilitySet::none())
        },
        material: ObjectMaterial::Secret(vec![1]),
    };
    let auth = SessionAuthorization {
        capabilities: CapabilitySet::from_capabilities([Capability::ExportWrapped]),
        ..session()
    };
    auth.authorize_wrapped_export(&object, &wrap_key).unwrap();
}

#[test]
fn uses_official_big_endian_bit_layout() {
    let capabilities = CapabilitySet::from_capabilities([
        Capability::GetOpaque,
        Capability::SignEcdsa,
        Capability::DeletePublicWrapKey,
    ]);
    assert_eq!(capabilities.to_bytes(), [0, 0x80, 0, 0, 0, 0, 0, 0x81]);
    assert!(capabilities.contains(Capability::SignEcdsa));
    assert!(!capabilities.contains(Capability::SignPss));
}

#[test]
fn object_generation_history_retains_every_seen_id() {
    let mut history = SequenceHistory::default();
    for id in 1..=257 {
        history.record(id, u64::from(id));
    }
    history.record(1, 999);

    assert_eq!(history.entries.len(), 257);
    assert_eq!(history.generation(1), Some(999));
    assert_eq!(history.generation(2), Some(2));
    assert_eq!(history.generation(257), Some(257));
    assert!(history.validate());
}

#[test]
fn decodes_wire_error_values() {
    assert_eq!(
        DeviceError::from_byte(0x01),
        Some(DeviceError::InvalidCommand)
    );
    assert_eq!(
        DeviceError::from_byte(0x11),
        Some(DeviceError::ObjectExists)
    );
    assert_eq!(DeviceError::from_byte(0x0d), None);
}

#[test]
fn frame_round_trip_uses_three_byte_header() {
    let frame = Frame::new(0x42, vec![1, 2, 3]).unwrap();
    assert_eq!(frame.encode(), [0x42, 0, 3, 1, 2, 3]);
    assert_eq!(Frame::parse(&frame.encode()).unwrap(), frame);
}

#[test]
fn rejects_truncated_and_trailing_data() {
    assert_eq!(Frame::parse(&[1, 0]), Err(DeviceError::WrongLength));
    assert_eq!(Frame::parse(&[1, 0, 0, 2]), Err(DeviceError::WrongLength));
}

#[test]
fn object_request_decodes_header_and_borrows_material() {
    let mut encoded = Vec::new();
    encoded.extend_from_slice(&0x1234_u16.to_be_bytes());
    encoded.extend_from_slice(&[b'l'; 40]);
    encoded.extend_from_slice(&0x8001_u16.to_be_bytes());
    encoded.extend_from_slice(&[0, 0, 0, 0, 0, 0, 0, 5]);
    encoded.push(30);
    encoded.extend_from_slice(b"payload");

    let request = decode::<ObjectRequest>(&encoded).unwrap();
    assert_eq!(request.header.requested_id, 0x1234);
    assert_eq!(request.header.label, &[b'l'; 40]);
    assert_eq!(request.header.domains, 0x8001);
    assert_eq!(
        request.header.capabilities,
        CapabilitySet::from_bytes([0, 0, 0, 0, 0, 0, 0, 5])
    );
    assert_eq!(request.header.algorithm, 30);
    assert_eq!(request.material, b"payload");
    assert_eq!(request.material.as_ptr(), encoded[53..].as_ptr());
}

#[test]
fn length_prefixed_fields_leave_trailing_data_for_the_boundary_check() {
    let request = decode::<SetOptionRequest>(&[3, 0, 2, 7, 8]).unwrap();
    assert_eq!(request.option, 3);
    assert_eq!(request.values, &[7, 8]);
    assert_eq!(
        decode::<SetOptionRequest>(&[3, 0, 1, 7, 8]).err(),
        Some(DeviceError::WrongLength)
    );
}

#[test]
fn compound_lengths_are_checked_without_allocating() {
    let encoded = [
        0, 9, // key id
        3, // SHA-256
        0, 32, // output length
        0, 3, // peer length
        0, 2, // prefix length
        0, 1, // info length
        1, 2, 3, 4, 5, 6,
    ];
    let request = decode::<DeriveEcdhKdfRequest>(&encoded).unwrap();
    assert_eq!(request.id, 9);
    assert_eq!(request.peer_public, &[1, 2, 3]);
    assert_eq!(request.prefix, &[4, 5]);
    assert_eq!(request.shared_info, &[6]);
    assert_eq!(
        decode::<DeriveEcdhKdfRequest>(&encoded[..encoded.len() - 1]).err(),
        Some(DeviceError::WrongLength)
    );
}

#[test]
fn padding_round_trip() {
    for length in 0..64 {
        let clear = vec![0x5a; length];
        assert_eq!(unpad(pad(&clear)).unwrap(), clear);
    }
}

#[test]
fn secure_response_limit_accounts_for_frame_padding_session_id_and_mac() {
    assert!(secure_response_data_fits(3_116));
    assert!(!secure_response_data_fits(3_117));
    assert!(!secure_response_data_fits(usize::MAX));
}

#[derive(Debug, Eq, PartialEq)]
struct Example<'a> {
    tag: u8,
    id: u16,
    value: &'a [u8],
}

#[test]
fn decodes_borrowed_fields_without_copying() {
    let encoded = [7, 0x12, 0x34, 5, 6];
    let mut reader = Reader::new(&encoded);
    let request = Example {
        tag: reader.read_u8().unwrap(),
        id: reader.read_u16().unwrap(),
        value: reader.read_remainder(),
    };
    reader.finish().unwrap();
    assert_eq!(
        request,
        Example {
            tag: 7,
            id: 0x1234,
            value: &[5, 6]
        }
    );
    assert_eq!(request.value.as_ptr(), encoded[3..].as_ptr());
}

#[test]
fn rejects_short_and_trailing_inputs() {
    let mut short = Reader::new(&[1]);
    assert_eq!(short.read_u16(), Err(DeviceError::WrongLength));
    assert!(decode::<ByteRequest>(&[1]).is_ok());
    assert_eq!(
        decode::<ByteRequest>(&[1, 2]).err(),
        Some(DeviceError::WrongLength)
    );
}

#[test]
fn parses_connector_urls_without_an_http_dependency() {
    let transport = ConnectorHttpTransport::new("http://127.0.0.1:12345", "12345678").unwrap();
    assert_eq!(transport.host, "127.0.0.1");
    assert_eq!(transport.port, 12345);
    assert_eq!(transport.path, "/v1/devices/12345678/commands");
}
