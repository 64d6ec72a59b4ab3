//! Attestations: what a certificate says of the key that it is about.
use crate::attestation::decimal;
use crate::authorization::SessionAuthorization;
use crate::bytes::{u16_at, u16_be, u16_round_trip, u32_be, u64_be};
use crate::device::DeviceModel;
use crate::engine::{AttestationModel, ExtensionModel, HaltModel, MetadataModel, RequestModel};
use crate::keys::KeyKind;
use crate::object::{InfoModel, MaterialModel, ObjectType};
use crate::outside::certificate_template;
use crate::promises::computing::place;
use crate::promises::telling::{describes_object, objects_are_described, tells_capabilities};
use crate::request::SignAttestationCertificateRequest;
use crate::wire::decoded;
use vstd::prelude::*;
use vstd::utf8::encode_utf8;

verus! {

/// Whether a certificate has, so many places from its end, a piece of metadata.
pub open spec fn says(
    attestation: AttestationModel,
    from_end: int,
    arc: u8,
    value: Seq<u8>,
) -> bool {
    let place = attestation.extensions.len() - from_end;
    place >= 0 && attestation.extensions[place] == ExtensionModel::Metadata(
        MetadataModel { arc, value },
    )
}

/// Whether a certificate ends in what is known of a key, piece by piece: the
/// version and the serial number of the device, and the key's origin, domains,
/// capabilities, number and label.
pub open spec fn describes(
    attestation: AttestationModel,
    version: Seq<u8>,
    serial: u32,
    key: InfoModel,
) -> bool {
    &&& says(attestation, 7, 1, version)
    &&& says(attestation, 6, 2, u32_be(serial))
    &&& says(attestation, 5, 3, seq![key.origin])
    &&& says(attestation, 4, 4, u16_be(key.domains))
    &&& says(attestation, 3, 5, u64_be(key.capabilities.word()))
    &&& says(attestation, 2, 6, u16_be(key.id))
    &&& says(attestation, 1, 9, key.label)
}

/// The question that an attestation comes to.
pub open spec fn attestation_asked(
    device: DeviceModel,
    authorization: SessionAuthorization,
    target_id: u16,
    attesting_id: u16,
) -> Option<AttestationModel> {
    match device.signs_attestation(
        authorization,
        u16_be(target_id) + u16_be(attesting_id),
        Seq::empty(),
        0,
    ) {
        Err(HaltModel::Ask(RequestModel::Attest(attestation))) => Some(attestation),
        _ => None,
    }
}

proof fn lemma_request(
    device: DeviceModel,
    authorization: SessionAuthorization,
    target_id: u16,
    attesting_id: u16,
)
    ensures
        attestation_asked(device, authorization, target_id, attesting_id) == (
        match device.attestation(authorization, target_id, attesting_id) {
            Ok(attestation) => Some(attestation),
            Err(_) => None,
        }),
{
    let data = u16_be(target_id) + u16_be(attesting_id);
    u16_round_trip(target_id);
    u16_round_trip(attesting_id);
    assert(u16_at(data, 0) == target_id);
    assert(data[2] == u16_be(attesting_id)[0] && data[3] == u16_be(attesting_id)[1]);
    assert(decoded::<SignAttestationCertificateRequest>(data) is Ok);
}

/// A certificate about a key says what the device holds of that key: its own
/// origin, domains, capabilities, number and label, beside the version and the
/// serial number of the device, and it carries the key's own public part.
pub proof fn attestations_describe_their_key(
    device: DeviceModel,
    authorization: SessionAuthorization,
    target_id: u16,
    attesting_id: u16,
)
    requires
        target_id != 0,
        attestation_asked(device, authorization, target_id, attesting_id) is Some,
    ensures
        ({
            let attestation = attestation_asked(
                device,
                authorization,
                target_id,
                attesting_id,
            )->0;
            let number = (0x3_0000 + target_id) as u32;
            let key = device.objects[number];
            &&& device.objects.contains_key(number)
            &&& authorization.domains & key.info.domains != 0
            &&& key.info.origin & 1 == 1
            &&& describes(attestation, device.config.version, device.config.serial, key.info)
            &&& attestation.subject == encode_utf8("CN=Virtual YubiHSM Key "@) + decimal(
                target_id as nat,
            )
            &&& match key.material {
                MaterialModel::SigningKey(held) => attestation.target_public == held.public
                    && attestation.target == Some(held.kind),
                MaterialModel::X25519Key(held) => attestation.target_public == held.public
                    && attestation.target is None,
                _ => false,
            }
        }),
{
    lemma_request(device, authorization, target_id, attesting_id);
    let origin = device.objects[(0x3_0000 + target_id) as u32].info.origin;
    assert(origin & 1 == 0 || origin & 1 == 1) by (bit_vector);
}

/// A certificate about the device's own key carries that key.
pub proof fn device_keys_are_attested_as_such(
    device: DeviceModel,
    authorization: SessionAuthorization,
    attesting_id: u16,
)
    requires
        attestation_asked(device, authorization, 0, attesting_id) is Some,
    ensures
        ({
            let attestation = attestation_asked(device, authorization, 0, attesting_id)->0;
            &&& attestation.target_public == device.key.public
            &&& says(attestation, 7, 1, device.config.version)
            &&& says(attestation, 6, 2, u32_be(device.config.serial))
            &&& says(attestation, 5, 3, seq![0u8])
            &&& says(attestation, 4, 4, u16_be(0))
            &&& says(attestation, 2, 6, u16_be(0))
            &&& says(attestation, 1, 9, encode_utf8("Virtual YubiHSM device key"@))
        }),
{
    lemma_request(device, authorization, 0, attesting_id);
}

/// A certificate is signed by the key that was named, or by the device's own
/// where none was; it names its issuer, and its serial number tells the device,
/// the key and the signer.
pub proof fn attestations_are_signed_by_their_issuer(
    device: DeviceModel,
    authorization: SessionAuthorization,
    target_id: u16,
    attesting_id: u16,
)
    requires
        attestation_asked(device, authorization, target_id, attesting_id) is Some,
    ensures
        ({
            let attestation = attestation_asked(
                device,
                authorization,
                target_id,
                attesting_id,
            )->0;
            let signer = device.objects[(0x3_0000 + attesting_id) as u32];
            &&& attesting_id == 0 ==> attestation.signer == device.key && attestation.issuer
                == encode_utf8("CN=Virtual YubiHSM "@) + decimal(device.config.serial as nat)
                + encode_utf8(" Attestation"@)
            &&& attesting_id != 0 ==> device.objects.contains_key(
                (0x3_0000 + attesting_id) as u32,
            ) && authorization.domains & signer.info.domains != 0 && signer.info.algorithm == 12
                && signer.material == MaterialModel::SigningKey(attestation.signer)
                && attestation.issuer == encode_utf8("CN=Virtual YubiHSM Attestation Key "@)
                + decimal(attesting_id as nat)
            &&& attestation.serial == u32_be(device.config.serial) + u16_be(target_id) + u16_be(
                attesting_id,
            )
        }),
{
    lemma_request(device, authorization, target_id, attesting_id);
}

/// A signer with a certificate in the opaque object of its own number lends it as
/// a template, with its extensions before what is said of the key. Without one, a
/// certificate begins with what its key is for: no certificates, signatures, and
/// agreements for the curves or encryption for RSA.
pub proof fn templates_stand_before_the_key(
    device: DeviceModel,
    authorization: SessionAuthorization,
    target_id: u16,
    attesting_id: u16,
)
    requires
        target_id != 0,
        attestation_asked(device, authorization, target_id, attesting_id) is Some,
    ensures
        ({
            let attestation = attestation_asked(
                device,
                authorization,
                target_id,
                attesting_id,
            )->0;
            let place = (0x1_0000 + attesting_id) as u32;
            let extensions = attestation.extensions;
            let key = device.objects[(0x3_0000 + target_id) as u32];
            if attesting_id != 0 && device.objects.contains_key(place) {
                &&& device.objects[place].material is Opaque
                &&& device.objects[place].info.algorithm == 31
                &&& attestation.template == certificate_template(
                    device.objects[place].material->Opaque_0,
                )
                &&& attestation.template is Some
                &&& attestation.template->0.extensions.len() > 0 ==> extensions.len()
                    == attestation.template->0.extensions.len() + 7 && forall|i: int|
                    0 <= i < attestation.template->0.extensions.len() ==> #[trigger] extensions[i]
                        == ExtensionModel::Held(attestation.template->0.extensions[i])
            } else {
                &&& attestation.template is None
                &&& extensions.len() == 9
                &&& extensions[0] == ExtensionModel::EndEntity
                &&& extensions[1] is KeyUsage
                &&& key.material is X25519Key ==> extensions[1]->agreement
                    && !extensions[1]->encipherment
                &&& (key.material matches MaterialModel::SigningKey(held)
                    && key.info.known_algorithm() matches Some(algorithm) && KeyKind::named(
                    algorithm,
                ) == Some(held.kind)) ==> extensions[1]->agreement == (
                key.material->SigningKey_0.kind is Ec) && extensions[1]->encipherment == (
                key.material->SigningKey_0.kind is Rsa)
            }
        }),
{
    lemma_request(device, authorization, target_id, attesting_id);
}

/// A certificate about a key agrees with what GetObjectInfo tells of the key: its
/// number, domains, origin and label are the same, and so are its capabilities but
/// for those that the firmware does not know.
pub proof fn attestations_agree_with_the_description(
    device: DeviceModel,
    authorization: SessionAuthorization,
    target_id: u16,
    attesting_id: u16,
)
    requires
        device.valid(),
        target_id != 0,
        attestation_asked(device, authorization, target_id, attesting_id) is Some,
    ensures
        ({
            let attestation = attestation_asked(
                device,
                authorization,
                target_id,
                attesting_id,
            )->0;
            let told = device.tells_object(authorization, u16_be(target_id) + seq![3u8]);
            &&& told matches Ok(described)
            &&& described.len() == 66
            &&& says(attestation, 5, 3, described.subrange(17, 18))
            &&& says(attestation, 4, 4, described.subrange(12, 14))
            &&& says(attestation, 2, 6, described.subrange(8, 10))
            &&& exists|word: u64| #[trigger]
                tells_capabilities(described, 0, word, device.firmware) && says(
                    attestation,
                    3,
                    5,
                    u64_be(word),
                )
            &&& exists|length: int|
                0 <= length <= 40 && says(
                    attestation,
                    1,
                    9,
                    #[trigger] described.subrange(18, 18 + length),
                )
        }),
{
    attestations_describe_their_key(device, authorization, target_id, attesting_id);
    objects_are_described(device, authorization, target_id, ObjectType::AsymmetricKey);
    let attestation = attestation_asked(device, authorization, target_id, attesting_id)->0;
    let number = place(3, target_id);
    assert(number == (0x3_0000 + target_id) as u32);
    let key = device.objects[number].info;
    let described = device.tells_object(authorization, u16_be(target_id) + seq![3u8])->Ok_0;
    assert(describes_object(described, key, device.firmware));
    assert(device.objects[number].validated() is Ok);
    assert(described.subrange(17, 18) =~= seq![key.origin]);
    assert(u16_be(u16_at(described, 12)) =~= described.subrange(12, 14));
    assert(u16_be(u16_at(described, 8)) =~= described.subrange(8, 10));
    let word = key.capabilities.word();
    assert(tells_capabilities(described, 0, word, device.firmware) && says(
        attestation,
        3,
        5,
        u64_be(word),
    ));
    assert(described.subrange(18, 18 + key.label.len() as int) =~= key.label);
}

} // verus!
