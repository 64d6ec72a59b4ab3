//! Objects that are stored: what is written is what the request says.
use crate::algorithm::Algorithm;
use crate::authorization::SessionAuthorization;
use crate::bytes::{before_zero, u16_at, u16_be, u64_at};
use crate::capability::{
    bit, capability_words_round_trip, empty_and_full_sets, Capability, CapabilitySet,
};
use crate::device::{drawn_id, is_free, is_taken, DeviceModel, EffectModel, OutcomeModel};
use crate::engine::{EngineReply, Run};
use crate::object::{InfoModel, MaterialModel, ObjectType, RecordModel};
use crate::promises::computing::place;
use crate::promises::listing::type_number;
use crate::request::{DelegatedObjectRequest, ObjectRequest, OtpAeadKeyRequest};
use crate::store::{
    asymmetric_material, ccm_length, described, hmac_hash_of, origin_of, otp_length, random_from,
    secret_from, symmetric_length,
};
use crate::wire::decoded;
use vstd::prelude::*;

verus! {

/// The object that a command writes.
pub open spec fn written(run: Run<OutcomeModel>) -> Option<RecordModel> {
    match run {
        Ok((outcome, _)) => match outcome.effect {
            EffectModel::Write(record) => Some(record),
            _ => None,
        },
        Err(_) => None,
    }
}

/// What a command answers.
pub open spec fn answer(run: Run<OutcomeModel>) -> Option<Seq<u8>> {
    match run {
        Ok((outcome, _)) => Some(outcome.data),
        Err(_) => None,
    }
}

/// Whether a new object is the one that a request describes: the number in the
/// first two bytes, or one that nothing has where those are zero, the label in
/// forty bytes up to the first zero, the domains, the capabilities and the
/// algorithm.
pub open spec fn is_as_asked(
    object: RecordModel,
    device: DeviceModel,
    data: Seq<u8>,
    object_type: ObjectType,
    origin: u8,
) -> bool {
    &&& data.len() >= 53
    &&& object.info.object_type == object_type
    &&& if u16_at(data, 0) != 0 {
        object.info.id == u16_at(data, 0)
    } else {
        forall|other: ObjectType|
            !device.objects.contains_key(#[trigger] place(type_number(other), object.info.id))
    }
    &&& !device.objects.contains_key(place(type_number(object_type), object.info.id))
    &&& object.info.id != 0 && object.info.id != 0xffff
    &&& object.info.label == before_zero(data.subrange(2, 42))
    &&& object.info.domains == u16_at(data, 42)
    &&& object.info.capabilities.word() == u64_at(data, 44)
    &&& object.info.algorithm == data[52]
    &&& device.enabled(data[52])
    &&& object.info.origin == origin
}

/// Whether a session may make an object: with a capability, in its own domains,
/// and with no capability beyond those that it may hand on.
pub open spec fn may_make(
    authorization: SessionAuthorization,
    capability: u8,
    object: RecordModel,
) -> bool {
    &&& bit(authorization.capabilities.word(), capability)
    &&& object.info.domains != 0
    &&& object.info.domains & !authorization.domains == 0
    &&& forall|number: u8|
        number < 64 && (#[trigger] bit(object.info.capabilities.word(), number) || bit(
            object.info.delegated_capabilities.word(),
            number,
        )) ==> bit(authorization.delegated_capabilities.word(), number)
}

/// Whether an object hands nothing on.
pub open spec fn hands_nothing_on(object: RecordModel) -> bool {
    forall|number: u8|
        number < 64 ==> !#[trigger] bit(object.info.delegated_capabilities.word(), number)
}

/// Drawn numbers are ones that no object has.
proof fn lemma_drawn(device: DeviceModel, replies: Seq<EngineReply>, used: nat)
    ensures
        drawn_id(device.objects, replies, used) matches Ok((id, _)) ==> id != 0 && id != 0xffff
            && forall|other: ObjectType|
            !device.objects.contains_key(#[trigger] place(type_number(other), id)),
    decreases replies.len() - used,
{
    if used < replies.len() {
        lemma_drawn(device, replies, used + 1);
    }
    if let Ok((id, _)) = drawn_id(device.objects, replies, used) {
        assert(is_free(device.objects, id) ==> forall|other: ObjectType|
            !device.objects.contains_key(#[trigger] place(type_number(other), id))) by {
            if is_free(device.objects, id) {
                assert forall|other: ObjectType|
                    !device.objects.contains_key(#[trigger] place(type_number(other), id)) by {
                    assert(!is_taken(device.objects, other, id));
                }
            }
        }
    }
}

/// What [`DeviceModel::created`] writes is permitted, and is answered by number.
proof fn lemma_created(
    device: DeviceModel,
    authorization: SessionAuthorization,
    description: RecordModel,
    capability: Capability,
    replies: Seq<EngineReply>,
    used: nat,
)
    ensures
        ({
            let run = device.created(authorization, description, capability, replies, used);
            run is Ok ==> {
                &&& written(run) matches Some(object)
                &&& object == RecordModel {
                    info: InfoModel { id: object.info.id, ..description.info },
                    ..description
                }
                &&& may_make(authorization, capability.byte(), object)
                &&& answer(run) == Some(u16_be(object.info.id))
                &&& object.info.id != 0 && object.info.id != 0xffff
                &&& !device.objects.contains_key(
                    place(type_number(object.info.object_type), object.info.id),
                )
                &&& if description.info.id != 0 {
                    object.info.id == description.info.id
                } else {
                    forall|other: ObjectType|
                        !device.objects.contains_key(
                            #[trigger] place(type_number(other), object.info.id),
                        )
                }
            }
        }),
{
    let run = device.created(authorization, description, capability, replies, used);
    lemma_drawn(device, replies, used);
    if run is Ok {
        let object = written(run)->0;
        let given = authorization.delegated_capabilities;
        assert(authorization.capabilities.has(capability.byte()));
        assert forall|number: u8|
            number < 64 && (#[trigger] bit(object.info.capabilities.word(), number) || bit(
                object.info.delegated_capabilities.word(),
                number,
            )) implies bit(given.word(), number) by {
            if object.info.capabilities.has(number) {
                assert(given.covers(object.info.capabilities));
                assert(given.has(number));
            } else {
                assert(object.info.delegated_capabilities.has(number));
                assert(given.covers(object.info.delegated_capabilities));
                assert(given.has(number));
            }
        }
    }
}

proof fn lemma_empty(object: RecordModel)
    requires
        object.info.delegated_capabilities == CapabilitySet::empty(),
    ensures
        hands_nothing_on(object),
{
    assert forall|number: u8| number < 64 implies !#[trigger] bit(
        object.info.delegated_capabilities.word(),
        number,
    ) by {
        empty_and_full_sets(CapabilitySet::empty(), number);
        assert(!CapabilitySet::empty().has(number));
    }
}

/// The length of a private key of an algorithm, as it is kept count of.
pub open spec fn private_length(algorithm: u8) -> int {
    match algorithm {
        9 => 896,
        10 => 1344,
        11 => 1792,
        12 | 15 | 16 => 96,
        13 | 17 => 144,
        14 => 198,
        18 => 192,
        46 => 128,
        47 => 84,
        _ => 64,
    }
}

/// A new asymmetric key is as it was asked for.
pub proof fn new_asymmetric_keys_are_as_asked(
    device: DeviceModel,
    authorization: SessionAuthorization,
    data: Seq<u8>,
    generate: bool,
    replies: Seq<EngineReply>,
    used: nat,
)
    ensures
        ({
            let run = device.puts_asymmetric_key(authorization, data, generate, replies, used);
            run is Ok ==> {
                &&& written(run) matches Some(object)
                &&& is_as_asked(
                    object,
                    device,
                    data,
                    ObjectType::AsymmetricKey,
                    if generate { 1 } else { 2 },
                )
                &&& may_make(authorization, if generate { 0x04 } else { 0x03 }, object)
                &&& answer(run) == Some(u16_be(object.info.id))
                &&& object.info.length == private_length(data[52])
                &&& object.material is SigningKey || object.material is X25519Key
                &&& hands_nothing_on(object)
            }
        }),
{
    capability_words_round_trip(u64_at(data, 44));
    let run = device.puts_asymmetric_key(authorization, data, generate, replies, used);
    if run is Ok {
        let request = decoded::<ObjectRequest>(data)->Ok_0;
        let algorithm = device.enabled_algorithm(data[52])->Ok_0;
        let (material, after) = asymmetric_material(
            algorithm,
            generate,
            request.material,
            replies,
            used,
        )->Ok_0;
        lemma_created(
            device,
            authorization,
            described(
                request.header,
                ObjectType::AsymmetricKey,
                algorithm.object_length()->0 as u16,
                origin_of(generate),
                CapabilitySet::empty(),
                material,
            ),
            if generate {
                Capability::GenerateAsymmetricKey
            } else {
                Capability::PutAsymmetricKey
            },
            replies,
            after,
        );
        lemma_empty(written(run)->0);
    }
}

/// A new HMAC key is as it was asked for: the bytes that were sent, at most 128, or
/// as many as a digest has.
pub proof fn new_hmac_keys_are_as_asked(
    device: DeviceModel,
    authorization: SessionAuthorization,
    data: Seq<u8>,
    generate: bool,
    replies: Seq<EngineReply>,
    used: nat,
)
    ensures
        ({
            let run = device.puts_hmac_key(authorization, data, generate, replies, used);
            run is Ok ==> {
                &&& written(run) matches Some(object)
                &&& is_as_asked(
                    object,
                    device,
                    data,
                    ObjectType::HmacKey,
                    if generate { 1 } else { 2 },
                )
                &&& may_make(authorization, if generate { 0x15 } else { 0x14 }, object)
                &&& answer(run) == Some(u16_be(object.info.id))
                &&& object.info.length == if data[52] <= 20 {
                    128int
                } else {
                    256
                }
                &&& object.material matches MaterialModel::Secret(secret) && if generate {
                    secret.len() == (match data[52] {
                        19 => 20int,
                        20 => 32,
                        21 => 48,
                        _ => 64,
                    })
                } else {
                    secret == data.subrange(53, data.len() as int) && 0 < secret.len() <= 128
                }
                &&& 19 <= data[52] <= 22
                &&& hands_nothing_on(object)
            }
        }),
{
    capability_words_round_trip(u64_at(data, 44));
    let run = device.puts_hmac_key(authorization, data, generate, replies, used);
    if run is Ok {
        let request = decoded::<ObjectRequest>(data)->Ok_0;
        let hash = hmac_hash_of(data[52])->0;
        let (secret, after) = if generate {
            random_from(replies, used, hash.size())->Ok_0
        } else {
            (request.material, used)
        };
        lemma_created(
            device,
            authorization,
            described(
                request.header,
                ObjectType::HmacKey,
                Algorithm::of_byte(data[52])->0.hmac_size()->0 as u16,
                origin_of(generate),
                CapabilitySet::empty(),
                MaterialModel::Secret(secret),
            ),
            if generate {
                Capability::GenerateHmacKey
            } else {
                Capability::PutMacKey
            },
            replies,
            after,
        );
        lemma_empty(written(run)->0);
    }
}

/// A new symmetric key is as it was asked for, and as long as its algorithm says.
pub proof fn new_symmetric_keys_are_as_asked(
    device: DeviceModel,
    authorization: SessionAuthorization,
    data: Seq<u8>,
    generate: bool,
    replies: Seq<EngineReply>,
    used: nat,
)
    ensures
        ({
            let run = device.puts_symmetric_key(authorization, data, generate, replies, used);
            run is Ok ==> {
                &&& written(run) matches Some(object)
                &&& is_as_asked(
                    object,
                    device,
                    data,
                    ObjectType::SymmetricKey,
                    if generate { 1 } else { 2 },
                )
                &&& may_make(authorization, if generate { 0x30 } else { 0x2f }, object)
                &&& answer(run) == Some(u16_be(object.info.id))
                &&& object.material matches MaterialModel::Secret(secret) && secret.len() == (
                match data[52] {
                    50 => 16int,
                    51 => 24,
                    _ => 32,
                }) && (!generate ==> secret == data.subrange(53, data.len() as int))
                &&& data[52] == 50 || data[52] == 51 || data[52] == 52
                &&& object.info.length == object.material->Secret_0.len()
                &&& hands_nothing_on(object)
            }
        }),
{
    capability_words_round_trip(u64_at(data, 44));
    let run = device.puts_symmetric_key(authorization, data, generate, replies, used);
    if run is Ok {
        let request = decoded::<ObjectRequest>(data)->Ok_0;
        let algorithm = device.enabled_algorithm(data[52])->Ok_0;
        let length = symmetric_length(algorithm)->0;
        let (secret, after) = secret_from(
            generate,
            request.material,
            length,
            replies,
            used,
        )->Ok_0;
        lemma_created(
            device,
            authorization,
            described(
                request.header,
                ObjectType::SymmetricKey,
                length as u16,
                origin_of(generate),
                CapabilitySet::empty(),
                MaterialModel::Secret(secret),
            ),
            if generate {
                Capability::GenerateSymmetricKey
            } else {
                Capability::PutSymmetricKey
            },
            replies,
            after,
        );
        lemma_empty(written(run)->0);
    }
}

/// A new key for one-time passwords is as it was asked for, behind the four bytes of
/// its nonce.
pub proof fn new_otp_keys_are_as_asked(
    device: DeviceModel,
    authorization: SessionAuthorization,
    data: Seq<u8>,
    generate: bool,
    replies: Seq<EngineReply>,
    used: nat,
)
    ensures
        ({
            let run = device.puts_otp_aead_key(authorization, data, generate, replies, used);
            run is Ok ==> {
                &&& written(run) matches Some(object)
                &&& is_as_asked(
                    object,
                    device,
                    data,
                    ObjectType::OtpAeadKey,
                    if generate { 1 } else { 2 },
                )
                &&& may_make(authorization, if generate { 0x24 } else { 0x23 }, object)
                &&& answer(run) == Some(u16_be(object.info.id))
                &&& object.material matches MaterialModel::OtpAeadKey { nonce_id, key } && nonce_id
                    == data.subrange(53, 57) && key.len() == (match data[52] {
                    37 => 16int,
                    39 => 24,
                    _ => 32,
                }) && (!generate ==> key == data.subrange(57, data.len() as int))
                &&& data[52] == 37 || data[52] == 39 || data[52] == 40
                &&& object.info.length == object.material->key.len() + 4
                &&& hands_nothing_on(object)
            }
        }),
{
    capability_words_round_trip(u64_at(data, 44));
    let run = device.puts_otp_aead_key(authorization, data, generate, replies, used);
    if run is Ok {
        let request = decoded::<OtpAeadKeyRequest>(data)->Ok_0;
        let algorithm = device.enabled_algorithm(data[52])->Ok_0;
        let length = otp_length(algorithm)->0;
        let (key, after) = secret_from(
            generate,
            request.material,
            length,
            replies,
            used,
        )->Ok_0;
        lemma_created(
            device,
            authorization,
            described(
                request.header,
                ObjectType::OtpAeadKey,
                (length + 4) as u16,
                origin_of(generate),
                CapabilitySet::empty(),
                MaterialModel::OtpAeadKey { nonce_id: request.nonce_id, key },
            ),
            if generate {
                Capability::GenerateOtpAeadKey
            } else {
                Capability::PutOtpAeadKey
            },
            replies,
            after,
        );
        lemma_empty(written(run)->0);
    }
}

/// A new wrap key is as it was asked for, and hands on what was asked for.
pub proof fn new_wrap_keys_are_as_asked(
    device: DeviceModel,
    authorization: SessionAuthorization,
    data: Seq<u8>,
    generate: bool,
    replies: Seq<EngineReply>,
    used: nat,
)
    ensures
        ({
            let run = device.puts_wrap_key(authorization, data, generate, replies, used);
            run is Ok ==> {
                &&& written(run) matches Some(object)
                &&& is_as_asked(
                    object,
                    device,
                    data,
                    ObjectType::WrapKey,
                    if generate { 1 } else { 2 },
                )
                &&& may_make(authorization, if generate { 0x0f } else { 0x0e }, object)
                &&& answer(run) == Some(u16_be(object.info.id))
                &&& if 9 <= data[52] <= 11 {
                    object.material is SigningKey && object.info.length == private_length(data[52])
                        + 8
                } else {
                    &&& object.material matches MaterialModel::Secret(secret) && secret.len() == (
                    match data[52] {
                        29 => 16int,
                        41 => 24,
                        _ => 32,
                    }) && (!generate ==> secret == data.subrange(61, data.len() as int))
                    &&& data[52] == 29 || data[52] == 41 || data[52] == 42
                    &&& object.info.length == object.material->Secret_0.len() + 8
                }
                &&& object.info.delegated_capabilities.word() == u64_at(data, 53)
            }
        }),
{
    capability_words_round_trip(u64_at(data, 44));
    capability_words_round_trip(u64_at(data, 53));
    let run = device.puts_wrap_key(authorization, data, generate, replies, used);
    if run is Ok {
        let request = decoded::<DelegatedObjectRequest>(data)->Ok_0;
        let algorithm = device.enabled_algorithm(data[52])->Ok_0;
        let capability = if generate {
            Capability::GenerateWrapKey
        } else {
            Capability::PutWrapKey
        };
        if algorithm.is_rsa() {
            let (material, after) = asymmetric_material(
                algorithm,
                generate,
                request.material,
                replies,
                used,
            )->Ok_0;
            lemma_created(
                device,
                authorization,
                described(
                    request.header,
                    ObjectType::WrapKey,
                    (algorithm.object_length()->0 + 8) as u16,
                    origin_of(generate),
                    request.delegated_capabilities,
                    material,
                ),
                capability,
                replies,
                after,
            );
        } else {
            let length = ccm_length(algorithm)->0;
            let (secret, after) = secret_from(
                generate,
                request.material,
                length,
                replies,
                used,
            )->Ok_0;
            lemma_created(
                device,
                authorization,
                described(
                    request.header,
                    ObjectType::WrapKey,
                    (length + 8) as u16,
                    origin_of(generate),
                    request.delegated_capabilities,
                    MaterialModel::Secret(secret),
                ),
                capability,
                replies,
                after,
            );
        }
    }
}

/// A new public wrap key is as it was asked for: a modulus as long as its algorithm
/// says.
pub proof fn new_public_wrap_keys_are_as_asked(
    device: DeviceModel,
    authorization: SessionAuthorization,
    data: Seq<u8>,
    replies: Seq<EngineReply>,
    used: nat,
)
    ensures
        ({
            let run = device.puts_public_wrap_key(authorization, data, replies, used);
            run is Ok ==> {
                &&& written(run) matches Some(object)
                &&& is_as_asked(object, device, data, ObjectType::PublicWrapKey, 2)
                &&& may_make(authorization, 0x36, object)
                &&& answer(run) == Some(u16_be(object.info.id))
                &&& object.material == MaterialModel::Public(data.subrange(61, data.len() as int))
                &&& data.len() - 61 == (match data[52] {
                    9 => 256int,
                    10 => 384,
                    _ => 512,
                })
                &&& 9 <= data[52] <= 11
                &&& object.info.length == data.len() - 61 + 8
                &&& object.info.delegated_capabilities.word() == u64_at(data, 53)
            }
        }),
{
    capability_words_round_trip(u64_at(data, 44));
    capability_words_round_trip(u64_at(data, 53));
    let run = device.puts_public_wrap_key(authorization, data, replies, used);
    if run is Ok {
        let request = decoded::<DelegatedObjectRequest>(data)->Ok_0;
        let algorithm = device.enabled_algorithm(data[52])->Ok_0;
        lemma_created(
            device,
            authorization,
            described(
                request.header,
                ObjectType::PublicWrapKey,
                (algorithm.key_length()->0 + 8) as u16,
                2,
                request.delegated_capabilities,
                MaterialModel::Public(request.material),
            ),
            Capability::PutPublicWrapKey,
            replies,
            used,
        );
    }
}

/// A new template is as it was asked for.
pub proof fn new_templates_are_as_asked(
    device: DeviceModel,
    authorization: SessionAuthorization,
    data: Seq<u8>,
    replies: Seq<EngineReply>,
    used: nat,
)
    ensures
        ({
            let run = device.puts_template(authorization, data, replies, used);
            run is Ok ==> {
                &&& written(run) matches Some(object)
                &&& is_as_asked(object, device, data, ObjectType::Template, 2)
                &&& may_make(authorization, 0x1b, object)
                &&& answer(run) == Some(u16_be(object.info.id))
                &&& object.material == MaterialModel::Opaque(data.subrange(53, data.len() as int))
                &&& data[52] == 36
                &&& object.info.length == data.len() - 53
                &&& data.len() > 53
                &&& hands_nothing_on(object)
            }
        }),
{
    capability_words_round_trip(u64_at(data, 44));
    let run = device.puts_template(authorization, data, replies, used);
    if run is Ok {
        let request = decoded::<ObjectRequest>(data)->Ok_0;
        lemma_created(
            device,
            authorization,
            described(
                request.header,
                ObjectType::Template,
                request.material.len() as u16,
                2,
                CapabilitySet::empty(),
                MaterialModel::Opaque(request.material),
            ),
            Capability::PutTemplate,
            replies,
            used,
        );
        lemma_empty(written(run)->0);
    }
}

/// A new authentication key is as it was asked for: a pair of keys of 16 bytes, or
/// a point of 64 bytes, and it hands on what was asked for.
pub proof fn new_authentication_keys_are_as_asked(
    device: DeviceModel,
    authorization: SessionAuthorization,
    data: Seq<u8>,
    replies: Seq<EngineReply>,
    used: nat,
)
    ensures
        ({
            let run = device.puts_authentication_key(authorization, data, replies, used);
            run is Ok ==> {
                &&& written(run) matches Some(object)
                &&& is_as_asked(object, device, data, ObjectType::AuthenticationKey, 2)
                &&& may_make(authorization, 0x02, object)
                &&& answer(run) == Some(u16_be(object.info.id))
                &&& object.info.delegated_capabilities.word() == u64_at(data, 53)
                &&& object.info.length == data.len() - 61 + 8
                &&& (data[52] == 38 && data.len() == 93 && object.material
                    == MaterialModel::Symmetric(data.subrange(61, 93))) || (data[52] == 49
                    && data.len() == 125 && object.material == MaterialModel::Asymmetric(
                    data.subrange(61, 125),
                ))
            }
        }),
{
    capability_words_round_trip(u64_at(data, 44));
    capability_words_round_trip(u64_at(data, 53));
    lemma_drawn(device, replies, used);
    let run = device.puts_authentication_key(authorization, data, replies, used);
    if run is Ok {
        let object = written(run)->0;
        let given = authorization.delegated_capabilities;
        assert(authorization.may_create(
            object.info,
            Capability::PutAuthenticationKey,
        ) is Ok);
        assert forall|number: u8|
            number < 64 && (#[trigger] bit(object.info.capabilities.word(), number) || bit(
                object.info.delegated_capabilities.word(),
                number,
            )) implies bit(given.word(), number) by {
            if object.info.capabilities.has(number) {
                assert(given.covers(object.info.capabilities));
                assert(given.has(number));
            } else {
                assert(object.info.delegated_capabilities.has(number));
                assert(given.covers(object.info.delegated_capabilities));
                assert(given.has(number));
            }
        }
    }
}

/// ChangeAuthenticationKey changes the key of its number: its algorithm, its
/// length and its keys, and nothing else that is known of it.
pub proof fn changed_keys_keep_the_rest(
    device: DeviceModel,
    data: Seq<u8>,
    replies: Seq<EngineReply>,
    used: nat,
)
    ensures
        ({
            let run = device.changes_authentication_key(data, replies, used);
            run is Ok ==> {
                let before = device.objects[place(2, u16_at(data, 0))];
                &&& device.objects.contains_key(place(2, u16_at(data, 0)))
                &&& written(run) matches Some(object)
                &&& object.info.id == before.info.id
                &&& object.info.object_type == before.info.object_type
                &&& object.info.label == before.info.label
                &&& object.info.domains == before.info.domains
                &&& object.info.capabilities == before.info.capabilities
                &&& object.info.delegated_capabilities == before.info.delegated_capabilities
                &&& object.info.origin == before.info.origin
                &&& object.info.algorithm == data[2]
                &&& device.enabled(data[2])
                &&& object.info.length == data.len() - 3 + 8
                &&& (data[2] == 38 && data.len() == 35 && object.material
                    == MaterialModel::Symmetric(data.subrange(3, 35))) || (data[2] == 49
                    && data.len() == 67 && object.material == MaterialModel::Asymmetric(
                    data.subrange(3, 67),
                ))
                &&& answer(run) == Some(data.subrange(0, 2))
            }
        }),
{
    let run = device.changes_authentication_key(data, replies, used);
    if run is Ok {
        assert(u16_be(u16_at(data, 0)) =~= data.subrange(0, 2));
    }
}

/// PutOpaque makes a new object as it was asked for, or gives one that is there
/// new contents and leaves all else of it as it was, which it must be asked for as
/// it is.
pub proof fn opaque_objects_are_as_asked(
    device: DeviceModel,
    authorization: SessionAuthorization,
    data: Seq<u8>,
    replies: Seq<EngineReply>,
    used: nat,
)
    ensures
        ({
            let run = device.puts_opaque(authorization, data, replies, used);
            let number = place(1, u16_at(data, 0));
            run is Ok ==> {
                &&& written(run) matches Some(object)
                &&& object.material == MaterialModel::Opaque(data.subrange(53, data.len() as int))
                &&& object.info.length == data.len() - 53
                &&& device.enabled(data[52])
                &&& data[52] != 30 ==> data.len() > 53
                &&& if u16_at(data, 0) != 0 && device.objects.contains_key(number) {
                    let before = device.objects[number];
                    &&& answer(run) == Some(u16_be(u16_at(data, 0)))
                    &&& object.info == InfoModel {
                        length: object.info.length,
                        ..before.info
                    }
                    &&& before.info.label == before_zero(data.subrange(2, 42))
                    &&& before.info.domains == u16_at(data, 42)
                    &&& before.info.capabilities.word() == u64_at(data, 44)
                    &&& before.info.algorithm == data[52]
                } else {
                    &&& is_as_asked(object, device, data, ObjectType::Opaque, 2)
                    &&& may_make(authorization, 0x01, object)
                    &&& answer(run) == Some(u16_be(object.info.id))
                    &&& hands_nothing_on(object)
                }
            }
        }),
{
    capability_words_round_trip(u64_at(data, 44));
    let run = device.puts_opaque(authorization, data, replies, used);
    let number = place(1, u16_at(data, 0));
    if run is Ok {
        let request = decoded::<ObjectRequest>(data)->Ok_0;
        if u16_at(data, 0) != 0 && device.objects.contains_key(number) {
            let before = device.objects[number];
            assert(before.info.capabilities == request.header.capabilities);
        } else {
            lemma_created(
                device,
                authorization,
                described(
                    request.header,
                    ObjectType::Opaque,
                    request.material.len() as u16,
                    2,
                    CapabilitySet::empty(),
                    MaterialModel::Opaque(request.material),
                ),
                Capability::PutOpaque,
                replies,
                used,
            );
            lemma_empty(written(run)->0);
        }
    }
}

/// Writing puts the object in its place and leaves every other as it was; the
/// object gets the next generation of its number, the first being zero, of which
/// its sequence is the low byte, and all else of it is as it was written.
pub proof fn writing_counts_the_generation(device: DeviceModel, object: RecordModel, other: u32)
    ensures
        ({
            let after = device.applied(EffectModel::Write(object));
            let number = place(type_number(object.info.object_type), object.info.id);
            let id = object.info.id;
            let generation = after.history[id];
            &&& after.objects.contains_key(number)
            &&& after.objects[number].material == object.material
            &&& after.objects[number].info == InfoModel {
                sequence: after.objects[number].info.sequence,
                ..object.info
            }
            &&& after.objects[number].info.sequence == generation % 256
            &&& after.history.contains_key(id)
            &&& generation == (if !device.history.contains_key(id) {
                0int
            } else if device.history[id] == 0xffff_ffff_ffff_ffff {
                0
            } else {
                device.history[id] + 1
            })
            &&& other != number ==> (after.objects.contains_key(other)
                <==> device.objects.contains_key(other)) && after.objects[other]
                == device.objects[other]
            &&& after == DeviceModel { objects: after.objects, history: after.history, ..device }
        }),
{
    let after = device.applied(EffectModel::Write(object));
    assert(after == DeviceModel { objects: after.objects, history: after.history, ..device });
}

} // verus!
