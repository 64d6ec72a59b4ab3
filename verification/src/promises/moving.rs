//! Objects that travel: under which keys they are wrapped, and as what they arrive.
use crate::authorization::SessionAuthorization;
use crate::bytes::{before_zero, u16_at, u16_be, u64_at, u64_be};
use crate::capability::{bit, capability_words_round_trip};
use crate::consultation::{consulted, draws, told};
use crate::device::{typed_material, DeviceModel, OutcomeModel};
use crate::engine::{ComputationModel, EngineReply, HaltModel, Operation, RequestModel, StopModel};
use crate::error::DeviceError;
use crate::keys::{HashAlgorithm, KeyKind};
use crate::object::{InfoModel, MaterialModel, ObjectType, RecordModel};
use crate::outside::{ItemModel, LeafModel};
use crate::promises::computing::{computation, curve_of, in_reach, place};
use crate::promises::listing::type_number;
use crate::promises::storing::{answer, may_make, written};
use vstd::prelude::*;

verus! {

/// Whether an object holds no capability that a wrap key does not hand on.
pub open spec fn is_within(object: InfoModel, wrap_key: InfoModel) -> bool {
    forall|number: u8|
        number < 64 && #[trigger] bit(object.capabilities.word(), number) ==> bit(
            wrap_key.delegated_capabilities.word(),
            number,
        )
}

/// Whether a session may import an object under a wrap key.
pub open spec fn may_bring(
    authorization: SessionAuthorization,
    object: RecordModel,
    wrap_key: RecordModel,
) -> bool {
    may_make(authorization, 0x0d, object) && is_within(object.info, wrap_key.info)
}

proof fn lemma_brought(
    authorization: SessionAuthorization,
    object: RecordModel,
    info: InfoModel,
    wrap_key: RecordModel,
)
    requires
        authorization.may_import(info, wrap_key.info) is Ok,
        object.info.domains == info.domains,
        object.info.capabilities == info.capabilities,
        object.info.delegated_capabilities == info.delegated_capabilities,
    ensures
        may_bring(authorization, object, wrap_key),
{
    let given = authorization.delegated_capabilities;
    assert(authorization.capabilities.has(0x0d));
    assert forall|number: u8|
        number < 64 && (#[trigger] bit(object.info.capabilities.word(), number) || bit(
            object.info.delegated_capabilities.word(),
            number,
        )) implies bit(given.word(), number) by {
        if object.info.capabilities.has(number) {
            assert(given.covers(info.capabilities));
            assert(given.has(number));
        } else {
            assert(object.info.delegated_capabilities.has(number));
            assert(given.covers(info.delegated_capabilities));
            assert(given.has(number));
        }
    }
    assert forall|number: u8|
        number < 64 && #[trigger] bit(object.info.capabilities.word(), number) implies bit(
        wrap_key.info.delegated_capabilities.word(),
        number,
    ) by {
        assert(info.capabilities.has(number));
        assert(wrap_key.info.delegated_capabilities.covers(info.capabilities));
        assert(wrap_key.info.delegated_capabilities.has(number));
    }
}

/// What is imported is the object that was wrapped, marked as imported, under its
/// own number or one that nothing has; the session and the wrap key must allow it,
/// and its type and number are answered.
pub proof fn imported_objects_are_marked_and_allowed(
    device: DeviceModel,
    authorization: SessionAuthorization,
    wrap_key: RecordModel,
    object: RecordModel,
    replies: Seq<EngineReply>,
    used: nat,
)
    ensures
        ({
            let run = device.imports(authorization, wrap_key, object, replies, used);
            run is Ok ==> {
                &&& written(run) matches Some(arrived)
                &&& arrived.material == object.material
                &&& arrived.info == InfoModel {
                    id: arrived.info.id,
                    origin: object.info.origin | 0x10,
                    ..object.info
                }
                &&& arrived.info.id == object.info.id
                &&& !device.objects.contains_key(
                    place(type_number(object.info.object_type), object.info.id),
                )
                &&& may_bring(authorization, arrived, wrap_key)
                &&& answer(run) == Some(
                    seq![type_number(object.info.object_type) as u8] + u16_be(arrived.info.id),
                )
            }
        }),
{
    let run = device.imports(authorization, wrap_key, object, replies, used);
    if run is Ok {
        lemma_brought(authorization, written(run)->0, object.info, wrap_key);
    }
}

/// Whether a session reaches an AES wrap key.
pub open spec fn is_aes_wrap_key(
    device: DeviceModel,
    authorization: SessionAuthorization,
    id: u16,
) -> bool {
    let key = device.objects[place(4, id)];
    &&& in_reach(device, authorization, 4, id)
    &&& key.info.algorithm == 29 || key.info.algorithm == 41 || key.info.algorithm == 42
    &&& key.material is Secret
}

/// ImportWrapped opens the ciphertext behind the nonce under the wrap key of its
/// number; UnwrapData does the same with what WrapData made.
pub proof fn wrapped_data_is_opened_under_its_key(
    device: DeviceModel,
    authorization: SessionAuthorization,
    data: Seq<u8>,
)
    requires
        data.len() >= 32,
        is_aes_wrap_key(device, authorization, u16_at(data, 0)),
    ensures
        ({
            let key = device.objects[place(4, u16_at(data, 0))].material->Secret_0;
            let import = device.imports_wrapped(authorization, data, Seq::empty(), 0);
            let unwrap = device.unwraps_data(authorization, data, Seq::empty(), 0);
            if data[2] == 1 {
                &&& computation(import) matches Some(asked) && asked.operation
                    == Operation::DecryptCcm && asked.key == key && asked.parameter
                    == data.subrange(3, 16) && asked.data == data.subrange(16, data.len() as int)
                &&& computation(unwrap) == computation(import)
            } else {
                &&& import == Err::<(OutcomeModel, nat), _>(
                    HaltModel::Error(DeviceError::WrongLength, 0),
                )
                &&& unwrap == Err::<(Seq<u8>, nat), _>(
                    HaltModel::Error(DeviceError::WrongLength, 0),
                )
            }
        }),
{
    let rest = data.subrange(2, data.len() as int);
    assert(rest.subrange(1, 14) =~= data.subrange(3, 16));
    assert(rest.subrange(14, rest.len() as int) =~= data.subrange(16, data.len() as int));
}

/// WrapData answers with a one, the 13 random bytes that it drew as a nonce, and
/// the ciphertext under the wrap key of its number.
pub proof fn data_is_wrapped_under_its_key(
    device: DeviceModel,
    authorization: SessionAuthorization,
    engine: spec_fn(RequestModel) -> EngineReply,
    data: Seq<u8>,
)
    requires
        data.len() >= 2,
        is_aes_wrap_key(device, authorization, u16_at(data, 0)),
        told(engine, RequestModel::Random(13)) matches Some(nonce) && nonce.len() == 13,
    ensures
        ({
            let key = device.objects[place(4, u16_at(data, 0))].material->Secret_0;
            let nonce = told(engine, RequestModel::Random(13))->0;
            let wrapped = consulted(
                |replies: Seq<EngineReply>| device.wraps_data(authorization, data, replies, 0),
                engine,
                Seq::empty(),
                2,
            );
            wrapped == (match told(
                engine,
                RequestModel::compute(
                    Operation::EncryptCcm,
                    key,
                    nonce,
                    data.subrange(2, data.len() as int),
                ),
            ) {
                Some(ciphertext) => Ok(seq![1u8] + nonce + ciphertext),
                None => Err(StopModel::Error(DeviceError::InvalidData)),
            })
        }),
{
    let key = device.objects[place(4, u16_at(data, 0))].material->Secret_0;
    let command = |replies: Seq<EngineReply>| device.wraps_data(authorization, data, replies, 0);
    let random = RequestModel::Random(13);
    let nonce = told(engine, random)->0;
    let sealing = RequestModel::compute(
        Operation::EncryptCcm,
        key,
        nonce,
        data.subrange(2, data.len() as int),
    );
    let none = Seq::<EngineReply>::empty();
    assert(command(none) == Err::<(Seq<u8>, nat), HaltModel>(HaltModel::Ask(random)));
    let one = none.push(engine(random));
    assert(consulted(command, engine, none, 2) == consulted(command, engine, one, 1));
    assert(one[0] == engine(random));
    assert(command(one) == Err::<(Seq<u8>, nat), HaltModel>(HaltModel::Ask(sealing)));
    let two = one.push(engine(sealing));
    assert(consulted(command, engine, one, 1) == consulted(command, engine, two, 0));
    assert(two[0] == engine(random));
    assert(two[1] == engine(sealing));
}

/// The hash functions of masks.
pub open spec fn mask_of(algorithm: u8) -> HashAlgorithm {
    match algorithm {
        32 => HashAlgorithm::Sha1,
        33 => HashAlgorithm::Sha256,
        34 => HashAlgorithm::Sha384,
        _ => HashAlgorithm::Sha512,
    }
}

/// ImportRsaWrapped opens the AES key in front with the RSA wrap key of its number;
/// the digest of the label stands at the end, as long as its hash function says.
pub proof fn rsa_wrapped_objects_are_opened_under_their_key(
    device: DeviceModel,
    authorization: SessionAuthorization,
    data: Seq<u8>,
)
    requires
        data.len() >= 4,
        in_reach(device, authorization, 4, u16_at(data, 0)),
        9 <= device.objects[place(4, u16_at(data, 0))].info.algorithm <= 11,
        device.objects[place(4, u16_at(data, 0))].material matches MaterialModel::SigningKey(key)
            && key.kind is Rsa,
        25 <= data[2] <= 28,
        32 <= data[3] <= 35,
    ensures
        ({
            let wrap_key = device.objects[place(4, u16_at(data, 0))];
            let modulus: int = match wrap_key.info.algorithm {
                9 => 256,
                10 => 384,
                _ => 512,
            };
            let label: int = match data[2] {
                25 => 20,
                26 => 32,
                27 => 48,
                _ => 64,
            };
            let run = device.imports_rsa_wrapped(authorization, data, Seq::empty(), 0);
            if data.len() < 4 + modulus + 16 + label {
                run == Err::<(OutcomeModel, nat), _>(HaltModel::Error(DeviceError::WrongLength, 0))
            } else {
                &&& computation(run) matches Some(asked)
                &&& asked.operation == Operation::DecryptOaep(mask_of(data[3]))
                &&& asked.key == wrap_key.material->SigningKey_0.private
                &&& asked.parameter == data.subrange(data.len() - label, data.len() as int)
                &&& asked.data == data.subrange(4, 4 + modulus)
            }
        }),
{
    let wrap_key = device.objects[place(4, u16_at(data, 0))];
    let modulus: int = match wrap_key.info.algorithm {
        9 => 256,
        10 => 384,
        _ => 512,
    };
    let label: int = match data[2] {
        25 => 20,
        26 => 32,
        27 => 48,
        _ => 64,
    };
    let input = data.subrange(4, data.len() as int);
    if data.len() >= 4 + modulus + 16 + label {
        let end = input.len() - label;
        assert(input.subrange(0, end).subrange(0, modulus) =~= data.subrange(4, 4 + modulus));
        assert(input.subrange(end, input.len() as int) =~= data.subrange(
            data.len() - label,
            data.len() as int,
        ));
    }
}

/// PutRsaWrappedKey makes a key as it was asked for, marked as imported.
pub proof fn wrapped_keys_are_as_asked(
    device: DeviceModel,
    authorization: SessionAuthorization,
    data: Seq<u8>,
    replies: Seq<EngineReply>,
    used: nat,
)
    ensures
        ({
            let run = device.puts_rsa_wrapped_key(authorization, data, replies, used);
            run is Ok ==> {
                &&& written(run) matches Some(object)
                &&& data.len() >= 58
                &&& data[2] == 3 || data[2] == 8
                &&& type_number(object.info.object_type) == data[2]
                &&& u16_at(data, 3) != 0 ==> object.info.id == u16_at(data, 3)
                &&& object.info.label == before_zero(data.subrange(5, 45))
                &&& object.info.domains == u16_at(data, 45)
                &&& object.info.capabilities.word() == u64_at(data, 47)
                &&& object.info.algorithm == data[55]
                &&& device.enabled(data[55])
                &&& object.info.origin == 0x12
                &&& device.objects.contains_key(place(4, u16_at(data, 0)))
                &&& may_bring(
                    authorization,
                    object,
                    device.objects[place(4, u16_at(data, 0))],
                )
                &&& answer(run) == Some(seq![data[2]] + u16_be(object.info.id))
            }
        }),
{
    capability_words_round_trip(u64_at(data, 47));
    let run = device.puts_rsa_wrapped_key(authorization, data, replies, used);
    if run is Ok {
        let object = written(run)->0;
        lemma_brought(
            authorization,
            object,
            object.info,
            device.objects[place(4, u16_at(data, 0))],
        );
    }
}

/// DeriveEcdhKdf derives from the secret that DeriveEcdh agrees on with the same
/// key and peer, behind the prefix, with the hash function, the length and the
/// shared information that are asked for.
pub proof fn derivations_start_from_the_agreement(
    device: DeviceModel,
    authorization: SessionAuthorization,
    data: Seq<u8>,
    reply: EngineReply,
    hash: HashAlgorithm,
)
    requires
        data.len() >= 11,
        data[2] == (match hash {
            HashAlgorithm::Sha1 => 1u8,
            HashAlgorithm::Sha224 => 2,
            HashAlgorithm::Sha256 => 3,
            HashAlgorithm::Sha384 => 4,
            HashAlgorithm::Sha512 => 5,
            HashAlgorithm::Sha3_224 => 6,
            HashAlgorithm::Sha3_256 => 7,
            HashAlgorithm::Sha3_384 => 8,
            HashAlgorithm::Sha3_512 => 9,
        }),
        0 < u16_at(data, 3) <= 1024,
        u16_at(data, 5) > 0,
        data.len() == 11 + u16_at(data, 5) + u16_at(data, 7) + u16_at(data, 9),
        reply is Bytes,
    ensures
        ({
            let none = Seq::<EngineReply>::empty();
            let prefix_at = 11 + u16_at(data, 5);
            let info_at = prefix_at + u16_at(data, 7);
            let agreement = u16_be(u16_at(data, 0)) + data.subrange(11, prefix_at);
            let plain = device.derives_ecdh(authorization, agreement, none.push(reply), 0);
            let first = device.derives_ecdh_kdf(authorization, data, none, 0);
            let second = device.derives_ecdh_kdf(authorization, data, none.push(reply), 0);
            &&& first == device.derives_ecdh(authorization, agreement, none, 0)
            &&& plain matches Ok((shared, _)) ==> (computation(second) matches Some(asked)
                && asked.operation == Operation::X963Kdf(hash, u16_at(data, 3) as usize)
                && asked.key == data.subrange(prefix_at, info_at) + shared && asked.parameter
                == data.subrange(info_at, data.len() as int))
        }),
{
    let id = u16_at(data, 0);
    let prefix_at = 11 + u16_at(data, 5);
    let peer = data.subrange(11, prefix_at);
    let agreement = u16_be(id) + peer;
    crate::bytes::u16_round_trip(id);
    assert(u16_at(agreement, 0) == id);
    assert(agreement.subrange(2, agreement.len() as int) =~= peer);
    assert(crate::session::secure_length(u16_at(data, 3) as int) <= 3133);
}

/// What an object is wrapped as: its type, number, domains, capabilities, algorithm
/// and label, how it came to be without the mark of an import, what it hands on,
/// and its contents by their kind.
pub proof fn wrapped_objects_say_what_they_are(object: RecordModel, contents: Seq<LeafModel>)
    ensures
        ({
            let items = object.wrapped_items(contents);
            &&& items.len() == 11
            &&& items[1] == ItemModel::Integer(1)
            &&& items[2] == ItemModel::Integer(type_number(object.info.object_type) as u64)
            &&& items[3] == ItemModel::Integer(object.info.id as u64)
            &&& items[4] == ItemModel::Integer(object.info.domains as u64)
            &&& items[5] == ItemModel::Bytes(u64_be(object.info.capabilities.word()))
            &&& items[6] == ItemModel::Integer(object.info.algorithm as u64)
            &&& items[7] == ItemModel::Integer((object.info.origin & 0x0f) as u64)
            &&& items[8] == ItemModel::Bytes(object.info.label)
            &&& items[9] == ItemModel::Bytes(u64_be(object.info.delegated_capabilities.word()))
            &&& items[10] == ItemModel::List(contents)
        }),
{
}

/// The contents of an object that is wrapped, by their kind: secrets as they are
/// under 0, opaque contents under 2, a public key under 3, a pair of keys under 4, a
/// point under 5, and a key for one-time passwords behind its nonce under 6.
pub proof fn wrapped_contents_are_of_their_kind(
    object: RecordModel,
    replies: Seq<EngineReply>,
    used: nat,
)
    ensures
        object.wrapped_material(replies, used) matches Ok((leaves, _)) ==> {
            &&& leaves.len() >= 2
            &&& match object.material {
                MaterialModel::Secret(value) => leaves == seq![
                    LeafModel::Integer(0),
                    LeafModel::Bytes(value),
                ],
                MaterialModel::Opaque(value) => leaves == seq![
                    LeafModel::Integer(2),
                    LeafModel::Bytes(value),
                ],
                MaterialModel::Public(value) => leaves == seq![
                    LeafModel::Integer(3),
                    LeafModel::Bytes(value),
                ],
                MaterialModel::Symmetric(value) => leaves == seq![
                    LeafModel::Integer(4),
                    LeafModel::Bytes(value),
                ],
                MaterialModel::Asymmetric(value) => leaves == seq![
                    LeafModel::Integer(5),
                    LeafModel::Bytes(value),
                ],
                MaterialModel::OtpAeadKey { nonce_id, key } => leaves == seq![
                    LeafModel::Integer(6),
                    LeafModel::Bytes(nonce_id),
                    LeafModel::Bytes(key),
                ],
                MaterialModel::SigningKey(_) | MaterialModel::X25519Key(_) => leaves.len() == 2
                    && leaves[0] == LeafModel::Integer(1),
            }
        },
{
}

/// GetRsaWrappedKey hands a symmetric key out under a public wrap key: a fresh AES
/// key, as long as is asked for, is encrypted for the modulus with the digest of
/// the label, and the key itself is wrapped under the AES key behind it.
pub proof fn symmetric_keys_are_handed_out(
    device: DeviceModel,
    authorization: SessionAuthorization,
    engine: spec_fn(RequestModel) -> EngineReply,
    data: Seq<u8>,
)
    requires
        data.len() >= 8,
        in_reach(device, authorization, 9, u16_at(data, 0)),
        device.objects[place(9, u16_at(data, 0))].material is Public,
        data[2] == 8,
        device.objects.contains_key(place(8, u16_at(data, 3))),
        device.objects[place(8, u16_at(data, 3))].material is Secret,
        50 <= data[5] <= 52,
        25 <= data[6] <= 28,
        32 <= data[7] <= 35,
        data.len() - 8 == (match data[6] {
            25 => 20int,
            26 => 32,
            27 => 48,
            _ => 64,
        }),
        draws(engine),
    ensures
        ({
            let modulus = device.objects[place(9, u16_at(data, 0))].material->Public_0;
            let secret = device.objects[place(8, u16_at(data, 3))].material->Secret_0;
            let length: usize = match data[5] {
                50 => 16,
                51 => 24,
                _ => 32,
            };
            let fresh = told(engine, RequestModel::Random(length))->0;
            let key = told(
                engine,
                RequestModel::compute(
                    Operation::EncryptOaep(mask_of(data[7])),
                    modulus,
                    data.subrange(8, data.len() as int),
                    fresh,
                ),
            );
            let wrapped = told(
                engine,
                RequestModel::compute(Operation::WrapKwp, fresh, Seq::empty(), secret),
            );
            consulted(
                |replies: Seq<EngineReply>|
                    device.exports_rsa_wrapped(authorization, data, true, replies, 0),
                engine,
                Seq::empty(),
                3,
            ) == (if key is Some && wrapped is Some {
                Ok(key->0 + wrapped->0)
            } else {
                Err(StopModel::Error(DeviceError::InvalidData))
            })
        }),
{
    let modulus = device.objects[place(9, u16_at(data, 0))].material->Public_0;
    let secret = device.objects[place(8, u16_at(data, 3))].material->Secret_0;
    let length: usize = match data[5] {
        50 => 16,
        51 => 24,
        _ => 32,
    };
    let command = |replies: Seq<EngineReply>|
        device.exports_rsa_wrapped(authorization, data, true, replies, 0);
    let none = Seq::<EngineReply>::empty();
    let q1 = RequestModel::Random(length);
    let fresh = told(engine, q1)->0;
    let q2 = RequestModel::compute(
        Operation::EncryptOaep(mask_of(data[7])),
        modulus,
        data.subrange(8, data.len() as int),
        fresh,
    );
    let q3 = RequestModel::compute(Operation::WrapKwp, fresh, Seq::empty(), secret);
    let r1 = none.push(engine(q1));
    let r2 = r1.push(engine(q2));
    let r3 = r2.push(engine(q3));
    assert(told(engine, q1) is Some && fresh.len() == length);
    assert(r1[0] == engine(q1));
    assert(r2[0] == engine(q1) && r2[1] == engine(q2));
    assert(r3[0] == engine(q1) && r3[1] == engine(q2) && r3[2] == engine(q3));
    assert(command(none) == Err::<(Seq<u8>, nat), HaltModel>(HaltModel::Ask(q1)));
    assert(consulted(command, engine, none, 3) == consulted(command, engine, r1, 2));
    assert(command(r1) == Err::<(Seq<u8>, nat), HaltModel>(HaltModel::Ask(q2)));
    assert(consulted(command, engine, r1, 2) == consulted(command, engine, r2, 1));
    if told(engine, q2) is Some {
        assert(command(r2) == Err::<(Seq<u8>, nat), HaltModel>(HaltModel::Ask(q3)));
        assert(consulted(command, engine, r2, 1) == consulted(command, engine, r3, 0));
    }
}

/// What can travel is of one piece: the contents are such as its type and algorithm
/// have, and of the length that they say.
pub proof fn travelling_objects_are_of_one_piece(
    object: RecordModel,
    replies: Seq<EngineReply>,
    used: nat,
)
    requires
        object.travels(replies, used) is Ok,
    ensures
        ({
            let algorithm = object.info.algorithm;
            let secret = object.material->Secret_0.len();
            match object.info.object_type {
                ObjectType::Opaque => object.material is Opaque && 30 <= algorithm <= 31,
                ObjectType::Template => object.material is Opaque && algorithm == 36,
                ObjectType::AuthenticationKey => (algorithm == 38 && object.material is Symmetric
                    && object.material->Symmetric_0.len() == 32) || (algorithm == 49
                    && object.material is Asymmetric && object.material->Asymmetric_0.len() == 64),
                ObjectType::AsymmetricKey => (algorithm == 56 && object.material is X25519Key) || (
                algorithm != 56 && object.material is SigningKey && (9 <= algorithm <= 18
                    || algorithm == 46 || algorithm == 47)),
                ObjectType::WrapKey => (9 <= algorithm <= 11 && object.material is SigningKey
                    && object.material->SigningKey_0.kind is Rsa) || (object.material is Secret && (
                (algorithm == 29 && secret == 16) || (algorithm == 41 && secret == 24) || (
                algorithm == 42 && secret == 32))),
                ObjectType::HmacKey => 19 <= algorithm <= 22 && object.material is Secret && 1
                    <= secret <= 128,
                ObjectType::OtpAeadKey => object.material is OtpAeadKey && ((algorithm == 37
                    && object.material->key.len() == 16) || (algorithm == 39
                    && object.material->key.len() == 24) || (algorithm == 40
                    && object.material->key.len() == 32)),
                ObjectType::SymmetricKey => object.material is Secret && ((algorithm == 50 && secret
                    == 16) || (algorithm == 51 && secret == 24) || (algorithm == 52 && secret
                    == 32)),
                ObjectType::PublicWrapKey => object.material is Public && ((algorithm == 9
                    && object.material->Public_0.len() == 256) || (algorithm == 10
                    && object.material->Public_0.len() == 384) || (algorithm == 11
                    && object.material->Public_0.len() == 512)),
            }
        }),
{
}

/// Whether a computation is of one kind, over data.
pub open spec fn is_asked(
    asked: Option<ComputationModel>,
    operation: Operation,
    data: Seq<u8>,
) -> bool {
    asked matches Some(asked) && asked.operation == operation && asked.data == data
}

/// A private key that comes as bytes is made of them by the engine: of the kind that
/// its algorithm says, and for X25519 as such.
pub proof fn private_keys_are_made_by_the_engine(algorithm: u8, encoded: Seq<u8>)
    ensures
        ({
            let asked = computation(typed_material(algorithm, encoded, Seq::empty(), 0));
            &&& algorithm == 56 ==> is_asked(asked, Operation::ImportX25519, encoded)
            &&& curve_of(algorithm) matches Some(curve) ==> is_asked(
                asked,
                Operation::ImportKey(KeyKind::Ec(curve)),
                encoded,
            )
            &&& algorithm == 46 ==> is_asked(asked, Operation::ImportKey(KeyKind::Ed25519), encoded)
            &&& algorithm == 9 && encoded.len() == 256 ==> is_asked(
                asked,
                Operation::ImportKey(KeyKind::Rsa { modulus_bits: 2048 }),
                encoded,
            )
            &&& algorithm == 10 && encoded.len() == 384 ==> is_asked(
                asked,
                Operation::ImportKey(KeyKind::Rsa { modulus_bits: 3072 }),
                encoded,
            )
            &&& algorithm == 11 && encoded.len() == 512 ==> is_asked(
                asked,
                Operation::ImportKey(KeyKind::Rsa { modulus_bits: 4096 }),
                encoded,
            )
        }),
{
}

/// A new private key is asked of the engine: generated where nothing is sent, and
/// else made of what is sent.
pub proof fn new_private_keys_are_asked_of_the_engine(
    device: DeviceModel,
    authorization: SessionAuthorization,
    data: Seq<u8>,
)
    requires
        data.len() >= 53,
        device.enabled(data[52]),
    ensures
        ({
            let sent = data.subrange(53, data.len() as int);
            let none = Seq::<u8>::empty();
            let generated = computation(
                device.puts_asymmetric_key(authorization, data, true, Seq::empty(), 0),
            );
            let put = computation(
                device.puts_asymmetric_key(authorization, data, false, Seq::empty(), 0),
            );
            &&& curve_of(data[52]) matches Some(curve) ==> {
                &&& sent.len() == 0 ==> is_asked(
                    generated,
                    Operation::GenerateKey(KeyKind::Ec(curve)),
                    none,
                )
                &&& sent.len() == curve.scalar_length() ==> is_asked(
                    put,
                    Operation::ImportKey(KeyKind::Ec(curve)),
                    sent,
                )
            }
            &&& data[52] == 56 && sent.len() == 0 ==> is_asked(
                generated,
                Operation::GenerateX25519,
                none,
            )
            &&& data[52] == 56 && sent.len() == 32 ==> is_asked(put, Operation::ImportX25519, sent)
            &&& data[52] == 46 && sent.len() == 0 ==> is_asked(
                generated,
                Operation::GenerateKey(KeyKind::Ed25519),
                none,
            )
            &&& data[52] == 46 && sent.len() == 32 ==> is_asked(
                put,
                Operation::ImportKey(KeyKind::Ed25519),
                sent,
            )
        }),
{
}

} // verus!
