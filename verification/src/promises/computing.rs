//! Computations with keys: what the engine is asked, and under which key.
use crate::authorization::SessionAuthorization;
use crate::bytes::{u16_at, u16_be, u16_round_trip};
use crate::consultation::{consulted, told, undoes};
use crate::device::DeviceModel;
use crate::engine::{
    ComputationModel, EngineReply, HaltModel, Operation, RequestModel, Run, StopModel,
};
use crate::error::DeviceError;
use crate::keys::{EcCurve, HashAlgorithm};
use crate::object::{MaterialModel, RecordModel};
use crate::request::{AesCbcRequest, IdRequest};
use crate::usage::hash_of_length;
use crate::wire::decoded;
use vstd::prelude::*;

verus! {

/// The computation that a command stops to ask for.
pub open spec fn computation<T>(run: Run<T>) -> Option<ComputationModel> {
    match run {
        Err(HaltModel::Ask(RequestModel::Compute(computation))) => Some(computation),
        _ => None,
    }
}

/// The place of an object of a type with a number.
pub open spec fn place(object_type: int, id: u16) -> u32 {
    (object_type * 0x1_0000 + id) as u32
}

/// Whether a session can use an object of a type with a number: it is there,
/// shares a domain with the session, and its algorithm is enabled.
pub open spec fn in_reach(
    device: DeviceModel,
    authorization: SessionAuthorization,
    object_type: int,
    id: u16,
) -> bool {
    let object = device.objects[place(object_type, id)];
    &&& device.objects.contains_key(place(object_type, id))
    &&& authorization.domains & object.info.domains != 0
    &&& device.enabled(object.info.algorithm)
}

/// Whether an object is an RSA key.
pub open spec fn is_rsa_key(object: RecordModel) -> bool {
    &&& 9 <= object.info.algorithm <= 11
    &&& object.material matches MaterialModel::SigningKey(key) && key.kind is Rsa
}

/// Whether a computation is one with a signing key.
pub open spec fn computes_with(
    computation: Option<ComputationModel>,
    object: RecordModel,
    operation: Operation,
    parameter: Seq<u8>,
    data: Seq<u8>,
) -> bool {
    &&& computation matches Some(asked)
    &&& asked.operation == operation
    &&& asked.key == object.material->SigningKey_0.private
    &&& asked.second == object.material->SigningKey_0.second
    &&& asked.parameter == parameter
    &&& asked.data == data
}

/// A hash function is known by the length of its digests: 20 bytes are of SHA-1,
/// 32 of SHA-256, 48 of SHA-384 and 64 of SHA-512, and no other length is of one.
pub proof fn digests_are_known_by_their_length(length: int, hash: HashAlgorithm)
    ensures
        hash_of_length(length) == Some(hash) <==> length == hash.size() && (hash
            == HashAlgorithm::Sha1 || hash == HashAlgorithm::Sha256 || hash
            == HashAlgorithm::Sha384 || hash == HashAlgorithm::Sha512),
        length == 20 ==> hash_of_length(length) == Some(HashAlgorithm::Sha1),
        length == 32 ==> hash_of_length(length) == Some(HashAlgorithm::Sha256),
        length == 48 ==> hash_of_length(length) == Some(HashAlgorithm::Sha384),
        length == 64 ==> hash_of_length(length) == Some(HashAlgorithm::Sha512),
{
}

/// SignPkcs1 signs what is as long as a digest as that digest, and all else as it
/// is.
pub proof fn pkcs1_signatures_name_the_hash(
    device: DeviceModel,
    authorization: SessionAuthorization,
    data: Seq<u8>,
)
    requires
        data.len() > 2,
        in_reach(device, authorization, 3, u16_at(data, 0)),
        is_rsa_key(device.objects[place(3, u16_at(data, 0))]),
    ensures
        ({
            let payload = data.subrange(2, data.len() as int);
            let key = device.objects[place(3, u16_at(data, 0))];
            let asked = computation(
                device.signs_pkcs1(authorization, data, Seq::empty(), 0),
            );
            computes_with(
                asked,
                key,
                if payload.len() == 20 {
                    Operation::SignPkcs1Digest(HashAlgorithm::Sha1)
                } else if payload.len() == 32 {
                    Operation::SignPkcs1Digest(HashAlgorithm::Sha256)
                } else if payload.len() == 48 {
                    Operation::SignPkcs1Digest(HashAlgorithm::Sha384)
                } else if payload.len() == 64 {
                    Operation::SignPkcs1Digest(HashAlgorithm::Sha512)
                } else {
                    Operation::SignPkcs1Payload
                },
                Seq::empty(),
                payload,
            )
        }),
{
}

/// SignPss signs digests only, and names the hash function of the digest, that of
/// the mask and the length of the salt.
pub proof fn pss_signatures_name_the_hash(
    device: DeviceModel,
    authorization: SessionAuthorization,
    data: Seq<u8>,
    hash: HashAlgorithm,
    mask: HashAlgorithm,
)
    requires
        data.len() > 5,
        in_reach(device, authorization, 3, u16_at(data, 0)),
        is_rsa_key(device.objects[place(3, u16_at(data, 0))]),
        data[2] == (match mask {
            HashAlgorithm::Sha1 => 32u8,
            HashAlgorithm::Sha256 => 33,
            HashAlgorithm::Sha384 => 34,
            HashAlgorithm::Sha512 => 35,
            _ => 0,
        }),
        32 <= data[2] <= 35,
    ensures
        ({
            let key = device.objects[place(3, u16_at(data, 0))];
            let run = device.signs_pss(authorization, data, Seq::empty(), 0);
            &&& (data.len() - 5 == 20 && hash == HashAlgorithm::Sha1) || (data.len() - 5 == 32
                && hash == HashAlgorithm::Sha256) || (data.len() - 5 == 48 && hash
                == HashAlgorithm::Sha384) || (data.len() - 5 == 64 && hash
                == HashAlgorithm::Sha512) ==> computes_with(
                computation(run),
                key,
                Operation::SignPss(hash, mask, u16_at(data, 3) as usize),
                Seq::empty(),
                data.subrange(5, data.len() as int),
            )
            &&& data.len() - 5 != 20 && data.len() - 5 != 32 && data.len() - 5 != 48 && data.len()
                - 5 != 64 ==> run == Err::<(Seq<u8>, nat), HaltModel>(
                HaltModel::Error(DeviceError::WrongLength, 0),
            )
        }),
{
}

/// The curve that a key is on.
pub open spec fn curve_of(algorithm: u8) -> Option<EcCurve> {
    match algorithm {
        12 => Some(EcCurve::P256),
        13 => Some(EcCurve::P384),
        14 => Some(EcCurve::P521),
        15 => Some(EcCurve::Secp256k1),
        16 => Some(EcCurve::BrainpoolP256),
        17 => Some(EcCurve::BrainpoolP384),
        18 => Some(EcCurve::BrainpoolP512),
        47 => Some(EcCurve::P224),
        _ => None,
    }
}

/// SignEcdsa signs with the curve of the key, SignEddsa with Ed25519 keys alone.
pub proof fn curve_signatures_name_the_curve(
    device: DeviceModel,
    authorization: SessionAuthorization,
    data: Seq<u8>,
)
    requires
        data.len() > 2,
        in_reach(device, authorization, 3, u16_at(data, 0)),
        device.objects[place(3, u16_at(data, 0))].material matches MaterialModel::SigningKey(key)
            && !(key.kind is Rsa),
    ensures
        ({
            let payload = data.subrange(2, data.len() as int);
            let key = device.objects[place(3, u16_at(data, 0))];
            let ecdsa = device.signs_ecdsa(authorization, data, Seq::empty(), 0);
            let eddsa = device.signs_eddsa(authorization, data, Seq::empty(), 0);
            let refused = Err::<(Seq<u8>, nat), HaltModel>(
                HaltModel::Error(DeviceError::InvalidData, 0),
            );
            &&& match curve_of(key.info.algorithm) {
                Some(curve) => computes_with(
                    computation(ecdsa),
                    key,
                    Operation::SignEcdsa(curve),
                    Seq::empty(),
                    payload,
                ),
                None => ecdsa == refused,
            }
            &&& if key.info.algorithm == 46 {
                computes_with(
                    computation(eddsa),
                    key,
                    Operation::SignEd25519,
                    Seq::empty(),
                    payload,
                )
            } else {
                eddsa == refused
            }
        }),
{
}

/// DecryptPkcs1 and DecryptOaep hand the ciphertext to the engine; in OAEP what is
/// longer than the modulus is the digest of the label, of a length that digests
/// have.
pub proof fn rsa_decryptions_name_the_ciphertext(
    device: DeviceModel,
    authorization: SessionAuthorization,
    data: Seq<u8>,
    mask: HashAlgorithm,
)
    requires
        data.len() > 3,
        in_reach(device, authorization, 3, u16_at(data, 0)),
        is_rsa_key(device.objects[place(3, u16_at(data, 0))]),
        data[2] == (match mask {
            HashAlgorithm::Sha1 => 32u8,
            HashAlgorithm::Sha256 => 33,
            HashAlgorithm::Sha384 => 34,
            HashAlgorithm::Sha512 => 35,
            _ => 0,
        }),
        32 <= data[2] <= 35,
    ensures
        ({
            let key = device.objects[place(3, u16_at(data, 0))];
            let modulus: int = match key.info.algorithm {
                9 => 256,
                10 => 384,
                _ => 512,
            };
            let label = data.len() - 3 - modulus;
            let oaep = device.decrypts_oaep(authorization, data, Seq::empty(), 0);
            &&& computes_with(
                computation(device.decrypts_pkcs1(authorization, data, Seq::empty(), 0)),
                key,
                Operation::DecryptPkcs1,
                Seq::empty(),
                data.subrange(2, data.len() as int),
            )
            &&& if label == 20 || label == 32 || label == 48 || label == 64 {
                computes_with(
                    computation(oaep),
                    key,
                    Operation::DecryptOaep(mask),
                    data.subrange(3 + modulus, data.len() as int),
                    data.subrange(3, 3 + modulus),
                )
            } else {
                oaep == Err::<(Seq<u8>, nat), HaltModel>(
                    HaltModel::Error(DeviceError::WrongLength, 0),
                )
            }
        }),
{
    let key = device.objects[place(3, u16_at(data, 0))];
    let modulus: int = match key.info.algorithm {
        9 => 256,
        10 => 384,
        _ => 512,
    };
    let input = data.subrange(3, data.len() as int);
    if data.len() >= 3 + modulus {
        assert(input.subrange(modulus, input.len() as int) =~= data.subrange(
            3 + modulus,
            data.len() as int,
        ));
        assert(input.subrange(0, modulus) =~= data.subrange(3, 3 + modulus));
    }
}

/// DeriveEcdh agrees on a secret between the key of its number and the peer's.
pub proof fn agreements_are_with_the_peer(
    device: DeviceModel,
    authorization: SessionAuthorization,
    data: Seq<u8>,
)
    requires
        data.len() > 2,
        in_reach(device, authorization, 3, u16_at(data, 0)),
    ensures
        ({
            let peer = data.subrange(2, data.len() as int);
            let key = device.objects[place(3, u16_at(data, 0))];
            let asked = computation(device.derives_ecdh(authorization, data, Seq::empty(), 0));
            &&& key.info.algorithm == 56 && key.material is X25519Key ==> asked is Some
                && asked->0.operation == Operation::AgreeX25519 && asked->0.key
                == key.material->X25519Key_0.private && asked->0.data == peer
            &&& curve_of(key.info.algorithm) is Some && key.material is SigningKey && (
            key.material->SigningKey_0.kind is Ec) ==> computes_with(
                asked,
                key,
                Operation::Agree(key.material->SigningKey_0.kind),
                Seq::empty(),
                peer,
            )
        }),
{
}

/// The hash functions of HMAC keys.
pub open spec fn hmac_of(algorithm: u8) -> HashAlgorithm {
    match algorithm {
        19 => HashAlgorithm::Sha1,
        20 => HashAlgorithm::Sha256,
        21 => HashAlgorithm::Sha384,
        _ => HashAlgorithm::Sha512,
    }
}

/// SignHmac answers with the code of the message under the key of its number and
/// the hash function of its algorithm. VerifyHmac says 1 of that code before the
/// message, and 0 of any other code of its length.
pub proof fn signed_messages_are_verified(
    device: DeviceModel,
    authorization: SessionAuthorization,
    engine: spec_fn(RequestModel) -> EngineReply,
    id: u16,
    message: Seq<u8>,
    code: Seq<u8>,
)
    requires
        in_reach(device, authorization, 5, id),
        19 <= device.objects[place(5, id)].info.algorithm <= 22,
        device.objects[place(5, id)].material is Secret,
        code.len() == (match device.objects[place(5, id)].info.algorithm {
            19 => 20int,
            20 => 32,
            21 => 48,
            _ => 64,
        }),
    ensures
        ({
            let key = device.objects[place(5, id)];
            let question = RequestModel::compute(
                Operation::Hmac(hmac_of(key.info.algorithm)),
                key.material->Secret_0,
                Seq::empty(),
                message,
            );
            let signed = consulted(
                |replies: Seq<EngineReply>|
                    device.signs_hmac(authorization, u16_be(id) + message, replies, 0),
                engine,
                Seq::empty(),
                1,
            );
            let verified = consulted(
                |replies: Seq<EngineReply>|
                    device.verifies_hmac(authorization, u16_be(id) + code + message, replies, 0),
                engine,
                Seq::empty(),
                1,
            );
            match told(engine, question) {
                Some(right) => signed == Ok::<_, StopModel>(right) && verified == (if code
                    == right {
                    Ok::<_, StopModel>(seq![1u8])
                } else {
                    Ok(seq![0u8])
                }),
                None => signed == Err::<Seq<u8>, _>(StopModel::Error(DeviceError::InvalidData))
                    && verified == Err::<Seq<u8>, _>(StopModel::Error(DeviceError::InvalidData)),
            }
        }),
{
    let key = device.objects[place(5, id)];
    let question = RequestModel::compute(
        Operation::Hmac(hmac_of(key.info.algorithm)),
        key.material->Secret_0,
        Seq::empty(),
        message,
    );
    u16_round_trip(id);
    let short = u16_be(id) + message;
    let long = u16_be(id) + code + message;
    assert(u16_at(short, 0) == id);
    assert(u16_at(long, 0) == id);
    assert(short.subrange(2, short.len() as int) =~= message);
    let rest = long.subrange(2, long.len() as int);
    assert(rest =~= code + message);
    assert(rest.subrange(code.len() as int, rest.len() as int) =~= message);
    assert(rest.subrange(0, code.len() as int) =~= code);
    assert(decoded::<IdRequest>(short) is Ok && decoded::<IdRequest>(long) is Ok);
    let none = Seq::<EngineReply>::empty();
    let one = none.push(engine(question));
    let sign = |replies: Seq<EngineReply>|
        device.signs_hmac(authorization, u16_be(id) + message, replies, 0);
    assert(sign(none) == Err::<(Seq<u8>, nat), HaltModel>(HaltModel::Ask(question)));
    assert(consulted(sign, engine, none, 1) == consulted(sign, engine, one, 0));
    let verify = |replies: Seq<EngineReply>|
        device.verifies_hmac(authorization, u16_be(id) + code + message, replies, 0);
    assert(verify(none) == Err::<(Seq<u8>, nat), HaltModel>(HaltModel::Ask(question)));
    assert(consulted(verify, engine, none, 1) == consulted(verify, engine, one, 0));
    assert(one[0] == engine(question));
}

/// What a device answers to EncryptEcb or DecryptEcb.
pub open spec fn ecb(
    device: DeviceModel,
    authorization: SessionAuthorization,
    engine: spec_fn(RequestModel) -> EngineReply,
    id: u16,
    input: Seq<u8>,
    encrypt: bool,
) -> core::result::Result<Seq<u8>, StopModel> {
    consulted(
        |replies: Seq<EngineReply>|
            device.crypts_ecb(authorization, u16_be(id) + input, encrypt, replies, 0),
        engine,
        Seq::empty(),
        1,
    )
}

/// What a device answers to EncryptCbc or DecryptCbc.
pub open spec fn cbc(
    device: DeviceModel,
    authorization: SessionAuthorization,
    engine: spec_fn(RequestModel) -> EngineReply,
    id: u16,
    vector: Seq<u8>,
    input: Seq<u8>,
    encrypt: bool,
) -> core::result::Result<Seq<u8>, StopModel> {
    consulted(
        |replies: Seq<EngineReply>|
            device.crypts_cbc(authorization, u16_be(id) + vector + input, encrypt, replies, 0),
        engine,
        Seq::empty(),
        1,
    )
}

/// The block commands hand their input, and the vector where there is one, to the
/// engine under the key of their number, and answer with what it says.
pub proof fn blocks_are_computed_under_their_key(
    device: DeviceModel,
    authorization: SessionAuthorization,
    engine: spec_fn(RequestModel) -> EngineReply,
    id: u16,
    vector: Seq<u8>,
    input: Seq<u8>,
    encrypt: bool,
)
    requires
        in_reach(device, authorization, 8, id),
        50 <= device.objects[place(8, id)].info.algorithm <= 52,
        device.objects[place(8, id)].material is Secret,
        vector.len() == 16,
    ensures
        ({
            let key = device.objects[place(8, id)].material->Secret_0;
            let refused = Err::<Seq<u8>, StopModel>(StopModel::Error(DeviceError::WrongLength));
            let failed = Err::<Seq<u8>, StopModel>(StopModel::Error(DeviceError::InvalidData));
            let (by_ecb, by_cbc) = if encrypt {
                (Operation::EncryptEcb, Operation::EncryptCbc)
            } else {
                (Operation::DecryptEcb, Operation::DecryptCbc)
            };
            let first = ecb(device, authorization, engine, id, input, encrypt);
            let second = cbc(device, authorization, engine, id, vector, input, encrypt);
            if input.len() == 0 || input.len() % 16 != 0 {
                first == refused && second == refused
            } else {
                &&& first == (match told(
                    engine,
                    RequestModel::compute(by_ecb, key, Seq::empty(), input),
                ) {
                    Some(output) => Ok(output),
                    None => failed,
                })
                &&& second == (match told(
                    engine,
                    RequestModel::compute(by_cbc, key, vector, input),
                ) {
                    Some(output) => Ok(output),
                    None => failed,
                })
            }
        }),
{
    u16_round_trip(id);
    let short = u16_be(id) + input;
    let long = u16_be(id) + vector + input;
    assert(u16_at(short, 0) == id);
    assert(u16_at(long, 0) == id);
    assert(short.subrange(2, short.len() as int) =~= input);
    assert(long.subrange(2, 18) =~= vector);
    assert(long.subrange(18, long.len() as int) =~= input);
    assert(decoded::<IdRequest>(short) is Ok && decoded::<AesCbcRequest>(long) is Ok);
    let key = device.objects[place(8, id)].material->Secret_0;
    let none = Seq::<EngineReply>::empty();
    let by_ecb = |replies: Seq<EngineReply>|
        device.crypts_ecb(authorization, u16_be(id) + input, encrypt, replies, 0);
    let by_cbc = |replies: Seq<EngineReply>|
        device.crypts_cbc(authorization, u16_be(id) + vector + input, encrypt, replies, 0);
    if input.len() > 0 && input.len() % 16 == 0 {
        let first = RequestModel::compute(
            if encrypt {
                Operation::EncryptEcb
            } else {
                Operation::DecryptEcb
            },
            key,
            Seq::empty(),
            input,
        );
        assert(by_ecb(none) == Err::<(Seq<u8>, nat), HaltModel>(HaltModel::Ask(first)));
        let one = none.push(engine(first));
        assert(consulted(by_ecb, engine, none, 1) == consulted(by_ecb, engine, one, 0));
        assert(one[0] == engine(first));
        let second = RequestModel::compute(
            if encrypt {
                Operation::EncryptCbc
            } else {
                Operation::DecryptCbc
            },
            key,
            vector,
            input,
        );
        assert(by_cbc(none) == Err::<(Seq<u8>, nat), HaltModel>(HaltModel::Ask(second)));
        let two = none.push(engine(second));
        assert(consulted(by_cbc, engine, none, 1) == consulted(by_cbc, engine, two, 0));
        assert(two[0] == engine(second));
    }
}

/// What is encrypted in blocks is decrypted to itself, under the same key and with
/// the same vector, by an engine that undoes its encryption.
pub proof fn encrypted_blocks_are_decrypted(
    device: DeviceModel,
    authorization: SessionAuthorization,
    engine: spec_fn(RequestModel) -> EngineReply,
    id: u16,
    vector: Seq<u8>,
    input: Seq<u8>,
)
    requires
        in_reach(device, authorization, 8, id),
        50 <= device.objects[place(8, id)].info.algorithm <= 52,
        device.objects[place(8, id)].material is Secret,
        vector.len() == 16,
        undoes(engine, Operation::EncryptEcb, Operation::DecryptEcb),
        undoes(engine, Operation::EncryptCbc, Operation::DecryptCbc),
    ensures
        ecb(device, authorization, engine, id, input, true) matches Ok(output) ==> output.len()
            == input.len() ==> ecb(device, authorization, engine, id, output, false)
            == Ok::<_, StopModel>(input),
        cbc(device, authorization, engine, id, vector, input, true) matches Ok(output)
            ==> output.len() == input.len() ==> cbc(
            device,
            authorization,
            engine,
            id,
            vector,
            output,
            false,
        ) == Ok::<_, StopModel>(input),
{
    blocks_are_computed_under_their_key(device, authorization, engine, id, vector, input, true);
    if let Ok(output) = ecb(device, authorization, engine, id, input, true) {
        blocks_are_computed_under_their_key(
            device,
            authorization,
            engine,
            id,
            vector,
            output,
            false,
        );
    }
    if let Ok(output) = cbc(device, authorization, engine, id, vector, input, true) {
        blocks_are_computed_under_their_key(
            device,
            authorization,
            engine,
            id,
            vector,
            output,
            false,
        );
    }
}

} // verus!
