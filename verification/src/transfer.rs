//! Commands that move objects in and out of a device under wrap keys.
use crate::algorithm::Algorithm;
use crate::authorization::SessionAuthorization;
use crate::bytes::{
    before_zero, copied, copied_range, joined, single, trim_label, u16_be, u16_bytes,
};
use crate::capability::CapabilitySet;
use crate::device::{
    effect_is_valid, viewed, Device, DeviceModel, Effect, EffectModel, Outcome, OutcomeModel,
};
use crate::engine::{
    bytes_from, fail, lift, run, Answers, EngineReply, EngineRequest, Halt, HaltModel, Operation,
    RequestModel, Run,
};
use crate::error::{DeviceError, Result};
use crate::firmware::FirmwareProfile;
use crate::keys::{HashAlgorithm, SigningKey, SigningKeyModel};
use crate::object::{
    InfoModel, MaterialModel, ObjectInfo, ObjectKey, ObjectMaterial, ObjectRecord, ObjectType,
    RecordModel,
};
use crate::options::OPTION_OFF;
use crate::request::{
    ExportRsaWrappedFields, ExportWrappedRequest, ImportRsaWrappedRequest, ImportWrappedRequest,
    PutRsaWrappedKeyRequest,
};
use crate::store::{draw_random, random_from, symmetric_key_length, symmetric_length};
use crate::usage::{
    ccm_decrypt, ccm_encrypt, mgf_hash_of, object_secret, rsa_mgf_hash, rsa_modulus_length,
    signing_key, AES_CCM_TAG_SIZE,
};
use crate::wire::{decode, decoded};
use crate::wrapped::{
    asymmetric_material_from_pkcs8, asymmetric_pkcs8, decode_wrapped_object, encode_wrapped_object,
    material_of_pkcs8, unwrapped,
};
use vstd::prelude::*;

verus! {

/// The hash function of an OAEP algorithm.
pub open spec fn oaep_hash_of(algorithm: u8) -> core::result::Result<HashAlgorithm, DeviceError> {
    match Algorithm::of_byte(algorithm) {
        Some(Algorithm::RsaOaepSha1) => Ok(HashAlgorithm::Sha1),
        Some(Algorithm::RsaOaepSha256) => Ok(HashAlgorithm::Sha256),
        Some(Algorithm::RsaOaepSha384) => Ok(HashAlgorithm::Sha384),
        Some(Algorithm::RsaOaepSha512) => Ok(HashAlgorithm::Sha512),
        _ => Err(DeviceError::InvalidData),
    }
}

/// Returns the hash function of an OAEP algorithm.
pub fn rsa_oaep_hash(algorithm: u8) -> (hash: Result<HashAlgorithm>)
    ensures
        hash == oaep_hash_of(algorithm),
{
    match Algorithm::from_byte(algorithm) {
        Some(Algorithm::RsaOaepSha1) => Ok(HashAlgorithm::Sha1),
        Some(Algorithm::RsaOaepSha256) => Ok(HashAlgorithm::Sha256),
        Some(Algorithm::RsaOaepSha384) => Ok(HashAlgorithm::Sha384),
        Some(Algorithm::RsaOaepSha512) => Ok(HashAlgorithm::Sha512),
        _ => Err(DeviceError::InvalidData),
    }
}

/// The length of the AES key that an RSA key wraps.
pub open spec fn wrap_aes_length(algorithm: u8) -> core::result::Result<usize, DeviceError> {
    match Algorithm::of_byte(algorithm) {
        Some(algorithm) => match symmetric_length(algorithm) {
            Some(length) => Ok(length),
            None => Err(DeviceError::InvalidData),
        },
        None => Err(DeviceError::InvalidData),
    }
}

/// Returns the length of the AES key that an RSA key wraps.
pub fn rsa_wrap_aes_length(algorithm: u8) -> (length: Result<usize>)
    ensures
        length == wrap_aes_length(algorithm),
{
    match Algorithm::from_byte(algorithm) {
        Some(algorithm) => match symmetric_key_length(algorithm) {
            Some(length) => Ok(length),
            None => Err(DeviceError::InvalidData),
        },
        None => Err(DeviceError::InvalidData),
    }
}

/// Data wrapped for an RSA key: a random AES key encrypted by OAEP, and the data
/// wrapped under the AES key.
pub open spec fn rsa_wrapped(
    modulus: Seq<u8>,
    aes_length: usize,
    plaintext: Seq<u8>,
    label_digest: Seq<u8>,
    mgf_hash: HashAlgorithm,
    replies: Seq<EngineReply>,
    used: nat,
) -> Run<Seq<u8>> {
    match random_from(replies, used, aes_length) {
        Err(halt) => Err(halt),
        Ok((aes_key, used)) => match bytes_from(
            replies,
            used,
            RequestModel::compute(Operation::EncryptOaep(mgf_hash), modulus, label_digest, aes_key),
            DeviceError::InvalidData,
        ) {
            Err(halt) => Err(halt),
            Ok((encrypted_key, used)) => match bytes_from(
                replies,
                used,
                RequestModel::keyed(Operation::WrapKwp, aes_key, plaintext),
                DeviceError::InvalidData,
            ) {
                Err(halt) => Err(halt),
                Ok((wrapped, used)) => Ok((encrypted_key + wrapped, used)),
            },
        },
    }
}

/// Wraps data for an RSA key.
fn rsa_aes_wrap(
    modulus: &[u8],
    aes_length: usize,
    plaintext: &[u8],
    label_digest: &[u8],
    mgf_hash: HashAlgorithm,
    answers: &mut Answers,
) -> (wrapped: core::result::Result<Vec<u8>, Halt>)
    requires
        old(answers).valid(),
    ensures
        final(answers).valid(),
        final(answers).replies == old(answers).replies,
        run(wrapped, final(answers).used) == rsa_wrapped(
            modulus@,
            aes_length,
            plaintext@,
            label_digest@,
            mgf_hash,
            old(answers).replies@,
            old(answers).used as nat,
        ),
{
    let aes_key: Vec<u8> = draw_random(aes_length, answers)?;
    let encrypted_key: Vec<u8> = answers.bytes(
        EngineRequest::compute(Operation::EncryptOaep(mgf_hash), modulus, label_digest, &aes_key),
        DeviceError::InvalidData,
    )?;
    let wrapped: Vec<u8> = answers.bytes(
        EngineRequest::keyed(Operation::WrapKwp, &aes_key, plaintext),
        DeviceError::InvalidData,
    )?;
    Ok(joined(&encrypted_key, &wrapped))
}

/// Data that was wrapped for an RSA key.
pub open spec fn rsa_unwrapped(
    key: SigningKeyModel,
    wrapped: Seq<u8>,
    modulus_length: int,
    label_digest: Seq<u8>,
    mgf_hash: HashAlgorithm,
    replies: Seq<EngineReply>,
    used: nat,
) -> Run<Seq<u8>> {
    if wrapped.len() <= modulus_length {
        Err(HaltModel::Error(DeviceError::WrongLength, used))
    } else {
        match bytes_from(
            replies,
            used,
            RequestModel::with_key(
                Operation::DecryptOaep(mgf_hash),
                key,
                label_digest,
                wrapped.subrange(0, modulus_length),
            ),
            DeviceError::InvalidData,
        ) {
            Err(halt) => Err(halt),
            Ok((aes_key, used)) => if aes_key.len() != 16 && aes_key.len() != 24 && aes_key.len()
                != 32 {
                Err(HaltModel::Error(DeviceError::InvalidData, used))
            } else {
                bytes_from(
                    replies,
                    used,
                    RequestModel::keyed(
                        Operation::UnwrapKwp,
                        aes_key,
                        wrapped.subrange(modulus_length, wrapped.len() as int),
                    ),
                    DeviceError::InvalidData,
                )
            },
        }
    }
}

/// Unwraps data that was wrapped for an RSA key.
fn rsa_aes_unwrap(
    key: &SigningKey,
    wrapped: &[u8],
    modulus_length: usize,
    label_digest: &[u8],
    mgf_hash: HashAlgorithm,
    answers: &mut Answers,
) -> (plaintext: core::result::Result<Vec<u8>, Halt>)
    requires
        old(answers).valid(),
    ensures
        final(answers).valid(),
        final(answers).replies == old(answers).replies,
        run(plaintext, final(answers).used) == rsa_unwrapped(
            key@,
            wrapped@,
            modulus_length as int,
            label_digest@,
            mgf_hash,
            old(answers).replies@,
            old(answers).used as nat,
        ),
{
    if wrapped.len() <= modulus_length {
        return fail(DeviceError::WrongLength);
    }
    let aes_key: Vec<u8> = answers.bytes(
        EngineRequest::with_key(
            Operation::DecryptOaep(mgf_hash),
            key,
            label_digest,
            &copied_range(wrapped, 0, modulus_length),
        ),
        DeviceError::InvalidData,
    )?;
    if aes_key.len() != 16 && aes_key.len() != 24 && aes_key.len() != 32 {
        return fail(DeviceError::InvalidData);
    }
    answers.bytes(
        EngineRequest::keyed(
            Operation::UnwrapKwp,
            &aes_key,
            &copied_range(wrapped, modulus_length, wrapped.len()),
        ),
        DeviceError::InvalidData,
    )
}

/// What an unwrapped key of a type is: a private key in its PKCS #8 encoding, or
/// an AES key.
pub open spec fn unwrapped_key(
    object_type: ObjectType,
    algorithm: Algorithm,
    plaintext: Seq<u8>,
    replies: Seq<EngineReply>,
    used: nat,
) -> Run<MaterialModel> {
    match object_type {
        ObjectType::AsymmetricKey => match material_of_pkcs8(algorithm, plaintext, replies, used) {
            Err(halt) => Err(halt),
            Ok((material, used)) => match algorithm.key_length() {
                Some(length) if material.size() == length => Ok((material, used)),
                _ => Err(HaltModel::Error(DeviceError::InvalidData, used)),
            },
        },
        ObjectType::SymmetricKey => match symmetric_length(algorithm) {
            None => Err(HaltModel::Error(DeviceError::InvalidData, used)),
            Some(length) => if plaintext.len() != length {
                Err(HaltModel::Error(DeviceError::WrongLength, used))
            } else {
                Ok((MaterialModel::Secret(plaintext), used))
            },
        },
        _ => Err(HaltModel::Error(DeviceError::InvalidData, used)),
    }
}

/// Reads an unwrapped key of a type.
fn import_rsa_wrapped_key_material(
    object_type: ObjectType,
    algorithm: Algorithm,
    plaintext: &[u8],
    answers: &mut Answers,
) -> (material: core::result::Result<ObjectMaterial, Halt>)
    requires
        old(answers).valid(),
    ensures
        final(answers).valid(),
        final(answers).replies == old(answers).replies,
        run(material, final(answers).used) == unwrapped_key(
            object_type,
            algorithm,
            plaintext@,
            old(answers).replies@,
            old(answers).used as nat,
        ),
{
    match object_type {
        ObjectType::AsymmetricKey => {
            let material = asymmetric_material_from_pkcs8(algorithm, plaintext, answers)?;
            match algorithm.asymmetric_key_length() {
                Some(length) => {
                    if material.len() != length {
                        return fail(DeviceError::InvalidData);
                    }
                    Ok(material)
                },
                None => fail(DeviceError::InvalidData),
            }
        },
        ObjectType::SymmetricKey => match symmetric_key_length(algorithm) {
            Some(length) => {
                if plaintext.len() != length {
                    return fail(DeviceError::WrongLength);
                }
                Ok(ObjectMaterial::Secret(copied(plaintext)))
            },
            None => fail(DeviceError::InvalidData),
        },
        _ => fail(DeviceError::InvalidData),
    }
}

/// The answer of an import: the type and the number of the new object.
pub open spec fn import_answer(info: InfoModel) -> Seq<u8> {
    seq![info.object_type.byte()] + u16_be(info.id)
}

impl DeviceModel {
    /// The RSA wrap key with its private part that a session finds.
    pub open spec fn rsa_wrap_key(
        self,
        authorization: SessionAuthorization,
        id: u16,
    ) -> core::result::Result<
        RecordModel,
        DeviceError,
    > {
        match self.usable(authorization, ObjectType::WrapKey, id) {
            Ok(record) => match record.info.known_algorithm() {
                Some(algorithm) if algorithm.is_rsa() => Ok(record),
                _ => Err(DeviceError::InvalidData),
            },
            Err(error) => Err(error),
        }
    }

    /// An object encrypted under an AES wrap key.
    pub open spec fn exports_wrapped(
        self,
        authorization: SessionAuthorization,
        data: Seq<u8>,
        replies: Seq<EngineReply>,
        used: nat,
    ) -> Run<Seq<u8>> {
        match decoded::<ExportWrappedRequest>(data) {
            Err(error) => Err(HaltModel::Error(error, used)),
            Ok(request) => if request.format matches Some(format) && format > 1 {
                Err(HaltModel::Error(DeviceError::WrongLength, used))
            } else {
                match self.ccm_key(authorization, request.wrap_id) {
                    Err(error) => Err(HaltModel::Error(error, used)),
                    Ok(wrap_key) => match self.get(request.target) {
                        Err(error) => Err(HaltModel::Error(error, used)),
                        Ok(target) => match target.wrapped(replies, used) {
                            Err(halt) => Err(halt),
                            Ok((plaintext, used)) => wrap_key.ccm_encrypted(
                                plaintext,
                                replies,
                                used,
                            ),
                        },
                    },
                }
            },
        }
    }

    /// Puts an unwrapped object into the device: under a free number, marked as
    /// imported, where the session may create it and the wrap key delegates its
    /// capabilities.
    pub open spec fn imports(
        self,
        authorization: SessionAuthorization,
        wrap_key: RecordModel,
        object: RecordModel,
        replies: Seq<EngineReply>,
        used: nat,
    ) -> Run<OutcomeModel> {
        let allowed = authorization.may_import(object.info, wrap_key.info);
        if allowed is Err {
            Err(HaltModel::Error(allowed->Err_0, used))
        } else {
            match self.resolved(object.info.object_type, object.info.id, replies, used) {
                Err(halt) => Err(halt),
                Ok((id, used)) => {
                    let record = RecordModel {
                        info: InfoModel { id, origin: object.info.origin | 0x10, ..object.info },
                        ..object
                    };
                    if record.validated() is Err {
                        Err(HaltModel::Error(record.validated()->Err_0, used))
                    } else {
                        Ok(
                            (
                                OutcomeModel {
                                    data: import_answer(record.info),
                                    effect: EffectModel::Write(record),
                                },
                                used,
                            ),
                        )
                    }
                },
            }
        }
    }

    /// Imports an object that was encrypted under an AES wrap key.
    pub open spec fn imports_wrapped(
        self,
        authorization: SessionAuthorization,
        data: Seq<u8>,
        replies: Seq<EngineReply>,
        used: nat,
    ) -> Run<OutcomeModel> {
        match decoded::<ImportWrappedRequest>(data) {
            Err(error) => Err(HaltModel::Error(error, used)),
            Ok(request) => if request.format != 1 || request.ciphertext.len() < AES_CCM_TAG_SIZE {
                Err(HaltModel::Error(DeviceError::WrongLength, used))
            } else {
                match self.ccm_key(authorization, request.wrap_id) {
                    Err(error) => Err(HaltModel::Error(error, used)),
                    Ok(wrap_key) => match wrap_key.ccm_decrypted(
                        request.nonce,
                        request.ciphertext,
                        replies,
                        used,
                    ) {
                        Err(halt) => Err(halt),
                        Ok((plaintext, used)) => match unwrapped(plaintext, replies, used) {
                            Err(halt) => Err(halt),
                            Ok((object, used)) => self.imports(
                                authorization,
                                wrap_key,
                                object,
                                replies,
                                used,
                            ),
                        },
                    },
                }
            },
        }
    }

    /// An object, or its key alone, wrapped for an RSA key.
    pub open spec fn exports_rsa_wrapped(
        self,
        authorization: SessionAuthorization,
        data: Seq<u8>,
        key_material_only: bool,
        replies: Seq<EngineReply>,
        used: nat,
    ) -> Run<Seq<u8>> {
        match decoded::<ExportRsaWrappedFields>(data) {
            Err(error) => Err(HaltModel::Error(error, used)),
            Ok(request) => match self.usable(
                authorization,
                ObjectType::PublicWrapKey,
                request.wrap_id,
            ) {
                Err(error) => Err(HaltModel::Error(error, used)),
                Ok(wrap_key) => match self.get(
                    ObjectKey { object_type: request.target_type, id: request.target_id },
                ) {
                    Err(error) => Err(HaltModel::Error(error, used)),
                    Ok(target) => if request.aes_algorithm == 0 && request.oaep_hash == 0
                        && request.mgf_hash == 0 {
                        if self.firmware != FirmwareProfile::Full || self.options.fips_mode
                            != OPTION_OFF {
                            Err(HaltModel::Error(DeviceError::InvalidData, used))
                        } else if request.label_hash.len() != 0 {
                            Err(HaltModel::Error(DeviceError::WrongLength, used))
                        } else if !key_material_only || request.target_type
                            != ObjectType::SymmetricKey {
                            Err(HaltModel::Error(DeviceError::InvalidData, used))
                        } else {
                            match (target.material, wrap_key.material) {
                                (
                                    MaterialModel::Secret(plaintext),
                                    MaterialModel::Public(modulus),
                                ) => bytes_from(
                                    replies,
                                    used,
                                    RequestModel::keyed(
                                        Operation::EncryptPkcs1,
                                        modulus,
                                        plaintext,
                                    ),
                                    DeviceError::InvalidData,
                                ),
                                _ => Err(HaltModel::Error(DeviceError::InvalidData, used)),
                            }
                        }
                    } else {
                        match oaep_hash_of(request.oaep_hash) {
                            Err(error) => Err(HaltModel::Error(error, used)),
                            Ok(hash) => if request.label_hash.len() != hash.size() {
                                Err(HaltModel::Error(DeviceError::WrongLength, used))
                            } else if key_material_only && request.target_type
                                != ObjectType::AsymmetricKey && request.target_type
                                != ObjectType::SymmetricKey {
                                Err(HaltModel::Error(DeviceError::InvalidData, used))
                            } else {
                                match (
                                    wrap_aes_length(request.aes_algorithm),
                                    mgf_hash_of(request.mgf_hash),
                                ) {
                                    (Ok(aes_length), Ok(mgf_hash)) => match target.exported(
                                        request.target_type,
                                        key_material_only,
                                        replies,
                                        used,
                                    ) {
                                        Err(halt) => Err(halt),
                                        Ok((plaintext, used)) => match wrap_key.material {
                                            MaterialModel::Public(modulus) => rsa_wrapped(
                                                modulus,
                                                aes_length,
                                                plaintext,
                                                request.label_hash,
                                                mgf_hash,
                                                replies,
                                                used,
                                            ),
                                            _ => Err(
                                                HaltModel::Error(DeviceError::InvalidData, used),
                                            ),
                                        },
                                    },
                                    _ => Err(HaltModel::Error(DeviceError::InvalidData, used)),
                                }
                            },
                        }
                    },
                },
            },
        }
    }

    /// Imports an object that was wrapped for an RSA key.
    pub open spec fn imports_rsa_wrapped(
        self,
        authorization: SessionAuthorization,
        data: Seq<u8>,
        replies: Seq<EngineReply>,
        used: nat,
    ) -> Run<OutcomeModel> {
        match decoded::<ImportRsaWrappedRequest>(data) {
            Err(error) => Err(HaltModel::Error(error, used)),
            Ok(request) => match (oaep_hash_of(request.oaep_hash), mgf_hash_of(request.mgf_hash)) {
                (Ok(hash), Ok(mgf_hash)) => match self.rsa_wrap_key(
                    authorization,
                    request.wrap_id,
                ) {
                    Err(error) => Err(HaltModel::Error(error, used)),
                    Ok(wrap_key) => {
                        let input = request.wrapped_and_label;
                        let modulus = wrap_key.modulus_length()->Ok_0 as int;
                        let end = input.len() - hash.size();
                        if end < modulus + 16 {
                            Err(HaltModel::Error(DeviceError::WrongLength, used))
                        } else {
                            match wrap_key.signing() {
                                Err(error) => Err(HaltModel::Error(error, used)),
                                Ok(key) => match rsa_unwrapped(
                                    key,
                                    input.subrange(0, end),
                                    modulus,
                                    input.subrange(end, input.len() as int),
                                    mgf_hash,
                                    replies,
                                    used,
                                ) {
                                    Err(halt) => Err(halt),
                                    Ok((plaintext, used)) => match unwrapped(
                                        plaintext,
                                        replies,
                                        used,
                                    ) {
                                        Err(halt) => Err(halt),
                                        Ok((object, used)) => self.imports(
                                            authorization,
                                            wrap_key,
                                            object,
                                            replies,
                                            used,
                                        ),
                                    },
                                },
                            }
                        }
                    },
                },
                _ => Err(HaltModel::Error(DeviceError::InvalidData, used)),
            },
        }
    }

    /// The key that was wrapped for an RSA key: directly, or under an AES key.
    pub open spec fn rsa_wrapped_key(
        self,
        wrap_key: RecordModel,
        object_type: ObjectType,
        oaep_hash: u8,
        mgf_hash: u8,
        input: Seq<u8>,
        replies: Seq<EngineReply>,
        used: nat,
    ) -> Run<Seq<u8>> {
        let modulus = wrap_key.modulus_length()->Ok_0 as int;
        if oaep_hash == 0 && mgf_hash == 0 {
            if self.firmware != FirmwareProfile::Full || self.options.fips_mode != OPTION_OFF
                || object_type != ObjectType::SymmetricKey {
                Err(HaltModel::Error(DeviceError::InvalidData, used))
            } else if input.len() != modulus {
                Err(HaltModel::Error(DeviceError::WrongLength, used))
            } else {
                match wrap_key.signing() {
                    Err(error) => Err(HaltModel::Error(error, used)),
                    Ok(key) => bytes_from(
                        replies,
                        used,
                        RequestModel::with_key(Operation::DecryptPkcs1, key, Seq::empty(), input),
                        DeviceError::InvalidData,
                    ),
                }
            }
        } else {
            match (oaep_hash_of(oaep_hash), mgf_hash_of(mgf_hash)) {
                (Ok(hash), Ok(mgf_hash)) => {
                    let end = input.len() - hash.size();
                    if end <= modulus {
                        Err(HaltModel::Error(DeviceError::WrongLength, used))
                    } else {
                        match wrap_key.signing() {
                            Err(error) => Err(HaltModel::Error(error, used)),
                            Ok(key) => rsa_unwrapped(
                                key,
                                input.subrange(0, end),
                                modulus,
                                input.subrange(end, input.len() as int),
                                mgf_hash,
                                replies,
                                used,
                            ),
                        }
                    }
                },
                _ => Err(HaltModel::Error(DeviceError::InvalidData, used)),
            }
        }
    }

    /// Puts a key that was wrapped for an RSA key.
    pub open spec fn puts_rsa_wrapped_key(
        self,
        authorization: SessionAuthorization,
        data: Seq<u8>,
        replies: Seq<EngineReply>,
        used: nat,
    ) -> Run<OutcomeModel> {
        match decoded::<PutRsaWrappedKeyRequest>(data) {
            Err(error) => Err(HaltModel::Error(error, used)),
            Ok(request) => if request.object_type != ObjectType::AsymmetricKey
                && request.object_type != ObjectType::SymmetricKey {
                Err(HaltModel::Error(DeviceError::InvalidData, used))
            } else {
                match self.enabled_algorithm(request.algorithm) {
                    Err(error) => Err(HaltModel::Error(error, used)),
                    Ok(algorithm) => match self.rsa_wrap_key(authorization, request.wrap_id) {
                        Err(error) => Err(HaltModel::Error(error, used)),
                        Ok(wrap_key) => match self.rsa_wrapped_key(
                            wrap_key,
                            request.object_type,
                            request.oaep_hash,
                            request.mgf_hash,
                            request.wrapped_and_label,
                            replies,
                            used,
                        ) {
                            Err(halt) => Err(halt),
                            Ok((plaintext, used)) => match unwrapped_key(
                                request.object_type,
                                algorithm,
                                plaintext,
                                replies,
                                used,
                            ) {
                                Err(halt) => Err(halt),
                                Ok((material, used)) => match self.resolved(
                                    request.object_type,
                                    request.requested_id,
                                    replies,
                                    used,
                                ) {
                                    Err(halt) => Err(halt),
                                    Ok((id, used)) => completes_wrapped_key(
                                        authorization,
                                        wrap_key,
                                        RecordModel {
                                            info: InfoModel {
                                                capabilities: request.capabilities,
                                                id,
                                                length: (if request.object_type
                                                    == ObjectType::AsymmetricKey {
                                                    algorithm.object_length()->0
                                                } else {
                                                    symmetric_length(algorithm)->0
                                                }) as u16,
                                                domains: request.domains,
                                                object_type: request.object_type,
                                                algorithm: request.algorithm,
                                                sequence: 0,
                                                origin: 0x12,
                                                label: before_zero(request.label),
                                                delegated_capabilities: CapabilitySet::empty(),
                                            },
                                            material,
                                        },
                                        used,
                                    ),
                                },
                            },
                        },
                    },
                }
            },
        }
    }
}

/// Puts an unwrapped key under its number, where the session may create it.
pub open spec fn completes_wrapped_key(
    authorization: SessionAuthorization,
    wrap_key: RecordModel,
    record: RecordModel,
    used: nat,
) -> Run<OutcomeModel> {
    let allowed = authorization.may_import(record.info, wrap_key.info);
    if allowed is Err {
        Err(HaltModel::Error(allowed->Err_0, used))
    } else if record.validated() is Err {
        Err(HaltModel::Error(record.validated()->Err_0, used))
    } else {
        Ok(
            (
                OutcomeModel {
                    data: import_answer(record.info),
                    effect: EffectModel::Write(record),
                },
                used,
            ),
        )
    }
}

impl RecordModel {
    /// What leaves the device of an object of a type: its key alone, or all of
    /// it in its wrapped form.
    pub open spec fn exported(
        self,
        object_type: ObjectType,
        key_material_only: bool,
        replies: Seq<EngineReply>,
        used: nat,
    ) -> Run<Seq<u8>> {
        if !key_material_only {
            self.wrapped(replies, used)
        } else if object_type == ObjectType::AsymmetricKey {
            self.pkcs8(replies, used)
        } else {
            match self.secret() {
                Ok(secret) => Ok((secret, used)),
                Err(error) => Err(HaltModel::Error(error, used)),
            }
        }
    }
}

impl Device {
    /// Looks up an RSA wrap key with its private part that a session finds.
    pub fn rsa_private_wrap_key(
        &self,
        authorization: SessionAuthorization,
        id: u16,
    ) -> (record: Result<
        &ObjectRecord,
    >)
        ensures
            viewed(record) == self@.rsa_wrap_key(authorization, id),
    {
        let record = self.find_usable(authorization, ObjectType::WrapKey, id)?;
        match Algorithm::from_byte(record.info.algorithm) {
            Some(algorithm) => {
                if !algorithm.is_rsa_key() {
                    return Err(DeviceError::InvalidData);
                }
                Ok(record)
            },
            None => Err(DeviceError::InvalidData),
        }
    }

    /// Encrypts an object under an AES wrap key.
    pub fn export_wrapped(
        &self,
        authorization: SessionAuthorization,
        data: &[u8],
        answers: &mut Answers,
    ) -> (output: core::result::Result<Vec<u8>, Halt>)
        requires
            old(answers).valid(),
        ensures
            final(answers).valid(),
            final(answers).replies == old(answers).replies,
            run(output, final(answers).used) == self@.exports_wrapped(
                authorization,
                data@,
                old(answers).replies@,
                old(answers).used as nat,
            ),
    {
        let request = lift(decode::<ExportWrappedRequest>(data))?;
        if let Some(format) = request.format {
            if format > 1 {
                return fail(DeviceError::WrongLength);
            }
        }
        let wrap_key = lift(self.ccm_wrap_key(authorization, request.wrap_id))?;
        let target = lift(self.find(request.target))?;
        let plaintext: Vec<u8> = encode_wrapped_object(target, answers)?;
        ccm_encrypt(wrap_key, &plaintext, answers)
    }

    /// Puts an unwrapped object into the device.
    fn import_object(
        &self,
        authorization: SessionAuthorization,
        wrap_key: &ObjectRecord,
        object: ObjectRecord,
        answers: &mut Answers,
    ) -> (outcome: core::result::Result<Outcome, Halt>)
        requires
            old(answers).valid(),
        ensures
            final(answers).valid(),
            final(answers).replies == old(answers).replies,
            run(outcome, final(answers).used) == self@.imports(
                authorization,
                wrap_key@,
                object@,
                old(answers).replies@,
                old(answers).used as nat,
            ),
            outcome matches Ok(outcome) ==> effect_is_valid(outcome@.effect),
    {
        let mut record = object;
        lift(authorization.authorize_wrapped_creation(&record.info, wrap_key))?;
        let id: u16 = self.resolve_id(record.info.object_type, record.info.id, answers)?;
        record.info.id = id;
        record.info.origin = record.info.origin | 0x10;
        lift(record.validate())?;
        let answer: Vec<u8> = joined(&single(record.info.object_type.to_byte()), &u16_bytes(id));
        Ok(Outcome { data: answer, effect: Effect::Write(record) })
    }

    /// Imports an object that was encrypted under an AES wrap key.
    pub fn import_wrapped(
        &self,
        authorization: SessionAuthorization,
        data: &[u8],
        answers: &mut Answers,
    ) -> (outcome: core::result::Result<Outcome, Halt>)
        requires
            old(answers).valid(),
        ensures
            final(answers).valid(),
            final(answers).replies == old(answers).replies,
            run(outcome, final(answers).used) == self@.imports_wrapped(
                authorization,
                data@,
                old(answers).replies@,
                old(answers).used as nat,
            ),
            outcome matches Ok(outcome) ==> effect_is_valid(outcome@.effect),
    {
        let request = lift(decode::<ImportWrappedRequest>(data))?;
        if request.format != 1 || request.ciphertext.len() < AES_CCM_TAG_SIZE {
            return fail(DeviceError::WrongLength);
        }
        let wrap_key = lift(self.ccm_wrap_key(authorization, request.wrap_id))?;
        let plaintext: Vec<u8> = ccm_decrypt(wrap_key, request.nonce, request.ciphertext, answers)?;
        let object = decode_wrapped_object(&plaintext, answers)?;
        self.import_object(authorization, wrap_key, object, answers)
    }

    /// Wraps an object, or its key alone, for an RSA key.
    pub fn export_rsa_wrapped(
        &self,
        authorization: SessionAuthorization,
        data: &[u8],
        key_material_only: bool,
        answers: &mut Answers,
    ) -> (output: core::result::Result<Vec<u8>, Halt>)
        requires
            old(answers).valid(),
        ensures
            final(answers).valid(),
            final(answers).replies == old(answers).replies,
            run(output, final(answers).used) == self@.exports_rsa_wrapped(
                authorization,
                data@,
                key_material_only,
                old(answers).replies@,
                old(answers).used as nat,
            ),
    {
        let request = lift(decode::<ExportRsaWrappedFields>(data))?;
        let wrap_key = lift(
            self.find_usable(authorization, ObjectType::PublicWrapKey, request.wrap_id),
        )?;
        let target_key = ObjectKey { object_type: request.target_type, id: request.target_id };
        let target = lift(self.find(target_key))?;
        if request.aes_algorithm == 0 && request.oaep_hash == 0 && request.mgf_hash == 0 {
            if !self.firmware.direct_rsa_wrap() {
                return fail(DeviceError::InvalidData);
            }
            if self.options.fips_mode != OPTION_OFF {
                return fail(DeviceError::InvalidData);
            }
            if request.label_hash.len() != 0 {
                return fail(DeviceError::WrongLength);
            }
            if !key_material_only || !matches!(request.target_type, ObjectType::SymmetricKey) {
                return fail(DeviceError::InvalidData);
            }
            return match (&target.material, &wrap_key.material) {
                (ObjectMaterial::Secret(plaintext), ObjectMaterial::Public(modulus)) => {
                    answers.bytes(
                        EngineRequest::keyed(Operation::EncryptPkcs1, modulus, plaintext),
                        DeviceError::InvalidData,
                    )
                },
                _ => fail(DeviceError::InvalidData),
            };
        }
        let hash = lift(rsa_oaep_hash(request.oaep_hash))?;
        if request.label_hash.len() != hash.output_length() {
            return fail(DeviceError::WrongLength);
        }
        if key_material_only && !matches!(
            request.target_type,
            ObjectType::AsymmetricKey | ObjectType::SymmetricKey
        ) {
            return fail(DeviceError::InvalidData);
        }
        let aes_length: usize = lift(rsa_wrap_aes_length(request.aes_algorithm))?;
        let mgf_hash = lift(rsa_mgf_hash(request.mgf_hash))?;
        let plaintext: Vec<u8> = if !key_material_only {
            encode_wrapped_object(target, answers)?
        } else if matches!(request.target_type, ObjectType::AsymmetricKey) {
            asymmetric_pkcs8(target, answers)?
        } else {
            copied(lift(object_secret(target))?)
        };
        match &wrap_key.material {
            ObjectMaterial::Public(modulus) => rsa_aes_wrap(
                modulus,
                aes_length,
                &plaintext,
                request.label_hash,
                mgf_hash,
                answers,
            ),
            _ => fail(DeviceError::InvalidData),
        }
    }

    /// Imports an object that was wrapped for an RSA key.
    pub fn import_rsa_wrapped(
        &self,
        authorization: SessionAuthorization,
        data: &[u8],
        answers: &mut Answers,
    ) -> (outcome: core::result::Result<Outcome, Halt>)
        requires
            old(answers).valid(),
        ensures
            final(answers).valid(),
            final(answers).replies == old(answers).replies,
            run(outcome, final(answers).used) == self@.imports_rsa_wrapped(
                authorization,
                data@,
                old(answers).replies@,
                old(answers).used as nat,
            ),
            outcome matches Ok(outcome) ==> effect_is_valid(outcome@.effect),
    {
        let request = lift(decode::<ImportRsaWrappedRequest>(data))?;
        let hash = lift(rsa_oaep_hash(request.oaep_hash))?;
        let mgf_hash = lift(rsa_mgf_hash(request.mgf_hash))?;
        let wrap_key = lift(self.rsa_private_wrap_key(authorization, request.wrap_id))?;
        let modulus: usize = lift(rsa_modulus_length(wrap_key))?;
        let input: &[u8] = request.wrapped_and_label;
        let label_length: usize = hash.output_length();
        if input.len() < modulus + 16 + label_length {
            return fail(DeviceError::WrongLength);
        }
        let end: usize = input.len() - label_length;
        let key = lift(signing_key(wrap_key))?;
        let plaintext: Vec<u8> = rsa_aes_unwrap(
            key,
            &copied_range(input, 0, end),
            modulus,
            &copied_range(input, end, input.len()),
            mgf_hash,
            answers,
        )?;
        let object = decode_wrapped_object(&plaintext, answers)?;
        self.import_object(authorization, wrap_key, object, answers)
    }

    /// Unwraps a key that was wrapped for an RSA key.
    fn unwrap_rsa_key(
        &self,
        wrap_key: &ObjectRecord,
        object_type: ObjectType,
        oaep_hash: u8,
        mgf_hash: u8,
        input: &[u8],
        answers: &mut Answers,
    ) -> (plaintext: core::result::Result<Vec<u8>, Halt>)
        requires
            old(answers).valid(),
            wrap_key@.modulus_length() is Ok,
        ensures
            final(answers).valid(),
            final(answers).replies == old(answers).replies,
            run(plaintext, final(answers).used) == self@.rsa_wrapped_key(
                wrap_key@,
                object_type,
                oaep_hash,
                mgf_hash,
                input@,
                old(answers).replies@,
                old(answers).used as nat,
            ),
    {
        let modulus: usize = lift(rsa_modulus_length(wrap_key))?;
        if oaep_hash == 0 && mgf_hash == 0 {
            if !self.firmware.direct_rsa_wrap() {
                return fail(DeviceError::InvalidData);
            }
            if self.options.fips_mode != OPTION_OFF {
                return fail(DeviceError::InvalidData);
            }
            if !matches!(object_type, ObjectType::SymmetricKey) {
                return fail(DeviceError::InvalidData);
            }
            if input.len() != modulus {
                return fail(DeviceError::WrongLength);
            }
            let none: Vec<u8> = Vec::new();
            assert(none@ =~= Seq::<u8>::empty());
            let key = lift(signing_key(wrap_key))?;
            return answers.bytes(
                EngineRequest::with_key(Operation::DecryptPkcs1, key, &none, input),
                DeviceError::InvalidData,
            );
        }
        let hash = lift(rsa_oaep_hash(oaep_hash))?;
        let mgf_hash = lift(rsa_mgf_hash(mgf_hash))?;
        let label_length: usize = hash.output_length();
        if input.len() <= modulus + label_length {
            return fail(DeviceError::WrongLength);
        }
        let end: usize = input.len() - label_length;
        let key = lift(signing_key(wrap_key))?;
        rsa_aes_unwrap(
            key,
            &copied_range(input, 0, end),
            modulus,
            &copied_range(input, end, input.len()),
            mgf_hash,
            answers,
        )
    }

    /// Puts a key that was wrapped for an RSA key.
    pub fn put_rsa_wrapped_key(
        &self,
        authorization: SessionAuthorization,
        data: &[u8],
        answers: &mut Answers,
    ) -> (outcome: core::result::Result<Outcome, Halt>)
        requires
            old(answers).valid(),
        ensures
            final(answers).valid(),
            final(answers).replies == old(answers).replies,
            run(outcome, final(answers).used) == self@.puts_rsa_wrapped_key(
                authorization,
                data@,
                old(answers).replies@,
                old(answers).used as nat,
            ),
            outcome matches Ok(outcome) ==> effect_is_valid(outcome@.effect),
    {
        let request = lift(decode::<PutRsaWrappedKeyRequest>(data))?;
        if !matches!(
            request.object_type,
            ObjectType::AsymmetricKey | ObjectType::SymmetricKey
        ) {
            return fail(DeviceError::InvalidData);
        }
        let algorithm = lift(self.require_enabled_algorithm(request.algorithm))?;
        let wrap_key = lift(self.rsa_private_wrap_key(authorization, request.wrap_id))?;
        let plaintext: Vec<u8> = self.unwrap_rsa_key(
            wrap_key,
            request.object_type,
            request.oaep_hash,
            request.mgf_hash,
            request.wrapped_and_label,
            answers,
        )?;
        let material = import_rsa_wrapped_key_material(
            request.object_type,
            algorithm,
            &plaintext,
            answers,
        )?;
        let id: u16 = self.resolve_id(request.object_type, request.requested_id, answers)?;
        let length: usize = match request.object_type {
            ObjectType::AsymmetricKey => match algorithm.asymmetric_object_length() {
                Some(length) => length,
                None => {
                    return fail(DeviceError::InvalidData);
                },
            },
            _ => material.len(),
        };
        let record = ObjectRecord {
            info: ObjectInfo {
                capabilities: request.capabilities,
                id,
                length: length as u16,
                domains: request.domains,
                object_type: request.object_type,
                algorithm: request.algorithm,
                sequence: 0,
                origin: 0x12,
                label: trim_label(request.label),
                delegated_capabilities: CapabilitySet::none(),
            },
            material,
        };
        lift(authorization.authorize_wrapped_creation(&record.info, wrap_key))?;
        lift(record.validate())?;
        let answer: Vec<u8> = joined(&single(request.object_type.to_byte()), &u16_bytes(id));
        Ok(Outcome { data: answer, effect: Effect::Write(record) })
    }
}

/// An imported object is marked as such, keeps everything else it travelled
/// with, its number included, and has only what the wrap key delegates.
pub proof fn imported_objects_are_marked(
    device: DeviceModel,
    authorization: SessionAuthorization,
    wrap_key: RecordModel,
    object: RecordModel,
    replies: Seq<EngineReply>,
    used: nat,
)
    requires
        device.imports(authorization, wrap_key, object, replies, used) is Ok,
    ensures
        device.imports(
            authorization,
            wrap_key,
            object,
            replies,
            used,
        )->Ok_0.0.effect matches EffectModel::Write(record) && record.material == object.material
            && record.info == (InfoModel {
            origin: object.info.origin | 0x10,
            ..object.info
        }) && wrap_key.info.delegated_capabilities.covers(record.info.capabilities)
            && record.info.origin & 0x10 == 0x10 && record.validated() is Ok,
{
    let origin = object.info.origin;
    assert((origin | 0x10) & 0x10 == 0x10) by (bit_vector);
}

} // verus!
