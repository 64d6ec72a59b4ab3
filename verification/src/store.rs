//! Commands that put objects into a device.
use crate::algorithm::Algorithm;
use crate::authorization::SessionAuthorization;
use crate::bytes::{before_zero, copied, equal, joined, single, trim_label, u16_be, u16_bytes};
use crate::capability::{Capability, CapabilitySet};
use crate::device::{
    effect_is_valid, Device, DeviceModel, Effect, EffectModel, Outcome, OutcomeModel,
};
use crate::engine::{
    bytes_from, fail, key_from, lift, run, sized_from, x25519_from, Answers, EngineReply,
    EngineRequest, Halt, HaltModel, Operation, RequestModel, Run,
};
use crate::error::{DeviceError, Result};
use crate::keys::{key_kind, EcCurve, HashAlgorithm, KeyKind};
use crate::object::{
    AuthenticationKeyMaterial, InfoModel, MaterialModel, ObjectInfo, ObjectKey, ObjectMaterial,
    ObjectRecord, ObjectType, RecordModel,
};
use crate::request::{
    ChangeAuthenticationKeyRequest, DelegatedObjectRequest, ObjectHeader, ObjectHeaderModel,
    ObjectRequest, OtpAeadKeyRequest,
};
use crate::session::{AUTHENTICATION_ALGORITHM_AES128_YUBICO, AUTHENTICATION_ALGORITHM_EC_P256};
use crate::wire::{decode, decoded, Decode};
use vstd::prelude::*;

verus! {

/// The algorithm number of plain opaque data.
pub const OPAQUE_DATA_ALGORITHM: u8 = 30;

/// An object as a request describes it, under the number that the request asks
/// for.
pub open spec fn described(
    header: ObjectHeaderModel,
    object_type: ObjectType,
    length: u16,
    origin: u8,
    delegated_capabilities: CapabilitySet,
    material: MaterialModel,
) -> RecordModel {
    RecordModel {
        info: InfoModel {
            capabilities: header.capabilities,
            id: header.requested_id,
            length,
            domains: header.domains,
            object_type,
            algorithm: header.algorithm,
            sequence: 0,
            origin,
            label: before_zero(header.label),
            delegated_capabilities,
        },
        material,
    }
}

/// Makes an object as a request describes it.
fn describe(
    header: &ObjectHeader,
    object_type: ObjectType,
    length: u16,
    origin: u8,
    delegated_capabilities: CapabilitySet,
    material: ObjectMaterial,
) -> (record: ObjectRecord)
    ensures
        record@ == described(
            header.model(),
            object_type,
            length,
            origin,
            delegated_capabilities,
            material@,
        ),
{
    ObjectRecord {
        info: ObjectInfo {
            capabilities: header.capabilities,
            id: header.requested_id,
            length,
            domains: header.domains,
            object_type,
            algorithm: header.algorithm,
            sequence: 0,
            origin,
            label: trim_label(header.label),
            delegated_capabilities,
        },
        material,
    }
}

/// How an object came about: made by the device, or put into it.
pub open spec fn origin_of(generate: bool) -> u8 {
    if generate {
        1
    } else {
        2
    }
}

/// The lengths of authentication keys.
pub open spec fn authentication_length(algorithm: u8) -> core::result::Result<usize, DeviceError> {
    if algorithm == AUTHENTICATION_ALGORITHM_AES128_YUBICO {
        Ok(32)
    } else if algorithm == AUTHENTICATION_ALGORITHM_EC_P256 {
        Ok(64)
    } else {
        Err(DeviceError::InvalidData)
    }
}

/// Returns the length of an authentication key.
pub fn authentication_key_length(algorithm: u8) -> (length: Result<usize>)
    ensures
        length == authentication_length(algorithm),
{
    match algorithm {
        AUTHENTICATION_ALGORITHM_AES128_YUBICO => Ok(32),
        AUTHENTICATION_ALGORITHM_EC_P256 => Ok(64),
        _ => Err(DeviceError::InvalidData),
    }
}

/// What an authentication key of an algorithm holds: two AES keys, or a point of
/// the curve without its marker.
pub open spec fn authentication_material(
    algorithm: u8,
    key: Seq<u8>,
    replies: Seq<EngineReply>,
    used: nat,
) -> Run<MaterialModel> {
    match authentication_length(algorithm) {
        Err(error) => Err(HaltModel::Error(error, used)),
        Ok(length) => if key.len() != length {
            Err(HaltModel::Error(DeviceError::WrongLength, used))
        } else if algorithm == AUTHENTICATION_ALGORITHM_AES128_YUBICO {
            Ok((MaterialModel::Symmetric(key), used))
        } else {
            match bytes_from(
                replies,
                used,
                RequestModel::keyed(
                    Operation::ValidatePoint(EcCurve::P256),
                    Seq::empty(),
                    seq![0x04u8] + key,
                ),
                DeviceError::InvalidData,
            ) {
                Ok((_, used)) => Ok((MaterialModel::Asymmetric(key), used)),
                Err(halt) => Err(halt),
            }
        },
    }
}

/// Reads what an authentication key of an algorithm holds.
pub fn parse_authentication_key_material(
    algorithm: u8,
    key: &[u8],
    answers: &mut Answers,
) -> (material:
    core::result::Result<ObjectMaterial, Halt>)
    requires
        old(answers).valid(),
    ensures
        final(answers).valid(),
        final(answers).replies == old(answers).replies,
        run(material, final(answers).used) == authentication_material(
            algorithm,
            key@,
            old(answers).replies@,
            old(answers).used as nat,
        ),
{
    let length: usize = lift(authentication_key_length(algorithm))?;
    if key.len() != length {
        return fail(DeviceError::WrongLength);
    }
    if algorithm == AUTHENTICATION_ALGORITHM_AES128_YUBICO {
        return Ok(
            ObjectMaterial::Authentication(AuthenticationKeyMaterial::Symmetric(copied(key))),
        );
    }
    let none: Vec<u8> = Vec::new();
    assert(none@ =~= Seq::<u8>::empty());
    let _accepted: Vec<u8> = answers.bytes(
        EngineRequest::keyed(
            Operation::ValidatePoint(EcCurve::P256),
            &none,
            &joined(&single(0x04), key),
        ),
        DeviceError::InvalidData,
    )?;
    Ok(ObjectMaterial::Authentication(AuthenticationKeyMaterial::Asymmetric(copied(key))))
}

/// The material of an asymmetric key: a new key of the algorithm, or the one
/// that the supplied bytes are.
pub open spec fn asymmetric_material(
    algorithm: Algorithm,
    generate: bool,
    supplied: Seq<u8>,
    replies: Seq<EngineReply>,
    used: nat,
) -> Run<MaterialModel> {
    match algorithm.key_length() {
        None => Err(HaltModel::Error(DeviceError::InvalidData, used)),
        Some(length) => if (generate && supplied.len() != 0) || (!generate && supplied.len()
            != length) {
            Err(HaltModel::Error(DeviceError::WrongLength, used))
        } else if algorithm == Algorithm::X25519 {
            match x25519_from(
                replies,
                used,
                if generate {
                    RequestModel::keyed(Operation::GenerateX25519, Seq::empty(), Seq::empty())
                } else {
                    RequestModel::keyed(Operation::ImportX25519, Seq::empty(), supplied)
                },
                if generate {
                    DeviceError::StorageFailed
                } else {
                    DeviceError::InvalidData
                },
            ) {
                Ok((key, used)) => Ok((MaterialModel::X25519Key(key), used)),
                Err(halt) => Err(halt),
            }
        } else {
            match KeyKind::named(algorithm) {
                None => Err(HaltModel::Error(DeviceError::InvalidData, used)),
                Some(kind) => match key_from(
                    replies,
                    used,
                    if generate {
                        RequestModel::keyed(
                            Operation::GenerateKey(kind),
                            Seq::empty(),
                            Seq::empty(),
                        )
                    } else {
                        RequestModel::keyed(Operation::ImportKey(kind), Seq::empty(), supplied)
                    },
                    kind,
                    if generate {
                        DeviceError::StorageFailed
                    } else {
                        DeviceError::InvalidData
                    },
                ) {
                    Err(halt) => Err(halt),
                    Ok((key, used)) => if !(kind is Rsa) && key.private.len() != length {
                        Err(HaltModel::Error(DeviceError::InvalidData, used))
                    } else {
                        Ok((MaterialModel::SigningKey(key), used))
                    },
                },
            }
        },
    }
}

/// Makes the material of an asymmetric key.
pub fn asymmetric_key_material(
    algorithm: Algorithm,
    generate: bool,
    supplied: &[u8],
    answers: &mut Answers,
) -> (material: core::result::Result<ObjectMaterial, Halt>)
    requires
        old(answers).valid(),
    ensures
        final(answers).valid(),
        final(answers).replies == old(answers).replies,
        run(material, final(answers).used) == asymmetric_material(
            algorithm,
            generate,
            supplied@,
            old(answers).replies@,
            old(answers).used as nat,
        ),
{
    let length: usize = match algorithm.asymmetric_key_length() {
        Some(length) => length,
        None => {
            return fail(DeviceError::InvalidData);
        },
    };
    if (generate && supplied.len() != 0) || (!generate && supplied.len() != length) {
        return fail(DeviceError::WrongLength);
    }
    let none: Vec<u8> = Vec::new();
    assert(none@ =~= Seq::<u8>::empty());
    let refusal = if generate {
        DeviceError::StorageFailed
    } else {
        DeviceError::InvalidData
    };
    if matches!(algorithm, Algorithm::X25519) {
        let request = if generate {
            EngineRequest::keyed(Operation::GenerateX25519, &none, &none)
        } else {
            EngineRequest::keyed(Operation::ImportX25519, &none, supplied)
        };
        let key = answers.x25519(request, refusal)?;
        return Ok(ObjectMaterial::X25519Key(key));
    }
    let kind = lift(key_kind(algorithm))?;
    let request = if generate {
        EngineRequest::keyed(Operation::GenerateKey(kind), &none, &none)
    } else {
        EngineRequest::keyed(Operation::ImportKey(kind), &none, supplied)
    };
    let key = answers.key(request, kind, refusal)?;
    if !kind.is_rsa() && key.private.len() != length {
        return fail(DeviceError::InvalidData);
    }
    Ok(ObjectMaterial::SigningKey(key))
}

/// The hash function of an HMAC algorithm.
pub open spec fn hmac_hash_of(algorithm: u8) -> Option<HashAlgorithm> {
    match algorithm {
        19 => Some(HashAlgorithm::Sha1),
        20 => Some(HashAlgorithm::Sha256),
        21 => Some(HashAlgorithm::Sha384),
        22 => Some(HashAlgorithm::Sha512),
        _ => None,
    }
}

/// Returns the hash function of an HMAC algorithm.
pub fn hmac_hash(algorithm: u8) -> (hash: Result<HashAlgorithm>)
    ensures
        hash == (match hmac_hash_of(algorithm) {
            Some(hash) => Ok(hash),
            None => Err(DeviceError::InvalidData),
        }),
{
    match algorithm {
        19 => Ok(HashAlgorithm::Sha1),
        20 => Ok(HashAlgorithm::Sha256),
        21 => Ok(HashAlgorithm::Sha384),
        22 => Ok(HashAlgorithm::Sha512),
        _ => Err(DeviceError::InvalidData),
    }
}

/// So many random bytes.
pub open spec fn random_from(replies: Seq<EngineReply>, used: nat, length: usize) -> Run<Seq<u8>> {
    sized_from(
        replies,
        used,
        RequestModel::Random(length),
        length as int,
        DeviceError::StorageFailed,
    )
}

/// Draws so many random bytes.
pub fn draw_random(length: usize, answers: &mut Answers) -> (bytes: core::result::Result<
    Vec<u8>,
    Halt,
>)
    requires
        old(answers).valid(),
    ensures
        final(answers).valid(),
        final(answers).replies == old(answers).replies,
        run(bytes, final(answers).used) == random_from(
            old(answers).replies@,
            old(answers).used as nat,
            length,
        ),
{
    answers.sized(EngineRequest::Random(length), length, DeviceError::StorageFailed)
}

/// A secret of a fixed length: random bytes, or the supplied ones.
pub open spec fn secret_from(
    generate: bool,
    supplied: Seq<u8>,
    length: usize,
    replies: Seq<EngineReply>,
    used: nat,
) -> Run<Seq<u8>> {
    if generate {
        random_from(replies, used, length)
    } else if supplied.len() != length {
        Err(HaltModel::Error(DeviceError::WrongLength, used))
    } else {
        Ok((supplied, used))
    }
}

/// Makes a secret of a fixed length.
fn make_secret(generate: bool, supplied: &[u8], length: usize, answers: &mut Answers) -> (secret:
    core::result::Result<Vec<u8>, Halt>)
    requires
        old(answers).valid(),
    ensures
        final(answers).valid(),
        final(answers).replies == old(answers).replies,
        run(secret, final(answers).used) == secret_from(
            generate,
            supplied@,
            length,
            old(answers).replies@,
            old(answers).used as nat,
        ),
{
    if generate {
        return draw_random(length, answers);
    }
    if supplied.len() != length {
        return fail(DeviceError::WrongLength);
    }
    Ok(copied(supplied))
}

/// The AES key length of an algorithm that symmetric keys have.
pub open spec fn symmetric_length(algorithm: Algorithm) -> Option<usize> {
    match algorithm {
        Algorithm::Aes128 => Some(16),
        Algorithm::Aes192 => Some(24),
        Algorithm::Aes256 => Some(32),
        _ => None,
    }
}

/// Returns the AES key length of an algorithm that symmetric keys have.
pub fn symmetric_key_length(algorithm: Algorithm) -> (length: Option<usize>)
    ensures
        length == symmetric_length(algorithm),
{
    match algorithm {
        Algorithm::Aes128 => Some(16),
        Algorithm::Aes192 => Some(24),
        Algorithm::Aes256 => Some(32),
        _ => None,
    }
}

/// The AES key length of an algorithm that wrap keys have.
pub open spec fn ccm_length(algorithm: Algorithm) -> Option<usize> {
    match algorithm {
        Algorithm::Aes128CcmWrap => Some(16),
        Algorithm::Aes192CcmWrap => Some(24),
        Algorithm::Aes256CcmWrap => Some(32),
        _ => None,
    }
}

/// Returns the AES key length of an algorithm that wrap keys have.
pub fn ccm_key_length(algorithm: Algorithm) -> (length: Option<usize>)
    ensures
        length == ccm_length(algorithm),
{
    match algorithm {
        Algorithm::Aes128CcmWrap => Some(16),
        Algorithm::Aes192CcmWrap => Some(24),
        Algorithm::Aes256CcmWrap => Some(32),
        _ => None,
    }
}

/// The AES key length of an algorithm that OTP keys have.
pub open spec fn otp_length(algorithm: Algorithm) -> Option<usize> {
    match algorithm {
        Algorithm::Aes128YubicoOtp => Some(16),
        Algorithm::Aes192YubicoOtp => Some(24),
        Algorithm::Aes256YubicoOtp => Some(32),
        _ => None,
    }
}

/// Returns the AES key length of an algorithm that OTP keys have.
pub fn otp_key_length(algorithm: Algorithm) -> (length: Option<usize>)
    ensures
        length == otp_length(algorithm),
{
    match algorithm {
        Algorithm::Aes128YubicoOtp => Some(16),
        Algorithm::Aes192YubicoOtp => Some(24),
        Algorithm::Aes256YubicoOtp => Some(32),
        _ => None,
    }
}

impl DeviceModel {
    /// The algorithm of a number, where it is enabled.
    pub open spec fn enabled_algorithm(self, number: u8) -> core::result::Result<
        Algorithm,
        DeviceError,
    > {
        match Algorithm::of_byte(number) {
            Some(algorithm) => if self.enabled(number) {
                Ok(algorithm)
            } else {
                Err(DeviceError::InvalidData)
            },
            None => Err(DeviceError::InvalidData),
        }
    }

    /// Puts a described object into the device under a free number, where the
    /// session may create it and it is consistent. The answer is its number.
    pub open spec fn created(
        self,
        authorization: SessionAuthorization,
        description: RecordModel,
        capability: Capability,
        replies: Seq<EngineReply>,
        used: nat,
    ) -> Run<OutcomeModel> {
        match self.resolved(
            description.info.object_type,
            description.info.id,
            replies,
            used,
        ) {
            Err(halt) => Err(halt),
            Ok((id, used)) => {
                let record = RecordModel {
                    info: InfoModel { id, ..description.info },
                    ..description
                };
                if authorization.may_create(record.info, capability) is Err {
                    Err(
                        HaltModel::Error(
                            authorization.may_create(record.info, capability)->Err_0,
                            used,
                        ),
                    )
                } else if record.validated() is Err {
                    Err(HaltModel::Error(record.validated()->Err_0, used))
                } else {
                    Ok(
                        (
                            OutcomeModel { data: u16_be(id), effect: EffectModel::Write(record) },
                            used,
                        ),
                    )
                }
            },
        }
    }

    /// Puts an opaque object, or new contents into the one of the number that
    /// is the same in everything else.
    pub open spec fn puts_opaque(
        self,
        authorization: SessionAuthorization,
        data: Seq<u8>,
        replies: Seq<EngineReply>,
        used: nat,
    ) -> Run<OutcomeModel> {
        match decoded::<ObjectRequest>(data) {
            Err(error) => Err(HaltModel::Error(error, used)),
            Ok(request) => {
                let header = request.header;
                let key = ObjectKey { object_type: ObjectType::Opaque, id: header.requested_id };
                let length = request.material.len();
                if !self.enabled(header.algorithm) || (header.algorithm != OPAQUE_DATA_ALGORITHM
                    && length == 0) {
                    Err(HaltModel::Error(DeviceError::InvalidData, used))
                } else if header.requested_id != 0 && self.objects.contains_key(key.number()) {
                    let existing = self.objects[key.number()];
                    if existing.info.capabilities != header.capabilities || existing.info.domains
                        != header.domains || existing.info.algorithm != header.algorithm
                        || existing.info.label != before_zero(header.label) {
                        Err(HaltModel::Error(DeviceError::InvalidData, used))
                    } else if length > 0xffff {
                        Err(HaltModel::Error(DeviceError::WrongLength, used))
                    } else {
                        let updated = RecordModel {
                            info: InfoModel { length: length as u16, ..existing.info },
                            material: MaterialModel::Opaque(request.material),
                        };
                        if updated.validated() is Err {
                            Err(HaltModel::Error(updated.validated()->Err_0, used))
                        } else {
                            Ok(
                                (
                                    OutcomeModel {
                                        data: u16_be(header.requested_id),
                                        effect: EffectModel::Write(updated),
                                    },
                                    used,
                                ),
                            )
                        }
                    }
                } else {
                    match self.resolved(ObjectType::Opaque, header.requested_id, replies, used) {
                        Err(halt) => Err(halt),
                        Ok((_, after)) => if length > 0xffff {
                            Err(HaltModel::Error(DeviceError::WrongLength, after))
                        } else {
                            self.created(
                                authorization,
                                described(
                                    header,
                                    ObjectType::Opaque,
                                    length as u16,
                                    2,
                                    CapabilitySet::empty(),
                                    MaterialModel::Opaque(request.material),
                                ),
                                Capability::PutOpaque,
                                replies,
                                used,
                            )
                        },
                    }
                }
            },
        }
    }

    /// Puts an authentication key.
    pub open spec fn puts_authentication_key(
        self,
        authorization: SessionAuthorization,
        data: Seq<u8>,
        replies: Seq<EngineReply>,
        used: nat,
    ) -> Run<OutcomeModel> {
        match decoded::<DelegatedObjectRequest>(data) {
            Err(error) => Err(HaltModel::Error(error, used)),
            Ok(request) => {
                let header = request.header;
                if !self.enabled(header.algorithm) {
                    Err(HaltModel::Error(DeviceError::InvalidData, used))
                } else {
                    match authentication_length(header.algorithm) {
                        Err(error) => Err(HaltModel::Error(error, used)),
                        Ok(length) => if request.material.len() != length {
                            Err(HaltModel::Error(DeviceError::WrongLength, used))
                        } else {
                            match self.resolved(
                                ObjectType::AuthenticationKey,
                                header.requested_id,
                                replies,
                                used,
                            ) {
                                Err(halt) => Err(halt),
                                Ok((id, used)) => self.completes_authentication_key(
                                    authorization,
                                    RecordModel {
                                        info: InfoModel {
                                            id,
                                            ..described(
                                                header,
                                                ObjectType::AuthenticationKey,
                                                (length + 8) as u16,
                                                2,
                                                request.delegated_capabilities,
                                                MaterialModel::Symmetric(request.material),
                                            ).info
                                        },
                                        material: MaterialModel::Symmetric(request.material),
                                    },
                                    request.material,
                                    replies,
                                    used,
                                ),
                            }
                        },
                    }
                }
            },
        }
    }

    /// Puts an authentication key under its number, where the session may create
    /// it and its material is right.
    pub open spec fn completes_authentication_key(
        self,
        authorization: SessionAuthorization,
        description: RecordModel,
        key: Seq<u8>,
        replies: Seq<EngineReply>,
        used: nat,
    ) -> Run<OutcomeModel> {
        let allowed = authorization.may_create(description.info, Capability::PutAuthenticationKey);
        if allowed is Err {
            Err(HaltModel::Error(allowed->Err_0, used))
        } else {
            match authentication_material(description.info.algorithm, key, replies, used) {
                Err(halt) => Err(halt),
                Ok((material, used)) => {
                    let record = RecordModel { material, ..description };
                    if record.validated() is Err {
                        Err(HaltModel::Error(record.validated()->Err_0, used))
                    } else {
                        Ok(
                            (
                                OutcomeModel {
                                    data: u16_be(record.info.id),
                                    effect: EffectModel::Write(record),
                                },
                                used,
                            ),
                        )
                    }
                },
            }
        }
    }

    /// Puts or generates an asymmetric key.
    pub open spec fn puts_asymmetric_key(
        self,
        authorization: SessionAuthorization,
        data: Seq<u8>,
        generate: bool,
        replies: Seq<EngineReply>,
        used: nat,
    ) -> Run<OutcomeModel> {
        match decoded::<ObjectRequest>(data) {
            Err(error) => Err(HaltModel::Error(error, used)),
            Ok(request) => if generate && request.material.len() != 0 {
                Err(HaltModel::Error(DeviceError::WrongLength, used))
            } else {
                match self.enabled_algorithm(request.header.algorithm) {
                    Err(error) => Err(HaltModel::Error(error, used)),
                    Ok(algorithm) => match asymmetric_material(
                        algorithm,
                        generate,
                        request.material,
                        replies,
                        used,
                    ) {
                        Err(halt) => Err(halt),
                        Ok((material, used)) => self.created(
                            authorization,
                            described(
                                request.header,
                                ObjectType::AsymmetricKey,
                                algorithm.object_length()->0 as u16,
                                origin_of(generate),
                                CapabilitySet::empty(),
                                material,
                            ),
                            if generate {
                                Capability::GenerateAsymmetricKey
                            } else {
                                Capability::PutAsymmetricKey
                            },
                            replies,
                            used,
                        ),
                    },
                }
            },
        }
    }

    /// Puts or generates an HMAC key.
    pub open spec fn puts_hmac_key(
        self,
        authorization: SessionAuthorization,
        data: Seq<u8>,
        generate: bool,
        replies: Seq<EngineReply>,
        used: nat,
    ) -> Run<OutcomeModel> {
        match decoded::<ObjectRequest>(data) {
            Err(error) => Err(HaltModel::Error(error, used)),
            Ok(request) => if generate && request.material.len() != 0 {
                Err(HaltModel::Error(DeviceError::WrongLength, used))
            } else if !self.enabled(request.header.algorithm) {
                Err(HaltModel::Error(DeviceError::InvalidData, used))
            } else {
                match hmac_hash_of(request.header.algorithm) {
                    None => Err(HaltModel::Error(DeviceError::InvalidData, used)),
                    Some(hash) => if !generate && (request.material.len() == 0
                        || request.material.len() > 128) {
                        Err(HaltModel::Error(DeviceError::WrongLength, used))
                    } else {
                        match if generate {
                            random_from(replies, used, hash.size())
                        } else {
                            Ok((request.material, used))
                        } {
                            Err(halt) => Err(halt),
                            Ok((secret, used)) => self.created(
                                authorization,
                                described(
                                    request.header,
                                    ObjectType::HmacKey,
                                    Algorithm::of_byte(
                                        request.header.algorithm,
                                    )->0.hmac_size()->0 as u16,
                                    origin_of(generate),
                                    CapabilitySet::empty(),
                                    MaterialModel::Secret(secret),
                                ),
                                if generate {
                                    Capability::GenerateHmacKey
                                } else {
                                    Capability::PutMacKey
                                },
                                replies,
                                used,
                            ),
                        }
                    },
                }
            },
        }
    }

    /// Puts or generates an AES key.
    pub open spec fn puts_symmetric_key(
        self,
        authorization: SessionAuthorization,
        data: Seq<u8>,
        generate: bool,
        replies: Seq<EngineReply>,
        used: nat,
    ) -> Run<OutcomeModel> {
        match decoded::<ObjectRequest>(data) {
            Err(error) => Err(HaltModel::Error(error, used)),
            Ok(request) => if generate && request.material.len() != 0 {
                Err(HaltModel::Error(DeviceError::WrongLength, used))
            } else {
                match self.enabled_algorithm(request.header.algorithm) {
                    Err(error) => Err(HaltModel::Error(error, used)),
                    Ok(algorithm) => match symmetric_length(algorithm) {
                        None => Err(HaltModel::Error(DeviceError::InvalidData, used)),
                        Some(length) => match secret_from(
                            generate,
                            request.material,
                            length,
                            replies,
                            used,
                        ) {
                            Err(halt) => Err(halt),
                            Ok((secret, used)) => self.created(
                                authorization,
                                described(
                                    request.header,
                                    ObjectType::SymmetricKey,
                                    length as u16,
                                    origin_of(generate),
                                    CapabilitySet::empty(),
                                    MaterialModel::Secret(secret),
                                ),
                                if generate {
                                    Capability::GenerateSymmetricKey
                                } else {
                                    Capability::PutSymmetricKey
                                },
                                replies,
                                used,
                            ),
                        },
                    },
                }
            },
        }
    }

    /// Puts or generates a wrap key: an AES key, or an RSA key.
    pub open spec fn puts_wrap_key(
        self,
        authorization: SessionAuthorization,
        data: Seq<u8>,
        generate: bool,
        replies: Seq<EngineReply>,
        used: nat,
    ) -> Run<OutcomeModel> {
        let capability = if generate {
            Capability::GenerateWrapKey
        } else {
            Capability::PutWrapKey
        };
        match decoded::<DelegatedObjectRequest>(data) {
            Err(error) => Err(HaltModel::Error(error, used)),
            Ok(request) => if generate && request.material.len() != 0 {
                Err(HaltModel::Error(DeviceError::WrongLength, used))
            } else {
                match self.enabled_algorithm(request.header.algorithm) {
                    Err(error) => Err(HaltModel::Error(error, used)),
                    Ok(algorithm) => if algorithm.is_rsa() {
                        match asymmetric_material(
                            algorithm,
                            generate,
                            request.material,
                            replies,
                            used,
                        ) {
                            Err(halt) => Err(halt),
                            Ok((material, used)) => self.created(
                                authorization,
                                described(
                                    request.header,
                                    ObjectType::WrapKey,
                                    (algorithm.object_length()->0 + 8) as u16,
                                    origin_of(generate),
                                    request.delegated_capabilities,
                                    material,
                                ),
                                capability,
                                replies,
                                used,
                            ),
                        }
                    } else {
                        match ccm_length(algorithm) {
                            None => Err(HaltModel::Error(DeviceError::InvalidData, used)),
                            Some(length) => match secret_from(
                                generate,
                                request.material,
                                length,
                                replies,
                                used,
                            ) {
                                Err(halt) => Err(halt),
                                Ok((secret, used)) => self.created(
                                    authorization,
                                    described(
                                        request.header,
                                        ObjectType::WrapKey,
                                        (length + 8) as u16,
                                        origin_of(generate),
                                        request.delegated_capabilities,
                                        MaterialModel::Secret(secret),
                                    ),
                                    capability,
                                    replies,
                                    used,
                                ),
                            },
                        }
                    },
                }
            },
        }
    }

    /// Puts the public part of an RSA wrap key: its modulus.
    pub open spec fn puts_public_wrap_key(
        self,
        authorization: SessionAuthorization,
        data: Seq<u8>,
        replies: Seq<EngineReply>,
        used: nat,
    ) -> Run<OutcomeModel> {
        match decoded::<DelegatedObjectRequest>(data) {
            Err(error) => Err(HaltModel::Error(error, used)),
            Ok(request) => match self.enabled_algorithm(request.header.algorithm) {
                Err(error) => Err(HaltModel::Error(error, used)),
                Ok(algorithm) => if !algorithm.is_rsa() {
                    Err(HaltModel::Error(DeviceError::InvalidData, used))
                } else if request.material.len() != algorithm.key_length()->0 {
                    Err(HaltModel::Error(DeviceError::WrongLength, used))
                } else {
                    self.created(
                        authorization,
                        described(
                            request.header,
                            ObjectType::PublicWrapKey,
                            (algorithm.key_length()->0 + 8) as u16,
                            2,
                            request.delegated_capabilities,
                            MaterialModel::Public(request.material),
                        ),
                        Capability::PutPublicWrapKey,
                        replies,
                        used,
                    )
                },
            },
        }
    }

    /// Puts or generates an OTP key.
    pub open spec fn puts_otp_aead_key(
        self,
        authorization: SessionAuthorization,
        data: Seq<u8>,
        generate: bool,
        replies: Seq<EngineReply>,
        used: nat,
    ) -> Run<OutcomeModel> {
        match decoded::<OtpAeadKeyRequest>(data) {
            Err(error) => Err(HaltModel::Error(error, used)),
            Ok(request) => if generate && request.material.len() != 0 {
                Err(HaltModel::Error(DeviceError::WrongLength, used))
            } else {
                match self.enabled_algorithm(request.header.algorithm) {
                    Err(error) => Err(HaltModel::Error(error, used)),
                    Ok(algorithm) => match otp_length(algorithm) {
                        None => Err(HaltModel::Error(DeviceError::InvalidData, used)),
                        Some(length) => match secret_from(
                            generate,
                            request.material,
                            length,
                            replies,
                            used,
                        ) {
                            Err(halt) => Err(halt),
                            Ok((key, used)) => self.created(
                                authorization,
                                described(
                                    request.header,
                                    ObjectType::OtpAeadKey,
                                    (length + 4) as u16,
                                    origin_of(generate),
                                    CapabilitySet::empty(),
                                    MaterialModel::OtpAeadKey { nonce_id: request.nonce_id, key },
                                ),
                                if generate {
                                    Capability::GenerateOtpAeadKey
                                } else {
                                    Capability::PutOtpAeadKey
                                },
                                replies,
                                used,
                            ),
                        },
                    },
                }
            },
        }
    }

    /// Puts a template.
    pub open spec fn puts_template(
        self,
        authorization: SessionAuthorization,
        data: Seq<u8>,
        replies: Seq<EngineReply>,
        used: nat,
    ) -> Run<OutcomeModel> {
        match decoded::<ObjectRequest>(data) {
            Err(error) => Err(HaltModel::Error(error, used)),
            Ok(request) => if request.material.len() == 0 {
                Err(HaltModel::Error(DeviceError::WrongLength, used))
            } else if request.header.algorithm != Algorithm::TemplateSsh.byte() || !self.enabled(
                request.header.algorithm,
            ) {
                Err(HaltModel::Error(DeviceError::InvalidData, used))
            } else {
                match self.resolved(
                    ObjectType::Template,
                    request.header.requested_id,
                    replies,
                    used,
                ) {
                    Err(halt) => Err(halt),
                    Ok((_, after)) => if request.material.len() > 0xffff {
                        Err(HaltModel::Error(DeviceError::WrongLength, after))
                    } else {
                        self.created(
                            authorization,
                            described(
                                request.header,
                                ObjectType::Template,
                                request.material.len() as u16,
                                2,
                                CapabilitySet::empty(),
                                MaterialModel::Opaque(request.material),
                            ),
                            Capability::PutTemplate,
                            replies,
                            used,
                        )
                    },
                }
            },
        }
    }

    /// Puts new material into an authentication key.
    pub open spec fn changes_authentication_key(
        self,
        data: Seq<u8>,
        replies: Seq<EngineReply>,
        used: nat,
    ) -> Run<OutcomeModel> {
        match decoded::<ChangeAuthenticationKeyRequest>(data) {
            Err(error) => Err(HaltModel::Error(error, used)),
            Ok(request) => if !self.enabled(request.algorithm) {
                Err(HaltModel::Error(DeviceError::InvalidData, used))
            } else {
                match authentication_material(request.algorithm, request.material, replies, used) {
                    Err(halt) => Err(halt),
                    Ok((material, used)) => match self.get(
                        ObjectKey { object_type: ObjectType::AuthenticationKey, id: request.id },
                    ) {
                        Err(error) => Err(HaltModel::Error(error, used)),
                        Ok(record) => {
                            let updated = RecordModel {
                                info: InfoModel {
                                    algorithm: request.algorithm,
                                    length: (request.material.len() + 8) as u16,
                                    ..record.info
                                },
                                material,
                            };
                            if updated.validated() is Err {
                                Err(HaltModel::Error(updated.validated()->Err_0, used))
                            } else {
                                Ok(
                                    (
                                        OutcomeModel {
                                            data: u16_be(request.id),
                                            effect: EffectModel::Write(updated),
                                        },
                                        used,
                                    ),
                                )
                            }
                        },
                    },
                }
            },
        }
    }
}

impl Device {
    /// Returns the algorithm of a number, where it is enabled.
    pub fn require_enabled_algorithm(&self, number: u8) -> (algorithm: Result<Algorithm>)
        ensures
            algorithm == self@.enabled_algorithm(number),
    {
        match Algorithm::from_byte(number) {
            Some(algorithm) => {
                self.require_algorithm_enabled(number)?;
                Ok(algorithm)
            },
            None => Err(DeviceError::InvalidData),
        }
    }

    /// Puts a described object into the device.
    pub fn create_object(
        &self,
        authorization: SessionAuthorization,
        description: ObjectRecord,
        capability: Capability,
        answers: &mut Answers,
    ) -> (outcome: core::result::Result<Outcome, Halt>)
        requires
            old(answers).valid(),
        ensures
            final(answers).valid(),
            final(answers).replies == old(answers).replies,
            run(outcome, final(answers).used) == self@.created(
                authorization,
                description@,
                capability,
                old(answers).replies@,
                old(answers).used as nat,
            ),
            outcome matches Ok(outcome) ==> effect_is_valid(outcome@.effect),
    {
        let mut record = description;
        let id: u16 = self.resolve_id(record.info.object_type, record.info.id, answers)?;
        record.info.id = id;
        lift(authorization.authorize_create(&record.info, capability))?;
        lift(record.validate())?;
        Ok(Outcome { data: u16_bytes(id), effect: Effect::Write(record) })
    }

    /// Puts an opaque object.
    pub fn put_opaque(
        &self,
        authorization: SessionAuthorization,
        data: &[u8],
        answers: &mut Answers,
    ) -> (outcome: core::result::Result<Outcome, Halt>)
        requires
            old(answers).valid(),
        ensures
            final(answers).valid(),
            final(answers).replies == old(answers).replies,
            run(outcome, final(answers).used) == self@.puts_opaque(
                authorization,
                data@,
                old(answers).replies@,
                old(answers).used as nat,
            ),
            outcome matches Ok(outcome) ==> effect_is_valid(outcome@.effect),
    {
        let request = lift(decode::<ObjectRequest>(data))?;
        let header = request.header;
        lift(self.require_algorithm_enabled(header.algorithm))?;
        let length: usize = request.material.len();
        if header.algorithm != OPAQUE_DATA_ALGORITHM && length == 0 {
            return fail(DeviceError::InvalidData);
        }
        let key = ObjectKey { object_type: ObjectType::Opaque, id: header.requested_id };
        if header.requested_id != 0 {
            if let Some(existing) = self.object(key) {
                if existing.info.capabilities != header.capabilities || existing.info.domains
                    != header.domains || existing.info.algorithm != header.algorithm || !equal(
                    &existing.info.label,
                    &trim_label(header.label),
                ) {
                    return fail(DeviceError::InvalidData);
                }
                if length > 0xffff {
                    return fail(DeviceError::WrongLength);
                }
                let mut updated = existing.copied();
                updated.info.length = length as u16;
                updated.material = ObjectMaterial::Opaque(copied(request.material));
                lift(updated.validate())?;
                return Ok(
                    Outcome {
                        data: u16_bytes(header.requested_id),
                        effect: Effect::Write(updated),
                    },
                );
            }
        }
        if length > 0xffff {
            let _id: u16 = self.resolve_id(ObjectType::Opaque, header.requested_id, answers)?;
            return fail(DeviceError::WrongLength);
        }
        self.create_object(
            authorization,
            describe(
                &header,
                ObjectType::Opaque,
                length as u16,
                2,
                CapabilitySet::none(),
                ObjectMaterial::Opaque(copied(request.material)),
            ),
            Capability::PutOpaque,
            answers,
        )
    }

    /// Puts an authentication key.
    pub fn put_authentication_key(
        &self,
        authorization: SessionAuthorization,
        data: &[u8],
        answers: &mut Answers,
    ) -> (outcome: core::result::Result<Outcome, Halt>)
        requires
            old(answers).valid(),
        ensures
            final(answers).valid(),
            final(answers).replies == old(answers).replies,
            run(outcome, final(answers).used) == self@.puts_authentication_key(
                authorization,
                data@,
                old(answers).replies@,
                old(answers).used as nat,
            ),
            outcome matches Ok(outcome) ==> effect_is_valid(outcome@.effect),
    {
        let request = lift(decode::<DelegatedObjectRequest>(data))?;
        let header = request.header;
        lift(self.require_algorithm_enabled(header.algorithm))?;
        let length: usize = lift(authentication_key_length(header.algorithm))?;
        if request.material.len() != length {
            return fail(DeviceError::WrongLength);
        }
        let id: u16 = self.resolve_id(ObjectType::AuthenticationKey, header.requested_id, answers)?;
        let mut record = describe(
            &header,
            ObjectType::AuthenticationKey,
            (length + 8) as u16,
            2,
            request.delegated_capabilities,
            ObjectMaterial::Authentication(
                AuthenticationKeyMaterial::Symmetric(copied(request.material)),
            ),
        );
        record.info.id = id;
        lift(authorization.authorize_create(&record.info, Capability::PutAuthenticationKey))?;
        record.material = parse_authentication_key_material(
            header.algorithm,
            request.material,
            answers,
        )?;
        lift(record.validate())?;
        Ok(Outcome { data: u16_bytes(id), effect: Effect::Write(record) })
    }

    /// Puts or generates an asymmetric key.
    pub fn put_asymmetric_key(
        &self,
        authorization: SessionAuthorization,
        data: &[u8],
        generate: bool,
        answers: &mut Answers,
    ) -> (outcome: core::result::Result<Outcome, Halt>)
        requires
            old(answers).valid(),
        ensures
            final(answers).valid(),
            final(answers).replies == old(answers).replies,
            run(outcome, final(answers).used) == self@.puts_asymmetric_key(
                authorization,
                data@,
                generate,
                old(answers).replies@,
                old(answers).used as nat,
            ),
            outcome matches Ok(outcome) ==> effect_is_valid(outcome@.effect),
    {
        let request = lift(decode::<ObjectRequest>(data))?;
        if generate && request.material.len() != 0 {
            return fail(DeviceError::WrongLength);
        }
        let algorithm = lift(self.require_enabled_algorithm(request.header.algorithm))?;
        let material = asymmetric_key_material(algorithm, generate, request.material, answers)?;
        let length: usize = match algorithm.asymmetric_object_length() {
            Some(length) => length,
            None => {
                return fail(DeviceError::InvalidData);
            },
        };
        let capability = if generate {
            Capability::GenerateAsymmetricKey
        } else {
            Capability::PutAsymmetricKey
        };
        self.create_object(
            authorization,
            describe(
                &request.header,
                ObjectType::AsymmetricKey,
                length as u16,
                if generate {
                    1
                } else {
                    2
                },
                CapabilitySet::none(),
                material,
            ),
            capability,
            answers,
        )
    }

    /// Puts or generates an HMAC key.
    pub fn put_hmac_key(
        &self,
        authorization: SessionAuthorization,
        data: &[u8],
        generate: bool,
        answers: &mut Answers,
    ) -> (outcome: core::result::Result<Outcome, Halt>)
        requires
            old(answers).valid(),
        ensures
            final(answers).valid(),
            final(answers).replies == old(answers).replies,
            run(outcome, final(answers).used) == self@.puts_hmac_key(
                authorization,
                data@,
                generate,
                old(answers).replies@,
                old(answers).used as nat,
            ),
            outcome matches Ok(outcome) ==> effect_is_valid(outcome@.effect),
    {
        let request = lift(decode::<ObjectRequest>(data))?;
        if generate && request.material.len() != 0 {
            return fail(DeviceError::WrongLength);
        }
        lift(self.require_algorithm_enabled(request.header.algorithm))?;
        let hash = lift(hmac_hash(request.header.algorithm))?;
        let secret: Vec<u8> = if generate {
            draw_random(hash.output_length(), answers)?
        } else {
            if request.material.len() == 0 || request.material.len() > 128 {
                return fail(DeviceError::WrongLength);
            }
            copied(request.material)
        };
        let length: usize = match Algorithm::from_byte(request.header.algorithm) {
            Some(algorithm) => match algorithm.hmac_object_length() {
                Some(length) => length,
                None => {
                    return fail(DeviceError::InvalidData);
                },
            },
            None => {
                return fail(DeviceError::InvalidData);
            },
        };
        let capability = if generate {
            Capability::GenerateHmacKey
        } else {
            Capability::PutMacKey
        };
        self.create_object(
            authorization,
            describe(
                &request.header,
                ObjectType::HmacKey,
                length as u16,
                if generate {
                    1
                } else {
                    2
                },
                CapabilitySet::none(),
                ObjectMaterial::Secret(secret),
            ),
            capability,
            answers,
        )
    }

    /// Puts or generates an AES key.
    pub fn put_symmetric_key(
        &self,
        authorization: SessionAuthorization,
        data: &[u8],
        generate: bool,
        answers: &mut Answers,
    ) -> (outcome: core::result::Result<Outcome, Halt>)
        requires
            old(answers).valid(),
        ensures
            final(answers).valid(),
            final(answers).replies == old(answers).replies,
            run(outcome, final(answers).used) == self@.puts_symmetric_key(
                authorization,
                data@,
                generate,
                old(answers).replies@,
                old(answers).used as nat,
            ),
            outcome matches Ok(outcome) ==> effect_is_valid(outcome@.effect),
    {
        let request = lift(decode::<ObjectRequest>(data))?;
        if generate && request.material.len() != 0 {
            return fail(DeviceError::WrongLength);
        }
        let algorithm = lift(self.require_enabled_algorithm(request.header.algorithm))?;
        let length: usize = match symmetric_key_length(algorithm) {
            Some(length) => length,
            None => {
                return fail(DeviceError::InvalidData);
            },
        };
        let secret: Vec<u8> = make_secret(generate, request.material, length, answers)?;
        let capability = if generate {
            Capability::GenerateSymmetricKey
        } else {
            Capability::PutSymmetricKey
        };
        self.create_object(
            authorization,
            describe(
                &request.header,
                ObjectType::SymmetricKey,
                length as u16,
                if generate {
                    1
                } else {
                    2
                },
                CapabilitySet::none(),
                ObjectMaterial::Secret(secret),
            ),
            capability,
            answers,
        )
    }

    /// Puts or generates a wrap key.
    pub fn put_wrap_key(
        &self,
        authorization: SessionAuthorization,
        data: &[u8],
        generate: bool,
        answers: &mut Answers,
    ) -> (outcome: core::result::Result<Outcome, Halt>)
        requires
            old(answers).valid(),
        ensures
            final(answers).valid(),
            final(answers).replies == old(answers).replies,
            run(outcome, final(answers).used) == self@.puts_wrap_key(
                authorization,
                data@,
                generate,
                old(answers).replies@,
                old(answers).used as nat,
            ),
            outcome matches Ok(outcome) ==> effect_is_valid(outcome@.effect),
    {
        let request = lift(decode::<DelegatedObjectRequest>(data))?;
        if generate && request.material.len() != 0 {
            return fail(DeviceError::WrongLength);
        }
        let algorithm = lift(self.require_enabled_algorithm(request.header.algorithm))?;
        let (material, length): (ObjectMaterial, usize) = if algorithm.is_rsa_key() {
            let material = asymmetric_key_material(algorithm, generate, request.material, answers)?;
            match algorithm.asymmetric_object_length() {
                Some(length) => (material, length + 8),
                None => {
                    return fail(DeviceError::InvalidData);
                },
            }
        } else {
            match ccm_key_length(algorithm) {
                Some(length) => {
                    let secret: Vec<u8> = make_secret(generate, request.material, length, answers)?;
                    (ObjectMaterial::Secret(secret), length + 8)
                },
                None => {
                    return fail(DeviceError::InvalidData);
                },
            }
        };
        let capability = if generate {
            Capability::GenerateWrapKey
        } else {
            Capability::PutWrapKey
        };
        self.create_object(
            authorization,
            describe(
                &request.header,
                ObjectType::WrapKey,
                length as u16,
                if generate {
                    1
                } else {
                    2
                },
                request.delegated_capabilities,
                material,
            ),
            capability,
            answers,
        )
    }

    /// Puts the public part of an RSA wrap key.
    pub fn put_public_wrap_key(
        &self,
        authorization: SessionAuthorization,
        data: &[u8],
        answers: &mut Answers,
    ) -> (outcome: core::result::Result<Outcome, Halt>)
        requires
            old(answers).valid(),
        ensures
            final(answers).valid(),
            final(answers).replies == old(answers).replies,
            run(outcome, final(answers).used) == self@.puts_public_wrap_key(
                authorization,
                data@,
                old(answers).replies@,
                old(answers).used as nat,
            ),
            outcome matches Ok(outcome) ==> effect_is_valid(outcome@.effect),
    {
        let request = lift(decode::<DelegatedObjectRequest>(data))?;
        let algorithm = lift(self.require_enabled_algorithm(request.header.algorithm))?;
        if !algorithm.is_rsa_key() {
            return fail(DeviceError::InvalidData);
        }
        let length: usize = match algorithm.asymmetric_key_length() {
            Some(length) => length,
            None => {
                return fail(DeviceError::InvalidData);
            },
        };
        if request.material.len() != length {
            return fail(DeviceError::WrongLength);
        }
        self.create_object(
            authorization,
            describe(
                &request.header,
                ObjectType::PublicWrapKey,
                (length + 8) as u16,
                2,
                request.delegated_capabilities,
                ObjectMaterial::Public(copied(request.material)),
            ),
            Capability::PutPublicWrapKey,
            answers,
        )
    }

    /// Puts or generates an OTP key.
    pub fn put_otp_aead_key(
        &self,
        authorization: SessionAuthorization,
        data: &[u8],
        generate: bool,
        answers: &mut Answers,
    ) -> (outcome: core::result::Result<Outcome, Halt>)
        requires
            old(answers).valid(),
        ensures
            final(answers).valid(),
            final(answers).replies == old(answers).replies,
            run(outcome, final(answers).used) == self@.puts_otp_aead_key(
                authorization,
                data@,
                generate,
                old(answers).replies@,
                old(answers).used as nat,
            ),
            outcome matches Ok(outcome) ==> effect_is_valid(outcome@.effect),
    {
        let request = lift(decode::<OtpAeadKeyRequest>(data))?;
        if generate && request.material.len() != 0 {
            return fail(DeviceError::WrongLength);
        }
        let algorithm = lift(self.require_enabled_algorithm(request.header.algorithm))?;
        let length: usize = match otp_key_length(algorithm) {
            Some(length) => length,
            None => {
                return fail(DeviceError::InvalidData);
            },
        };
        let key: Vec<u8> = make_secret(generate, request.material, length, answers)?;
        let capability = if generate {
            Capability::GenerateOtpAeadKey
        } else {
            Capability::PutOtpAeadKey
        };
        let nonce: &[u8] = request.nonce_id;
        let nonce_id: [u8; 4] = [nonce[0], nonce[1], nonce[2], nonce[3]];
        assert(nonce_id@ =~= nonce@);
        self.create_object(
            authorization,
            describe(
                &request.header,
                ObjectType::OtpAeadKey,
                (length + 4) as u16,
                if generate {
                    1
                } else {
                    2
                },
                CapabilitySet::none(),
                ObjectMaterial::OtpAeadKey { nonce_id, key },
            ),
            capability,
            answers,
        )
    }

    /// Puts a template.
    pub fn put_template(
        &self,
        authorization: SessionAuthorization,
        data: &[u8],
        answers: &mut Answers,
    ) -> (outcome: core::result::Result<Outcome, Halt>)
        requires
            old(answers).valid(),
        ensures
            final(answers).valid(),
            final(answers).replies == old(answers).replies,
            run(outcome, final(answers).used) == self@.puts_template(
                authorization,
                data@,
                old(answers).replies@,
                old(answers).used as nat,
            ),
            outcome matches Ok(outcome) ==> effect_is_valid(outcome@.effect),
    {
        let request = lift(decode::<ObjectRequest>(data))?;
        let length: usize = request.material.len();
        if length == 0 {
            return fail(DeviceError::WrongLength);
        }
        if request.header.algorithm != Algorithm::TemplateSsh.to_byte() {
            return fail(DeviceError::InvalidData);
        }
        lift(self.require_algorithm_enabled(request.header.algorithm))?;
        if length > 0xffff {
            let _id: u16 = self.resolve_id(
                ObjectType::Template,
                request.header.requested_id,
                answers,
            )?;
            return fail(DeviceError::WrongLength);
        }
        self.create_object(
            authorization,
            describe(
                &request.header,
                ObjectType::Template,
                length as u16,
                2,
                CapabilitySet::none(),
                ObjectMaterial::Opaque(copied(request.material)),
            ),
            Capability::PutTemplate,
            answers,
        )
    }

    /// Puts new material into an authentication key.
    pub fn change_authentication_key(&self, data: &[u8], answers: &mut Answers) -> (outcome:
        core::result::Result<Outcome, Halt>)
        requires
            old(answers).valid(),
        ensures
            final(answers).valid(),
            final(answers).replies == old(answers).replies,
            run(outcome, final(answers).used) == self@.changes_authentication_key(
                data@,
                old(answers).replies@,
                old(answers).used as nat,
            ),
            outcome matches Ok(outcome) ==> effect_is_valid(outcome@.effect),
    {
        let request = lift(decode::<ChangeAuthenticationKeyRequest>(data))?;
        lift(self.require_algorithm_enabled(request.algorithm))?;
        let material = parse_authentication_key_material(
            request.algorithm,
            request.material,
            answers,
        )?;
        let record = lift(
            self.find(
                ObjectKey { object_type: ObjectType::AuthenticationKey, id: request.id },
            ),
        )?;
        let mut updated = record.copied();
        updated.info.algorithm = request.algorithm;
        updated.info.length = (request.material.len() + 8) as u16;
        updated.material = material;
        lift(updated.validate())?;
        Ok(Outcome { data: u16_bytes(request.id), effect: Effect::Write(updated) })
    }
}

/// What is created lies within the session's ceilings and is consistent, under a
/// number that was free for its type.
pub proof fn created_objects_are_consistent(
    device: DeviceModel,
    authorization: SessionAuthorization,
    description: RecordModel,
    capability: Capability,
    replies: Seq<EngineReply>,
    used: nat,
)
    requires
        device.created(authorization, description, capability, replies, used) is Ok,
    ensures
        device.created(
            authorization,
            description,
            capability,
            replies,
            used,
        )->Ok_0.0.effect matches EffectModel::Write(record) && record.validated() is Ok
            && record.material == description.material && authorization.may_create(
            record.info,
            capability,
        ) is Ok && !device.objects.contains_key(record.info.key().number()),
{
    crate::device::new_numbers_are_free(
        device,
        description.info.object_type,
        description.info.id,
        replies,
        used,
    );
}

/// An opaque object that exists is replaced only by one of the same
/// capabilities, domains, algorithm and label.
pub proof fn opaque_metadata_stays(
    device: DeviceModel,
    authorization: SessionAuthorization,
    data: Seq<u8>,
    replies: Seq<EngineReply>,
    used: nat,
    existing: RecordModel,
)
    requires
        decoded::<ObjectRequest>(data) matches Ok(request) && request.header.requested_id != 0
            && device.get(
            ObjectKey { object_type: ObjectType::Opaque, id: request.header.requested_id },
        ) == Ok::<RecordModel, DeviceError>(existing),
        device.puts_opaque(authorization, data, replies, used) is Ok,
    ensures
        device.puts_opaque(
            authorization,
            data,
            replies,
            used,
        )->Ok_0.0.effect matches EffectModel::Write(record) && record.info == (InfoModel {
            length: record.info.length,
            ..existing.info
        }),
{
}

} // verus!
