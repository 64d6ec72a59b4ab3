//! The command on the volatile objects of a session.
use crate::algorithm::Algorithm;
use crate::authorization::SessionAuthorization;
use crate::bytes::{copied, copied_range, joined, u64_be, u64_bytes};
use crate::capability::Capability;
use crate::device::{
    effect_is_valid, viewed, Device, DeviceModel, Effect, EffectModel, Outcome, OutcomeModel,
};
use crate::engine::{
    bytes_from, fail, key_from, lift, run, sized_from, Answers, Computation, ComputationModel,
    EngineReply, EngineRequest, Halt, HaltModel, Operation, RequestModel, Run,
};
use crate::error::{DeviceError, Result};
use crate::keys::{EcCurve, HashAlgorithm, KeyKind, SigningKey, SigningKeyModel};
use crate::object::ObjectType;
use crate::outside::same_secret;
use crate::protocol::SessionObjectCommand;
use crate::request::{
    ConcatenateSessionDataRequest, ConcatenateSessionKeysRequest, CounterKdfSessionObjectRequest,
    DeriveSessionEcdhRequest, ExtractSessionObjectRequest, GenerateSessionAsymmetricKeyRequest,
    HandleRequest, SessionObjectRequest, SessionResultHeader, SessionSourceRequest,
    Sha256SessionObjectRequest, VerifySessionCmacRequest,
};
use crate::session::random_secret_key;
use crate::session_object::{
    fresh_handle, SessionObject, SessionObjectKind, SessionObjects, VolatileMaterial, VolatileModel,
    FLAG_DERIVE, FLAG_READABLE, FLAG_VERIFY,
};
use crate::usage::{make_verdict, object_secret, signing_key, verdict};
use crate::wire::{decode, decoded};
use vstd::prelude::*;

verus! {

/// Whether flags are known ones.
pub open spec fn known_flags(flags: u8) -> core::result::Result<(), DeviceError> {
    if flags & !7u8 == 0 {
        Ok(())
    } else {
        Err(DeviceError::InvalidData)
    }
}

/// Checks that flags are known ones.
fn validate_session_flags(flags: u8) -> (valid: Result<()>)
    ensures
        valid == known_flags(flags),
{
    assert(1u8 | 2u8 | 4u8 == 7u8) by (bit_vector);
    if flags & !(FLAG_READABLE | FLAG_DERIVE | FLAG_VERIFY) == 0 {
        Ok(())
    } else {
        Err(DeviceError::InvalidData)
    }
}

/// The length of a derived object, where it can be one: known flags, a secret,
/// and at most a kilobyte.
pub open spec fn result_length(header: SessionResultHeader) -> core::result::Result<
    usize,
    DeviceError,
> {
    if known_flags(header.flags) is Err {
        Err(DeviceError::InvalidData)
    } else if header.kind == SessionObjectKind::P256Private {
        Err(DeviceError::InvalidData)
    } else if header.output_length == 0 || header.output_length > 1024 {
        Err(DeviceError::WrongLength)
    } else {
        Ok(header.output_length as usize)
    }
}

/// Returns the length of a derived object, where it can be one.
fn validate_session_result_header(header: SessionResultHeader) -> (length: Result<usize>)
    ensures
        length == result_length(header),
{
    validate_session_flags(header.flags)?;
    if matches!(header.kind, SessionObjectKind::P256Private) {
        return Err(DeviceError::InvalidData);
    }
    let length: usize = header.output_length as usize;
    if length == 0 || length > 1024 {
        return Err(DeviceError::WrongLength);
    }
    Ok(length)
}

/// The volatile object of a handle.
pub open spec fn volatile_at(objects: Map<u64, VolatileModel>, handle: u64) -> core::result::Result<
    VolatileModel,
    DeviceError,
> {
    if objects.contains_key(handle) {
        Ok(objects[handle])
    } else {
        Err(DeviceError::ObjectNotFound)
    }
}

/// Looks up the volatile object of a handle.
fn find_volatile(objects: &SessionObjects, handle: u64) -> (object: Result<&SessionObject>)
    ensures
        viewed(object) == volatile_at(objects@, handle),
{
    match objects.get(handle) {
        Some(object) => Ok(object),
        None => Err(DeviceError::ObjectNotFound),
    }
}

/// The secret of a volatile object that may be derived from.
pub open spec fn derivation_secret(
    objects: Map<u64, VolatileModel>,
    handle: u64,
) -> core::result::Result<
    Seq<u8>,
    DeviceError,
> {
    match volatile_at(objects, handle) {
        Err(error) => Err(error),
        Ok(object) => if object.flags & FLAG_DERIVE == 0 {
            Err(DeviceError::InsufficientPermissions)
        } else {
            match object.material {
                VolatileMaterial::Secret(value) => Ok(value),
                _ => Err(DeviceError::InvalidData),
            }
        },
    }
}

/// Returns the secret of a volatile object that may be derived from.
fn session_derivation_secret(objects: &SessionObjects, handle: u64) -> (secret: Result<Vec<u8>>)
    ensures
        viewed(secret) == derivation_secret(objects@, handle),
{
    let object = find_volatile(objects, handle)?;
    if object.flags & FLAG_DERIVE == 0 {
        return Err(DeviceError::InsufficientPermissions);
    }
    match object.secret_value() {
        Some(value) => Ok(copied(value)),
        None => Err(DeviceError::InvalidData),
    }
}

/// One byte out of a key that is read as a ring of bits: so many bytes after the
/// bit offset.
pub open spec fn ring_byte(base: Seq<u8>, offset: int, index: int) -> u8 {
    let at = (offset / 8 + index) % (base.len() as int);
    let shift = (offset % 8) as u8;
    let first = base[at];
    let second = base[(at + 1) % (base.len() as int)];
    if shift == 0 {
        first
    } else {
        (first << shift) | (second >> ((8 - shift) as u8))
    }
}

/// So many bytes out of a key that is read as a ring of bits, from a bit on.
pub open spec fn extracted(base: Seq<u8>, offset: int, length: nat) -> Seq<u8> {
    Seq::new(length, |i: int| ring_byte(base, offset, i))
}

/// A bit of a key that is read as a ring of bits, the highest bit of the first
/// byte first.
pub open spec fn ring_bit(base: Seq<u8>, bit: int) -> bool {
    (base[(bit / 8) % (base.len() as int)] >> ((7 - bit % 8) as u8)) & 1 == 1
}

/// Every extracted bit is the key's bit that many places after the offset, and
/// after the key's last bit comes its first.
pub proof fn extraction_rotates_bits(base: Seq<u8>, offset: int, length: nat, bit: int)
    requires
        base.len() > 0,
        0 <= offset,
        0 <= bit < 8 * length,
    ensures
        ring_bit(extracted(base, offset, length), bit) == ring_bit(base, offset + bit),
{
    let size = base.len() as int;
    let index = bit / 8;
    let within = (bit % 8) as u8;
    let shift = (offset % 8) as u8;
    let at = (offset / 8 + index) % size;
    let first = base[at];
    let second = base[(at + 1) % size];
    let value = ring_byte(base, offset, index);
    assert(index < length);
    vstd::arithmetic::div_mod::lemma_small_mod(index as nat, length);
    assert(extracted(base, offset, length)[index] == value);
    if shift + within < 8 {
        let sum = (shift + within) as u8;
        assert((offset + bit) / 8 == offset / 8 + index && (offset + bit) % 8 == sum);
        assert((value >> ((7 - within) as u8)) & 1 == (first >> ((7 - sum) as u8)) & 1) by (bit_vector)
            requires
                shift < 8,
                within < 8,
                sum == shift + within,
                sum < 8,
                value == (if shift == 0 {
                    first
                } else {
                    (first << shift) | (second >> ((8 - shift) as u8))
                }),
        ;
    } else {
        let rest = (shift + within - 8) as u8;
        assert((offset + bit) / 8 == offset / 8 + index + 1 && (offset + bit) % 8 == rest);
        vstd::arithmetic::div_mod::lemma_add_mod_noop_right(1, offset / 8 + index, size);
        assert((offset / 8 + index + 1) % size == (at + 1) % size);
        assert((value >> ((7 - within) as u8)) & 1 == (second >> ((7 - rest) as u8)) & 1) by (bit_vector)
            requires
                0 < shift < 8,
                within < 8,
                shift + within >= 8,
                rest == shift + within - 8,
                value == (first << shift) | (second >> ((8 - shift) as u8)),
        ;
    }
}

/// Takes bytes out of a key that is read as a ring of bits.
fn extract_bits(base: &[u8], offset: u16, length: usize) -> (value: Vec<u8>)
    requires
        base@.len() > 0,
        length <= 1024,
    ensures
        value@ == extracted(base@, offset as int, length as nat),
{
    let mut value: Vec<u8> = Vec::new();
    let shift: u8 = (offset % 8) as u8;
    let mut index: usize = 0;
    assert(value@ =~= extracted(base@, offset as int, 0));
    while index < length
        invariant
            index <= length <= 1024,
            base@.len() > 0,
            shift == offset % 8,
            value@ == extracted(base@, offset as int, index as nat),
        decreases length - index,
    {
        let at: usize = ((offset / 8) as usize + index) % base.len();
        let next: u8 = if shift == 0 {
            base[at]
        } else {
            (base[at] << shift) | (base[(at + 1) % base.len()] >> (8 - shift))
        };
        value.push(next);
        index = index + 1;
        assert(value@ =~= extracted(base@, offset as int, index as nat));
    }
    value
}

/// A derived value and what is to become of it.
pub struct Derivation {
    pub header: SessionResultHeader,
    pub value: Vec<u8>,
}

/// What a derived value says.
#[verifier::ext_equal]
pub struct DerivationModel {
    pub header: SessionResultHeader,
    pub value: Seq<u8>,
}

impl View for Derivation {
    type V = DerivationModel;

    open spec fn view(&self) -> DerivationModel {
        DerivationModel { header: self.header, value: self.value@ }
    }
}

impl DeviceModel {
    /// The private key that a derivation takes: an asymmetric key that the
    /// session may agree with, or a volatile one that may be derived from.
    pub open spec fn agreement_key(
        self,
        authorization: SessionAuthorization,
        objects: Map<u64, VolatileModel>,
        source: SessionSourceRequest,
    ) -> core::result::Result<SigningKeyModel, DeviceError> {
        match source {
            SessionSourceRequest::PersistentAsymmetric(id) => match self.usable(
                authorization,
                ObjectType::AsymmetricKey,
                id,
            ) {
                Err(error) => Err(error),
                Ok(record) => match authorization.may_use(
                    record.info,
                    Capability::DeriveEcdh,
                    Capability::DeriveEcdh,
                ) {
                    Err(error) => Err(error),
                    Ok(()) => record.signing(),
                },
            },
            SessionSourceRequest::Volatile(handle) => match volatile_at(objects, handle) {
                Err(error) => Err(error),
                Ok(object) => if object.flags & FLAG_DERIVE == 0 {
                    Err(DeviceError::InsufficientPermissions)
                } else {
                    match object.material {
                        VolatileMaterial::P256Private(key) => Ok(key),
                        _ => Err(DeviceError::InvalidData),
                    }
                },
            },
            SessionSourceRequest::PersistentSymmetric(_) => Err(DeviceError::InvalidData),
        }
    }

    /// The secret that a derivation takes: an AES key that the session may
    /// encrypt with, or a volatile secret that may be derived from.
    pub open spec fn derivation_key(
        self,
        authorization: SessionAuthorization,
        objects: Map<u64, VolatileModel>,
        source: SessionSourceRequest,
    ) -> core::result::Result<Seq<u8>, DeviceError> {
        match source {
            SessionSourceRequest::PersistentSymmetric(id) => match self.symmetric_key(
                authorization,
                id,
            ) {
                Err(error) => Err(error),
                Ok(record) => match authorization.may_use(
                    record.info,
                    Capability::EncryptEcb,
                    Capability::EncryptEcb,
                ) {
                    Err(error) => Err(error),
                    Ok(()) => record.secret(),
                },
            },
            SessionSourceRequest::Volatile(handle) => derivation_secret(objects, handle),
            SessionSourceRequest::PersistentAsymmetric(_) => Err(DeviceError::InvalidData),
        }
    }

    /// The end of an agreed secret.
    pub open spec fn derives_agreement(
        self,
        authorization: SessionAuthorization,
        objects: Map<u64, VolatileModel>,
        payload: Seq<u8>,
        replies: Seq<EngineReply>,
        used: nat,
    ) -> Run<DerivationModel> {
        match decoded::<DeriveSessionEcdhRequest>(payload) {
            Err(error) => Err(HaltModel::Error(error, used)),
            Ok(request) => match result_length(request.header) {
                Err(error) => Err(HaltModel::Error(error, used)),
                Ok(length) => match self.agreement_key(authorization, objects, request.source) {
                    Err(error) => Err(HaltModel::Error(error, used)),
                    Ok(key) => match bytes_from(
                        replies,
                        used,
                        RequestModel::with_key(
                            Operation::Agree(key.kind),
                            key,
                            Seq::empty(),
                            request.peer_public,
                        ),
                        DeviceError::InvalidData,
                    ) {
                        Err(halt) => Err(halt),
                        Ok((value, used)) => if length > value.len() {
                            Err(HaltModel::Error(DeviceError::WrongLength, used))
                        } else {
                            Ok(
                                (
                                    DerivationModel {
                                        header: request.header,
                                        value: value.subrange(
                                            value.len() - length,
                                            value.len() as int,
                                        ),
                                    },
                                    used,
                                ),
                            )
                        },
                    },
                },
            },
        }
    }

    /// Bytes that the key engine derives from a secret in counter mode.
    pub open spec fn derives_counter(
        self,
        authorization: SessionAuthorization,
        objects: Map<u64, VolatileModel>,
        payload: Seq<u8>,
        replies: Seq<EngineReply>,
        used: nat,
    ) -> Run<DerivationModel> {
        match decoded::<CounterKdfSessionObjectRequest>(payload) {
            Err(error) => Err(HaltModel::Error(error, used)),
            Ok(request) => match result_length(request.header) {
                Err(error) => Err(HaltModel::Error(error, used)),
                Ok(length) => match self.derivation_key(authorization, objects, request.source) {
                    Err(error) => Err(HaltModel::Error(error, used)),
                    Ok(key) => match bytes_from(
                        replies,
                        used,
                        RequestModel::Compute(
                            ComputationModel {
                                operation: Operation::CounterKdf(length),
                                key,
                                second: Seq::empty(),
                                parameter: Seq::empty(),
                                data: Seq::empty(),
                                fields: request.fields,
                            },
                        ),
                        DeviceError::InvalidData,
                    ) {
                        Err(halt) => Err(halt),
                        Ok((value, used)) => Ok(
                            (DerivationModel { header: request.header, value }, used),
                        ),
                    },
                },
            },
        }
    }

    /// What a derivation makes of volatile and other keys.
    pub open spec fn derives_volatile(
        self,
        authorization: SessionAuthorization,
        objects: Map<u64, VolatileModel>,
        operation: SessionObjectCommand,
        payload: Seq<u8>,
        replies: Seq<EngineReply>,
        used: nat,
    ) -> Run<DerivationModel> {
        match operation {
            SessionObjectCommand::DeriveEcdh => self.derives_agreement(
                authorization,
                objects,
                payload,
                replies,
                used,
            ),
            SessionObjectCommand::ConcatenateKey => match concatenated_keys(objects, payload) {
                Ok(derivation) => Ok((derivation, used)),
                Err(error) => Err(HaltModel::Error(error, used)),
            },
            SessionObjectCommand::ConcatenateData => match concatenated_data(objects, payload) {
                Ok(derivation) => Ok((derivation, used)),
                Err(error) => Err(HaltModel::Error(error, used)),
            },
            SessionObjectCommand::Extract => match extracted_key(objects, payload) {
                Ok(derivation) => Ok((derivation, used)),
                Err(error) => Err(HaltModel::Error(error, used)),
            },
            SessionObjectCommand::Sha256 => digested_key(objects, payload, replies, used),
            SessionObjectCommand::CounterKdf => self.derives_counter(
                authorization,
                objects,
                payload,
                replies,
                used,
            ),
            _ => Err(HaltModel::Error(DeviceError::InvalidData, used)),
        }
    }

    /// The command on the volatile objects of a session.
    pub open spec fn handles_volatile(
        self,
        authorization: SessionAuthorization,
        objects: Map<u64, VolatileModel>,
        data: Seq<u8>,
        replies: Seq<EngineReply>,
        used: nat,
    ) -> Run<OutcomeModel> {
        match decoded::<SessionObjectRequest>(data) {
            Err(error) => Err(HaltModel::Error(error, used)),
            Ok(request) => match request.operation {
                SessionObjectCommand::Read => match read_volatile(objects, request.payload) {
                    Ok(value) => Ok(
                        (OutcomeModel { data: value, effect: EffectModel::Nothing }, used),
                    ),
                    Err(error) => Err(HaltModel::Error(error, used)),
                },
                SessionObjectCommand::VerifyCmac => match verified_cmac(
                    objects,
                    request.payload,
                    replies,
                    used,
                ) {
                    Ok((answer, used)) => Ok(
                        (OutcomeModel { data: answer, effect: EffectModel::Nothing }, used),
                    ),
                    Err(halt) => Err(halt),
                },
                SessionObjectCommand::DeleteObject => match decoded::<HandleRequest>(
                    request.payload,
                ) {
                    Err(error) => Err(HaltModel::Error(error, used)),
                    Ok(request) => if objects.contains_key(request.handle) {
                        Ok(
                            (
                                OutcomeModel {
                                    data: Seq::empty(),
                                    effect: EffectModel::Discard(request.handle),
                                },
                                used,
                            ),
                        )
                    } else {
                        Err(HaltModel::Error(DeviceError::ObjectNotFound, used))
                    },
                },
                SessionObjectCommand::GenerateAsymmetricKey => generated_volatile(
                    objects,
                    request.payload,
                    replies,
                    used,
                ),
                _ => match self.derives_volatile(
                    authorization,
                    objects,
                    request.operation,
                    request.payload,
                    replies,
                    used,
                ) {
                    Err(halt) => Err(halt),
                    Ok((derivation, used)) => match VolatileModel::secret(
                        derivation.header.kind,
                        derivation.header.flags,
                        derivation.value,
                    ) {
                        None => Err(HaltModel::Error(DeviceError::InvalidData, used)),
                        Some(object) => match fresh_handle(objects, replies, used) {
                            Err(halt) => Err(halt),
                            Ok((handle, used)) => Ok(
                                (
                                    OutcomeModel {
                                        data: u64_be(handle),
                                        effect: EffectModel::Add(handle, object),
                                    },
                                    used,
                                ),
                            ),
                        },
                    },
                },
            },
        }
    }
}

/// The start of two secrets, one after the other.
pub open spec fn concatenated_keys(
    objects: Map<u64, VolatileModel>,
    payload: Seq<u8>,
) -> core::result::Result<
    DerivationModel,
    DeviceError,
> {
    match decoded::<ConcatenateSessionKeysRequest>(payload) {
        Err(error) => Err(error),
        Ok(request) => match result_length(request.header) {
            Err(error) => Err(error),
            Ok(length) => match derivation_secret(objects, request.left) {
                Err(error) => Err(error),
                Ok(left) => match derivation_secret(objects, request.right) {
                    Err(error) => Err(error),
                    Ok(right) => if length > left.len() + right.len() {
                        Err(DeviceError::WrongLength)
                    } else {
                        Ok(
                            DerivationModel {
                                header: request.header,
                                value: (left + right).subrange(0, length as int),
                            },
                        )
                    },
                },
            },
        },
    }
}

/// The start of a secret with data after it.
pub open spec fn concatenated_data(
    objects: Map<u64, VolatileModel>,
    payload: Seq<u8>,
) -> core::result::Result<
    DerivationModel,
    DeviceError,
> {
    match decoded::<ConcatenateSessionDataRequest>(payload) {
        Err(error) => Err(error),
        Ok(request) => match result_length(request.header) {
            Err(error) => Err(error),
            Ok(length) => match derivation_secret(objects, request.base) {
                Err(error) => Err(error),
                Ok(base) => if length > base.len() + request.data.len() {
                    Err(DeviceError::WrongLength)
                } else {
                    Ok(
                        DerivationModel {
                            header: request.header,
                            value: (base + request.data).subrange(0, length as int),
                        },
                    )
                },
            },
        },
    }
}

/// Bytes out of a secret, from a bit on.
pub open spec fn extracted_key(
    objects: Map<u64, VolatileModel>,
    payload: Seq<u8>,
) -> core::result::Result<
    DerivationModel,
    DeviceError,
> {
    match decoded::<ExtractSessionObjectRequest>(payload) {
        Err(error) => Err(error),
        Ok(request) => match result_length(request.header) {
            Err(error) => Err(error),
            Ok(length) => match derivation_secret(objects, request.base) {
                Err(error) => Err(error),
                Ok(base) => if request.offset >= 8 * base.len() {
                    Err(DeviceError::InvalidData)
                } else if length > base.len() {
                    Err(DeviceError::WrongLength)
                } else {
                    Ok(
                        DerivationModel {
                            header: request.header,
                            value: extracted(base, request.offset as int, length as nat),
                        },
                    )
                },
            },
        },
    }
}

/// The start of a secret's digest.
pub open spec fn digested_key(
    objects: Map<u64, VolatileModel>,
    payload: Seq<u8>,
    replies: Seq<EngineReply>,
    used: nat,
) -> Run<DerivationModel> {
    match decoded::<Sha256SessionObjectRequest>(payload) {
        Err(error) => Err(HaltModel::Error(error, used)),
        Ok(request) => match result_length(request.header) {
            Err(error) => Err(HaltModel::Error(error, used)),
            Ok(length) => if length > 32 {
                Err(HaltModel::Error(DeviceError::WrongLength, used))
            } else {
                match derivation_secret(objects, request.base) {
                    Err(error) => Err(HaltModel::Error(error, used)),
                    Ok(base) => match sized_from(
                        replies,
                        used,
                        RequestModel::digest(HashAlgorithm::Sha256, base),
                        32,
                        DeviceError::StorageFailed,
                    ) {
                        Err(halt) => Err(halt),
                        Ok((digest, used)) => Ok(
                            (
                                DerivationModel {
                                    header: request.header,
                                    value: digest.subrange(0, length as int),
                                },
                                used,
                            ),
                        ),
                    },
                }
            },
        },
    }
}

/// The value of a volatile object that may be read.
pub open spec fn read_volatile(
    objects: Map<u64, VolatileModel>,
    payload: Seq<u8>,
) -> core::result::Result<
    Seq<u8>,
    DeviceError,
> {
    match decoded::<HandleRequest>(payload) {
        Err(error) => Err(error),
        Ok(request) => match volatile_at(objects, request.handle) {
            Err(error) => Err(error),
            Ok(object) => if object.flags & FLAG_READABLE == 0 {
                Err(DeviceError::InsufficientPermissions)
            } else {
                match object.material {
                    VolatileMaterial::Secret(value) => Ok(value),
                    _ => Err(DeviceError::InvalidData),
                }
            },
        },
    }
}

/// Whether a signature is the start of a message's CMAC under a volatile AES
/// key.
pub open spec fn verified_cmac(
    objects: Map<u64, VolatileModel>,
    payload: Seq<u8>,
    replies: Seq<EngineReply>,
    used: nat,
) -> Run<Seq<u8>> {
    match decoded::<VerifySessionCmacRequest>(payload) {
        Err(error) => Err(HaltModel::Error(error, used)),
        Ok(request) => match volatile_at(objects, request.handle) {
            Err(error) => Err(HaltModel::Error(error, used)),
            Ok(object) => if object.kind != SessionObjectKind::Aes || object.flags & FLAG_VERIFY
                == 0 {
                Err(HaltModel::Error(DeviceError::InsufficientPermissions, used))
            } else {
                match object.material {
                    VolatileMaterial::Secret(key) => if request.signature.len() == 0
                        || request.signature.len() > 16 {
                        Err(HaltModel::Error(DeviceError::WrongLength, used))
                    } else {
                        match sized_from(
                            replies,
                            used,
                            RequestModel::keyed(Operation::Cmac, key, request.message),
                            16,
                            DeviceError::InvalidData,
                        ) {
                            Err(halt) => Err(halt),
                            Ok((expected, used)) => Ok(
                                (
                                    verdict(
                                        expected.subrange(0, request.signature.len() as int)
                                            == request.signature,
                                    ),
                                    used,
                                ),
                            ),
                        }
                    },
                    _ => Err(HaltModel::Error(DeviceError::InvalidData, used)),
                }
            },
        },
    }
}

/// A new volatile P-256 key: its handle and its public part.
pub open spec fn generated_volatile(
    objects: Map<u64, VolatileModel>,
    payload: Seq<u8>,
    replies: Seq<EngineReply>,
    used: nat,
) -> Run<OutcomeModel> {
    let p256 = KeyKind::Ec(EcCurve::P256);
    match decoded::<GenerateSessionAsymmetricKeyRequest>(payload) {
        Err(error) => Err(HaltModel::Error(error, used)),
        Ok(request) => if known_flags(request.flags) is Err || request.algorithm
            != Algorithm::EcP256.byte() || request.flags & FLAG_DERIVE == 0 {
            Err(HaltModel::Error(DeviceError::InvalidData, used))
        } else {
            match key_from(
                replies,
                used,
                RequestModel::keyed(Operation::GenerateKey(p256), Seq::empty(), Seq::empty()),
                p256,
                DeviceError::StorageFailed,
            ) {
                Err(halt) => Err(halt),
                Ok((key, used)) => match fresh_handle(objects, replies, used) {
                    Err(halt) => Err(halt),
                    Ok((handle, used)) => Ok(
                        (
                            OutcomeModel {
                                data: u64_be(handle) + key.public,
                                effect: EffectModel::Add(
                                    handle,
                                    VolatileModel {
                                        kind: SessionObjectKind::P256Private,
                                        flags: request.flags,
                                        material: VolatileMaterial::P256Private(key),
                                    },
                                ),
                            },
                            used,
                        ),
                    ),
                },
            }
        },
    }
}

/// Puts two secrets one after the other.
fn concatenate_keys(objects: &SessionObjects, payload: &[u8]) -> (derivation: Result<Derivation>)
    ensures
        viewed(derivation) == concatenated_keys(objects@, payload@),
{
    let request = decode::<ConcatenateSessionKeysRequest>(payload)?;
    let length: usize = validate_session_result_header(request.header)?;
    let left: Vec<u8> = session_derivation_secret(objects, request.left)?;
    let right: Vec<u8> = session_derivation_secret(objects, request.right)?;
    let all: Vec<u8> = joined(&left, &right);
    if length > all.len() {
        return Err(DeviceError::WrongLength);
    }
    Ok(Derivation { header: request.header, value: copied_range(&all, 0, length) })
}

/// Puts data after a secret.
fn concatenate_data(objects: &SessionObjects, payload: &[u8]) -> (derivation: Result<Derivation>)
    ensures
        viewed(derivation) == concatenated_data(objects@, payload@),
{
    let request = decode::<ConcatenateSessionDataRequest>(payload)?;
    let length: usize = validate_session_result_header(request.header)?;
    let base: Vec<u8> = session_derivation_secret(objects, request.base)?;
    let all: Vec<u8> = joined(&base, request.data);
    if length > all.len() {
        return Err(DeviceError::WrongLength);
    }
    Ok(Derivation { header: request.header, value: copied_range(&all, 0, length) })
}

/// Takes bytes out of a secret.
fn extract_key(objects: &SessionObjects, payload: &[u8]) -> (derivation: Result<Derivation>)
    ensures
        viewed(derivation) == extracted_key(objects@, payload@),
{
    let request = decode::<ExtractSessionObjectRequest>(payload)?;
    let length: usize = validate_session_result_header(request.header)?;
    let base: Vec<u8> = session_derivation_secret(objects, request.base)?;
    if (request.offset / 8) as usize >= base.len() {
        return Err(DeviceError::InvalidData);
    }
    if length > base.len() {
        return Err(DeviceError::WrongLength);
    }
    Ok(Derivation { header: request.header, value: extract_bits(&base, request.offset, length) })
}

/// Digests a secret.
fn digest_key(objects: &SessionObjects, payload: &[u8], answers: &mut Answers) -> (derivation:
    core::result::Result<Derivation, Halt>)
    requires
        old(answers).valid(),
    ensures
        final(answers).valid(),
        final(answers).replies == old(answers).replies,
        run(derivation, final(answers).used) == digested_key(
            objects@,
            payload@,
            old(answers).replies@,
            old(answers).used as nat,
        ),
{
    let request = lift(decode::<Sha256SessionObjectRequest>(payload))?;
    let length: usize = lift(validate_session_result_header(request.header))?;
    if length > 32 {
        return fail(DeviceError::WrongLength);
    }
    let base: Vec<u8> = lift(session_derivation_secret(objects, request.base))?;
    let digest: Vec<u8> = answers.sized(
        EngineRequest::digest(HashAlgorithm::Sha256, &base),
        32,
        DeviceError::StorageFailed,
    )?;
    Ok(Derivation { header: request.header, value: copied_range(&digest, 0, length) })
}

impl Device {
    /// Finds the private key that a derivation takes.
    fn find_agreement_key(
        &self,
        authorization: SessionAuthorization,
        objects: &SessionObjects,
        source: SessionSourceRequest,
    ) -> (key: Result<SigningKey>)
        ensures
            viewed(key) == self@.agreement_key(authorization, objects@, source),
    {
        match source {
            SessionSourceRequest::PersistentAsymmetric(id) => {
                let record = self.find_usable(authorization, ObjectType::AsymmetricKey, id)?;
                authorization.authorize_use(
                    &record.info,
                    Capability::DeriveEcdh,
                    Capability::DeriveEcdh,
                )?;
                let key = signing_key(record)?;
                Ok(key.copied())
            },
            SessionSourceRequest::Volatile(handle) => {
                let object = find_volatile(objects, handle)?;
                if object.flags & FLAG_DERIVE == 0 {
                    return Err(DeviceError::InsufficientPermissions);
                }
                match object.p256_key() {
                    Some(key) => Ok(key.copied()),
                    None => Err(DeviceError::InvalidData),
                }
            },
            SessionSourceRequest::PersistentSymmetric(_) => Err(DeviceError::InvalidData),
        }
    }

    /// Finds the secret that a derivation takes.
    fn find_derivation_key(
        &self,
        authorization: SessionAuthorization,
        objects: &SessionObjects,
        source: SessionSourceRequest,
    ) -> (key: Result<Vec<u8>>)
        ensures
            viewed(key) == self@.derivation_key(authorization, objects@, source),
    {
        match source {
            SessionSourceRequest::PersistentSymmetric(id) => {
                let record = self.symmetric_object(authorization, id)?;
                authorization.authorize_use(
                    &record.info,
                    Capability::EncryptEcb,
                    Capability::EncryptEcb,
                )?;
                let secret = object_secret(record)?;
                Ok(copied(secret))
            },
            SessionSourceRequest::Volatile(handle) => session_derivation_secret(objects, handle),
            SessionSourceRequest::PersistentAsymmetric(_) => Err(DeviceError::InvalidData),
        }
    }

    /// Derives the end of an agreed secret.
    fn derive_agreement(
        &self,
        authorization: SessionAuthorization,
        objects: &SessionObjects,
        payload: &[u8],
        answers: &mut Answers,
    ) -> (derivation: core::result::Result<Derivation, Halt>)
        requires
            old(answers).valid(),
        ensures
            final(answers).valid(),
            final(answers).replies == old(answers).replies,
            run(derivation, final(answers).used) == self@.derives_agreement(
                authorization,
                objects@,
                payload@,
                old(answers).replies@,
                old(answers).used as nat,
            ),
    {
        let request = lift(decode::<DeriveSessionEcdhRequest>(payload))?;
        let length: usize = lift(validate_session_result_header(request.header))?;
        let key = lift(self.find_agreement_key(authorization, objects, request.source))?;
        let none: Vec<u8> = Vec::new();
        assert(none@ =~= Seq::<u8>::empty());
        let value: Vec<u8> = answers.bytes(
            EngineRequest::with_key(Operation::Agree(key.kind), &key, &none, request.peer_public),
            DeviceError::InvalidData,
        )?;
        if length > value.len() {
            return fail(DeviceError::WrongLength);
        }
        Ok(
            Derivation {
                header: request.header,
                value: copied_range(&value, value.len() - length, value.len()),
            },
        )
    }

    /// Derives bytes in counter mode.
    fn derive_counter(
        &self,
        authorization: SessionAuthorization,
        objects: &SessionObjects,
        payload: &[u8],
        answers: &mut Answers,
    ) -> (derivation: core::result::Result<Derivation, Halt>)
        requires
            old(answers).valid(),
        ensures
            final(answers).valid(),
            final(answers).replies == old(answers).replies,
            run(derivation, final(answers).used) == self@.derives_counter(
                authorization,
                objects@,
                payload@,
                old(answers).replies@,
                old(answers).used as nat,
            ),
    {
        let request = lift(decode::<CounterKdfSessionObjectRequest>(payload))?;
        let length: usize = lift(validate_session_result_header(request.header))?;
        let key: Vec<u8> = lift(self.find_derivation_key(authorization, objects, request.source))?;
        let computation = Computation {
            operation: Operation::CounterKdf(length),
            key,
            second: Vec::new(),
            parameter: Vec::new(),
            data: Vec::new(),
            fields: request.fields,
        };
        assert(computation.second@ =~= Seq::<u8>::empty());
        let value: Vec<u8> = answers.bytes(
            EngineRequest::Compute(computation),
            DeviceError::InvalidData,
        )?;
        Ok(Derivation { header: request.header, value })
    }

    /// Derives a value from volatile and other keys.
    fn derive_volatile(
        &self,
        authorization: SessionAuthorization,
        objects: &SessionObjects,
        operation: SessionObjectCommand,
        payload: &[u8],
        answers: &mut Answers,
    ) -> (derivation: core::result::Result<Derivation, Halt>)
        requires
            old(answers).valid(),
        ensures
            final(answers).valid(),
            final(answers).replies == old(answers).replies,
            run(derivation, final(answers).used) == self@.derives_volatile(
                authorization,
                objects@,
                operation,
                payload@,
                old(answers).replies@,
                old(answers).used as nat,
            ),
    {
        match operation {
            SessionObjectCommand::DeriveEcdh => self.derive_agreement(
                authorization,
                objects,
                payload,
                answers,
            ),
            SessionObjectCommand::ConcatenateKey => lift(concatenate_keys(objects, payload)),
            SessionObjectCommand::ConcatenateData => lift(concatenate_data(objects, payload)),
            SessionObjectCommand::Extract => lift(extract_key(objects, payload)),
            SessionObjectCommand::Sha256 => digest_key(objects, payload, answers),
            SessionObjectCommand::CounterKdf => self.derive_counter(
                authorization,
                objects,
                payload,
                answers,
            ),
            _ => fail(DeviceError::InvalidData),
        }
    }

    /// Executes the command on the volatile objects of a session.
    pub fn session_object_command(
        &self,
        authorization: SessionAuthorization,
        objects: &SessionObjects,
        data: &[u8],
        answers: &mut Answers,
    ) -> (outcome: core::result::Result<Outcome, Halt>)
        requires
            old(answers).valid(),
        ensures
            final(answers).valid(),
            final(answers).replies == old(answers).replies,
            run(outcome, final(answers).used) == self@.handles_volatile(
                authorization,
                objects@,
                data@,
                old(answers).replies@,
                old(answers).used as nat,
            ),
    {
        let request = lift(decode::<SessionObjectRequest>(data))?;
        match request.operation {
            SessionObjectCommand::Read => {
                let value: Vec<u8> = lift(read_session_object(objects, request.payload))?;
                Ok(Outcome { data: value, effect: Effect::Nothing })
            },
            SessionObjectCommand::VerifyCmac => {
                let answer: Vec<u8> = verify_session_object(objects, request.payload, answers)?;
                Ok(Outcome { data: answer, effect: Effect::Nothing })
            },
            SessionObjectCommand::DeleteObject => {
                let request = lift(decode::<HandleRequest>(request.payload))?;
                let _object = lift(find_volatile(objects, request.handle))?;
                let data: Vec<u8> = Vec::new();
                assert(data@ =~= Seq::<u8>::empty());
                Ok(Outcome { data, effect: Effect::Discard(request.handle) })
            },
            SessionObjectCommand::GenerateAsymmetricKey => generate_session_key(
                objects,
                request.payload,
                answers,
            ),
            _ => {
                let derivation = self.derive_volatile(
                    authorization,
                    objects,
                    request.operation,
                    request.payload,
                    answers,
                )?;
                let object = match SessionObject::secret(
                    derivation.header.kind,
                    derivation.header.flags,
                    derivation.value,
                ) {
                    Some(object) => object,
                    None => {
                        return fail(DeviceError::InvalidData);
                    },
                };
                let handle: u64 = objects.free_handle(answers)?;
                Ok(Outcome { data: u64_bytes(handle), effect: Effect::Add(handle, object) })
            },
        }
    }
}

/// Reads a volatile object.
fn read_session_object(objects: &SessionObjects, payload: &[u8]) -> (value: Result<Vec<u8>>)
    ensures
        viewed(value) == read_volatile(objects@, payload@),
{
    let request = decode::<HandleRequest>(payload)?;
    let object = find_volatile(objects, request.handle)?;
    if object.flags & FLAG_READABLE == 0 {
        return Err(DeviceError::InsufficientPermissions);
    }
    match object.secret_value() {
        Some(value) => Ok(copied(value)),
        None => Err(DeviceError::InvalidData),
    }
}

/// Verifies a CMAC under a volatile AES key.
fn verify_session_object(
    objects: &SessionObjects,
    payload: &[u8],
    answers: &mut Answers,
) -> (answer:
    core::result::Result<Vec<u8>, Halt>)
    requires
        old(answers).valid(),
    ensures
        final(answers).valid(),
        final(answers).replies == old(answers).replies,
        run(answer, final(answers).used) == verified_cmac(
            objects@,
            payload@,
            old(answers).replies@,
            old(answers).used as nat,
        ),
{
    let request = lift(decode::<VerifySessionCmacRequest>(payload))?;
    let object = lift(find_volatile(objects, request.handle))?;
    if !matches!(object.kind, SessionObjectKind::Aes) || object.flags & FLAG_VERIFY == 0 {
        return fail(DeviceError::InsufficientPermissions);
    }
    let key: &[u8] = match object.secret_value() {
        Some(key) => key,
        None => {
            return fail(DeviceError::InvalidData);
        },
    };
    if request.signature.len() == 0 || request.signature.len() > 16 {
        return fail(DeviceError::WrongLength);
    }
    let expected: Vec<u8> = answers.sized(
        EngineRequest::keyed(Operation::Cmac, key, request.message),
        16,
        DeviceError::InvalidData,
    )?;
    let start: Vec<u8> = copied_range(&expected, 0, request.signature.len());
    Ok(make_verdict(same_secret(&start, request.signature)))
}

/// Makes a new volatile P-256 key.
fn generate_session_key(
    objects: &SessionObjects,
    payload: &[u8],
    answers: &mut Answers,
) -> (outcome:
    core::result::Result<Outcome, Halt>)
    requires
        old(answers).valid(),
    ensures
        final(answers).valid(),
        final(answers).replies == old(answers).replies,
        run(outcome, final(answers).used) == generated_volatile(
            objects@,
            payload@,
            old(answers).replies@,
            old(answers).used as nat,
        ),
{
    let request = lift(decode::<GenerateSessionAsymmetricKeyRequest>(payload))?;
    lift(validate_session_flags(request.flags))?;
    if request.algorithm != Algorithm::EcP256.to_byte() || request.flags & FLAG_DERIVE == 0 {
        return fail(DeviceError::InvalidData);
    }
    let key = random_secret_key(answers)?;
    let public: Vec<u8> = copied(&key.public);
    let object = match SessionObject::p256_private(request.flags, key) {
        Some(object) => object,
        None => {
            return fail(DeviceError::InvalidData);
        },
    };
    let handle: u64 = objects.free_handle(answers)?;
    Ok(Outcome { data: joined(&u64_bytes(handle), &public), effect: Effect::Add(handle, object) })
}

/// A volatile object is read only where it was made readable, whatever else may
/// be done with it.
pub proof fn reading_needs_its_flag(objects: Map<u64, VolatileModel>, payload: Seq<u8>)
    ensures
        read_volatile(objects, payload) is Ok ==> (decoded::<HandleRequest>(payload) matches Ok(
            request,
        ) && objects.contains_key(request.handle) && objects[request.handle].flags & FLAG_READABLE
            != 0),
{
}

/// Whatever the command adds to a session stands under a fresh handle, and is a
/// secret of at most a kilobyte or a private key that may be derived from.
pub proof fn added_objects_are_bounded(
    device: DeviceModel,
    authorization: SessionAuthorization,
    objects: Map<u64, VolatileModel>,
    data: Seq<u8>,
    replies: Seq<EngineReply>,
    used: nat,
    outcome: OutcomeModel,
    after: nat,
)
    requires
        device.handles_volatile(authorization, objects, data, replies, used) == Ok::<
            (OutcomeModel, nat),
            HaltModel,
        >((outcome, after)),
    ensures
        outcome.effect matches EffectModel::Add(handle, object) ==> handle != 0
            && !objects.contains_key(handle) && objects.len()
            < crate::session_object::MAX_SESSION_OBJECTS && match object.material {
            VolatileMaterial::Secret(value) => 0 < value.len() <= 1024,
            VolatileMaterial::P256Private(key) => object.flags & FLAG_DERIVE != 0,
        },
{
    let request = decoded::<SessionObjectRequest>(data)->Ok_0;
    if request.operation == SessionObjectCommand::GenerateAsymmetricKey {
        let p256 = KeyKind::Ec(EcCurve::P256);
        let (_, made) = key_from(
            replies,
            used,
            RequestModel::keyed(Operation::GenerateKey(p256), Seq::empty(), Seq::empty()),
            p256,
            DeviceError::StorageFailed,
        )->Ok_0;
        crate::session_object::found_handles_are_fresh(objects, replies, made);
    } else if outcome.effect is Add {
        let (_, made) = device.derives_volatile(
            authorization,
            objects,
            request.operation,
            request.payload,
            replies,
            used,
        )->Ok_0;
        crate::session_object::found_handles_are_fresh(objects, replies, made);
    }
}

/// Whatever a session does with its volatile objects, the device's own objects,
/// options and log stay as they are.
pub proof fn volatile_commands_keep_the_device(
    device: DeviceModel,
    authorization: SessionAuthorization,
    objects: Map<u64, VolatileModel>,
    data: Seq<u8>,
    replies: Seq<EngineReply>,
    used: nat,
)
    ensures
        device.handles_volatile(authorization, objects, data, replies, used) matches Ok(
            (outcome, _),
        ) ==> device.applied(outcome.effect) == device && effect_is_valid(outcome.effect),
{
}

} // verus!
