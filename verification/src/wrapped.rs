//! Objects as they travel under a wrap key.
use crate::algorithm::Algorithm;
use crate::bytes::{copied, copied_range, equal, joined, read_u64, u64_at, u64_be};
use crate::capability::CapabilitySet;
use crate::engine::{
    bytes_from, fail, key_from, lift, run, x25519_from, Answers, EngineReply, EngineRequest, Halt,
    HaltModel, Operation, RequestModel, Run,
};
use crate::error::{DeviceError, Result};
use crate::keys::{key_kind, KeyKind};
use crate::object::{
    AuthenticationKeyMaterial, InfoModel, MaterialModel, ObjectInfo, ObjectMaterial, ObjectRecord,
    ObjectType, RecordModel,
};
use crate::outside::{
    cbor_array, cbor_encoded, item_models, leaf_models, read_array, write_array, CborItem, CborLeaf,
    ItemModel, LeafModel,
};
use crate::store::{
    authentication_material, ccm_key_length, ccm_length, otp_key_length, otp_length,
    parse_authentication_key_material, symmetric_key_length, symmetric_length,
};
use crate::usage::{is_x25519, signing_key};
use vstd::prelude::*;

verus! {

/// The kinds of wrapped material.
pub const WRAPPED_MATERIAL_SECRET: u8 = 0;
pub const WRAPPED_MATERIAL_PKCS8: u8 = 1;
pub const WRAPPED_MATERIAL_OPAQUE: u8 = 2;
pub const WRAPPED_MATERIAL_PUBLIC: u8 = 3;
pub const WRAPPED_MATERIAL_AUTHENTICATION_SYMMETRIC: u8 = 4;
pub const WRAPPED_MATERIAL_AUTHENTICATION_ASYMMETRIC: u8 = 5;
pub const WRAPPED_MATERIAL_OTP_AEAD: u8 = 6;

/// The version of the wrapped form.
pub const WRAPPED_OBJECT_VERSION: u8 = 1;

/// What stands before an X25519 secret in its PKCS #8 encoding.
pub open spec fn x25519_prefix() -> Seq<u8> {
    seq![
        0x30u8,
        0x2eu8,
        0x02u8,
        0x01u8,
        0x00u8,
        0x30u8,
        0x05u8,
        0x06u8,
        0x03u8,
        0x2bu8,
        0x65u8,
        0x6eu8,
        0x04u8,
        0x22u8,
        0x04u8,
        0x20u8,
    ]
}

/// The PKCS #8 encoding of an X25519 secret.
pub open spec fn x25519_pkcs8(secret: Seq<u8>) -> core::result::Result<Seq<u8>, DeviceError> {
    if secret.len() == 32 {
        Ok(x25519_prefix() + secret)
    } else {
        Err(DeviceError::InvalidData)
    }
}

/// The X25519 secret in a PKCS #8 encoding.
pub open spec fn x25519_secret(encoded: Seq<u8>) -> core::result::Result<Seq<u8>, DeviceError> {
    if encoded.len() == 48 && encoded.subrange(0, 16) == x25519_prefix() {
        Ok(encoded.subrange(16, 48))
    } else {
        Err(DeviceError::InvalidData)
    }
}

/// What is encoded is what is read.
pub proof fn x25519_pkcs8_round_trip(secret: Seq<u8>, encoded: Seq<u8>)
    ensures
        x25519_pkcs8(secret) matches Ok(written) ==> x25519_secret(written) == Ok::<
            Seq<u8>,
            DeviceError,
        >(secret),
        x25519_secret(encoded) matches Ok(read) ==> x25519_pkcs8(read) == Ok::<
            Seq<u8>,
            DeviceError,
        >(encoded),
{
    if secret.len() == 32 {
        let written = x25519_prefix() + secret;
        assert(written.subrange(0, 16) =~= x25519_prefix());
        assert(written.subrange(16, 48) =~= secret);
    }
    if x25519_secret(encoded) is Ok {
        assert(x25519_prefix() + encoded.subrange(16, 48) =~= encoded);
    }
}

/// Makes what stands before an X25519 secret.
fn make_x25519_prefix() -> (prefix: Vec<u8>)
    ensures
        prefix@ == x25519_prefix(),
{
    let prefix: Vec<u8> = vec![
        0x30,
        0x2e,
        0x02,
        0x01,
        0x00,
        0x30,
        0x05,
        0x06,
        0x03,
        0x2b,
        0x65,
        0x6e,
        0x04,
        0x22,
        0x04,
        0x20,
    ];
    assert(prefix@ =~= x25519_prefix());
    prefix
}

impl RecordModel {
    /// The PKCS #8 encoding of an asymmetric key.
    pub open spec fn pkcs8(self, replies: Seq<EngineReply>, used: nat) -> Run<Seq<u8>> {
        if self.info.known_algorithm() == Some(Algorithm::X25519) {
            match self.material {
                MaterialModel::X25519Key(key) => match x25519_pkcs8(key.private) {
                    Ok(encoded) => Ok((encoded, used)),
                    Err(error) => Err(HaltModel::Error(error, used)),
                },
                _ => Err(HaltModel::Error(DeviceError::InvalidData, used)),
            }
        } else {
            match self.signing() {
                Ok(key) => bytes_from(
                    replies,
                    used,
                    RequestModel::with_key(
                        Operation::ExportPkcs8(key.kind),
                        key,
                        Seq::empty(),
                        Seq::empty(),
                    ),
                    DeviceError::InvalidData,
                ),
                Err(error) => Err(HaltModel::Error(error, used)),
            }
        }
    }

    /// Whether an object's material is what its type and algorithm ask for, as
    /// far as that can be told without the key engine.
    pub open spec fn suits(self, algorithm: Algorithm) -> bool {
        match (self.info.object_type, self.material) {
            (ObjectType::Opaque, MaterialModel::Opaque(_)) => algorithm == Algorithm::OpaqueData
                || algorithm == Algorithm::OpaqueX509Certificate,
            (ObjectType::Template, MaterialModel::Opaque(_)) => algorithm == Algorithm::TemplateSsh,
            (ObjectType::AuthenticationKey, MaterialModel::Symmetric(_)) => true,
            (ObjectType::AuthenticationKey, MaterialModel::Asymmetric(_)) => true,
            (ObjectType::AsymmetricKey, MaterialModel::SigningKey(key)) => algorithm
                != Algorithm::X25519 && (if key.kind is Rsa {
                algorithm.key_length() is Some
            } else {
                algorithm.key_length() == Some(key.private.len() as usize)
            }),
            (ObjectType::AsymmetricKey, MaterialModel::X25519Key(_)) => algorithm
                == Algorithm::X25519,
            (ObjectType::WrapKey, MaterialModel::SigningKey(key)) => algorithm.is_rsa()
                && key.kind is Rsa,
            (ObjectType::WrapKey, MaterialModel::Secret(value)) => ccm_length(algorithm) == Some(
                value.len() as usize,
            ),
            (ObjectType::HmacKey, MaterialModel::Secret(value)) => algorithm.hmac_size() is Some
                && 1 <= value.len() <= 128,
            (ObjectType::OtpAeadKey, MaterialModel::OtpAeadKey { nonce_id, key }) => otp_length(
                algorithm,
            ) == Some(key.len() as usize),
            (ObjectType::SymmetricKey, MaterialModel::Secret(value)) => symmetric_length(algorithm)
                == Some(value.len() as usize),
            (ObjectType::PublicWrapKey, MaterialModel::Public(value)) => algorithm.is_rsa()
                && algorithm.key_length() == Some(value.len() as usize),
            _ => false,
        }
    }

    /// Whether an object can travel: it is consistent, and its material is what
    /// its type and algorithm ask for. The key engine is asked about the point
    /// of an asymmetric authentication key.
    pub open spec fn travels(self, replies: Seq<EngineReply>, used: nat) -> Run<()> {
        if self.validated() is Err {
            Err(HaltModel::Error(self.validated()->Err_0, used))
        } else {
            match self.info.known_algorithm() {
                None => Err(HaltModel::Error(DeviceError::InvalidData, used)),
                Some(algorithm) => if !self.suits(algorithm) {
                    Err(HaltModel::Error(DeviceError::InvalidData, used))
                } else {
                    match self.material {
                        MaterialModel::Symmetric(value) | MaterialModel::Asymmetric(
                            value,
                        ) => match authentication_material(
                            self.info.algorithm,
                            value,
                            replies,
                            used,
                        ) {
                            Err(HaltModel::Error(_, used)) => Err(
                                HaltModel::Error(DeviceError::InvalidData, used),
                            ),
                            Err(halt) => Err(halt),
                            Ok((material, used)) => if material == self.material {
                                Ok(((), used))
                            } else {
                                Err(HaltModel::Error(DeviceError::InvalidData, used))
                            },
                        },
                        _ => Ok(((), used)),
                    }
                },
            }
        }
    }

    /// The material of an object in its wrapped form: a kind and byte strings.
    pub open spec fn wrapped_material(self, replies: Seq<EngineReply>, used: nat) -> Run<
        Seq<LeafModel>,
    > {
        match (self.info.object_type, self.material) {
            (ObjectType::AsymmetricKey, MaterialModel::SigningKey(_))
            | (ObjectType::AsymmetricKey, MaterialModel::X25519Key(_))
            | (ObjectType::WrapKey, MaterialModel::SigningKey(_)) => if self.holds_private_key()
                || self.info.object_type == ObjectType::AsymmetricKey {
                match self.pkcs8(replies, used) {
                    Ok((encoded, used)) => Ok((leaves(WRAPPED_MATERIAL_PKCS8, encoded), used)),
                    Err(halt) => Err(halt),
                }
            } else {
                Err(HaltModel::Error(DeviceError::InvalidData, used))
            },
            (ObjectType::WrapKey, MaterialModel::Secret(value))
            | (ObjectType::HmacKey, MaterialModel::Secret(value))
            | (ObjectType::SymmetricKey, MaterialModel::Secret(value)) => Ok(
                (leaves(WRAPPED_MATERIAL_SECRET, value), used),
            ),
            (ObjectType::Opaque, MaterialModel::Opaque(value))
            | (ObjectType::Template, MaterialModel::Opaque(value)) => Ok(
                (leaves(WRAPPED_MATERIAL_OPAQUE, value), used),
            ),
            (ObjectType::PublicWrapKey, MaterialModel::Public(value)) => Ok(
                (leaves(WRAPPED_MATERIAL_PUBLIC, value), used),
            ),
            (ObjectType::AuthenticationKey, MaterialModel::Symmetric(value)) => Ok(
                (leaves(WRAPPED_MATERIAL_AUTHENTICATION_SYMMETRIC, value), used),
            ),
            (ObjectType::AuthenticationKey, MaterialModel::Asymmetric(value)) => Ok(
                (leaves(WRAPPED_MATERIAL_AUTHENTICATION_ASYMMETRIC, value), used),
            ),
            (ObjectType::OtpAeadKey, MaterialModel::OtpAeadKey { nonce_id, key }) => Ok(
                (
                    seq![
                        LeafModel::Integer(WRAPPED_MATERIAL_OTP_AEAD as u64),
                        LeafModel::Bytes(nonce_id),
                        LeafModel::Bytes(key),
                    ],
                    used,
                ),
            ),
            _ => Err(HaltModel::Error(DeviceError::InvalidData, used)),
        }
    }

    /// The items of an object's wrapped form. Where it came from stays, that it
    /// was imported before does not; length and sequence do not travel.
    pub open spec fn wrapped_items(self, material: Seq<LeafModel>) -> Seq<ItemModel> {
        seq![
            ItemModel::Text("virtual-yubihsm-object"@),
            ItemModel::Integer(WRAPPED_OBJECT_VERSION as u64),
            ItemModel::Integer(self.info.object_type.byte() as u64),
            ItemModel::Integer(self.info.id as u64),
            ItemModel::Integer(self.info.domains as u64),
            ItemModel::Bytes(u64_be(self.info.capabilities.word())),
            ItemModel::Integer(self.info.algorithm as u64),
            ItemModel::Integer((self.info.origin & 0x0f) as u64),
            ItemModel::Bytes(self.info.label),
            ItemModel::Bytes(u64_be(self.info.delegated_capabilities.word())),
            ItemModel::List(material),
        ]
    }

    /// The wrapped form of an object.
    pub open spec fn wrapped(self, replies: Seq<EngineReply>, used: nat) -> Run<Seq<u8>> {
        match self.travels(replies, used) {
            Err(halt) => Err(halt),
            Ok((_, used)) => match self.wrapped_material(replies, used) {
                Err(halt) => Err(halt),
                Ok((material, used)) => match cbor_encoded(self.wrapped_items(material)) {
                    None => Err(HaltModel::Error(DeviceError::StorageFailed, used)),
                    Some(output) => if output.len() > 0xffff {
                        Err(HaltModel::Error(DeviceError::WrongLength, used))
                    } else {
                        Ok((output, used))
                    },
                },
            },
        }
    }
}

/// Wrapped material of one byte string.
pub open spec fn leaves(kind: u8, value: Seq<u8>) -> Seq<LeafModel> {
    seq![LeafModel::Integer(kind as u64), LeafModel::Bytes(value)]
}

/// The key in a PKCS #8 encoding, where it is one of the algorithm.
pub open spec fn material_of_pkcs8(
    algorithm: Algorithm,
    encoded: Seq<u8>,
    replies: Seq<EngineReply>,
    used: nat,
) -> Run<MaterialModel> {
    if algorithm == Algorithm::X25519 {
        match x25519_secret(encoded) {
            Err(error) => Err(HaltModel::Error(error, used)),
            Ok(secret) => match x25519_from(
                replies,
                used,
                RequestModel::keyed(Operation::ImportX25519, Seq::empty(), secret),
                DeviceError::InvalidData,
            ) {
                Ok((key, used)) => Ok((MaterialModel::X25519Key(key), used)),
                Err(halt) => Err(halt),
            },
        }
    } else {
        match KeyKind::named(algorithm) {
            None => Err(HaltModel::Error(DeviceError::InvalidData, used)),
            Some(kind) => match key_from(
                replies,
                used,
                RequestModel::keyed(Operation::ImportPkcs8(kind), Seq::empty(), encoded),
                kind,
                DeviceError::InvalidData,
            ) {
                Err(halt) => Err(halt),
                Ok((key, used)) => if algorithm.key_length() != Some(
                    (if kind is Rsa {
                        key.public.len()
                    } else {
                        key.private.len()
                    }) as usize,
                ) {
                    Err(HaltModel::Error(DeviceError::InvalidData, used))
                } else {
                    Ok((MaterialModel::SigningKey(key), used))
                },
            },
        }
    }
}

/// Whether wrapped material of a kind can be that of an object.
pub open spec fn kind_suits(kind: u64, object_type: ObjectType, algorithm: Algorithm) -> bool {
    if kind == WRAPPED_MATERIAL_SECRET {
        (object_type == ObjectType::WrapKey && !algorithm.is_rsa()) || object_type
            == ObjectType::HmacKey || object_type == ObjectType::SymmetricKey
    } else if kind == WRAPPED_MATERIAL_PKCS8 {
        object_type == ObjectType::AsymmetricKey || (object_type == ObjectType::WrapKey
            && algorithm.is_rsa())
    } else if kind == WRAPPED_MATERIAL_OPAQUE {
        object_type == ObjectType::Opaque || object_type == ObjectType::Template
    } else if kind == WRAPPED_MATERIAL_PUBLIC {
        object_type == ObjectType::PublicWrapKey
    } else if kind == WRAPPED_MATERIAL_AUTHENTICATION_SYMMETRIC || kind
        == WRAPPED_MATERIAL_AUTHENTICATION_ASYMMETRIC {
        object_type == ObjectType::AuthenticationKey
    } else {
        kind == WRAPPED_MATERIAL_OTP_AEAD && object_type == ObjectType::OtpAeadKey
    }
}

/// The byte strings of wrapped material, where it has the right number of them:
/// two for an OTP key, one for the rest.
pub open spec fn material_parts(
    object_type: ObjectType,
    algorithm: Algorithm,
    material: Seq<LeafModel>,
) -> Option<(u8, Seq<u8>, Seq<u8>)> {
    if material.len() < 2 || !(material[0] is Integer) || !(material[1] is Bytes) || !kind_suits(
        material[0]->Integer_0,
        object_type,
        algorithm,
    ) {
        None
    } else {
        let kind = material[0]->Integer_0 as u8;
        if kind == WRAPPED_MATERIAL_OTP_AEAD {
            if material.len() == 3 && material[2] is Bytes && material[1]->Bytes_0.len() == 4 {
                Some((kind, material[1]->Bytes_0, material[2]->Bytes_0))
            } else {
                None
            }
        } else if material.len() == 2 {
            Some((kind, material[1]->Bytes_0, Seq::empty()))
        } else {
            None
        }
    }
}

/// The material in its wrapped form. A private key is read before what may
/// follow it is refused.
pub open spec fn unwrapped_material(
    object_type: ObjectType,
    algorithm: Algorithm,
    material: Seq<LeafModel>,
    replies: Seq<EngineReply>,
    used: nat,
) -> Run<MaterialModel> {
    if material.len() >= 2 && material[0] == LeafModel::Integer(WRAPPED_MATERIAL_PKCS8 as u64)
        && material[1] is Bytes && kind_suits(
        WRAPPED_MATERIAL_PKCS8 as u64,
        object_type,
        algorithm,
    ) {
        match material_of_pkcs8(algorithm, material[1]->Bytes_0, replies, used) {
            Err(halt) => Err(halt),
            Ok((read, used)) => if material.len() == 2 {
                Ok((read, used))
            } else {
                Err(HaltModel::Error(DeviceError::InvalidData, used))
            },
        }
    } else {
        match material_parts(object_type, algorithm, material) {
            None => Err(HaltModel::Error(DeviceError::InvalidData, used)),
            Some((kind, first, second)) => Ok(
                (
                    if kind == WRAPPED_MATERIAL_SECRET {
                        MaterialModel::Secret(first)
                    } else if kind == WRAPPED_MATERIAL_OPAQUE {
                        MaterialModel::Opaque(first)
                    } else if kind == WRAPPED_MATERIAL_PUBLIC {
                        MaterialModel::Public(first)
                    } else if kind == WRAPPED_MATERIAL_AUTHENTICATION_SYMMETRIC {
                        MaterialModel::Symmetric(first)
                    } else if kind == WRAPPED_MATERIAL_AUTHENTICATION_ASYMMETRIC {
                        MaterialModel::Asymmetric(first)
                    } else {
                        MaterialModel::OtpAeadKey { nonce_id: first, key: second }
                    },
                    used,
                ),
            ),
        }
    }
}

/// The information in the items of a wrapped form: eleven of them, the schema
/// and the version first, every number within its range.
pub open spec fn unwrapped_info(items: Seq<ItemModel>) -> Option<InfoModel> {
    if items.len() != 11 || items[0] != ItemModel::Text("virtual-yubihsm-object"@) || items[1]
        != ItemModel::Integer(WRAPPED_OBJECT_VERSION as u64) {
        None
    } else {
        match (items[2], items[3], items[4], items[5], items[6]) {
            (
                ItemModel::Integer(object_type),
                ItemModel::Integer(id),
                ItemModel::Integer(domains),
                ItemModel::Bytes(capabilities),
                ItemModel::Integer(algorithm),
            ) => match (items[7], items[8], items[9]) {
                (
                    ItemModel::Integer(origin),
                    ItemModel::Bytes(label),
                    ItemModel::Bytes(delegated),
                ) => if object_type > 0xff || ObjectType::of_byte(object_type as u8) is None || id
                    > 0xffff || domains > 0xffff || capabilities.len() != 8 || algorithm > 0xff
                    || Algorithm::of_byte(algorithm as u8) is None || origin > 0x0f
                    || delegated.len() != 8 {
                    None
                } else {
                    Some(
                        InfoModel {
                            capabilities: CapabilitySet::of_word(u64_at(capabilities, 0)),
                            id: id as u16,
                            length: 0,
                            domains: domains as u16,
                            object_type: ObjectType::of_byte(object_type as u8)->0,
                            algorithm: algorithm as u8,
                            sequence: 0,
                            origin: origin as u8,
                            label,
                            delegated_capabilities: CapabilitySet::of_word(u64_at(delegated, 0)),
                        },
                    )
                },
                _ => None,
            },
            _ => None,
        }
    }
}

/// The object in its wrapped form. Only the one form that the object itself has
/// is accepted.
pub open spec fn unwrapped(data: Seq<u8>, replies: Seq<EngineReply>, used: nat) -> Run<
    RecordModel,
> {
    if data.len() > 0xffff {
        Err(HaltModel::Error(DeviceError::WrongLength, used))
    } else {
        match cbor_array(data) {
            None => Err(HaltModel::Error(DeviceError::InvalidData, used)),
            Some((items, left)) => if left != 0 {
                Err(HaltModel::Error(DeviceError::InvalidData, used))
            } else {
                match unwrapped_info(items) {
                    None => Err(HaltModel::Error(DeviceError::InvalidData, used)),
                    Some(info) => match items[10] {
                        ItemModel::List(leaves) => match unwrapped_material(
                            info.object_type,
                            Algorithm::of_byte(info.algorithm)->0,
                            leaves,
                            replies,
                            used,
                        ) {
                            Err(halt) => Err(halt),
                            Ok((material, used)) => confirmed(
                                RecordModel { info, material },
                                data,
                                replies,
                                used,
                            ),
                        },
                        _ => Err(HaltModel::Error(DeviceError::InvalidData, used)),
                    },
                }
            },
        }
    }
}

/// The object with the length it is to report, where it is consistent and its
/// wrapped form is the given one.
pub open spec fn confirmed(
    record: RecordModel,
    data: Seq<u8>,
    replies: Seq<EngineReply>,
    used: nat,
) -> Run<RecordModel> {
    match record.normalized() {
        Err(error) => Err(HaltModel::Error(error, used)),
        Ok(record) => if record.validated() is Err {
            Err(HaltModel::Error(record.validated()->Err_0, used))
        } else {
            match record.wrapped(replies, used) {
                Err(halt) => Err(halt),
                Ok((encoded, used)) => if encoded == data {
                    Ok((record, used))
                } else {
                    Err(HaltModel::Error(DeviceError::InvalidData, used))
                },
            }
        },
    }
}

/// Encodes an asymmetric key as PKCS #8.
pub fn asymmetric_pkcs8(object: &ObjectRecord, answers: &mut Answers) -> (encoded:
    core::result::Result<Vec<u8>, Halt>)
    requires
        old(answers).valid(),
    ensures
        final(answers).valid(),
        final(answers).replies == old(answers).replies,
        run(encoded, final(answers).used) == object@.pkcs8(
            old(answers).replies@,
            old(answers).used as nat,
        ),
{
    if is_x25519(object) {
        return match &object.material {
            ObjectMaterial::X25519Key(key) => {
                if key.private.len() != 32 {
                    return fail(DeviceError::InvalidData);
                }
                Ok(joined(&make_x25519_prefix(), &key.private))
            },
            _ => fail(DeviceError::InvalidData),
        };
    }
    let none: Vec<u8> = Vec::new();
    assert(none@ =~= Seq::<u8>::empty());
    let key = lift(signing_key(object))?;
    answers.bytes(
        EngineRequest::with_key(Operation::ExportPkcs8(key.kind), key, &none, &none),
        DeviceError::InvalidData,
    )
}

/// Reads the key in a PKCS #8 encoding.
pub fn asymmetric_material_from_pkcs8(
    algorithm: Algorithm,
    encoded: &[u8],
    answers: &mut Answers,
) -> (material: core::result::Result<ObjectMaterial, Halt>)
    requires
        old(answers).valid(),
    ensures
        final(answers).valid(),
        final(answers).replies == old(answers).replies,
        run(material, final(answers).used) == material_of_pkcs8(
            algorithm,
            encoded@,
            old(answers).replies@,
            old(answers).used as nat,
        ),
{
    let none: Vec<u8> = Vec::new();
    assert(none@ =~= Seq::<u8>::empty());
    if matches!(algorithm, Algorithm::X25519) {
        if encoded.len() != 48 || !equal(&copied_range(encoded, 0, 16), &make_x25519_prefix()) {
            return fail(DeviceError::InvalidData);
        }
        let key = answers.x25519(
            EngineRequest::keyed(Operation::ImportX25519, &none, &copied_range(encoded, 16, 48)),
            DeviceError::InvalidData,
        )?;
        return Ok(ObjectMaterial::X25519Key(key));
    }
    let kind = lift(key_kind(algorithm))?;
    let key = answers.key(
        EngineRequest::keyed(Operation::ImportPkcs8(kind), &none, encoded),
        kind,
        DeviceError::InvalidData,
    )?;
    let length: usize = if kind.is_rsa() {
        key.public.len()
    } else {
        key.private.len()
    };
    match algorithm.asymmetric_key_length() {
        Some(expected) => {
            if length != expected {
                return fail(DeviceError::InvalidData);
            }
        },
        None => {
            return fail(DeviceError::InvalidData);
        },
    }
    Ok(ObjectMaterial::SigningKey(key))
}

/// Tells whether an object's material is what its type and algorithm ask for.
fn material_suits(object: &ObjectRecord, algorithm: Algorithm) -> (suits: bool)
    ensures
        suits == object@.suits(algorithm),
{
    match (object.info.object_type, &object.material) {
        (ObjectType::Opaque, ObjectMaterial::Opaque(_)) => matches!(
            algorithm,
            Algorithm::OpaqueData | Algorithm::OpaqueX509Certificate
        ),
        (ObjectType::Template, ObjectMaterial::Opaque(_)) => matches!(
            algorithm,
            Algorithm::TemplateSsh
        ),
        (ObjectType::AuthenticationKey, ObjectMaterial::Authentication(_)) => true,
        (ObjectType::AsymmetricKey, ObjectMaterial::SigningKey(key)) => {
            !matches!(algorithm, Algorithm::X25519) && match algorithm.asymmetric_key_length() {
                Some(length) => key.kind.is_rsa() || length == key.private.len(),
                None => false,
            }
        },
        (ObjectType::AsymmetricKey, ObjectMaterial::X25519Key(_)) => matches!(
            algorithm,
            Algorithm::X25519
        ),
        (ObjectType::WrapKey, ObjectMaterial::SigningKey(key)) => algorithm.is_rsa_key()
            && key.kind.is_rsa(),
        (ObjectType::WrapKey, ObjectMaterial::Secret(value)) => match ccm_key_length(algorithm) {
            Some(length) => length == value.len(),
            None => false,
        },
        (ObjectType::HmacKey, ObjectMaterial::Secret(value)) => {
            algorithm.hmac_object_length().is_some() && value.len() >= 1 && value.len() <= 128
        },
        (ObjectType::OtpAeadKey, ObjectMaterial::OtpAeadKey { nonce_id: _, key }) => {
            match otp_key_length(algorithm) {
                Some(length) => length == key.len(),
                None => false,
            }
        },
        (ObjectType::SymmetricKey, ObjectMaterial::Secret(value)) => {
            match symmetric_key_length(algorithm) {
                Some(length) => length == value.len(),
                None => false,
            }
        },
        (ObjectType::PublicWrapKey, ObjectMaterial::Public(value)) => {
            algorithm.is_rsa_key() && match algorithm.asymmetric_key_length() {
                Some(length) => length == value.len(),
                None => false,
            }
        },
        _ => false,
    }
}

/// Checks that an object can travel.
pub fn validate_wrapped_object(object: &ObjectRecord, answers: &mut Answers) -> (valid:
    core::result::Result<(), Halt>)
    requires
        old(answers).valid(),
    ensures
        final(answers).valid(),
        final(answers).replies == old(answers).replies,
        run(valid, final(answers).used) == object@.travels(
            old(answers).replies@,
            old(answers).used as nat,
        ),
{
    lift(object.validate())?;
    let algorithm = match Algorithm::from_byte(object.info.algorithm) {
        Some(algorithm) => algorithm,
        None => {
            return fail(DeviceError::InvalidData);
        },
    };
    if !material_suits(object, algorithm) {
        return fail(DeviceError::InvalidData);
    }
    if let ObjectMaterial::Authentication(authentication) = &object.material {
        let (value, symmetric): (&Vec<u8>, bool) = match authentication {
            AuthenticationKeyMaterial::Symmetric(value) => (value, true),
            AuthenticationKeyMaterial::Asymmetric(value) => (value, false),
        };
        return match parse_authentication_key_material(object.info.algorithm, value, answers) {
            Ok(ObjectMaterial::Authentication(AuthenticationKeyMaterial::Symmetric(_))) => {
                if symmetric {
                    Ok(())
                } else {
                    fail(DeviceError::InvalidData)
                }
            },
            Ok(ObjectMaterial::Authentication(AuthenticationKeyMaterial::Asymmetric(_))) => {
                if symmetric {
                    fail(DeviceError::InvalidData)
                } else {
                    Ok(())
                }
            },
            Ok(_) => fail(DeviceError::InvalidData),
            Err(Halt::Error(_)) => fail(DeviceError::InvalidData),
            Err(Halt::Ask(request)) => Err(Halt::Ask(request)),
        };
    }
    Ok(())
}

/// Wrapped material that is being written.
pub struct WrappedMaterial {
    pub leaves: Vec<CborLeaf>,
}

impl View for WrappedMaterial {
    type V = Seq<LeafModel>;

    open spec fn view(&self) -> Seq<LeafModel> {
        leaf_models(self.leaves@)
    }
}

/// Makes wrapped material of one byte string.
fn make_leaves(kind: u8, value: Vec<u8>) -> (material: WrappedMaterial)
    ensures
        material@ == leaves(kind, value@),
{
    let leaves: Vec<CborLeaf> = vec![CborLeaf::Integer(kind as u64), CborLeaf::Bytes(value)];
    let material = WrappedMaterial { leaves };
    assert(material@ =~= self::leaves(kind, value@));
    material
}

/// Writes the material of an object in its wrapped form.
fn wrapped_material(object: &ObjectRecord, answers: &mut Answers) -> (material:
    core::result::Result<WrappedMaterial, Halt>)
    requires
        old(answers).valid(),
    ensures
        final(answers).valid(),
        final(answers).replies == old(answers).replies,
        run(material, final(answers).used) == object@.wrapped_material(
            old(answers).replies@,
            old(answers).used as nat,
        ),
{
    match (object.info.object_type, &object.material) {
        (ObjectType::AsymmetricKey, ObjectMaterial::SigningKey(_))
        | (ObjectType::AsymmetricKey, ObjectMaterial::X25519Key(_)) => {
            let encoded: Vec<u8> = asymmetric_pkcs8(object, answers)?;
            Ok(make_leaves(WRAPPED_MATERIAL_PKCS8, encoded))
        },
        (ObjectType::WrapKey, ObjectMaterial::SigningKey(_)) => {
            let rsa = match Algorithm::from_byte(object.info.algorithm) {
                Some(algorithm) => algorithm.is_rsa_key(),
                None => false,
            };
            if !rsa {
                return fail(DeviceError::InvalidData);
            }
            let encoded: Vec<u8> = asymmetric_pkcs8(object, answers)?;
            Ok(make_leaves(WRAPPED_MATERIAL_PKCS8, encoded))
        },
        (ObjectType::WrapKey, ObjectMaterial::Secret(value))
        | (ObjectType::HmacKey, ObjectMaterial::Secret(value))
        | (ObjectType::SymmetricKey, ObjectMaterial::Secret(value)) => Ok(
            make_leaves(WRAPPED_MATERIAL_SECRET, copied(value)),
        ),
        (ObjectType::Opaque, ObjectMaterial::Opaque(value))
        | (ObjectType::Template, ObjectMaterial::Opaque(value)) => Ok(
            make_leaves(WRAPPED_MATERIAL_OPAQUE, copied(value)),
        ),
        (ObjectType::PublicWrapKey, ObjectMaterial::Public(value)) => Ok(
            make_leaves(WRAPPED_MATERIAL_PUBLIC, copied(value)),
        ),
        (
            ObjectType::AuthenticationKey,
            ObjectMaterial::Authentication(AuthenticationKeyMaterial::Symmetric(value)),
        ) => Ok(make_leaves(WRAPPED_MATERIAL_AUTHENTICATION_SYMMETRIC, copied(value))),
        (
            ObjectType::AuthenticationKey,
            ObjectMaterial::Authentication(AuthenticationKeyMaterial::Asymmetric(value)),
        ) => Ok(make_leaves(WRAPPED_MATERIAL_AUTHENTICATION_ASYMMETRIC, copied(value))),
        (ObjectType::OtpAeadKey, ObjectMaterial::OtpAeadKey { nonce_id, key }) => {
            let leaves: Vec<CborLeaf> = vec![
                CborLeaf::Integer(WRAPPED_MATERIAL_OTP_AEAD as u64),
                CborLeaf::Bytes(copied(nonce_id)),
                CborLeaf::Bytes(copied(key)),
            ];
            let material = WrappedMaterial { leaves };
            assert(material@ =~= seq![
                LeafModel::Integer(WRAPPED_MATERIAL_OTP_AEAD as u64),
                LeafModel::Bytes(nonce_id@),
                LeafModel::Bytes(key@),
            ]);
            Ok(material)
        },
        _ => fail(DeviceError::InvalidData),
    }
}

/// Writes the wrapped form of an object.
pub fn encode_wrapped_object(object: &ObjectRecord, answers: &mut Answers) -> (encoded:
    core::result::Result<Vec<u8>, Halt>)
    requires
        old(answers).valid(),
    ensures
        final(answers).valid(),
        final(answers).replies == old(answers).replies,
        run(encoded, final(answers).used) == object@.wrapped(
            old(answers).replies@,
            old(answers).used as nat,
        ),
        encoded matches Ok(encoded) ==> object@.reads_back(
            encoded@,
            old(answers).replies@,
            old(answers).used as nat,
        ),
{
    validate_wrapped_object(object, answers)?;
    let material = wrapped_material(object, answers)?;
    let ghost written = material@;
    let items: Vec<CborItem> = vec![
        CborItem::Text("virtual-yubihsm-object".to_string()),
        CborItem::Integer(WRAPPED_OBJECT_VERSION as u64),
        CborItem::Integer(object.info.object_type.to_byte() as u64),
        CborItem::Integer(object.info.id as u64),
        CborItem::Integer(object.info.domains as u64),
        CborItem::Bytes(copied(&object.info.capabilities.to_bytes())),
        CborItem::Integer(object.info.algorithm as u64),
        CborItem::Integer((object.info.origin & 0x0f) as u64),
        CborItem::Bytes(copied(&object.info.label)),
        CborItem::Bytes(copied(&object.info.delegated_capabilities.to_bytes())),
        CborItem::List(material.leaves),
    ];
    assert(item_models(items@) =~= object@.wrapped_items(written));
    match write_array(items) {
        Some(output) => {
            if output.len() > 0xffff {
                return fail(DeviceError::WrongLength);
            }
            Ok(output)
        },
        None => fail(DeviceError::StorageFailed),
    }
}

impl RecordModel {
    /// Whether bytes read back as the items of this object's wrapped form, and
    /// bytes that follow them are left, as far as the object has such a form.
    pub open spec fn reads_back(
        self,
        encoded: Seq<u8>,
        replies: Seq<EngineReply>,
        used: nat,
    ) -> bool {
        match self.travels(replies, used) {
            Ok((_, used)) => match self.wrapped_material(replies, used) {
                Ok((material, _)) => {
                    &&& cbor_array(encoded) == Some((self.wrapped_items(material), 0nat))
                    &&& forall|rest: Seq<u8>| #[trigger]
                        cbor_array(encoded + rest) == Some(
                            (self.wrapped_items(material), rest.len()),
                        )
                },
                Err(_) => true,
            },
            Err(_) => true,
        }
    }

    /// The object as it arrives: not yet numbered, and not yet marked as
    /// imported.
    pub open spec fn arriving(self) -> RecordModel {
        RecordModel {
            info: InfoModel { sequence: 0, origin: self.info.origin & 0x0f, ..self.info },
            ..self
        }
    }
}

/// Reads the material of an object out of its wrapped form.
fn decode_wrapped_material(
    object_type: ObjectType,
    algorithm: Algorithm,
    leaves: &Vec<CborLeaf>,
    answers: &mut Answers,
) -> (material: core::result::Result<ObjectMaterial, Halt>)
    requires
        old(answers).valid(),
    ensures
        final(answers).valid(),
        final(answers).replies == old(answers).replies,
        run(material, final(answers).used) == unwrapped_material(
            object_type,
            algorithm,
            leaf_models(leaves@),
            old(answers).replies@,
            old(answers).used as nat,
        ),
{
    let ghost models = leaf_models(leaves@);
    if leaves.len() < 2 {
        return fail(DeviceError::InvalidData);
    }
    assert(models[0] == leaves@[0]@ && models[1] == leaves@[1]@);
    match (&leaves[0], &leaves[1]) {
        (CborLeaf::Integer(kind), CborLeaf::Bytes(first)) => {
            if !kind_is_suitable(*kind, object_type, algorithm) {
                return fail(DeviceError::InvalidData);
            }
            let kind: u8 = *kind as u8;
            if kind == WRAPPED_MATERIAL_PKCS8 {
                let material = asymmetric_material_from_pkcs8(algorithm, first, answers)?;
                if leaves.len() != 2 {
                    return fail(DeviceError::InvalidData);
                }
                return Ok(material);
            }
            if kind == WRAPPED_MATERIAL_OTP_AEAD {
                if leaves.len() != 3 || first.len() != 4 {
                    return fail(DeviceError::InvalidData);
                }
                assert(models[2] == leaves@[2]@);
                return match &leaves[2] {
                    CborLeaf::Bytes(key) => {
                        let nonce_id: [u8; 4] = [first[0], first[1], first[2], first[3]];
                        assert(nonce_id@ =~= first@);
                        Ok(ObjectMaterial::OtpAeadKey { nonce_id, key: copied(key) })
                    },
                    _ => fail(DeviceError::InvalidData),
                };
            }
            if leaves.len() != 2 {
                return fail(DeviceError::InvalidData);
            }
            let value: Vec<u8> = copied(first);
            Ok(
                if kind == WRAPPED_MATERIAL_SECRET {
                    ObjectMaterial::Secret(value)
                } else if kind == WRAPPED_MATERIAL_OPAQUE {
                    ObjectMaterial::Opaque(value)
                } else if kind == WRAPPED_MATERIAL_PUBLIC {
                    ObjectMaterial::Public(value)
                } else if kind == WRAPPED_MATERIAL_AUTHENTICATION_SYMMETRIC {
                    ObjectMaterial::Authentication(AuthenticationKeyMaterial::Symmetric(value))
                } else {
                    ObjectMaterial::Authentication(AuthenticationKeyMaterial::Asymmetric(value))
                },
            )
        },
        _ => fail(DeviceError::InvalidData),
    }
}

/// Tells whether wrapped material of a kind can be that of an object.
fn kind_is_suitable(kind: u64, object_type: ObjectType, algorithm: Algorithm) -> (suitable: bool)
    ensures
        suitable == kind_suits(kind, object_type, algorithm),
        suitable ==> kind <= 6,
{
    if kind == WRAPPED_MATERIAL_SECRET as u64 {
        (matches!(object_type, ObjectType::WrapKey) && !algorithm.is_rsa_key()) || matches!(
            object_type,
            ObjectType::HmacKey | ObjectType::SymmetricKey
        )
    } else if kind == WRAPPED_MATERIAL_PKCS8 as u64 {
        matches!(object_type, ObjectType::AsymmetricKey) || (matches!(
            object_type,
            ObjectType::WrapKey
        ) && algorithm.is_rsa_key())
    } else if kind == WRAPPED_MATERIAL_OPAQUE as u64 {
        matches!(object_type, ObjectType::Opaque | ObjectType::Template)
    } else if kind == WRAPPED_MATERIAL_PUBLIC as u64 {
        matches!(object_type, ObjectType::PublicWrapKey)
    } else if kind == WRAPPED_MATERIAL_AUTHENTICATION_SYMMETRIC as u64 || kind
        == WRAPPED_MATERIAL_AUTHENTICATION_ASYMMETRIC as u64 {
        matches!(object_type, ObjectType::AuthenticationKey)
    } else {
        kind == WRAPPED_MATERIAL_OTP_AEAD as u64 && matches!(object_type, ObjectType::OtpAeadKey)
    }
}

/// What information that may be missing says.
pub open spec fn info_model(info: Option<ObjectInfo>) -> Option<InfoModel> {
    match info {
        Some(info) => Some(info@),
        None => None,
    }
}

/// Reads the information out of the items of a wrapped form.
fn decode_wrapped_info(items: &Vec<CborItem>) -> (info: Option<ObjectInfo>)
    ensures
        info_model(info) == unwrapped_info(item_models(items@)),
{
    let ghost models = item_models(items@);
    if items.len() != 11 {
        return None;
    }
    assert(forall|i: int| 0 <= i < 11 ==> models[i] == #[trigger] items@[i]@);
    match &items[0] {
        CborItem::Text(schema) => {
            let expected: String = "virtual-yubihsm-object".to_string();
            if !(*schema == expected) {
                return None;
            }
        },
        _ => {
            return None;
        },
    }
    match &items[1] {
        CborItem::Integer(version) => {
            if *version != WRAPPED_OBJECT_VERSION as u64 {
                return None;
            }
        },
        _ => {
            return None;
        },
    }
    match (&items[2], &items[3], &items[4], &items[5], &items[6]) {
        (
            CborItem::Integer(object_type),
            CborItem::Integer(id),
            CborItem::Integer(domains),
            CborItem::Bytes(capabilities),
            CborItem::Integer(algorithm),
        ) => match (&items[7], &items[8], &items[9]) {
            (CborItem::Integer(origin), CborItem::Bytes(label), CborItem::Bytes(delegated)) => {
                if *object_type > 0xff || *id > 0xffff || *domains > 0xffff || capabilities.len()
                    != 8 || *algorithm > 0xff || *origin > 0x0f || delegated.len() != 8 {
                    return None;
                }
                if Algorithm::from_byte(*algorithm as u8).is_none() {
                    return None;
                }
                match ObjectType::from_byte(*object_type as u8) {
                    Some(object_type) => Some(
                        ObjectInfo {
                            capabilities: CapabilitySet::from_bits(read_u64(capabilities, 0)),
                            id: *id as u16,
                            length: 0,
                            domains: *domains as u16,
                            object_type,
                            algorithm: *algorithm as u8,
                            sequence: 0,
                            origin: *origin as u8,
                            label: copied(label),
                            delegated_capabilities: CapabilitySet::from_bits(
                                read_u64(delegated, 0),
                            ),
                        },
                    ),
                    None => None,
                }
            },
            _ => None,
        },
        _ => None,
    }
}

/// Reads an object out of its wrapped form.
pub fn decode_wrapped_object(data: &[u8], answers: &mut Answers) -> (object: core::result::Result<
    ObjectRecord,
    Halt,
>)
    requires
        old(answers).valid(),
    ensures
        final(answers).valid(),
        final(answers).replies == old(answers).replies,
        run(object, final(answers).used) == unwrapped(
            data@,
            old(answers).replies@,
            old(answers).used as nat,
        ),
{
    if data.len() > 0xffff {
        return fail(DeviceError::WrongLength);
    }
    let (items, left): (Vec<CborItem>, usize) = match read_array(data) {
        Some(read) => read,
        None => {
            return fail(DeviceError::InvalidData);
        },
    };
    if left != 0 {
        return fail(DeviceError::InvalidData);
    }
    let info = match decode_wrapped_info(&items) {
        Some(info) => info,
        None => {
            return fail(DeviceError::InvalidData);
        },
    };
    let algorithm = match Algorithm::from_byte(info.algorithm) {
        Some(algorithm) => algorithm,
        None => {
            return fail(DeviceError::InvalidData);
        },
    };
    assert(item_models(items@)[10] == items@[10]@);
    let material = match &items[10] {
        CborItem::List(leaves) => decode_wrapped_material(
            info.object_type,
            algorithm,
            leaves,
            answers,
        )?,
        _ => {
            return fail(DeviceError::InvalidData);
        },
    };
    let mut record = ObjectRecord { info, material };
    lift(record.normalize_info_length())?;
    lift(record.validate())?;
    let encoded: Vec<u8> = encode_wrapped_object(&record, answers)?;
    if !equal(&encoded, data) {
        return fail(DeviceError::InvalidData);
    }
    Ok(record)
}

/// The information in the items of an object's wrapped form is the object's.
proof fn items_hold_the_information(record: RecordModel, material: Seq<LeafModel>)
    requires
        record.info.known_algorithm() is Some,
    ensures
        unwrapped_info(record.wrapped_items(material)) == Some(
            InfoModel { length: 0, ..record.arriving().info },
        ),
        record.arriving().wrapped_items(material) == record.wrapped_items(material),
{
    let info = record.info;
    let origin = info.origin;
    crate::capability::capability_bytes_round_trip(info.capabilities, Seq::empty());
    crate::capability::capability_bytes_round_trip(info.delegated_capabilities, Seq::empty());
    crate::object::object_type_byte_round_trip(info.object_type, 0);
    assert(origin & 0x0f <= 0x0f) by (bit_vector);
    assert(origin & 0x0f & 0x0f == origin & 0x0f) by (bit_vector);
}

impl RecordModel {
    /// How far answers go with which the key engine reads this object's material,
    /// out of the form that it was wrapped in, as it was, and writes it the same way
    /// again; nothing where they do not. The engine has a say only for private keys
    /// and for the point of an authentication key.
    pub open spec fn returned(
        self,
        replies: Seq<EngineReply>,
        used: nat,
        again: Seq<EngineReply>,
        from: nat,
    ) -> Option<nat> {
        let written = self.wrapped_material(replies, self.travels(replies, used)->Ok_0.1);
        let read = unwrapped_material(
            self.info.object_type,
            self.info.known_algorithm()->0,
            written->Ok_0.0,
            again,
            from,
        );
        let checked = self.arriving().travels(again, read->Ok_0.1);
        let rewritten = self.arriving().wrapped_material(again, checked->Ok_0.1);
        if self.travels(replies, used) is Ok && written is Ok && read is Ok && read->Ok_0.0
            == self.material && checked is Ok && rewritten is Ok && rewritten->Ok_0.0
            == written->Ok_0.0 {
            Some(rewritten->Ok_0.1)
        } else {
            None
        }
    }

    /// Whether the key engine has no say in the material: it is neither a private
    /// key nor a point. Of the nonce of an OTP AEAD key, the four bytes that it has.
    pub open spec fn is_plain(self) -> bool {
        &&& !(self.material is SigningKey)
        &&& !(self.material is X25519Key)
        &&& !(self.material is Asymmetric)
        &&& self.material matches MaterialModel::OtpAeadKey { nonce_id, .. } ==> nonce_id.len()
            == 4
    }
}

/// What was wrapped is unwrapped as the same object: everything but its sequence
/// and the mark of an earlier import. It is so wherever the key engine reads the
/// key that it wrote.
pub proof fn wrapped_objects_are_unwrapped(
    record: RecordModel,
    replies: Seq<EngineReply>,
    used: nat,
    again: Seq<EngineReply>,
    from: nat,
)
    requires
        record.wrapped(replies, used) is Ok,
        record.reads_back(record.wrapped(replies, used)->Ok_0.0, replies, used),
        record.returned(replies, used, again, from) is Some,
    ensures
        unwrapped(record.wrapped(replies, used)->Ok_0.0, again, from) == Ok::<
            (RecordModel, nat),
            HaltModel,
        >((record.arriving(), record.returned(replies, used, again, from)->0)),
{
    let material = record.wrapped_material(replies, record.travels(replies, used)->Ok_0.1)->Ok_0.0;
    items_hold_the_information(record, material);
    let bare = RecordModel {
        info: InfoModel { length: 0, ..record.arriving().info },
        material: record.material,
    };
    assert(bare.expected_length() == record.expected_length());
    assert(bare.normalized() == Ok::<RecordModel, DeviceError>(record.arriving()));
}

/// An object without a private key or a point arrives as it was sent, whatever
/// the key engine has to say: no answer is used.
pub proof fn plain_objects_arrive_as_they_were_sent(
    record: RecordModel,
    replies: Seq<EngineReply>,
    used: nat,
    again: Seq<EngineReply>,
    from: nat,
)
    requires
        record.is_plain(),
        record.wrapped(replies, used) is Ok,
        record.reads_back(record.wrapped(replies, used)->Ok_0.0, replies, used),
    ensures
        record.returned(replies, used, again, from) == Some(from),
        unwrapped(record.wrapped(replies, used)->Ok_0.0, again, from) == Ok::<
            (RecordModel, nat),
            HaltModel,
        >((record.arriving(), from)),
{
    assert(record.returned(replies, used, again, from) == Some(from));
    wrapped_objects_are_unwrapped(record, replies, used, again, from);
}

/// Only the one wrapped form of an object is accepted: what is unwrapped is
/// consistent, and its own wrapped form is what was read.
pub proof fn unwrapped_objects_have_one_form(data: Seq<u8>, replies: Seq<EngineReply>, used: nat)
    requires
        unwrapped(data, replies, used) is Ok,
    ensures
        unwrapped(data, replies, used)->Ok_0.0.validated() is Ok,
        exists|from: nat|
            (#[trigger] unwrapped(data, replies, used)->Ok_0.0.wrapped(replies, from)) matches Ok(
                (form, _),
            ) && form == data,
        data.len() <= 0xffff,
{
    let (items, _) = cbor_array(data)->0;
    let info = unwrapped_info(items)->0;
    let (material, from) = unwrapped_material(
        info.object_type,
        Algorithm::of_byte(info.algorithm)->0,
        items[10]->List_0,
        replies,
        used,
    )->Ok_0;
    let record = unwrapped(data, replies, used)->Ok_0.0;
    assert(record.wrapped(replies, from) matches Ok((form, _)) && form == data);
}

/// Nothing may follow the wrapped form of an object: with more bytes behind it,
/// it is refused, whatever the key engine has to say.
pub proof fn followed_forms_are_refused(
    record: RecordModel,
    replies: Seq<EngineReply>,
    used: nat,
    rest: Seq<u8>,
    again: Seq<EngineReply>,
    from: nat,
)
    requires
        record.wrapped(replies, used) is Ok,
        record.reads_back(record.wrapped(replies, used)->Ok_0.0, replies, used),
        rest.len() > 0,
    ensures
        ({
            let form = record.wrapped(replies, used)->Ok_0.0;
            unwrapped(form + rest, again, from) == Err::<(RecordModel, nat), HaltModel>(
                HaltModel::Error(
                    if form.len() + rest.len() > 0xffff {
                        DeviceError::WrongLength
                    } else {
                        DeviceError::InvalidData
                    },
                    from,
                ),
            )
        }),
{
    let form = record.wrapped(replies, used)->Ok_0.0;
    assert(cbor_array(form + rest) is Some);
}

} // verus!
