//! Objects: their types, what is known of them, and what they hold.
use crate::algorithm::Algorithm;
use crate::bytes::{append, copied, u16_be, u64_be, write_u16};
use crate::capability::{Capability, CapabilitySet};
use crate::error::{DeviceError, Result};
use crate::keys::{SigningKey, SigningKeyModel, X25519Key, X25519KeyModel};
use vstd::prelude::*;

verus! {

/// Length of a label on the wire.
pub const LABEL_LENGTH: usize = 40;

/// Object types of the YubiHSM 2 protocol.
#[derive(Clone, Copy, Debug, PartialEq, Eq, Structural)]
pub enum ObjectType {
    Opaque,
    AuthenticationKey,
    AsymmetricKey,
    WrapKey,
    HmacKey,
    Template,
    OtpAeadKey,
    SymmetricKey,
    PublicWrapKey,
}

impl ObjectType {
    /// The protocol byte of this object type.
    pub open spec fn byte(self) -> u8 {
        match self {
            ObjectType::Opaque => 0x01,
            ObjectType::AuthenticationKey => 0x02,
            ObjectType::AsymmetricKey => 0x03,
            ObjectType::WrapKey => 0x04,
            ObjectType::HmacKey => 0x05,
            ObjectType::Template => 0x06,
            ObjectType::OtpAeadKey => 0x07,
            ObjectType::SymmetricKey => 0x08,
            ObjectType::PublicWrapKey => 0x09,
        }
    }

    /// The object type that a protocol byte stands for.
    pub open spec fn of_byte(value: u8) -> Option<ObjectType> {
        match value {
            0x01 => Some(ObjectType::Opaque),
            0x02 => Some(ObjectType::AuthenticationKey),
            0x03 => Some(ObjectType::AsymmetricKey),
            0x04 => Some(ObjectType::WrapKey),
            0x05 => Some(ObjectType::HmacKey),
            0x06 => Some(ObjectType::Template),
            0x07 => Some(ObjectType::OtpAeadKey),
            0x08 => Some(ObjectType::SymmetricKey),
            0x09 => Some(ObjectType::PublicWrapKey),
            _ => None,
        }
    }

    /// Returns the protocol byte.
    pub fn to_byte(self) -> (value: u8)
        ensures
            value == self.byte(),
    {
        match self {
            ObjectType::Opaque => 0x01,
            ObjectType::AuthenticationKey => 0x02,
            ObjectType::AsymmetricKey => 0x03,
            ObjectType::WrapKey => 0x04,
            ObjectType::HmacKey => 0x05,
            ObjectType::Template => 0x06,
            ObjectType::OtpAeadKey => 0x07,
            ObjectType::SymmetricKey => 0x08,
            ObjectType::PublicWrapKey => 0x09,
        }
    }

    /// Decodes a protocol byte.
    pub fn from_byte(value: u8) -> (decoded: Option<ObjectType>)
        ensures
            decoded == ObjectType::of_byte(value),
    {
        match value {
            0x01 => Some(ObjectType::Opaque),
            0x02 => Some(ObjectType::AuthenticationKey),
            0x03 => Some(ObjectType::AsymmetricKey),
            0x04 => Some(ObjectType::WrapKey),
            0x05 => Some(ObjectType::HmacKey),
            0x06 => Some(ObjectType::Template),
            0x07 => Some(ObjectType::OtpAeadKey),
            0x08 => Some(ObjectType::SymmetricKey),
            0x09 => Some(ObjectType::PublicWrapKey),
            _ => None,
        }
    }

    /// The session capability that deleting an object of the type needs.
    pub open spec fn deletion(self) -> Capability {
        match self {
            ObjectType::Opaque => Capability::DeleteOpaque,
            ObjectType::AuthenticationKey => Capability::DeleteAuthenticationKey,
            ObjectType::AsymmetricKey => Capability::DeleteAsymmetricKey,
            ObjectType::WrapKey => Capability::DeleteWrapKey,
            ObjectType::HmacKey => Capability::DeleteHmacKey,
            ObjectType::Template => Capability::DeleteTemplate,
            ObjectType::OtpAeadKey => Capability::DeleteOtpAeadKey,
            ObjectType::SymmetricKey => Capability::DeleteSymmetricKey,
            ObjectType::PublicWrapKey => Capability::DeletePublicWrapKey,
        }
    }

    /// Returns the session capability that deleting an object of the type needs.
    pub fn deletion_capability(self) -> (capability: Capability)
        ensures
            capability == self.deletion(),
    {
        match self {
            ObjectType::Opaque => Capability::DeleteOpaque,
            ObjectType::AuthenticationKey => Capability::DeleteAuthenticationKey,
            ObjectType::AsymmetricKey => Capability::DeleteAsymmetricKey,
            ObjectType::WrapKey => Capability::DeleteWrapKey,
            ObjectType::HmacKey => Capability::DeleteHmacKey,
            ObjectType::Template => Capability::DeleteTemplate,
            ObjectType::OtpAeadKey => Capability::DeleteOtpAeadKey,
            ObjectType::SymmetricKey => Capability::DeleteSymmetricKey,
            ObjectType::PublicWrapKey => Capability::DeletePublicWrapKey,
        }
    }
}

/// An object type and its protocol byte determine each other: the byte decodes to
/// the object type it came from, and nothing else decodes to it.
pub proof fn object_type_byte_round_trip(item: ObjectType, value: u8)
    ensures
        ObjectType::of_byte(item.byte()) == Some(item),
        ObjectType::of_byte(value) == Some(item) <==> item.byte() == value,
{
}

/// What identifies an object: its type and its number.
#[derive(Clone, Copy, Debug, PartialEq, Eq, Structural)]
pub struct ObjectKey {
    pub object_type: ObjectType,
    pub id: u16,
}

impl ObjectKey {
    /// The key as one number, ordered by type and then by object number.
    pub open spec fn number(self) -> u32 {
        (self.object_type.byte() * 0x1_0000 + self.id) as u32
    }

    /// Returns the key as one number, ordered by type and then by object number.
    pub fn code(self) -> (number: u32)
        ensures
            number == self.number(),
    {
        (self.object_type.to_byte() as u32) * 0x1_0000 + (self.id as u32)
    }
}

/// Keys with the same number are the same, and keys are ordered by their type
/// and then by their object number.
pub proof fn object_keys_are_their_numbers(first: ObjectKey, second: ObjectKey)
    ensures
        first.number() == second.number() <==> first == second,
        first.number() < second.number() <==> first.object_type.byte() < second.object_type.byte()
            || (first.object_type == second.object_type && first.id < second.id),
        first.number() < 0xa_0000,
{
}

/// What is known of an object.
#[derive(Clone, Debug, PartialEq, Eq)]
pub struct ObjectInfo {
    pub capabilities: CapabilitySet,
    pub id: u16,
    pub length: u16,
    pub domains: u16,
    pub object_type: ObjectType,
    pub algorithm: u8,
    pub sequence: u8,
    pub origin: u8,
    pub label: Vec<u8>,
    pub delegated_capabilities: CapabilitySet,
}

/// What an object's information says.
#[verifier::ext_equal]
pub struct InfoModel {
    pub capabilities: CapabilitySet,
    pub id: u16,
    pub length: u16,
    pub domains: u16,
    pub object_type: ObjectType,
    pub algorithm: u8,
    pub sequence: u8,
    pub origin: u8,
    pub label: Seq<u8>,
    pub delegated_capabilities: CapabilitySet,
}

impl View for ObjectInfo {
    type V = InfoModel;

    open spec fn view(&self) -> InfoModel {
        InfoModel {
            capabilities: self.capabilities,
            id: self.id,
            length: self.length,
            domains: self.domains,
            object_type: self.object_type,
            algorithm: self.algorithm,
            sequence: self.sequence,
            origin: self.origin,
            label: self.label@,
            delegated_capabilities: self.delegated_capabilities,
        }
    }
}

impl InfoModel {
    /// What identifies the object.
    pub open spec fn key(self) -> ObjectKey {
        ObjectKey { object_type: self.object_type, id: self.id }
    }

    /// The algorithm that the object names.
    pub open spec fn known_algorithm(self) -> Option<Algorithm> {
        Algorithm::of_byte(self.algorithm)
    }

    /// The least that holds of every object: a number that is neither zero nor
    /// the highest, at least one domain, and a label that fits.
    pub open spec fn validated(self) -> core::result::Result<(), DeviceError> {
        if self.id == 0 || self.id == 0xffff {
            Err(DeviceError::InvalidId)
        } else if self.domains == 0 || self.label.len() > LABEL_LENGTH {
            Err(DeviceError::InvalidData)
        } else {
            Ok(())
        }
    }

    /// The information on the wire: fixed places, the label padded with zeros.
    pub open spec fn encoded(self) -> Seq<u8> {
        u64_be(self.capabilities.word()) + u16_be(self.id) + u16_be(self.length) + u16_be(
            self.domains,
        ) + seq![self.object_type.byte(), self.algorithm, self.sequence, self.origin] + self.label
            + Seq::new((LABEL_LENGTH - self.label.len()) as nat, |i: int| 0u8) + u64_be(
            self.delegated_capabilities.word(),
        )
    }
}

impl ObjectInfo {
    /// Checks what holds of every object.
    pub fn validate(&self) -> (valid: Result<()>)
        ensures
            valid == self@.validated(),
    {
        if self.id == 0 || self.id == 0xffff {
            return Err(DeviceError::InvalidId);
        }
        if self.domains == 0 || self.label.len() > LABEL_LENGTH {
            return Err(DeviceError::InvalidData);
        }
        Ok(())
    }

    /// Returns what identifies the object.
    pub fn key(&self) -> (key: ObjectKey)
        ensures
            key == self@.key(),
    {
        ObjectKey { object_type: self.object_type, id: self.id }
    }

    /// Writes the information for the wire, in 66 bytes.
    pub fn encode(&self) -> (encoded: Vec<u8>)
        requires
            self.label@.len() <= LABEL_LENGTH,
        ensures
            encoded@ == self@.encoded(),
            encoded@.len() == 66,
    {
        let mut encoded: Vec<u8> = Vec::new();
        append(&mut encoded, &self.capabilities.to_bytes());
        write_u16(&mut encoded, self.id);
        write_u16(&mut encoded, self.length);
        write_u16(&mut encoded, self.domains);
        append(
            &mut encoded,
            &[self.object_type.to_byte(), self.algorithm, self.sequence, self.origin],
        );
        append(&mut encoded, &self.label);
        append(&mut encoded, &crate::bytes::zeros(LABEL_LENGTH - self.label.len()));
        append(&mut encoded, &self.delegated_capabilities.to_bytes());
        assert(encoded@ =~= self@.encoded());
        encoded
    }

    /// Copies the information.
    pub fn copied(&self) -> (info: ObjectInfo)
        ensures
            info@ == self@,
    {
        ObjectInfo {
            capabilities: self.capabilities,
            id: self.id,
            length: self.length,
            domains: self.domains,
            object_type: self.object_type,
            algorithm: self.algorithm,
            sequence: self.sequence,
            origin: self.origin,
            label: copied(&self.label),
            delegated_capabilities: self.delegated_capabilities,
        }
    }
}

/// What an Authentication Key holds.
#[derive(Clone, Debug, PartialEq, Eq)]
pub enum AuthenticationKeyMaterial {
    /// K-ENC followed by K-MAC.
    Symmetric(Vec<u8>),
    /// P-256 public point without its SEC1 marker.
    Asymmetric(Vec<u8>),
}

/// What an object holds.
#[derive(Clone, Debug, PartialEq, Eq)]
pub enum ObjectMaterial {
    Authentication(AuthenticationKeyMaterial),
    /// Validated private signing key.
    SigningKey(SigningKey),
    /// Validated X25519 private key.
    X25519Key(X25519Key),
    /// Symmetric, HMAC, and other byte-oriented secret material.
    Secret(Vec<u8>),
    Opaque(Vec<u8>),
    Public(Vec<u8>),
    OtpAeadKey { nonce_id: [u8; 4], key: Vec<u8> },
}

/// What an object's material says.
#[verifier::ext_equal]
pub enum MaterialModel {
    Symmetric(Seq<u8>),
    Asymmetric(Seq<u8>),
    SigningKey(SigningKeyModel),
    X25519Key(X25519KeyModel),
    Secret(Seq<u8>),
    Opaque(Seq<u8>),
    Public(Seq<u8>),
    OtpAeadKey { nonce_id: Seq<u8>, key: Seq<u8> },
}

impl View for ObjectMaterial {
    type V = MaterialModel;

    open spec fn view(&self) -> MaterialModel {
        match *self {
            ObjectMaterial::Authentication(
                AuthenticationKeyMaterial::Symmetric(value),
            ) => MaterialModel::Symmetric(value@),
            ObjectMaterial::Authentication(
                AuthenticationKeyMaterial::Asymmetric(value),
            ) => MaterialModel::Asymmetric(value@),
            ObjectMaterial::SigningKey(key) => MaterialModel::SigningKey(key@),
            ObjectMaterial::X25519Key(key) => MaterialModel::X25519Key(key@),
            ObjectMaterial::Secret(value) => MaterialModel::Secret(value@),
            ObjectMaterial::Opaque(value) => MaterialModel::Opaque(value@),
            ObjectMaterial::Public(value) => MaterialModel::Public(value@),
            ObjectMaterial::OtpAeadKey { nonce_id, key } => MaterialModel::OtpAeadKey {
                nonce_id: nonce_id@,
                key: key@,
            },
        }
    }
}

impl MaterialModel {
    /// Length of the material, in bytes. A typed key counts as its protocol
    /// material does.
    pub open spec fn size(self) -> int {
        match self {
            MaterialModel::Symmetric(value) | MaterialModel::Asymmetric(value)
            | MaterialModel::Secret(value) | MaterialModel::Opaque(value) | MaterialModel::Public(
                value,
            ) => value.len() as int,
            MaterialModel::SigningKey(key) => key.kind.material_length() as int,
            MaterialModel::X25519Key(_) => 32,
            MaterialModel::OtpAeadKey { key, .. } => key.len() as int,
        }
    }
}

impl ObjectMaterial {
    /// Returns the length of the material, in bytes.
    pub fn len(&self) -> (length: usize)
        ensures
            length == self@.size(),
    {
        match self {
            ObjectMaterial::Authentication(AuthenticationKeyMaterial::Symmetric(value)) => {
                value.len()
            },
            ObjectMaterial::Authentication(AuthenticationKeyMaterial::Asymmetric(value)) => {
                value.len()
            },
            ObjectMaterial::Secret(value) => value.len(),
            ObjectMaterial::Opaque(value) => value.len(),
            ObjectMaterial::Public(value) => value.len(),
            ObjectMaterial::SigningKey(key) => match key.kind {
                crate::keys::KeyKind::Ec(curve) => crate::keys::ec_private_length(curve),
                crate::keys::KeyKind::Ed25519 => 32,
                crate::keys::KeyKind::Rsa { modulus_bits } => modulus_bits / 8,
            },
            ObjectMaterial::X25519Key(_) => 32,
            ObjectMaterial::OtpAeadKey { key, .. } => key.len(),
        }
    }

    /// Tells whether there is no material.
    pub fn is_empty(&self) -> (empty: bool)
        ensures
            empty == (self@.size() == 0),
    {
        self.len() == 0
    }

    /// Copies the material.
    pub fn copied(&self) -> (material: ObjectMaterial)
        ensures
            material@ == self@,
    {
        match self {
            ObjectMaterial::Authentication(AuthenticationKeyMaterial::Symmetric(value)) => {
                ObjectMaterial::Authentication(AuthenticationKeyMaterial::Symmetric(copied(value)))
            },
            ObjectMaterial::Authentication(AuthenticationKeyMaterial::Asymmetric(value)) => {
                ObjectMaterial::Authentication(AuthenticationKeyMaterial::Asymmetric(copied(value)))
            },
            ObjectMaterial::SigningKey(key) => ObjectMaterial::SigningKey(key.copied()),
            ObjectMaterial::X25519Key(key) => ObjectMaterial::X25519Key(key.copied()),
            ObjectMaterial::Secret(value) => ObjectMaterial::Secret(copied(value)),
            ObjectMaterial::Opaque(value) => ObjectMaterial::Opaque(copied(value)),
            ObjectMaterial::Public(value) => ObjectMaterial::Public(copied(value)),
            ObjectMaterial::OtpAeadKey { nonce_id, key } => ObjectMaterial::OtpAeadKey {
                nonce_id: *nonce_id,
                key: copied(key),
            },
        }
    }
}

/// An object: what is known of it and what it holds.
#[derive(Clone, Debug, PartialEq, Eq)]
pub struct ObjectRecord {
    pub info: ObjectInfo,
    pub material: ObjectMaterial,
}

/// What an object says.
#[verifier::ext_equal]
pub struct RecordModel {
    pub info: InfoModel,
    pub material: MaterialModel,
}

impl View for ObjectRecord {
    type V = RecordModel;

    open spec fn view(&self) -> RecordModel {
        RecordModel { info: self.info@, material: self.material@ }
    }
}

/// A length with a fixed overhead, as far as a machine word holds it.
pub open spec fn with_overhead(size: int, overhead: int) -> core::result::Result<int, DeviceError> {
    if size + overhead <= usize::MAX {
        Ok(size + overhead)
    } else {
        Err(DeviceError::WrongLength)
    }
}

/// Adds a fixed overhead to a length, as far as a machine word holds it.
fn add_overhead(size: usize, overhead: usize) -> (length: Result<usize>)
    ensures
        match length {
            Ok(length) => with_overhead(size as int, overhead as int) == Ok::<int, DeviceError>(
                length as int,
            ),
            Err(error) => with_overhead(size as int, overhead as int) == Err::<int, DeviceError>(
                error,
            ),
        },
{
    match size.checked_add(overhead) {
        Some(length) => Ok(length),
        None => Err(DeviceError::WrongLength),
    }
}

impl RecordModel {
    /// Whether the material is the private part of an asymmetric key: that of
    /// an asymmetric key, or of a wrap key that is an RSA key.
    pub open spec fn holds_private_key(self) -> bool {
        match self.info.known_algorithm() {
            Some(algorithm) => self.info.object_type == ObjectType::AsymmetricKey || (
            self.info.object_type == ObjectType::WrapKey && algorithm.is_rsa()),
            None => false,
        }
    }

    /// The length that the object's information reports: what a physical device
    /// reports for keys, the material's length for the rest.
    pub open spec fn expected_length(self) -> core::result::Result<int, DeviceError> {
        let size = self.material.size();
        let algorithm = self.info.known_algorithm();
        match self.info.object_type {
            ObjectType::AuthenticationKey | ObjectType::PublicWrapKey => with_overhead(size, 8),
            ObjectType::AsymmetricKey => match algorithm {
                Some(algorithm) if algorithm.object_length() is Some => Ok(
                    algorithm.object_length()->0 as int,
                ),
                _ => Err(DeviceError::InvalidData),
            },
            ObjectType::WrapKey => match algorithm {
                Some(algorithm) if algorithm.is_rsa() => Ok(algorithm.object_length()->0 + 8),
                Some(Algorithm::Aes128CcmWrap)
                | Some(Algorithm::Aes192CcmWrap)
                | Some(Algorithm::Aes256CcmWrap) => with_overhead(size, 8),
                _ => Err(DeviceError::InvalidData),
            },
            ObjectType::HmacKey => match algorithm {
                Some(algorithm) if algorithm.hmac_size() is Some => Ok(
                    algorithm.hmac_size()->0 as int,
                ),
                _ => Err(DeviceError::InvalidData),
            },
            ObjectType::OtpAeadKey => with_overhead(size, 4),
            ObjectType::Opaque | ObjectType::Template | ObjectType::SymmetricKey => Ok(size),
        }
    }

    /// Whether the object is consistent: valid information, private key
    /// material of its algorithm's length, and the length it is to report.
    pub open spec fn validated(self) -> core::result::Result<(), DeviceError> {
        match self.info.validated() {
            Err(error) => Err(error),
            Ok(()) => if self.holds_private_key() && self.info.known_algorithm()->0.key_length()
                != Some(self.material.size() as usize) {
                Err(DeviceError::InvalidData)
            } else {
                match self.expected_length() {
                    Err(error) => Err(error),
                    Ok(length) => if self.info.length == length {
                        Ok(())
                    } else {
                        Err(DeviceError::InvalidData)
                    },
                }
            },
        }
    }

    /// The object with the length that it is to report.
    pub open spec fn normalized(self) -> core::result::Result<RecordModel, DeviceError> {
        match self.expected_length() {
            Err(error) => Err(error),
            Ok(length) => if length <= 0xffff {
                Ok(
                    RecordModel {
                        info: InfoModel { length: length as u16, ..self.info },
                        material: self.material,
                    },
                )
            } else {
                Err(DeviceError::WrongLength)
            },
        }
    }
}

impl ObjectRecord {
    /// Returns the length that the object's information is to report.
    pub fn expected_info_length(&self) -> (length: Result<usize>)
        ensures
            match length {
                Ok(length) => self@.expected_length() == Ok::<int, DeviceError>(length as int),
                Err(error) => self@.expected_length() == Err::<int, DeviceError>(error),
            },
    {
        let algorithm = Algorithm::from_byte(self.info.algorithm);
        match self.info.object_type {
            ObjectType::AuthenticationKey => add_overhead(self.material.len(), 8),
            ObjectType::AsymmetricKey => match algorithm {
                Some(algorithm) => match algorithm.asymmetric_object_length() {
                    Some(length) => Ok(length),
                    None => Err(DeviceError::InvalidData),
                },
                None => Err(DeviceError::InvalidData),
            },
            ObjectType::WrapKey => match algorithm {
                Some(algorithm) => if algorithm.is_rsa_key() {
                    match algorithm.asymmetric_object_length() {
                        Some(length) => Ok(length + 8),
                        None => Err(DeviceError::InvalidData),
                    }
                } else if matches!(
                    algorithm,
                    Algorithm::Aes128CcmWrap | Algorithm::Aes192CcmWrap | Algorithm::Aes256CcmWrap
                ) {
                    add_overhead(self.material.len(), 8)
                } else {
                    Err(DeviceError::InvalidData)
                },
                None => Err(DeviceError::InvalidData),
            },
            ObjectType::HmacKey => match algorithm {
                Some(algorithm) => match algorithm.hmac_object_length() {
                    Some(length) => Ok(length),
                    None => Err(DeviceError::InvalidData),
                },
                None => Err(DeviceError::InvalidData),
            },
            ObjectType::OtpAeadKey => add_overhead(self.material.len(), 4),
            ObjectType::PublicWrapKey => add_overhead(self.material.len(), 8),
            ObjectType::Opaque | ObjectType::Template | ObjectType::SymmetricKey => Ok(
                self.material.len(),
            ),
        }
    }

    /// Sets the length that the object's information is to report.
    pub fn normalize_info_length(&mut self) -> (done: Result<()>)
        ensures
            match done {
                Ok(()) => old(self)@.normalized() == Ok::<RecordModel, DeviceError>(final(self)@),
                Err(error) => old(self)@.normalized() == Err::<RecordModel, DeviceError>(error)
                    && *final(self) == *old(self),
            },
    {
        let length: usize = self.expected_info_length()?;
        if length > 0xffff {
            return Err(DeviceError::WrongLength);
        }
        self.info.length = length as u16;
        Ok(())
    }

    /// Checks that the object is consistent.
    pub fn validate(&self) -> (valid: Result<()>)
        ensures
            valid == self@.validated(),
    {
        self.info.validate()?;
        if let Some(algorithm) = Algorithm::from_byte(self.info.algorithm) {
            let private = matches!(self.info.object_type, ObjectType::AsymmetricKey) || (matches!(
                self.info.object_type,
                ObjectType::WrapKey
            ) && algorithm.is_rsa_key());
            if private {
                match algorithm.asymmetric_key_length() {
                    Some(length) => if length != self.material.len() {
                        return Err(DeviceError::InvalidData);
                    },
                    None => {
                        return Err(DeviceError::InvalidData);
                    },
                }
            }
        }
        let length: usize = self.expected_info_length()?;
        if self.info.length as usize != length {
            return Err(DeviceError::InvalidData);
        }
        Ok(())
    }

    /// Copies the object.
    pub fn copied(&self) -> (record: ObjectRecord)
        ensures
            record@ == self@,
    {
        ObjectRecord { info: self.info.copied(), material: self.material.copied() }
    }
}

/// Object information has one place for every field: 66 bytes in which the
/// label ends where its padding or the delegated capabilities begin.
pub proof fn object_information_layout(info: InfoModel)
    requires
        info.label.len() <= LABEL_LENGTH,
    ensures
        info.encoded().len() == 66,
        info.encoded().subrange(8, 10) == u16_be(info.id),
        info.encoded()[14] == info.object_type.byte(),
        info.encoded()[15] == info.algorithm,
        info.encoded()[16] == info.sequence,
        info.encoded()[17] == info.origin,
        info.encoded().subrange(18, 18 + info.label.len() as int) == info.label,
        info.encoded().subrange(58, 66) == u64_be(info.delegated_capabilities.word()),
{
    let encoded = info.encoded();
    assert(encoded.subrange(8, 10) =~= u16_be(info.id));
    assert(encoded.subrange(18, 18 + info.label.len() as int) =~= info.label);
    assert(encoded.subrange(58, 66) =~= u64_be(info.delegated_capabilities.word()));
}

/// Normalising an object with valid information and private key material of the
/// right length makes it consistent, and changes nothing but the length.
pub proof fn normalized_objects_are_consistent(record: RecordModel)
    requires
        record.info.validated() is Ok,
        record.holds_private_key() ==> record.info.known_algorithm()->0.key_length() == Some(
            record.material.size() as usize,
        ),
        record.normalized() is Ok,
    ensures
        record.normalized()->Ok_0.validated() is Ok,
        record.normalized()->Ok_0.material == record.material,
        record.normalized()->Ok_0.info == (InfoModel {
            length: record.normalized()->Ok_0.info.length,
            ..record.info
        }),
{
}

} // verus!
