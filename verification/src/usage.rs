//! Commands that use the keys of a device.
use crate::algorithm::Algorithm;
use crate::authorization::SessionAuthorization;
use crate::bytes::{append, copied, copied_range, equal, joined, single};
use crate::device::{viewed, Device, DeviceModel};
use crate::engine::{
    bytes_from, fail, lift, run, sized_from, Answers, EngineReply, EngineRequest, Halt, HaltModel,
    Operation, RequestModel, Run,
};
use crate::error::{DeviceError, Result};
use crate::frame::MAX_DATA_LENGTH;
use crate::keys::{key_kind, HashAlgorithm, KeyKind, SigningKey, SigningKeyModel, X25519Key};
use crate::object::{
    AuthenticationKeyMaterial, MaterialModel, ObjectKey, ObjectMaterial, ObjectRecord, ObjectType,
    RecordModel,
};
use crate::outside::same_secret;
use crate::request::{
    AesCbcRequest, CreateOtpAeadRequest, DecryptOaepRequest, DecryptOtpRequest,
    DeriveEcdhKdfRequest, GetPublicKeyRequest, IdRequest, NumberRequest, RewrapOtpAeadRequest,
    SignPssRequest,
};
use crate::session::{secure_length, secure_response_data_fits};
use crate::store::{
    ccm_key_length, ccm_length, draw_random, hmac_hash, hmac_hash_of, random_from,
    symmetric_key_length, symmetric_length,
};
use crate::wire::{decode, decoded};
use vstd::prelude::*;

verus! {

/// Length of an AES-CCM nonce.
pub const AES_CCM_NONCE_SIZE: usize = 13;

/// Length of an AES-CCM tag.
pub const AES_CCM_TAG_SIZE: usize = 16;

impl RecordModel {
    /// The signing key of an object, where its algorithm is that of such a key.
    pub open spec fn signing(self) -> core::result::Result<SigningKeyModel, DeviceError> {
        match self.material {
            MaterialModel::SigningKey(key) => match self.info.known_algorithm() {
                Some(algorithm) => if algorithm == Algorithm::X25519 || algorithm.is_rsa() != (
                key.kind is Rsa) {
                    Err(DeviceError::InvalidData)
                } else {
                    Ok(key)
                },
                None => Err(DeviceError::InvalidData),
            },
            _ => Err(DeviceError::InvalidData),
        }
    }

    /// The RSA key of an object.
    pub open spec fn rsa(self) -> core::result::Result<SigningKeyModel, DeviceError> {
        match self.info.known_algorithm() {
            Some(algorithm) => if algorithm.is_rsa() {
                self.signing()
            } else {
                Err(DeviceError::InvalidData)
            },
            None => Err(DeviceError::InvalidData),
        }
    }

    /// Length of the modulus of an object's RSA key, in bytes.
    pub open spec fn modulus_length(self) -> core::result::Result<usize, DeviceError> {
        match self.info.known_algorithm() {
            Some(algorithm) => if algorithm.is_rsa() {
                Ok(algorithm.key_length()->0)
            } else {
                Err(DeviceError::InvalidData)
            },
            None => Err(DeviceError::InvalidData),
        }
    }

    /// The secret of an object.
    pub open spec fn secret(self) -> core::result::Result<Seq<u8>, DeviceError> {
        match self.material {
            MaterialModel::Secret(secret) => Ok(secret),
            _ => Err(DeviceError::InvalidData),
        }
    }

    /// The secret that an object agrees on with a public key.
    pub open spec fn agreed(self, peer: Seq<u8>, replies: Seq<EngineReply>, used: nat) -> Run<
        Seq<u8>,
    > {
        if self.info.known_algorithm() == Some(Algorithm::X25519) {
            match self.material {
                MaterialModel::X25519Key(key) => bytes_from(
                    replies,
                    used,
                    RequestModel::keyed(Operation::AgreeX25519, key.private, peer),
                    DeviceError::InvalidData,
                ),
                _ => Err(HaltModel::Error(DeviceError::InvalidData, used)),
            }
        } else {
            match self.signing() {
                Ok(key) => bytes_from(
                    replies,
                    used,
                    RequestModel::with_key(Operation::Agree(key.kind), key, Seq::empty(), peer),
                    DeviceError::InvalidData,
                ),
                Err(error) => Err(HaltModel::Error(error, used)),
            }
        }
    }

    /// The HMAC of data under an object.
    pub open spec fn hmac(self, data: Seq<u8>, replies: Seq<EngineReply>, used: nat) -> Run<
        Seq<u8>,
    > {
        match self.secret() {
            Ok(secret) => match hmac_hash_of(self.info.algorithm) {
                Some(hash) => bytes_from(
                    replies,
                    used,
                    RequestModel::keyed(Operation::Hmac(hash), secret, data),
                    DeviceError::InvalidData,
                ),
                None => Err(HaltModel::Error(DeviceError::InvalidData, used)),
            },
            Err(error) => Err(HaltModel::Error(error, used)),
        }
    }

    /// The public part of a key object, as the protocol writes it.
    pub open spec fn public_part(self) -> core::result::Result<Seq<u8>, DeviceError> {
        match self.info.object_type {
            ObjectType::AuthenticationKey => match self.material {
                MaterialModel::Asymmetric(public) => Ok(public),
                _ => Err(DeviceError::InvalidData),
            },
            ObjectType::PublicWrapKey => match self.material {
                MaterialModel::Public(public) => Ok(public),
                _ => Err(DeviceError::InvalidData),
            },
            _ => if self.info.known_algorithm() == Some(Algorithm::X25519) {
                match self.material {
                    MaterialModel::X25519Key(key) => Ok(key.public),
                    _ => Err(DeviceError::InvalidData),
                }
            } else {
                match self.signing() {
                    Ok(key) => if key.kind is Ec {
                        if key.public.len() == 0 {
                            Err(DeviceError::InvalidData)
                        } else {
                            Ok(key.public.subrange(1, key.public.len() as int))
                        }
                    } else {
                        Ok(key.public)
                    },
                    Err(error) => Err(error),
                }
            },
        }
    }

    /// A credential encrypted under an OTP key with a random nonce.
    pub open spec fn otp_encrypted(
        self,
        credential: Seq<u8>,
        replies: Seq<EngineReply>,
        used: nat,
    ) -> Run<Seq<u8>> {
        if credential.len() != 22 {
            Err(HaltModel::Error(DeviceError::WrongLength, used))
        } else {
            match self.material {
                MaterialModel::OtpAeadKey { nonce_id, key } => match random_from(
                    replies,
                    used,
                    6,
                ) {
                    Err(halt) => Err(halt),
                    Ok((random, used)) => match bytes_from(
                        replies,
                        used,
                        RequestModel::compute(
                            Operation::EncryptOtpAead,
                            key,
                            otp_nonce(nonce_id, random),
                            credential,
                        ),
                        DeviceError::InvalidData,
                    ) {
                        Err(halt) => Err(halt),
                        Ok((encrypted, used)) => Ok((random + encrypted, used)),
                    },
                },
                _ => Err(HaltModel::Error(DeviceError::InvalidData, used)),
            }
        }
    }

    /// The credential that was encrypted under an OTP key.
    pub open spec fn otp_decrypted(
        self,
        aead: Seq<u8>,
        replies: Seq<EngineReply>,
        used: nat,
    ) -> Run<
        Seq<u8>,
    > {
        if aead.len() != 36 {
            Err(HaltModel::Error(DeviceError::WrongLength, used))
        } else {
            match self.material {
                MaterialModel::OtpAeadKey { nonce_id, key } => sized_from(
                    replies,
                    used,
                    RequestModel::compute(
                        Operation::DecryptOtpAead,
                        key,
                        otp_nonce(nonce_id, aead.subrange(0, 6)),
                        aead.subrange(6, 36),
                    ),
                    22,
                    DeviceError::InvalidOtp,
                ),
                _ => Err(HaltModel::Error(DeviceError::InvalidData, used)),
            }
        }
    }
}

/// Returns the signing key of an object.
pub fn signing_key(object: &ObjectRecord) -> (key: Result<&SigningKey>)
    ensures
        viewed(key) == object@.signing(),
{
    match &object.material {
        ObjectMaterial::SigningKey(key) => match Algorithm::from_byte(object.info.algorithm) {
            Some(algorithm) => {
                if matches!(algorithm, Algorithm::X25519) || algorithm.is_rsa_key()
                    != key.kind.is_rsa() {
                    return Err(DeviceError::InvalidData);
                }
                Ok(key)
            },
            None => Err(DeviceError::InvalidData),
        },
        _ => Err(DeviceError::InvalidData),
    }
}

/// Returns the RSA key of an object.
pub fn rsa_key(object: &ObjectRecord) -> (key: Result<&SigningKey>)
    ensures
        viewed(key) == object@.rsa(),
{
    match Algorithm::from_byte(object.info.algorithm) {
        Some(algorithm) => {
            if !algorithm.is_rsa_key() {
                return Err(DeviceError::InvalidData);
            }
            signing_key(object)
        },
        None => Err(DeviceError::InvalidData),
    }
}

/// Returns the length of the modulus of an object's RSA key, in bytes.
pub fn rsa_modulus_length(object: &ObjectRecord) -> (length: Result<usize>)
    ensures
        length == object@.modulus_length(),
{
    match Algorithm::from_byte(object.info.algorithm) {
        Some(algorithm) => {
            if !algorithm.is_rsa_key() {
                return Err(DeviceError::InvalidData);
            }
            match algorithm.asymmetric_key_length() {
                Some(length) => Ok(length),
                None => Err(DeviceError::InvalidData),
            }
        },
        None => Err(DeviceError::InvalidData),
    }
}

/// Returns the secret of an object.
pub fn object_secret(object: &ObjectRecord) -> (secret: Result<&Vec<u8>>)
    ensures
        viewed(secret) == object@.secret(),
{
    match &object.material {
        ObjectMaterial::Secret(secret) => Ok(secret),
        _ => Err(DeviceError::InvalidData),
    }
}

/// Tells whether an object's algorithm is X25519.
pub fn is_x25519(object: &ObjectRecord) -> (x25519: bool)
    ensures
        x25519 == (object@.info.known_algorithm() == Some(Algorithm::X25519)),
{
    matches!(Algorithm::from_byte(object.info.algorithm), Some(Algorithm::X25519))
}

/// Agrees on a secret with a public key.
pub fn raw_ecdh_secret(object: &ObjectRecord, peer_public: &[u8], answers: &mut Answers) -> (secret:
    core::result::Result<Vec<u8>, Halt>)
    requires
        old(answers).valid(),
    ensures
        final(answers).valid(),
        final(answers).replies == old(answers).replies,
        run(secret, final(answers).used) == object@.agreed(
            peer_public@,
            old(answers).replies@,
            old(answers).used as nat,
        ),
{
    if is_x25519(object) {
        return match &object.material {
            ObjectMaterial::X25519Key(key) => answers.bytes(
                EngineRequest::keyed(Operation::AgreeX25519, &key.private, peer_public),
                DeviceError::InvalidData,
            ),
            _ => fail(DeviceError::InvalidData),
        };
    }
    let none: Vec<u8> = Vec::new();
    assert(none@ =~= Seq::<u8>::empty());
    let key = lift(signing_key(object))?;
    answers.bytes(
        EngineRequest::with_key(Operation::Agree(key.kind), key, &none, peer_public),
        DeviceError::InvalidData,
    )
}

/// Calculates an HMAC under an object.
pub fn calculate_hmac(object: &ObjectRecord, data: &[u8], answers: &mut Answers) -> (hmac:
    core::result::Result<Vec<u8>, Halt>)
    requires
        old(answers).valid(),
    ensures
        final(answers).valid(),
        final(answers).replies == old(answers).replies,
        run(hmac, final(answers).used) == object@.hmac(
            data@,
            old(answers).replies@,
            old(answers).used as nat,
        ),
{
    let secret = lift(object_secret(object))?;
    let hash = lift(hmac_hash(object.info.algorithm))?;
    answers.bytes(
        EngineRequest::keyed(Operation::Hmac(hash), secret, data),
        DeviceError::InvalidData,
    )
}

/// The nonce of an OTP encryption: the key's own part, the part of the message,
/// and zeros.
pub open spec fn otp_nonce(nonce_id: Seq<u8>, random: Seq<u8>) -> Seq<u8> {
    nonce_id + random + seq![0u8, 0u8, 0u8]
}

/// Makes the nonce of an OTP encryption.
fn make_otp_nonce(nonce_id: &[u8; 4], random: &[u8]) -> (nonce: Vec<u8>)
    ensures
        nonce@ == otp_nonce(nonce_id@, random@),
{
    let mut nonce: Vec<u8> = joined(nonce_id, random);
    nonce.push(0);
    nonce.push(0);
    nonce.push(0);
    assert(nonce@ =~= otp_nonce(nonce_id@, random@));
    nonce
}

/// Encrypts a credential under an OTP key.
fn otp_aead_encrypt(object: &ObjectRecord, credential: &[u8], answers: &mut Answers) -> (aead:
    core::result::Result<Vec<u8>, Halt>)
    requires
        old(answers).valid(),
    ensures
        final(answers).valid(),
        final(answers).replies == old(answers).replies,
        run(aead, final(answers).used) == object@.otp_encrypted(
            credential@,
            old(answers).replies@,
            old(answers).used as nat,
        ),
{
    if credential.len() != 22 {
        return fail(DeviceError::WrongLength);
    }
    match &object.material {
        ObjectMaterial::OtpAeadKey { nonce_id, key } => {
            let random: Vec<u8> = draw_random(6, answers)?;
            let encrypted: Vec<u8> = answers.bytes(
                EngineRequest::compute(
                    Operation::EncryptOtpAead,
                    key,
                    &make_otp_nonce(nonce_id, &random),
                    credential,
                ),
                DeviceError::InvalidData,
            )?;
            Ok(joined(&random, &encrypted))
        },
        _ => fail(DeviceError::InvalidData),
    }
}

/// Decrypts a credential under an OTP key.
fn otp_aead_decrypt(object: &ObjectRecord, aead: &[u8], answers: &mut Answers) -> (credential:
    core::result::Result<Vec<u8>, Halt>)
    requires
        old(answers).valid(),
    ensures
        final(answers).valid(),
        final(answers).replies == old(answers).replies,
        run(credential, final(answers).used) == object@.otp_decrypted(
            aead@,
            old(answers).replies@,
            old(answers).used as nat,
        ),
{
    if aead.len() != 36 {
        return fail(DeviceError::WrongLength);
    }
    match &object.material {
        ObjectMaterial::OtpAeadKey { nonce_id, key } => answers.sized(
            EngineRequest::compute(
                Operation::DecryptOtpAead,
                key,
                &make_otp_nonce(nonce_id, &copied_range(aead, 0, 6)),
                &copied_range(aead, 6, 36),
            ),
            22,
            DeviceError::InvalidOtp,
        ),
        _ => fail(DeviceError::InvalidData),
    }
}

/// A checksum after some of the bits of a byte.
pub open spec fn crc_bits(crc: u16, bits: nat) -> u16
    decreases bits,
{
    if bits == 0 {
        crc
    } else {
        let before = crc_bits(crc, (bits - 1) as nat);
        if before & 1 != 0 {
            (before >> 1) ^ 0x8408
        } else {
            before >> 1
        }
    }
}

/// The checksum of an OTP: reflected CRC-16 with the CCITT polynomial.
pub open spec fn crc16(data: Seq<u8>) -> u16
    decreases data.len(),
{
    if data.len() == 0 {
        0xffff
    } else {
        crc_bits(crc16(data.drop_last()) ^ (data.last() as u16), 8)
    }
}

/// Calculates the checksum of an OTP.
pub fn yubico_crc16(data: &[u8]) -> (crc: u16)
    ensures
        crc == crc16(data@),
{
    let mut crc: u16 = 0xffff;
    let mut index: usize = 0;
    assert(data@.subrange(0, 0) =~= Seq::<u8>::empty());
    while index < data.len()
        invariant
            index <= data@.len(),
            crc == crc16(data@.subrange(0, index as int)),
        decreases data@.len() - index,
    {
        assert(data@.subrange(0, index + 1).drop_last() =~= data@.subrange(0, index as int));
        crc = crc ^ (data[index] as u16);
        let ghost start = crc;
        let mut bit: u8 = 0;
        while bit < 8
            invariant
                bit <= 8,
                crc == crc_bits(start, bit as nat),
            decreases 8 - bit,
        {
            crc = if crc & 1 != 0 {
                (crc >> 1) ^ 0x8408
            } else {
                crc >> 1
            };
            bit = bit + 1;
        }
        index = index + 1;
    }
    assert(data@.subrange(0, data@.len() as int) =~= data@);
    crc
}

/// The hash function of a digest length.
pub open spec fn hash_of_length(length: int) -> Option<HashAlgorithm> {
    if length == 20 {
        Some(HashAlgorithm::Sha1)
    } else if length == 32 {
        Some(HashAlgorithm::Sha256)
    } else if length == 48 {
        Some(HashAlgorithm::Sha384)
    } else if length == 64 {
        Some(HashAlgorithm::Sha512)
    } else {
        None
    }
}

/// Returns the hash function of a digest length.
pub fn rsa_hash_from_digest_length(length: usize) -> (hash: Option<HashAlgorithm>)
    ensures
        hash == hash_of_length(length as int),
{
    match length {
        20 => Some(HashAlgorithm::Sha1),
        32 => Some(HashAlgorithm::Sha256),
        48 => Some(HashAlgorithm::Sha384),
        64 => Some(HashAlgorithm::Sha512),
        _ => None,
    }
}

/// The hash function of a mask generation algorithm.
pub open spec fn mgf_hash_of(algorithm: u8) -> core::result::Result<HashAlgorithm, DeviceError> {
    match Algorithm::of_byte(algorithm) {
        Some(Algorithm::Mgf1Sha1) => Ok(HashAlgorithm::Sha1),
        Some(Algorithm::Mgf1Sha256) => Ok(HashAlgorithm::Sha256),
        Some(Algorithm::Mgf1Sha384) => Ok(HashAlgorithm::Sha384),
        Some(Algorithm::Mgf1Sha512) => Ok(HashAlgorithm::Sha512),
        _ => Err(DeviceError::InvalidData),
    }
}

/// Returns the hash function of a mask generation algorithm.
pub fn rsa_mgf_hash(algorithm: u8) -> (hash: Result<HashAlgorithm>)
    ensures
        hash == mgf_hash_of(algorithm),
{
    match Algorithm::from_byte(algorithm) {
        Some(Algorithm::Mgf1Sha1) => Ok(HashAlgorithm::Sha1),
        Some(Algorithm::Mgf1Sha256) => Ok(HashAlgorithm::Sha256),
        Some(Algorithm::Mgf1Sha384) => Ok(HashAlgorithm::Sha384),
        Some(Algorithm::Mgf1Sha512) => Ok(HashAlgorithm::Sha512),
        _ => Err(DeviceError::InvalidData),
    }
}

/// The hash function of a derivation, by its protocol byte.
pub open spec fn kdf_hash_of(value: u8) -> core::result::Result<HashAlgorithm, DeviceError> {
    match value {
        1 => Ok(HashAlgorithm::Sha1),
        2 => Ok(HashAlgorithm::Sha224),
        3 => Ok(HashAlgorithm::Sha256),
        4 => Ok(HashAlgorithm::Sha384),
        5 => Ok(HashAlgorithm::Sha512),
        6 => Ok(HashAlgorithm::Sha3_224),
        7 => Ok(HashAlgorithm::Sha3_256),
        8 => Ok(HashAlgorithm::Sha3_384),
        9 => Ok(HashAlgorithm::Sha3_512),
        _ => Err(DeviceError::InvalidData),
    }
}

/// Returns the hash function of a derivation, by its protocol byte.
pub fn ecdh_kdf_hash(value: u8) -> (hash: Result<HashAlgorithm>)
    ensures
        hash == kdf_hash_of(value),
{
    match value {
        1 => Ok(HashAlgorithm::Sha1),
        2 => Ok(HashAlgorithm::Sha224),
        3 => Ok(HashAlgorithm::Sha256),
        4 => Ok(HashAlgorithm::Sha384),
        5 => Ok(HashAlgorithm::Sha512),
        6 => Ok(HashAlgorithm::Sha3_224),
        7 => Ok(HashAlgorithm::Sha3_256),
        8 => Ok(HashAlgorithm::Sha3_384),
        9 => Ok(HashAlgorithm::Sha3_512),
        _ => Err(DeviceError::InvalidData),
    }
}

/// One byte that says whether something holds.
pub open spec fn verdict(holds: bool) -> Seq<u8> {
    if holds {
        seq![1u8]
    } else {
        seq![0u8]
    }
}

/// Makes the byte that says whether something holds.
pub fn make_verdict(holds: bool) -> (bytes: Vec<u8>)
    ensures
        bytes@ == verdict(holds),
{
    if holds {
        single(1)
    } else {
        single(0)
    }
}

impl DeviceModel {
    /// The AES key that a session finds.
    pub open spec fn symmetric_key(
        self,
        authorization: SessionAuthorization,
        id: u16,
    ) -> core::result::Result<
        RecordModel,
        DeviceError,
    > {
        match self.usable(authorization, ObjectType::SymmetricKey, id) {
            Ok(record) => match record.info.known_algorithm() {
                Some(algorithm) if symmetric_length(algorithm) is Some => Ok(record),
                _ => Err(DeviceError::InvalidData),
            },
            Err(error) => Err(error),
        }
    }

    /// The AES wrap key that a session finds.
    pub open spec fn ccm_key(
        self,
        authorization: SessionAuthorization,
        id: u16,
    ) -> core::result::Result<
        RecordModel,
        DeviceError,
    > {
        match self.usable(authorization, ObjectType::WrapKey, id) {
            Ok(record) => match record.info.known_algorithm() {
                Some(algorithm) if ccm_length(algorithm) is Some => Ok(record),
                _ => Err(DeviceError::InvalidData),
            },
            Err(error) => Err(error),
        }
    }

    /// The public part of a key.
    pub open spec fn gets_public_key(
        self,
        authorization: SessionAuthorization,
        data: Seq<u8>,
    ) -> core::result::Result<Seq<u8>, DeviceError> {
        match decoded::<GetPublicKeyRequest>(data) {
            Err(error) => Err(error),
            Ok(request) => match request.object_type {
                ObjectType::AsymmetricKey
                | ObjectType::AuthenticationKey
                | ObjectType::WrapKey
                | ObjectType::PublicWrapKey => match self.found(
                    authorization,
                    ObjectKey { object_type: request.object_type, id: request.id },
                ) {
                    Err(error) => Err(error),
                    Ok(record) => match record.public_part() {
                        Ok(public) => Ok(seq![record.info.algorithm] + public),
                        Err(error) => Err(error),
                    },
                },
                _ => Err(DeviceError::InvalidData),
            },
        }
    }

    /// An RSA PKCS #1 signature over a digest, or over a whole encoded payload.
    pub open spec fn signs_pkcs1(
        self,
        authorization: SessionAuthorization,
        data: Seq<u8>,
        replies: Seq<EngineReply>,
        used: nat,
    ) -> Run<Seq<u8>> {
        match decoded::<IdRequest>(data) {
            Err(error) => Err(HaltModel::Error(error, used)),
            Ok(request) => if request.data.len() == 0 {
                Err(HaltModel::Error(DeviceError::WrongLength, used))
            } else {
                match self.usable(authorization, ObjectType::AsymmetricKey, request.id) {
                    Err(error) => Err(HaltModel::Error(error, used)),
                    Ok(record) => match record.rsa() {
                        Err(error) => Err(HaltModel::Error(error, used)),
                        Ok(key) => bytes_from(
                            replies,
                            used,
                            RequestModel::with_key(
                                match hash_of_length(request.data.len() as int) {
                                    Some(hash) => Operation::SignPkcs1Digest(hash),
                                    None => Operation::SignPkcs1Payload,
                                },
                                key,
                                Seq::empty(),
                                request.data,
                            ),
                            DeviceError::InvalidData,
                        ),
                    },
                }
            },
        }
    }

    /// An RSA-PSS signature over a digest.
    pub open spec fn signs_pss(
        self,
        authorization: SessionAuthorization,
        data: Seq<u8>,
        replies: Seq<EngineReply>,
        used: nat,
    ) -> Run<Seq<u8>> {
        match decoded::<SignPssRequest>(data) {
            Err(error) => Err(HaltModel::Error(error, used)),
            Ok(request) => if request.digest.len() == 0 {
                Err(HaltModel::Error(DeviceError::WrongLength, used))
            } else {
                match self.usable(authorization, ObjectType::AsymmetricKey, request.id) {
                    Err(error) => Err(HaltModel::Error(error, used)),
                    Ok(record) => match mgf_hash_of(request.mgf_hash) {
                        Err(error) => Err(HaltModel::Error(error, used)),
                        Ok(mgf_hash) => match hash_of_length(request.digest.len() as int) {
                            None => Err(HaltModel::Error(DeviceError::WrongLength, used)),
                            Some(hash) => match record.rsa() {
                                Err(error) => Err(HaltModel::Error(error, used)),
                                Ok(key) => bytes_from(
                                    replies,
                                    used,
                                    RequestModel::with_key(
                                        Operation::SignPss(
                                            hash,
                                            mgf_hash,
                                            request.salt_length as usize,
                                        ),
                                        key,
                                        Seq::empty(),
                                        request.digest,
                                    ),
                                    DeviceError::InvalidData,
                                ),
                            },
                        },
                    },
                }
            },
        }
    }

    /// An ECDSA signature over a digest.
    pub open spec fn signs_ecdsa(
        self,
        authorization: SessionAuthorization,
        data: Seq<u8>,
        replies: Seq<EngineReply>,
        used: nat,
    ) -> Run<Seq<u8>> {
        match decoded::<IdRequest>(data) {
            Err(error) => Err(HaltModel::Error(error, used)),
            Ok(request) => if request.data.len() == 0 {
                Err(HaltModel::Error(DeviceError::WrongLength, used))
            } else {
                match self.usable(authorization, ObjectType::AsymmetricKey, request.id) {
                    Err(error) => Err(HaltModel::Error(error, used)),
                    Ok(record) => match record.info.known_algorithm() {
                        None => Err(HaltModel::Error(DeviceError::InvalidData, used)),
                        Some(algorithm) => match KeyKind::named(algorithm) {
                            Some(KeyKind::Ec(curve)) => match record.signing() {
                                Err(error) => Err(HaltModel::Error(error, used)),
                                Ok(key) => bytes_from(
                                    replies,
                                    used,
                                    RequestModel::with_key(
                                        Operation::SignEcdsa(curve),
                                        key,
                                        Seq::empty(),
                                        request.data,
                                    ),
                                    DeviceError::InvalidData,
                                ),
                            },
                            _ => Err(HaltModel::Error(DeviceError::InvalidData, used)),
                        },
                    },
                }
            },
        }
    }

    /// An Ed25519 signature over a message.
    pub open spec fn signs_eddsa(
        self,
        authorization: SessionAuthorization,
        data: Seq<u8>,
        replies: Seq<EngineReply>,
        used: nat,
    ) -> Run<Seq<u8>> {
        match decoded::<IdRequest>(data) {
            Err(error) => Err(HaltModel::Error(error, used)),
            Ok(request) => match self.usable(authorization, ObjectType::AsymmetricKey, request.id) {
                Err(error) => Err(HaltModel::Error(error, used)),
                Ok(record) => if record.info.known_algorithm() != Some(Algorithm::Ed25519) {
                    Err(HaltModel::Error(DeviceError::InvalidData, used))
                } else {
                    match record.signing() {
                        Err(error) => Err(HaltModel::Error(error, used)),
                        Ok(key) => bytes_from(
                            replies,
                            used,
                            RequestModel::with_key(
                                Operation::SignEd25519,
                                key,
                                Seq::empty(),
                                request.data,
                            ),
                            DeviceError::InvalidData,
                        ),
                    }
                },
            },
        }
    }

    /// The secret that a key agrees on with a public key.
    pub open spec fn derives_ecdh(
        self,
        authorization: SessionAuthorization,
        data: Seq<u8>,
        replies: Seq<EngineReply>,
        used: nat,
    ) -> Run<Seq<u8>> {
        match decoded::<IdRequest>(data) {
            Err(error) => Err(HaltModel::Error(error, used)),
            Ok(request) => if request.data.len() == 0 {
                Err(HaltModel::Error(DeviceError::WrongLength, used))
            } else {
                match self.usable(authorization, ObjectType::AsymmetricKey, request.id) {
                    Err(error) => Err(HaltModel::Error(error, used)),
                    Ok(record) => record.agreed(request.data, replies, used),
                }
            },
        }
    }

    /// A key derived from an agreed secret with a prefix before it. The secret
    /// itself does not leave the device.
    pub open spec fn derives_ecdh_kdf(
        self,
        authorization: SessionAuthorization,
        data: Seq<u8>,
        replies: Seq<EngineReply>,
        used: nat,
    ) -> Run<Seq<u8>> {
        match decoded::<DeriveEcdhKdfRequest>(data) {
            Err(error) => Err(HaltModel::Error(error, used)),
            Ok(request) => match kdf_hash_of(request.hash) {
                Err(error) => Err(HaltModel::Error(error, used)),
                Ok(hash) => if request.output_length == 0 || secure_length(
                    request.output_length as int,
                ) > MAX_DATA_LENGTH {
                    Err(HaltModel::Error(DeviceError::WrongLength, used))
                } else {
                    match self.usable(authorization, ObjectType::AsymmetricKey, request.id) {
                        Err(error) => Err(HaltModel::Error(error, used)),
                        Ok(record) => match record.agreed(request.peer_public, replies, used) {
                            Err(halt) => Err(halt),
                            Ok((secret, used)) => bytes_from(
                                replies,
                                used,
                                RequestModel::compute(
                                    Operation::X963Kdf(hash, request.output_length as usize),
                                    request.prefix + secret,
                                    request.shared_info,
                                    Seq::empty(),
                                ),
                                DeviceError::InvalidData,
                            ),
                        },
                    }
                },
            },
        }
    }

    /// An RSA PKCS #1 decryption.
    pub open spec fn decrypts_pkcs1(
        self,
        authorization: SessionAuthorization,
        data: Seq<u8>,
        replies: Seq<EngineReply>,
        used: nat,
    ) -> Run<Seq<u8>> {
        match decoded::<IdRequest>(data) {
            Err(error) => Err(HaltModel::Error(error, used)),
            Ok(request) => if request.data.len() == 0 {
                Err(HaltModel::Error(DeviceError::WrongLength, used))
            } else {
                match self.usable(authorization, ObjectType::AsymmetricKey, request.id) {
                    Err(error) => Err(HaltModel::Error(error, used)),
                    Ok(record) => match record.rsa() {
                        Err(error) => Err(HaltModel::Error(error, used)),
                        Ok(key) => bytes_from(
                            replies,
                            used,
                            RequestModel::with_key(
                                Operation::DecryptPkcs1,
                                key,
                                Seq::empty(),
                                request.data,
                            ),
                            DeviceError::InvalidData,
                        ),
                    },
                }
            },
        }
    }

    /// An RSA-OAEP decryption: one block and the digest of the label after it.
    pub open spec fn decrypts_oaep(
        self,
        authorization: SessionAuthorization,
        data: Seq<u8>,
        replies: Seq<EngineReply>,
        used: nat,
    ) -> Run<Seq<u8>> {
        match decoded::<DecryptOaepRequest>(data) {
            Err(error) => Err(HaltModel::Error(error, used)),
            Ok(request) => match self.usable(authorization, ObjectType::AsymmetricKey, request.id) {
                Err(error) => Err(HaltModel::Error(error, used)),
                Ok(record) => match record.modulus_length() {
                    Err(error) => Err(HaltModel::Error(error, used)),
                    Ok(modulus) => {
                        let input = request.ciphertext_and_label;
                        if hash_of_length(input.len() - modulus) is None {
                            Err(HaltModel::Error(DeviceError::WrongLength, used))
                        } else {
                            match mgf_hash_of(request.mgf_hash) {
                                Err(error) => Err(HaltModel::Error(error, used)),
                                Ok(mgf_hash) => match record.rsa() {
                                    Err(error) => Err(HaltModel::Error(error, used)),
                                    Ok(key) => bytes_from(
                                        replies,
                                        used,
                                        RequestModel::with_key(
                                            Operation::DecryptOaep(mgf_hash),
                                            key,
                                            input.subrange(modulus as int, input.len() as int),
                                            input.subrange(0, modulus as int),
                                        ),
                                        DeviceError::InvalidData,
                                    ),
                                },
                            }
                        }
                    },
                },
            },
        }
    }

    /// An HMAC of a message.
    pub open spec fn signs_hmac(
        self,
        authorization: SessionAuthorization,
        data: Seq<u8>,
        replies: Seq<EngineReply>,
        used: nat,
    ) -> Run<Seq<u8>> {
        match decoded::<IdRequest>(data) {
            Err(error) => Err(HaltModel::Error(error, used)),
            Ok(request) => match self.usable(authorization, ObjectType::HmacKey, request.id) {
                Err(error) => Err(HaltModel::Error(error, used)),
                Ok(record) => record.hmac(request.data, replies, used),
            },
        }
    }

    /// Whether an HMAC is that of the message after it.
    pub open spec fn verifies_hmac(
        self,
        authorization: SessionAuthorization,
        data: Seq<u8>,
        replies: Seq<EngineReply>,
        used: nat,
    ) -> Run<Seq<u8>> {
        match decoded::<IdRequest>(data) {
            Err(error) => Err(HaltModel::Error(error, used)),
            Ok(request) => match self.usable(authorization, ObjectType::HmacKey, request.id) {
                Err(error) => Err(HaltModel::Error(error, used)),
                Ok(record) => match hmac_hash_of(record.info.algorithm) {
                    None => Err(HaltModel::Error(DeviceError::InvalidData, used)),
                    Some(hash) => {
                        let length = hash.size() as int;
                        if request.data.len() < length {
                            Err(HaltModel::Error(DeviceError::WrongLength, used))
                        } else {
                            match record.hmac(
                                request.data.subrange(length, request.data.len() as int),
                                replies,
                                used,
                            ) {
                                Err(halt) => Err(halt),
                                Ok((expected, used)) => Ok(
                                    (
                                        verdict(expected == request.data.subrange(0, length)),
                                        used,
                                    ),
                                ),
                            }
                        }
                    },
                },
            },
        }
    }

    /// An AES-ECB operation over whole blocks.
    pub open spec fn crypts_ecb(
        self,
        authorization: SessionAuthorization,
        data: Seq<u8>,
        encrypt: bool,
        replies: Seq<EngineReply>,
        used: nat,
    ) -> Run<Seq<u8>> {
        match decoded::<IdRequest>(data) {
            Err(error) => Err(HaltModel::Error(error, used)),
            Ok(request) => if request.data.len() < 16 || request.data.len() % 16 != 0 {
                Err(HaltModel::Error(DeviceError::WrongLength, used))
            } else {
                match self.symmetric_key(authorization, request.id) {
                    Err(error) => Err(HaltModel::Error(error, used)),
                    Ok(record) => match record.secret() {
                        Err(error) => Err(HaltModel::Error(error, used)),
                        Ok(key) => bytes_from(
                            replies,
                            used,
                            RequestModel::keyed(
                                if encrypt {
                                    Operation::EncryptEcb
                                } else {
                                    Operation::DecryptEcb
                                },
                                key,
                                request.data,
                            ),
                            DeviceError::InvalidData,
                        ),
                    },
                }
            },
        }
    }

    /// An AES-CBC operation over whole blocks.
    pub open spec fn crypts_cbc(
        self,
        authorization: SessionAuthorization,
        data: Seq<u8>,
        encrypt: bool,
        replies: Seq<EngineReply>,
        used: nat,
    ) -> Run<Seq<u8>> {
        match decoded::<AesCbcRequest>(data) {
            Err(error) => Err(HaltModel::Error(error, used)),
            Ok(request) => if request.input.len() < 16 || request.input.len() % 16 != 0 {
                Err(HaltModel::Error(DeviceError::WrongLength, used))
            } else {
                match self.symmetric_key(authorization, request.id) {
                    Err(error) => Err(HaltModel::Error(error, used)),
                    Ok(record) => match record.secret() {
                        Err(error) => Err(HaltModel::Error(error, used)),
                        Ok(key) => bytes_from(
                            replies,
                            used,
                            RequestModel::compute(
                                if encrypt {
                                    Operation::EncryptCbc
                                } else {
                                    Operation::DecryptCbc
                                },
                                key,
                                request.iv,
                                request.input,
                            ),
                            DeviceError::InvalidData,
                        ),
                    },
                }
            },
        }
    }

    /// Data encrypted under a wrap key: a format byte, a random nonce, and the
    /// ciphertext with its tag.
    pub open spec fn wraps_data(
        self,
        authorization: SessionAuthorization,
        data: Seq<u8>,
        replies: Seq<EngineReply>,
        used: nat,
    ) -> Run<Seq<u8>> {
        match decoded::<IdRequest>(data) {
            Err(error) => Err(HaltModel::Error(error, used)),
            Ok(request) => match self.ccm_key(authorization, request.id) {
                Err(error) => Err(HaltModel::Error(error, used)),
                Ok(record) => record.ccm_encrypted(request.data, replies, used),
            },
        }
    }

    /// Data that was encrypted under a wrap key.
    pub open spec fn unwraps_data(
        self,
        authorization: SessionAuthorization,
        data: Seq<u8>,
        replies: Seq<EngineReply>,
        used: nat,
    ) -> Run<Seq<u8>> {
        match decoded::<IdRequest>(data) {
            Err(error) => Err(HaltModel::Error(error, used)),
            Ok(request) => {
                let wrapped = request.data;
                if wrapped.len() < 1 + AES_CCM_NONCE_SIZE + AES_CCM_TAG_SIZE || wrapped[0] != 1 {
                    Err(HaltModel::Error(DeviceError::WrongLength, used))
                } else {
                    match self.ccm_key(authorization, request.id) {
                        Err(error) => Err(HaltModel::Error(error, used)),
                        Ok(record) => record.ccm_decrypted(
                            wrapped.subrange(1, 14),
                            wrapped.subrange(14, wrapped.len() as int),
                            replies,
                            used,
                        ),
                    }
                }
            },
        }
    }

    /// A credential encrypted under an OTP key.
    pub open spec fn creates_otp_aead(
        self,
        authorization: SessionAuthorization,
        data: Seq<u8>,
        replies: Seq<EngineReply>,
        used: nat,
    ) -> Run<Seq<u8>> {
        match decoded::<CreateOtpAeadRequest>(data) {
            Err(error) => Err(HaltModel::Error(error, used)),
            Ok(request) => match self.usable(authorization, ObjectType::OtpAeadKey, request.id) {
                Err(error) => Err(HaltModel::Error(error, used)),
                Ok(record) => record.otp_encrypted(request.credential, replies, used),
            },
        }
    }

    /// A random credential encrypted under an OTP key.
    pub open spec fn randomizes_otp_aead(
        self,
        authorization: SessionAuthorization,
        data: Seq<u8>,
        replies: Seq<EngineReply>,
        used: nat,
    ) -> Run<Seq<u8>> {
        match decoded::<NumberRequest>(data) {
            Err(error) => Err(HaltModel::Error(error, used)),
            Ok(request) => match self.usable(authorization, ObjectType::OtpAeadKey, request.value) {
                Err(error) => Err(HaltModel::Error(error, used)),
                Ok(record) => match random_from(replies, used, 22) {
                    Err(halt) => Err(halt),
                    Ok((credential, used)) => record.otp_encrypted(credential, replies, used),
                },
            },
        }
    }

    /// What a one-time password says: its counters and timestamp, where it
    /// belongs to the credential and its checksum is right.
    pub open spec fn decrypts_otp(
        self,
        authorization: SessionAuthorization,
        data: Seq<u8>,
        replies: Seq<EngineReply>,
        used: nat,
    ) -> Run<Seq<u8>> {
        match decoded::<DecryptOtpRequest>(data) {
            Err(error) => Err(HaltModel::Error(error, used)),
            Ok(request) => match self.usable(authorization, ObjectType::OtpAeadKey, request.id) {
                Err(error) => Err(HaltModel::Error(error, used)),
                Ok(record) => match record.otp_decrypted(request.aead, replies, used) {
                    Err(halt) => Err(halt),
                    Ok((credential, used)) => match sized_from(
                        replies,
                        used,
                        RequestModel::keyed(
                            Operation::DecryptEcb,
                            credential.subrange(0, 16),
                            request.otp,
                        ),
                        16,
                        DeviceError::InvalidData,
                    ) {
                        Err(halt) => Err(halt),
                        Ok((token, used)) => if token.subrange(0, 6) != credential.subrange(16, 22)
                            || crc16(token) != 0xf0b8 {
                            Err(HaltModel::Error(DeviceError::InvalidOtp, used))
                        } else {
                            Ok(
                                (
                                    token.subrange(6, 8) + seq![token[11], token[10]]
                                        + token.subrange(8, 10),
                                    used,
                                ),
                            )
                        },
                    },
                },
            },
        }
    }

    /// A credential encrypted under another OTP key.
    pub open spec fn rewraps_otp_aead(
        self,
        authorization: SessionAuthorization,
        data: Seq<u8>,
        replies: Seq<EngineReply>,
        used: nat,
    ) -> Run<Seq<u8>> {
        match decoded::<RewrapOtpAeadRequest>(data) {
            Err(error) => Err(HaltModel::Error(error, used)),
            Ok(request) => match self.usable(
                authorization,
                ObjectType::OtpAeadKey,
                request.from_id,
            ) {
                Err(error) => Err(HaltModel::Error(error, used)),
                Ok(from) => match self.usable(
                    authorization,
                    ObjectType::OtpAeadKey,
                    request.to_id,
                ) {
                    Err(error) => Err(HaltModel::Error(error, used)),
                    Ok(to) => match from.otp_decrypted(request.aead, replies, used) {
                        Err(halt) => Err(halt),
                        Ok((credential, used)) => to.otp_encrypted(credential, replies, used),
                    },
                },
            },
        }
    }
}

impl RecordModel {
    /// Data encrypted under a wrap key with a random nonce, in the wrapping
    /// format.
    pub open spec fn ccm_encrypted(
        self,
        plaintext: Seq<u8>,
        replies: Seq<EngineReply>,
        used: nat,
    ) -> Run<Seq<u8>> {
        match random_from(replies, used, AES_CCM_NONCE_SIZE) {
            Err(halt) => Err(halt),
            Ok((nonce, used)) => match self.secret() {
                Err(error) => Err(HaltModel::Error(error, used)),
                Ok(key) => match bytes_from(
                    replies,
                    used,
                    RequestModel::compute(Operation::EncryptCcm, key, nonce, plaintext),
                    DeviceError::InvalidData,
                ) {
                    Err(halt) => Err(halt),
                    Ok((encrypted, used)) => Ok((seq![1u8] + nonce + encrypted, used)),
                },
            },
        }
    }

    /// Data that was encrypted under a wrap key with a nonce.
    pub open spec fn ccm_decrypted(
        self,
        nonce: Seq<u8>,
        ciphertext: Seq<u8>,
        replies: Seq<EngineReply>,
        used: nat,
    ) -> Run<Seq<u8>> {
        match self.secret() {
            Err(error) => Err(HaltModel::Error(error, used)),
            Ok(key) => bytes_from(
                replies,
                used,
                RequestModel::compute(Operation::DecryptCcm, key, nonce, ciphertext),
                DeviceError::InvalidData,
            ),
        }
    }
}

/// Encrypts data under a wrap key, in the wrapping format.
pub fn ccm_encrypt(object: &ObjectRecord, plaintext: &[u8], answers: &mut Answers) -> (wrapped:
    core::result::Result<Vec<u8>, Halt>)
    requires
        old(answers).valid(),
    ensures
        final(answers).valid(),
        final(answers).replies == old(answers).replies,
        run(wrapped, final(answers).used) == object@.ccm_encrypted(
            plaintext@,
            old(answers).replies@,
            old(answers).used as nat,
        ),
{
    let nonce: Vec<u8> = draw_random(AES_CCM_NONCE_SIZE, answers)?;
    let key = lift(object_secret(object))?;
    let encrypted: Vec<u8> = answers.bytes(
        EngineRequest::compute(Operation::EncryptCcm, key, &nonce, plaintext),
        DeviceError::InvalidData,
    )?;
    Ok(joined(&joined(&single(1), &nonce), &encrypted))
}

/// Decrypts data under a wrap key.
pub fn ccm_decrypt(
    object: &ObjectRecord,
    nonce: &[u8],
    ciphertext: &[u8],
    answers: &mut Answers,
) -> (plaintext:
    core::result::Result<Vec<u8>, Halt>)
    requires
        old(answers).valid(),
    ensures
        final(answers).valid(),
        final(answers).replies == old(answers).replies,
        run(plaintext, final(answers).used) == object@.ccm_decrypted(
            nonce@,
            ciphertext@,
            old(answers).replies@,
            old(answers).used as nat,
        ),
{
    let key = lift(object_secret(object))?;
    answers.bytes(
        EngineRequest::compute(Operation::DecryptCcm, key, nonce, ciphertext),
        DeviceError::InvalidData,
    )
}

/// Asks for a computation with a private signing key and no parameter.
fn private_computation(operation: Operation, key: &SigningKey, data: &[u8]) -> (request:
    EngineRequest)
    ensures
        request@ == RequestModel::with_key(operation, key@, Seq::empty(), data@),
{
    let none: Vec<u8> = Vec::new();
    assert(none@ =~= Seq::<u8>::empty());
    EngineRequest::with_key(operation, key, &none, data)
}

impl Device {
    /// Looks up an AES key that a session finds.
    pub fn symmetric_object(&self, authorization: SessionAuthorization, id: u16) -> (record: Result<
        &ObjectRecord,
    >)
        ensures
            viewed(record) == self@.symmetric_key(authorization, id),
    {
        let record = self.find_usable(authorization, ObjectType::SymmetricKey, id)?;
        match Algorithm::from_byte(record.info.algorithm) {
            Some(algorithm) => {
                if symmetric_key_length(algorithm).is_none() {
                    return Err(DeviceError::InvalidData);
                }
                Ok(record)
            },
            None => Err(DeviceError::InvalidData),
        }
    }

    /// Looks up an AES wrap key that a session finds.
    pub fn ccm_wrap_key(&self, authorization: SessionAuthorization, id: u16) -> (record: Result<
        &ObjectRecord,
    >)
        ensures
            viewed(record) == self@.ccm_key(authorization, id),
    {
        let record = self.find_usable(authorization, ObjectType::WrapKey, id)?;
        match Algorithm::from_byte(record.info.algorithm) {
            Some(algorithm) => {
                if ccm_key_length(algorithm).is_none() {
                    return Err(DeviceError::InvalidData);
                }
                Ok(record)
            },
            None => Err(DeviceError::InvalidData),
        }
    }

    /// Returns the public part of a key.
    pub fn get_public_key(&self, authorization: SessionAuthorization, data: &[u8]) -> (output:
        Result<Vec<u8>>)
        ensures
            viewed(output) == self@.gets_public_key(authorization, data@),
    {
        let request = decode::<GetPublicKeyRequest>(data)?;
        if !matches!(
            request.object_type,
            ObjectType::AsymmetricKey
                | ObjectType::AuthenticationKey
                | ObjectType::WrapKey
                | ObjectType::PublicWrapKey
        ) {
            return Err(DeviceError::InvalidData);
        }
        let record = self.find_visible(
            authorization,
            ObjectKey { object_type: request.object_type, id: request.id },
        )?;
        let public: Vec<u8> = public_part(record)?;
        Ok(joined(&single(record.info.algorithm), &public))
    }

    /// Signs a digest or a payload by RSA PKCS #1.
    pub fn sign_pkcs1(
        &self,
        authorization: SessionAuthorization,
        data: &[u8],
        answers: &mut Answers,
    ) -> (output: core::result::Result<Vec<u8>, Halt>)
        requires
            old(answers).valid(),
        ensures
            final(answers).valid(),
            final(answers).replies == old(answers).replies,
            run(output, final(answers).used) == self@.signs_pkcs1(
                authorization,
                data@,
                old(answers).replies@,
                old(answers).used as nat,
            ),
    {
        let request = lift(decode::<IdRequest>(data))?;
        if request.data.len() == 0 {
            return fail(DeviceError::WrongLength);
        }
        let object = lift(self.find_usable(authorization, ObjectType::AsymmetricKey, request.id))?;
        let key = lift(rsa_key(object))?;
        let operation = match rsa_hash_from_digest_length(request.data.len()) {
            Some(hash) => Operation::SignPkcs1Digest(hash),
            None => Operation::SignPkcs1Payload,
        };
        answers.bytes(
            private_computation(operation, key, request.data),
            DeviceError::InvalidData,
        )
    }

    /// Signs a digest by RSA-PSS.
    pub fn sign_pss(
        &self,
        authorization: SessionAuthorization,
        data: &[u8],
        answers: &mut Answers,
    ) -> (output: core::result::Result<Vec<u8>, Halt>)
        requires
            old(answers).valid(),
        ensures
            final(answers).valid(),
            final(answers).replies == old(answers).replies,
            run(output, final(answers).used) == self@.signs_pss(
                authorization,
                data@,
                old(answers).replies@,
                old(answers).used as nat,
            ),
    {
        let request = lift(decode::<SignPssRequest>(data))?;
        if request.digest.len() == 0 {
            return fail(DeviceError::WrongLength);
        }
        let object = lift(self.find_usable(authorization, ObjectType::AsymmetricKey, request.id))?;
        let mgf_hash = lift(rsa_mgf_hash(request.mgf_hash))?;
        let hash = match rsa_hash_from_digest_length(request.digest.len()) {
            Some(hash) => hash,
            None => {
                return fail(DeviceError::WrongLength);
            },
        };
        let key = lift(rsa_key(object))?;
        answers.bytes(
            private_computation(
                Operation::SignPss(hash, mgf_hash, request.salt_length as usize),
                key,
                request.digest,
            ),
            DeviceError::InvalidData,
        )
    }

    /// Signs a digest by ECDSA.
    pub fn sign_ecdsa(
        &self,
        authorization: SessionAuthorization,
        data: &[u8],
        answers: &mut Answers,
    ) -> (output: core::result::Result<Vec<u8>, Halt>)
        requires
            old(answers).valid(),
        ensures
            final(answers).valid(),
            final(answers).replies == old(answers).replies,
            run(output, final(answers).used) == self@.signs_ecdsa(
                authorization,
                data@,
                old(answers).replies@,
                old(answers).used as nat,
            ),
    {
        let request = lift(decode::<IdRequest>(data))?;
        if request.data.len() == 0 {
            return fail(DeviceError::WrongLength);
        }
        let object = lift(self.find_usable(authorization, ObjectType::AsymmetricKey, request.id))?;
        let algorithm = match Algorithm::from_byte(object.info.algorithm) {
            Some(algorithm) => algorithm,
            None => {
                return fail(DeviceError::InvalidData);
            },
        };
        let kind = lift(key_kind(algorithm))?;
        match kind {
            KeyKind::Ec(curve) => {
                let key = lift(signing_key(object))?;
                answers.bytes(
                    private_computation(Operation::SignEcdsa(curve), key, request.data),
                    DeviceError::InvalidData,
                )
            },
            _ => fail(DeviceError::InvalidData),
        }
    }

    /// Signs a message by Ed25519.
    pub fn sign_eddsa(
        &self,
        authorization: SessionAuthorization,
        data: &[u8],
        answers: &mut Answers,
    ) -> (output: core::result::Result<Vec<u8>, Halt>)
        requires
            old(answers).valid(),
        ensures
            final(answers).valid(),
            final(answers).replies == old(answers).replies,
            run(output, final(answers).used) == self@.signs_eddsa(
                authorization,
                data@,
                old(answers).replies@,
                old(answers).used as nat,
            ),
    {
        let request = lift(decode::<IdRequest>(data))?;
        let object = lift(self.find_usable(authorization, ObjectType::AsymmetricKey, request.id))?;
        if !matches!(Algorithm::from_byte(object.info.algorithm), Some(Algorithm::Ed25519)) {
            return fail(DeviceError::InvalidData);
        }
        let key = lift(signing_key(object))?;
        answers.bytes(
            private_computation(Operation::SignEd25519, key, request.data),
            DeviceError::InvalidData,
        )
    }

    /// Agrees on a secret with a public key.
    pub fn derive_ecdh(
        &self,
        authorization: SessionAuthorization,
        data: &[u8],
        answers: &mut Answers,
    ) -> (output: core::result::Result<Vec<u8>, Halt>)
        requires
            old(answers).valid(),
        ensures
            final(answers).valid(),
            final(answers).replies == old(answers).replies,
            run(output, final(answers).used) == self@.derives_ecdh(
                authorization,
                data@,
                old(answers).replies@,
                old(answers).used as nat,
            ),
    {
        let request = lift(decode::<IdRequest>(data))?;
        if request.data.len() == 0 {
            return fail(DeviceError::WrongLength);
        }
        let object = lift(self.find_usable(authorization, ObjectType::AsymmetricKey, request.id))?;
        raw_ecdh_secret(object, request.data, answers)
    }

    /// Derives a key from an agreed secret with a prefix before it.
    pub fn derive_ecdh_kdf(
        &self,
        authorization: SessionAuthorization,
        data: &[u8],
        answers: &mut Answers,
    ) -> (output: core::result::Result<Vec<u8>, Halt>)
        requires
            old(answers).valid(),
        ensures
            final(answers).valid(),
            final(answers).replies == old(answers).replies,
            run(output, final(answers).used) == self@.derives_ecdh_kdf(
                authorization,
                data@,
                old(answers).replies@,
                old(answers).used as nat,
            ),
    {
        let request = lift(decode::<DeriveEcdhKdfRequest>(data))?;
        let hash = lift(ecdh_kdf_hash(request.hash))?;
        let output_length: usize = request.output_length as usize;
        if output_length == 0 || !secure_response_data_fits(output_length) {
            return fail(DeviceError::WrongLength);
        }
        let object = lift(self.find_usable(authorization, ObjectType::AsymmetricKey, request.id))?;
        let secret: Vec<u8> = raw_ecdh_secret(object, request.peer_public, answers)?;
        let none: Vec<u8> = Vec::new();
        assert(none@ =~= Seq::<u8>::empty());
        answers.bytes(
            EngineRequest::compute(
                Operation::X963Kdf(hash, output_length),
                &joined(request.prefix, &secret),
                request.shared_info,
                &none,
            ),
            DeviceError::InvalidData,
        )
    }

    /// Decrypts by RSA PKCS #1.
    pub fn decrypt_pkcs1(
        &self,
        authorization: SessionAuthorization,
        data: &[u8],
        answers: &mut Answers,
    ) -> (output: core::result::Result<Vec<u8>, Halt>)
        requires
            old(answers).valid(),
        ensures
            final(answers).valid(),
            final(answers).replies == old(answers).replies,
            run(output, final(answers).used) == self@.decrypts_pkcs1(
                authorization,
                data@,
                old(answers).replies@,
                old(answers).used as nat,
            ),
    {
        let request = lift(decode::<IdRequest>(data))?;
        if request.data.len() == 0 {
            return fail(DeviceError::WrongLength);
        }
        let object = lift(self.find_usable(authorization, ObjectType::AsymmetricKey, request.id))?;
        let key = lift(rsa_key(object))?;
        answers.bytes(
            private_computation(Operation::DecryptPkcs1, key, request.data),
            DeviceError::InvalidData,
        )
    }

    /// Decrypts by RSA-OAEP.
    pub fn decrypt_oaep(
        &self,
        authorization: SessionAuthorization,
        data: &[u8],
        answers: &mut Answers,
    ) -> (output: core::result::Result<Vec<u8>, Halt>)
        requires
            old(answers).valid(),
        ensures
            final(answers).valid(),
            final(answers).replies == old(answers).replies,
            run(output, final(answers).used) == self@.decrypts_oaep(
                authorization,
                data@,
                old(answers).replies@,
                old(answers).used as nat,
            ),
    {
        let request = lift(decode::<DecryptOaepRequest>(data))?;
        let object = lift(self.find_usable(authorization, ObjectType::AsymmetricKey, request.id))?;
        let modulus: usize = lift(rsa_modulus_length(object))?;
        let input: &[u8] = request.ciphertext_and_label;
        if input.len() < modulus || rsa_hash_from_digest_length(input.len() - modulus).is_none() {
            return fail(DeviceError::WrongLength);
        }
        let mgf_hash = lift(rsa_mgf_hash(request.mgf_hash))?;
        let key = lift(rsa_key(object))?;
        answers.bytes(
            EngineRequest::with_key(
                Operation::DecryptOaep(mgf_hash),
                key,
                &copied_range(input, modulus, input.len()),
                &copied_range(input, 0, modulus),
            ),
            DeviceError::InvalidData,
        )
    }

    /// Calculates an HMAC.
    pub fn sign_hmac(
        &self,
        authorization: SessionAuthorization,
        data: &[u8],
        answers: &mut Answers,
    ) -> (output: core::result::Result<Vec<u8>, Halt>)
        requires
            old(answers).valid(),
        ensures
            final(answers).valid(),
            final(answers).replies == old(answers).replies,
            run(output, final(answers).used) == self@.signs_hmac(
                authorization,
                data@,
                old(answers).replies@,
                old(answers).used as nat,
            ),
    {
        let request = lift(decode::<IdRequest>(data))?;
        let object = lift(self.find_usable(authorization, ObjectType::HmacKey, request.id))?;
        calculate_hmac(object, request.data, answers)
    }

    /// Verifies an HMAC.
    pub fn verify_hmac(
        &self,
        authorization: SessionAuthorization,
        data: &[u8],
        answers: &mut Answers,
    ) -> (output: core::result::Result<Vec<u8>, Halt>)
        requires
            old(answers).valid(),
        ensures
            final(answers).valid(),
            final(answers).replies == old(answers).replies,
            run(output, final(answers).used) == self@.verifies_hmac(
                authorization,
                data@,
                old(answers).replies@,
                old(answers).used as nat,
            ),
    {
        let request = lift(decode::<IdRequest>(data))?;
        let object = lift(self.find_usable(authorization, ObjectType::HmacKey, request.id))?;
        let hash = lift(hmac_hash(object.info.algorithm))?;
        let length: usize = hash.output_length();
        if request.data.len() < length {
            return fail(DeviceError::WrongLength);
        }
        let signature: Vec<u8> = copied_range(request.data, 0, length);
        let message: Vec<u8> = copied_range(request.data, length, request.data.len());
        let expected: Vec<u8> = calculate_hmac(object, &message, answers)?;
        Ok(make_verdict(same_secret(&expected, &signature)))
    }

    /// Encrypts or decrypts by AES-ECB.
    pub fn crypt_aes_ecb(
        &self,
        authorization: SessionAuthorization,
        data: &[u8],
        encrypt: bool,
        answers: &mut Answers,
    ) -> (output: core::result::Result<Vec<u8>, Halt>)
        requires
            old(answers).valid(),
        ensures
            final(answers).valid(),
            final(answers).replies == old(answers).replies,
            run(output, final(answers).used) == self@.crypts_ecb(
                authorization,
                data@,
                encrypt,
                old(answers).replies@,
                old(answers).used as nat,
            ),
    {
        let request = lift(decode::<IdRequest>(data))?;
        if request.data.len() < 16 || request.data.len() % 16 != 0 {
            return fail(DeviceError::WrongLength);
        }
        let object = lift(self.symmetric_object(authorization, request.id))?;
        let key = lift(object_secret(object))?;
        let operation = if encrypt {
            Operation::EncryptEcb
        } else {
            Operation::DecryptEcb
        };
        answers.bytes(
            EngineRequest::keyed(operation, key, request.data),
            DeviceError::InvalidData,
        )
    }

    /// Encrypts or decrypts by AES-CBC.
    pub fn crypt_aes_cbc(
        &self,
        authorization: SessionAuthorization,
        data: &[u8],
        encrypt: bool,
        answers: &mut Answers,
    ) -> (output: core::result::Result<Vec<u8>, Halt>)
        requires
            old(answers).valid(),
        ensures
            final(answers).valid(),
            final(answers).replies == old(answers).replies,
            run(output, final(answers).used) == self@.crypts_cbc(
                authorization,
                data@,
                encrypt,
                old(answers).replies@,
                old(answers).used as nat,
            ),
    {
        let request = lift(decode::<AesCbcRequest>(data))?;
        if request.input.len() < 16 || request.input.len() % 16 != 0 {
            return fail(DeviceError::WrongLength);
        }
        let object = lift(self.symmetric_object(authorization, request.id))?;
        let key = lift(object_secret(object))?;
        let operation = if encrypt {
            Operation::EncryptCbc
        } else {
            Operation::DecryptCbc
        };
        answers.bytes(
            EngineRequest::compute(operation, key, request.iv, request.input),
            DeviceError::InvalidData,
        )
    }

    /// Encrypts data under a wrap key.
    pub fn wrap_data(
        &self,
        authorization: SessionAuthorization,
        data: &[u8],
        answers: &mut Answers,
    ) -> (output: core::result::Result<Vec<u8>, Halt>)
        requires
            old(answers).valid(),
        ensures
            final(answers).valid(),
            final(answers).replies == old(answers).replies,
            run(output, final(answers).used) == self@.wraps_data(
                authorization,
                data@,
                old(answers).replies@,
                old(answers).used as nat,
            ),
    {
        let request = lift(decode::<IdRequest>(data))?;
        let object = lift(self.ccm_wrap_key(authorization, request.id))?;
        ccm_encrypt(object, request.data, answers)
    }

    /// Decrypts data under a wrap key.
    pub fn unwrap_data(
        &self,
        authorization: SessionAuthorization,
        data: &[u8],
        answers: &mut Answers,
    ) -> (output: core::result::Result<Vec<u8>, Halt>)
        requires
            old(answers).valid(),
        ensures
            final(answers).valid(),
            final(answers).replies == old(answers).replies,
            run(output, final(answers).used) == self@.unwraps_data(
                authorization,
                data@,
                old(answers).replies@,
                old(answers).used as nat,
            ),
    {
        let request = lift(decode::<IdRequest>(data))?;
        let wrapped: &[u8] = request.data;
        if wrapped.len() < 1 + AES_CCM_NONCE_SIZE + AES_CCM_TAG_SIZE || wrapped[0] != 1 {
            return fail(DeviceError::WrongLength);
        }
        let object = lift(self.ccm_wrap_key(authorization, request.id))?;
        ccm_decrypt(
            object,
            &copied_range(wrapped, 1, 14),
            &copied_range(wrapped, 14, wrapped.len()),
            answers,
        )
    }

    /// Encrypts a credential under an OTP key.
    pub fn create_otp_aead(
        &self,
        authorization: SessionAuthorization,
        data: &[u8],
        answers: &mut Answers,
    ) -> (output: core::result::Result<Vec<u8>, Halt>)
        requires
            old(answers).valid(),
        ensures
            final(answers).valid(),
            final(answers).replies == old(answers).replies,
            run(output, final(answers).used) == self@.creates_otp_aead(
                authorization,
                data@,
                old(answers).replies@,
                old(answers).used as nat,
            ),
    {
        let request = lift(decode::<CreateOtpAeadRequest>(data))?;
        let object = lift(self.find_usable(authorization, ObjectType::OtpAeadKey, request.id))?;
        otp_aead_encrypt(object, request.credential, answers)
    }

    /// Encrypts a random credential under an OTP key.
    pub fn randomize_otp_aead(
        &self,
        authorization: SessionAuthorization,
        data: &[u8],
        answers: &mut Answers,
    ) -> (output: core::result::Result<Vec<u8>, Halt>)
        requires
            old(answers).valid(),
        ensures
            final(answers).valid(),
            final(answers).replies == old(answers).replies,
            run(output, final(answers).used) == self@.randomizes_otp_aead(
                authorization,
                data@,
                old(answers).replies@,
                old(answers).used as nat,
            ),
    {
        let request = lift(decode::<NumberRequest>(data))?;
        let object = lift(self.find_usable(authorization, ObjectType::OtpAeadKey, request.value))?;
        let credential: Vec<u8> = draw_random(22, answers)?;
        otp_aead_encrypt(object, &credential, answers)
    }

    /// Decrypts a one-time password.
    pub fn decrypt_otp(
        &self,
        authorization: SessionAuthorization,
        data: &[u8],
        answers: &mut Answers,
    ) -> (output: core::result::Result<Vec<u8>, Halt>)
        requires
            old(answers).valid(),
        ensures
            final(answers).valid(),
            final(answers).replies == old(answers).replies,
            run(output, final(answers).used) == self@.decrypts_otp(
                authorization,
                data@,
                old(answers).replies@,
                old(answers).used as nat,
            ),
    {
        let request = lift(decode::<DecryptOtpRequest>(data))?;
        let object = lift(self.find_usable(authorization, ObjectType::OtpAeadKey, request.id))?;
        let credential: Vec<u8> = otp_aead_decrypt(object, request.aead, answers)?;
        let token: Vec<u8> = answers.sized(
            EngineRequest::keyed(
                Operation::DecryptEcb,
                &copied_range(&credential, 0, 16),
                request.otp,
            ),
            16,
            DeviceError::InvalidData,
        )?;
        if !equal(&copied_range(&token, 0, 6), &copied_range(&credential, 16, 22))
            || yubico_crc16(&token) != 0xf0b8 {
            return fail(DeviceError::InvalidOtp);
        }
        let mut output: Vec<u8> = copied_range(&token, 6, 8);
        output.push(token[11]);
        output.push(token[10]);
        append(&mut output, &copied_range(&token, 8, 10));
        assert(output@ =~= token@.subrange(6, 8) + seq![token[11], token[10]] + token@.subrange(
            8,
            10,
        ));
        Ok(output)
    }

    /// Encrypts a credential under another OTP key.
    pub fn rewrap_otp_aead(
        &self,
        authorization: SessionAuthorization,
        data: &[u8],
        answers: &mut Answers,
    ) -> (output: core::result::Result<Vec<u8>, Halt>)
        requires
            old(answers).valid(),
        ensures
            final(answers).valid(),
            final(answers).replies == old(answers).replies,
            run(output, final(answers).used) == self@.rewraps_otp_aead(
                authorization,
                data@,
                old(answers).replies@,
                old(answers).used as nat,
            ),
    {
        let request = lift(decode::<RewrapOtpAeadRequest>(data))?;
        let from = lift(self.find_usable(authorization, ObjectType::OtpAeadKey, request.from_id))?;
        let to = lift(self.find_usable(authorization, ObjectType::OtpAeadKey, request.to_id))?;
        let credential: Vec<u8> = otp_aead_decrypt(from, request.aead, answers)?;
        otp_aead_encrypt(to, &credential, answers)
    }
}

/// Returns the public part of a key object.
fn public_part(object: &ObjectRecord) -> (public: Result<Vec<u8>>)
    ensures
        viewed(public) == object@.public_part(),
{
    match object.info.object_type {
        ObjectType::AuthenticationKey => match &object.material {
            ObjectMaterial::Authentication(AuthenticationKeyMaterial::Asymmetric(public)) => Ok(
                copied(public),
            ),
            _ => Err(DeviceError::InvalidData),
        },
        ObjectType::PublicWrapKey => match &object.material {
            ObjectMaterial::Public(public) => Ok(copied(public)),
            _ => Err(DeviceError::InvalidData),
        },
        _ => {
            if is_x25519(object) {
                return match &object.material {
                    ObjectMaterial::X25519Key(key) => Ok(copied(&key.public)),
                    _ => Err(DeviceError::InvalidData),
                };
            }
            let key = signing_key(object)?;
            match key.kind {
                KeyKind::Ec(_) => {
                    if key.public.len() == 0 {
                        return Err(DeviceError::InvalidData);
                    }
                    Ok(copied_range(&key.public, 1, key.public.len()))
                },
                _ => Ok(copied(&key.public)),
            }
        },
    }
}

/// Unwrapping hands the key engine exactly what it made when the data was
/// wrapped: the same key, the same nonce and the same ciphertext.
pub proof fn unwrapping_reverses_wrapping(
    record: RecordModel,
    plaintext: Seq<u8>,
    replies: Seq<EngineReply>,
    used: nat,
)
    requires
        record.ccm_encrypted(plaintext, replies, used) is Ok,
    ensures
        ({
            let wrapped = record.ccm_encrypted(plaintext, replies, used)->Ok_0.0;
            let (nonce, after) = random_from(replies, used, AES_CCM_NONCE_SIZE)->Ok_0;
            let encrypted = replies[after as int]->Bytes_0@;
            &&& wrapped.len() >= 14
            &&& wrapped[0] == 1
            &&& record.ccm_decrypted(
                wrapped.subrange(1, 14),
                wrapped.subrange(14, wrapped.len() as int),
                Seq::empty(),
                0,
            ) == Err::<(Seq<u8>, nat), HaltModel>(
                HaltModel::Ask(
                    RequestModel::compute(
                        Operation::DecryptCcm,
                        record.secret()->Ok_0,
                        nonce,
                        encrypted,
                    ),
                ),
            )
        }),
{
    let wrapped = record.ccm_encrypted(plaintext, replies, used)->Ok_0.0;
    let (nonce, after) = random_from(replies, used, AES_CCM_NONCE_SIZE)->Ok_0;
    let encrypted = replies[after as int]->Bytes_0@;
    assert(wrapped.subrange(1, 14) =~= nonce);
    assert(wrapped.subrange(14, wrapped.len() as int) =~= encrypted);
}

} // verus!
