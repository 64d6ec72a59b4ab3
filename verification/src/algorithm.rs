//! Algorithm identifiers.
use crate::firmware::FirmwareProfile;
use vstd::prelude::*;

verus! {

/// Algorithm identifiers from the YubiHSM 2 protocol.
///
/// `X25519` and `EcdhKdf` are virtual-device extensions. The official registry
/// currently ends at `AesKwp`.
#[derive(Clone, Copy, Debug, PartialEq, Eq, Structural)]
pub enum Algorithm {
    RsaPkcs1Sha1,
    RsaPkcs1Sha256,
    RsaPkcs1Sha384,
    RsaPkcs1Sha512,
    RsaPssSha1,
    RsaPssSha256,
    RsaPssSha384,
    RsaPssSha512,
    Rsa2048,
    Rsa3072,
    Rsa4096,
    EcP256,
    EcP384,
    EcP521,
    EcK256,
    EcBrainpoolP256,
    EcBrainpoolP384,
    EcBrainpoolP512,
    HmacSha1,
    HmacSha256,
    HmacSha384,
    HmacSha512,
    EcdsaSha1,
    Ecdh,
    RsaOaepSha1,
    RsaOaepSha256,
    RsaOaepSha384,
    RsaOaepSha512,
    Aes128CcmWrap,
    OpaqueData,
    OpaqueX509Certificate,
    Mgf1Sha1,
    Mgf1Sha256,
    Mgf1Sha384,
    Mgf1Sha512,
    TemplateSsh,
    Aes128YubicoOtp,
    Aes128YubicoAuthentication,
    Aes192YubicoOtp,
    Aes256YubicoOtp,
    Aes192CcmWrap,
    Aes256CcmWrap,
    EcdsaSha256,
    EcdsaSha384,
    EcdsaSha512,
    Ed25519,
    EcP224,
    RsaPkcs1Decrypt,
    EcP256YubicoAuthentication,
    Aes128,
    Aes192,
    Aes256,
    AesEcb,
    AesCbc,
    AesKwp,
    X25519,
    /// Support for the virtual `DeriveEcdhKdf` command.
    EcdhKdf,
}

impl Algorithm {
    /// The protocol byte of this algorithm.
    pub open spec fn byte(self) -> u8 {
        match self {
            Algorithm::RsaPkcs1Sha1 => 1,
            Algorithm::RsaPkcs1Sha256 => 2,
            Algorithm::RsaPkcs1Sha384 => 3,
            Algorithm::RsaPkcs1Sha512 => 4,
            Algorithm::RsaPssSha1 => 5,
            Algorithm::RsaPssSha256 => 6,
            Algorithm::RsaPssSha384 => 7,
            Algorithm::RsaPssSha512 => 8,
            Algorithm::Rsa2048 => 9,
            Algorithm::Rsa3072 => 10,
            Algorithm::Rsa4096 => 11,
            Algorithm::EcP256 => 12,
            Algorithm::EcP384 => 13,
            Algorithm::EcP521 => 14,
            Algorithm::EcK256 => 15,
            Algorithm::EcBrainpoolP256 => 16,
            Algorithm::EcBrainpoolP384 => 17,
            Algorithm::EcBrainpoolP512 => 18,
            Algorithm::HmacSha1 => 19,
            Algorithm::HmacSha256 => 20,
            Algorithm::HmacSha384 => 21,
            Algorithm::HmacSha512 => 22,
            Algorithm::EcdsaSha1 => 23,
            Algorithm::Ecdh => 24,
            Algorithm::RsaOaepSha1 => 25,
            Algorithm::RsaOaepSha256 => 26,
            Algorithm::RsaOaepSha384 => 27,
            Algorithm::RsaOaepSha512 => 28,
            Algorithm::Aes128CcmWrap => 29,
            Algorithm::OpaqueData => 30,
            Algorithm::OpaqueX509Certificate => 31,
            Algorithm::Mgf1Sha1 => 32,
            Algorithm::Mgf1Sha256 => 33,
            Algorithm::Mgf1Sha384 => 34,
            Algorithm::Mgf1Sha512 => 35,
            Algorithm::TemplateSsh => 36,
            Algorithm::Aes128YubicoOtp => 37,
            Algorithm::Aes128YubicoAuthentication => 38,
            Algorithm::Aes192YubicoOtp => 39,
            Algorithm::Aes256YubicoOtp => 40,
            Algorithm::Aes192CcmWrap => 41,
            Algorithm::Aes256CcmWrap => 42,
            Algorithm::EcdsaSha256 => 43,
            Algorithm::EcdsaSha384 => 44,
            Algorithm::EcdsaSha512 => 45,
            Algorithm::Ed25519 => 46,
            Algorithm::EcP224 => 47,
            Algorithm::RsaPkcs1Decrypt => 48,
            Algorithm::EcP256YubicoAuthentication => 49,
            Algorithm::Aes128 => 50,
            Algorithm::Aes192 => 51,
            Algorithm::Aes256 => 52,
            Algorithm::AesEcb => 53,
            Algorithm::AesCbc => 54,
            Algorithm::AesKwp => 55,
            Algorithm::X25519 => 56,
            Algorithm::EcdhKdf => 57,
        }
    }

    /// The algorithm that a protocol byte stands for.
    pub open spec fn of_byte(value: u8) -> Option<Algorithm> {
        match value {
            1 => Some(Algorithm::RsaPkcs1Sha1),
            2 => Some(Algorithm::RsaPkcs1Sha256),
            3 => Some(Algorithm::RsaPkcs1Sha384),
            4 => Some(Algorithm::RsaPkcs1Sha512),
            5 => Some(Algorithm::RsaPssSha1),
            6 => Some(Algorithm::RsaPssSha256),
            7 => Some(Algorithm::RsaPssSha384),
            8 => Some(Algorithm::RsaPssSha512),
            9 => Some(Algorithm::Rsa2048),
            10 => Some(Algorithm::Rsa3072),
            11 => Some(Algorithm::Rsa4096),
            12 => Some(Algorithm::EcP256),
            13 => Some(Algorithm::EcP384),
            14 => Some(Algorithm::EcP521),
            15 => Some(Algorithm::EcK256),
            16 => Some(Algorithm::EcBrainpoolP256),
            17 => Some(Algorithm::EcBrainpoolP384),
            18 => Some(Algorithm::EcBrainpoolP512),
            19 => Some(Algorithm::HmacSha1),
            20 => Some(Algorithm::HmacSha256),
            21 => Some(Algorithm::HmacSha384),
            22 => Some(Algorithm::HmacSha512),
            23 => Some(Algorithm::EcdsaSha1),
            24 => Some(Algorithm::Ecdh),
            25 => Some(Algorithm::RsaOaepSha1),
            26 => Some(Algorithm::RsaOaepSha256),
            27 => Some(Algorithm::RsaOaepSha384),
            28 => Some(Algorithm::RsaOaepSha512),
            29 => Some(Algorithm::Aes128CcmWrap),
            30 => Some(Algorithm::OpaqueData),
            31 => Some(Algorithm::OpaqueX509Certificate),
            32 => Some(Algorithm::Mgf1Sha1),
            33 => Some(Algorithm::Mgf1Sha256),
            34 => Some(Algorithm::Mgf1Sha384),
            35 => Some(Algorithm::Mgf1Sha512),
            36 => Some(Algorithm::TemplateSsh),
            37 => Some(Algorithm::Aes128YubicoOtp),
            38 => Some(Algorithm::Aes128YubicoAuthentication),
            39 => Some(Algorithm::Aes192YubicoOtp),
            40 => Some(Algorithm::Aes256YubicoOtp),
            41 => Some(Algorithm::Aes192CcmWrap),
            42 => Some(Algorithm::Aes256CcmWrap),
            43 => Some(Algorithm::EcdsaSha256),
            44 => Some(Algorithm::EcdsaSha384),
            45 => Some(Algorithm::EcdsaSha512),
            46 => Some(Algorithm::Ed25519),
            47 => Some(Algorithm::EcP224),
            48 => Some(Algorithm::RsaPkcs1Decrypt),
            49 => Some(Algorithm::EcP256YubicoAuthentication),
            50 => Some(Algorithm::Aes128),
            51 => Some(Algorithm::Aes192),
            52 => Some(Algorithm::Aes256),
            53 => Some(Algorithm::AesEcb),
            54 => Some(Algorithm::AesCbc),
            55 => Some(Algorithm::AesKwp),
            56 => Some(Algorithm::X25519),
            57 => Some(Algorithm::EcdhKdf),
            _ => None,
        }
    }

    /// Returns the protocol byte.
    pub fn to_byte(self) -> (value: u8)
        ensures
            value == self.byte(),
    {
        match self {
            Algorithm::RsaPkcs1Sha1 => 1,
            Algorithm::RsaPkcs1Sha256 => 2,
            Algorithm::RsaPkcs1Sha384 => 3,
            Algorithm::RsaPkcs1Sha512 => 4,
            Algorithm::RsaPssSha1 => 5,
            Algorithm::RsaPssSha256 => 6,
            Algorithm::RsaPssSha384 => 7,
            Algorithm::RsaPssSha512 => 8,
            Algorithm::Rsa2048 => 9,
            Algorithm::Rsa3072 => 10,
            Algorithm::Rsa4096 => 11,
            Algorithm::EcP256 => 12,
            Algorithm::EcP384 => 13,
            Algorithm::EcP521 => 14,
            Algorithm::EcK256 => 15,
            Algorithm::EcBrainpoolP256 => 16,
            Algorithm::EcBrainpoolP384 => 17,
            Algorithm::EcBrainpoolP512 => 18,
            Algorithm::HmacSha1 => 19,
            Algorithm::HmacSha256 => 20,
            Algorithm::HmacSha384 => 21,
            Algorithm::HmacSha512 => 22,
            Algorithm::EcdsaSha1 => 23,
            Algorithm::Ecdh => 24,
            Algorithm::RsaOaepSha1 => 25,
            Algorithm::RsaOaepSha256 => 26,
            Algorithm::RsaOaepSha384 => 27,
            Algorithm::RsaOaepSha512 => 28,
            Algorithm::Aes128CcmWrap => 29,
            Algorithm::OpaqueData => 30,
            Algorithm::OpaqueX509Certificate => 31,
            Algorithm::Mgf1Sha1 => 32,
            Algorithm::Mgf1Sha256 => 33,
            Algorithm::Mgf1Sha384 => 34,
            Algorithm::Mgf1Sha512 => 35,
            Algorithm::TemplateSsh => 36,
            Algorithm::Aes128YubicoOtp => 37,
            Algorithm::Aes128YubicoAuthentication => 38,
            Algorithm::Aes192YubicoOtp => 39,
            Algorithm::Aes256YubicoOtp => 40,
            Algorithm::Aes192CcmWrap => 41,
            Algorithm::Aes256CcmWrap => 42,
            Algorithm::EcdsaSha256 => 43,
            Algorithm::EcdsaSha384 => 44,
            Algorithm::EcdsaSha512 => 45,
            Algorithm::Ed25519 => 46,
            Algorithm::EcP224 => 47,
            Algorithm::RsaPkcs1Decrypt => 48,
            Algorithm::EcP256YubicoAuthentication => 49,
            Algorithm::Aes128 => 50,
            Algorithm::Aes192 => 51,
            Algorithm::Aes256 => 52,
            Algorithm::AesEcb => 53,
            Algorithm::AesCbc => 54,
            Algorithm::AesKwp => 55,
            Algorithm::X25519 => 56,
            Algorithm::EcdhKdf => 57,
        }
    }

    /// Decodes a protocol byte.
    pub fn from_byte(value: u8) -> (decoded: Option<Algorithm>)
        ensures
            decoded == Algorithm::of_byte(value),
    {
        match value {
            1 => Some(Algorithm::RsaPkcs1Sha1),
            2 => Some(Algorithm::RsaPkcs1Sha256),
            3 => Some(Algorithm::RsaPkcs1Sha384),
            4 => Some(Algorithm::RsaPkcs1Sha512),
            5 => Some(Algorithm::RsaPssSha1),
            6 => Some(Algorithm::RsaPssSha256),
            7 => Some(Algorithm::RsaPssSha384),
            8 => Some(Algorithm::RsaPssSha512),
            9 => Some(Algorithm::Rsa2048),
            10 => Some(Algorithm::Rsa3072),
            11 => Some(Algorithm::Rsa4096),
            12 => Some(Algorithm::EcP256),
            13 => Some(Algorithm::EcP384),
            14 => Some(Algorithm::EcP521),
            15 => Some(Algorithm::EcK256),
            16 => Some(Algorithm::EcBrainpoolP256),
            17 => Some(Algorithm::EcBrainpoolP384),
            18 => Some(Algorithm::EcBrainpoolP512),
            19 => Some(Algorithm::HmacSha1),
            20 => Some(Algorithm::HmacSha256),
            21 => Some(Algorithm::HmacSha384),
            22 => Some(Algorithm::HmacSha512),
            23 => Some(Algorithm::EcdsaSha1),
            24 => Some(Algorithm::Ecdh),
            25 => Some(Algorithm::RsaOaepSha1),
            26 => Some(Algorithm::RsaOaepSha256),
            27 => Some(Algorithm::RsaOaepSha384),
            28 => Some(Algorithm::RsaOaepSha512),
            29 => Some(Algorithm::Aes128CcmWrap),
            30 => Some(Algorithm::OpaqueData),
            31 => Some(Algorithm::OpaqueX509Certificate),
            32 => Some(Algorithm::Mgf1Sha1),
            33 => Some(Algorithm::Mgf1Sha256),
            34 => Some(Algorithm::Mgf1Sha384),
            35 => Some(Algorithm::Mgf1Sha512),
            36 => Some(Algorithm::TemplateSsh),
            37 => Some(Algorithm::Aes128YubicoOtp),
            38 => Some(Algorithm::Aes128YubicoAuthentication),
            39 => Some(Algorithm::Aes192YubicoOtp),
            40 => Some(Algorithm::Aes256YubicoOtp),
            41 => Some(Algorithm::Aes192CcmWrap),
            42 => Some(Algorithm::Aes256CcmWrap),
            43 => Some(Algorithm::EcdsaSha256),
            44 => Some(Algorithm::EcdsaSha384),
            45 => Some(Algorithm::EcdsaSha512),
            46 => Some(Algorithm::Ed25519),
            47 => Some(Algorithm::EcP224),
            48 => Some(Algorithm::RsaPkcs1Decrypt),
            49 => Some(Algorithm::EcP256YubicoAuthentication),
            50 => Some(Algorithm::Aes128),
            51 => Some(Algorithm::Aes192),
            52 => Some(Algorithm::Aes256),
            53 => Some(Algorithm::AesEcb),
            54 => Some(Algorithm::AesCbc),
            55 => Some(Algorithm::AesKwp),
            56 => Some(Algorithm::X25519),
            57 => Some(Algorithm::EcdhKdf),
            _ => None,
        }
    }

    /// The official registry, in the order of its identifiers.
    pub const OFFICIAL: [Algorithm; 55] = [
        Algorithm::RsaPkcs1Sha1,
        Algorithm::RsaPkcs1Sha256,
        Algorithm::RsaPkcs1Sha384,
        Algorithm::RsaPkcs1Sha512,
        Algorithm::RsaPssSha1,
        Algorithm::RsaPssSha256,
        Algorithm::RsaPssSha384,
        Algorithm::RsaPssSha512,
        Algorithm::Rsa2048,
        Algorithm::Rsa3072,
        Algorithm::Rsa4096,
        Algorithm::EcP256,
        Algorithm::EcP384,
        Algorithm::EcP521,
        Algorithm::EcK256,
        Algorithm::EcBrainpoolP256,
        Algorithm::EcBrainpoolP384,
        Algorithm::EcBrainpoolP512,
        Algorithm::HmacSha1,
        Algorithm::HmacSha256,
        Algorithm::HmacSha384,
        Algorithm::HmacSha512,
        Algorithm::EcdsaSha1,
        Algorithm::Ecdh,
        Algorithm::RsaOaepSha1,
        Algorithm::RsaOaepSha256,
        Algorithm::RsaOaepSha384,
        Algorithm::RsaOaepSha512,
        Algorithm::Aes128CcmWrap,
        Algorithm::OpaqueData,
        Algorithm::OpaqueX509Certificate,
        Algorithm::Mgf1Sha1,
        Algorithm::Mgf1Sha256,
        Algorithm::Mgf1Sha384,
        Algorithm::Mgf1Sha512,
        Algorithm::TemplateSsh,
        Algorithm::Aes128YubicoOtp,
        Algorithm::Aes128YubicoAuthentication,
        Algorithm::Aes192YubicoOtp,
        Algorithm::Aes256YubicoOtp,
        Algorithm::Aes192CcmWrap,
        Algorithm::Aes256CcmWrap,
        Algorithm::EcdsaSha256,
        Algorithm::EcdsaSha384,
        Algorithm::EcdsaSha512,
        Algorithm::Ed25519,
        Algorithm::EcP224,
        Algorithm::RsaPkcs1Decrypt,
        Algorithm::EcP256YubicoAuthentication,
        Algorithm::Aes128,
        Algorithm::Aes192,
        Algorithm::Aes256,
        Algorithm::AesEcb,
        Algorithm::AesCbc,
        Algorithm::AesKwp,
    ];

    /// Whether the algorithm names an RSA key.
    pub open spec fn is_rsa(self) -> bool {
        self == Algorithm::Rsa2048 || self == Algorithm::Rsa3072 || self == Algorithm::Rsa4096
    }

    /// Tells whether the algorithm names an RSA key.
    pub fn is_rsa_key(self) -> (rsa: bool)
        ensures
            rsa == self.is_rsa(),
    {
        matches!(self, Algorithm::Rsa2048 | Algorithm::Rsa3072 | Algorithm::Rsa4096)
    }

    /// Whether the algorithm names a key on a short Weierstrass curve.
    pub open spec fn is_weierstrass(self) -> bool {
        match self {
            Algorithm::EcP224 | Algorithm::EcP256 | Algorithm::EcP384 | Algorithm::EcP521
            | Algorithm::EcK256 | Algorithm::EcBrainpoolP256 | Algorithm::EcBrainpoolP384
            | Algorithm::EcBrainpoolP512 => true,
            _ => false,
        }
    }

    /// Tells whether the algorithm names a key on a short Weierstrass curve.
    pub fn is_weierstrass_key(self) -> (weierstrass: bool)
        ensures
            weierstrass == self.is_weierstrass(),
    {
        matches!(
            self,
            Algorithm::EcP224 | Algorithm::EcP256 | Algorithm::EcP384 | Algorithm::EcP521
            | Algorithm::EcK256 | Algorithm::EcBrainpoolP256 | Algorithm::EcBrainpoolP384
            | Algorithm::EcBrainpoolP512
        )
    }

    /// Length of the private-key material, in bytes.
    pub open spec fn key_length(self) -> Option<usize> {
        match self {
            Algorithm::Rsa2048 => Some(256usize),
            Algorithm::Rsa3072 => Some(384usize),
            Algorithm::Rsa4096 => Some(512usize),
            Algorithm::EcP224 => Some(28usize),
            Algorithm::EcP256 | Algorithm::EcK256 | Algorithm::EcBrainpoolP256
            | Algorithm::Ed25519 | Algorithm::X25519 => Some(32usize),
            Algorithm::EcP384 | Algorithm::EcBrainpoolP384 => Some(48usize),
            Algorithm::EcP521 => Some(66usize),
            Algorithm::EcBrainpoolP512 => Some(64usize),
            _ => None,
        }
    }

    /// Serialized private-key material length used by protocol imports and the
    /// key engine.
    pub fn asymmetric_key_length(self) -> (length: Option<usize>)
        ensures
            length == self.key_length(),
    {
        match self {
            Algorithm::Rsa2048 => Some(256),
            Algorithm::Rsa3072 => Some(384),
            Algorithm::Rsa4096 => Some(512),
            Algorithm::EcP224 => Some(28),
            Algorithm::EcP256 | Algorithm::EcK256 | Algorithm::EcBrainpoolP256
            | Algorithm::Ed25519 | Algorithm::X25519 => Some(32),
            Algorithm::EcP384 | Algorithm::EcBrainpoolP384 => Some(48),
            Algorithm::EcP521 => Some(66),
            Algorithm::EcBrainpoolP512 => Some(64),
            _ => None,
        }
    }

    /// Object size that a physical YubiHSM reports for a key of the algorithm.
    pub open spec fn object_length(self) -> Option<usize> {
        match self {
            Algorithm::Rsa2048 => Some(896usize),
            Algorithm::Rsa3072 => Some(1_344usize),
            Algorithm::Rsa4096 => Some(1_792usize),
            Algorithm::EcP224 => Some(84usize),
            Algorithm::EcP256 | Algorithm::EcK256 | Algorithm::EcBrainpoolP256 => Some(96usize),
            Algorithm::EcP384 | Algorithm::EcBrainpoolP384 => Some(144usize),
            Algorithm::EcP521 => Some(198usize),
            Algorithm::EcBrainpoolP512 => Some(192usize),
            Algorithm::Ed25519 => Some(128usize),
            Algorithm::X25519 => Some(64usize),
            _ => None,
        }
    }

    /// Object size reported by a physical YubiHSM through `GetObjectInfo`.
    /// This is metadata only and must not be used as a key or wire length.
    pub fn asymmetric_object_length(self) -> (length: Option<usize>)
        ensures
            length == self.object_length(),
    {
        match self {
            Algorithm::Rsa2048 => Some(896),
            Algorithm::Rsa3072 => Some(1_344),
            Algorithm::Rsa4096 => Some(1_792),
            Algorithm::EcP224 => Some(84),
            Algorithm::EcP256 | Algorithm::EcK256 | Algorithm::EcBrainpoolP256 => Some(96),
            Algorithm::EcP384 | Algorithm::EcBrainpoolP384 => Some(144),
            Algorithm::EcP521 => Some(198),
            Algorithm::EcBrainpoolP512 => Some(192),
            Algorithm::Ed25519 => Some(128),
            Algorithm::X25519 => Some(64),
            _ => None,
        }
    }

    /// Object size that a physical YubiHSM reports for an HMAC key.
    pub open spec fn hmac_size(self) -> Option<usize> {
        match self {
            Algorithm::HmacSha1 | Algorithm::HmacSha256 => Some(128usize),
            Algorithm::HmacSha384 | Algorithm::HmacSha512 => Some(256usize),
            _ => None,
        }
    }

    /// Object size reported by a physical YubiHSM through `GetObjectInfo`.
    pub fn hmac_object_length(self) -> (length: Option<usize>)
        ensures
            length == self.hmac_size(),
    {
        match self {
            Algorithm::HmacSha1 | Algorithm::HmacSha256 => Some(128),
            Algorithm::HmacSha384 | Algorithm::HmacSha512 => Some(256),
            _ => None,
        }
    }

    /// Length of an AES key of the algorithm, in bytes.
    pub open spec fn aes_length(self) -> Option<usize> {
        match self {
            Algorithm::Aes128 | Algorithm::Aes128CcmWrap | Algorithm::Aes128YubicoOtp => Some(
                16usize,
            ),
            Algorithm::Aes192 | Algorithm::Aes192CcmWrap | Algorithm::Aes192YubicoOtp => Some(
                24usize,
            ),
            Algorithm::Aes256 | Algorithm::Aes256CcmWrap | Algorithm::Aes256YubicoOtp => Some(
                32usize,
            ),
            _ => None,
        }
    }

    /// Returns the length of an AES key of the algorithm, in bytes.
    pub fn aes_key_length(self) -> (length: Option<usize>)
        ensures
            length == self.aes_length(),
    {
        match self {
            Algorithm::Aes128 | Algorithm::Aes128CcmWrap | Algorithm::Aes128YubicoOtp => Some(16),
            Algorithm::Aes192 | Algorithm::Aes192CcmWrap | Algorithm::Aes192YubicoOtp => Some(24),
            Algorithm::Aes256 | Algorithm::Aes256CcmWrap | Algorithm::Aes256YubicoOtp => Some(32),
            _ => None,
        }
    }

    /// Whether a firmware profile knows the algorithm: the extensions belong to
    /// the profiles that enable them, the official registry to all profiles.
    pub open spec fn available(self, firmware: FirmwareProfile) -> bool {
        match self {
            Algorithm::X25519 => firmware == FirmwareProfile::Full,
            Algorithm::EcdhKdf => firmware.has_prefixed_ecdh(),
            _ => true,
        }
    }

    /// Tells whether a firmware profile knows the algorithm.
    pub fn supported_by_firmware(self, firmware: FirmwareProfile) -> (supported: bool)
        ensures
            supported == self.available(firmware),
    {
        match self {
            Algorithm::X25519 => firmware.extended_curves(),
            Algorithm::EcdhKdf => firmware.prefixed_ecdh(),
            _ => true,
        }
    }
}

/// An algorithm and its protocol byte determine each other: the byte decodes to
/// the algorithm it came from, and nothing else decodes to it.
pub proof fn algorithm_byte_round_trip(item: Algorithm, value: u8)
    ensures
        Algorithm::of_byte(item.byte()) == Some(item),
        Algorithm::of_byte(value) == Some(item) <==> item.byte() == value,
{
}

/// The registry is contiguous: a byte names an algorithm exactly where it lies
/// between the first identifier and the last extension.
pub proof fn registry_is_contiguous(value: u8)
    ensures
        Algorithm::of_byte(value) is Some <==> 1 <= value <= 57,
{
}

/// A key has an object size exactly where it has a material length, and no
/// algorithm names both an asymmetric and an AES key.
pub proof fn key_and_object_lengths_agree(algorithm: Algorithm)
    ensures
        algorithm.key_length() is Some <==> algorithm.object_length() is Some,
        !(algorithm.key_length() is Some && algorithm.aes_length() is Some),
        algorithm.is_rsa() ==> algorithm.key_length() is Some,
        algorithm.is_weierstrass() ==> algorithm.key_length() is Some,
{
}

} // verus!
