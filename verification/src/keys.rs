//! Key material as plain values.
use crate::algorithm::Algorithm;
use crate::bytes::copied;
use crate::error::{DeviceError, Result};
use vstd::prelude::*;

verus! {

/// Hash functions that keys are used with.
#[derive(Clone, Copy, Debug, PartialEq, Eq, Structural)]
pub enum HashAlgorithm {
    Sha1,
    Sha224,
    Sha256,
    Sha384,
    Sha512,
    Sha3_224,
    Sha3_256,
    Sha3_384,
    Sha3_512,
}

impl HashAlgorithm {
    /// Length of a digest, in bytes.
    pub open spec fn size(self) -> usize {
        match self {
            HashAlgorithm::Sha1 => 20,
            HashAlgorithm::Sha224 | HashAlgorithm::Sha3_224 => 28,
            HashAlgorithm::Sha256 | HashAlgorithm::Sha3_256 => 32,
            HashAlgorithm::Sha384 | HashAlgorithm::Sha3_384 => 48,
            HashAlgorithm::Sha512 | HashAlgorithm::Sha3_512 => 64,
        }
    }

    /// Returns the length of a digest, in bytes.
    pub fn output_length(self) -> (length: usize)
        ensures
            length == self.size(),
    {
        match self {
            HashAlgorithm::Sha1 => 20,
            HashAlgorithm::Sha224 | HashAlgorithm::Sha3_224 => 28,
            HashAlgorithm::Sha256 | HashAlgorithm::Sha3_256 => 32,
            HashAlgorithm::Sha384 | HashAlgorithm::Sha3_384 => 48,
            HashAlgorithm::Sha512 | HashAlgorithm::Sha3_512 => 64,
        }
    }
}

/// Short Weierstrass curves.
#[derive(Clone, Copy, Debug, PartialEq, Eq, Structural)]
pub enum EcCurve {
    P224,
    P256,
    P384,
    P521,
    Secp256k1,
    BrainpoolP256,
    BrainpoolP384,
    BrainpoolP512,
}

impl EcCurve {
    /// Length of a private scalar, in bytes.
    pub open spec fn scalar_length(self) -> usize {
        match self {
            EcCurve::P224 => 28,
            EcCurve::P256 | EcCurve::Secp256k1 | EcCurve::BrainpoolP256 => 32,
            EcCurve::P384 | EcCurve::BrainpoolP384 => 48,
            EcCurve::P521 => 66,
            EcCurve::BrainpoolP512 => 64,
        }
    }
}

/// Returns the length of a private scalar on a curve, in bytes.
pub fn ec_private_length(curve: EcCurve) -> (length: usize)
    ensures
        length == curve.scalar_length(),
{
    match curve {
        EcCurve::P224 => 28,
        EcCurve::P256 | EcCurve::Secp256k1 | EcCurve::BrainpoolP256 => 32,
        EcCurve::P384 | EcCurve::BrainpoolP384 => 48,
        EcCurve::P521 => 66,
        EcCurve::BrainpoolP512 => 64,
    }
}

/// The public exponent of every RSA key: 65537.
pub const PUBLIC_EXPONENT: [u8; 3] = [1, 0, 1];

/// Tells whether an exponent is that of every RSA key. A key with another is not
/// taken.
pub fn is_public_exponent(exponent: &[u8]) -> (public: bool)
    ensures
        public == (exponent@ == seq![1u8, 0, 1]),
{
    let public: bool = exponent.len() == 3 && exponent[0] == PUBLIC_EXPONENT[0] && exponent[1]
        == PUBLIC_EXPONENT[1] && exponent[2] == PUBLIC_EXPONENT[2];
    assert(public ==> exponent@ =~= seq![1u8, 0, 1]);
    public
}

/// What kind of signing key a key is.
#[derive(Clone, Copy, Debug, PartialEq, Eq, Structural)]
pub enum KeyKind {
    Ec(EcCurve),
    Ed25519,
    Rsa { modulus_bits: usize },
}

impl KeyKind {
    /// Length of the protocol's private-key material, in bytes.
    pub open spec fn material_length(self) -> usize {
        match self {
            KeyKind::Ec(curve) => curve.scalar_length(),
            KeyKind::Ed25519 => 32,
            KeyKind::Rsa { modulus_bits } => modulus_bits / 8,
        }
    }

    /// The kind of signing key that an algorithm names.
    pub open spec fn named(algorithm: Algorithm) -> Option<KeyKind> {
        match algorithm {
            Algorithm::EcP224 => Some(KeyKind::Ec(EcCurve::P224)),
            Algorithm::EcP256 => Some(KeyKind::Ec(EcCurve::P256)),
            Algorithm::EcP384 => Some(KeyKind::Ec(EcCurve::P384)),
            Algorithm::EcP521 => Some(KeyKind::Ec(EcCurve::P521)),
            Algorithm::EcK256 => Some(KeyKind::Ec(EcCurve::Secp256k1)),
            Algorithm::EcBrainpoolP256 => Some(KeyKind::Ec(EcCurve::BrainpoolP256)),
            Algorithm::EcBrainpoolP384 => Some(KeyKind::Ec(EcCurve::BrainpoolP384)),
            Algorithm::EcBrainpoolP512 => Some(KeyKind::Ec(EcCurve::BrainpoolP512)),
            Algorithm::Ed25519 => Some(KeyKind::Ed25519),
            Algorithm::Rsa2048 => Some(KeyKind::Rsa { modulus_bits: 2048 }),
            Algorithm::Rsa3072 => Some(KeyKind::Rsa { modulus_bits: 3072 }),
            Algorithm::Rsa4096 => Some(KeyKind::Rsa { modulus_bits: 4096 }),
            _ => None,
        }
    }

    /// Tells whether this is an RSA key.
    pub fn is_rsa(self) -> (rsa: bool)
        ensures
            rsa == (self is Rsa),
    {
        matches!(self, KeyKind::Rsa { .. })
    }
}

/// Returns the kind of signing key that an algorithm names.
pub fn key_kind(algorithm: Algorithm) -> (kind: Result<KeyKind>)
    ensures
        kind == (match KeyKind::named(algorithm) {
            Some(kind) => Ok(kind),
            None => Err(DeviceError::InvalidData),
        }),
{
    match algorithm {
        Algorithm::EcP224 => Ok(KeyKind::Ec(EcCurve::P224)),
        Algorithm::EcP256 => Ok(KeyKind::Ec(EcCurve::P256)),
        Algorithm::EcP384 => Ok(KeyKind::Ec(EcCurve::P384)),
        Algorithm::EcP521 => Ok(KeyKind::Ec(EcCurve::P521)),
        Algorithm::EcK256 => Ok(KeyKind::Ec(EcCurve::Secp256k1)),
        Algorithm::EcBrainpoolP256 => Ok(KeyKind::Ec(EcCurve::BrainpoolP256)),
        Algorithm::EcBrainpoolP384 => Ok(KeyKind::Ec(EcCurve::BrainpoolP384)),
        Algorithm::EcBrainpoolP512 => Ok(KeyKind::Ec(EcCurve::BrainpoolP512)),
        Algorithm::Ed25519 => Ok(KeyKind::Ed25519),
        Algorithm::Rsa2048 => Ok(KeyKind::Rsa { modulus_bits: 2048 }),
        Algorithm::Rsa3072 => Ok(KeyKind::Rsa { modulus_bits: 3072 }),
        Algorithm::Rsa4096 => Ok(KeyKind::Rsa { modulus_bits: 4096 }),
        _ => Err(DeviceError::InvalidData),
    }
}

/// A private signing key that the key engine made or accepted.
///
/// `private` is the scalar or seed, for RSA the first prime. `second` is the
/// second RSA prime and empty otherwise. `public` is the uncompressed point, the
/// Edwards public key or the RSA modulus.
#[derive(Clone, Debug, PartialEq, Eq)]
pub struct SigningKey {
    pub kind: KeyKind,
    pub private: Vec<u8>,
    pub second: Vec<u8>,
    pub public: Vec<u8>,
}

/// What a signing key holds.
#[verifier::ext_equal]
pub struct SigningKeyModel {
    pub kind: KeyKind,
    pub private: Seq<u8>,
    pub second: Seq<u8>,
    pub public: Seq<u8>,
}

impl View for SigningKey {
    type V = SigningKeyModel;

    open spec fn view(&self) -> SigningKeyModel {
        SigningKeyModel {
            kind: self.kind,
            private: self.private@,
            second: self.second@,
            public: self.public@,
        }
    }
}

impl SigningKey {
    /// Copies the key.
    pub fn copied(&self) -> (key: SigningKey)
        ensures
            key@ == self@,
    {
        SigningKey {
            kind: self.kind,
            private: copied(&self.private),
            second: copied(&self.second),
            public: copied(&self.public),
        }
    }
}

/// A private X25519 key that the key engine made or accepted.
#[derive(Clone, Debug, PartialEq, Eq)]
pub struct X25519Key {
    pub private: Vec<u8>,
    pub public: Vec<u8>,
}

/// What an X25519 key holds.
#[verifier::ext_equal]
pub struct X25519KeyModel {
    pub private: Seq<u8>,
    pub public: Seq<u8>,
}

impl View for X25519Key {
    type V = X25519KeyModel;

    open spec fn view(&self) -> X25519KeyModel {
        X25519KeyModel { private: self.private@, public: self.public@ }
    }
}

impl X25519Key {
    /// Copies the key.
    pub fn copied(&self) -> (key: X25519Key)
        ensures
            key@ == self@,
    {
        X25519Key { private: copied(&self.private), public: copied(&self.public) }
    }
}

/// A number's bytes with zeros before them, up to a length.
pub open spec fn padded_left(value: Seq<u8>, length: int) -> Seq<u8> {
    Seq::new((length - value.len()) as nat, |i: int| 0u8) + value
}

/// Puts zeros before a number's bytes, up to a length.
pub fn left_pad(value: &[u8], length: usize) -> (padded: Result<Vec<u8>>)
    ensures
        match padded {
            Ok(padded) => value@.len() <= length && padded@ == padded_left(
                value@,
                length as int,
            ) && padded@.len() == length,
            Err(error) => value@.len() > length && error == DeviceError::InvalidData,
        },
{
    if value.len() > length {
        return Err(DeviceError::InvalidData);
    }
    let mut padded: Vec<u8> = crate::bytes::zeros(length - value.len());
    crate::bytes::append(&mut padded, value);
    Ok(padded)
}

/// The kind that an algorithm names has the algorithm's key length, and RSA
/// algorithms name RSA keys.
pub proof fn named_kinds_match_their_algorithm(algorithm: Algorithm)
    ensures
        match KeyKind::named(algorithm) {
            Some(kind) => algorithm.key_length() == Some(kind.material_length())
                && algorithm.is_rsa() == (kind is Rsa),
            None => algorithm.key_length() is Some ==> algorithm == Algorithm::X25519,
        },
{
}

} // verus!
