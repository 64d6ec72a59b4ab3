//! The device, run over a key engine that computes AES, CMAC, SHA-2, the SCP03
//! and X9.63 derivations and P-256 agreements as they are, and stands in for the
//! other primitives with ones that undo or verify each other.
use aes::cipher::{BlockCipherDecrypt, BlockCipherEncrypt};
use cmac::{Cmac, KeyInit, Mac};
use p256::ecdh::diffie_hellman;
use p256::elliptic_curve::sec1::ToSec1Point;
use sha2::Digest;
use virtual_yubihsm::algorithm::Algorithm;
use virtual_yubihsm::authorization::SessionAuthorization;
use virtual_yubihsm::capability::{Capability, CapabilitySet};
use virtual_yubihsm::connector::TransportError;
use virtual_yubihsm::device::{
    Device, DeviceConfig, Effect, MAX_OBJECTS, MAX_SESSIONS, SESSION_INACTIVITY_TIMEOUT,
};
use virtual_yubihsm::engine::{
    Answers, Attestation, AttestedExtension, Computation, CounterKdfField, EngineFailure,
    EngineReply, EngineRequest, Halt, IntegerFormat, LengthMethod, Operation,
};
use virtual_yubihsm::error::DeviceError;
use virtual_yubihsm::firmware::FirmwareProfile;
use virtual_yubihsm::frame::{Frame, MAX_DATA_LENGTH};
use virtual_yubihsm::host::{
    Credentials, Failure, HostAnswers, HostHalt, HostQuestion, HostReply, Oracle, OracleCall,
};
use virtual_yubihsm::in_process::InProcessTransport;
use virtual_yubihsm::keys::{
    is_public_exponent, EcCurve, HashAlgorithm, KeyKind, SigningKey, X25519Key, PUBLIC_EXPONENT,
};
use virtual_yubihsm::object::{
    AuthenticationKeyMaterial, ObjectInfo, ObjectKey, ObjectMaterial, ObjectRecord, ObjectType,
};
use virtual_yubihsm::options::{
    OPTION_ALGORITHM_TOGGLE, OPTION_COMMAND_AUDIT, OPTION_FIPS_MODE, OPTION_FORCE_AUDIT, OPTION_ON,
};
use virtual_yubihsm::persistence::{
    version_two_object_length, PersistentState, PERSISTENT_STATE_VERSION,
};
use virtual_yubihsm::protocol::{CommandCode, SessionObjectCommand};
use virtual_yubihsm::qualification::{Profile, Progress, Qualification, Report};
use virtual_yubihsm::scenario::{check, Expectation};
use virtual_yubihsm::session::{
    pad, unpad, AUTHENTICATION_ALGORITHM_AES128_YUBICO, AUTHENTICATION_ALGORITHM_EC_P256,
    BLOCK_SIZE, CHALLENGE_LENGTH,
};
use virtual_yubihsm::session_object::{
    SessionObjectKind, SessionObjects, FLAG_DERIVE, FLAG_READABLE, FLAG_VERIFY,
};
use virtual_yubihsm::store::OPAQUE_DATA_ALGORITHM;
use virtual_yubihsm::wrapped::{
    decode_wrapped_object, encode_wrapped_object, WRAPPED_MATERIAL_SECRET, WRAPPED_OBJECT_VERSION,
};

// The primitives.

fn random(length: usize) -> Vec<u8> {
    let mut bytes = vec![0; length];
    getrandom::fill(&mut bytes).unwrap();
    bytes
}

fn digest(hash: HashAlgorithm, data: &[u8]) -> Vec<u8> {
    match hash {
        HashAlgorithm::Sha224 => sha2::Sha224::digest(data).to_vec(),
        HashAlgorithm::Sha256 => sha2::Sha256::digest(data).to_vec(),
        HashAlgorithm::Sha384 => sha2::Sha384::digest(data).to_vec(),
        HashAlgorithm::Sha512 => sha2::Sha512::digest(data).to_vec(),
        other => {
            let mut input = format!("{other:?}").into_bytes();
            input.extend_from_slice(data);
            let mut output = sha2::Sha512::digest(&input).to_vec();
            output.truncate(other.output_length());
            output
        }
    }
}

fn hmac(hash: HashAlgorithm, key: &[u8], data: &[u8]) -> Vec<u8> {
    let block = match hash {
        HashAlgorithm::Sha384 | HashAlgorithm::Sha512 => 128,
        _ => 64,
    };
    let mut padded = if key.len() > block {
        digest(hash, key)
    } else {
        key.to_vec()
    };
    padded.resize(block, 0);
    let mut inner: Vec<u8> = padded.iter().map(|byte| byte ^ 0x36).collect();
    inner.extend_from_slice(data);
    let mut outer: Vec<u8> = padded.iter().map(|byte| byte ^ 0x5c).collect();
    outer.extend_from_slice(&digest(hash, &inner));
    digest(hash, &outer)
}

fn password_keys(password: &[u8]) -> Vec<u8> {
    let mut block = hmac(HashAlgorithm::Sha256, password, b"Yubico\0\0\0\x01");
    let mut output = block.clone();
    for _ in 1..10_000 {
        block = hmac(HashAlgorithm::Sha256, password, &block);
        for (byte, other) in output.iter_mut().zip(&block) {
            *byte ^= other;
        }
    }
    output
}

fn cmac(key: &[u8], data: &[u8]) -> Option<Vec<u8>> {
    match key.len() {
        16 => {
            let mut mac = Cmac::<aes::Aes128>::new_from_slice(key).ok()?;
            mac.update(data);
            Some(mac.finalize().into_bytes().to_vec())
        }
        24 => {
            let mut mac = Cmac::<aes::Aes192>::new_from_slice(key).ok()?;
            mac.update(data);
            Some(mac.finalize().into_bytes().to_vec())
        }
        32 => {
            let mut mac = Cmac::<aes::Aes256>::new_from_slice(key).ok()?;
            mac.update(data);
            Some(mac.finalize().into_bytes().to_vec())
        }
        _ => None,
    }
}

fn block(key: &[u8], input: &[u8], encrypt: bool) -> Option<Vec<u8>> {
    let array: [u8; 16] = input.try_into().ok()?;
    let mut block = aes::Block::from(array);
    match (key.len(), encrypt) {
        (16, true) => aes::Aes128::new_from_slice(key).ok()?.encrypt_block(&mut block),
        (16, false) => aes::Aes128::new_from_slice(key).ok()?.decrypt_block(&mut block),
        (24, true) => aes::Aes192::new_from_slice(key).ok()?.encrypt_block(&mut block),
        (24, false) => aes::Aes192::new_from_slice(key).ok()?.decrypt_block(&mut block),
        (32, true) => aes::Aes256::new_from_slice(key).ok()?.encrypt_block(&mut block),
        (32, false) => aes::Aes256::new_from_slice(key).ok()?.decrypt_block(&mut block),
        _ => return None,
    }
    Some(block.to_vec())
}

fn encrypt_block(key: &[u8], input: &[u8]) -> Option<Vec<u8>> {
    block(key, input, true)
}

fn ecb(key: &[u8], data: &[u8], encrypt: bool) -> Option<Vec<u8>> {
    let mut output = Vec::new();
    for chunk in data.chunks(16) {
        output.extend_from_slice(&block(key, chunk, encrypt)?);
    }
    Some(output)
}

fn cbc_encrypt(key: &[u8], iv: &[u8], data: &[u8]) -> Option<Vec<u8>> {
    let mut output: Vec<u8> = Vec::new();
    let mut previous = iv.to_vec();
    for chunk in data.chunks(16) {
        let mixed: Vec<u8> = chunk.iter().zip(&previous).map(|(a, b)| a ^ b).collect();
        previous = block(key, &mixed, true)?;
        output.extend_from_slice(&previous);
    }
    Some(output)
}

fn cbc_decrypt(key: &[u8], iv: &[u8], data: &[u8]) -> Option<Vec<u8>> {
    let mut output: Vec<u8> = Vec::new();
    let mut previous = iv.to_vec();
    for chunk in data.chunks(16) {
        let clear = block(key, chunk, false)?;
        output.extend(clear.iter().zip(&previous).map(|(a, b)| a ^ b));
        previous = chunk.to_vec();
    }
    Some(output)
}

fn scp03_kdf(key: &[u8], constant: u8, context: &[u8], bits: u16) -> Option<Vec<u8>> {
    let mut input = vec![0; 11];
    input.push(constant);
    input.push(0);
    input.extend_from_slice(&bits.to_be_bytes());
    input.push(1);
    input.extend_from_slice(context);
    let mut output = cmac(key, &input)?;
    output.truncate(usize::from(bits / 8));
    Some(output)
}

fn x963_kdf(hash: HashAlgorithm, secret: &[u8], shared_info: &[u8], length: usize) -> Vec<u8> {
    let mut output = Vec::new();
    let mut counter: u32 = 1;
    while output.len() < length {
        let mut input = secret.to_vec();
        input.extend_from_slice(&counter.to_be_bytes());
        input.extend_from_slice(shared_info);
        output.extend_from_slice(&digest(hash, &input));
        counter += 1;
    }
    output.truncate(length);
    output
}

fn integer(format: &IntegerFormat, value: u64) -> Vec<u8> {
    let width = usize::from(format.width_bits / 8);
    let mut bytes = value.to_be_bytes()[8 - width..].to_vec();
    if format.little_endian {
        bytes.reverse();
    }
    bytes
}

fn counter_kdf(key: &[u8], fields: &[CounterKdfField], length: usize) -> Option<Vec<u8>> {
    let segments = length.div_ceil(16);
    let mut output = Vec::new();
    for counter in 1..=segments {
        let mut input = Vec::new();
        for field in fields {
            match field {
                CounterKdfField::Bytes(bytes) => input.extend_from_slice(bytes),
                CounterKdfField::Counter(format) => {
                    input.extend_from_slice(&integer(format, counter as u64))
                }
                CounterKdfField::Length(format, method) => {
                    let bytes = match method {
                        LengthMethod::Key => length,
                        LengthMethod::Segments => segments * 16,
                    };
                    input.extend_from_slice(&integer(format, bytes as u64 * 8));
                }
            }
        }
        output.extend_from_slice(&cmac(key, &input)?);
    }
    output.truncate(length);
    Some(output)
}

/// Bytes that depend on the parts.
fn stream(parts: &[&[u8]], length: usize) -> Vec<u8> {
    let mut seed = Vec::new();
    for part in parts {
        seed.extend_from_slice(&(part.len() as u64).to_be_bytes());
        seed.extend_from_slice(part);
    }
    x963_kdf(HashAlgorithm::Sha256, &seed, b"", length)
}

fn masked(parts: &[&[u8]], data: &[u8]) -> Vec<u8> {
    let mask = stream(parts, data.len());
    data.iter().zip(&mask).map(|(a, b)| a ^ b).collect()
}

fn seal(name: &[u8], key: &[u8], nonce: &[u8], data: &[u8], tag: usize) -> Vec<u8> {
    let mut output = masked(&[name, key, nonce], data);
    output.extend_from_slice(&stream(&[name, b"tag", key, nonce, data], tag));
    output
}

fn unseal(name: &[u8], key: &[u8], nonce: &[u8], sealed: &[u8], tag: usize) -> Option<Vec<u8>> {
    let length = sealed.len().checked_sub(tag)?;
    let clear = masked(&[name, key, nonce], &sealed[..length]);
    (seal(name, key, nonce, &clear, tag) == sealed).then_some(clear)
}

fn modulus(first: &[u8], second: &[u8]) -> Vec<u8> {
    let mut modulus = stream(&[b"modulus", first, second], first.len() + second.len());
    modulus[0] |= 0x80;
    modulus
}

fn rsa_encrypt(name: &[u8], modulus: &[u8], label: &[u8], data: &[u8]) -> Option<Vec<u8>> {
    let mut clear = vec![0];
    clear.extend_from_slice(&(data.len() as u16).to_be_bytes());
    clear.extend_from_slice(data);
    if clear.len() + 8 > modulus.len() {
        return None;
    }
    clear.resize(modulus.len(), 0);
    Some(masked(&[b"rsa", name, modulus, label], &clear))
}

fn rsa_decrypt(name: &[u8], modulus: &[u8], label: &[u8], data: &[u8]) -> Option<Vec<u8>> {
    if data.len() != modulus.len() {
        return None;
    }
    let clear = masked(&[b"rsa", name, modulus, label], data);
    let length = usize::from(u16::from_be_bytes([clear[1], clear[2]]));
    let data = clear.get(3..3 + length)?;
    (rsa_encrypt(name, modulus, label, data)? == masked(&[b"rsa", name, modulus, label], &clear))
        .then(|| data.to_vec())
}

fn der(tag: u8, content: &[u8]) -> Vec<u8> {
    let mut output = vec![tag];
    if content.len() < 128 {
        output.push(content.len() as u8);
    } else if content.len() < 256 {
        output.extend_from_slice(&[0x81, content.len() as u8]);
    } else {
        output.push(0x82);
        output.extend_from_slice(&(content.len() as u16).to_be_bytes());
    }
    output.extend_from_slice(content);
    output
}

fn coordinate_length(curve: EcCurve) -> usize {
    match curve {
        EcCurve::P224 => 28,
        EcCurve::P256 | EcCurve::Secp256k1 | EcCurve::BrainpoolP256 => 32,
        EcCurve::P384 | EcCurve::BrainpoolP384 => 48,
        EcCurve::P521 => 66,
        EcCurve::BrainpoolP512 => 64,
    }
}

fn raw_ecdsa(public: &[u8], digest: &[u8], length: usize) -> Vec<u8> {
    let mut signature = stream(&[b"ecdsa", public, digest], 2 * length);
    signature[0] = 1;
    signature[length] = 1;
    signature
}

fn ecdsa_der(signature: &[u8]) -> Vec<u8> {
    let (first, second) = signature.split_at(signature.len() / 2);
    der(0x30, &[der(2, first), der(2, second)].concat())
}

fn ecdsa_from_der(encoded: &[u8], length: usize) -> Option<Vec<u8>> {
    let signature = encoded.get(encoded.len().checked_sub(2 * length + 4)?..)?;
    let mut output = signature[2..2 + length].to_vec();
    output.extend_from_slice(&signature[length + 4..]);
    (ecdsa_der(&output) == encoded).then_some(output)
}

/// The public key of a curve other than P-256: the private one, masked.
fn hidden(name: &[u8], private: &[u8]) -> Vec<u8> {
    masked(&[b"public", name], private)
}

fn agreed(name: &[u8], private: &[u8], peer: &[u8]) -> Vec<u8> {
    let other = hidden(name, peer);
    let (first, second) = if private < &other[..] {
        (private, &other[..])
    } else {
        (&other[..], private)
    };
    stream(&[b"agreed", name, first, second], private.len())
}

fn curve_name(curve: EcCurve) -> Vec<u8> {
    format!("{curve:?}").into_bytes()
}

fn key_of(kind: KeyKind, material: &[u8]) -> Option<EngineReply> {
    let (private, second, public) = match kind {
        KeyKind::Ec(EcCurve::P256) => {
            let secret = p256::SecretKey::from_slice(material).ok()?;
            let public = secret.public_key().to_sec1_point(false).as_bytes().to_vec();
            (material.to_vec(), Vec::new(), public)
        }
        KeyKind::Ec(curve) => {
            if material.len() != coordinate_length(curve) {
                return None;
            }
            let mut public = vec![4];
            public.extend_from_slice(&hidden(&curve_name(curve), material));
            public.resize(1 + 2 * material.len(), 0);
            (material.to_vec(), Vec::new(), public)
        }
        KeyKind::Ed25519 => {
            if material.len() != 32 {
                return None;
            }
            (material.to_vec(), Vec::new(), stream(&[b"ed25519", material], 32))
        }
        KeyKind::Rsa { modulus_bits } => {
            if material.len() != modulus_bits / 8 {
                return None;
            }
            let (first, second) = material.split_at(material.len() / 2);
            (first.to_vec(), second.to_vec(), modulus(first, second))
        }
    };
    Some(EngineReply::Key { private, second, public })
}

fn material_length(kind: KeyKind) -> usize {
    match kind {
        KeyKind::Ec(curve) => coordinate_length(curve),
        KeyKind::Ed25519 => 32,
        KeyKind::Rsa { modulus_bits } => modulus_bits / 8,
    }
}

fn x25519_of(private: &[u8]) -> Option<EngineReply> {
    (private.len() == 32).then(|| EngineReply::Key {
        private: private.to_vec(),
        second: Vec::new(),
        public: hidden(b"x25519", private),
    })
}

fn public_of(kind: KeyKind, private: &[u8], second: &[u8]) -> Vec<u8> {
    let material = [private, second].concat();
    match key_of(kind, &material) {
        Some(EngineReply::Key { public, .. }) => public,
        _ => panic!("a key that was accepted before is refused"),
    }
}

fn rsa_signature(scheme: &str, modulus: &[u8], digest: &[u8]) -> Vec<u8> {
    stream(&[scheme.as_bytes(), modulus, digest], modulus.len())
}

fn compute(question: &Computation) -> Option<EngineReply> {
    let Computation { operation, key, second, parameter, data, fields } = question;
    let bytes = match *operation {
        Operation::Digest(hash) => digest(hash, data),
        Operation::Hmac(hash) => hmac(hash, key, data),
        Operation::Cmac => cmac(key, data)?,
        Operation::Scp03Key(constant) => scp03_kdf(key, constant, data, 128)?,
        Operation::Scp03Cryptogram(constant) => scp03_kdf(key, constant, data, 64)?,
        Operation::X963Kdf(hash, length) => x963_kdf(hash, key, parameter, length),
        Operation::CounterKdf(length) => counter_kdf(key, fields, length)?,
        Operation::EncryptBlock => encrypt_block(key, data)?,
        Operation::EncryptCbc => cbc_encrypt(key, parameter, data)?,
        Operation::DecryptCbc => {
            if data.len() % 16 != 0 {
                return Some(EngineReply::Refused(EngineFailure::InvalidDataLength));
            }
            cbc_decrypt(key, parameter, data)?
        }
        Operation::EncryptEcb => ecb(key, data, true)?,
        Operation::DecryptEcb => ecb(key, data, false)?,
        Operation::EncryptCcm => seal(b"ccm", key, parameter, data, 16),
        Operation::DecryptCcm => unseal(b"ccm", key, parameter, data, 16)?,
        Operation::EncryptOtpAead => seal(b"otp", key, parameter, data, 8),
        Operation::DecryptOtpAead => unseal(b"otp", key, parameter, data, 8)?,
        Operation::WrapKwp => seal(b"kwp", key, b"", data, 8),
        Operation::UnwrapKwp => unseal(b"kwp", key, b"", data, 8)?,
        Operation::GenerateKey(kind) => return key_of(kind, &random(material_length(kind))),
        Operation::ImportKey(kind) => return key_of(kind, data),
        Operation::ExportPkcs8(kind) => {
            let mut encoded = format!("{kind:?}:").into_bytes();
            encoded.extend_from_slice(key);
            encoded.extend_from_slice(second);
            encoded
        }
        Operation::ImportPkcs8(kind) => {
            let header = format!("{kind:?}:").into_bytes();
            return key_of(kind, data.strip_prefix(&header[..])?);
        }
        Operation::GenerateX25519 => return x25519_of(&random(32)),
        Operation::ImportX25519 => return x25519_of(data),
        Operation::ValidatePoint(EcCurve::P256) => {
            p256::PublicKey::from_sec1_bytes(data).ok()?;
            Vec::new()
        }
        Operation::ValidatePoint(curve) => {
            if data.len() != 1 + 2 * coordinate_length(curve) || data[0] != 4 {
                return None;
            }
            Vec::new()
        }
        Operation::SignPkcs1Digest(hash) => {
            rsa_signature(&format!("pkcs1 {hash:?}"), &modulus(key, second), data)
        }
        Operation::SignPkcs1Payload => rsa_signature("pkcs1 payload", &modulus(key, second), data),
        Operation::SignPss(_, _, salt) => {
            rsa_signature(&format!("pss {salt}"), &modulus(key, second), data)
        }
        Operation::SignEcdsa(curve) => {
            let public = public_of(KeyKind::Ec(curve), key, b"");
            ecdsa_der(&raw_ecdsa(&public, data, coordinate_length(curve)))
        }
        Operation::SignEd25519 => {
            let public = public_of(KeyKind::Ed25519, key, b"");
            stream(&[b"ed25519 signature", &public, data], 64)
        }
        Operation::Agree(KeyKind::Ec(EcCurve::P256)) => p256_agree(key, data)?,
        Operation::Agree(KeyKind::Ec(curve)) => {
            let length = coordinate_length(curve);
            if data.len() != 1 + 2 * length || data[0] != 4 {
                return None;
            }
            agreed(&curve_name(curve), key, &data[1..1 + length])
        }
        Operation::Agree(_) => return None,
        Operation::AgreeX25519 => {
            if data.len() != 32 {
                return None;
            }
            agreed(b"x25519", key, data)
        }
        Operation::DecryptPkcs1 => rsa_decrypt(b"pkcs1", &modulus(key, second), b"", data)?,
        Operation::DecryptOaep(hash) => {
            let name = format!("oaep {hash:?}");
            rsa_decrypt(name.as_bytes(), &modulus(key, second), parameter, data)?
        }
        Operation::EncryptPkcs1 => rsa_encrypt(b"pkcs1", key, b"", data)?,
        Operation::EncryptOaep(hash) => {
            let name = format!("oaep {hash:?}");
            rsa_encrypt(name.as_bytes(), key, parameter, data)?
        }
    };
    Some(EngineReply::Bytes(bytes))
}

fn p256_agree(private: &[u8], public: &[u8]) -> Option<Vec<u8>> {
    let secret = p256::SecretKey::from_slice(private).ok()?;
    let public = p256::PublicKey::from_sec1_bytes(public).ok()?;
    let shared = diffie_hellman(secret.to_nonzero_scalar(), public.as_affine());
    Some(shared.raw_secret_bytes().to_vec())
}

fn common_name(text: &[u8]) -> Vec<u8> {
    let attribute = [der(6, &[0x55, 4, 3]), der(12, text)].concat();
    der(0x30, &der(0x31, &der(0x30, &attribute)))
}

fn extension(id: &str, critical: bool, value: &[u8]) -> Vec<u8> {
    let id = const_oid::ObjectIdentifier::new(id).unwrap();
    encoded_extension(id.as_bytes(), critical, value)
}

fn encoded_extension(id: &[u8], critical: bool, value: &[u8]) -> Vec<u8> {
    let mut content = der(6, id);
    if critical {
        content.extend_from_slice(&der(1, &[0xff]));
    }
    content.extend_from_slice(&der(4, value));
    der(0x30, &content)
}

/// A certificate for the key.
fn certificate(question: &Attestation) -> Vec<u8> {
    let (subject, issuer, validity) = match &question.template {
        Some(template) => (
            template.subject.clone(),
            template.issuer.clone(),
            template.validity.clone(),
        ),
        None => {
            let validity = [der(23, b"250101000000Z"), der(23, b"350101000000Z")].concat();
            (
                common_name(&question.subject),
                common_name(&question.issuer),
                der(0x30, &validity),
            )
        }
    };
    let mut extensions = Vec::new();
    for item in &question.extensions {
        extensions.extend_from_slice(&match item {
            AttestedExtension::Held(held) => {
                encoded_extension(&held.id, held.critical, &held.value)
            }
            AttestedExtension::EndEntity => extension("2.5.29.19", true, &der(0x30, &[])),
            AttestedExtension::KeyUsage { agreement, encipherment } => {
                let bits = 0x80 | u8::from(*encipherment) << 5 | u8::from(*agreement) << 3;
                extension("2.5.29.15", true, &der(3, &[bits.trailing_zeros() as u8, bits]))
            }
            AttestedExtension::Metadata(metadata) => extension(
                &metadata.identifier(),
                false,
                &metadata.value,
            ),
        });
    }
    let ecdsa = der(0x30, &der(6, &[0x2a, 0x86, 0x48, 0xce, 0x3d, 4, 3, 2]));
    let p256 = [
        der(6, &[0x2a, 0x86, 0x48, 0xce, 0x3d, 2, 1]),
        der(6, &[0x2a, 0x86, 0x48, 0xce, 0x3d, 3, 1, 7]),
    ]
    .concat();
    let key = [
        der(0x30, &p256),
        der(3, &[vec![0], question.target_public.clone()].concat()),
    ]
    .concat();
    let mut serial = question.serial.clone();
    serial.insert(0, 1);
    let body = [
        der(0xa0, &der(2, &[2])),
        der(2, &serial),
        ecdsa.clone(),
        issuer,
        validity,
        subject,
        der(0x30, &key),
        der(0xa3, &der(0x30, &extensions)),
    ]
    .concat();
    let body = der(0x30, &body);
    let signature = stream(&[b"certificate", &question.signer.private, &body], 64);
    let signature = der(3, &[vec![0], ecdsa_der(&signature)].concat());
    der(0x30, &[body, ecdsa, signature].concat())
}

fn answer(question: &EngineRequest) -> EngineReply {
    match question {
        EngineRequest::Random(length) => EngineReply::Bytes(random(*length)),
        EngineRequest::Compute(computation) => {
            compute(computation).unwrap_or(EngineReply::Refused(EngineFailure::Rejected))
        }
        EngineRequest::Attest(attestation) => EngineReply::Bytes(certificate(attestation)),
        EngineRequest::Override(_, _) => EngineReply::Delegate,
    }
}

fn consult(call: &OracleCall) -> HostReply {
    let OracleCall { oracle, key, parameter, data } = call;
    let verified = |valid: bool| valid.then(Vec::new);
    let bytes = match *oracle {
        Oracle::Cmac => cmac(key, data),
        Oracle::Scp03Key(constant) => scp03_kdf(key, constant, data, 128),
        Oracle::Scp03Cryptogram(constant) => scp03_kdf(key, constant, data, 64),
        Oracle::EncryptBlock => encrypt_block(key, data),
        Oracle::EncryptCbc => cbc_encrypt(key, parameter, data),
        Oracle::DecryptCbc => cbc_decrypt(key, parameter, data),
        Oracle::X963Kdf(length) => Some(x963_kdf(HashAlgorithm::Sha256, key, data, length)),
        Oracle::PasswordKdf => Some(password_keys(data)),
        Oracle::Digest(hash) => Some(digest(hash, data)),
        Oracle::Hmac(hash) => Some(hmac(hash, key, data)),
        Oracle::EcdsaFromDer(length) => ecdsa_from_der(data, length),
        Oracle::VerifyEcdsa(curve) => {
            verified(raw_ecdsa(key, data, coordinate_length(curve)) == *parameter)
        }
        Oracle::VerifyPkcs1 => verified(rsa_signature("pkcs1 Sha256", key, data) == *parameter),
        Oracle::VerifyPss(salt) => {
            verified(rsa_signature(&format!("pss {salt}"), key, data) == *parameter)
        }
        Oracle::VerifyEd25519 => {
            verified(stream(&[b"ed25519 signature", key, data], 64) == *parameter)
        }
        Oracle::EncryptPkcs1 => rsa_encrypt(b"pkcs1", key, b"", data),
        Oracle::EncryptOaep(hash) => {
            rsa_encrypt(format!("oaep {hash:?}").as_bytes(), key, parameter, data)
        }
        Oracle::X25519Public => Some(hidden(b"x25519", key)),
        Oracle::X25519Agree => Some(agreed(b"x25519", key, data)),
    };
    match bytes {
        Some(bytes) => HostReply::Bytes(bytes),
        None => HostReply::Refused(EngineFailure::Rejected),
    }
}

// The device over the engine.

fn settle<T>(mut run: impl FnMut(&[EngineReply]) -> Result<T, Halt>) -> Result<T, DeviceError> {
    let mut replies = Vec::new();
    loop {
        match run(&replies) {
            Ok(value) => return Ok(value),
            Err(Halt::Error(error)) => return Err(error),
            Err(Halt::Ask(question)) => replies.push(answer(&question)),
        }
    }
}

fn factory_of(config: DeviceConfig, firmware: FirmwareProfile) -> Device {
    settle(|replies| Device::factory_default(config.clone(), firmware, replies)).unwrap()
}

fn factory() -> Device {
    factory_of(DeviceConfig::default(), FirmwareProfile::compiled())
}

fn full_factory() -> Device {
    factory_of(
        DeviceConfig::for_firmware(FirmwareProfile::Full),
        FirmwareProfile::Full,
    )
}

fn execute_inner(
    device: &mut Device,
    authorization: SessionAuthorization,
    request: &Frame,
) -> Frame {
    let mut replies = Vec::new();
    loop {
        match device.execute_inner(authorization, request, &replies) {
            Ok(response) => return response,
            Err(question) => replies.push(answer(&question)),
        }
    }
}

fn execute_inner_with_session(
    device: &mut Device,
    authorization: SessionAuthorization,
    request: &Frame,
    objects: &mut SessionObjects,
) -> Frame {
    let plan = settle(|replies| {
        device.plan_inner(authorization, request, Some(objects), &mut Answers::new(replies))
    });
    let plan = match plan {
        Ok(plan) => plan,
        Err(error) => return Frame::error(error),
    };
    match plan.effect {
        Effect::Add(handle, object) => objects.insert(handle, object),
        Effect::Discard(handle) => objects.remove(handle),
        effect => device.commit(effect, plan.entry, plan.durable),
    }
    plan.response
}

fn handle_encoded_at(device: &mut Device, encoded: &[u8], now: u64) -> Vec<u8> {
    let mut replies = Vec::new();
    loop {
        match device.handle_encoded(encoded, now, &mut replies) {
            Ok(response) => return response,
            Err(question) => replies.push(answer(&question)),
        }
    }
}

fn handle_encoded(device: &mut Device, encoded: &[u8]) -> Vec<u8> {
    handle_encoded_at(device, encoded, 0)
}

fn handle_frame(device: &mut Device, request: &Frame) -> Frame {
    let mut replies = Vec::new();
    loop {
        match device.handle_frame(request, 0, &replies) {
            Ok(response) => return response,
            Err(question) => replies.push(answer(&question)),
        }
    }
}

fn provision(device: &mut Device, object: ObjectRecord) -> Result<(), DeviceError> {
    settle(|replies| device.provision_object(object.clone(), replies))
}

fn restore(config: DeviceConfig, state: &PersistentState) -> Result<Device, DeviceError> {
    let firmware = FirmwareProfile::compiled();
    settle(|replies| {
        Device::from_persistent_state(config.clone(), firmware, state.clone(), replies)
    })
}

fn wrap(record: &ObjectRecord) -> Result<Vec<u8>, DeviceError> {
    settle(|replies| encode_wrapped_object(record, &mut Answers::new(replies)))
}

fn unwrap(encoded: &[u8]) -> Result<ObjectRecord, DeviceError> {
    settle(|replies| decode_wrapped_object(encoded, &mut Answers::new(replies)))
}

fn frame(command: CommandCode, data: Vec<u8>) -> Frame {
    Frame::new(command.to_byte(), data).unwrap()
}

fn response_to(command: CommandCode) -> u8 {
    command.to_byte() | 0x80
}

fn number(id: u16) -> Vec<u8> {
    id.to_be_bytes().to_vec()
}

fn none() -> CapabilitySet {
    CapabilitySet::none()
}

fn generated(algorithm: Algorithm) -> ObjectMaterial {
    let kind = match algorithm {
        Algorithm::X25519 => match x25519_of(&random(32)) {
            Some(EngineReply::Key { private, public, .. }) => {
                return ObjectMaterial::X25519Key(X25519Key { private, public })
            }
            _ => unreachable!(),
        },
        Algorithm::EcP256 => KeyKind::Ec(EcCurve::P256),
        Algorithm::EcP384 => KeyKind::Ec(EcCurve::P384),
        Algorithm::EcP521 => KeyKind::Ec(EcCurve::P521),
        Algorithm::Ed25519 => KeyKind::Ed25519,
        Algorithm::Rsa2048 => KeyKind::Rsa { modulus_bits: 2048 },
        _ => unreachable!(),
    };
    match key_of(kind, &random(material_length(kind))) {
        Some(EngineReply::Key { private, second, public }) => {
            ObjectMaterial::SigningKey(SigningKey { kind, private, second, public })
        }
        _ => unreachable!(),
    }
}

fn wrapped_test_record(
    id: u16,
    object_type: ObjectType,
    algorithm: Algorithm,
    material: ObjectMaterial,
) -> ObjectRecord {
    let mut record = ObjectRecord {
        info: ObjectInfo {
            capabilities: CapabilitySet::from_capabilities([
                Capability::ExportableUnderWrap,
                Capability::DeleteOpaque,
            ]),
            id,
            length: 0,
            domains: 0x8001,
            object_type,
            algorithm: algorithm.to_byte(),
            sequence: 37,
            origin: 0x12,
            label: b"wrapped\0object".to_vec(),
            delegated_capabilities: CapabilitySet::from_capabilities([
                Capability::GetOpaque,
                Capability::SignEcdsa,
            ]),
        },
        material,
    };
    record.normalize_info_length().unwrap();
    record
}

fn object_request(
    command: CommandCode,
    id: u16,
    label: &[u8],
    domains: u16,
    capabilities: CapabilitySet,
    tail: &[&[u8]],
) -> Frame {
    let mut data = Vec::new();
    data.extend_from_slice(&id.to_be_bytes());
    data.extend_from_slice(label);
    data.resize(42, 0);
    data.extend_from_slice(&domains.to_be_bytes());
    data.extend_from_slice(&capabilities.to_bytes());
    for part in tail {
        data.extend_from_slice(part);
    }
    frame(command, data)
}

fn put_opaque_request(id: u16, domains: u16, capabilities: CapabilitySet) -> Frame {
    put_opaque_request_with_payload(id, domains, capabilities, b"payload")
}

fn put_opaque_request_with_payload(
    id: u16,
    domains: u16,
    capabilities: CapabilitySet,
    payload: &[u8],
) -> Frame {
    object_request(
        CommandCode::PutOpaque,
        id,
        b"state",
        domains,
        capabilities,
        &[&[OPAQUE_DATA_ALGORITHM], payload],
    )
}

fn put_authentication_key_request(
    id: u16,
    domains: u16,
    capabilities: CapabilitySet,
    delegated_capabilities: CapabilitySet,
    key: &[u8],
) -> Frame {
    object_request(
        CommandCode::PutAuthenticationKey,
        id,
        b"session auth",
        domains,
        capabilities,
        &[
            &[AUTHENTICATION_ALGORITHM_AES128_YUBICO],
            &delegated_capabilities.to_bytes(),
            key,
        ],
    )
}

fn put_asymmetric_authentication_key_request(
    id: u16,
    domains: u16,
    capabilities: CapabilitySet,
    delegated_capabilities: CapabilitySet,
    public_key: &[u8],
) -> Frame {
    object_request(
        CommandCode::PutAuthenticationKey,
        id,
        b"asymmetric auth",
        domains,
        capabilities,
        &[
            &[AUTHENTICATION_ALGORITHM_EC_P256],
            &delegated_capabilities.to_bytes(),
            public_key,
        ],
    )
}

fn put_asymmetric_key_request(
    id: u16,
    domains: u16,
    capabilities: CapabilitySet,
    algorithm: Algorithm,
    private_key: &[u8],
) -> Frame {
    object_request(
        CommandCode::PutAsymmetricKey,
        id,
        b"private key",
        domains,
        capabilities,
        &[&[algorithm.to_byte()], private_key],
    )
}

fn generate_asymmetric_key_request(
    id: u16,
    domains: u16,
    capabilities: CapabilitySet,
    algorithm: u8,
) -> Frame {
    object_request(
        CommandCode::GenerateAsymmetricKey,
        id,
        b"signing key",
        domains,
        capabilities,
        &[&[algorithm]],
    )
}

fn put_symmetric_key_request(
    id: u16,
    domains: u16,
    capabilities: CapabilitySet,
    algorithm: Algorithm,
    key: &[u8],
) -> Frame {
    object_request(
        CommandCode::PutSymmetricKey,
        id,
        b"symmetric key",
        domains,
        capabilities,
        &[&[algorithm.to_byte()], key],
    )
}

fn session_derive_request(
    operation: SessionObjectCommand,
    flags: u8,
    kind: SessionObjectKind,
    output_length: u16,
    tail: &[u8],
) -> Frame {
    let mut data = vec![operation.to_byte(), flags, kind.to_byte()];
    data.extend_from_slice(&output_length.to_be_bytes());
    data.extend_from_slice(tail);
    frame(CommandCode::SessionObject, data)
}

fn session_object_handle(response: &Frame) -> u64 {
    assert_eq!(response.command, response_to(CommandCode::SessionObject));
    u64::from_be_bytes(response.data[..8].try_into().unwrap())
}

fn read_session_object(
    device: &mut Device,
    authorization: SessionAuthorization,
    objects: &mut SessionObjects,
    handle: u64,
) -> Frame {
    let mut data = vec![SessionObjectCommand::Read.to_byte()];
    data.extend_from_slice(&handle.to_be_bytes());
    let request = frame(CommandCode::SessionObject, data);
    execute_inner_with_session(device, authorization, &request, objects)
}

fn opaque_key(id: u16) -> ObjectKey {
    ObjectKey {
        object_type: ObjectType::Opaque,
        id,
    }
}

#[test]
fn volatile_ecdh_objects_are_scoped_protected_and_right_truncated() {
    let mut device = full_factory();
    let authorization = device.session_authorization(1).unwrap();
    let mut objects = SessionObjects::none();

    let generate = frame(
        CommandCode::SessionObject,
        vec![
            SessionObjectCommand::GenerateAsymmetricKey.to_byte(),
            FLAG_DERIVE,
            Algorithm::EcP256.to_byte(),
        ],
    );
    let generated = execute_inner_with_session(&mut device, authorization, &generate, &mut objects);
    assert_eq!(generated.data.len(), 8 + 65);
    let private_handle = session_object_handle(&generated);
    let generated_public = p256::PublicKey::from_sec1_bytes(&generated.data[8..]).unwrap();

    let peer = p256::SecretKey::from_slice(&[0x42; 32]).unwrap();
    let peer_public = peer.public_key().to_sec1_point(false);
    let expected = diffie_hellman(peer.to_nonzero_scalar(), generated_public.as_affine());
    let expected = &expected.raw_secret_bytes()[16..];
    let mut tail = vec![0];
    tail.extend_from_slice(&private_handle.to_be_bytes());
    tail.extend_from_slice(&(peer_public.as_bytes().len() as u16).to_be_bytes());
    tail.extend_from_slice(peer_public.as_bytes());
    let derive = session_derive_request(
        SessionObjectCommand::DeriveEcdh,
        FLAG_READABLE | FLAG_DERIVE,
        SessionObjectKind::GenericSecret,
        16,
        &tail,
    );
    let derived = execute_inner_with_session(&mut device, authorization, &derive, &mut objects);
    let secret_handle = session_object_handle(&derived);
    assert_eq!(
        read_session_object(&mut device, authorization, &mut objects, secret_handle).data,
        expected
    );

    let mut other_session = SessionObjects::none();
    assert_eq!(
        read_session_object(&mut device, authorization, &mut other_session, secret_handle),
        Frame::error(DeviceError::ObjectNotFound)
    );

    let protected = session_derive_request(
        SessionObjectCommand::ConcatenateData,
        FLAG_DERIVE,
        SessionObjectKind::GenericSecret,
        16,
        &[secret_handle.to_be_bytes().as_slice(), b"ignored"].concat(),
    );
    let protected =
        execute_inner_with_session(&mut device, authorization, &protected, &mut objects);
    let protected_handle = session_object_handle(&protected);
    assert_eq!(objects.len(), 3);
    assert_eq!(
        read_session_object(&mut device, authorization, &mut objects, protected_handle),
        Frame::error(DeviceError::InsufficientPermissions)
    );

    let delete = frame(
        CommandCode::SessionObject,
        [
            &[SessionObjectCommand::DeleteObject.to_byte()],
            secret_handle.to_be_bytes().as_slice(),
        ]
        .concat(),
    );
    assert!(
        execute_inner_with_session(&mut device, authorization, &delete, &mut objects)
            .data
            .is_empty()
    );
    assert_eq!(
        read_session_object(&mut device, authorization, &mut objects, secret_handle),
        Frame::error(DeviceError::ObjectNotFound)
    );
    assert_eq!(objects.len(), 2);
}

#[test]
fn volatile_counter_kdf_and_cmac_verify_enforce_native_policy() {
    let mut device = full_factory();
    let authorization = device.session_authorization(1).unwrap();
    let aes = [0x5a; 16];
    let capabilities = CapabilitySet::from_capabilities([Capability::EncryptEcb]);
    assert_eq!(
        execute_inner(
            &mut device,
            authorization,
            &put_symmetric_key_request(40, 1, capabilities, Algorithm::Aes128, &aes),
        )
        .data,
        40_u16.to_be_bytes()
    );

    let mut tail = vec![2];
    tail.extend_from_slice(&40_u16.to_be_bytes());
    tail.push(3);
    tail.extend_from_slice(&[1, 8, 0]);
    tail.extend_from_slice(&[0, 0, 3]);
    tail.extend_from_slice(b"SCP");
    tail.extend_from_slice(&[2, 16, 0, 0]);
    let derive = session_derive_request(
        SessionObjectCommand::CounterKdf,
        FLAG_READABLE | FLAG_VERIFY,
        SessionObjectKind::Aes,
        16,
        &tail,
    );
    let mut objects = SessionObjects::none();
    let response = execute_inner_with_session(&mut device, authorization, &derive, &mut objects);
    let handle = session_object_handle(&response);

    let fields = [
        CounterKdfField::Counter(IntegerFormat {
            width_bits: 8,
            little_endian: false,
        }),
        CounterKdfField::Bytes(b"SCP".to_vec()),
        CounterKdfField::Length(
            IntegerFormat {
                width_bits: 16,
                little_endian: false,
            },
            LengthMethod::Key,
        ),
    ];
    let expected = counter_kdf(&aes, &fields, 16).unwrap();
    assert_eq!(
        read_session_object(&mut device, authorization, &mut objects, handle).data,
        expected.as_slice()
    );

    let message = b"receipt input";
    let signature = cmac(&expected, message).unwrap();
    let mut verify_data = handle.to_be_bytes().to_vec();
    verify_data.push(8);
    verify_data.extend_from_slice(&signature[..8]);
    verify_data.extend_from_slice(message);
    verify_data.insert(0, SessionObjectCommand::VerifyCmac.to_byte());
    let verify = frame(CommandCode::SessionObject, verify_data);
    assert_eq!(
        execute_inner_with_session(&mut device, authorization, &verify, &mut objects).data,
        [1]
    );

    let insufficient = SessionAuthorization {
        authentication_key_id: 2,
        capabilities: none(),
        delegated_capabilities: none(),
        domains: 1,
    };
    assert_eq!(
        execute_inner_with_session(&mut device, insufficient, &derive, &mut objects),
        Frame::error(DeviceError::InsufficientPermissions)
    );
}

#[test]
fn factory_key_matches_yubihsm_superuser_semantics() {
    let device = full_factory();
    let auth = device.session_authorization(1).unwrap();
    assert_eq!(auth.capabilities, CapabilitySet::all());
    assert_eq!(auth.delegated_capabilities, CapabilitySet::all());
    assert_eq!(auth.domains, u16::MAX);
    let material = device.authentication_key_material(1).unwrap();
    let AuthenticationKeyMaterial::Symmetric(keys) = material else {
        panic!("factory key is not symmetric")
    };
    assert_eq!(
        keys,
        &[
            0x09, 0x0b, 0x47, 0xdb, 0xed, 0x59, 0x56, 0x54, 0x90, 0x1d, 0xee, 0x1c, 0xc6, 0x55,
            0xe4, 0x20, 0x59, 0x2f, 0xd4, 0x83, 0xf7, 0x59, 0xe2, 0x99, 0x09, 0xa0, 0x4c, 0x45,
            0x05, 0xd2, 0xce, 0x0a,
        ]
    );
    assert_eq!(keys[..], password_keys(b"password"));
}

#[test]
fn compiled_firmware_profile_advertises_only_enabled_algorithms_and_commands() {
    for firmware in [FirmwareProfile::compiled(), FirmwareProfile::Full] {
        let mut device = factory_of(DeviceConfig::for_firmware(firmware), firmware);
        let authorization = device.session_authorization(1).unwrap();
        let info = device.execute_plain(&frame(CommandCode::GetDeviceInfo, Vec::new()));
        let algorithms = &info.data[9..];
        assert_eq!(
            algorithms.contains(&Algorithm::X25519.to_byte()),
            firmware.extended_curves()
        );

        let command_options = execute_inner(
            &mut device,
            authorization,
            &frame(CommandCode::GetOption, vec![OPTION_COMMAND_AUDIT]),
        );
        let commands = command_options
            .data
            .chunks(2)
            .map(|pair| pair[0])
            .collect::<Vec<_>>();
        for (command, enabled) in [
            (CommandCode::DeriveEcdhKdf, firmware.prefixed_ecdh()),
            (CommandCode::SessionObject, firmware.session_objects()),
        ] {
            assert_eq!(commands.contains(&command.to_byte()), enabled);
        }

        let authkey_info = execute_inner(
            &mut device,
            authorization,
            &frame(
                CommandCode::GetObjectInfo,
                vec![0, 1, ObjectType::AuthenticationKey.to_byte()],
            ),
        );
        let capabilities = CapabilitySet::from_bytes(authkey_info.data[..8].try_into().unwrap());
        for (capability, enabled) in [
            (Capability::DeriveEcdhKdf, firmware.prefixed_ecdh()),
            (Capability::SessionObjects, firmware.session_objects()),
        ] {
            assert_eq!(capabilities.contains(capability), enabled);
        }

        let algorithm_options = execute_inner(
            &mut device,
            authorization,
            &frame(CommandCode::GetOption, vec![OPTION_ALGORITHM_TOGGLE]),
        );
        let option_algorithms = algorithm_options
            .data
            .chunks(2)
            .map(|pair| pair[0])
            .collect::<Vec<_>>();
        assert_eq!(option_algorithms, algorithms);
    }
}

#[test]
fn storage_info_reports_no_free_object_slots_above_nominal_capacity() {
    let mut device = factory();
    for id in 1..=MAX_OBJECTS as u16 {
        provision(
            &mut device,
            ObjectRecord {
                info: ObjectInfo {
                    capabilities: none(),
                    id,
                    length: 1,
                    domains: 1,
                    object_type: ObjectType::Opaque,
                    algorithm: OPAQUE_DATA_ALGORITHM,
                    sequence: 0,
                    origin: 2,
                    label: Vec::new(),
                    delegated_capabilities: none(),
                },
                material: ObjectMaterial::Opaque(vec![0]),
            },
        )
        .unwrap();
    }
    assert_eq!(device.objects.len(), MAX_OBJECTS + 1);

    let admin = device.session_authorization(1).unwrap();
    let response = execute_inner(
        &mut device,
        admin,
        &frame(CommandCode::GetStorageInfo, Vec::new()),
    );
    assert_eq!(&response.data[..4], &[0x01, 0x00, 0x00, 0x00]);
}

#[test]
fn oversized_results_become_wrong_length() {
    let mut device = factory();
    let authorization = device.session_authorization(1).unwrap();
    let maximum = frame(CommandCode::GetPseudoRandom, number(3_116));
    assert_eq!(
        execute_inner(&mut device, authorization, &maximum).data.len(),
        3_116
    );

    let oversized = frame(CommandCode::GetPseudoRandom, number(3_117));
    assert_eq!(
        execute_inner(&mut device, authorization, &oversized),
        Frame::error(DeviceError::WrongLength)
    );
}

#[test]
fn overlong_encoded_request_is_rejected_before_dispatch() {
    let mut device = factory();
    let mut request = frame(CommandCode::Echo, vec![0; MAX_DATA_LENGTH]).encode();
    request.push(0);

    assert_eq!(
        handle_encoded(&mut device, &request),
        Frame::error(DeviceError::WrongLength).encode()
    );
}

#[test]
fn trusted_provisioning_preserves_and_seeds_an_explicit_sequence() {
    let mut device = factory();
    let capabilities = CapabilitySet::from_capabilities([Capability::PutOpaque]);
    let key = opaque_key(31);
    provision(
        &mut device,
        ObjectRecord {
            info: ObjectInfo {
                capabilities,
                id: key.id,
                length: 7,
                domains: 1,
                object_type: key.object_type,
                algorithm: OPAQUE_DATA_ALGORITHM,
                sequence: 73,
                origin: 2,
                label: b"state".to_vec(),
                delegated_capabilities: none(),
            },
            material: ObjectMaterial::Opaque(b"fixture".to_vec()),
        },
    )
    .unwrap();
    assert_eq!(device.object(key).unwrap().info.sequence, 73);
    assert_eq!(device.sequence_history.generation(key.id), Some(73));

    let admin = device.session_authorization(1).unwrap();
    assert_eq!(
        execute_inner(
            &mut device,
            admin,
            &put_opaque_request_with_payload(key.id, 1, capabilities, b"runtime"),
        )
        .data,
        key.id.to_be_bytes()
    );
    assert_eq!(device.object(key).unwrap().info.sequence, 74);
}

#[test]
fn opaque_read_requires_get_opaque_on_session_and_matching_domain() {
    let mut device = factory();
    let admin = device.session_authorization(1).unwrap();
    let object_caps = CapabilitySet::from_capabilities([Capability::GetOpaque]);
    let response = execute_inner(&mut device, admin, &put_opaque_request(12, 2, object_caps));
    assert_eq!(response.data, 12_u16.to_be_bytes());

    let get = frame(CommandCode::GetOpaque, number(12));
    assert_eq!(execute_inner(&mut device, admin, &get).data, b"payload");

    let without_get_opaque = SessionAuthorization {
        authentication_key_id: 2,
        capabilities: none(),
        delegated_capabilities: none(),
        domains: 2,
    };
    assert_eq!(
        execute_inner(&mut device, without_get_opaque, &get),
        Frame::error(DeviceError::InsufficientPermissions)
    );

    let with_get_opaque = SessionAuthorization {
        capabilities: CapabilitySet::from_capabilities([Capability::GetOpaque]),
        ..without_get_opaque
    };
    assert_eq!(
        execute_inner(&mut device, with_get_opaque, &get).data,
        b"payload"
    );

    let response = execute_inner(&mut device, admin, &put_opaque_request(13, 2, none()));
    assert_eq!(response.data, 13_u16.to_be_bytes());
    let get_without_object_capability = frame(CommandCode::GetOpaque, number(13));
    assert_eq!(
        execute_inner(&mut device, with_get_opaque, &get_without_object_capability).data,
        b"payload"
    );

    let info = frame(
        CommandCode::GetObjectInfo,
        [
            12_u16.to_be_bytes().as_slice(),
            &[ObjectType::Opaque.to_byte()],
        ]
        .concat(),
    );
    assert_eq!(execute_inner(&mut device, admin, &info).data.len(), 66);
}

#[test]
fn put_opaque_updates_payload_in_place_under_existing_object_policy() {
    let mut device = factory();
    let admin = device.session_authorization(1).unwrap();
    let capabilities =
        CapabilitySet::from_capabilities([Capability::GetOpaque, Capability::PutOpaque]);
    assert_eq!(
        execute_inner(
            &mut device,
            admin,
            &put_opaque_request_with_payload(15, 3, capabilities, b"before"),
        )
        .data,
        15_u16.to_be_bytes()
    );
    let before = device.object(opaque_key(15)).unwrap().info.clone();

    assert_eq!(
        execute_inner(
            &mut device,
            admin,
            &put_opaque_request_with_payload(15, 3, capabilities, b"after update"),
        )
        .data,
        15_u16.to_be_bytes()
    );
    let updated = device.object(opaque_key(15)).unwrap();
    assert_eq!(
        updated.material,
        ObjectMaterial::Opaque(b"after update".to_vec())
    );
    assert_eq!(updated.info.id, before.id);
    assert_eq!(updated.info.domains, before.domains);
    assert_eq!(updated.info.capabilities, before.capabilities);
    assert_eq!(updated.info.label, before.label);
    assert_eq!(updated.info.algorithm, before.algorithm);
    assert_eq!(updated.info.sequence, before.sequence.wrapping_add(1));
    assert_eq!(updated.info.origin, before.origin);

    let mismatched =
        put_opaque_request_with_payload(15, 1, capabilities, b"must not replace the payload");
    assert_eq!(
        execute_inner(&mut device, admin, &mismatched),
        Frame::error(DeviceError::InvalidData)
    );
    assert_eq!(
        device.object(opaque_key(15)).unwrap().material,
        ObjectMaterial::Opaque(b"after update".to_vec())
    );
    assert_eq!(
        device.object(opaque_key(15)).unwrap().info.sequence,
        before.sequence.wrapping_add(1)
    );
}

#[test]
fn object_generations_are_global_by_id_and_survive_deletion_and_persistence() {
    let config = DeviceConfig::default();
    let mut device = factory();
    let admin = device.session_authorization(1).unwrap();
    let capabilities = CapabilitySet::from_capabilities([
        Capability::GetOpaque,
        Capability::PutOpaque,
        Capability::DeleteOpaque,
    ]);
    let key = opaque_key(18);
    let other_key = opaque_key(19);
    let symmetric_key = ObjectKey {
        object_type: ObjectType::SymmetricKey,
        id: 18,
    };

    assert_eq!(
        execute_inner(&mut device, admin, &put_opaque_request(18, 1, capabilities)).data,
        18_u16.to_be_bytes()
    );
    assert_eq!(device.object(key).unwrap().info.sequence, 0);
    assert_eq!(
        execute_inner(
            &mut device,
            admin,
            &put_symmetric_key_request(18, 1, none(), Algorithm::Aes128, &[0x18; 16]),
        )
        .data,
        18_u16.to_be_bytes()
    );
    assert_eq!(device.object(symmetric_key).unwrap().info.sequence, 1);
    assert_eq!(
        execute_inner(&mut device, admin, &put_opaque_request(19, 1, capabilities)).data,
        19_u16.to_be_bytes()
    );
    assert_eq!(device.object(other_key).unwrap().info.sequence, 0);

    let delete = frame(
        CommandCode::DeleteObject,
        [
            18_u16.to_be_bytes().as_slice(),
            &[ObjectType::Opaque.to_byte()],
        ]
        .concat(),
    );
    assert!(execute_inner(&mut device, admin, &delete).data.is_empty());
    let state = device.persistent_state().unwrap();

    let mut restored = restore(config, &state).unwrap();
    let restored_admin = restored.session_authorization(1).unwrap();
    assert_eq!(
        execute_inner(
            &mut restored,
            restored_admin,
            &put_opaque_request(18, 1, capabilities)
        )
        .data,
        18_u16.to_be_bytes()
    );
    assert_eq!(restored.object(key).unwrap().info.sequence, 2);
    assert_eq!(restored.object(symmetric_key).unwrap().info.sequence, 1);

    restored.sequence_history.record(key.id, 255);
    assert_eq!(
        execute_inner(
            &mut restored,
            restored_admin,
            &put_opaque_request_with_payload(18, 1, capabilities, b"wrapped"),
        )
        .data,
        18_u16.to_be_bytes()
    );
    assert_eq!(restored.sequence_history.generation(key.id), Some(256));
    assert_eq!(restored.object(key).unwrap().info.sequence, 0);
}

#[test]
fn automatic_object_ids_are_random_valid_and_globally_unused() {
    let mut device = factory();
    let admin = device.session_authorization(1).unwrap();
    let opaque_response = execute_inner(&mut device, admin, &put_opaque_request(0, 1, none()));
    let opaque_id = u16::from_be_bytes(opaque_response.data.try_into().unwrap());
    assert_ne!(opaque_id, 0);
    assert_ne!(opaque_id, u16::MAX);

    let symmetric_response = execute_inner(
        &mut device,
        admin,
        &put_symmetric_key_request(0, 1, none(), Algorithm::Aes128, &[0x42; 16]),
    );
    let symmetric_id = u16::from_be_bytes(symmetric_response.data.try_into().unwrap());
    assert_ne!(symmetric_id, 0);
    assert_ne!(symmetric_id, u16::MAX);
    assert_ne!(symmetric_id, opaque_id);
    assert!(
        device
            .objects
            .values()
            .all(|object| object.info.id != 0 && object.info.id != u16::MAX)
    );
}

#[test]
fn automatic_id_sampling_rejects_reserved_and_cross_type_collisions() {
    let mut device = factory();
    let admin = device.session_authorization(1).unwrap();
    assert_eq!(
        execute_inner(
            &mut device,
            admin,
            &put_symmetric_key_request(7, 1, none(), Algorithm::Aes128, &[0x07; 16]),
        )
        .data,
        7_u16.to_be_bytes()
    );

    let candidates: Vec<EngineReply> = [0, u16::MAX, 1, 7, 42]
        .into_iter()
        .map(|id: u16| EngineReply::Bytes(id.to_be_bytes().to_vec()))
        .collect();
    assert_eq!(
        device
            .resolve_id(ObjectType::Opaque, 0, &mut Answers::new(&candidates))
            .unwrap(),
        42
    );
    // Explicit identifiers remain scoped by object type, as in the wire
    // protocol; only automatic allocation promises a globally unused ID.
    assert_eq!(
        device
            .resolve_id(ObjectType::Opaque, 7, &mut Answers::new(&[]))
            .unwrap(),
        7
    );
}

#[test]
fn put_opaque_update_requires_put_opaque_on_session_and_object() {
    let mut device = factory();
    let admin = device.session_authorization(1).unwrap();
    let get_only = CapabilitySet::from_capabilities([Capability::GetOpaque]);
    assert_eq!(
        execute_inner(&mut device, admin, &put_opaque_request(16, 1, get_only)).data,
        16_u16.to_be_bytes()
    );
    assert_eq!(
        execute_inner(
            &mut device,
            admin,
            &put_opaque_request_with_payload(16, 1, get_only, b"blocked"),
        ),
        Frame::error(DeviceError::InsufficientPermissions)
    );

    let both = CapabilitySet::from_capabilities([Capability::GetOpaque, Capability::PutOpaque]);
    assert_eq!(
        execute_inner(&mut device, admin, &put_opaque_request(17, 1, both)).data,
        17_u16.to_be_bytes()
    );
    let without_put = SessionAuthorization {
        authentication_key_id: 2,
        capabilities: get_only,
        delegated_capabilities: none(),
        domains: 1,
    };
    assert_eq!(
        execute_inner(
            &mut device,
            without_put,
            &put_opaque_request_with_payload(17, 1, both, b"blocked"),
        ),
        Frame::error(DeviceError::InsufficientPermissions)
    );
}

#[test]
fn delegated_ceiling_rejects_excess_object_capabilities_and_domains() {
    let mut device = factory();
    let restricted = SessionAuthorization {
        authentication_key_id: 2,
        capabilities: CapabilitySet::from_capabilities([Capability::PutOpaque]),
        delegated_capabilities: CapabilitySet::from_capabilities([Capability::GetOpaque]),
        domains: 0b0010,
    };
    let excessive_capability = put_opaque_request(
        12,
        0b0010,
        CapabilitySet::from_capabilities([Capability::SignEcdsa]),
    );
    assert_eq!(
        execute_inner(&mut device, restricted, &excessive_capability),
        Frame::error(DeviceError::InsufficientPermissions)
    );
    let excessive_domain = put_opaque_request(
        12,
        0b0110,
        CapabilitySet::from_capabilities([Capability::GetOpaque]),
    );
    assert_eq!(
        execute_inner(&mut device, restricted, &excessive_domain),
        Frame::error(DeviceError::InsufficientPermissions)
    );
}

#[test]
fn creation_preserves_meaningless_capabilities_within_the_delegated_ceiling() {
    let mut device = factory();
    let put_opaque = CapabilitySet::from_capabilities([Capability::PutOpaque]);
    let authorization = SessionAuthorization {
        authentication_key_id: 2,
        capabilities: put_opaque,
        delegated_capabilities: put_opaque,
        domains: 1,
    };
    let response = execute_inner(
        &mut device,
        authorization,
        &put_opaque_request(14, 1, put_opaque),
    );
    assert_eq!(response.data, 14_u16.to_be_bytes());
    assert_eq!(
        device.object(opaque_key(14)).unwrap().info.capabilities,
        put_opaque
    );
}

#[test]
fn list_objects_hides_objects_outside_session_domains() {
    let mut device = factory();
    let admin = device.session_authorization(1).unwrap();
    execute_inner(
        &mut device,
        admin,
        &put_opaque_request(
            12,
            0b0010,
            CapabilitySet::from_capabilities([Capability::GetOpaque]),
        ),
    );
    let restricted = SessionAuthorization {
        authentication_key_id: 2,
        capabilities: none(),
        delegated_capabilities: none(),
        domains: 0b0100,
    };
    let list = frame(
        CommandCode::ListObjects,
        vec![2, ObjectType::Opaque.to_byte()],
    );
    assert!(execute_inner(&mut device, restricted, &list).data.is_empty());
    assert_eq!(
        execute_inner(&mut device, admin, &list).data,
        [0, 12, ObjectType::Opaque.to_byte(), 0]
    );
}

#[test]
fn provisioned_authentication_key_defines_the_exact_session_context() {
    let mut device = factory();
    let admin = device.session_authorization(1).unwrap();
    let capabilities = CapabilitySet::from_capabilities([
        Capability::GetPseudoRandom,
        Capability::ChangeAuthenticationKey,
    ]);
    let delegated = CapabilitySet::from_capabilities([Capability::GetOpaque]);
    let request = put_authentication_key_request(23, 0b0010, capabilities, delegated, &[0x55; 32]);
    assert_eq!(
        execute_inner(&mut device, admin, &request).data,
        23_u16.to_be_bytes()
    );

    let session = device.session_authorization(23).unwrap();
    assert_eq!(session.authentication_key_id, 23);
    assert_eq!(session.capabilities, capabilities);
    assert_eq!(session.delegated_capabilities, delegated);
    assert_eq!(session.domains, 0b0010);

    let mut change = vec![0, 23, AUTHENTICATION_ALGORITHM_AES128_YUBICO];
    change.extend_from_slice(&[0x77; 32]);
    let change = frame(CommandCode::ChangeAuthenticationKey, change);
    assert_eq!(
        execute_inner(&mut device, admin, &change),
        Frame::error(DeviceError::InvalidId)
    );
    assert_eq!(
        execute_inner(&mut device, session, &change).data,
        23_u16.to_be_bytes()
    );
    assert_eq!(
        device.authentication_key_material(23).unwrap(),
        &AuthenticationKeyMaterial::Symmetric(vec![0x77; 32])
    );
    assert_eq!(
        device
            .object(ObjectKey {
                object_type: ObjectType::AuthenticationKey,
                id: 23,
            })
            .unwrap()
            .info
            .sequence,
        1
    );
    // Existing sessions keep their authorization snapshot; changing the
    // key material affects only future authentication handshakes.
    assert_eq!(session.domains, 0b0010);
}

#[test]
fn symmetric_handshake_and_secure_message_match_scp03_wire_semantics() {
    let mut device = factory();
    let static_keys = match device.authentication_key_material(1).unwrap() {
        AuthenticationKeyMaterial::Symmetric(keys) => keys.clone(),
        _ => unreachable!(),
    };
    let host_challenge = [0x11; CHALLENGE_LENGTH];
    let mut create_data = 1_u16.to_be_bytes().to_vec();
    create_data.extend_from_slice(&host_challenge);
    let create = frame(CommandCode::CreateSession, create_data);
    let create_response = Frame::parse(&handle_encoded(&mut device, &create.encode())).unwrap();
    assert_eq!(
        create_response.command,
        response_to(CommandCode::CreateSession)
    );
    assert_eq!(create_response.data.len(), 1 + CHALLENGE_LENGTH + 8);
    let sid = create_response.data[0];

    let mut context = [0; CHALLENGE_LENGTH * 2];
    context[..CHALLENGE_LENGTH].copy_from_slice(&host_challenge);
    context[CHALLENGE_LENGTH..].copy_from_slice(&create_response.data[1..1 + CHALLENGE_LENGTH]);
    let s_enc = scp03_kdf(&static_keys[..16], 0x04, &context, 128).unwrap();
    let s_mac = scp03_kdf(&static_keys[16..], 0x06, &context, 128).unwrap();
    let s_rmac = scp03_kdf(&static_keys[16..], 0x07, &context, 128).unwrap();
    assert_eq!(
        create_response.data[1 + CHALLENGE_LENGTH..],
        scp03_kdf(&s_mac, 0x00, &context, 64).unwrap()
    );

    let mut authenticate_payload = vec![sid];
    authenticate_payload.extend_from_slice(&scp03_kdf(&s_mac, 0x01, &context, 64).unwrap());
    let mut authenticate_without_mac = vec![CommandCode::AuthenticateSession.to_byte(), 0, 17];
    authenticate_without_mac.extend_from_slice(&authenticate_payload);
    let mut authenticate_mac_input = vec![0; BLOCK_SIZE];
    authenticate_mac_input.extend_from_slice(&authenticate_without_mac);
    let command_mac = cmac(&s_mac, &authenticate_mac_input).unwrap();
    authenticate_payload.extend_from_slice(&command_mac[..8]);
    let authenticate = frame(CommandCode::AuthenticateSession, authenticate_payload);
    assert_eq!(
        Frame::parse(&handle_encoded(&mut device, &authenticate.encode())).unwrap(),
        Frame::response(CommandCode::AuthenticateSession.to_byte(), Vec::new())
    );

    let mut counter = [0; BLOCK_SIZE];
    counter[BLOCK_SIZE - 1] = 1;
    let iv = encrypt_block(&s_enc, &counter).unwrap();
    let echo_payload = b"session keepalive".to_vec();
    let inner = frame(CommandCode::Echo, echo_payload.clone());
    let ciphertext = cbc_encrypt(&s_enc, &iv, &pad(&inner.encode())).unwrap();
    let mut message_payload = vec![sid];
    message_payload.extend_from_slice(&ciphertext);
    let total_length = message_payload.len() + 8;
    let mut message_without_mac = vec![
        CommandCode::SessionMessage.to_byte(),
        (total_length >> 8) as u8,
        total_length as u8,
    ];
    message_without_mac.extend_from_slice(&message_payload);
    let mut message_mac_input = command_mac.to_vec();
    message_mac_input.extend_from_slice(&message_without_mac);
    let message_mac = cmac(&s_mac, &message_mac_input).unwrap();
    message_payload.extend_from_slice(&message_mac[..8]);
    let message = frame(CommandCode::SessionMessage, message_payload);
    let prior_activity = device.sessions[&sid].last_activity;
    let now = prior_activity + SESSION_INACTIVITY_TIMEOUT / 2;
    let response =
        Frame::parse(&handle_encoded_at(&mut device, &message.encode(), now)).unwrap();
    assert_eq!(response.command, response_to(CommandCode::SessionMessage));
    assert!(device.sessions[&sid].last_activity > prior_activity);

    let response_payload_length = response.data.len() - 8;
    let response_without_mac = &response.encode()[..3 + response_payload_length];
    let mut rmac_input = message_mac.to_vec();
    rmac_input.extend_from_slice(response_without_mac);
    let expected_rmac = cmac(&s_rmac, &rmac_input).unwrap();
    assert_eq!(
        &response.data[response_payload_length..],
        &expected_rmac[..8]
    );
    assert_eq!(response.data[0], sid);
    let clear = cbc_decrypt(&s_enc, &iv, &response.data[1..response_payload_length]).unwrap();
    let inner_response = Frame::parse(&unpad(clear).unwrap()).unwrap();
    assert_eq!(inner_response.command, response_to(CommandCode::Echo));
    assert_eq!(inner_response.data, echo_payload);
    assert_eq!(device.active_session_count(), 1);

    let later = now + SESSION_INACTIVITY_TIMEOUT + 1_000_000;
    assert_eq!(
        Frame::parse(&handle_encoded_at(&mut device, &message.encode(), later)).unwrap(),
        Frame::error(DeviceError::InvalidSession)
    );
    assert_eq!(device.active_session_count(), 0);
}

#[test]
fn expired_sessions_are_reclaimed_before_allocating_a_new_session() {
    let mut device = factory();
    let create = |challenge: u8| {
        let mut data = 1_u16.to_be_bytes().to_vec();
        data.extend_from_slice(&[challenge; CHALLENGE_LENGTH]);
        frame(CommandCode::CreateSession, data)
    };

    for expected_sid in 0..MAX_SESSIONS {
        let response =
            Frame::parse(&handle_encoded(&mut device, &create(expected_sid).encode())).unwrap();
        assert_eq!(response.command, response_to(CommandCode::CreateSession));
        assert_eq!(response.data[0], expected_sid);
    }
    assert_eq!(device.active_session_count(), usize::from(MAX_SESSIONS));
    assert_eq!(
        Frame::parse(&handle_encoded(&mut device, &create(0xff).encode())).unwrap(),
        Frame::error(DeviceError::SessionsFull)
    );

    let now = SESSION_INACTIVITY_TIMEOUT + 1_000_000;
    let response =
        Frame::parse(&handle_encoded_at(&mut device, &create(0xfe).encode(), now)).unwrap();
    assert_eq!(response.command, response_to(CommandCode::CreateSession));
    assert_eq!(response.data[0], 0);
    assert_eq!(device.active_session_count(), 1);
}

#[test]
fn directly_available_commands_are_also_available_in_a_session() {
    let mut device = factory();
    let authorization = device.session_authorization(1).unwrap();
    for request in [
        frame(CommandCode::Echo, b"echo".to_vec()),
        frame(CommandCode::GetDeviceInfo, Vec::new()),
        frame(CommandCode::GetDevicePublicKey, Vec::new()),
    ] {
        assert_eq!(
            execute_inner(&mut device, authorization, &request),
            device.execute_plain(&request)
        );
    }
}

#[test]
fn shared_software_key_core_backs_asymmetric_generation_and_signing() {
    let mut device = factory();
    let admin = device.session_authorization(1).unwrap();
    let object_capabilities =
        CapabilitySet::from_capabilities([Capability::SignEcdsa, Capability::DeriveEcdh]);
    let generate = generate_asymmetric_key_request(42, 0b0010, object_capabilities, 12);
    assert_eq!(
        execute_inner(&mut device, admin, &generate).data,
        42_u16.to_be_bytes()
    );

    let get_public = frame(CommandCode::GetPublicKey, number(42));
    let public_response = execute_inner(&mut device, admin, &get_public);
    assert_eq!(
        public_response.command,
        response_to(CommandCode::GetPublicKey)
    );
    assert_eq!(public_response.data[0], 12);
    let public = [vec![0x04], public_response.data[1..].to_vec()].concat();

    let digest = digest(HashAlgorithm::Sha256, b"protocol-neutral key implementation");
    let sign = frame(
        CommandCode::SignEcdsa,
        [42_u16.to_be_bytes().as_slice(), digest.as_slice()].concat(),
    );
    let signature = execute_inner(&mut device, admin, &sign);
    assert_eq!(signature.data.first(), Some(&0x30));
    let raw_signature = ecdsa_from_der(&signature.data, 32).unwrap();
    assert_eq!(raw_signature, raw_ecdsa(&public, &digest, 32));

    let wrong_domain = SessionAuthorization {
        authentication_key_id: 9,
        capabilities: CapabilitySet::from_capabilities([Capability::SignEcdsa]),
        delegated_capabilities: none(),
        domains: 0b0100,
    };
    assert_eq!(
        execute_inner(&mut device, wrong_domain, &sign),
        Frame::error(DeviceError::ObjectNotFound)
    );
}

#[test]
fn asymmetric_authentication_key_exposes_its_public_key() {
    let mut device = factory();
    let admin = device.session_authorization(1).unwrap();
    let host_static = p256::SecretKey::from_slice(&[1; 32]).unwrap();
    let host_public = host_static.public_key().to_sec1_point(false);
    let raw_public = &host_public.as_bytes()[1..];
    let put = put_asymmetric_authentication_key_request(44, 1, none(), none(), raw_public);
    assert_eq!(
        execute_inner(&mut device, admin, &put).data,
        44_u16.to_be_bytes()
    );

    let get_public = frame(
        CommandCode::GetPublicKey,
        [
            44_u16.to_be_bytes().as_slice(),
            &[ObjectType::AuthenticationKey.to_byte()],
        ]
        .concat(),
    );
    let response = execute_inner(&mut device, admin, &get_public);
    assert_eq!(response.command, response_to(CommandCode::GetPublicKey));
    assert_eq!(response.data[0], AUTHENTICATION_ALGORITHM_EC_P256);
    assert_eq!(&response.data[1..], raw_public);
}

#[test]
fn rsa_generation_and_pkcs1_signing_use_the_official_wire_format() {
    let mut device = factory();
    let admin = device.session_authorization(1).unwrap();
    let capabilities = CapabilitySet::from_capabilities([
        Capability::SignPkcs,
        Capability::SignPss,
        Capability::DecryptPkcs,
        Capability::DecryptOaep,
    ]);
    let generate =
        generate_asymmetric_key_request(43, 1, capabilities, Algorithm::Rsa2048.to_byte());
    assert_eq!(
        execute_inner(&mut device, admin, &generate).data,
        43_u16.to_be_bytes()
    );
    assert_eq!(
        device
            .object(ObjectKey {
                object_type: ObjectType::AsymmetricKey,
                id: 43,
            })
            .unwrap()
            .info
            .length,
        896
    );

    let get_public = frame(CommandCode::GetPublicKey, number(43));
    let public_response = execute_inner(&mut device, admin, &get_public);
    assert_eq!(public_response.data[0], Algorithm::Rsa2048.to_byte());
    assert_eq!(public_response.data.len(), 257);
    let public = &public_response.data[1..];
    let hashed = digest(HashAlgorithm::Sha256, b"virtual YubiHSM RSA command");
    let sign = frame(
        CommandCode::SignPkcs1,
        [43_u16.to_be_bytes().as_slice(), hashed.as_slice()].concat(),
    );
    let signature = execute_inner(&mut device, admin, &sign);
    assert_eq!(signature.data.len(), 256);
    assert_eq!(
        signature.data,
        rsa_signature("pkcs1 Sha256", public, &hashed)
    );

    // The official command infers SHA-1/SHA-2 from raw digest lengths.
    // Hashes with colliding lengths, such as SHA3-256, remain unambiguous
    // when the caller supplies the complete DigestInfo payload.
    let mut sha3_digest_info = vec![
        0x30, 0x31, 0x30, 0x0d, 0x06, 0x09, 0x60, 0x86, 0x48, 0x01, 0x65, 0x03, 0x04, 0x02, 0x08,
        0x05, 0x00, 0x04, 0x20,
    ];
    sha3_digest_info.extend(digest(HashAlgorithm::Sha3_256, b"encoded SHA3 DigestInfo"));
    let sign_encoded = frame(
        CommandCode::SignPkcs1,
        [43_u16.to_be_bytes().as_slice(), sha3_digest_info.as_slice()].concat(),
    );
    assert_eq!(
        execute_inner(&mut device, admin, &sign_encoded).data,
        rsa_signature("pkcs1 payload", public, &sha3_digest_info)
    );

    let plaintext = b"RSA decryption command";
    let ciphertext = rsa_encrypt(b"pkcs1", public, b"", plaintext).unwrap();
    let decrypt = frame(
        CommandCode::DecryptPkcs1,
        [43_u16.to_be_bytes().as_slice(), ciphertext.as_slice()].concat(),
    );
    assert_eq!(execute_inner(&mut device, admin, &decrypt).data, plaintext);

    let label_digest = digest(HashAlgorithm::Sha256, b"OAEP label");
    let ciphertext = rsa_encrypt(b"oaep Sha384", public, &label_digest, plaintext).unwrap();
    let decrypt = frame(
        CommandCode::DecryptOaep,
        [
            43_u16.to_be_bytes().as_slice(),
            &[Algorithm::Mgf1Sha384.to_byte()],
            ciphertext.as_slice(),
            label_digest.as_slice(),
        ]
        .concat(),
    );
    assert_eq!(execute_inner(&mut device, admin, &decrypt).data, plaintext);
}

fn wrap_record(
    id: u16,
    object_type: ObjectType,
    algorithm: Algorithm,
    capabilities: CapabilitySet,
    delegated_capabilities: CapabilitySet,
    material: ObjectMaterial,
) -> ObjectRecord {
    let mut record = ObjectRecord {
        info: ObjectInfo {
            capabilities,
            id,
            length: 0,
            domains: 1,
            object_type,
            algorithm: algorithm.to_byte(),
            sequence: 0,
            origin: 2,
            label: Vec::new(),
            delegated_capabilities,
        },
        material,
    };
    record.normalize_info_length().unwrap();
    record
}

#[test]
fn direct_pkcs1_variant_wraps_and_imports_symmetric_key_material() {
    const WRAP_ID: u16 = 200;
    const SOURCE_ID: u16 = 201;
    const IMPORTED_ID: u16 = 202;
    const SECRET: [u8; 16] = [0x5a; 16];

    let mut device = full_factory();
    let admin = device.session_authorization(1).unwrap();
    let private = generated(Algorithm::Rsa2048);
    let ObjectMaterial::SigningKey(signing) = private.clone() else {
        panic!("generated RSA wrap key has the wrong material type");
    };
    provision(
        &mut device,
        wrap_record(
            WRAP_ID,
            ObjectType::WrapKey,
            Algorithm::Rsa2048,
            CapabilitySet::from_capabilities([Capability::ImportWrapped]),
            none(),
            private,
        ),
    )
    .unwrap();
    provision(
        &mut device,
        wrap_record(
            WRAP_ID,
            ObjectType::PublicWrapKey,
            Algorithm::Rsa2048,
            CapabilitySet::from_capabilities([Capability::ExportWrapped]),
            CapabilitySet::from_capabilities([Capability::ExportableUnderWrap]),
            ObjectMaterial::Public(signing.public.clone()),
        ),
    )
    .unwrap();
    provision(
        &mut device,
        wrap_record(
            SOURCE_ID,
            ObjectType::SymmetricKey,
            Algorithm::Aes128,
            CapabilitySet::from_capabilities([Capability::ExportableUnderWrap]),
            none(),
            ObjectMaterial::Secret(SECRET.to_vec()),
        ),
    )
    .unwrap();

    let get = frame(
        CommandCode::GetRsaWrappedKey,
        [
            WRAP_ID.to_be_bytes().as_slice(),
            &[ObjectType::SymmetricKey.to_byte()],
            SOURCE_ID.to_be_bytes().as_slice(),
            &[0, 0, 0],
        ]
        .concat(),
    );
    let wrapped = execute_inner(&mut device, admin, &get);
    assert_eq!(wrapped.command, response_to(CommandCode::GetRsaWrappedKey));
    assert_eq!(wrapped.data.len(), 256);
    assert_eq!(
        rsa_decrypt(b"pkcs1", &signing.public, b"", &wrapped.data).unwrap(),
        SECRET
    );

    let mut put_data = Vec::new();
    put_data.extend_from_slice(&WRAP_ID.to_be_bytes());
    put_data.push(ObjectType::SymmetricKey.to_byte());
    put_data.extend_from_slice(&IMPORTED_ID.to_be_bytes());
    put_data.resize(45, 0);
    put_data.extend_from_slice(&1_u16.to_be_bytes());
    put_data.extend_from_slice(&none().to_bytes());
    put_data.push(Algorithm::Aes128.to_byte());
    put_data.extend_from_slice(&[0, 0]);
    put_data.extend_from_slice(&wrapped.data);
    let put = frame(CommandCode::PutRsaWrappedKey, put_data);
    assert_eq!(
        execute_inner(&mut device, admin, &put).data,
        [ObjectType::SymmetricKey.to_byte(), 0, IMPORTED_ID as u8]
    );
    assert_eq!(
        device
            .object(ObjectKey {
                object_type: ObjectType::SymmetricKey,
                id: IMPORTED_ID,
            })
            .unwrap()
            .material,
        ObjectMaterial::Secret(SECRET.to_vec())
    );
}

#[test]
fn wrapped_object_cbor_v1_round_trips_every_material_representation() {
    let ec_secret = generated(Algorithm::EcP256);
    let ed25519_secret = generated(Algorithm::Ed25519);
    let x25519_secret = generated(Algorithm::X25519);
    let rsa_secret = generated(Algorithm::Rsa2048);
    let ObjectMaterial::SigningKey(rsa_key) = rsa_secret.clone() else {
        panic!("generated RSA key did not have an RSA public key");
    };
    let rsa_record = wrapped_test_record(109, ObjectType::WrapKey, Algorithm::Rsa2048, rsa_secret);
    let ObjectMaterial::SigningKey(auth_private) = generated(Algorithm::EcP256) else {
        panic!("generated P-256 key did not have an EC public key");
    };

    let records = vec![
        wrapped_test_record(
            100,
            ObjectType::Opaque,
            Algorithm::OpaqueData,
            ObjectMaterial::Opaque(vec![0, 1, 2, 0xff]),
        ),
        wrapped_test_record(
            101,
            ObjectType::Template,
            Algorithm::TemplateSsh,
            ObjectMaterial::Opaque(b"template".to_vec()),
        ),
        wrapped_test_record(
            102,
            ObjectType::SymmetricKey,
            Algorithm::Aes256,
            ObjectMaterial::Secret(vec![0x22; 32]),
        ),
        wrapped_test_record(
            103,
            ObjectType::HmacKey,
            Algorithm::HmacSha384,
            ObjectMaterial::Secret(vec![0x33; 48]),
        ),
        wrapped_test_record(
            104,
            ObjectType::WrapKey,
            Algorithm::Aes192CcmWrap,
            ObjectMaterial::Secret(vec![0x44; 24]),
        ),
        wrapped_test_record(
            105,
            ObjectType::AuthenticationKey,
            Algorithm::Aes128YubicoAuthentication,
            ObjectMaterial::Authentication(AuthenticationKeyMaterial::Symmetric(vec![0x55; 32])),
        ),
        wrapped_test_record(
            106,
            ObjectType::AuthenticationKey,
            Algorithm::EcP256YubicoAuthentication,
            ObjectMaterial::Authentication(AuthenticationKeyMaterial::Asymmetric(
                auth_private.public[1..].to_vec(),
            )),
        ),
        wrapped_test_record(
            107,
            ObjectType::OtpAeadKey,
            Algorithm::Aes128YubicoOtp,
            ObjectMaterial::OtpAeadKey {
                nonce_id: [1, 2, 3, 4],
                key: vec![0x66; 16],
            },
        ),
        wrapped_test_record(108, ObjectType::AsymmetricKey, Algorithm::EcP256, ec_secret),
        rsa_record,
        wrapped_test_record(
            110,
            ObjectType::PublicWrapKey,
            Algorithm::Rsa2048,
            ObjectMaterial::Public(rsa_key.public),
        ),
        wrapped_test_record(
            111,
            ObjectType::AsymmetricKey,
            Algorithm::Ed25519,
            ed25519_secret,
        ),
        wrapped_test_record(
            112,
            ObjectType::AsymmetricKey,
            Algorithm::X25519,
            x25519_secret,
        ),
    ];

    for record in records {
        let encoded = wrap(&record).unwrap();
        let mut expected = record;
        expected.info.sequence = 0;
        expected.info.origin &= 0x0f;
        assert_eq!(unwrap(&encoded).unwrap(), expected);
    }
}

#[test]
fn wrapped_object_cbor_v1_rejects_noncanonical_and_mismatched_records() {
    let record = wrapped_test_record(
        120,
        ObjectType::Opaque,
        Algorithm::OpaqueData,
        ObjectMaterial::Opaque(b"payload".to_vec()),
    );
    let encoded = wrap(&record).unwrap();

    let schema = match ciborium::from_reader::<ciborium::Value, _>(encoded.as_slice()).unwrap() {
        ciborium::Value::Array(fields) => fields[0].as_text().unwrap().to_owned(),
        _ => panic!("wrapped object was not a CBOR array"),
    };
    let schema_offset = encoded
        .windows(schema.len())
        .position(|window| window == schema.as_bytes())
        .unwrap();
    let version_offset = schema_offset + schema.len();
    assert_eq!(encoded[version_offset], WRAPPED_OBJECT_VERSION);
    let mut noncanonical = encoded.clone();
    noncanonical.insert(version_offset, 0x18);
    assert_eq!(unwrap(&noncanonical), Err(DeviceError::InvalidData));

    let mut trailing = encoded.clone();
    trailing.push(0);
    assert_eq!(unwrap(&trailing), Err(DeviceError::InvalidData));

    let mut value: ciborium::Value = ciborium::from_reader(encoded.as_slice()).unwrap();
    let ciborium::Value::Array(fields) = &mut value else {
        panic!("wrapped object was not a CBOR array");
    };
    let ciborium::Value::Array(material) = &mut fields[10] else {
        panic!("wrapped material was not a CBOR array");
    };
    material[0] = ciborium::Value::Integer(WRAPPED_MATERIAL_SECRET.into());
    let mut mismatched = Vec::new();
    ciborium::into_writer(&value, &mut mismatched).unwrap();
    assert_eq!(unwrap(&mismatched), Err(DeviceError::InvalidData));
}

#[test]
fn protected_ecdh_kdf_can_authenticate_back_to_the_same_hsm() {
    let mut device = full_factory();
    let admin = device.session_authorization(1).unwrap();
    let static_private = p256::SecretKey::from_slice(&[3; 32]).unwrap();
    let static_public = static_private.public_key().to_sec1_point(false);
    let derive_capability = CapabilitySet::from_capabilities([Capability::DeriveEcdhKdf]);
    let put_static =
        put_asymmetric_key_request(32, 1, derive_capability, Algorithm::EcP256, &[3; 32]);
    assert_eq!(
        execute_inner(&mut device, admin, &put_static).data,
        32_u16.to_be_bytes()
    );

    let session_capabilities = CapabilitySet::from_capabilities([Capability::GetPseudoRandom]);
    let put_authentication = put_asymmetric_authentication_key_request(
        33,
        1,
        session_capabilities,
        none(),
        &static_public.as_bytes()[1..],
    );
    assert_eq!(
        execute_inner(&mut device, admin, &put_authentication).data,
        33_u16.to_be_bytes()
    );

    let host_ephemeral = p256::SecretKey::from_slice(&[4; 32]).unwrap();
    let host_ephemeral_public = host_ephemeral.public_key().to_sec1_point(false);
    let mut create_data = 33_u16.to_be_bytes().to_vec();
    create_data.extend_from_slice(host_ephemeral_public.as_bytes());
    let create = frame(CommandCode::CreateSession, create_data);
    let create_response = Frame::parse(&handle_encoded(&mut device, &create.encode())).unwrap();
    assert_eq!(
        create_response.command,
        response_to(CommandCode::CreateSession)
    );
    assert_eq!(create_response.data.len(), 1 + 65 + 16);
    let sid = create_response.data[0];

    // Zephemeral is intentionally calculated by the untrusted host. The
    // static ECDH result remains inside object 32 and enters the KDF there.
    let device_ephemeral = p256::PublicKey::from_sec1_bytes(&create_response.data[1..66]).unwrap();
    let ephemeral_secret = diffie_hellman(
        host_ephemeral.to_nonzero_scalar(),
        device_ephemeral.as_affine(),
    );
    let device_public_request = frame(CommandCode::GetDevicePublicKey, Vec::new());
    let mut device_static_public = device.execute_plain(&device_public_request).data;
    device_static_public[0] = 0x04;

    let shared_info = [0x3c, 0x88, 0x10];
    let mut derive_data = Vec::new();
    derive_data.extend_from_slice(&32_u16.to_be_bytes());
    derive_data.push(3); // X9.63 SHA-256
    derive_data.extend_from_slice(&64_u16.to_be_bytes());
    for value in [
        device_static_public.len(),
        ephemeral_secret.raw_secret_bytes().len(),
        shared_info.len(),
    ] {
        derive_data.extend_from_slice(&u16::try_from(value).unwrap().to_be_bytes());
    }
    derive_data.extend_from_slice(&device_static_public);
    derive_data.extend_from_slice(ephemeral_secret.raw_secret_bytes());
    derive_data.extend_from_slice(&shared_info);
    let derive = frame(CommandCode::DeriveEcdhKdf, derive_data);
    let derive_response = execute_inner(&mut device, admin, &derive);
    assert_eq!(
        derive_response.command,
        response_to(CommandCode::DeriveEcdhKdf)
    );
    assert_eq!(derive_response.data.len(), 64);
    let session_keys = derive_response.data;

    let mut receipt_input = create_response.data[1..66].to_vec();
    receipt_input.extend_from_slice(host_ephemeral_public.as_bytes());
    assert_eq!(
        create_response.data[66..],
        cmac(&session_keys[..16], &receipt_input).unwrap()
    );

    let raw_derive = frame(
        CommandCode::DeriveEcdh,
        [
            32_u16.to_be_bytes().as_slice(),
            device_static_public.as_slice(),
        ]
        .concat(),
    );
    assert_eq!(
        execute_inner(&mut device, admin, &raw_derive),
        Frame::error(DeviceError::InsufficientPermissions)
    );

    // Use the protected result as real SCP11 session keys. A successful
    // authorized command proves more than merely reproducing the receipt.
    let mut counter = [0; BLOCK_SIZE];
    counter[BLOCK_SIZE - 1] = 1;
    let iv = encrypt_block(&session_keys[16..32], &counter).unwrap();
    let inner = frame(CommandCode::GetPseudoRandom, number(16));
    let ciphertext = cbc_encrypt(&session_keys[16..32], &iv, &pad(&inner.encode())).unwrap();
    let mut message_payload = vec![sid];
    message_payload.extend_from_slice(&ciphertext);
    let total_length = message_payload.len() + 8;
    let mut message_without_mac = vec![
        CommandCode::SessionMessage.to_byte(),
        (total_length >> 8) as u8,
        total_length as u8,
    ];
    message_without_mac.extend_from_slice(&message_payload);
    let mut message_mac_input = create_response.data[66..].to_vec();
    message_mac_input.extend_from_slice(&message_without_mac);
    let message_mac = cmac(&session_keys[32..48], &message_mac_input).unwrap();
    message_payload.extend_from_slice(&message_mac[..8]);
    let message = frame(CommandCode::SessionMessage, message_payload);
    let response = Frame::parse(&handle_encoded(&mut device, &message.encode())).unwrap();
    assert_eq!(response.command, response_to(CommandCode::SessionMessage));

    let response_payload_length = response.data.len() - 8;
    let response_without_mac = &response.encode()[..3 + response_payload_length];
    let mut rmac_input = message_mac.to_vec();
    rmac_input.extend_from_slice(response_without_mac);
    let expected_rmac = cmac(&session_keys[48..64], &rmac_input).unwrap();
    assert_eq!(
        &response.data[response_payload_length..],
        &expected_rmac[..8]
    );
    assert_eq!(response.data[0], sid);
    let clear = cbc_decrypt(
        &session_keys[16..32],
        &iv,
        &response.data[1..response_payload_length],
    )
    .unwrap();
    let inner_response = Frame::parse(&unpad(clear).unwrap()).unwrap();
    assert_eq!(
        inner_response.command,
        response_to(CommandCode::GetPseudoRandom)
    );
    assert_eq!(inner_response.data.len(), 16);
}

#[test]
fn persistent_state_round_trips_objects_options_audit_and_device_identity() {
    let config = DeviceConfig {
        serial: 77,
        ..DeviceConfig::default()
    };
    let mut device = settle(|replies| {
        Device::factory_default_with_device_static_private(
            config.clone(),
            FirmwareProfile::compiled(),
            &[7; 32],
            replies,
        )
    })
    .unwrap();
    let admin = device.session_authorization(1).unwrap();
    let put = put_opaque_request(
        42,
        1,
        CapabilitySet::from_capabilities([Capability::GetOpaque]),
    );
    assert_eq!(
        execute_inner(&mut device, admin, &put).data,
        42_u16.to_be_bytes()
    );
    let set_audit = frame(
        CommandCode::SetOption,
        vec![
            OPTION_COMMAND_AUDIT,
            0,
            2,
            CommandCode::GetPseudoRandom.to_byte(),
            OPTION_ON,
        ],
    );
    assert!(execute_inner(&mut device, admin, &set_audit).data.is_empty());
    let random = frame(CommandCode::GetPseudoRandom, number(4));
    assert_eq!(execute_inner(&mut device, admin, &random).data.len(), 4);
    assert_eq!(device.state_epoch(), 0);
    assert!(device.take_persistent_change().unwrap());
    assert_eq!(device.state_epoch(), 1);
    assert!(!device.take_persistent_change().unwrap());

    let state = device.persistent_state().unwrap();
    let mut restored = restore(config.clone(), &state).unwrap();
    assert_eq!(restored.state_epoch(), 1);
    assert_eq!(restored.active_session_count(), 0);
    assert!(restored.object(opaque_key(42)).is_some());
    assert_eq!(restored.audit.entries.len(), 1);
    assert_eq!(
        restored.options.command_audit[&CommandCode::GetPseudoRandom.to_byte()],
        OPTION_ON
    );
    assert_eq!(restored.device_static_private.private, [7; 32]);

    let reset = frame(CommandCode::ResetDevice, Vec::new());
    assert!(execute_inner(&mut restored, admin, &reset).data.is_empty());
    assert_ne!(restored.device_static_private.private, [7; 32]);
    assert!(restored.take_persistent_change().unwrap());
    assert_eq!(restored.state_epoch(), 2);

    let reset_with_payload = frame(CommandCode::ResetDevice, vec![0xde]);
    assert_eq!(
        DeviceError::from_byte(
            execute_inner(&mut restored, admin, &reset_with_payload).data[0]
        )
        .unwrap(),
        DeviceError::WrongLength
    );

    let foreign = DeviceConfig {
        serial: 78,
        ..config
    };
    assert_eq!(
        restore(foreign, &state).err(),
        Some(DeviceError::InvalidData)
    );
}

#[test]
fn persistent_state_uses_the_running_firmware_configuration() {
    let current = DeviceConfig::default();
    let mut previous = current.clone();
    previous.version = [2, 4, 1];
    previous
        .algorithms
        .retain(|algorithm| *algorithm != Algorithm::AesKwp.to_byte());
    let state = factory_of(previous, FirmwareProfile::compiled())
        .persistent_state()
        .unwrap();

    let restored = restore(current.clone(), &state).unwrap();
    let response = restored.execute_plain(&frame(CommandCode::GetDeviceInfo, vec![]));
    assert_eq!(&response.data[..3], &current.version);
    assert!(
        response.data[9..].contains(&Algorithm::AesKwp.to_byte()),
        "restored device must advertise capabilities of the running firmware"
    );

    let persisted = restored.persistent_state().unwrap();
    assert_eq!(persisted.config.version, current.version);
    assert_eq!(persisted.config.algorithms, current.algorithms);
}

#[test]
fn version_one_state_migrates_legacy_asymmetric_object_lengths() {
    let config = DeviceConfig {
        serial: 78,
        ..DeviceConfig::default()
    };
    let mut device = factory_of(config.clone(), FirmwareProfile::compiled());
    let admin = device.session_authorization(1).unwrap();
    let generate = generate_asymmetric_key_request(
        43,
        1,
        CapabilitySet::from_capabilities([Capability::DeriveEcdh]),
        Algorithm::EcP224.to_byte(),
    );
    assert_eq!(
        execute_inner(&mut device, admin, &generate).data,
        43_u16.to_be_bytes()
    );

    let mut legacy = device.persistent_state().unwrap();
    legacy.version = 1;
    for object in &mut legacy.objects {
        object.info.length = object.material.len().try_into().unwrap();
    }

    let restored = restore(config, &legacy).unwrap();
    assert_eq!(
        restored
            .object(ObjectKey {
                object_type: ObjectType::AsymmetricKey,
                id: 43,
            })
            .unwrap()
            .info
            .length,
        84
    );
    let upgraded = restored.persistent_state().unwrap();
    assert_eq!(upgraded.version, PERSISTENT_STATE_VERSION);
}

#[test]
fn version_two_state_migrates_measured_object_lengths() {
    let config = DeviceConfig {
        serial: 79,
        ..DeviceConfig::default()
    };
    let mut device = factory_of(config.clone(), FirmwareProfile::compiled());
    let admin = device.session_authorization(1).unwrap();
    let generate = generate_asymmetric_key_request(
        44,
        1,
        CapabilitySet::from_capabilities([Capability::SignEddsa]),
        Algorithm::Ed25519.to_byte(),
    );
    assert_eq!(
        execute_inner(&mut device, admin, &generate).data,
        44_u16.to_be_bytes()
    );

    let mut version_two = device.persistent_state().unwrap();
    version_two.version = 2;
    for object in &mut version_two.objects {
        let runtime = settle(|replies| {
            ObjectRecord::from_stored(object.clone(), &mut Answers::new(replies))
        })
        .unwrap();
        object.info.length = version_two_object_length(&runtime)
            .unwrap()
            .try_into()
            .unwrap();
    }

    let restored = restore(config, &version_two).unwrap();
    assert_eq!(
        restored
            .object(ObjectKey {
                object_type: ObjectType::AuthenticationKey,
                id: 1,
            })
            .unwrap()
            .info
            .length,
        40
    );
    assert_eq!(
        restored
            .object(ObjectKey {
                object_type: ObjectType::AsymmetricKey,
                id: 44,
            })
            .unwrap()
            .info
            .length,
        128
    );
}

#[test]
fn authentication_commands_can_be_audited_but_session_message_cannot() {
    let mut device = factory();
    let admin = device.session_authorization(1).unwrap();
    let enable_authentication_audit = frame(
        CommandCode::SetOption,
        vec![
            OPTION_COMMAND_AUDIT,
            0,
            4,
            CommandCode::CreateSession.to_byte(),
            OPTION_ON,
            CommandCode::AuthenticateSession.to_byte(),
            OPTION_ON,
        ],
    );
    assert!(
        execute_inner(&mut device, admin, &enable_authentication_audit)
            .data
            .is_empty()
    );

    let mut create_data = 1_u16.to_be_bytes().to_vec();
    create_data.extend_from_slice(&[0; CHALLENGE_LENGTH]);
    let create = frame(CommandCode::CreateSession, create_data);
    let create_response = handle_frame(&mut device, &create);
    assert_eq!(
        create_response.command,
        response_to(CommandCode::CreateSession)
    );
    let sid = create_response.data[0];

    let malformed_authenticate = frame(CommandCode::AuthenticateSession, vec![sid]);
    assert_eq!(
        handle_frame(&mut device, &malformed_authenticate),
        Frame::error(DeviceError::AuthenticationFailed)
    );

    assert_eq!(device.audit.entries.len(), 2);
    assert_eq!(
        (
            device.audit.entries[0].command,
            device.audit.entries[0].session_key,
            device.audit.entries[0].target_key,
            device.audit.entries[0].result,
        ),
        (CommandCode::CreateSession.to_byte(), 1, 1, 0)
    );
    assert_eq!(
        (
            device.audit.entries[1].command,
            device.audit.entries[1].session_key,
            device.audit.entries[1].target_key,
            device.audit.entries[1].result,
        ),
        (
            CommandCode::AuthenticateSession.to_byte(),
            1,
            1,
            DeviceError::AuthenticationFailed.to_byte(),
        )
    );

    let enable_session_message_audit = frame(
        CommandCode::SetOption,
        vec![
            OPTION_COMMAND_AUDIT,
            0,
            2,
            CommandCode::SessionMessage.to_byte(),
            OPTION_ON,
        ],
    );
    assert_eq!(
        execute_inner(&mut device, admin, &enable_session_message_audit),
        Frame::error(DeviceError::InvalidData)
    );

    for command in [
        CommandCode::Echo,
        CommandCode::GetDeviceInfo,
        CommandCode::GetDevicePublicKey,
        CommandCode::CloseSession,
    ] {
        let enable_audit = frame(
            CommandCode::SetOption,
            vec![OPTION_COMMAND_AUDIT, 0, 2, command.to_byte(), OPTION_ON],
        );
        assert!(execute_inner(&mut device, admin, &enable_audit).data.is_empty());
        assert_eq!(
            device.options.command_audit.get(&command.to_byte()),
            Some(&OPTION_ON)
        );
        assert!(!device.should_audit(command));
    }
}

#[test]
fn authentication_commands_are_not_denied_when_force_audit_log_is_full() {
    let mut device = factory_of(
        DeviceConfig {
            log_capacity: 1,
            ..DeviceConfig::default()
        },
        FirmwareProfile::compiled(),
    );
    let admin = device.session_authorization(1).unwrap();
    let options = frame(
        CommandCode::SetOption,
        vec![
            OPTION_COMMAND_AUDIT,
            0,
            4,
            CommandCode::CreateSession.to_byte(),
            OPTION_ON,
            CommandCode::AuthenticateSession.to_byte(),
            OPTION_ON,
        ],
    );
    assert!(execute_inner(&mut device, admin, &options).data.is_empty());
    let force = frame(
        CommandCode::SetOption,
        vec![OPTION_FORCE_AUDIT, 0, 1, OPTION_ON],
    );
    assert!(execute_inner(&mut device, admin, &force).data.is_empty());

    let mut create_data = 1_u16.to_be_bytes().to_vec();
    create_data.extend_from_slice(&[0; CHALLENGE_LENGTH]);
    let create = frame(CommandCode::CreateSession, create_data);
    let first = handle_frame(&mut device, &create);
    assert_eq!(first.command, response_to(CommandCode::CreateSession));
    assert_eq!(device.audit.entries.len(), 1);

    let second = handle_frame(&mut device, &create);
    assert_eq!(second.command, response_to(CommandCode::CreateSession));
    let sid = second.data[0];
    let malformed_authenticate = frame(CommandCode::AuthenticateSession, vec![sid]);
    assert_eq!(
        handle_frame(&mut device, &malformed_authenticate),
        Frame::error(DeviceError::AuthenticationFailed)
    );
    assert_eq!(device.audit.entries.len(), 1);
}

#[test]
fn blink_device_uses_the_official_one_byte_duration() {
    let mut device = factory();
    let admin = device.session_authorization(1).unwrap();
    let blink = frame(CommandCode::BlinkDevice, vec![10]);
    assert!(execute_inner(&mut device, admin, &blink).data.is_empty());

    let missing_duration = frame(CommandCode::BlinkDevice, Vec::new());
    assert_eq!(
        execute_inner(&mut device, admin, &missing_duration),
        Frame::error(DeviceError::WrongLength)
    );
}

// Qualification.

fn factory_credentials() -> Credentials {
    let mut replies = Vec::new();
    loop {
        let mut answers = HostAnswers::new(&replies);
        match Credentials::from_password(1, b"password", &mut answers) {
            Ok(credentials) => return credentials,
            Err(HostHalt::Ask(HostQuestion::Compute(call))) => replies.push(consult(&call)),
            Err(halt) => panic!("no credentials: {halt:?}"),
        }
    }
}

fn exchange(transport: &mut InProcessTransport, request: &[u8]) -> Vec<u8> {
    let mut replies = Vec::new();
    loop {
        match transport.exchange(request, 0, &mut replies) {
            Ok(response) => return response,
            Err(question) => replies.push(answer(&question)),
        }
    }
}

fn qualify(
    transport: &mut InProcessTransport,
    profile: Profile,
    credentials: Option<Credentials>,
) -> Result<Report, String> {
    let mut run = Qualification::new(transport.description(), profile, credentials);
    let mut replies = Vec::new();
    loop {
        match run.advance(&replies) {
            Progress::Ask(HostQuestion::Exchange(request)) => {
                replies.push(HostReply::Bytes(exchange(transport, &request)));
            }
            Progress::Ask(HostQuestion::Compute(call)) => replies.push(consult(&call)),
            Progress::Going => replies.clear(),
            Progress::Passed(report) => return Ok(report),
            Progress::Failed(error) => return Err(format!("{}: {:?}", error.case(), error.failure)),
        }
    }
}

#[test]
fn factory_core_passes_the_complete_ephemeral_profile() {
    let mut transport = settle(InProcessTransport::factory_default).unwrap();
    let credentials = factory_credentials();
    let report = qualify(&mut transport, Profile::Ephemeral, Some(credentials)).unwrap();
    assert_eq!(
        report.identity.unwrap().serial,
        DeviceConfig::default().serial
    );
    assert_eq!(report.passed.len(), 22);
    assert_eq!(transport.device().active_session_count(), 0);
}

#[test]
fn factory_core_passes_the_extension_profile() {
    let mut transport = InProcessTransport::new(full_factory());
    let credentials = factory_credentials();
    let report = qualify(&mut transport, Profile::Extensions, Some(credentials)).unwrap();
    assert_eq!(report.passed.len(), 22);
    assert_eq!(transport.device().active_session_count(), 0);
}

#[test]
fn smoke_profile_needs_no_credentials_and_does_not_open_a_session() {
    let mut transport = settle(InProcessTransport::factory_default).unwrap();
    let report = qualify(&mut transport, Profile::Smoke, None).unwrap();
    assert_eq!(report.passed.len(), 5);
    assert_eq!(transport.device().active_session_count(), 0);
}

#[test]
fn lost_transports_fail_the_case_that_they_carry() {
    let mut run = Qualification::new("nowhere".to_owned(), Profile::Smoke, None);
    let mut replies = Vec::new();
    loop {
        match run.advance(&replies) {
            Progress::Ask(_) => replies.push(HostReply::Unsent(TransportError::new(
                "connection refused".to_owned(),
            ))),
            Progress::Going => replies.clear(),
            Progress::Failed(error) => {
                assert!(!error.case().is_empty());
                assert!(format!("{:?}", error.failure).contains("connection refused"));
                return;
            }
            Progress::Passed(_) => panic!("passed over a transport that carries nothing"),
        }
    }
}

// What the device keeps to.

#[test]
fn questions_leave_the_device_as_it_was() {
    let mut device = factory();
    let admin = device.session_authorization(1).unwrap();
    let before = device.persistent_state().unwrap();
    let generate = generate_asymmetric_key_request(42, 1, none(), Algorithm::EcP256.to_byte());
    let question = device.execute_inner(admin, &generate, &[]).unwrap_err();
    assert!(matches!(question, EngineRequest::Compute(_)));
    let after = device.persistent_state().unwrap();
    assert_eq!(before.objects.len(), after.objects.len());
    assert!(!device.take_persistent_change().unwrap());
    assert_eq!(
        execute_inner(&mut device, admin, &generate).data,
        42_u16.to_be_bytes()
    );
    assert!(device.take_persistent_change().unwrap());
}

#[test]
fn unknown_commands_change_nothing() {
    let mut device = factory();
    let admin = device.session_authorization(1).unwrap();
    assert_eq!(
        execute_inner(&mut device, admin, &Frame::new(0x7e, vec![1]).unwrap()),
        Frame::error(DeviceError::InvalidCommand)
    );
    assert!(!device.take_persistent_change().unwrap());
}

#[test]
fn a_full_log_stops_commands_until_it_is_read() {
    let mut device = factory_of(
        DeviceConfig {
            log_capacity: 1,
            ..DeviceConfig::default()
        },
        FirmwareProfile::compiled(),
    );
    let admin = device.session_authorization(1).unwrap();
    for options in [
        vec![
            OPTION_COMMAND_AUDIT,
            0,
            2,
            CommandCode::GetPseudoRandom.to_byte(),
            OPTION_ON,
        ],
        vec![OPTION_FORCE_AUDIT, 0, 1, OPTION_ON],
    ] {
        assert!(
            execute_inner(&mut device, admin, &frame(CommandCode::SetOption, options))
                .data
                .is_empty()
        );
    }
    let random = frame(CommandCode::GetPseudoRandom, number(2));
    assert_eq!(execute_inner(&mut device, admin, &random).data.len(), 2);
    assert_eq!(
        execute_inner(&mut device, admin, &random),
        Frame::error(DeviceError::LogFull)
    );
    let entries = execute_inner(&mut device, admin, &frame(CommandCode::GetLogEntries, vec![]));
    assert_eq!(entries.data.len(), 5 + 32);
    let index = u16::from_be_bytes(entries.data[5..7].try_into().unwrap());
    assert!(
        execute_inner(
            &mut device,
            admin,
            &frame(CommandCode::SetLogIndex, number(index))
        )
        .data
        .is_empty()
    );
    assert_eq!(execute_inner(&mut device, admin, &random).data.len(), 2);
}

#[test]
fn forged_messages_end_their_session() {
    let mut device = factory();
    let credentials = factory_credentials();
    let secure = open(&mut device, &credentials);
    assert_eq!(device.active_session_count(), 1);
    let mut message = vec![secure.sid];
    message.extend_from_slice(&[0; 24]);
    let response = handle_encoded(
        &mut device,
        &frame(CommandCode::SessionMessage, message).encode(),
    );
    let response = Frame::parse(&response).unwrap();
    assert_eq!(response.command, 0x7f);
    assert_eq!(device.active_session_count(), 0);
}

fn open(
    device: &mut Device,
    credentials: &Credentials,
) -> virtual_yubihsm::session::SecureSession {
    let mut replies = Vec::new();
    loop {
        let mut answers = HostAnswers::new(&replies);
        match virtual_yubihsm::host::open_session(credentials, &mut answers) {
            Ok(secure) => return secure,
            Err(HostHalt::Ask(HostQuestion::Compute(call))) => replies.push(consult(&call)),
            Err(HostHalt::Ask(HostQuestion::Exchange(request))) => {
                replies.push(HostReply::Bytes(handle_encoded(device, &request)));
            }
            Err(HostHalt::Failed(failure)) => panic!("no session: {failure:?}"),
        }
    }
}

#[test]
fn attestations_carry_the_key_and_take_over_a_template() {
    let mut device = factory();
    let admin = device.session_authorization(1).unwrap();
    let sign = CapabilitySet::from_capabilities([Capability::SignAttestationCertificate]);
    for id in [50, 51] {
        let generate = generate_asymmetric_key_request(id, 1, sign, Algorithm::EcP256.to_byte());
        assert_eq!(execute_inner(&mut device, admin, &generate).data, number(id));
    }
    let attest = frame(
        CommandCode::SignAttestationCertificate,
        [number(50), number(51)].concat(),
    );
    let plain = execute_inner(&mut device, admin, &attest).data;

    let by_device = frame(
        CommandCode::SignAttestationCertificate,
        [number(50), number(0)].concat(),
    );
    let first = execute_inner(&mut device, admin, &by_device).data;
    let public = execute_inner(&mut device, admin, &frame(CommandCode::GetPublicKey, number(50)));
    assert!(
        first
            .windows(public.data.len() - 1)
            .any(|window| window == &public.data[1..])
    );

    let put = object_request(
        CommandCode::PutOpaque,
        51,
        b"template",
        1,
        none(),
        &[&[Algorithm::OpaqueX509Certificate.to_byte()], &first],
    );
    assert_eq!(execute_inner(&mut device, admin, &put).data, number(51));
    let second = execute_inner(&mut device, admin, &attest);
    assert_eq!(
        second.command,
        response_to(CommandCode::SignAttestationCertificate)
    );
    let validity = &[der(23, b"250101000000Z"), der(23, b"350101000000Z")].concat();
    let issuer = |certificate: &[u8]| {
        let end = certificate
            .windows(validity.len())
            .position(|window| window == validity)
            .unwrap();
        certificate[end - 30..end].to_vec()
    };
    assert_eq!(issuer(&second.data), issuer(&first));
    assert_ne!(issuer(&plain), issuer(&first));

    // The metadata of the template stands before that of the key.
    let count = |certificate: &[u8], id: &str| {
        let id = const_oid::ObjectIdentifier::new(id).unwrap();
        let id = der(6, id.as_bytes());
        certificate.windows(id.len()).filter(|window| *window == id).count()
    };
    for (certificate, usages, labels) in [(&plain, 1, 1), (&first, 1, 1), (&second.data, 1, 2)] {
        assert_eq!(count(certificate, "2.5.29.15"), usages);
        assert_eq!(count(certificate, "2.5.29.19"), usages);
        assert_eq!(count(certificate, "1.3.6.1.4.1.41482.4.9"), labels);
    }
}

#[test]
fn identifiers_of_a_template_are_taken_over_as_they_are_encoded() {
    let mut device = factory();
    let admin = device.session_authorization(1).unwrap();
    let sign = CapabilitySet::from_capabilities([Capability::SignAttestationCertificate]);
    for id in [50, 51] {
        let generate = generate_asymmetric_key_request(id, 1, sign, Algorithm::EcP256.to_byte());
        assert_eq!(execute_inner(&mut device, admin, &generate).data, number(id));
    }
    let by_device = frame(
        CommandCode::SignAttestationCertificate,
        [number(50), number(0)].concat(),
    );
    let mut template = execute_inner(&mut device, admin, &by_device).data;

    // An arc that begins with an empty group of bits, in place of basic constraints.
    let plain = der(6, &[0x55, 0x1d, 0x13]);
    let padded = der(6, &[0x55, 0x80, 0x13]);
    let at = template.windows(plain.len()).position(|window| window == plain).unwrap();
    template[at..at + plain.len()].copy_from_slice(&padded);
    let put = object_request(
        CommandCode::PutOpaque,
        51,
        b"template",
        1,
        none(),
        &[&[Algorithm::OpaqueX509Certificate.to_byte()], &template],
    );
    assert_eq!(execute_inner(&mut device, admin, &put).data, number(51));
    let attest = frame(
        CommandCode::SignAttestationCertificate,
        [number(50), number(51)].concat(),
    );
    let attested = execute_inner(&mut device, admin, &attest).data;
    assert!(attested.windows(padded.len()).any(|window| window == padded));
    assert!(!attested.windows(plain.len()).any(|window| window == plain));
}

#[test]
fn certificates_say_what_a_key_is_for() {
    let mut device = factory();
    let admin = device.session_authorization(1).unwrap();
    let sign = CapabilitySet::from_capabilities([Capability::SignAttestationCertificate]);
    for (id, algorithm, agreement, encipherment) in [
        (60, Algorithm::EcP256, true, false),
        (61, Algorithm::Rsa2048, false, true),
        (62, Algorithm::Ed25519, false, false),
    ] {
        let generate = generate_asymmetric_key_request(id, 1, sign, algorithm.to_byte());
        assert_eq!(execute_inner(&mut device, admin, &generate).data, number(id));
        let prepared = device.prepare_attestation(admin, id, 0).unwrap();
        assert_eq!(
            prepared.subject,
            format!("CN=Virtual YubiHSM Key {id}").into_bytes()
        );
        assert_eq!(
            prepared.issuer,
            b"CN=Virtual YubiHSM 12345678 Attestation".to_vec()
        );
        assert_eq!(prepared.extensions[0], AttestedExtension::EndEntity);
        assert_eq!(
            prepared.extensions[1],
            AttestedExtension::KeyUsage {
                agreement,
                encipherment
            }
        );
        assert_eq!(prepared.extensions.len(), 9);
    }
    let imported = put_asymmetric_key_request(63, 1, sign, Algorithm::EcP256, &[3; 32]);
    assert_eq!(execute_inner(&mut device, admin, &imported).data, number(63));
    assert_eq!(
        device.prepare_attestation(admin, 63, 0).err(),
        Some(DeviceError::InvalidData)
    );
}

#[test]
fn fips_mode_needs_a_fresh_device() {
    let mut device = factory();
    let admin = device.session_authorization(1).unwrap();
    let set = frame(
        CommandCode::SetOption,
        vec![OPTION_FIPS_MODE, 0, 1, OPTION_ON],
    );
    execute_inner(&mut device, admin, &put_opaque_request(3, 1, none()));
    let refused = execute_inner(&mut device, admin, &set);
    assert_eq!(refused.command, 0x7f);
}

#[test]
fn exported_objects_are_imported_elsewhere() {
    let key = wrap_record(
        9,
        ObjectType::WrapKey,
        Algorithm::Aes128CcmWrap,
        CapabilitySet::from_capabilities([Capability::ExportWrapped, Capability::ImportWrapped]),
        CapabilitySet::all(),
        ObjectMaterial::Secret(vec![0x31; 16]),
    );
    let object = wrap_record(
        10,
        ObjectType::SymmetricKey,
        Algorithm::Aes128,
        CapabilitySet::from_capabilities([Capability::ExportableUnderWrap]),
        none(),
        ObjectMaterial::Secret(vec![0x5a; 16]),
    );
    let mut source = full_factory();
    let mut target = full_factory();
    provision(&mut source, key.clone()).unwrap();
    provision(&mut source, object.clone()).unwrap();
    provision(&mut target, key).unwrap();
    let admin = source.session_authorization(1).unwrap();
    let kind = ObjectType::SymmetricKey.to_byte();
    let export = frame(
        CommandCode::ExportWrapped,
        [number(9), vec![kind], number(10)].concat(),
    );
    let wrapped = execute_inner(&mut source, admin, &export);
    assert_eq!(wrapped.command, response_to(CommandCode::ExportWrapped));
    let import = frame(
        CommandCode::ImportWrapped,
        [number(9), wrapped.data].concat(),
    );
    assert_eq!(
        execute_inner(&mut target, admin, &import).data,
        [vec![kind], number(10)].concat()
    );
    let arrived = target.object(object.info.key()).unwrap();
    assert_eq!(arrived.material, object.material);
    assert_eq!(arrived.info.origin, 0x12);
    assert_eq!(arrived.info.capabilities, object.info.capabilities);
    assert_eq!(
        execute_inner(&mut target, admin, &import),
        Frame::error(DeviceError::ObjectExists)
    );
}

#[test]
fn exported_private_keys_are_imported_elsewhere() {
    let key = wrap_record(
        9,
        ObjectType::WrapKey,
        Algorithm::Aes256CcmWrap,
        CapabilitySet::from_capabilities([Capability::ExportWrapped, Capability::ImportWrapped]),
        CapabilitySet::all(),
        ObjectMaterial::Secret(vec![0x31; 32]),
    );
    let mut source = full_factory();
    let mut target = full_factory();
    provision(&mut source, key.clone()).unwrap();
    provision(&mut target, key).unwrap();
    let admin = source.session_authorization(1).unwrap();
    let kind = ObjectType::AsymmetricKey.to_byte();
    let algorithms = [
        Algorithm::EcP256,
        Algorithm::EcP521,
        Algorithm::Ed25519,
        Algorithm::X25519,
        Algorithm::Rsa2048,
    ];
    for (id, algorithm) in (10_u16..).zip(algorithms) {
        let object = wrap_record(
            id,
            ObjectType::AsymmetricKey,
            algorithm,
            CapabilitySet::from_capabilities([Capability::ExportableUnderWrap]),
            none(),
            generated(algorithm),
        );
        provision(&mut source, object.clone()).unwrap();
        let export = frame(
            CommandCode::ExportWrapped,
            [number(9), vec![kind], number(id)].concat(),
        );
        let wrapped = execute_inner(&mut source, admin, &export);
        assert_eq!(wrapped.command, response_to(CommandCode::ExportWrapped));
        let import = frame(
            CommandCode::ImportWrapped,
            [number(9), wrapped.data].concat(),
        );
        assert_eq!(
            execute_inner(&mut target, admin, &import).data,
            [vec![kind], number(id)].concat()
        );
        let arrived = target.object(object.info.key()).unwrap();
        assert_eq!(arrived.material, object.material);
        assert_eq!(arrived.info.origin, 0x12);
    }
}

#[test]
fn wrapped_data_is_unwrapped() {
    let mut device = full_factory();
    provision(
        &mut device,
        wrap_record(
            9,
            ObjectType::WrapKey,
            Algorithm::Aes256CcmWrap,
            CapabilitySet::from_capabilities([Capability::WrapData, Capability::UnwrapData]),
            none(),
            ObjectMaterial::Secret(vec![0x31; 32]),
        ),
    )
    .unwrap();
    let admin = device.session_authorization(1).unwrap();
    let before = device.persistent_state().unwrap();
    let wrap = frame(
        CommandCode::WrapData,
        [number(9), b"plain text".to_vec()].concat(),
    );
    let wrapped = execute_inner(&mut device, admin, &wrap);
    assert_eq!(wrapped.data.len(), 1 + 13 + 10 + 16);
    let unwrap = frame(CommandCode::UnwrapData, [number(9), wrapped.data].concat());
    assert_eq!(execute_inner(&mut device, admin, &unwrap).data, b"plain text");
    assert_eq!(
        before.objects.len(),
        device.persistent_state().unwrap().objects.len()
    );
    assert_eq!(
        device.object(ObjectKey {
            object_type: ObjectType::WrapKey,
            id: 9
        })
        .unwrap()
        .info
        .sequence,
        0
    );
}

#[test]
fn unlogged_authentications_are_counted() {
    let mut device = factory_of(
        DeviceConfig {
            log_capacity: 0,
            ..DeviceConfig::default()
        },
        FirmwareProfile::compiled(),
    );
    let admin = device.session_authorization(1).unwrap();
    let force = frame(
        CommandCode::SetOption,
        vec![OPTION_FORCE_AUDIT, 0, 1, OPTION_ON],
    );
    device.options.force_audit = OPTION_ON;
    assert_eq!(
        execute_inner(&mut device, admin, &force),
        Frame::error(DeviceError::LogFull)
    );
    let secure = open(&mut device, &factory_credentials());
    assert_eq!(device.audit.unlogged_authentication, 1);
    assert!(device.audit.entries.is_empty());
    assert_eq!(
        device.session(secure.sid).unwrap().authorization,
        device.session_authorization(1).unwrap()
    );
}

#[test]
fn stored_data_is_read_back_until_it_is_deleted() {
    let mut device = factory();
    let admin = device.session_authorization(1).unwrap();
    let rights =
        CapabilitySet::from_capabilities([Capability::GetOpaque, Capability::DeleteOpaque]);
    let put = put_opaque_request_with_payload(0, 1, rights, b"contents");
    let id = execute_inner(&mut device, admin, &put).data;
    assert_eq!(id.len(), 2);
    let get = frame(CommandCode::GetOpaque, id.clone());
    assert_eq!(execute_inner(&mut device, admin, &get).data, b"contents");
    let delete = frame(
        CommandCode::DeleteObject,
        [id, vec![ObjectType::Opaque.to_byte()]].concat(),
    );
    assert!(execute_inner(&mut device, admin, &delete).data.is_empty());
    assert_eq!(
        execute_inner(&mut device, admin, &get),
        Frame::error(DeviceError::ObjectNotFound)
    );
}

#[test]
fn resets_keep_the_epoch() {
    let mut device = factory();
    let admin = device.session_authorization(1).unwrap();
    execute_inner(&mut device, admin, &put_opaque_request(3, 1, none()));
    assert_eq!(device.state_epoch(), 0);
    assert!(device.take_persistent_change().unwrap());
    assert_eq!(device.state_epoch(), 1);
    let reset = frame(CommandCode::ResetDevice, Vec::new());
    assert!(execute_inner(&mut device, admin, &reset).data.is_empty());
    assert_eq!(device.state_epoch(), 1);
    assert!(device.object(opaque_key(3)).is_none());
    assert!(device.take_persistent_change().unwrap());
    assert_eq!(device.state_epoch(), 2);
}

#[test]
fn modes_that_are_set_are_told() {
    let mut device = factory();
    let admin = device.session_authorization(1).unwrap();
    for option in [OPTION_FORCE_AUDIT, OPTION_FIPS_MODE] {
        let get = frame(CommandCode::GetOption, vec![option]);
        assert_eq!(execute_inner(&mut device, admin, &get).data, [0]);
        let set = frame(CommandCode::SetOption, vec![option, 0, 1, OPTION_ON]);
        assert!(execute_inner(&mut device, admin, &set).data.is_empty());
        assert_eq!(execute_inner(&mut device, admin, &get).data, [OPTION_ON]);
    }
}

#[test]
fn sessions_keep_what_their_key_could_do() {
    let mut device = factory();
    let admin = device.session_authorization(1).unwrap();
    let secure = open(&mut device, &factory_credentials());
    let delete = frame(
        CommandCode::DeleteObject,
        [number(1), vec![ObjectType::AuthenticationKey.to_byte()]].concat(),
    );
    assert!(execute_inner(&mut device, admin, &delete).data.is_empty());
    assert!(device.session_authorization(1).is_err());
    assert_eq!(device.session(secure.sid).unwrap().authorization, admin);
}

#[test]
fn managed_profiles_leave_the_device_as_it_was() {
    let mut transport = settle(InProcessTransport::factory_default).unwrap();
    let before = transport.device().persistent_state().unwrap();
    qualify(&mut transport, Profile::Managed, Some(factory_credentials())).unwrap();
    let after = transport.device().persistent_state().unwrap();
    assert_eq!(before.objects.len(), 1);
    assert_eq!(after.objects.len(), 1);
    assert_eq!(after.objects[0].info, before.objects[0].info);
    assert_eq!(after.options.force_audit, before.options.force_audit);
    assert!(after.audit.entries.is_empty());
    assert_eq!(transport.device().active_session_count(), 0);
}

#[test]
fn rsa_exported_objects_are_imported_elsewhere() {
    let private = generated(Algorithm::Rsa2048);
    let ObjectMaterial::SigningKey(signing) = private.clone() else {
        panic!("a generated RSA key has the wrong material");
    };
    let exportable = CapabilitySet::from_capabilities([Capability::ExportableUnderWrap]);
    let objects = [
        wrap_record(
            10,
            ObjectType::SymmetricKey,
            Algorithm::Aes128,
            exportable,
            none(),
            ObjectMaterial::Secret(vec![0x5a; 16]),
        ),
        wrap_record(
            11,
            ObjectType::AsymmetricKey,
            Algorithm::EcP384,
            exportable,
            none(),
            generated(Algorithm::EcP384),
        ),
    ];
    let mut source = full_factory();
    let mut target = full_factory();
    let public = wrap_record(
        9,
        ObjectType::PublicWrapKey,
        Algorithm::Rsa2048,
        CapabilitySet::from_capabilities([Capability::ExportWrapped]),
        CapabilitySet::all(),
        ObjectMaterial::Public(signing.public.clone()),
    );
    let key = wrap_record(
        8,
        ObjectType::WrapKey,
        Algorithm::Rsa2048,
        CapabilitySet::from_capabilities([Capability::ImportWrapped]),
        CapabilitySet::all(),
        private,
    );
    provision(&mut source, public).unwrap();
    provision(&mut target, key).unwrap();
    let admin = source.session_authorization(1).unwrap();
    let label = digest(HashAlgorithm::Sha256, b"label");
    let hashes = [
        Algorithm::RsaOaepSha256.to_byte(),
        Algorithm::Mgf1Sha256.to_byte(),
    ];
    for object in objects {
        let (kind, id) = (object.info.object_type.to_byte(), object.info.id);
        provision(&mut source, object.clone()).unwrap();
        let export = frame(
            CommandCode::ExportRsaWrapped,
            [
                number(9),
                vec![kind],
                number(id),
                vec![Algorithm::Aes256.to_byte()],
                hashes.to_vec(),
                label.clone(),
            ]
            .concat(),
        );
        let wrapped = execute_inner(&mut source, admin, &export);
        assert_eq!(wrapped.command, response_to(CommandCode::ExportRsaWrapped));
        let import = frame(
            CommandCode::ImportRsaWrapped,
            [number(8), hashes.to_vec(), wrapped.data, label.clone()].concat(),
        );
        assert_eq!(
            execute_inner(&mut target, admin, &import).data,
            [vec![kind], number(id)].concat()
        );
        let arrived = target.object(object.info.key()).unwrap();
        assert_eq!(arrived.material, object.material);
        assert_eq!(arrived.info.origin, 0x12);
    }
}

#[test]
fn only_questions_for_random_bytes_are_answered_on_the_way() {
    let mut device = factory();
    let mut data = number(1);
    data.extend_from_slice(&[0x55; CHALLENGE_LENGTH]);
    let create = frame(CommandCode::CreateSession, data).encode();
    let mut replies = Vec::new();
    let question = device.handle_encoded(&create, 0, &mut replies).unwrap_err();
    assert!(matches!(question, EngineRequest::Compute(_)));
    assert_eq!(replies.len(), 1);
    assert!(matches!(&replies[0], EngineReply::Bytes(bytes) if bytes.len() == CHALLENGE_LENGTH));

    let mut none_needed = Vec::new();
    let echo = frame(CommandCode::Echo, b"hello".to_vec()).encode();
    let response = device.handle_encoded_with(&echo, 0, &mut none_needed).unwrap();
    assert_eq!(&response[3..], b"hello");
    assert!(none_needed.is_empty());

    let answered = device.handle_encoded_observing(&[0x01, 0x00], 0, &mut none_needed).unwrap();
    assert_eq!(answered.response, Frame::error(DeviceError::WrongLength).encode());
    assert!(none_needed.is_empty());
}

#[test]
fn storage_info_reports_no_free_pages_beyond_the_last() {
    let mut device = factory();
    let admin = device.session_authorization(1).unwrap();
    let told = |device: &mut Device| {
        execute_inner(
            device,
            admin,
            &frame(CommandCode::GetStorageInfo, Vec::new()),
        )
        .data
    };
    assert_eq!(told(&mut device), [1, 0, 0, 255, 4, 0, 3, 255, 0, 126]);
    for id in 1..=1024_u16 {
        provision(&mut device, opaque_of(id)).unwrap();
        if id == 1023 {
            assert_eq!(told(&mut device), [1, 0, 0, 0, 4, 0, 0, 0, 0, 126]);
        }
    }
    assert_eq!(device.objects.len(), 1025);
    assert_eq!(told(&mut device), [1, 0, 0, 0, 4, 0, 0, 0, 0, 126]);
}

fn opaque_of(id: u16) -> ObjectRecord {
    ObjectRecord {
        info: ObjectInfo {
            capabilities: none(),
            id,
            length: 1,
            domains: 1,
            object_type: ObjectType::Opaque,
            algorithm: OPAQUE_DATA_ALGORITHM,
            sequence: 0,
            origin: 2,
            label: Vec::new(),
            delegated_capabilities: none(),
        },
        material: ObjectMaterial::Opaque(vec![0]),
    }
}

#[test]
fn devices_come_back_under_every_configuration_with_room_for_their_log() {
    let config = DeviceConfig::default();
    let mut device = factory_of(config.clone(), FirmwareProfile::compiled());
    let admin = device.session_authorization(1).unwrap();
    let set_audit = frame(
        CommandCode::SetOption,
        vec![
            OPTION_COMMAND_AUDIT,
            0,
            2,
            CommandCode::GetPseudoRandom.to_byte(),
            OPTION_ON,
        ],
    );
    assert!(execute_inner(&mut device, admin, &set_audit).data.is_empty());
    let random = frame(CommandCode::GetPseudoRandom, number(4));
    for _ in 0..3 {
        assert_eq!(execute_inner(&mut device, admin, &random).data.len(), 4);
    }
    let state = device.persistent_state().unwrap();
    assert_eq!(state.audit.entries.len(), 3);

    let tight = DeviceConfig {
        log_capacity: 3,
        ..config.clone()
    };
    let restored = restore(tight.clone(), &state).unwrap();
    assert_eq!(restored.audit.entries.len(), 3);
    assert_eq!(restored.config.log_capacity, 3);
    assert_eq!(restored.objects.len(), device.objects.len());

    let tighter = DeviceConfig {
        log_capacity: 2,
        ..tight
    };
    assert_eq!(
        restore(tighter, &state).err(),
        Some(DeviceError::InvalidData)
    );
}

#[test]
fn nothing_may_follow_a_wrapped_object() {
    let form = wrap(&opaque_of(7)).unwrap();
    assert!(unwrap(&form).is_ok());
    for rest in [vec![0], vec![0xff], vec![0x80, 0x80], form.clone()] {
        let mut followed = form.clone();
        followed.extend_from_slice(&rest);
        assert_eq!(unwrap(&followed).err(), Some(DeviceError::InvalidData));
    }
}

fn smoke_failure(command: CommandCode, data: Vec<u8>) -> Failure {
    let mut transport = settle(InProcessTransport::factory_default).unwrap();
    let mut run = Qualification::new(transport.description(), Profile::Smoke, None);
    let mut replies = Vec::new();
    loop {
        match run.advance(&replies) {
            Progress::Ask(HostQuestion::Exchange(request)) => {
                let response = if request == frame(command, Vec::new()).encode() {
                    Frame::new(response_to(command), data.clone()).unwrap().encode()
                } else {
                    exchange(&mut transport, &request)
                };
                replies.push(HostReply::Bytes(response));
            }
            Progress::Ask(HostQuestion::Compute(call)) => replies.push(consult(&call)),
            Progress::Going => replies.clear(),
            Progress::Failed(error) => return error.failure,
            Progress::Passed(_) => panic!("passed with a wrong answer"),
        }
    }
}

#[test]
fn failures_tell_what_the_device_answered() {
    assert!(matches!(
        smoke_failure(CommandCode::GetDeviceInfo, vec![2, 4, 0, 0]),
        Failure::Length("device info is only", 4)
    ));
    assert!(matches!(
        smoke_failure(CommandCode::GetDevicePublicKey, vec![49; 64]),
        Failure::Length("device public key is", 64)
    ));
    assert!(matches!(
        smoke_failure(CommandCode::GetDevicePublicKey, vec![0x13; 65]),
        Failure::Byte("unexpected device public-key algorithm", 0x13)
    ));

    let answer = |command: CommandCode, data: Vec<u8>| {
        Frame::new(response_to(command), data).unwrap()
    };
    let option = answer(CommandCode::GetOption, vec![3]);
    assert!(matches!(
        check(&Expectation::Scalar(5), &option),
        Err(Failure::OfOption(5, "is not a valid scalar"))
    ));
    assert!(matches!(
        check(&Expectation::Pairs(4), &option),
        Err(Failure::OfOption(4, "is not a valid pair list"))
    ));
    assert!(matches!(
        check(&Expectation::AuditPairs, &option),
        Err(Failure::OfOption(OPTION_COMMAND_AUDIT, "is not a valid pair list"))
    ));
    assert!(matches!(
        check(
            &Expectation::Log,
            &answer(CommandCode::GetLogEntries, vec![0, 0, 0, 0, 7])
        ),
        Err(Failure::Entries(7))
    ));
    assert!(matches!(
        check(
            &Expectation::PublicKey(Algorithm::EcP384, 97),
            &answer(CommandCode::GetPublicKey, vec![0; 97])
        ),
        Err(Failure::OfAlgorithm(Algorithm::EcP384, "returned an invalid public key"))
    ));
    assert!(matches!(
        check(
            &Expectation::AlgorithmData(
                CommandCode::EncryptEcb,
                vec![1],
                Algorithm::Aes192,
                "ECB known answer mismatch"
            ),
            &answer(CommandCode::EncryptEcb, vec![2])
        ),
        Err(Failure::OfAlgorithm(Algorithm::Aes192, "ECB known answer mismatch"))
    ));
    assert!(matches!(
        check(
            &Expectation::Counted(
                CommandCode::CreateSession,
                82,
                "asymmetric Create Session returned"
            ),
            &answer(CommandCode::CreateSession, vec![0; 17])
        ),
        Err(Failure::Length("asymmetric Create Session returned", 17))
    ));
}

#[test]
fn passed_reports_carry_an_identity() {
    for profile in [Profile::Smoke, Profile::Managed] {
        let mut transport = settle(InProcessTransport::factory_default).unwrap();
        let report = qualify(&mut transport, profile, Some(factory_credentials())).unwrap();
        let identity = report.identity.unwrap();
        assert_eq!(identity.serial, DeviceConfig::default().serial);
        assert_eq!(identity.version, DeviceConfig::default().version);
    }
}

#[test]
fn rsa_keys_have_one_exponent() {
    assert!(is_public_exponent(&PUBLIC_EXPONENT));
    assert!(!is_public_exponent(&[3]));
    assert!(!is_public_exponent(&[1, 0, 0]));
    assert!(!is_public_exponent(&[0, 1, 0, 1]));
}
