//! Numbers on the wire that stand for errors, commands and algorithms.
use crate::algorithm::Algorithm;
use crate::error::DeviceError;
use crate::keys::KeyKind;
use crate::protocol::{CommandCode, SessionObjectCommand};
use vstd::prelude::*;

verus! {

/// The numbers of errors.
pub proof fn errors_have_their_numbers()
    ensures
        DeviceError::InvalidCommand.byte() == 1,
        DeviceError::InvalidData.byte() == 2,
        DeviceError::InvalidSession.byte() == 3,
        DeviceError::AuthenticationFailed.byte() == 4,
        DeviceError::SessionsFull.byte() == 5,
        DeviceError::SessionFailed.byte() == 6,
        DeviceError::StorageFailed.byte() == 7,
        DeviceError::WrongLength.byte() == 8,
        DeviceError::InsufficientPermissions.byte() == 9,
        DeviceError::LogFull.byte() == 10,
        DeviceError::ObjectNotFound.byte() == 11,
        DeviceError::InvalidId.byte() == 12,
        DeviceError::SshCaConstraintViolation.byte() == 14,
        DeviceError::InvalidOtp.byte() == 15,
        DeviceError::DemoMode.byte() == 16,
        DeviceError::ObjectExists.byte() == 17,
{
}

/// Every number of an error is read back as that error, and no number is of two.
pub proof fn errors_are_known_by_their_number(error: DeviceError, other: DeviceError, number: u8)
    ensures
        error.byte() == other.byte() ==> error == other,
        DeviceError::of_byte(number) == Some(error) <==> error.byte() == number,
        DeviceError::of_byte(number) is Some <==> 1 <= number <= 17 && number != 13,
{
}

/// Every number of a command is read back as that command, no number is of two,
/// and these are the numbers that commands have.
pub proof fn commands_are_known_by_their_number(
    command: CommandCode,
    other: CommandCode,
    number: u8,
)
    ensures
        command.byte() == other.byte() ==> command == other,
        CommandCode::of_byte(number) == Some(command) <==> command.byte() == number,
        CommandCode::of_byte(number) is Some <==> number == 0x01 || (0x03 <= number <= 0x06)
            || number == 0x08 || number == 0x0a || (0x40 <= number <= 0x79),
{
}

/// The numbers of the commands that make sessions and manage the device.
pub proof fn management_commands_have_their_numbers()
    ensures
        CommandCode::Echo.byte() == 0x01,
        CommandCode::CreateSession.byte() == 0x03,
        CommandCode::AuthenticateSession.byte() == 0x04,
        CommandCode::SessionMessage.byte() == 0x05,
        CommandCode::GetDeviceInfo.byte() == 0x06,
        CommandCode::ResetDevice.byte() == 0x08,
        CommandCode::GetDevicePublicKey.byte() == 0x0a,
        CommandCode::CloseSession.byte() == 0x40,
        CommandCode::GetStorageInfo.byte() == 0x41,
        CommandCode::SetOption.byte() == 0x4f,
        CommandCode::GetOption.byte() == 0x50,
        CommandCode::GetPseudoRandom.byte() == 0x51,
        CommandCode::DeleteObject.byte() == 0x58,
        CommandCode::SetLogIndex.byte() == 0x67,
        CommandCode::BlinkDevice.byte() == 0x6b,
        CommandCode::SessionObject.byte() == 0x79,
{
}

/// Every number of an algorithm is read back as that algorithm, no number is of
/// two, and the numbers go from 1 to 57.
pub proof fn algorithms_are_known_by_their_number(
    algorithm: Algorithm,
    other: Algorithm,
    number: u8,
)
    ensures
        algorithm.byte() == other.byte() ==> algorithm == other,
        Algorithm::of_byte(number) == Some(algorithm) <==> algorithm.byte() == number,
        Algorithm::of_byte(number) is Some <==> 1 <= number <= 57,
{
}

/// The numbers of the algorithms that signatures, encryption and masks are asked
/// for with.
pub proof fn operations_have_their_numbers()
    ensures
        Algorithm::RsaPkcs1Sha1.byte() == 1,
        Algorithm::RsaPkcs1Sha256.byte() == 2,
        Algorithm::RsaPkcs1Sha384.byte() == 3,
        Algorithm::RsaPkcs1Sha512.byte() == 4,
        Algorithm::RsaPssSha1.byte() == 5,
        Algorithm::RsaPssSha256.byte() == 6,
        Algorithm::RsaPssSha384.byte() == 7,
        Algorithm::RsaPssSha512.byte() == 8,
        Algorithm::EcdsaSha1.byte() == 23,
        Algorithm::Ecdh.byte() == 24,
        Algorithm::RsaOaepSha1.byte() == 25,
        Algorithm::RsaOaepSha256.byte() == 26,
        Algorithm::RsaOaepSha384.byte() == 27,
        Algorithm::RsaOaepSha512.byte() == 28,
        Algorithm::Mgf1Sha1.byte() == 32,
        Algorithm::Mgf1Sha256.byte() == 33,
        Algorithm::Mgf1Sha384.byte() == 34,
        Algorithm::Mgf1Sha512.byte() == 35,
        Algorithm::EcdsaSha256.byte() == 43,
        Algorithm::EcdsaSha384.byte() == 44,
        Algorithm::EcdsaSha512.byte() == 45,
        Algorithm::RsaPkcs1Decrypt.byte() == 48,
        Algorithm::AesEcb.byte() == 53,
        Algorithm::AesCbc.byte() == 54,
        Algorithm::AesKwp.byte() == 55,
        Algorithm::EcdhKdf.byte() == 57,
{
}

/// The numbers of the algorithms that keys and objects have.
pub proof fn keys_have_their_numbers()
    ensures
        Algorithm::Rsa2048.byte() == 9,
        Algorithm::Rsa3072.byte() == 10,
        Algorithm::Rsa4096.byte() == 11,
        Algorithm::EcP256.byte() == 12,
        Algorithm::EcP384.byte() == 13,
        Algorithm::EcP521.byte() == 14,
        Algorithm::EcK256.byte() == 15,
        Algorithm::EcBrainpoolP256.byte() == 16,
        Algorithm::EcBrainpoolP384.byte() == 17,
        Algorithm::EcBrainpoolP512.byte() == 18,
        Algorithm::HmacSha1.byte() == 19,
        Algorithm::HmacSha256.byte() == 20,
        Algorithm::HmacSha384.byte() == 21,
        Algorithm::HmacSha512.byte() == 22,
        Algorithm::Aes128CcmWrap.byte() == 29,
        Algorithm::OpaqueData.byte() == 30,
        Algorithm::OpaqueX509Certificate.byte() == 31,
        Algorithm::TemplateSsh.byte() == 36,
        Algorithm::Aes128YubicoOtp.byte() == 37,
        Algorithm::Aes128YubicoAuthentication.byte() == 38,
        Algorithm::Aes192YubicoOtp.byte() == 39,
        Algorithm::Aes256YubicoOtp.byte() == 40,
        Algorithm::Aes192CcmWrap.byte() == 41,
        Algorithm::Aes256CcmWrap.byte() == 42,
        Algorithm::Ed25519.byte() == 46,
        Algorithm::EcP224.byte() == 47,
        Algorithm::EcP256YubicoAuthentication.byte() == 49,
        Algorithm::Aes128.byte() == 50,
        Algorithm::Aes192.byte() == 51,
        Algorithm::Aes256.byte() == 52,
        Algorithm::X25519.byte() == 56,
{
}

/// The numbers of the commands on objects of a session.
pub proof fn session_commands_have_their_numbers()
    ensures
        SessionObjectCommand::GenerateAsymmetricKey.byte() == 1,
        SessionObjectCommand::DeriveEcdh.byte() == 2,
        SessionObjectCommand::ConcatenateKey.byte() == 3,
        SessionObjectCommand::ConcatenateData.byte() == 4,
        SessionObjectCommand::Extract.byte() == 5,
        SessionObjectCommand::Sha256.byte() == 6,
        SessionObjectCommand::CounterKdf.byte() == 7,
        SessionObjectCommand::Read.byte() == 8,
        SessionObjectCommand::VerifyCmac.byte() == 9,
        SessionObjectCommand::DeleteObject.byte() == 10,
{
}

/// How long private keys are: RSA keys by their modulus, and those on curves by the
/// field, of which P-521 takes 66 bytes.
pub proof fn private_keys_have_their_length(algorithm: Algorithm)
    ensures
        algorithm.key_length() == (match algorithm.byte() {
            9 => Some(256usize),
            10 => Some(384usize),
            11 => Some(512usize),
            12 | 15 | 16 | 46 | 56 => Some(32usize),
            13 | 17 => Some(48usize),
            14 => Some(66usize),
            18 => Some(64usize),
            47 => Some(28usize),
            _ => None,
        }),
        KeyKind::named(algorithm) matches Some(kind) ==> algorithm.key_length() == Some(
            kind.material_length(),
        ),
{
}

} // verus!
