//! Command codes of the YubiHSM 2 protocol.
use crate::capability::Capability;
use crate::firmware::FirmwareProfile;
use vstd::prelude::*;

verus! {

/// Commands of the YubiHSM 2 protocol.
///
/// `DeriveEcdhKdf` and `SessionObject` are virtual-device extensions.
#[derive(Clone, Copy, Debug, PartialEq, Eq, Structural)]
pub enum CommandCode {
    Echo,
    CreateSession,
    AuthenticateSession,
    SessionMessage,
    GetDeviceInfo,
    ResetDevice,
    GetDevicePublicKey,
    CloseSession,
    GetStorageInfo,
    PutOpaque,
    GetOpaque,
    PutAuthenticationKey,
    PutAsymmetricKey,
    GenerateAsymmetricKey,
    SignPkcs1,
    ListObjects,
    DecryptPkcs1,
    ExportWrapped,
    ImportWrapped,
    PutWrapKey,
    GetLogEntries,
    GetObjectInfo,
    SetOption,
    GetOption,
    GetPseudoRandom,
    PutHmacKey,
    SignHmac,
    GetPublicKey,
    SignPss,
    SignEcdsa,
    DeriveEcdh,
    DeleteObject,
    DecryptOaep,
    GenerateHmacKey,
    GenerateWrapKey,
    VerifyHmac,
    SignSshCertificate,
    PutTemplate,
    GetTemplate,
    DecryptOtp,
    CreateOtpAead,
    RandomizeOtpAead,
    RewrapOtpAead,
    SignAttestationCertificate,
    PutOtpAeadKey,
    GenerateOtpAeadKey,
    SetLogIndex,
    WrapData,
    UnwrapData,
    SignEddsa,
    BlinkDevice,
    ChangeAuthenticationKey,
    PutSymmetricKey,
    GenerateSymmetricKey,
    DecryptEcb,
    EncryptEcb,
    DecryptCbc,
    EncryptCbc,
    PutPublicWrapKey,
    GetRsaWrappedKey,
    PutRsaWrappedKey,
    ExportRsaWrapped,
    ImportRsaWrapped,
    DeriveEcdhKdf,
    SessionObject,
}

impl CommandCode {
    /// The protocol byte of this command.
    pub open spec fn byte(self) -> u8 {
        match self {
            CommandCode::Echo => 0x01,
            CommandCode::CreateSession => 0x03,
            CommandCode::AuthenticateSession => 0x04,
            CommandCode::SessionMessage => 0x05,
            CommandCode::GetDeviceInfo => 0x06,
            CommandCode::ResetDevice => 0x08,
            CommandCode::GetDevicePublicKey => 0x0a,
            CommandCode::CloseSession => 0x40,
            CommandCode::GetStorageInfo => 0x41,
            CommandCode::PutOpaque => 0x42,
            CommandCode::GetOpaque => 0x43,
            CommandCode::PutAuthenticationKey => 0x44,
            CommandCode::PutAsymmetricKey => 0x45,
            CommandCode::GenerateAsymmetricKey => 0x46,
            CommandCode::SignPkcs1 => 0x47,
            CommandCode::ListObjects => 0x48,
            CommandCode::DecryptPkcs1 => 0x49,
            CommandCode::ExportWrapped => 0x4a,
            CommandCode::ImportWrapped => 0x4b,
            CommandCode::PutWrapKey => 0x4c,
            CommandCode::GetLogEntries => 0x4d,
            CommandCode::GetObjectInfo => 0x4e,
            CommandCode::SetOption => 0x4f,
            CommandCode::GetOption => 0x50,
            CommandCode::GetPseudoRandom => 0x51,
            CommandCode::PutHmacKey => 0x52,
            CommandCode::SignHmac => 0x53,
            CommandCode::GetPublicKey => 0x54,
            CommandCode::SignPss => 0x55,
            CommandCode::SignEcdsa => 0x56,
            CommandCode::DeriveEcdh => 0x57,
            CommandCode::DeleteObject => 0x58,
            CommandCode::DecryptOaep => 0x59,
            CommandCode::GenerateHmacKey => 0x5a,
            CommandCode::GenerateWrapKey => 0x5b,
            CommandCode::VerifyHmac => 0x5c,
            CommandCode::SignSshCertificate => 0x5d,
            CommandCode::PutTemplate => 0x5e,
            CommandCode::GetTemplate => 0x5f,
            CommandCode::DecryptOtp => 0x60,
            CommandCode::CreateOtpAead => 0x61,
            CommandCode::RandomizeOtpAead => 0x62,
            CommandCode::RewrapOtpAead => 0x63,
            CommandCode::SignAttestationCertificate => 0x64,
            CommandCode::PutOtpAeadKey => 0x65,
            CommandCode::GenerateOtpAeadKey => 0x66,
            CommandCode::SetLogIndex => 0x67,
            CommandCode::WrapData => 0x68,
            CommandCode::UnwrapData => 0x69,
            CommandCode::SignEddsa => 0x6a,
            CommandCode::BlinkDevice => 0x6b,
            CommandCode::ChangeAuthenticationKey => 0x6c,
            CommandCode::PutSymmetricKey => 0x6d,
            CommandCode::GenerateSymmetricKey => 0x6e,
            CommandCode::DecryptEcb => 0x6f,
            CommandCode::EncryptEcb => 0x70,
            CommandCode::DecryptCbc => 0x71,
            CommandCode::EncryptCbc => 0x72,
            CommandCode::PutPublicWrapKey => 0x73,
            CommandCode::GetRsaWrappedKey => 0x74,
            CommandCode::PutRsaWrappedKey => 0x75,
            CommandCode::ExportRsaWrapped => 0x76,
            CommandCode::ImportRsaWrapped => 0x77,
            CommandCode::DeriveEcdhKdf => 0x78,
            CommandCode::SessionObject => 0x79,
        }
    }

    /// The command that a protocol byte stands for.
    pub open spec fn of_byte(value: u8) -> Option<CommandCode> {
        match value {
            0x01 => Some(CommandCode::Echo),
            0x03 => Some(CommandCode::CreateSession),
            0x04 => Some(CommandCode::AuthenticateSession),
            0x05 => Some(CommandCode::SessionMessage),
            0x06 => Some(CommandCode::GetDeviceInfo),
            0x08 => Some(CommandCode::ResetDevice),
            0x0a => Some(CommandCode::GetDevicePublicKey),
            0x40 => Some(CommandCode::CloseSession),
            0x41 => Some(CommandCode::GetStorageInfo),
            0x42 => Some(CommandCode::PutOpaque),
            0x43 => Some(CommandCode::GetOpaque),
            0x44 => Some(CommandCode::PutAuthenticationKey),
            0x45 => Some(CommandCode::PutAsymmetricKey),
            0x46 => Some(CommandCode::GenerateAsymmetricKey),
            0x47 => Some(CommandCode::SignPkcs1),
            0x48 => Some(CommandCode::ListObjects),
            0x49 => Some(CommandCode::DecryptPkcs1),
            0x4a => Some(CommandCode::ExportWrapped),
            0x4b => Some(CommandCode::ImportWrapped),
            0x4c => Some(CommandCode::PutWrapKey),
            0x4d => Some(CommandCode::GetLogEntries),
            0x4e => Some(CommandCode::GetObjectInfo),
            0x4f => Some(CommandCode::SetOption),
            0x50 => Some(CommandCode::GetOption),
            0x51 => Some(CommandCode::GetPseudoRandom),
            0x52 => Some(CommandCode::PutHmacKey),
            0x53 => Some(CommandCode::SignHmac),
            0x54 => Some(CommandCode::GetPublicKey),
            0x55 => Some(CommandCode::SignPss),
            0x56 => Some(CommandCode::SignEcdsa),
            0x57 => Some(CommandCode::DeriveEcdh),
            0x58 => Some(CommandCode::DeleteObject),
            0x59 => Some(CommandCode::DecryptOaep),
            0x5a => Some(CommandCode::GenerateHmacKey),
            0x5b => Some(CommandCode::GenerateWrapKey),
            0x5c => Some(CommandCode::VerifyHmac),
            0x5d => Some(CommandCode::SignSshCertificate),
            0x5e => Some(CommandCode::PutTemplate),
            0x5f => Some(CommandCode::GetTemplate),
            0x60 => Some(CommandCode::DecryptOtp),
            0x61 => Some(CommandCode::CreateOtpAead),
            0x62 => Some(CommandCode::RandomizeOtpAead),
            0x63 => Some(CommandCode::RewrapOtpAead),
            0x64 => Some(CommandCode::SignAttestationCertificate),
            0x65 => Some(CommandCode::PutOtpAeadKey),
            0x66 => Some(CommandCode::GenerateOtpAeadKey),
            0x67 => Some(CommandCode::SetLogIndex),
            0x68 => Some(CommandCode::WrapData),
            0x69 => Some(CommandCode::UnwrapData),
            0x6a => Some(CommandCode::SignEddsa),
            0x6b => Some(CommandCode::BlinkDevice),
            0x6c => Some(CommandCode::ChangeAuthenticationKey),
            0x6d => Some(CommandCode::PutSymmetricKey),
            0x6e => Some(CommandCode::GenerateSymmetricKey),
            0x6f => Some(CommandCode::DecryptEcb),
            0x70 => Some(CommandCode::EncryptEcb),
            0x71 => Some(CommandCode::DecryptCbc),
            0x72 => Some(CommandCode::EncryptCbc),
            0x73 => Some(CommandCode::PutPublicWrapKey),
            0x74 => Some(CommandCode::GetRsaWrappedKey),
            0x75 => Some(CommandCode::PutRsaWrappedKey),
            0x76 => Some(CommandCode::ExportRsaWrapped),
            0x77 => Some(CommandCode::ImportRsaWrapped),
            0x78 => Some(CommandCode::DeriveEcdhKdf),
            0x79 => Some(CommandCode::SessionObject),
            _ => None,
        }
    }

    /// Returns the protocol byte.
    pub fn to_byte(self) -> (value: u8)
        ensures
            value == self.byte(),
    {
        match self {
            CommandCode::Echo => 0x01,
            CommandCode::CreateSession => 0x03,
            CommandCode::AuthenticateSession => 0x04,
            CommandCode::SessionMessage => 0x05,
            CommandCode::GetDeviceInfo => 0x06,
            CommandCode::ResetDevice => 0x08,
            CommandCode::GetDevicePublicKey => 0x0a,
            CommandCode::CloseSession => 0x40,
            CommandCode::GetStorageInfo => 0x41,
            CommandCode::PutOpaque => 0x42,
            CommandCode::GetOpaque => 0x43,
            CommandCode::PutAuthenticationKey => 0x44,
            CommandCode::PutAsymmetricKey => 0x45,
            CommandCode::GenerateAsymmetricKey => 0x46,
            CommandCode::SignPkcs1 => 0x47,
            CommandCode::ListObjects => 0x48,
            CommandCode::DecryptPkcs1 => 0x49,
            CommandCode::ExportWrapped => 0x4a,
            CommandCode::ImportWrapped => 0x4b,
            CommandCode::PutWrapKey => 0x4c,
            CommandCode::GetLogEntries => 0x4d,
            CommandCode::GetObjectInfo => 0x4e,
            CommandCode::SetOption => 0x4f,
            CommandCode::GetOption => 0x50,
            CommandCode::GetPseudoRandom => 0x51,
            CommandCode::PutHmacKey => 0x52,
            CommandCode::SignHmac => 0x53,
            CommandCode::GetPublicKey => 0x54,
            CommandCode::SignPss => 0x55,
            CommandCode::SignEcdsa => 0x56,
            CommandCode::DeriveEcdh => 0x57,
            CommandCode::DeleteObject => 0x58,
            CommandCode::DecryptOaep => 0x59,
            CommandCode::GenerateHmacKey => 0x5a,
            CommandCode::GenerateWrapKey => 0x5b,
            CommandCode::VerifyHmac => 0x5c,
            CommandCode::SignSshCertificate => 0x5d,
            CommandCode::PutTemplate => 0x5e,
            CommandCode::GetTemplate => 0x5f,
            CommandCode::DecryptOtp => 0x60,
            CommandCode::CreateOtpAead => 0x61,
            CommandCode::RandomizeOtpAead => 0x62,
            CommandCode::RewrapOtpAead => 0x63,
            CommandCode::SignAttestationCertificate => 0x64,
            CommandCode::PutOtpAeadKey => 0x65,
            CommandCode::GenerateOtpAeadKey => 0x66,
            CommandCode::SetLogIndex => 0x67,
            CommandCode::WrapData => 0x68,
            CommandCode::UnwrapData => 0x69,
            CommandCode::SignEddsa => 0x6a,
            CommandCode::BlinkDevice => 0x6b,
            CommandCode::ChangeAuthenticationKey => 0x6c,
            CommandCode::PutSymmetricKey => 0x6d,
            CommandCode::GenerateSymmetricKey => 0x6e,
            CommandCode::DecryptEcb => 0x6f,
            CommandCode::EncryptEcb => 0x70,
            CommandCode::DecryptCbc => 0x71,
            CommandCode::EncryptCbc => 0x72,
            CommandCode::PutPublicWrapKey => 0x73,
            CommandCode::GetRsaWrappedKey => 0x74,
            CommandCode::PutRsaWrappedKey => 0x75,
            CommandCode::ExportRsaWrapped => 0x76,
            CommandCode::ImportRsaWrapped => 0x77,
            CommandCode::DeriveEcdhKdf => 0x78,
            CommandCode::SessionObject => 0x79,
        }
    }

    /// Decodes a protocol byte.
    pub fn from_byte(value: u8) -> (decoded: Option<CommandCode>)
        ensures
            decoded == CommandCode::of_byte(value),
    {
        match value {
            0x01 => Some(CommandCode::Echo),
            0x03 => Some(CommandCode::CreateSession),
            0x04 => Some(CommandCode::AuthenticateSession),
            0x05 => Some(CommandCode::SessionMessage),
            0x06 => Some(CommandCode::GetDeviceInfo),
            0x08 => Some(CommandCode::ResetDevice),
            0x0a => Some(CommandCode::GetDevicePublicKey),
            0x40 => Some(CommandCode::CloseSession),
            0x41 => Some(CommandCode::GetStorageInfo),
            0x42 => Some(CommandCode::PutOpaque),
            0x43 => Some(CommandCode::GetOpaque),
            0x44 => Some(CommandCode::PutAuthenticationKey),
            0x45 => Some(CommandCode::PutAsymmetricKey),
            0x46 => Some(CommandCode::GenerateAsymmetricKey),
            0x47 => Some(CommandCode::SignPkcs1),
            0x48 => Some(CommandCode::ListObjects),
            0x49 => Some(CommandCode::DecryptPkcs1),
            0x4a => Some(CommandCode::ExportWrapped),
            0x4b => Some(CommandCode::ImportWrapped),
            0x4c => Some(CommandCode::PutWrapKey),
            0x4d => Some(CommandCode::GetLogEntries),
            0x4e => Some(CommandCode::GetObjectInfo),
            0x4f => Some(CommandCode::SetOption),
            0x50 => Some(CommandCode::GetOption),
            0x51 => Some(CommandCode::GetPseudoRandom),
            0x52 => Some(CommandCode::PutHmacKey),
            0x53 => Some(CommandCode::SignHmac),
            0x54 => Some(CommandCode::GetPublicKey),
            0x55 => Some(CommandCode::SignPss),
            0x56 => Some(CommandCode::SignEcdsa),
            0x57 => Some(CommandCode::DeriveEcdh),
            0x58 => Some(CommandCode::DeleteObject),
            0x59 => Some(CommandCode::DecryptOaep),
            0x5a => Some(CommandCode::GenerateHmacKey),
            0x5b => Some(CommandCode::GenerateWrapKey),
            0x5c => Some(CommandCode::VerifyHmac),
            0x5d => Some(CommandCode::SignSshCertificate),
            0x5e => Some(CommandCode::PutTemplate),
            0x5f => Some(CommandCode::GetTemplate),
            0x60 => Some(CommandCode::DecryptOtp),
            0x61 => Some(CommandCode::CreateOtpAead),
            0x62 => Some(CommandCode::RandomizeOtpAead),
            0x63 => Some(CommandCode::RewrapOtpAead),
            0x64 => Some(CommandCode::SignAttestationCertificate),
            0x65 => Some(CommandCode::PutOtpAeadKey),
            0x66 => Some(CommandCode::GenerateOtpAeadKey),
            0x67 => Some(CommandCode::SetLogIndex),
            0x68 => Some(CommandCode::WrapData),
            0x69 => Some(CommandCode::UnwrapData),
            0x6a => Some(CommandCode::SignEddsa),
            0x6b => Some(CommandCode::BlinkDevice),
            0x6c => Some(CommandCode::ChangeAuthenticationKey),
            0x6d => Some(CommandCode::PutSymmetricKey),
            0x6e => Some(CommandCode::GenerateSymmetricKey),
            0x6f => Some(CommandCode::DecryptEcb),
            0x70 => Some(CommandCode::EncryptEcb),
            0x71 => Some(CommandCode::DecryptCbc),
            0x72 => Some(CommandCode::EncryptCbc),
            0x73 => Some(CommandCode::PutPublicWrapKey),
            0x74 => Some(CommandCode::GetRsaWrappedKey),
            0x75 => Some(CommandCode::PutRsaWrappedKey),
            0x76 => Some(CommandCode::ExportRsaWrapped),
            0x77 => Some(CommandCode::ImportRsaWrapped),
            0x78 => Some(CommandCode::DeriveEcdhKdf),
            0x79 => Some(CommandCode::SessionObject),
            _ => None,
        }
    }

    /// The capability that a session needs before the command is looked at any
    /// further. `None` where the command itself needs no session capability.
    pub open spec fn session_capability(self) -> Option<Capability> {
        match self {
            CommandCode::ResetDevice => Some(Capability::ResetDevice),
            CommandCode::PutOpaque => Some(Capability::PutOpaque),
            CommandCode::GetOpaque => Some(Capability::GetOpaque),
            CommandCode::PutAuthenticationKey => Some(Capability::PutAuthenticationKey),
            CommandCode::PutAsymmetricKey => Some(Capability::PutAsymmetricKey),
            CommandCode::GenerateAsymmetricKey => Some(Capability::GenerateAsymmetricKey),
            CommandCode::SignPkcs1 => Some(Capability::SignPkcs),
            CommandCode::DecryptPkcs1 => Some(Capability::DecryptPkcs),
            CommandCode::ExportWrapped => Some(Capability::ExportWrapped),
            CommandCode::ImportWrapped => Some(Capability::ImportWrapped),
            CommandCode::PutWrapKey => Some(Capability::PutWrapKey),
            CommandCode::GetLogEntries => Some(Capability::GetLogEntries),
            CommandCode::SetOption => Some(Capability::SetOption),
            CommandCode::GetOption => Some(Capability::GetOption),
            CommandCode::GetPseudoRandom => Some(Capability::GetPseudoRandom),
            CommandCode::PutHmacKey => Some(Capability::PutMacKey),
            CommandCode::SignHmac => Some(Capability::SignHmac),
            CommandCode::SignPss => Some(Capability::SignPss),
            CommandCode::SignEcdsa => Some(Capability::SignEcdsa),
            CommandCode::DeriveEcdh => Some(Capability::DeriveEcdh),
            CommandCode::DecryptOaep => Some(Capability::DecryptOaep),
            CommandCode::GenerateHmacKey => Some(Capability::GenerateHmacKey),
            CommandCode::GenerateWrapKey => Some(Capability::GenerateWrapKey),
            CommandCode::VerifyHmac => Some(Capability::VerifyHmac),
            CommandCode::SignSshCertificate => Some(Capability::SignSshCertificate),
            CommandCode::PutTemplate => Some(Capability::PutTemplate),
            CommandCode::GetTemplate => Some(Capability::GetTemplate),
            CommandCode::DecryptOtp => Some(Capability::DecryptOtp),
            CommandCode::CreateOtpAead => Some(Capability::CreateOtpAead),
            CommandCode::RandomizeOtpAead => Some(Capability::RandomizeOtpAead),
            CommandCode::SignAttestationCertificate => Some(Capability::SignAttestationCertificate),
            CommandCode::PutOtpAeadKey => Some(Capability::PutOtpAeadKey),
            CommandCode::GenerateOtpAeadKey => Some(Capability::GenerateOtpAeadKey),
            CommandCode::SetLogIndex => Some(Capability::GetLogEntries),
            CommandCode::WrapData => Some(Capability::WrapData),
            CommandCode::UnwrapData => Some(Capability::UnwrapData),
            CommandCode::SignEddsa => Some(Capability::SignEddsa),
            CommandCode::ChangeAuthenticationKey => Some(Capability::ChangeAuthenticationKey),
            CommandCode::PutSymmetricKey => Some(Capability::PutSymmetricKey),
            CommandCode::GenerateSymmetricKey => Some(Capability::GenerateSymmetricKey),
            CommandCode::DecryptEcb => Some(Capability::DecryptEcb),
            CommandCode::EncryptEcb => Some(Capability::EncryptEcb),
            CommandCode::DecryptCbc => Some(Capability::DecryptCbc),
            CommandCode::EncryptCbc => Some(Capability::EncryptCbc),
            CommandCode::PutPublicWrapKey => Some(Capability::PutPublicWrapKey),
            CommandCode::GetRsaWrappedKey => Some(Capability::ExportWrapped),
            CommandCode::PutRsaWrappedKey => Some(Capability::ImportWrapped),
            CommandCode::ExportRsaWrapped => Some(Capability::ExportWrapped),
            CommandCode::ImportRsaWrapped => Some(Capability::ImportWrapped),
            CommandCode::DeriveEcdhKdf => Some(Capability::DeriveEcdhKdf),
            CommandCode::SessionObject => Some(Capability::SessionObjects),
            _ => None,
        }
    }

    /// Returns the capability that a session needs for the command.
    pub fn required_session_capability(self) -> (capability: Option<Capability>)
        ensures
            capability == self.session_capability(),
    {
        match self {
            CommandCode::ResetDevice => Some(Capability::ResetDevice),
            CommandCode::PutOpaque => Some(Capability::PutOpaque),
            CommandCode::GetOpaque => Some(Capability::GetOpaque),
            CommandCode::PutAuthenticationKey => Some(Capability::PutAuthenticationKey),
            CommandCode::PutAsymmetricKey => Some(Capability::PutAsymmetricKey),
            CommandCode::GenerateAsymmetricKey => Some(Capability::GenerateAsymmetricKey),
            CommandCode::SignPkcs1 => Some(Capability::SignPkcs),
            CommandCode::DecryptPkcs1 => Some(Capability::DecryptPkcs),
            CommandCode::ExportWrapped => Some(Capability::ExportWrapped),
            CommandCode::ImportWrapped => Some(Capability::ImportWrapped),
            CommandCode::PutWrapKey => Some(Capability::PutWrapKey),
            CommandCode::GetLogEntries => Some(Capability::GetLogEntries),
            CommandCode::SetOption => Some(Capability::SetOption),
            CommandCode::GetOption => Some(Capability::GetOption),
            CommandCode::GetPseudoRandom => Some(Capability::GetPseudoRandom),
            CommandCode::PutHmacKey => Some(Capability::PutMacKey),
            CommandCode::SignHmac => Some(Capability::SignHmac),
            CommandCode::SignPss => Some(Capability::SignPss),
            CommandCode::SignEcdsa => Some(Capability::SignEcdsa),
            CommandCode::DeriveEcdh => Some(Capability::DeriveEcdh),
            CommandCode::DecryptOaep => Some(Capability::DecryptOaep),
            CommandCode::GenerateHmacKey => Some(Capability::GenerateHmacKey),
            CommandCode::GenerateWrapKey => Some(Capability::GenerateWrapKey),
            CommandCode::VerifyHmac => Some(Capability::VerifyHmac),
            CommandCode::SignSshCertificate => Some(Capability::SignSshCertificate),
            CommandCode::PutTemplate => Some(Capability::PutTemplate),
            CommandCode::GetTemplate => Some(Capability::GetTemplate),
            CommandCode::DecryptOtp => Some(Capability::DecryptOtp),
            CommandCode::CreateOtpAead => Some(Capability::CreateOtpAead),
            CommandCode::RandomizeOtpAead => Some(Capability::RandomizeOtpAead),
            CommandCode::SignAttestationCertificate => Some(Capability::SignAttestationCertificate),
            CommandCode::PutOtpAeadKey => Some(Capability::PutOtpAeadKey),
            CommandCode::GenerateOtpAeadKey => Some(Capability::GenerateOtpAeadKey),
            CommandCode::SetLogIndex => Some(Capability::GetLogEntries),
            CommandCode::WrapData => Some(Capability::WrapData),
            CommandCode::UnwrapData => Some(Capability::UnwrapData),
            CommandCode::SignEddsa => Some(Capability::SignEddsa),
            CommandCode::ChangeAuthenticationKey => Some(Capability::ChangeAuthenticationKey),
            CommandCode::PutSymmetricKey => Some(Capability::PutSymmetricKey),
            CommandCode::GenerateSymmetricKey => Some(Capability::GenerateSymmetricKey),
            CommandCode::DecryptEcb => Some(Capability::DecryptEcb),
            CommandCode::EncryptEcb => Some(Capability::EncryptEcb),
            CommandCode::DecryptCbc => Some(Capability::DecryptCbc),
            CommandCode::EncryptCbc => Some(Capability::EncryptCbc),
            CommandCode::PutPublicWrapKey => Some(Capability::PutPublicWrapKey),
            CommandCode::GetRsaWrappedKey => Some(Capability::ExportWrapped),
            CommandCode::PutRsaWrappedKey => Some(Capability::ImportWrapped),
            CommandCode::ExportRsaWrapped => Some(Capability::ExportWrapped),
            CommandCode::ImportRsaWrapped => Some(Capability::ImportWrapped),
            CommandCode::DeriveEcdhKdf => Some(Capability::DeriveEcdhKdf),
            CommandCode::SessionObject => Some(Capability::SessionObjects),
            _ => None,
        }
    }

    /// Whether a firmware profile knows the command: the extensions belong to
    /// the profiles that enable them, every other command to all profiles.
    pub open spec fn available(self, firmware: FirmwareProfile) -> bool {
        match self {
            CommandCode::DeriveEcdhKdf => firmware.has_prefixed_ecdh(),
            CommandCode::SessionObject => firmware.has_session_objects(),
            _ => true,
        }
    }

    /// Tells whether a firmware profile knows the command.
    pub fn supported_by_firmware(self, firmware: FirmwareProfile) -> (supported: bool)
        ensures
            supported == self.available(firmware),
    {
        match self {
            CommandCode::DeriveEcdhKdf => firmware.prefixed_ecdh(),
            CommandCode::SessionObject => firmware.session_objects(),
            _ => true,
        }
    }

    /// The command's name.
    pub open spec fn title(self) -> Seq<char> {
        match self {
            CommandCode::Echo => "Echo"@,
            CommandCode::CreateSession => "CreateSession"@,
            CommandCode::AuthenticateSession => "AuthenticateSession"@,
            CommandCode::SessionMessage => "SessionMessage"@,
            CommandCode::GetDeviceInfo => "GetDeviceInfo"@,
            CommandCode::ResetDevice => "ResetDevice"@,
            CommandCode::GetDevicePublicKey => "GetDevicePublicKey"@,
            CommandCode::CloseSession => "CloseSession"@,
            CommandCode::GetStorageInfo => "GetStorageInfo"@,
            CommandCode::PutOpaque => "PutOpaque"@,
            CommandCode::GetOpaque => "GetOpaque"@,
            CommandCode::PutAuthenticationKey => "PutAuthenticationKey"@,
            CommandCode::PutAsymmetricKey => "PutAsymmetricKey"@,
            CommandCode::GenerateAsymmetricKey => "GenerateAsymmetricKey"@,
            CommandCode::SignPkcs1 => "SignPkcs1"@,
            CommandCode::ListObjects => "ListObjects"@,
            CommandCode::DecryptPkcs1 => "DecryptPkcs1"@,
            CommandCode::ExportWrapped => "ExportWrapped"@,
            CommandCode::ImportWrapped => "ImportWrapped"@,
            CommandCode::PutWrapKey => "PutWrapKey"@,
            CommandCode::GetLogEntries => "GetLogEntries"@,
            CommandCode::GetObjectInfo => "GetObjectInfo"@,
            CommandCode::SetOption => "SetOption"@,
            CommandCode::GetOption => "GetOption"@,
            CommandCode::GetPseudoRandom => "GetPseudoRandom"@,
            CommandCode::PutHmacKey => "PutHmacKey"@,
            CommandCode::SignHmac => "SignHmac"@,
            CommandCode::GetPublicKey => "GetPublicKey"@,
            CommandCode::SignPss => "SignPss"@,
            CommandCode::SignEcdsa => "SignEcdsa"@,
            CommandCode::DeriveEcdh => "DeriveEcdh"@,
            CommandCode::DeleteObject => "DeleteObject"@,
            CommandCode::DecryptOaep => "DecryptOaep"@,
            CommandCode::GenerateHmacKey => "GenerateHmacKey"@,
            CommandCode::GenerateWrapKey => "GenerateWrapKey"@,
            CommandCode::VerifyHmac => "VerifyHmac"@,
            CommandCode::SignSshCertificate => "SignSshCertificate"@,
            CommandCode::PutTemplate => "PutTemplate"@,
            CommandCode::GetTemplate => "GetTemplate"@,
            CommandCode::DecryptOtp => "DecryptOtp"@,
            CommandCode::CreateOtpAead => "CreateOtpAead"@,
            CommandCode::RandomizeOtpAead => "RandomizeOtpAead"@,
            CommandCode::RewrapOtpAead => "RewrapOtpAead"@,
            CommandCode::SignAttestationCertificate => "SignAttestationCertificate"@,
            CommandCode::PutOtpAeadKey => "PutOtpAeadKey"@,
            CommandCode::GenerateOtpAeadKey => "GenerateOtpAeadKey"@,
            CommandCode::SetLogIndex => "SetLogIndex"@,
            CommandCode::WrapData => "WrapData"@,
            CommandCode::UnwrapData => "UnwrapData"@,
            CommandCode::SignEddsa => "SignEddsa"@,
            CommandCode::BlinkDevice => "BlinkDevice"@,
            CommandCode::ChangeAuthenticationKey => "ChangeAuthenticationKey"@,
            CommandCode::PutSymmetricKey => "PutSymmetricKey"@,
            CommandCode::GenerateSymmetricKey => "GenerateSymmetricKey"@,
            CommandCode::DecryptEcb => "DecryptEcb"@,
            CommandCode::EncryptEcb => "EncryptEcb"@,
            CommandCode::DecryptCbc => "DecryptCbc"@,
            CommandCode::EncryptCbc => "EncryptCbc"@,
            CommandCode::PutPublicWrapKey => "PutPublicWrapKey"@,
            CommandCode::GetRsaWrappedKey => "GetRsaWrappedKey"@,
            CommandCode::PutRsaWrappedKey => "PutRsaWrappedKey"@,
            CommandCode::ExportRsaWrapped => "ExportRsaWrapped"@,
            CommandCode::ImportRsaWrapped => "ImportRsaWrapped"@,
            CommandCode::DeriveEcdhKdf => "DeriveEcdhKdf"@,
            CommandCode::SessionObject => "SessionObject"@,
        }
    }

    /// Returns the command's name.
    pub fn name(self) -> (name: &'static str)
        ensures
            name@ == self.title(),
    {
        match self {
            CommandCode::Echo => "Echo",
            CommandCode::CreateSession => "CreateSession",
            CommandCode::AuthenticateSession => "AuthenticateSession",
            CommandCode::SessionMessage => "SessionMessage",
            CommandCode::GetDeviceInfo => "GetDeviceInfo",
            CommandCode::ResetDevice => "ResetDevice",
            CommandCode::GetDevicePublicKey => "GetDevicePublicKey",
            CommandCode::CloseSession => "CloseSession",
            CommandCode::GetStorageInfo => "GetStorageInfo",
            CommandCode::PutOpaque => "PutOpaque",
            CommandCode::GetOpaque => "GetOpaque",
            CommandCode::PutAuthenticationKey => "PutAuthenticationKey",
            CommandCode::PutAsymmetricKey => "PutAsymmetricKey",
            CommandCode::GenerateAsymmetricKey => "GenerateAsymmetricKey",
            CommandCode::SignPkcs1 => "SignPkcs1",
            CommandCode::ListObjects => "ListObjects",
            CommandCode::DecryptPkcs1 => "DecryptPkcs1",
            CommandCode::ExportWrapped => "ExportWrapped",
            CommandCode::ImportWrapped => "ImportWrapped",
            CommandCode::PutWrapKey => "PutWrapKey",
            CommandCode::GetLogEntries => "GetLogEntries",
            CommandCode::GetObjectInfo => "GetObjectInfo",
            CommandCode::SetOption => "SetOption",
            CommandCode::GetOption => "GetOption",
            CommandCode::GetPseudoRandom => "GetPseudoRandom",
            CommandCode::PutHmacKey => "PutHmacKey",
            CommandCode::SignHmac => "SignHmac",
            CommandCode::GetPublicKey => "GetPublicKey",
            CommandCode::SignPss => "SignPss",
            CommandCode::SignEcdsa => "SignEcdsa",
            CommandCode::DeriveEcdh => "DeriveEcdh",
            CommandCode::DeleteObject => "DeleteObject",
            CommandCode::DecryptOaep => "DecryptOaep",
            CommandCode::GenerateHmacKey => "GenerateHmacKey",
            CommandCode::GenerateWrapKey => "GenerateWrapKey",
            CommandCode::VerifyHmac => "VerifyHmac",
            CommandCode::SignSshCertificate => "SignSshCertificate",
            CommandCode::PutTemplate => "PutTemplate",
            CommandCode::GetTemplate => "GetTemplate",
            CommandCode::DecryptOtp => "DecryptOtp",
            CommandCode::CreateOtpAead => "CreateOtpAead",
            CommandCode::RandomizeOtpAead => "RandomizeOtpAead",
            CommandCode::RewrapOtpAead => "RewrapOtpAead",
            CommandCode::SignAttestationCertificate => "SignAttestationCertificate",
            CommandCode::PutOtpAeadKey => "PutOtpAeadKey",
            CommandCode::GenerateOtpAeadKey => "GenerateOtpAeadKey",
            CommandCode::SetLogIndex => "SetLogIndex",
            CommandCode::WrapData => "WrapData",
            CommandCode::UnwrapData => "UnwrapData",
            CommandCode::SignEddsa => "SignEddsa",
            CommandCode::BlinkDevice => "BlinkDevice",
            CommandCode::ChangeAuthenticationKey => "ChangeAuthenticationKey",
            CommandCode::PutSymmetricKey => "PutSymmetricKey",
            CommandCode::GenerateSymmetricKey => "GenerateSymmetricKey",
            CommandCode::DecryptEcb => "DecryptEcb",
            CommandCode::EncryptEcb => "EncryptEcb",
            CommandCode::DecryptCbc => "DecryptCbc",
            CommandCode::EncryptCbc => "EncryptCbc",
            CommandCode::PutPublicWrapKey => "PutPublicWrapKey",
            CommandCode::GetRsaWrappedKey => "GetRsaWrappedKey",
            CommandCode::PutRsaWrappedKey => "PutRsaWrappedKey",
            CommandCode::ExportRsaWrapped => "ExportRsaWrapped",
            CommandCode::ImportRsaWrapped => "ImportRsaWrapped",
            CommandCode::DeriveEcdhKdf => "DeriveEcdhKdf",
            CommandCode::SessionObject => "SessionObject",
        }
    }
}

/// A command and its protocol byte determine each other: the byte decodes to
/// the command it came from, and nothing else decodes to it.
pub proof fn command_byte_round_trip(item: CommandCode, value: u8)
    ensures
        CommandCode::of_byte(item.byte()) == Some(item),
        CommandCode::of_byte(value) == Some(item) <==> item.byte() == value,
{
}

/// Operations of the `SessionObject` command.
#[derive(Clone, Copy, Debug, PartialEq, Eq, Structural)]
pub enum SessionObjectCommand {
    GenerateAsymmetricKey,
    DeriveEcdh,
    ConcatenateKey,
    ConcatenateData,
    Extract,
    Sha256,
    CounterKdf,
    Read,
    VerifyCmac,
    DeleteObject,
}

impl SessionObjectCommand {
    /// The protocol byte of this operation.
    pub open spec fn byte(self) -> u8 {
        match self {
            SessionObjectCommand::GenerateAsymmetricKey => 0x01,
            SessionObjectCommand::DeriveEcdh => 0x02,
            SessionObjectCommand::ConcatenateKey => 0x03,
            SessionObjectCommand::ConcatenateData => 0x04,
            SessionObjectCommand::Extract => 0x05,
            SessionObjectCommand::Sha256 => 0x06,
            SessionObjectCommand::CounterKdf => 0x07,
            SessionObjectCommand::Read => 0x08,
            SessionObjectCommand::VerifyCmac => 0x09,
            SessionObjectCommand::DeleteObject => 0x0a,
        }
    }

    /// The operation that a protocol byte stands for.
    pub open spec fn of_byte(value: u8) -> Option<SessionObjectCommand> {
        match value {
            0x01 => Some(SessionObjectCommand::GenerateAsymmetricKey),
            0x02 => Some(SessionObjectCommand::DeriveEcdh),
            0x03 => Some(SessionObjectCommand::ConcatenateKey),
            0x04 => Some(SessionObjectCommand::ConcatenateData),
            0x05 => Some(SessionObjectCommand::Extract),
            0x06 => Some(SessionObjectCommand::Sha256),
            0x07 => Some(SessionObjectCommand::CounterKdf),
            0x08 => Some(SessionObjectCommand::Read),
            0x09 => Some(SessionObjectCommand::VerifyCmac),
            0x0a => Some(SessionObjectCommand::DeleteObject),
            _ => None,
        }
    }

    /// Returns the protocol byte.
    pub fn to_byte(self) -> (value: u8)
        ensures
            value == self.byte(),
    {
        match self {
            SessionObjectCommand::GenerateAsymmetricKey => 0x01,
            SessionObjectCommand::DeriveEcdh => 0x02,
            SessionObjectCommand::ConcatenateKey => 0x03,
            SessionObjectCommand::ConcatenateData => 0x04,
            SessionObjectCommand::Extract => 0x05,
            SessionObjectCommand::Sha256 => 0x06,
            SessionObjectCommand::CounterKdf => 0x07,
            SessionObjectCommand::Read => 0x08,
            SessionObjectCommand::VerifyCmac => 0x09,
            SessionObjectCommand::DeleteObject => 0x0a,
        }
    }

    /// Decodes a protocol byte.
    pub fn from_byte(value: u8) -> (decoded: Option<SessionObjectCommand>)
        ensures
            decoded == SessionObjectCommand::of_byte(value),
    {
        match value {
            0x01 => Some(SessionObjectCommand::GenerateAsymmetricKey),
            0x02 => Some(SessionObjectCommand::DeriveEcdh),
            0x03 => Some(SessionObjectCommand::ConcatenateKey),
            0x04 => Some(SessionObjectCommand::ConcatenateData),
            0x05 => Some(SessionObjectCommand::Extract),
            0x06 => Some(SessionObjectCommand::Sha256),
            0x07 => Some(SessionObjectCommand::CounterKdf),
            0x08 => Some(SessionObjectCommand::Read),
            0x09 => Some(SessionObjectCommand::VerifyCmac),
            0x0a => Some(SessionObjectCommand::DeleteObject),
            _ => None,
        }
    }
}

/// A session-object operation and its protocol byte determine each other: the byte decodes to
/// the session-object operation it came from, and nothing else decodes to it.
pub proof fn session_object_command_byte_round_trip(item: SessionObjectCommand, value: u8)
    ensures
        SessionObjectCommand::of_byte(item.byte()) == Some(item),
        SessionObjectCommand::of_byte(value) == Some(item) <==> item.byte() == value,
{
}

} // verus!
