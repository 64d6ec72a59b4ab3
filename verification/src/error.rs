//! Errors of the YubiHSM wire protocol.
use vstd::prelude::*;

verus! {

/// The result of a device operation.
pub type Result<T> = core::result::Result<T, DeviceError>;

/// Errors returned by the YubiHSM wire protocol.
#[derive(Clone, Copy, Debug, PartialEq, Eq, Structural)]
pub enum DeviceError {
    InvalidCommand,
    InvalidData,
    InvalidSession,
    AuthenticationFailed,
    SessionsFull,
    SessionFailed,
    StorageFailed,
    WrongLength,
    InsufficientPermissions,
    LogFull,
    ObjectNotFound,
    InvalidId,
    SshCaConstraintViolation,
    InvalidOtp,
    DemoMode,
    ObjectExists,
}

impl DeviceError {
    /// The protocol byte of this error.
    pub open spec fn byte(self) -> u8 {
        match self {
            DeviceError::InvalidCommand => 0x01,
            DeviceError::InvalidData => 0x02,
            DeviceError::InvalidSession => 0x03,
            DeviceError::AuthenticationFailed => 0x04,
            DeviceError::SessionsFull => 0x05,
            DeviceError::SessionFailed => 0x06,
            DeviceError::StorageFailed => 0x07,
            DeviceError::WrongLength => 0x08,
            DeviceError::InsufficientPermissions => 0x09,
            DeviceError::LogFull => 0x0a,
            DeviceError::ObjectNotFound => 0x0b,
            DeviceError::InvalidId => 0x0c,
            DeviceError::SshCaConstraintViolation => 0x0e,
            DeviceError::InvalidOtp => 0x0f,
            DeviceError::DemoMode => 0x10,
            DeviceError::ObjectExists => 0x11,
        }
    }

    /// The error that a protocol byte stands for.
    pub open spec fn of_byte(value: u8) -> Option<DeviceError> {
        match value {
            0x01 => Some(DeviceError::InvalidCommand),
            0x02 => Some(DeviceError::InvalidData),
            0x03 => Some(DeviceError::InvalidSession),
            0x04 => Some(DeviceError::AuthenticationFailed),
            0x05 => Some(DeviceError::SessionsFull),
            0x06 => Some(DeviceError::SessionFailed),
            0x07 => Some(DeviceError::StorageFailed),
            0x08 => Some(DeviceError::WrongLength),
            0x09 => Some(DeviceError::InsufficientPermissions),
            0x0a => Some(DeviceError::LogFull),
            0x0b => Some(DeviceError::ObjectNotFound),
            0x0c => Some(DeviceError::InvalidId),
            0x0e => Some(DeviceError::SshCaConstraintViolation),
            0x0f => Some(DeviceError::InvalidOtp),
            0x10 => Some(DeviceError::DemoMode),
            0x11 => Some(DeviceError::ObjectExists),
            _ => None,
        }
    }

    /// Returns the protocol byte.
    pub fn to_byte(self) -> (value: u8)
        ensures
            value == self.byte(),
    {
        match self {
            DeviceError::InvalidCommand => 0x01,
            DeviceError::InvalidData => 0x02,
            DeviceError::InvalidSession => 0x03,
            DeviceError::AuthenticationFailed => 0x04,
            DeviceError::SessionsFull => 0x05,
            DeviceError::SessionFailed => 0x06,
            DeviceError::StorageFailed => 0x07,
            DeviceError::WrongLength => 0x08,
            DeviceError::InsufficientPermissions => 0x09,
            DeviceError::LogFull => 0x0a,
            DeviceError::ObjectNotFound => 0x0b,
            DeviceError::InvalidId => 0x0c,
            DeviceError::SshCaConstraintViolation => 0x0e,
            DeviceError::InvalidOtp => 0x0f,
            DeviceError::DemoMode => 0x10,
            DeviceError::ObjectExists => 0x11,
        }
    }

    /// Decodes a protocol byte.
    pub fn from_byte(value: u8) -> (decoded: Option<DeviceError>)
        ensures
            decoded == DeviceError::of_byte(value),
    {
        match value {
            0x01 => Some(DeviceError::InvalidCommand),
            0x02 => Some(DeviceError::InvalidData),
            0x03 => Some(DeviceError::InvalidSession),
            0x04 => Some(DeviceError::AuthenticationFailed),
            0x05 => Some(DeviceError::SessionsFull),
            0x06 => Some(DeviceError::SessionFailed),
            0x07 => Some(DeviceError::StorageFailed),
            0x08 => Some(DeviceError::WrongLength),
            0x09 => Some(DeviceError::InsufficientPermissions),
            0x0a => Some(DeviceError::LogFull),
            0x0b => Some(DeviceError::ObjectNotFound),
            0x0c => Some(DeviceError::InvalidId),
            0x0e => Some(DeviceError::SshCaConstraintViolation),
            0x0f => Some(DeviceError::InvalidOtp),
            0x10 => Some(DeviceError::DemoMode),
            0x11 => Some(DeviceError::ObjectExists),
            _ => None,
        }
    }

    /// The words that describe this error.
    pub open spec fn words(self) -> Seq<char> {
        match self {
            DeviceError::InvalidCommand => "invalid command"@,
            DeviceError::InvalidData => "invalid data"@,
            DeviceError::InvalidSession => "invalid session"@,
            DeviceError::AuthenticationFailed => "authentication failed"@,
            DeviceError::SessionsFull => "sessions full"@,
            DeviceError::SessionFailed => "session failed"@,
            DeviceError::StorageFailed => "storage failed"@,
            DeviceError::WrongLength => "wrong length"@,
            DeviceError::InsufficientPermissions => "insufficient permissions"@,
            DeviceError::LogFull => "log full"@,
            DeviceError::ObjectNotFound => "object not found"@,
            DeviceError::InvalidId => "invalid object id"@,
            DeviceError::SshCaConstraintViolation => "SSH CA constraint violation"@,
            DeviceError::InvalidOtp => "invalid OTP"@,
            DeviceError::DemoMode => "demo mode"@,
            DeviceError::ObjectExists => "object already exists"@,
        }
    }

    /// Describes the error in words.
    pub fn describe(self) -> (text: &'static str)
        ensures
            text@ == self.words(),
    {
        match self {
            DeviceError::InvalidCommand => "invalid command",
            DeviceError::InvalidData => "invalid data",
            DeviceError::InvalidSession => "invalid session",
            DeviceError::AuthenticationFailed => "authentication failed",
            DeviceError::SessionsFull => "sessions full",
            DeviceError::SessionFailed => "session failed",
            DeviceError::StorageFailed => "storage failed",
            DeviceError::WrongLength => "wrong length",
            DeviceError::InsufficientPermissions => "insufficient permissions",
            DeviceError::LogFull => "log full",
            DeviceError::ObjectNotFound => "object not found",
            DeviceError::InvalidId => "invalid object id",
            DeviceError::SshCaConstraintViolation => "SSH CA constraint violation",
            DeviceError::InvalidOtp => "invalid OTP",
            DeviceError::DemoMode => "demo mode",
            DeviceError::ObjectExists => "object already exists",
        }
    }
}

/// A device error and its protocol byte determine each other: the byte decodes to
/// the device error it came from, and nothing else decodes to it.
pub proof fn error_byte_round_trip(item: DeviceError, value: u8)
    ensures
        DeviceError::of_byte(item.byte()) == Some(item),
        DeviceError::of_byte(value) == Some(item) <==> item.byte() == value,
{
}

} // verus!
