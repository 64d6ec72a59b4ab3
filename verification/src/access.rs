//! What a command needs of the objects it names, before it is executed.
use crate::authorization::SessionAuthorization;
use crate::capability::Capability;
use crate::device::{Device, DeviceModel};
use crate::error::{DeviceError, Result};
use crate::object::{ObjectKey, ObjectType};
use crate::protocol::CommandCode;
use crate::request::{
    AesCbcRequest, ChangeAuthenticationKeyRequest, CreateOtpAeadRequest, DecryptOaepRequest,
    DecryptOtpRequest, DeriveEcdhKdfRequest, ExportRsaWrappedFields, ExportWrappedRequest,
    GetPublicKeyRequest, IdRequest, ImportRsaWrappedRequest, ImportWrappedRequest, NumberRequest,
    ObjectKeyRequest, ObjectRequest, PutRsaWrappedKeyRequest, RewrapOtpAeadRequest,
    SignAttestationCertificateRequest, SignPssRequest,
};
use crate::wire::{decode, decoded};
use vstd::prelude::*;

verus! {

/// What a command needs of the objects it names.
#[derive(Clone, Copy, Debug, PartialEq, Eq, Structural)]
pub enum Requirement {
    /// Nothing beyond the session's own capability.
    Nothing,
    /// An object that the session finds.
    Visible(ObjectKey),
    /// An object that the session may use with a capability.
    Use(ObjectKey, Capability),
    /// An object that the session may use with a capability, where it is there.
    Replace(ObjectKey, Capability),
    /// The session's own authentication key, usable with a capability.
    Own(u16, Capability),
    /// Two objects, each usable with its capability.
    UseBoth(ObjectKey, Capability, ObjectKey, Capability),
    /// A wrap key under which the session may export an object.
    Export(ObjectKey, ObjectKey),
    /// A key to attest that the session finds, unless it is the device's own,
    /// and one to attest it with, whose template it finds.
    Attest(u16, u16),
    /// An object that the session may delete.
    Delete(ObjectKey),
}

/// The object of a type and number.
pub open spec fn of_type(object_type: ObjectType, id: u16) -> ObjectKey {
    ObjectKey { object_type, id }
}

/// Makes the key of a type and number.
pub fn key_of(object_type: ObjectType, id: u16) -> (key: ObjectKey)
    ensures
        key == of_type(object_type, id),
{
    ObjectKey { object_type, id }
}

/// The use of an object whose number starts a payload.
pub open spec fn use_of(
    data: Seq<u8>,
    object_type: ObjectType,
    capability: Capability,
) -> core::result::Result<
    Requirement,
    DeviceError,
> {
    match decoded::<IdRequest>(data) {
        Ok(request) => Ok(Requirement::Use(of_type(object_type, request.id), capability)),
        Err(error) => Err(error),
    }
}

/// Reads the use of an object whose number starts a payload.
fn read_use(data: &[u8], object_type: ObjectType, capability: Capability) -> (requirement: Result<
    Requirement,
>)
    ensures
        requirement == use_of(data@, object_type, capability),
{
    let request = decode::<IdRequest>(data)?;
    Ok(Requirement::Use(key_of(object_type, request.id), capability))
}

/// What a command with a payload needs of the objects that the payload names. A
/// payload that is malformed for such a command is refused here.
pub open spec fn needs(command: CommandCode, data: Seq<u8>) -> core::result::Result<
    Requirement,
    DeviceError,
> {
    match command {
        CommandCode::PutOpaque => match decoded::<ObjectRequest>(data) {
            Ok(request) => Ok(
                Requirement::Replace(
                    of_type(ObjectType::Opaque, request.header.requested_id),
                    Capability::PutOpaque,
                ),
            ),
            Err(error) => Err(error),
        },
        CommandCode::GetOpaque => match decoded::<NumberRequest>(data) {
            Ok(request) => Ok(Requirement::Visible(of_type(ObjectType::Opaque, request.value))),
            Err(error) => Err(error),
        },
        CommandCode::GetTemplate => match decoded::<NumberRequest>(data) {
            Ok(request) => Ok(
                Requirement::Use(
                    of_type(ObjectType::Template, request.value),
                    Capability::GetTemplate,
                ),
            ),
            Err(error) => Err(error),
        },
        CommandCode::ChangeAuthenticationKey => match decoded::<ChangeAuthenticationKeyRequest>(
            data,
        ) {
            Ok(request) => Ok(
                Requirement::Own(request.id, Capability::ChangeAuthenticationKey),
            ),
            Err(error) => Err(error),
        },
        CommandCode::SignPkcs1 => use_of(data, ObjectType::AsymmetricKey, Capability::SignPkcs),
        CommandCode::SignPss => match decoded::<SignPssRequest>(data) {
            Ok(request) => Ok(
                Requirement::Use(
                    of_type(ObjectType::AsymmetricKey, request.id),
                    Capability::SignPss,
                ),
            ),
            Err(error) => Err(error),
        },
        CommandCode::SignEcdsa => use_of(data, ObjectType::AsymmetricKey, Capability::SignEcdsa),
        CommandCode::SignEddsa => use_of(data, ObjectType::AsymmetricKey, Capability::SignEddsa),
        CommandCode::DeriveEcdh => use_of(data, ObjectType::AsymmetricKey, Capability::DeriveEcdh),
        CommandCode::DeriveEcdhKdf => match decoded::<DeriveEcdhKdfRequest>(data) {
            Ok(request) => Ok(
                Requirement::Use(
                    of_type(ObjectType::AsymmetricKey, request.id),
                    Capability::DeriveEcdhKdf,
                ),
            ),
            Err(error) => Err(error),
        },
        CommandCode::DecryptPkcs1 => use_of(
            data,
            ObjectType::AsymmetricKey,
            Capability::DecryptPkcs,
        ),
        CommandCode::DecryptOaep => match decoded::<DecryptOaepRequest>(data) {
            Ok(request) => Ok(
                Requirement::Use(
                    of_type(ObjectType::AsymmetricKey, request.id),
                    Capability::DecryptOaep,
                ),
            ),
            Err(error) => Err(error),
        },
        CommandCode::SignHmac => use_of(data, ObjectType::HmacKey, Capability::SignHmac),
        CommandCode::VerifyHmac => use_of(data, ObjectType::HmacKey, Capability::VerifyHmac),
        CommandCode::WrapData => use_of(data, ObjectType::WrapKey, Capability::WrapData),
        CommandCode::UnwrapData => use_of(data, ObjectType::WrapKey, Capability::UnwrapData),
        CommandCode::EncryptEcb => use_of(data, ObjectType::SymmetricKey, Capability::EncryptEcb),
        CommandCode::DecryptEcb => use_of(data, ObjectType::SymmetricKey, Capability::DecryptEcb),
        CommandCode::EncryptCbc => match decoded::<AesCbcRequest>(data) {
            Ok(request) => Ok(
                Requirement::Use(
                    of_type(ObjectType::SymmetricKey, request.id),
                    Capability::EncryptCbc,
                ),
            ),
            Err(error) => Err(error),
        },
        CommandCode::DecryptCbc => match decoded::<AesCbcRequest>(data) {
            Ok(request) => Ok(
                Requirement::Use(
                    of_type(ObjectType::SymmetricKey, request.id),
                    Capability::DecryptCbc,
                ),
            ),
            Err(error) => Err(error),
        },
        CommandCode::CreateOtpAead => match decoded::<CreateOtpAeadRequest>(data) {
            Ok(request) => Ok(
                Requirement::Use(
                    of_type(ObjectType::OtpAeadKey, request.id),
                    Capability::CreateOtpAead,
                ),
            ),
            Err(error) => Err(error),
        },
        CommandCode::RandomizeOtpAead => match decoded::<NumberRequest>(data) {
            Ok(request) => Ok(
                Requirement::Use(
                    of_type(ObjectType::OtpAeadKey, request.value),
                    Capability::RandomizeOtpAead,
                ),
            ),
            Err(error) => Err(error),
        },
        CommandCode::DecryptOtp => match decoded::<DecryptOtpRequest>(data) {
            Ok(request) => Ok(
                Requirement::Use(
                    of_type(ObjectType::OtpAeadKey, request.id),
                    Capability::DecryptOtp,
                ),
            ),
            Err(error) => Err(error),
        },
        CommandCode::RewrapOtpAead => match decoded::<RewrapOtpAeadRequest>(data) {
            Ok(request) => Ok(
                Requirement::UseBoth(
                    of_type(ObjectType::OtpAeadKey, request.from_id),
                    Capability::RewrapFromOtpAeadKey,
                    of_type(ObjectType::OtpAeadKey, request.to_id),
                    Capability::RewrapToOtpAeadKey,
                ),
            ),
            Err(error) => Err(error),
        },
        CommandCode::ExportWrapped => match decoded::<ExportWrappedRequest>(data) {
            Ok(request) => Ok(
                Requirement::Export(of_type(ObjectType::WrapKey, request.wrap_id), request.target),
            ),
            Err(error) => Err(error),
        },
        CommandCode::GetRsaWrappedKey | CommandCode::ExportRsaWrapped => match decoded::<
            ExportRsaWrappedFields,
        >(data) {
            Ok(request) => Ok(
                Requirement::Export(
                    of_type(ObjectType::PublicWrapKey, request.wrap_id),
                    of_type(request.target_type, request.target_id),
                ),
            ),
            Err(error) => Err(error),
        },
        CommandCode::ImportWrapped => match decoded::<ImportWrappedRequest>(data) {
            Ok(request) => Ok(
                Requirement::Use(
                    of_type(ObjectType::WrapKey, request.wrap_id),
                    Capability::ImportWrapped,
                ),
            ),
            Err(error) => Err(error),
        },
        CommandCode::ImportRsaWrapped => match decoded::<ImportRsaWrappedRequest>(data) {
            Ok(request) => Ok(
                Requirement::Use(
                    of_type(ObjectType::WrapKey, request.wrap_id),
                    Capability::ImportWrapped,
                ),
            ),
            Err(error) => Err(error),
        },
        CommandCode::PutRsaWrappedKey => match decoded::<PutRsaWrappedKeyRequest>(data) {
            Ok(request) => Ok(
                Requirement::Use(
                    of_type(ObjectType::WrapKey, request.wrap_id),
                    Capability::ImportWrapped,
                ),
            ),
            Err(error) => Err(error),
        },
        CommandCode::SignAttestationCertificate => match decoded::<
            SignAttestationCertificateRequest,
        >(data) {
            Ok(request) => Ok(Requirement::Attest(request.target_id, request.attesting_id)),
            Err(error) => Err(error),
        },
        CommandCode::GetObjectInfo => match decoded::<ObjectKeyRequest>(data) {
            Ok(request) => Ok(Requirement::Visible(request.target())),
            Err(error) => Err(error),
        },
        CommandCode::GetPublicKey => match decoded::<GetPublicKeyRequest>(data) {
            Ok(request) => Ok(Requirement::Visible(of_type(request.object_type, request.id))),
            Err(error) => Err(error),
        },
        CommandCode::DeleteObject => match decoded::<ObjectKeyRequest>(data) {
            Ok(request) => Ok(Requirement::Delete(request.target())),
            Err(error) => Err(error),
        },
        _ => Ok(Requirement::Nothing),
    }
}

/// Reads what a command needs of the objects that its payload names.
pub fn command_requirement(command: CommandCode, data: &[u8]) -> (requirement: Result<Requirement>)
    ensures
        requirement == needs(command, data@),
{
    match command {
        CommandCode::PutOpaque => {
            let request = decode::<ObjectRequest>(data)?;
            Ok(
                Requirement::Replace(
                    key_of(ObjectType::Opaque, request.header.requested_id),
                    Capability::PutOpaque,
                ),
            )
        },
        CommandCode::GetOpaque => {
            let request = decode::<NumberRequest>(data)?;
            Ok(Requirement::Visible(key_of(ObjectType::Opaque, request.value)))
        },
        CommandCode::GetTemplate => {
            let request = decode::<NumberRequest>(data)?;
            Ok(
                Requirement::Use(
                    key_of(ObjectType::Template, request.value),
                    Capability::GetTemplate,
                ),
            )
        },
        CommandCode::ChangeAuthenticationKey => {
            let request = decode::<ChangeAuthenticationKeyRequest>(data)?;
            Ok(Requirement::Own(request.id, Capability::ChangeAuthenticationKey))
        },
        CommandCode::SignPkcs1 => read_use(data, ObjectType::AsymmetricKey, Capability::SignPkcs),
        CommandCode::SignPss => {
            let request = decode::<SignPssRequest>(data)?;
            Ok(
                Requirement::Use(
                    key_of(ObjectType::AsymmetricKey, request.id),
                    Capability::SignPss,
                ),
            )
        },
        CommandCode::SignEcdsa => read_use(data, ObjectType::AsymmetricKey, Capability::SignEcdsa),
        CommandCode::SignEddsa => read_use(data, ObjectType::AsymmetricKey, Capability::SignEddsa),
        CommandCode::DeriveEcdh => read_use(
            data,
            ObjectType::AsymmetricKey,
            Capability::DeriveEcdh,
        ),
        CommandCode::DeriveEcdhKdf => {
            let request = decode::<DeriveEcdhKdfRequest>(data)?;
            Ok(
                Requirement::Use(
                    key_of(ObjectType::AsymmetricKey, request.id),
                    Capability::DeriveEcdhKdf,
                ),
            )
        },
        CommandCode::DecryptPkcs1 => read_use(
            data,
            ObjectType::AsymmetricKey,
            Capability::DecryptPkcs,
        ),
        CommandCode::DecryptOaep => {
            let request = decode::<DecryptOaepRequest>(data)?;
            Ok(
                Requirement::Use(
                    key_of(ObjectType::AsymmetricKey, request.id),
                    Capability::DecryptOaep,
                ),
            )
        },
        CommandCode::SignHmac => read_use(data, ObjectType::HmacKey, Capability::SignHmac),
        CommandCode::VerifyHmac => read_use(data, ObjectType::HmacKey, Capability::VerifyHmac),
        CommandCode::WrapData => read_use(data, ObjectType::WrapKey, Capability::WrapData),
        CommandCode::UnwrapData => read_use(data, ObjectType::WrapKey, Capability::UnwrapData),
        CommandCode::EncryptEcb => read_use(data, ObjectType::SymmetricKey, Capability::EncryptEcb),
        CommandCode::DecryptEcb => read_use(data, ObjectType::SymmetricKey, Capability::DecryptEcb),
        CommandCode::EncryptCbc => {
            let request = decode::<AesCbcRequest>(data)?;
            Ok(
                Requirement::Use(
                    key_of(ObjectType::SymmetricKey, request.id),
                    Capability::EncryptCbc,
                ),
            )
        },
        CommandCode::DecryptCbc => {
            let request = decode::<AesCbcRequest>(data)?;
            Ok(
                Requirement::Use(
                    key_of(ObjectType::SymmetricKey, request.id),
                    Capability::DecryptCbc,
                ),
            )
        },
        CommandCode::CreateOtpAead => {
            let request = decode::<CreateOtpAeadRequest>(data)?;
            Ok(
                Requirement::Use(
                    key_of(ObjectType::OtpAeadKey, request.id),
                    Capability::CreateOtpAead,
                ),
            )
        },
        CommandCode::RandomizeOtpAead => {
            let request = decode::<NumberRequest>(data)?;
            Ok(
                Requirement::Use(
                    key_of(ObjectType::OtpAeadKey, request.value),
                    Capability::RandomizeOtpAead,
                ),
            )
        },
        CommandCode::DecryptOtp => {
            let request = decode::<DecryptOtpRequest>(data)?;
            Ok(
                Requirement::Use(
                    key_of(ObjectType::OtpAeadKey, request.id),
                    Capability::DecryptOtp,
                ),
            )
        },
        CommandCode::RewrapOtpAead => {
            let request = decode::<RewrapOtpAeadRequest>(data)?;
            Ok(
                Requirement::UseBoth(
                    key_of(ObjectType::OtpAeadKey, request.from_id),
                    Capability::RewrapFromOtpAeadKey,
                    key_of(ObjectType::OtpAeadKey, request.to_id),
                    Capability::RewrapToOtpAeadKey,
                ),
            )
        },
        CommandCode::ExportWrapped => {
            let request = decode::<ExportWrappedRequest>(data)?;
            Ok(Requirement::Export(key_of(ObjectType::WrapKey, request.wrap_id), request.target))
        },
        CommandCode::GetRsaWrappedKey | CommandCode::ExportRsaWrapped => {
            let request = decode::<ExportRsaWrappedFields>(data)?;
            Ok(
                Requirement::Export(
                    key_of(ObjectType::PublicWrapKey, request.wrap_id),
                    key_of(request.target_type, request.target_id),
                ),
            )
        },
        CommandCode::ImportWrapped => {
            let request = decode::<ImportWrappedRequest>(data)?;
            Ok(
                Requirement::Use(
                    key_of(ObjectType::WrapKey, request.wrap_id),
                    Capability::ImportWrapped,
                ),
            )
        },
        CommandCode::ImportRsaWrapped => {
            let request = decode::<ImportRsaWrappedRequest>(data)?;
            Ok(
                Requirement::Use(
                    key_of(ObjectType::WrapKey, request.wrap_id),
                    Capability::ImportWrapped,
                ),
            )
        },
        CommandCode::PutRsaWrappedKey => {
            let request = decode::<PutRsaWrappedKeyRequest>(data)?;
            Ok(
                Requirement::Use(
                    key_of(ObjectType::WrapKey, request.wrap_id),
                    Capability::ImportWrapped,
                ),
            )
        },
        CommandCode::SignAttestationCertificate => {
            let request = decode::<SignAttestationCertificateRequest>(data)?;
            Ok(Requirement::Attest(request.target_id, request.attesting_id))
        },
        CommandCode::GetObjectInfo => {
            let request = decode::<ObjectKeyRequest>(data)?;
            Ok(Requirement::Visible(request.key()))
        },
        CommandCode::GetPublicKey => {
            let request = decode::<GetPublicKeyRequest>(data)?;
            Ok(Requirement::Visible(key_of(request.object_type, request.id)))
        },
        CommandCode::DeleteObject => {
            let request = decode::<ObjectKeyRequest>(data)?;
            Ok(Requirement::Delete(request.key()))
        },
        _ => Ok(Requirement::Nothing),
    }
}

impl DeviceModel {
    /// Whether a session may use an object with a capability.
    pub open spec fn permits(
        self,
        authorization: SessionAuthorization,
        key: ObjectKey,
        capability: Capability,
    ) -> core::result::Result<(), DeviceError> {
        match self.get(key) {
            Ok(record) => authorization.may_use(record.info, capability, capability),
            Err(error) => Err(error),
        }
    }

    /// Whether a session finds an object.
    pub open spec fn shows(
        self,
        authorization: SessionAuthorization,
        key: ObjectKey,
    ) -> core::result::Result<(), DeviceError> {
        match self.get(key) {
            Ok(record) => authorization.finds(record.info),
            Err(error) => Err(error),
        }
    }

    /// Whether what a command needs is there for a session.
    pub open spec fn meets(
        self,
        authorization: SessionAuthorization,
        requirement: Requirement,
    ) -> core::result::Result<(), DeviceError> {
        match requirement {
            Requirement::Nothing => Ok(()),
            Requirement::Visible(key) => self.shows(authorization, key),
            Requirement::Use(key, capability) => self.permits(authorization, key, capability),
            Requirement::Replace(key, capability) => if key.id != 0 && self.objects.contains_key(
                key.number(),
            ) {
                self.permits(authorization, key, capability)
            } else {
                Ok(())
            },
            Requirement::Own(id, capability) => if id != authorization.authentication_key_id {
                Err(DeviceError::InvalidId)
            } else {
                self.permits(
                    authorization,
                    of_type(ObjectType::AuthenticationKey, id),
                    capability,
                )
            },
            Requirement::UseBoth(
                first,
                first_capability,
                second,
                second_capability,
            ) => match self.permits(
                authorization,
                first,
                first_capability,
            ) {
                Ok(()) => self.permits(authorization, second, second_capability),
                Err(error) => Err(error),
            },
            Requirement::Export(wrap_key, target) => match self.get(wrap_key) {
                Ok(wrap_key) => match self.get(target) {
                    Ok(target) => authorization.may_export(target.info, wrap_key.info),
                    Err(error) => Err(error),
                },
                Err(error) => Err(error),
            },
            Requirement::Attest(target, attesting) => {
                let key = of_type(ObjectType::AsymmetricKey, target);
                let signer = of_type(ObjectType::AsymmetricKey, attesting);
                let template = of_type(ObjectType::Opaque, attesting);
                if target != 0 && self.shows(authorization, key) is Err {
                    self.shows(authorization, key)
                } else if attesting == 0 {
                    Ok(())
                } else if self.permits(
                    authorization,
                    signer,
                    Capability::SignAttestationCertificate,
                ) is Err {
                    self.permits(authorization, signer, Capability::SignAttestationCertificate)
                } else if self.objects.contains_key(template.number()) {
                    self.shows(authorization, template)
                } else {
                    Ok(())
                }
            },
            Requirement::Delete(key) => match self.get(key) {
                Ok(record) => authorization.may_delete(record.info),
                Err(error) => Err(error),
            },
        }
    }

    /// Whether a session may execute a command with a payload: it has the
    /// command's capability, and what the command needs of the objects that the
    /// payload names is there.
    pub open spec fn allows(
        self,
        authorization: SessionAuthorization,
        command: CommandCode,
        data: Seq<u8>,
    ) -> core::result::Result<(), DeviceError> {
        if command.session_capability() matches Some(capability) && authorization.may(
            capability,
        ) is Err {
            Err(DeviceError::InsufficientPermissions)
        } else {
            match needs(command, data) {
                Ok(requirement) => self.meets(authorization, requirement),
                Err(error) => Err(error),
            }
        }
    }
}

impl Device {
    /// Checks that a session may use an object with a capability.
    pub fn authorize_object(
        &self,
        authorization: SessionAuthorization,
        key: ObjectKey,
        capability: Capability,
    ) -> (allowed: Result<()>)
        ensures
            allowed == self@.permits(authorization, key, capability),
    {
        let record = self.find(key)?;
        authorization.authorize_use(&record.info, capability, capability)
    }

    /// Checks that a session finds an object.
    pub fn require_object_visible(
        &self,
        authorization: SessionAuthorization,
        key: ObjectKey,
    ) -> (allowed:
        Result<()>)
        ensures
            allowed == self@.shows(authorization, key),
    {
        let record = self.find(key)?;
        authorization.require_visible(&record.info)
    }

    /// Checks that what a command needs is there for a session.
    pub fn require(
        &self,
        authorization: SessionAuthorization,
        requirement: Requirement,
    ) -> (allowed:
        Result<()>)
        ensures
            allowed == self@.meets(authorization, requirement),
    {
        match requirement {
            Requirement::Nothing => Ok(()),
            Requirement::Visible(key) => self.require_object_visible(authorization, key),
            Requirement::Use(key, capability) => self.authorize_object(
                authorization,
                key,
                capability,
            ),
            Requirement::Replace(key, capability) => {
                if key.id != 0 && self.holds(key) {
                    self.authorize_object(authorization, key, capability)
                } else {
                    Ok(())
                }
            },
            Requirement::Own(id, capability) => {
                if id != authorization.authentication_key_id {
                    return Err(DeviceError::InvalidId);
                }
                self.authorize_object(
                    authorization,
                    key_of(ObjectType::AuthenticationKey, id),
                    capability,
                )
            },
            Requirement::UseBoth(first, first_capability, second, second_capability) => {
                self.authorize_object(authorization, first, first_capability)?;
                self.authorize_object(authorization, second, second_capability)
            },
            Requirement::Export(wrap_key, target) => {
                let wrap_key = self.find(wrap_key)?;
                let target = self.find(target)?;
                authorization.authorize_wrapped_export(target, wrap_key)
            },
            Requirement::Attest(target, attesting) => {
                if target != 0 {
                    self.require_object_visible(
                        authorization,
                        key_of(ObjectType::AsymmetricKey, target),
                    )?;
                }
                if attesting != 0 {
                    self.authorize_object(
                        authorization,
                        key_of(ObjectType::AsymmetricKey, attesting),
                        Capability::SignAttestationCertificate,
                    )?;
                    let template = key_of(ObjectType::Opaque, attesting);
                    if self.holds(template) {
                        self.require_object_visible(authorization, template)?;
                    }
                }
                Ok(())
            },
            Requirement::Delete(key) => {
                let record = self.find(key)?;
                authorization.authorize_delete(&record.info)
            },
        }
    }

    /// Checks that a session may execute a command with a payload.
    pub fn authorize_command_request(
        &self,
        authorization: SessionAuthorization,
        command: CommandCode,
        data: &[u8],
    ) -> (allowed: Result<()>)
        ensures
            allowed == self@.allows(authorization, command, data@),
    {
        if let Some(required) = command.required_session_capability() {
            authorization.require_capability(required)?;
        }
        let requirement = command_requirement(command, data)?;
        self.require(authorization, requirement)
    }
}

/// A command that needs a session capability is refused without it, whatever
/// its payload and whatever the device holds.
pub proof fn commands_need_their_capability(
    device: DeviceModel,
    authorization: SessionAuthorization,
    command: CommandCode,
    data: Seq<u8>,
    capability: Capability,
)
    requires
        command.session_capability() == Some(capability),
        !authorization.capabilities.has(capability.byte()),
    ensures
        device.allows(authorization, command, data) == Err::<(), DeviceError>(
            DeviceError::InsufficientPermissions,
        ),
{
}

/// Whatever a command needs of an object, an object of other domains answers as
/// a missing one does.
pub proof fn hidden_objects_answer_as_missing(
    device: DeviceModel,
    authorization: SessionAuthorization,
    key: ObjectKey,
    capability: Capability,
)
    requires
        device.get(key) matches Ok(record) ==> !authorization.sees(record.info),
    ensures
        device.meets(authorization, Requirement::Visible(key)) == Err::<(), DeviceError>(
            DeviceError::ObjectNotFound,
        ),
        device.meets(authorization, Requirement::Use(key, capability)) == Err::<(), DeviceError>(
            DeviceError::ObjectNotFound,
        ),
        device.meets(authorization, Requirement::Delete(key)) == Err::<(), DeviceError>(
            DeviceError::ObjectNotFound,
        ),
{
}

/// Only the session's own authentication key can be changed.
pub proof fn only_the_own_key_is_changed(
    device: DeviceModel,
    authorization: SessionAuthorization,
    data: Seq<u8>,
)
    requires
        device.allows(authorization, CommandCode::ChangeAuthenticationKey, data) is Ok,
    ensures
        decoded::<ChangeAuthenticationKeyRequest>(data) matches Ok(request) && request.id
            == authorization.authentication_key_id,
{
}

} // verus!
