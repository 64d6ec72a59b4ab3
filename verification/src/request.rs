//! Command payloads.
use crate::bytes::{before_zero, equal, trim_label, u16_at, u64_at};
use crate::capability::CapabilitySet;
use crate::engine::{fields_model, CounterKdfField, FieldModel, IntegerFormat, LengthMethod};
use crate::error::{DeviceError, Result};
use crate::object::{InfoModel, ObjectInfo, ObjectKey, ObjectType};
use crate::protocol::SessionObjectCommand;
use crate::session_object::SessionObjectKind;
use crate::wire::{Decode, Reader};
use vstd::prelude::*;

verus! {

/// A payload without fields.
#[derive(Clone, Copy, Debug)]
pub struct EmptyRequest;

impl<'a> Decode<'a> for EmptyRequest {
    type Model = ();

    open spec fn model(self) -> () {
        ()
    }

    open spec fn layout(input: Seq<u8>, at: int) -> core::result::Result<((), int), DeviceError> {
        Ok(((), at))
    }

    fn decode(reader: &mut Reader<'a>) -> (value: Result<EmptyRequest>) {
        Ok(EmptyRequest)
    }
}

/// A payload of one byte: an option or a duration.
#[derive(Clone, Copy, Debug)]
pub struct ByteRequest {
    pub value: u8,
}

impl<'a> Decode<'a> for ByteRequest {
    type Model = ByteRequest;

    open spec fn model(self) -> ByteRequest {
        self
    }

    open spec fn layout(input: Seq<u8>, at: int) -> core::result::Result<
        (ByteRequest, int),
        DeviceError,
    > {
        if input.len() < at + 1 {
            Err(DeviceError::WrongLength)
        } else {
            Ok(
                (
                    ByteRequest {
                        value: input[at],
                    },
                    at + 1,
                ),
            )
        }
    }

    fn decode(reader: &mut Reader<'a>) -> (value: Result<ByteRequest>) {
        let value: u8 = reader.read_u8()?;
        Ok(ByteRequest { value })
    }
}

/// A payload of one number: an object number, an index or a length.
#[derive(Clone, Copy, Debug)]
pub struct NumberRequest {
    pub value: u16,
}

impl<'a> Decode<'a> for NumberRequest {
    type Model = NumberRequest;

    open spec fn model(self) -> NumberRequest {
        self
    }

    open spec fn layout(input: Seq<u8>, at: int) -> core::result::Result<
        (NumberRequest, int),
        DeviceError,
    > {
        if input.len() < at + 2 {
            Err(DeviceError::WrongLength)
        } else {
            Ok(
                (
                    NumberRequest {
                        value: u16_at(input, at),
                    },
                    at + 2,
                ),
            )
        }
    }

    fn decode(reader: &mut Reader<'a>) -> (value: Result<NumberRequest>) {
        let value: u16 = reader.read_u16()?;
        Ok(NumberRequest { value })
    }
}

/// A payload of one session-object handle.
#[derive(Clone, Copy, Debug)]
pub struct HandleRequest {
    pub handle: u64,
}

impl<'a> Decode<'a> for HandleRequest {
    type Model = HandleRequest;

    open spec fn model(self) -> HandleRequest {
        self
    }

    open spec fn layout(input: Seq<u8>, at: int) -> core::result::Result<
        (HandleRequest, int),
        DeviceError,
    > {
        if input.len() < at + 8 {
            Err(DeviceError::WrongLength)
        } else {
            Ok(
                (
                    HandleRequest {
                        handle: u64_at(input, at),
                    },
                    at + 8,
                ),
            )
        }
    }

    fn decode(reader: &mut Reader<'a>) -> (value: Result<HandleRequest>) {
        let handle: u64 = reader.read_u64()?;
        Ok(HandleRequest { handle })
    }
}

/// An object number and data.
#[derive(Clone, Copy, Debug)]
pub struct IdRequest<'a> {
    pub id: u16,
    pub data: &'a [u8],
}

/// What a [`IdRequest`] says.
#[verifier::ext_equal]
pub struct IdRequestModel {
    pub id: u16,
    pub data: Seq<u8>,
}

impl<'a> Decode<'a> for IdRequest<'a> {
    type Model = IdRequestModel;

    open spec fn model(self) -> IdRequestModel {
        IdRequestModel {
            id: self.id,
            data: self.data@,
        }
    }

    open spec fn layout(input: Seq<u8>, at: int) -> core::result::Result<
        (IdRequestModel, int),
        DeviceError,
    > {
        if input.len() < at + 2 {
            Err(DeviceError::WrongLength)
        } else {
            Ok(
                (
                    IdRequestModel {
                        id: u16_at(input, at),
                        data: input.subrange(at + 2, input.len() as int),
                    },
                    input.len() as int,
                ),
            )
        }
    }

    fn decode(reader: &mut Reader<'a>) -> (value: Result<IdRequest<'a>>) {
        let id: u16 = reader.read_u16()?;
        let data = reader.read_remainder();
        Ok(IdRequest { id, data })
    }
}

/// A session number and what is sent to the session.
#[derive(Clone, Copy, Debug)]
pub struct SessionEnvelopeRequest<'a> {
    pub session_id: u8,
    pub body: &'a [u8],
}

/// What a [`SessionEnvelopeRequest`] says.
#[verifier::ext_equal]
pub struct SessionEnvelopeRequestModel {
    pub session_id: u8,
    pub body: Seq<u8>,
}

impl<'a> Decode<'a> for SessionEnvelopeRequest<'a> {
    type Model = SessionEnvelopeRequestModel;

    open spec fn model(self) -> SessionEnvelopeRequestModel {
        SessionEnvelopeRequestModel {
            session_id: self.session_id,
            body: self.body@,
        }
    }

    open spec fn layout(input: Seq<u8>, at: int) -> core::result::Result<
        (SessionEnvelopeRequestModel, int),
        DeviceError,
    > {
        if input.len() < at + 1 {
            Err(DeviceError::WrongLength)
        } else {
            Ok(
                (
                    SessionEnvelopeRequestModel {
                        session_id: input[at],
                        body: input.subrange(at + 1, input.len() as int),
                    },
                    input.len() as int,
                ),
            )
        }
    }

    fn decode(reader: &mut Reader<'a>) -> (value: Result<SessionEnvelopeRequest<'a>>) {
        let session_id: u8 = reader.read_u8()?;
        let body = reader.read_remainder();
        Ok(SessionEnvelopeRequest { session_id, body })
    }
}

/// An object number and type.
#[derive(Clone, Copy, Debug)]
pub struct ObjectKeyRequest {
    pub id: u16,
    pub object_type: ObjectType,
}

impl<'a> Decode<'a> for ObjectKeyRequest {
    type Model = ObjectKeyRequest;

    open spec fn model(self) -> ObjectKeyRequest {
        self
    }

    open spec fn layout(input: Seq<u8>, at: int) -> core::result::Result<
        (ObjectKeyRequest, int),
        DeviceError,
    > {
        if input.len() < at + 3 {
            Err(DeviceError::WrongLength)
        } else if ObjectType::of_byte(input[at + 2]) is None {
            Err(DeviceError::InvalidData)
        } else {
            Ok(
                (
                    ObjectKeyRequest {
                        id: u16_at(input, at),
                        object_type: ObjectType::of_byte(input[at + 2])->0,
                    },
                    at + 3,
                ),
            )
        }
    }

    fn decode(reader: &mut Reader<'a>) -> (value: Result<ObjectKeyRequest>) {
        let id: u16 = reader.read_u16()?;
        let object_type = match ObjectType::from_byte(reader.read_u8()?) {
            Some(object_type) => object_type,
            None => return Err(DeviceError::InvalidData),
        };
        Ok(ObjectKeyRequest { id, object_type })
    }
}

/// What every new object is requested with.
#[derive(Clone, Copy, Debug)]
pub struct ObjectHeader<'a> {
    pub requested_id: u16,
    pub label: &'a [u8],
    pub domains: u16,
    pub capabilities: CapabilitySet,
    pub algorithm: u8,
}

/// What a [`ObjectHeader`] says.
#[verifier::ext_equal]
pub struct ObjectHeaderModel {
    pub requested_id: u16,
    pub label: Seq<u8>,
    pub domains: u16,
    pub capabilities: CapabilitySet,
    pub algorithm: u8,
}

impl<'a> Decode<'a> for ObjectHeader<'a> {
    type Model = ObjectHeaderModel;

    open spec fn model(self) -> ObjectHeaderModel {
        ObjectHeaderModel {
            requested_id: self.requested_id,
            label: self.label@,
            domains: self.domains,
            capabilities: self.capabilities,
            algorithm: self.algorithm,
        }
    }

    open spec fn layout(input: Seq<u8>, at: int) -> core::result::Result<
        (ObjectHeaderModel, int),
        DeviceError,
    > {
        if input.len() < at + 53 {
            Err(DeviceError::WrongLength)
        } else {
            Ok(
                (
                    ObjectHeaderModel {
                        requested_id: u16_at(input, at),
                        label: input.subrange(at + 2, at + 42),
                        domains: u16_at(input, at + 42),
                        capabilities: CapabilitySet::of_word(u64_at(input, at + 44)),
                        algorithm: input[at + 52],
                    },
                    at + 53,
                ),
            )
        }
    }

    fn decode(reader: &mut Reader<'a>) -> (value: Result<ObjectHeader<'a>>) {
        let requested_id: u16 = reader.read_u16()?;
        let label = reader.read_array::<40>()?;
        let domains: u16 = reader.read_u16()?;
        let capabilities = CapabilitySet::from_bits(reader.read_u64()?);
        let algorithm: u8 = reader.read_u8()?;
        Ok(ObjectHeader { requested_id, label, domains, capabilities, algorithm })
    }
}

/// The payload of an RSA-PSS signature.
#[derive(Clone, Copy, Debug)]
pub struct SignPssRequest<'a> {
    pub id: u16,
    pub mgf_hash: u8,
    pub salt_length: u16,
    pub digest: &'a [u8],
}

/// What a [`SignPssRequest`] says.
#[verifier::ext_equal]
pub struct SignPssRequestModel {
    pub id: u16,
    pub mgf_hash: u8,
    pub salt_length: u16,
    pub digest: Seq<u8>,
}

impl<'a> Decode<'a> for SignPssRequest<'a> {
    type Model = SignPssRequestModel;

    open spec fn model(self) -> SignPssRequestModel {
        SignPssRequestModel {
            id: self.id,
            mgf_hash: self.mgf_hash,
            salt_length: self.salt_length,
            digest: self.digest@,
        }
    }

    open spec fn layout(input: Seq<u8>, at: int) -> core::result::Result<
        (SignPssRequestModel, int),
        DeviceError,
    > {
        if input.len() < at + 5 {
            Err(DeviceError::WrongLength)
        } else {
            Ok(
                (
                    SignPssRequestModel {
                        id: u16_at(input, at),
                        mgf_hash: input[at + 2],
                        salt_length: u16_at(input, at + 3),
                        digest: input.subrange(at + 5, input.len() as int),
                    },
                    input.len() as int,
                ),
            )
        }
    }

    fn decode(reader: &mut Reader<'a>) -> (value: Result<SignPssRequest<'a>>) {
        let id: u16 = reader.read_u16()?;
        let mgf_hash: u8 = reader.read_u8()?;
        let salt_length: u16 = reader.read_u16()?;
        let digest = reader.read_remainder();
        Ok(SignPssRequest { id, mgf_hash, salt_length, digest })
    }
}

/// An operation on session objects.
#[derive(Clone, Copy, Debug)]
pub struct SessionObjectRequest<'a> {
    pub operation: SessionObjectCommand,
    pub payload: &'a [u8],
}

/// What a [`SessionObjectRequest`] says.
#[verifier::ext_equal]
pub struct SessionObjectRequestModel {
    pub operation: SessionObjectCommand,
    pub payload: Seq<u8>,
}

impl<'a> Decode<'a> for SessionObjectRequest<'a> {
    type Model = SessionObjectRequestModel;

    open spec fn model(self) -> SessionObjectRequestModel {
        SessionObjectRequestModel {
            operation: self.operation,
            payload: self.payload@,
        }
    }

    open spec fn layout(input: Seq<u8>, at: int) -> core::result::Result<
        (SessionObjectRequestModel, int),
        DeviceError,
    > {
        if input.len() < at + 1 {
            Err(DeviceError::WrongLength)
        } else if SessionObjectCommand::of_byte(input[at]) is None {
            Err(DeviceError::InvalidData)
        } else {
            Ok(
                (
                    SessionObjectRequestModel {
                        operation: SessionObjectCommand::of_byte(input[at])->0,
                        payload: input.subrange(at + 1, input.len() as int),
                    },
                    input.len() as int,
                ),
            )
        }
    }

    fn decode(reader: &mut Reader<'a>) -> (value: Result<SessionObjectRequest<'a>>) {
        let operation = match SessionObjectCommand::from_byte(reader.read_u8()?) {
            Some(operation) => operation,
            None => return Err(DeviceError::InvalidData),
        };
        let payload = reader.read_remainder();
        Ok(SessionObjectRequest { operation, payload })
    }
}

/// The payload of an RSA-OAEP decryption.
#[derive(Clone, Copy, Debug)]
pub struct DecryptOaepRequest<'a> {
    pub id: u16,
    pub mgf_hash: u8,
    pub ciphertext_and_label: &'a [u8],
}

/// What a [`DecryptOaepRequest`] says.
#[verifier::ext_equal]
pub struct DecryptOaepRequestModel {
    pub id: u16,
    pub mgf_hash: u8,
    pub ciphertext_and_label: Seq<u8>,
}

impl<'a> Decode<'a> for DecryptOaepRequest<'a> {
    type Model = DecryptOaepRequestModel;

    open spec fn model(self) -> DecryptOaepRequestModel {
        DecryptOaepRequestModel {
            id: self.id,
            mgf_hash: self.mgf_hash,
            ciphertext_and_label: self.ciphertext_and_label@,
        }
    }

    open spec fn layout(input: Seq<u8>, at: int) -> core::result::Result<
        (DecryptOaepRequestModel, int),
        DeviceError,
    > {
        if input.len() < at + 3 {
            Err(DeviceError::WrongLength)
        } else {
            Ok(
                (
                    DecryptOaepRequestModel {
                        id: u16_at(input, at),
                        mgf_hash: input[at + 2],
                        ciphertext_and_label: input.subrange(at + 3, input.len() as int),
                    },
                    input.len() as int,
                ),
            )
        }
    }

    fn decode(reader: &mut Reader<'a>) -> (value: Result<DecryptOaepRequest<'a>>) {
        let id: u16 = reader.read_u16()?;
        let mgf_hash: u8 = reader.read_u8()?;
        let ciphertext_and_label = reader.read_remainder();
        Ok(DecryptOaepRequest { id, mgf_hash, ciphertext_and_label })
    }
}

/// The payload of an AES-CBC command.
#[derive(Clone, Copy, Debug)]
pub struct AesCbcRequest<'a> {
    pub id: u16,
    pub iv: &'a [u8],
    pub input: &'a [u8],
}

/// What a [`AesCbcRequest`] says.
#[verifier::ext_equal]
pub struct AesCbcRequestModel {
    pub id: u16,
    pub iv: Seq<u8>,
    pub input: Seq<u8>,
}

impl<'a> Decode<'a> for AesCbcRequest<'a> {
    type Model = AesCbcRequestModel;

    open spec fn model(self) -> AesCbcRequestModel {
        AesCbcRequestModel {
            id: self.id,
            iv: self.iv@,
            input: self.input@,
        }
    }

    open spec fn layout(input: Seq<u8>, at: int) -> core::result::Result<
        (AesCbcRequestModel, int),
        DeviceError,
    > {
        if input.len() < at + 18 {
            Err(DeviceError::WrongLength)
        } else {
            Ok(
                (
                    AesCbcRequestModel {
                        id: u16_at(input, at),
                        iv: input.subrange(at + 2, at + 18),
                        input: input.subrange(at + 18, input.len() as int),
                    },
                    input.len() as int,
                ),
            )
        }
    }

    fn decode(reader: &mut Reader<'a>) -> (value: Result<AesCbcRequest<'a>>) {
        let id: u16 = reader.read_u16()?;
        let iv = reader.read_array::<16>()?;
        let input = reader.read_remainder();
        Ok(AesCbcRequest { id, iv, input })
    }
}

/// The payload of an import of a wrapped object.
#[derive(Clone, Copy, Debug)]
pub struct ImportWrappedRequest<'a> {
    pub wrap_id: u16,
    pub format: u8,
    pub nonce: &'a [u8],
    pub ciphertext: &'a [u8],
}

/// What a [`ImportWrappedRequest`] says.
#[verifier::ext_equal]
pub struct ImportWrappedRequestModel {
    pub wrap_id: u16,
    pub format: u8,
    pub nonce: Seq<u8>,
    pub ciphertext: Seq<u8>,
}

impl<'a> Decode<'a> for ImportWrappedRequest<'a> {
    type Model = ImportWrappedRequestModel;

    open spec fn model(self) -> ImportWrappedRequestModel {
        ImportWrappedRequestModel {
            wrap_id: self.wrap_id,
            format: self.format,
            nonce: self.nonce@,
            ciphertext: self.ciphertext@,
        }
    }

    open spec fn layout(input: Seq<u8>, at: int) -> core::result::Result<
        (ImportWrappedRequestModel, int),
        DeviceError,
    > {
        if input.len() < at + 16 {
            Err(DeviceError::WrongLength)
        } else {
            Ok(
                (
                    ImportWrappedRequestModel {
                        wrap_id: u16_at(input, at),
                        format: input[at + 2],
                        nonce: input.subrange(at + 3, at + 16),
                        ciphertext: input.subrange(at + 16, input.len() as int),
                    },
                    input.len() as int,
                ),
            )
        }
    }

    fn decode(reader: &mut Reader<'a>) -> (value: Result<ImportWrappedRequest<'a>>) {
        let wrap_id: u16 = reader.read_u16()?;
        let format: u8 = reader.read_u8()?;
        let nonce = reader.read_array::<13>()?;
        let ciphertext = reader.read_remainder();
        Ok(ImportWrappedRequest { wrap_id, format, nonce, ciphertext })
    }
}

/// The payload that makes an OTP AEAD of a credential.
#[derive(Clone, Copy, Debug)]
pub struct CreateOtpAeadRequest<'a> {
    pub id: u16,
    pub credential: &'a [u8],
}

/// What a [`CreateOtpAeadRequest`] says.
#[verifier::ext_equal]
pub struct CreateOtpAeadRequestModel {
    pub id: u16,
    pub credential: Seq<u8>,
}

impl<'a> Decode<'a> for CreateOtpAeadRequest<'a> {
    type Model = CreateOtpAeadRequestModel;

    open spec fn model(self) -> CreateOtpAeadRequestModel {
        CreateOtpAeadRequestModel {
            id: self.id,
            credential: self.credential@,
        }
    }

    open spec fn layout(input: Seq<u8>, at: int) -> core::result::Result<
        (CreateOtpAeadRequestModel, int),
        DeviceError,
    > {
        if input.len() < at + 24 {
            Err(DeviceError::WrongLength)
        } else {
            Ok(
                (
                    CreateOtpAeadRequestModel {
                        id: u16_at(input, at),
                        credential: input.subrange(at + 2, at + 24),
                    },
                    at + 24,
                ),
            )
        }
    }

    fn decode(reader: &mut Reader<'a>) -> (value: Result<CreateOtpAeadRequest<'a>>) {
        let id: u16 = reader.read_u16()?;
        let credential = reader.read_array::<22>()?;
        Ok(CreateOtpAeadRequest { id, credential })
    }
}

/// The payload that decrypts an OTP.
#[derive(Clone, Copy, Debug)]
pub struct DecryptOtpRequest<'a> {
    pub id: u16,
    pub aead: &'a [u8],
    pub otp: &'a [u8],
}

/// What a [`DecryptOtpRequest`] says.
#[verifier::ext_equal]
pub struct DecryptOtpRequestModel {
    pub id: u16,
    pub aead: Seq<u8>,
    pub otp: Seq<u8>,
}

impl<'a> Decode<'a> for DecryptOtpRequest<'a> {
    type Model = DecryptOtpRequestModel;

    open spec fn model(self) -> DecryptOtpRequestModel {
        DecryptOtpRequestModel {
            id: self.id,
            aead: self.aead@,
            otp: self.otp@,
        }
    }

    open spec fn layout(input: Seq<u8>, at: int) -> core::result::Result<
        (DecryptOtpRequestModel, int),
        DeviceError,
    > {
        if input.len() < at + 54 {
            Err(DeviceError::WrongLength)
        } else {
            Ok(
                (
                    DecryptOtpRequestModel {
                        id: u16_at(input, at),
                        aead: input.subrange(at + 2, at + 38),
                        otp: input.subrange(at + 38, at + 54),
                    },
                    at + 54,
                ),
            )
        }
    }

    fn decode(reader: &mut Reader<'a>) -> (value: Result<DecryptOtpRequest<'a>>) {
        let id: u16 = reader.read_u16()?;
        let aead = reader.read_array::<36>()?;
        let otp = reader.read_array::<16>()?;
        Ok(DecryptOtpRequest { id, aead, otp })
    }
}

/// The payload that moves an OTP AEAD to another key.
#[derive(Clone, Copy, Debug)]
pub struct RewrapOtpAeadRequest<'a> {
    pub from_id: u16,
    pub to_id: u16,
    pub aead: &'a [u8],
}

/// What a [`RewrapOtpAeadRequest`] says.
#[verifier::ext_equal]
pub struct RewrapOtpAeadRequestModel {
    pub from_id: u16,
    pub to_id: u16,
    pub aead: Seq<u8>,
}

impl<'a> Decode<'a> for RewrapOtpAeadRequest<'a> {
    type Model = RewrapOtpAeadRequestModel;

    open spec fn model(self) -> RewrapOtpAeadRequestModel {
        RewrapOtpAeadRequestModel {
            from_id: self.from_id,
            to_id: self.to_id,
            aead: self.aead@,
        }
    }

    open spec fn layout(input: Seq<u8>, at: int) -> core::result::Result<
        (RewrapOtpAeadRequestModel, int),
        DeviceError,
    > {
        if input.len() < at + 40 {
            Err(DeviceError::WrongLength)
        } else {
            Ok(
                (
                    RewrapOtpAeadRequestModel {
                        from_id: u16_at(input, at),
                        to_id: u16_at(input, at + 2),
                        aead: input.subrange(at + 4, at + 40),
                    },
                    at + 40,
                ),
            )
        }
    }

    fn decode(reader: &mut Reader<'a>) -> (value: Result<RewrapOtpAeadRequest<'a>>) {
        let from_id: u16 = reader.read_u16()?;
        let to_id: u16 = reader.read_u16()?;
        let aead = reader.read_array::<36>()?;
        Ok(RewrapOtpAeadRequest { from_id, to_id, aead })
    }
}

/// The payload of an attestation.
#[derive(Clone, Copy, Debug)]
pub struct SignAttestationCertificateRequest {
    pub target_id: u16,
    pub attesting_id: u16,
}

impl<'a> Decode<'a> for SignAttestationCertificateRequest {
    type Model = SignAttestationCertificateRequest;

    open spec fn model(self) -> SignAttestationCertificateRequest {
        self
    }

    open spec fn layout(input: Seq<u8>, at: int) -> core::result::Result<
        (SignAttestationCertificateRequest, int),
        DeviceError,
    > {
        if input.len() < at + 4 {
            Err(DeviceError::WrongLength)
        } else {
            Ok(
                (
                    SignAttestationCertificateRequest {
                        target_id: u16_at(input, at),
                        attesting_id: u16_at(input, at + 2),
                    },
                    at + 4,
                ),
            )
        }
    }

    fn decode(reader: &mut Reader<'a>) -> (value: Result<SignAttestationCertificateRequest>) {
        let target_id: u16 = reader.read_u16()?;
        let attesting_id: u16 = reader.read_u16()?;
        Ok(SignAttestationCertificateRequest { target_id, attesting_id })
    }
}

/// The payload that changes an Authentication Key.
#[derive(Clone, Copy, Debug)]
pub struct ChangeAuthenticationKeyRequest<'a> {
    pub id: u16,
    pub algorithm: u8,
    pub material: &'a [u8],
}

/// What a [`ChangeAuthenticationKeyRequest`] says.
#[verifier::ext_equal]
pub struct ChangeAuthenticationKeyRequestModel {
    pub id: u16,
    pub algorithm: u8,
    pub material: Seq<u8>,
}

impl<'a> Decode<'a> for ChangeAuthenticationKeyRequest<'a> {
    type Model = ChangeAuthenticationKeyRequestModel;

    open spec fn model(self) -> ChangeAuthenticationKeyRequestModel {
        ChangeAuthenticationKeyRequestModel {
            id: self.id,
            algorithm: self.algorithm,
            material: self.material@,
        }
    }

    open spec fn layout(input: Seq<u8>, at: int) -> core::result::Result<
        (ChangeAuthenticationKeyRequestModel, int),
        DeviceError,
    > {
        if input.len() < at + 3 {
            Err(DeviceError::WrongLength)
        } else {
            Ok(
                (
                    ChangeAuthenticationKeyRequestModel {
                        id: u16_at(input, at),
                        algorithm: input[at + 2],
                        material: input.subrange(at + 3, input.len() as int),
                    },
                    input.len() as int,
                ),
            )
        }
    }

    fn decode(reader: &mut Reader<'a>) -> (value: Result<ChangeAuthenticationKeyRequest<'a>>) {
        let id: u16 = reader.read_u16()?;
        let algorithm: u8 = reader.read_u8()?;
        let material = reader.read_remainder();
        Ok(ChangeAuthenticationKeyRequest { id, algorithm, material })
    }
}

/// The payload of an RSA-wrapped export.
#[derive(Clone, Copy, Debug)]
pub struct ExportRsaWrappedFields<'a> {
    pub wrap_id: u16,
    pub target_type: ObjectType,
    pub target_id: u16,
    pub aes_algorithm: u8,
    pub oaep_hash: u8,
    pub mgf_hash: u8,
    pub label_hash: &'a [u8],
}

/// What a [`ExportRsaWrappedFields`] says.
#[verifier::ext_equal]
pub struct ExportRsaWrappedFieldsModel {
    pub wrap_id: u16,
    pub target_type: ObjectType,
    pub target_id: u16,
    pub aes_algorithm: u8,
    pub oaep_hash: u8,
    pub mgf_hash: u8,
    pub label_hash: Seq<u8>,
}

impl<'a> Decode<'a> for ExportRsaWrappedFields<'a> {
    type Model = ExportRsaWrappedFieldsModel;

    open spec fn model(self) -> ExportRsaWrappedFieldsModel {
        ExportRsaWrappedFieldsModel {
            wrap_id: self.wrap_id,
            target_type: self.target_type,
            target_id: self.target_id,
            aes_algorithm: self.aes_algorithm,
            oaep_hash: self.oaep_hash,
            mgf_hash: self.mgf_hash,
            label_hash: self.label_hash@,
        }
    }

    open spec fn layout(input: Seq<u8>, at: int) -> core::result::Result<
        (ExportRsaWrappedFieldsModel, int),
        DeviceError,
    > {
        if input.len() < at + 3 {
            Err(DeviceError::WrongLength)
        } else if ObjectType::of_byte(input[at + 2]) is None {
            Err(DeviceError::InvalidData)
        } else if input.len() < at + 8 {
            Err(DeviceError::WrongLength)
        } else {
            Ok(
                (
                    ExportRsaWrappedFieldsModel {
                        wrap_id: u16_at(input, at),
                        target_type: ObjectType::of_byte(input[at + 2])->0,
                        target_id: u16_at(input, at + 3),
                        aes_algorithm: input[at + 5],
                        oaep_hash: input[at + 6],
                        mgf_hash: input[at + 7],
                        label_hash: input.subrange(at + 8, input.len() as int),
                    },
                    input.len() as int,
                ),
            )
        }
    }

    fn decode(reader: &mut Reader<'a>) -> (value: Result<ExportRsaWrappedFields<'a>>) {
        let wrap_id: u16 = reader.read_u16()?;
        let target_type = match ObjectType::from_byte(reader.read_u8()?) {
            Some(target_type) => target_type,
            None => return Err(DeviceError::InvalidData),
        };
        let target_id: u16 = reader.read_u16()?;
        let aes_algorithm: u8 = reader.read_u8()?;
        let oaep_hash: u8 = reader.read_u8()?;
        let mgf_hash: u8 = reader.read_u8()?;
        let label_hash = reader.read_remainder();
        Ok(
            ExportRsaWrappedFields {
                wrap_id,
                target_type,
                target_id,
                aes_algorithm,
                oaep_hash,
                mgf_hash,
                label_hash,
            },
        )
    }
}

/// The payload of an import of an RSA-wrapped object.
#[derive(Clone, Copy, Debug)]
pub struct ImportRsaWrappedRequest<'a> {
    pub wrap_id: u16,
    pub oaep_hash: u8,
    pub mgf_hash: u8,
    pub wrapped_and_label: &'a [u8],
}

/// What a [`ImportRsaWrappedRequest`] says.
#[verifier::ext_equal]
pub struct ImportRsaWrappedRequestModel {
    pub wrap_id: u16,
    pub oaep_hash: u8,
    pub mgf_hash: u8,
    pub wrapped_and_label: Seq<u8>,
}

impl<'a> Decode<'a> for ImportRsaWrappedRequest<'a> {
    type Model = ImportRsaWrappedRequestModel;

    open spec fn model(self) -> ImportRsaWrappedRequestModel {
        ImportRsaWrappedRequestModel {
            wrap_id: self.wrap_id,
            oaep_hash: self.oaep_hash,
            mgf_hash: self.mgf_hash,
            wrapped_and_label: self.wrapped_and_label@,
        }
    }

    open spec fn layout(input: Seq<u8>, at: int) -> core::result::Result<
        (ImportRsaWrappedRequestModel, int),
        DeviceError,
    > {
        if input.len() < at + 4 {
            Err(DeviceError::WrongLength)
        } else {
            Ok(
                (
                    ImportRsaWrappedRequestModel {
                        wrap_id: u16_at(input, at),
                        oaep_hash: input[at + 2],
                        mgf_hash: input[at + 3],
                        wrapped_and_label: input.subrange(at + 4, input.len() as int),
                    },
                    input.len() as int,
                ),
            )
        }
    }

    fn decode(reader: &mut Reader<'a>) -> (value: Result<ImportRsaWrappedRequest<'a>>) {
        let wrap_id: u16 = reader.read_u16()?;
        let oaep_hash: u8 = reader.read_u8()?;
        let mgf_hash: u8 = reader.read_u8()?;
        let wrapped_and_label = reader.read_remainder();
        Ok(ImportRsaWrappedRequest { wrap_id, oaep_hash, mgf_hash, wrapped_and_label })
    }
}

/// The payload of an import of RSA-wrapped key material.
#[derive(Clone, Copy, Debug)]
pub struct PutRsaWrappedKeyRequest<'a> {
    pub wrap_id: u16,
    pub object_type: ObjectType,
    pub requested_id: u16,
    pub label: &'a [u8],
    pub domains: u16,
    pub capabilities: CapabilitySet,
    pub algorithm: u8,
    pub oaep_hash: u8,
    pub mgf_hash: u8,
    pub wrapped_and_label: &'a [u8],
}

/// What a [`PutRsaWrappedKeyRequest`] says.
#[verifier::ext_equal]
pub struct PutRsaWrappedKeyRequestModel {
    pub wrap_id: u16,
    pub object_type: ObjectType,
    pub requested_id: u16,
    pub label: Seq<u8>,
    pub domains: u16,
    pub capabilities: CapabilitySet,
    pub algorithm: u8,
    pub oaep_hash: u8,
    pub mgf_hash: u8,
    pub wrapped_and_label: Seq<u8>,
}

impl<'a> Decode<'a> for PutRsaWrappedKeyRequest<'a> {
    type Model = PutRsaWrappedKeyRequestModel;

    open spec fn model(self) -> PutRsaWrappedKeyRequestModel {
        PutRsaWrappedKeyRequestModel {
            wrap_id: self.wrap_id,
            object_type: self.object_type,
            requested_id: self.requested_id,
            label: self.label@,
            domains: self.domains,
            capabilities: self.capabilities,
            algorithm: self.algorithm,
            oaep_hash: self.oaep_hash,
            mgf_hash: self.mgf_hash,
            wrapped_and_label: self.wrapped_and_label@,
        }
    }

    open spec fn layout(input: Seq<u8>, at: int) -> core::result::Result<
        (PutRsaWrappedKeyRequestModel, int),
        DeviceError,
    > {
        if input.len() < at + 3 {
            Err(DeviceError::WrongLength)
        } else if ObjectType::of_byte(input[at + 2]) is None {
            Err(DeviceError::InvalidData)
        } else if input.len() < at + 58 {
            Err(DeviceError::WrongLength)
        } else {
            Ok(
                (
                    PutRsaWrappedKeyRequestModel {
                        wrap_id: u16_at(input, at),
                        object_type: ObjectType::of_byte(input[at + 2])->0,
                        requested_id: u16_at(input, at + 3),
                        label: input.subrange(at + 5, at + 45),
                        domains: u16_at(input, at + 45),
                        capabilities: CapabilitySet::of_word(u64_at(input, at + 47)),
                        algorithm: input[at + 55],
                        oaep_hash: input[at + 56],
                        mgf_hash: input[at + 57],
                        wrapped_and_label: input.subrange(at + 58, input.len() as int),
                    },
                    input.len() as int,
                ),
            )
        }
    }

    fn decode(reader: &mut Reader<'a>) -> (value: Result<PutRsaWrappedKeyRequest<'a>>) {
        let wrap_id: u16 = reader.read_u16()?;
        let object_type = match ObjectType::from_byte(reader.read_u8()?) {
            Some(object_type) => object_type,
            None => return Err(DeviceError::InvalidData),
        };
        let requested_id: u16 = reader.read_u16()?;
        let label = reader.read_array::<40>()?;
        let domains: u16 = reader.read_u16()?;
        let capabilities = CapabilitySet::from_bits(reader.read_u64()?);
        let algorithm: u8 = reader.read_u8()?;
        let oaep_hash: u8 = reader.read_u8()?;
        let mgf_hash: u8 = reader.read_u8()?;
        let wrapped_and_label = reader.read_remainder();
        Ok(
            PutRsaWrappedKeyRequest {
                wrap_id,
                object_type,
                requested_id,
                label,
                domains,
                capabilities,
                algorithm,
                oaep_hash,
                mgf_hash,
                wrapped_and_label,
            },
        )
    }
}

/// What a derived session object is requested with.
#[derive(Clone, Copy, Debug)]
pub struct SessionResultHeader {
    pub flags: u8,
    pub kind: SessionObjectKind,
    pub output_length: u16,
}

impl<'a> Decode<'a> for SessionResultHeader {
    type Model = SessionResultHeader;

    open spec fn model(self) -> SessionResultHeader {
        self
    }

    open spec fn layout(input: Seq<u8>, at: int) -> core::result::Result<
        (SessionResultHeader, int),
        DeviceError,
    > {
        if input.len() < at + 2 {
            Err(DeviceError::WrongLength)
        } else if SessionObjectKind::of_byte(input[at + 1]) is None {
            Err(DeviceError::InvalidData)
        } else if input.len() < at + 4 {
            Err(DeviceError::WrongLength)
        } else {
            Ok(
                (
                    SessionResultHeader {
                        flags: input[at],
                        kind: SessionObjectKind::of_byte(input[at + 1])->0,
                        output_length: u16_at(input, at + 2),
                    },
                    at + 4,
                ),
            )
        }
    }

    fn decode(reader: &mut Reader<'a>) -> (value: Result<SessionResultHeader>) {
        let flags: u8 = reader.read_u8()?;
        let kind = match SessionObjectKind::from_byte(reader.read_u8()?) {
            Some(kind) => kind,
            None => return Err(DeviceError::InvalidData),
        };
        let output_length: u16 = reader.read_u16()?;
        Ok(SessionResultHeader { flags, kind, output_length })
    }
}

/// The payload that makes a session key pair.
#[derive(Clone, Copy, Debug)]
pub struct GenerateSessionAsymmetricKeyRequest {
    pub flags: u8,
    pub algorithm: u8,
}

impl<'a> Decode<'a> for GenerateSessionAsymmetricKeyRequest {
    type Model = GenerateSessionAsymmetricKeyRequest;

    open spec fn model(self) -> GenerateSessionAsymmetricKeyRequest {
        self
    }

    open spec fn layout(input: Seq<u8>, at: int) -> core::result::Result<
        (GenerateSessionAsymmetricKeyRequest, int),
        DeviceError,
    > {
        if input.len() < at + 2 {
            Err(DeviceError::WrongLength)
        } else {
            Ok(
                (
                    GenerateSessionAsymmetricKeyRequest {
                        flags: input[at],
                        algorithm: input[at + 1],
                    },
                    at + 2,
                ),
            )
        }
    }

    fn decode(reader: &mut Reader<'a>) -> (value: Result<GenerateSessionAsymmetricKeyRequest>) {
        let flags: u8 = reader.read_u8()?;
        let algorithm: u8 = reader.read_u8()?;
        Ok(GenerateSessionAsymmetricKeyRequest { flags, algorithm })
    }
}

impl ObjectKeyRequest {
    /// The object that the payload names.
    pub open spec fn target(self) -> ObjectKey {
        ObjectKey { object_type: self.object_type, id: self.id }
    }

    /// Returns the object that the payload names.
    pub fn key(self) -> (key: ObjectKey)
        ensures
            key == self.target(),
    {
        ObjectKey { object_type: self.object_type, id: self.id }
    }
}

/// A new object: its header and its material.
#[derive(Clone, Copy, Debug)]
pub struct ObjectRequest<'a> {
    pub header: ObjectHeader<'a>,
    pub material: &'a [u8],
}

/// The payload of `PutOpaque`.
pub type PutOpaqueRequest<'a> = ObjectRequest<'a>;

/// What an [`ObjectRequest`] says.
#[verifier::ext_equal]
pub struct ObjectRequestModel {
    pub header: ObjectHeaderModel,
    pub material: Seq<u8>,
}

impl<'a> Decode<'a> for ObjectRequest<'a> {
    type Model = ObjectRequestModel;

    open spec fn model(self) -> ObjectRequestModel {
        ObjectRequestModel { header: self.header.model(), material: self.material@ }
    }

    open spec fn layout(input: Seq<u8>, at: int) -> core::result::Result<
        (ObjectRequestModel, int),
        DeviceError,
    > {
        match ObjectHeader::layout(input, at) {
            Ok((header, end)) => Ok(
                (
                    ObjectRequestModel {
                        header,
                        material: input.subrange(end, input.len() as int),
                    },
                    input.len() as int,
                ),
            ),
            Err(error) => Err(error),
        }
    }

    fn decode(reader: &mut Reader<'a>) -> (value: Result<ObjectRequest<'a>>) {
        let header = ObjectHeader::decode(reader)?;
        let material = reader.read_remainder();
        Ok(ObjectRequest { header, material })
    }
}

/// A new object that delegates capabilities.
#[derive(Clone, Copy, Debug)]
pub struct DelegatedObjectRequest<'a> {
    pub header: ObjectHeader<'a>,
    pub delegated_capabilities: CapabilitySet,
    pub material: &'a [u8],
}

/// What a [`DelegatedObjectRequest`] says.
#[verifier::ext_equal]
pub struct DelegatedObjectRequestModel {
    pub header: ObjectHeaderModel,
    pub delegated_capabilities: CapabilitySet,
    pub material: Seq<u8>,
}

impl<'a> Decode<'a> for DelegatedObjectRequest<'a> {
    type Model = DelegatedObjectRequestModel;

    open spec fn model(self) -> DelegatedObjectRequestModel {
        DelegatedObjectRequestModel {
            header: self.header.model(),
            delegated_capabilities: self.delegated_capabilities,
            material: self.material@,
        }
    }

    open spec fn layout(input: Seq<u8>, at: int) -> core::result::Result<
        (DelegatedObjectRequestModel, int),
        DeviceError,
    > {
        match ObjectHeader::layout(input, at) {
            Ok((header, end)) => if input.len() < end + 8 {
                Err(DeviceError::WrongLength)
            } else {
                Ok(
                    (
                        DelegatedObjectRequestModel {
                            header,
                            delegated_capabilities: CapabilitySet::of_word(u64_at(input, end)),
                            material: input.subrange(end + 8, input.len() as int),
                        },
                        input.len() as int,
                    ),
                )
            },
            Err(error) => Err(error),
        }
    }

    fn decode(reader: &mut Reader<'a>) -> (value: Result<DelegatedObjectRequest<'a>>) {
        let header = ObjectHeader::decode(reader)?;
        let delegated_capabilities = CapabilitySet::from_bits(reader.read_u64()?);
        let material = reader.read_remainder();
        Ok(DelegatedObjectRequest { header, delegated_capabilities, material })
    }
}

/// A new OTP AEAD key.
#[derive(Clone, Copy, Debug)]
pub struct OtpAeadKeyRequest<'a> {
    pub header: ObjectHeader<'a>,
    pub nonce_id: &'a [u8],
    pub material: &'a [u8],
}

/// What an [`OtpAeadKeyRequest`] says.
#[verifier::ext_equal]
pub struct OtpAeadKeyRequestModel {
    pub header: ObjectHeaderModel,
    pub nonce_id: Seq<u8>,
    pub material: Seq<u8>,
}

impl<'a> Decode<'a> for OtpAeadKeyRequest<'a> {
    type Model = OtpAeadKeyRequestModel;

    open spec fn model(self) -> OtpAeadKeyRequestModel {
        OtpAeadKeyRequestModel {
            header: self.header.model(),
            nonce_id: self.nonce_id@,
            material: self.material@,
        }
    }

    open spec fn layout(input: Seq<u8>, at: int) -> core::result::Result<
        (OtpAeadKeyRequestModel, int),
        DeviceError,
    > {
        match ObjectHeader::layout(input, at) {
            Ok((header, end)) => if input.len() < end + 4 {
                Err(DeviceError::WrongLength)
            } else {
                Ok(
                    (
                        OtpAeadKeyRequestModel {
                            header,
                            nonce_id: input.subrange(end, end + 4),
                            material: input.subrange(end + 4, input.len() as int),
                        },
                        input.len() as int,
                    ),
                )
            },
            Err(error) => Err(error),
        }
    }

    fn decode(reader: &mut Reader<'a>) -> (value: Result<OtpAeadKeyRequest<'a>>) {
        let header = ObjectHeader::decode(reader)?;
        let nonce_id = reader.read_array::<4>()?;
        let material = reader.read_remainder();
        Ok(OtpAeadKeyRequest { header, nonce_id, material })
    }
}

/// What device information is asked for.
#[derive(Clone, Copy, Debug)]
pub struct GetDeviceInfoRequest {
    pub selector: Option<u8>,
}

impl<'a> Decode<'a> for GetDeviceInfoRequest {
    type Model = GetDeviceInfoRequest;

    open spec fn model(self) -> GetDeviceInfoRequest {
        self
    }

    open spec fn layout(input: Seq<u8>, at: int) -> core::result::Result<
        (GetDeviceInfoRequest, int),
        DeviceError,
    > {
        if input.len() == at {
            Ok((GetDeviceInfoRequest { selector: None }, at))
        } else if input.len() == at + 1 {
            Ok((GetDeviceInfoRequest { selector: Some(input[at]) }, at + 1))
        } else {
            Err(DeviceError::InvalidData)
        }
    }

    fn decode(reader: &mut Reader<'a>) -> (value: Result<GetDeviceInfoRequest>) {
        match reader.remaining_len() {
            0 => Ok(GetDeviceInfoRequest { selector: None }),
            1 => Ok(GetDeviceInfoRequest { selector: Some(reader.read_u8()?) }),
            _ => Err(DeviceError::InvalidData),
        }
    }
}

/// Which object's public key is asked for.
#[derive(Clone, Copy, Debug)]
pub struct GetPublicKeyRequest {
    pub id: u16,
    pub object_type: ObjectType,
}

impl<'a> Decode<'a> for GetPublicKeyRequest {
    type Model = GetPublicKeyRequest;

    open spec fn model(self) -> GetPublicKeyRequest {
        self
    }

    open spec fn layout(input: Seq<u8>, at: int) -> core::result::Result<
        (GetPublicKeyRequest, int),
        DeviceError,
    > {
        if input.len() < at + 2 || input.len() > at + 3 {
            Err(DeviceError::WrongLength)
        } else if input.len() == at + 2 {
            Ok(
                (
                    GetPublicKeyRequest {
                        id: u16_at(input, at),
                        object_type: ObjectType::AsymmetricKey,
                    },
                    at + 2,
                ),
            )
        } else if ObjectType::of_byte(input[at + 2]) is None {
            Err(DeviceError::InvalidData)
        } else {
            Ok(
                (
                    GetPublicKeyRequest {
                        id: u16_at(input, at),
                        object_type: ObjectType::of_byte(input[at + 2])->0,
                    },
                    at + 3,
                ),
            )
        }
    }

    fn decode(reader: &mut Reader<'a>) -> (value: Result<GetPublicKeyRequest>) {
        let id: u16 = reader.read_u16()?;
        match reader.remaining_len() {
            0 => Ok(GetPublicKeyRequest { id, object_type: ObjectType::AsymmetricKey }),
            1 => match ObjectType::from_byte(reader.read_u8()?) {
                Some(object_type) => Ok(GetPublicKeyRequest { id, object_type }),
                None => Err(DeviceError::InvalidData),
            },
            _ => Err(DeviceError::WrongLength),
        }
    }
}

/// New values of an option.
#[derive(Clone, Copy, Debug)]
pub struct SetOptionRequest<'a> {
    pub option: u8,
    pub values: &'a [u8],
}

/// What a [`SetOptionRequest`] says.
#[verifier::ext_equal]
pub struct SetOptionRequestModel {
    pub option: u8,
    pub values: Seq<u8>,
}

impl<'a> Decode<'a> for SetOptionRequest<'a> {
    type Model = SetOptionRequestModel;

    open spec fn model(self) -> SetOptionRequestModel {
        SetOptionRequestModel { option: self.option, values: self.values@ }
    }

    open spec fn layout(input: Seq<u8>, at: int) -> core::result::Result<
        (SetOptionRequestModel, int),
        DeviceError,
    > {
        if input.len() < at + 3 || input.len() < at + 3 + u16_at(input, at + 1) {
            Err(DeviceError::WrongLength)
        } else {
            let end = at + 3 + u16_at(input, at + 1);
            Ok(
                (
                    SetOptionRequestModel {
                        option: input[at],
                        values: input.subrange(at + 3, end),
                    },
                    end,
                ),
            )
        }
    }

    fn decode(reader: &mut Reader<'a>) -> (value: Result<SetOptionRequest<'a>>) {
        let option: u8 = reader.read_u8()?;
        let values = reader.read_u16_sized_slice()?;
        Ok(SetOptionRequest { option, values })
    }
}

/// The payload of the prefixed ECDH derivation.
#[derive(Clone, Copy, Debug)]
pub struct DeriveEcdhKdfRequest<'a> {
    pub id: u16,
    pub hash: u8,
    pub output_length: u16,
    pub peer_public: &'a [u8],
    pub prefix: &'a [u8],
    pub shared_info: &'a [u8],
}

/// What a [`DeriveEcdhKdfRequest`] says.
#[verifier::ext_equal]
pub struct DeriveEcdhKdfRequestModel {
    pub id: u16,
    pub hash: u8,
    pub output_length: u16,
    pub peer_public: Seq<u8>,
    pub prefix: Seq<u8>,
    pub shared_info: Seq<u8>,
}

impl<'a> Decode<'a> for DeriveEcdhKdfRequest<'a> {
    type Model = DeriveEcdhKdfRequestModel;

    open spec fn model(self) -> DeriveEcdhKdfRequestModel {
        DeriveEcdhKdfRequestModel {
            id: self.id,
            hash: self.hash,
            output_length: self.output_length,
            peer_public: self.peer_public@,
            prefix: self.prefix@,
            shared_info: self.shared_info@,
        }
    }

    open spec fn layout(input: Seq<u8>, at: int) -> core::result::Result<
        (DeriveEcdhKdfRequestModel, int),
        DeviceError,
    > {
        let peer_end = at + 11 + u16_at(input, at + 5);
        let prefix_end = peer_end + u16_at(input, at + 7);
        let info_end = prefix_end + u16_at(input, at + 9);
        if input.len() < at + 11 || input.len() < info_end {
            Err(DeviceError::WrongLength)
        } else {
            Ok(
                (
                    DeriveEcdhKdfRequestModel {
                        id: u16_at(input, at),
                        hash: input[at + 2],
                        output_length: u16_at(input, at + 3),
                        peer_public: input.subrange(at + 11, peer_end),
                        prefix: input.subrange(peer_end, prefix_end),
                        shared_info: input.subrange(prefix_end, info_end),
                    },
                    info_end,
                ),
            )
        }
    }

    fn decode(reader: &mut Reader<'a>) -> (value: Result<DeriveEcdhKdfRequest<'a>>) {
        let id: u16 = reader.read_u16()?;
        let hash: u8 = reader.read_u8()?;
        let output_length: u16 = reader.read_u16()?;
        let peer_length: usize = reader.read_u16()? as usize;
        let prefix_length: usize = reader.read_u16()? as usize;
        let info_length: usize = reader.read_u16()? as usize;
        let peer_public = reader.read_slice(peer_length)?;
        let prefix = reader.read_slice(prefix_length)?;
        let shared_info = reader.read_slice(info_length)?;
        Ok(DeriveEcdhKdfRequest { id, hash, output_length, peer_public, prefix, shared_info })
    }
}

/// The payload of an export of a wrapped object.
#[derive(Clone, Copy, Debug)]
pub struct ExportWrappedRequest {
    pub wrap_id: u16,
    pub target: ObjectKey,
    pub format: Option<u8>,
}

impl<'a> Decode<'a> for ExportWrappedRequest {
    type Model = ExportWrappedRequest;

    open spec fn model(self) -> ExportWrappedRequest {
        self
    }

    open spec fn layout(input: Seq<u8>, at: int) -> core::result::Result<
        (ExportWrappedRequest, int),
        DeviceError,
    > {
        if input.len() < at + 3 {
            Err(DeviceError::WrongLength)
        } else if ObjectType::of_byte(input[at + 2]) is None {
            Err(DeviceError::InvalidData)
        } else if input.len() < at + 5 || input.len() > at + 6 {
            Err(DeviceError::WrongLength)
        } else {
            Ok(
                (
                    ExportWrappedRequest {
                        wrap_id: u16_at(input, at),
                        target: ObjectKey {
                            object_type: ObjectType::of_byte(input[at + 2])->0,
                            id: u16_at(input, at + 3),
                        },
                        format: if input.len() == at + 5 {
                            None
                        } else {
                            Some(input[at + 5])
                        },
                    },
                    input.len() as int,
                ),
            )
        }
    }

    fn decode(reader: &mut Reader<'a>) -> (value: Result<ExportWrappedRequest>) {
        let wrap_id: u16 = reader.read_u16()?;
        let object_type = match ObjectType::from_byte(reader.read_u8()?) {
            Some(object_type) => object_type,
            None => return Err(DeviceError::InvalidData),
        };
        let id: u16 = reader.read_u16()?;
        let format: Option<u8> = match reader.remaining_len() {
            0 => None,
            1 => Some(reader.read_u8()?),
            _ => return Err(DeviceError::WrongLength),
        };
        Ok(ExportWrappedRequest { wrap_id, target: ObjectKey { object_type, id }, format })
    }
}

/// Which objects are to be listed.
#[derive(Clone, Debug)]
pub struct ObjectFilters {
    pub id: Option<u16>,
    pub object_type: Option<ObjectType>,
    pub domains: Option<u16>,
    pub capabilities: Option<CapabilitySet>,
    pub algorithm: Option<u8>,
    pub label: Option<Vec<u8>>,
}

/// What filters say.
#[verifier::ext_equal]
pub struct ObjectFiltersModel {
    pub id: Option<u16>,
    pub object_type: Option<ObjectType>,
    pub domains: Option<u16>,
    pub capabilities: Option<CapabilitySet>,
    pub algorithm: Option<u8>,
    pub label: Option<Seq<u8>>,
}

impl ObjectFiltersModel {
    /// No filter.
    pub open spec fn none() -> ObjectFiltersModel {
        ObjectFiltersModel {
            id: None,
            object_type: None,
            domains: None,
            capabilities: None,
            algorithm: None,
            label: None,
        }
    }

    /// Whether an object passes every filter that is there: its number, type,
    /// algorithm and label are those asked for, it is in one of the domains and
    /// has all of the capabilities.
    pub open spec fn pass(self, object: InfoModel) -> bool {
        &&& self.id is Some ==> object.id == self.id->0
        &&& self.object_type is Some ==> object.object_type == self.object_type->0
        &&& self.domains is Some ==> object.domains & self.domains->0 != 0
        &&& self.capabilities is Some ==> object.capabilities.covers(self.capabilities->0)
        &&& self.algorithm is Some ==> object.algorithm == self.algorithm->0
        &&& self.label is Some ==> object.label == self.label->0
    }

    /// Reads filters up to the end of the input; a later one replaces an
    /// earlier one of its kind.
    pub open spec fn read(self, input: Seq<u8>, at: int) -> core::result::Result<
        (ObjectFiltersModel, int),
        DeviceError,
    >
        decreases input.len() - at,
    {
        if at >= input.len() {
            Ok((self, at))
        } else {
            match input[at] {
                1 => if input.len() < at + 3 {
                    Err(DeviceError::WrongLength)
                } else {
                    ObjectFiltersModel { id: Some(u16_at(input, at + 1)), ..self }.read(
                        input,
                        at + 3,
                    )
                },
                2 => if input.len() < at + 2 {
                    Err(DeviceError::WrongLength)
                } else if ObjectType::of_byte(input[at + 1]) is None {
                    Err(DeviceError::InvalidData)
                } else {
                    ObjectFiltersModel {
                        object_type: ObjectType::of_byte(input[at + 1]),
                        ..self
                    }.read(input, at + 2)
                },
                3 => if input.len() < at + 3 {
                    Err(DeviceError::WrongLength)
                } else {
                    ObjectFiltersModel { domains: Some(u16_at(input, at + 1)), ..self }.read(
                        input,
                        at + 3,
                    )
                },
                4 => if input.len() < at + 9 {
                    Err(DeviceError::WrongLength)
                } else {
                    ObjectFiltersModel {
                        capabilities: Some(CapabilitySet::of_word(u64_at(input, at + 1))),
                        ..self
                    }.read(input, at + 9)
                },
                5 => if input.len() < at + 2 {
                    Err(DeviceError::WrongLength)
                } else {
                    ObjectFiltersModel { algorithm: Some(input[at + 1]), ..self }.read(
                        input,
                        at + 2,
                    )
                },
                6 => if input.len() < at + 41 {
                    Err(DeviceError::WrongLength)
                } else {
                    ObjectFiltersModel {
                        label: Some(before_zero(input.subrange(at + 1, at + 41))),
                        ..self
                    }.read(input, at + 41)
                },
                _ => Err(DeviceError::InvalidData),
            }
        }
    }
}

impl<'a> Decode<'a> for ObjectFilters {
    type Model = ObjectFiltersModel;

    open spec fn model(self) -> ObjectFiltersModel {
        ObjectFiltersModel {
            id: self.id,
            object_type: self.object_type,
            domains: self.domains,
            capabilities: self.capabilities,
            algorithm: self.algorithm,
            label: match self.label {
                Some(label) => Some(label@),
                None => None,
            },
        }
    }

    open spec fn layout(input: Seq<u8>, at: int) -> core::result::Result<
        (ObjectFiltersModel, int),
        DeviceError,
    > {
        ObjectFiltersModel::none().read(input, at)
    }

    fn decode(reader: &mut Reader<'a>) -> (value: Result<ObjectFilters>) {
        let mut filters = ObjectFilters {
            id: None,
            object_type: None,
            domains: None,
            capabilities: None,
            algorithm: None,
            label: None,
        };
        let ghost input = reader.encoded@;
        let ghost whole = ObjectFiltersModel::none().read(input, reader.position as int);
        while reader.remaining_len() != 0
            invariant
                reader.valid(),
                reader.encoded == old(reader).encoded,
                input == reader.encoded@,
                whole == ObjectFiltersModel::none().read(input, old(reader).position as int),
                whole == filters.model().read(input, reader.position as int),
            decreases reader.encoded@.len() - reader.position,
        {
            match reader.read_u8()? {
                1 => {
                    filters.id = Some(reader.read_u16()?);
                },
                2 => match ObjectType::from_byte(reader.read_u8()?) {
                    Some(object_type) => {
                        filters.object_type = Some(object_type);
                    },
                    None => {
                        return Err(DeviceError::InvalidData);
                    },
                },
                3 => {
                    filters.domains = Some(reader.read_u16()?);
                },
                4 => {
                    filters.capabilities = Some(CapabilitySet::from_bits(reader.read_u64()?));
                },
                5 => {
                    filters.algorithm = Some(reader.read_u8()?);
                },
                6 => {
                    filters.label = Some(trim_label(reader.read_array::<40>()?));
                },
                _ => {
                    return Err(DeviceError::InvalidData);
                },
            }
        }
        Ok(filters)
    }
}

impl ObjectFilters {
    /// Tells whether an object passes every filter that is there.
    pub fn matches(&self, object: &ObjectInfo) -> (matches: bool)
        ensures
            matches == self.model().pass(object@),
    {
        let label = match &self.label {
            Some(label) => equal(&object.label, label),
            None => true,
        };
        (match self.id {
            Some(id) => object.id == id,
            None => true,
        }) && (match self.object_type {
            Some(object_type) => object.object_type == object_type,
            None => true,
        }) && (match self.domains {
            Some(domains) => object.domains & domains != 0,
            None => true,
        }) && (match self.capabilities {
            Some(capabilities) => object.capabilities.contains_all(capabilities),
            None => true,
        }) && (match self.algorithm {
            Some(algorithm) => object.algorithm == algorithm,
            None => true,
        }) && label
    }
}

/// Where a derivation takes its key from.
#[derive(Clone, Copy, Debug, PartialEq, Eq, Structural)]
pub enum SessionSourceRequest {
    Volatile(u64),
    PersistentAsymmetric(u16),
    PersistentSymmetric(u16),
}

impl<'a> Decode<'a> for SessionSourceRequest {
    type Model = SessionSourceRequest;

    open spec fn model(self) -> SessionSourceRequest {
        self
    }

    open spec fn layout(input: Seq<u8>, at: int) -> core::result::Result<
        (SessionSourceRequest, int),
        DeviceError,
    > {
        if input.len() < at + 1 {
            Err(DeviceError::WrongLength)
        } else {
            match input[at] {
                0 => if input.len() < at + 9 {
                    Err(DeviceError::WrongLength)
                } else {
                    Ok((SessionSourceRequest::Volatile(u64_at(input, at + 1)), at + 9))
                },
                1 => if input.len() < at + 3 {
                    Err(DeviceError::WrongLength)
                } else {
                    Ok((SessionSourceRequest::PersistentAsymmetric(u16_at(input, at + 1)), at + 3))
                },
                2 => if input.len() < at + 3 {
                    Err(DeviceError::WrongLength)
                } else {
                    Ok((SessionSourceRequest::PersistentSymmetric(u16_at(input, at + 1)), at + 3))
                },
                _ => Err(DeviceError::InvalidData),
            }
        }
    }

    fn decode(reader: &mut Reader<'a>) -> (value: Result<SessionSourceRequest>) {
        match reader.read_u8()? {
            0 => Ok(SessionSourceRequest::Volatile(reader.read_u64()?)),
            1 => Ok(SessionSourceRequest::PersistentAsymmetric(reader.read_u16()?)),
            2 => Ok(SessionSourceRequest::PersistentSymmetric(reader.read_u16()?)),
            _ => Err(DeviceError::InvalidData),
        }
    }
}

/// An ECDH derivation into a session object.
#[derive(Clone, Copy, Debug)]
pub struct DeriveSessionEcdhRequest<'a> {
    pub header: SessionResultHeader,
    pub source: SessionSourceRequest,
    pub peer_public: &'a [u8],
}

/// What a [`DeriveSessionEcdhRequest`] says.
#[verifier::ext_equal]
pub struct DeriveSessionEcdhRequestModel {
    pub header: SessionResultHeader,
    pub source: SessionSourceRequest,
    pub peer_public: Seq<u8>,
}

impl<'a> Decode<'a> for DeriveSessionEcdhRequest<'a> {
    type Model = DeriveSessionEcdhRequestModel;

    open spec fn model(self) -> DeriveSessionEcdhRequestModel {
        DeriveSessionEcdhRequestModel {
            header: self.header,
            source: self.source,
            peer_public: self.peer_public@,
        }
    }

    open spec fn layout(input: Seq<u8>, at: int) -> core::result::Result<
        (DeriveSessionEcdhRequestModel, int),
        DeviceError,
    > {
        match SessionResultHeader::layout(input, at) {
            Err(error) => Err(error),
            Ok((header, source_at)) => match SessionSourceRequest::layout(input, source_at) {
                Err(error) => Err(error),
                Ok((source, peer_at)) => {
                    let end = peer_at + 2 + u16_at(input, peer_at);
                    if input.len() < peer_at + 2 || input.len() < end {
                        Err(DeviceError::WrongLength)
                    } else {
                        Ok(
                            (
                                DeriveSessionEcdhRequestModel {
                                    header,
                                    source,
                                    peer_public: input.subrange(peer_at + 2, end),
                                },
                                end,
                            ),
                        )
                    }
                },
            },
        }
    }

    fn decode(reader: &mut Reader<'a>) -> (value: Result<DeriveSessionEcdhRequest<'a>>) {
        let header = SessionResultHeader::decode(reader)?;
        let source = SessionSourceRequest::decode(reader)?;
        let peer_public = reader.read_u16_sized_slice()?;
        Ok(DeriveSessionEcdhRequest { header, source, peer_public })
    }
}

/// A concatenation of two session objects.
#[derive(Clone, Copy, Debug)]
pub struct ConcatenateSessionKeysRequest {
    pub header: SessionResultHeader,
    pub left: u64,
    pub right: u64,
}

impl<'a> Decode<'a> for ConcatenateSessionKeysRequest {
    type Model = ConcatenateSessionKeysRequest;

    open spec fn model(self) -> ConcatenateSessionKeysRequest {
        self
    }

    open spec fn layout(input: Seq<u8>, at: int) -> core::result::Result<
        (ConcatenateSessionKeysRequest, int),
        DeviceError,
    > {
        match SessionResultHeader::layout(input, at) {
            Err(error) => Err(error),
            Ok((header, next)) => if input.len() < next + 16 {
                Err(DeviceError::WrongLength)
            } else {
                Ok(
                    (
                        ConcatenateSessionKeysRequest {
                            header,
                            left: u64_at(input, next),
                            right: u64_at(input, next + 8),
                        },
                        next + 16,
                    ),
                )
            },
        }
    }

    fn decode(reader: &mut Reader<'a>) -> (value: Result<ConcatenateSessionKeysRequest>) {
        let header = SessionResultHeader::decode(reader)?;
        let left: u64 = reader.read_u64()?;
        let right: u64 = reader.read_u64()?;
        Ok(ConcatenateSessionKeysRequest { header, left, right })
    }
}

/// A concatenation of a session object and data.
#[derive(Clone, Copy, Debug)]
pub struct ConcatenateSessionDataRequest<'a> {
    pub header: SessionResultHeader,
    pub base: u64,
    pub data: &'a [u8],
}

/// What a [`ConcatenateSessionDataRequest`] says.
#[verifier::ext_equal]
pub struct ConcatenateSessionDataRequestModel {
    pub header: SessionResultHeader,
    pub base: u64,
    pub data: Seq<u8>,
}

impl<'a> Decode<'a> for ConcatenateSessionDataRequest<'a> {
    type Model = ConcatenateSessionDataRequestModel;

    open spec fn model(self) -> ConcatenateSessionDataRequestModel {
        ConcatenateSessionDataRequestModel {
            header: self.header,
            base: self.base,
            data: self.data@,
        }
    }

    open spec fn layout(input: Seq<u8>, at: int) -> core::result::Result<
        (ConcatenateSessionDataRequestModel, int),
        DeviceError,
    > {
        match SessionResultHeader::layout(input, at) {
            Err(error) => Err(error),
            Ok((header, next)) => if input.len() < next + 8 {
                Err(DeviceError::WrongLength)
            } else {
                Ok(
                    (
                        ConcatenateSessionDataRequestModel {
                            header,
                            base: u64_at(input, next),
                            data: input.subrange(next + 8, input.len() as int),
                        },
                        input.len() as int,
                    ),
                )
            },
        }
    }

    fn decode(reader: &mut Reader<'a>) -> (value: Result<ConcatenateSessionDataRequest<'a>>) {
        let header = SessionResultHeader::decode(reader)?;
        let base: u64 = reader.read_u64()?;
        let data = reader.read_remainder();
        Ok(ConcatenateSessionDataRequest { header, base, data })
    }
}

/// An extraction of bits from a session object.
#[derive(Clone, Copy, Debug)]
pub struct ExtractSessionObjectRequest {
    pub header: SessionResultHeader,
    pub base: u64,
    pub offset: u16,
}

impl<'a> Decode<'a> for ExtractSessionObjectRequest {
    type Model = ExtractSessionObjectRequest;

    open spec fn model(self) -> ExtractSessionObjectRequest {
        self
    }

    open spec fn layout(input: Seq<u8>, at: int) -> core::result::Result<
        (ExtractSessionObjectRequest, int),
        DeviceError,
    > {
        match SessionResultHeader::layout(input, at) {
            Err(error) => Err(error),
            Ok((header, next)) => if input.len() < next + 10 {
                Err(DeviceError::WrongLength)
            } else {
                Ok(
                    (
                        ExtractSessionObjectRequest {
                            header,
                            base: u64_at(input, next),
                            offset: u16_at(input, next + 8),
                        },
                        next + 10,
                    ),
                )
            },
        }
    }

    fn decode(reader: &mut Reader<'a>) -> (value: Result<ExtractSessionObjectRequest>) {
        let header = SessionResultHeader::decode(reader)?;
        let base: u64 = reader.read_u64()?;
        let offset: u16 = reader.read_u16()?;
        Ok(ExtractSessionObjectRequest { header, base, offset })
    }
}

/// A digest of a session object.
#[derive(Clone, Copy, Debug)]
pub struct Sha256SessionObjectRequest {
    pub header: SessionResultHeader,
    pub base: u64,
}

impl<'a> Decode<'a> for Sha256SessionObjectRequest {
    type Model = Sha256SessionObjectRequest;

    open spec fn model(self) -> Sha256SessionObjectRequest {
        self
    }

    open spec fn layout(input: Seq<u8>, at: int) -> core::result::Result<
        (Sha256SessionObjectRequest, int),
        DeviceError,
    > {
        match SessionResultHeader::layout(input, at) {
            Err(error) => Err(error),
            Ok((header, next)) => if input.len() < next + 8 {
                Err(DeviceError::WrongLength)
            } else {
                Ok((Sha256SessionObjectRequest { header, base: u64_at(input, next) }, next + 8))
            },
        }
    }

    fn decode(reader: &mut Reader<'a>) -> (value: Result<Sha256SessionObjectRequest>) {
        let header = SessionResultHeader::decode(reader)?;
        let base: u64 = reader.read_u64()?;
        Ok(Sha256SessionObjectRequest { header, base })
    }
}

/// A verification of a CMAC under a session object.
#[derive(Clone, Copy, Debug)]
pub struct VerifySessionCmacRequest<'a> {
    pub handle: u64,
    pub signature: &'a [u8],
    pub message: &'a [u8],
}

/// What a [`VerifySessionCmacRequest`] says.
#[verifier::ext_equal]
pub struct VerifySessionCmacRequestModel {
    pub handle: u64,
    pub signature: Seq<u8>,
    pub message: Seq<u8>,
}

impl<'a> Decode<'a> for VerifySessionCmacRequest<'a> {
    type Model = VerifySessionCmacRequestModel;

    open spec fn model(self) -> VerifySessionCmacRequestModel {
        VerifySessionCmacRequestModel {
            handle: self.handle,
            signature: self.signature@,
            message: self.message@,
        }
    }

    open spec fn layout(input: Seq<u8>, at: int) -> core::result::Result<
        (VerifySessionCmacRequestModel, int),
        DeviceError,
    > {
        let end = at + 9 + input[at + 8];
        if input.len() < at + 9 || input.len() < end {
            Err(DeviceError::WrongLength)
        } else {
            Ok(
                (
                    VerifySessionCmacRequestModel {
                        handle: u64_at(input, at),
                        signature: input.subrange(at + 9, end),
                        message: input.subrange(end, input.len() as int),
                    },
                    input.len() as int,
                ),
            )
        }
    }

    fn decode(reader: &mut Reader<'a>) -> (value: Result<VerifySessionCmacRequest<'a>>) {
        let handle: u64 = reader.read_u64()?;
        let signature = reader.read_u8_sized_slice()?;
        let message = reader.read_remainder();
        Ok(VerifySessionCmacRequest { handle, signature, message })
    }
}

/// One derivation field and where it ends.
pub open spec fn field_layout(input: Seq<u8>, at: int) -> core::result::Result<
    (FieldModel, int),
    DeviceError,
> {
    if input.len() < at + 1 {
        Err(DeviceError::WrongLength)
    } else if input[at] == 0 {
        let end = at + 3 + u16_at(input, at + 1);
        if input.len() < at + 3 || input.len() < end || end == at + 3 {
            Err(DeviceError::WrongLength)
        } else {
            Ok((FieldModel::Bytes(input.subrange(at + 3, end)), end))
        }
    } else if input[at] > 2 {
        Err(DeviceError::InvalidData)
    } else if input.len() < at + 3 {
        Err(DeviceError::WrongLength)
    } else if input[at + 2] > 1 {
        Err(DeviceError::InvalidData)
    } else {
        let format = IntegerFormat {
            width_bits: input[at + 1],
            little_endian: input[at + 2] == 1,
        };
        if input[at] == 1 {
            Ok((FieldModel::Counter(format), at + 3))
        } else if input.len() < at + 4 {
            Err(DeviceError::WrongLength)
        } else if input[at + 3] > 1 {
            Err(DeviceError::InvalidData)
        } else {
            let method = if input[at + 3] == 0 {
                LengthMethod::Key
            } else {
                LengthMethod::Segments
            };
            Ok((FieldModel::Length(format, method), at + 4))
        }
    }
}

/// So many derivation fields, after others, and where they end.
pub open spec fn fields_layout(
    before: Seq<FieldModel>,
    input: Seq<u8>,
    at: int,
    count: nat,
) -> core::result::Result<(Seq<FieldModel>, int), DeviceError>
    decreases count,
{
    if count == 0 {
        Ok((before, at))
    } else {
        match field_layout(input, at) {
            Err(error) => Err(error),
            Ok((field, next)) => fields_layout(
                before.push(field),
                input,
                next,
                (count - 1) as nat,
            ),
        }
    }
}

/// Reads one derivation field.
fn read_field<'a>(reader: &mut Reader<'a>) -> (field: Result<CounterKdfField>)
    requires
        old(reader).valid(),
    ensures
        final(reader).valid(),
        final(reader).encoded == old(reader).encoded,
        match field {
            Ok(field) => field_layout(old(reader).encoded@, old(reader).position as int) == Ok::<
                (FieldModel, int),
                DeviceError,
            >((field@, final(reader).position as int)),
            Err(error) => field_layout(old(reader).encoded@, old(reader).position as int) == Err::<
                (FieldModel, int),
                DeviceError,
            >(error),
        },
{
    let kind: u8 = reader.read_u8()?;
    if kind == 0 {
        let value = reader.read_u16_sized_slice()?;
        if value.len() == 0 {
            return Err(DeviceError::WrongLength);
        }
        return Ok(CounterKdfField::Bytes(crate::bytes::copied(value)));
    }
    if kind > 2 {
        return Err(DeviceError::InvalidData);
    }
    let width_bits: u8 = reader.read_u8()?;
    let order: u8 = reader.read_u8()?;
    if order > 1 {
        return Err(DeviceError::InvalidData);
    }
    let format = IntegerFormat { width_bits, little_endian: order == 1 };
    if kind == 1 {
        return Ok(CounterKdfField::Counter(format));
    }
    match reader.read_u8()? {
        0 => Ok(CounterKdfField::Length(format, LengthMethod::Key)),
        1 => Ok(CounterKdfField::Length(format, LengthMethod::Segments)),
        _ => Err(DeviceError::InvalidData),
    }
}

/// A counter-mode derivation into a session object.
#[derive(Clone, Debug)]
pub struct CounterKdfSessionObjectRequest {
    pub header: SessionResultHeader,
    pub source: SessionSourceRequest,
    pub fields: Vec<CounterKdfField>,
}

/// What a [`CounterKdfSessionObjectRequest`] says.
#[verifier::ext_equal]
pub struct CounterKdfSessionObjectRequestModel {
    pub header: SessionResultHeader,
    pub source: SessionSourceRequest,
    pub fields: Seq<FieldModel>,
}

impl<'a> Decode<'a> for CounterKdfSessionObjectRequest {
    type Model = CounterKdfSessionObjectRequestModel;

    open spec fn model(self) -> CounterKdfSessionObjectRequestModel {
        CounterKdfSessionObjectRequestModel {
            header: self.header,
            source: self.source,
            fields: fields_model(self.fields@),
        }
    }

    open spec fn layout(input: Seq<u8>, at: int) -> core::result::Result<
        (CounterKdfSessionObjectRequestModel, int),
        DeviceError,
    > {
        match SessionResultHeader::layout(input, at) {
            Err(error) => Err(error),
            Ok((header, source_at)) => match SessionSourceRequest::layout(input, source_at) {
                Err(error) => Err(error),
                Ok((source, count_at)) => if input.len() < count_at + 1 {
                    Err(DeviceError::WrongLength)
                } else if input[count_at] == 0 || input[count_at] > 64 {
                    Err(DeviceError::InvalidData)
                } else {
                    match fields_layout(
                        Seq::empty(),
                        input,
                        count_at + 1,
                        input[count_at] as nat,
                    ) {
                        Err(error) => Err(error),
                        Ok((fields, end)) => Ok(
                            (CounterKdfSessionObjectRequestModel { header, source, fields }, end),
                        ),
                    }
                },
            },
        }
    }

    fn decode(reader: &mut Reader<'a>) -> (value: Result<CounterKdfSessionObjectRequest>) {
        let header = SessionResultHeader::decode(reader)?;
        let source = SessionSourceRequest::decode(reader)?;
        let count: u8 = reader.read_u8()?;
        if count == 0 || count > 64 {
            return Err(DeviceError::InvalidData);
        }
        let mut fields: Vec<CounterKdfField> = Vec::new();
        let ghost input = reader.encoded@;
        let ghost start = reader.position as int;
        let ghost whole = fields_layout(Seq::empty(), input, start, count as nat);
        assert(fields_model(fields@) =~= Seq::<FieldModel>::empty());
        let mut index: u8 = 0;
        while index < count
            invariant
                index <= count,
                reader.valid(),
                reader.encoded == old(reader).encoded,
                input == reader.encoded@,
                whole == fields_layout(
                    fields_model(fields@),
                    input,
                    reader.position as int,
                    (count - index) as nat,
                ),
                whole is Err ==> CounterKdfSessionObjectRequest::layout(
                    old(reader).encoded@,
                    old(reader).position as int,
                ) == Err::<(CounterKdfSessionObjectRequestModel, int), DeviceError>(whole->Err_0),
            decreases count - index,
        {
            let ghost done = fields_model(fields@);
            let field = read_field(reader)?;
            fields.push(field);
            assert(fields_model(fields@) =~= done.push(field@));
            index = index + 1;
        }
        Ok(CounterKdfSessionObjectRequest { header, source, fields })
    }
}

} // verus!
