//! The key engine: what the device asks of it, and what it answers.
//!
//! The device computes no cryptography. A command runs over the answers that
//! are there already, in the order of its questions, and stops at the first
//! question without an answer. The owner of the device has the question
//! answered and runs the command again; nothing changes before the last answer
//! is there.
use crate::authorization::SessionAuthorization;
use crate::bytes::copied;
use crate::error::DeviceError;
use crate::frame::{Frame, FrameModel};
use crate::keys::{
    EcCurve, HashAlgorithm, KeyKind, SigningKey, SigningKeyModel, X25519Key, X25519KeyModel,
};
use vstd::prelude::*;
use vstd::string::*;

verus! {

/// What the key engine is asked to compute. The comments name the parts of a
/// [`Computation`] that an operation reads.
#[derive(Clone, Copy, Debug, PartialEq, Eq, Structural)]
pub enum Operation {
    /// Digest of `data`.
    Digest(HashAlgorithm),
    /// HMAC of `data` under `key`.
    Hmac(HashAlgorithm),
    /// AES-CMAC of `data` under `key`.
    Cmac,
    /// SCP03 session key: `key`, the derivation constant, and `data` as context.
    Scp03Key(u8),
    /// SCP03 cryptogram: `key`, the derivation constant, and `data` as context.
    Scp03Cryptogram(u8),
    /// X9.63 derivation of so many bytes from `key`, with `parameter` as shared
    /// information.
    X963Kdf(HashAlgorithm, usize),
    /// CMAC counter-mode derivation of so many bytes from `key` over `fields`.
    CounterKdf(usize),
    /// AES encryption of one block of `data` under `key`.
    EncryptBlock,
    /// AES-CBC under `key` with `parameter` as initialization vector.
    EncryptCbc,
    DecryptCbc,
    /// AES-ECB under `key`.
    EncryptEcb,
    DecryptEcb,
    /// AES-CCM under `key` with `parameter` as nonce.
    EncryptCcm,
    DecryptCcm,
    /// Yubico OTP AEAD under `key` with `parameter` as nonce.
    EncryptOtpAead,
    DecryptOtpAead,
    /// AES key wrap with padding under `key`.
    WrapKwp,
    UnwrapKwp,
    /// A new signing key.
    GenerateKey(KeyKind),
    /// The signing key whose serialization is `data`; for RSA the two primes.
    ImportKey(KeyKind),
    /// The signing key whose PKCS #8 encoding is `data`; RSA keys with another
    /// public exponent than 65537 are refused.
    ImportPkcs8(KeyKind),
    /// The PKCS #8 encoding of the signing key in `key` and `second`.
    ExportPkcs8(KeyKind),
    /// A new X25519 key.
    GenerateX25519,
    /// The X25519 key whose serialization is `data`.
    ImportX25519,
    /// Whether `data` is an uncompressed point of a curve.
    ValidatePoint(EcCurve),
    /// RSA PKCS #1 v1.5 signature over the digest in `data`.
    SignPkcs1Digest(HashAlgorithm),
    /// RSA PKCS #1 v1.5 signature over the encoded payload in `data`.
    SignPkcs1Payload,
    /// RSA-PSS signature over the digest in `data`: its hash function, that of
    /// the mask and the salt length.
    SignPss(HashAlgorithm, HashAlgorithm, usize),
    /// DER-encoded ECDSA signature over the digest in `data`.
    SignEcdsa(EcCurve),
    /// Ed25519 signature over the message in `data`.
    SignEd25519,
    /// ECDH of the signing key in `key` with the public key in `data`.
    Agree(KeyKind),
    /// X25519 of `key` with the public key in `data`.
    AgreeX25519,
    /// RSA PKCS #1 v1.5 decryption of `data`.
    DecryptPkcs1,
    /// RSA-OAEP decryption of `data`; `parameter` is the label's digest.
    DecryptOaep(HashAlgorithm),
    /// RSA PKCS #1 v1.5 encryption of `data` for the modulus in `key`.
    EncryptPkcs1,
    /// RSA-OAEP encryption of `data` for the modulus in `key`; `parameter` is
    /// the label's digest.
    EncryptOaep(HashAlgorithm),
}

/// How a number is written into the input of a derivation.
#[derive(Clone, Copy, Debug, PartialEq, Eq, Structural)]
pub struct IntegerFormat {
    pub width_bits: u8,
    pub little_endian: bool,
}

/// What the length field of a derivation counts.
#[derive(Clone, Copy, Debug, PartialEq, Eq, Structural)]
pub enum LengthMethod {
    Key,
    Segments,
}

/// One field of the input of a counter-mode derivation.
#[derive(Clone, Debug, PartialEq, Eq)]
pub enum CounterKdfField {
    Bytes(Vec<u8>),
    Counter(IntegerFormat),
    Length(IntegerFormat, LengthMethod),
}

/// What a derivation field says.
#[verifier::ext_equal]
pub enum FieldModel {
    Bytes(Seq<u8>),
    Counter(IntegerFormat),
    Length(IntegerFormat, LengthMethod),
}

impl View for CounterKdfField {
    type V = FieldModel;

    open spec fn view(&self) -> FieldModel {
        match *self {
            CounterKdfField::Bytes(bytes) => FieldModel::Bytes(bytes@),
            CounterKdfField::Counter(format) => FieldModel::Counter(format),
            CounterKdfField::Length(format, method) => FieldModel::Length(format, method),
        }
    }
}

/// What derivation fields say.
pub open spec fn fields_model(fields: Seq<CounterKdfField>) -> Seq<FieldModel> {
    Seq::new(fields.len(), |i: int| fields[i]@)
}

/// A question to the key engine: an operation and its inputs.
#[derive(Clone, Debug, PartialEq, Eq)]
pub struct Computation {
    pub operation: Operation,
    pub key: Vec<u8>,
    pub second: Vec<u8>,
    pub parameter: Vec<u8>,
    pub data: Vec<u8>,
    pub fields: Vec<CounterKdfField>,
}

/// What a question to the key engine says.
#[verifier::ext_equal]
pub struct ComputationModel {
    pub operation: Operation,
    pub key: Seq<u8>,
    pub second: Seq<u8>,
    pub parameter: Seq<u8>,
    pub data: Seq<u8>,
    pub fields: Seq<FieldModel>,
}

impl View for Computation {
    type V = ComputationModel;

    open spec fn view(&self) -> ComputationModel {
        ComputationModel {
            operation: self.operation,
            key: self.key@,
            second: self.second@,
            parameter: self.parameter@,
            data: self.data@,
            fields: fields_model(self.fields@),
        }
    }
}

/// A piece of certificate metadata: the last arc of its identifier and its value.
#[derive(Clone, Debug, PartialEq, Eq)]
pub struct Metadata {
    pub arc: u8,
    pub value: Vec<u8>,
}

/// What a piece of metadata says.
#[verifier::ext_equal]
pub struct MetadataModel {
    pub arc: u8,
    pub value: Seq<u8>,
}

impl View for Metadata {
    type V = MetadataModel;

    open spec fn view(&self) -> MetadataModel {
        MetadataModel { arc: self.arc, value: self.value@ }
    }
}

/// An extension as a certificate holds it: its identifier in its DER encoding,
/// without tag and length, whether it is critical, and its value.
#[derive(Clone, Debug, PartialEq, Eq)]
pub struct HeldExtension {
    pub id: Vec<u8>,
    pub critical: bool,
    pub value: Vec<u8>,
}

/// What a held extension says.
#[verifier::ext_equal]
pub struct HeldModel {
    pub id: Seq<u8>,
    pub critical: bool,
    pub value: Seq<u8>,
}

impl View for HeldExtension {
    type V = HeldModel;

    open spec fn view(&self) -> HeldModel {
        HeldModel { id: self.id@, critical: self.critical, value: self.value@ }
    }
}

impl HeldExtension {
    /// Copies the extension.
    pub fn copied(&self) -> (extension: HeldExtension)
        ensures
            extension@ == self@,
    {
        HeldExtension {
            id: copied(&self.id),
            critical: self.critical,
            value: copied(&self.value),
        }
    }
}

/// What held extensions say.
pub open spec fn held_models(extensions: Seq<HeldExtension>) -> Seq<HeldModel> {
    Seq::new(extensions.len(), |i: int| extensions[i]@)
}

/// An extension of a certificate to build.
#[derive(Clone, Debug, PartialEq, Eq)]
pub enum AttestedExtension {
    /// One of a template, as it is.
    Held(HeldExtension),
    /// That the key signs no certificates.
    EndEntity,
    /// What the key is for: signatures, and these besides.
    KeyUsage { agreement: bool, encipherment: bool },
    /// A piece of metadata.
    Metadata(Metadata),
}

/// What an extension of a certificate to build says.
#[verifier::ext_equal]
pub enum ExtensionModel {
    Held(HeldModel),
    EndEntity,
    KeyUsage { agreement: bool, encipherment: bool },
    Metadata(MetadataModel),
}

impl View for AttestedExtension {
    type V = ExtensionModel;

    open spec fn view(&self) -> ExtensionModel {
        match *self {
            AttestedExtension::Held(extension) => ExtensionModel::Held(extension@),
            AttestedExtension::EndEntity => ExtensionModel::EndEntity,
            AttestedExtension::KeyUsage { agreement, encipherment } => ExtensionModel::KeyUsage {
                agreement,
                encipherment,
            },
            AttestedExtension::Metadata(metadata) => ExtensionModel::Metadata(metadata@),
        }
    }
}

/// What extensions of a certificate to build say.
pub open spec fn extension_models(extensions: Seq<AttestedExtension>) -> Seq<ExtensionModel> {
    Seq::new(extensions.len(), |i: int| extensions[i]@)
}

/// The parts of a template certificate that an attestation takes over: the
/// names and the validity, each in its DER encoding, and the extensions.
#[derive(Clone, Debug, PartialEq, Eq)]
pub struct Template {
    pub subject: Vec<u8>,
    pub issuer: Vec<u8>,
    pub validity: Vec<u8>,
    pub extensions: Vec<HeldExtension>,
}

/// What a template says.
#[verifier::ext_equal]
pub struct TemplateModel {
    pub subject: Seq<u8>,
    pub issuer: Seq<u8>,
    pub validity: Seq<u8>,
    pub extensions: Seq<HeldModel>,
}

impl View for Template {
    type V = TemplateModel;

    open spec fn view(&self) -> TemplateModel {
        TemplateModel {
            subject: self.subject@,
            issuer: self.issuer@,
            validity: self.validity@,
            extensions: held_models(self.extensions@),
        }
    }
}

/// What a template that may be missing says.
pub open spec fn template_model(template: Option<Template>) -> Option<TemplateModel> {
    match template {
        Some(template) => Some(template@),
        None => None,
    }
}

/// The certificate to build and sign. Names are in the string form of
/// distinguished names; a template replaces them, and the validity.
#[derive(Clone, Debug, PartialEq, Eq)]
pub struct Attestation {
    pub target: Option<KeyKind>,
    pub target_public: Vec<u8>,
    pub signer: SigningKey,
    pub subject: Vec<u8>,
    pub issuer: Vec<u8>,
    pub template: Option<Template>,
    pub serial: Vec<u8>,
    pub extensions: Vec<AttestedExtension>,
}

/// What a certificate to build says.
#[verifier::ext_equal]
pub struct AttestationModel {
    pub target: Option<KeyKind>,
    pub target_public: Seq<u8>,
    pub signer: SigningKeyModel,
    pub subject: Seq<u8>,
    pub issuer: Seq<u8>,
    pub template: Option<TemplateModel>,
    pub serial: Seq<u8>,
    pub extensions: Seq<ExtensionModel>,
}

impl View for Attestation {
    type V = AttestationModel;

    open spec fn view(&self) -> AttestationModel {
        AttestationModel {
            target: self.target,
            target_public: self.target_public@,
            signer: self.signer@,
            subject: self.subject@,
            issuer: self.issuer@,
            template: template_model(self.template),
            serial: self.serial@,
            extensions: extension_models(self.extensions@),
        }
    }
}

/// A question that a command stops at.
#[derive(Clone, Debug, PartialEq, Eq)]
pub enum EngineRequest {
    /// So many random bytes.
    Random(usize),
    /// A computation of the key engine.
    Compute(Computation),
    /// A signed attestation certificate.
    Attest(Attestation),
    /// What the owner of the device answers to a decrypted command in the
    /// device's place, if anything.
    Override(SessionAuthorization, Frame),
}

/// What a question says.
#[verifier::ext_equal]
pub enum RequestModel {
    Random(usize),
    Compute(ComputationModel),
    Attest(AttestationModel),
    Override(SessionAuthorization, FrameModel),
}

impl View for EngineRequest {
    type V = RequestModel;

    open spec fn view(&self) -> RequestModel {
        match *self {
            EngineRequest::Random(length) => RequestModel::Random(length),
            EngineRequest::Compute(computation) => RequestModel::Compute(computation@),
            EngineRequest::Attest(attestation) => RequestModel::Attest(attestation@),
            EngineRequest::Override(authorization, frame) => RequestModel::Override(
                authorization,
                frame@,
            ),
        }
    }
}

impl RequestModel {
    /// A computation over a key, a parameter and data.
    pub open spec fn compute(
        operation: Operation,
        key: Seq<u8>,
        parameter: Seq<u8>,
        data: Seq<u8>,
    ) -> RequestModel {
        RequestModel::Compute(
            ComputationModel {
                operation,
                key,
                second: Seq::empty(),
                parameter,
                data,
                fields: Seq::empty(),
            },
        )
    }

    /// A digest.
    pub open spec fn digest(hash: HashAlgorithm, data: Seq<u8>) -> RequestModel {
        RequestModel::compute(Operation::Digest(hash), Seq::empty(), Seq::empty(), data)
    }

    /// A computation over a key and data.
    pub open spec fn keyed(operation: Operation, key: Seq<u8>, data: Seq<u8>) -> RequestModel {
        RequestModel::compute(operation, key, Seq::empty(), data)
    }

    /// A computation with a private signing key.
    pub open spec fn with_key(
        operation: Operation,
        key: SigningKeyModel,
        parameter: Seq<u8>,
        data: Seq<u8>,
    ) -> RequestModel {
        RequestModel::Compute(
            ComputationModel {
                operation,
                key: key.private,
                second: key.second,
                parameter,
                data,
                fields: Seq::empty(),
            },
        )
    }
}

impl EngineRequest {
    /// Asks for a computation over a key, a parameter and data.
    pub fn compute(
        operation: Operation,
        key: &[u8],
        parameter: &[u8],
        data: &[u8],
    ) -> (request: EngineRequest)
        ensures
            request@ == RequestModel::compute(operation, key@, parameter@, data@),
    {
        let computation = Computation {
            operation,
            key: copied(key),
            second: Vec::new(),
            parameter: copied(parameter),
            data: copied(data),
            fields: Vec::new(),
        };
        assert(computation.second@ =~= Seq::<u8>::empty());
        assert(fields_model(computation.fields@) =~= Seq::<FieldModel>::empty());
        EngineRequest::Compute(computation)
    }

    /// Asks for a digest.
    pub fn digest(hash: HashAlgorithm, data: &[u8]) -> (request: EngineRequest)
        ensures
            request@ == RequestModel::digest(hash, data@),
    {
        let none: Vec<u8> = Vec::new();
        assert(none@ =~= Seq::<u8>::empty());
        EngineRequest::compute(Operation::Digest(hash), &none, &none, data)
    }

    /// Asks for a computation over a key and data.
    pub fn keyed(operation: Operation, key: &[u8], data: &[u8]) -> (request: EngineRequest)
        ensures
            request@ == RequestModel::keyed(operation, key@, data@),
    {
        let none: Vec<u8> = Vec::new();
        assert(none@ =~= Seq::<u8>::empty());
        EngineRequest::compute(operation, key, &none, data)
    }

    /// Asks for a computation with a private signing key.
    pub fn with_key(
        operation: Operation,
        key: &SigningKey,
        parameter: &[u8],
        data: &[u8],
    ) -> (request: EngineRequest)
        ensures
            request@ == RequestModel::with_key(operation, key@, parameter@, data@),
    {
        let computation = Computation {
            operation,
            key: copied(&key.private),
            second: copied(&key.second),
            parameter: copied(parameter),
            data: copied(data),
            fields: Vec::new(),
        };
        assert(fields_model(computation.fields@) =~= Seq::<FieldModel>::empty());
        EngineRequest::Compute(computation)
    }
}

/// Why the key engine computed nothing.
#[derive(Clone, Copy, Debug, PartialEq, Eq, Structural)]
pub enum EngineFailure {
    InvalidDataLength,
    InvalidIvLength,
    InvalidKeyLength,
    AuthenticationFailed,
    /// The input is not what the operation takes.
    Rejected,
    /// The engine could not do its part.
    Unavailable,
}

impl EngineFailure {
    /// The device error that a failed secure-channel computation amounts to.
    pub open spec fn channel_error(self) -> DeviceError {
        match self {
            EngineFailure::InvalidDataLength | EngineFailure::InvalidIvLength =>
                DeviceError::WrongLength,
            _ => DeviceError::InvalidData,
        }
    }
}

/// Returns the device error that a failed secure-channel computation amounts to.
pub fn map_symmetric_error(failure: EngineFailure) -> (error: DeviceError)
    ensures
        error == failure.channel_error(),
{
    match failure {
        EngineFailure::InvalidDataLength | EngineFailure::InvalidIvLength => {
            DeviceError::WrongLength
        },
        _ => DeviceError::InvalidData,
    }
}

/// An answer to a question.
#[derive(Clone, Debug, PartialEq, Eq)]
pub enum EngineReply {
    Bytes(Vec<u8>),
    Key { private: Vec<u8>, second: Vec<u8>, public: Vec<u8> },
    Response(Frame),
    Delegate,
    Refused(EngineFailure),
}

/// Why a command stopped: it failed, or a question has no answer yet.
#[derive(Clone, Debug, PartialEq, Eq)]
pub enum Halt {
    Error(DeviceError),
    Ask(EngineRequest),
}

/// Why a command stopped. A failure says how many answers had been used.
#[verifier::ext_equal]
pub enum HaltModel {
    Error(DeviceError, nat),
    Ask(RequestModel),
}

/// The outcome of a command or of a part of one: a value and how many answers
/// had been used, or why it stopped.
pub type Run<T> = core::result::Result<(T, nat), HaltModel>;

/// What an executed outcome says.
pub open spec fn run<T: View>(outcome: core::result::Result<T, Halt>, used: usize) -> Run<T::V> {
    match outcome {
        Ok(value) => Ok((value@, used as nat)),
        Err(Halt::Error(error)) => Err(HaltModel::Error(error, used as nat)),
        Err(Halt::Ask(request)) => Err(HaltModel::Ask(request@)),
    }
}

/// Why a command stopped, whatever it had used.
#[verifier::ext_equal]
pub enum StopModel {
    Error(DeviceError),
    Ask(RequestModel),
}

/// An outcome without how many answers had been used.
pub open spec fn settled<T>(run: Run<T>) -> core::result::Result<T, StopModel> {
    match run {
        Ok((value, _)) => Ok(value),
        Err(HaltModel::Error(error, _)) => Err(StopModel::Error(error)),
        Err(HaltModel::Ask(request)) => Err(StopModel::Ask(request)),
    }
}

/// What an executed outcome says, without how many answers had been used.
pub open spec fn stopped<T: View>(outcome: core::result::Result<T, Halt>) -> core::result::Result<
    T::V,
    StopModel,
> {
    match outcome {
        Ok(value) => Ok(value@),
        Err(Halt::Error(error)) => Err(StopModel::Error(error)),
        Err(Halt::Ask(request)) => Err(StopModel::Ask(request@)),
    }
}

/// A plain result as an outcome that used no answer.
pub open spec fn lifted<T>(result: core::result::Result<T, DeviceError>, used: nat) -> Run<T> {
    match result {
        Ok(value) => Ok((value, used)),
        Err(error) => Err(HaltModel::Error(error, used)),
    }
}

/// Turns a plain result into an outcome.
pub fn lift<T>(result: core::result::Result<T, DeviceError>) -> (outcome: core::result::Result<
    T,
    Halt,
>)
    ensures
        match result {
            Ok(value) => outcome == Ok::<T, Halt>(value),
            Err(error) => outcome == Err::<T, Halt>(Halt::Error(error)),
        },
{
    match result {
        Ok(value) => Ok(value),
        Err(error) => Err(Halt::Error(error)),
    }
}

/// Makes a failure.
pub fn fail<T>(error: DeviceError) -> (outcome: core::result::Result<T, Halt>)
    ensures
        outcome == Err::<T, Halt>(Halt::Error(error)),
{
    Err(Halt::Error(error))
}

/// The answer to a question, where it is there.
pub open spec fn asked(replies: Seq<EngineReply>, used: nat, request: RequestModel) -> Run<
    EngineReply,
> {
    if used < replies.len() {
        Ok((replies[used as int], used + 1))
    } else {
        Err(HaltModel::Ask(request))
    }
}

/// The bytes that answer a question; anything else is a refusal.
pub open spec fn bytes_from(
    replies: Seq<EngineReply>,
    used: nat,
    request: RequestModel,
    refusal: DeviceError,
) -> Run<Seq<u8>> {
    match asked(replies, used, request) {
        Ok((EngineReply::Bytes(bytes), used)) => Ok((bytes@, used)),
        Ok((_, used)) => Err(HaltModel::Error(refusal, used)),
        Err(halt) => Err(halt),
    }
}

/// The bytes of a fixed length that answer a question; anything else is a
/// refusal.
pub open spec fn sized_from(
    replies: Seq<EngineReply>,
    used: nat,
    request: RequestModel,
    length: int,
    refusal: DeviceError,
) -> Run<Seq<u8>> {
    match bytes_from(replies, used, request, refusal) {
        Ok((bytes, used)) => if bytes.len() == length {
            Ok((bytes, used))
        } else {
            Err(HaltModel::Error(refusal, used))
        },
        Err(halt) => Err(halt),
    }
}

/// The answer of a secure-channel computation: bytes of a fixed length where
/// one is given, or the device error of the failure.
pub open spec fn channel_from(
    replies: Seq<EngineReply>,
    used: nat,
    request: RequestModel,
    length: Option<int>,
) -> Run<Seq<u8>> {
    match asked(replies, used, request) {
        Ok((EngineReply::Bytes(bytes), used)) => if length is Some && bytes@.len() != length->0 {
            Err(HaltModel::Error(DeviceError::InvalidData, used))
        } else {
            Ok((bytes@, used))
        },
        Ok((EngineReply::Refused(failure), used)) => Err(
            HaltModel::Error(failure.channel_error(), used),
        ),
        Ok((_, used)) => Err(HaltModel::Error(DeviceError::InvalidData, used)),
        Err(halt) => Err(halt),
    }
}

/// The certificate that answers a question. An engine that is unavailable is a
/// storage failure, and anything else invalid data.
pub open spec fn certificate_from(
    replies: Seq<EngineReply>,
    used: nat,
    request: RequestModel,
) -> Run<
    Seq<u8>,
> {
    match asked(replies, used, request) {
        Ok((EngineReply::Bytes(bytes), used)) => Ok((bytes@, used)),
        Ok((EngineReply::Refused(EngineFailure::Unavailable), used)) => Err(
            HaltModel::Error(DeviceError::StorageFailed, used),
        ),
        Ok((_, used)) => Err(HaltModel::Error(DeviceError::InvalidData, used)),
        Err(halt) => Err(halt),
    }
}

/// The signing key that answers a question; anything else is a refusal.
pub open spec fn key_from(
    replies: Seq<EngineReply>,
    used: nat,
    request: RequestModel,
    kind: KeyKind,
    refusal: DeviceError,
) -> Run<SigningKeyModel> {
    match asked(replies, used, request) {
        Ok((EngineReply::Key { private, second, public }, used)) => Ok(
            (
                SigningKeyModel { kind, private: private@, second: second@, public: public@ },
                used,
            ),
        ),
        Ok((_, used)) => Err(HaltModel::Error(refusal, used)),
        Err(halt) => Err(halt),
    }
}

/// The X25519 key that answers a question; anything else is a refusal.
pub open spec fn x25519_from(
    replies: Seq<EngineReply>,
    used: nat,
    request: RequestModel,
    refusal: DeviceError,
) -> Run<X25519KeyModel> {
    match asked(replies, used, request) {
        Ok((EngineReply::Key { private, second, public }, used)) => Ok(
            (X25519KeyModel { private: private@, public: public@ }, used),
        ),
        Ok((_, used)) => Err(HaltModel::Error(refusal, used)),
        Err(halt) => Err(halt),
    }
}

/// The answers that a command runs over, and how many of them it has used.
pub struct Answers<'a> {
    pub replies: &'a [EngineReply],
    pub used: usize,
}

impl<'a> Answers<'a> {
    /// Whether no more answers are used than are there.
    pub open spec fn valid(self) -> bool {
        self.used <= self.replies@.len()
    }

    /// Starts over the answers.
    pub fn new(replies: &'a [EngineReply]) -> (answers: Answers<'a>)
        ensures
            answers.valid(),
            answers.replies == replies,
            answers.used == 0,
    {
        Answers { replies, used: 0 }
    }

    /// Takes the answer to a question.
    pub fn next(&mut self, request: EngineRequest) -> (reply: core::result::Result<
        &'a EngineReply,
        Halt,
    >)
        requires
            old(self).valid(),
        ensures
            final(self).valid(),
            final(self).replies == old(self).replies,
            match reply {
                Ok(reply) => asked(old(self).replies@, old(self).used as nat, request@) == Ok::<
                    (EngineReply, nat),
                    HaltModel,
                >((*reply, final(self).used as nat)),
                Err(halt) => halt == Halt::Ask(request)
                    && old(self).used == old(self).replies@.len(),
            },
    {
        if self.used < self.replies.len() {
            let reply = &self.replies[self.used];
            self.used = self.used + 1;
            Ok(reply)
        } else {
            Err(Halt::Ask(request))
        }
    }

    /// Takes bytes as the answer to a question.
    pub fn bytes(&mut self, request: EngineRequest, refusal: DeviceError) -> (bytes:
        core::result::Result<Vec<u8>, Halt>)
        requires
            old(self).valid(),
        ensures
            final(self).valid(),
            final(self).replies == old(self).replies,
            run(bytes, final(self).used) == bytes_from(
                old(self).replies@,
                old(self).used as nat,
                request@,
                refusal,
            ),
    {
        match self.next(request)? {
            EngineReply::Bytes(bytes) => Ok(copied(bytes)),
            _ => fail(refusal),
        }
    }

    /// Takes bytes of a fixed length as the answer to a question.
    pub fn sized(&mut self, request: EngineRequest, length: usize, refusal: DeviceError) -> (bytes:
        core::result::Result<Vec<u8>, Halt>)
        requires
            old(self).valid(),
        ensures
            final(self).valid(),
            final(self).replies == old(self).replies,
            run(bytes, final(self).used) == sized_from(
                old(self).replies@,
                old(self).used as nat,
                request@,
                length as int,
                refusal,
            ),
    {
        let bytes: Vec<u8> = self.bytes(request, refusal)?;
        if bytes.len() == length {
            Ok(bytes)
        } else {
            fail(refusal)
        }
    }

    /// Takes the answer of a secure-channel computation.
    pub fn channel(&mut self, request: EngineRequest, length: Option<usize>) -> (bytes:
        core::result::Result<Vec<u8>, Halt>)
        requires
            old(self).valid(),
        ensures
            final(self).valid(),
            final(self).replies == old(self).replies,
            run(bytes, final(self).used) == channel_from(
                old(self).replies@,
                old(self).used as nat,
                request@,
                match length {
                    Some(length) => Some(length as int),
                    None => None,
                },
            ),
    {
        match self.next(request)? {
            EngineReply::Bytes(bytes) => {
                if let Some(length) = length {
                    if bytes.len() != length {
                        return fail(DeviceError::InvalidData);
                    }
                }
                Ok(copied(bytes))
            },
            EngineReply::Refused(failure) => fail(map_symmetric_error(*failure)),
            _ => fail(DeviceError::InvalidData),
        }
    }

    /// Takes a certificate as the answer to a question.
    pub fn certificate(&mut self, request: EngineRequest) -> (bytes: core::result::Result<
        Vec<u8>,
        Halt,
    >)
        requires
            old(self).valid(),
        ensures
            final(self).valid(),
            final(self).replies == old(self).replies,
            run(bytes, final(self).used) == certificate_from(
                old(self).replies@,
                old(self).used as nat,
                request@,
            ),
    {
        match self.next(request)? {
            EngineReply::Bytes(bytes) => Ok(copied(bytes)),
            EngineReply::Refused(EngineFailure::Unavailable) => fail(DeviceError::StorageFailed),
            _ => fail(DeviceError::InvalidData),
        }
    }

    /// Takes a signing key as the answer to a question.
    pub fn key(&mut self, request: EngineRequest, kind: KeyKind, refusal: DeviceError) -> (key:
        core::result::Result<SigningKey, Halt>)
        requires
            old(self).valid(),
        ensures
            final(self).valid(),
            final(self).replies == old(self).replies,
            run(key, final(self).used) == key_from(
                old(self).replies@,
                old(self).used as nat,
                request@,
                kind,
                refusal,
            ),
    {
        match self.next(request)? {
            EngineReply::Key { private, second, public } => Ok(
                SigningKey {
                    kind,
                    private: copied(private),
                    second: copied(second),
                    public: copied(public),
                },
            ),
            _ => fail(refusal),
        }
    }

    /// Takes an X25519 key as the answer to a question.
    pub fn x25519(&mut self, request: EngineRequest, refusal: DeviceError) -> (key:
        core::result::Result<X25519Key, Halt>)
        requires
            old(self).valid(),
        ensures
            final(self).valid(),
            final(self).replies == old(self).replies,
            run(key, final(self).used) == x25519_from(
                old(self).replies@,
                old(self).used as nat,
                request@,
                refusal,
            ),
    {
        match self.next(request)? {
            EngineReply::Key { private, second, public } => Ok(
                X25519Key { private: copied(private), public: copied(public) },
            ),
            _ => fail(refusal),
        }
    }
}

} // verus!
