//! The host's side of the protocol: what it asks of its transport and of its own
//! cryptography, and sessions as the host sees them.
//!
//! Nothing here sends or computes by itself. A function runs over the answers
//! that are there, and where one is missing it ends with the question.
use crate::algorithm::Algorithm;
use crate::audit::first_sixteen;
use crate::bytes::{append, copied, copied_range, equal, joined, single, u16_be, write_u16};
use crate::connector::{TransportError, TransportErrorModel};
use crate::engine::EngineFailure;
use crate::error::DeviceError;
use crate::frame::{Frame, FrameModel, ERROR_COMMAND, MAX_DATA_LENGTH, RESPONSE_BIT};
use crate::keys::{EcCurve, HashAlgorithm};
use crate::object::ObjectType;
use crate::persistence::thirty_two;
use crate::protocol::CommandCode;
use crate::session::{
    following_counter, increment_counter, pad, padded, unpad, unpadded, zero_block, Exchange,
    ExchangeModel, SecureModel, SecureSession, BLOCK_SIZE, MAC_LENGTH,
};
use vstd::prelude::*;

verus! {

/// What a host computes for itself.
#[derive(Clone, Copy, Debug, PartialEq, Eq, Structural)]
pub enum Oracle {
    /// AES-CMAC of `data` under `key`.
    Cmac,
    /// The SCP03 key with a constant, from `key` and the context in `data`.
    Scp03Key(u8),
    /// The SCP03 cryptogram with a constant, from `key` and the context in `data`.
    Scp03Cryptogram(u8),
    /// One AES block.
    EncryptBlock,
    /// AES-CBC with the initial vector in `parameter`.
    EncryptCbc,
    DecryptCbc,
    /// The ANSI X9.63 key derivation with SHA-256, of so many bytes, from the
    /// secret in `key` and the shared information in `data`.
    X963Kdf(usize),
    /// The two static keys of the password in `data`.
    PasswordKdf,
    Digest(HashAlgorithm),
    Hmac(HashAlgorithm),
    /// The two numbers of the DER signature in `data`, each with so many bytes.
    EcdsaFromDer(usize),
    /// Whether the signature in `parameter` of the digest in `data` verifies
    /// under the point in `key`.
    VerifyEcdsa(EcCurve),
    /// Whether the PKCS #1 signature in `parameter` of the SHA-256 digest in
    /// `data` verifies under the modulus in `key`.
    VerifyPkcs1,
    /// The same for PSS, with so many bytes of salt.
    VerifyPss(usize),
    /// Whether the signature in `parameter` of the message in `data` verifies.
    VerifyEd25519,
    /// RSA encryption of `data` for the modulus in `key`.
    EncryptPkcs1,
    /// RSA-OAEP of `data` for the modulus in `key`, with the label's digest in
    /// `parameter` and this hash for the mask.
    EncryptOaep(HashAlgorithm),
    /// The public key of the X25519 key in `key`.
    X25519Public,
    /// The agreement of the X25519 key in `key` with the public key in `data`.
    X25519Agree,
}

/// What a host's computation is given.
#[derive(Clone, Debug)]
pub struct OracleCall {
    pub oracle: Oracle,
    pub key: Vec<u8>,
    pub parameter: Vec<u8>,
    pub data: Vec<u8>,
}

/// The contents of a host's computation.
#[verifier::ext_equal]
pub struct CallModel {
    pub oracle: Oracle,
    pub key: Seq<u8>,
    pub parameter: Seq<u8>,
    pub data: Seq<u8>,
}

impl View for OracleCall {
    type V = CallModel;

    open spec fn view(&self) -> CallModel {
        CallModel {
            oracle: self.oracle,
            key: self.key@,
            parameter: self.parameter@,
            data: self.data@,
        }
    }
}

/// A question of a host: an exchange with the device, or a computation.
#[derive(Clone, Debug)]
pub enum HostQuestion {
    Exchange(Vec<u8>),
    Compute(OracleCall),
}

/// The contents of a question.
#[verifier::ext_equal]
pub enum QuestionModel {
    Exchange(Seq<u8>),
    Compute(CallModel),
}

impl View for HostQuestion {
    type V = QuestionModel;

    open spec fn view(&self) -> QuestionModel {
        match *self {
            HostQuestion::Exchange(request) => QuestionModel::Exchange(request@),
            HostQuestion::Compute(call) => QuestionModel::Compute(call@),
        }
    }
}

/// An answer to a host's question. A check that holds is answered with bytes,
/// whichever they are, and one that does not with a refusal.
#[derive(Clone, Debug)]
pub enum HostReply {
    Bytes(Vec<u8>),
    Unsent(TransportError),
    Refused(EngineFailure),
}

/// Why a host gives up.
#[derive(Clone, Debug)]
pub enum Failure {
    /// The transport did not carry a request.
    Transport(TransportError),
    /// A response is no frame.
    Response(DeviceError),
    /// What a response in a session holds is no frame.
    Inner(DeviceError),
    /// A computation was refused, or a check does not hold, in words, and about
    /// this algorithm where there are several.
    Computation(Option<Algorithm>, &'static str, EngineFailure),
    /// A command was answered with an error.
    Refused(CommandCode, Vec<u8>),
    /// A command was answered with the response to another.
    Unrelated(CommandCode, u8),
    /// Another error was expected.
    Unexpected(DeviceError, Frame),
    /// No number is left for an object of this type.
    NoNumber(ObjectType),
    /// A list holds an object of no known type.
    UnknownType(u8),
    /// A response has so many bytes, in the words before the number.
    Length(&'static str, usize),
    /// This byte was not expected, in the words before it.
    Byte(&'static str, u8),
    /// Something else was expected of an algorithm, in words.
    OfAlgorithm(Algorithm, &'static str),
    /// Something else was expected of an option, in words.
    OfOption(u8, &'static str),
    /// Another number of audit entries was expected than this.
    Entries(u8),
    /// Something else was expected, in words.
    Unmet(&'static str),
}

/// The contents of a failure.
#[verifier::ext_equal]
pub enum FailureModel {
    Transport(TransportErrorModel),
    Response(DeviceError),
    Inner(DeviceError),
    Computation(Option<Algorithm>, Seq<char>, EngineFailure),
    Refused(CommandCode, Seq<u8>),
    Unrelated(CommandCode, u8),
    Unexpected(DeviceError, FrameModel),
    NoNumber(ObjectType),
    UnknownType(u8),
    Length(Seq<char>, nat),
    Byte(Seq<char>, u8),
    OfAlgorithm(Algorithm, Seq<char>),
    OfOption(u8, Seq<char>),
    Entries(u8),
    Unmet(Seq<char>),
}

impl View for Failure {
    type V = FailureModel;

    open spec fn view(&self) -> FailureModel {
        match *self {
            Failure::Transport(error) => FailureModel::Transport(error@),
            Failure::Response(error) => FailureModel::Response(error),
            Failure::Inner(error) => FailureModel::Inner(error),
            Failure::Computation(algorithm, text, failure) => FailureModel::Computation(
                algorithm,
                text@,
                failure,
            ),
            Failure::Refused(command, data) => FailureModel::Refused(command, data@),
            Failure::Unrelated(command, byte) => FailureModel::Unrelated(command, byte),
            Failure::Unexpected(error, frame) => FailureModel::Unexpected(error, frame@),
            Failure::NoNumber(object_type) => FailureModel::NoNumber(object_type),
            Failure::UnknownType(byte) => FailureModel::UnknownType(byte),
            Failure::Length(text, length) => FailureModel::Length(text@, length as nat),
            Failure::Byte(text, byte) => FailureModel::Byte(text@, byte),
            Failure::OfAlgorithm(algorithm, text) => FailureModel::OfAlgorithm(algorithm, text@),
            Failure::OfOption(option, text) => FailureModel::OfOption(option, text@),
            Failure::Entries(count) => FailureModel::Entries(count),
            Failure::Unmet(text) => FailureModel::Unmet(text@),
        }
    }
}

impl Failure {
    /// Copies a failure.
    pub fn copied(&self) -> (failure: Failure)
        ensures
            failure@ == self@,
    {
        match self {
            Failure::Transport(error) => Failure::Transport(error.copied()),
            Failure::Response(error) => Failure::Response(*error),
            Failure::Inner(error) => Failure::Inner(*error),
            Failure::Computation(algorithm, text, failure) => Failure::Computation(
                *algorithm,
                text,
                *failure,
            ),
            Failure::Refused(command, data) => Failure::Refused(*command, copied(data)),
            Failure::Unrelated(command, byte) => Failure::Unrelated(*command, *byte),
            Failure::Unexpected(error, frame) => Failure::Unexpected(*error, frame.copied()),
            Failure::NoNumber(object_type) => Failure::NoNumber(*object_type),
            Failure::UnknownType(byte) => Failure::UnknownType(*byte),
            Failure::Length(text, length) => Failure::Length(text, *length),
            Failure::Byte(text, byte) => Failure::Byte(text, *byte),
            Failure::OfAlgorithm(algorithm, text) => Failure::OfAlgorithm(*algorithm, text),
            Failure::OfOption(option, text) => Failure::OfOption(*option, text),
            Failure::Entries(count) => Failure::Entries(*count),
            Failure::Unmet(text) => Failure::Unmet(text),
        }
    }
}

/// Why a host's run ends: it gives up, or an answer is missing.
#[derive(Clone, Debug)]
pub enum HostHalt {
    Failed(Failure),
    Ask(HostQuestion),
}

/// The contents of the end of a run.
#[verifier::ext_equal]
pub enum HostHaltModel {
    Failed(FailureModel),
    Ask(QuestionModel),
}

/// A run of the host: what it gives and how many answers it used, or its end.
pub type HostRun<T> = core::result::Result<(T, nat), HostHaltModel>;

/// The result of a run.
pub open spec fn host_run<T: View>(
    outcome: core::result::Result<T, HostHalt>,
    used: usize,
) -> HostRun<
    T::V,
> {
    match outcome {
        Ok(value) => Ok((value@, used as nat)),
        Err(HostHalt::Failed(failure)) => Err(HostHaltModel::Failed(failure@)),
        Err(HostHalt::Ask(question)) => Err(HostHaltModel::Ask(question@)),
    }
}

/// The contents of a check's result.
pub open spec fn check_model<T: View>(
    outcome: core::result::Result<T, Failure>,
) -> core::result::Result<
    T::V,
    FailureModel,
> {
    match outcome {
        Ok(value) => Ok(value@),
        Err(failure) => Err(failure@),
    }
}

/// A check's result as a run that asks nothing.
pub open spec fn host_lifted<T>(
    outcome: core::result::Result<T, FailureModel>,
    used: nat,
) -> HostRun<T> {
    match outcome {
        Ok(value) => Ok((value, used)),
        Err(failure) => Err(HostHaltModel::Failed(failure)),
    }
}

/// Makes a check's result the end of a run, where it failed.
pub fn host_lift<T>(outcome: core::result::Result<T, Failure>) -> (lift: core::result::Result<
    T,
    HostHalt,
>)
    ensures
        match outcome {
            Ok(value) => lift == Ok::<T, HostHalt>(value),
            Err(failure) => lift == Err::<T, HostHalt>(HostHalt::Failed(failure)),
        },
{
    match outcome {
        Ok(value) => Ok(value),
        Err(failure) => Err(HostHalt::Failed(failure)),
    }
}

/// Fails with words.
pub fn unmet<T>(text: &'static str) -> (outcome: core::result::Result<T, HostHalt>)
    ensures
        outcome == Err::<T, HostHalt>(HostHalt::Failed(Failure::Unmet(text))),
{
    Err(HostHalt::Failed(Failure::Unmet(text)))
}

/// What comes back of an exchange.
pub open spec fn exchange_from(replies: Seq<HostReply>, used: nat, request: Seq<u8>) -> HostRun<
    Seq<u8>,
> {
    if used >= replies.len() {
        Err(HostHaltModel::Ask(QuestionModel::Exchange(request)))
    } else {
        match replies[used as int] {
            HostReply::Bytes(bytes) => Ok((bytes@, used + 1)),
            HostReply::Unsent(error) => Err(
                HostHaltModel::Failed(FailureModel::Transport(error@)),
            ),
            HostReply::Refused(_) => Err(
                HostHaltModel::Failed(FailureModel::Unmet("an exchange was refused"@)),
            ),
        }
    }
}

/// What comes back of an exchange of frames.
pub open spec fn frame_from(replies: Seq<HostReply>, used: nat, request: FrameModel) -> HostRun<
    FrameModel,
> {
    match exchange_from(replies, used, request.encoded()) {
        Err(halt) => Err(halt),
        Ok((encoded, used)) => match FrameModel::parsed(encoded) {
            Ok(frame) => Ok((frame, used)),
            Err(error) => Err(HostHaltModel::Failed(FailureModel::Response(error))),
        },
    }
}

/// What comes of a computation, with the words for where it fails.
pub open spec fn computed_from(
    replies: Seq<HostReply>,
    used: nat,
    call: CallModel,
    algorithm: Option<Algorithm>,
    text: Seq<char>,
) -> HostRun<Seq<u8>> {
    if used >= replies.len() {
        Err(HostHaltModel::Ask(QuestionModel::Compute(call)))
    } else {
        match replies[used as int] {
            HostReply::Bytes(bytes) => Ok((bytes@, used + 1)),
            HostReply::Refused(failure) => Err(
                HostHaltModel::Failed(FailureModel::Computation(algorithm, text, failure)),
            ),
            HostReply::Unsent(error) => Err(
                HostHaltModel::Failed(FailureModel::Transport(error@)),
            ),
        }
    }
}

/// What comes of a computation whose length is known.
pub open spec fn measured_from(
    replies: Seq<HostReply>,
    used: nat,
    call: CallModel,
    length: nat,
    text: Seq<char>,
) -> HostRun<Seq<u8>> {
    match computed_from(replies, used, call, None, text) {
        Err(halt) => Err(halt),
        Ok((bytes, used)) => if bytes.len() == length {
            Ok((bytes, used))
        } else {
            Err(
                HostHaltModel::Failed(
                    FailureModel::Computation(None, text, EngineFailure::Rejected),
                ),
            )
        },
    }
}

/// A computation under a key.
pub open spec fn call(
    oracle: Oracle,
    key: Seq<u8>,
    parameter: Seq<u8>,
    data: Seq<u8>,
) -> CallModel {
    CallModel { oracle, key, parameter, data }
}

/// The answers that a host has.
pub struct HostAnswers<'a> {
    pub replies: &'a [HostReply],
    pub used: usize,
}

impl<'a> HostAnswers<'a> {
    /// Whether no more answers are used than there are.
    pub open spec fn valid(self) -> bool {
        self.used <= self.replies@.len()
    }

    /// Starts with the first answer.
    pub fn new(replies: &'a [HostReply]) -> (answers: HostAnswers<'a>)
        ensures
            answers.valid(),
            answers.replies == replies,
            answers.used == 0,
    {
        HostAnswers { replies, used: 0 }
    }

    /// Exchanges bytes.
    pub fn exchange(&mut self, request: Vec<u8>) -> (response: core::result::Result<
        Vec<u8>,
        HostHalt,
    >)
        requires
            old(self).valid(),
        ensures
            final(self).valid(),
            final(self).replies == old(self).replies,
            host_run(response, final(self).used) == exchange_from(
                old(self).replies@,
                old(self).used as nat,
                request@,
            ),
    {
        if self.used >= self.replies.len() {
            return Err(HostHalt::Ask(HostQuestion::Exchange(request)));
        }
        let reply = &self.replies[self.used];
        self.used = self.used + 1;
        match reply {
            HostReply::Bytes(bytes) => Ok(copied(bytes)),
            HostReply::Unsent(error) => Err(HostHalt::Failed(Failure::Transport(error.copied()))),
            HostReply::Refused(_) => unmet("an exchange was refused"),
        }
    }

    /// Exchanges frames.
    pub fn exchange_frame(&mut self, request: &Frame) -> (response: core::result::Result<
        Frame,
        HostHalt,
    >)
        requires
            old(self).valid(),
        ensures
            final(self).valid(),
            final(self).replies == old(self).replies,
            host_run(response, final(self).used) == frame_from(
                old(self).replies@,
                old(self).used as nat,
                request@,
            ),
    {
        let encoded: Vec<u8> = self.exchange(request.encode())?;
        match Frame::parse(&encoded) {
            Ok(frame) => Ok(frame),
            Err(error) => Err(HostHalt::Failed(Failure::Response(error))),
        }
    }

    /// Computes.
    pub fn compute(
        &mut self,
        question: OracleCall,
        algorithm: Option<Algorithm>,
        text: &'static str,
    ) -> (bytes: core::result::Result<Vec<u8>, HostHalt>)
        requires
            old(self).valid(),
        ensures
            final(self).valid(),
            final(self).replies == old(self).replies,
            host_run(bytes, final(self).used) == computed_from(
                old(self).replies@,
                old(self).used as nat,
                question@,
                algorithm,
                text@,
            ),
    {
        if self.used >= self.replies.len() {
            return Err(HostHalt::Ask(HostQuestion::Compute(question)));
        }
        let reply = &self.replies[self.used];
        self.used = self.used + 1;
        match reply {
            HostReply::Bytes(bytes) => Ok(copied(bytes)),
            HostReply::Refused(failure) => Err(
                HostHalt::Failed(Failure::Computation(algorithm, text, *failure)),
            ),
            HostReply::Unsent(error) => Err(HostHalt::Failed(Failure::Transport(error.copied()))),
        }
    }

    /// Computes so many bytes.
    pub fn measured(
        &mut self,
        oracle: Oracle,
        key: &[u8],
        parameter: &[u8],
        data: &[u8],
        length: usize,
        text: &'static str,
    ) -> (bytes: core::result::Result<Vec<u8>, HostHalt>)
        requires
            old(self).valid(),
        ensures
            final(self).valid(),
            final(self).replies == old(self).replies,
            host_run(bytes, final(self).used) == measured_from(
                old(self).replies@,
                old(self).used as nat,
                call(oracle, key@, parameter@, data@),
                length as nat,
                text@,
            ),
            bytes matches Ok(bytes) ==> bytes@.len() == length,
    {
        let bytes: Vec<u8> = self.compute(
            OracleCall {
                oracle,
                key: copied(key),
                parameter: copied(parameter),
                data: copied(data),
            },
            None,
            text,
        )?;
        if bytes.len() == length {
            Ok(bytes)
        } else {
            Err(HostHalt::Failed(Failure::Computation(None, text, EngineFailure::Rejected)))
        }
    }
}

/// The data of a response to a command.
pub open spec fn response_data(response: FrameModel, command: CommandCode) -> core::result::Result<
    Seq<u8>,
    FailureModel,
> {
    if response.command == ERROR_COMMAND {
        Err(FailureModel::Refused(command, response.data))
    } else if response.command != command.byte() | RESPONSE_BIT {
        Err(FailureModel::Unrelated(command, response.command))
    } else {
        Ok(response.data)
    }
}

/// Takes the data of a response to a command.
pub fn expect_response(response: &Frame, command: CommandCode) -> (data: core::result::Result<
    Vec<u8>,
    Failure,
>)
    ensures
        check_model(data) == response_data(response@, command),
{
    if response.command == ERROR_COMMAND {
        return Err(Failure::Refused(command, copied(&response.data)));
    }
    if response.command != command.to_byte() | RESPONSE_BIT {
        return Err(Failure::Unrelated(command, response.command));
    }
    Ok(copied(&response.data))
}

/// Checks that a response is an error, and which.
pub fn expect_device_error(response: &Frame, expected: DeviceError) -> (met: core::result::Result<
    (),
    Failure,
>)
    ensures
        match met {
            Ok(()) => response@ == FrameModel::error(expected),
            Err(failure) => response@ != FrameModel::error(expected) && failure@
                == FailureModel::Unexpected(expected, response@),
        },
{
    let wanted = Frame::error(expected);
    if response.command == wanted.command && equal(&response.data, &wanted.data) {
        assert(response@ =~= wanted@);
        Ok(())
    } else {
        Err(Failure::Unexpected(expected, response.copied()))
    }
}

/// What a host authenticates itself with: the number of an authentication key
/// and its two static keys.
#[derive(Clone, Debug)]
pub struct Credentials {
    pub authentication_key_id: u16,
    pub static_keys: [u8; 32],
}

/// The contents of credentials.
#[verifier::ext_equal]
pub struct CredentialsModel {
    pub authentication_key_id: u16,
    pub static_keys: Seq<u8>,
}

impl View for Credentials {
    type V = CredentialsModel;

    open spec fn view(&self) -> CredentialsModel {
        CredentialsModel {
            authentication_key_id: self.authentication_key_id,
            static_keys: self.static_keys@,
        }
    }
}

impl Credentials {
    /// Takes the credentials of a password.
    pub fn from_password(
        authentication_key_id: u16,
        password: &[u8],
        answers: &mut HostAnswers,
    ) -> (credentials: core::result::Result<
        Credentials,
        HostHalt,
    >)
        requires
            old(answers).valid(),
        ensures
            final(answers).valid(),
            final(answers).replies == old(answers).replies,
            host_run(credentials, final(answers).used) == (match measured_from(
                old(answers).replies@,
                old(answers).used as nat,
                call(Oracle::PasswordKdf, Seq::empty(), Seq::empty(), password@),
                32,
                "password derivation failed"@,
            ) {
                Ok((static_keys, used)) => Ok(
                    (CredentialsModel { authentication_key_id, static_keys }, used),
                ),
                Err(halt) => Err(halt),
            }),
    {
        let none: Vec<u8> = Vec::new();
        assert(none@ =~= Seq::<u8>::empty());
        let keys: Vec<u8> = answers.measured(
            Oracle::PasswordKdf,
            &none,
            &none,
            password,
            32,
            "password derivation failed",
        )?;
        Ok(Credentials { authentication_key_id, static_keys: thirty_two(&keys) })
    }

    /// Takes the credentials of two static keys.
    pub fn from_static_keys(
        authentication_key_id: u16,
        static_keys: [u8; 32],
    ) -> (credentials: Credentials)
        ensures
            credentials@ == (CredentialsModel { authentication_key_id, static_keys: static_keys@ }),
    {
        Credentials { authentication_key_id, static_keys }
    }

    /// Copies credentials.
    pub fn copied(&self) -> (credentials: Credentials)
        ensures
            credentials@ == self@,
    {
        Credentials {
            authentication_key_id: self.authentication_key_id,
            static_keys: self.static_keys,
        }
    }
}

/// The challenge of the host: always the same, for results that can be repeated.
pub open spec fn host_challenge() -> Seq<u8> {
    seq![0x51, 0x75, 0x61, 0x6c, 0x69, 0x66, 0x79, 0x21]
}

/// The counter of a session's first message.
pub open spec fn first_counter() -> Seq<u8> {
    seq![0, 0, 0, 0, 0, 0, 0, 0, 0, 0, 0, 0, 0, 0, 0, 1]
}

/// Gives up with words.
pub open spec fn unmet_run<T>(text: Seq<char>) -> HostRun<T> {
    Err(HostHaltModel::Failed(FailureModel::Unmet(text)))
}

/// The session keys of the two static keys and a context, and the two
/// cryptograms.
#[verifier::ext_equal]
pub struct DerivedModel {
    pub s_enc: Seq<u8>,
    pub s_mac: Seq<u8>,
    pub s_rmac: Seq<u8>,
}

/// The session keys of the two static keys and a context.
pub open spec fn derived(
    static_keys: Seq<u8>,
    context: Seq<u8>,
    replies: Seq<HostReply>,
    used: nat,
) -> HostRun<DerivedModel> {
    let none = Seq::<u8>::empty();
    let encryption = static_keys.subrange(0, 16);
    let authentication = static_keys.subrange(16, 32);
    match measured_from(
        replies,
        used,
        call(Oracle::Scp03Key(0x04), encryption, none, context),
        16,
        "S-ENC derivation failed"@,
    ) {
        Err(halt) => Err(halt),
        Ok((s_enc, used)) => match measured_from(
            replies,
            used,
            call(Oracle::Scp03Key(0x06), authentication, none, context),
            16,
            "S-MAC derivation failed"@,
        ) {
            Err(halt) => Err(halt),
            Ok((s_mac, used)) => match measured_from(
                replies,
                used,
                call(Oracle::Scp03Key(0x07), authentication, none, context),
                16,
                "S-RMAC derivation failed"@,
            ) {
                Err(halt) => Err(halt),
                Ok((s_rmac, used)) => Ok((DerivedModel { s_enc, s_mac, s_rmac }, used)),
            },
        },
    }
}

/// The session keys of a session.
pub struct DerivedKeys {
    pub s_enc: Vec<u8>,
    pub s_mac: Vec<u8>,
    pub s_rmac: Vec<u8>,
}

impl View for DerivedKeys {
    type V = DerivedModel;

    open spec fn view(&self) -> DerivedModel {
        DerivedModel { s_enc: self.s_enc@, s_mac: self.s_mac@, s_rmac: self.s_rmac@ }
    }
}

/// The authentication of a session that a device opened: its cryptogram is
/// checked, and the host's is sent.
pub open spec fn confirmed(
    create: Seq<u8>,
    keys: DerivedModel,
    context: Seq<u8>,
    replies: Seq<HostReply>,
    used: nat,
) -> HostRun<SecureModel> {
    let none = Seq::<u8>::empty();
    let sid = create[0];
    match measured_from(
        replies,
        used,
        call(Oracle::Scp03Cryptogram(0x00), keys.s_mac, none, context),
        8,
        "card cryptogram derivation failed"@,
    ) {
        Err(halt) => Err(halt),
        Ok((card, used)) => if create.subrange(9, create.len() as int) != card {
            unmet_run("card cryptogram did not verify"@)
        } else {
            match measured_from(
                replies,
                used,
                call(Oracle::Scp03Cryptogram(0x01), keys.s_mac, none, context),
                8,
                "host cryptogram derivation failed"@,
            ) {
                Err(halt) => Err(halt),
                Ok((host, used)) => {
                    let payload = seq![sid] + host;
                    let command = CommandCode::AuthenticateSession;
                    match measured_from(
                        replies,
                        used,
                        call(
                            Oracle::Cmac,
                            keys.s_mac,
                            none,
                            zero_block() + seq![command.byte()] + u16_be(17) + payload,
                        ),
                        16,
                        "Authenticate Session MAC failed"@,
                    ) {
                        Err(halt) => Err(halt),
                        Ok((mac, used)) => match frame_from(
                            replies,
                            used,
                            FrameModel {
                                command: command.byte(),
                                data: payload + mac.subrange(0, 8),
                            },
                        ) {
                            Err(halt) => Err(halt),
                            Ok((response, used)) => match response_data(response, command) {
                                Err(failure) => Err(HostHaltModel::Failed(failure)),
                                Ok(_) => Ok(
                                    (
                                        SecureModel {
                                            sid,
                                            s_enc: keys.s_enc,
                                            s_mac: keys.s_mac,
                                            s_rmac: keys.s_rmac,
                                            counter: first_counter(),
                                            chaining: mac,
                                        },
                                        used,
                                    ),
                                ),
                            },
                        },
                    }
                },
            }
        },
    }
}

/// The session that a host opens with its credentials.
pub open spec fn opened(
    credentials: CredentialsModel,
    replies: Seq<HostReply>,
    used: nat,
) -> HostRun<SecureModel> {
    match frame_from(
        replies,
        used,
        FrameModel {
            command: CommandCode::CreateSession.byte(),
            data: u16_be(credentials.authentication_key_id) + host_challenge(),
        },
    ) {
        Err(halt) => Err(halt),
        Ok((response, used)) => match response_data(response, CommandCode::CreateSession) {
            Err(failure) => Err(HostHaltModel::Failed(failure)),
            Ok(create) => if create.len() != 17 {
                Err(
                    HostHaltModel::Failed(
                        FailureModel::Length("Create Session returned"@, create.len()),
                    ),
                )
            } else {
                let context = host_challenge() + create.subrange(1, 9);
                match derived(credentials.static_keys, context, replies, used) {
                    Err(halt) => Err(halt),
                    Ok((keys, used)) => confirmed(create, keys, context, replies, used),
                }
            },
        },
    }
}

/// What a response in a session holds, once its code is checked.
pub open spec fn unwrapped_response(
    secure: SecureModel,
    mac: Seq<u8>,
    iv: Seq<u8>,
    outer: FrameModel,
    replies: Seq<HostReply>,
    used: nat,
) -> HostRun<ExchangeModel> {
    let none = Seq::<u8>::empty();
    let length = outer.data.len() - MAC_LENGTH;
    if outer.command == ERROR_COMMAND {
        Ok((ExchangeModel { secure, frame: outer }, used))
    } else if outer.command != CommandCode::SessionMessage.byte() | RESPONSE_BIT {
        Err(
            HostHaltModel::Failed(
                FailureModel::Byte("unexpected Session Message response command"@, outer.command),
            ),
        )
    } else if outer.data.len() < 1 + BLOCK_SIZE + MAC_LENGTH {
        unmet_run("Session Message response is too short"@)
    } else {
        match measured_from(
            replies,
            used,
            call(
                Oracle::Cmac,
                secure.s_rmac,
                none,
                mac + outer.encoded().subrange(0, 3 + length),
            ),
            16,
            "session response MAC failed"@,
        ) {
            Err(halt) => Err(halt),
            Ok((code, used)) => if outer.data.subrange(length, outer.data.len() as int)
                != code.subrange(0, 8) {
                unmet_run("Session Message response MAC did not verify"@)
            } else if outer.data[0] != secure.sid {
                unmet_run("Session Message response changed SID"@)
            } else {
                match computed_from(
                    replies,
                    used,
                    call(Oracle::DecryptCbc, secure.s_enc, iv, outer.data.subrange(1, length)),
                    None,
                    "session response decryption failed"@,
                ) {
                    Err(halt) => Err(halt),
                    Ok((clear, used)) => match unpadded(clear) {
                        Err(_) => unmet_run("session response padding failed"@),
                        Ok(encoded) => match FrameModel::parsed(encoded) {
                            Err(error) => Err(HostHaltModel::Failed(FailureModel::Inner(error))),
                            Ok(frame) => Ok(
                                (
                                    ExchangeModel {
                                        secure: SecureModel {
                                            chaining: mac,
                                            counter: following_counter(secure.counter),
                                            ..secure
                                        },
                                        frame,
                                    },
                                    used,
                                ),
                            ),
                        },
                    },
                }
            },
        }
    }
}

/// What a command in a session gives.
pub open spec fn commanded(
    secure: SecureModel,
    request: FrameModel,
    replies: Seq<HostReply>,
    used: nat,
) -> HostRun<ExchangeModel> {
    let none = Seq::<u8>::empty();
    let command = CommandCode::SessionMessage;
    if request.data.len() > MAX_DATA_LENGTH {
        unmet_run("a request is too long"@)
    } else {
        match measured_from(
            replies,
            used,
            call(Oracle::EncryptBlock, secure.s_enc, none, secure.counter),
            16,
            "session IV generation failed"@,
        ) {
            Err(halt) => Err(halt),
            Ok((iv, used)) => match computed_from(
                replies,
                used,
                call(Oracle::EncryptCbc, secure.s_enc, iv, padded(request.encoded())),
                None,
                "session encryption failed"@,
            ) {
                Err(halt) => Err(halt),
                Ok((ciphertext, used)) => {
                    let body = seq![secure.sid] + ciphertext;
                    let total = body.len() + MAC_LENGTH;
                    if total > MAX_DATA_LENGTH {
                        unmet_run("a request is too long"@)
                    } else {
                        match measured_from(
                            replies,
                            used,
                            call(
                                Oracle::Cmac,
                                secure.s_mac,
                                none,
                                secure.chaining + seq![command.byte()] + u16_be(total as u16)
                                    + body,
                            ),
                            16,
                            "session command MAC failed"@,
                        ) {
                            Err(halt) => Err(halt),
                            Ok((mac, used)) => match frame_from(
                                replies,
                                used,
                                FrameModel {
                                    command: command.byte(),
                                    data: body + mac.subrange(0, 8),
                                },
                            ) {
                                Err(halt) => Err(halt),
                                Ok((outer, used)) => unwrapped_response(
                                    secure,
                                    mac,
                                    iv,
                                    outer,
                                    replies,
                                    used,
                                ),
                            },
                        }
                    }
                },
            },
        }
    }
}

/// Derives the keys of a session.
fn derive_keys(
    static_keys: &[u8; 32],
    context: &[u8],
    answers: &mut HostAnswers,
) -> (keys: core::result::Result<
    DerivedKeys,
    HostHalt,
>)
    requires
        old(answers).valid(),
    ensures
        final(answers).valid(),
        final(answers).replies == old(answers).replies,
        host_run(keys, final(answers).used) == derived(
            static_keys@,
            context@,
            old(answers).replies@,
            old(answers).used as nat,
        ),
        keys matches Ok(keys) ==> keys.s_enc@.len() == 16 && keys.s_mac@.len() == 16
            && keys.s_rmac@.len() == 16,
{
    let none: Vec<u8> = Vec::new();
    assert(none@ =~= Seq::<u8>::empty());
    let encryption: Vec<u8> = copied_range(static_keys, 0, 16);
    let authentication: Vec<u8> = copied_range(static_keys, 16, 32);
    let s_enc: Vec<u8> = answers.measured(
        Oracle::Scp03Key(0x04),
        &encryption,
        &none,
        context,
        16,
        "S-ENC derivation failed",
    )?;
    let s_mac: Vec<u8> = answers.measured(
        Oracle::Scp03Key(0x06),
        &authentication,
        &none,
        context,
        16,
        "S-MAC derivation failed",
    )?;
    let s_rmac: Vec<u8> = answers.measured(
        Oracle::Scp03Key(0x07),
        &authentication,
        &none,
        context,
        16,
        "S-RMAC derivation failed",
    )?;
    Ok(DerivedKeys { s_enc, s_mac, s_rmac })
}

/// Authenticates a session that a device opened.
fn confirm(
    create: &[u8],
    keys: &DerivedKeys,
    context: &[u8],
    answers: &mut HostAnswers,
) -> (session: core::result::Result<
    SecureSession,
    HostHalt,
>)
    requires
        old(answers).valid(),
        create@.len() == 17,
        keys.s_enc@.len() == 16,
        keys.s_mac@.len() == 16,
        keys.s_rmac@.len() == 16,
    ensures
        final(answers).valid(),
        final(answers).replies == old(answers).replies,
        host_run(session, final(answers).used) == confirmed(
            create@,
            keys@,
            context@,
            old(answers).replies@,
            old(answers).used as nat,
        ),
{
    let none: Vec<u8> = Vec::new();
    assert(none@ =~= Seq::<u8>::empty());
    let sid: u8 = create[0];
    let card: Vec<u8> = answers.measured(
        Oracle::Scp03Cryptogram(0x00),
        &keys.s_mac,
        &none,
        context,
        8,
        "card cryptogram derivation failed",
    )?;
    if !equal(&copied_range(create, 9, create.len()), &card) {
        return unmet("card cryptogram did not verify");
    }
    let host: Vec<u8> = answers.measured(
        Oracle::Scp03Cryptogram(0x01),
        &keys.s_mac,
        &none,
        context,
        8,
        "host cryptogram derivation failed",
    )?;
    let mut payload: Vec<u8> = single(sid);
    append(&mut payload, &host);
    let zero: [u8; 16] = [0, 0, 0, 0, 0, 0, 0, 0, 0, 0, 0, 0, 0, 0, 0, 0];
    assert(zero@ =~= zero_block());
    let mut input: Vec<u8> = copied(&zero);
    input.push(CommandCode::AuthenticateSession.to_byte());
    write_u16(&mut input, 17);
    append(&mut input, &payload);
    assert(input@ =~= zero_block() + seq![CommandCode::AuthenticateSession.byte()] + u16_be(17)
        + payload@);
    let mac: Vec<u8> = answers.measured(
        Oracle::Cmac,
        &keys.s_mac,
        &none,
        &input,
        16,
        "Authenticate Session MAC failed",
    )?;
    append(&mut payload, &copied_range(&mac, 0, 8));
    let response = answers.exchange_frame(
        &Frame { command: CommandCode::AuthenticateSession.to_byte(), data: payload },
    )?;
    host_lift(expect_response(&response, CommandCode::AuthenticateSession))?;
    let counter: [u8; 16] = [0, 0, 0, 0, 0, 0, 0, 0, 0, 0, 0, 0, 0, 0, 0, 1];
    assert(counter@ =~= first_counter());
    let session = SecureSession {
        sid,
        s_enc: first_sixteen(&keys.s_enc),
        s_mac: first_sixteen(&keys.s_mac),
        s_rmac: first_sixteen(&keys.s_rmac),
        counter,
        mac_chaining_value: first_sixteen(&mac),
    };
    assert(session@.s_enc =~= keys.s_enc@);
    assert(session@.s_mac =~= keys.s_mac@);
    assert(session@.s_rmac =~= keys.s_rmac@);
    assert(session@.chaining =~= mac@);
    Ok(session)
}

/// Opens a session.
pub fn open_session(
    credentials: &Credentials,
    answers: &mut HostAnswers,
) -> (session: core::result::Result<
    SecureSession,
    HostHalt,
>)
    requires
        old(answers).valid(),
    ensures
        final(answers).valid(),
        final(answers).replies == old(answers).replies,
        host_run(session, final(answers).used) == opened(
            credentials@,
            old(answers).replies@,
            old(answers).used as nat,
        ),
{
    let challenge: Vec<u8> = vec![0x51, 0x75, 0x61, 0x6c, 0x69, 0x66, 0x79, 0x21];
    assert(challenge@ =~= host_challenge());
    let mut data: Vec<u8> = Vec::new();
    write_u16(&mut data, credentials.authentication_key_id);
    append(&mut data, &challenge);
    assert(data@ =~= u16_be(credentials.authentication_key_id) + host_challenge());
    let response = answers.exchange_frame(
        &Frame { command: CommandCode::CreateSession.to_byte(), data },
    )?;
    let create: Vec<u8> = host_lift(expect_response(&response, CommandCode::CreateSession))?;
    if create.len() != 17 {
        return Err(HostHalt::Failed(Failure::Length("Create Session returned", create.len())));
    }
    let context: Vec<u8> = joined(&challenge, &copied_range(&create, 1, 9));
    let keys = derive_keys(&credentials.static_keys, &context, answers)?;
    confirm(&create, &keys, &context, answers)
}

/// Takes what a response in a session holds.
fn unwrap_response(
    secure: &SecureSession,
    mac: &[u8],
    iv: &[u8],
    outer: Frame,
    answers: &mut HostAnswers,
) -> (exchange: core::result::Result<Exchange, HostHalt>)
    requires
        old(answers).valid(),
        mac@.len() == 16,
    ensures
        final(answers).valid(),
        final(answers).replies == old(answers).replies,
        host_run(exchange, final(answers).used) == unwrapped_response(
            secure@,
            mac@,
            iv@,
            outer@,
            old(answers).replies@,
            old(answers).used as nat,
        ),
{
    let none: Vec<u8> = Vec::new();
    assert(none@ =~= Seq::<u8>::empty());
    if outer.command == ERROR_COMMAND {
        return Ok(Exchange { secure: secure.copied(), frame: outer });
    }
    if outer.command != CommandCode::SessionMessage.to_byte() | RESPONSE_BIT {
        return Err(
            HostHalt::Failed(
                Failure::Byte("unexpected Session Message response command", outer.command),
            ),
        );
    }
    if outer.data.len() < 1 + BLOCK_SIZE + MAC_LENGTH {
        return unmet("Session Message response is too short");
    }
    let length: usize = outer.data.len() - MAC_LENGTH;
    let encoded: Vec<u8> = outer.encode();
    let input: Vec<u8> = joined(mac, &copied_range(&encoded, 0, 3 + length));
    let code: Vec<u8> = answers.measured(
        Oracle::Cmac,
        &secure.s_rmac,
        &none,
        &input,
        16,
        "session response MAC failed",
    )?;
    if !equal(&copied_range(&outer.data, length, outer.data.len()), &copied_range(&code, 0, 8)) {
        return unmet("Session Message response MAC did not verify");
    }
    if outer.data[0] != secure.sid {
        return unmet("Session Message response changed SID");
    }
    let clear: Vec<u8> = answers.compute(
        OracleCall {
            oracle: Oracle::DecryptCbc,
            key: copied(&secure.s_enc),
            parameter: copied(iv),
            data: copied_range(&outer.data, 1, length),
        },
        None,
        "session response decryption failed",
    )?;
    match unpad(clear) {
        Err(_) => unmet("session response padding failed"),
        Ok(encoded) => match Frame::parse(&encoded) {
            Err(error) => Err(HostHalt::Failed(Failure::Inner(error))),
            Ok(frame) => {
                let mut next = secure.copied();
                next.mac_chaining_value = first_sixteen(mac);
                increment_counter(&mut next.counter);
                assert(next@.chaining =~= mac@);
                Ok(Exchange { secure: next, frame })
            },
        },
    }
}

/// Sends a command in a session and takes its response.
pub fn send_command(
    secure: &SecureSession,
    request: &Frame,
    answers: &mut HostAnswers,
) -> (exchange: core::result::Result<
    Exchange,
    HostHalt,
>)
    requires
        old(answers).valid(),
    ensures
        final(answers).valid(),
        final(answers).replies == old(answers).replies,
        host_run(exchange, final(answers).used) == commanded(
            secure@,
            request@,
            old(answers).replies@,
            old(answers).used as nat,
        ),
{
    let none: Vec<u8> = Vec::new();
    assert(none@ =~= Seq::<u8>::empty());
    if request.data.len() > MAX_DATA_LENGTH {
        return unmet("a request is too long");
    }
    let iv: Vec<u8> = answers.measured(
        Oracle::EncryptBlock,
        &secure.s_enc,
        &none,
        &secure.counter,
        16,
        "session IV generation failed",
    )?;
    let ciphertext: Vec<u8> = answers.compute(
        OracleCall {
            oracle: Oracle::EncryptCbc,
            key: copied(&secure.s_enc),
            parameter: copied(&iv),
            data: pad(&request.encode()),
        },
        None,
        "session encryption failed",
    )?;
    if ciphertext.len() > MAX_DATA_LENGTH - MAC_LENGTH - 1 {
        return unmet("a request is too long");
    }
    let mut data: Vec<u8> = single(secure.sid);
    append(&mut data, &ciphertext);
    let mut input: Vec<u8> = copied(&secure.mac_chaining_value);
    input.push(CommandCode::SessionMessage.to_byte());
    write_u16(&mut input, (data.len() + MAC_LENGTH) as u16);
    append(&mut input, &data);
    assert(input@ =~= secure@.chaining + seq![CommandCode::SessionMessage.byte()] + u16_be(
        (data@.len() + MAC_LENGTH) as u16,
    ) + data@);
    let mac: Vec<u8> = answers.measured(
        Oracle::Cmac,
        &secure.s_mac,
        &none,
        &input,
        16,
        "session command MAC failed",
    )?;
    append(&mut data, &copied_range(&mac, 0, 8));
    let outer = answers.exchange_frame(
        &Frame { command: CommandCode::SessionMessage.to_byte(), data },
    )?;
    unwrap_response(secure, &mac, &iv, outer, answers)
}

} // verus!
