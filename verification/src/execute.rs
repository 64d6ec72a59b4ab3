//! Executing decrypted commands: the dispatch, the audit of what was done, and
//! what is then kept.
use crate::audit::{
    command_changes_persistent_state, command_is_meta, is_durable, is_meta, AuditState, EntryModel,
    PendingEntry,
};
use crate::authorization::SessionAuthorization;
use crate::bytes::copied;
use crate::device::{
    effect_is_valid, effects_keep_devices_valid, viewed, Device, DeviceModel, Effect, EffectModel,
    Outcome, OutcomeModel,
};
use crate::engine::{
    fail, key_from, lift, lifted, run, Answers, EngineReply, EngineRequest, Halt, HaltModel,
    Operation, RequestModel, Run,
};
use crate::error::{DeviceError, Result};
use crate::frame::{Frame, FrameModel, MAX_DATA_LENGTH};
use crate::keys::{EcCurve, KeyKind};
use crate::object::ObjectType;
use crate::options::OPTION_OFF;
use crate::protocol::CommandCode;
use crate::request::{ByteRequest, EmptyRequest, NumberRequest, ObjectKeyRequest};
use crate::session::{random_secret_key, secure_length, secure_response_data_fits};
use crate::session_object::{SessionObjects, VolatileModel};
use crate::store::{draw_random, random_from};
use crate::volatile::volatile_commands_keep_the_device;
use crate::wire::{decode, decoded, Decode};
use vstd::prelude::*;

verus! {

/// The answer to a request of which only the form matters.
pub open spec fn acknowledged<'a, T: Decode<'a>>(data: Seq<u8>) -> core::result::Result<
    Seq<u8>,
    DeviceError,
> {
    match decoded::<T>(data) {
        Ok(_) => Ok(Seq::empty()),
        Err(error) => Err(error),
    }
}

/// Answers a request of which only the form matters.
fn acknowledge<'a, T: Decode<'a>>(data: &'a [u8]) -> (output: Result<Vec<u8>>)
    ensures
        viewed(output) == acknowledged::<T>(data@),
{
    decode::<T>(data)?;
    let output: Vec<u8> = Vec::new();
    assert(output@ =~= Seq::<u8>::empty());
    Ok(output)
}

/// Random bytes, as many as are asked for.
pub open spec fn pseudo_random(data: Seq<u8>, replies: Seq<EngineReply>, used: nat) -> Run<
    Seq<u8>,
> {
    match decoded::<NumberRequest>(data) {
        Err(error) => Err(HaltModel::Error(error, used)),
        Ok(request) => random_from(replies, used, request.value as usize),
    }
}

/// Draws as many random bytes as are asked for.
fn get_pseudo_random(data: &[u8], answers: &mut Answers) -> (output: core::result::Result<
    Vec<u8>,
    Halt,
>)
    requires
        old(answers).valid(),
    ensures
        final(answers).valid(),
        final(answers).replies == old(answers).replies,
        run(output, final(answers).used) == pseudo_random(
            data@,
            old(answers).replies@,
            old(answers).used as nat,
        ),
{
    let request = lift(decode::<NumberRequest>(data))?;
    draw_random(request.value as usize, answers)
}

/// The outcome of what only answers.
pub open spec fn answered(output: Run<Seq<u8>>) -> Run<OutcomeModel> {
    match output {
        Ok((data, used)) => Ok((OutcomeModel { data, effect: EffectModel::Nothing }, used)),
        Err(halt) => Err(halt),
    }
}

/// What a command leaves to be done: its response, its effect, the entry for the
/// audit log, and whether what is stored has changed.
pub struct Plan {
    pub response: Frame,
    pub effect: Effect,
    pub entry: PendingEntry,
    pub durable: bool,
}

/// The contents of a plan.
#[verifier::ext_equal]
pub struct PlanModel {
    pub response: FrameModel,
    pub effect: EffectModel,
    pub entry: Option<EntryModel>,
    pub durable: bool,
}

impl View for Plan {
    type V = PlanModel;

    open spec fn view(&self) -> PlanModel {
        PlanModel {
            response: self.response@,
            effect: self.effect@,
            entry: self.entry@,
            durable: self.durable,
        }
    }
}

/// A session's volatile objects after an effect.
pub open spec fn objects_after(objects: Map<u64, VolatileModel>, effect: EffectModel) -> Map<
    u64,
    VolatileModel,
> {
    match effect {
        EffectModel::Add(handle, object) => objects.insert(handle, object),
        EffectModel::Discard(handle) => objects.remove(handle),
        _ => objects,
    }
}

/// The response to a request, by its result.
pub open spec fn response_of(
    command: u8,
    result: core::result::Result<Seq<u8>, DeviceError>,
) -> FrameModel {
    match result {
        Ok(data) => FrameModel::response(command, data),
        Err(error) => FrameModel::error(error),
    }
}

/// The code of a result in the audit log.
pub open spec fn result_code(result: core::result::Result<Seq<u8>, DeviceError>) -> u8 {
    match result {
        Ok(_) => 0,
        Err(error) => error.byte(),
    }
}

impl DeviceModel {
    /// What is answered outside a session too; nothing for other commands.
    pub open spec fn plain(self, request: FrameModel) -> Option<
        core::result::Result<Seq<u8>, DeviceError>,
    > {
        match CommandCode::of_byte(request.command) {
            Some(CommandCode::Echo) => Some(Ok(request.data)),
            Some(CommandCode::GetDeviceInfo) => Some(self.tells_device_info(request.data)),
            Some(CommandCode::GetDevicePublicKey) => Some(self.tells_public_key(request.data)),
            _ => None,
        }
    }

    /// The command of a request, where the firmware knows it.
    pub open spec fn known(self, request: FrameModel) -> Option<CommandCode> {
        match CommandCode::of_byte(request.command) {
            Some(command) => if command.available(self.firmware) {
                Some(command)
            } else {
                None
            },
            None => None,
        }
    }

    /// The commands that read what the device holds.
    pub open spec fn reads(
        self,
        authorization: SessionAuthorization,
        command: CommandCode,
        data: Seq<u8>,
    ) -> Option<core::result::Result<Seq<u8>, DeviceError>> {
        match command {
            CommandCode::CloseSession => Some(acknowledged::<EmptyRequest>(data)),
            CommandCode::BlinkDevice => Some(acknowledged::<ByteRequest>(data)),
            CommandCode::GetStorageInfo => Some(self.tells_storage(data)),
            CommandCode::ListObjects => Some(self.lists(authorization, data)),
            CommandCode::GetObjectInfo => Some(self.tells_object(authorization, data)),
            CommandCode::GetLogEntries => Some(self.tells_log(data)),
            CommandCode::GetOption => Some(self.tells_option(data)),
            CommandCode::GetPublicKey => Some(self.gets_public_key(authorization, data)),
            CommandCode::GetOpaque => Some(self.opens(ObjectType::Opaque, data)),
            CommandCode::GetTemplate => Some(self.opens(ObjectType::Template, data)),
            _ => None,
        }
    }

    /// The commands that compute with what the device holds.
    pub open spec fn uses(
        self,
        authorization: SessionAuthorization,
        command: CommandCode,
        data: Seq<u8>,
        replies: Seq<EngineReply>,
        used: nat,
    ) -> Option<Run<Seq<u8>>> {
        match command {
            CommandCode::GetPseudoRandom => Some(pseudo_random(data, replies, used)),
            CommandCode::SignAttestationCertificate => Some(
                self.signs_attestation(authorization, data, replies, used),
            ),
            CommandCode::SignPkcs1 => Some(self.signs_pkcs1(authorization, data, replies, used)),
            CommandCode::SignPss => Some(self.signs_pss(authorization, data, replies, used)),
            CommandCode::SignEcdsa => Some(self.signs_ecdsa(authorization, data, replies, used)),
            CommandCode::SignEddsa => Some(self.signs_eddsa(authorization, data, replies, used)),
            CommandCode::DeriveEcdh => Some(self.derives_ecdh(authorization, data, replies, used)),
            CommandCode::DeriveEcdhKdf => Some(
                self.derives_ecdh_kdf(authorization, data, replies, used),
            ),
            CommandCode::DecryptPkcs1 => Some(
                self.decrypts_pkcs1(authorization, data, replies, used),
            ),
            CommandCode::DecryptOaep => Some(
                self.decrypts_oaep(authorization, data, replies, used),
            ),
            CommandCode::SignHmac => Some(self.signs_hmac(authorization, data, replies, used)),
            CommandCode::VerifyHmac => Some(self.verifies_hmac(authorization, data, replies, used)),
            CommandCode::WrapData => Some(self.wraps_data(authorization, data, replies, used)),
            CommandCode::UnwrapData => Some(self.unwraps_data(authorization, data, replies, used)),
            CommandCode::ExportWrapped => Some(
                self.exports_wrapped(authorization, data, replies, used),
            ),
            CommandCode::GetRsaWrappedKey => Some(
                self.exports_rsa_wrapped(authorization, data, true, replies, used),
            ),
            CommandCode::ExportRsaWrapped => Some(
                self.exports_rsa_wrapped(authorization, data, false, replies, used),
            ),
            CommandCode::EncryptEcb => Some(
                self.crypts_ecb(authorization, data, true, replies, used),
            ),
            CommandCode::DecryptEcb => Some(
                self.crypts_ecb(authorization, data, false, replies, used),
            ),
            CommandCode::EncryptCbc => Some(
                self.crypts_cbc(authorization, data, true, replies, used),
            ),
            CommandCode::DecryptCbc => Some(
                self.crypts_cbc(authorization, data, false, replies, used),
            ),
            CommandCode::CreateOtpAead => Some(
                self.creates_otp_aead(authorization, data, replies, used),
            ),
            CommandCode::RandomizeOtpAead => Some(
                self.randomizes_otp_aead(authorization, data, replies, used),
            ),
            CommandCode::DecryptOtp => Some(self.decrypts_otp(authorization, data, replies, used)),
            CommandCode::RewrapOtpAead => Some(
                self.rewraps_otp_aead(authorization, data, replies, used),
            ),
            _ => None,
        }
    }

    /// The commands that store objects.
    pub open spec fn stores(
        self,
        authorization: SessionAuthorization,
        command: CommandCode,
        data: Seq<u8>,
        replies: Seq<EngineReply>,
        used: nat,
    ) -> Option<Run<OutcomeModel>> {
        match command {
            CommandCode::ChangeAuthenticationKey => Some(
                self.changes_authentication_key(data, replies, used),
            ),
            CommandCode::PutAuthenticationKey => Some(
                self.puts_authentication_key(authorization, data, replies, used),
            ),
            CommandCode::PutOpaque => Some(self.puts_opaque(authorization, data, replies, used)),
            CommandCode::PutTemplate => Some(
                self.puts_template(authorization, data, replies, used),
            ),
            CommandCode::PutAsymmetricKey => Some(
                self.puts_asymmetric_key(authorization, data, false, replies, used),
            ),
            CommandCode::GenerateAsymmetricKey => Some(
                self.puts_asymmetric_key(authorization, data, true, replies, used),
            ),
            CommandCode::PutHmacKey => Some(
                self.puts_hmac_key(authorization, data, false, replies, used),
            ),
            CommandCode::GenerateHmacKey => Some(
                self.puts_hmac_key(authorization, data, true, replies, used),
            ),
            CommandCode::PutWrapKey => Some(
                self.puts_wrap_key(authorization, data, false, replies, used),
            ),
            CommandCode::GenerateWrapKey => Some(
                self.puts_wrap_key(authorization, data, true, replies, used),
            ),
            CommandCode::PutPublicWrapKey => Some(
                self.puts_public_wrap_key(authorization, data, replies, used),
            ),
            CommandCode::PutSymmetricKey => Some(
                self.puts_symmetric_key(authorization, data, false, replies, used),
            ),
            CommandCode::GenerateSymmetricKey => Some(
                self.puts_symmetric_key(authorization, data, true, replies, used),
            ),
            CommandCode::PutOtpAeadKey => Some(
                self.puts_otp_aead_key(authorization, data, false, replies, used),
            ),
            CommandCode::GenerateOtpAeadKey => Some(
                self.puts_otp_aead_key(authorization, data, true, replies, used),
            ),
            CommandCode::ImportWrapped => Some(
                self.imports_wrapped(authorization, data, replies, used),
            ),
            CommandCode::ImportRsaWrapped => Some(
                self.imports_rsa_wrapped(authorization, data, replies, used),
            ),
            CommandCode::PutRsaWrappedKey => Some(
                self.puts_rsa_wrapped_key(authorization, data, replies, used),
            ),
            _ => None,
        }
    }

    /// The commands that change the device otherwise.
    pub open spec fn manages(
        self,
        authorization: SessionAuthorization,
        command: CommandCode,
        data: Seq<u8>,
        volatile: Option<Map<u64, VolatileModel>>,
        replies: Seq<EngineReply>,
        used: nat,
    ) -> Run<OutcomeModel> {
        match command {
            CommandCode::SetLogIndex => match decoded::<NumberRequest>(data) {
                Err(error) => Err(HaltModel::Error(error, used)),
                Ok(request) => Ok(
                    (
                        OutcomeModel {
                            data: Seq::empty(),
                            effect: EffectModel::TrimLog(request.value),
                        },
                        used,
                    ),
                ),
            },
            CommandCode::SetOption => match self.changed_options(data) {
                Err(error) => Err(HaltModel::Error(error, used)),
                Ok(options) => Ok(
                    (
                        OutcomeModel {
                            data: Seq::empty(),
                            effect: EffectModel::SetOptions(options),
                        },
                        used,
                    ),
                ),
            },
            CommandCode::DeleteObject => match decoded::<ObjectKeyRequest>(data) {
                Err(error) => Err(HaltModel::Error(error, used)),
                Ok(request) => Ok(
                    (
                        OutcomeModel {
                            data: Seq::empty(),
                            effect: EffectModel::Remove(request.target()),
                        },
                        used,
                    ),
                ),
            },
            CommandCode::ResetDevice => match decoded::<EmptyRequest>(data) {
                Err(error) => Err(HaltModel::Error(error, used)),
                Ok(_) => match key_from(
                    replies,
                    used,
                    RequestModel::keyed(
                        Operation::GenerateKey(KeyKind::Ec(EcCurve::P256)),
                        Seq::empty(),
                        Seq::empty(),
                    ),
                    KeyKind::Ec(EcCurve::P256),
                    DeviceError::StorageFailed,
                ) {
                    Err(halt) => Err(halt),
                    Ok((key, used)) => Ok(
                        (
                            OutcomeModel { data: Seq::empty(), effect: EffectModel::Reset(key) },
                            used,
                        ),
                    ),
                },
            },
            CommandCode::SessionObject => match volatile {
                Some(objects) => self.handles_volatile(
                    authorization,
                    objects,
                    data,
                    replies,
                    used,
                ),
                None => Err(HaltModel::Error(DeviceError::InvalidSession, used)),
            },
            _ => Err(HaltModel::Error(DeviceError::InvalidCommand, used)),
        }
    }

    /// What a command gives that the session may use.
    pub open spec fn dispatched(
        self,
        authorization: SessionAuthorization,
        command: CommandCode,
        data: Seq<u8>,
        volatile: Option<Map<u64, VolatileModel>>,
        replies: Seq<EngineReply>,
        used: nat,
    ) -> Run<OutcomeModel> {
        match self.reads(authorization, command, data) {
            Some(output) => answered(lifted(output, used)),
            None => match self.uses(authorization, command, data, replies, used) {
                Some(output) => answered(output),
                None => match self.stores(authorization, command, data, replies, used) {
                    Some(outcome) => outcome,
                    None => self.manages(
                        authorization,
                        command,
                        data,
                        volatile,
                        replies,
                        used,
                    ),
                },
            },
        }
    }

    /// What a decrypted request gives.
    pub open spec fn executed(
        self,
        authorization: SessionAuthorization,
        request: FrameModel,
        volatile: Option<Map<u64, VolatileModel>>,
        replies: Seq<EngineReply>,
        used: nat,
    ) -> Run<OutcomeModel> {
        match self.plain(request) {
            Some(output) => answered(lifted(output, used)),
            None => match self.known(request) {
                None => Err(HaltModel::Error(DeviceError::InvalidCommand, used)),
                Some(command) => match self.allows(authorization, command, request.data) {
                    Err(error) => Err(HaltModel::Error(error, used)),
                    Ok(()) => self.dispatched(
                        authorization,
                        command,
                        request.data,
                        volatile,
                        replies,
                        used,
                    ),
                },
            },
        }
    }

    /// Whether a full log stops a request: auditing is forced, there is no room
    /// for an entry, and the command is none that empties the log or belongs to
    /// the transport.
    pub open spec fn blocked(self, request: FrameModel) -> bool {
        match self.known(request) {
            Some(command) => !is_meta(command) && command != CommandCode::GetLogEntries && command
                != CommandCode::SetLogIndex && self.options.force_audit != OPTION_OFF
                && self.log_full(),
            None => false,
        }
    }

    /// The plan for a request with a known result and effect: its audit is
    /// written behind the log as the effect leaves it.
    pub open spec fn concluded(
        self,
        authorization: SessionAuthorization,
        request: FrameModel,
        result: core::result::Result<Seq<u8>, DeviceError>,
        effect: EffectModel,
        replies: Seq<EngineReply>,
        used: nat,
    ) -> Run<PlanModel> {
        let response = response_of(request.command, result);
        match self.known(request) {
            None => Ok((PlanModel { response, effect, entry: None, durable: false }, used)),
            Some(command) => {
                let durable = result is Ok && is_durable(command);
                if !self.audits(command) {
                    Ok((PlanModel { response, effect, entry: None, durable }, used))
                } else {
                    match self.applied(effect).audit.entry(
                        self.config.log_capacity,
                        authorization,
                        command,
                        request.data,
                        result_code(result),
                        replies,
                        used,
                    ) {
                        Err(halt) => Err(halt),
                        Ok((entry, used)) => Ok(
                            (PlanModel { response, effect, entry, durable }, used),
                        ),
                    }
                }
            },
        }
    }

    /// The plan for a decrypted request. An answer too long for a secure
    /// response becomes an error, though what the command did stays done.
    pub open spec fn planned(
        self,
        authorization: SessionAuthorization,
        request: FrameModel,
        volatile: Option<Map<u64, VolatileModel>>,
        replies: Seq<EngineReply>,
        used: nat,
    ) -> Run<PlanModel> {
        if self.blocked(request) {
            Ok(
                (
                    PlanModel {
                        response: FrameModel::error(DeviceError::LogFull),
                        effect: EffectModel::Nothing,
                        entry: None,
                        durable: false,
                    },
                    used,
                ),
            )
        } else {
            match self.executed(authorization, request, volatile, replies, used) {
                Err(HaltModel::Ask(question)) => Err(HaltModel::Ask(question)),
                Err(HaltModel::Error(error, used)) => self.concluded(
                    authorization,
                    request,
                    Err(error),
                    EffectModel::Nothing,
                    replies,
                    used,
                ),
                Ok((outcome, used)) => self.concluded(
                    authorization,
                    request,
                    if secure_length(outcome.data.len() as int) <= MAX_DATA_LENGTH {
                        Ok(outcome.data)
                    } else {
                        Err(DeviceError::WrongLength)
                    },
                    outcome.effect,
                    replies,
                    used,
                ),
            }
        }
    }

    /// The device after a command's effect, its entry in the audit log, and the
    /// mark that what is stored has changed.
    pub open spec fn committed(
        self,
        effect: EffectModel,
        entry: Option<EntryModel>,
        durable: bool,
    ) -> DeviceModel {
        let after = self.applied(effect).logged(entry);
        DeviceModel { changed: after.changed || durable, ..after }
    }
}

impl Device {
    /// Answers what is answered outside a session too.
    fn execute_plain_or_authenticated(&self, request: &Frame) -> (output: Option<Result<Vec<u8>>>)
        ensures
            match output {
                Some(output) => self@.plain(request@) == Some(viewed(output)),
                None => self@.plain(request@) is None,
            },
    {
        match CommandCode::from_byte(request.command) {
            Some(CommandCode::Echo) => Some(Ok(copied(&request.data))),
            Some(CommandCode::GetDeviceInfo) => Some(self.get_device_info(&request.data)),
            Some(CommandCode::GetDevicePublicKey) => Some(
                self.get_device_public_key(&request.data),
            ),
            _ => None,
        }
    }

    /// Handles a command that is valid outside a secure session.
    pub fn execute_plain(&self, request: &Frame) -> (response: Frame)
        ensures
            response@ == (match self@.plain(request@) {
                Some(output) => response_of(request@.command, output),
                None => FrameModel::error(DeviceError::InvalidCommand),
            }),
    {
        match self.execute_plain_or_authenticated(request) {
            Some(Ok(data)) => Frame::response(request.command, data),
            Some(Err(error)) => Frame::error(error),
            None => Frame::error(DeviceError::InvalidCommand),
        }
    }

    /// Finds the command of a request, where the firmware knows it.
    fn known_command(&self, request: &Frame) -> (command: Option<CommandCode>)
        ensures
            command == self@.known(request@),
    {
        match CommandCode::from_byte(request.command) {
            Some(command) => if command.supported_by_firmware(self.firmware) {
                Some(command)
            } else {
                None
            },
            None => None,
        }
    }

    /// Runs a command that reads what the device holds.
    fn read_command(
        &self,
        authorization: SessionAuthorization,
        command: CommandCode,
        data: &[u8],
    ) -> (output: Option<Result<Vec<u8>>>)
        requires
            self.valid(),
        ensures
            match output {
                Some(output) => self@.reads(authorization, command, data@) == Some(viewed(output)),
                None => self@.reads(authorization, command, data@) is None,
            },
    {
        match command {
            CommandCode::CloseSession => Some(acknowledge::<EmptyRequest>(data)),
            CommandCode::BlinkDevice => Some(acknowledge::<ByteRequest>(data)),
            CommandCode::GetStorageInfo => Some(self.get_storage_info(data)),
            CommandCode::ListObjects => Some(self.list_objects(authorization, data)),
            CommandCode::GetObjectInfo => Some(self.get_object_info(authorization, data)),
            CommandCode::GetLogEntries => Some(self.get_log_entries(data)),
            CommandCode::GetOption => Some(self.get_option(data)),
            CommandCode::GetPublicKey => Some(self.get_public_key(authorization, data)),
            CommandCode::GetOpaque => Some(self.get_contents(ObjectType::Opaque, data)),
            CommandCode::GetTemplate => Some(self.get_contents(ObjectType::Template, data)),
            _ => None,
        }
    }

    /// Runs a command that computes with what the device holds.
    fn use_command(
        &self,
        authorization: SessionAuthorization,
        command: CommandCode,
        data: &[u8],
        answers: &mut Answers,
    ) -> (output: Option<core::result::Result<Vec<u8>, Halt>>)
        requires
            old(answers).valid(),
        ensures
            final(answers).valid(),
            final(answers).replies == old(answers).replies,
            match output {
                Some(output) => self@.uses(
                    authorization,
                    command,
                    data@,
                    old(answers).replies@,
                    old(answers).used as nat,
                ) == Some(run(output, final(answers).used)),
                None => final(answers).used == old(answers).used && self@.uses(
                    authorization,
                    command,
                    data@,
                    old(answers).replies@,
                    old(answers).used as nat,
                ) is None,
            },
    {
        match command {
            CommandCode::GetPseudoRandom => Some(get_pseudo_random(data, answers)),
            CommandCode::SignAttestationCertificate => Some(
                self.sign_attestation_certificate(authorization, data, answers),
            ),
            CommandCode::SignPkcs1 => Some(self.sign_pkcs1(authorization, data, answers)),
            CommandCode::SignPss => Some(self.sign_pss(authorization, data, answers)),
            CommandCode::SignEcdsa => Some(self.sign_ecdsa(authorization, data, answers)),
            CommandCode::SignEddsa => Some(self.sign_eddsa(authorization, data, answers)),
            CommandCode::DeriveEcdh => Some(self.derive_ecdh(authorization, data, answers)),
            CommandCode::DeriveEcdhKdf => Some(self.derive_ecdh_kdf(authorization, data, answers)),
            CommandCode::DecryptPkcs1 => Some(self.decrypt_pkcs1(authorization, data, answers)),
            CommandCode::DecryptOaep => Some(self.decrypt_oaep(authorization, data, answers)),
            CommandCode::SignHmac => Some(self.sign_hmac(authorization, data, answers)),
            CommandCode::VerifyHmac => Some(self.verify_hmac(authorization, data, answers)),
            CommandCode::WrapData => Some(self.wrap_data(authorization, data, answers)),
            CommandCode::UnwrapData => Some(self.unwrap_data(authorization, data, answers)),
            CommandCode::ExportWrapped => Some(self.export_wrapped(authorization, data, answers)),
            CommandCode::GetRsaWrappedKey => Some(
                self.export_rsa_wrapped(authorization, data, true, answers),
            ),
            CommandCode::ExportRsaWrapped => Some(
                self.export_rsa_wrapped(authorization, data, false, answers),
            ),
            CommandCode::EncryptEcb => Some(self.crypt_aes_ecb(authorization, data, true, answers)),
            CommandCode::DecryptEcb => Some(
                self.crypt_aes_ecb(authorization, data, false, answers),
            ),
            CommandCode::EncryptCbc => Some(self.crypt_aes_cbc(authorization, data, true, answers)),
            CommandCode::DecryptCbc => Some(
                self.crypt_aes_cbc(authorization, data, false, answers),
            ),
            CommandCode::CreateOtpAead => Some(self.create_otp_aead(authorization, data, answers)),
            CommandCode::RandomizeOtpAead => Some(
                self.randomize_otp_aead(authorization, data, answers),
            ),
            CommandCode::DecryptOtp => Some(self.decrypt_otp(authorization, data, answers)),
            CommandCode::RewrapOtpAead => Some(self.rewrap_otp_aead(authorization, data, answers)),
            _ => None,
        }
    }

    /// Runs a command that stores an object.
    fn store_command(
        &self,
        authorization: SessionAuthorization,
        command: CommandCode,
        data: &[u8],
        answers: &mut Answers,
    ) -> (outcome: Option<core::result::Result<Outcome, Halt>>)
        requires
            old(answers).valid(),
        ensures
            final(answers).valid(),
            final(answers).replies == old(answers).replies,
            match outcome {
                Some(outcome) => self@.stores(
                    authorization,
                    command,
                    data@,
                    old(answers).replies@,
                    old(answers).used as nat,
                ) == Some(run(outcome, final(answers).used)),
                None => final(answers).used == old(answers).used && self@.stores(
                    authorization,
                    command,
                    data@,
                    old(answers).replies@,
                    old(answers).used as nat,
                ) is None,
            },
            outcome matches Some(Ok(outcome)) ==> effect_is_valid(outcome@.effect),
    {
        match command {
            CommandCode::ChangeAuthenticationKey => Some(
                self.change_authentication_key(data, answers),
            ),
            CommandCode::PutAuthenticationKey => Some(
                self.put_authentication_key(authorization, data, answers),
            ),
            CommandCode::PutOpaque => Some(self.put_opaque(authorization, data, answers)),
            CommandCode::PutTemplate => Some(self.put_template(authorization, data, answers)),
            CommandCode::PutAsymmetricKey => Some(
                self.put_asymmetric_key(authorization, data, false, answers),
            ),
            CommandCode::GenerateAsymmetricKey => Some(
                self.put_asymmetric_key(authorization, data, true, answers),
            ),
            CommandCode::PutHmacKey => Some(self.put_hmac_key(authorization, data, false, answers)),
            CommandCode::GenerateHmacKey => Some(
                self.put_hmac_key(authorization, data, true, answers),
            ),
            CommandCode::PutWrapKey => Some(self.put_wrap_key(authorization, data, false, answers)),
            CommandCode::GenerateWrapKey => Some(
                self.put_wrap_key(authorization, data, true, answers),
            ),
            CommandCode::PutPublicWrapKey => Some(
                self.put_public_wrap_key(authorization, data, answers),
            ),
            CommandCode::PutSymmetricKey => Some(
                self.put_symmetric_key(authorization, data, false, answers),
            ),
            CommandCode::GenerateSymmetricKey => Some(
                self.put_symmetric_key(authorization, data, true, answers),
            ),
            CommandCode::PutOtpAeadKey => Some(
                self.put_otp_aead_key(authorization, data, false, answers),
            ),
            CommandCode::GenerateOtpAeadKey => Some(
                self.put_otp_aead_key(authorization, data, true, answers),
            ),
            CommandCode::ImportWrapped => Some(self.import_wrapped(authorization, data, answers)),
            CommandCode::ImportRsaWrapped => Some(
                self.import_rsa_wrapped(authorization, data, answers),
            ),
            CommandCode::PutRsaWrappedKey => Some(
                self.put_rsa_wrapped_key(authorization, data, answers),
            ),
            _ => None,
        }
    }

    /// Runs a command that changes the device otherwise.
    fn manage_command(
        &self,
        authorization: SessionAuthorization,
        command: CommandCode,
        data: &[u8],
        objects: Option<&SessionObjects>,
        answers: &mut Answers,
    ) -> (outcome: core::result::Result<Outcome, Halt>)
        requires
            old(answers).valid(),
        ensures
            final(answers).valid(),
            final(answers).replies == old(answers).replies,
            run(outcome, final(answers).used) == self@.manages(
                authorization,
                command,
                data@,
                volatile_of(objects),
                old(answers).replies@,
                old(answers).used as nat,
            ),
            outcome matches Ok(outcome) ==> effect_is_valid(outcome@.effect),
    {
        let none: Vec<u8> = Vec::new();
        assert(none@ =~= Seq::<u8>::empty());
        match command {
            CommandCode::SetLogIndex => lift(self.set_log_index(data)),
            CommandCode::SetOption => lift(self.set_option(data)),
            CommandCode::DeleteObject => {
                let request = lift(decode::<ObjectKeyRequest>(data))?;
                Ok(Outcome { data: none, effect: Effect::Remove(request.key()) })
            },
            CommandCode::ResetDevice => {
                lift(decode::<EmptyRequest>(data))?;
                let key = random_secret_key(answers)?;
                Ok(Outcome { data: none, effect: Effect::Reset(key) })
            },
            CommandCode::SessionObject => match objects {
                Some(objects) => {
                    proof {
                        volatile_commands_keep_the_device(
                            self@,
                            authorization,
                            objects@,
                            data@,
                            answers.replies@,
                            answers.used as nat,
                        );
                    }
                    self.session_object_command(authorization, objects, data, answers)
                },
                None => fail(DeviceError::InvalidSession),
            },
            _ => fail(DeviceError::InvalidCommand),
        }
    }

    /// Executes a decrypted request, up to its effect.
    fn execute_inner_result(
        &self,
        authorization: SessionAuthorization,
        request: &Frame,
        objects: Option<&SessionObjects>,
        answers: &mut Answers,
    ) -> (outcome: core::result::Result<Outcome, Halt>)
        requires
            self.valid(),
            old(answers).valid(),
        ensures
            final(answers).valid(),
            final(answers).replies == old(answers).replies,
            run(outcome, final(answers).used) == self@.executed(
                authorization,
                request@,
                volatile_of(objects),
                old(answers).replies@,
                old(answers).used as nat,
            ),
            outcome matches Ok(outcome) ==> effect_is_valid(outcome@.effect),
    {
        if let Some(output) = self.execute_plain_or_authenticated(request) {
            let data: Vec<u8> = lift(output)?;
            return Ok(Outcome { data, effect: Effect::Nothing });
        }
        let command = match self.known_command(request) {
            Some(command) => command,
            None => {
                return fail(DeviceError::InvalidCommand);
            },
        };
        lift(self.authorize_command_request(authorization, command, &request.data))?;
        if let Some(output) = self.read_command(authorization, command, &request.data) {
            let data: Vec<u8> = lift(output)?;
            return Ok(Outcome { data, effect: Effect::Nothing });
        }
        if let Some(output) = self.use_command(authorization, command, &request.data, answers) {
            let data: Vec<u8> = output?;
            return Ok(Outcome { data, effect: Effect::Nothing });
        }
        match self.store_command(authorization, command, &request.data, answers) {
            Some(outcome) => outcome,
            None => self.manage_command(authorization, command, &request.data, objects, answers),
        }
    }

    /// Whether a full log stops a request.
    fn log_blocks(&self, request: &Frame) -> (blocked: bool)
        ensures
            blocked == self@.blocked(request@),
    {
        match self.known_command(request) {
            Some(command) => !command_is_meta(command) && command != CommandCode::GetLogEntries
                && command != CommandCode::SetLogIndex && self.options.force_audit != OPTION_OFF
                && self.audit.entries.len() >= self.config.log_capacity as usize,
            None => false,
        }
    }

    /// The audit log as an effect leaves it.
    fn audit_after(&self, effect: &Effect) -> (audit: AuditState)
        ensures
            audit@ == self@.applied(effect@).audit,
    {
        match effect {
            Effect::Reset(_) => AuditState::factory(),
            Effect::TrimLog(index) => {
                let mut audit = self.audit.copied();
                audit.trim(*index);
                audit
            },
            _ => self.audit.copied(),
        }
    }

    /// Makes the plan for a request with a known result and effect.
    fn conclude(
        &self,
        authorization: SessionAuthorization,
        request: &Frame,
        result: Result<Vec<u8>>,
        effect: Effect,
        answers: &mut Answers,
    ) -> (plan: core::result::Result<Plan, Halt>)
        requires
            old(answers).valid(),
        ensures
            final(answers).valid(),
            final(answers).replies == old(answers).replies,
            run(plan, final(answers).used) == self@.concluded(
                authorization,
                request@,
                viewed(result),
                effect@,
                old(answers).replies@,
                old(answers).used as nat,
            ),
            plan matches Ok(plan) ==> plan@.effect == effect@,
    {
        let succeeded: bool = result.is_ok();
        let code: u8 = match &result {
            Ok(_) => 0,
            Err(error) => error.to_byte(),
        };
        let response = match result {
            Ok(data) => Frame::response(request.command, data),
            Err(error) => Frame::error(error),
        };
        match self.known_command(request) {
            None => Ok(
                Plan { response, effect, entry: PendingEntry { entry: None }, durable: false },
            ),
            Some(command) => {
                let durable: bool = succeeded && command_changes_persistent_state(command);
                if !self.should_audit(command) {
                    return Ok(
                        Plan { response, effect, entry: PendingEntry { entry: None }, durable },
                    );
                }
                let audit = self.audit_after(&effect);
                let pending = audit.prepare(
                    self.config.log_capacity,
                    authorization,
                    command,
                    &request.data,
                    code,
                    answers,
                )?;
                Ok(Plan { response, effect, entry: pending, durable })
            },
        }
    }

    /// Makes the plan for a decrypted request.
    pub fn plan_inner(
        &self,
        authorization: SessionAuthorization,
        request: &Frame,
        objects: Option<&SessionObjects>,
        answers: &mut Answers,
    ) -> (plan: core::result::Result<Plan, Halt>)
        requires
            self.valid(),
            old(answers).valid(),
        ensures
            final(answers).valid(),
            final(answers).replies == old(answers).replies,
            run(plan, final(answers).used) == self@.planned(
                authorization,
                request@,
                volatile_of(objects),
                old(answers).replies@,
                old(answers).used as nat,
            ),
            plan matches Ok(plan) ==> effect_is_valid(plan@.effect),
    {
        if self.log_blocks(request) {
            return Ok(
                Plan {
                    response: Frame::error(DeviceError::LogFull),
                    effect: Effect::Nothing,
                    entry: PendingEntry { entry: None },
                    durable: false,
                },
            );
        }
        match self.execute_inner_result(authorization, request, objects, answers) {
            Err(Halt::Ask(question)) => Err(Halt::Ask(question)),
            Err(Halt::Error(error)) => self.conclude(
                authorization,
                request,
                Err(error),
                Effect::Nothing,
                answers,
            ),
            Ok(outcome) => {
                let result = if secure_response_data_fits(outcome.data.len()) {
                    Ok(outcome.data)
                } else {
                    Err(DeviceError::WrongLength)
                };
                self.conclude(authorization, request, result, outcome.effect, answers)
            },
        }
    }

    /// Carries out a plan.
    pub fn commit(&mut self, effect: Effect, entry: PendingEntry, durable: bool)
        requires
            old(self).valid(),
            effect_is_valid(effect@),
        ensures
            final(self).valid(),
            final(self)@ == old(self)@.committed(effect@, entry@, durable),
    {
        self.apply(effect);
        self.log(entry.entry);
        if durable {
            self.persistent_change = true;
        }
    }

    /// Executes a decrypted command under the authorization of a session. While
    /// an answer of the engine is missing, the question comes back and nothing
    /// has changed.
    pub fn execute_inner(
        &mut self,
        authorization: SessionAuthorization,
        request: &Frame,
        replies: &[EngineReply],
    ) -> (response: core::result::Result<Frame, EngineRequest>)
        requires
            old(self).valid(),
        ensures
            final(self).valid(),
            match old(self)@.planned(authorization, request@, None, replies@, 0) {
                Ok((plan, _)) => final(self)@ == old(self)@.committed(
                    plan.effect,
                    plan.entry,
                    plan.durable,
                ) && (response matches Ok(response) && response@ == plan.response),
                Err(HaltModel::Error(error, _)) => final(self)@ == old(self)@ && (
                response matches Ok(response) && response@ == FrameModel::error(error)),
                Err(HaltModel::Ask(question)) => final(self)@ == old(self)@ && (
                response matches Err(asked) && asked@ == question),
            },
    {
        let mut answers = Answers::new(replies);
        match self.plan_inner(authorization, request, None, &mut answers) {
            Ok(plan) => {
                let Plan { response, effect, entry, durable } = plan;
                self.commit(effect, entry, durable);
                Ok(response)
            },
            Err(Halt::Error(error)) => Ok(Frame::error(error)),
            Err(Halt::Ask(question)) => Err(question),
        }
    }
}

/// The volatile objects that a command may use.
pub open spec fn volatile_of(objects: Option<&SessionObjects>) -> Option<Map<u64, VolatileModel>> {
    match objects {
        Some(objects) => Some(objects@),
        None => None,
    }
}

/// A request that the session may not make is answered with the reason and
/// changes nothing but, where the command is audited, the log.
pub proof fn refused_requests_change_nothing(
    device: DeviceModel,
    authorization: SessionAuthorization,
    command: CommandCode,
    request: FrameModel,
    volatile: Option<Map<u64, VolatileModel>>,
    replies: Seq<EngineReply>,
    used: nat,
)
    requires
        device.known(request) == Some(command),
        device.plain(request) is None,
        !device.blocked(request),
        device.allows(authorization, command, request.data) is Err,
    ensures
        device.planned(authorization, request, volatile, replies, used) matches Ok((plan, _)) ==> {
            &&& plan.response == FrameModel::error(
                device.allows(authorization, command, request.data)->Err_0,
            )
            &&& device.committed(plan.effect, plan.entry, plan.durable) == device.logged(plan.entry)
            &&& plan.entry is Some ==> device.audits(command)
        },
        !device.audits(command) ==> device.planned(
            authorization,
            request,
            volatile,
            replies,
            used,
        ) is Ok,
{
}

/// A request that the firmware does not know is answered as such and changes
/// nothing.
pub proof fn unknown_requests_change_nothing(
    device: DeviceModel,
    authorization: SessionAuthorization,
    request: FrameModel,
    volatile: Option<Map<u64, VolatileModel>>,
    replies: Seq<EngineReply>,
    used: nat,
)
    requires
        device.known(request) is None,
        device.plain(request) is None,
    ensures
        device.planned(authorization, request, volatile, replies, used) matches Ok((plan, _))
            && plan.response == FrameModel::error(DeviceError::InvalidCommand)
            && device.committed(plan.effect, plan.entry, plan.durable) == device,
{
}

/// Where auditing is forced, a full log stops every command but those that read
/// and empty the log and those of the transport: nothing that should have been
/// audited is done unseen, and the log can always be emptied.
pub proof fn a_full_log_stops_other_commands(
    device: DeviceModel,
    authorization: SessionAuthorization,
    command: CommandCode,
    request: FrameModel,
    volatile: Option<Map<u64, VolatileModel>>,
    replies: Seq<EngineReply>,
    used: nat,
)
    requires
        device.known(request) == Some(command),
        device.options.force_audit != OPTION_OFF,
        device.log_full(),
    ensures
        device.blocked(request) <==> !is_meta(command) && command != CommandCode::GetLogEntries
            && command != CommandCode::SetLogIndex,
        device.blocked(request) ==> (device.planned(
            authorization,
            request,
            volatile,
            replies,
            used,
        ) matches Ok((plan, _)) && plan.response == FrameModel::error(DeviceError::LogFull)
            && device.committed(plan.effect, plan.entry, plan.durable) == device),
{
}

/// What a plan does keeps the device's objects consistent.
pub proof fn plans_keep_devices_valid(
    device: DeviceModel,
    effect: EffectModel,
    entry: Option<EntryModel>,
    durable: bool,
)
    requires
        device.valid(),
        effect_is_valid(effect),
    ensures
        device.committed(effect, entry, durable).valid(),
{
    effects_keep_devices_valid(device, effect);
}

} // verus!
