//! Sessions: opening and authenticating them, and the messages that they carry.
use crate::audit::{EntryModel, PendingEntry};
use crate::authorization::SessionAuthorization;
use crate::bytes::{append, copied, single};
use crate::device::{effect_is_valid, Device, DeviceModel, Effect, EffectModel, MAX_SESSIONS};
use crate::engine::{
    asked, fail, lift, run, Answers, EngineFailure, EngineReply, EngineRequest, Halt, HaltModel,
    RequestModel, Run,
};
use crate::error::{DeviceError, Result};
use crate::execute::{objects_after, response_of, result_code, Plan};
use crate::frame::{Frame, FrameModel, ERROR_COMMAND, MAX_DATA_LENGTH};
use crate::object::{AuthenticationKeyMaterial, MaterialModel};
use crate::outside::randomized;
use crate::protocol::CommandCode;
use crate::request::{IdRequest, SessionEnvelopeRequest};
use crate::session::{
    secure_length, secure_response_fits, SecureModel, SecureSession, SessionEntry, SessionModel,
    CHALLENGE_LENGTH, P256_PUBLIC_KEY_LENGTH,
};
use crate::session_object::SessionObjects;
use crate::store::{draw_random, random_from};
use crate::wire::{decode, decoded};
use vstd::prelude::*;

verus! {

/// The first number from `sid` on that no session has.
pub open spec fn first_free(sessions: Map<u8, SessionModel>, sid: u8) -> Option<u8>
    decreases MAX_SESSIONS - sid,
{
    if sid >= MAX_SESSIONS {
        None
    } else if !sessions.contains_key(sid) {
        Some(sid)
    } else {
        first_free(sessions, (sid + 1) as u8)
    }
}

/// A new session and what its host is told of it.
pub struct Opening {
    pub session: SessionEntry,
    pub data: Vec<u8>,
}

/// The contents of an opening.
#[verifier::ext_equal]
pub struct OpeningModel {
    pub session: SessionModel,
    pub data: Seq<u8>,
}

impl View for Opening {
    type V = OpeningModel;

    open spec fn view(&self) -> OpeningModel {
        OpeningModel { session: self.session@, data: self.data@ }
    }
}

/// A decrypted request and its response.
pub struct Observation {
    pub authorization: SessionAuthorization,
    pub request: Frame,
    pub response: Frame,
}

/// The contents of an observation.
#[verifier::ext_equal]
pub struct ObservationModel {
    pub authorization: SessionAuthorization,
    pub request: FrameModel,
    pub response: FrameModel,
}

impl View for Observation {
    type V = ObservationModel;

    open spec fn view(&self) -> ObservationModel {
        ObservationModel {
            authorization: self.authorization,
            request: self.request@,
            response: self.response@,
        }
    }
}

/// The response to a request, and what it did inside a session, where it got
/// there.
pub struct Handled {
    pub response: Frame,
    pub observation: Option<Observation>,
}

/// The contents of a response and its observation.
#[verifier::ext_equal]
pub struct HandledModel {
    pub response: FrameModel,
    pub observation: Option<ObservationModel>,
}

impl View for Handled {
    type V = HandledModel;

    open spec fn view(&self) -> HandledModel {
        HandledModel {
            response: self.response@,
            observation: match self.observation {
                Some(observation) => Some(observation@),
                None => None,
            },
        }
    }
}

/// A device and what it answered.
#[verifier::ext_equal]
pub struct StepModel {
    pub device: DeviceModel,
    pub handled: HandledModel,
}

/// A response outside every session.
pub open spec fn unobserved(response: FrameModel) -> HandledModel {
    HandledModel { response, observation: None }
}

/// What a message leaves to be done: the response, the secure channel where the
/// session goes on, and what the command inside did.
pub struct Message {
    pub handled: Handled,
    pub kept: Option<SecureSession>,
    pub effect: Effect,
    pub entry: PendingEntry,
    pub durable: bool,
}

/// The contents of a message's plan.
#[verifier::ext_equal]
pub struct MessageModel {
    pub handled: HandledModel,
    pub kept: Option<SecureModel>,
    pub effect: EffectModel,
    pub entry: Option<EntryModel>,
    pub durable: bool,
}

impl View for Message {
    type V = MessageModel;

    open spec fn view(&self) -> MessageModel {
        MessageModel {
            handled: self.handled@,
            kept: match self.kept {
                Some(secure) => Some(secure@),
                None => None,
            },
            effect: self.effect@,
            entry: self.entry@,
            durable: self.durable,
        }
    }
}

/// The plan of a message that ends its session and did nothing.
pub open spec fn broken_off(error: DeviceError) -> MessageModel {
    MessageModel {
        handled: unobserved(FrameModel::error(error)),
        kept: None,
        effect: EffectModel::Nothing,
        entry: None,
        durable: false,
    }
}

/// Why a session may not use a command at all.
pub open spec fn session_refusal(
    authorization: SessionAuthorization,
    request: FrameModel,
) -> Option<
    DeviceError,
> {
    match CommandCode::of_byte(request.command) {
        Some(command) => match command.session_capability() {
            Some(capability) => match authorization.may(capability) {
                Ok(()) => None,
                Err(error) => Some(error),
            },
            None => None,
        },
        None => None,
    }
}

/// A response that the secure channel can carry.
pub open spec fn fitted(response: FrameModel) -> FrameModel {
    if secure_length(response.data.len() as int) <= MAX_DATA_LENGTH {
        response
    } else {
        FrameModel::error(DeviceError::WrongLength)
    }
}

/// Whether a command ends its session: closing does, and so does a reset that
/// the device itself carried out.
pub open spec fn ends_session(request: FrameModel, response: FrameModel, overridden: bool) -> bool {
    match CommandCode::of_byte(request.command) {
        Some(CommandCode::CloseSession) => true,
        Some(CommandCode::ResetDevice) => !overridden && response.command != ERROR_COMMAND,
        _ => false,
    }
}

/// The plan of a message whose command has its response.
pub open spec fn enclosed(
    authorization: SessionAuthorization,
    secure: SecureModel,
    request: FrameModel,
    inner: FrameModel,
    overridden: bool,
    effect: EffectModel,
    entry: Option<EntryModel>,
    durable: bool,
    replies: Seq<EngineReply>,
    used: nat,
) -> Run<MessageModel> {
    let response = fitted(inner);
    let observation = Some(ObservationModel { authorization, request, response });
    match secure.encrypted(response, replies, used) {
        Err(HaltModel::Ask(question)) => Err(HaltModel::Ask(question)),
        Err(HaltModel::Error(error, used)) => Ok(
            (
                MessageModel {
                    handled: HandledModel { response: FrameModel::error(error), observation },
                    kept: None,
                    effect,
                    entry,
                    durable,
                },
                used,
            ),
        ),
        Ok((exchange, used)) => Ok(
            (
                MessageModel {
                    handled: HandledModel { response: exchange.frame, observation },
                    kept: if ends_session(request, response, overridden) {
                        None
                    } else {
                        Some(exchange.secure)
                    },
                    effect,
                    entry,
                    durable,
                },
                used,
            ),
        ),
    }
}

impl DeviceModel {
    /// The session that a host opens, and what the host is told of it.
    pub open spec fn opens_session(
        self,
        authorization: SessionAuthorization,
        host: Seq<u8>,
        now: u64,
        replies: Seq<EngineReply>,
        used: nat,
    ) -> Run<OpeningModel> {
        match self.authentication_material(authorization.authentication_key_id) {
            Err(error) => Err(HaltModel::Error(error, used)),
            Ok(material) => match first_free(self.sessions, 0) {
                None => Err(HaltModel::Error(DeviceError::SessionsFull, used)),
                Some(sid) => match material {
                    MaterialModel::Symmetric(static_keys) => if host.len() != CHALLENGE_LENGTH {
                        Err(HaltModel::Error(DeviceError::WrongLength, used))
                    } else {
                        match random_from(replies, used, CHALLENGE_LENGTH) {
                            Err(halt) => Err(halt),
                            Ok((card, used)) => match SecureModel::symmetric(
                                sid,
                                static_keys,
                                host,
                                card,
                                replies,
                                used,
                            ) {
                                Err(halt) => Err(halt),
                                Ok((opening, used)) => Ok(
                                    (
                                        OpeningModel {
                                            session: SessionModel {
                                                authorization,
                                                secure: opening.secure,
                                                expected_host_cryptogram: Some(
                                                    opening.host_cryptogram,
                                                ),
                                                authenticated: false,
                                                last_activity: now,
                                                objects: Map::empty(),
                                            },
                                            data: seq![sid] + card + opening.card_cryptogram,
                                        },
                                        used,
                                    ),
                                ),
                            },
                        }
                    },
                    MaterialModel::Asymmetric(host_static) => if host.len()
                        != P256_PUBLIC_KEY_LENGTH {
                        Err(HaltModel::Error(DeviceError::WrongLength, used))
                    } else {
                        match SecureModel::asymmetric(
                            sid,
                            self.key,
                            host_static,
                            host,
                            replies,
                            used,
                        ) {
                            Err(halt) => Err(halt),
                            Ok((opening, used)) => Ok(
                                (
                                    OpeningModel {
                                        session: SessionModel {
                                            authorization,
                                            secure: opening.secure,
                                            expected_host_cryptogram: None,
                                            authenticated: true,
                                            last_activity: now,
                                            objects: Map::empty(),
                                        },
                                        data: seq![sid] + opening.ephemeral_public
                                            + opening.receipt,
                                    },
                                    used,
                                ),
                            ),
                        }
                    },
                    _ => Err(HaltModel::Error(DeviceError::InvalidData, used)),
                },
            },
        }
    }

    /// The device after a session command, with the command's entry in the audit
    /// log where it is audited.
    pub open spec fn sealed(
        self,
        after: DeviceModel,
        authorization: SessionAuthorization,
        command: CommandCode,
        request: FrameModel,
        result: core::result::Result<Seq<u8>, DeviceError>,
        replies: Seq<EngineReply>,
        used: nat,
    ) -> Run<StepModel> {
        let handled = unobserved(response_of(command.byte(), result));
        if !self.audits(command) {
            Ok((StepModel { device: after, handled }, used))
        } else {
            match self.audit.entry(
                self.config.log_capacity,
                authorization,
                command,
                request.data,
                result_code(result),
                replies,
                used,
            ) {
                Err(halt) => Err(halt),
                Ok((entry, used)) => Ok((StepModel { device: after.logged(entry), handled }, used)),
            }
        }
    }

    /// The device with a session in its place.
    pub open spec fn with_session(self, session: SessionModel) -> DeviceModel {
        DeviceModel { sessions: self.sessions.insert(session.secure.sid, session), ..self }
    }

    /// The device without the session of a number.
    pub open spec fn without_session(self, sid: u8) -> DeviceModel {
        DeviceModel { sessions: self.sessions.remove(sid), ..self }
    }

    /// What opening a session does.
    pub open spec fn creates_session(
        self,
        request: FrameModel,
        now: u64,
        replies: Seq<EngineReply>,
        used: nat,
    ) -> Run<StepModel> {
        match decoded::<IdRequest>(request.data) {
            Err(error) => Err(HaltModel::Error(error, used)),
            Ok(decoded) => match self.authorizes(decoded.id) {
                Err(error) => Err(HaltModel::Error(error, used)),
                Ok(authorization) => match self.opens_session(
                    authorization,
                    decoded.data,
                    now,
                    replies,
                    used,
                ) {
                    Err(HaltModel::Ask(question)) => Err(HaltModel::Ask(question)),
                    Err(HaltModel::Error(error, used)) => self.sealed(
                        self,
                        authorization,
                        CommandCode::CreateSession,
                        request,
                        Err(error),
                        replies,
                        used,
                    ),
                    Ok((opening, used)) => self.sealed(
                        if opening.session.authenticated {
                            self.with_session(opening.session).counted()
                        } else {
                            self.with_session(opening.session)
                        },
                        authorization,
                        CommandCode::CreateSession,
                        request,
                        Ok(opening.data),
                        replies,
                        used,
                    ),
                },
            },
        }
    }

    /// The secure channel of a session that its host proves to know.
    pub open spec fn confirms(
        session: SessionModel,
        request: FrameModel,
        replies: Seq<EngineReply>,
        used: nat,
    ) -> Run<SecureModel> {
        if session.authenticated {
            Err(HaltModel::Error(DeviceError::InvalidSession, used))
        } else {
            match session.expected_host_cryptogram {
                None => Err(HaltModel::Error(DeviceError::AuthenticationFailed, used)),
                Some(expected) => session.secure.authenticated(request, expected, replies, used),
            }
        }
    }

    /// What authenticating a session does: where it fails, the session is gone.
    pub open spec fn authenticates_session(
        self,
        request: FrameModel,
        now: u64,
        replies: Seq<EngineReply>,
        used: nat,
    ) -> Run<StepModel> {
        match decoded::<SessionEnvelopeRequest>(request.data) {
            Err(error) => Err(HaltModel::Error(error, used)),
            Ok(envelope) => if !self.sessions.contains_key(envelope.session_id) {
                Err(HaltModel::Error(DeviceError::InvalidSession, used))
            } else {
                let sid = envelope.session_id;
                let session = self.sessions[sid];
                match DeviceModel::confirms(session, request, replies, used) {
                    Err(HaltModel::Ask(question)) => Err(HaltModel::Ask(question)),
                    Err(HaltModel::Error(error, used)) => self.sealed(
                        self.without_session(sid),
                        session.authorization,
                        CommandCode::AuthenticateSession,
                        request,
                        Err(error),
                        replies,
                        used,
                    ),
                    Ok((secure, used)) => self.sealed(
                        (DeviceModel {
                            sessions: self.sessions.insert(
                                sid,
                                SessionModel {
                                    secure,
                                    expected_host_cryptogram: None,
                                    authenticated: true,
                                    last_activity: now,
                                    ..session
                                },
                            ),
                            ..self
                        }).counted(),
                        session.authorization,
                        CommandCode::AuthenticateSession,
                        request,
                        Ok(Seq::empty()),
                        replies,
                        used,
                    ),
                }
            },
        }
    }

    /// The plan of a decrypted command that the session may use and that
    /// nothing overrides.
    pub open spec fn delegated(
        self,
        session: SessionModel,
        secure: SecureModel,
        request: FrameModel,
        replies: Seq<EngineReply>,
        used: nat,
    ) -> Run<MessageModel> {
        match self.planned(session.authorization, request, Some(session.objects), replies, used) {
            Err(HaltModel::Ask(question)) => Err(HaltModel::Ask(question)),
            Err(HaltModel::Error(error, used)) => enclosed(
                session.authorization,
                secure,
                request,
                FrameModel::error(error),
                false,
                EffectModel::Nothing,
                None,
                false,
                replies,
                used,
            ),
            Ok((plan, used)) => enclosed(
                session.authorization,
                secure,
                request,
                plan.response,
                false,
                plan.effect,
                plan.entry,
                plan.durable,
                replies,
                used,
            ),
        }
    }

    /// The plan of a message to a session. Where `hooked`, a command that the
    /// session may use is offered outside the device first.
    pub open spec fn answers_message(
        self,
        session: SessionModel,
        request: FrameModel,
        hooked: bool,
        replies: Seq<EngineReply>,
        used: nat,
    ) -> Run<MessageModel> {
        if !session.authenticated {
            Ok((broken_off(DeviceError::InvalidSession), used))
        } else {
            match session.secure.decrypted(request, replies, used) {
                Err(HaltModel::Ask(question)) => Err(HaltModel::Ask(question)),
                Err(HaltModel::Error(error, used)) => Ok((broken_off(error), used)),
                Ok((exchange, used)) => match session_refusal(
                    session.authorization,
                    exchange.frame,
                ) {
                    Some(error) => enclosed(
                        session.authorization,
                        exchange.secure,
                        exchange.frame,
                        FrameModel::error(error),
                        true,
                        EffectModel::Nothing,
                        None,
                        false,
                        replies,
                        used,
                    ),
                    None => if hooked {
                        match asked(
                            replies,
                            used,
                            RequestModel::Override(session.authorization, exchange.frame),
                        ) {
                            Err(halt) => Err(halt),
                            Ok((EngineReply::Response(response), used)) => enclosed(
                                session.authorization,
                                exchange.secure,
                                exchange.frame,
                                response@,
                                true,
                                EffectModel::Nothing,
                                None,
                                false,
                                replies,
                                used,
                            ),
                            Ok((_, used)) => self.delegated(
                                session,
                                exchange.secure,
                                exchange.frame,
                                replies,
                                used,
                            ),
                        }
                    } else {
                        self.delegated(session, exchange.secure, exchange.frame, replies, used)
                    },
                },
            }
        }
    }

    /// A device after a message to a session that was taken out of it.
    pub open spec fn after_message(
        self,
        sid: u8,
        session: SessionModel,
        message: MessageModel,
        now: u64,
    ) -> DeviceModel {
        let after = self.committed(message.effect, message.entry, message.durable);
        match message.kept {
            None => after,
            Some(secure) => DeviceModel {
                sessions: after.sessions.insert(
                    sid,
                    SessionModel {
                        secure,
                        last_activity: now,
                        objects: objects_after(session.objects, message.effect),
                        ..session
                    },
                ),
                ..after
            },
        }
    }

    /// What a message to a session does: where its secure channel fails, the
    /// session is gone.
    pub open spec fn carries_message(
        self,
        request: FrameModel,
        now: u64,
        hooked: bool,
        replies: Seq<EngineReply>,
        used: nat,
    ) -> Run<StepModel> {
        match decoded::<SessionEnvelopeRequest>(request.data) {
            Err(error) => Err(HaltModel::Error(error, used)),
            Ok(envelope) => if !self.sessions.contains_key(envelope.session_id) {
                Err(HaltModel::Error(DeviceError::InvalidSession, used))
            } else {
                let sid = envelope.session_id;
                let session = self.sessions[sid];
                let without = self.without_session(sid);
                match without.answers_message(session, request, hooked, replies, used) {
                    Err(halt) => Err(halt),
                    Ok((message, used)) => Ok(
                        (
                            StepModel {
                                device: without.after_message(sid, session, message, now),
                                handled: message.handled,
                            },
                            used,
                        ),
                    ),
                }
            },
        }
    }

    /// What a request from outside does, once idle sessions are gone.
    pub open spec fn receives(
        self,
        request: FrameModel,
        now: u64,
        hooked: bool,
        replies: Seq<EngineReply>,
    ) -> Run<StepModel> {
        match CommandCode::of_byte(request.command) {
            Some(CommandCode::CreateSession) => self.creates_session(request, now, replies, 0),
            Some(CommandCode::AuthenticateSession) => self.authenticates_session(
                request,
                now,
                replies,
                0,
            ),
            Some(CommandCode::SessionMessage) => self.carries_message(
                request,
                now,
                hooked,
                replies,
                0,
            ),
            _ => match self.plain(request) {
                Some(output) => Ok(
                    (
                        StepModel {
                            device: self,
                            handled: unobserved(response_of(request.command, output)),
                        },
                        0,
                    ),
                ),
                None => Err(HaltModel::Error(DeviceError::InvalidCommand, 0)),
            },
        }
    }
}

/// What a step ends with: its outcome where it has one, an error response on an
/// unchanged device, or the question that is still open.
pub open spec fn conclusion(before: DeviceModel, step: Run<StepModel>) -> (
    DeviceModel,
    core::result::Result<HandledModel, RequestModel>,
) {
    match step {
        Ok((step, _)) => (step.device, Ok(step.handled)),
        Err(HaltModel::Error(error, _)) => (before, Ok(unobserved(FrameModel::error(error)))),
        Err(HaltModel::Ask(question)) => (before, Err(question)),
    }
}

impl DeviceModel {
    /// What handling a request ends with.
    pub open spec fn handles_frame(
        self,
        request: FrameModel,
        now: u64,
        hooked: bool,
        replies: Seq<EngineReply>,
    ) -> (DeviceModel, core::result::Result<HandledModel, RequestModel>) {
        conclusion(self.expired(now), self.expired(now).receives(request, now, hooked, replies))
    }

    /// What handling an encoded message ends with: one that is no frame is
    /// answered with the reason, and every other as its frame is.
    pub open spec fn handles_encoded(
        self,
        encoded: Seq<u8>,
        now: u64,
        hooked: bool,
        replies: Seq<EngineReply>,
    ) -> (DeviceModel, core::result::Result<AnsweredModel, RequestModel>) {
        match FrameModel::parsed(encoded) {
            Err(error) => (
                self,
                Ok(
                    AnsweredModel {
                        response: FrameModel::error(error).encoded(),
                        observation: None,
                    },
                ),
            ),
            Ok(request) => {
                let (after, handled) = self.handles_frame(request, now, hooked, replies);
                (
                    after,
                    match handled {
                        Ok(handled) => Ok(
                            AnsweredModel {
                                response: handled.response.encoded(),
                                observation: handled.observation,
                            },
                        ),
                        Err(question) => Err(question),
                    },
                )
            },
        }
    }
}

/// An encoded response, and what was done inside a session.
pub struct Answered {
    pub response: Vec<u8>,
    pub observation: Option<Observation>,
}

/// The contents of an encoded response.
#[verifier::ext_equal]
pub struct AnsweredModel {
    pub response: Seq<u8>,
    pub observation: Option<ObservationModel>,
}

impl View for Answered {
    type V = AnsweredModel;

    open spec fn view(&self) -> AnsweredModel {
        AnsweredModel {
            response: self.response@,
            observation: match self.observation {
                Some(observation) => Some(observation@),
                None => None,
            },
        }
    }
}

/// The contents of a response, or of the question that is still open.
pub open spec fn open_model<T: View>(
    outcome: core::result::Result<T, EngineRequest>,
) -> core::result::Result<
    T::V,
    RequestModel,
> {
    match outcome {
        Ok(response) => Ok(response@),
        Err(question) => Err(question@),
    }
}

/// Whether a step was done as a run says, by a run of its own.
spec fn followed(
    before: DeviceModel,
    after: DeviceModel,
    outcome: Run<HandledModel>,
    step: Run<StepModel>,
) -> bool {
    match step {
        Ok((step, used)) => after == step.device && outcome == Ok::<
            (HandledModel, nat),
            HaltModel,
        >((step.handled, used)),
        Err(halt) => after == before && outcome == Err::<(HandledModel, nat), HaltModel>(halt),
    }
}

/// A response outside every session.
fn unobserved_response(response: Frame) -> (handled: Handled)
    ensures
        handled@ == unobserved(response@),
{
    Handled { response, observation: None }
}

/// The plan of a message that ends its session and did nothing.
fn break_off(error: DeviceError) -> (message: Message)
    ensures
        message@ == broken_off(error),
{
    Message {
        handled: unobserved_response(Frame::error(error)),
        kept: None,
        effect: Effect::Nothing,
        entry: PendingEntry { entry: None },
        durable: false,
    }
}

/// Finds out why a session may not use a command at all.
fn authorization_error(authorization: SessionAuthorization, request: &Frame) -> (refusal: Option<
    DeviceError,
>)
    ensures
        refusal == session_refusal(authorization, request@),
{
    match CommandCode::from_byte(request.command) {
        Some(command) => match command.required_session_capability() {
            Some(capability) => match authorization.require_capability(capability) {
                Ok(()) => None,
                Err(error) => Some(error),
            },
            None => None,
        },
        None => None,
    }
}

/// Tells whether a command ends its session.
fn closes_session(request: &Frame, response: &Frame, overridden: bool) -> (closes: bool)
    ensures
        closes == ends_session(request@, response@, overridden),
{
    match CommandCode::from_byte(request.command) {
        Some(CommandCode::CloseSession) => true,
        Some(CommandCode::ResetDevice) => !overridden && response.command != ERROR_COMMAND,
        _ => false,
    }
}

/// Makes the plan of a message whose command has its response.
fn enclose(
    authorization: SessionAuthorization,
    secure: &SecureSession,
    request: Frame,
    plan: Plan,
    overridden: bool,
    answers: &mut Answers,
) -> (message: core::result::Result<Message, Halt>)
    requires
        old(answers).valid(),
    ensures
        final(answers).valid(),
        final(answers).replies == old(answers).replies,
        run(message, final(answers).used) == enclosed(
            authorization,
            secure@,
            request@,
            plan@.response,
            overridden,
            plan@.effect,
            plan@.entry,
            plan@.durable,
            old(answers).replies@,
            old(answers).used as nat,
        ),
        message matches Ok(message) ==> message@.effect == plan@.effect,
{
    let Plan { response, effect, entry, durable } = plan;
    let response = if secure_response_fits(&response) {
        response
    } else {
        Frame::error(DeviceError::WrongLength)
    };
    let closes: bool = closes_session(&request, &response, overridden);
    match secure.encrypt_response(&response, answers) {
        Err(Halt::Ask(question)) => Err(Halt::Ask(question)),
        Err(Halt::Error(error)) => {
            let observation = Some(Observation { authorization, request, response });
            Ok(
                Message {
                    handled: Handled { response: Frame::error(error), observation },
                    kept: None,
                    effect,
                    entry,
                    durable,
                },
            )
        },
        Ok(exchange) => {
            let observation = Some(Observation { authorization, request, response });
            let kept = if closes {
                None
            } else {
                Some(exchange.secure)
            };
            Ok(
                Message {
                    handled: Handled { response: exchange.frame, observation },
                    kept,
                    effect,
                    entry,
                    durable,
                },
            )
        },
    }
}

/// The plan of a response that comes with no effect.
fn bare_plan(response: Frame) -> (plan: Plan)
    ensures
        plan@.response == response@,
        plan@.effect == EffectModel::Nothing,
        plan@.entry is None,
        !plan@.durable,
{
    Plan { response, effect: Effect::Nothing, entry: PendingEntry { entry: None }, durable: false }
}

impl Device {
    /// Finds the first number that no session has.
    fn free_session(&self) -> (sid: Option<u8>)
        ensures
            sid == first_free(self@.sessions, 0),
    {
        let mut sid: u8 = 0;
        while sid < MAX_SESSIONS
            invariant
                sid <= MAX_SESSIONS,
                first_free(self@.sessions, 0) == first_free(self@.sessions, sid),
            decreases MAX_SESSIONS - sid,
        {
            if self.session(sid).is_none() {
                return Some(sid);
            }
            sid = sid + 1;
        }
        None
    }

    /// Opens a session for a host.
    fn open_session(
        &self,
        authorization: SessionAuthorization,
        host: &[u8],
        now: u64,
        answers: &mut Answers,
    ) -> (opening: core::result::Result<Opening, Halt>)
        requires
            old(answers).valid(),
        ensures
            final(answers).valid(),
            final(answers).replies == old(answers).replies,
            run(opening, final(answers).used) == self@.opens_session(
                authorization,
                host@,
                now,
                old(answers).replies@,
                old(answers).used as nat,
            ),
    {
        let material = lift(
            self.authentication_key_material(authorization.authentication_key_id),
        )?;
        let sid: u8 = match self.free_session() {
            Some(sid) => sid,
            None => {
                return fail(DeviceError::SessionsFull);
            },
        };
        let mut data: Vec<u8> = single(sid);
        match material {
            AuthenticationKeyMaterial::Symmetric(static_keys) => {
                if host.len() != CHALLENGE_LENGTH {
                    return fail(DeviceError::WrongLength);
                }
                let card: Vec<u8> = draw_random(CHALLENGE_LENGTH, answers)?;
                let opening = SecureSession::begin_symmetric(
                    sid,
                    static_keys,
                    host,
                    &card,
                    answers,
                )?;
                append(&mut data, &card);
                append(&mut data, &opening.card_cryptogram);
                Ok(
                    Opening {
                        session: SessionEntry {
                            authorization,
                            secure: opening.secure,
                            expected_host_cryptogram: Some(opening.host_cryptogram),
                            authenticated: false,
                            last_activity: now,
                            objects: SessionObjects::none(),
                        },
                        data,
                    },
                )
            },
            AuthenticationKeyMaterial::Asymmetric(host_static) => {
                if host.len() != P256_PUBLIC_KEY_LENGTH {
                    return fail(DeviceError::WrongLength);
                }
                let opening = SecureSession::begin_asymmetric(
                    sid,
                    &self.device_static_private,
                    host_static,
                    host,
                    answers,
                )?;
                append(&mut data, &opening.ephemeral_public);
                append(&mut data, &opening.receipt);
                Ok(
                    Opening {
                        session: SessionEntry {
                            authorization,
                            secure: opening.secure,
                            expected_host_cryptogram: None,
                            authenticated: true,
                            last_activity: now,
                            objects: SessionObjects::none(),
                        },
                        data,
                    },
                )
            },
        }
    }

    /// Makes the audit entry of a session command, where it is audited.
    fn session_entry(
        &self,
        authorization: SessionAuthorization,
        command: CommandCode,
        request: &Frame,
        code: u8,
        answers: &mut Answers,
    ) -> (entry: core::result::Result<PendingEntry, Halt>)
        requires
            old(answers).valid(),
        ensures
            final(answers).valid(),
            final(answers).replies == old(answers).replies,
            run(entry, final(answers).used) == (if self@.audits(command) {
                self@.audit.entry(
                    self@.config.log_capacity,
                    authorization,
                    command,
                    request@.data,
                    code,
                    old(answers).replies@,
                    old(answers).used as nat,
                )
            } else {
                Ok((None, old(answers).used as nat))
            }),
    {
        if self.should_audit(command) {
            self.audit.prepare(
                self.config.log_capacity,
                authorization,
                command,
                &request.data,
                code,
                answers,
            )
        } else {
            Ok(PendingEntry { entry: None })
        }
    }

    /// Opens a session.
    fn create_session(
        &mut self,
        request: &Frame,
        now: u64,
        answers: &mut Answers,
    ) -> (handled: core::result::Result<
        Handled,
        Halt,
    >)
        requires
            old(self).valid(),
            old(answers).valid(),
        ensures
            final(self).valid(),
            final(answers).valid(),
            final(answers).replies == old(answers).replies,
            followed(
                old(self)@,
                final(self)@,
                run(handled, final(answers).used),
                old(self)@.creates_session(
                    request@,
                    now,
                    old(answers).replies@,
                    old(answers).used as nat,
                ),
            ),
    {
        let decoded = lift(decode::<IdRequest>(&request.data))?;
        let authorization = lift(self.session_authorization(decoded.id))?;
        match self.open_session(authorization, decoded.data, now, answers) {
            Err(Halt::Ask(question)) => Err(Halt::Ask(question)),
            Err(Halt::Error(error)) => {
                let pending = self.session_entry(
                    authorization,
                    CommandCode::CreateSession,
                    request,
                    error.to_byte(),
                    answers,
                )?;
                self.log(pending.entry);
                Ok(unobserved_response(Frame::error(error)))
            },
            Ok(opening) => {
                let pending = self.session_entry(
                    authorization,
                    CommandCode::CreateSession,
                    request,
                    0,
                    answers,
                )?;
                let authenticated: bool = opening.session.authenticated;
                self.keep_session(opening.session.secure.sid, opening.session);
                if authenticated {
                    self.record_unlogged_authentication_if_full();
                }
                self.log(pending.entry);
                Ok(
                    unobserved_response(
                        Frame::response(CommandCode::CreateSession.to_byte(), opening.data),
                    ),
                )
            },
        }
    }

    /// Checks what a host proves of a session.
    fn confirm_session(
        session: &SessionEntry,
        request: &Frame,
        answers: &mut Answers,
    ) -> (secure: core::result::Result<
        SecureSession,
        Halt,
    >)
        requires
            old(answers).valid(),
        ensures
            final(answers).valid(),
            final(answers).replies == old(answers).replies,
            run(secure, final(answers).used) == DeviceModel::confirms(
                session@,
                request@,
                old(answers).replies@,
                old(answers).used as nat,
            ),
    {
        if session.authenticated {
            return fail(DeviceError::InvalidSession);
        }
        match &session.expected_host_cryptogram {
            None => fail(DeviceError::AuthenticationFailed),
            Some(expected) => session.secure.authenticate_symmetric(request, expected, answers),
        }
    }

    /// Authenticates a session.
    fn authenticate_session(
        &mut self,
        request: &Frame,
        now: u64,
        answers: &mut Answers,
    ) -> (handled: core::result::Result<
        Handled,
        Halt,
    >)
        requires
            old(self).valid(),
            old(answers).valid(),
        ensures
            final(self).valid(),
            final(answers).valid(),
            final(answers).replies == old(answers).replies,
            followed(
                old(self)@,
                final(self)@,
                run(handled, final(answers).used),
                old(self)@.authenticates_session(
                    request@,
                    now,
                    old(answers).replies@,
                    old(answers).used as nat,
                ),
            ),
    {
        let sid: u8 = lift(decode::<SessionEnvelopeRequest>(&request.data))?.session_id;
        let (confirmation, authorization) = match self.session(sid) {
            Some(session) => (
                Device::confirm_session(session, request, answers),
                session.authorization,
            ),
            None => {
                return fail(DeviceError::InvalidSession);
            },
        };
        match confirmation {
            Err(Halt::Ask(question)) => Err(Halt::Ask(question)),
            Err(Halt::Error(error)) => {
                let pending = self.session_entry(
                    authorization,
                    CommandCode::AuthenticateSession,
                    request,
                    error.to_byte(),
                    answers,
                )?;
                self.take_session(sid);
                self.log(pending.entry);
                Ok(unobserved_response(Frame::error(error)))
            },
            Ok(secure) => {
                let pending = self.session_entry(
                    authorization,
                    CommandCode::AuthenticateSession,
                    request,
                    0,
                    answers,
                )?;
                if let Some(mut session) = self.take_session(sid) {
                    session.secure = secure;
                    session.expected_host_cryptogram = None;
                    session.authenticated = true;
                    session.last_activity = now;
                    self.keep_session(sid, session);
                }
                let ghost session = SessionModel {
                    secure: secure@,
                    expected_host_cryptogram: None,
                    authenticated: true,
                    last_activity: now,
                    ..old(self)@.sessions[sid]
                };
                assert(self@.sessions =~= old(self)@.sessions.insert(sid, session));
                self.record_unlogged_authentication_if_full();
                self.log(pending.entry);
                let none: Vec<u8> = Vec::new();
                assert(none@ =~= Seq::<u8>::empty());
                Ok(
                    unobserved_response(
                        Frame::response(CommandCode::AuthenticateSession.to_byte(), none),
                    ),
                )
            },
        }
    }

    /// Makes the plan of a decrypted command that nothing overrides.
    fn delegate(
        &self,
        session: &SessionEntry,
        secure: &SecureSession,
        request: Frame,
        answers: &mut Answers,
    ) -> (message: core::result::Result<Message, Halt>)
        requires
            self.valid(),
            old(answers).valid(),
        ensures
            final(answers).valid(),
            final(answers).replies == old(answers).replies,
            run(message, final(answers).used) == self@.delegated(
                session@,
                secure@,
                request@,
                old(answers).replies@,
                old(answers).used as nat,
            ),
            message matches Ok(message) ==> effect_is_valid(message@.effect),
    {
        let plan = match self.plan_inner(
            session.authorization,
            &request,
            Some(&session.objects),
            answers,
        ) {
            Err(Halt::Ask(question)) => {
                return Err(Halt::Ask(question));
            },
            Err(Halt::Error(error)) => bare_plan(Frame::error(error)),
            Ok(plan) => plan,
        };
        enclose(session.authorization, secure, request, plan, false, answers)
    }

    /// Makes the plan of a message to a session.
    fn answer_message(
        &self,
        session: &SessionEntry,
        request: &Frame,
        hooked: bool,
        answers: &mut Answers,
    ) -> (message: core::result::Result<Message, Halt>)
        requires
            self.valid(),
            old(answers).valid(),
        ensures
            final(answers).valid(),
            final(answers).replies == old(answers).replies,
            run(message, final(answers).used) == self@.answers_message(
                session@,
                request@,
                hooked,
                old(answers).replies@,
                old(answers).used as nat,
            ),
            message matches Ok(message) ==> effect_is_valid(message@.effect),
    {
        if !session.authenticated {
            return Ok(break_off(DeviceError::InvalidSession));
        }
        let exchange = match session.secure.decrypt_request(request, answers) {
            Err(Halt::Ask(question)) => {
                return Err(Halt::Ask(question));
            },
            Err(Halt::Error(error)) => {
                return Ok(break_off(error));
            },
            Ok(exchange) => exchange,
        };
        let authorization = session.authorization;
        if let Some(error) = authorization_error(authorization, &exchange.frame) {
            let plan = bare_plan(Frame::error(error));
            return enclose(authorization, &exchange.secure, exchange.frame, plan, true, answers);
        }
        if hooked {
            let offer = EngineRequest::Override(authorization, exchange.frame.copied());
            match answers.next(offer)? {
                EngineReply::Response(response) => {
                    let plan = bare_plan(response.copied());
                    return enclose(
                        authorization,
                        &exchange.secure,
                        exchange.frame,
                        plan,
                        true,
                        answers,
                    );
                },
                _ => {},
            }
        }
        self.delegate(session, &exchange.secure, exchange.frame, answers)
    }

    /// Carries out the plan of a message to a session that was taken out of the
    /// device.
    fn carry_out(
        &mut self,
        sid: u8,
        session: SessionEntry,
        message: Message,
        now: u64,
    ) -> (handled: Handled)
        requires
            old(self).valid(),
            effect_is_valid(message@.effect),
        ensures
            final(self).valid(),
            final(self)@ == old(self)@.after_message(sid, session@, message@, now),
            handled@ == message@.handled,
    {
        let mut session = session;
        let Message { handled, kept, effect, entry, durable } = message;
        let effect = match effect {
            Effect::Add(handle, object) => {
                session.objects.insert(handle, object);
                Effect::Nothing
            },
            Effect::Discard(handle) => {
                session.objects.remove(handle);
                Effect::Nothing
            },
            other => other,
        };
        self.commit(effect, entry, durable);
        if let Some(secure) = kept {
            session.secure = secure;
            session.last_activity = now;
            self.keep_session(sid, session);
        }
        handled
    }

    /// Carries a message to a session.
    fn session_message_with(
        &mut self,
        request: &Frame,
        now: u64,
        hooked: bool,
        answers: &mut Answers,
    ) -> (handled: core::result::Result<Handled, Halt>)
        requires
            old(self).valid(),
            old(answers).valid(),
        ensures
            final(self).valid(),
            final(answers).valid(),
            final(answers).replies == old(answers).replies,
            followed(
                old(self)@,
                final(self)@,
                run(handled, final(answers).used),
                old(self)@.carries_message(
                    request@,
                    now,
                    hooked,
                    old(answers).replies@,
                    old(answers).used as nat,
                ),
            ),
    {
        let sid: u8 = lift(decode::<SessionEnvelopeRequest>(&request.data))?.session_id;
        let session = match self.take_session(sid) {
            Some(session) => session,
            None => {
                assert(self@.sessions =~= old(self)@.sessions);
                return fail(DeviceError::InvalidSession);
            },
        };
        let message = match self.answer_message(&session, request, hooked, answers) {
            Ok(message) => message,
            Err(halt) => {
                self.keep_session(sid, session);
                assert(self@.sessions =~= old(self)@.sessions);
                return Err(halt);
            },
        };
        Ok(self.carry_out(sid, session, message, now))
    }

    /// Handles a request from outside. While an answer of the engine is
    /// missing, the question comes back, and nothing has changed but that idle
    /// sessions are gone. Where `hooked`, a command that its session may use is
    /// offered outside the device first.
    pub fn handle_frame_with_hooks(
        &mut self,
        request: &Frame,
        now: u64,
        hooked: bool,
        replies: &[EngineReply],
    ) -> (handled: core::result::Result<Handled, EngineRequest>)
        requires
            old(self).valid(),
        ensures
            final(self).valid(),
            (final(self)@, open_model(handled)) == old(self)@.handles_frame(
                request@,
                now,
                hooked,
                replies@,
            ),
    {
        self.expire_inactive_sessions(now);
        let mut answers = Answers::new(replies);
        let outcome = match CommandCode::from_byte(request.command) {
            Some(CommandCode::CreateSession) => self.create_session(request, now, &mut answers),
            Some(CommandCode::AuthenticateSession) => self.authenticate_session(
                request,
                now,
                &mut answers,
            ),
            Some(CommandCode::SessionMessage) => self.session_message_with(
                request,
                now,
                hooked,
                &mut answers,
            ),
            _ => Ok(unobserved_response(self.execute_plain(request))),
        };
        match outcome {
            Ok(handled) => Ok(handled),
            Err(Halt::Error(error)) => Ok(unobserved_response(Frame::error(error))),
            Err(Halt::Ask(question)) => Err(question),
        }
    }
}

/// What a device does with an encoded message once some answers are there: it
/// asks the next question, or it is done.
#[verifier::opaque]
pub open spec fn question_after(
    device: DeviceModel,
    encoded: Seq<u8>,
    now: u64,
    hooked: bool,
    replies: Seq<EngineReply>,
) -> core::result::Result<AnsweredModel, RequestModel> {
    device.handles_encoded(encoded, now, hooked, replies).1
}

/// Whether a question for random bytes was answered as a random source does:
/// with as many bytes as were asked for, or, where any were, by refusing them.
pub open spec fn answers_random(
    question: core::result::Result<AnsweredModel, RequestModel>,
    reply: EngineReply,
) -> bool {
    question matches Err(RequestModel::Random(length)) && drawn(length, reply)
}

/// Whether an answer is one of a random source that was asked for some bytes.
pub open spec fn drawn(length: usize, reply: EngineReply) -> bool {
    match reply {
        EngineReply::Bytes(bytes) => bytes@.len() == length,
        reply => reply == EngineReply::Refused(EngineFailure::Unavailable) && length > 0,
    }
}

/// Whether answers were only added, and each of them to a question for random
/// bytes: the one that stood open once the answers before it were there.
pub open spec fn random_answered(
    device: DeviceModel,
    encoded: Seq<u8>,
    now: u64,
    hooked: bool,
    before: Seq<EngineReply>,
    after: Seq<EngineReply>,
) -> bool {
    &&& before.len() <= after.len()
    &&& after.subrange(0, before.len() as int) == before
    &&& forall|i: int|
        before.len() <= i < after.len() ==> answers_random(
            question_after(device, encoded, now, hooked, #[trigger] after.subrange(0, i)),
            after[i],
        )
}

/// One more question for random bytes may be answered.
proof fn lemma_random_answered(
    device: DeviceModel,
    encoded: Seq<u8>,
    now: u64,
    hooked: bool,
    before: Seq<EngineReply>,
    current: Seq<EngineReply>,
    reply: EngineReply,
)
    requires
        random_answered(device, encoded, now, hooked, before, current),
        answers_random(question_after(device, encoded, now, hooked, current), reply),
    ensures
        random_answered(device, encoded, now, hooked, before, current.push(reply)),
{
    let after = current.push(reply);
    assert(after.subrange(0, before.len() as int) =~= current.subrange(0, before.len() as int));
    assert forall|i: int| before.len() <= i < after.len() implies answers_random(
        question_after(device, encoded, now, hooked, #[trigger] after.subrange(0, i)),
        after[i],
    ) by {
        if i == current.len() {
            assert(after.subrange(0, i) =~= current);
        } else {
            assert(after.subrange(0, i) =~= current.subrange(0, i));
        }
    }
}

/// What a frame's request asks, its encoded message asks, before and after idle
/// sessions are dropped.
proof fn lemma_question_after(
    device: DeviceModel,
    current: DeviceModel,
    encoded: Seq<u8>,
    request: FrameModel,
    now: u64,
    hooked: bool,
    replies: Seq<EngineReply>,
)
    requires
        current == device || current == device.expired(now),
        FrameModel::parsed(encoded) == Ok::<FrameModel, DeviceError>(request),
    ensures
        current.handles_frame(request, now, hooked, replies).1 matches Err(question)
            ==> question_after(device, encoded, now, hooked, replies) == Err::<
            AnsweredModel,
            RequestModel,
        >(question),
{
    reveal(question_after);
    expiry_is_idempotent(device, now);
}

/// Draws the answer to a question for random bytes.
fn draw_reply(length: usize) -> (reply: EngineReply)
    ensures
        drawn(length, reply),
{
    let mut bytes: Vec<u8> = Vec::new();
    while bytes.len() < length
        invariant
            bytes@.len() <= length,
        decreases length - bytes@.len(),
    {
        bytes.push(0);
    }
    match randomized(bytes) {
        Some(bytes) => EngineReply::Bytes(bytes),
        None => EngineReply::Refused(EngineFailure::Unavailable),
    }
}

impl Device {
    /// Handles a request from outside, with the device's own implementation of
    /// every command.
    pub fn handle_frame(
        &mut self,
        request: &Frame,
        now: u64,
        replies: &[EngineReply],
    ) -> (response: core::result::Result<
        Frame,
        EngineRequest,
    >)
        requires
            old(self).valid(),
        ensures
            final(self).valid(),
            ({
                let (after, handled) = old(self)@.handles_frame(request@, now, false, replies@);
                final(self)@ == after && open_model(response) == (match handled {
                    Ok(handled) => Ok(handled.response),
                    Err(question) => Err(question),
                })
            }),
    {
        match self.handle_frame_with_hooks(request, now, false, replies) {
            Ok(handled) => Ok(handled.response),
            Err(question) => Err(question),
        }
    }

    /// Handles an encoded message. Questions for random bytes are answered on
    /// the way, by the operating system; what comes back is a response, or a
    /// question of another kind.
    fn advance(
        &mut self,
        encoded: &[u8],
        now: u64,
        hooked: bool,
        replies: &mut Vec<EngineReply>,
    ) -> (answer: core::result::Result<Answered, EngineRequest>)
        requires
            old(self).valid(),
        ensures
            final(self).valid(),
            random_answered(
                old(self)@,
                encoded@,
                now,
                hooked,
                old(replies)@,
                final(replies)@,
            ),
            (final(self)@, open_model(answer)) == old(self)@.handles_encoded(
                encoded@,
                now,
                hooked,
                final(replies)@,
            ),
            answer matches Err(question) ==> !(question is Random),
    {
        assert(replies@.subrange(0, replies@.len() as int) =~= replies@);
        let request = match Frame::parse(encoded) {
            Ok(request) => request,
            Err(error) => {
                return Ok(Answered { response: Frame::error(error).encode(), observation: None });
            },
        };
        loop
            invariant
                self.valid(),
                random_answered(old(self)@, encoded@, now, hooked, old(replies)@, replies@),
                self@ == old(self)@ || self@ == old(self)@.expired(now),
                FrameModel::parsed(encoded@) == Ok::<FrameModel, DeviceError>(request@),
            decreases usize::MAX - replies@.len(),
        {
            proof {
                expiry_is_idempotent(old(self)@, now);
            }
            let ghost current = self@;
            match self.handle_frame_with_hooks(&request, now, hooked, replies) {
                Ok(handled) => {
                    return Ok(
                        Answered {
                            response: handled.response.encode(),
                            observation: handled.observation,
                        },
                    );
                },
                Err(EngineRequest::Random(length)) => {
                    let reply = draw_reply(length);
                    proof {
                        lemma_question_after(
                            old(self)@,
                            current,
                            encoded@,
                            request@,
                            now,
                            hooked,
                            replies@,
                        );
                        lemma_random_answered(
                            old(self)@,
                            encoded@,
                            now,
                            hooked,
                            old(replies)@,
                            replies@,
                            reply,
                        );
                    }
                    replies.push(reply);
                    assert(replies.len() <= usize::MAX);
                },
                Err(question) => {
                    return Err(question);
                },
            }
        }
    }

    /// Handles an encoded message of a connector.
    pub fn handle_encoded(
        &mut self,
        encoded: &[u8],
        now: u64,
        replies: &mut Vec<EngineReply>,
    ) -> (response: core::result::Result<
        Vec<u8>,
        EngineRequest,
    >)
        requires
            old(self).valid(),
        ensures
            final(self).valid(),
            random_answered(
                old(self)@,
                encoded@,
                now,
                false,
                old(replies)@,
                final(replies)@,
            ),
            ({
                let (after, answer) = old(self)@.handles_encoded(
                    encoded@,
                    now,
                    false,
                    final(replies)@,
                );
                final(self)@ == after && open_model(response) == (match answer {
                    Ok(answer) => Ok(answer.response),
                    Err(question) => Err(question),
                })
            }),
            response matches Err(question) ==> !(question is Random),
    {
        match self.advance(encoded, now, false, replies) {
            Ok(answer) => Ok(answer.response),
            Err(question) => Err(question),
        }
    }

    /// Handles an encoded message while something outside the device may handle
    /// decrypted commands: each is offered, as a question, once the session is
    /// known to have the command's capability, and the device runs what is left
    /// to it. Whatever overrides an object command minds that object's
    /// capabilities and domains itself.
    pub fn handle_encoded_with(
        &mut self,
        encoded: &[u8],
        now: u64,
        replies: &mut Vec<EngineReply>,
    ) -> (response: core::result::Result<Vec<u8>, EngineRequest>)
        requires
            old(self).valid(),
        ensures
            final(self).valid(),
            random_answered(
                old(self)@,
                encoded@,
                now,
                true,
                old(replies)@,
                final(replies)@,
            ),
            ({
                let (after, answer) = old(self)@.handles_encoded(
                    encoded@,
                    now,
                    true,
                    final(replies)@,
                );
                final(self)@ == after && open_model(response) == (match answer {
                    Ok(answer) => Ok(answer.response),
                    Err(question) => Err(question),
                })
            }),
            response matches Err(question) ==> !(question is Random),
    {
        match self.advance(encoded, now, true, replies) {
            Ok(answer) => Ok(answer.response),
            Err(question) => Err(question),
        }
    }

    /// Handles an encoded message, and tells what was done inside a session. Who
    /// is told cannot replace what the device does.
    pub fn handle_encoded_observing(
        &mut self,
        encoded: &[u8],
        now: u64,
        replies: &mut Vec<EngineReply>,
    ) -> (answer: core::result::Result<Answered, EngineRequest>)
        requires
            old(self).valid(),
        ensures
            final(self).valid(),
            random_answered(
                old(self)@,
                encoded@,
                now,
                false,
                old(replies)@,
                final(replies)@,
            ),
            (final(self)@, open_model(answer)) == old(self)@.handles_encoded(
                encoded@,
                now,
                false,
                final(replies)@,
            ),
            answer matches Err(question) ==> !(question is Random),
    {
        self.advance(encoded, now, false, replies)
    }
}

/// Sessions that were dropped for a moment stay dropped for that moment.
pub proof fn expiry_is_idempotent(device: DeviceModel, now: u64)
    ensures
        device.expired(now).expired(now) == device.expired(now),
{
    assert(device.expired(now).expired(now).sessions =~= device.expired(now).sessions);
}

/// No answer is added where no question for random bytes stands open: what the
/// device does with a message is then decided by the answers that it was given.
pub proof fn nothing_is_drawn_unasked(
    device: DeviceModel,
    encoded: Seq<u8>,
    now: u64,
    hooked: bool,
    before: Seq<EngineReply>,
    after: Seq<EngineReply>,
)
    requires
        random_answered(device, encoded, now, hooked, before, after),
        !(device.handles_encoded(encoded, now, hooked, before).1 matches Err(
            RequestModel::Random(_),
        )),
    ensures
        after == before,
{
    reveal(question_after);
    if after.len() > before.len() {
        let first = before.len() as int;
        assert(answers_random(
            question_after(device, encoded, now, hooked, after.subrange(0, first)),
            after[first],
        ));
    }
    assert(after.subrange(0, before.len() as int) =~= after);
}

/// While a question is open, nothing has changed but that idle sessions are gone.
pub proof fn questions_change_nothing(
    device: DeviceModel,
    request: FrameModel,
    now: u64,
    hooked: bool,
    replies: Seq<EngineReply>,
)
    ensures
        ({
            let (after, handled) = device.handles_frame(request, now, hooked, replies);
            handled is Err ==> after == device.expired(now)
        }),
{
}

/// Whether no session has a number beyond the limit.
pub open spec fn sessions_limited(device: DeviceModel) -> bool {
    forall|sid: u8| #[trigger] device.sessions.contains_key(sid) ==> sid < MAX_SESSIONS
}

/// A number that is found free is below the limit, and no session has it.
pub proof fn free_numbers_are_limited(sessions: Map<u8, SessionModel>, sid: u8)
    ensures
        first_free(sessions, sid) matches Some(free) ==> sid <= free < MAX_SESSIONS
            && !sessions.contains_key(free),
        first_free(sessions, sid) is None ==> forall|other: u8|
            sid <= other < MAX_SESSIONS ==> #[trigger] sessions.contains_key(other),
    decreases MAX_SESSIONS - sid,
{
    if sid < MAX_SESSIONS && sessions.contains_key(sid) {
        free_numbers_are_limited(sessions, (sid + 1) as u8);
    }
}

/// Whatever a device receives, it never has more sessions than the limit.
pub proof fn sessions_stay_limited(
    device: DeviceModel,
    request: FrameModel,
    now: u64,
    hooked: bool,
    replies: Seq<EngineReply>,
)
    requires
        sessions_limited(device),
    ensures
        sessions_limited(device.handles_frame(request, now, hooked, replies).0),
{
    let device = device.expired(now);
    opening_keeps_sessions_limited(device, request, now, replies, 0);
    authenticating_keeps_sessions_limited(device, request, now, replies, 0);
    messages_keep_sessions_limited(device, request, now, hooked, replies, 0);
}

/// Opening a session keeps to the limit.
proof fn opening_keeps_sessions_limited(
    device: DeviceModel,
    request: FrameModel,
    now: u64,
    replies: Seq<EngineReply>,
    used: nat,
)
    requires
        sessions_limited(device),
    ensures
        device.creates_session(request, now, replies, used) matches Ok((step, _))
            ==> sessions_limited(step.device),
{
    if let Ok(request) = decoded::<IdRequest>(request.data) {
        if let Ok(authorization) = device.authorizes(request.id) {
            opened_numbers_are_limited(device, authorization, request.data, now, replies, used);
        }
    }
}

/// A session that is opened has a number below the limit.
proof fn opened_numbers_are_limited(
    device: DeviceModel,
    authorization: SessionAuthorization,
    host: Seq<u8>,
    now: u64,
    replies: Seq<EngineReply>,
    used: nat,
)
    ensures
        device.opens_session(authorization, host, now, replies, used) matches Ok((opening, _))
            ==> opening.session.secure.sid < MAX_SESSIONS,
{
    free_numbers_are_limited(device.sessions, 0);
}

/// Authenticating a session keeps to the limit.
proof fn authenticating_keeps_sessions_limited(
    device: DeviceModel,
    request: FrameModel,
    now: u64,
    replies: Seq<EngineReply>,
    used: nat,
)
    requires
        sessions_limited(device),
    ensures
        device.authenticates_session(request, now, replies, used) matches Ok((step, _))
            ==> sessions_limited(step.device),
{
}

/// A message to a session keeps to the limit.
proof fn messages_keep_sessions_limited(
    device: DeviceModel,
    request: FrameModel,
    now: u64,
    hooked: bool,
    replies: Seq<EngineReply>,
    used: nat,
)
    requires
        sessions_limited(device),
    ensures
        device.carries_message(request, now, hooked, replies, used) matches Ok((step, _))
            ==> sessions_limited(step.device),
{
    if let Ok(envelope) = decoded::<SessionEnvelopeRequest>(request.data) {
        let sid = envelope.session_id;
        if device.sessions.contains_key(sid) {
            let session = device.sessions[sid];
            let without = device.without_session(sid);
            let answer = without.answers_message(session, request, hooked, replies, used);
            if let Ok((message, _)) = answer {
                assert(sessions_limited(without.after_message(sid, session, message, now)));
            }
        }
    }
}

/// Where every number is taken, a new session is refused, whatever the host's
/// key, and the sessions stay as they are.
pub proof fn full_devices_refuse_sessions(
    device: DeviceModel,
    authorization: SessionAuthorization,
    host: Seq<u8>,
    now: u64,
    replies: Seq<EngineReply>,
    used: nat,
)
    requires
        forall|sid: u8| sid < MAX_SESSIONS ==> #[trigger] device.sessions.contains_key(sid),
        device.authentication_material(authorization.authentication_key_id) is Ok,
    ensures
        device.opens_session(authorization, host, now, replies, used) == Err::<
            (OpeningModel, nat),
            HaltModel,
        >(HaltModel::Error(DeviceError::SessionsFull, used)),
{
    free_numbers_are_limited(device.sessions, 0);
}

/// A session that is not authenticated carries no message: the answer is an
/// error, nothing is done, and the session is gone.
pub proof fn unauthenticated_sessions_carry_nothing(
    device: DeviceModel,
    sid: u8,
    request: FrameModel,
    now: u64,
    hooked: bool,
    replies: Seq<EngineReply>,
    used: nat,
)
    requires
        decoded::<SessionEnvelopeRequest>(request.data) matches Ok(envelope) && envelope.session_id
            == sid,
        device.sessions.contains_key(sid),
        !device.sessions[sid].authenticated,
    ensures
        device.carries_message(request, now, hooked, replies, used) matches Ok((step, _))
            && step.device == device.without_session(sid) && step.handled == unobserved(
            FrameModel::error(DeviceError::InvalidSession),
        ),
{
}

/// A message whose code does not verify is answered with an error, does nothing,
/// and costs the session.
pub proof fn forged_messages_end_their_session(
    device: DeviceModel,
    sid: u8,
    request: FrameModel,
    now: u64,
    hooked: bool,
    replies: Seq<EngineReply>,
    used: nat,
)
    requires
        decoded::<SessionEnvelopeRequest>(request.data) matches Ok(envelope) && envelope.session_id
            == sid,
        device.sessions.contains_key(sid),
        device.sessions[sid].authenticated,
        device.sessions[sid].secure.decrypted(request, replies, used) matches Err(
            HaltModel::Error(_, _),
        ),
    ensures
        device.carries_message(request, now, hooked, replies, used) matches Ok((step, _))
            && step.device == device.without_session(sid) && step.handled.response.command
            == ERROR_COMMAND,
{
}

/// A session that its host fails to authenticate is gone.
pub proof fn failed_authentication_ends_the_session(
    device: DeviceModel,
    sid: u8,
    request: FrameModel,
    now: u64,
    replies: Seq<EngineReply>,
    used: nat,
)
    requires
        decoded::<SessionEnvelopeRequest>(request.data) matches Ok(envelope) && envelope.session_id
            == sid,
        device.sessions.contains_key(sid),
        DeviceModel::confirms(device.sessions[sid], request, replies, used) matches Err(
            HaltModel::Error(_, _),
        ),
    ensures
        device.authenticates_session(request, now, replies, used) matches Ok((step, _))
            ==> !step.device.sessions.contains_key(sid) && step.handled.response.command
            == ERROR_COMMAND,
{
}

/// A command that its session may not use is never offered outside the device:
/// its answer is the same whether commands are offered or not.
pub proof fn capabilities_come_before_overrides(
    device: DeviceModel,
    session: SessionModel,
    request: FrameModel,
    replies: Seq<EngineReply>,
    used: nat,
)
    requires
        session.secure.decrypted(request, replies, used) matches Ok((exchange, _))
            && session_refusal(session.authorization, exchange.frame) is Some,
    ensures
        device.answers_message(session, request, true, replies, used) == device.answers_message(
            session,
            request,
            false,
            replies,
            used,
        ),
        device.answers_message(session, request, true, replies, used) matches Ok((message, _))
            ==> message.effect is Nothing && message.entry is None && !message.durable,
{
}

/// Plain messages that are no frames change nothing.
pub proof fn malformed_messages_change_nothing(
    device: DeviceModel,
    encoded: Seq<u8>,
    now: u64,
    hooked: bool,
    replies: Seq<EngineReply>,
)
    requires
        FrameModel::parsed(encoded) is Err,
    ensures
        device.handles_encoded(encoded, now, hooked, replies).0 == device,
        device.handles_encoded(encoded, now, hooked, replies).1 matches Ok(answer)
            && answer.response == FrameModel::error(
            FrameModel::parsed(encoded)->Err_0,
        ).encoded(),
{
}

} // verus!
