//! What outlives a power cycle: whatever changes is marked to be saved.
use crate::authorization::SessionAuthorization;
use crate::device::{DeviceModel, EffectModel, OutcomeModel};
use crate::engine::{EngineReply, Run};
use crate::frame::FrameModel;
use crate::protocol::CommandCode;
use crate::request::SessionEnvelopeRequest;
use crate::session::SessionModel;
use crate::session_object::VolatileModel;
use crate::volatile::volatile_commands_keep_the_device;
use crate::wire::decoded;
use vstd::prelude::*;

verus! {

/// Whether two devices have the same to save: the same objects, generations,
/// options and log, and the same key of their own.
pub open spec fn save_the_same(first: DeviceModel, second: DeviceModel) -> bool {
    &&& first.config == second.config
    &&& first.objects == second.objects
    &&& first.key == second.key
    &&& first.epoch == second.epoch
    &&& first.history == second.history
    &&& first.options == second.options
    &&& first.audit == second.audit
}

/// Whether a change is never lost: what is to be saved is the same, or the device
/// is marked, and a mark stays.
pub open spec fn keeps_track(before: DeviceModel, after: DeviceModel) -> bool {
    &&& before.changed ==> after.changed
    &&& !after.changed ==> save_the_same(before, after)
}

/// Whether an outcome answers with no more than a type and a number.
spec fn answers_briefly(outcome: Run<OutcomeModel>) -> bool {
    outcome matches Ok((outcome, _)) ==> outcome.data.len() <= 3
}

proof fn lemma_asymmetric_key(
    device: DeviceModel,
    authorization: SessionAuthorization,
    data: Seq<u8>,
    generate: bool,
    replies: Seq<EngineReply>,
    used: nat,
)
    ensures
        answers_briefly(device.puts_asymmetric_key(authorization, data, generate, replies, used)),
{
}

proof fn lemma_hmac_key(
    device: DeviceModel,
    authorization: SessionAuthorization,
    data: Seq<u8>,
    generate: bool,
    replies: Seq<EngineReply>,
    used: nat,
)
    ensures
        answers_briefly(device.puts_hmac_key(authorization, data, generate, replies, used)),
{
}

proof fn lemma_wrap_key(
    device: DeviceModel,
    authorization: SessionAuthorization,
    data: Seq<u8>,
    generate: bool,
    replies: Seq<EngineReply>,
    used: nat,
)
    ensures
        answers_briefly(device.puts_wrap_key(authorization, data, generate, replies, used)),
{
}

proof fn lemma_symmetric_key(
    device: DeviceModel,
    authorization: SessionAuthorization,
    data: Seq<u8>,
    generate: bool,
    replies: Seq<EngineReply>,
    used: nat,
)
    ensures
        answers_briefly(device.puts_symmetric_key(authorization, data, generate, replies, used)),
{
}

proof fn lemma_otp_aead_key(
    device: DeviceModel,
    authorization: SessionAuthorization,
    data: Seq<u8>,
    generate: bool,
    replies: Seq<EngineReply>,
    used: nat,
)
    ensures
        answers_briefly(device.puts_otp_aead_key(authorization, data, generate, replies, used)),
{
}

proof fn lemma_other_objects(
    device: DeviceModel,
    authorization: SessionAuthorization,
    data: Seq<u8>,
    replies: Seq<EngineReply>,
    used: nat,
)
    ensures
        answers_briefly(device.changes_authentication_key(data, replies, used)),
        answers_briefly(device.puts_authentication_key(authorization, data, replies, used)),
        answers_briefly(device.puts_opaque(authorization, data, replies, used)),
        answers_briefly(device.puts_template(authorization, data, replies, used)),
        answers_briefly(device.puts_public_wrap_key(authorization, data, replies, used)),
{
}

proof fn lemma_imports_wrapped(
    device: DeviceModel,
    authorization: SessionAuthorization,
    data: Seq<u8>,
    replies: Seq<EngineReply>,
    used: nat,
)
    ensures
        answers_briefly(device.imports_wrapped(authorization, data, replies, used)),
{
}

proof fn lemma_imports_rsa_wrapped(
    device: DeviceModel,
    authorization: SessionAuthorization,
    data: Seq<u8>,
    replies: Seq<EngineReply>,
    used: nat,
)
    ensures
        answers_briefly(device.imports_rsa_wrapped(authorization, data, replies, used)),
{
}

proof fn lemma_puts_rsa_wrapped_key(
    device: DeviceModel,
    authorization: SessionAuthorization,
    data: Seq<u8>,
    replies: Seq<EngineReply>,
    used: nat,
)
    ensures
        answers_briefly(device.puts_rsa_wrapped_key(authorization, data, replies, used)),
{
}

proof fn lemma_stores(
    device: DeviceModel,
    authorization: SessionAuthorization,
    command: CommandCode,
    data: Seq<u8>,
    replies: Seq<EngineReply>,
    used: nat,
)
    ensures
        device.stores(authorization, command, data, replies, used) matches Some(outcome)
            ==> answers_briefly(outcome),
{
    lemma_asymmetric_key(device, authorization, data, true, replies, used);
    lemma_asymmetric_key(device, authorization, data, false, replies, used);
    lemma_hmac_key(device, authorization, data, true, replies, used);
    lemma_hmac_key(device, authorization, data, false, replies, used);
    lemma_wrap_key(device, authorization, data, true, replies, used);
    lemma_wrap_key(device, authorization, data, false, replies, used);
    lemma_symmetric_key(device, authorization, data, true, replies, used);
    lemma_symmetric_key(device, authorization, data, false, replies, used);
    lemma_otp_aead_key(device, authorization, data, true, replies, used);
    lemma_otp_aead_key(device, authorization, data, false, replies, used);
    lemma_other_objects(device, authorization, data, replies, used);
    lemma_imports_wrapped(device, authorization, data, replies, used);
    lemma_imports_rsa_wrapped(device, authorization, data, replies, used);
    lemma_puts_rsa_wrapped_key(device, authorization, data, replies, used);
}

/// Whether an effect changes nothing that is saved.
spec fn is_idle(effect: EffectModel) -> bool {
    effect is Nothing || effect is Add || effect is Discard
}

proof fn lemma_dispatch(
    device: DeviceModel,
    authorization: SessionAuthorization,
    command: CommandCode,
    data: Seq<u8>,
    volatile: Option<Map<u64, VolatileModel>>,
    replies: Seq<EngineReply>,
    used: nat,
)
    ensures
        device.dispatched(authorization, command, data, volatile, replies, used) matches Ok(
            (outcome, _),
        ) ==> is_idle(outcome.effect) || (outcome.data.len() <= 3 && crate::audit::is_durable(
            command,
        )),
{
    lemma_stores(device, authorization, command, data, replies, used);
    if let Some(objects) = volatile {
        volatile_commands_keep_the_device(device, authorization, objects, data, replies, used);
    }
}

/// Whatever a command changes of what is saved, it marks.
pub proof fn commands_mark_what_they_change(
    device: DeviceModel,
    authorization: SessionAuthorization,
    request: FrameModel,
    volatile: Option<Map<u64, VolatileModel>>,
    replies: Seq<EngineReply>,
    used: nat,
)
    ensures
        device.planned(authorization, request, volatile, replies, used) matches Ok((plan, _))
            ==> keeps_track(device, device.committed(plan.effect, plan.entry, plan.durable)),
{
    if !device.blocked(request) {
        if let Some(command) = device.known(request) {
            lemma_dispatch(
                device,
                authorization,
                command,
                request.data,
                volatile,
                replies,
                used,
            );
        }
    }
}

proof fn lemma_opening(
    device: DeviceModel,
    request: FrameModel,
    now: u64,
    replies: Seq<EngineReply>,
    used: nat,
)
    ensures
        device.creates_session(request, now, replies, used) matches Ok((step, _)) ==> keeps_track(
            device,
            step.device,
        ),
{
}

proof fn lemma_authentication(
    device: DeviceModel,
    request: FrameModel,
    now: u64,
    replies: Seq<EngineReply>,
    used: nat,
)
    ensures
        device.authenticates_session(request, now, replies, used) matches Ok((step, _))
            ==> keeps_track(device, step.device),
{
}

proof fn lemma_delegation(
    device: DeviceModel,
    session: SessionModel,
    secure: crate::session::SecureModel,
    request: FrameModel,
    replies: Seq<EngineReply>,
    used: nat,
)
    ensures
        device.delegated(session, secure, request, replies, used) matches Ok((message, _))
            ==> keeps_track(
            device,
            device.committed(message.effect, message.entry, message.durable),
        ),
{
    commands_mark_what_they_change(
        device,
        session.authorization,
        request,
        Some(session.objects),
        replies,
        used,
    );
}

proof fn lemma_message(
    device: DeviceModel,
    session: SessionModel,
    request: FrameModel,
    hooked: bool,
    replies: Seq<EngineReply>,
    used: nat,
)
    ensures
        device.answers_message(session, request, hooked, replies, used) matches Ok((message, _))
            ==> keeps_track(
            device,
            device.committed(message.effect, message.entry, message.durable),
        ),
{
    if session.authenticated {
        if let Ok((exchange, used)) = session.secure.decrypted(request, replies, used) {
            lemma_delegation(device, session, exchange.secure, exchange.frame, replies, used);
            lemma_delegation(device, session, exchange.secure, exchange.frame, replies, used + 1);
        }
    }
}

proof fn lemma_carriage(
    device: DeviceModel,
    request: FrameModel,
    now: u64,
    hooked: bool,
    replies: Seq<EngineReply>,
    used: nat,
)
    ensures
        device.carries_message(request, now, hooked, replies, used) matches Ok((step, _))
            ==> keeps_track(device, step.device),
{
    if let Ok(envelope) = decoded::<SessionEnvelopeRequest>(request.data) {
        let sid = envelope.session_id;
        lemma_message(
            device.without_session(sid),
            device.sessions[sid],
            request,
            hooked,
            replies,
            used,
        );
    }
}

/// Whatever a message leaves different of what a device saves, the device is
/// marked as changed, so that the change is there after a power cycle.
pub proof fn changes_are_marked(
    device: DeviceModel,
    encoded: Seq<u8>,
    now: u64,
    hooked: bool,
    replies: Seq<EngineReply>,
)
    ensures
        keeps_track(device, device.handles_encoded(encoded, now, hooked, replies).0),
{
    if let Ok(request) = FrameModel::parsed(encoded) {
        let expired = device.expired(now);
        lemma_opening(expired, request, now, replies, 0);
        lemma_authentication(expired, request, now, replies, 0);
        lemma_carriage(expired, request, now, hooked, replies, 0);
    }
}

/// Whatever a message leaves different in the image of a device, the device is
/// marked as changed.
pub proof fn changed_images_are_marked(
    device: DeviceModel,
    encoded: Seq<u8>,
    now: u64,
    hooked: bool,
    replies: Seq<EngineReply>,
)
    ensures
        ({
            let after = device.handles_encoded(encoded, now, hooked, replies).0;
            device.state() != after.state() ==> after.changed
        }),
{
    changes_are_marked(device, encoded, now, hooked, replies);
}

} // verus!
