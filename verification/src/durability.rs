//! What every device keeps to that goes through commands, so that it can always
//! be written down and brought back.
use crate::audit::EntryModel;
use crate::authorization::SessionAuthorization;
use crate::channel::{enclosed, session_refusal, MessageModel};
use crate::device::{
    imported_device_key, provisioned, ConfigModel, DeviceModel, EffectModel, OutcomeModel,
};
use crate::engine::{EngineReply, HaltModel, Run};
use crate::error::DeviceError;
use crate::execute::plans_keep_devices_valid;
use crate::firmware::FirmwareProfile;
use crate::frame::FrameModel;
use crate::keys::SigningKeyModel;
use crate::object::RecordModel;
use crate::persistence::{all_restored, holds_typed_keys, StateModel};
use crate::protocol::CommandCode;
use crate::request::{IdRequest, SessionEnvelopeRequest};
use crate::session::{SecureModel, SessionModel};
use crate::session_object::VolatileModel;
use crate::settings::changed_options_stay_valid;
use crate::volatile::volatile_commands_keep_the_device;
use crate::wire::decoded;
use vstd::prelude::*;

verus! {

/// Whether an effect leaves a device one that is valid and can be written down.
pub open spec fn is_harmless(effect: EffectModel) -> bool {
    match effect {
        EffectModel::Write(record) => holds_typed_keys(record) && record.validated() is Ok,
        EffectModel::SetOptions(options) => options.valid(),
        EffectModel::Reset(key) => key.private.len() == 32,
        _ => true,
    }
}

/// Whether an outcome, where there is one, is harmless. What a new device key is
/// like is the engine's part.
pub open spec fn comes_out_well(outcome: Run<OutcomeModel>) -> bool {
    outcome matches Ok((outcome, _)) ==> outcome.effect is Reset || is_harmless(outcome.effect)
}

proof fn placed_objects_are_typed(
    device: DeviceModel,
    authorization: SessionAuthorization,
    data: Seq<u8>,
    generate: bool,
    replies: Seq<EngineReply>,
    used: nat,
)
    requires
        device.valid(),
    ensures
        comes_out_well(device.changes_authentication_key(data, replies, used)),
        comes_out_well(device.puts_authentication_key(authorization, data, replies, used)),
        comes_out_well(device.puts_template(authorization, data, replies, used)),
        comes_out_well(device.puts_public_wrap_key(authorization, data, replies, used)),
        comes_out_well(device.puts_hmac_key(authorization, data, generate, replies, used)),
        comes_out_well(device.puts_symmetric_key(authorization, data, generate, replies, used)),
        comes_out_well(device.puts_otp_aead_key(authorization, data, generate, replies, used)),
{
}

proof fn opaque_objects_are_typed(
    device: DeviceModel,
    authorization: SessionAuthorization,
    data: Seq<u8>,
    replies: Seq<EngineReply>,
    used: nat,
)
    requires
        device.valid(),
    ensures
        comes_out_well(device.puts_opaque(authorization, data, replies, used)),
{
}

proof fn asymmetric_keys_are_typed(
    device: DeviceModel,
    authorization: SessionAuthorization,
    data: Seq<u8>,
    generate: bool,
    replies: Seq<EngineReply>,
    used: nat,
)
    requires
        device.valid(),
    ensures
        comes_out_well(device.puts_asymmetric_key(authorization, data, generate, replies, used)),
{
}

proof fn wrap_keys_are_typed(
    device: DeviceModel,
    authorization: SessionAuthorization,
    data: Seq<u8>,
    generate: bool,
    replies: Seq<EngineReply>,
    used: nat,
)
    requires
        device.valid(),
    ensures
        comes_out_well(device.puts_wrap_key(authorization, data, generate, replies, used)),
{
}

proof fn imported_objects_are_typed(
    device: DeviceModel,
    authorization: SessionAuthorization,
    data: Seq<u8>,
    replies: Seq<EngineReply>,
    used: nat,
)
    requires
        device.valid(),
    ensures
        comes_out_well(device.imports_wrapped(authorization, data, replies, used)),
{
}

proof fn rsa_imported_objects_are_typed(
    device: DeviceModel,
    authorization: SessionAuthorization,
    data: Seq<u8>,
    replies: Seq<EngineReply>,
    used: nat,
)
    requires
        device.valid(),
    ensures
        comes_out_well(device.imports_rsa_wrapped(authorization, data, replies, used)),
{
}

proof fn unwrapped_keys_are_typed(
    device: DeviceModel,
    authorization: SessionAuthorization,
    data: Seq<u8>,
    replies: Seq<EngineReply>,
    used: nat,
)
    requires
        device.valid(),
    ensures
        comes_out_well(device.puts_rsa_wrapped_key(authorization, data, replies, used)),
{
}

/// A new device can be written down and brought back.
pub proof fn factory_devices_are_storable(
    config: ConfigModel,
    firmware: FirmwareProfile,
    key: SigningKeyModel,
)
    requires
        key.private.len() == 32,
    ensures
        DeviceModel::factory(config, firmware, key).storable(),
{
}

proof fn harmless_effects_keep_devices_storable(device: DeviceModel, effect: EffectModel)
    requires
        device.storable(),
        is_harmless(effect),
    ensures
        device.applied(effect).storable(),
{
    let after = device.applied(effect);
    match effect {
        EffectModel::TrimLog(index) => {
            device.audit.entries.lemma_filter_len(|entry: EntryModel| entry.number > index);
        },
        EffectModel::Reset(key) => {
            factory_devices_are_storable(device.config, device.firmware, key);
        },
        EffectModel::Write(record) => {
            assert forall|number: u32| #[trigger]
                after.objects.contains_key(number) implies holds_typed_keys(
                after.objects[number],
            ) by {
                if number != record.info.key().number() {
                    assert(device.objects.contains_key(number));
                }
            }
        },
        _ => {},
    }
}

proof fn stored_outcomes_are_harmless(
    device: DeviceModel,
    authorization: SessionAuthorization,
    command: CommandCode,
    data: Seq<u8>,
    replies: Seq<EngineReply>,
    used: nat,
)
    requires
        device.valid(),
    ensures
        device.stores(authorization, command, data, replies, used) matches Some(outcome)
            ==> comes_out_well(outcome),
{
    match command {
        CommandCode::PutOpaque => {
            opaque_objects_are_typed(device, authorization, data, replies, used);
        },
        CommandCode::PutAsymmetricKey => {
            asymmetric_keys_are_typed(device, authorization, data, false, replies, used);
        },
        CommandCode::GenerateAsymmetricKey => {
            asymmetric_keys_are_typed(device, authorization, data, true, replies, used);
        },
        CommandCode::PutWrapKey => {
            wrap_keys_are_typed(device, authorization, data, false, replies, used);
        },
        CommandCode::GenerateWrapKey => {
            wrap_keys_are_typed(device, authorization, data, true, replies, used);
        },
        CommandCode::ImportWrapped => {
            imported_objects_are_typed(device, authorization, data, replies, used);
        },
        CommandCode::ImportRsaWrapped => {
            rsa_imported_objects_are_typed(device, authorization, data, replies, used);
        },
        CommandCode::PutRsaWrappedKey => {
            unwrapped_keys_are_typed(device, authorization, data, replies, used);
        },
        CommandCode::PutHmacKey | CommandCode::PutSymmetricKey | CommandCode::PutOtpAeadKey => {
            placed_objects_are_typed(device, authorization, data, false, replies, used);
        },
        _ => {
            placed_objects_are_typed(device, authorization, data, true, replies, used);
        },
    }
}

proof fn managed_outcomes_are_harmless(
    device: DeviceModel,
    authorization: SessionAuthorization,
    command: CommandCode,
    data: Seq<u8>,
    volatile: Option<Map<u64, VolatileModel>>,
    replies: Seq<EngineReply>,
    used: nat,
)
    requires
        device.options.valid(),
    ensures
        comes_out_well(device.manages(authorization, command, data, volatile, replies, used)),
{
    changed_options_stay_valid(device, data);
    if let Some(objects) = volatile {
        volatile_commands_keep_the_device(device, authorization, objects, data, replies, used);
    }
}

proof fn executed_outcomes_are_harmless(
    device: DeviceModel,
    authorization: SessionAuthorization,
    request: FrameModel,
    volatile: Option<Map<u64, VolatileModel>>,
    replies: Seq<EngineReply>,
    used: nat,
)
    requires
        device.valid(),
        device.options.valid(),
    ensures
        comes_out_well(device.executed(authorization, request, volatile, replies, used)),
{
    if let Some(command) = device.known(request) {
        stored_outcomes_are_harmless(device, authorization, command, request.data, replies, used);
        managed_outcomes_are_harmless(
            device,
            authorization,
            command,
            request.data,
            volatile,
            replies,
            used,
        );
    }
}

/// A log that takes an entry had room for it.
proof fn logs_stay_within_their_limit(device: DeviceModel, entry: Option<EntryModel>)
    requires
        device.storable(),
        entry is Some ==> !device.log_full(),
    ensures
        device.logged(entry).storable(),
{
}

/// A command leaves a device valid, and one that can be written down and brought
/// back, as long as the engine makes device keys of 32 bytes.
pub proof fn commands_keep_devices_storable(
    device: DeviceModel,
    authorization: SessionAuthorization,
    request: FrameModel,
    volatile: Option<Map<u64, VolatileModel>>,
    replies: Seq<EngineReply>,
    used: nat,
)
    requires
        device.valid(),
        device.storable(),
    ensures
        device.planned(authorization, request, volatile, replies, used) matches Ok((plan, _)) ==> (
        plan.effect matches EffectModel::Reset(key) ==> key.private.len() == 32)
            ==> device.committed(plan.effect, plan.entry, plan.durable).valid()
            && device.committed(plan.effect, plan.entry, plan.durable).storable(),
{
    executed_outcomes_are_harmless(device, authorization, request, volatile, replies, used);
    if let Ok((plan, _)) = device.planned(authorization, request, volatile, replies, used) {
        if plan.effect matches EffectModel::Reset(key) ==> key.private.len() == 32 {
            harmless_effects_keep_devices_storable(device, plan.effect);
            plans_keep_devices_valid(device, plan.effect, plan.entry, plan.durable);
            logs_stay_within_their_limit(device.applied(plan.effect), plan.entry);
        }
    }
}

proof fn sealing_keeps_devices_storable(
    device: DeviceModel,
    after: DeviceModel,
    authorization: SessionAuthorization,
    command: CommandCode,
    request: FrameModel,
    result: core::result::Result<Seq<u8>, DeviceError>,
    replies: Seq<EngineReply>,
    used: nat,
)
    requires
        after.storable(),
        after.config == device.config,
        after.audit.entries == device.audit.entries,
    ensures
        device.sealed(after, authorization, command, request, result, replies, used) matches Ok(
            (step, _),
        ) ==> step.device.storable(),
{
}

proof fn opening_keeps_devices_storable(
    device: DeviceModel,
    request: FrameModel,
    now: u64,
    replies: Seq<EngineReply>,
    used: nat,
)
    requires
        device.storable(),
    ensures
        device.creates_session(request, now, replies, used) matches Ok((step, _))
            ==> step.device.storable(),
{
    if let Ok(decoded) = decoded::<IdRequest>(request.data) {
        if let Ok(authorization) = device.authorizes(decoded.id) {
            match device.opens_session(authorization, decoded.data, now, replies, used) {
                Ok((opening, used)) => {
                    let with = device.with_session(opening.session);
                    let after = if opening.session.authenticated {
                        with.counted()
                    } else {
                        with
                    };
                    assert(with.storable());
                    assert(after.storable());
                    sealing_keeps_devices_storable(
                        device,
                        after,
                        authorization,
                        CommandCode::CreateSession,
                        request,
                        Ok(opening.data),
                        replies,
                        used,
                    );
                },
                Err(HaltModel::Error(error, used)) => {
                    sealing_keeps_devices_storable(
                        device,
                        device,
                        authorization,
                        CommandCode::CreateSession,
                        request,
                        Err(error),
                        replies,
                        used,
                    );
                },
                _ => {},
            }
        }
    }
}

proof fn confirming_keeps_devices_storable(
    device: DeviceModel,
    request: FrameModel,
    now: u64,
    replies: Seq<EngineReply>,
    used: nat,
)
    requires
        device.storable(),
    ensures
        device.authenticates_session(request, now, replies, used) matches Ok((step, _))
            ==> step.device.storable(),
{
}

proof fn messages_keep_devices_storable(
    device: DeviceModel,
    request: FrameModel,
    now: u64,
    hooked: bool,
    replies: Seq<EngineReply>,
    used: nat,
)
    requires
        device.valid(),
        device.storable(),
    ensures
        device.carries_message(request, now, hooked, replies, used) matches Ok((step, _))
            ==> step.device.key.private.len() == 32 ==> step.device.storable(),
{
    if let Ok(envelope) = decoded::<SessionEnvelopeRequest>(request.data) {
        let sid = envelope.session_id;
        if device.sessions.contains_key(sid) {
            let session = device.sessions[sid];
            let without = device.without_session(sid);
            assert(without.valid() && without.storable());
            if let Ok((message, _)) = without.answers_message(
                session,
                request,
                hooked,
                replies,
                used,
            ) {
                messages_commit_storably(without, session, request, hooked, replies, used);
            }
        }
    }
}

/// Whether carrying out a message leaves a device that can be written down.
spec fn commits_storably(device: DeviceModel, message: Run<MessageModel>) -> bool {
    message matches Ok((message, _)) ==> ({
        let after = device.committed(message.effect, message.entry, message.durable);
        after.key.private.len() == 32 ==> after.storable()
    })
}

/// A message carries out what it is given to carry out.
proof fn enclosing_keeps_the_effect(
    authorization: SessionAuthorization,
    secure: SecureModel,
    request: FrameModel,
    inner: FrameModel,
    overridden: bool,
    effect: EffectModel,
    entry: Option<EntryModel>,
    durable: bool,
    replies: Seq<EngineReply>,
    used: nat,
)
    ensures
        enclosed(
            authorization,
            secure,
            request,
            inner,
            overridden,
            effect,
            entry,
            durable,
            replies,
            used,
        ) matches Ok((message, _)) ==> message.effect == effect && message.entry == entry
            && message.durable == durable,
{
}

proof fn idle_messages_commit_storably(
    device: DeviceModel,
    authorization: SessionAuthorization,
    secure: SecureModel,
    request: FrameModel,
    inner: FrameModel,
    overridden: bool,
    replies: Seq<EngineReply>,
    used: nat,
)
    requires
        device.storable(),
    ensures
        commits_storably(
            device,
            enclosed(
                authorization,
                secure,
                request,
                inner,
                overridden,
                EffectModel::Nothing,
                None,
                false,
                replies,
                used,
            ),
        ),
{
    enclosing_keeps_the_effect(
        authorization,
        secure,
        request,
        inner,
        overridden,
        EffectModel::Nothing,
        None,
        false,
        replies,
        used,
    );
}

proof fn delegated_messages_commit_storably(
    device: DeviceModel,
    session: SessionModel,
    secure: SecureModel,
    request: FrameModel,
    replies: Seq<EngineReply>,
    used: nat,
)
    requires
        device.valid(),
        device.storable(),
    ensures
        commits_storably(device, device.delegated(session, secure, request, replies, used)),
{
    let authorization = session.authorization;
    let volatile = Some(session.objects);
    commands_keep_devices_storable(device, authorization, request, volatile, replies, used);
    match device.planned(authorization, request, volatile, replies, used) {
        Ok((plan, at)) => {
            enclosing_keeps_the_effect(
                authorization,
                secure,
                request,
                plan.response,
                false,
                plan.effect,
                plan.entry,
                plan.durable,
                replies,
                at,
            );
        },
        Err(HaltModel::Error(error, at)) => {
            idle_messages_commit_storably(
                device,
                authorization,
                secure,
                request,
                FrameModel::error(error),
                false,
                replies,
                at,
            );
        },
        _ => {},
    }
}

proof fn messages_commit_storably(
    device: DeviceModel,
    session: SessionModel,
    request: FrameModel,
    hooked: bool,
    replies: Seq<EngineReply>,
    used: nat,
)
    requires
        device.valid(),
        device.storable(),
    ensures
        commits_storably(
            device,
            device.answers_message(session, request, hooked, replies, used),
        ),
{
    if session.authenticated {
        if let Ok((exchange, at)) = session.secure.decrypted(request, replies, used) {
            let frame = exchange.frame;
            delegated_messages_commit_storably(
                device,
                session,
                exchange.secure,
                frame,
                replies,
                at,
            );
            delegated_messages_commit_storably(
                device,
                session,
                exchange.secure,
                frame,
                replies,
                at + 1,
            );
            if let Some(error) = session_refusal(session.authorization, frame) {
                idle_messages_commit_storably(
                    device,
                    session.authorization,
                    exchange.secure,
                    frame,
                    FrameModel::error(error),
                    true,
                    replies,
                    at,
                );
            } else if hooked && at < replies.len() {
                if let EngineReply::Response(response) = replies[at as int] {
                    idle_messages_commit_storably(
                        device,
                        session.authorization,
                        exchange.secure,
                        frame,
                        response@,
                        true,
                        replies,
                        at + 1,
                    );
                }
            }
        }
    }
}

/// Whatever a device is sent, it stays one that can be written down and brought
/// back, as long as the engine makes device keys of 32 bytes.
pub proof fn frames_keep_devices_storable(
    device: DeviceModel,
    request: FrameModel,
    now: u64,
    hooked: bool,
    replies: Seq<EngineReply>,
)
    requires
        device.valid(),
        device.storable(),
    ensures
        ({
            let after = device.handles_frame(request, now, hooked, replies).0;
            after.key.private.len() == 32 ==> after.storable()
        }),
{
    let expired = device.expired(now);
    assert(expired.valid() && expired.storable());
    opening_keeps_devices_storable(expired, request, now, replies, 0);
    confirming_keeps_devices_storable(expired, request, now, replies, 0);
    messages_keep_devices_storable(expired, request, now, hooked, replies, 0);
}

/// Objects that an image brought back hold no private key as bare bytes.
proof fn restored_objects_are_typed(
    version: u16,
    objects: Seq<RecordModel>,
    replies: Seq<EngineReply>,
    used: nat,
)
    ensures
        all_restored(version, objects, replies, used) matches Ok((restored, _))
            ==> forall|number: u32|
            #[trigger] restored.contains_key(number) ==> holds_typed_keys(restored[number]),
    decreases objects.len(),
{
    if objects.len() > 0 {
        restored_objects_are_typed(version, objects.drop_last(), replies, used);
    }
}

/// A device that an image brought back can be written down again, as long as the
/// engine brings back a device key of 32 bytes.
pub proof fn restored_devices_are_storable(
    state: StateModel,
    config: ConfigModel,
    firmware: FirmwareProfile,
    replies: Seq<EngineReply>,
)
    ensures
        state.device(config, firmware, replies) matches Ok((device, _)) ==> device.key.private.len()
            == 32 ==> device.storable(),
{
    if let Ok((key, used)) = imported_device_key(state.private, replies, 0) {
        restored_objects_are_typed(state.version, state.objects, replies, used);
    }
}

/// A device that was given an object in trust can be written down as before.
pub proof fn provisioning_keeps_devices_storable(
    device: DeviceModel,
    object: RecordModel,
    replies: Seq<EngineReply>,
)
    requires
        device.valid(),
        device.storable(),
        provisioned(object, replies) is Ok,
    ensures
        ({
            let record = provisioned(object, replies)->Ok_0.0;
            let after = DeviceModel {
                objects: device.objects.insert(record.info.key().number(), record),
                history: device.history.insert(record.info.id, record.info.sequence as u64),
                changed: true,
                ..device
            };
            after.valid() && after.storable()
        }),
{
    let record = provisioned(object, replies)->Ok_0.0;
    assert(holds_typed_keys(record));
    assert(record.info.id != 0 && record.info.id != 0xffff);
}

} // verus!
