//! What holds of a device as a whole, whatever its hosts ask of it.
use crate::audit::AuditModel;
use crate::authorization::SessionAuthorization;
use crate::bytes::{u16_at, u16_be, u16_round_trip};
use crate::channel::{first_free, free_numbers_are_limited, MessageModel};
use crate::device::{written_objects_are_found, DeviceModel, EffectModel, MAX_SESSIONS};
use crate::engine::{EngineReply, HaltModel};
use crate::error::DeviceError;
use crate::firmware::FirmwareProfile;
use crate::frame::{FrameModel, MAX_DATA_LENGTH};
use crate::object::{object_keys_are_their_numbers, ObjectKey, ObjectType, RecordModel};
use crate::options::{OPTION_FIPS_MODE, OPTION_FORCE_AUDIT, OPTION_OFF};
use crate::protocol::CommandCode;
use crate::request::{
    ByteRequest, EmptyRequest, ExportRsaWrappedFields, ExportWrappedRequest, IdRequest,
    ImportRsaWrappedRequest, ImportWrappedRequest, NumberRequest, ObjectRequest,
    SessionEnvelopeRequest, SetOptionRequest,
};
use crate::session::{secure_length, SessionModel};
use crate::session_object::VolatileModel;
use crate::settings::left_of;
use crate::store::random_from;
use crate::transfer::{oaep_hash_of, wrap_aes_length};
use crate::usage::{AES_CCM_NONCE_SIZE, AES_CCM_TAG_SIZE};
use crate::wire::decoded;
use crate::wrapped::{plain_objects_arrive_as_they_were_sent, wrapped_objects_are_unwrapped};
use vstd::prelude::*;

verus! {

/// A session may do exactly what the authentication key that opened it says:
/// it takes over the key's capabilities, delegated capabilities and domains.
/// No other session changes.
pub proof fn sessions_take_over_their_key(
    device: DeviceModel,
    request: FrameModel,
    now: u64,
    replies: Seq<EngineReply>,
    used: nat,
    sid: u8,
)
    requires
        device.creates_session(request, now, replies, used) is Ok,
    ensures
        ({
            let after = device.creates_session(request, now, replies, used)->Ok_0.0.device;
            let id = decoded::<IdRequest>(request.data)->Ok_0.id;
            let key = device.objects[ObjectKey {
                object_type: ObjectType::AuthenticationKey,
                id,
            }.number()];
            &&& device.sessions.contains_key(sid) ==> after.sessions.contains_key(sid)
                && after.sessions[sid] == device.sessions[sid]
            &&& after.sessions.contains_key(sid) && !device.sessions.contains_key(sid)
                ==> after.sessions[sid].authorization == (SessionAuthorization {
                authentication_key_id: id,
                capabilities: key.info.capabilities,
                delegated_capabilities: key.info.delegated_capabilities,
                domains: key.info.domains,
            })
        }),
{
    free_numbers_are_limited(device.sessions, 0);
}

/// What a session may do stays as it was when the session was opened: nothing
/// that a host asks for changes it, not even a change of its authentication key.
pub proof fn sessions_keep_their_authorization(
    device: DeviceModel,
    request: FrameModel,
    now: u64,
    hooked: bool,
    replies: Seq<EngineReply>,
    sid: u8,
)
    requires
        device.expired(now).sessions.contains_key(sid),
    ensures
        ({
            let after = device.handles_frame(request, now, hooked, replies).0;
            after.sessions.contains_key(sid) ==> after.sessions[sid].authorization
                == device.sessions[sid].authorization
        }),
{
    let device = device.expired(now);
    if device.creates_session(request, now, replies, 0) is Ok {
        sessions_take_over_their_key(device, request, now, replies, 0, sid);
    }
    messages_keep_authorizations(device, request, now, hooked, replies, 0, sid);
}

/// A message keeps what every session may do.
proof fn messages_keep_authorizations(
    device: DeviceModel,
    request: FrameModel,
    now: u64,
    hooked: bool,
    replies: Seq<EngineReply>,
    used: nat,
    sid: u8,
)
    requires
        device.sessions.contains_key(sid),
    ensures
        device.carries_message(request, now, hooked, replies, used) matches Ok((step, _))
            ==> step.device.sessions.contains_key(sid) ==> step.device.sessions[sid].authorization
            == device.sessions[sid].authorization,
{
    if let Ok(envelope) = decoded::<SessionEnvelopeRequest>(request.data) {
        let carrier = envelope.session_id;
        if device.sessions.contains_key(carrier) {
            let session = device.sessions[carrier];
            let without = device.without_session(carrier);
            let answer = without.answers_message(session, request, hooked, replies, used);
            if let Ok((message, _)) = answer {
                let after = without.after_message(carrier, session, message, now);
                assert(after.sessions.contains_key(sid) ==> after.sessions[sid].authorization
                    == device.sessions[sid].authorization);
            }
        }
    }
}

/// A full log keeps nobody from opening a session: the answer, and the sessions
/// that are open after it, are those of a device whose log has room.
pub proof fn full_logs_let_sessions_open(
    device: DeviceModel,
    audit: AuditModel,
    request: FrameModel,
    now: u64,
    replies: Seq<EngineReply>,
    used: nat,
)
    requires
        audit.full(device.config.log_capacity),
        device.creates_session(request, now, replies, used) is Ok,
    ensures
        (DeviceModel { audit, ..device }).creates_session(request, now, replies, used) is Ok,
        (DeviceModel { audit, ..device }).creates_session(
            request,
            now,
            replies,
            used,
        )->Ok_0.0.handled == device.creates_session(request, now, replies, used)->Ok_0.0.handled,
        (DeviceModel { audit, ..device }).creates_session(
            request,
            now,
            replies,
            used,
        )->Ok_0.0.device.sessions == device.creates_session(
            request,
            now,
            replies,
            used,
        )->Ok_0.0.device.sessions,
{
    let full = DeviceModel { audit, ..device };
    let request_data = decoded::<IdRequest>(request.data)->Ok_0;
    let authorization = device.authorizes(request_data.id)->Ok_0;
    assert(full.opens_session(authorization, request_data.data, now, replies, used)
        == device.opens_session(authorization, request_data.data, now, replies, used));
}

/// A full log keeps nobody from authenticating a session: the answer, and the
/// sessions that are open after it, are those of a device whose log has room.
pub proof fn full_logs_let_sessions_authenticate(
    device: DeviceModel,
    audit: AuditModel,
    request: FrameModel,
    now: u64,
    replies: Seq<EngineReply>,
    used: nat,
)
    requires
        audit.full(device.config.log_capacity),
        device.authenticates_session(request, now, replies, used) is Ok,
    ensures
        (DeviceModel { audit, ..device }).authenticates_session(request, now, replies, used) is Ok,
        (DeviceModel { audit, ..device }).authenticates_session(
            request,
            now,
            replies,
            used,
        )->Ok_0.0.handled == device.authenticates_session(
            request,
            now,
            replies,
            used,
        )->Ok_0.0.handled,
        (DeviceModel { audit, ..device }).authenticates_session(
            request,
            now,
            replies,
            used,
        )->Ok_0.0.device.sessions == device.authenticates_session(
            request,
            now,
            replies,
            used,
        )->Ok_0.0.device.sessions,
{
}

/// Where auditing is forced and the log is full, a session that is authenticated
/// is counted, up to the counter's end, and a failure is not.
pub proof fn unlogged_authentications_are_counted(
    device: DeviceModel,
    request: FrameModel,
    now: u64,
    replies: Seq<EngineReply>,
    used: nat,
)
    requires
        device.options.force_audit != OPTION_OFF,
        device.log_full(),
        device.authenticates_session(request, now, replies, used) is Ok,
    ensures
        ({
            let sid = decoded::<SessionEnvelopeRequest>(request.data)->Ok_0.session_id;
            let after = device.authenticates_session(request, now, replies, used)->Ok_0.0.device;
            let proven = DeviceModel::confirms(
                device.sessions[sid],
                request,
                replies,
                used,
            ) is Ok;
            &&& after.audit.entries == device.audit.entries
            &&& after.audit.unlogged_authentication == if proven
                && device.audit.unlogged_authentication < u16::MAX {
                device.audit.unlogged_authentication + 1
            } else {
                device.audit.unlogged_authentication as int
            }
            &&& proven ==> after.changed
        }),
{
}

/// Every answer to a command fits into a message of the secure channel.
pub proof fn answers_fit_into_messages(
    device: DeviceModel,
    authorization: SessionAuthorization,
    request: FrameModel,
    volatile: Option<Map<u64, VolatileModel>>,
    replies: Seq<EngineReply>,
    used: nat,
)
    ensures
        device.planned(authorization, request, volatile, replies, used) matches Ok((plan, _))
            ==> secure_length(plan.response.data.len() as int) <= MAX_DATA_LENGTH,
{
}

/// Reading and computing change no object, no number of a generation, no option
/// and no session: only the log may grow.
pub proof fn reading_changes_only_the_log(
    device: DeviceModel,
    authorization: SessionAuthorization,
    command: CommandCode,
    request: FrameModel,
    volatile: Option<Map<u64, VolatileModel>>,
    replies: Seq<EngineReply>,
    used: nat,
)
    requires
        device.known(request) == Some(command),
        device.reads(authorization, command, request.data) is Some || device.uses(
            authorization,
            command,
            request.data,
            replies,
            used,
        ) is Some,
    ensures
        device.planned(authorization, request, volatile, replies, used) matches Ok((plan, _))
            ==> plan.effect is Nothing && device.committed(plan.effect, plan.entry, plan.durable)
            == device.logged(plan.entry),
{
}

/// Opening a session keeps the epoch.
proof fn openings_keep_the_epoch(
    device: DeviceModel,
    request: FrameModel,
    now: u64,
    replies: Seq<EngineReply>,
    used: nat,
)
    ensures
        device.creates_session(request, now, replies, used) matches Ok((step, _))
            ==> step.device.epoch == device.epoch,
{
}

/// Authenticating a session keeps the epoch.
proof fn authentications_keep_the_epoch(
    device: DeviceModel,
    request: FrameModel,
    now: u64,
    replies: Seq<EngineReply>,
    used: nat,
)
    ensures
        device.authenticates_session(request, now, replies, used) matches Ok((step, _))
            ==> step.device.epoch == device.epoch,
{
}

/// A message keeps the epoch, whatever it does.
proof fn messages_keep_the_epoch(
    device: DeviceModel,
    sid: u8,
    session: SessionModel,
    message: MessageModel,
    now: u64,
)
    ensures
        device.after_message(sid, session, message, now).epoch == device.epoch,
{
}

/// Carrying a message keeps the epoch.
proof fn carriages_keep_the_epoch(
    device: DeviceModel,
    request: FrameModel,
    now: u64,
    hooked: bool,
    replies: Seq<EngineReply>,
    used: nat,
)
    ensures
        device.carries_message(request, now, hooked, replies, used) matches Ok((step, _))
            ==> step.device.epoch == device.epoch,
{
    if let Ok(envelope) = decoded::<SessionEnvelopeRequest>(request.data) {
        let sid = envelope.session_id;
        let session = device.sessions[sid];
        let without = device.without_session(sid);
        let answer = without.answers_message(session, request, hooked, replies, used);
        if let Ok((message, _)) = answer {
            messages_keep_the_epoch(without, sid, session, message, now);
        }
    }
}

/// Nothing that a host asks for moves the epoch, not even a reset: it grows only
/// when a change is taken for saving.
pub proof fn requests_keep_the_epoch(
    device: DeviceModel,
    request: FrameModel,
    now: u64,
    hooked: bool,
    replies: Seq<EngineReply>,
)
    ensures
        device.handles_frame(request, now, hooked, replies).0.epoch == device.epoch,
{
    let device = device.expired(now);
    openings_keep_the_epoch(device, request, now, replies, 0);
    authentications_keep_the_epoch(device, request, now, replies, 0);
    carriages_keep_the_epoch(device, request, now, hooked, replies, 0);
}

/// The room that is told is what the objects leave of 256 objects and of 1024
/// pages, and none beyond them.
pub proof fn told_room_is_what_is_left(device: DeviceModel)
    ensures
        device.tells_storage(Seq::empty()) matches Ok(told) && u16_at(told, 0) == 256 && u16_at(
            told,
            2,
        ) == (if device.objects.len() <= 256 {
            256 - device.objects.len()
        } else {
            0
        }) && u16_at(told, 4) == 1024 && u16_at(told, 6) == (if device.objects.len() <= 1024 {
            1024 - device.objects.len()
        } else {
            0
        }),
{
    let objects = left_of(256, device.objects.len());
    let pages = left_of(1024, device.objects.len());
    u16_round_trip(256);
    u16_round_trip(objects);
    u16_round_trip(1024);
    u16_round_trip(pages);
    assert(decoded::<EmptyRequest>(Seq::empty()) is Ok);
    let told = device.tells_storage(Seq::empty())->Ok_0;
    assert(u16_at(told, 0) == u16_at(u16_be(256), 0));
    assert(u16_at(told, 2) == u16_at(u16_be(objects), 0));
    assert(u16_at(told, 4) == u16_at(u16_be(1024), 0));
    assert(u16_at(told, 6) == u16_at(u16_be(pages), 0));
}

/// What one device exports under a wrap key, another device that holds the same
/// key imports as the same object, once the key engine has opened the ciphertext
/// that was made for the export. Where the object holds a private key or a point,
/// the engine also reads the key that it wrote; for any other object it has
/// nothing else to say.
pub proof fn exported_objects_are_imported(
    source: DeviceModel,
    exporter: SessionAuthorization,
    data: Seq<u8>,
    replies: Seq<EngineReply>,
    used: nat,
    target: DeviceModel,
    importer: SessionAuthorization,
    wrap_id: u16,
    again: Seq<EngineReply>,
    from: nat,
)
    requires
        source.exports_wrapped(exporter, data, replies, used) is Ok,
        ({
            let request = decoded::<ExportWrappedRequest>(data)->Ok_0;
            let key = source.ccm_key(exporter, request.wrap_id)->Ok_0;
            let object = source.get(request.target)->Ok_0;
            let plaintext = object.wrapped(replies, used)->Ok_0.0;
            &&& object.is_plain() || object.returned(replies, used, again, from + 1) is Some
            &&& object.reads_back(plaintext, replies, used)
            &&& target.ccm_key(importer, wrap_id) is Ok
            &&& target.ccm_key(importer, wrap_id)->Ok_0.secret() == key.secret()
            &&& source.exports_wrapped(exporter, data, replies, used)->Ok_0.0.len() >= 1
                + AES_CCM_NONCE_SIZE + AES_CCM_TAG_SIZE
            &&& from < again.len()
            &&& again[from as int] matches EngineReply::Bytes(opened)
            &&& opened@ == plaintext
        }),
    ensures
        ({
            let request = decoded::<ExportWrappedRequest>(data)->Ok_0;
            let object = source.get(request.target)->Ok_0;
            let wrapped = source.exports_wrapped(exporter, data, replies, used)->Ok_0.0;
            target.imports_wrapped(importer, u16_be(wrap_id) + wrapped, again, from)
                == target.imports(
                importer,
                target.ccm_key(importer, wrap_id)->Ok_0,
                object.arriving(),
                again,
                object.returned(replies, used, again, from + 1)->0,
            ) && (object.is_plain() ==> object.returned(replies, used, again, from + 1) == Some(
                from + 1,
            ))
        }),
{
    let request = decoded::<ExportWrappedRequest>(data)->Ok_0;
    let object = source.get(request.target)->Ok_0;
    let wrapped = source.exports_wrapped(exporter, data, replies, used)->Ok_0.0;
    let message = u16_be(wrap_id) + wrapped;
    u16_round_trip(wrap_id);
    assert(u16_at(message, 0) == u16_at(u16_be(wrap_id), 0));
    assert(message[2] == wrapped[0]);
    assert(message.subrange(3, 16) =~= wrapped.subrange(1, 14));
    if object.is_plain() {
        plain_objects_arrive_as_they_were_sent(object, replies, used, again, from + 1);
    } else {
        wrapped_objects_are_unwrapped(object, replies, used, again, from + 1);
    }
    let read = decoded::<ImportWrappedRequest>(message);
    assert(read is Ok);
    assert(read->Ok_0.format == 1);
    assert(read->Ok_0.wrap_id == wrap_id);
    assert(read->Ok_0.ciphertext.len() >= AES_CCM_TAG_SIZE);
}

/// What one device exports under an RSA key, another device that holds the
/// private key imports as the same object, once the key engine has opened both
/// parts of what was made for the export: the AES key, and the object under it.
/// Where the object holds a private key or a point, the engine also reads the key
/// that it wrote; for any other object it has nothing else to say.
pub proof fn rsa_exported_objects_are_imported(
    source: DeviceModel,
    exporter: SessionAuthorization,
    data: Seq<u8>,
    replies: Seq<EngineReply>,
    used: nat,
    target: DeviceModel,
    importer: SessionAuthorization,
    wrap_id: u16,
    again: Seq<EngineReply>,
    from: nat,
)
    requires
        source.exports_rsa_wrapped(exporter, data, false, replies, used) is Ok,
        ({
            let request = decoded::<ExportRsaWrappedFields>(data)->Ok_0;
            let object = source.get(
                ObjectKey { object_type: request.target_type, id: request.target_id },
            )->Ok_0;
            let (plaintext, after) = object.wrapped(replies, used)->Ok_0;
            let aes_length = wrap_aes_length(request.aes_algorithm)->Ok_0;
            let (aes_key, drawn) = random_from(replies, after, aes_length)->Ok_0;
            let key = target.rsa_wrap_key(importer, wrap_id);
            &&& object.is_plain() || object.returned(replies, used, again, from + 2) is Some
            &&& object.reads_back(plaintext, replies, used)
            &&& key is Ok && key->Ok_0.signing() is Ok
            &&& replies[drawn as int]->Bytes_0@.len() == key->Ok_0.modulus_length()->Ok_0
            &&& replies[drawn + 1int]->Bytes_0@.len() >= 16
            &&& from + 1 < again.len()
            &&& again[from as int] matches EngineReply::Bytes(opened)
            &&& opened@ == aes_key
            &&& again[from + 1int] matches EngineReply::Bytes(unwrapped)
            &&& unwrapped@ == plaintext
        }),
    ensures
        ({
            let request = decoded::<ExportRsaWrappedFields>(data)->Ok_0;
            let object = source.get(
                ObjectKey { object_type: request.target_type, id: request.target_id },
            )->Ok_0;
            let wrapped = source.exports_rsa_wrapped(exporter, data, false, replies, used)->Ok_0.0;
            target.imports_rsa_wrapped(
                importer,
                u16_be(wrap_id) + seq![request.oaep_hash, request.mgf_hash] + wrapped
                    + request.label_hash,
                again,
                from,
            ) == target.imports(
                importer,
                target.rsa_wrap_key(importer, wrap_id)->Ok_0,
                object.arriving(),
                again,
                object.returned(replies, used, again, from + 2)->0,
            ) && (object.is_plain() ==> object.returned(replies, used, again, from + 2) == Some(
                from + 2,
            ))
        }),
{
    let request = decoded::<ExportRsaWrappedFields>(data)->Ok_0;
    let object = source.get(
        ObjectKey { object_type: request.target_type, id: request.target_id },
    )->Ok_0;
    let wrapped = source.exports_rsa_wrapped(exporter, data, false, replies, used)->Ok_0.0;
    let message = u16_be(wrap_id) + seq![request.oaep_hash, request.mgf_hash] + wrapped
        + request.label_hash;
    u16_round_trip(wrap_id);
    assert(u16_at(message, 0) == u16_at(u16_be(wrap_id), 0));
    assert(message[2] == request.oaep_hash && message[3] == request.mgf_hash);
    let input = message.subrange(4, message.len() as int);
    assert(input =~= wrapped + request.label_hash);
    let end = input.len() - oaep_hash_of(request.oaep_hash)->Ok_0.size();
    assert(input.subrange(0, end) =~= wrapped);
    assert(input.subrange(end, input.len() as int) =~= request.label_hash);
    if object.is_plain() {
        plain_objects_arrive_as_they_were_sent(object, replies, used, again, from + 2);
    } else {
        wrapped_objects_are_unwrapped(object, replies, used, again, from + 2);
    }
    assert(decoded::<ImportRsaWrappedRequest>(message) is Ok);
}

/// The bare key that one device exports under an RSA key is the one that another
/// device, which holds the private key, takes out of it: under an AES key of its
/// own, once the key engine has opened both parts of what was made for the export.
pub proof fn rsa_exported_keys_are_taken_out(
    source: DeviceModel,
    exporter: SessionAuthorization,
    data: Seq<u8>,
    replies: Seq<EngineReply>,
    used: nat,
    target: DeviceModel,
    wrap_key: RecordModel,
    again: Seq<EngineReply>,
    from: nat,
)
    requires
        source.exports_rsa_wrapped(exporter, data, true, replies, used) is Ok,
        wrap_key.signing() is Ok,
        ({
            let request = decoded::<ExportRsaWrappedFields>(data)->Ok_0;
            let object = source.get(
                ObjectKey { object_type: request.target_type, id: request.target_id },
            )->Ok_0;
            let (plaintext, after) = object.exported(
                request.target_type,
                true,
                replies,
                used,
            )->Ok_0;
            let aes_length = wrap_aes_length(request.aes_algorithm)->Ok_0;
            let (aes_key, drawn) = random_from(replies, after, aes_length)->Ok_0;
            &&& request.oaep_hash != 0
            &&& replies[drawn as int]->Bytes_0@.len() == wrap_key.modulus_length()->Ok_0
            &&& replies[drawn + 1int]->Bytes_0@.len() > 0
            &&& from + 1 < again.len()
            &&& again[from as int] matches EngineReply::Bytes(opened)
            &&& opened@ == aes_key
            &&& again[from + 1int] matches EngineReply::Bytes(unwrapped)
            &&& unwrapped@ == plaintext
        }),
    ensures
        ({
            let request = decoded::<ExportRsaWrappedFields>(data)->Ok_0;
            let object = source.get(
                ObjectKey { object_type: request.target_type, id: request.target_id },
            )->Ok_0;
            let plaintext = object.exported(request.target_type, true, replies, used)->Ok_0.0;
            let wrapped = source.exports_rsa_wrapped(exporter, data, true, replies, used)->Ok_0.0;
            target.rsa_wrapped_key(
                wrap_key,
                request.target_type,
                request.oaep_hash,
                request.mgf_hash,
                wrapped + request.label_hash,
                again,
                from,
            ) == Ok::<(Seq<u8>, nat), HaltModel>((plaintext, from + 2))
        }),
{
    let request = decoded::<ExportRsaWrappedFields>(data)->Ok_0;
    let wrapped = source.exports_rsa_wrapped(exporter, data, true, replies, used)->Ok_0.0;
    let input = wrapped + request.label_hash;
    let end = input.len() - oaep_hash_of(request.oaep_hash)->Ok_0.size();
    assert(input.subrange(0, end) =~= wrapped);
    assert(input.subrange(end, input.len() as int) =~= request.label_hash);
}

/// The symmetric key that one device encrypts directly for an RSA key is the one
/// that another device, which holds the private key, takes out of it, once the key
/// engine has decrypted what was made for the export.
pub proof fn directly_exported_keys_are_taken_out(
    source: DeviceModel,
    exporter: SessionAuthorization,
    data: Seq<u8>,
    replies: Seq<EngineReply>,
    used: nat,
    target: DeviceModel,
    wrap_key: RecordModel,
    again: Seq<EngineReply>,
    from: nat,
)
    requires
        source.exports_rsa_wrapped(exporter, data, true, replies, used) is Ok,
        wrap_key.signing() is Ok,
        target.firmware == FirmwareProfile::Full,
        target.options.fips_mode == OPTION_OFF,
        ({
            let request = decoded::<ExportRsaWrappedFields>(data)->Ok_0;
            let object = source.get(
                ObjectKey { object_type: request.target_type, id: request.target_id },
            )->Ok_0;
            &&& request.aes_algorithm == 0 && request.oaep_hash == 0 && request.mgf_hash == 0
            &&& source.exports_rsa_wrapped(exporter, data, true, replies, used)->Ok_0.0.len()
                == wrap_key.modulus_length()->Ok_0
            &&& from < again.len()
            &&& again[from as int] matches EngineReply::Bytes(opened)
            &&& opened@ == object.material->Secret_0
        }),
    ensures
        ({
            let request = decoded::<ExportRsaWrappedFields>(data)->Ok_0;
            let object = source.get(
                ObjectKey { object_type: request.target_type, id: request.target_id },
            )->Ok_0;
            target.rsa_wrapped_key(
                wrap_key,
                request.target_type,
                0,
                0,
                source.exports_rsa_wrapped(exporter, data, true, replies, used)->Ok_0.0,
                again,
                from,
            ) == Ok::<(Seq<u8>, nat), HaltModel>((object.material->Secret_0, from + 1))
        }),
{
}

/// A session that was idle for too long makes room for a new one: where some
/// number is free or its session idle, one is free once idle sessions are gone.
pub proof fn idle_sessions_make_room(device: DeviceModel, now: u64, sid: u8)
    requires
        sid < MAX_SESSIONS,
        device.sessions.contains_key(sid) ==> !DeviceModel::alive(device.sessions[sid], now),
    ensures
        first_free(device.expired(now).sessions, 0) is Some,
{
    let left = device.expired(now).sessions;
    free_numbers_are_limited(left, 0);
    assert(!left.contains_key(sid));
}

/// Opaque data that is put is got back, under the number that the answer tells.
pub proof fn stored_data_is_read_back(
    device: DeviceModel,
    authorization: SessionAuthorization,
    data: Seq<u8>,
    replies: Seq<EngineReply>,
    used: nat,
)
    requires
        device.valid(),
        device.puts_opaque(authorization, data, replies, used) is Ok,
    ensures
        ({
            let outcome = device.puts_opaque(authorization, data, replies, used)->Ok_0.0;
            device.applied(outcome.effect).opens(ObjectType::Opaque, outcome.data) == Ok::<
                Seq<u8>,
                DeviceError,
            >(decoded::<ObjectRequest>(data)->Ok_0.material)
        }),
{
    let outcome = device.puts_opaque(authorization, data, replies, used)->Ok_0.0;
    let id = outcome.effect->Write_0.info.id;
    u16_round_trip(id);
    written_objects_are_found(device, outcome.effect->Write_0);
    assert(decoded::<NumberRequest>(u16_be(id)) is Ok);
    let key = ObjectKey {
        object_type: ObjectType::Opaque,
        id: decoded::<ObjectRequest>(data)->Ok_0.header.requested_id,
    };
    if device.objects.contains_key(key.number()) {
        object_keys_are_their_numbers(key, device.objects[key.number()].info.key());
    }
}

/// A template that is put is got back, under the number that the answer tells.
pub proof fn stored_templates_are_read_back(
    device: DeviceModel,
    authorization: SessionAuthorization,
    data: Seq<u8>,
    replies: Seq<EngineReply>,
    used: nat,
)
    requires
        device.puts_template(authorization, data, replies, used) is Ok,
    ensures
        ({
            let outcome = device.puts_template(authorization, data, replies, used)->Ok_0.0;
            device.applied(outcome.effect).opens(ObjectType::Template, outcome.data) == Ok::<
                Seq<u8>,
                DeviceError,
            >(decoded::<ObjectRequest>(data)->Ok_0.material)
        }),
{
    let outcome = device.puts_template(authorization, data, replies, used)->Ok_0.0;
    let id = outcome.effect->Write_0.info.id;
    u16_round_trip(id);
    written_objects_are_found(device, outcome.effect->Write_0);
    assert(decoded::<NumberRequest>(u16_be(id)) is Ok);
}

/// A deleted object is missing, and every other object stays.
pub proof fn deleted_objects_are_missing(device: DeviceModel, key: ObjectKey, other: ObjectKey)
    ensures
        device.applied(EffectModel::Remove(key)).get(key) == Err::<RecordModel, DeviceError>(
            DeviceError::ObjectNotFound,
        ),
        other != key ==> device.applied(EffectModel::Remove(key)).get(other) == device.get(other),
{
    object_keys_are_their_numbers(key, other);
}

/// Data that was wrapped under a key is unwrapped under the same key, once the
/// key engine has opened the ciphertext that it made.
pub proof fn wrapped_data_is_unwrapped(
    device: DeviceModel,
    authorization: SessionAuthorization,
    id: u16,
    plaintext: Seq<u8>,
    replies: Seq<EngineReply>,
    used: nat,
    again: Seq<EngineReply>,
    from: nat,
)
    requires
        device.wraps_data(authorization, u16_be(id) + plaintext, replies, used) is Ok,
        device.wraps_data(
            authorization,
            u16_be(id) + plaintext,
            replies,
            used,
        )->Ok_0.0.len() >= 1 + AES_CCM_NONCE_SIZE + AES_CCM_TAG_SIZE,
        from < again.len(),
        again[from as int] matches EngineReply::Bytes(opened) && opened@ == plaintext,
    ensures
        device.unwraps_data(
            authorization,
            u16_be(id) + device.wraps_data(
                authorization,
                u16_be(id) + plaintext,
                replies,
                used,
            )->Ok_0.0,
            again,
            from,
        ) == Ok::<(Seq<u8>, nat), HaltModel>((plaintext, from + 1)),
{
    let wrapped = device.wraps_data(authorization, u16_be(id) + plaintext, replies, used)->Ok_0.0;
    u16_round_trip(id);
    let asked = u16_be(id) + plaintext;
    let answered = u16_be(id) + wrapped;
    assert(u16_at(asked, 0) == u16_at(u16_be(id), 0));
    assert(u16_at(answered, 0) == u16_at(u16_be(id), 0));
    assert(asked.subrange(2, asked.len() as int) =~= plaintext);
    assert(answered.subrange(2, answered.len() as int) =~= wrapped);
}

/// A mode that is set is told: forced auditing and the mode of operation.
pub proof fn set_modes_are_told(device: DeviceModel, data: Seq<u8>)
    requires
        device.changed_options(data) is Ok,
        decoded::<SetOptionRequest>(data)->Ok_0.option == OPTION_FORCE_AUDIT
            || decoded::<SetOptionRequest>(data)->Ok_0.option == OPTION_FIPS_MODE,
    ensures
        ({
            let request = decoded::<SetOptionRequest>(data)->Ok_0;
            device.applied(
                EffectModel::SetOptions(device.changed_options(data)->Ok_0),
            ).tells_option(
                seq![request.option],
            ) == Ok::<Seq<u8>, DeviceError>(request.values)
        }),
{
    let request = decoded::<SetOptionRequest>(data)->Ok_0;
    assert(decoded::<ByteRequest>(seq![request.option]) is Ok);
    assert(request.values =~= seq![request.values[0]]);
}

} // verus!
