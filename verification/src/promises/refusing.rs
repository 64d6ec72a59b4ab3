//! Refusals: which error is answered to what cannot be done.
use crate::audit::EntryModel;
use crate::authorization::SessionAuthorization;
use crate::bytes::{u16_at, u16_be};
use crate::capability::{bit, Capability};
use crate::channel::{enclosed, first_free, fitted, session_refusal, MessageModel, StepModel};
use crate::device::{ConfigModel, DeviceModel, EffectModel, OutcomeModel};
use crate::engine::{EngineReply, HaltModel};
use crate::error::DeviceError;
use crate::firmware::FirmwareProfile;
use crate::frame::FrameModel;
use crate::object::{InfoModel, ObjectKey, ObjectType, RecordModel};
use crate::promises::computing::{in_reach, place};
use crate::promises::listing::type_number;
use crate::promises::permitting::{
    capability_of, carries, lemma_session_capability, shares_a_domain,
};
use crate::protocol::CommandCode;
use crate::session::{ExchangeModel, SecureModel, SessionModel};
use vstd::prelude::*;

verus! {

/// An object that is missing, or that shares no domain with the session, is not
/// found, and the two look the same; one whose algorithm is switched off is
/// invalid.
pub proof fn objects_out_of_reach_are_missing(
    device: DeviceModel,
    authorization: SessionAuthorization,
    object_type: ObjectType,
    id: u16,
)
    ensures
        ({
            let number = place(type_number(object_type), id);
            let found = device.usable(authorization, object_type, id);
            &&& !shares_a_domain(device, authorization, number) ==> found == Err::<RecordModel, _>(
                DeviceError::ObjectNotFound,
            )
            &&& shares_a_domain(device, authorization, number) && !device.enabled(
                device.objects[number].info.algorithm,
            ) ==> found == Err::<RecordModel, _>(DeviceError::InvalidData)
            &&& in_reach(device, authorization, type_number(object_type), id) ==> found == Ok::<
                _,
                DeviceError,
            >(device.objects[number])
        }),
{
}

/// A session without the capability for a command is refused it for want of
/// permissions, before anything else is looked at.
pub proof fn missing_capabilities_are_refused_first(
    device: DeviceModel,
    authorization: SessionAuthorization,
    command: CommandCode,
    data: Seq<u8>,
)
    requires
        command.session_capability() matches Some(capability) && !bit(
            authorization.capabilities.word(),
            capability.byte(),
        ),
    ensures
        device.allows(authorization, command, data) == Err::<(), _>(
            DeviceError::InsufficientPermissions,
        ),
{
    let capability = command.session_capability()->0;
    assert(!authorization.capabilities.has(capability.byte()));
}

/// A key out of reach is not found, and one without the capability is refused for
/// want of permissions.
pub proof fn keys_are_refused(
    device: DeviceModel,
    authorization: SessionAuthorization,
    key: ObjectKey,
    capability: Capability,
)
    ensures
        ({
            let number = place(type_number(key.object_type), key.id);
            let permitted = device.permits(authorization, key, capability);
            &&& !shares_a_domain(device, authorization, number) ==> permitted == Err::<(), _>(
                DeviceError::ObjectNotFound,
            )
            &&& shares_a_domain(device, authorization, number) && !(bit(
                authorization.capabilities.word(),
                capability.byte(),
            ) && carries(device, number, capability.byte())) ==> permitted == Err::<(), _>(
                DeviceError::InsufficientPermissions,
            )
        }),
{
    let number = place(type_number(key.object_type), key.id);
    assert(authorization.capabilities.has(capability.byte()) == bit(
        authorization.capabilities.word(),
        capability.byte(),
    ));
    assert(device.objects[number].info.capabilities.has(capability.byte()) == carries(
        device,
        number,
        capability.byte(),
    ));
}

/// The key of another session is not one's own to change, and its number is what is
/// wrong with the request.
pub proof fn other_keys_are_not_changed(
    device: DeviceModel,
    authorization: SessionAuthorization,
    data: Seq<u8>,
)
    requires
        data.len() >= 3,
        u16_at(data, 0) != authorization.authentication_key_id,
        bit(authorization.capabilities.word(), 0x2e),
    ensures
        device.allows(authorization, CommandCode::ChangeAuthenticationKey, data) == Err::<(), _>(
            DeviceError::InvalidId,
        ),
{
    assert(authorization.capabilities.has(0x2e));
}

/// A number is refused for a new object where it is the largest one, and where an
/// object of the type has it.
pub proof fn taken_numbers_are_refused(
    device: DeviceModel,
    object_type: ObjectType,
    id: u16,
    replies: Seq<EngineReply>,
    used: nat,
)
    requires
        id != 0,
    ensures
        device.resolved(object_type, id, replies, used) == (if id == 0xffff {
            Err(HaltModel::Error(DeviceError::InvalidId, used))
        } else if device.objects.contains_key(place(type_number(object_type), id)) {
            Err(HaltModel::Error(DeviceError::ObjectExists, used))
        } else {
            Ok((id, used))
        }),
{
}

/// A new object must be asked for with the capability, a valid number, a domain and
/// a label of at most forty bytes, within the session's domains, and with nothing
/// that the session may not hand on.
pub proof fn new_objects_are_refused(
    authorization: SessionAuthorization,
    object: InfoModel,
    capability: Capability,
)
    ensures
        ({
            let allowed = authorization.may_create(object, capability);
            let permitted = bit(authorization.capabilities.word(), capability.byte());
            &&& !permitted ==> allowed == Err::<(), _>(DeviceError::InsufficientPermissions)
            &&& permitted && (object.id == 0 || object.id == 0xffff) ==> allowed == Err::<(), _>(
                DeviceError::InvalidId,
            )
            &&& permitted && object.id != 0 && object.id != 0xffff && (object.domains == 0
                || object.label.len() > 40) ==> allowed == Err::<(), _>(DeviceError::InvalidData)
            &&& permitted && object.id != 0 && object.id != 0xffff && object.domains != 0
                && object.label.len() <= 40 && object.domains & !authorization.domains != 0
                ==> allowed == Err::<(), _>(DeviceError::InsufficientPermissions)
        }),
{
    assert(authorization.capabilities.has(capability.byte()) == bit(
        authorization.capabilities.word(),
        capability.byte(),
    ));
}

/// A session may make an object where nothing of this stands against it.
pub proof fn new_objects_are_allowed(
    authorization: SessionAuthorization,
    object: InfoModel,
    capability: Capability,
)
    requires
        bit(authorization.capabilities.word(), capability.byte()),
        object.id != 0 && object.id != 0xffff && object.domains != 0,
        object.label.len() <= 40,
        object.domains & !authorization.domains == 0,
        forall|number: u8|
            number < 64 && (#[trigger] bit(object.capabilities.word(), number) || bit(
                object.delegated_capabilities.word(),
                number,
            )) ==> bit(authorization.delegated_capabilities.word(), number),
    ensures
        authorization.may_create(object, capability) is Ok,
{
    assert(authorization.capabilities.has(capability.byte()));
    let given = authorization.delegated_capabilities;
    assert forall|number: u8|
        number < 64 && object.capabilities.has(number) implies given.has(number) by {
        assert(bit(object.capabilities.word(), number));
    }
    assert forall|number: u8|
        number < 64 && object.delegated_capabilities.has(number) implies given.has(number) by {
        assert(bit(object.capabilities.word(), number) || bit(
            object.delegated_capabilities.word(),
            number,
        ));
    }
}

/// A new key that is sent must be as long as its algorithm says, and one that is
/// generated comes with nothing; its algorithm must be enabled and one for such
/// keys.
pub proof fn keys_of_wrong_length_are_refused(
    device: DeviceModel,
    authorization: SessionAuthorization,
    data: Seq<u8>,
    replies: Seq<EngineReply>,
    used: nat,
)
    requires
        data.len() >= 53,
    ensures
        ({
            let refused = Err::<(OutcomeModel, nat), _>(
                HaltModel::Error(DeviceError::WrongLength, used),
            );
            let invalid = Err::<(OutcomeModel, nat), _>(
                HaltModel::Error(DeviceError::InvalidData, used),
            );
            let sent = data.len() - 53;
            &&& sent > 0 ==> device.puts_asymmetric_key(authorization, data, true, replies, used)
                == refused && device.puts_hmac_key(authorization, data, true, replies, used)
                == refused && device.puts_symmetric_key(authorization, data, true, replies, used)
                == refused
            &&& !device.enabled(data[52]) ==> device.puts_asymmetric_key(
                authorization,
                data,
                false,
                replies,
                used,
            ) == invalid && device.puts_hmac_key(authorization, data, false, replies, used)
                == invalid && device.puts_symmetric_key(authorization, data, false, replies, used)
                == invalid
            &&& device.enabled(data[52]) && 50 <= data[52] <= 52 && sent != (match data[52] {
                50 => 16int,
                51 => 24,
                _ => 32,
            }) ==> device.puts_symmetric_key(authorization, data, false, replies, used) == refused
            &&& device.enabled(data[52]) && 19 <= data[52] <= 22 && (sent == 0 || sent > 128)
                ==> device.puts_hmac_key(authorization, data, false, replies, used) == refused
            &&& device.enabled(data[52]) && data[52] == 12 && sent != 32
                ==> device.puts_asymmetric_key(authorization, data, false, replies, used)
                == refused
        }),
{
}

/// No session is opened where all sixteen are taken, with a challenge of another
/// length than the key asks for, or with a key that is missing.
pub proof fn openings_are_refused(
    device: DeviceModel,
    authorization: SessionAuthorization,
    host: Seq<u8>,
    now: u64,
    replies: Seq<EngineReply>,
    used: nat,
)
    ensures
        ({
            let number = place(2, authorization.authentication_key_id);
            let run = device.opens_session(authorization, host, now, replies, used);
            let material = device.objects[number].material;
            let keyed = device.objects.contains_key(number) && (material is Symmetric
                || material is Asymmetric);
            &&& !device.objects.contains_key(number) ==> run == Err::<
                (crate::channel::OpeningModel, nat),
                _,
            >(HaltModel::Error(DeviceError::ObjectNotFound, used))
            &&& keyed && first_free(device.sessions, 0) is None ==> run == Err::<
                (crate::channel::OpeningModel, nat),
                _,
            >(HaltModel::Error(DeviceError::SessionsFull, used))
            &&& keyed && first_free(device.sessions, 0) is Some && host.len() != (
            if material is Symmetric {
                8int
            } else {
                65
            }) ==> run == Err::<(crate::channel::OpeningModel, nat), _>(
                HaltModel::Error(DeviceError::WrongLength, used),
            )
        }),
{
}

/// Messages to a session that is not there are refused as such.
pub proof fn messages_need_their_session(
    device: DeviceModel,
    request: FrameModel,
    now: u64,
    hooked: bool,
    replies: Seq<EngineReply>,
    used: nat,
)
    requires
        request.data.len() > 0,
        !device.sessions.contains_key(request.data[0]),
    ensures
        device.carries_message(request, now, hooked, replies, used) == Err::<(StepModel, nat), _>(
            HaltModel::Error(DeviceError::InvalidSession, used),
        ),
        device.authenticates_session(request, now, replies, used) == Err::<(StepModel, nat), _>(
            HaltModel::Error(DeviceError::InvalidSession, used),
        ),
{
}

/// A session ends after CloseSession, and after ResetDevice where the device itself
/// was reset; it goes on after everything else that could be answered.
pub proof fn sessions_end_when_they_are_closed(
    authorization: SessionAuthorization,
    secure: SecureModel,
    request: FrameModel,
    inner: FrameModel,
    overridden: bool,
    effect: EffectModel,
    entry: Option<EntryModel>,
    durable: bool,
    replies: Seq<EngineReply>,
    used: nat,
)
    requires
        inner.data.len() <= 3000,
    ensures
        enclosed(
            authorization,
            secure,
            request,
            inner,
            overridden,
            effect,
            entry,
            durable,
            replies,
            used,
        ) matches Ok((message, _)) ==> {
            &&& secure.encrypted(inner, replies, used) is Ok ==> (message.kept is None
                <==> request.command == 0x40 || (request.command == 0x08 && !overridden
                && inner.command != 0x7f))
            &&& message.kept matches Some(kept) ==> secure.encrypted(inner, replies, used) is Ok
                && kept == secure.encrypted(inner, replies, used)->Ok_0.0.secure
            &&& message.effect == effect
            &&& message.entry == entry
            &&& message.durable == durable
        },
{
}

/// A session that goes on was active now, and holds what the command left it.
pub proof fn sessions_go_on(
    device: DeviceModel,
    sid: u8,
    session: SessionModel,
    message: MessageModel,
    now: u64,
)
    ensures
        ({
            let after = device.after_message(sid, session, message, now);
            let base = device.committed(message.effect, message.entry, message.durable);
            &&& after == DeviceModel { sessions: after.sessions, ..base }
            &&& message.kept is None ==> after.sessions == base.sessions
            &&& message.kept matches Some(kept) ==> after.sessions.contains_key(sid) && {
                let now_held = after.sessions[sid];
                &&& now_held.secure == kept
                &&& now_held.last_activity == now
                &&& now_held.authorization == session.authorization
                &&& now_held.authenticated == session.authenticated
                &&& now_held.objects == (match message.effect {
                    EffectModel::Add(handle, object) => session.objects.insert(handle, object),
                    EffectModel::Discard(handle) => session.objects.remove(handle),
                    _ => session.objects,
                })
            }
            &&& forall|other: u8|
                other != sid ==> (#[trigger] after.sessions.contains_key(other)
                    <==> base.sessions.contains_key(other)) && after.sessions[other]
                    == base.sessions[other]
        }),
{
    let after = device.after_message(sid, session, message, now);
    let base = device.committed(message.effect, message.entry, message.durable);
    assert(after == DeviceModel { sessions: after.sessions, ..base });
}

/// A device as it is made: of version 2.5.0, with the serial number 12345678 and
/// room for 62 entries in its log.
pub proof fn devices_are_made_alike(firmware: FirmwareProfile)
    ensures
        ConfigModel::factory(firmware).version == seq![2u8, 5, 0],
        ConfigModel::factory(firmware).serial == 12345678,
        ConfigModel::factory(firmware).log_capacity == 62,
        ConfigModel::factory(firmware).part_number.len() == 13,
{
}

/// A response of up to 3116 bytes fits into a message; a longer one is answered as
/// an error of length.
pub proof fn long_responses_are_refused(response: FrameModel)
    ensures
        fitted(response) == (if response.data.len() <= 3116 {
            response
        } else {
            FrameModel { command: 0x7f, data: seq![8u8] }
        }),
{
}

/// A session is authenticated once: a second time is refused as a fault of the
/// session, and without a cryptogram to expect nobody is.
pub proof fn sessions_are_authenticated_once(
    session: SessionModel,
    request: FrameModel,
    replies: Seq<EngineReply>,
    used: nat,
)
    ensures
        session.authenticated ==> DeviceModel::confirms(session, request, replies, used) == Err::<
            (SecureModel, nat),
            _,
        >(HaltModel::Error(DeviceError::InvalidSession, used)),
        !session.authenticated && session.expected_host_cryptogram is None
            ==> DeviceModel::confirms(session, request, replies, used) == Err::<
            (SecureModel, nat),
            _,
        >(HaltModel::Error(DeviceError::AuthenticationFailed, used)),
{
}

/// A message that is rightly signed and names another session, or whose ciphertext
/// is not of whole blocks, fails the session; one that is not rightly signed is not
/// authenticated.
pub proof fn messages_name_their_session(
    secure: SecureModel,
    message: FrameModel,
    replies: Seq<EngineReply>,
    used: nat,
)
    ensures
        message.data.len() < 8 ==> secure.decrypted(message, replies, used) == Err::<
            (ExchangeModel, nat),
            _,
        >(HaltModel::Error(DeviceError::AuthenticationFailed, used)),
        secure.verified(message, replies, used) matches Ok((verified, next)) ==> (
        verified.payload.len() < 17 || verified.payload[0] != secure.sid || (verified.payload.len()
            - 1) % 16 != 0) ==> secure.decrypted(message, replies, used) == Err::<
            (ExchangeModel, nat),
            _,
        >(HaltModel::Error(DeviceError::SessionFailed, next)),
{
}

/// ExportWrapped knows the formats 0 and 1, and takes none for the first.
pub proof fn unknown_formats_are_refused(
    device: DeviceModel,
    authorization: SessionAuthorization,
    data: Seq<u8>,
    replies: Seq<EngineReply>,
    used: nat,
)
    requires
        data.len() == 6,
        1 <= data[2] <= 9,
    ensures
        data[5] > 1 ==> device.exports_wrapped(authorization, data, replies, used) == Err::<
            (Seq<u8>, nat),
            _,
        >(HaltModel::Error(DeviceError::WrongLength, used)),
        data[5] <= 1 ==> device.exports_wrapped(authorization, data, replies, used)
            == device.exports_wrapped(authorization, data.subrange(0, 5), replies, used),
{
    let short = data.subrange(0, 5);
    assert(u16_at(short, 0) == u16_at(data, 0));
    assert(u16_at(short, 3) == u16_at(data, 3));
    assert(short[2] == data[2]);
}

/// Before anybody else is asked, a command in a session is refused for want of the
/// session's capability, and for nothing else.
pub proof fn sessions_are_refused_for_their_capability(
    authorization: SessionAuthorization,
    request: FrameModel,
)
    ensures
        session_refusal(authorization, request) == (match capability_of(request.command) {
            Some(capability) => if bit(authorization.capabilities.word(), capability) {
                None
            } else {
                Some(DeviceError::InsufficientPermissions)
            },
            None => None,
        }),
{
    if let Some(command) = CommandCode::of_byte(request.command) {
        lemma_session_capability(command);
        assert(command.byte() == request.command);
        if let Some(capability) = command.session_capability() {
            assert(authorization.capabilities.has(capability.byte()) == bit(
                authorization.capabilities.word(),
                capability.byte(),
            ));
        }
    } else {
        lemma_unknown(request.command);
    }
}

proof fn lemma_unknown(number: u8)
    requires
        CommandCode::of_byte(number) is None,
    ensures
        capability_of(number) is None,
{
}

/// A key goes out under PKCS #1 v1.5 only from the full firmware, and not where the
/// FIPS mode is on.
pub proof fn plain_rsa_exports_are_limited(
    device: DeviceModel,
    authorization: SessionAuthorization,
    data: Seq<u8>,
    key_material_only: bool,
    replies: Seq<EngineReply>,
    used: nat,
)
    requires
        data.len() == 8,
        1 <= data[2] <= 9,
        data[5] == 0 && data[6] == 0 && data[7] == 0,
        device.firmware != FirmwareProfile::Full || device.options.fips_mode != 0 || data[2] != 8
            || !key_material_only,
    ensures
        device.exports_rsa_wrapped(
            authorization,
            data,
            key_material_only,
            replies,
            used,
        ) matches Err(HaltModel::Error(_, _)),
{
}

/// Contents that are missing are not found.
pub proof fn missing_contents_are_not_found(device: DeviceModel, id: u16)
    ensures
        !device.objects.contains_key(place(1, id)) ==> device.opens(ObjectType::Opaque, u16_be(id))
            == Err::<Seq<u8>, _>(DeviceError::ObjectNotFound),
        !device.objects.contains_key(place(6, id)) ==> device.opens(
            ObjectType::Template,
            u16_be(id),
        ) == Err::<Seq<u8>, _>(DeviceError::ObjectNotFound),
{
    crate::bytes::u16_round_trip(id);
    assert(u16_at(u16_be(id), 0) == id);
}

} // verus!
