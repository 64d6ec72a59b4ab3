//! Permissions: what a session and an object must have for a command to be carried
//! out.
use crate::access::{needs, Requirement};
use crate::authorization::SessionAuthorization;
use crate::bytes::u16_at;
use crate::capability::bit;
use crate::device::{DeviceModel, EffectModel};
use crate::engine::{lifted, EngineReply, HaltModel, Operation, Run};
use crate::error::DeviceError;
use crate::execute::answered;
use crate::frame::FrameModel;
use crate::keys::{EcCurve, KeyKind};
use crate::object::ObjectType;
use crate::promises::computing::{computation, place};
use crate::protocol::CommandCode;
use crate::session_object::VolatileModel;
use vstd::prelude::*;

verus! {

/// The type of the key that a command uses, and the capability that both the
/// session and the key must have.
pub open spec fn key_of(command: u8) -> Option<(int, u8)> {
    match command {
        0x47 => Some((3, 0x05)),
        0x49 => Some((3, 0x09)),
        0x4b => Some((4, 0x0d)),
        0x53 => Some((5, 0x16)),
        0x55 => Some((3, 0x06)),
        0x56 => Some((3, 0x07)),
        0x57 => Some((3, 0x0b)),
        0x59 => Some((3, 0x0a)),
        0x5c => Some((5, 0x17)),
        0x5f => Some((6, 0x1a)),
        0x60 => Some((7, 0x1d)),
        0x61 => Some((7, 0x1e)),
        0x62 => Some((7, 0x1f)),
        0x68 => Some((4, 0x25)),
        0x69 => Some((4, 0x26)),
        0x6a => Some((3, 0x08)),
        0x6f => Some((8, 0x32)),
        0x70 => Some((8, 0x33)),
        0x71 => Some((8, 0x34)),
        0x72 => Some((8, 0x35)),
        0x75 => Some((4, 0x0d)),
        0x77 => Some((4, 0x0d)),
        0x78 => Some((3, 0x38)),
        _ => None,
    }
}

/// The capability that a session must have for a command, whatever it is about.
pub open spec fn capability_of(command: u8) -> Option<u8> {
    match command {
        0x08 => Some(0x1c),
        0x42 => Some(0x01),
        0x43 => Some(0x00),
        0x44 => Some(0x02),
        0x45 => Some(0x03),
        0x46 => Some(0x04),
        0x4a | 0x74 | 0x76 => Some(0x0c),
        0x4c => Some(0x0e),
        0x4d | 0x67 => Some(0x18),
        0x4f => Some(0x11),
        0x50 => Some(0x12),
        0x51 => Some(0x13),
        0x52 => Some(0x14),
        0x5a => Some(0x15),
        0x5b => Some(0x0f),
        0x5d => Some(0x19),
        0x5e => Some(0x1b),
        0x64 => Some(0x22),
        0x65 => Some(0x23),
        0x66 => Some(0x24),
        0x6c => Some(0x2e),
        0x6d => Some(0x2f),
        0x6e => Some(0x30),
        0x73 => Some(0x36),
        0x79 => Some(0x39),
        _ => match key_of(command) {
            Some((_, capability)) => Some(capability),
            None => None,
        },
    }
}

/// Whether a command gets as far as asking the engine, or to its end.
pub open spec fn goes_ahead<T>(run: Run<T>) -> bool {
    !(run matches Err(HaltModel::Error(_, _)))
}

/// Whether a session reaches an object.
pub open spec fn shares_a_domain(
    device: DeviceModel,
    authorization: SessionAuthorization,
    number: u32,
) -> bool {
    device.objects.contains_key(number) && authorization.domains
        & device.objects[number].info.domains != 0
}

/// Whether an object has a capability.
pub open spec fn carries(device: DeviceModel, number: u32, capability: u8) -> bool {
    bit(device.objects[number].info.capabilities.word(), capability)
}

/// A command in a session goes ahead only where it is one that the firmware knows
/// and that the session is allowed, and then as what it is.
pub proof fn commands_go_ahead_where_they_are_allowed(
    device: DeviceModel,
    authorization: SessionAuthorization,
    request: FrameModel,
    volatile: Option<Map<u64, VolatileModel>>,
    replies: Seq<EngineReply>,
    used: nat,
)
    requires
        device.plain(request) is None,
    ensures
        ({
            let run = device.executed(authorization, request, volatile, replies, used);
            &&& goes_ahead(run) ==> device.known(request) is Some && device.allows(
                authorization,
                device.known(request)->0,
                request.data,
            ) is Ok
            &&& device.known(request) matches Some(command) ==> (device.allows(
                authorization,
                command,
                request.data,
            ) is Ok) ==> run == device.dispatched(
                authorization,
                command,
                request.data,
                volatile,
                replies,
                used,
            )
        }),
{
}

/// No command is allowed without the session's capability for it.
pub proof fn sessions_need_the_capability(
    device: DeviceModel,
    authorization: SessionAuthorization,
    command: CommandCode,
    data: Seq<u8>,
)
    requires
        device.allows(authorization, command, data) is Ok,
    ensures
        capability_of(command.byte()) matches Some(capability) ==> bit(
            authorization.capabilities.word(),
            capability,
        ),
{
    lemma_session_capability(command);
    if let Some(capability) = capability_of(command.byte()) {
        assert(authorization.capabilities.has(capability));
    }
}

/// The capability of a command by its number is that of the command.
pub proof fn lemma_session_capability(command: CommandCode)
    ensures
        capability_of(command.byte()) == (match command.session_capability() {
            Some(capability) => Some(capability.byte()),
            None => None,
        }),
{
}

proof fn lemma_key(command: CommandCode, data: Seq<u8>)
    ensures
        key_of(command.byte()) matches Some((object_type, capability)) ==> match needs(
            command,
            data,
        ) {
            Ok(Requirement::Use(key, own)) => data.len() >= 2 && key.number() == place(
                object_type,
                u16_at(data, 0),
            ) && own.byte() == capability,
            Ok(_) => false,
            Err(_) => true,
        },
{
}

/// No command is allowed with a key that the session does not reach, or that has
/// not the command's capability itself.
pub proof fn keys_need_the_capability(
    device: DeviceModel,
    authorization: SessionAuthorization,
    command: CommandCode,
    data: Seq<u8>,
)
    requires
        device.allows(authorization, command, data) is Ok,
    ensures
        key_of(command.byte()) matches Some((object_type, capability)) ==> {
            let number = place(object_type, u16_at(data, 0));
            &&& data.len() >= 2
            &&& shares_a_domain(device, authorization, number)
            &&& carries(device, number, capability)
        },
{
    lemma_key(command, data);
    if let Some((object_type, capability)) = key_of(command.byte()) {
        let number = place(object_type, u16_at(data, 0));
        assert(device.objects[number].info.capabilities.has(capability));
    }
}

/// A command is allowed with a key that the session reaches, where both have the
/// command's capability, unless the request cannot be read.
pub proof fn capabilities_are_enough(
    device: DeviceModel,
    authorization: SessionAuthorization,
    command: CommandCode,
    data: Seq<u8>,
)
    requires
        key_of(command.byte()) matches Some((object_type, capability)) && bit(
            authorization.capabilities.word(),
            capability,
        ) && shares_a_domain(device, authorization, place(object_type, u16_at(data, 0)))
            && carries(device, place(object_type, u16_at(data, 0)), capability),
        needs(command, data) is Ok,
    ensures
        device.allows(authorization, command, data) is Ok,
{
    lemma_key(command, data);
    lemma_session_capability(command);
    if let Some((object_type, capability)) = key_of(command.byte()) {
        let number = place(object_type, u16_at(data, 0));
        assert(authorization.capabilities.has(capability));
        assert(device.objects[number].info.capabilities.has(capability));
    }
}

/// Where a session has no say: the commands that take no capability are allowed in
/// every session.
pub proof fn some_commands_are_free(
    device: DeviceModel,
    authorization: SessionAuthorization,
    command: CommandCode,
    data: Seq<u8>,
)
    requires
        command.byte() == 0x40 || command.byte() == 0x41 || command.byte() == 0x48
            || command.byte() == 0x6b,
    ensures
        device.allows(authorization, command, data) is Ok,
{
}

/// RewrapOtpAead takes the capability to rewrap from the one key and that to
/// rewrap to the other, of the session and of the keys.
pub proof fn rewrapping_needs_both_capabilities(
    device: DeviceModel,
    authorization: SessionAuthorization,
    request: FrameModel,
    volatile: Option<Map<u64, VolatileModel>>,
    replies: Seq<EngineReply>,
    used: nat,
)
    requires
        request.command == 0x63,
        goes_ahead(device.executed(authorization, request, volatile, replies, used)),
    ensures
        ({
            let from = place(7, u16_at(request.data, 0));
            let to = place(7, u16_at(request.data, 2));
            &&& shares_a_domain(device, authorization, from)
            &&& shares_a_domain(device, authorization, to)
            &&& bit(authorization.capabilities.word(), 0x20)
            &&& bit(authorization.capabilities.word(), 0x21)
            &&& carries(device, from, 0x20)
            &&& carries(device, to, 0x21)
        }),
{
    commands_go_ahead_where_they_are_allowed(
        device,
        authorization,
        request,
        volatile,
        replies,
        used,
    );
    let from = place(7, u16_at(request.data, 0));
    let to = place(7, u16_at(request.data, 2));
    assert(authorization.capabilities.has(0x20) && authorization.capabilities.has(0x21));
    assert(device.objects[from].info.capabilities.has(0x20));
    assert(device.objects[to].info.capabilities.has(0x21));
}

/// An object is exported only under a wrap key with the capability to export, only
/// where it is exportable itself, and only where the wrap key hands on each
/// capability that the object has.
pub proof fn exports_need_the_capabilities(
    device: DeviceModel,
    authorization: SessionAuthorization,
    request: FrameModel,
    volatile: Option<Map<u64, VolatileModel>>,
    replies: Seq<EngineReply>,
    used: nat,
    number: u8,
)
    requires
        request.command == 0x4a || request.command == 0x74 || request.command == 0x76,
        goes_ahead(device.executed(authorization, request, volatile, replies, used)),
    ensures
        ({
            let wrap = place(
                if request.command == 0x4a {
                    4
                } else {
                    9
                },
                u16_at(request.data, 0),
            );
            let target = place(request.data[2] as int, u16_at(request.data, 3));
            &&& shares_a_domain(device, authorization, wrap)
            &&& shares_a_domain(device, authorization, target)
            &&& carries(device, wrap, 0x0c)
            &&& carries(device, target, 0x10)
            &&& number < 64 && carries(device, target, number) ==> bit(
                device.objects[wrap].info.delegated_capabilities.word(),
                number,
            )
        }),
{
    commands_go_ahead_where_they_are_allowed(
        device,
        authorization,
        request,
        volatile,
        replies,
        used,
    );
    let wrap = place(
        if request.command == 0x4a {
            4
        } else {
            9
        },
        u16_at(request.data, 0),
    );
    let target = place(request.data[2] as int, u16_at(request.data, 3));
    let (outer, inner) = (device.objects[wrap].info, device.objects[target].info);
    assert(outer.capabilities.has(0x0c));
    assert(inner.capabilities.has(0x10));
    assert(outer.delegated_capabilities.covers(inner.capabilities));
    if number < 64 && carries(device, target, number) {
        assert(inner.capabilities.has(number));
        assert(outer.delegated_capabilities.has(number));
    }
}

/// The capability that deleting an object of a type takes.
pub open spec fn deletion_of(object_type: u8) -> u8 {
    match object_type {
        1 => 0x27,
        2 => 0x28,
        3 => 0x29,
        4 => 0x2a,
        5 => 0x2b,
        6 => 0x2c,
        7 => 0x2d,
        8 => 0x31,
        _ => 0x37,
    }
}

/// DeleteObject removes the object that is named and no other; the session must
/// reach it and have the capability to delete objects of its type.
pub proof fn deletions_need_the_capability(
    device: DeviceModel,
    authorization: SessionAuthorization,
    request: FrameModel,
    volatile: Option<Map<u64, VolatileModel>>,
    replies: Seq<EngineReply>,
    used: nat,
)
    requires
        device.valid(),
        request.command == 0x58,
        request.data.len() == 3,
    ensures
        ({
            let run = device.executed(authorization, request, volatile, replies, used);
            let number = place(request.data[2] as int, u16_at(request.data, 0));
            &&& run is Ok <==> 1 <= request.data[2] <= 9 && shares_a_domain(
                device,
                authorization,
                number,
            ) && bit(authorization.capabilities.word(), deletion_of(request.data[2]))
            &&& run matches Ok((outcome, _)) ==> outcome.data.len() == 0 && device.applied(
                outcome.effect,
            ) == (DeviceModel { objects: device.objects.remove(number), ..device })
        }),
{
    let number = place(request.data[2] as int, u16_at(request.data, 0));
    let capability = deletion_of(request.data[2]);
    assert(device.known(request) == Some(CommandCode::DeleteObject));
    assert(authorization.capabilities.has(capability) == bit(
        authorization.capabilities.word(),
        capability,
    ));
    if device.objects.contains_key(number) {
        assert(device.objects[number].info.key().number() == number);
    }
}

/// An authentication key is changed only by a session of its own, and with the
/// capability of the session and of the key.
pub proof fn sessions_change_their_own_key(
    device: DeviceModel,
    authorization: SessionAuthorization,
    request: FrameModel,
    volatile: Option<Map<u64, VolatileModel>>,
    replies: Seq<EngineReply>,
    used: nat,
)
    requires
        request.command == 0x6c,
        goes_ahead(device.executed(authorization, request, volatile, replies, used)),
    ensures
        u16_at(request.data, 0) == authorization.authentication_key_id,
        shares_a_domain(device, authorization, place(2, authorization.authentication_key_id)),
        carries(device, place(2, authorization.authentication_key_id), 0x2e),
{
    commands_go_ahead_where_they_are_allowed(
        device,
        authorization,
        request,
        volatile,
        replies,
        used,
    );
    let number = place(2, authorization.authentication_key_id);
    assert(device.objects[number].info.capabilities.has(0x2e));
}

/// An attestation takes a key that the session reaches, where it is not about the
/// device's own, and a signer with the capability, where it is not the device's
/// own; a template that is there must be in reach too.
pub proof fn attestations_need_the_capability(
    device: DeviceModel,
    authorization: SessionAuthorization,
    request: FrameModel,
    volatile: Option<Map<u64, VolatileModel>>,
    replies: Seq<EngineReply>,
    used: nat,
)
    requires
        request.command == 0x64,
        goes_ahead(device.executed(authorization, request, volatile, replies, used)),
    ensures
        ({
            let target = u16_at(request.data, 0);
            let signer = u16_at(request.data, 2);
            &&& target != 0 ==> shares_a_domain(device, authorization, place(3, target))
            &&& signer != 0 ==> shares_a_domain(device, authorization, place(3, signer)) && carries(
                device,
                place(3, signer),
                0x22,
            )
            &&& signer != 0 && device.objects.contains_key(place(1, signer)) ==> shares_a_domain(
                device,
                authorization,
                place(1, signer),
            )
        }),
{
    commands_go_ahead_where_they_are_allowed(
        device,
        authorization,
        request,
        volatile,
        replies,
        used,
    );
    let signer = u16_at(request.data, 2);
    if signer != 0 {
        assert(device.objects[place(3, signer)].info.capabilities.has(0x22));
    }
}

/// The commands with asymmetric keys come to what their numbers stand for.
pub proof fn numbers_stand_for_asymmetric_computations(
    device: DeviceModel,
    authorization: SessionAuthorization,
    data: Seq<u8>,
    replies: Seq<EngineReply>,
    used: nat,
)
    ensures
        device.uses(
            authorization,
            CommandCode::of_byte(0x47)->0,
            data,
            replies,
            used,
        ) == Some(device.signs_pkcs1(authorization, data, replies, used)),
        device.uses(
            authorization,
            CommandCode::of_byte(0x49)->0,
            data,
            replies,
            used,
        ) == Some(device.decrypts_pkcs1(authorization, data, replies, used)),
        device.uses(
            authorization,
            CommandCode::of_byte(0x55)->0,
            data,
            replies,
            used,
        ) == Some(device.signs_pss(authorization, data, replies, used)),
        device.uses(
            authorization,
            CommandCode::of_byte(0x56)->0,
            data,
            replies,
            used,
        ) == Some(device.signs_ecdsa(authorization, data, replies, used)),
        device.uses(
            authorization,
            CommandCode::of_byte(0x57)->0,
            data,
            replies,
            used,
        ) == Some(device.derives_ecdh(authorization, data, replies, used)),
        device.uses(
            authorization,
            CommandCode::of_byte(0x59)->0,
            data,
            replies,
            used,
        ) == Some(device.decrypts_oaep(authorization, data, replies, used)),
        device.uses(
            authorization,
            CommandCode::of_byte(0x64)->0,
            data,
            replies,
            used,
        ) == Some(device.signs_attestation(authorization, data, replies, used)),
        device.uses(
            authorization,
            CommandCode::of_byte(0x6a)->0,
            data,
            replies,
            used,
        ) == Some(device.signs_eddsa(authorization, data, replies, used)),
        device.uses(
            authorization,
            CommandCode::of_byte(0x78)->0,
            data,
            replies,
            used,
        ) == Some(device.derives_ecdh_kdf(authorization, data, replies, used)),
{
}

/// The commands with symmetric keys come to what their numbers stand for.
pub proof fn numbers_stand_for_symmetric_computations(
    device: DeviceModel,
    authorization: SessionAuthorization,
    data: Seq<u8>,
    replies: Seq<EngineReply>,
    used: nat,
)
    ensures
        device.uses(
            authorization,
            CommandCode::of_byte(0x53)->0,
            data,
            replies,
            used,
        ) == Some(device.signs_hmac(authorization, data, replies, used)),
        device.uses(
            authorization,
            CommandCode::of_byte(0x5c)->0,
            data,
            replies,
            used,
        ) == Some(device.verifies_hmac(authorization, data, replies, used)),
        device.uses(
            authorization,
            CommandCode::of_byte(0x60)->0,
            data,
            replies,
            used,
        ) == Some(device.decrypts_otp(authorization, data, replies, used)),
        device.uses(
            authorization,
            CommandCode::of_byte(0x61)->0,
            data,
            replies,
            used,
        ) == Some(device.creates_otp_aead(authorization, data, replies, used)),
        device.uses(
            authorization,
            CommandCode::of_byte(0x62)->0,
            data,
            replies,
            used,
        ) == Some(device.randomizes_otp_aead(authorization, data, replies, used)),
        device.uses(
            authorization,
            CommandCode::of_byte(0x63)->0,
            data,
            replies,
            used,
        ) == Some(device.rewraps_otp_aead(authorization, data, replies, used)),
        device.uses(
            authorization,
            CommandCode::of_byte(0x6f)->0,
            data,
            replies,
            used,
        ) == Some(device.crypts_ecb(authorization, data, false, replies, used)),
        device.uses(
            authorization,
            CommandCode::of_byte(0x70)->0,
            data,
            replies,
            used,
        ) == Some(device.crypts_ecb(authorization, data, true, replies, used)),
        device.uses(
            authorization,
            CommandCode::of_byte(0x71)->0,
            data,
            replies,
            used,
        ) == Some(device.crypts_cbc(authorization, data, false, replies, used)),
        device.uses(
            authorization,
            CommandCode::of_byte(0x72)->0,
            data,
            replies,
            used,
        ) == Some(device.crypts_cbc(authorization, data, true, replies, used)),
{
}

/// The commands that wrap come to what their numbers stand for.
pub proof fn numbers_stand_for_wrapping(
    device: DeviceModel,
    authorization: SessionAuthorization,
    data: Seq<u8>,
    replies: Seq<EngineReply>,
    used: nat,
)
    ensures
        device.uses(
            authorization,
            CommandCode::of_byte(0x4a)->0,
            data,
            replies,
            used,
        ) == Some(device.exports_wrapped(authorization, data, replies, used)),
        device.uses(
            authorization,
            CommandCode::of_byte(0x68)->0,
            data,
            replies,
            used,
        ) == Some(device.wraps_data(authorization, data, replies, used)),
        device.uses(
            authorization,
            CommandCode::of_byte(0x69)->0,
            data,
            replies,
            used,
        ) == Some(device.unwraps_data(authorization, data, replies, used)),
        device.uses(
            authorization,
            CommandCode::of_byte(0x74)->0,
            data,
            replies,
            used,
        ) == Some(device.exports_rsa_wrapped(authorization, data, true, replies, used)),
        device.uses(
            authorization,
            CommandCode::of_byte(0x76)->0,
            data,
            replies,
            used,
        ) == Some(device.exports_rsa_wrapped(authorization, data, false, replies, used)),
{
}

/// The commands that make asymmetric and wrap keys, and what is opaque, come to what
/// their numbers stand for.
pub proof fn numbers_stand_for_new_keys(
    device: DeviceModel,
    authorization: SessionAuthorization,
    data: Seq<u8>,
    replies: Seq<EngineReply>,
    used: nat,
)
    ensures
        device.stores(
            authorization,
            CommandCode::of_byte(0x42)->0,
            data,
            replies,
            used,
        ) == Some(device.puts_opaque(authorization, data, replies, used)),
        device.stores(
            authorization,
            CommandCode::of_byte(0x44)->0,
            data,
            replies,
            used,
        ) == Some(device.puts_authentication_key(authorization, data, replies, used)),
        device.stores(
            authorization,
            CommandCode::of_byte(0x45)->0,
            data,
            replies,
            used,
        ) == Some(device.puts_asymmetric_key(authorization, data, false, replies, used)),
        device.stores(
            authorization,
            CommandCode::of_byte(0x46)->0,
            data,
            replies,
            used,
        ) == Some(device.puts_asymmetric_key(authorization, data, true, replies, used)),
        device.stores(
            authorization,
            CommandCode::of_byte(0x4c)->0,
            data,
            replies,
            used,
        ) == Some(device.puts_wrap_key(authorization, data, false, replies, used)),
        device.stores(
            authorization,
            CommandCode::of_byte(0x5b)->0,
            data,
            replies,
            used,
        ) == Some(device.puts_wrap_key(authorization, data, true, replies, used)),
        device.stores(
            authorization,
            CommandCode::of_byte(0x5e)->0,
            data,
            replies,
            used,
        ) == Some(device.puts_template(authorization, data, replies, used)),
        device.stores(
            authorization,
            CommandCode::of_byte(0x73)->0,
            data,
            replies,
            used,
        ) == Some(device.puts_public_wrap_key(authorization, data, replies, used)),
{
}

/// The commands that make symmetric keys and import, and that which changes a key,
/// come to what their numbers stand for.
pub proof fn numbers_stand_for_new_secrets(
    device: DeviceModel,
    authorization: SessionAuthorization,
    data: Seq<u8>,
    replies: Seq<EngineReply>,
    used: nat,
)
    ensures
        device.stores(
            authorization,
            CommandCode::of_byte(0x4b)->0,
            data,
            replies,
            used,
        ) == Some(device.imports_wrapped(authorization, data, replies, used)),
        device.stores(
            authorization,
            CommandCode::of_byte(0x52)->0,
            data,
            replies,
            used,
        ) == Some(device.puts_hmac_key(authorization, data, false, replies, used)),
        device.stores(
            authorization,
            CommandCode::of_byte(0x5a)->0,
            data,
            replies,
            used,
        ) == Some(device.puts_hmac_key(authorization, data, true, replies, used)),
        device.stores(
            authorization,
            CommandCode::of_byte(0x65)->0,
            data,
            replies,
            used,
        ) == Some(device.puts_otp_aead_key(authorization, data, false, replies, used)),
        device.stores(
            authorization,
            CommandCode::of_byte(0x66)->0,
            data,
            replies,
            used,
        ) == Some(device.puts_otp_aead_key(authorization, data, true, replies, used)),
        device.stores(
            authorization,
            CommandCode::of_byte(0x6d)->0,
            data,
            replies,
            used,
        ) == Some(device.puts_symmetric_key(authorization, data, false, replies, used)),
        device.stores(
            authorization,
            CommandCode::of_byte(0x6e)->0,
            data,
            replies,
            used,
        ) == Some(device.puts_symmetric_key(authorization, data, true, replies, used)),
        device.stores(
            authorization,
            CommandCode::of_byte(0x75)->0,
            data,
            replies,
            used,
        ) == Some(device.puts_rsa_wrapped_key(authorization, data, replies, used)),
        device.stores(
            authorization,
            CommandCode::of_byte(0x77)->0,
            data,
            replies,
            used,
        ) == Some(device.imports_rsa_wrapped(authorization, data, replies, used)),
        device.stores(
            authorization,
            CommandCode::of_byte(0x6c)->0,
            data,
            replies,
            used,
        ) == Some(device.changes_authentication_key(data, replies, used)),
{
}

/// What a command reads, computes or writes is what it comes to: no command is of
/// two of these.
pub proof fn commands_are_of_one_kind(
    device: DeviceModel,
    authorization: SessionAuthorization,
    command: CommandCode,
    data: Seq<u8>,
    volatile: Option<Map<u64, VolatileModel>>,
    replies: Seq<EngineReply>,
    used: nat,
)
    ensures
        device.reads(authorization, command, data) matches Some(told) ==> device.dispatched(
            authorization,
            command,
            data,
            volatile,
            replies,
            used,
        ) == answered(lifted(told, used)),
        device.uses(authorization, command, data, replies, used) matches Some(output) ==> {
            &&& device.reads(authorization, command, data) is None
            &&& device.dispatched(authorization, command, data, volatile, replies, used)
                == answered(output)
        },
        device.stores(authorization, command, data, replies, used) matches Some(outcome) ==> {
            &&& device.reads(authorization, command, data) is None
            &&& device.uses(authorization, command, data, replies, used) is None
            &&& device.dispatched(authorization, command, data, volatile, replies, used) == outcome
        },
{
}

/// Each command that reads comes to what its number stands for.
pub proof fn numbers_stand_for_reading(
    device: DeviceModel,
    authorization: SessionAuthorization,
    command: CommandCode,
    data: Seq<u8>,
)
    ensures
        device.reads(authorization, command, data) == (match command.byte() {
            0x40 => Some(
                if data.len() == 0 {
                    Ok::<Seq<u8>, DeviceError>(Seq::empty())
                } else {
                    Err(DeviceError::WrongLength)
                },
            ),
            0x6b => Some(
                if data.len() == 1 {
                    Ok(Seq::empty())
                } else {
                    Err(DeviceError::WrongLength)
                },
            ),
            0x41 => Some(device.tells_storage(data)),
            0x43 => Some(device.opens(ObjectType::Opaque, data)),
            0x48 => Some(device.lists(authorization, data)),
            0x4d => Some(device.tells_log(data)),
            0x4e => Some(device.tells_object(authorization, data)),
            0x50 => Some(device.tells_option(data)),
            0x54 => Some(device.gets_public_key(authorization, data)),
            0x5f => Some(device.opens(ObjectType::Template, data)),
            _ => None,
        }),
{
}

/// What is read of an object takes a shared domain: contents, descriptions and
/// public keys alike.
pub proof fn reading_needs_a_shared_domain(
    device: DeviceModel,
    authorization: SessionAuthorization,
    data: Seq<u8>,
)
    ensures
        device.allows(authorization, CommandCode::GetOpaque, data) is Ok ==> shares_a_domain(
            device,
            authorization,
            place(1, u16_at(data, 0)),
        ),
        device.allows(authorization, CommandCode::GetObjectInfo, data) is Ok ==> shares_a_domain(
            device,
            authorization,
            place(data[2] as int, u16_at(data, 0)),
        ),
        device.allows(authorization, CommandCode::GetPublicKey, data) is Ok ==> shares_a_domain(
            device,
            authorization,
            place(
                if data.len() == 2 {
                    3
                } else {
                    data[2] as int
                },
                u16_at(data, 0),
            ),
        ),
{
}

/// An opaque object that is there is replaced only where the session reaches it and
/// it has the capability to be put itself.
pub proof fn replacing_needs_the_capability(
    device: DeviceModel,
    authorization: SessionAuthorization,
    data: Seq<u8>,
)
    requires
        device.allows(authorization, CommandCode::PutOpaque, data) is Ok,
        u16_at(data, 0) != 0,
        device.objects.contains_key(place(1, u16_at(data, 0))),
    ensures
        shares_a_domain(device, authorization, place(1, u16_at(data, 0))),
        carries(device, place(1, u16_at(data, 0)), 0x01),
{
    let number = place(1, u16_at(data, 0));
    assert(device.objects[number].info.capabilities.has(0x01));
}

/// What a device answers without a session: an echo, what it is, and its public
/// key.
pub proof fn some_commands_need_no_session(device: DeviceModel, request: FrameModel)
    ensures
        device.plain(request) == (match request.command {
            0x01 => Some(Ok::<Seq<u8>, DeviceError>(request.data)),
            0x06 => Some(device.tells_device_info(request.data)),
            0x0a => Some(device.tells_public_key(request.data)),
            _ => None,
        }),
{
}

/// The log is emptied up to the number that is named, options are set to what is
/// asked for, and a reset asks for a new key on P-256.
pub proof fn devices_are_managed(
    device: DeviceModel,
    authorization: SessionAuthorization,
    data: Seq<u8>,
    volatile: Option<Map<u64, VolatileModel>>,
    used: nat,
)
    ensures
        ({
            let none = Seq::<EngineReply>::empty();
            let trim = device.manages(
                authorization,
                CommandCode::SetLogIndex,
                data,
                volatile,
                none,
                used,
            );
            let set = device.manages(
                authorization,
                CommandCode::SetOption,
                data,
                volatile,
                none,
                used,
            );
            let reset = device.manages(
                authorization,
                CommandCode::ResetDevice,
                data,
                volatile,
                none,
                0,
            );
            &&& trim is Ok <==> data.len() == 2
            &&& trim matches Ok((outcome, _)) ==> outcome.effect == EffectModel::TrimLog(
                u16_at(data, 0),
            ) && outcome.data.len() == 0
            &&& set is Ok <==> device.changed_options(data) is Ok
            &&& set matches Ok((outcome, _)) ==> outcome.effect == EffectModel::SetOptions(
                device.changed_options(data)->Ok_0,
            ) && outcome.data.len() == 0
            &&& data.len() == 0 ==> (computation(reset) matches Some(asked) && asked.operation
                == Operation::GenerateKey(KeyKind::Ec(EcCurve::P256)))
        }),
{
}

} // verus!
