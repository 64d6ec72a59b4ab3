//! Objects that a session holds: how they are made of others, read and used.
use crate::authorization::SessionAuthorization;
use crate::bytes::{u16_at, u64_at, u64_be};
use crate::device::{DeviceModel, EffectModel, OutcomeModel};
use crate::engine::{EngineReply, HaltModel, Operation, Run};
use crate::error::DeviceError;
use crate::execute::objects_after;
use crate::keys::{EcCurve, HashAlgorithm, KeyKind};
use crate::promises::computing::{computation, place};
use crate::promises::storing::answer;
use crate::request::SessionResultHeader;
use crate::session_object::{VolatileMaterial, VolatileModel};
use crate::volatile::{result_length, ring_bit};
use vstd::prelude::*;

verus! {

/// The object that a command adds to a session, under its handle.
pub open spec fn added(run: Run<OutcomeModel>) -> Option<(u64, VolatileModel)> {
    match run {
        Ok((outcome, _)) => match outcome.effect {
            EffectModel::Add(handle, object) => Some((handle, object)),
            _ => None,
        },
        Err(_) => None,
    }
}

/// The secret of the object that a command adds.
pub open spec fn new_secret(run: Run<OutcomeModel>) -> Seq<u8> {
    match added(run) {
        Some((_, object)) => object.material->Secret_0,
        None => Seq::empty(),
    }
}

/// Whether a session holds a secret that others can be made of.
pub open spec fn can_be_used(objects: Map<u64, VolatileModel>, handle: u64) -> bool {
    &&& objects.contains_key(handle)
    &&& objects[handle].flags & 2 != 0
    &&& objects[handle].material is Secret
}

/// The secret under a handle.
pub open spec fn secret(objects: Map<u64, VolatileModel>, handle: u64) -> Seq<u8> {
    objects[handle].material->Secret_0
}

/// Whether a new object is what a request asked for: of the kind, with the flags
/// and of the length in its header, under a handle that is answered.
pub open spec fn is_new(
    objects: Map<u64, VolatileModel>,
    data: Seq<u8>,
    run: Run<OutcomeModel>,
    value: Seq<u8>,
) -> bool {
    &&& added(run) matches Some((handle, object)) && {
        &&& object.kind.byte() == data[2]
        &&& object.flags == data[1]
        &&& object.material == VolatileMaterial::Secret(value)
        &&& value.len() == u16_at(data, 3)
        &&& data[2] == 1 || (data[2] == 2 && (value.len() == 16 || value.len() == 24 || value.len()
            == 32))
        &&& 0 < value.len() <= 1024
        &&& answer(run) == Some(u64_be(handle))
    }
}

/// Two secrets are joined in their order, up to the length that is asked for.
pub proof fn joined_secrets_keep_their_order(
    device: DeviceModel,
    authorization: SessionAuthorization,
    objects: Map<u64, VolatileModel>,
    data: Seq<u8>,
    replies: Seq<EngineReply>,
    used: nat,
)
    requires
        data.len() > 0,
        data[0] == 3,
        device.handles_volatile(authorization, objects, data, replies, used) is Ok,
    ensures
        ({
            let run = device.handles_volatile(authorization, objects, data, replies, used);
            let (left, right) = (u64_at(data, 5), u64_at(data, 13));
            let joined = secret(objects, left) + secret(objects, right);
            &&& data.len() == 21
            &&& can_be_used(objects, left)
            &&& can_be_used(objects, right)
            &&& u16_at(data, 3) <= joined.len()
            &&& is_new(objects, data, run, joined.subrange(0, u16_at(data, 3) as int))
        }),
{
}

/// A secret is joined with data behind it, up to the length that is asked for.
pub proof fn joined_data_stands_behind(
    device: DeviceModel,
    authorization: SessionAuthorization,
    objects: Map<u64, VolatileModel>,
    data: Seq<u8>,
    replies: Seq<EngineReply>,
    used: nat,
)
    requires
        data.len() > 0,
        data[0] == 4,
        device.handles_volatile(authorization, objects, data, replies, used) is Ok,
    ensures
        ({
            let run = device.handles_volatile(authorization, objects, data, replies, used);
            let joined = secret(objects, u64_at(data, 5)) + data.subrange(13, data.len() as int);
            &&& data.len() >= 13
            &&& can_be_used(objects, u64_at(data, 5))
            &&& u16_at(data, 3) <= joined.len()
            &&& is_new(objects, data, run, joined.subrange(0, u16_at(data, 3) as int))
        }),
{
    let payload = data.subrange(1, data.len() as int);
    if data.len() >= 13 {
        assert(payload.subrange(12, payload.len() as int) =~= data.subrange(
            13,
            data.len() as int,
        ));
    }
}

/// Bits are taken out of a secret from an offset on, round and round.
pub proof fn extracted_bits_follow_the_offset(
    device: DeviceModel,
    authorization: SessionAuthorization,
    objects: Map<u64, VolatileModel>,
    data: Seq<u8>,
    replies: Seq<EngineReply>,
    used: nat,
    bit: int,
)
    requires
        data.len() > 0,
        data[0] == 5,
        device.handles_volatile(authorization, objects, data, replies, used) is Ok,
        0 <= bit < 8 * u16_at(data, 3),
    ensures
        ({
            let run = device.handles_volatile(authorization, objects, data, replies, used);
            let base = secret(objects, u64_at(data, 5));
            let offset = u16_at(data, 13) as int;
            let value = new_secret(run);
            &&& data.len() == 15
            &&& can_be_used(objects, u64_at(data, 5))
            &&& offset < 8 * base.len()
            &&& is_new(objects, data, run, value)
            &&& value.len() <= base.len()
            &&& ring_bit(value, bit) == ring_bit(base, offset + bit)
        }),
{
    let base = secret(objects, u64_at(data, 5));
    let offset = u16_at(data, 13) as int;
    let payload = data.subrange(1, data.len() as int);
    assert(data.len() == 15);
    assert(u64_at(payload, 4) == u64_at(data, 5));
    assert(u16_at(payload, 12) == u16_at(data, 13));
    assert(u16_at(payload, 2) == u16_at(data, 3));
    crate::volatile::extraction_rotates_bits(base, offset, u16_at(data, 3) as nat, bit);
}

/// The digest of a secret is asked for with SHA-256, and cut to the length that is
/// asked for.
pub proof fn digested_secrets_are_cut(
    device: DeviceModel,
    authorization: SessionAuthorization,
    objects: Map<u64, VolatileModel>,
    data: Seq<u8>,
    replies: Seq<EngineReply>,
)
    requires
        data.len() > 0,
        data[0] == 6,
        replies.len() > 0,
        device.handles_volatile(authorization, objects, data, replies, 0) is Ok,
    ensures
        ({
            let run = device.handles_volatile(authorization, objects, data, replies, 0);
            let asked = computation(
                device.handles_volatile(authorization, objects, data, Seq::empty(), 0),
            );
            &&& data.len() == 13
            &&& can_be_used(objects, u64_at(data, 5))
            &&& asked matches Some(asked) && asked.operation == Operation::Digest(
                HashAlgorithm::Sha256,
            ) && asked.data == secret(objects, u64_at(data, 5))
            &&& replies[0] matches EngineReply::Bytes(digest) && digest@.len() == 32 && is_new(
                objects,
                data,
                run,
                digest@.subrange(0, u16_at(data, 3) as int),
            )
        }),
{
}

/// The key that an agreement in a session is with: an asymmetric key of the device
/// that the session may derive with, or one that the session holds.
pub open spec fn agrees_with(
    device: DeviceModel,
    authorization: SessionAuthorization,
    objects: Map<u64, VolatileModel>,
    data: Seq<u8>,
    private: Seq<u8>,
) -> bool {
    if data[5] == 0 {
        let handle = u64_at(data, 6);
        &&& objects.contains_key(handle)
        &&& objects[handle].flags & 2 != 0
        &&& objects[handle].material matches VolatileMaterial::P256Private(key) && key.private
            == private
    } else {
        let number = place(3, u16_at(data, 6));
        let object = device.objects[number];
        &&& data[5] == 1
        &&& device.objects.contains_key(number)
        &&& authorization.domains & object.info.domains != 0
        &&& device.enabled(object.info.algorithm)
        &&& authorization.capabilities.has(0x0b)
        &&& object.info.capabilities.has(0x0b)
        &&& object.material matches crate::object::MaterialModel::SigningKey(key) && key.private
            == private
    }
}

/// An agreement keeps the last bytes of the shared secret, as many as are asked
/// for.
pub proof fn agreements_keep_the_last_bytes(
    device: DeviceModel,
    authorization: SessionAuthorization,
    objects: Map<u64, VolatileModel>,
    data: Seq<u8>,
    replies: Seq<EngineReply>,
)
    requires
        data.len() > 0,
        data[0] == 2,
        replies.len() > 0,
        device.handles_volatile(authorization, objects, data, replies, 0) is Ok,
    ensures
        ({
            let run = device.handles_volatile(authorization, objects, data, replies, 0);
            let asked = computation(
                device.handles_volatile(authorization, objects, data, Seq::empty(), 0),
            );
            let peer: int = if data[5] == 0 {
                14
            } else {
                8
            };
            &&& data.len() >= 8
            &&& asked matches Some(asked) && asked.operation is Agree && agrees_with(
                device,
                authorization,
                objects,
                data,
                asked.key,
            ) && asked.data == data.subrange(peer + 2, data.len() as int)
            &&& data.len() == peer + 2 + u16_at(data, peer)
            &&& replies[0] matches EngineReply::Bytes(shared) && u16_at(data, 3) <= shared@.len()
                && is_new(
                objects,
                data,
                run,
                shared@.subrange(shared@.len() - u16_at(data, 3), shared@.len() as int),
            )
        }),
{
    let payload = data.subrange(1, data.len() as int);
    let peer: int = if data[5] == 0 {
        14
    } else {
        8
    };
    if data.len() >= peer + 2 && data.len() == peer + 2 + u16_at(data, peer) {
        assert(payload.subrange(peer + 1, payload.len() as int) =~= data.subrange(
            peer + 2,
            data.len() as int,
        ));
    }
}

/// A secret is read where its flags let it be, and as it is.
pub proof fn held_secrets_are_read(
    device: DeviceModel,
    authorization: SessionAuthorization,
    objects: Map<u64, VolatileModel>,
    data: Seq<u8>,
    replies: Seq<EngineReply>,
    used: nat,
)
    requires
        data.len() == 9,
        data[0] == 8,
    ensures
        ({
            let run = device.handles_volatile(authorization, objects, data, replies, used);
            let handle = u64_at(data, 1);
            &&& !objects.contains_key(handle) ==> run == Err::<(OutcomeModel, nat), _>(
                HaltModel::Error(DeviceError::ObjectNotFound, used),
            )
            &&& objects.contains_key(handle) && objects[handle].flags & 1 == 0 ==> run == Err::<
                (OutcomeModel, nat),
                _,
            >(HaltModel::Error(DeviceError::InsufficientPermissions, used))
            &&& objects.contains_key(handle) && objects[handle].flags & 1 != 0
                && objects[handle].material is Secret ==> answer(run) == Some(
                secret(objects, handle),
            ) && run->Ok_0.0.effect is Nothing
        }),
{
}

/// A handle that is deleted is gone from the session, and no other is.
pub proof fn held_objects_are_deleted(
    device: DeviceModel,
    authorization: SessionAuthorization,
    objects: Map<u64, VolatileModel>,
    data: Seq<u8>,
    replies: Seq<EngineReply>,
    used: nat,
)
    requires
        data.len() == 9,
        data[0] == 0x0a,
    ensures
        ({
            let run = device.handles_volatile(authorization, objects, data, replies, used);
            let handle = u64_at(data, 1);
            if objects.contains_key(handle) {
                &&& run matches Ok((outcome, _))
                &&& outcome.data.len() == 0
                &&& objects_after(objects, outcome.effect) == objects.remove(handle)
            } else {
                run == Err::<(OutcomeModel, nat), _>(
                    HaltModel::Error(DeviceError::ObjectNotFound, used),
                )
            }
        }),
{
}

/// A code under an AES key with the flag for it is right where it is the beginning
/// of the message's code, and wrong else.
pub proof fn held_keys_verify(
    device: DeviceModel,
    authorization: SessionAuthorization,
    objects: Map<u64, VolatileModel>,
    data: Seq<u8>,
    reply: EngineReply,
)
    requires
        data.len() >= 10,
        data[0] == 9,
        1 <= data[9] <= 16,
        data.len() >= 10 + data[9],
        objects.contains_key(u64_at(data, 1)),
        objects[u64_at(data, 1)].kind.byte() == 2,
        objects[u64_at(data, 1)].flags & 4 != 0,
        objects[u64_at(data, 1)].material is Secret,
    ensures
        ({
            let none = Seq::<EngineReply>::empty();
            let asked = computation(device.handles_volatile(authorization, objects, data, none, 0));
            let run = device.handles_volatile(
                authorization,
                objects,
                data,
                none.push(reply),
                0,
            );
            let length = data[9] as int;
            &&& asked matches Some(asked) && asked.operation == Operation::Cmac && asked.key
                == secret(objects, u64_at(data, 1)) && asked.data == data.subrange(
                10 + length,
                data.len() as int,
            )
            &&& reply matches EngineReply::Bytes(code) ==> code@.len() == 16 ==> answer(run)
                == Some(
                if code@.subrange(0, length) == data.subrange(10, 10 + length) {
                    seq![1u8]
                } else {
                    seq![0u8]
                },
            )
        }),
{
    let payload = data.subrange(1, data.len() as int);
    let length = data[9] as int;
    assert(payload[8] == data[9]);
    assert(payload.subrange(9, 9 + length) =~= data.subrange(10, 10 + length));
    assert(payload.subrange(9 + length, payload.len() as int) =~= data.subrange(
        10 + length,
        data.len() as int,
    ));
}

/// New objects have no flags but the three that there are.
pub proof fn held_objects_have_known_flags(
    device: DeviceModel,
    authorization: SessionAuthorization,
    objects: Map<u64, VolatileModel>,
    data: Seq<u8>,
    replies: Seq<EngineReply>,
    used: nat,
)
    ensures
        added(device.handles_volatile(authorization, objects, data, replies, used)) matches Some(
            (_, object),
        ) ==> object.flags <= 7,
{
    if let Some((_, object)) = added(
        device.handles_volatile(authorization, objects, data, replies, used),
    ) {
        let flags = object.flags;
        assert(flags & !7u8 == 0);
        assert(flags & !7u8 == 0 ==> flags <= 7) by (bit_vector);
    }
}

/// A fresh key of a session is one on P-256 that can be used for agreements; its
/// public part is answered behind its handle.
pub proof fn fresh_keys_are_for_agreements(
    device: DeviceModel,
    authorization: SessionAuthorization,
    objects: Map<u64, VolatileModel>,
    data: Seq<u8>,
    replies: Seq<EngineReply>,
)
    requires
        data.len() > 0,
        data[0] == 1,
        device.handles_volatile(authorization, objects, data, replies, 0) is Ok,
    ensures
        ({
            let run = device.handles_volatile(authorization, objects, data, replies, 0);
            let asked = computation(
                device.handles_volatile(authorization, objects, data, Seq::empty(), 0),
            );
            &&& data.len() == 3 && data[2] == 12 && data[1] & 2 != 0
            &&& asked matches Some(asked) && asked.operation == Operation::GenerateKey(
                KeyKind::Ec(EcCurve::P256),
            )
            &&& added(run) matches Some((handle, object)) && object.kind.byte() == 3
                && object.flags == data[1] && (
            object.material matches VolatileMaterial::P256Private(key) && (
            replies[0] matches EngineReply::Key { private, second, public } && key.private
                == private@ && answer(run) == Some(u64_be(handle) + public@)))
        }),
{
}

/// A new secret has the known flags, is no private key, and has from one byte to
/// 1024.
pub proof fn results_are_asked_for_rightly(header: SessionResultHeader)
    ensures
        result_length(header) == (if header.flags > 7 || header.kind.byte() == 3 {
            Err(DeviceError::InvalidData)
        } else if 1 <= header.output_length <= 1024 {
            Ok(header.output_length as usize)
        } else {
            Err(DeviceError::WrongLength)
        }),
{
    let flags = header.flags;
    assert((flags & !7u8 == 0) == (flags <= 7)) by (bit_vector);
}

} // verus!
