//! The log: what is written to it, and when.
use crate::audit::{AuditModel, EntryModel};
use crate::authorization::SessionAuthorization;
use crate::bytes::{u16_at, u16_be, u32_be};
use crate::device::{DeviceModel, EffectModel};
use crate::engine::{EngineReply, HaltModel, Operation};
use crate::error::DeviceError;
use crate::frame::FrameModel;
use crate::keys::HashAlgorithm;
use crate::promises::computing::computation;
use crate::protocol::CommandCode;
use vstd::prelude::*;

verus! {

/// The two objects that an entry names: for an authentication the session's key;
/// for an attestation or a rewrapping the two keys in their order; for an export
/// the object and then the key that it is wrapped under; and for every other
/// command what its first two bytes say.
pub open spec fn named_in(
    command: u8,
    data: Seq<u8>,
    authorization: SessionAuthorization,
) -> (int, int) {
    if command == 0x04 {
        (authorization.authentication_key_id as int, 0)
    } else if command == 0x64 {
        if data.len() == 4 {
            (u16_at(data, 0) as int, u16_at(data, 2) as int)
        } else {
            (0, 0)
        }
    } else if command == 0x63 {
        if data.len() == 40 {
            (u16_at(data, 0) as int, u16_at(data, 2) as int)
        } else {
            (0, 0)
        }
    } else if command == 0x4a {
        if 5 <= data.len() <= 6 && 1 <= data[2] <= 9 {
            (u16_at(data, 3) as int, u16_at(data, 0) as int)
        } else {
            (0, 0)
        }
    } else if command == 0x76 {
        if data.len() >= 8 && 1 <= data[2] <= 9 {
            (u16_at(data, 3) as int, u16_at(data, 0) as int)
        } else {
            (0, 0)
        }
    } else if data.len() >= 2 {
        (u16_at(data, 0) as int, 0)
    } else {
        (0, 0)
    }
}

/// An entry says what was asked, by whom, about what and with which result, and
/// carries the next number and tick.
pub proof fn entries_say_what_was_asked(
    audit: AuditModel,
    capacity: u8,
    authorization: SessionAuthorization,
    command: CommandCode,
    data: Seq<u8>,
    result: u8,
    replies: Seq<EngineReply>,
    used: nat,
)
    ensures
        ({
            let run = audit.entry(capacity, authorization, command, data, result, replies, used);
            &&& audit.entries.len() >= capacity ==> run == Ok::<_, HaltModel>(
                (None::<EntryModel>, used),
            )
            &&& audit.entries.len() < capacity ==> !(run matches Ok((None, _)))
            &&& run matches Ok((Some(entry), _)) ==> {
                &&& entry.number == audit.next_number
                &&& entry.command == command.byte()
                &&& entry.length == if data.len() <= 0xffff {
                    data.len() as int
                } else {
                    0xffff
                }
                &&& entry.session_key == authorization.authentication_key_id
                &&& entry.target_key == named_in(command.byte(), data, authorization).0
                &&& entry.second_key == named_in(command.byte(), data, authorization).1
                &&& entry.result == result
                &&& entry.systick == audit.systick
                &&& entry.digest.len() == 16
            }
        }),
{
}

/// The digest of an entry is the first half of SHA-256 of its other bytes and of
/// the digest before it.
pub proof fn digests_chain_the_entries(
    audit: AuditModel,
    capacity: u8,
    authorization: SessionAuthorization,
    command: CommandCode,
    data: Seq<u8>,
    result: u8,
    reply: EngineReply,
)
    requires
        audit.entries.len() < capacity,
        data.len() <= 0xffff,
    ensures
        ({
            let none = Seq::<EngineReply>::empty();
            let asked = computation(
                audit.entry(capacity, authorization, command, data, result, none, 0),
            );
            let named = named_in(command.byte(), data, authorization);
            let chained = audit.entry(
                capacity,
                authorization,
                command,
                data,
                result,
                none.push(reply),
                0,
            );
            &&& asked matches Some(asked) && asked.operation == Operation::Digest(
                HashAlgorithm::Sha256,
            ) && asked.data == u16_be(audit.next_number) + seq![command.byte()] + u16_be(
                data.len() as u16,
            ) + u16_be(authorization.authentication_key_id) + u16_be(named.0 as u16) + u16_be(
                named.1 as u16,
            ) + seq![result] + u32_be(audit.systick) + audit.previous_digest
            &&& reply matches EngineReply::Bytes(
                bytes,
            ) ==> bytes@.len() == 32 ==> (chained matches Ok(
                (Some(entry), _),
            ) && entry.digest == bytes@.subrange(0, 16))
        }),
{
}

/// The log goes on after an entry: it is the last of the entries, the next number
/// follows it, from the largest to one, the tick goes on, and its digest is the
/// one to chain to.
pub proof fn logs_go_on(audit: AuditModel, entry: EntryModel)
    ensures
        audit.appended(entry).entries == audit.entries.push(entry),
        audit.appended(entry).next_number == (if audit.next_number == 0xffff {
            1int
        } else {
            audit.next_number + 1
        }),
        audit.appended(entry).systick == (if audit.systick == 0xffff_ffff {
            0int
        } else {
            audit.systick + 1
        }),
        audit.appended(entry).previous_digest == entry.digest,
        audit.appended(entry).unlogged_boot == audit.unlogged_boot,
        audit.appended(entry).unlogged_authentication == audit.unlogged_authentication,
{
}

/// Whether a command is one of the transport, which need no session or make one.
pub open spec fn is_of_the_transport(command: u8) -> bool {
    command == 0x01 || command == 0x03 || command == 0x04 || command == 0x05 || command == 0x06
        || command == 0x0a || command == 0x40
}

/// A command is audited where its audit is on or fixed; of the transport only what
/// makes a session is.
pub proof fn commands_are_audited(device: DeviceModel, command: CommandCode)
    ensures
        device.audits(command) <==> device.options.command_audit.contains_key(command.byte())
            && device.options.command_audit[command.byte()] != 0 && (!is_of_the_transport(
            command.byte(),
        ) || command.byte() == 0x03 || command.byte() == 0x04),
{
}

/// Where auditing is forced and the log is full, only the transport and what reads
/// or empties the log goes on.
pub proof fn full_logs_block(device: DeviceModel, request: FrameModel)
    ensures
        device.blocked(request) <==> device.known(request) is Some && device.options.force_audit
            != 0 && device.audit.entries.len() >= device.config.log_capacity
            && !is_of_the_transport(request.command) && request.command != 0x4d && request.command
            != 0x67,
{
}

/// What a command did is in the log with its result: zero where it succeeded, and
/// the number of the error else. What is not audited leaves no entry.
pub proof fn results_are_logged(
    device: DeviceModel,
    authorization: SessionAuthorization,
    request: FrameModel,
    result: core::result::Result<Seq<u8>, DeviceError>,
    effect: EffectModel,
    replies: Seq<EngineReply>,
    used: nat,
)
    ensures
        device.concluded(authorization, request, result, effect, replies, used) matches Ok(
            (plan, _),
        ) ==> {
            &&& plan.effect == effect
            &&& plan.response == (match result {
                Ok(data) => FrameModel { command: request.command | 0x80, data },
                Err(error) => FrameModel { command: 0x7f, data: seq![error.byte()] },
            })
            &&& plan.entry matches Some(entry) ==> {
                &&& device.known(request) matches Some(command) && device.audits(command)
                &&& entry.command == request.command
                &&& entry.session_key == authorization.authentication_key_id
                &&& entry.result == (match result {
                    Ok(_) => 0,
                    Err(error) => error.byte(),
                })
            }
            &&& device.known(request) matches Some(command) ==> device.audits(command)
                && device.applied(effect).audit.entries.len() < device.config.log_capacity
                ==> plan.entry is Some
        },
{
}

} // verus!
